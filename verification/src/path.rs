//! Request paths: which are proxied, and where they lead upstream.

use crate::text::{
    chars_list, chars_of, has_prefix, joined, opt_chars, opt_str_chars, same_text, split, split_on,
    starts_with, strip_prefix,
};
use crate::uri::RequestTarget;
use vstd::prelude::*;
use vstd::utf8::encode_utf8;

verus! {

/// Why a path is not proxied.
#[derive(Clone, Copy, Debug, PartialEq, Eq, Structural)]
pub enum OpenAiPathError {
    OutsideOpenAiScope,
    DotSegment,
}

impl OpenAiPathError {
    /// The HTTP status of a refusal.
    pub open spec fn status_code(self) -> u16 {
        match self {
            OpenAiPathError::OutsideOpenAiScope => 404,
            OpenAiPathError::DotSegment => 400,
        }
    }

    /// The error type of a refusal.
    pub open spec fn type_text(self) -> Seq<char> {
        match self {
            OpenAiPathError::OutsideOpenAiScope => "not_found"@,
            OpenAiPathError::DotSegment => "invalid_request_path"@,
        }
    }

    /// The message of a refusal.
    pub open spec fn message_text(self) -> Seq<char> {
        match self {
            OpenAiPathError::OutsideOpenAiScope => "only /v1 OpenAI-compatible endpoints are proxied"@,
            OpenAiPathError::DotSegment => "OpenAI-compatible request path contains a raw or percent-encoded dot segment"@,
        }
    }

    /// The HTTP status given to the client.
    pub fn status(self) -> (status: u16)
        ensures
            status == self.status_code(),
    {
        match self {
            OpenAiPathError::OutsideOpenAiScope => 404,
            OpenAiPathError::DotSegment => 400,
        }
    }

    /// The error type given to the client.
    pub fn error_type(self) -> (error_type: &'static str)
        ensures
            error_type@ == self.type_text(),
    {
        match self {
            OpenAiPathError::OutsideOpenAiScope => "not_found",
            OpenAiPathError::DotSegment => "invalid_request_path",
        }
    }

    /// The message given to the client.
    pub fn message(self) -> (message: &'static str)
        ensures
            message@ == self.message_text(),
    {
        match self {
            OpenAiPathError::OutsideOpenAiScope => "only /v1 OpenAI-compatible endpoints are proxied",
            OpenAiPathError::DotSegment => "OpenAI-compatible request path contains a raw or percent-encoded dot segment",
        }
    }
}

// ---------------------------------------------------------------------------
// Dot segments
// ---------------------------------------------------------------------------

/// The value of a hexadecimal digit.
pub open spec fn hex_digit(byte: u8) -> Option<u8> {
    if 48 <= byte <= 57 {
        Some((byte - 48) as u8)
    } else if 97 <= byte <= 102 {
        Some((byte - 87) as u8)
    } else if 65 <= byte <= 70 {
        Some((byte - 55) as u8)
    } else {
        None
    }
}

/// The value of a hexadecimal digit.
pub fn hex_value(byte: u8) -> (value: Option<u8>)
    ensures
        value == hex_digit(byte),
{
    if byte >= 48 && byte <= 57 {
        Some(byte - 48)
    } else if byte >= 97 && byte <= 102 {
        Some(byte - 97 + 10)
    } else if byte >= 65 && byte <= 70 {
        Some(byte - 65 + 10)
    } else {
        None
    }
}

/// The byte that a percent sign and two hexadecimal digits at `at` stand for.
pub open spec fn encoded_at(bytes: Seq<u8>, at: int) -> Option<u8> {
    if 0 <= at && at + 2 < bytes.len() && bytes[at] == 37 && hex_digit(bytes[at + 1]) is Some
        && hex_digit(bytes[at + 2]) is Some {
        Some((hex_digit(bytes[at + 1])->Some_0 * 16 + hex_digit(bytes[at + 2])->Some_0) as u8)
    } else {
        None
    }
}

/// The byte that a percent encoding at `index` stands for, and where it ends.
pub fn percent_encoded_byte(bytes: &[u8], index: usize) -> (decoded: Option<(u8, usize)>)
    ensures
        match decoded {
            Some((byte, next)) => encoded_at(bytes@, index as int) == Some(byte) && next == index
                + 3,
            None => encoded_at(bytes@, index as int) is None,
        },
{
    if index >= bytes.len() || bytes[index] != 37 {
        return None;
    }
    if index + 1 >= bytes.len() {
        return None;
    }
    let high: u8 = match hex_value(bytes[index + 1]) {
        Some(high) => high,
        None => {
            return None;
        },
    };
    if index + 2 >= bytes.len() {
        return None;
    }
    let low: u8 = match hex_value(bytes[index + 2]) {
        Some(low) => low,
        None => {
            return None;
        },
    };
    assert((high << 4) | low == high * 16 + low) by (bit_vector)
        requires
            high < 16,
            low < 16,
    ;
    Some(((high << 4) | low, index + 3))
}

/// The bytes of a path segment with its percent encodings resolved; a percent
/// sign that starts no encoding stands for itself.
pub open spec fn percent_decoded(bytes: Seq<u8>) -> Seq<u8>
    decreases bytes.len(),
{
    if bytes.len() == 0 {
        Seq::empty()
    } else {
        match encoded_at(bytes, 0) {
            Some(byte) => seq![byte] + percent_decoded(bytes.skip(3)),
            None => seq![bytes[0]] + percent_decoded(bytes.skip(1)),
        }
    }
}

/// Whether a segment is one or two dots, once decoded.
pub open spec fn is_dot_segment(bytes: Seq<u8>) -> bool {
    percent_decoded(bytes) == seq![46u8] || percent_decoded(bytes) == seq![46u8, 46u8]
}

/// Whether a path segment is one or two dots, once decoded.
pub fn path_segment_decodes_to_dot_segment(segment: &str) -> (is: bool)
    ensures
        is == is_dot_segment(encode_utf8(segment@)),
{
    let bytes = segment.as_bytes();
    let ghost all = bytes@;
    let mut first: u8 = 0;
    let mut second: u8 = 0;
    let mut count: usize = 0;
    let mut index: usize = 0;
    let ghost mut done: Seq<u8> = Seq::empty();
    assert(all.skip(0) =~= all);
    assert(done + percent_decoded(all) =~= percent_decoded(all));
    while index < bytes.len()
        invariant
            index <= bytes.len(),
            bytes@ == all,
            all == encode_utf8(segment@),
            count <= 2,
            done.len() == count,
            count >= 1 ==> done[0] == first,
            count >= 2 ==> done[1] == second,
            percent_decoded(all) == done + percent_decoded(all.skip(index as int)),
        decreases bytes.len() - index,
    {
        let ghost here = index as int;
        let ghost rest = all.skip(here);
        assert(encoded_at(rest, 0) == encoded_at(all, here));
        let byte: u8 = match percent_encoded_byte(bytes, index) {
            Some((byte, next)) => {
                index = next;
                byte
            },
            None => {
                let byte: u8 = bytes[index];
                index += 1;
                byte
            },
        };
        assert(rest.skip(index - here) =~= all.skip(index as int));
        assert(percent_decoded(rest) == seq![byte] + percent_decoded(all.skip(index as int)));
        if count == 2 {
            assert(percent_decoded(all).len() >= 3);
            return false;
        }
        if count == 0 {
            first = byte;
        } else {
            second = byte;
        }
        count += 1;
        proof {
            let before = done;
            done = done.push(byte);
            assert(before + (seq![byte] + percent_decoded(all.skip(index as int))) =~= done
                + percent_decoded(all.skip(index as int)));
        }
    }
    assert(percent_decoded(all.skip(index as int)) =~= Seq::<u8>::empty());
    assert(percent_decoded(all) =~= done);
    proof {
        if count == 1 && first == 46 {
            assert(done =~= seq![46u8]);
        }
        if count == 2 && first == 46 && second == 46 {
            assert(done =~= seq![46u8, 46u8]);
        }
        assert(seq![46u8][0] == 46);
        assert(seq![46u8, 46u8][0] == 46);
        assert(seq![46u8, 46u8][1] == 46);
    }
    (count == 1 && first == 46) || (count == 2 && first == 46 && second == 46)
}

/// Whether a path lies in the proxied scope.
pub open spec fn in_scope(path: Seq<char>) -> bool {
    path == "/v1"@ || has_prefix(path, "/v1/"@)
}

/// Whether some segment of a path is one or two dots, once decoded.
pub open spec fn has_dot_segment(path: Seq<char>) -> bool {
    exists|i: int|
        0 <= i < split_on(path, '/').len() && is_dot_segment(
            encode_utf8(#[trigger] split_on(path, '/')[i]),
        )
}

/// Accepts a path in the proxied scope without dot segments.
pub fn validate_openai_path(path: &str) -> (checked: Result<(), OpenAiPathError>)
    ensures
        checked == if !in_scope(path@) {
            Err::<(), OpenAiPathError>(OpenAiPathError::OutsideOpenAiScope)
        } else if has_dot_segment(path@) {
            Err::<(), OpenAiPathError>(OpenAiPathError::DotSegment)
        } else {
            Ok::<(), OpenAiPathError>(())
        },
{
    if !same_text(path, "/v1") && !starts_with(path, "/v1/") {
        return Err(OpenAiPathError::OutsideOpenAiScope);
    }
    let segments = split(path, '/');
    let ghost all = split_on(path@, '/');
    let mut i: usize = 0;
    while i < segments.len()
        invariant
            i <= segments.len(),
            chars_list(segments@) == all,
            all == split_on(path@, '/'),
            in_scope(path@),
            forall|j: int| 0 <= j < i ==> !is_dot_segment(encode_utf8(#[trigger] all[j])),
        decreases segments.len() - i,
    {
        assert(all[i as int] == segments[i as int]@);
        if path_segment_decodes_to_dot_segment(segments[i].as_str()) {
            return Err(OpenAiPathError::DotSegment);
        }
        i += 1;
    }
    Ok(())
}

/// Whether a path is that of chat completions.
pub open spec fn is_chat_path(path: Seq<char>) -> bool {
    path == "/v1/chat/completions"@ || path == "/chat/completions"@
}

/// Whether a path is that of chat completions.
pub fn is_chat_completion_path(path: &str) -> (is: bool)
    ensures
        is == is_chat_path(path@),
{
    same_text(path, "/v1/chat/completions") || same_text(path, "/chat/completions")
}

// ---------------------------------------------------------------------------
// Upstream paths
// ---------------------------------------------------------------------------

/// A text without the slashes at its end.
pub open spec fn without_end_slashes(text: Seq<char>) -> Seq<char>
    decreases text.len(),
{
    if text.len() > 0 && text.last() == '/' {
        without_end_slashes(text.drop_last())
    } else {
        text
    }
}

/// A copy of a text without the slashes at its end.
pub fn trim_end_slashes(text: &str) -> (rest: String)
    ensures
        rest@ == without_end_slashes(text@),
{
    let chars = chars_of(text);
    let mut to: usize = chars.len();
    assert(text@.take(to as int) =~= text@);
    while to > 0 && chars[to - 1] == '/'
        invariant
            to <= chars.len(),
            chars@ == text@,
            without_end_slashes(text@) == without_end_slashes(text@.take(to as int)),
        decreases to,
    {
        assert(text@.take(to as int).drop_last() =~= text@.take(to - 1));
        to -= 1;
    }
    let rest = text.substring_char(0, to).to_owned();
    assert(rest@ =~= text@.take(to as int));
    rest
}

/// Where a request path leads below the path of an upstream. An upstream whose
/// path is `/v1` serves the `/v1` paths as they are.
pub open spec fn joined_path(base_path: Seq<char>, downstream_path: Seq<char>) -> Seq<char> {
    let base = without_end_slashes(base_path);
    if base.len() == 0 {
        downstream_path
    } else if base == "/v1"@ && (downstream_path == "/v1"@ || has_prefix(downstream_path, "/v1/"@)) {
        downstream_path
    } else {
        base + downstream_path
    }
}

/// Where a request path leads below the path of an upstream.
pub fn upstream_path(base_path: &str, downstream_path: &str) -> (path: String)
    ensures
        path@ == joined_path(base_path@, downstream_path@),
{
    let base = trim_end_slashes(base_path);
    if base.as_str().is_empty() {
        return downstream_path.to_owned();
    }
    if same_text(base.as_str(), "/v1") {
        if same_text(downstream_path, "/v1") {
            return "/v1".to_owned();
        }
        match strip_prefix(downstream_path, "/v1/") {
            Some(suffix) => {
                let path = joined("/v1/", suffix.as_str());
                assert(path@ =~= downstream_path@);
                return path;
            },
            None => {},
        }
    }
    joined(base.as_str(), downstream_path)
}

/// The proxied scope is not doubled: a proxied path keeps its form below an
/// upstream without a path and below one whose path is `/v1`, whatever slashes
/// follow.
pub proof fn proxied_paths_keep_their_form(base_path: Seq<char>, path: Seq<char>)
    requires
        in_scope(path),
        without_end_slashes(base_path).len() == 0 || without_end_slashes(base_path) == "/v1"@,
    ensures
        joined_path(base_path, path) == path,
{
}

/// A URL as the HTTP client holds it.
#[verifier::external_type_specification]
#[verifier::external_body]
pub struct ExUrl(reqwest::Url);

/// What `reqwest::Url` makes of a text: the URL, or the text of the error.
pub uninterp spec fn parsed_url(text: Seq<char>) -> Result<reqwest::Url, Seq<char>>;

/// The text of a URL.
pub uninterp spec fn url_text(url: reqwest::Url) -> Seq<char>;

/// The path of a URL.
pub uninterp spec fn url_path(url: reqwest::Url) -> Seq<char>;

/// A URL with another path.
pub uninterp spec fn url_with_path(url: reqwest::Url, path: Seq<char>) -> reqwest::Url;

/// A URL with another query, or without one.
pub uninterp spec fn url_with_query(url: reqwest::Url, query: Option<Seq<char>>) -> reqwest::Url;

/// A URL with another fragment, or without one.
pub uninterp spec fn url_with_fragment(
    url: reqwest::Url,
    fragment: Option<Seq<char>>,
) -> reqwest::Url;

/// Whether the bytes of a URL can be counted in 32 bits.
pub open spec fn is_countable(url: reqwest::Url) -> bool {
    encode_utf8(url_text(url)).len() <= u32::MAX
}

/// `reqwest::Url::parse`. The URL is a function of the text; an error is given as
/// its text.
#[verifier::external_body]
fn parse_url(text: &str) -> (parsed: Result<reqwest::Url, String>)
    ensures
        match parsed {
            Ok(url) => parsed_url(text@) == Ok::<reqwest::Url, Seq<char>>(url),
            Err(error) => parsed_url(text@) == Err::<reqwest::Url, Seq<char>>(error@),
        },
{
    reqwest::Url::parse(text).map_err(|error| error.to_string())
}

/// `reqwest::Url::as_str` is a function of the URL.
pub assume_specification[ reqwest::Url::as_str ](url: &reqwest::Url) -> (text: &str)
    ensures
        text@ == url_text(*url),
;

/// `reqwest::Url::path` is a function of the URL.
pub assume_specification[ reqwest::Url::path ](url: &reqwest::Url) -> (path: &str)
    ensures
        path@ == url_path(*url),
;

/// What `reqwest::Url::set_path` makes of a URL is a function of the URL and the path.
/// It counts bytes in 32 bits, so it is for URLs that are no longer than that, and
/// for the empty path, which makes none of them longer.
pub assume_specification[ reqwest::Url::set_path ](url: &mut reqwest::Url, path: &str)
    requires
        path@.len() == 0,
        is_countable(*old(url)),
    ensures
        *final(url) == url_with_path(*old(url), path@),
;

/// What `reqwest::Url::set_query` makes of a URL is a function of the URL and the query.
/// Taking the query away is always possible.
pub assume_specification[ reqwest::Url::set_query ](url: &mut reqwest::Url, query: Option<&str>)
    requires
        query is None,
    ensures
        *final(url) == url_with_query(*old(url), opt_str_chars(query)),
;

/// What `reqwest::Url::set_fragment` makes of a URL is a function of the URL and the
/// fragment. Taking the fragment away is always possible.
pub assume_specification[ reqwest::Url::set_fragment ](
    url: &mut reqwest::Url,
    fragment: Option<&str>,
)
    requires
        fragment is None,
    ensures
        *final(url) == url_with_fragment(*old(url), opt_str_chars(fragment)),
;

/// The root of a URL: without path, query and fragment.
pub open spec fn url_root(url: reqwest::Url) -> Seq<char> {
    url_text(url_with_fragment(url_with_query(url_with_path(url, ""@), None), None))
}

/// Told of a base URL that is too long.
pub const URL_TOO_LONG: &'static str = "URLs more than 4 GB are not supported";

/// Why no upstream URL can be built.
pub enum UpstreamUrlError {
    /// The request path is not proxied.
    Path(OpenAiPathError),
    /// The base URL is no URL, or leads to none.
    Url(String),
}

/// The meaning of a failure to build an upstream URL.
#[verifier::ext_equal]
pub enum UpstreamUrlErrorModel {
    Path(OpenAiPathError),
    Url(Seq<char>),
}

impl View for UpstreamUrlError {
    type V = UpstreamUrlErrorModel;

    open spec fn view(&self) -> UpstreamUrlErrorModel {
        match self {
            UpstreamUrlError::Path(error) => UpstreamUrlErrorModel::Path(*error),
            UpstreamUrlError::Url(reason) => UpstreamUrlErrorModel::Url(reason@),
        }
    }
}

/// The text of the URL of a request below a base URL.
pub open spec fn url_below(base: reqwest::Url, uri: (Seq<char>, Option<Seq<char>>)) -> Seq<char> {
    let url = without_end_slashes(url_root(base)) + joined_path(url_path(base), uri.0);
    match uri.1 {
        Some(query) => url + "?"@ + query,
        None => url,
    }
}

/// The upstream URL of a request.
pub open spec fn upstream_url(
    base_url: Seq<char>,
    base_check: Option<Seq<char>>,
    uri: (Seq<char>, Option<Seq<char>>),
) -> Result<reqwest::Url, UpstreamUrlErrorModel> {
    if !in_scope(uri.0) {
        Err(UpstreamUrlErrorModel::Path(OpenAiPathError::OutsideOpenAiScope))
    } else if has_dot_segment(uri.0) {
        Err(UpstreamUrlErrorModel::Path(OpenAiPathError::DotSegment))
    } else {
        match base_check {
            Some(reason) => Err(UpstreamUrlErrorModel::Url(reason)),
            None => match parsed_url(base_url) {
                Err(reason) => Err(UpstreamUrlErrorModel::Url(reason)),
                Ok(base) => if !is_countable(base) {
                    Err(UpstreamUrlErrorModel::Url(URL_TOO_LONG@))
                } else {
                    match parsed_url(url_below(base, uri)) {
                        Err(reason) => Err(UpstreamUrlErrorModel::Url(reason)),
                        Ok(url) => Ok(url),
                    }
                },
            },
        }
    }
}

/// The URL of a request below a base URL, as text.
pub fn join_upstream_url(base: reqwest::Url, uri: &RequestTarget) -> (url: String)
    requires
        is_countable(base),
    ensures
        url@ == url_below(base, uri@),
{
    let mut root = base;
    let path = upstream_path(root.path(), uri.path.as_str());
    proof {
        reveal_strlit("");
    }
    root.set_path("");
    root.set_query(None);
    root.set_fragment(None);
    let mut url = trim_end_slashes(root.as_str());
    url.append(path.as_str());
    match &uri.query {
        Some(query) => {
            url.append("?");
            url.append(query.as_str());
        },
        None => {},
    }
    url
}

/// Builds the upstream URL of a request. `base_check` is why the base URL is not
/// allowed as an upstream, if it is not.
pub fn build_upstream_url(base_url: &str, base_check: Option<String>, uri: &RequestTarget) -> (url:
    Result<reqwest::Url, UpstreamUrlError>)
    ensures
        match url {
            Ok(url) => upstream_url(base_url@, opt_chars(base_check), uri@) == Ok::<
                reqwest::Url,
                UpstreamUrlErrorModel,
            >(url),
            Err(error) => upstream_url(base_url@, opt_chars(base_check), uri@) == Err::<
                reqwest::Url,
                UpstreamUrlErrorModel,
            >(error@),
        },
{
    match validate_openai_path(uri.path.as_str()) {
        Ok(_) => {},
        Err(error) => {
            return Err(UpstreamUrlError::Path(error));
        },
    }
    match base_check {
        Some(reason) => {
            return Err(UpstreamUrlError::Url(reason));
        },
        None => {},
    }
    let base = match parse_url(base_url) {
        Ok(base) => base,
        Err(reason) => {
            return Err(UpstreamUrlError::Url(reason));
        },
    };
    if base.as_str().as_bytes().len() > u32::MAX as usize {
        return Err(UpstreamUrlError::Url(URL_TOO_LONG.to_owned()));
    }
    let url = join_upstream_url(base, uri);
    match parse_url(url.as_str()) {
        Ok(url) => Ok(url),
        Err(reason) => Err(UpstreamUrlError::Url(reason)),
    }
}

/// A hexadecimal digit counts from 0 to 15, in capitals or not.
pub proof fn hexadecimal_digits_count(byte: u8, value: u8)
    ensures
        hex_digit(byte) matches Some(digit) ==> digit < 16,
        value < 10 ==> hex_digit((48 + value) as u8) == Some(value),
        10 <= value < 16 ==> hex_digit((87 + value) as u8) == Some(value) && hex_digit(
            (55 + value) as u8,
        ) == Some(value),
        hex_digit(byte) is Some <==> 48 <= byte <= 57 || 65 <= byte <= 70 || 97 <= byte <= 102,
{
}

/// A percent sign with two digits stands for one byte, and every other byte for itself.
pub proof fn escapes_stand_for_one_byte(high: u8, low: u8, plain: u8, rest: Seq<u8>)
    requires
        hex_digit(high) is Some,
        hex_digit(low) is Some,
        plain != 37,
    ensures
        percent_decoded(seq![37u8, high, low] + rest) == seq![
            (hex_digit(high)->Some_0 * 16 + hex_digit(low)->Some_0) as u8,
        ] + percent_decoded(rest),
        percent_decoded(seq![plain] + rest) == seq![plain] + percent_decoded(rest),
        percent_decoded(Seq::empty()) == Seq::<u8>::empty(),
{
    assert((seq![37u8, high, low] + rest).skip(3) =~= rest);
    assert((seq![plain] + rest).skip(1) =~= rest);
}

/// One dot and two dots are refused as segments however they are written, and three
/// dots are a name.
pub proof fn written_dots_are_dots(dot: u8)
    requires
        dot == 101 || dot == 69,
    ensures
        is_dot_segment(seq![46u8]),
        is_dot_segment(seq![46u8, 46u8]),
        is_dot_segment(seq![37u8, 50u8, dot]),
        is_dot_segment(seq![37u8, 50u8, dot, 46u8]),
        is_dot_segment(seq![46u8, 37u8, 50u8, dot]),
        is_dot_segment(seq![37u8, 50u8, dot, 37u8, 50u8, dot]),
        !is_dot_segment(seq![46u8, 46u8, 46u8]),
        !is_dot_segment(Seq::empty()),
{
    let none = Seq::<u8>::empty();
    let one = seq![46u8];
    let escaped = seq![37u8, 50u8, dot];
    escapes_stand_for_one_byte(50, dot, 46, none);
    assert(one + none =~= one);
    assert(escaped + none =~= escaped);
    assert(percent_decoded(one) =~= one);
    assert(percent_decoded(escaped) =~= one);
    escapes_stand_for_one_byte(50, dot, 46, one);
    escapes_stand_for_one_byte(50, dot, 46, escaped);
    assert(one + one =~= seq![46u8, 46u8]);
    assert(escaped + one =~= seq![37u8, 50u8, dot, 46u8]);
    assert(one + escaped =~= seq![46u8, 37u8, 50u8, dot]);
    assert(escaped + escaped =~= seq![37u8, 50u8, dot, 37u8, 50u8, dot]);
    let two = seq![46u8, 46u8];
    assert(percent_decoded(two) =~= two);
    escapes_stand_for_one_byte(50, dot, 46, two);
    assert(one + two =~= seq![46u8, 46u8, 46u8]);
    assert(percent_decoded(one + two).len() == 3);
    assert(percent_decoded(none).len() == 0);
}

/// What lies below `/v1` is proxied and nothing else; what is not is not found, and
/// what leads out of it by dots is a bad request.
pub proof fn only_the_api_is_proxied(path: Seq<char>, rest: Seq<char>)
    ensures
        in_scope("/v1"@),
        in_scope("/v1/"@ + rest),
        in_scope(path) ==> path == "/v1"@ || path == "/v1/"@ + path.skip(4),
        OpenAiPathError::OutsideOpenAiScope.status_code() == 404,
        OpenAiPathError::DotSegment.status_code() == 400,
{
    reveal_strlit("/v1/");
    assert(("/v1/"@ + rest).take("/v1/"@.len() as int) =~= "/v1/"@);
    if has_prefix(path, "/v1/"@) {
        crate::text::prefixes_and_parts_are_found(path, "/v1/"@, rest);
    }
}

/// A path is refused where any of its segments is one dot or two.
pub proof fn dots_are_refused_anywhere(before: Seq<char>, dots: Seq<char>, after: Seq<char>)
    requires
        is_dot_segment(encode_utf8(dots)),
        !dots.contains('/'),
    ensures
        has_dot_segment(before.push('/') + dots),
        has_dot_segment((before.push('/') + dots).push('/') + after),
{
    crate::text::texts_split_at_separators(before, dots, '/');
    crate::text::texts_split_at_separators(dots, after, '/');
    let head = before.push('/') + dots;
    let parts = split_on(before, '/');
    assert(split_on(head, '/') =~= parts + seq![dots]);
    assert(split_on(head, '/')[parts.len() as int] == dots);
    crate::text::texts_split_at_separators(head, after, '/');
    let whole = head.push('/') + after;
    assert(split_on(whole, '/') == split_on(head, '/') + split_on(after, '/'));
    assert(split_on(whole, '/')[parts.len() as int] == dots);
}

/// Slashes at the end of a base do not matter, and nothing else is cut from it.
pub proof fn end_slashes_are_cut(text: Seq<char>)
    ensures
        without_end_slashes(text.push('/')) == without_end_slashes(text),
        without_end_slashes(text).len() > 0 ==> without_end_slashes(text).last() != '/',
        text.len() > 0 && text.last() != '/' ==> without_end_slashes(text) == text,
        without_end_slashes(text).len() <= text.len(),
        forall|i: int|
            0 <= i < without_end_slashes(text).len() ==> without_end_slashes(text)[i] == text[i],
        forall|i: int| without_end_slashes(text).len() <= i < text.len() ==> text[i] == '/',
    decreases text.len(),
{
    assert(text.push('/').drop_last() =~= text);
    if text.len() > 0 && text.last() == '/' {
        end_slashes_are_cut(text.drop_last());
        let rest = without_end_slashes(text.drop_last());
        assert forall|i: int| 0 <= i < rest.len() implies rest[i] == text[i] by {
            assert(text.drop_last()[i] == text[i]);
        }
        assert forall|i: int| rest.len() <= i < text.len() implies text[i] == '/' by {
            if i < text.len() - 1 {
                assert(text.drop_last()[i] == text[i]);
            }
        }
    }
}

/// A request goes below the base of its upstream: the path of the base comes first
/// and that of the request after it, and `/v1` is not written twice. A query stays.
pub proof fn requests_go_below_their_base(
    base_path: Seq<char>,
    path: Seq<char>,
    base: reqwest::Url,
    query: Seq<char>,
)
    requires
        base_path.len() > 0,
        base_path.last() != '/',
    ensures
        base_path != "/v1"@ || !in_scope(path) ==> joined_path(base_path, path) == base_path + path,
        base_path == "/v1"@ && in_scope(path) ==> joined_path(base_path, path) == path,
        joined_path(base_path.push('/'), path) == joined_path(base_path, path),
        joined_path(""@, path) == path,
        joined_path("/"@, path) == path,
        url_below(base, (path, Some(query))) == url_below(base, (path, None)) + "?"@ + query,
{
    end_slashes_are_cut(base_path);
    reveal_strlit("");
    reveal_strlit("/");
    assert("/"@.drop_last() =~= Seq::<char>::empty());
    assert("/"@.last() == '/');
    assert(without_end_slashes(Seq::<char>::empty()).len() == 0);
}

/// Nothing outside the API and nothing with dots in it reaches an upstream; what does
/// goes below the base of the upstream.
pub proof fn upstreams_are_reached_by_good_paths(
    base_url: Seq<char>,
    base_check: Option<Seq<char>>,
    path: Seq<char>,
    query: Option<Seq<char>>,
)
    ensures
        upstream_url(base_url, base_check, (path, query)) matches Ok(url) ==> {
            &&& path == "/v1"@ || has_prefix(path, "/v1/"@)
            &&& !has_dot_segment(path)
            &&& base_check is None
            &&& (parsed_url(base_url) matches Ok(base) && parsed_url(url_below(base, (path, query)))
                == Ok::<reqwest::Url, Seq<char>>(url))
        },
        path != "/v1"@ && !has_prefix(path, "/v1/"@) ==> upstream_url(
            base_url,
            base_check,
            (path, query),
        ) == Err::<reqwest::Url, UpstreamUrlErrorModel>(
            UpstreamUrlErrorModel::Path(OpenAiPathError::OutsideOpenAiScope),
        ),
        in_scope(path) && has_dot_segment(path) ==> upstream_url(
            base_url,
            base_check,
            (path, query),
        ) == Err::<reqwest::Url, UpstreamUrlErrorModel>(
            UpstreamUrlErrorModel::Path(OpenAiPathError::DotSegment),
        ),
        is_chat_path("/v1/chat/completions"@),
{
}

/// An escape is a percent sign and two hexadecimal digits, and stands for their number.
pub proof fn escapes_are_two_digits(bytes: Seq<u8>, at: int)
    ensures
        encoded_at(bytes, at) matches Some(byte) ==> {
            &&& bytes[at] == 37
            &&& hex_digit(bytes[at + 1]) is Some
            &&& hex_digit(bytes[at + 2]) is Some
            &&& byte == hex_digit(bytes[at + 1])->Some_0 * 16 + hex_digit(bytes[at + 2])->Some_0
        },
        0 <= at < bytes.len() && bytes[at] != 37 ==> encoded_at(bytes, at) is None,
        0 <= at && at + 2 >= bytes.len() ==> encoded_at(bytes, at) is None,
{
    if encoded_at(bytes, at) is Some {
        hexadecimal_digits_count(bytes[at + 1], 0);
        hexadecimal_digits_count(bytes[at + 2], 0);
    }
}

/// A path that may not be is told which rule it breaks.
pub proof fn refused_paths_are_told_why(error: OpenAiPathError)
    ensures
        error is OutsideOpenAiScope ==> error.type_text() == "not_found"@,
        error is DotSegment ==> error.type_text() == "invalid_request_path"@,
        error is OutsideOpenAiScope ==> error.message_text() == "only /v1 OpenAI-compatible endpoints are proxied"@,
        error is DotSegment ==> error.message_text() == "OpenAI-compatible request path contains a raw or percent-encoded dot segment"@,
{
}

} // verus!
