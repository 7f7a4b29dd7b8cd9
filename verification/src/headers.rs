//! HTTP header fields: what is forwarded, and what they say of a message.

use crate::metadata::{Bindings, Metadata};
use crate::records::{DownstreamMode, UpstreamMode};
use crate::text::{
    chars_list, clone_bytes, contains, decimal, decimal_text, has_part, has_prefix, joined, lowered,
    parse_u64, parsed_unsigned, position_of, same_text, split, split_on, starts_with,
    to_lowercase, trim, trimmed,
};
use vstd::prelude::*;

verus! {

/// Shown in place of a header value that is not text.
pub const HEADER_VALUE_NOT_UTF8: &'static str = "[non-utf8]";

/// Shown in place of a header value that is a credential.
pub const HEADER_VALUE_REDACTED: &'static str = "[redacted]";

/// One header field: its name and the bytes of its value.
struct Header {
    name: String,
    value: Vec<u8>,
}

/// The meaning of a header field.
pub type HeaderModel = (Seq<char>, Seq<u8>);

impl View for Header {
    type V = HeaderModel;

    closed spec fn view(&self) -> HeaderModel {
        (self.name@, self.value@)
    }
}

/// The header fields of a message, in order, their names in lower case.
pub struct Headers {
    fields: Vec<Header>,
}

impl View for Headers {
    type V = Seq<HeaderModel>;

    closed spec fn view(&self) -> Seq<HeaderModel> {
        Seq::new(self.fields.len() as nat, |i: int| self.fields[i]@)
    }
}

/// Whether every name is in lower case.
pub open spec fn in_lower_case(headers: Seq<HeaderModel>) -> bool {
    forall|i: int| 0 <= i < headers.len() ==> lowered((#[trigger] headers[i]).0) == headers[i].0
}

impl Headers {
    #[verifier::type_invariant]
    spec fn wf(self) -> bool {
        in_lower_case(self@)
    }
}

proof fn lemma_lowered_once(text: Seq<char>)
    ensures
        lowered(lowered(text)) == lowered(text),
{
    assert(lowered(lowered(text)) =~= lowered(text));
}

/// The value of the first field with the given name, in whichever case it is given.
pub open spec fn header_value_of(headers: Seq<HeaderModel>, name: Seq<char>) -> Option<Seq<u8>>
    decreases headers.len(),
{
    if headers.len() == 0 {
        None
    } else if headers[0].0 == lowered(name) {
        Some(headers[0].1)
    } else {
        header_value_of(headers.drop_first(), name)
    }
}

/// Whether a byte may stand in a header value that is text.
pub open spec fn is_visible_ascii(byte: u8) -> bool {
    (byte >= 32 && byte < 127) || byte == 9
}

/// The characters of a header value, where it is text.
pub open spec fn header_chars(value: Seq<u8>) -> Option<Seq<char>> {
    if forall|i: int| 0 <= i < value.len() ==> is_visible_ascii(#[trigger] value[i]) {
        Some(Seq::new(value.len(), |i: int| value[i] as char))
    } else {
        None
    }
}

/// The text of a header value, where it is text.
pub fn header_text(value: &Vec<u8>) -> (text: Option<String>)
    ensures
        crate::text::opt_chars(text) == header_chars(value@),
{
    let mut text = String::new();
    let mut i: usize = 0;
    while i < value.len()
        invariant
            i <= value.len(),
            text@.len() == i,
            forall|j: int|
                0 <= j < i ==> is_visible_ascii(#[trigger] value[j]) && text@[j] == value[j] as char,
        decreases value.len() - i,
    {
        let byte: u8 = value[i];
        if !((byte >= 32 && byte < 127) || byte == 9) {
            assert(!is_visible_ascii(value@[i as int]));
            return None;
        }
        text.push(byte as char);
        i += 1;
    }
    assert(text@ =~= Seq::new(value@.len(), |i: int| value@[i] as char));
    Some(text)
}

/// The text of the first field with the given name, where it is text.
pub open spec fn header_text_of(headers: Seq<HeaderModel>, name: Seq<char>) -> Option<Seq<char>> {
    match header_value_of(headers, name) {
        Some(value) => header_chars(value),
        None => None,
    }
}

impl Headers {
    /// No header fields.
    pub fn new() -> (headers: Headers)
        ensures
            headers@ == Seq::<HeaderModel>::empty(),
    {
        let headers = Headers { fields: Vec::new() };
        assert(headers@ =~= Seq::<HeaderModel>::empty());
        headers
    }

    /// Adds a field at the end, its name in lower case.
    pub fn append(&mut self, name: &str, value: &Vec<u8>)
        ensures
            final(self)@ == old(self)@.push((lowered(name@), value@)),
            in_lower_case(final(self)@),
    {
        proof {
            use_type_invariant(&*self);
            lemma_lowered_once(name@);
        }
        let ghost before = self@;
        let added = Header { name: to_lowercase(name), value: clone_bytes(value) };
        let mut fields: Vec<Header> = Vec::new();
        std::mem::swap(&mut fields, &mut self.fields);
        fields.push(added);
        let ghost after = before.push((lowered(name@), value@));
        assert(Seq::new(fields.len() as nat, |i: int| fields[i]@) =~= after);
        assert forall|i: int| 0 <= i < after.len() implies lowered((#[trigger] after[i]).0)
            == after[i].0 by {
            if i < before.len() {
                assert(after[i] == before[i]);
            }
        }
        *self = Headers { fields };
    }

    /// The number of fields.
    pub fn len(&self) -> (len: usize)
        ensures
            len == self@.len(),
            in_lower_case(self@),
    {
        proof {
            use_type_invariant(self);
        }
        self.fields.len()
    }

    /// The name of a field.
    pub fn name(&self, i: usize) -> (name: &str)
        requires
            i < self@.len(),
        ensures
            name@ == self@[i as int].0,
            lowered(name@) == name@,
    {
        proof {
            use_type_invariant(self);
            assert(self@[i as int] == self.fields[i as int]@);
        }
        self.fields[i].name.as_str()
    }

    /// The value of a field.
    pub fn value(&self, i: usize) -> (value: &Vec<u8>)
        requires
            i < self@.len(),
        ensures
            value@ == self@[i as int].1,
    {
        assert(self@[i as int] == self.fields[i as int]@);
        &self.fields[i].value
    }

    /// The value of the first field with the given name, in whichever case it is given.
    pub fn get(&self, name: &str) -> (value: Option<&Vec<u8>>)
        ensures
            match value {
                Some(value) => header_value_of(self@, name@) == Some(value@),
                None => header_value_of(self@, name@) is None,
            },
    {
        let lower = to_lowercase(name);
        let mut i: usize = 0;
        assert(self@.skip(0) =~= self@);
        while i < self.fields.len()
            invariant
                i <= self.fields.len(),
                lower@ == lowered(name@),
                header_value_of(self@, name@) == header_value_of(self@.skip(i as int), name@),
            decreases self.fields.len() - i,
        {
            assert(self@.skip(i as int).drop_first() =~= self@.skip(i + 1));
            assert(self@.skip(i as int)[0] == self.fields[i as int]@);
            if same_text(self.fields[i].name.as_str(), lower.as_str()) {
                return Some(&self.fields[i].value);
            }
            i += 1;
        }
        None
    }

    /// The text of the first field with the given name, where it is text.
    pub fn get_text(&self, name: &str) -> (text: Option<String>)
        ensures
            crate::text::opt_chars(text) == header_text_of(self@, name@),
    {
        match self.get(name) {
            Some(value) => header_text(value),
            None => None,
        }
    }
}

impl Clone for Headers {
    fn clone(&self) -> (copy: Headers)
        ensures
            copy@ == self@,
    {
        let mut copy = Headers::new();
        let mut i: usize = 0;
        while i < self.len()
            invariant
                i <= self@.len(),
                copy@ == self@.take(i as int),
            decreases self@.len() - i,
        {
            copy.append(self.name(i), self.value(i));
            i += 1;
            assert(copy@ =~= self@.take(i as int));
        }
        assert(copy@ =~= self@);
        copy
    }
}

// ---------------------------------------------------------------------------
// Forwarding
// ---------------------------------------------------------------------------

/// The header name that `axum::http::HeaderName` makes of a text.
pub uninterp spec fn parsed_header_name(text: Seq<char>) -> Option<Seq<char>>;

/// `axum::http::HeaderName::from_bytes` on the bytes of a text. The name, where
/// there is one, is a function of the text.
#[verifier::external_body]
fn parse_header_name(text: &str) -> (name: Option<String>)
    ensures
        crate::text::opt_chars(name) == parsed_header_name(text@),
{
    axum::http::HeaderName::from_bytes(text.as_bytes()).ok().map(|name| name.as_str().to_owned())
}

/// Whether a list of header names, separated by commas, holds a name.
pub open spec fn lists_name(text: Seq<char>, name: Seq<char>) -> bool {
    exists|i: int|
        0 <= i < split_on(text, ',').len() && parsed_header_name(
            trimmed(#[trigger] split_on(text, ',')[i]),
        ) == Some(name)
}

/// Whether one header field is a `Connection` field that lists a name.
pub open spec fn connection_lists(header: HeaderModel, name: Seq<char>) -> bool {
    header.0 == "connection"@ && header_chars(header.1) is Some && lists_name(
        header_chars(header.1)->Some_0,
        name,
    )
}

/// Whether some `Connection` field lists a name.
pub open spec fn is_connection_token(headers: Seq<HeaderModel>, name: Seq<char>) -> bool {
    exists|i: int| 0 <= i < headers.len() && connection_lists(#[trigger] headers[i], name)
}

/// Whether a field belongs to one connection only.
pub open spec fn is_hop_by_hop(name: Seq<char>) -> bool {
    ||| name == "connection"@
    ||| name == "keep-alive"@
    ||| name == "proxy-authenticate"@
    ||| name == "proxy-authorization"@
    ||| name == "te"@
    ||| name == "trailer"@
    ||| name == "transfer-encoding"@
    ||| name == "upgrade"@
}

/// Whether a field belongs to one connection only.
pub fn is_hop_by_hop_header(name: &str) -> (is: bool)
    ensures
        is == is_hop_by_hop(name@),
{
    same_text(name, "connection") || same_text(name, "keep-alive") || same_text(
        name,
        "proxy-authenticate",
    ) || same_text(name, "proxy-authorization") || same_text(name, "te") || same_text(
        name,
        "trailer",
    ) || same_text(name, "transfer-encoding") || same_text(name, "upgrade")
}

/// Whether a field is for the proxy's own administration.
pub fn is_admin_only_request_header(name: &str) -> (is: bool)
    ensures
        is == (name@ == "x-admin-token"@),
{
    same_text(name, "x-admin-token")
}

/// Whether a list of names holds exactly the names that the `Connection` fields
/// list.
pub open spec fn holds_connection_tokens(
    tokens: Seq<Seq<char>>,
    headers: Seq<HeaderModel>,
) -> bool {
    forall|name: Seq<char>| #[trigger]
        tokens.contains(name) == is_connection_token(headers, name)
}

fn push_listed_names(tokens: &mut Vec<String>, text: &str)
    ensures
        forall|name: Seq<char>| #[trigger]
            chars_list(final(tokens)@).contains(name) == (chars_list(old(tokens)@).contains(name)
                || lists_name(text@, name)),
{
    let parts = split(text, ',');
    let ghost all = split_on(text@, ',');
    let ghost start = chars_list(tokens@);
    let mut i: usize = 0;
    while i < parts.len()
        invariant
            i <= parts.len(),
            chars_list(parts@) == all,
            forall|name: Seq<char>| #[trigger]
                chars_list(tokens@).contains(name) == (start.contains(name) || exists|j: int|
                    0 <= j < i && parsed_header_name(trimmed(#[trigger] all[j])) == Some(name)),
        decreases parts.len() - i,
    {
        let part = trim(parts[i].as_str());
        let ghost before = chars_list(tokens@);
        assert(all[i as int] == parts[i as int]@);
        match parse_header_name(part.as_str()) {
            Some(name) => {
                let ghost added = name@;
                tokens.push(name);
                assert(chars_list(tokens@) =~= before.push(added));
                assert forall|other: Seq<char>| #[trigger]
                    chars_list(tokens@).contains(other) == (start.contains(other) || exists|j: int|
                        0 <= j < i + 1 && parsed_header_name(trimmed(#[trigger] all[j])) == Some(
                            other,
                        )) by {
                    lemma_push_contains(before, added, other);
                    if before.contains(other) && !start.contains(other) {
                        let j = choose|j: int|
                            0 <= j < i && parsed_header_name(trimmed(#[trigger] all[j])) == Some(
                                other,
                            );
                        assert(all[j] == all[j]);
                    }
                }
            },
            None => {
                assert(parsed_header_name(trimmed(all[i as int])) is None);
            },
        }
        i += 1;
    }
    assert forall|name: Seq<char>| #[trigger]
        chars_list(tokens@).contains(name) == (start.contains(name) || lists_name(text@, name)) by {
        assert(lists_name(text@, name) == exists|j: int|
            0 <= j < all.len() && parsed_header_name(trimmed(#[trigger] all[j])) == Some(name));
    }
}

proof fn lemma_push_contains(list: Seq<Seq<char>>, added: Seq<char>, other: Seq<char>)
    ensures
        list.push(added).contains(other) == (list.contains(other) || other == added),
{
    let longer = list.push(added);
    if list.contains(other) {
        let i = choose|i: int| 0 <= i < list.len() && list[i] == other;
        assert(longer[i] == other);
    }
    assert(longer[list.len() as int] == added);
    if longer.contains(other) && other != added {
        let i = choose|i: int| 0 <= i < longer.len() && longer[i] == other;
        assert(list[i] == other);
    }
}

/// The names that the `Connection` fields of a message list.
pub fn connection_header_tokens(headers: &Headers) -> (tokens: Vec<String>)
    ensures
        holds_connection_tokens(chars_list(tokens@), headers@),
{
    let mut tokens: Vec<String> = Vec::new();
    let mut i: usize = 0;
    while i < headers.len()
        invariant
            i <= headers@.len(),
            forall|name: Seq<char>| #[trigger]
                chars_list(tokens@).contains(name) == exists|j: int|
                    0 <= j < i && connection_lists(#[trigger] headers@[j], name),
        decreases headers@.len() - i,
    {
        let ghost before = chars_list(tokens@);
        let ghost here = headers@[i as int];
        if same_text(headers.name(i), "connection") {
            match header_text(headers.value(i)) {
                Some(text) => {
                    push_listed_names(&mut tokens, text.as_str());
                },
                None => {},
            }
        }
        assert forall|name: Seq<char>| #[trigger]
            chars_list(tokens@).contains(name) == exists|j: int|
                0 <= j < i + 1 && connection_lists(#[trigger] headers@[j], name) by {
            assert(chars_list(tokens@).contains(name) == (before.contains(name)
                || connection_lists(here, name)));
            if before.contains(name) {
                let j = choose|j: int| 0 <= j < i && connection_lists(#[trigger] headers@[j], name);
                assert(connection_lists(headers@[j], name));
            }
        }
        i += 1;
    }
    tokens
}

/// Whether a request field is kept from the upstream.
pub open spec fn skips_request_header(name: Seq<char>, connection_token: bool) -> bool {
    ||| name == "host"@
    ||| name == "content-length"@
    ||| name == "x-admin-token"@
    ||| is_hop_by_hop(name)
    ||| connection_token
}

/// Whether a response field is kept from the client.
pub open spec fn skips_response_header(name: Seq<char>, connection_token: bool) -> bool {
    ||| name == "content-length"@
    ||| is_hop_by_hop(name)
    ||| connection_token
}

/// Whether a request field is kept from the upstream.
pub fn should_skip_request_header(name: &str, connection_tokens: &Vec<String>) -> (skip: bool)
    ensures
        skip == skips_request_header(name@, chars_list(connection_tokens@).contains(name@)),
{
    same_text(name, "host") || same_text(name, "content-length") || is_admin_only_request_header(
        name,
    ) || is_hop_by_hop_header(name) || holds_name(connection_tokens, name)
}

/// Whether a response field is kept from the client.
pub fn should_skip_response_header(name: &str, connection_tokens: &Vec<String>) -> (skip: bool)
    ensures
        skip == skips_response_header(name@, chars_list(connection_tokens@).contains(name@)),
{
    same_text(name, "content-length") || is_hop_by_hop_header(name) || holds_name(
        connection_tokens,
        name,
    )
}

fn holds_name(list: &Vec<String>, name: &str) -> (holds: bool)
    ensures
        holds == chars_list(list@).contains(name@),
{
    match position_of(list, name) {
        Some(i) => {
            assert(chars_list(list@)[i as int] == name@);
            true
        },
        None => {
            proof {
                if chars_list(list@).contains(name@) {
                    let j = choose|j: int|
                        0 <= j < list.len() && chars_list(list@)[j] == name@;
                    assert(list[j]@ == name@);
                }
            }
            false
        },
    }
}

/// The request fields that are handed on to the upstream.
pub open spec fn forwarded_headers(headers: Seq<HeaderModel>) -> Seq<HeaderModel> {
    headers.filter(
        |header: HeaderModel|
            !skips_request_header(header.0, is_connection_token(headers, header.0)),
    )
}

/// The response fields that are handed on to the client.
pub open spec fn relayed_headers(headers: Seq<HeaderModel>) -> Seq<HeaderModel> {
    headers.filter(
        |header: HeaderModel|
            !skips_response_header(header.0, is_connection_token(headers, header.0)),
    )
}

/// The fields of a request that are handed on to the upstream. In whichever case
/// the request names them, a credential of the proxy's administration and what
/// belongs to one connection are not among them.
pub fn forwarded_request_headers(headers: &Headers) -> (forwarded: Headers)
    ensures
        forwarded@ == forwarded_headers(headers@),
        in_lower_case(headers@),
        in_lower_case(forwarded@),
        forall|i: int|
            0 <= i < forwarded@.len() ==> lowered((#[trigger] forwarded@[i]).0)
                != "x-admin-token"@ && !is_hop_by_hop(lowered(forwarded@[i].0)),
{
    let tokens = connection_header_tokens(headers);
    let mut forwarded = Headers::new();
    let ghost keep = |header: HeaderModel|
        !skips_request_header(header.0, is_connection_token(headers@, header.0));
    let mut i: usize = 0;
    proof {
        reveal(Seq::filter);
        assert(headers@.take(0).filter(keep) =~= Seq::<HeaderModel>::empty());
    }
    while i < headers.len()
        invariant
            i <= headers@.len(),
            holds_connection_tokens(chars_list(tokens@), headers@),
            keep == (|header: HeaderModel|
                !skips_request_header(header.0, is_connection_token(headers@, header.0))),
            forwarded@ == headers@.take(i as int).filter(keep),
        decreases headers@.len() - i,
    {
        let name = headers.name(i);
        proof {
            reveal(Seq::filter);
            assert(headers@.take(i + 1).drop_last() =~= headers@.take(i as int));
            assert(chars_list(tokens@).contains(name@) == is_connection_token(headers@, name@));
        }
        if !should_skip_request_header(name, &tokens) {
            forwarded.append(name, headers.value(i));
        }
        i += 1;
    }
    assert(headers@.take(i as int) =~= headers@);
    proof {
        use_type_invariant(headers);
        use_type_invariant(&forwarded);
        assert forall|j: int| 0 <= j < forwarded@.len() implies lowered(
            (#[trigger] forwarded@[j]).0,
        ) != "x-admin-token"@ && !is_hop_by_hop(lowered(forwarded@[j].0)) by {
            forwarded_headers_are_end_to_end(headers@, j);
        }
    }
    forwarded
}

/// Adds the fields of a response that are handed on to the client.
pub fn copy_response_headers(source: &Headers, target: &mut Headers)
    ensures
        final(target)@ == old(target)@ + relayed_headers(source@),
{
    let tokens = connection_header_tokens(source);
    let ghost keep = |header: HeaderModel|
        !skips_response_header(header.0, is_connection_token(source@, header.0));
    let ghost before = target@;
    let mut i: usize = 0;
    proof {
        reveal(Seq::filter);
        assert(before + source@.take(0).filter(keep) =~= before);
    }
    while i < source.len()
        invariant
            i <= source@.len(),
            holds_connection_tokens(chars_list(tokens@), source@),
            keep == (|header: HeaderModel|
                !skips_response_header(header.0, is_connection_token(source@, header.0))),
            target@ == before + source@.take(i as int).filter(keep),
        decreases source@.len() - i,
    {
        let name = source.name(i);
        proof {
            reveal(Seq::filter);
            assert(source@.take(i + 1).drop_last() =~= source@.take(i as int));
            assert(chars_list(tokens@).contains(name@) == is_connection_token(source@, name@));
        }
        if !should_skip_response_header(name, &tokens) {
            target.append(name, source.value(i));
        }
        i += 1;
        assert(target@ =~= before + source@.take(i as int).filter(keep));
    }
    assert(source@.take(i as int) =~= source@);
}

/// What is handed on to the upstream holds no credential of the proxy's
/// administration and nothing that belongs to one connection, under whichever
/// name where the names of the request are in lower case, as those of `Headers` are.
pub proof fn forwarded_headers_are_end_to_end(headers: Seq<HeaderModel>, i: int)
    requires
        0 <= i < forwarded_headers(headers).len(),
    ensures
        forwarded_headers(headers)[i].0 != "x-admin-token"@,
        !is_hop_by_hop(forwarded_headers(headers)[i].0),
        !is_connection_token(headers, forwarded_headers(headers)[i].0),
        in_lower_case(headers) ==> lowered(forwarded_headers(headers)[i].0)
            != "x-admin-token"@ && !is_hop_by_hop(lowered(forwarded_headers(headers)[i].0)),
{
    let keep = |header: HeaderModel|
        !skips_request_header(header.0, is_connection_token(headers, header.0));
    headers.lemma_filter_pred(keep, i);
    headers.lemma_filter_contains_rev(keep, headers.filter(keep)[i]);
}

/// What is handed on to the client holds nothing that belongs to one connection and no
/// length of a body that may be another, under whichever name where the names of the
/// response are in lower case, as those of `Headers` are.
pub proof fn relayed_headers_are_end_to_end(headers: Seq<HeaderModel>, i: int)
    requires
        0 <= i < relayed_headers(headers).len(),
    ensures
        relayed_headers(headers)[i].0 != "content-length"@,
        !is_hop_by_hop(relayed_headers(headers)[i].0),
        !is_connection_token(headers, relayed_headers(headers)[i].0),
        in_lower_case(headers) ==> lowered(relayed_headers(headers)[i].0)
            != "content-length"@ && !is_hop_by_hop(lowered(relayed_headers(headers)[i].0)),
{
    let keep = |header: HeaderModel|
        !skips_response_header(header.0, is_connection_token(headers, header.0));
    headers.lemma_filter_pred(keep, i);
    headers.lemma_filter_contains_rev(keep, headers.filter(keep)[i]);
}

// ---------------------------------------------------------------------------
// Setting fields
// ---------------------------------------------------------------------------

/// The header fields with one field, its name in lower case, in place of all those
/// of its name.
pub open spec fn with_header(headers: Seq<HeaderModel>, name: Seq<char>, value: Seq<u8>) -> Seq<
    HeaderModel,
> {
    headers.filter(|header: HeaderModel| header.0 != lowered(name)).push((lowered(name), value))
}

impl Headers {
    /// Puts one field, its name in lower case, in place of all those of its name.
    pub fn set(&mut self, name: &str, value: &Vec<u8>)
        ensures
            final(self)@ == with_header(old(self)@, name@, value@),
            in_lower_case(final(self)@),
    {
        let ghost all = self@;
        let ghost keep = |header: HeaderModel| header.0 != lowered(name@);
        let lower = to_lowercase(name);
        let mut kept = Headers::new();
        let mut i: usize = 0;
        proof {
            reveal(Seq::filter);
            assert(all.take(0).filter(keep) =~= Seq::<HeaderModel>::empty());
        }
        while i < self.len()
            invariant
                i <= self@.len(),
                self@ == all,
                lower@ == lowered(name@),
                keep == (|header: HeaderModel| header.0 != lowered(name@)),
                kept@ == all.take(i as int).filter(keep),
            decreases self@.len() - i,
        {
            proof {
                reveal(Seq::filter);
                assert(all.take(i + 1).drop_last() =~= all.take(i as int));
            }
            if !same_text(self.name(i), lower.as_str()) {
                kept.append(self.name(i), self.value(i));
            }
            i += 1;
        }
        assert(all.take(i as int) =~= all);
        kept.append(name, value);
        *self = kept;
    }

    /// Puts one text field in place of all those of its name.
    pub fn set_text(&mut self, name: &str, value: &str)
        ensures
            final(self)@ == with_header(
                old(self)@,
                name@,
                vstd::utf8::encode_utf8(value@),
            ),
    {
        let bytes = value.as_bytes_vec();
        self.set(name, &bytes);
    }
}

/// The bytes of a text.
pub open spec fn bytes_of(text: Seq<char>) -> Seq<u8> {
    vstd::utf8::encode_utf8(text)
}

/// The fields of a JSON response of the given length.
pub open spec fn json_headers(body_len: nat) -> Seq<HeaderModel> {
    with_header(
        with_header(Seq::empty(), "content-type"@, bytes_of("application/json"@)),
        "content-length"@,
        bytes_of(decimal(body_len)),
    )
}

/// The fields of a JSON response of the given length.
pub fn json_response_headers(body_len: usize) -> (headers: Headers)
    ensures
        headers@ == json_headers(body_len as nat),
{
    let mut headers = Headers::new();
    headers.set_text("content-type", "application/json");
    headers.set_text("content-length", decimal_text(body_len as u64).as_str());
    headers
}

/// The fields of a buffered chat response.
pub open spec fn buffered_chat_headers(upstream: Seq<HeaderModel>, body_len: nat) -> Seq<
    HeaderModel,
> {
    with_header(
        with_header(relayed_headers(upstream), "content-type"@, bytes_of("application/json"@)),
        "content-length"@,
        bytes_of(decimal(body_len)),
    )
}

/// The fields of a buffered chat response: those of the upstream that are
/// handed on, as JSON of the given length.
pub fn shielded_chat_response_headers(upstream_headers: &Headers, body_len: usize) -> (headers:
    Headers)
    ensures
        headers@ == buffered_chat_headers(upstream_headers@, body_len as nat),
{
    let mut headers = Headers::new();
    copy_response_headers(upstream_headers, &mut headers);
    assert(headers@ =~= relayed_headers(upstream_headers@));
    headers.set_text("content-type", "application/json");
    headers.set_text("content-length", decimal_text(body_len as u64).as_str());
    headers
}

/// The fields that model discovery hands on to an upstream.
pub open spec fn discovery_headers(headers: Seq<HeaderModel>) -> Seq<HeaderModel> {
    match header_value_of(headers, "accept"@) {
        Some(value) => with_header(Seq::empty(), "accept"@, value),
        None => Seq::empty(),
    }
}

/// The fields that model discovery hands on to an upstream: the accepted media
/// types and nothing else.
pub fn model_discovery_request_headers(headers: &Headers) -> (safe_headers: Headers)
    ensures
        safe_headers@ == discovery_headers(headers@),
{
    let mut safe_headers = Headers::new();
    match headers.get("accept") {
        Some(value) => {
            safe_headers.set("accept", value);
        },
        None => {},
    }
    safe_headers
}

// ---------------------------------------------------------------------------
// What the fields say
// ---------------------------------------------------------------------------

/// Whether the content type is an event stream.
pub open spec fn says_event_stream(headers: Seq<HeaderModel>) -> bool {
    match header_text_of(headers, "content-type"@) {
        Some(text) => has_part(lowered(text), "text/event-stream"@),
        None => false,
    }
}

/// Whether the content type is an event stream.
pub fn is_event_stream(headers: &Headers) -> (is: bool)
    ensures
        is == says_event_stream(headers@),
{
    match headers.get_text("content-type") {
        Some(text) => {
            let lower = to_lowercase(text.as_str());
            contains(lower.as_str(), "text/event-stream")
        },
        None => false,
    }
}

/// Whether the content type is an application type.
pub open spec fn says_application(headers: Seq<HeaderModel>) -> bool {
    match header_text_of(headers, "content-type"@) {
        Some(text) => has_part(lowered(text), "application/json"@) || has_prefix(
            lowered(text),
            "application/"@,
        ),
        None => false,
    }
}

/// Whether the content type is JSON or another application type.
pub fn is_application_json_response(headers: &Headers) -> (is: bool)
    ensures
        is == says_application(headers@),
{
    match headers.get_text("content-type") {
        Some(text) => {
            let lower = to_lowercase(text.as_str());
            contains(lower.as_str(), "application/json") || starts_with(
                lower.as_str(),
                "application/",
            )
        },
        None => false,
    }
}

/// How the client is answered, by the content type.
pub open spec fn downstream_mode_of(headers: Seq<HeaderModel>) -> DownstreamMode {
    if says_event_stream(headers) {
        DownstreamMode::Streaming
    } else {
        DownstreamMode::NonStreamJson
    }
}

/// How the client is answered, by the content type.
pub fn downstream_mode_from_headers(headers: &Headers) -> (mode: DownstreamMode)
    ensures
        mode == downstream_mode_of(headers@),
{
    if is_event_stream(headers) {
        DownstreamMode::Streaming
    } else {
        DownstreamMode::NonStreamJson
    }
}

/// How an upstream answered, by the content type.
pub open spec fn upstream_mode_of(headers: Seq<HeaderModel>) -> UpstreamMode {
    if says_event_stream(headers) {
        UpstreamMode::Streaming
    } else {
        UpstreamMode::NonStreamJson
    }
}

/// How an upstream answered, by the content type.
pub fn upstream_mode_from_headers(headers: &Headers) -> (mode: UpstreamMode)
    ensures
        mode == upstream_mode_of(headers@),
{
    if is_event_stream(headers) {
        UpstreamMode::Streaming
    } else {
        UpstreamMode::NonStreamJson
    }
}

/// The length that a request announces.
pub open spec fn announced_length(headers: Seq<HeaderModel>) -> Seq<char> {
    match header_text_of(headers, "content-length"@) {
        Some(text) => match parsed_unsigned(text, u64::MAX as int) {
            Some(length) => decimal(length as nat),
            None => "unknown"@,
        },
        None => "unknown"@,
    }
}

/// The length that a request announces, or `unknown`.
pub fn request_body_bytes_hint(headers: &Headers) -> (hint: String)
    ensures
        hint@ == announced_length(headers@),
{
    match headers.get_text("content-length") {
        Some(text) => match parse_u64(text.as_str()) {
            Some(length) => decimal_text(length),
            None => "unknown".to_owned(),
        },
        None => "unknown".to_owned(),
    }
}

/// A header value as it is shown.
pub open spec fn shown_value(value: Seq<u8>) -> Seq<char> {
    match header_chars(value) {
        Some(text) => text,
        None => HEADER_VALUE_NOT_UTF8@,
    }
}

/// A header value as text, or a mark where it is not text.
pub fn header_value(value: &Vec<u8>) -> (shown: String)
    ensures
        shown@ == shown_value(value@),
{
    match header_text(value) {
        Some(text) => text,
        None => HEADER_VALUE_NOT_UTF8.to_owned(),
    }
}

/// Whether the value of a field is a credential.
pub open spec fn is_credential(name: Seq<char>) -> bool {
    name == "authorization"@ || name == "x-api-key"@
}

/// A header value as it is recorded: credentials are left out.
pub open spec fn recorded_value(name: Seq<char>, value: Seq<u8>) -> Seq<char> {
    if is_credential(name) {
        HEADER_VALUE_REDACTED@
    } else {
        shown_value(value)
    }
}

/// A header value as it is recorded.
pub fn selected_header_metadata_value(name: &str, value: &Vec<u8>) -> (recorded: String)
    ensures
        recorded@ == recorded_value(name@, value@),
{
    if same_text(name, "authorization") || same_text(name, "x-api-key") {
        return HEADER_VALUE_REDACTED.to_owned();
    }
    header_value(value)
}

/// The bindings with one header field recorded, where the message has it.
pub open spec fn with_recorded(
    bindings: Bindings,
    headers: Seq<HeaderModel>,
    prefix: Seq<char>,
    name: Seq<char>,
) -> Bindings {
    match header_value_of(headers, name) {
        Some(value) => bindings.insert(
            prefix + "_header_"@ + name,
            recorded_value(name, value),
        ),
        None => bindings,
    }
}

/// The bindings with the selected header fields recorded.
pub open spec fn with_selected_headers(
    bindings: Bindings,
    headers: Seq<HeaderModel>,
    prefix: Seq<char>,
) -> Bindings {
    let b1 = with_recorded(bindings, headers, prefix, "content-type"@);
    let b2 = with_recorded(b1, headers, prefix, "accept"@);
    let b3 = with_recorded(b2, headers, prefix, "accept-encoding"@);
    let b4 = with_recorded(b3, headers, prefix, "authorization"@);
    let b5 = with_recorded(b4, headers, prefix, "x-api-key"@);
    let b6 = with_recorded(b5, headers, prefix, "user-agent"@);
    let b7 = with_recorded(b6, headers, prefix, "x-request-id"@);
    with_recorded(b7, headers, prefix, "server"@)
}

fn record_header(metadata: &mut Metadata, headers: &Headers, prefix: &str, name: &str)
    ensures
        final(metadata)@ == with_recorded(old(metadata)@, headers@, prefix@, name@),
{
    match headers.get(name) {
        Some(value) => {
            let mut key = joined(prefix, "_header_");
            key.append(name);
            metadata.insert(key.as_str(), selected_header_metadata_value(name, value));
        },
        None => {},
    }
}

/// Records the selected header fields of a message, credentials left out.
pub fn copy_selected_header_metadata(metadata: &mut Metadata, headers: &Headers, prefix: &str)
    ensures
        final(metadata)@ == with_selected_headers(old(metadata)@, headers@, prefix@),
{
    record_header(metadata, headers, prefix, "content-type");
    record_header(metadata, headers, prefix, "accept");
    record_header(metadata, headers, prefix, "accept-encoding");
    record_header(metadata, headers, prefix, "authorization");
    record_header(metadata, headers, prefix, "x-api-key");
    record_header(metadata, headers, prefix, "user-agent");
    record_header(metadata, headers, prefix, "x-request-id");
    record_header(metadata, headers, prefix, "server");
}

/// What is recorded of a credential does not depend on the credential.
pub proof fn credentials_are_not_recorded(name: Seq<char>, a: Seq<u8>, b: Seq<u8>)
    requires
        is_credential(name),
    ensures
        recorded_value(name, a) == recorded_value(name, b),
{
}

/// The value of a header is the first under its name, in capitals or not; a name that
/// no header has has none.
pub proof fn the_first_header_counts(headers: Seq<HeaderModel>, name: Seq<char>, at: int)
    ensures
        0 <= at < headers.len() && headers[at].0 == lowered(name) && (forall|i: int|
            0 <= i < at ==> (#[trigger] headers[i]).0 != lowered(name)) ==> header_value_of(
            headers,
            name,
        ) == Some(headers[at].1),
        (forall|i: int| 0 <= i < headers.len() ==> (#[trigger] headers[i]).0 != lowered(name))
            ==> header_value_of(headers, name) is None,
        header_value_of(headers, lowered(name)) == header_value_of(headers, name),
    decreases headers.len(),
{
    assert(lowered(lowered(name)) =~= lowered(name));
    if headers.len() > 0 {
        let rest = headers.drop_first();
        the_first_header_counts(rest, name, at - 1);
        if 0 < at < headers.len() && (forall|i: int|
            0 <= i < at ==> (#[trigger] headers[i]).0 != lowered(name)) {
            assert(rest[at - 1] == headers[at]);
            assert forall|i: int| 0 <= i < at - 1 implies (#[trigger] rest[i]).0 != lowered(
                name,
            ) by {
                assert(rest[i] == headers[i + 1]);
            }
            assert(headers[0].0 != lowered(name));
        }
        if (forall|i: int| 0 <= i < headers.len() ==> (#[trigger] headers[i]).0 != lowered(name)) {
            assert forall|i: int| 0 <= i < rest.len() implies (#[trigger] rest[i]).0 != lowered(
                name,
            ) by {
                assert(rest[i] == headers[i + 1]);
            }
            assert(headers[0].0 != lowered(name));
        }
    }
}

proof fn headers_before_the_end(headers: Seq<HeaderModel>, last: HeaderModel, name: Seq<char>)
    ensures
        header_value_of(headers.push(last), name) == match header_value_of(headers, name) {
            Some(value) => Some(value),
            None => if last.0 == lowered(name) {
                Some(last.1)
            } else {
                None
            },
        },
    decreases headers.len(),
{
    if headers.len() == 0 {
        assert(headers.push(last).drop_first() =~= headers);
    } else {
        headers_before_the_end(headers.drop_first(), last, name);
        assert(headers.push(last).drop_first() =~= headers.drop_first().push(last));
        assert(headers.push(last)[0] == headers[0]);
    }
}

proof fn other_headers_stay(headers: Seq<HeaderModel>, gone: Seq<char>, name: Seq<char>)
    ensures
        lowered(gone) == lowered(name) ==> header_value_of(
            headers.filter(|header: HeaderModel| header.0 != lowered(gone)),
            name,
        ) is None,
        lowered(gone) != lowered(name) ==> header_value_of(
            headers.filter(|header: HeaderModel| header.0 != lowered(gone)),
            name,
        ) == header_value_of(headers, name),
    decreases headers.len(),
{
    reveal(Seq::filter);
    let keep = |header: HeaderModel| header.0 != lowered(gone);
    if headers.len() > 0 {
        let before = headers.drop_last();
        other_headers_stay(before, gone, name);
        headers_before_the_end(before, headers.last(), name);
        assert(before.push(headers.last()) =~= headers);
        headers_before_the_end(before.filter(keep), headers.last(), name);
    }
}

/// A header that is set has the value that was set, and no other header changes.
pub proof fn set_headers_have_their_value(
    headers: Seq<HeaderModel>,
    name: Seq<char>,
    value: Seq<u8>,
    other: Seq<char>,
)
    ensures
        header_value_of(with_header(headers, name, value), name) == Some(value),
        lowered(other) != lowered(name) ==> header_value_of(
            with_header(headers, name, value),
            other,
        ) == header_value_of(headers, other),
{
    let rest = headers.filter(|header: HeaderModel| header.0 != lowered(name));
    other_headers_stay(headers, name, name);
    other_headers_stay(headers, name, other);
    headers_before_the_end(rest, (lowered(name), value), name);
    headers_before_the_end(rest, (lowered(name), value), other);
}

/// Every header that is meant for the other end goes on, as it is; those for this
/// connection alone stay behind.
pub proof fn headers_for_the_other_end_go_on(headers: Seq<HeaderModel>, i: int)
    requires
        0 <= i < headers.len(),
        !is_connection_token(headers, headers[i].0),
        headers[i].0 != "connection"@ && headers[i].0 != "keep-alive"@ && headers[i].0
            != "proxy-authenticate"@ && headers[i].0 != "proxy-authorization"@ && headers[i].0
            != "te"@ && headers[i].0 != "trailer"@ && headers[i].0 != "transfer-encoding"@
            && headers[i].0 != "upgrade"@ && headers[i].0 != "content-length"@,
    ensures
        relayed_headers(headers).contains(headers[i]),
        headers[i].0 != "host"@ && headers[i].0 != "x-admin-token"@ ==> forwarded_headers(
            headers,
        ).contains(headers[i]),
        relayed_headers(headers).len() <= headers.len(),
        forwarded_headers(headers).len() <= headers.len(),
{
    let keep = |header: HeaderModel|
        !skips_request_header(header.0, is_connection_token(headers, header.0));
    let relay = |header: HeaderModel|
        !skips_response_header(header.0, is_connection_token(headers, header.0));
    headers.lemma_filter_len(keep);
    headers.lemma_filter_len(relay);
    headers.lemma_filter_contains(relay, i);
    if headers[i].0 != "host"@ && headers[i].0 != "x-admin-token"@ {
        headers.lemma_filter_contains(keep, i);
    }
}

/// The headers of one hop, by name.
pub proof fn hop_by_hop_headers_are_known()
    ensures
        is_hop_by_hop("connection"@),
        is_hop_by_hop("keep-alive"@),
        is_hop_by_hop("proxy-authenticate"@),
        is_hop_by_hop("proxy-authorization"@),
        is_hop_by_hop("te"@),
        is_hop_by_hop("trailer"@),
        is_hop_by_hop("transfer-encoding"@),
        is_hop_by_hop("upgrade"@),
        skips_request_header("host"@, false),
        skips_request_header("content-length"@, false),
        skips_request_header("x-admin-token"@, false),
        skips_response_header("content-length"@, false),
{
}

/// A body is a stream of events where its content type says so, in capitals or not and
/// with anything after it.
pub proof fn content_types_name_streams(headers: Seq<HeaderModel>, rest: Seq<char>)
    ensures
        header_text_of(headers, "content-type"@) == Some("text/event-stream"@ + rest)
            ==> says_event_stream(headers) && downstream_mode_of(headers) is Streaming
            && upstream_mode_of(headers) is Streaming,
        header_text_of(headers, "content-type"@) is None ==> !says_event_stream(headers)
            && !says_application(headers) && upstream_mode_of(headers) is NonStreamJson
            && downstream_mode_of(headers) is NonStreamJson,
        header_text_of(headers, "content-type"@) == Some("application/json"@ + rest)
            ==> says_application(headers),
{
    reveal_strlit("text/event-stream");
    reveal_strlit("application/json");
    let stream = "text/event-stream"@;
    let json = "application/json"@;
    let none = Seq::<char>::empty();
    assert(lowered(stream) =~= stream);
    assert(lowered(json) =~= json);
    assert(lowered(stream + rest) =~= none + stream + lowered(rest));
    assert(lowered(json + rest) =~= none + json + lowered(rest));
    crate::text::prefixes_and_parts_are_found(none, stream, lowered(rest));
    crate::text::prefixes_and_parts_are_found(none, json, lowered(rest));
}

/// Models are discovered with the accepted types of the client and nothing else of its
/// headers.
pub proof fn discovery_sends_accepted_types_only(headers: Seq<HeaderModel>, i: int)
    ensures
        discovery_headers(headers).len() <= 1,
        0 <= i < discovery_headers(headers).len() ==> discovery_headers(headers)[i].0 == "accept"@,
        header_value_of(discovery_headers(headers), "accept"@) == header_value_of(
            headers,
            "accept"@,
        ),
{
    reveal_strlit("accept");
    assert(lowered("accept"@) =~= "accept"@);
    reveal(Seq::filter);
    match header_value_of(headers, "accept"@) {
        Some(value) => {
            set_headers_have_their_value(Seq::empty(), "accept"@, value, "accept"@);
            let none = Seq::<HeaderModel>::empty();
            assert(none.filter(|header: HeaderModel| header.0 != lowered("accept"@)).len() == 0);
        },
        None => {},
    }
}

/// Of a header that is recorded the value is shown, but for credentials, whose value
/// never is.
pub proof fn recorded_headers_are_shown(name: Seq<char>, value: Seq<u8>, text: Seq<char>)
    ensures
        recorded_value("authorization"@, value) == HEADER_VALUE_REDACTED@,
        recorded_value("x-api-key"@, value) == HEADER_VALUE_REDACTED@,
        name != "authorization"@ && name != "x-api-key"@ && header_chars(value) == Some(text)
            ==> recorded_value(name, value) == text,
{
}

/// A length that is announced is recorded, where it is a number.
pub proof fn announced_lengths_are_recorded(headers: Seq<HeaderModel>, length: u64)
    ensures
        header_text_of(headers, "content-length"@) == Some(decimal(length as nat))
            ==> announced_length(headers) == decimal(length as nat),
        header_text_of(headers, "content-length"@) is None ==> announced_length(headers)
            == "unknown"@,
{
    crate::text::decimal_parses_to_itself(length as nat, u64::MAX as int);
}

proof fn recorded_headers_have_their_prefix(prefix: Seq<char>, name: Seq<char>)
    ensures
        has_prefix(prefix + "_header_"@ + name, prefix + "_header_"@),
{
    let start = prefix + "_header_"@;
    assert((start + name).take(start.len() as int) =~= start);
}

/// Recording headers leaves everything else that is known as it is.
pub proof fn recording_headers_leaves_the_rest(
    bindings: Bindings,
    headers: Seq<HeaderModel>,
    prefix: Seq<char>,
    key: Seq<char>,
)
    requires
        !has_prefix(key, prefix + "_header_"@),
    ensures
        with_selected_headers(bindings, headers, prefix).contains_key(key)
            == bindings.contains_key(key),
        bindings.contains_key(key) ==> with_selected_headers(bindings, headers, prefix)[key]
            == bindings[key],
{
    recorded_headers_have_their_prefix(prefix, "content-type"@);
    recorded_headers_have_their_prefix(prefix, "accept"@);
    recorded_headers_have_their_prefix(prefix, "accept-encoding"@);
    recorded_headers_have_their_prefix(prefix, "authorization"@);
    recorded_headers_have_their_prefix(prefix, "x-api-key"@);
    recorded_headers_have_their_prefix(prefix, "user-agent"@);
    recorded_headers_have_their_prefix(prefix, "x-request-id"@);
    recorded_headers_have_their_prefix(prefix, "server"@);
}

/// What is recorded of a header is recorded under its name; a header that is not there
/// is not recorded.
pub proof fn headers_are_recorded_by_name(
    bindings: Bindings,
    headers: Seq<HeaderModel>,
    prefix: Seq<char>,
    name: Seq<char>,
)
    ensures
        header_value_of(headers, name) matches Some(value) ==> with_recorded(
            bindings,
            headers,
            prefix,
            name,
        ) == bindings.insert(prefix + "_header_"@ + name, recorded_value(name, value)),
        header_value_of(headers, name) is None ==> with_recorded(bindings, headers, prefix, name)
            == bindings,
{
}

/// The fields that a connection lists are those between its commas, without the white
/// space around them.
pub proof fn connections_list_their_fields(before: Seq<char>, name: Seq<char>, after: Seq<char>)
    requires
        !name.contains(','),
        parsed_header_name(trimmed(name)) is Some,
    ensures
        lists_name(name, parsed_header_name(trimmed(name))->Some_0),
        lists_name(before.push(',') + name, parsed_header_name(trimmed(name))->Some_0),
        lists_name(
            (before.push(',') + name).push(',') + after,
            parsed_header_name(trimmed(name))->Some_0,
        ),
{
    crate::text::texts_split_at_separators(name, after, ',');
    crate::text::texts_split_at_separators(before, name, ',');
    let head = before.push(',') + name;
    crate::text::texts_split_at_separators(head, after, ',');
    let parts = split_on(before, ',');
    assert(split_on(name, ',')[0] == name);
    assert(split_on(head, ',') =~= parts + seq![name]);
    assert(split_on(head, ',')[parts.len() as int] == name);
    let whole = head.push(',') + after;
    assert(split_on(whole, ',') == split_on(head, ',') + split_on(after, ','));
    assert(split_on(whole, ',')[parts.len() as int] == name);
}

/// A value is shown where all of it can be; otherwise only that it cannot.
pub proof fn plain_values_are_shown(value: Seq<u8>, i: int)
    ensures
        (forall|i: int| 0 <= i < value.len() ==> 32 <= #[trigger] value[i] && value[i] <= 126)
            ==> header_chars(value) is Some,
        header_chars(value) matches Some(text) ==> text.len() == value.len() && (0 <= i
            < value.len() ==> text[i] as int == value[i] as int),
        0 <= i < value.len() && (value[i] >= 127 || value[i] == 10 || value[i] == 13 || value[i] == 0)
            ==> header_chars(value) is None,
{
    if 0 <= i < value.len() {
        assert(is_visible_ascii(value[i]) == is_visible_ascii(value[i]));
    }
}

/// The tokens of the connections are the names that a connection lists, all of them and
/// no others.
pub proof fn connection_tokens_are_the_listed_names(
    tokens: Seq<Seq<char>>,
    headers: Seq<HeaderModel>,
    header: HeaderModel,
    name: Seq<char>,
)
    ensures
        holds_connection_tokens(tokens, headers) && headers.contains(header) && connection_lists(
            header,
            name,
        ) ==> tokens.contains(name),
        holds_connection_tokens(tokens, headers) && tokens.contains(name) ==> exists|i: int|
            0 <= i < headers.len() && connection_lists(#[trigger] headers[i], name),
        header.0 != "connection"@ ==> !connection_lists(header, name),
{
    if holds_connection_tokens(tokens, headers) {
        assert(tokens.contains(name) == is_connection_token(headers, name));
        if headers.contains(header) && connection_lists(header, name) {
            let i = choose|i: int| 0 <= i < headers.len() && headers[i] == header;
            assert(connection_lists(headers[i], name));
        }
    }
}

/// A buffered chat is told as JSON of its length.
pub proof fn buffered_chats_are_json(upstream: Seq<HeaderModel>, body_len: nat)
    ensures
        header_value_of(buffered_chat_headers(upstream, body_len), "content-type"@) == Some(
            bytes_of("application/json"@),
        ),
        header_value_of(buffered_chat_headers(upstream, body_len), "content-length"@) == Some(
            bytes_of(decimal(body_len)),
        ),
{
    reveal_strlit("content-type");
    reveal_strlit("content-length");
    assert("content-type"@.len() == 12 && "content-length"@.len() == 14);
    assert(lowered("content-type"@) =~= "content-type"@);
    assert(lowered("content-length"@) =~= "content-length"@);
    let typed = with_header(
        relayed_headers(upstream),
        "content-type"@,
        bytes_of("application/json"@),
    );
    set_headers_have_their_value(
        relayed_headers(upstream),
        "content-type"@,
        bytes_of("application/json"@),
        "content-length"@,
    );
    set_headers_have_their_value(
        typed,
        "content-length"@,
        bytes_of(decimal(body_len)),
        "content-type"@,
    );
}

/// Of the headers of a message eight are recorded where they are there, each under its
/// name.
pub proof fn selected_headers_are_recorded(
    bindings: Bindings,
    headers: Seq<HeaderModel>,
    prefix: Seq<char>,
    name: Seq<char>,
)
    requires
        name == "content-type"@ || name == "accept"@ || name == "accept-encoding"@ || name == "authorization"@ || name == "x-api-key"@ || name == "user-agent"@ || name == "x-request-id"@ || name == "server"@,
    ensures
        header_value_of(headers, name) matches Some(value) ==> {
            let told = with_selected_headers(bindings, headers, prefix);
            let key = prefix + "_header_"@ + name;
            told.contains_key(key) && told[key] == recorded_value(name, value)
        },
{
    reveal_strlit("content-type");
    reveal_strlit("accept");
    reveal_strlit("accept-encoding");
    reveal_strlit("authorization");
    reveal_strlit("x-api-key");
    reveal_strlit("user-agent");
    reveal_strlit("x-request-id");
    reveal_strlit("server");
    assert("content-type"@.len() == 12);
    assert("accept"@.len() == 6);
    assert("accept-encoding"@.len() == 15);
    assert("authorization"@.len() == 13);
    assert("x-api-key"@.len() == 9);
    assert("user-agent"@.len() == 10);
    assert("x-request-id"@.len() == 12);
    assert("server"@.len() == 6);
    assert("content-type"@[0] != "x-request-id"@[0]);
    assert("accept"@[0] != "server"@[0]);
    let b1 = with_recorded(bindings, headers, prefix, "content-type"@);
    recorded_headers_stay(bindings, headers, prefix, "content-type"@, name);
    let b2 = with_recorded(b1, headers, prefix, "accept"@);
    recorded_headers_stay(b1, headers, prefix, "accept"@, name);
    let b3 = with_recorded(b2, headers, prefix, "accept-encoding"@);
    recorded_headers_stay(b2, headers, prefix, "accept-encoding"@, name);
    let b4 = with_recorded(b3, headers, prefix, "authorization"@);
    recorded_headers_stay(b3, headers, prefix, "authorization"@, name);
    let b5 = with_recorded(b4, headers, prefix, "x-api-key"@);
    recorded_headers_stay(b4, headers, prefix, "x-api-key"@, name);
    let b6 = with_recorded(b5, headers, prefix, "user-agent"@);
    recorded_headers_stay(b5, headers, prefix, "user-agent"@, name);
    let b7 = with_recorded(b6, headers, prefix, "x-request-id"@);
    recorded_headers_stay(b6, headers, prefix, "x-request-id"@, name);
    let b8 = with_recorded(b7, headers, prefix, "server"@);
    recorded_headers_stay(b7, headers, prefix, "server"@, name);
}

proof fn recorded_headers_stay(
    bindings: Bindings,
    headers: Seq<HeaderModel>,
    prefix: Seq<char>,
    name: Seq<char>,
    other: Seq<char>,
)
    ensures
        ({
            let told = with_recorded(bindings, headers, prefix, name);
            let key = prefix + "_header_"@ + other;
            &&& name == other ==> (header_value_of(headers, name) matches Some(value)
                ==> told.contains_key(key) && told[key] == recorded_value(name, value))
            &&& name != other ==> told.contains_key(key) == bindings.contains_key(key)
            &&& name != other && bindings.contains_key(key) ==> told[key] == bindings[key]
        }),
{
    let head = prefix + "_header_"@;
    if head + name == head + other {
        assert((head + name).skip(head.len() as int) =~= name);
        assert((head + other).skip(head.len() as int) =~= other);
    }
}

/// A length that cannot be read is not known.
pub proof fn unread_lengths_are_unknown(headers: Seq<HeaderModel>, text: Seq<char>)
    ensures
        header_text_of(headers, "content-length"@) == Some(text) && parsed_unsigned(
            text,
            u64::MAX as int,
        ) is None ==> announced_length(headers) == "unknown"@,
{
}

} // verus!
