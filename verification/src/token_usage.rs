//! Token counts that upstreams report.

use crate::json::{nested_field, parse_json, parsed_json, unsigned_field, Json, JsonModel};
use crate::records::{no_usage, TokenUsage};
use crate::text::{
    chars_list, chars_of, has_prefix, split, split_on, strip_prefix, text_from_utf8, trim_start,
    trimmed_start,
};
use vstd::prelude::*;
use vstd::utf8::{decode_utf8, encode_utf8, valid_utf8};

verus! {

/// An unsigned number two levels down.
pub open spec fn nested_unsigned(value: JsonModel, outer: Seq<char>, inner: Seq<char>) -> Option<
    u64,
> {
    match nested_field(value, outer, inner) {
        Some(member) => member.as_unsigned(),
        None => None,
    }
}

/// The token counts of a response.
pub open spec fn usage_of(value: JsonModel) -> Option<TokenUsage> {
    match value.field("usage"@) {
        Some(usage) if usage is Object => Some(
            TokenUsage {
                input_tokens: unsigned_field(usage, "prompt_tokens"@),
                output_tokens: unsigned_field(usage, "completion_tokens"@),
                cached_input_tokens: nested_unsigned(
                    usage,
                    "prompt_tokens_details"@,
                    "cached_tokens"@,
                ),
                reasoning_tokens: nested_unsigned(
                    usage,
                    "completion_tokens_details"@,
                    "reasoning_tokens"@,
                ),
            },
        ),
        _ => None,
    }
}

fn nested_u64(value: &Json, outer: &str, inner: &str) -> (number: Option<u64>)
    ensures
        number == nested_unsigned(value@, outer@, inner@),
{
    match value.get(outer) {
        Some(member) => member.get_u64(inner),
        None => None,
    }
}

/// The token counts of a parsed response.
pub fn token_usage_of(value: &Json) -> (usage: Option<TokenUsage>)
    ensures
        usage == usage_of(value@),
{
    match value.get("usage") {
        Some(usage) => {
            if !usage.is_object() {
                return None;
            }
            Some(
                TokenUsage {
                    input_tokens: usage.get_u64("prompt_tokens"),
                    output_tokens: usage.get_u64("completion_tokens"),
                    cached_input_tokens: nested_u64(
                        usage,
                        "prompt_tokens_details",
                        "cached_tokens",
                    ),
                    reasoning_tokens: nested_u64(
                        usage,
                        "completion_tokens_details",
                        "reasoning_tokens",
                    ),
                },
            )
        },
        None => None,
    }
}

/// The token counts that some bytes spell.
pub open spec fn usage_in(bytes: Seq<u8>) -> Option<TokenUsage> {
    match parsed_json(bytes) {
        Ok(value) => usage_of(value),
        Err(_) => None,
    }
}

/// The token counts of a JSON text.
pub fn parse_token_usage_json(body: &[u8]) -> (usage: Option<TokenUsage>)
    ensures
        usage == usage_in(body@),
{
    match parse_json(body) {
        Ok(value) => token_usage_of(&value),
        Err(_) => None,
    }
}

/// A text without the carriage returns at its end.
pub open spec fn without_end_returns(text: Seq<char>) -> Seq<char>
    decreases text.len(),
{
    if text.len() > 0 && text.last() == '\r' {
        without_end_returns(text.drop_last())
    } else {
        text
    }
}

/// A copy of a text without the carriage returns at its end.
pub fn trim_end_returns(text: &str) -> (rest: String)
    ensures
        rest@ == without_end_returns(text@),
{
    let chars = chars_of(text);
    let mut to: usize = chars.len();
    assert(text@.take(to as int) =~= text@);
    while to > 0 && chars[to - 1] == '\r'
        invariant
            to <= chars.len(),
            chars@ == text@,
            without_end_returns(text@) == without_end_returns(text@.take(to as int)),
        decreases to,
    {
        assert(text@.take(to as int).drop_last() =~= text@.take(to - 1));
        to -= 1;
    }
    let rest = text.substring_char(0, to).to_owned();
    assert(rest@ =~= text@.take(to as int));
    rest
}

/// The token counts in one line of an event stream.
pub open spec fn usage_in_line(line: Seq<char>) -> Option<TokenUsage> {
    let text = without_end_returns(line);
    if has_prefix(text, "data:"@) {
        usage_in(encode_utf8(trimmed_start(text.skip("data:"@.len() as int))))
    } else {
        None
    }
}

fn parse_usage_line(line: &str) -> (usage: Option<TokenUsage>)
    ensures
        usage == usage_in_line(line@),
{
    let text = trim_end_returns(line);
    match strip_prefix(text.as_str(), "data:") {
        Some(data) => {
            let data = trim_start(data.as_str());
            parse_token_usage_json(data.as_str().as_bytes())
        },
        None => None,
    }
}

/// The token counts in the last of some lines that has any.
pub open spec fn last_usage(lines: Seq<Seq<char>>) -> Option<TokenUsage>
    decreases lines.len(),
{
    if lines.len() == 0 {
        None
    } else {
        match usage_in_line(lines.last()) {
            Some(usage) => Some(usage),
            None => last_usage(lines.drop_last()),
        }
    }
}

/// The token counts of an event stream.
pub open spec fn stream_usage(sse_body: Seq<u8>) -> Option<TokenUsage> {
    if valid_utf8(sse_body) {
        last_usage(split_on(decode_utf8(sse_body), '\n'))
    } else {
        None
    }
}

fn parse_stream_usage(sse_body: &[u8]) -> (usage: Option<TokenUsage>)
    ensures
        usage == stream_usage(sse_body@),
{
    let text = match text_from_utf8(sse_body) {
        Some(text) => text,
        None => {
            return None;
        },
    };
    let lines = split(text.as_str(), '\n');
    let ghost all = split_on(text@, '\n');
    let mut i: usize = lines.len();
    assert(all.take(i as int) =~= all);
    while i > 0
        invariant
            i <= lines.len(),
            chars_list(lines@) == all,
            stream_usage(sse_body@) == last_usage(all),
            last_usage(all) == last_usage(all.take(i as int)),
        decreases i,
    {
        assert(all.take(i as int).drop_last() =~= all.take(i - 1));
        assert(all.take(i as int).last() == lines[i - 1]@);
        i -= 1;
        match parse_usage_line(lines[i].as_str()) {
            Some(usage) => {
                return Some(usage);
            },
            None => {},
        }
    }
    None
}

/// The token counts of a response: those of its body, else those of its event
/// stream, else unknown.
pub open spec fn response_usage(body: Seq<u8>, sse_body: Seq<u8>) -> TokenUsage {
    match usage_in(body) {
        Some(usage) => usage,
        None => match stream_usage(sse_body) {
            Some(usage) => usage,
            None => no_usage(),
        },
    }
}

/// The token counts of a response.
pub fn parse_token_usage(body: &[u8], sse_body: &[u8]) -> (usage: TokenUsage)
    ensures
        usage == response_usage(body@, sse_body@),
{
    match parse_token_usage_json(body) {
        Some(usage) => usage,
        None => match parse_stream_usage(sse_body) {
            Some(usage) => usage,
            None => TokenUsage::default(),
        },
    }
}

/// The tokens that an answer says it used are read from its usage, each under its own
/// name; what it does not say is not known.
pub proof fn usage_is_read_from_the_answer(
    fields: Map<Seq<char>, JsonModel>,
    usage: Map<Seq<char>, JsonModel>,
    tokens: u64,
)
    requires
        fields.contains_key("usage"@),
        fields["usage"@] == JsonModel::Object(usage),
    ensures
        ({
            let read = usage_of(JsonModel::Object(fields));
            let says = |key: Seq<char>|
                usage.contains_key(key) && usage[key] == JsonModel::Unsigned(tokens);
            let details = |outer: Seq<char>, inner: Seq<char>|
                usage.contains_key(outer) && (usage[outer] matches JsonModel::Object(more)
                    && more.contains_key(inner) && more[inner] == JsonModel::Unsigned(tokens));
            &&& read is Some
            &&& says("prompt_tokens"@) ==> read->Some_0.input_tokens == Some(tokens)
            &&& !usage.contains_key("prompt_tokens"@) ==> read->Some_0.input_tokens is None
            &&& says("completion_tokens"@) ==> read->Some_0.output_tokens == Some(tokens)
            &&& !usage.contains_key("completion_tokens"@) ==> read->Some_0.output_tokens is None
            &&& details("prompt_tokens_details"@, "cached_tokens"@)
                ==> read->Some_0.cached_input_tokens == Some(tokens)
            &&& !usage.contains_key("prompt_tokens_details"@) ==> read->Some_0.cached_input_tokens
                is None
            &&& details("completion_tokens_details"@, "reasoning_tokens"@)
                ==> read->Some_0.reasoning_tokens == Some(tokens)
            &&& !usage.contains_key("completion_tokens_details"@) ==> read->Some_0.reasoning_tokens
                is None
        }),
{
}

/// Of a stream, the last line that tells the usage counts.
pub proof fn the_last_usage_counts(first: Seq<Seq<char>>, second: Seq<Seq<char>>, line: Seq<char>)
    ensures
        last_usage(first + second) == match last_usage(second) {
            Some(usage) => Some(usage),
            None => last_usage(first),
        },
        last_usage(seq![line]) == usage_in_line(line),
        last_usage(Seq::empty()) is None,
    decreases second.len(),
{
    assert(seq![line].drop_last() =~= Seq::<Seq<char>>::empty());
    assert(last_usage(seq![line].drop_last()) is None);
    if second.len() == 0 {
        assert(first + second =~= first);
    } else {
        the_last_usage_counts(first, second.drop_last(), line);
        assert((first + second).drop_last() =~= first + second.drop_last());
        assert((first + second).last() == second.last());
    }
}

/// A line of a stream tells the usage that its data holds; a line without data tells
/// none.
pub proof fn lines_tell_the_usage_of_their_data(data: Seq<char>, line: Seq<char>)
    requires
        data.len() > 0,
        !crate::text::is_space(data[0]),
        data.last() != '\r',
    ensures
        usage_in_line("data:"@ + data) == usage_in(encode_utf8(data)),
        usage_in_line("data: "@ + data) == usage_in(encode_utf8(data)),
        usage_in_line(("data: "@ + data).push('\r')) == usage_in(encode_utf8(data)),
        !has_prefix(line, "data:"@) && (line.len() == 0 || line.last() != '\r') ==> usage_in_line(
            line,
        ) is None,
{
    reveal_strlit("data:");
    reveal_strlit("data: ");
    let tight = "data:"@ + data;
    let wide = "data: "@ + data;
    assert(tight.last() == data.last());
    assert(wide.last() == data.last());
    assert(tight.take(5) =~= "data:"@);
    assert(wide.take(5) =~= "data:"@);
    assert(tight.skip(5) =~= data);
    assert(wide.skip(5) =~= seq![' '] + data);
    assert((seq![' '] + data).drop_first() =~= data);
    reveal_with_fuel(crate::text::trimmed_start, 2);
    assert(wide.push('\r').drop_last() =~= wide);
    reveal_with_fuel(without_end_returns, 2);
    if line.len() > 0 && line.last() != '\r' {
        assert(without_end_returns(line) == line);
    }
}

/// The usage in the answer itself comes first, then that in its stream; where neither
/// tells any, none is known.
pub proof fn answers_tell_before_streams(body: Seq<u8>, sse_body: Seq<u8>)
    ensures
        usage_in(body) matches Some(usage) ==> response_usage(body, sse_body) == usage,
        usage_in(body) is None ==> (stream_usage(sse_body) matches Some(usage) ==> response_usage(
            body,
            sse_body,
        ) == usage),
        usage_in(body) is None && stream_usage(sse_body) is None ==> {
            let usage = response_usage(body, sse_body);
            &&& usage.input_tokens is None && usage.output_tokens is None
            &&& usage.cached_input_tokens is None && usage.reasoning_tokens is None
        },
{
}

/// Only the returns at the end of a line are cut.
pub proof fn returns_at_the_end_are_cut(line: Seq<char>)
    ensures
        without_end_returns(line.push('\r')) == without_end_returns(line),
        line.len() > 0 && line.last() != '\r' ==> without_end_returns(line) == line,
        without_end_returns(Seq::empty()) == Seq::<char>::empty(),
{
    assert(line.push('\r').drop_last() =~= line);
}

/// A stream that is text tells the last usage of its lines; one that is not tells none.
pub proof fn streams_tell_their_last_usage(text: Seq<char>, bytes: Seq<u8>)
    ensures
        stream_usage(vstd::utf8::encode_utf8(text)) == last_usage(split_on(text, '\n')),
        !valid_utf8(bytes) ==> stream_usage(bytes) is None,
{
    broadcast use vstd::utf8::encode_utf8_valid_utf8;
    broadcast use vstd::utf8::encode_utf8_decode_utf8;
    assert(decode_utf8(vstd::utf8::encode_utf8(text)) == text);
}

} // verus!
