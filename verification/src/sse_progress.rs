//! Progress of a model, as its event stream shows it.

use crate::json::{
    items_field, models, parse_json, parsed_json, text_field, Json, JsonModel,
};
use vstd::prelude::*;

verus! {

/// Most bytes of an unfinished event that are kept.
pub const MAX_PENDING_SSE_BYTES: usize = 65_536;

// ---------------------------------------------------------------------------
// Events
// ---------------------------------------------------------------------------

/// Whether a text member is there and not empty.
pub open spec fn says_something(delta: JsonModel, key: Seq<char>) -> bool {
    match text_field(delta, key) {
        Some(text) => text.len() > 0,
        None => false,
    }
}

/// Whether a member is there and neither null nor empty.
pub open spec fn calls_something(delta: JsonModel, key: Seq<char>) -> bool {
    match delta.field(key) {
        None => false,
        Some(JsonModel::Array(items)) => items.len() > 0,
        Some(JsonModel::Object(fields)) => fields != Map::<Seq<char>, JsonModel>::empty(),
        Some(JsonModel::Null) => false,
        Some(_) => true,
    }
}

/// Whether the part of an answer holds something that the model made.
pub open spec fn choice_has_content(choice: JsonModel) -> bool {
    match choice.field("delta"@) {
        Some(delta) if delta is Object => {
            ||| says_something(delta, "content"@)
            ||| says_something(delta, "reasoning_content"@)
            ||| says_something(delta, "reasoning"@)
            ||| says_something(delta, "thinking"@)
            ||| calls_something(delta, "tool_calls"@)
            ||| calls_something(delta, "function_call"@)
        },
        _ => false,
    }
}

/// Whether an event holds something that the model made.
pub open spec fn event_has_content(event: JsonModel) -> bool {
    match items_field(event, "choices"@) {
        Some(choices) => exists|i: int|
            0 <= i < choices.len() && choice_has_content(#[trigger] choices[i]),
        None => false,
    }
}

fn holds_text(delta: &Json, key: &str) -> (holds: bool)
    ensures
        holds == says_something(delta@, key@),
{
    match delta.get_str(key) {
        Some(text) => !text.as_str().is_empty(),
        None => false,
    }
}

fn holds_call(delta: &Json, key: &str) -> (holds: bool)
    ensures
        holds == calls_something(delta@, key@),
{
    match delta.get(key) {
        None => false,
        Some(value) => match value {
            Json::Array(items) => {
                assert(value@->Array_0.len() == items.len());
                items.len() > 0
            },
            Json::Object(fields) => {
                proof {
                    let all = Json::fields_model(*fields, fields.len() as nat);
                    assert(value@ == JsonModel::Object(all));
                    if fields.len() > 0 {
                        let name = fields[fields.len() - 1].0@;
                        assert(all.contains_key(name));
                    } else {
                        assert(all =~= Map::<Seq<char>, JsonModel>::empty());
                    }
                }
                fields.len() > 0
            },
            Json::Null => false,
            _ => true,
        },
    }
}

fn choice_holds_content(choice: &Json) -> (holds: bool)
    ensures
        holds == choice_has_content(choice@),
{
    match choice.get("delta") {
        Some(delta) => {
            if !delta.is_object() {
                return false;
            }
            holds_text(delta, "content") || holds_text(delta, "reasoning_content") || holds_text(
                delta,
                "reasoning",
            ) || holds_text(delta, "thinking") || holds_call(delta, "tool_calls") || holds_call(
                delta,
                "function_call",
            )
        },
        None => false,
    }
}

/// Whether an event holds something that the model made.
pub fn sse_event_has_model_content(event: &Json) -> (holds: bool)
    ensures
        holds == event_has_content(event@),
{
    match event.get_array("choices") {
        Some(choices) => {
            let mut i: usize = 0;
            while i < choices.len()
                invariant
                    i <= choices.len(),
                    items_field(event@, "choices"@) == Some(models(choices@)),
                    forall|j: int| 0 <= j < i ==> !choice_has_content(#[trigger] models(choices@)[j]),
                decreases choices.len() - i,
            {
                if choice_holds_content(&choices[i]) {
                    proof {
                        let all = items_field(event@, "choices"@)->Some_0;
                        assert(all[i as int] == choices[i as int]@);
                        assert(choice_has_content(all[i as int]));
                    }
                    return true;
                }
                i += 1;
            }
            false
        },
        None => false,
    }
}

// ---------------------------------------------------------------------------
// Lines
// ---------------------------------------------------------------------------

/// Whether a byte is ASCII white space.
pub open spec fn is_ascii_space(byte: u8) -> bool {
    byte == 32 || byte == 9 || byte == 10 || byte == 12 || byte == 13
}

/// Bytes without the ASCII white space at their start.
pub open spec fn trimmed_bytes_start(bytes: Seq<u8>) -> Seq<u8>
    decreases bytes.len(),
{
    if bytes.len() > 0 && is_ascii_space(bytes[0]) {
        trimmed_bytes_start(bytes.drop_first())
    } else {
        bytes
    }
}

/// Bytes without the ASCII white space at their end.
pub open spec fn trimmed_bytes_end(bytes: Seq<u8>) -> Seq<u8>
    decreases bytes.len(),
{
    if bytes.len() > 0 && is_ascii_space(bytes.last()) {
        trimmed_bytes_end(bytes.drop_last())
    } else {
        bytes
    }
}

/// Bytes without the ASCII white space around them.
pub open spec fn trimmed_bytes(bytes: Seq<u8>) -> Seq<u8> {
    trimmed_bytes_end(trimmed_bytes_start(bytes))
}

fn is_space_byte(byte: u8) -> (is: bool)
    ensures
        is == is_ascii_space(byte),
{
    byte == 32 || byte == 9 || byte == 10 || byte == 12 || byte == 13
}

fn copy_range(bytes: &[u8], from: usize, to: usize) -> (part: Vec<u8>)
    requires
        from <= to <= bytes@.len(),
    ensures
        part@ == bytes@.subrange(from as int, to as int),
{
    let mut part: Vec<u8> = Vec::new();
    let mut i: usize = from;
    while i < to
        invariant
            from <= i <= to <= bytes@.len(),
            part@ == bytes@.subrange(from as int, i as int),
        decreases to - i,
    {
        part.push(bytes[i]);
        i += 1;
        assert(part@ =~= bytes@.subrange(from as int, i as int));
    }
    part
}

/// A copy of some bytes without the ASCII white space around them.
pub fn trim_ascii(bytes: &[u8]) -> (rest: Vec<u8>)
    ensures
        rest@ == trimmed_bytes(bytes@),
{
    let mut from: usize = 0;
    assert(bytes@.skip(0) =~= bytes@);
    while from < bytes.len() && is_space_byte(bytes[from])
        invariant
            from <= bytes@.len(),
            trimmed_bytes_start(bytes@) == trimmed_bytes_start(bytes@.skip(from as int)),
        decreases bytes@.len() - from,
    {
        assert(bytes@.skip(from as int).drop_first() =~= bytes@.skip(from + 1));
        from += 1;
    }
    let ghost start = bytes@.skip(from as int);
    assert(trimmed_bytes_start(bytes@) == start);
    let mut to: usize = bytes.len();
    assert(bytes@.subrange(from as int, to as int) =~= start);
    while to > from && is_space_byte(bytes[to - 1])
        invariant
            from <= to <= bytes@.len(),
            start == bytes@.skip(from as int),
            trimmed_bytes_end(start) == trimmed_bytes_end(
                bytes@.subrange(from as int, to as int),
            ),
        decreases to,
    {
        assert(bytes@.subrange(from as int, to as int).drop_last() =~= bytes@.subrange(
            from as int,
            to - 1,
        ));
        to -= 1;
    }
    copy_range(bytes, from, to)
}

/// Whether bytes start with others.
pub open spec fn bytes_start_with(bytes: Seq<u8>, prefix: Seq<u8>) -> bool {
    prefix.len() <= bytes.len() && bytes.take(prefix.len() as int) == prefix
}

/// The bytes of `data:`.
pub open spec fn data_prefix() -> Seq<u8> {
    seq![100u8, 97u8, 116u8, 97u8, 58u8]
}

/// The bytes of `[DONE]`.
pub open spec fn done_mark() -> Seq<u8> {
    seq![91u8, 68u8, 79u8, 78u8, 69u8, 93u8]
}

/// Whether a line of an event stream shows progress: it holds an event with
/// something that the model made.
pub open spec fn line_counts(line: Seq<u8>) -> bool {
    if !bytes_start_with(line, data_prefix()) {
        false
    } else {
        let data = trimmed_bytes(line.skip(5));
        &&& data.len() > 0
        &&& data != done_mark()
        &&& match parsed_json(data) {
            Ok(event) => event_has_content(event),
            Err(_) => false,
        }
    }
}

fn line_shows_progress(line: &[u8]) -> (shows: bool)
    ensures
        shows == line_counts(line@),
{
    let is_data = line.len() >= 5 && line[0] == 100 && line[1] == 97 && line[2] == 116 && line[3]
        == 97 && line[4] == 58;
    proof {
        if line@.len() >= 5 {
            let start = line@.take(5);
            if is_data {
                assert(start =~= data_prefix());
            } else {
                assert(start[0] == line@[0] && start[1] == line@[1] && start[2] == line@[2]
                    && start[3] == line@[3] && start[4] == line@[4]);
                assert(start != data_prefix());
            }
        }
    }
    if !is_data {
        return false;
    }
    let rest = copy_range(line, 5, line.len());
    assert(rest@ =~= line@.skip(5));
    let data = trim_ascii(rest.as_slice());
    if data.len() == 0 {
        return false;
    }
    let is_done = data.len() == 6 && data[0] == 91 && data[1] == 68 && data[2] == 79 && data[3]
        == 78 && data[4] == 69 && data[5] == 93;
    proof {
        if is_done {
            assert(data@ =~= done_mark());
        } else if data@.len() == 6 {
            let mark = done_mark();
            assert(mark[0] == 91 && mark[1] == 68 && mark[2] == 79 && mark[3] == 78 && mark[4] == 69
                && mark[5] == 93);
            assert(data@ != mark);
        }
    }
    if is_done {
        return false;
    }
    match parse_json(data.as_slice()) {
        Ok(event) => sse_event_has_model_content(&event),
        Err(_) => false,
    }
}

/// The lines of a frame.
pub open spec fn lines_of(frame: Seq<u8>) -> Seq<Seq<u8>>
    decreases frame.len(),
{
    if frame.len() == 0 {
        seq![Seq::empty()]
    } else {
        let lines = lines_of(frame.drop_last());
        if frame.last() == 10 {
            lines.push(Seq::empty())
        } else {
            lines.update(lines.len() - 1, lines.last().push(frame.last()))
        }
    }
}

/// The number of lines that show progress.
pub open spec fn counting_lines(lines: Seq<Seq<u8>>) -> nat
    decreases lines.len(),
{
    if lines.len() == 0 {
        0
    } else {
        counting_lines(lines.drop_last()) + if line_counts(lines.last()) {
            1nat
        } else {
            0nat
        }
    }
}

/// The progress that a frame shows: the number of its lines that do.
pub open spec fn frame_progress(frame: Seq<u8>) -> nat {
    counting_lines(lines_of(frame))
}

/// The progress that a frame shows.
pub fn sse_content_progress(frame: &[u8]) -> (progress: u64)
    ensures
        progress == frame_progress(frame@),
{
    let mut progress: u64 = 0;
    let mut start: usize = 0;
    let mut i: usize = 0;
    let ghost mut done: Seq<Seq<u8>> = Seq::empty();
    proof {
        assert(frame@.subrange(0, 0) =~= Seq::<u8>::empty());
        assert(lines_of(frame@.take(0)) =~= done.push(frame@.subrange(0, 0)));
    }
    while i < frame.len()
        invariant
            start <= i <= frame@.len(),
            lines_of(frame@.take(i as int)) == done.push(
                frame@.subrange(start as int, i as int),
            ),
            progress == counting_lines(done),
            progress <= start,
        decreases frame@.len() - i,
    {
        let ghost line = frame@.subrange(start as int, i as int);
        let ghost before = done.push(line);
        assert(frame@.take(i + 1).drop_last() =~= frame@.take(i as int));
        assert(before.last() == line);
        if frame[i] == 10 {
            let part = copy_range(frame, start, i);
            proof {
                assert(before.drop_last() =~= done);
                done = before;
            }
            if line_shows_progress(part.as_slice()) {
                progress = progress + 1;
            }
            start = i + 1;
            i += 1;
            assert(frame@.subrange(start as int, i as int) =~= Seq::<u8>::empty());
            assert(lines_of(frame@.take(i as int)) =~= done.push(
                frame@.subrange(start as int, i as int),
            ));
        } else {
            i += 1;
            let ghost longer = line.push(frame@[i - 1]);
            assert(frame@.subrange(start as int, i as int) =~= longer);
            assert(before.update(before.len() - 1, longer) =~= done.push(longer));
            assert(lines_of(frame@.take(i as int)) =~= done.push(
                frame@.subrange(start as int, i as int),
            ));
        }
    }
    let part = copy_range(frame, start, frame.len());
    assert(frame@.take(i as int) =~= frame@);
    let ghost all = done.push(part@);
    assert(all.drop_last() =~= done);
    assert(frame_progress(frame@) == counting_lines(all));
    if line_shows_progress(part.as_slice()) {
        assert(start + 5 <= frame@.len());
        progress = progress + 1;
    }
    progress
}

// ---------------------------------------------------------------------------
// Frames
// ---------------------------------------------------------------------------

/// The place of the first blank line, where two line feeds meet.
pub open spec fn first_blank_line(bytes: Seq<u8>, from: int) -> Option<int>
    decreases bytes.len() - from,
{
    if from < 0 || from + 1 >= bytes.len() {
        None
    } else if bytes[from] == 10 && bytes[from + 1] == 10 {
        Some(from)
    } else {
        first_blank_line(bytes, from + 1)
    }
}

proof fn lemma_blank_line_bounds(bytes: Seq<u8>, from: int)
    ensures
        first_blank_line(bytes, from) is Some ==> from <= first_blank_line(bytes, from)->Some_0
            && first_blank_line(bytes, from)->Some_0 + 2 <= bytes.len(),
    decreases bytes.len() - from,
{
    if !(from < 0 || from + 1 >= bytes.len()) && !(bytes[from] == 10 && bytes[from + 1] == 10) {
        lemma_blank_line_bounds(bytes, from + 1);
    }
}

fn find_blank_line(bytes: &Vec<u8>) -> (place: Option<usize>)
    ensures
        match place {
            Some(at) => first_blank_line(bytes@, 0) == Some(at as int) && at + 2 <= bytes.len(),
            None => first_blank_line(bytes@, 0) is None,
        },
{
    let mut from: usize = 0;
    while bytes.len() >= 2 && from < bytes.len() - 1
        invariant
            from <= bytes.len(),
            first_blank_line(bytes@, 0) == first_blank_line(bytes@, from as int),
        decreases bytes.len() - from,
    {
        if bytes[from] == 10 && bytes[from + 1] == 10 {
            return Some(from);
        }
        from += 1;
    }
    None
}

/// The sum of two counts, held to what 64 bits can hold.
pub open spec fn held_count(a: nat, b: nat) -> nat {
    if a + b <= u64::MAX {
        a + b
    } else {
        u64::MAX as nat
    }
}

/// The progress that the finished frames of some bytes show, and what is left
/// behind the last of them.
pub open spec fn frames_progress(bytes: Seq<u8>, so_far: nat) -> (nat, Seq<u8>)
    decreases bytes.len(),
    via frames_progress_decreases
{
    match first_blank_line(bytes, 0) {
        None => (so_far, bytes),
        Some(at) => frames_progress(
            bytes.skip(at + 2),
            held_count(so_far, frame_progress(bytes.take(at + 2))),
        ),
    }
}

#[via_fn]
proof fn frames_progress_decreases(bytes: Seq<u8>, so_far: nat) {
    lemma_blank_line_bounds(bytes, 0);
}

/// Bytes without carriage returns.
pub open spec fn without_returns(bytes: Seq<u8>) -> Seq<u8>
    decreases bytes.len(),
{
    if bytes.len() == 0 {
        Seq::empty()
    } else if bytes.last() == 13 {
        without_returns(bytes.drop_last())
    } else {
        without_returns(bytes.drop_last()).push(bytes.last())
    }
}

/// The events of a stream that have not ended yet.
pub struct SseProgress {
    pub pending: Vec<u8>,
}

/// What one chunk adds to the progress, and what is pending after it. Too much
/// that is pending is dropped.
pub open spec fn chunk_progress(pending: Seq<u8>, chunk: Seq<u8>) -> (nat, Seq<u8>) {
    let all = pending + without_returns(chunk);
    if all.len() > MAX_PENDING_SSE_BYTES {
        (0, Seq::empty())
    } else {
        frames_progress(all, 0)
    }
}

impl SseProgress {
    /// Nothing pending.
    pub fn new() -> (progress: SseProgress)
        ensures
            progress.pending@ == Seq::<u8>::empty(),
    {
        SseProgress { pending: Vec::new() }
    }

    /// Notes one chunk, and gives the progress that it shows.
    pub fn record_sse_content_progress(&mut self, chunk: &[u8]) -> (progress: u64)
        ensures
            (progress as nat, final(self).pending@) == chunk_progress(old(self).pending@, chunk@),
    {
        let ghost before = self.pending@;
        let mut i: usize = 0;
        assert(before + without_returns(chunk@.take(0)) =~= before);
        while i < chunk.len()
            invariant
                i <= chunk@.len(),
                self.pending@ == before + without_returns(chunk@.take(i as int)),
            decreases chunk@.len() - i,
        {
            assert(chunk@.take(i + 1).drop_last() =~= chunk@.take(i as int));
            if chunk[i] != 13 {
                self.pending.push(chunk[i]);
            }
            i += 1;
            assert(self.pending@ =~= before + without_returns(chunk@.take(i as int)));
        }
        assert(chunk@.take(i as int) =~= chunk@);
        let ghost all = self.pending@;
        if self.pending.len() > MAX_PENDING_SSE_BYTES {
            self.pending.clear();
            return 0;
        }
        let mut progress: u64 = 0;
        loop
            invariant_except_break
                frames_progress(all, 0) == frames_progress(self.pending@, progress as nat),
            ensures
                frames_progress(all, 0) == (progress as nat, self.pending@),
            decreases self.pending.len(),
        {
            match find_blank_line(&self.pending) {
                None => {
                    break;
                },
                Some(at) => {
                    let ghost bytes = self.pending@;
                    let rest = self.pending.split_off(at + 2);
                    assert(self.pending@ =~= bytes.take(at + 2));
                    assert(rest@ =~= bytes.skip(at + 2));
                    progress = progress.saturating_add(
                        sse_content_progress(self.pending.as_slice()),
                    );
                    self.pending = rest;
                },
            }
        }
        progress
    }
}

/// An event moves an answer on where one of its choices says or calls something; an
/// event in which no choice does is none.
pub proof fn words_and_calls_are_progress(
    fields: Map<Seq<char>, JsonModel>,
    choices: Seq<JsonModel>,
    at: int,
    choice: Map<Seq<char>, JsonModel>,
    delta: Map<Seq<char>, JsonModel>,
    text: Seq<char>,
    calls: Seq<JsonModel>,
)
    requires
        fields.contains_key("choices"@),
        fields["choices"@] == JsonModel::Array(choices),
        0 <= at < choices.len(),
        choices[at] == JsonModel::Object(choice),
        choice.contains_key("delta"@),
        choice["delta"@] == JsonModel::Object(delta),
        text.len() > 0,
        calls.len() > 0,
    ensures
        ({
            let event = JsonModel::Object(fields);
            let says = |key: Seq<char>|
                delta.contains_key(key) && delta[key] == JsonModel::Text(text);
            let makes = |key: Seq<char>|
                delta.contains_key(key) && delta[key] == JsonModel::Array(calls);
            &&& says("content"@) ==> event_has_content(event)
            &&& says("reasoning_content"@) ==> event_has_content(event)
            &&& says("reasoning"@) ==> event_has_content(event)
            &&& says("thinking"@) ==> event_has_content(event)
            &&& makes("tool_calls"@) ==> event_has_content(event)
            &&& makes("function_call"@) ==> event_has_content(event)
            &&& delta == Map::<Seq<char>, JsonModel>::empty() && choices.len() == 1
                ==> !event_has_content(event)
        }),
        !event_has_content(JsonModel::Object(Map::empty())),
{
    assert(items_field(JsonModel::Object(fields), "choices"@) == Some(choices));
    let event = JsonModel::Object(fields);
    let found = items_field(event, "choices"@)->Some_0;
    assert(found[at] == JsonModel::Object(choice));
    if choice_has_content(JsonModel::Object(choice)) {
        assert(choice_has_content(found[at]));
        assert(event_has_content(event));
    }
}

/// A line counts where it is data that moves the answer on; the mark of the end and
/// every other line do not.
pub proof fn data_with_content_counts(line: Seq<u8>, data: Seq<u8>, event: JsonModel)
    requires
        data.len() > 0,
        !is_ascii_space(data[0]),
        !is_ascii_space(data.last()),
    ensures
        data != done_mark() && parsed_json(data) == Ok::<JsonModel, Seq<char>>(event) ==> (
        line_counts(seq![100u8, 97u8, 116u8, 97u8, 58u8] + data) <==> event_has_content(event)),
        data == done_mark() ==> !line_counts(seq![100u8, 97u8, 116u8, 97u8, 58u8] + data),
        line.len() < 5 ==> !line_counts(line),
        line.len() >= 5 && line.take(5) != seq![100u8, 97u8, 116u8, 97u8, 58u8] ==> !line_counts(
            line,
        ),
{
    let whole = seq![100u8, 97u8, 116u8, 97u8, 58u8] + data;
    assert(whole.take(5) =~= seq![100u8, 97u8, 116u8, 97u8, 58u8]);
    assert(whole.skip(5) =~= data);
    assert(trimmed_bytes(data) == data);
}

proof fn lines_add_up(first: Seq<u8>, second: Seq<u8>)
    ensures
        lines_of(first.push(10) + second) == lines_of(first) + lines_of(second),
        lines_of(first).len() > 0,
        lines_of(second).len() > 0,
    decreases first.len() + second.len(),
{
    let whole = first.push(10) + second;
    if first.len() > 0 {
        lines_add_up(first.drop_last(), Seq::empty());
    }
    if second.len() == 0 {
        assert(whole.drop_last() =~= first);
        assert(lines_of(whole) =~= lines_of(first) + lines_of(second));
    } else {
        lines_add_up(first, second.drop_last());
        assert(whole.drop_last() =~= first.push(10) + second.drop_last());
        assert(whole.last() == second.last());
        assert(lines_of(whole) =~= lines_of(first) + lines_of(second));
    }
}

proof fn counting_lines_add_up(first: Seq<Seq<u8>>, second: Seq<Seq<u8>>)
    ensures
        counting_lines(first + second) == counting_lines(first) + counting_lines(second),
    decreases second.len(),
{
    if second.len() == 0 {
        assert(first + second =~= first);
    } else {
        counting_lines_add_up(first, second.drop_last());
        assert((first + second).drop_last() =~= first + second.drop_last());
        assert((first + second).last() == second.last());
    }
}

/// The progress of a frame is that of its lines together.
pub proof fn lines_count_one_by_one(first: Seq<u8>, second: Seq<u8>, line: Seq<u8>)
    ensures
        frame_progress(first.push(10) + second) == frame_progress(first) + frame_progress(second),
        !line.contains(10) ==> frame_progress(line) == if line_counts(line) {
            1nat
        } else {
            0nat
        },
    decreases line.len(),
{
    lines_add_up(first, second);
    counting_lines_add_up(lines_of(first), lines_of(second));
    if !line.contains(10) {
        one_line(line);
        assert(seq![line].drop_last() =~= Seq::<Seq<u8>>::empty());
        assert(counting_lines(seq![line].drop_last()) == 0);
    }
}

proof fn one_line(line: Seq<u8>)
    requires
        !line.contains(10),
    ensures
        lines_of(line) == seq![line],
    decreases line.len(),
{
    if line.len() > 0 {
        let before = line.drop_last();
        assert forall|i: int| 0 <= i < before.len() implies before[i] != 10 by {
            assert(line[i] == before[i]);
            assert(line.contains(line[i]));
        }
        one_line(before);
        assert(line.contains(line.last()));
        assert(before.push(line.last()) =~= line);
        assert(lines_of(line) =~= seq![line]);
    } else {
        assert(line =~= Seq::<u8>::empty());
    }
}

proof fn blank_lines_stay(bytes: Seq<u8>, more: Seq<u8>, from: int)
    requires
        0 <= from,
        first_blank_line(bytes, from) is Some,
    ensures
        first_blank_line(bytes + more, from) == first_blank_line(bytes, from),
        from <= first_blank_line(bytes, from)->Some_0,
        first_blank_line(bytes, from)->Some_0 + 1 < bytes.len(),
    decreases bytes.len() - from,
{
    assert((bytes + more)[from] == bytes[from]);
    assert((bytes + more)[from + 1] == bytes[from + 1]);
    if !(bytes[from] == 10 && bytes[from + 1] == 10) {
        blank_lines_stay(bytes, more, from + 1);
    }
}

proof fn frames_go_on(bytes: Seq<u8>, more: Seq<u8>, so_far: nat)
    ensures
        frames_progress(bytes + more, so_far) == frames_progress(
            frames_progress(bytes, so_far).1 + more,
            frames_progress(bytes, so_far).0,
        ),
    decreases bytes.len(),
{
    match first_blank_line(bytes, 0) {
        None => {},
        Some(at) => {
            blank_lines_stay(bytes, more, 0);
            let told = held_count(so_far, frame_progress(bytes.take(at + 2)));
            assert((bytes + more).take(at + 2) =~= bytes.take(at + 2));
            assert((bytes + more).skip(at + 2) =~= bytes.skip(at + 2) + more);
            frames_go_on(bytes.skip(at + 2), more, told);
        },
    }
}

proof fn frames_count_from_anywhere(bytes: Seq<u8>, so_far: nat)
    requires
        so_far <= u64::MAX,
    ensures
        frames_progress(bytes, so_far).1 == frames_progress(bytes, 0).1,
        frames_progress(bytes, so_far).0 == held_count(so_far, frames_progress(bytes, 0).0),
        frames_progress(bytes, 0).0 <= u64::MAX,
    decreases bytes.len(),
{
    match first_blank_line(bytes, 0) {
        None => {},
        Some(at) => {
            blank_lines_stay(bytes, Seq::empty(), 0);
            let here = frame_progress(bytes.take(at + 2));
            let rest = bytes.skip(at + 2);
            frames_count_from_anywhere(rest, held_count(so_far, here));
            frames_count_from_anywhere(rest, held_count(0, here));
        },
    }
}

proof fn returns_are_dropped_anywhere(first: Seq<u8>, second: Seq<u8>)
    ensures
        without_returns(first + second) == without_returns(first) + without_returns(second),
    decreases second.len(),
{
    if second.len() == 0 {
        assert(first + second =~= first);
        assert(without_returns(first) + without_returns(second) =~= without_returns(first));
    } else {
        returns_are_dropped_anywhere(first, second.drop_last());
        assert((first + second).drop_last() =~= first + second.drop_last());
        assert((first + second).last() == second.last());
        assert(without_returns(first + second) =~= without_returns(first) + without_returns(second));
    }
}

/// However a stream is cut into chunks, its progress is the same: what two chunks show
/// one after the other is what both show together.
pub proof fn chunks_do_not_matter(pending: Seq<u8>, first: Seq<u8>, second: Seq<u8>)
    requires
        pending.len() + first.len() + second.len() <= MAX_PENDING_SSE_BYTES,
    ensures
        ({
            let (early, left) = chunk_progress(pending, first);
            let (late, end) = chunk_progress(left, second);
            let (all, rest) = chunk_progress(pending, first + second);
            &&& rest == end
            &&& early + late <= u64::MAX ==> all == early + late
        }),
{
    returns_are_dropped_anywhere(first, second);
    returns_do_not_add(first);
    returns_do_not_add(second);
    let begun = pending + without_returns(first);
    let more = without_returns(second);
    assert(pending + without_returns(first + second) =~= begun + more);
    frames_go_on(begun, more, 0);
    frames_count_from_anywhere(begun, 0);
    frames_leave_no_more(begun, 0);
    let (early, left) = frames_progress(begun, 0);
    frames_count_from_anywhere(left + more, early);
}

proof fn returns_do_not_add(bytes: Seq<u8>)
    ensures
        without_returns(bytes).len() <= bytes.len(),
    decreases bytes.len(),
{
    if bytes.len() > 0 {
        returns_do_not_add(bytes.drop_last());
    }
}

proof fn frames_leave_no_more(bytes: Seq<u8>, so_far: nat)
    ensures
        frames_progress(bytes, so_far).1.len() <= bytes.len(),
    decreases bytes.len(),
{
    match first_blank_line(bytes, 0) {
        None => {},
        Some(at) => {
            blank_lines_stay(bytes, Seq::empty(), 0);
            frames_leave_no_more(
                bytes.skip(at + 2),
                held_count(so_far, frame_progress(bytes.take(at + 2))),
            );
        },
    }
}

/// A frame counts when it is complete, by the blank line after it; what follows waits
/// for more.
pub proof fn complete_frames_count(frame: Seq<u8>, rest: Seq<u8>)
    requires
        frame.len() + 2 + rest.len() <= MAX_PENDING_SSE_BYTES,
        first_blank_line(frame + seq![10u8, 10u8] + rest, 0) == Some(frame.len() as int),
        first_blank_line(rest, 0) is None,
        frame_progress(frame + seq![10u8, 10u8]) <= u64::MAX,
    ensures
        chunk_progress(frame + seq![10u8, 10u8] + rest, Seq::empty()) == (
            frame_progress(frame + seq![10u8, 10u8]),
            rest,
        ),
        chunk_progress(rest, Seq::empty()) == (0nat, rest),
{
    let whole = frame + seq![10u8, 10u8] + rest;
    let at = frame.len() as int;
    assert(without_returns(Seq::<u8>::empty()) =~= Seq::<u8>::empty());
    assert(whole + Seq::<u8>::empty() =~= whole);
    assert(rest + Seq::<u8>::empty() =~= rest);
    assert(whole.take(at + 2) =~= frame + seq![10u8, 10u8]);
    assert(whole.skip(at + 2) =~= rest);
    reveal_with_fuel(frames_progress, 2);
}

/// The first blank line is where two line ends follow each other, and not before.
pub proof fn blank_lines_are_two_line_ends(before: Seq<u8>, rest: Seq<u8>)
    requires
        forall|i: int|
            0 <= i < before.len() - 1 ==> !(#[trigger] before[i] == 10 && before[i + 1] == 10),
        before.len() > 0 ==> before.last() != 10,
    ensures
        first_blank_line(before + seq![10u8, 10u8] + rest, 0) == Some(before.len() as int),
        first_blank_line(before, 0) is None,
{
    blank_line_is_found(before + seq![10u8, 10u8] + rest, 0, before.len() as int);
    no_blank_line_is_found(before, 0);
}

proof fn blank_line_is_found(bytes: Seq<u8>, from: int, at: int)
    requires
        0 <= from <= at,
        at + 1 < bytes.len(),
        bytes[at] == 10 && bytes[at + 1] == 10,
        forall|i: int| from <= i < at ==> !(#[trigger] bytes[i] == 10 && bytes[i + 1] == 10),
    ensures
        first_blank_line(bytes, from) == Some(at),
    decreases at - from,
{
    if from < at {
        assert(!(bytes[from] == 10 && bytes[from + 1] == 10));
        blank_line_is_found(bytes, from + 1, at);
    }
}

proof fn no_blank_line_is_found(bytes: Seq<u8>, from: int)
    requires
        0 <= from,
        forall|i: int|
            from <= i < bytes.len() - 1 ==> !(#[trigger] bytes[i] == 10 && bytes[i + 1] == 10),
    ensures
        first_blank_line(bytes, from) is None,
    decreases bytes.len() - from,
{
    if from + 1 < bytes.len() {
        assert(!(bytes[from] == 10 && bytes[from + 1] == 10));
        no_blank_line_is_found(bytes, from + 1);
    }
}

} // verus!
