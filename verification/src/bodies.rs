//! Response bodies on their way to the client: frames, heartbeats, and the one
//! record that each body leaves.

use crate::attempts::ShieldedFailureOutcome;
use crate::clock::held_sum;
use crate::error_bodies::{error_body, plain_details, proxy_error_json_body};
use crate::failures::{
    cause_of_failure, cause_of_kind, classify_shielded_failure_cause, next_count,
    ReqwestFailureKind, UpstreamFailureCause, UpstreamFailureCounters, UpstreamFailureSnapshot, REQUEST_DEADLINE_ERROR_TYPE,
    SERVER_SHUTDOWN_ABORT_REASON,
};
use crate::json::rendered_json;
use crate::liveness::ShieldedLivenessMode;
use crate::records::{AttemptStatus, RequestStatus};
use crate::text::{clone_bytes, joined, opt_chars};
use vstd::prelude::*;
use vstd::utf8::encode_utf8;

verus! {

/// Largest part of a body, in bytes, that is kept for token counts.
pub const TOKEN_USAGE_BODY_CAP: usize = 65_536;

/// Abort reason of a direct relay that ran out of time.
pub const FINAL_DIRECT_RELAY_TERMINATED_ABORT_REASON: &'static str = "final_direct_relay_terminated";

/// How a body ended.
pub enum BodyCompletion {
    Succeeded,
    UpstreamStreamError(String),
    DownstreamDropped,
    FinalDirectRelayTerminated,
    Shutdown,
}

impl BodyCompletion {
    /// The status of the request.
    pub open spec fn request_outcome(self) -> RequestStatus {
        match self {
            BodyCompletion::Succeeded => RequestStatus::Succeeded,
            BodyCompletion::UpstreamStreamError(_) => RequestStatus::Failed,
            _ => RequestStatus::Aborted,
        }
    }

    /// The status of the attempt.
    pub open spec fn attempt_outcome(self) -> AttemptStatus {
        match self {
            BodyCompletion::Succeeded => AttemptStatus::Succeeded,
            BodyCompletion::UpstreamStreamError(_) => AttemptStatus::Failed,
            _ => AttemptStatus::Aborted,
        }
    }

    /// What went wrong.
    pub open spec fn error_text(self) -> Option<Seq<char>> {
        match self {
            BodyCompletion::UpstreamStreamError(error) => Some("upstream_stream_error: "@ + error@),
            BodyCompletion::FinalDirectRelayTerminated => Some(
                "request_deadline_exhausted: final direct relay terminated"@,
            ),
            _ => None,
        }
    }

    /// Why the body was cut off.
    pub open spec fn abort_text(self) -> Option<Seq<char>> {
        match self {
            BodyCompletion::DownstreamDropped => Some("downstream_body_dropped_before_eof"@),
            BodyCompletion::FinalDirectRelayTerminated => Some(
                FINAL_DIRECT_RELAY_TERMINATED_ABORT_REASON@,
            ),
            BodyCompletion::Shutdown => Some("server_shutdown"@),
            _ => None,
        }
    }

    /// The reason in the cleanup log.
    pub open spec fn terminal_text(self) -> Seq<char> {
        match self {
            BodyCompletion::Succeeded => "succeeded"@,
            BodyCompletion::UpstreamStreamError(_) => "upstream_stream_error"@,
            BodyCompletion::DownstreamDropped => "downstream_disconnect"@,
            BodyCompletion::FinalDirectRelayTerminated => "final_direct_relay_terminated"@,
            BodyCompletion::Shutdown => "server_shutdown"@,
        }
    }

    /// The reason in the metadata.
    pub open spec fn metadata_text(self) -> Seq<char> {
        match self {
            BodyCompletion::Succeeded => "succeeded"@,
            BodyCompletion::UpstreamStreamError(_) => "upstream_stream_error"@,
            BodyCompletion::DownstreamDropped => "downstream_body_dropped_before_eof"@,
            BodyCompletion::FinalDirectRelayTerminated => FINAL_DIRECT_RELAY_TERMINATED_ABORT_REASON@,
            BodyCompletion::Shutdown => SERVER_SHUTDOWN_ABORT_REASON@,
        }
    }

    /// The status of the request.
    pub fn request_status(&self) -> (status: RequestStatus)
        ensures
            status == self.request_outcome(),
    {
        match self {
            BodyCompletion::Succeeded => RequestStatus::Succeeded,
            BodyCompletion::UpstreamStreamError(_) => RequestStatus::Failed,
            _ => RequestStatus::Aborted,
        }
    }

    /// The status of the attempt.
    pub fn attempt_status(&self) -> (status: AttemptStatus)
        ensures
            status == self.attempt_outcome(),
    {
        match self {
            BodyCompletion::Succeeded => AttemptStatus::Succeeded,
            BodyCompletion::UpstreamStreamError(_) => AttemptStatus::Failed,
            _ => AttemptStatus::Aborted,
        }
    }

    /// What went wrong.
    pub fn error_reason(&self) -> (reason: Option<String>)
        ensures
            opt_chars(reason) == self.error_text(),
    {
        match self {
            BodyCompletion::UpstreamStreamError(error) => Some(
                joined("upstream_stream_error: ", error.as_str()),
            ),
            BodyCompletion::FinalDirectRelayTerminated => Some(
                "request_deadline_exhausted: final direct relay terminated".to_owned(),
            ),
            _ => None,
        }
    }

    /// Why the body was cut off.
    pub fn abort_reason(&self) -> (reason: Option<String>)
        ensures
            opt_chars(reason) == self.abort_text(),
    {
        match self {
            BodyCompletion::DownstreamDropped => Some(
                "downstream_body_dropped_before_eof".to_owned(),
            ),
            BodyCompletion::FinalDirectRelayTerminated => Some(
                FINAL_DIRECT_RELAY_TERMINATED_ABORT_REASON.to_owned(),
            ),
            BodyCompletion::Shutdown => Some("server_shutdown".to_owned()),
            _ => None,
        }
    }

    /// The reason in the cleanup log.
    pub fn terminal_reason(&self) -> (reason: &'static str)
        ensures
            reason@ == self.terminal_text(),
    {
        match self {
            BodyCompletion::Succeeded => "succeeded",
            BodyCompletion::UpstreamStreamError(_) => "upstream_stream_error",
            BodyCompletion::DownstreamDropped => "downstream_disconnect",
            BodyCompletion::FinalDirectRelayTerminated => "final_direct_relay_terminated",
            BodyCompletion::Shutdown => "server_shutdown",
        }
    }

    /// The reason in the metadata.
    pub fn metadata_reason(&self) -> (reason: &'static str)
        ensures
            reason@ == self.metadata_text(),
    {
        match self {
            BodyCompletion::Succeeded => "succeeded",
            BodyCompletion::UpstreamStreamError(_) => "upstream_stream_error",
            BodyCompletion::DownstreamDropped => "downstream_body_dropped_before_eof",
            BodyCompletion::FinalDirectRelayTerminated => FINAL_DIRECT_RELAY_TERMINATED_ABORT_REASON,
            BodyCompletion::Shutdown => SERVER_SHUTDOWN_ABORT_REASON,
        }
    }
}

/// An abort reason is recorded exactly for a body that was aborted, and the
/// metadata gives the same reason.
pub proof fn aborts_have_reasons(completion: BodyCompletion)
    ensures
        completion.abort_text() is Some <==> completion.request_outcome() == RequestStatus::Aborted,
        completion.abort_text() is Some ==> completion.metadata_text()
            == completion.abort_text()->Some_0,
{
}

// ---------------------------------------------------------------------------
// Frames
// ---------------------------------------------------------------------------

/// The event-stream frame of an event with one line of data.
pub open spec fn sse_frame(event: Seq<char>, body: Seq<u8>) -> Seq<u8> {
    encode_utf8("event: "@) + encode_utf8(event) + encode_utf8("\ndata: "@) + body + encode_utf8(
        "\n\n"@,
    )
}

fn append_bytes(target: &mut Vec<u8>, bytes: &Vec<u8>)
    ensures
        final(target)@ == old(target)@ + bytes@,
{
    let mut copy = clone_bytes(bytes);
    target.append(&mut copy);
}

fn append_text(target: &mut Vec<u8>, text: &str)
    ensures
        final(target)@ == old(target)@ + encode_utf8(text@),
{
    let mut bytes = text.as_bytes_vec();
    target.append(&mut bytes);
}

fn write_frame(event: &str, body: &Vec<u8>) -> (frame: Vec<u8>)
    ensures
        frame@ == sse_frame(event@, body@),
{
    let mut frame: Vec<u8> = Vec::new();
    append_text(&mut frame, "event: ");
    append_text(&mut frame, event);
    append_text(&mut frame, "\ndata: ");
    append_bytes(&mut frame, body);
    append_text(&mut frame, "\n\n");
    assert(frame@ =~= sse_frame(event@, body@));
    frame
}

/// The frame of a final answer.
pub fn sse_final_frame(body: &Vec<u8>) -> (frame: Vec<u8>)
    ensures
        frame@ == sse_frame("final"@, body@),
{
    write_frame("final", body)
}

/// The frame of an error.
pub fn sse_error_frame(body: &Vec<u8>) -> (frame: Vec<u8>)
    ensures
        frame@ == sse_frame("error"@, body@),
{
    write_frame("error", body)
}

/// A heartbeat in a mode.
pub open spec fn heartbeat_bytes(mode: ShieldedLivenessMode) -> Seq<u8> {
    match mode {
        ShieldedLivenessMode::Sse => encode_utf8(": llm-guard-proxy heartbeat\n\n"@),
        ShieldedLivenessMode::JsonWhitespace => encode_utf8(" \n"@),
        ShieldedLivenessMode::Disabled => Seq::empty(),
    }
}

/// A heartbeat in white space.
pub fn json_whitespace_heartbeat() -> (chunk: Vec<u8>)
    ensures
        chunk@ == encode_utf8(" \n"@),
{
    " \n".as_bytes_vec()
}

/// A heartbeat in a mode.
pub fn heartbeat_chunk(mode: ShieldedLivenessMode) -> (chunk: Vec<u8>)
    ensures
        chunk@ == heartbeat_bytes(mode),
{
    match mode {
        ShieldedLivenessMode::Sse => ": llm-guard-proxy heartbeat\n\n".as_bytes_vec(),
        ShieldedLivenessMode::JsonWhitespace => json_whitespace_heartbeat(),
        ShieldedLivenessMode::Disabled => Vec::new(),
    }
}

/// The content type of a mode.
pub fn liveness_content_type(mode: ShieldedLivenessMode) -> (content_type: &'static str)
    ensures
        content_type@ == if mode is Sse {
            "text/event-stream"@
        } else {
            "application/json"@
        },
{
    match mode {
        ShieldedLivenessMode::Sse => "text/event-stream",
        _ => "application/json",
    }
}

/// How an accepted answer is written.
#[derive(Clone, Copy, Debug, PartialEq, Eq, Structural)]
pub enum ShieldedAcceptedResponseMode {
    JsonCompletion,
    OpenAiSse,
}

/// An accepted answer as the client gets it.
pub open spec fn accepted_bytes(
    accepted: ShieldedAcceptedResponseMode,
    mode: ShieldedLivenessMode,
    body: Seq<u8>,
    sse_body: Seq<u8>,
) -> Seq<u8> {
    match accepted {
        ShieldedAcceptedResponseMode::OpenAiSse => sse_body,
        ShieldedAcceptedResponseMode::JsonCompletion => if mode is Sse {
            sse_frame("final"@, body)
        } else {
            body
        },
    }
}

/// An error as the client gets it in the body.
pub open spec fn error_bytes(
    mode: ShieldedLivenessMode,
    error_type: Seq<char>,
    message: Seq<char>,
) -> Seq<u8> {
    let body = encode_utf8(rendered_json(error_body(plain_details(error_type, message))));
    if mode is Sse {
        sse_frame("error"@, body)
    } else {
        body
    }
}

// ---------------------------------------------------------------------------
// Bodies that are handed on
// ---------------------------------------------------------------------------

/// What has been seen of a body: how many bytes, and the first of them.
pub struct BodyTally {
    pub bytes_seen: u64,
    pub kept: Vec<u8>,
}

/// The first bytes of a body, as far as they are kept.
pub open spec fn kept_part(bytes: Seq<u8>) -> Seq<u8> {
    if bytes.len() <= TOKEN_USAGE_BODY_CAP {
        bytes
    } else {
        bytes.take(TOKEN_USAGE_BODY_CAP as int)
    }
}

impl BodyTally {
    /// No more is kept than there may be.
    pub open spec fn wf(self) -> bool {
        self.kept.len() <= TOKEN_USAGE_BODY_CAP
    }

    /// Whether exactly the given bytes have been seen.
    pub open spec fn saw(self, bytes: Seq<u8>) -> bool {
        self.kept@ == kept_part(bytes)
    }

    /// Nothing seen yet.
    pub fn new() -> (tally: BodyTally)
        ensures
            tally.wf(),
            tally.bytes_seen == 0,
            tally.saw(Seq::empty()),
    {
        let tally = BodyTally { bytes_seen: 0, kept: Vec::new() };
        assert(tally.kept@ =~= kept_part(Seq::empty()));
        tally
    }

    /// Notes one chunk.
    pub fn note_chunk(&mut self, chunk: &[u8])
        requires
            old(self).wf(),
        ensures
            final(self).wf(),
            final(self).bytes_seen == held_sum(old(self).bytes_seen, chunk@.len() as u64),
            final(self).kept@ == kept_part(old(self).kept@ + chunk@),
            forall|before: Seq<u8>|
                old(self).saw(before) ==> #[trigger] final(self).saw(before + chunk@),
    {
        let ghost first = self.kept@;
        self.bytes_seen = self.bytes_seen.saturating_add(chunk.len() as u64);
        let mut i: usize = 0;
        assert(first + chunk@.take(0) =~= first);
        while i < chunk.len() && self.kept.len() < TOKEN_USAGE_BODY_CAP
            invariant
                i <= chunk.len(),
                self.kept.len() <= TOKEN_USAGE_BODY_CAP,
                self.kept@ == first + chunk@.take(i as int),
                self.bytes_seen == held_sum(old(self).bytes_seen, chunk@.len() as u64),
            decreases chunk.len() - i,
        {
            self.kept.push(chunk[i]);
            i += 1;
            assert(self.kept@ =~= first + chunk@.take(i as int));
        }
        proof {
            if i == chunk.len() {
                assert(chunk@.take(i as int) =~= chunk@);
            }
            assert(self.kept@ =~= kept_part(first + chunk@));
            assert forall|before: Seq<u8>| kept_part(before) == first implies #[trigger] kept_part(
                before + chunk@,
            ) == self.kept@ by {
                assert(kept_part(before + chunk@) =~= kept_part(first + chunk@));
            }
            assert forall|before: Seq<u8>| old(self).saw(before) implies #[trigger] self.saw(
                before + chunk@,
            ) by {
                assert(kept_part(before) == first);
                assert(kept_part(before + chunk@) == self.kept@);
            }
        }
    }
}

/// What happened to a body.
pub enum BodyEvent {
    /// The server is shutting down.
    Shutdown,
    /// The time of the request is over.
    Deadline,
    /// A chunk came.
    Chunk,
    /// The upstream failed.
    Failed(String),
    /// The body is complete.
    End,
    /// The client went away.
    Dropped,
}

/// The completion that an event brings, where it ends the body.
pub open spec fn completion_of(event: BodyEvent) -> Option<BodyCompletion> {
    match event {
        BodyEvent::Shutdown => Some(BodyCompletion::Shutdown),
        BodyEvent::Deadline => Some(BodyCompletion::FinalDirectRelayTerminated),
        BodyEvent::Chunk => None,
        BodyEvent::Failed(error) => Some(BodyCompletion::UpstreamStreamError(error)),
        BodyEvent::End => Some(BodyCompletion::Succeeded),
        BodyEvent::Dropped => Some(BodyCompletion::DownstreamDropped),
    }
}

/// Whether a body has left its record.
pub struct RecordOnce {
    pub recorded: bool,
}

impl RecordOnce {
    /// No record yet.
    pub fn new() -> (once: RecordOnce)
        ensures
            !once.recorded,
    {
        RecordOnce { recorded: false }
    }

    /// Gives the completion that is recorded, if none has been.
    pub fn record(&mut self, completion: BodyCompletion) -> (record: Option<BodyCompletion>)
        ensures
            record == if old(self).recorded {
                None
            } else {
                Some(completion)
            },
            final(self).recorded,
    {
        if self.recorded {
            None
        } else {
            self.recorded = true;
            Some(completion)
        }
    }

    /// Gives the completion that is recorded when something happens to a body
    /// that is handed on from the upstream.
    pub fn on_event(&mut self, event: BodyEvent) -> (record: Option<BodyCompletion>)
        ensures
            record == if old(self).recorded {
                None
            } else {
                completion_of(event)
            },
            final(self).recorded == (old(self).recorded || completion_of(event) is Some),
    {
        match event {
            BodyEvent::Shutdown => self.record(BodyCompletion::Shutdown),
            BodyEvent::Deadline => self.record(BodyCompletion::FinalDirectRelayTerminated),
            BodyEvent::Chunk => None,
            BodyEvent::Failed(error) => self.record(BodyCompletion::UpstreamStreamError(error)),
            BodyEvent::End => self.record(BodyCompletion::Succeeded),
            BodyEvent::Dropped => self.record(BodyCompletion::DownstreamDropped),
        }
    }
}

/// The completion that a sequence of events leaves on record: that of the first
/// event that ends the body, whatever comes after it.
pub open spec fn recorded_of(events: Seq<BodyEvent>) -> Option<BodyCompletion>
    decreases events.len(),
{
    if events.len() == 0 {
        None
    } else {
        match recorded_of(events.drop_last()) {
            Some(completion) => Some(completion),
            None => completion_of(events.last()),
        }
    }
}

/// A body leaves one record: once an event has ended it, no later event changes
/// what is on record.
pub proof fn bodies_leave_one_record(events: Seq<BodyEvent>, later: BodyEvent)
    requires
        recorded_of(events) is Some,
    ensures
        recorded_of(events.push(later)) == recorded_of(events),
{
    assert(events.push(later).drop_last() =~= events);
}

// ---------------------------------------------------------------------------
// Bodies that are held whole
// ---------------------------------------------------------------------------

/// What a body that is held whole does next.
pub enum BufferedStep {
    /// It emits all of itself, and leaves this record where there is one to leave.
    Emit { body: Vec<u8>, record: Option<BodyCompletion> },
    /// It ends, and leaves this record where there is one to leave.
    End { record: Option<BodyCompletion> },
}

/// A body that is held whole.
pub struct BufferedBody {
    /// What was not emitted yet, if there is anything.
    pub body: Option<Vec<u8>>,
    pub bytes_seen: u64,
    /// How the body ends.
    pub terminal_completion: BodyCompletion,
    pub once: RecordOnce,
}

/// The record that is left, if none has been.
pub open spec fn left_by(once: RecordOnce, completion: BodyCompletion) -> Option<BodyCompletion> {
    if once.recorded {
        None
    } else {
        Some(completion)
    }
}

/// What comes of polling a body: the body itself with its record, and then the end.
/// An end that nothing went before is a shutdown, while there is one.
pub open spec fn polled(before: BufferedBody, shutting_down: bool) -> (BufferedBody, BufferedStep) {
    let once = RecordOnce { recorded: true };
    match before.body {
        Some(body) => (
            BufferedBody {
                body: None,
                bytes_seen: held_sum(before.bytes_seen, body@.len() as u64),
                terminal_completion: BodyCompletion::Succeeded,
                once,
            },
            BufferedStep::Emit { body, record: left_by(before.once, before.terminal_completion) },
        ),
        None => if shutting_down {
            (
                BufferedBody { once, ..before },
                BufferedStep::End { record: left_by(before.once, BodyCompletion::Shutdown) },
            )
        } else {
            (
                BufferedBody {
                    terminal_completion: BodyCompletion::Succeeded,
                    once,
                    ..before
                },
                BufferedStep::End { record: left_by(before.once, before.terminal_completion) },
            )
        },
    }
}

impl BufferedBody {
    /// A body that ends in the given way. An empty one emits nothing.
    pub fn new(body: Vec<u8>, terminal_completion: BodyCompletion) -> (buffered: BufferedBody)
        ensures
            buffered == (BufferedBody {
                body: if body@.len() == 0 {
                    None
                } else {
                    Some(body)
                },
                bytes_seen: 0,
                terminal_completion,
                once: RecordOnce { recorded: false },
            }),
    {
        let body = if body.len() == 0 {
            None
        } else {
            Some(body)
        };
        BufferedBody { body, bytes_seen: 0, terminal_completion, once: RecordOnce::new() }
    }

    /// Decides what comes next.
    pub fn poll(&mut self, shutting_down: bool) -> (step: BufferedStep)
        ensures
            (*final(self), step) == polled(*old(self), shutting_down),
    {
        match self.body.take() {
            Some(body) => {
                self.bytes_seen = self.bytes_seen.saturating_add(body.len() as u64);
                let mut completion = BodyCompletion::Succeeded;
                std::mem::swap(&mut completion, &mut self.terminal_completion);
                let record = self.once.record(completion);
                BufferedStep::Emit { body, record }
            },
            None => {
                if shutting_down {
                    let record = self.once.record(BodyCompletion::Shutdown);
                    return BufferedStep::End { record };
                }
                let mut completion = BodyCompletion::Succeeded;
                std::mem::swap(&mut completion, &mut self.terminal_completion);
                let record = self.once.record(completion);
                BufferedStep::End { record }
            },
        }
    }

    /// The body is dropped: what was not emitted is given, with the record that the
    /// client went away, where there is one to leave.
    pub fn on_drop(&mut self) -> (dropped: (Vec<u8>, Option<BodyCompletion>))
        ensures
            dropped.0@ == match old(self).body {
                Some(body) => body@,
                None => Seq::empty(),
            },
            dropped.1 == left_by(old(self).once, BodyCompletion::DownstreamDropped),
            *final(self) == (BufferedBody {
                body: None,
                once: RecordOnce { recorded: true },
                ..*old(self)
            }),
    {
        let body = match self.body.take() {
            Some(body) => body,
            None => Vec::new(),
        };
        (body, self.once.record(BodyCompletion::DownstreamDropped))
    }
}

/// A body that is held whole leaves one record, and emits itself once: once it was
/// polled, nothing more is recorded, whatever happens, and no part of it comes again.
pub proof fn buffered_bodies_leave_one_record(
    body: BufferedBody,
    shutting_down: bool,
    shutting_down_later: bool,
)
    requires
        !body.once.recorded,
    ensures
        ({
            let (after, step) = polled(body, shutting_down);
            &&& match step {
                BufferedStep::Emit { body: emitted, record } => body.body == Some(emitted)
                    && record == Some(body.terminal_completion),
                BufferedStep::End { record } => body.body is None && record is Some,
            }
            &&& polled(after, shutting_down_later).1 == (BufferedStep::End { record: None })
            &&& left_by(after.once, BodyCompletion::DownstreamDropped) is None
        }),
        left_by(body.once, BodyCompletion::DownstreamDropped) == Some(
            BodyCompletion::DownstreamDropped,
        ),
{
}

// ---------------------------------------------------------------------------
// Bodies of shielded requests
// ---------------------------------------------------------------------------

/// What the body of a shielded request waits for.
#[derive(Clone, Copy, Debug, PartialEq, Eq, Structural)]
pub enum LivenessSource {
    /// The outcome of the attempts.
    Attempts,
    /// The chunks of a stream that is handed on.
    DirectStream,
    /// Nothing more.
    Finished,
}

/// What the body of a shielded request does next.
pub enum LivenessStep {
    /// It emits a chunk.
    Emit(Vec<u8>),
    /// It ends, and leaves this record where there is one to leave.
    End { record: Option<BodyCompletion> },
    /// It looks at what it waits for.
    Poll,
}

/// The body of a shielded request.
pub struct LivenessBody {
    pub mode: ShieldedLivenessMode,
    pub accepted_response_mode: ShieldedAcceptedResponseMode,
    pub source: LivenessSource,
    pub bytes_seen: u64,
    pub terminal_completion: Option<BodyCompletion>,
    pub json_prefix_pending: bool,
    pub once: RecordOnce,
}

/// What a stream that is handed on brings.
pub enum DirectEvent {
    Chunk(Vec<u8>),
    /// The upstream failed in this way.
    Failed(ReqwestFailureKind),
    /// The time of the request is over.
    Deadline,
    End,
}

/// The message of a direct relay that ran out of time.
pub const DIRECT_RELAY_DEADLINE_MESSAGE: &'static str =
    "shielded request deadline exhausted during final direct relay";

/// Whether `after` is `before` with one failure of the given cause counted, or
/// unchanged where there is no cause.
pub open spec fn counted_once(
    before: UpstreamFailureSnapshot,
    after: UpstreamFailureSnapshot,
    cause: Option<UpstreamFailureCause>,
) -> bool {
    forall|other: UpstreamFailureCause| #[trigger]
        after.count(other) == if Some(other) == cause {
            next_count(before.count(other))
        } else {
            before.count(other)
        }
}

impl LivenessBody {
    /// A body that waits for the outcome of the attempts.
    pub fn new(
        mode: ShieldedLivenessMode,
        accepted_response_mode: ShieldedAcceptedResponseMode,
    ) -> (body: LivenessBody)
        ensures
            body.mode == mode,
            body.accepted_response_mode == accepted_response_mode,
            body.source == LivenessSource::Attempts,
            body.bytes_seen == 0,
            body.terminal_completion is None,
            body.json_prefix_pending == (mode is JsonWhitespace),
            !body.once.recorded,
    {
        LivenessBody {
            mode,
            accepted_response_mode,
            source: LivenessSource::Attempts,
            bytes_seen: 0,
            terminal_completion: None,
            json_prefix_pending: mode == ShieldedLivenessMode::JsonWhitespace,
            once: RecordOnce::new(),
        }
    }

    fn emit(&mut self, chunk: Vec<u8>) -> (step: LivenessStep)
        ensures
            step == LivenessStep::Emit(chunk),
            *final(self) == (LivenessBody {
                bytes_seen: held_sum(old(self).bytes_seen, chunk@.len() as u64),
                ..*old(self)
            }),
    {
        self.bytes_seen = self.bytes_seen.saturating_add(chunk.len() as u64);
        LivenessStep::Emit(chunk)
    }

    /// An accepted answer as the client gets it.
    pub fn accepted_chunk(&self, body: &Vec<u8>, sse_body: &Vec<u8>) -> (chunk: Vec<u8>)
        ensures
            chunk@ == accepted_bytes(self.accepted_response_mode, self.mode, body@, sse_body@),
            self.accepted_response_mode is OpenAiSse ==> chunk@ == sse_body@,
            self.accepted_response_mode is JsonCompletion && !(self.mode is Sse) ==> chunk@ == body@,
            self.accepted_response_mode is JsonCompletion && self.mode is Sse ==> chunk@
                == encode_utf8("event: "@) + encode_utf8("final"@) + encode_utf8("\ndata: "@)
                + body@ + encode_utf8("\n\n"@),
    {
        match self.accepted_response_mode {
            ShieldedAcceptedResponseMode::OpenAiSse => clone_bytes(sse_body),
            ShieldedAcceptedResponseMode::JsonCompletion => match self.mode {
                ShieldedLivenessMode::Sse => sse_final_frame(body),
                _ => clone_bytes(body),
            },
        }
    }

    /// An error as the client gets it in the body.
    pub fn error_chunk(&self, error_type: &str, error: &str) -> (chunk: Vec<u8>)
        ensures
            chunk@ == error_bytes(self.mode, error_type@, error@),
    {
        let body = proxy_error_json_body(error_type, error);
        match self.mode {
            ShieldedLivenessMode::Sse => sse_error_frame(&body),
            _ => body,
        }
    }

    /// What comes before anything else: the end of a finished body, a shutdown,
    /// and the white space in front of a JSON answer.
    pub fn before_poll(&mut self, shutting_down: bool) -> (step: LivenessStep)
        ensures
            match old(self).terminal_completion {
                Some(completion) => {
                    &&& step == (LivenessStep::End {
                        record: if old(self).once.recorded {
                            None
                        } else {
                            Some(completion)
                        },
                    })
                    &&& *final(self) == (LivenessBody {
                        terminal_completion: None,
                        once: RecordOnce { recorded: true },
                        ..*old(self)
                    })
                },
                None => if shutting_down {
                    &&& step == (LivenessStep::End {
                        record: if old(self).once.recorded {
                            None
                        } else {
                            Some(BodyCompletion::Shutdown)
                        },
                    })
                    &&& *final(self) == (LivenessBody {
                        once: RecordOnce { recorded: true },
                        ..*old(self)
                    })
                } else if old(self).json_prefix_pending {
                    &&& step is Emit
                    &&& step->Emit_0@ == encode_utf8(" \n"@)
                    &&& *final(self) == (LivenessBody {
                        json_prefix_pending: false,
                        bytes_seen: held_sum(
                            old(self).bytes_seen,
                            encode_utf8(" \n"@).len() as u64,
                        ),
                        ..*old(self)
                    })
                } else {
                    step is Poll && *final(self) == *old(self)
                },
            },
    {
        match self.terminal_completion.take() {
            Some(completion) => {
                let record = self.once.record(completion);
                return LivenessStep::End { record };
            },
            None => {},
        }
        if shutting_down {
            let record = self.once.record(BodyCompletion::Shutdown);
            return LivenessStep::End { record };
        }
        if self.json_prefix_pending {
            self.json_prefix_pending = false;
            return self.emit(json_whitespace_heartbeat());
        }
        LivenessStep::Poll
    }

    /// An accepted answer came: it is emitted, and the body is complete.
    pub fn on_accepted(&mut self, body: &Vec<u8>, sse_body: &Vec<u8>) -> (chunk: Vec<u8>)
        ensures
            chunk@ == accepted_bytes(
                old(self).accepted_response_mode,
                old(self).mode,
                body@,
                sse_body@,
            ),
            old(self).accepted_response_mode is OpenAiSse ==> chunk@ == sse_body@,
            old(self).accepted_response_mode is JsonCompletion && !(old(self).mode is Sse)
                ==> chunk@ == body@,
            *final(self) == (LivenessBody {
                terminal_completion: Some(BodyCompletion::Succeeded),
                source: LivenessSource::Finished,
                bytes_seen: held_sum(old(self).bytes_seen, chunk@.len() as u64),
                ..*old(self)
            }),
    {
        let chunk = self.accepted_chunk(body, sse_body);
        self.terminal_completion = Some(BodyCompletion::Succeeded);
        self.source = LivenessSource::Finished;
        self.bytes_seen = self.bytes_seen.saturating_add(chunk.len() as u64);
        chunk
    }

    /// The request failed: the failure is counted, the error is emitted and the
    /// body is complete.
    pub fn on_failed(
        &mut self,
        failure: &ShieldedFailureOutcome,
        counters: &mut UpstreamFailureCounters,
    ) -> (chunk: Vec<u8>)
        ensures
            chunk@ == error_bytes(
                old(self).mode,
                failure.error_type@,
                failure.error_message@,
            ),
            final(self).terminal_completion is Some,
            final(self).terminal_completion->Some_0 is UpstreamStreamError,
            final(self).terminal_completion->Some_0->UpstreamStreamError_0@
                == failure.error_message@,
            *final(self) == (LivenessBody {
                terminal_completion: final(self).terminal_completion,
                source: LivenessSource::Finished,
                bytes_seen: held_sum(old(self).bytes_seen, chunk@.len() as u64),
                ..*old(self)
            }),
            counted_once(
                old(counters)@,
                final(counters)@,
                cause_of_failure(
                    failure.error_type@,
                    failure.error_message@,
                    failure.response_metadata@,
                ),
            ),
    {
        match classify_shielded_failure_cause(
            failure.error_type,
            failure.error_message.as_str(),
            &failure.response_metadata,
        ) {
            Some(cause) => {
                counters.increment(cause);
            },
            None => {},
        }
        let chunk = self.error_chunk(failure.error_type, failure.error_message.as_str());
        self.terminal_completion = Some(
            BodyCompletion::UpstreamStreamError(failure.error_message.clone()),
        );
        self.source = LivenessSource::Finished;
        self.bytes_seen = self.bytes_seen.saturating_add(chunk.len() as u64);
        chunk
    }

    /// A stream is to be handed on, for as long as the request has time left.
    pub fn on_direct_relay(
        &mut self,
        deadline_left_ms: Option<u64>,
        counters: &mut UpstreamFailureCounters,
    ) -> (step: LivenessStep)
        ensures
            match deadline_left_ms {
                Some(_) => {
                    &&& step is Poll
                    &&& *final(self) == (LivenessBody {
                        source: LivenessSource::DirectStream,
                        ..*old(self)
                    })
                    &&& final(counters)@ == old(counters)@
                },
                None => relay_cut_off(*old(self), *final(self), step) && counted_once(
                    old(counters)@,
                    final(counters)@,
                    Some(UpstreamFailureCause::Timeout),
                ),
            },
    {
        match deadline_left_ms {
            Some(_) => {
                self.source = LivenessSource::DirectStream;
                LivenessStep::Poll
            },
            None => self.terminate_direct_relay_for_deadline(counters),
        }
    }

    /// Cuts off a stream that is handed on, because the time of the request is
    /// over.
    pub fn terminate_direct_relay_for_deadline(&mut self, counters: &mut UpstreamFailureCounters) -> (
        step: LivenessStep)
        ensures
            relay_cut_off(*old(self), *final(self), step),
            counted_once(
                old(counters)@,
                final(counters)@,
                Some(UpstreamFailureCause::Timeout),
            ),
    {
        counters.increment(UpstreamFailureCause::Timeout);
        self.source = LivenessSource::Finished;
        self.terminal_completion = Some(BodyCompletion::FinalDirectRelayTerminated);
        let chunk = self.error_chunk(REQUEST_DEADLINE_ERROR_TYPE, DIRECT_RELAY_DEADLINE_MESSAGE);
        self.emit(chunk)
    }

    /// What a stream that is handed on brought: chunks go on to the client, a
    /// failure is counted and told, and the end completes the body.
    pub fn on_direct_event(&mut self, event: DirectEvent, counters: &mut UpstreamFailureCounters) -> (
        step: LivenessStep)
        ensures
            match event {
                DirectEvent::Chunk(bytes) => {
                    &&& step == LivenessStep::Emit(bytes)
                    &&& *final(self) == (LivenessBody {
                        bytes_seen: held_sum(old(self).bytes_seen, bytes@.len() as u64),
                        ..*old(self)
                    })
                    &&& final(counters)@ == old(counters)@
                },
                DirectEvent::Failed(kind) => {
                    &&& step is Emit
                    &&& step->Emit_0@ == error_bytes(
                        old(self).mode,
                        "llm_guard_upstream_error"@,
                        kind.label(),
                    )
                    &&& final(self).terminal_completion is Some
                    &&& final(self).terminal_completion->Some_0 is UpstreamStreamError
                    &&& final(self).terminal_completion->Some_0->UpstreamStreamError_0@
                        == kind.label()
                    &&& *final(self) == (LivenessBody {
                        terminal_completion: final(self).terminal_completion,
                        source: LivenessSource::Finished,
                        bytes_seen: held_sum(old(self).bytes_seen, step->Emit_0@.len() as u64),
                        ..*old(self)
                    })
                    &&& counted_once(
                        old(counters)@,
                        final(counters)@,
                        Some(cause_of_kind(kind)),
                    )
                },
                DirectEvent::Deadline => relay_cut_off(*old(self), *final(self), step)
                    && counted_once(
                    old(counters)@,
                    final(counters)@,
                    Some(UpstreamFailureCause::Timeout),
                ),
                DirectEvent::End => {
                    &&& step == (LivenessStep::End {
                        record: if old(self).once.recorded {
                            None
                        } else {
                            Some(BodyCompletion::Succeeded)
                        },
                    })
                    &&& *final(self) == (LivenessBody {
                        source: LivenessSource::Finished,
                        once: RecordOnce { recorded: true },
                        ..*old(self)
                    })
                    &&& final(counters)@ == old(counters)@
                },
            },
    {
        match event {
            DirectEvent::Chunk(bytes) => self.emit(bytes),
            DirectEvent::Failed(kind) => {
                counters.increment(UpstreamFailureCause::from_reqwest_failure(kind));
                let message = kind.as_str().to_owned();
                let chunk = self.error_chunk("llm_guard_upstream_error", message.as_str());
                self.terminal_completion = Some(BodyCompletion::UpstreamStreamError(message));
                self.source = LivenessSource::Finished;
                self.emit(chunk)
            },
            DirectEvent::Deadline => self.terminate_direct_relay_for_deadline(counters),
            DirectEvent::End => {
                self.source = LivenessSource::Finished;
                let record = self.once.record(BodyCompletion::Succeeded);
                LivenessStep::End { record }
            },
        }
    }

    /// The heartbeat is due.
    pub fn on_tick(&mut self) -> (chunk: Vec<u8>)
        ensures
            chunk@ == heartbeat_bytes(old(self).mode),
            *final(self) == (LivenessBody {
                bytes_seen: held_sum(old(self).bytes_seen, chunk@.len() as u64),
                ..*old(self)
            }),
    {
        let chunk = heartbeat_chunk(self.mode);
        self.bytes_seen = self.bytes_seen.saturating_add(chunk.len() as u64);
        chunk
    }

    /// The body is dropped: a complete one leaves its record, any other one the
    /// record that the client went away. The second result says whether the
    /// attempts have to be told that the client is gone.
    pub fn on_drop(&mut self) -> (dropped: (Option<BodyCompletion>, bool))
        ensures
            *final(self) == (LivenessBody {
                terminal_completion: None,
                once: RecordOnce { recorded: true },
                ..*old(self)
            }),
            match old(self).terminal_completion {
                Some(completion) => dropped == (
                    if old(self).once.recorded {
                        None
                    } else {
                        Some(completion)
                    },
                    false,
                ),
                None => dropped == (
                    if old(self).once.recorded {
                        None
                    } else {
                        Some(BodyCompletion::DownstreamDropped)
                    },
                    !old(self).once.recorded,
                ),
            },
    {
        match self.terminal_completion.take() {
            Some(completion) => (self.once.record(completion), false),
            None => {
                let client_gone = !self.once.recorded;
                (self.once.record(BodyCompletion::DownstreamDropped), client_gone)
            },
        }
    }
}

/// Whether a stream that is handed on was cut off for lack of time: the client is
/// told, and the body is complete.
pub open spec fn relay_cut_off(before: LivenessBody, after: LivenessBody, step: LivenessStep) -> bool {
    &&& step is Emit
    &&& step->Emit_0@ == error_bytes(
        before.mode,
        REQUEST_DEADLINE_ERROR_TYPE@,
        DIRECT_RELAY_DEADLINE_MESSAGE@,
    )
    &&& after == (LivenessBody {
        source: LivenessSource::Finished,
        terminal_completion: Some(BodyCompletion::FinalDirectRelayTerminated),
        bytes_seen: held_sum(before.bytes_seen, step->Emit_0@.len() as u64),
        ..before
    })
}

/// A client gets an accepted answer in its own framing, whole and unchanged: a streaming
/// client the events of the attempt, one that waits in an event stream the completion
/// as the data of one final event, and every other the completion itself.
pub proof fn accepted_answers_keep_their_framing(
    mode: ShieldedLivenessMode,
    body: Seq<u8>,
    sse_body: Seq<u8>,
)
    ensures
        accepted_bytes(ShieldedAcceptedResponseMode::OpenAiSse, mode, body, sse_body) == sse_body,
        !(mode is Sse) ==> accepted_bytes(
            ShieldedAcceptedResponseMode::JsonCompletion,
            mode,
            body,
            sse_body,
        ) == body,
        mode is Sse ==> accepted_bytes(
            ShieldedAcceptedResponseMode::JsonCompletion,
            mode,
            body,
            sse_body,
        ) == encode_utf8("event: "@) + encode_utf8("final"@) + encode_utf8("\ndata: "@) + body
            + encode_utf8("\n\n"@),
{
}

/// A heartbeat says nothing: in an event stream it is a comment, in front of JSON it is
/// white space, and where there are none it is empty.
pub proof fn heartbeats_say_nothing(mode: ShieldedLivenessMode)
    ensures
        mode is Sse ==> heartbeat_bytes(mode)[0] == 0x3a && heartbeat_bytes(mode)[
        heartbeat_bytes(mode).len() - 1] == 0x0a && heartbeat_bytes(mode)[
        heartbeat_bytes(mode).len() - 2] == 0x0a,
        mode is JsonWhitespace ==> heartbeat_bytes(mode).len() > 0 && forall|i: int|
            0 <= i < heartbeat_bytes(mode).len() ==> #[trigger] heartbeat_bytes(mode)[i] == 0x20
                || heartbeat_bytes(mode)[i] == 0x0a,
        mode is Disabled ==> heartbeat_bytes(mode).len() == 0,
{
    reveal_strlit(": llm-guard-proxy heartbeat\n\n");
    reveal_strlit(" \n");
    vstd::utf8::is_ascii_chars_encode_utf8(": llm-guard-proxy heartbeat\n\n"@);
    vstd::utf8::is_ascii_chars_encode_utf8(" \n"@);
}

/// An error comes in the framing of its client: as the data of one error event in an
/// event stream, and as it is elsewhere.
pub proof fn errors_keep_their_framing(
    mode: ShieldedLivenessMode,
    other: ShieldedLivenessMode,
    error_type: Seq<char>,
    message: Seq<char>,
)
    requires
        mode is Sse,
        !(other is Sse),
    ensures
        error_bytes(mode, error_type, message) == encode_utf8("event: "@) + encode_utf8("error"@)
            + encode_utf8("\ndata: "@) + error_bytes(other, error_type, message) + encode_utf8(
            "\n\n"@,
        ),
{
}

/// A body ends well only where it came to its end; every other end is told by what
/// brought it.
pub proof fn bodies_end_as_they_ended(event: BodyEvent)
    ensures
        completion_of(event) == Some(BodyCompletion::Succeeded) <==> event is End,
        completion_of(event) == Some(BodyCompletion::Shutdown) <==> event is Shutdown,
        completion_of(event) == Some(BodyCompletion::DownstreamDropped) <==> event is Dropped,
        completion_of(event) == Some(BodyCompletion::FinalDirectRelayTerminated) <==> event
            is Deadline,
        completion_of(event) is None <==> event is Chunk,
        event matches BodyEvent::Failed(error) ==> completion_of(event) == Some(
            BodyCompletion::UpstreamStreamError(error),
        ),
{
}

/// The start of a body is kept, as long as it may be, however it comes.
pub proof fn bodies_are_kept_from_the_start(first: Seq<u8>, second: Seq<u8>)
    ensures
        kept_part(kept_part(first) + second) == kept_part(first + second),
        first.len() <= TOKEN_USAGE_BODY_CAP ==> kept_part(first) == first,
        kept_part(first).len() <= first.len(),
        forall|i: int| 0 <= i < kept_part(first).len() ==> kept_part(first)[i] == first[i],
{
    assert(kept_part(kept_part(first) + second) =~= kept_part(first + second));
}

/// A failure counts once, for its own cause; what has no cause does not count.
pub proof fn failures_count_for_their_cause(
    before: UpstreamFailureSnapshot,
    after: UpstreamFailureSnapshot,
    cause: UpstreamFailureCause,
    other: UpstreamFailureCause,
)
    ensures
        counted_once(before, after, Some(cause)) && before.count(cause) < u64::MAX ==> after.count(
            cause,
        ) == before.count(cause) + 1,
        counted_once(before, after, Some(cause)) && other != cause ==> after.count(other)
            == before.count(other),
        counted_once(before, after, None) ==> after.count(other) == before.count(other),
{
}

/// A relay that ran out of time ends with an error of that, and is recorded as cut off.
pub proof fn late_relays_are_cut_off(before: LivenessBody, after: LivenessBody, step: LivenessStep)
    requires
        relay_cut_off(before, after, step),
    ensures
        after.terminal_completion == Some(BodyCompletion::FinalDirectRelayTerminated),
        after.source is Finished,
        step matches LivenessStep::Emit(bytes) && bytes@ == error_bytes(
            before.mode,
            "llm_guard_request_deadline_exhausted"@,
            DIRECT_RELAY_DEADLINE_MESSAGE@,
        ),
{
}

/// A body that is held is sent whole, once, and is recorded as it ended.
pub proof fn held_bodies_are_sent_once(before: BufferedBody, shutting_down: bool)
    ensures
        ({
            let (after, step) = polled(before, shutting_down);
            &&& after.body is None
            &&& after.once.recorded
            &&& (before.body matches Some(body) ==> (step matches BufferedStep::Emit {
                body: sent,
                record,
            } && sent == body && (before.once.recorded ==> record is None) && (
            !before.once.recorded ==> record == Some(before.terminal_completion))))
            &&& before.body is None ==> (step matches BufferedStep::End { record } && (
            before.once.recorded ==> record is None) && (!before.once.recorded && !shutting_down
                ==> record == Some(before.terminal_completion)) && (!before.once.recorded
                && shutting_down ==> record == Some(BodyCompletion::Shutdown)))
            &&& polled(after, shutting_down).1 matches BufferedStep::End { record } && record is None
        }),
{
}

/// Each end of a body has a name of its own.
pub proof fn ends_have_their_names(error: String)
    ensures
        BodyCompletion::Succeeded.terminal_text() == "succeeded"@,
        BodyCompletion::DownstreamDropped.terminal_text() == "downstream_disconnect"@,
        BodyCompletion::Shutdown.terminal_text() == "server_shutdown"@,
        BodyCompletion::FinalDirectRelayTerminated.terminal_text()
            == "final_direct_relay_terminated"@,
{
}

/// An event holds its body whole: it begins with the name of the event, and two events of
/// one name are the same where their bodies are.
pub proof fn events_hold_their_body(event: Seq<char>, body: Seq<u8>, other: Seq<u8>)
    ensures
        sse_frame(event, body) == sse_frame(event, other) ==> body == other,
        sse_frame(event, body).len() == sse_frame(event, Seq::empty()).len() + body.len(),
        ({
            let head = encode_utf8("event: "@) + encode_utf8(event) + encode_utf8("\ndata: "@);
            let frame = sse_frame(event, body);
            &&& frame.take(head.len() as int) == head
            &&& frame.subrange(head.len() as int, (head.len() + body.len()) as int) == body
            &&& frame.skip((head.len() + body.len()) as int) == encode_utf8("\n\n"@)
        }),
{
    let head = encode_utf8("event: "@) + encode_utf8(event) + encode_utf8("\ndata: "@);
    let end = encode_utf8("\n\n"@);
    let frame = sse_frame(event, body);
    let twin = sse_frame(event, other);
    assert(frame.subrange(head.len() as int, frame.len() - end.len()) =~= body);
    assert(twin.subrange(head.len() as int, twin.len() - end.len()) =~= other);
    assert(frame.take(head.len() as int) =~= head);
    assert(frame.skip((head.len() + body.len()) as int) =~= end);
}

/// Each end of a body is told apart, in the record and in the metadata.
pub proof fn ends_of_bodies_are_told_apart(end: BodyCompletion)
    ensures
        end is Succeeded ==> end.terminal_text() == "succeeded"@,
        end is UpstreamStreamError ==> end.terminal_text() == "upstream_stream_error"@,
        end is DownstreamDropped ==> end.terminal_text() == "downstream_disconnect"@,
        end is FinalDirectRelayTerminated ==> end.terminal_text() == "final_direct_relay_terminated"@,
        end is Shutdown ==> end.terminal_text() == "server_shutdown"@,
        end is Succeeded ==> end.metadata_text() == "succeeded"@,
        end is UpstreamStreamError ==> end.metadata_text() == "upstream_stream_error"@,
        end is DownstreamDropped ==> end.metadata_text() == "downstream_body_dropped_before_eof"@,
        end is FinalDirectRelayTerminated ==> end.metadata_text() == "final_direct_relay_terminated"@,
        end is Shutdown ==> end.metadata_text() == "server_shutdown"@,
{
}

/// An error that ends a body tells its type and its message, as an event where the body
/// is a stream of events.
pub proof fn errors_at_the_end_are_told(
    mode: ShieldedLivenessMode,
    error_type: Seq<char>,
    message: Seq<char>,
)
    ensures
        exists|told: crate::json::JsonModel|
            {
                let body = encode_utf8(#[trigger] rendered_json(told));
                &&& error_bytes(mode, error_type, message) == if mode is Sse {
                    sse_frame("error"@, body)
                } else {
                    body
                }
                &&& told.field("error"@) matches Some(error)
                &&& error.field("type"@) == Some(crate::json::JsonModel::Text(error_type))
                &&& error.field("message"@) == Some(crate::json::JsonModel::Text(message))
            },
{
    let details = plain_details(error_type, message);
    crate::error_bodies::error_bodies_tell_the_error(details);
    let told = error_body(details);
    let body = encode_utf8(rendered_json(told));
    assert(error_bytes(mode, error_type, message) == if mode is Sse {
        sse_frame("error"@, body)
    } else {
        body
    });
}

} // verus!
