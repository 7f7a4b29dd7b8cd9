//! Upstream failures: their kinds, their cause buckets and their counters.

use crate::metadata::{bound_to, metadata_has, Bindings, Metadata};
use crate::text::{contains, has_part, lowered, same_text, to_lowercase};
use vstd::prelude::*;

verus! {

/// Abort reason of what a server shutdown ended.
pub const SERVER_SHUTDOWN_ABORT_REASON: &'static str = "server_shutdown";

/// Error type of what a server shutdown ended.
pub const PROXY_SHUTTING_DOWN_ERROR_TYPE: &'static str = "proxy_shutting_down";

/// Abort reason of what ran out of time.
pub const REQUEST_DEADLINE_ABORT_REASON: &'static str = "request_deadline_exhausted";

/// Error type of what ran out of time.
pub const REQUEST_DEADLINE_ERROR_TYPE: &'static str = "llm_guard_request_deadline_exhausted";

/// An error of the HTTP client.
#[verifier::external_type_specification]
#[verifier::external_body]
pub struct ExClientError(reqwest::Error);

/// What `reqwest::Error::is_timeout` says of an error.
pub uninterp spec fn client_timed_out(error: reqwest::Error) -> bool;

/// What `reqwest::Error::is_connect` says of an error.
pub uninterp spec fn client_could_not_connect(error: reqwest::Error) -> bool;

/// What `reqwest::Error::is_body` says of an error.
pub uninterp spec fn client_body_failed(error: reqwest::Error) -> bool;

/// What `reqwest::Error::is_decode` says of an error.
pub uninterp spec fn client_decode_failed(error: reqwest::Error) -> bool;

/// What `reqwest::Error::is_request` says of an error.
pub uninterp spec fn client_request_failed(error: reqwest::Error) -> bool;

/// `reqwest::Error::is_timeout` is a function of the error.
pub assume_specification[ reqwest::Error::is_timeout ](error: &reqwest::Error) -> (is: bool)
    ensures
        is == client_timed_out(*error),
;

/// `reqwest::Error::is_connect` is a function of the error.
pub assume_specification[ reqwest::Error::is_connect ](error: &reqwest::Error) -> (is: bool)
    ensures
        is == client_could_not_connect(*error),
;

/// `reqwest::Error::is_body` is a function of the error.
pub assume_specification[ reqwest::Error::is_body ](error: &reqwest::Error) -> (is: bool)
    ensures
        is == client_body_failed(*error),
;

/// `reqwest::Error::is_decode` is a function of the error.
pub assume_specification[ reqwest::Error::is_decode ](error: &reqwest::Error) -> (is: bool)
    ensures
        is == client_decode_failed(*error),
;

/// `reqwest::Error::is_request` is a function of the error.
pub assume_specification[ reqwest::Error::is_request ](error: &reqwest::Error) -> (is: bool)
    ensures
        is == client_request_failed(*error),
;

/// The kind of a client failure.
#[derive(Clone, Copy, Debug, PartialEq, Eq, Structural)]
pub enum ReqwestFailureKind {
    Timeout,
    Connect,
    Request,
    Body,
    Decode,
    Other,
}

/// What a client says of a failure.
#[derive(Clone, Copy, Debug, PartialEq, Eq, Structural)]
pub struct FailureSigns {
    pub timeout: bool,
    pub connect: bool,
    pub body: bool,
    pub decode: bool,
    pub request: bool,
}

/// The kind of a failure: the first sign that it shows.
pub open spec fn failure_kind(signs: FailureSigns) -> ReqwestFailureKind {
    if signs.timeout {
        ReqwestFailureKind::Timeout
    } else if signs.connect {
        ReqwestFailureKind::Connect
    } else if signs.body {
        ReqwestFailureKind::Body
    } else if signs.decode {
        ReqwestFailureKind::Decode
    } else if signs.request {
        ReqwestFailureKind::Request
    } else {
        ReqwestFailureKind::Other
    }
}

/// What the HTTP client says of an error.
pub open spec fn client_signs(error: reqwest::Error) -> FailureSigns {
    FailureSigns {
        timeout: client_timed_out(error),
        connect: client_could_not_connect(error),
        body: client_body_failed(error),
        decode: client_decode_failed(error),
        request: client_request_failed(error),
    }
}

impl ReqwestFailureKind {
    /// The kind of a failure, by the signs that it shows.
    pub fn from_signs(signs: FailureSigns) -> (kind: ReqwestFailureKind)
        ensures
            kind == failure_kind(signs),
    {
        if signs.timeout {
            ReqwestFailureKind::Timeout
        } else if signs.connect {
            ReqwestFailureKind::Connect
        } else if signs.body {
            ReqwestFailureKind::Body
        } else if signs.decode {
            ReqwestFailureKind::Decode
        } else if signs.request {
            ReqwestFailureKind::Request
        } else {
            ReqwestFailureKind::Other
        }
    }

    /// The kind of an error of the HTTP client.
    pub fn from_error(error: &reqwest::Error) -> (kind: ReqwestFailureKind)
        ensures
            kind == failure_kind(client_signs(*error)),
    {
        ReqwestFailureKind::from_signs(
            FailureSigns {
                timeout: error.is_timeout(),
                connect: error.is_connect(),
                body: error.is_body(),
                decode: error.is_decode(),
                request: error.is_request(),
            },
        )
    }

    /// The label of a kind.
    pub open spec fn label(self) -> Seq<char> {
        match self {
            ReqwestFailureKind::Timeout => "timeout_failure"@,
            ReqwestFailureKind::Connect => "connect_failure"@,
            ReqwestFailureKind::Request => "request_failure"@,
            ReqwestFailureKind::Body => "body_failure"@,
            ReqwestFailureKind::Decode => "decode_failure"@,
            ReqwestFailureKind::Other => "unknown_failure"@,
        }
    }

    /// The label of a kind.
    pub fn as_str(self) -> (label: &'static str)
        ensures
            label@ == self.label(),
    {
        match self {
            ReqwestFailureKind::Timeout => "timeout_failure",
            ReqwestFailureKind::Connect => "connect_failure",
            ReqwestFailureKind::Request => "request_failure",
            ReqwestFailureKind::Body => "body_failure",
            ReqwestFailureKind::Decode => "decode_failure",
            ReqwestFailureKind::Other => "unknown_failure",
        }
    }

    /// Whether a failure of this kind may go away when it is tried again.
    pub open spec fn transient(self) -> bool {
        self is Timeout || self is Connect || self is Body || self is Other
    }

    /// Whether a failure of this kind may go away when it is tried again.
    pub fn is_transient(self) -> (transient: bool)
        ensures
            transient == self.transient(),
    {
        matches!(
            self,
            ReqwestFailureKind::Timeout | ReqwestFailureKind::Connect | ReqwestFailureKind::Body
                | ReqwestFailureKind::Other
        )
    }
}

/// The text of a client error that may be shown: the label of its kind, with no
/// word of the error itself.
pub fn sanitized_reqwest_error(error: &reqwest::Error) -> (text: String)
    ensures
        text@ == failure_kind(client_signs(*error)).label(),
{
    ReqwestFailureKind::from_error(error).as_str().to_owned()
}

/// The cause bucket of an upstream failure.
#[derive(Clone, Copy, Debug, PartialEq, Eq, Structural)]
pub enum UpstreamFailureCause {
    ConnectFailed,
    Timeout,
    BodyError,
    StatusError,
    TransportError,
}

/// The cause bucket of a kind of client failure.
pub open spec fn cause_of_kind(kind: ReqwestFailureKind) -> UpstreamFailureCause {
    match kind {
        ReqwestFailureKind::Connect => UpstreamFailureCause::ConnectFailed,
        ReqwestFailureKind::Timeout => UpstreamFailureCause::Timeout,
        ReqwestFailureKind::Body => UpstreamFailureCause::BodyError,
        ReqwestFailureKind::Decode => UpstreamFailureCause::BodyError,
        ReqwestFailureKind::Request => UpstreamFailureCause::TransportError,
        ReqwestFailureKind::Other => UpstreamFailureCause::TransportError,
    }
}

impl UpstreamFailureCause {
    /// The cause bucket of a kind of client failure.
    pub fn from_reqwest_failure(kind: ReqwestFailureKind) -> (cause: UpstreamFailureCause)
        ensures
            cause == cause_of_kind(kind),
    {
        match kind {
            ReqwestFailureKind::Connect => UpstreamFailureCause::ConnectFailed,
            ReqwestFailureKind::Timeout => UpstreamFailureCause::Timeout,
            ReqwestFailureKind::Body | ReqwestFailureKind::Decode => UpstreamFailureCause::BodyError,
            ReqwestFailureKind::Request
            | ReqwestFailureKind::Other => UpstreamFailureCause::TransportError,
        }
    }

    /// The label of a cause in metrics.
    pub open spec fn label(self) -> Seq<char> {
        match self {
            UpstreamFailureCause::ConnectFailed => "connect_failed"@,
            UpstreamFailureCause::Timeout => "timeout"@,
            UpstreamFailureCause::BodyError => "body_error"@,
            UpstreamFailureCause::StatusError => "status_error"@,
            UpstreamFailureCause::TransportError => "transport_error"@,
        }
    }

    /// The code of a cause in error bodies.
    pub open spec fn code_text(self) -> Seq<char> {
        match self {
            UpstreamFailureCause::ConnectFailed => "upstream_connect_failed"@,
            UpstreamFailureCause::Timeout => "upstream_timeout"@,
            UpstreamFailureCause::BodyError => "upstream_body_error"@,
            UpstreamFailureCause::StatusError => "upstream_status_error"@,
            UpstreamFailureCause::TransportError => "upstream_transport_error"@,
        }
    }

    /// The code of a cause in error bodies.
    pub fn code(self) -> (code: &'static str)
        ensures
            code@ == self.code_text(),
    {
        match self {
            UpstreamFailureCause::ConnectFailed => "upstream_connect_failed",
            UpstreamFailureCause::Timeout => "upstream_timeout",
            UpstreamFailureCause::BodyError => "upstream_body_error",
            UpstreamFailureCause::StatusError => "upstream_status_error",
            UpstreamFailureCause::TransportError => "upstream_transport_error",
        }
    }

    /// The label of a cause in metrics.
    pub fn metric_label(self) -> (label: &'static str)
        ensures
            label@ == self.label(),
    {
        match self {
            UpstreamFailureCause::ConnectFailed => "connect_failed",
            UpstreamFailureCause::Timeout => "timeout",
            UpstreamFailureCause::BodyError => "body_error",
            UpstreamFailureCause::StatusError => "status_error",
            UpstreamFailureCause::TransportError => "transport_error",
        }
    }
}

/// The code of every cause is the word `upstream_` and its metric label.
pub proof fn cause_codes_extend_metric_labels(cause: UpstreamFailureCause)
    ensures
        cause.code_text() == "upstream_"@ + cause.label(),
{
    reveal_strlit("upstream_");
    reveal_strlit("connect_failed");
    reveal_strlit("timeout");
    reveal_strlit("body_error");
    reveal_strlit("status_error");
    reveal_strlit("transport_error");
    reveal_strlit("upstream_connect_failed");
    reveal_strlit("upstream_timeout");
    reveal_strlit("upstream_body_error");
    reveal_strlit("upstream_status_error");
    reveal_strlit("upstream_transport_error");
    assert(cause.code_text() =~= "upstream_"@ + cause.label());
}

/// How many upstream failures of each cause there have been.
#[derive(Clone, Copy, Debug, PartialEq, Eq, Structural)]
pub struct UpstreamFailureSnapshot {
    pub connect_failed: u64,
    pub timeout: u64,
    pub body_error: u64,
    pub status_error: u64,
    pub transport_error: u64,
}

impl UpstreamFailureSnapshot {
    /// The count of one cause.
    pub open spec fn count(self, cause: UpstreamFailureCause) -> u64 {
        match cause {
            UpstreamFailureCause::ConnectFailed => self.connect_failed,
            UpstreamFailureCause::Timeout => self.timeout,
            UpstreamFailureCause::BodyError => self.body_error,
            UpstreamFailureCause::StatusError => self.status_error,
            UpstreamFailureCause::TransportError => self.transport_error,
        }
    }
}

/// Counters of upstream failures, one for each cause.
pub struct UpstreamFailureCounters {
    counts: UpstreamFailureSnapshot,
}

/// The number after `count`; after the largest number comes zero.
pub open spec fn next_count(count: u64) -> u64 {
    if count == u64::MAX {
        0
    } else {
        (count + 1) as u64
    }
}

impl View for UpstreamFailureCounters {
    type V = UpstreamFailureSnapshot;

    closed spec fn view(&self) -> UpstreamFailureSnapshot {
        self.counts
    }
}

impl UpstreamFailureCounters {
    /// Counters at zero.
    pub fn new() -> (counters: UpstreamFailureCounters)
        ensures
            forall|cause: UpstreamFailureCause| #[trigger] counters@.count(cause) == 0,
    {
        UpstreamFailureCounters {
            counts: UpstreamFailureSnapshot {
                connect_failed: 0,
                timeout: 0,
                body_error: 0,
                status_error: 0,
                transport_error: 0,
            },
        }
    }

    /// Counts one failure.
    pub fn increment(&mut self, cause: UpstreamFailureCause)
        ensures
            forall|other: UpstreamFailureCause| #[trigger]
                final(self)@.count(other) == if other == cause {
                    next_count(old(self)@.count(other))
                } else {
                    old(self)@.count(other)
                },
    {
        match cause {
            UpstreamFailureCause::ConnectFailed => {
                self.counts.connect_failed = self.counts.connect_failed.wrapping_add(1);
            },
            UpstreamFailureCause::Timeout => {
                self.counts.timeout = self.counts.timeout.wrapping_add(1);
            },
            UpstreamFailureCause::BodyError => {
                self.counts.body_error = self.counts.body_error.wrapping_add(1);
            },
            UpstreamFailureCause::StatusError => {
                self.counts.status_error = self.counts.status_error.wrapping_add(1);
            },
            UpstreamFailureCause::TransportError => {
                self.counts.transport_error = self.counts.transport_error.wrapping_add(1);
            },
        }
    }

    /// The counts as they stand.
    pub fn snapshot(&self) -> (snapshot: UpstreamFailureSnapshot)
        ensures
            snapshot == self@,
    {
        self.counts
    }
}

/// The cause that the wording of an error message points to.
pub open spec fn cause_of_message(message: Seq<char>) -> Option<UpstreamFailureCause> {
    let text = lowered(message);
    if has_part(text, "connect_failure"@) || has_part(text, "connect failed"@) || has_part(
        text,
        "connection"@,
    ) {
        Some(UpstreamFailureCause::ConnectFailed)
    } else if has_part(text, "timeout"@) || has_part(text, "timed out"@) || has_part(
        text,
        "deadline"@,
    ) {
        Some(UpstreamFailureCause::Timeout)
    } else if has_part(text, "status"@) && has_part(text, "http"@) {
        Some(UpstreamFailureCause::StatusError)
    } else if has_part(text, "body"@) || has_part(text, "decode"@) {
        Some(UpstreamFailureCause::BodyError)
    } else if has_part(text, "upstream"@) {
        Some(UpstreamFailureCause::TransportError)
    } else {
        None
    }
}

/// The cause that the wording of an error message points to.
pub fn classify_shielded_error_message_cause(message: &str) -> (cause: Option<
    UpstreamFailureCause,
>)
    ensures
        cause == cause_of_message(message@),
{
    let lower = to_lowercase(message);
    let text = lower.as_str();
    if contains(text, "connect_failure") || contains(text, "connect failed") || contains(
        text,
        "connection",
    ) {
        Some(UpstreamFailureCause::ConnectFailed)
    } else if contains(text, "timeout") || contains(text, "timed out") || contains(
        text,
        "deadline",
    ) {
        Some(UpstreamFailureCause::Timeout)
    } else if contains(text, "status") && contains(text, "http") {
        Some(UpstreamFailureCause::StatusError)
    } else if contains(text, "body") || contains(text, "decode") {
        Some(UpstreamFailureCause::BodyError)
    } else if contains(text, "upstream") {
        Some(UpstreamFailureCause::TransportError)
    } else {
        None
    }
}

/// The cause of a failed shielded request: what its metadata says comes before
/// what its message says.
pub open spec fn cause_of_failure(
    error_type: Seq<char>,
    error_message: Seq<char>,
    metadata: Bindings,
) -> Option<UpstreamFailureCause> {
    if error_type == REQUEST_DEADLINE_ERROR_TYPE@ || bound_to(
        metadata,
        "request_deadline_exhausted"@,
        "true"@,
    ) || bound_to(metadata, "abort_reason"@, REQUEST_DEADLINE_ABORT_REASON@) || bound_to(
        metadata,
        "shielded_terminal_reason"@,
        REQUEST_DEADLINE_ABORT_REASON@,
    ) {
        Some(UpstreamFailureCause::Timeout)
    } else if bound_to(metadata, "upstream_stall_detected"@, "true"@) || bound_to(
        metadata,
        "abort_reason"@,
        "upstream_stall"@,
    ) || bound_to(metadata, "shielded_terminal_reason"@, "upstream_stall"@) {
        Some(UpstreamFailureCause::Timeout)
    } else if metadata.contains_key("status_code"@) || error_type == "upstream_status_error"@ {
        Some(UpstreamFailureCause::StatusError)
    } else if error_type == "upstream_body_error"@ || bound_to(
        metadata,
        "error_type"@,
        "upstream_body_error"@,
    ) {
        Some(UpstreamFailureCause::BodyError)
    } else {
        cause_of_message(error_message)
    }
}

/// The cause of a failed shielded request.
pub fn classify_shielded_failure_cause(
    error_type: &str,
    error_message: &str,
    metadata: &Metadata,
) -> (cause: Option<UpstreamFailureCause>)
    ensures
        cause == cause_of_failure(error_type@, error_message@, metadata@),
{
    if same_text(error_type, REQUEST_DEADLINE_ERROR_TYPE) || metadata_has(
        metadata,
        "request_deadline_exhausted",
        "true",
    ) || metadata_has(metadata, "abort_reason", REQUEST_DEADLINE_ABORT_REASON) || metadata_has(
        metadata,
        "shielded_terminal_reason",
        REQUEST_DEADLINE_ABORT_REASON,
    ) {
        return Some(UpstreamFailureCause::Timeout);
    }
    if metadata_has(metadata, "upstream_stall_detected", "true") || metadata_has(
        metadata,
        "abort_reason",
        "upstream_stall",
    ) || metadata_has(metadata, "shielded_terminal_reason", "upstream_stall") {
        return Some(UpstreamFailureCause::Timeout);
    }
    if metadata.contains_key("status_code") || same_text(error_type, "upstream_status_error") {
        return Some(UpstreamFailureCause::StatusError);
    }
    if same_text(error_type, "upstream_body_error") || metadata_has(
        metadata,
        "error_type",
        "upstream_body_error",
    ) {
        return Some(UpstreamFailureCause::BodyError);
    }
    classify_shielded_error_message_cause(error_message)
}

/// A failure has the kind of its first sign: a timeout before a connection, a
/// connection before a body, a body before a decoding, a decoding before a request, and
/// none of these without a sign.
pub proof fn kinds_follow_the_signs(signs: FailureSigns)
    ensures
        failure_kind(signs) is Timeout <==> signs.timeout,
        failure_kind(signs) is Connect <==> signs.connect && !signs.timeout,
        failure_kind(signs) is Body <==> signs.body && !signs.timeout && !signs.connect,
        failure_kind(signs) is Decode <==> signs.decode && !signs.timeout && !signs.connect
            && !signs.body,
        failure_kind(signs) is Request <==> signs.request && !signs.timeout && !signs.connect
            && !signs.body && !signs.decode,
        failure_kind(signs) is Other <==> !signs.timeout && !signs.connect && !signs.body
            && !signs.decode && !signs.request,
{
}

/// What may pass by itself is tried again: timeouts, connections, broken bodies and
/// failures of no known kind. A request that could not be made or read is not.
pub proof fn passing_failures_are_transient()
    ensures
        ReqwestFailureKind::Timeout.transient(),
        ReqwestFailureKind::Connect.transient(),
        ReqwestFailureKind::Body.transient(),
        ReqwestFailureKind::Other.transient(),
        !ReqwestFailureKind::Decode.transient(),
        !ReqwestFailureKind::Request.transient(),
{
}

/// Every failure of the client has a cause by which it is counted; only an HTTP answer
/// counts as a status.
pub proof fn failures_have_their_cause(kind: ReqwestFailureKind)
    ensures
        cause_of_kind(kind) is ConnectFailed <==> kind is Connect,
        cause_of_kind(kind) is Timeout <==> kind is Timeout,
        cause_of_kind(kind) is BodyError <==> kind is Body || kind is Decode,
        cause_of_kind(kind) is TransportError <==> kind is Request || kind is Other,
        !(cause_of_kind(kind) is StatusError),
{
}

proof fn lowering_keeps_parts(before: Seq<char>, part: Seq<char>, after: Seq<char>)
    requires
        lowered(part) == part,
    ensures
        has_part(lowered(before + part + after), part),
{
    assert(lowered(before + part + after) =~= lowered(before) + lowered(part) + lowered(after));
    crate::text::prefixes_and_parts_are_found(lowered(before), part, lowered(after));
}

/// A message that speaks of a connection tells of a connection that failed; one that
/// speaks of a timeout or a deadline tells of a timeout, and one that speaks of a body
/// of a body, unless words for the causes before these occur in it too.
pub proof fn messages_name_their_cause(before: Seq<char>, after: Seq<char>)
    ensures
        cause_of_message(before + "connection"@ + after) == Some(
            UpstreamFailureCause::ConnectFailed,
        ),
        cause_of_message(before + "timeout"@ + after) is Some,
        cause_of_message(before + "timeout"@ + after)->Some_0 is Timeout || cause_of_message(
            before + "timeout"@ + after,
        )->Some_0 is ConnectFailed,
        cause_of_message(before + "deadline"@ + after) is Some,
        cause_of_message(before + "deadline"@ + after)->Some_0 is Timeout || cause_of_message(
            before + "deadline"@ + after,
        )->Some_0 is ConnectFailed,
        cause_of_message(before + "body"@ + after) is Some,
        !(cause_of_message(before + "body"@ + after)->Some_0 is TransportError),
        cause_of_message(before + "upstream"@ + after) is Some,
{
    reveal_strlit("connection");
    reveal_strlit("timeout");
    reveal_strlit("deadline");
    reveal_strlit("body");
    reveal_strlit("upstream");
    assert(lowered("connection"@) =~= "connection"@);
    assert(lowered("timeout"@) =~= "timeout"@);
    assert(lowered("deadline"@) =~= "deadline"@);
    assert(lowered("body"@) =~= "body"@);
    assert(lowered("upstream"@) =~= "upstream"@);
    lowering_keeps_parts(before, "connection"@, after);
    lowering_keeps_parts(before, "timeout"@, after);
    lowering_keeps_parts(before, "deadline"@, after);
    lowering_keeps_parts(before, "body"@, after);
    lowering_keeps_parts(before, "upstream"@, after);
}

/// A request that ran out of time or stalled timed out, whatever else is known of it;
/// an answer with a status is a status error otherwise, and the message tells the cause
/// where nothing else does.
pub proof fn exhausted_requests_timed_out(
    error_type: Seq<char>,
    error_message: Seq<char>,
    metadata: Bindings,
)
    ensures
        error_type == "llm_guard_request_deadline_exhausted"@ ==> cause_of_failure(
            error_type,
            error_message,
            metadata,
        ) == Some(UpstreamFailureCause::Timeout),
        bound_to(metadata, "request_deadline_exhausted"@, "true"@) ==> cause_of_failure(
            error_type,
            error_message,
            metadata,
        ) == Some(UpstreamFailureCause::Timeout),
        bound_to(metadata, "upstream_stall_detected"@, "true"@) ==> cause_of_failure(
            error_type,
            error_message,
            metadata,
        ) == Some(UpstreamFailureCause::Timeout),
        metadata.contains_key("status_code"@) ==> (cause_of_failure(
            error_type,
            error_message,
            metadata,
        ) matches Some(cause) && (cause is StatusError || cause is Timeout)),
        error_type != "llm_guard_request_deadline_exhausted"@ && error_type
            != "upstream_status_error"@ && error_type != "upstream_body_error"@ && metadata
            == Bindings::empty() ==> cause_of_failure(error_type, error_message, metadata)
            == cause_of_message(error_message),
{
}

/// The signs of a failure are what the client says of it, each for itself.
pub proof fn signs_are_what_the_client_says(error: reqwest::Error)
    ensures
        client_signs(error).timeout == client_timed_out(error),
        client_signs(error).connect == client_could_not_connect(error),
        client_signs(error).body == client_body_failed(error),
        client_signs(error).decode == client_decode_failed(error),
        client_signs(error).request == client_request_failed(error),
        client_timed_out(error) ==> failure_kind(client_signs(error)) is Timeout,
        client_could_not_connect(error) && !client_timed_out(error) ==> failure_kind(
            client_signs(error),
        ) is Connect,
{
}

/// Each failure on the way has a name of its own.
pub proof fn failures_on_the_way_have_their_names(failure: ReqwestFailureKind)
    ensures
        failure is Timeout ==> failure.label() == "timeout_failure"@,
        failure is Connect ==> failure.label() == "connect_failure"@,
        failure is Request ==> failure.label() == "request_failure"@,
        failure is Body ==> failure.label() == "body_failure"@,
        failure is Decode ==> failure.label() == "decode_failure"@,
        failure is Other ==> failure.label() == "unknown_failure"@,
{
}

/// Each cause of a failure has a name and a code of its own.
pub proof fn causes_have_their_names(cause: UpstreamFailureCause)
    ensures
        cause is ConnectFailed ==> cause.label() == "connect_failed"@,
        cause is Timeout ==> cause.label() == "timeout"@,
        cause is BodyError ==> cause.label() == "body_error"@,
        cause is StatusError ==> cause.label() == "status_error"@,
        cause is TransportError ==> cause.label() == "transport_error"@,
        cause is ConnectFailed ==> cause.code_text() == "upstream_connect_failed"@,
        cause is Timeout ==> cause.code_text() == "upstream_timeout"@,
        cause is BodyError ==> cause.code_text() == "upstream_body_error"@,
        cause is StatusError ==> cause.code_text() == "upstream_status_error"@,
        cause is TransportError ==> cause.code_text() == "upstream_transport_error"@,
{
}

} // verus!
