//! Shielded attempts: how they fail, what is recorded of them and what the
//! client is told.

use crate::clock::since;
use crate::errors::{error_attempts, ErrorKind, ProxyError};
use crate::failures::{
    ReqwestFailureKind, PROXY_SHUTTING_DOWN_ERROR_TYPE, REQUEST_DEADLINE_ABORT_REASON,
    REQUEST_DEADLINE_ERROR_TYPE, SERVER_SHUTDOWN_ABORT_REASON,
};
use crate::headers::Headers;
use crate::message_metadata::{
    elapsed, failed_response_bindings, failed_response_metadata, is_success, response_bindings,
    response_metadata, status_is_success,
};
use crate::metadata::{bound_to, Bindings, Metadata};
use crate::records::{
    no_payloads, no_usage, push_record, record_models, with_input, AttemptRecord,
    AttemptRecordModel, AttemptStatus, RawPayloads, RawPayloadsModel, RequestStatus, TokenUsage,
    UpstreamMode,
};
use crate::retry::{
    cause_of_transport, chain_bindings, copy_attempt_request_metadata, retry_allowed,
    retry_chain_metadata, transport_retry_cause, with_attempt_request, CotSalvageContext,
    SalvageModel, ShieldedRetryCause, ShieldedRetryPolicy,
};
use crate::text::{
    bool_chars, chars_of, clone_bytes, clone_opt, contains, decimal, decimal_text, has_part,
    joined, opt_chars, opt_reads, own_opt, same_text, text_from_utf8, trim, trimmed,
};
use vstd::prelude::*;
use vstd::utf8::{decode_utf8, encode_scalar, encode_utf8, valid_utf8};

verus! {

/// Longest reasoning, in bytes, that a later attempt answers from.
pub const COT_SALVAGE_PREFIX_MAX_BYTES: usize = 4_096;

/// An attempt whose response has begun.
pub struct ShieldedAttemptInfo {
    pub attempt_id: String,
    pub request_id: String,
    pub attempt_number: u32,
    pub attempt_max_attempts: u32,
    pub started_at_unix_ms: u64,
    pub upstream_status: u16,
    pub upstream_headers: Headers,
    pub upstream_mode: UpstreamMode,
    pub request_metadata: Metadata,
    pub raw_request_body: Option<String>,
    pub upstream_body: Vec<u8>,
}

/// An attempt that failed.
pub struct ShieldedAttemptFailure {
    pub attempt_id: String,
    pub request_id: String,
    pub attempt_number: u32,
    pub started_at_unix_ms: u64,
    pub finished_at_unix_ms: u64,
    pub upstream_mode: UpstreamMode,
    pub http_status: Option<u16>,
    pub transport_failure: Option<ReqwestFailureKind>,
    pub error_type: &'static str,
    pub error_message: String,
    pub retry_cause: Option<ShieldedRetryCause>,
    pub abort_reason: Option<String>,
    pub request_metadata: Metadata,
    pub response_metadata: Metadata,
    pub raw_payloads: RawPayloads,
    pub upstream_body: Vec<u8>,
    pub completed_endpoint_attempt_records: Vec<AttemptRecord>,
}

/// The meaning of a failed attempt.
#[verifier::ext_equal]
pub struct FailureModel {
    pub attempt_id: Seq<char>,
    pub request_id: Seq<char>,
    pub attempt_number: u32,
    pub started_at_unix_ms: u64,
    pub finished_at_unix_ms: u64,
    pub upstream_mode: UpstreamMode,
    pub http_status: Option<u16>,
    pub transport_failure: Option<ReqwestFailureKind>,
    pub error_type: Seq<char>,
    pub error_message: Seq<char>,
    pub retry_cause: Option<ShieldedRetryCause>,
    pub abort_reason: Option<Seq<char>>,
    pub request_metadata: Bindings,
    pub response_metadata: Bindings,
    pub raw_payloads: RawPayloadsModel,
    pub upstream_body: Seq<u8>,
    pub completed: Seq<AttemptRecordModel>,
}

impl View for ShieldedAttemptFailure {
    type V = FailureModel;

    open spec fn view(&self) -> FailureModel {
        FailureModel {
            attempt_id: self.attempt_id@,
            request_id: self.request_id@,
            attempt_number: self.attempt_number,
            started_at_unix_ms: self.started_at_unix_ms,
            finished_at_unix_ms: self.finished_at_unix_ms,
            upstream_mode: self.upstream_mode,
            http_status: self.http_status,
            transport_failure: self.transport_failure,
            error_type: self.error_type@,
            error_message: self.error_message@,
            retry_cause: self.retry_cause,
            abort_reason: opt_chars(self.abort_reason),
            request_metadata: self.request_metadata@,
            response_metadata: self.response_metadata@,
            raw_payloads: self.raw_payloads@,
            upstream_body: self.upstream_body@,
            completed: record_models(self.completed_endpoint_attempt_records@),
        }
    }
}

/// A failure of an attempt whose response had begun, before what it says of
/// itself is filled in.
pub open spec fn failure_of(
    info: ShieldedAttemptInfo,
    finished_at_unix_ms: u64,
    error_type: Seq<char>,
    error_message: Seq<char>,
    response_metadata: Bindings,
) -> FailureModel {
    FailureModel {
        attempt_id: info.attempt_id@,
        request_id: info.request_id@,
        attempt_number: info.attempt_number,
        started_at_unix_ms: info.started_at_unix_ms,
        finished_at_unix_ms,
        upstream_mode: info.upstream_mode,
        http_status: Some(info.upstream_status),
        transport_failure: None,
        error_type,
        error_message,
        retry_cause: None,
        abort_reason: None,
        request_metadata: info.request_metadata@,
        response_metadata,
        raw_payloads: RawPayloadsModel { input: opt_chars(info.raw_request_body), ..no_payloads() },
        upstream_body: info.upstream_body@,
        completed: Seq::empty(),
    }
}

fn failure_from(
    info: &ShieldedAttemptInfo,
    finished_at_unix_ms: u64,
    error_type: &'static str,
    error_message: String,
    response_metadata: Metadata,
) -> (failure: ShieldedAttemptFailure)
    ensures
        failure@ == failure_of(
            *info,
            finished_at_unix_ms,
            error_type@,
            error_message@,
            response_metadata@,
        ),
{
    let none: Vec<AttemptRecord> = Vec::new();
    assert(record_models(none@) =~= Seq::<AttemptRecordModel>::empty());
    ShieldedAttemptFailure {
        attempt_id: info.attempt_id.clone(),
        request_id: info.request_id.clone(),
        attempt_number: info.attempt_number,
        started_at_unix_ms: info.started_at_unix_ms,
        finished_at_unix_ms,
        upstream_mode: info.upstream_mode,
        http_status: Some(info.upstream_status),
        transport_failure: None,
        error_type,
        error_message,
        retry_cause: None,
        abort_reason: None,
        request_metadata: info.request_metadata.clone(),
        response_metadata,
        raw_payloads: RawPayloads::of_input(clone_opt(&info.raw_request_body)),
        upstream_body: clone_bytes(&info.upstream_body),
        completed_endpoint_attempt_records: none,
    }
}

// ---------------------------------------------------------------------------
// Ways to fail
// ---------------------------------------------------------------------------

/// How a stream could not be aggregated.
pub struct AggregationError {
    pub loop_detected: bool,
    pub upstream_stall: bool,
    pub transient_stream: bool,
    pub message: String,
    pub response_metadata: Metadata,
    pub raw_payloads: RawPayloads,
}

/// The cause of a retry after a stream that could not be aggregated.
pub open spec fn aggregation_cause(error: AggregationError) -> Option<ShieldedRetryCause> {
    if error.loop_detected {
        Some(ShieldedRetryCause::LoopDetected)
    } else if error.upstream_stall {
        Some(ShieldedRetryCause::UpstreamStall)
    } else if error.transient_stream {
        Some(ShieldedRetryCause::TransientStream)
    } else {
        None
    }
}

/// The failure of an attempt whose stream could not be aggregated.
pub open spec fn aggregation_failure_of(
    info: ShieldedAttemptInfo,
    error: AggregationError,
    finished_at_unix_ms: u64,
) -> FailureModel {
    let cause = aggregation_cause(error);
    FailureModel {
        retry_cause: cause,
        abort_reason: match cause {
            Some(ShieldedRetryCause::LoopDetected) => Some("loop_guard"@),
            Some(ShieldedRetryCause::UpstreamStall) => Some("upstream_stall"@),
            _ => None,
        },
        raw_payloads: with_input(error.raw_payloads@, opt_chars(info.raw_request_body)),
        ..failure_of(
            info,
            finished_at_unix_ms,
            "upstream_body_error"@,
            error.message@,
            failed_response_bindings(
                info.started_at_unix_ms,
                finished_at_unix_ms,
                "upstream_body_error"@,
            ).insert("upstream_response_received"@, "true"@).insert(
                "http_status_success"@,
                bool_chars(is_success(info.upstream_status)),
            ).union_prefer_right(error.response_metadata@),
        )
    }
}

/// Notes that the stream of an attempt could not be aggregated.
pub fn aggregation_failure(
    info: &ShieldedAttemptInfo,
    error: &AggregationError,
    finished_at_unix_ms: u64,
) -> (failure: ShieldedAttemptFailure)
    ensures
        failure@ == aggregation_failure_of(*info, *error, finished_at_unix_ms),
{
    let retry_cause = if error.loop_detected {
        Some(ShieldedRetryCause::LoopDetected)
    } else if error.upstream_stall {
        Some(ShieldedRetryCause::UpstreamStall)
    } else if error.transient_stream {
        Some(ShieldedRetryCause::TransientStream)
    } else {
        None
    };
    let mut response_metadata = failed_response_metadata(
        info.started_at_unix_ms,
        finished_at_unix_ms,
        "upstream_body_error",
    );
    response_metadata.set("upstream_response_received", "true");
    response_metadata.set_bool("http_status_success", status_is_success(info.upstream_status));
    response_metadata.extend(&error.response_metadata);
    let mut failure = failure_from(
        info,
        finished_at_unix_ms,
        "upstream_body_error",
        error.message.clone(),
        response_metadata,
    );
    failure.retry_cause = retry_cause;
    failure.abort_reason = match retry_cause {
        Some(ShieldedRetryCause::LoopDetected) => Some("loop_guard".to_owned()),
        Some(ShieldedRetryCause::UpstreamStall) => Some("upstream_stall".to_owned()),
        _ => None,
    };
    failure.raw_payloads = error.raw_payloads.clone().or_input(clone_opt(&info.raw_request_body));
    failure
}

/// The failure of an attempt that a shutdown ended.
pub open spec fn shutdown_failure_of(
    info: ShieldedAttemptInfo,
    finished_at_unix_ms: u64,
) -> FailureModel {
    FailureModel {
        abort_reason: Some(SERVER_SHUTDOWN_ABORT_REASON@),
        ..failure_of(
            info,
            finished_at_unix_ms,
            PROXY_SHUTTING_DOWN_ERROR_TYPE@,
            "proxy is shutting down"@,
            failed_response_bindings(
                info.started_at_unix_ms,
                finished_at_unix_ms,
                PROXY_SHUTTING_DOWN_ERROR_TYPE@,
            ).insert("upstream_response_received"@, "true"@).insert(
                "abort_reason"@,
                SERVER_SHUTDOWN_ABORT_REASON@,
            ),
        )
    }
}

/// Notes that a shutdown ended an attempt.
pub fn shutdown_shielded_attempt_failure(info: &ShieldedAttemptInfo, finished_at_unix_ms: u64) -> (
    failure: ShieldedAttemptFailure)
    ensures
        failure@ == shutdown_failure_of(*info, finished_at_unix_ms),
{
    let mut response_metadata = failed_response_metadata(
        info.started_at_unix_ms,
        finished_at_unix_ms,
        PROXY_SHUTTING_DOWN_ERROR_TYPE,
    );
    response_metadata.set("upstream_response_received", "true");
    response_metadata.set("abort_reason", SERVER_SHUTDOWN_ABORT_REASON);
    let mut failure = failure_from(
        info,
        finished_at_unix_ms,
        PROXY_SHUTTING_DOWN_ERROR_TYPE,
        "proxy is shutting down".to_owned(),
        response_metadata,
    );
    failure.abort_reason = Some(SERVER_SHUTDOWN_ABORT_REASON.to_owned());
    failure
}

/// The failure of an attempt that ran out of time.
pub open spec fn deadline_failure_of(
    info: ShieldedAttemptInfo,
    finished_at_unix_ms: u64,
) -> FailureModel {
    FailureModel {
        abort_reason: Some(REQUEST_DEADLINE_ABORT_REASON@),
        ..failure_of(
            info,
            finished_at_unix_ms,
            REQUEST_DEADLINE_ERROR_TYPE@,
            "shielded request deadline exhausted"@,
            failed_response_bindings(
                info.started_at_unix_ms,
                finished_at_unix_ms,
                REQUEST_DEADLINE_ERROR_TYPE@,
            ).insert("upstream_response_received"@, "true"@).insert(
                "abort_reason"@,
                REQUEST_DEADLINE_ABORT_REASON@,
            ).insert("request_deadline_exhausted"@, "true"@),
        )
    }
}

/// Notes that an attempt ran out of time.
pub fn request_deadline_shielded_attempt_failure(
    info: &ShieldedAttemptInfo,
    finished_at_unix_ms: u64,
) -> (failure: ShieldedAttemptFailure)
    ensures
        failure@ == deadline_failure_of(*info, finished_at_unix_ms),
{
    let mut response_metadata = failed_response_metadata(
        info.started_at_unix_ms,
        finished_at_unix_ms,
        REQUEST_DEADLINE_ERROR_TYPE,
    );
    response_metadata.set("upstream_response_received", "true");
    response_metadata.set("abort_reason", REQUEST_DEADLINE_ABORT_REASON);
    response_metadata.set("request_deadline_exhausted", "true");
    let mut failure = failure_from(
        info,
        finished_at_unix_ms,
        REQUEST_DEADLINE_ERROR_TYPE,
        "shielded request deadline exhausted".to_owned(),
        response_metadata,
    );
    failure.abort_reason = Some(REQUEST_DEADLINE_ABORT_REASON.to_owned());
    failure
}

/// A failure that turned out to be a lack of time.
pub open spec fn marked_late(failure: FailureModel) -> FailureModel {
    FailureModel {
        error_type: REQUEST_DEADLINE_ERROR_TYPE@,
        error_message: "shielded request deadline exhausted"@,
        retry_cause: None,
        abort_reason: Some(REQUEST_DEADLINE_ABORT_REASON@),
        response_metadata: failure.response_metadata.insert(
            "abort_reason"@,
            REQUEST_DEADLINE_ABORT_REASON@,
        ).insert("request_deadline_exhausted"@, "true"@),
        ..failure
    }
}

/// Notes that a failure turned out to be a lack of time.
pub fn mark_request_deadline_attempt_failure(failure: &mut ShieldedAttemptFailure)
    ensures
        final(failure)@ == marked_late(old(failure)@),
{
    failure.error_type = REQUEST_DEADLINE_ERROR_TYPE;
    failure.error_message = "shielded request deadline exhausted".to_owned();
    failure.retry_cause = None;
    failure.abort_reason = Some(REQUEST_DEADLINE_ABORT_REASON.to_owned());
    failure.response_metadata.set("abort_reason", REQUEST_DEADLINE_ABORT_REASON);
    failure.response_metadata.set("request_deadline_exhausted", "true");
}

/// The failure of an attempt with a status that may go away.
pub open spec fn status_failure_of(
    info: ShieldedAttemptInfo,
    cause: ShieldedRetryCause,
    message: Seq<char>,
    finished_at_unix_ms: u64,
) -> FailureModel {
    FailureModel {
        retry_cause: Some(cause),
        ..failure_of(
            info,
            finished_at_unix_ms,
            "upstream_status_error"@,
            message + ": HTTP "@ + decimal(info.upstream_status as nat),
            response_bindings(
                info.upstream_status,
                info.upstream_headers@,
                0,
                elapsed(finished_at_unix_ms, info.started_at_unix_ms),
            ).insert("status_code"@, decimal(info.upstream_status as nat)).insert(
                "upstream_response_received"@,
                "true"@,
            ),
        )
    }
}

/// Notes that an attempt met a status that may go away.
pub fn status_failure(
    info: &ShieldedAttemptInfo,
    cause: ShieldedRetryCause,
    message: &str,
    finished_at_unix_ms: u64,
) -> (failure: ShieldedAttemptFailure)
    ensures
        failure@ == status_failure_of(*info, cause, message@, finished_at_unix_ms),
{
    let mut response = response_metadata(
        info.upstream_status,
        &info.upstream_headers,
        0,
        finished_at_unix_ms.saturating_sub(info.started_at_unix_ms),
    );
    response.set_number("status_code", info.upstream_status as u64);
    response.set("upstream_response_received", "true");
    let mut error_message = joined(message, ": HTTP ");
    error_message.append(decimal_text(info.upstream_status as u64).as_str());
    let mut failure = failure_from(
        info,
        finished_at_unix_ms,
        "upstream_status_error",
        error_message,
        response,
    );
    failure.retry_cause = Some(cause);
    failure
}

/// The failure of an attempt with a response that will not change.
pub open spec fn final_status_failure_of(
    info: ShieldedAttemptInfo,
    message: Seq<char>,
    finished_at_unix_ms: u64,
) -> FailureModel {
    failure_of(
        info,
        finished_at_unix_ms,
        "upstream_body_error"@,
        message,
        response_bindings(
            info.upstream_status,
            info.upstream_headers@,
            0,
            elapsed(finished_at_unix_ms, info.started_at_unix_ms),
        ).insert("upstream_response_received"@, "true"@),
    )
}

/// Notes that an attempt met a response that will not change.
pub fn status_failure_without_retry(
    info: &ShieldedAttemptInfo,
    message: &str,
    finished_at_unix_ms: u64,
) -> (failure: ShieldedAttemptFailure)
    ensures
        failure@ == final_status_failure_of(*info, message@, finished_at_unix_ms),
{
    let mut response = response_metadata(
        info.upstream_status,
        &info.upstream_headers,
        0,
        finished_at_unix_ms.saturating_sub(info.started_at_unix_ms),
    );
    response.set("upstream_response_received", "true");
    failure_from(info, finished_at_unix_ms, "upstream_body_error", message.to_owned(), response)
}

/// An attempt that did not get a response, and the error that it met.
pub struct ShieldedStartFailureInput {
    pub request_id: String,
    pub attempt_id: String,
    pub attempt_number: u32,
    pub attempt_started_at_unix_ms: u64,
    pub request_metadata: Metadata,
    pub raw_request_body: Option<String>,
    pub evidence_upstream_body: Vec<u8>,
    pub error: ProxyError,
}

/// The kind of a client failure, where an error is one.
pub open spec fn transport_kind(kind: ErrorKind) -> Option<ReqwestFailureKind> {
    match kind {
        ErrorKind::UpstreamTransport { failure } => Some(failure),
        _ => None,
    }
}

fn transport_failure_of(error: &ProxyError) -> (failure: Option<ReqwestFailureKind>)
    ensures
        failure == transport_kind(error.kind),
{
    match &error.kind {
        ErrorKind::UpstreamTransport { failure } => Some(*failure),
        _ => None,
    }
}

/// Whether the time of a request ran out while an attempt waited for a response.
pub open spec fn started_too_late(kind: ErrorKind, deadline_over: bool) -> bool {
    deadline_over && transport_kind(kind) == Some(ReqwestFailureKind::Timeout)
}

/// The error type of an attempt that did not get a response.
pub open spec fn start_error_type(kind: ErrorKind, late: bool) -> Seq<char> {
    if late {
        REQUEST_DEADLINE_ERROR_TYPE@
    } else if transport_kind(kind) == Some(ReqwestFailureKind::Connect) {
        "upstream_connect_error"@
    } else {
        kind.type_text()
    }
}

/// The error type of an attempt that did not get a response.
pub fn shielded_start_error_type(error: &ProxyError, request_deadline_exhausted: bool) -> (error_type:
    &'static str)
    ensures
        error_type@ == start_error_type(error.kind, request_deadline_exhausted),
{
    if request_deadline_exhausted {
        return REQUEST_DEADLINE_ERROR_TYPE;
    }
    match transport_failure_of(error) {
        Some(ReqwestFailureKind::Connect) => "upstream_connect_error",
        _ => error.error_type(),
    }
}

/// The metadata of the response of an attempt that did not get one.
pub open spec fn start_failure_bindings(
    base: Bindings,
    error_type: Seq<char>,
    abort_reason: Option<Seq<char>>,
    late: bool,
) -> Bindings {
    let typed = base.insert("error_type"@, error_type).insert(
        "upstream_response_received"@,
        "false"@,
    );
    let reasoned = match abort_reason {
        Some(reason) => typed.insert("abort_reason"@, reason).insert(
            "shielded_terminal_reason"@,
            reason,
        ),
        None => typed,
    };
    if late {
        reasoned.insert("request_deadline_exhausted"@, "true"@)
    } else {
        reasoned
    }
}

/// The failure of an attempt that did not get a response. Where the error tells
/// of attempts at single endpoints, the last of them stands for the attempt and
/// the others come before it.
pub open spec fn start_failure_of(
    input: ShieldedStartFailureInput,
    deadline_over: bool,
    now_unix_ms: u64,
) -> FailureModel {
    let kind = input.error.kind;
    let late = started_too_late(kind, deadline_over);
    let error_type = start_error_type(kind, late);
    let abort_reason = if late {
        Some(REQUEST_DEADLINE_ABORT_REASON@)
    } else {
        kind.abort_text()
    };
    let attempts = error_attempts(input.error@);
    let failed = failed_response_bindings(
        input.attempt_started_at_unix_ms,
        now_unix_ms,
        error_type,
    );
    let base = FailureModel {
        attempt_id: input.attempt_id@,
        request_id: input.request_id@,
        attempt_number: input.attempt_number,
        started_at_unix_ms: input.attempt_started_at_unix_ms,
        finished_at_unix_ms: now_unix_ms,
        upstream_mode: UpstreamMode::NotApplicable,
        http_status: None,
        transport_failure: transport_kind(kind),
        error_type,
        error_message: if late {
            "shielded request deadline exhausted before upstream response headers"@
        } else {
            kind.message_text()
        },
        retry_cause: if kind is Shutdown || late {
            None
        } else {
            cause_of_transport(transport_kind(kind))
        },
        abort_reason,
        request_metadata: input.request_metadata@,
        response_metadata: start_failure_bindings(failed, error_type, abort_reason, late),
        raw_payloads: RawPayloadsModel { input: opt_chars(input.raw_request_body), ..no_payloads() },
        upstream_body: input.evidence_upstream_body@,
        completed: Seq::empty(),
    };
    if attempts.len() == 0 {
        base
    } else {
        let last = attempts.last();
        FailureModel {
            attempt_id: last.attempt_id,
            request_id: last.request_id,
            attempt_number: last.attempt_number,
            started_at_unix_ms: last.started_at_unix_ms,
            finished_at_unix_ms: match last.finished_at_unix_ms {
                Some(finished) => finished,
                None => now_unix_ms,
            },
            upstream_mode: last.upstream_mode,
            http_status: last.http_status,
            request_metadata: last.request_metadata,
            response_metadata: start_failure_bindings(
                failed.union_prefer_right(last.response_metadata),
                error_type,
                abort_reason,
                late,
            ),
            raw_payloads: with_input(last.raw_payloads, opt_chars(input.raw_request_body)),
            completed: attempts.drop_last(),
            ..base
        }
    }
}

/// Notes that an attempt did not get a response. `deadline_over` says whether
/// the time of the request has run out.
pub fn shielded_start_transport_failure(
    input: ShieldedStartFailureInput,
    deadline_over: bool,
    now_unix_ms: u64,
) -> (failure: ShieldedAttemptFailure)
    ensures
        failure@ == start_failure_of(input, deadline_over, now_unix_ms),
{
    let transport_failure = transport_failure_of(&input.error);
    let late = deadline_over && match transport_failure {
        Some(ReqwestFailureKind::Timeout) => true,
        _ => false,
    };
    let is_shutdown = match &input.error.kind {
        ErrorKind::Shutdown => true,
        _ => false,
    };
    let retry_cause = if is_shutdown || late {
        None
    } else {
        transport_retry_cause(transport_failure)
    };
    let abort_reason = if late {
        Some(REQUEST_DEADLINE_ABORT_REASON.to_owned())
    } else {
        own_opt(input.error.abort_reason())
    };
    let error_type = shielded_start_error_type(&input.error, late);
    let error_message = if late {
        "shielded request deadline exhausted before upstream response headers".to_owned()
    } else {
        input.error.message()
    };
    let mut completed = input.error.attempt_records();
    let ghost attempts = record_models(completed@);
    let terminal = completed.pop();
    let mut failure = ShieldedAttemptFailure {
        attempt_id: input.attempt_id,
        request_id: input.request_id,
        attempt_number: input.attempt_number,
        started_at_unix_ms: input.attempt_started_at_unix_ms,
        finished_at_unix_ms: now_unix_ms,
        upstream_mode: UpstreamMode::NotApplicable,
        http_status: None,
        transport_failure,
        error_type,
        error_message,
        retry_cause,
        abort_reason: None,
        request_metadata: input.request_metadata,
        response_metadata: failed_response_metadata(
            input.attempt_started_at_unix_ms,
            now_unix_ms,
            error_type,
        ),
        raw_payloads: RawPayloads::none(),
        upstream_body: input.evidence_upstream_body,
        completed_endpoint_attempt_records: completed,
    };
    match terminal {
        Some(terminal) => {
            assert(attempts.last() == terminal@);
            assert(record_models(completed@) =~= attempts.drop_last());
            failure.attempt_id = terminal.attempt_id;
            failure.request_id = terminal.request_id;
            failure.attempt_number = terminal.attempt_number;
            failure.started_at_unix_ms = terminal.started_at_unix_ms;
            match terminal.finished_at_unix_ms {
                Some(finished) => {
                    failure.finished_at_unix_ms = finished;
                },
                None => {},
            }
            failure.upstream_mode = terminal.upstream_mode;
            failure.http_status = terminal.http_status;
            failure.request_metadata = terminal.request_metadata;
            failure.response_metadata.extend(&terminal.response_metadata);
            failure.raw_payloads = terminal.raw_payloads;
        },
        None => {
            assert(attempts.len() == 0);
            assert(record_models(completed@) =~= Seq::<AttemptRecordModel>::empty());
        },
    }
    failure.raw_payloads = failure.raw_payloads.or_input(input.raw_request_body);
    failure.response_metadata.set("error_type", error_type);
    failure.response_metadata.set("upstream_response_received", "false");
    match &abort_reason {
        Some(reason) => {
            failure.response_metadata.set("abort_reason", reason.as_str());
            failure.response_metadata.set("shielded_terminal_reason", reason.as_str());
        },
        None => {},
    }
    if late {
        failure.response_metadata.set("request_deadline_exhausted", "true");
    }
    failure.abort_reason = abort_reason;
    failure
}

// ---------------------------------------------------------------------------
// Records and outcomes
// ---------------------------------------------------------------------------

/// Whether a shutdown ended an attempt.
pub open spec fn ended_by_shutdown(failure: FailureModel) -> bool {
    failure.abort_reason == Some(SERVER_SHUTDOWN_ABORT_REASON@)
}

/// Whether a shutdown ended an attempt.
pub fn is_server_shutdown_failure(failure: &ShieldedAttemptFailure) -> (is: bool)
    ensures
        is == ended_by_shutdown(failure@),
{
    opt_reads(&failure.abort_reason, SERVER_SHUTDOWN_ABORT_REASON)
}

/// The status of a failed attempt.
pub open spec fn failed_status(can_retry: bool, failure: FailureModel) -> AttemptStatus {
    if can_retry {
        AttemptStatus::Retried
    } else if ended_by_shutdown(failure) {
        AttemptStatus::Aborted
    } else {
        AttemptStatus::Failed
    }
}

/// The status of a failed attempt.
pub fn shielded_failed_attempt_status(can_retry: bool, failure: &ShieldedAttemptFailure) -> (status:
    AttemptStatus)
    ensures
        status == failed_status(can_retry, failure@),
{
    if can_retry {
        AttemptStatus::Retried
    } else if is_server_shutdown_failure(failure) {
        AttemptStatus::Aborted
    } else {
        AttemptStatus::Failed
    }
}

/// Whether a failed attempt is to be tried again: it has a cause, no shutdown
/// ended it, the client is still there and the policy has attempts left.
pub open spec fn wants_retry(
    failure: FailureModel,
    policy: ShieldedRetryPolicy,
    client_gone: bool,
) -> bool {
    !ended_by_shutdown(failure) && failure.retry_cause is Some && !client_gone && retry_allowed(
        policy,
        failure.attempt_number,
    )
}

/// Whether a failed attempt is to be tried again.
pub fn should_retry_after_shielded_failure(
    failure: &ShieldedAttemptFailure,
    policy: &ShieldedRetryPolicy,
    client_gone: bool,
) -> (retry: bool)
    ensures
        retry == wants_retry(failure@, *policy, client_gone),
{
    !is_server_shutdown_failure(failure) && failure.retry_cause.is_some() && !client_gone
        && policy.allows_retry_after(failure.attempt_number)
}

/// The metadata recorded on a failed attempt.
pub open spec fn failure_record_bindings(
    failure: FailureModel,
    status: AttemptStatus,
    retry_cause: Option<ShieldedRetryCause>,
    policy: ShieldedRetryPolicy,
) -> Bindings {
    let base = with_attempt_request(failure.response_metadata, failure.request_metadata).insert(
        "attempt_number"@,
        decimal(failure.attempt_number as nat),
    ).insert("attempt_max_attempts"@, decimal(policy.max_attempts as nat)).insert(
        "attempt_outcome"@,
        status.label(),
    ).insert(
        "attempt_duration_ms"@,
        decimal(elapsed(failure.finished_at_unix_ms, failure.started_at_unix_ms)),
    ).insert("retry_policy_enabled"@, bool_chars(policy.enabled));
    let looped = failure.retry_cause == Some(ShieldedRetryCause::LoopDetected);
    let retried = match retry_cause {
        Some(cause) => base.insert("retry_reason"@, cause.reason_text()),
        None => if failure.retry_cause is Some {
            let exhausted = base.insert("retry_exhausted"@, "true"@);
            if looped {
                exhausted.insert("retry_exhausted_reason"@, "loop_retry_exhausted"@)
            } else {
                exhausted
            }
        } else {
            base
        },
    };
    match failure.abort_reason {
        Some(reason) => retried.insert("abort_reason"@, reason).insert(
            "attempt_terminal_reason"@,
            reason,
        ),
        None => if looped && retry_cause is None {
            retried.insert("attempt_terminal_reason"@, "loop_retry_exhausted"@)
        } else {
            retried
        },
    }
}

/// The record of a failed attempt.
pub open spec fn failure_record(
    failure: FailureModel,
    status: AttemptStatus,
    retry_cause: Option<ShieldedRetryCause>,
    policy: ShieldedRetryPolicy,
) -> AttemptRecordModel {
    AttemptRecordModel {
        attempt_id: failure.attempt_id,
        request_id: failure.request_id,
        attempt_number: failure.attempt_number,
        started_at_unix_ms: failure.started_at_unix_ms,
        finished_at_unix_ms: Some(failure.finished_at_unix_ms),
        upstream_mode: failure.upstream_mode,
        status,
        http_status: failure.http_status,
        error_reason: Some(failure.error_type + ": "@ + failure.error_message),
        retry_reason: match retry_cause {
            Some(cause) => Some(cause.reason_text()),
            None => None,
        },
        abort_reason: failure.abort_reason,
        token_usage: no_usage(),
        request_metadata: failure.request_metadata,
        response_metadata: failure_record_bindings(failure, status, retry_cause, policy),
        raw_payloads: failure.raw_payloads,
    }
}

fn is_loop(cause: Option<ShieldedRetryCause>) -> (is: bool)
    ensures
        is == (cause == Some(ShieldedRetryCause::LoopDetected)),
{
    match cause {
        Some(ShieldedRetryCause::LoopDetected) => true,
        _ => false,
    }
}

/// Records a failed attempt.
pub fn attempt_failure_record(
    failure: &ShieldedAttemptFailure,
    status: AttemptStatus,
    retry_cause: Option<ShieldedRetryCause>,
    policy: &ShieldedRetryPolicy,
) -> (record: AttemptRecord)
    ensures
        record@ == failure_record(failure@, status, retry_cause, *policy),
{
    let mut response = failure.response_metadata.clone();
    copy_attempt_request_metadata(&mut response, &failure.request_metadata);
    response.set_number("attempt_number", failure.attempt_number as u64);
    response.set_number("attempt_max_attempts", policy.max_attempts as u64);
    response.set("attempt_outcome", status.as_str());
    response.set_number(
        "attempt_duration_ms",
        failure.finished_at_unix_ms.saturating_sub(failure.started_at_unix_ms),
    );
    response.set_bool("retry_policy_enabled", policy.enabled);
    let looped = is_loop(failure.retry_cause);
    match retry_cause {
        Some(cause) => {
            response.set("retry_reason", cause.retry_reason());
        },
        None => {
            if failure.retry_cause.is_some() {
                response.set("retry_exhausted", "true");
                if looped {
                    response.set("retry_exhausted_reason", "loop_retry_exhausted");
                }
            }
        },
    }
    match &failure.abort_reason {
        Some(reason) => {
            response.set("abort_reason", reason.as_str());
            response.set("attempt_terminal_reason", reason.as_str());
        },
        None => {
            if looped && retry_cause.is_none() {
                response.set("attempt_terminal_reason", "loop_retry_exhausted");
            }
        },
    }
    let mut error_reason = joined(failure.error_type, ": ");
    error_reason.append(failure.error_message.as_str());
    let retry_reason = match retry_cause {
        Some(cause) => Some(cause.retry_reason().to_owned()),
        None => None,
    };
    AttemptRecord {
        attempt_id: failure.attempt_id.clone(),
        request_id: failure.request_id.clone(),
        attempt_number: failure.attempt_number,
        started_at_unix_ms: failure.started_at_unix_ms,
        finished_at_unix_ms: Some(failure.finished_at_unix_ms),
        upstream_mode: failure.upstream_mode,
        status,
        http_status: failure.http_status,
        error_reason: Some(error_reason),
        retry_reason,
        abort_reason: clone_opt(&failure.abort_reason),
        token_usage: TokenUsage::default(),
        request_metadata: failure.request_metadata.clone(),
        response_metadata: response,
        raw_payloads: failure.raw_payloads.clone(),
    }
}

/// How a shielded request failed.
pub struct ShieldedFailureOutcome {
    pub error_type: &'static str,
    pub error_message: String,
    pub response_metadata: Metadata,
    pub attempt_records: Vec<AttemptRecord>,
    pub upstream_mode: UpstreamMode,
    pub downstream_status: u16,
    pub retry_after_secs: Option<u32>,
}

/// The meaning of how a shielded request failed.
#[verifier::ext_equal]
pub struct FailureOutcomeModel {
    pub error_type: Seq<char>,
    pub error_message: Seq<char>,
    pub response_metadata: Bindings,
    pub attempt_records: Seq<AttemptRecordModel>,
    pub upstream_mode: UpstreamMode,
    pub downstream_status: u16,
    pub retry_after_secs: Option<u32>,
}

impl View for ShieldedFailureOutcome {
    type V = FailureOutcomeModel;

    open spec fn view(&self) -> FailureOutcomeModel {
        FailureOutcomeModel {
            error_type: self.error_type@,
            error_message: self.error_message@,
            response_metadata: self.response_metadata@,
            attempt_records: record_models(self.attempt_records@),
            upstream_mode: self.upstream_mode,
            downstream_status: self.downstream_status,
            retry_after_secs: self.retry_after_secs,
        }
    }
}

/// The error type that the client is told of a failed attempt.
pub open spec fn client_error_type(failure: FailureModel) -> Seq<char> {
    if ended_by_shutdown(failure) {
        PROXY_SHUTTING_DOWN_ERROR_TYPE@
    } else if failure.abort_reason == Some(REQUEST_DEADLINE_ABORT_REASON@) || failure.error_type
        == REQUEST_DEADLINE_ERROR_TYPE@ {
        REQUEST_DEADLINE_ERROR_TYPE@
    } else if failure.retry_cause == Some(ShieldedRetryCause::LoopDetected) || failure.abort_reason
        == Some("loop_guard"@) {
        "llm_guard_loop_retry_exhausted"@
    } else if bound_to(failure.response_metadata, "upstream_stall_detected"@, "true"@) || has_part(
        failure.error_message,
        "timeout"@,
    ) {
        "llm_guard_attempt_timeout"@
    } else {
        "llm_guard_upstream_error"@
    }
}

/// The error type that the client is told of a failed attempt.
pub fn structured_shielded_error_type(failure: &ShieldedAttemptFailure) -> (error_type: &'static str)
    ensures
        error_type@ == client_error_type(failure@),
{
    if is_server_shutdown_failure(failure) {
        return PROXY_SHUTTING_DOWN_ERROR_TYPE;
    }
    if opt_reads(&failure.abort_reason, REQUEST_DEADLINE_ABORT_REASON) || same_text(
        failure.error_type,
        REQUEST_DEADLINE_ERROR_TYPE,
    ) {
        return REQUEST_DEADLINE_ERROR_TYPE;
    }
    if is_loop(failure.retry_cause) || opt_reads(&failure.abort_reason, "loop_guard") {
        return "llm_guard_loop_retry_exhausted";
    }
    if failure.response_metadata.reads("upstream_stall_detected", "true") || contains(
        failure.error_message.as_str(),
        "timeout",
    ) {
        return "llm_guard_attempt_timeout";
    }
    "llm_guard_upstream_error"
}

/// How a request fails whose last attempt failed.
pub open spec fn failure_outcome(
    failure: FailureModel,
    attempts: Seq<AttemptRecordModel>,
    policy: ShieldedRetryPolicy,
) -> FailureOutcomeModel {
    let status = if ended_by_shutdown(failure) {
        RequestStatus::Aborted
    } else {
        RequestStatus::Failed
    };
    let chained = failure.response_metadata.union_prefer_right(
        chain_bindings(attempts, policy, status.label()),
    );
    FailureOutcomeModel {
        error_type: client_error_type(failure),
        error_message: failure.error_message,
        response_metadata: match failure.abort_reason {
            Some(reason) => chained.insert("abort_reason"@, reason).insert(
                "shielded_terminal_reason"@,
                reason,
            ),
            None => if failure.retry_cause == Some(ShieldedRetryCause::LoopDetected) {
                chained.insert("shielded_terminal_reason"@, "loop_retry_exhausted"@)
            } else {
                chained
            },
        },
        attempt_records: attempts,
        upstream_mode: failure.upstream_mode,
        downstream_status: if ended_by_shutdown(failure) {
            503
        } else {
            502
        },
        retry_after_secs: None,
    }
}

/// Ends a request whose last attempt failed.
pub fn shielded_failure_outcome(
    failure: ShieldedAttemptFailure,
    attempt_records: Vec<AttemptRecord>,
    policy: &ShieldedRetryPolicy,
) -> (outcome: ShieldedFailureOutcome)
    ensures
        outcome@ == failure_outcome(failure@, record_models(attempt_records@), *policy),
{
    let shutdown = is_server_shutdown_failure(&failure);
    let request_status = if shutdown {
        RequestStatus::Aborted
    } else {
        RequestStatus::Failed
    };
    let mut response = failure.response_metadata.clone();
    let chain = retry_chain_metadata(&attempt_records, policy, request_status.as_str());
    response.extend(&chain);
    match &failure.abort_reason {
        Some(reason) => {
            response.set("abort_reason", reason.as_str());
            response.set("shielded_terminal_reason", reason.as_str());
        },
        None => {
            if is_loop(failure.retry_cause) {
                response.set("shielded_terminal_reason", "loop_retry_exhausted");
            }
        },
    }
    let error_type = structured_shielded_error_type(&failure);
    ShieldedFailureOutcome {
        error_type,
        error_message: failure.error_message,
        response_metadata: response,
        attempt_records,
        upstream_mode: failure.upstream_mode,
        downstream_status: if shutdown {
            503
        } else {
            502
        },
        retry_after_secs: None,
    }
}

/// How a request fails whose time ran out before the next attempt.
pub open spec fn late_outcome(
    unstarted_attempt_number: u32,
    attempts: Seq<AttemptRecordModel>,
    policy: ShieldedRetryPolicy,
) -> FailureOutcomeModel {
    FailureOutcomeModel {
        error_type: REQUEST_DEADLINE_ERROR_TYPE@,
        error_message: "shielded request deadline exhausted before next retry attempt"@,
        response_metadata: Bindings::empty().insert(
            "request_deadline_exhausted"@,
            "true"@,
        ).insert(
            "retry_unstarted_attempt_number"@,
            decimal(unstarted_attempt_number as nat),
        ).insert("retry_unstarted_reason"@, REQUEST_DEADLINE_ABORT_REASON@).insert(
            "abort_reason"@,
            REQUEST_DEADLINE_ABORT_REASON@,
        ).insert(
            "shielded_terminal_reason"@,
            REQUEST_DEADLINE_ABORT_REASON@,
        ).union_prefer_right(chain_bindings(attempts, policy, RequestStatus::Failed.label())),
        attempt_records: attempts,
        upstream_mode: UpstreamMode::NotApplicable,
        downstream_status: 502,
        retry_after_secs: None,
    }
}

/// Ends a request whose time ran out before the next attempt.
pub fn request_deadline_exhausted_outcome(
    policy: &ShieldedRetryPolicy,
    unstarted_attempt_number: u32,
    attempt_records: Vec<AttemptRecord>,
) -> (outcome: ShieldedFailureOutcome)
    ensures
        outcome@ == late_outcome(
            unstarted_attempt_number,
            record_models(attempt_records@),
            *policy,
        ),
{
    let mut response = Metadata::new();
    response.set("request_deadline_exhausted", "true");
    response.set_number("retry_unstarted_attempt_number", unstarted_attempt_number as u64);
    response.set("retry_unstarted_reason", REQUEST_DEADLINE_ABORT_REASON);
    response.set("abort_reason", REQUEST_DEADLINE_ABORT_REASON);
    response.set("shielded_terminal_reason", REQUEST_DEADLINE_ABORT_REASON);
    let chain = retry_chain_metadata(&attempt_records, policy, RequestStatus::Failed.as_str());
    response.extend(&chain);
    ShieldedFailureOutcome {
        error_type: REQUEST_DEADLINE_ERROR_TYPE,
        error_message: "shielded request deadline exhausted before next retry attempt".to_owned(),
        response_metadata: response,
        attempt_records,
        upstream_mode: UpstreamMode::NotApplicable,
        downstream_status: 502,
        retry_after_secs: None,
    }
}

/// Ends a request whose response can no longer be handed on as it is. `disabled`
/// is the policy of a request without retries.
pub fn terminal_forward_failure(
    info: &ShieldedAttemptInfo,
    prior_attempt_records: Vec<AttemptRecord>,
    message: &str,
    disabled: &ShieldedRetryPolicy,
    finished_at_unix_ms: u64,
) -> (outcome: ShieldedFailureOutcome)
    ensures
        ({
            let failure = final_status_failure_of(*info, message@, finished_at_unix_ms);
            outcome@ == failure_outcome(
                failure,
                record_models(prior_attempt_records@).push(
                    failure_record(failure, AttemptStatus::Failed, None, *disabled),
                ),
                *disabled,
            )
        }),
{
    let failure = status_failure_without_retry(info, message, finished_at_unix_ms);
    let mut attempt_records = prior_attempt_records;
    push_record(
        &mut attempt_records,
        attempt_failure_record(&failure, AttemptStatus::Failed, None, disabled),
    );
    shielded_failure_outcome(failure, attempt_records, disabled)
}

/// A request that a shutdown ended is answered as such, whatever else went wrong
/// with it; and the record of its last attempt says that it was aborted.
pub proof fn shutdowns_are_told(
    failure: FailureModel,
    attempts: Seq<AttemptRecordModel>,
    policy: ShieldedRetryPolicy,
    client_gone: bool,
)
    requires
        ended_by_shutdown(failure),
    ensures
        failure_outcome(failure, attempts, policy).error_type == PROXY_SHUTTING_DOWN_ERROR_TYPE@,
        failure_outcome(failure, attempts, policy).downstream_status == 503,
        !wants_retry(failure, policy, client_gone),
        failed_status(false, failure) == AttemptStatus::Aborted,
{
}

// ---------------------------------------------------------------------------
// Salvaged reasoning
// ---------------------------------------------------------------------------

proof fn lemma_encode_push(text: Seq<char>, c: char)
    ensures
        encode_utf8(text.push(c)) == encode_utf8(text) + encode_scalar(c as u32),
    decreases text.len(),
{
    reveal_with_fuel(encode_utf8, 2);
    let longer = text.push(c);
    if text.len() == 0 {
        assert(longer.drop_first() =~= Seq::<char>::empty());
        assert(encode_utf8(longer) =~= encode_scalar(c as u32));
        assert(encode_utf8(text) + encode_scalar(c as u32) =~= encode_scalar(c as u32));
    } else {
        assert(longer.drop_first() =~= text.drop_first().push(c));
        lemma_encode_push(text.drop_first(), c);
        assert(encode_utf8(longer) =~= encode_utf8(text) + encode_scalar(c as u32));
    }
}

proof fn lemma_encode_monotonic(text: Seq<char>, k: int, n: int)
    requires
        0 <= k <= n <= text.len(),
    ensures
        encode_utf8(text.take(k)).len() <= encode_utf8(text.take(n)).len(),
    decreases n - k,
{
    if k < n {
        lemma_encode_monotonic(text, k, n - 1);
        assert(text.take(n) =~= text.take(n - 1).push(text[n - 1]));
        lemma_encode_push(text.take(n - 1), text[n - 1]);
    }
}

/// Length of a character in UTF-8.
fn utf8_width(c: char) -> (width: usize)
    ensures
        width == encode_scalar(c as u32).len(),
        1 <= width <= 4,
{
    let code: u32 = c as u32;
    proof {
        vstd::utf8::char_is_scalar(c);
    }
    if code <= 0x7f {
        1
    } else if code <= 0x7ff {
        2
    } else if code <= 0xffff {
        3
    } else {
        4
    }
}

/// Whether the first `count` characters are the most that fit into `max_bytes`.
pub open spec fn is_longest_fit(text: Seq<char>, max_bytes: nat, count: int) -> bool {
    &&& 0 <= count <= text.len()
    &&& encode_utf8(text.take(count)).len() <= max_bytes
    &&& count < text.len() ==> encode_utf8(text.take(count + 1)).len() > max_bytes
}

/// The longest start of a text that fits into `max_bytes` without cutting a
/// character.
pub fn bounded_utf8_prefix(value: &str, max_bytes: usize) -> (prefix: String)
    ensures
        is_longest_fit(value@, max_bytes as nat, prefix@.len() as int),
        prefix@ == value@.take(prefix@.len() as int),
{
    if value.as_bytes().len() <= max_bytes {
        let prefix = value.to_owned();
        assert(value@.take(value@.len() as int) =~= value@);
        return prefix;
    }
    let chars = chars_of(value);
    let mut count: usize = 0;
    let mut bytes: usize = 0;
    assert(value@.take(0) =~= Seq::<char>::empty());
    while count < chars.len()
        invariant
            count <= chars.len(),
            chars@ == value@,
            bytes == encode_utf8(value@.take(count as int)).len(),
            bytes <= max_bytes,
        decreases chars.len() - count,
    {
        let width: usize = utf8_width(chars[count]);
        proof {
            assert(value@.take(count + 1) =~= value@.take(count as int).push(value@[count as int]));
            lemma_encode_push(value@.take(count as int), value@[count as int]);
        }
        if width > max_bytes - bytes {
            let prefix = value.substring_char(0, count).to_owned();
            assert(prefix@ =~= value@.take(count as int));
            return prefix;
        }
        bytes += width;
        count += 1;
    }
    let prefix = value.substring_char(0, count).to_owned();
    assert(prefix@ =~= value@.take(count as int));
    prefix
}

/// There is one longest start of a text that fits.
pub proof fn longest_fit_is_unique(text: Seq<char>, max_bytes: nat, a: int, b: int)
    requires
        is_longest_fit(text, max_bytes, a),
        is_longest_fit(text, max_bytes, b),
    ensures
        a == b,
{
    if a < b {
        lemma_encode_monotonic(text, a + 1, b);
    } else if b < a {
        lemma_encode_monotonic(text, b + 1, a);
    }
}

/// Whether reasoning is salvaged from a failed attempt: it looped in its
/// reasoning, and the policy answers from salvaged reasoning.
pub open spec fn salvages(failure: FailureModel, policy: ShieldedRetryPolicy) -> bool {
    failure.retry_cause == Some(ShieldedRetryCause::LoopDetected) && policy.uses_cot_salvage
        && bound_to(failure.response_metadata, "loop_channel"@, "reasoning"@)
}

/// The number of characters of the longest start of a text that fits.
pub open spec fn longest_fit(text: Seq<char>, max_bytes: nat) -> int {
    choose|count: int| is_longest_fit(text, max_bytes, count)
}

/// The reasoning that is salvaged from a failed attempt: the longest start that
/// fits, where it is not blank.
pub open spec fn salvaged(failure: FailureModel, policy: ShieldedRetryPolicy) -> Option<
    SalvageModel,
> {
    if !salvages(failure, policy) || failure.raw_payloads.reasoning is None {
        None
    } else {
        let reasoning = failure.raw_payloads.reasoning->Some_0;
        let prefix = reasoning.take(
            longest_fit(reasoning, COT_SALVAGE_PREFIX_MAX_BYTES as nat),
        );
        if trimmed(prefix).len() == 0 {
            None
        } else {
            Some(
                SalvageModel {
                    policy: policy.loop_failure_policy,
                    policy_label: policy.loop_failure_policy_label@,
                    source_attempt_id: failure.attempt_id,
                    source_attempt_number: failure.attempt_number,
                    source_attempt_duration_ms: since(
                        failure.finished_at_unix_ms,
                        failure.started_at_unix_ms,
                    ),
                    reasoning_prefix: prefix,
                },
            )
        }
    }
}

/// Salvages the reasoning of a failed attempt.
pub fn cot_salvage_context_for_failure(
    failure: &ShieldedAttemptFailure,
    policy: &ShieldedRetryPolicy,
) -> (salvage: Option<CotSalvageContext>)
    ensures
        crate::retry::opt_salvage(salvage) == salvaged(failure@, *policy),
{
    if !is_loop(failure.retry_cause) || !policy.uses_cot_salvage
        || !failure.response_metadata.reads("loop_channel", "reasoning") {
        return None;
    }
    let reasoning = match &failure.raw_payloads.reasoning {
        Some(reasoning) => reasoning,
        None => {
            return None;
        },
    };
    let prefix = bounded_utf8_prefix(reasoning.as_str(), COT_SALVAGE_PREFIX_MAX_BYTES);
    proof {
        longest_fit_is_unique(
            reasoning@,
            COT_SALVAGE_PREFIX_MAX_BYTES as nat,
            prefix@.len() as int,
            longest_fit(reasoning@, COT_SALVAGE_PREFIX_MAX_BYTES as nat),
        );
    }
    if trim(prefix.as_str()).as_str().is_empty() {
        return None;
    }
    Some(
        CotSalvageContext {
            policy: policy.loop_failure_policy,
            policy_label: policy.loop_failure_policy_label.clone(),
            source_attempt_id: failure.attempt_id.clone(),
            source_attempt_number: failure.attempt_number,
            source_attempt_duration_ms: failure.finished_at_unix_ms.saturating_sub(
                failure.started_at_unix_ms,
            ),
            reasoning_prefix: prefix,
        },
    )
}

/// The text of a payload, where it is text and not empty.
pub open spec fn payload_text(bytes: Seq<u8>) -> Option<Seq<char>> {
    if valid_utf8(bytes) && decode_utf8(bytes).len() > 0 {
        Some(decode_utf8(bytes))
    } else {
        None
    }
}

/// The text of a payload, where it is text and not empty.
pub fn raw_payload_text(bytes: &Vec<u8>) -> (text: Option<String>)
    ensures
        opt_chars(text) == payload_text(bytes@),
{
    match text_from_utf8(bytes.as_slice()) {
        Some(text) => {
            if text.as_str().is_empty() {
                None
            } else {
                Some(text)
            }
        },
        None => None,
    }
}

/// A failed attempt is tried again exactly where it has a cause that may pass, the
/// client still waits, the proxy does not shut down and an attempt is left.
pub proof fn passing_failures_are_tried_again(
    failure: FailureModel,
    policy: ShieldedRetryPolicy,
)
    ensures
        !wants_retry(failure, policy, true),
        failure.retry_cause is None ==> !wants_retry(failure, policy, false),
        failure.retry_cause is Some && failure.abort_reason is None ==> (wants_retry(
            failure,
            policy,
            false,
        ) <==> retry_allowed(policy, failure.attempt_number)),
        failed_status(true, failure) is Retried,
        failure.abort_reason is None ==> failed_status(false, failure) is Failed,
{
}

/// What went wrong while an answer was read is tried again for a loop before a stall
/// and a stall before a stream that broke off, and not at all for anything else.
pub proof fn broken_answers_have_their_cause(
    info: ShieldedAttemptInfo,
    error: AggregationError,
    now_ms: u64,
)
    ensures
        ({
            let failure = aggregation_failure_of(info, error, now_ms);
            &&& failure.retry_cause == Some(ShieldedRetryCause::LoopDetected)
                <==> error.loop_detected
            &&& failure.retry_cause == Some(ShieldedRetryCause::UpstreamStall)
                <==> error.upstream_stall && !error.loop_detected
            &&& failure.retry_cause == Some(ShieldedRetryCause::TransientStream)
                <==> error.transient_stream && !error.upstream_stall && !error.loop_detected
            &&& error.loop_detected ==> failure.abort_reason == Some("loop_guard"@)
            &&& !error.loop_detected && error.upstream_stall ==> failure.abort_reason == Some(
                "upstream_stall"@,
            )
            &&& failure.error_message == error.message@
            &&& failure.attempt_number == info.attempt_number
            &&& failure.attempt_id == info.attempt_id@
            &&& failure.http_status == Some(info.upstream_status)
            &&& failure.started_at_unix_ms == info.started_at_unix_ms
            &&& failure.finished_at_unix_ms == now_ms
            &&& forall|key: Seq<char>| #[trigger]
                error.response_metadata@.contains_key(key) ==> failure.response_metadata[key]
                    == error.response_metadata@[key]
        }),
{
}

/// A shutdown and the end of a request's time are no cause for a retry, and are told as
/// such.
pub proof fn ended_requests_are_not_retried(
    info: ShieldedAttemptInfo,
    failure: FailureModel,
    policy: ShieldedRetryPolicy,
    now_ms: u64,
    client_gone: bool,
)
    ensures
        !wants_retry(shutdown_failure_of(info, now_ms), policy, client_gone),
        !wants_retry(deadline_failure_of(info, now_ms), policy, client_gone),
        !wants_retry(marked_late(failure), policy, client_gone),
        !wants_retry(final_status_failure_of(info, info.attempt_id@, now_ms), policy, client_gone),
        deadline_failure_of(info, now_ms).error_type == "llm_guard_request_deadline_exhausted"@,
        marked_late(failure).error_type == "llm_guard_request_deadline_exhausted"@,
        marked_late(failure).attempt_number == failure.attempt_number,
        marked_late(failure).http_status == failure.http_status,
        bound_to(
            marked_late(failure).response_metadata,
            "request_deadline_exhausted"@,
            "true"@,
        ),
        deadline_failure_of(info, now_ms).attempt_number == info.attempt_number,
        shutdown_failure_of(info, now_ms).attempt_number == info.attempt_number,
{
}

/// A status that may pass is tried again for its own cause, and the record says which
/// status it was.
pub proof fn statuses_are_told(
    info: ShieldedAttemptInfo,
    cause: ShieldedRetryCause,
    message: Seq<char>,
    now_ms: u64,
)
    ensures
        ({
            let failure = status_failure_of(info, cause, message, now_ms);
            &&& failure.retry_cause == Some(cause)
            &&& failure.http_status == Some(info.upstream_status)
            &&& failure.error_message == message + ": HTTP "@ + decimal(
                info.upstream_status as nat,
            )
            &&& bound_to(
                failure.response_metadata,
                "status_code"@,
                decimal(info.upstream_status as nat),
            )
        }),
{
    reveal_strlit("status_code");
    reveal_strlit("upstream_response_received");
    assert("status_code"@.len() == 11);
    assert("upstream_response_received"@.len() == 26);
}

/// The record of a failed attempt is that of this attempt, and says what went wrong.
pub proof fn failures_are_recorded(
    failure: FailureModel,
    status: AttemptStatus,
    retry_cause: Option<ShieldedRetryCause>,
    policy: ShieldedRetryPolicy,
)
    ensures
        ({
            let record = failure_record(failure, status, retry_cause, policy);
            &&& record.attempt_id == failure.attempt_id
            &&& record.request_id == failure.request_id
            &&& record.attempt_number == failure.attempt_number
            &&& record.started_at_unix_ms == failure.started_at_unix_ms
            &&& record.finished_at_unix_ms == Some(failure.finished_at_unix_ms)
            &&& record.status == status
            &&& record.http_status == failure.http_status
            &&& record.error_reason == Some(failure.error_type + ": "@ + failure.error_message)
            &&& record.abort_reason == failure.abort_reason
            &&& record.request_metadata == failure.request_metadata
            &&& record.raw_payloads == failure.raw_payloads
            &&& retry_cause is None ==> record.retry_reason is None
            &&& (retry_cause matches Some(cause) ==> record.retry_reason == Some(
                cause.reason_text(),
            ))
        }),
{
}

/// A client is told of the end of a request's time, of loops, of timeouts and of
/// anything else, each under its own name; only a shutdown is no bad gateway.
pub proof fn clients_are_told_what_ended_their_request(
    failure: FailureModel,
    attempts: Seq<AttemptRecordModel>,
    policy: ShieldedRetryPolicy,
)
    requires
        !ended_by_shutdown(failure),
    ensures
        ({
            let told = failure_outcome(failure, attempts, policy);
            let late = failure.abort_reason == Some("request_deadline_exhausted"@)
                || failure.error_type == "llm_guard_request_deadline_exhausted"@;
            let looped = failure.retry_cause == Some(ShieldedRetryCause::LoopDetected)
                || failure.abort_reason == Some("loop_guard"@);
            &&& told.downstream_status == 502
            &&& told.retry_after_secs is None
            &&& told.error_message == failure.error_message
            &&& told.attempt_records == attempts
            &&& late ==> told.error_type == "llm_guard_request_deadline_exhausted"@
            &&& !late && looped ==> told.error_type == "llm_guard_loop_retry_exhausted"@
            &&& !late && !looped && bound_to(
                failure.response_metadata,
                "upstream_stall_detected"@,
                "true"@,
            ) ==> told.error_type == "llm_guard_attempt_timeout"@
            &&& (failure.abort_reason matches Some(reason) ==> bound_to(
                told.response_metadata,
                "shielded_terminal_reason"@,
                reason,
            ))
        }),
        late_outcome(failure.attempt_number, attempts, policy).downstream_status == 502,
        late_outcome(failure.attempt_number, attempts, policy).attempt_records == attempts,
        late_outcome(failure.attempt_number, attempts, policy).error_type
            == "llm_guard_request_deadline_exhausted"@,
{
}

/// Reasoning is salvaged from an attempt that looped in it, where the policy answers
/// from it: the start of the reasoning, as long as fits.
pub proof fn salvaged_reasoning_is_a_start(failure: FailureModel, policy: ShieldedRetryPolicy)
    ensures
        !policy.uses_cot_salvage ==> salvaged(failure, policy) is None,
        failure.retry_cause != Some(ShieldedRetryCause::LoopDetected) ==> salvaged(failure, policy)
            is None,
        failure.raw_payloads.reasoning is None ==> salvaged(failure, policy) is None,
        salvaged(failure, policy) matches Some(salvage) ==> {
            &&& bound_to(failure.response_metadata, "loop_channel"@, "reasoning"@)
            &&& salvage.policy == policy.loop_failure_policy
            &&& salvage.source_attempt_id == failure.attempt_id
            &&& salvage.source_attempt_number == failure.attempt_number
            &&& failure.started_at_unix_ms <= failure.finished_at_unix_ms
                ==> salvage.source_attempt_duration_ms == failure.finished_at_unix_ms
                - failure.started_at_unix_ms
        },
        policy.uses_cot_salvage && failure.retry_cause == Some(ShieldedRetryCause::LoopDetected)
            && bound_to(failure.response_metadata, "loop_channel"@, "reasoning"@) && (
        failure.raw_payloads.reasoning matches Some(reasoning) && is_longest_fit(
            reasoning,
            COT_SALVAGE_PREFIX_MAX_BYTES as nat,
            reasoning.len() as int,
        ) && trimmed(reasoning).len() > 0) ==> (salvaged(failure, policy) matches Some(salvage)
            && salvage.reasoning_prefix == failure.raw_payloads.reasoning->Some_0),
{
    match failure.raw_payloads.reasoning {
        Some(reasoning) => {
            let max = COT_SALVAGE_PREFIX_MAX_BYTES as nat;
            if is_longest_fit(reasoning, max, reasoning.len() as int) {
                assert(is_longest_fit(reasoning, max, longest_fit(reasoning, max)));
                longest_fit_is_unique(
                    reasoning,
                    max,
                    reasoning.len() as int,
                    longest_fit(reasoning, max),
                );
                assert(reasoning.take(reasoning.len() as int) =~= reasoning);
            }
        },
        None => {},
    }
}

/// An attempt that could not be started is tried again where the failure may pass; one
/// that ran into the end of the request's time, or into a shutdown, is not.
pub proof fn unstarted_attempts_are_told(
    input: ShieldedStartFailureInput,
    deadline_over: bool,
    now_ms: u64,
)
    requires
        error_attempts(input.error@).len() == 0,
    ensures
        ({
            let failure = start_failure_of(input, deadline_over, now_ms);
            let late = deadline_over && input.error.kind == (ErrorKind::UpstreamTransport {
                failure: ReqwestFailureKind::Timeout,
            });
            &&& failure.attempt_id == input.attempt_id@
            &&& failure.attempt_number == input.attempt_number
            &&& failure.started_at_unix_ms == input.attempt_started_at_unix_ms
            &&& failure.finished_at_unix_ms == now_ms
            &&& failure.http_status is None
            &&& late ==> failure.retry_cause is None && failure.error_type
                == "llm_guard_request_deadline_exhausted"@ && failure.abort_reason == Some(
                "request_deadline_exhausted"@,
            )
            &&& input.error.kind is Shutdown ==> failure.retry_cause is None
            &&& !late && input.error.kind == (ErrorKind::UpstreamTransport {
                failure: ReqwestFailureKind::Connect,
            }) ==> failure.retry_cause is Some && failure.error_type == "upstream_connect_error"@
                && failure.transport_failure == Some(ReqwestFailureKind::Connect)
            &&& !late && input.error.kind == (ErrorKind::UpstreamTransport {
                failure: ReqwestFailureKind::Timeout,
            }) ==> failure.retry_cause is Some
            &&& !(input.error.kind is UpstreamTransport) ==> failure.retry_cause is None
        }),
{
}

/// A body is kept as the text that it is, unless it is none or says nothing.
pub proof fn payloads_are_kept_as_text(text: Seq<char>, bytes: Seq<u8>)
    ensures
        text.len() > 0 ==> payload_text(encode_utf8(text)) == Some(text),
        payload_text(encode_utf8(Seq::empty())) is None,
        !valid_utf8(bytes) ==> payload_text(bytes) is None,
        payload_text(bytes) matches Some(text) ==> encode_utf8(text) == bytes && text.len() > 0,
{
    broadcast use vstd::utf8::encode_utf8_valid_utf8;
    broadcast use vstd::utf8::encode_utf8_decode_utf8;
    broadcast use vstd::utf8::decode_utf8_encode_utf8;
    assert(decode_utf8(encode_utf8(text)) == text);
    assert(decode_utf8(encode_utf8(Seq::<char>::empty())) == Seq::<char>::empty());
    if valid_utf8(bytes) {
        assert(encode_utf8(decode_utf8(bytes)) == bytes);
    }
}

/// An answer that broke off has one cause: a loop before a stall, and a stall before a
/// passing failure.
pub proof fn broken_answers_have_one_cause(error: AggregationError)
    ensures
        error.loop_detected ==> aggregation_cause(error) == Some(ShieldedRetryCause::LoopDetected),
        !error.loop_detected && error.upstream_stall ==> aggregation_cause(error) == Some(
            ShieldedRetryCause::UpstreamStall,
        ),
        !error.loop_detected && !error.upstream_stall && error.transient_stream
            ==> aggregation_cause(error) == Some(ShieldedRetryCause::TransientStream),
        aggregation_cause(error) is None <==> !error.loop_detected && !error.upstream_stall
            && !error.transient_stream,
{
}

/// Only an upstream that did not answer in time can have been asked too late, and what
/// was asked too late is told as that.
pub proof fn late_starts_are_timeouts(kind: ErrorKind, over: bool, failure: ReqwestFailureKind)
    ensures
        transport_kind(ErrorKind::UpstreamTransport { failure }) == Some(failure),
        started_too_late(ErrorKind::UpstreamTransport { failure }, true) <==> failure is Timeout,
        !started_too_late(kind, false),
        !(kind is UpstreamTransport) ==> !started_too_late(kind, over),
        start_error_type(kind, true) == REQUEST_DEADLINE_ERROR_TYPE@,
        start_error_type(
            ErrorKind::UpstreamTransport { failure: ReqwestFailureKind::Connect },
            false,
        ) == "upstream_connect_error"@,
        !(kind is UpstreamTransport) ==> start_error_type(kind, false) == kind.type_text(),
{
}

/// A failure that nothing else explains is one of the upstream, and one that speaks of a
/// timeout is a timeout.
pub proof fn unexplained_failures_are_the_upstreams(failure: FailureModel)
    requires
        failure.abort_reason is None,
        failure.retry_cause is None,
        failure.error_type != REQUEST_DEADLINE_ERROR_TYPE@,
    ensures
        has_part(failure.error_message, "timeout"@) ==> client_error_type(failure)
            == "llm_guard_attempt_timeout"@,
        bound_to(failure.response_metadata, "upstream_stall_detected"@, "true"@)
            ==> client_error_type(failure) == "llm_guard_attempt_timeout"@,
        !has_part(failure.error_message, "timeout"@) && !bound_to(
            failure.response_metadata,
            "upstream_stall_detected"@,
            "true"@,
        ) ==> client_error_type(failure) == "llm_guard_upstream_error"@,
        !ended_by_shutdown(failure),
        ended_by_shutdown(FailureModel { abort_reason: Some("server_shutdown"@), ..failure }),
        client_error_type(FailureModel { abort_reason: Some("server_shutdown"@), ..failure })
            == PROXY_SHUTTING_DOWN_ERROR_TYPE@,
{
}

/// What is recorded of a failed attempt says its number, how it ended, how long it took
/// and why it was retried.
pub proof fn failed_attempts_are_recorded(
    failure: FailureModel,
    status: AttemptStatus,
    cause: ShieldedRetryCause,
    policy: ShieldedRetryPolicy,
)
    ensures
        ({
            let told = failure_record_bindings(failure, status, Some(cause), policy);
            &&& told.contains_key("attempt_number"@) && told["attempt_number"@] == decimal(failure.attempt_number as nat)
            &&& told.contains_key("attempt_max_attempts"@) && told["attempt_max_attempts"@] == decimal(policy.max_attempts as nat)
            &&& told.contains_key("attempt_outcome"@) && told["attempt_outcome"@] == status.label()
            &&& told.contains_key("attempt_duration_ms"@) && told["attempt_duration_ms"@] == decimal(
                elapsed(failure.finished_at_unix_ms, failure.started_at_unix_ms),
            )
            &&& told.contains_key("retry_policy_enabled"@) && told["retry_policy_enabled"@] == bool_chars(policy.enabled)
            &&& told.contains_key("retry_reason"@) && told["retry_reason"@] == cause.reason_text()
        }),
{
    reveal_strlit("attempt_number");
    reveal_strlit("attempt_max_attempts");
    reveal_strlit("attempt_outcome");
    reveal_strlit("attempt_duration_ms");
    reveal_strlit("retry_policy_enabled");
    reveal_strlit("retry_reason");
    reveal_strlit("abort_reason");
    reveal_strlit("attempt_terminal_reason");
    assert("attempt_number"@.len() == 14);
    assert("attempt_max_attempts"@.len() == 20);
    assert("attempt_outcome"@.len() == 15);
    assert("attempt_duration_ms"@.len() == 19);
    assert("retry_policy_enabled"@.len() == 20);
    assert("retry_reason"@.len() == 12);
    assert("abort_reason"@.len() == 12);
    assert("attempt_terminal_reason"@.len() == 23);
    assert("attempt_max_attempts"@[0] != "retry_policy_enabled"@[0]);
    assert("retry_reason"@[0] != "abort_reason"@[0]);
}

/// Where no retry is left for a loop, that is on record.
pub proof fn spent_retries_are_recorded(
    failure: FailureModel,
    status: AttemptStatus,
    policy: ShieldedRetryPolicy,
)
    ensures
        ({
            let told = failure_record_bindings(failure, status, None, policy);
            &&& failure.retry_cause is Some ==> told["retry_exhausted"@] == "true"@
            &&& failure.retry_cause == Some(ShieldedRetryCause::LoopDetected)
                ==> told["retry_exhausted_reason"@] == "loop_retry_exhausted"@
            &&& failure.retry_cause == Some(ShieldedRetryCause::LoopDetected)
                && failure.abort_reason is None ==> told["attempt_terminal_reason"@]
                == "loop_retry_exhausted"@
            &&& (failure.abort_reason matches Some(reason) ==> told["attempt_terminal_reason"@]
                == reason && told["abort_reason"@] == reason)
        }),
{
    reveal_strlit("abort_reason");
    reveal_strlit("attempt_terminal_reason");
    reveal_strlit("retry_exhausted");
    reveal_strlit("retry_exhausted_reason");
    assert("abort_reason"@.len() == 12);
    assert("attempt_terminal_reason"@.len() == 23);
    assert("retry_exhausted"@.len() == 15);
    assert("retry_exhausted_reason"@.len() == 22);
}

/// A broken answer is a failure of its body, with what came of it.
pub proof fn broken_answers_are_told(
    info: ShieldedAttemptInfo,
    error: AggregationError,
    now_ms: u64,
    key: Seq<char>,
)
    ensures
        ({
            let told = aggregation_failure_of(info, error, now_ms);
            &&& told.error_type == "upstream_body_error"@
            &&& told.error_message == error.message@
            &&& told.http_status == Some(info.upstream_status)
            &&& told.attempt_id == info.attempt_id@
            &&& told.attempt_number == info.attempt_number
            &&& told.started_at_unix_ms == info.started_at_unix_ms
            &&& told.finished_at_unix_ms == now_ms
            &&& told.retry_cause == aggregation_cause(error)
            &&& error.response_metadata@.contains_key(key) ==> told.response_metadata[key]
                == error.response_metadata@[key]
        }),
{
}

/// A request that ran out of time before an attempt says so, with the number of the
/// attempt that was not started.
pub proof fn unstarted_attempts_are_recorded(
    number: u32,
    attempts: Seq<AttemptRecordModel>,
    policy: ShieldedRetryPolicy,
    key: Seq<char>,
)
    ensures
        ({
            let told = late_outcome(number, attempts, policy);
            let chain = chain_bindings(attempts, policy, "failed"@);
            &&& told.error_type == "llm_guard_request_deadline_exhausted"@
            &&& told.error_message
                == "shielded request deadline exhausted before next retry attempt"@
            &&& chain.contains_key(key) ==> told.response_metadata[key] == chain[key]
            &&& !chain.contains_key(key) && (key == "abort_reason"@ || key
                == "shielded_terminal_reason"@ || key == "retry_unstarted_reason"@)
                ==> told.response_metadata[key] == "request_deadline_exhausted"@
            &&& !chain.contains_key(key) && key == "retry_unstarted_attempt_number"@
                ==> told.response_metadata[key] == decimal(number as nat)
            &&& !chain.contains_key(key) && key == "request_deadline_exhausted"@
                ==> told.response_metadata[key] == "true"@
        }),
{
    reveal_strlit("abort_reason");
    reveal_strlit("shielded_terminal_reason");
    reveal_strlit("retry_unstarted_reason");
    reveal_strlit("retry_unstarted_attempt_number");
    reveal_strlit("request_deadline_exhausted");
    assert("abort_reason"@.len() == 12);
    assert("shielded_terminal_reason"@.len() == 24);
    assert("retry_unstarted_reason"@.len() == 22);
    assert("retry_unstarted_attempt_number"@.len() == 30);
    assert("request_deadline_exhausted"@.len() == 26);
}

} // verus!
