//! Recovering and repeating requests that are forwarded as they are.
//!
//! Such a request uses the recovery of its upstream as shielded requests do, but
//! is repeated only before any response has gone to the client.

use crate::clock::ShieldedRequestDeadline;
use crate::errors::{
    bare_error, error_attempts, with_attempt, with_earlier_attempts, with_metadata, ErrorKind,
    ProxyError, ProxyErrorModel,
};
use crate::failover::{
    status_text, write_status, SentUpstreamResponse, UpstreamEndpointConfig,
    UpstreamEndpointProtocol,
};
use crate::failures::ReqwestFailureKind;
use crate::headers::{upstream_mode_from_headers, upstream_mode_of, HeaderModel};
use crate::message_metadata::{
    elapsed, is_success, response_bindings, response_metadata, status_is_success,
    failed_response_bindings,
};
use crate::metadata::{Bindings, Metadata};
use crate::observations::{failed_attempt_record, FailedAttemptRecordInput};
use crate::records::{
    append_records, clone_records, no_payloads, no_usage, push_record, record_models,
    AttemptRecord, AttemptRecordModel, AttemptStatus, RawPayloads, TokenUsage, UpstreamMode,
};
use crate::recovery::LocalRecoveryCause;
use crate::text::{joined, same_text};
use vstd::prelude::*;

verus! {

/// The meaning of a response that has not gone to the client yet.
#[verifier::ext_equal]
pub struct SentModel {
    pub status: u16,
    pub headers: Seq<HeaderModel>,
    pub attempt_id: Seq<char>,
    pub attempt_number: u32,
    pub attempt_started_at_unix_ms: u64,
    pub attempt_request_metadata: Bindings,
    pub completed: Seq<AttemptRecordModel>,
    pub did_failover: bool,
    pub terminal_endpoint: Option<UpstreamEndpointConfig>,
    pub terminal_endpoint_protocol: UpstreamEndpointProtocol,
}

impl View for SentUpstreamResponse {
    type V = SentModel;

    open spec fn view(&self) -> SentModel {
        SentModel {
            status: self.response.status,
            headers: self.response.headers@,
            attempt_id: self.attempt_id@,
            attempt_number: self.attempt_number,
            attempt_started_at_unix_ms: self.attempt_started_at_unix_ms,
            attempt_request_metadata: self.attempt_request_metadata@,
            completed: record_models(self.completed_attempt_records@),
            did_failover: self.did_failover,
            terminal_endpoint: self.terminal_endpoint,
            terminal_endpoint_protocol: self.terminal_endpoint_protocol,
        }
    }
}

/// The meaning of what came of sending a request.
pub open spec fn sent_model(sent: Result<SentUpstreamResponse, ProxyError>) -> Result<
    SentModel,
    ProxyErrorModel,
> {
    match sent {
        Ok(sent) => Ok(sent@),
        Err(error) => Err(error@),
    }
}

// ---------------------------------------------------------------------------
// What to do with a response
// ---------------------------------------------------------------------------

/// What to do with a response that needs no recovery.
#[derive(Clone, Copy, Debug, PartialEq, Eq, Structural)]
pub enum GenericStep {
    /// Hand it on.
    Return,
    /// Wait for the first chunk of its body before anything goes to the client.
    HoldFirstChunk,
    /// Try again later, if the delay that it asks for fits the time that is left.
    RetryLater { remaining_ms: u64 },
}

/// What to do with a response that needs no recovery.
pub open spec fn generic_step(
    status: u16,
    retry_enabled: bool,
    path: Seq<char>,
    deadline: ShieldedRequestDeadline,
    now_ms: u64,
) -> GenericStep {
    if status == 429 && retry_enabled {
        match deadline.left(now_ms) {
            Some(remaining_ms) => GenericStep::RetryLater { remaining_ms },
            None => GenericStep::Return,
        }
    } else if path == "/v1/chat/completions"@ && is_success(status) && !deadline.over(now_ms) {
        GenericStep::HoldFirstChunk
    } else {
        GenericStep::Return
    }
}

/// Decides what to do with a response that needs no recovery.
pub fn next_generic_step(
    status: u16,
    retry_enabled: bool,
    path: &str,
    deadline: ShieldedRequestDeadline,
    now_ms: u64,
) -> (step: GenericStep)
    ensures
        step == generic_step(status, retry_enabled, path@, deadline, now_ms),
{
    if status != 429 || !retry_enabled {
        if !same_text(path, "/v1/chat/completions") || !status_is_success(status)
            || deadline.is_exhausted(now_ms) {
            return GenericStep::Return;
        }
        return GenericStep::HoldFirstChunk;
    }
    match deadline.remaining(now_ms) {
        Some(remaining_ms) => GenericStep::RetryLater { remaining_ms },
        None => GenericStep::Return,
    }
}

/// The record of an attempt whose body failed before anything went to the
/// client.
pub open spec fn precommit_record(
    sent: SentModel,
    kind: ErrorKind,
    request_id: Seq<char>,
    now_ms: u64,
) -> AttemptRecordModel {
    AttemptRecordModel {
        attempt_id: sent.attempt_id,
        request_id,
        attempt_number: sent.attempt_number,
        started_at_unix_ms: sent.attempt_started_at_unix_ms,
        finished_at_unix_ms: Some(now_ms),
        upstream_mode: upstream_mode_of(sent.headers),
        status: AttemptStatus::Failed,
        http_status: Some(sent.status),
        error_reason: Some(kind.type_text() + ": "@ + kind.message_text()),
        retry_reason: None,
        abort_reason: None,
        token_usage: no_usage(),
        request_metadata: sent.attempt_request_metadata,
        response_metadata: failed_response_bindings(
            sent.attempt_started_at_unix_ms,
            now_ms,
            kind.type_text(),
        ).union_prefer_right(
            Bindings::empty().insert("precommit_body_failure"@, "true"@).insert(
                "upstream_response_received"@,
                "true"@,
            ),
        ),
        raw_payloads: no_payloads(),
    }
}

/// Ends an attempt whose body failed before anything went to the client.
pub fn precommit_body_failure(
    sent: SentUpstreamResponse,
    failure: ReqwestFailureKind,
    request_id: &str,
    request_metadata: &Metadata,
    now_ms: u64,
) -> (told: ProxyError)
    ensures
        told@ == with_earlier_attempts(
            with_attempt(
                bare_error(ErrorKind::UpstreamTransport { failure }),
                request_metadata@,
                precommit_record(
                    sent@,
                    ErrorKind::UpstreamTransport { failure },
                    request_id@,
                    now_ms,
                ),
            ),
            sent@.completed,
        ),
{
    let error = ProxyError::upstream_transport(failure);
    let mut extra = Metadata::new();
    extra.set("precommit_body_failure", "true");
    extra.set("upstream_response_received", "true");
    let mut record = failed_attempt_record(
        FailedAttemptRecordInput {
            attempt_id: sent.attempt_id,
            attempt_number: sent.attempt_number,
            request_id: request_id.to_owned(),
            started_at_unix_ms: sent.attempt_started_at_unix_ms,
            finished_at_unix_ms: now_ms,
            error_type: error.error_type(),
            error_reason: error.message(),
            request_metadata: sent.attempt_request_metadata,
            extra_response_metadata: extra,
        },
    );
    record.http_status = Some(sent.response.status);
    record.upstream_mode = upstream_mode_from_headers(&sent.response.headers);
    error.with_observability(request_metadata.clone(), record).with_completed_attempt_records(
        sent.completed_attempt_records,
    )
}

// ---------------------------------------------------------------------------
// Recovery
// ---------------------------------------------------------------------------

/// Why an upstream is recovered after what came of a request.
pub open spec fn recovery_cause(sent: Result<SentModel, ProxyErrorModel>) -> Option<
    LocalRecoveryCause,
> {
    match sent {
        Ok(sent) => if 502 <= sent.status <= 504 {
            Some(LocalRecoveryCause::TransientStatus)
        } else {
            None
        },
        Err(error) => match error.kind {
            ErrorKind::UpstreamTransport { failure } => if failure.transient() {
                Some(LocalRecoveryCause::TransientTransport)
            } else {
                None
            },
            _ => None,
        },
    }
}

/// Decides whether an upstream is recovered after what came of a request; not
/// once the time of the request is over.
pub fn replay_cause(
    sent: &Result<SentUpstreamResponse, ProxyError>,
    deadline: ShieldedRequestDeadline,
    now_ms: u64,
) -> (cause: Option<LocalRecoveryCause>)
    ensures
        cause == if deadline.over(now_ms) {
            None
        } else {
            recovery_cause(sent_model(*sent))
        },
{
    if deadline.is_exhausted(now_ms) {
        return None;
    }
    match sent {
        Ok(sent) => {
            if sent.response.status >= 502 && sent.response.status <= 504 {
                return Some(LocalRecoveryCause::TransientStatus);
            }
        },
        Err(error) => match &error.kind {
            ErrorKind::UpstreamTransport { failure } => {
                if failure.is_transient() {
                    return Some(LocalRecoveryCause::TransientTransport);
                }
            },
            _ => {},
        },
    }
    None
}

/// The next attempt number.
pub open spec fn next_number(number: u32) -> u32 {
    if number == u32::MAX {
        u32::MAX
    } else {
        (number + 1) as u32
    }
}

/// The record of an attempt whose response is followed by another attempt.
pub open spec fn status_retry_record(
    sent: SentModel,
    request_id: Seq<char>,
    recovery: Bindings,
    now_ms: u64,
) -> AttemptRecordModel {
    let recovered = recovery != Bindings::empty();
    AttemptRecordModel {
        attempt_id: sent.attempt_id,
        request_id,
        attempt_number: sent.attempt_number,
        started_at_unix_ms: sent.attempt_started_at_unix_ms,
        finished_at_unix_ms: Some(now_ms),
        upstream_mode: upstream_mode_of(sent.headers),
        status: AttemptStatus::Retried,
        http_status: Some(sent.status),
        error_reason: Some(
            if recovered {
                "upstream HTTP "@ + status_text(sent.status) + " selected for local recovery"@
            } else {
                "bounded upstream rate limit retry"@
            },
        ),
        retry_reason: Some(
            if recovered {
                "local_recovery"@
            } else {
                "transient_upstream_status"@
            },
        ),
        abort_reason: None,
        token_usage: no_usage(),
        request_metadata: sent.attempt_request_metadata,
        response_metadata: response_bindings(
            sent.status,
            sent.headers,
            0,
            elapsed(now_ms, sent.attempt_started_at_unix_ms),
        ).insert("attempt_outcome"@, "retried"@).insert(
            "endpoint_disposition"@,
            "retryable_failure"@,
        ).union_prefer_right(recovery),
        raw_payloads: no_payloads(),
    }
}

/// The number of the next attempt, and the attempts before it, where the last one
/// got a response.
pub fn status_retry_attempt_history(
    sent: &SentUpstreamResponse,
    request_id: &str,
    recovery_metadata: Metadata,
    now_ms: u64,
) -> (history: (u32, Vec<AttemptRecord>))
    requires
        100 <= sent.response.status < 1000,
    ensures
        history.0 == next_number(sent.attempt_number),
        record_models(history.1@) == sent@.completed.push(
            status_retry_record(sent@, request_id@, recovery_metadata@, now_ms),
        ),
{
    let local_recovery = !recovery_metadata.is_empty();
    let mut metadata = response_metadata(
        sent.response.status,
        &sent.response.headers,
        0,
        now_ms.saturating_sub(sent.attempt_started_at_unix_ms),
    );
    metadata.set("attempt_outcome", "retried");
    metadata.set("endpoint_disposition", "retryable_failure");
    metadata.extend(&recovery_metadata);
    let reason = if local_recovery {
        let mut reason = joined("upstream HTTP ", write_status(sent.response.status).as_str());
        reason.append(" selected for local recovery");
        reason
    } else {
        "bounded upstream rate limit retry".to_owned()
    };
    let retry_reason = if local_recovery {
        "local_recovery".to_owned()
    } else {
        "transient_upstream_status".to_owned()
    };
    let record = AttemptRecord {
        attempt_id: sent.attempt_id.clone(),
        request_id: request_id.to_owned(),
        attempt_number: sent.attempt_number,
        started_at_unix_ms: sent.attempt_started_at_unix_ms,
        finished_at_unix_ms: Some(now_ms),
        upstream_mode: upstream_mode_from_headers(&sent.response.headers),
        status: AttemptStatus::Retried,
        http_status: Some(sent.response.status),
        error_reason: Some(reason),
        retry_reason: Some(retry_reason),
        abort_reason: None,
        token_usage: TokenUsage::default(),
        request_metadata: sent.attempt_request_metadata.clone(),
        response_metadata: metadata,
        raw_payloads: RawPayloads::none(),
    };
    let mut attempts = clone_records(&sent.completed_attempt_records);
    push_record(&mut attempts, record);
    (sent.attempt_number.saturating_add(1), attempts)
}

/// What is recorded of an attempt that failed without a record.
pub struct UnrecordedAttempt {
    pub attempt_id: String,
    pub request_id: String,
    pub started_at_unix_ms: u64,
    pub request_metadata: Metadata,
}

/// The record of an attempt that failed without one.
pub open spec fn unrecorded_record(
    attempt: UnrecordedAttempt,
    kind: ErrorKind,
    recovery: Bindings,
    now_ms: u64,
) -> AttemptRecordModel {
    AttemptRecordModel {
        attempt_id: attempt.attempt_id@,
        request_id: attempt.request_id@,
        attempt_number: 1,
        started_at_unix_ms: attempt.started_at_unix_ms,
        finished_at_unix_ms: Some(now_ms),
        upstream_mode: UpstreamMode::NotApplicable,
        status: AttemptStatus::Retried,
        http_status: None,
        error_reason: Some(kind.type_text() + ": "@ + kind.message_text()),
        retry_reason: Some("local_recovery"@),
        abort_reason: None,
        token_usage: no_usage(),
        request_metadata: attempt.request_metadata@,
        response_metadata: failed_response_bindings(
            attempt.started_at_unix_ms,
            now_ms,
            kind.type_text(),
        ).union_prefer_right(recovery),
        raw_payloads: no_payloads(),
    }
}

/// A record as that of an attempt which a recovery followed.
pub open spec fn recovered_record(record: AttemptRecordModel, recovery: Bindings) -> AttemptRecordModel {
    AttemptRecordModel {
        status: AttemptStatus::Retried,
        retry_reason: Some("local_recovery"@),
        response_metadata: record.response_metadata.union_prefer_right(recovery),
        ..record
    }
}

/// The number of the next attempt, and the attempts before it, where the last one
/// got no response.
pub open spec fn transport_history(
    error: ProxyErrorModel,
    unrecorded: UnrecordedAttempt,
    recovery: Bindings,
    now_ms: u64,
) -> (u32, Seq<AttemptRecordModel>) {
    let attempts = error_attempts(error);
    if attempts.len() == 0 {
        (2, seq![unrecorded_record(unrecorded, error.kind, recovery, now_ms)])
    } else {
        let number = attempts.last().attempt_number;
        (
            if number == 0 {
                2
            } else {
                next_number(number)
            },
            attempts.drop_last().push(recovered_record(attempts.last(), recovery)),
        )
    }
}

/// The number of the next attempt, and the attempts before it, where the last one
/// got no response.
pub fn transport_retry_attempt_history(
    error: &ProxyError,
    unrecorded: UnrecordedAttempt,
    recovery_metadata: Metadata,
    now_ms: u64,
) -> (history: (u32, Vec<AttemptRecord>))
    ensures
        (history.0, record_models(history.1@)) == transport_history(
            error@,
            unrecorded,
            recovery_metadata@,
            now_ms,
        ),
{
    let mut attempts = error.attempt_records();
    let ghost before = record_models(attempts@);
    assert(before == error_attempts(error@));
    match attempts.pop() {
        Some(last) => {
            let ghost rest = record_models(attempts@);
            assert(rest =~= before.drop_last());
            assert(before.last() == last@);
            let number: u32 = if last.attempt_number == 0 {
                1
            } else {
                last.attempt_number
            };
            let mut terminal = last;
            terminal.status = AttemptStatus::Retried;
            terminal.retry_reason = Some("local_recovery".to_owned());
            terminal.response_metadata.extend(&recovery_metadata);
            push_record(&mut attempts, terminal);
            (number.saturating_add(1), attempts)
        },
        None => {
            let mut record = failed_attempt_record(
                FailedAttemptRecordInput {
                    attempt_id: unrecorded.attempt_id,
                    attempt_number: 1,
                    request_id: unrecorded.request_id,
                    started_at_unix_ms: unrecorded.started_at_unix_ms,
                    finished_at_unix_ms: now_ms,
                    error_type: error.error_type(),
                    error_reason: error.message(),
                    request_metadata: unrecorded.request_metadata,
                    extra_response_metadata: recovery_metadata,
                },
            );
            record.status = AttemptStatus::Retried;
            record.retry_reason = Some("local_recovery".to_owned());
            let mut attempts: Vec<AttemptRecord> = Vec::new();
            push_record(&mut attempts, record);
            assert(record_models(attempts@) =~= seq![record@]);
            (2, attempts)
        },
    }
}

/// What follows a recovery.
pub enum ReplayStep {
    /// The request is not repeated; what came of it stays, with what is known of
    /// the recovery.
    Keep(Result<SentUpstreamResponse, ProxyError>),
    /// The request is repeated.
    Replay { attempt_number: u32, completed_attempt_records: Vec<AttemptRecord> },
}

/// What came of a request, with what is known of a recovery that did not lead to
/// a repetition.
pub open spec fn kept(first: Result<SentModel, ProxyErrorModel>, recovery: Bindings) -> Result<
    SentModel,
    ProxyErrorModel,
> {
    match first {
        Ok(sent) => Ok(
            SentModel {
                attempt_request_metadata: sent.attempt_request_metadata.union_prefer_right(
                    recovery,
                ),
                ..sent
            },
        ),
        Err(error) => Err(with_metadata(error, recovery)),
    }
}

/// The number of the next attempt, and the attempts before it.
pub open spec fn replay_history(
    first: Result<SentModel, ProxyErrorModel>,
    unrecorded: UnrecordedAttempt,
    recovery: Bindings,
    now_ms: u64,
) -> (u32, Seq<AttemptRecordModel>) {
    match first {
        Ok(sent) => (
            next_number(sent.attempt_number),
            sent.completed.push(
                status_retry_record(sent, unrecorded.request_id@, recovery, now_ms),
            ),
        ),
        Err(error) => transport_history(error, unrecorded, recovery, now_ms),
    }
}

/// Decides what follows a recovery. The request is repeated where the recovery
/// allows it and time is left. The time of day is for the record of the first attempt.
pub fn after_recovery(
    first: Result<SentUpstreamResponse, ProxyError>,
    permits_replay: bool,
    recovery_metadata: Metadata,
    unrecorded: UnrecordedAttempt,
    deadline: ShieldedRequestDeadline,
    now_ms: u64,
    now_unix_ms: u64,
) -> (step: ReplayStep)
    requires
        first matches Ok(sent) ==> 100 <= sent.response.status < 1000,
    ensures
        match step {
            ReplayStep::Keep(result) => {
                &&& !permits_replay || deadline.over(now_ms)
                &&& sent_model(result) == kept(sent_model(first), recovery_metadata@)
            },
            ReplayStep::Replay { attempt_number, completed_attempt_records } => {
                &&& permits_replay && !deadline.over(now_ms)
                &&& (attempt_number, record_models(completed_attempt_records@)) == replay_history(
                    sent_model(first),
                    unrecorded,
                    recovery_metadata@,
                    now_unix_ms,
                )
            },
        },
{
    if !permits_replay || deadline.is_exhausted(now_ms) {
        return match first {
            Ok(sent) => {
                let mut sent = sent;
                sent.attempt_request_metadata.extend(&recovery_metadata);
                ReplayStep::Keep(Ok(sent))
            },
            Err(error) => ReplayStep::Keep(Err(error.with_request_metadata(recovery_metadata))),
        };
    }
    let (attempt_number, completed_attempt_records) = match &first {
        Ok(sent) => status_retry_attempt_history(
            sent,
            unrecorded.request_id.as_str(),
            recovery_metadata,
            now_unix_ms,
        ),
        Err(error) => transport_retry_attempt_history(
            error,
            unrecorded,
            recovery_metadata,
            now_unix_ms,
        ),
    };
    ReplayStep::Replay { attempt_number, completed_attempt_records }
}

/// What came of a repeated request, with the attempts before it.
pub open spec fn after_earlier(
    result: Result<SentModel, ProxyErrorModel>,
    earlier: Seq<AttemptRecordModel>,
) -> Result<SentModel, ProxyErrorModel> {
    match result {
        Ok(sent) => Ok(SentModel { completed: earlier + sent.completed, ..sent }),
        Err(error) => Err(with_earlier_attempts(error, earlier)),
    }
}

/// Adds the attempts before it to what came of a repeated request.
pub fn finish_replay(
    result: Result<SentUpstreamResponse, ProxyError>,
    completed_attempt_records: Vec<AttemptRecord>,
) -> (told: Result<SentUpstreamResponse, ProxyError>)
    ensures
        sent_model(told) == after_earlier(
            sent_model(result),
            record_models(completed_attempt_records@),
        ),
{
    match result {
        Ok(sent) => {
            let mut completed = completed_attempt_records;
            append_records(&mut completed, sent.completed_attempt_records);
            Ok(
                SentUpstreamResponse {
                    response: sent.response,
                    attempt_id: sent.attempt_id,
                    attempt_number: sent.attempt_number,
                    attempt_started_at_unix_ms: sent.attempt_started_at_unix_ms,
                    attempt_request_metadata: sent.attempt_request_metadata,
                    completed_attempt_records: completed,
                    did_failover: sent.did_failover,
                    terminal_endpoint: sent.terminal_endpoint,
                    terminal_endpoint_protocol: sent.terminal_endpoint_protocol,
                },
            )
        },
        Err(error) => Err(error.with_completed_attempt_records(completed_attempt_records)),
    }
}

/// No attempt of a repeated request is lost: each of those before the repetition
/// stays on record, the last one as an attempt that was followed by another, and
/// the next number is larger than that of the last.
pub proof fn repeated_attempts_stay_on_record(
    first: Result<SentModel, ProxyErrorModel>,
    unrecorded: UnrecordedAttempt,
    recovery: Bindings,
    now_ms: u64,
)
    ensures
        ({
            let (number, history) = replay_history(first, unrecorded, recovery, now_ms);
            let before = match first {
                Ok(sent) => sent.completed,
                Err(error) => error_attempts(error),
            };
            &&& history.len() >= 1
            &&& history.len() >= before.len()
            &&& history.last().status is Retried
            &&& forall|i: int|
                0 <= i < before.len() ==> (#[trigger] history[i]).attempt_id == before[i].attempt_id
            &&& history.last().attempt_number < u32::MAX ==> number
                > history.last().attempt_number
        }),
{
}

/// An upstream that is busy is asked again while there is time, where that is enabled;
/// the first piece of a chat that succeeds is held back, and everything else is
/// returned as it is.
pub proof fn busy_upstreams_are_asked_again(
    status: u16,
    retry_enabled: bool,
    path: Seq<char>,
    deadline: ShieldedRequestDeadline,
    now_ms: u64,
)
    requires
        deadline.started_at_ms <= now_ms,
    ensures
        ({
            let step = generic_step(status, retry_enabled, path, deadline, now_ms);
            let end = deadline.started_at_ms + deadline.max_duration_ms;
            &&& step is RetryLater <==> status == 429 && retry_enabled && now_ms <= end
            &&& (step matches GenericStep::RetryLater { remaining_ms } ==> now_ms + remaining_ms
                == end)
            &&& step is HoldFirstChunk <==> path == "/v1/chat/completions"@ && 200 <= status <= 299
                && now_ms < end
        }),
{
}

/// A request without time left is not replayed; else one is replayed that met the
/// statuses 502, 503 and 504 or a failure that may pass.
pub proof fn passing_troubles_are_recovered(sent: SentModel, error: ProxyErrorModel)
    ensures
        recovery_cause(Ok(sent)) is Some <==> sent.status == 502 || sent.status == 503
            || sent.status == 504,
        recovery_cause(Ok(sent)) matches Some(cause) ==> cause is TransientStatus,
        error.kind == (ErrorKind::UpstreamTransport { failure: ReqwestFailureKind::Connect })
            ==> recovery_cause(Err(error)) == Some(LocalRecoveryCause::TransientTransport),
        error.kind == (ErrorKind::UpstreamTransport { failure: ReqwestFailureKind::Timeout })
            ==> recovery_cause(Err(error)) == Some(LocalRecoveryCause::TransientTransport),
        error.kind == (ErrorKind::UpstreamTransport { failure: ReqwestFailureKind::Decode })
            ==> recovery_cause(Err(error)) is None,
        !(error.kind is UpstreamTransport) ==> recovery_cause(Err(error)) is None,
{
}

/// What is recorded of an attempt that is given up or repeated is that attempt: its
/// name, number, start and status, and the time at which it ended.
pub proof fn records_tell_of_their_attempt(
    sent: SentModel,
    kind: ErrorKind,
    request_id: Seq<char>,
    recovery: Bindings,
    now_ms: u64,
)
    ensures
        ({
            let lost = precommit_record(sent, kind, request_id, now_ms);
            let repeated = status_retry_record(sent, request_id, recovery, now_ms);
            &&& lost.attempt_id == sent.attempt_id && repeated.attempt_id == sent.attempt_id
            &&& lost.request_id == request_id && repeated.request_id == request_id
            &&& lost.attempt_number == sent.attempt_number && repeated.attempt_number
                == sent.attempt_number
            &&& lost.http_status == Some(sent.status) && repeated.http_status == Some(sent.status)
            &&& lost.started_at_unix_ms == sent.attempt_started_at_unix_ms
            &&& repeated.started_at_unix_ms == sent.attempt_started_at_unix_ms
            &&& lost.finished_at_unix_ms == Some(now_ms) && repeated.finished_at_unix_ms == Some(
                now_ms,
            )
            &&& lost.status is Failed && repeated.status is Retried
            &&& lost.request_metadata == sent.attempt_request_metadata
            &&& repeated.request_metadata == sent.attempt_request_metadata
            &&& forall|key: Seq<char>| #[trigger]
                recovery.contains_key(key) ==> repeated.response_metadata.contains_key(key)
                    && repeated.response_metadata[key] == recovery[key]
        }),
        ({
            let sent_on = kept(Ok(sent), recovery);
            &&& sent_on is Ok
            &&& sent_on->Ok_0.status == sent.status
            &&& sent_on->Ok_0.completed == sent.completed
            &&& after_earlier(Ok(sent), seq![]) == Ok::<SentModel, ProxyErrorModel>(
                SentModel { completed: seq![] + sent.completed, ..sent },
            )
        }),
{
}

/// After a failure the next attempt has the next number, and the one before stays on
/// record as recovered from; a failure without a record counts as the first attempt.
pub proof fn recovered_failures_are_numbered(
    error: ProxyErrorModel,
    unrecorded: UnrecordedAttempt,
    recovery: Bindings,
    now_ms: u64,
)
    ensures
        ({
            let attempts = error_attempts(error);
            let (number, history) = transport_history(error, unrecorded, recovery, now_ms);
            &&& attempts.len() == 0 ==> number == 2 && history.len() == 1 && history[0].attempt_id
                == unrecorded.attempt_id@ && history[0].attempt_number == 1 && history[0].status
                is Retried
            &&& attempts.len() > 0 ==> history.len() == attempts.len() && history.last().attempt_id
                == attempts.last().attempt_id && history.last().status is Retried
                && history.last().attempt_number == attempts.last().attempt_number
                && history.drop_last() == attempts.drop_last()
            &&& attempts.len() > 0 && 0 < attempts.last().attempt_number < u32::MAX ==> number
                == attempts.last().attempt_number + 1
        }),
{
    let attempts = error_attempts(error);
    if attempts.len() > 0 {
        let history = transport_history(error, unrecorded, recovery, now_ms).1;
        assert(history.drop_last() =~= attempts.drop_last());
    }
}

/// An attempt without a record is put on record with what is known of it, and one that
/// was recovered from is retried for it.
pub proof fn recovered_attempts_are_recorded(
    attempt: UnrecordedAttempt,
    kind: ErrorKind,
    recovery: Bindings,
    now_ms: u64,
    record: AttemptRecordModel,
    key: Seq<char>,
)
    ensures
        ({
            let told = unrecorded_record(attempt, kind, recovery, now_ms);
            &&& told.attempt_id == attempt.attempt_id@
            &&& told.request_id == attempt.request_id@
            &&& told.attempt_number == 1
            &&& told.started_at_unix_ms == attempt.started_at_unix_ms
            &&& told.finished_at_unix_ms == Some(now_ms)
            &&& told.status is Retried
            &&& told.retry_reason == Some("local_recovery"@)
            &&& told.http_status is None
            &&& told.request_metadata == attempt.request_metadata@
            &&& recovery.contains_key(key) ==> told.response_metadata[key] == recovery[key]
        }),
        ({
            let told = recovered_record(record, recovery);
            &&& told.status is Retried
            &&& told.retry_reason == Some("local_recovery"@)
            &&& told.attempt_id == record.attempt_id
            &&& told.attempt_number == record.attempt_number
            &&& told.http_status == record.http_status
            &&& told.error_reason == record.error_reason
            &&& recovery.contains_key(key) ==> told.response_metadata[key] == recovery[key]
            &&& !recovery.contains_key(key) && record.response_metadata.contains_key(key)
                ==> told.response_metadata[key] == record.response_metadata[key]
        }),
        record.attempt_number < u32::MAX ==> next_number(record.attempt_number)
            == record.attempt_number + 1,
        next_number(u32::MAX) == u32::MAX,
{
}

/// An attempt that is made again says whether a recovery or a limit is the reason; one
/// that broke before anything was sent on says so.
pub proof fn repeated_attempts_have_a_reason(
    sent: SentModel,
    kind: ErrorKind,
    request_id: Seq<char>,
    recovery: Bindings,
    now_ms: u64,
)
    ensures
        ({
            let repeated = status_retry_record(sent, request_id, recovery, now_ms);
            let lost = precommit_record(sent, kind, request_id, now_ms);
            &&& recovery != Bindings::empty() ==> repeated.retry_reason == Some("local_recovery"@)
                && (repeated.error_reason matches Some(reason) && crate::text::has_part(
                reason,
                " selected for local recovery"@,
            ))
            &&& recovery == Bindings::empty() ==> {
                &&& repeated.retry_reason == Some("transient_upstream_status"@)
                &&& repeated.error_reason == Some("bounded upstream rate limit retry"@)
                &&& repeated.response_metadata["attempt_outcome"@] == "retried"@
                &&& repeated.response_metadata["endpoint_disposition"@] == "retryable_failure"@
            }
            &&& lost.response_metadata["precommit_body_failure"@] == "true"@
            &&& lost.response_metadata["upstream_response_received"@] == "true"@
            &&& lost.error_reason == Some(kind.type_text() + ": "@ + kind.message_text())
        }),
{
    let before = "upstream HTTP "@ + status_text(sent.status);
    let end = " selected for local recovery"@;
    crate::text::parts_are_found_at_the_end(before, end, Seq::empty());
    assert(before + end + Seq::<char>::empty() =~= before + end);
    assert(end + Seq::<char>::empty() =~= end);
    reveal_strlit("attempt_outcome");
    reveal_strlit("endpoint_disposition");
    reveal_strlit("precommit_body_failure");
    reveal_strlit("upstream_response_received");
    assert("attempt_outcome"@.len() == 15);
    assert("endpoint_disposition"@.len() == 20);
    assert("precommit_body_failure"@.len() == 22);
    assert("upstream_response_received"@.len() == 26);
}

/// A failure whose last attempt has no number counts as the first.
pub proof fn attempts_without_a_number_are_the_first(
    error: ProxyErrorModel,
    unrecorded: UnrecordedAttempt,
    recovery: Bindings,
    now_ms: u64,
)
    requires
        error_attempts(error).len() > 0,
        error_attempts(error).last().attempt_number == 0,
    ensures
        transport_history(error, unrecorded, recovery, now_ms).0 == 2,
{
}

} // verus!
