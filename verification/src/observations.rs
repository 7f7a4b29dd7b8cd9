//! What is recorded when a request ends.

use crate::admission::{
    cancelled_admission_metadata, cancelled_bindings, QueueCancellationReason,
    QueuedAdmissionCancellation,
};
use crate::attempts::ShieldedAttemptInfo;
use crate::bodies::BodyCompletion;
use crate::errors::{
    with_attempt, with_earlier_attempts, ErrorKind, ProxyError, ProxyErrorModel,
};
use crate::headers::{
    copy_selected_header_metadata, downstream_mode_from_headers, downstream_mode_of,
    with_selected_headers, HeaderModel, Headers,
};
use crate::message_metadata::{
    elapsed, failed_response_bindings, failed_response_metadata, is_success, response_bindings,
    response_metadata, status_is_success,
};
use crate::metadata::{with_prefix, Bindings, Metadata};
use crate::records::{
    clone_records, no_payloads, no_usage, push_record, record_models, with_input, AttemptRecord,
    AttemptRecordModel, AttemptStatus, DownstreamMode, RawPayloads, RawPayloadsModel, RequestStatus,
    TokenUsage, UpstreamMode,
};
use crate::retry::{
    chain_bindings, copy_attempt_request_metadata, retry_chain_metadata, with_attempt_request,
    ShieldedRetryPolicy,
};
use crate::text::{
    bool_chars, clone_bytes, clone_opt, decimal, decimal_text, joined, opt_chars, opt_str_chars,
    own_opt, same_text,
};
use crate::token_usage::{parse_token_usage, response_usage};
use vstd::prelude::*;

verus! {

/// One request.
pub struct RequestRecord {
    pub request_id: String,
    pub started_at_unix_ms: u64,
    pub finished_at_unix_ms: Option<u64>,
    pub downstream_mode: DownstreamMode,
    pub upstream_mode: UpstreamMode,
    pub model_id: Option<String>,
    pub input_fingerprint: Option<String>,
    pub status: RequestStatus,
    pub http_status: Option<u16>,
    pub error_reason: Option<String>,
    pub abort_reason: Option<String>,
    pub request_metadata: Metadata,
    pub response_metadata: Metadata,
    pub raw_payloads: RawPayloads,
}

/// The meaning of a request record.
#[verifier::ext_equal]
pub struct RequestRecordModel {
    pub request_id: Seq<char>,
    pub started_at_unix_ms: u64,
    pub finished_at_unix_ms: Option<u64>,
    pub downstream_mode: DownstreamMode,
    pub upstream_mode: UpstreamMode,
    pub model_id: Option<Seq<char>>,
    pub input_fingerprint: Option<Seq<char>>,
    pub status: RequestStatus,
    pub http_status: Option<u16>,
    pub error_reason: Option<Seq<char>>,
    pub abort_reason: Option<Seq<char>>,
    pub request_metadata: Bindings,
    pub response_metadata: Bindings,
    pub raw_payloads: RawPayloadsModel,
}

impl View for RequestRecord {
    type V = RequestRecordModel;

    open spec fn view(&self) -> RequestRecordModel {
        RequestRecordModel {
            request_id: self.request_id@,
            started_at_unix_ms: self.started_at_unix_ms,
            finished_at_unix_ms: self.finished_at_unix_ms,
            downstream_mode: self.downstream_mode,
            upstream_mode: self.upstream_mode,
            model_id: opt_chars(self.model_id),
            input_fingerprint: opt_chars(self.input_fingerprint),
            status: self.status,
            http_status: self.http_status,
            error_reason: opt_chars(self.error_reason),
            abort_reason: opt_chars(self.abort_reason),
            request_metadata: self.request_metadata@,
            response_metadata: self.response_metadata@,
            raw_payloads: self.raw_payloads@,
        }
    }
}

// ---------------------------------------------------------------------------
// Attempts that failed
// ---------------------------------------------------------------------------

/// An attempt that got no response.
pub struct FailedAttemptRecordInput {
    pub attempt_id: String,
    pub attempt_number: u32,
    pub request_id: String,
    pub started_at_unix_ms: u64,
    pub finished_at_unix_ms: u64,
    pub error_type: &'static str,
    pub error_reason: String,
    pub request_metadata: Metadata,
    pub extra_response_metadata: Metadata,
}

/// The record of an attempt that got no response.
pub open spec fn failed_record(input: FailedAttemptRecordInput) -> AttemptRecordModel {
    AttemptRecordModel {
        attempt_id: input.attempt_id@,
        request_id: input.request_id@,
        attempt_number: input.attempt_number,
        started_at_unix_ms: input.started_at_unix_ms,
        finished_at_unix_ms: Some(input.finished_at_unix_ms),
        upstream_mode: UpstreamMode::NotApplicable,
        status: AttemptStatus::Failed,
        http_status: None,
        error_reason: Some(input.error_type@ + ": "@ + input.error_reason@),
        retry_reason: None,
        abort_reason: None,
        token_usage: no_usage(),
        request_metadata: input.request_metadata@,
        response_metadata: failed_response_bindings(
            input.started_at_unix_ms,
            input.finished_at_unix_ms,
            input.error_type@,
        ).union_prefer_right(input.extra_response_metadata@),
        raw_payloads: no_payloads(),
    }
}

/// Records an attempt that got no response.
pub fn failed_attempt_record(input: FailedAttemptRecordInput) -> (record: AttemptRecord)
    ensures
        record@ == failed_record(input),
{
    let mut response = failed_response_metadata(
        input.started_at_unix_ms,
        input.finished_at_unix_ms,
        input.error_type,
    );
    response.extend(&input.extra_response_metadata);
    let mut reason = joined(input.error_type, ": ");
    reason.append(input.error_reason.as_str());
    AttemptRecord {
        attempt_id: input.attempt_id,
        request_id: input.request_id,
        attempt_number: input.attempt_number,
        started_at_unix_ms: input.started_at_unix_ms,
        finished_at_unix_ms: Some(input.finished_at_unix_ms),
        upstream_mode: UpstreamMode::NotApplicable,
        status: AttemptStatus::Failed,
        http_status: None,
        error_reason: Some(reason),
        retry_reason: None,
        abort_reason: None,
        token_usage: TokenUsage::default(),
        request_metadata: input.request_metadata,
        response_metadata: response,
        raw_payloads: RawPayloads::none(),
    }
}

/// A response whose body has not been read yet.
pub struct ForwardedResponseParts {
    pub request_id: String,
    pub started_at_unix_ms: u64,
    pub attempt_id: String,
    pub attempt_number: u32,
    pub attempt_max_attempts: u32,
    pub attempt_started_at_unix_ms: u64,
    pub upstream_mode: UpstreamMode,
    pub model_id: Option<String>,
    pub input_fingerprint: Option<String>,
    pub upstream_status: u16,
    pub upstream_headers: Headers,
    pub request_metadata: Metadata,
    pub attempt_request_metadata: Metadata,
    pub completed_attempt_records: Vec<AttemptRecord>,
}

impl Clone for ForwardedResponseParts {
    fn clone(&self) -> (copy: ForwardedResponseParts)
        ensures
            copy.upstream_headers@ == self.upstream_headers@,
            copy.request_metadata@ == self.request_metadata@,
            copy.attempt_request_metadata@ == self.attempt_request_metadata@,
            record_models(copy.completed_attempt_records@) == record_models(
                self.completed_attempt_records@,
            ),
            copy == (ForwardedResponseParts {
                upstream_headers: copy.upstream_headers,
                request_metadata: copy.request_metadata,
                attempt_request_metadata: copy.attempt_request_metadata,
                completed_attempt_records: copy.completed_attempt_records,
                ..*self
            }),
    {
        ForwardedResponseParts {
            request_id: self.request_id.clone(),
            started_at_unix_ms: self.started_at_unix_ms,
            attempt_id: self.attempt_id.clone(),
            attempt_number: self.attempt_number,
            attempt_max_attempts: self.attempt_max_attempts,
            attempt_started_at_unix_ms: self.attempt_started_at_unix_ms,
            upstream_mode: self.upstream_mode,
            model_id: clone_opt(&self.model_id),
            input_fingerprint: clone_opt(&self.input_fingerprint),
            upstream_status: self.upstream_status,
            upstream_headers: self.upstream_headers.clone(),
            request_metadata: self.request_metadata.clone(),
            attempt_request_metadata: self.attempt_request_metadata.clone(),
            completed_attempt_records: clone_records(&self.completed_attempt_records),
        }
    }
}

/// The record of an attempt whose response could not be read.
pub open spec fn unread_record(
    parts: ForwardedResponseParts,
    kind: ErrorKind,
    extra: Bindings,
    finished_at_unix_ms: u64,
) -> AttemptRecordModel {
    AttemptRecordModel {
        attempt_id: parts.attempt_id@,
        request_id: parts.request_id@,
        attempt_number: parts.attempt_number,
        started_at_unix_ms: parts.attempt_started_at_unix_ms,
        finished_at_unix_ms: Some(finished_at_unix_ms),
        upstream_mode: UpstreamMode::NotApplicable,
        status: AttemptStatus::Failed,
        http_status: None,
        error_reason: Some(kind.type_text() + ": "@ + kind.message_text()),
        retry_reason: None,
        abort_reason: None,
        token_usage: no_usage(),
        request_metadata: parts.attempt_request_metadata@,
        response_metadata: failed_response_bindings(
            parts.attempt_started_at_unix_ms,
            finished_at_unix_ms,
            kind.type_text(),
        ).union_prefer_right(extra),
        raw_payloads: no_payloads(),
    }
}

/// The error of a response whose body could not be read.
pub open spec fn unread_error(
    parts: ForwardedResponseParts,
    error: ProxyError,
    extra: Bindings,
    finished_at_unix_ms: u64,
) -> ProxyErrorModel {
    with_earlier_attempts(
        with_attempt(
            error@,
            parts.request_metadata@,
            unread_record(parts, error.kind, extra, finished_at_unix_ms),
        ),
        record_models(parts.completed_attempt_records@),
    )
}

/// The record of an attempt whose response was read and could not be processed.
pub open spec fn unprocessed_record(
    parts: ForwardedResponseParts,
    kind: ErrorKind,
    extra: Bindings,
    finished_at_unix_ms: u64,
) -> AttemptRecordModel {
    let unread = unread_record(
        parts,
        kind,
        extra.insert("response_process_error"@, "true"@),
        finished_at_unix_ms,
    );
    AttemptRecordModel {
        http_status: Some(parts.upstream_status),
        upstream_mode: parts.upstream_mode,
        response_metadata: with_selected_headers(
            unread.response_metadata.insert("upstream_response_received"@, "true"@).insert(
                "http_status_success"@,
                bool_chars(is_success(parts.upstream_status)),
            ),
            parts.upstream_headers@,
            "response"@,
        ),
        ..unread
    }
}

impl ForwardedResponseParts {
    /// Adds to an error what is recorded of a response whose body could not be
    /// read.
    pub fn into_body_read_error_with_metadata(
        self,
        error: ProxyError,
        extra_response_metadata: Metadata,
        finished_at_unix_ms: u64,
    ) -> (told: ProxyError)
        ensures
            told@ == unread_error(self, error, extra_response_metadata@, finished_at_unix_ms),
    {
        let record = failed_attempt_record(
            FailedAttemptRecordInput {
                attempt_id: self.attempt_id,
                attempt_number: self.attempt_number,
                request_id: self.request_id,
                started_at_unix_ms: self.attempt_started_at_unix_ms,
                finished_at_unix_ms,
                error_type: error.error_type(),
                error_reason: error.message(),
                request_metadata: self.attempt_request_metadata,
                extra_response_metadata,
            },
        );
        error.with_observability(
            self.request_metadata,
            record,
        ).with_completed_attempt_records(self.completed_attempt_records)
    }

    /// Adds to an error what is recorded of a response that was read and could
    /// not be processed: its status is known.
    pub fn into_response_process_error(
        self,
        error: ProxyError,
        extra_response_metadata: Metadata,
        finished_at_unix_ms: u64,
    ) -> (told: ProxyError)
        ensures
            told@ == with_earlier_attempts(
                with_attempt(
                    error@,
                    self.request_metadata@,
                    unprocessed_record(
                        self,
                        error.kind,
                        extra_response_metadata@,
                        finished_at_unix_ms,
                    ),
                ),
                record_models(self.completed_attempt_records@),
            ),
    {
        let mut extra = extra_response_metadata;
        extra.set("response_process_error", "true");
        let mut record = failed_attempt_record(
            FailedAttemptRecordInput {
                attempt_id: self.attempt_id,
                attempt_number: self.attempt_number,
                request_id: self.request_id,
                started_at_unix_ms: self.attempt_started_at_unix_ms,
                finished_at_unix_ms,
                error_type: error.error_type(),
                error_reason: error.message(),
                request_metadata: self.attempt_request_metadata,
                extra_response_metadata: extra,
            },
        );
        record.http_status = Some(self.upstream_status);
        record.upstream_mode = self.upstream_mode;
        record.response_metadata.set("upstream_response_received", "true");
        record.response_metadata.set_bool(
            "http_status_success",
            status_is_success(self.upstream_status),
        );
        copy_selected_header_metadata(
            &mut record.response_metadata,
            &self.upstream_headers,
            "response",
        );
        error.with_observability(
            self.request_metadata,
            record,
        ).with_completed_attempt_records(self.completed_attempt_records)
    }
}

// ---------------------------------------------------------------------------
// Bodies that ended
// ---------------------------------------------------------------------------

/// The last attempt of a request, whose response goes to the client.
pub struct FinalAttemptContext {
    pub attempt_id: String,
    pub attempt_number: u32,
    pub attempt_max_attempts: u32,
    pub started_at_unix_ms: u64,
    pub upstream_mode: UpstreamMode,
    pub upstream_status: u16,
    pub upstream_headers: Headers,
    pub request_metadata: Metadata,
    pub extra_response_metadata: Metadata,
    pub raw_payloads: RawPayloads,
    pub response_body: Vec<u8>,
    pub sse_body: Vec<u8>,
}

impl ShieldedAttemptInfo {
    /// The attempt as the last of its request.
    pub fn into_final_context(
        self,
        extra_response_metadata: Metadata,
        raw_payloads: RawPayloads,
        response_body: Vec<u8>,
        sse_body: Vec<u8>,
    ) -> (attempt: FinalAttemptContext)
        ensures
            attempt.attempt_id == self.attempt_id,
            attempt.attempt_number == self.attempt_number,
            attempt.attempt_max_attempts == self.attempt_max_attempts,
            attempt.started_at_unix_ms == self.started_at_unix_ms,
            attempt.upstream_mode == self.upstream_mode,
            attempt.upstream_status == self.upstream_status,
            attempt.upstream_headers == self.upstream_headers,
            attempt.request_metadata == self.request_metadata,
            attempt.extra_response_metadata == extra_response_metadata,
            attempt.raw_payloads@ == with_input(raw_payloads@, opt_chars(self.raw_request_body)),
            attempt.response_body == response_body,
            attempt.sse_body == sse_body,
    {
        FinalAttemptContext {
            attempt_id: self.attempt_id,
            attempt_number: self.attempt_number,
            attempt_max_attempts: self.attempt_max_attempts,
            started_at_unix_ms: self.started_at_unix_ms,
            upstream_mode: self.upstream_mode,
            upstream_status: self.upstream_status,
            upstream_headers: self.upstream_headers,
            request_metadata: self.request_metadata,
            extra_response_metadata,
            raw_payloads: raw_payloads.or_input(self.raw_request_body),
            response_body,
            sse_body,
        }
    }
}

/// The metadata recorded on the last attempt of a request.
pub open spec fn final_attempt_bindings(
    attempt: FinalAttemptContext,
    finished_at_unix_ms: u64,
    body_bytes: u64,
    completion: BodyCompletion,
) -> Bindings {
    let base = with_attempt_request(
        response_bindings(
            attempt.upstream_status,
            attempt.upstream_headers@,
            body_bytes,
            elapsed(finished_at_unix_ms, attempt.started_at_unix_ms),
        ).union_prefer_right(attempt.extra_response_metadata@),
        attempt.request_metadata@,
    ).insert("attempt_number"@, decimal(attempt.attempt_number as nat)).insert(
        "attempt_max_attempts"@,
        decimal(attempt.attempt_max_attempts as nat),
    ).insert("attempt_outcome"@, completion.attempt_outcome().label()).insert(
        "attempt_terminal_reason"@,
        completion.metadata_text(),
    );
    if completion is FinalDirectRelayTerminated {
        base.insert("final_direct_relay_terminated"@, "true"@).insert(
            "request_deadline_exhausted"@,
            "true"@,
        )
    } else {
        base
    }
}

/// The record of the last attempt of a request. The token counts come from
/// `response_body` where the attempt kept no body of its own.
pub open spec fn final_record(
    attempt: FinalAttemptContext,
    request_id: Seq<char>,
    finished_at_unix_ms: u64,
    body_bytes: u64,
    completion: BodyCompletion,
    response_body: Seq<u8>,
) -> AttemptRecordModel {
    AttemptRecordModel {
        attempt_id: attempt.attempt_id@,
        request_id,
        attempt_number: attempt.attempt_number,
        started_at_unix_ms: attempt.started_at_unix_ms,
        finished_at_unix_ms: Some(finished_at_unix_ms),
        upstream_mode: attempt.upstream_mode,
        status: completion.attempt_outcome(),
        http_status: Some(attempt.upstream_status),
        error_reason: completion.error_text(),
        retry_reason: None,
        abort_reason: completion.abort_text(),
        token_usage: response_usage(
            if attempt.response_body@.len() == 0 {
                response_body
            } else {
                attempt.response_body@
            },
            attempt.sse_body@,
        ),
        request_metadata: attempt.request_metadata@,
        response_metadata: final_attempt_bindings(
            attempt,
            finished_at_unix_ms,
            body_bytes,
            completion,
        ),
        raw_payloads: attempt.raw_payloads@,
    }
}

/// Records the last attempt of a request.
pub fn final_attempt_record(
    attempt: FinalAttemptContext,
    request_id: &str,
    finished_at_unix_ms: u64,
    body_bytes: u64,
    completion: &BodyCompletion,
    response_body: &Vec<u8>,
) -> (record: AttemptRecord)
    ensures
        record@ == final_record(
            attempt,
            request_id@,
            finished_at_unix_ms,
            body_bytes,
            *completion,
            response_body@,
        ),
{
    let mut response = response_metadata(
        attempt.upstream_status,
        &attempt.upstream_headers,
        body_bytes,
        finished_at_unix_ms.saturating_sub(attempt.started_at_unix_ms),
    );
    response.extend(&attempt.extra_response_metadata);
    copy_attempt_request_metadata(&mut response, &attempt.request_metadata);
    response.set_number("attempt_number", attempt.attempt_number as u64);
    response.set_number("attempt_max_attempts", attempt.attempt_max_attempts as u64);
    response.set("attempt_outcome", completion.attempt_status().as_str());
    response.set("attempt_terminal_reason", completion.metadata_reason());
    match completion {
        BodyCompletion::FinalDirectRelayTerminated => {
            response.set("final_direct_relay_terminated", "true");
            response.set("request_deadline_exhausted", "true");
        },
        _ => {},
    }
    let token_usage = if attempt.response_body.len() == 0 {
        parse_token_usage(response_body.as_slice(), attempt.sse_body.as_slice())
    } else {
        parse_token_usage(attempt.response_body.as_slice(), attempt.sse_body.as_slice())
    };
    AttemptRecord {
        attempt_id: attempt.attempt_id,
        request_id: request_id.to_owned(),
        attempt_number: attempt.attempt_number,
        started_at_unix_ms: attempt.started_at_unix_ms,
        finished_at_unix_ms: Some(finished_at_unix_ms),
        upstream_mode: attempt.upstream_mode,
        status: completion.attempt_status(),
        http_status: Some(attempt.upstream_status),
        error_reason: completion.error_reason(),
        retry_reason: None,
        abort_reason: completion.abort_reason(),
        token_usage,
        request_metadata: attempt.request_metadata,
        response_metadata: response,
        raw_payloads: attempt.raw_payloads,
    }
}

/// A response body that is observed until it ends.
pub struct ForwardedBodyObserver {
    pub request_id: String,
    pub started_at_unix_ms: u64,
    pub downstream_mode: DownstreamMode,
    pub upstream_mode: UpstreamMode,
    pub model_id: Option<String>,
    pub input_fingerprint: Option<String>,
    pub downstream_status: u16,
    pub downstream_headers: Headers,
    pub request_metadata: Metadata,
    pub extra_response_metadata: Metadata,
    pub raw_payloads: RawPayloads,
    pub completed_attempt_records: Vec<AttemptRecord>,
    pub final_attempt: Option<FinalAttemptContext>,
    /// The policy of a request that was retried.
    pub retry_policy: Option<ShieldedRetryPolicy>,
}

/// Whether an observer tells of a response, and of the attempt that brought it,
/// what it should.
pub open spec fn observes_parts(
    observer: ForwardedBodyObserver,
    parts: ForwardedResponseParts,
    downstream_mode: DownstreamMode,
    downstream_headers: Seq<HeaderModel>,
    attempt_metadata: Bindings,
    extra_metadata: Bindings,
    raw_payloads: RawPayloadsModel,
) -> bool {
    &&& observer.request_id@ == parts.request_id@
    &&& observer.started_at_unix_ms == parts.started_at_unix_ms
    &&& observer.downstream_mode == downstream_mode
    &&& observer.upstream_mode == parts.upstream_mode
    &&& observer.model_id == parts.model_id
    &&& observer.input_fingerprint == parts.input_fingerprint
    &&& observer.downstream_status == parts.upstream_status
    &&& observer.downstream_headers@ == downstream_headers
    &&& observer.request_metadata@ == parts.request_metadata@
    &&& observer.extra_response_metadata@ == extra_metadata
    &&& observer.raw_payloads@ == raw_payloads
    &&& record_models(observer.completed_attempt_records@) == record_models(
        parts.completed_attempt_records@,
    )
    &&& observer.retry_policy is None
    &&& match observer.final_attempt {
        Some(attempt) => {
            &&& attempt.attempt_id@ == parts.attempt_id@
            &&& attempt.attempt_number == parts.attempt_number
            &&& attempt.attempt_max_attempts == parts.attempt_max_attempts
            &&& attempt.started_at_unix_ms == parts.attempt_started_at_unix_ms
            &&& attempt.upstream_mode == parts.upstream_mode
            &&& attempt.upstream_status == parts.upstream_status
            &&& attempt.upstream_headers@ == parts.upstream_headers@
            &&& attempt.request_metadata@ == parts.attempt_request_metadata@
            &&& attempt.extra_response_metadata@ == attempt_metadata
            &&& attempt.raw_payloads@ == raw_payloads
            &&& attempt.response_body@.len() == 0
            &&& attempt.sse_body@.len() == 0
        },
        None => false,
    }
}

impl ForwardedResponseParts {
    /// Observes the body of a response that is handed on as it is.
    pub fn into_observer(self) -> (observer: ForwardedBodyObserver)
        ensures
            observes_parts(
                observer,
                self,
                downstream_mode_of(self.upstream_headers@),
                self.upstream_headers@,
                Bindings::empty(),
                Bindings::empty(),
                no_payloads(),
            ),
    {
        let downstream_mode = downstream_mode_from_headers(&self.upstream_headers);
        let downstream_headers = self.upstream_headers.clone();
        self.into_observer_with(
            downstream_mode,
            downstream_headers,
            Metadata::new(),
            Metadata::new(),
            RawPayloads::none(),
        )
    }

    /// Observes the body of a response.
    pub fn into_observer_with(
        self,
        downstream_mode: DownstreamMode,
        downstream_headers: Headers,
        attempt_response_metadata: Metadata,
        extra_response_metadata: Metadata,
        raw_payloads: RawPayloads,
    ) -> (observer: ForwardedBodyObserver)
        ensures
            observes_parts(
                observer,
                self,
                downstream_mode,
                downstream_headers@,
                attempt_response_metadata@,
                extra_response_metadata@,
                raw_payloads@,
            ),
    {
        let final_attempt = FinalAttemptContext {
            attempt_id: self.attempt_id,
            attempt_number: self.attempt_number,
            attempt_max_attempts: self.attempt_max_attempts,
            started_at_unix_ms: self.attempt_started_at_unix_ms,
            upstream_mode: self.upstream_mode,
            upstream_status: self.upstream_status,
            upstream_headers: self.upstream_headers,
            request_metadata: self.attempt_request_metadata,
            extra_response_metadata: attempt_response_metadata,
            raw_payloads: raw_payloads.clone(),
            response_body: Vec::new(),
            sse_body: Vec::new(),
        };
        ForwardedBodyObserver {
            request_id: self.request_id,
            started_at_unix_ms: self.started_at_unix_ms,
            downstream_mode,
            upstream_mode: self.upstream_mode,
            model_id: self.model_id,
            input_fingerprint: self.input_fingerprint,
            downstream_status: self.upstream_status,
            downstream_headers,
            request_metadata: self.request_metadata,
            extra_response_metadata,
            raw_payloads,
            completed_attempt_records: self.completed_attempt_records,
            final_attempt: Some(final_attempt),
            retry_policy: None,
        }
    }
}

/// How far a request had got whose body was cut off.
pub struct ShieldedAttemptProgress {
    /// What is recorded of the response, whatever attempt is under way.
    pub extra_response_metadata: Metadata,
    pub completed_attempt_records: Vec<AttemptRecord>,
    pub current_attempt: Option<FinalAttemptContext>,
}

/// Whether a body that ended so is told of by how far its request had got.
pub open spec fn uses_progress(completion: BodyCompletion) -> bool {
    completion is DownstreamDropped || completion is Shutdown
}

/// The attempts of a request whose body has ended.
pub open spec fn ended_attempts(
    observer: ForwardedBodyObserver,
    progress: Option<ShieldedAttemptProgress>,
    finished_at_unix_ms: u64,
    body_bytes: u64,
    completion: BodyCompletion,
    response_body: Seq<u8>,
) -> Seq<AttemptRecordModel> {
    let (records, last) = match progress {
        Some(progress) if uses_progress(completion) => (
            record_models(progress.completed_attempt_records@),
            progress.current_attempt,
        ),
        _ => (record_models(observer.completed_attempt_records@), observer.final_attempt),
    };
    match last {
        Some(attempt) => records.push(
            final_record(
                attempt,
                observer.request_id@,
                finished_at_unix_ms,
                body_bytes,
                completion,
                response_body,
            ),
        ),
        None => records,
    }
}

/// How the upstream answered a request whose body has ended.
pub open spec fn ended_upstream_mode(
    observer: ForwardedBodyObserver,
    progress: Option<ShieldedAttemptProgress>,
    completion: BodyCompletion,
) -> UpstreamMode {
    let last = match progress {
        Some(progress) if uses_progress(completion) => progress.current_attempt,
        _ => observer.final_attempt,
    };
    match last {
        Some(attempt) => attempt.upstream_mode,
        None => observer.upstream_mode,
    }
}

/// The metadata of the response of a request whose body has ended.
pub open spec fn ended_bindings(
    observer: ForwardedBodyObserver,
    attempts: Seq<AttemptRecordModel>,
    finished_at_unix_ms: u64,
    body_bytes: u64,
    completion: BodyCompletion,
) -> Bindings {
    let base = response_bindings(
        observer.downstream_status,
        observer.downstream_headers@,
        body_bytes,
        elapsed(finished_at_unix_ms, observer.started_at_unix_ms),
    ).union_prefer_right(observer.extra_response_metadata@);
    match observer.retry_policy {
        Some(policy) => {
            let chained = base.union_prefer_right(
                chain_bindings(attempts, policy, completion.request_outcome().label()),
            );
            if chained.contains_key("shielded_terminal_reason"@) {
                chained
            } else {
                chained.insert("shielded_terminal_reason"@, completion.metadata_text())
            }
        },
        None => base,
    }
}

/// The record of a request whose body has ended.
pub open spec fn ended_request(
    observer: ForwardedBodyObserver,
    progress: Option<ShieldedAttemptProgress>,
    finished_at_unix_ms: u64,
    body_bytes: u64,
    completion: BodyCompletion,
    response_body: Seq<u8>,
) -> RequestRecordModel {
    RequestRecordModel {
        request_id: observer.request_id@,
        started_at_unix_ms: observer.started_at_unix_ms,
        finished_at_unix_ms: Some(finished_at_unix_ms),
        downstream_mode: observer.downstream_mode,
        upstream_mode: ended_upstream_mode(observer, progress, completion),
        model_id: opt_chars(observer.model_id),
        input_fingerprint: opt_chars(observer.input_fingerprint),
        status: completion.request_outcome(),
        http_status: Some(observer.downstream_status),
        error_reason: completion.error_text(),
        abort_reason: completion.abort_text(),
        request_metadata: observer.request_metadata@,
        response_metadata: ended_bindings(
            observer,
            ended_attempts(
                observer,
                progress,
                finished_at_unix_ms,
                body_bytes,
                completion,
                response_body,
            ),
            finished_at_unix_ms,
            body_bytes,
            completion,
        ),
        raw_payloads: observer.raw_payloads@,
    }
}

/// The events of the last attempt of a request whose body has ended.
pub open spec fn ended_events(
    observer: ForwardedBodyObserver,
    progress: Option<ShieldedAttemptProgress>,
    completion: BodyCompletion,
) -> Seq<u8> {
    let last = match progress {
        Some(progress) if uses_progress(completion) => progress.current_attempt,
        _ => observer.final_attempt,
    };
    match last {
        Some(attempt) => attempt.sse_body@,
        None => Seq::empty(),
    }
}

impl ForwardedBodyObserver {
    /// The events of the last attempt of a request whose body has ended.
    pub fn ended_events(
        &self,
        progress: &Option<ShieldedAttemptProgress>,
        completion: &BodyCompletion,
    ) -> (events: Vec<u8>)
        ensures
            events@ == ended_events(*self, *progress, *completion),
    {
        let cut_off = match completion {
            BodyCompletion::DownstreamDropped | BodyCompletion::Shutdown => true,
            _ => false,
        };
        let last = match progress {
            Some(progress) => {
                if cut_off {
                    &progress.current_attempt
                } else {
                    &self.final_attempt
                }
            },
            None => &self.final_attempt,
        };
        match last {
            Some(attempt) => clone_bytes(&attempt.sse_body),
            None => Vec::new(),
        }
    }

    /// Records a request whose body has ended, and its attempts.
    pub fn record(
        self,
        progress: Option<ShieldedAttemptProgress>,
        finished_at_unix_ms: u64,
        body_bytes: u64,
        completion: &BodyCompletion,
        response_body: &Vec<u8>,
    ) -> (recorded: (RequestRecord, Vec<AttemptRecord>))
        ensures
            recorded.0@ == ended_request(
                self,
                progress,
                finished_at_unix_ms,
                body_bytes,
                *completion,
                response_body@,
            ),
            record_models(recorded.1@) == ended_attempts(
                self,
                progress,
                finished_at_unix_ms,
                body_bytes,
                *completion,
                response_body@,
            ),
    {
        let cut_off = match completion {
            BodyCompletion::DownstreamDropped | BodyCompletion::Shutdown => true,
            _ => false,
        };
        let (mut attempts, last) = match progress {
            Some(progress) => {
                if cut_off {
                    (progress.completed_attempt_records, progress.current_attempt)
                } else {
                    (self.completed_attempt_records, self.final_attempt)
                }
            },
            None => (self.completed_attempt_records, self.final_attempt),
        };
        let upstream_mode = match &last {
            Some(attempt) => attempt.upstream_mode,
            None => self.upstream_mode,
        };
        match last {
            Some(attempt) => {
                let record = final_attempt_record(
                    attempt,
                    self.request_id.as_str(),
                    finished_at_unix_ms,
                    body_bytes,
                    completion,
                    response_body,
                );
                push_record(&mut attempts, record);
            },
            None => {},
        }
        let mut response = response_metadata(
            self.downstream_status,
            &self.downstream_headers,
            body_bytes,
            finished_at_unix_ms.saturating_sub(self.started_at_unix_ms),
        );
        response.extend(&self.extra_response_metadata);
        match &self.retry_policy {
            Some(policy) => {
                let chain = retry_chain_metadata(
                    &attempts,
                    policy,
                    completion.request_status().as_str(),
                );
                response.extend(&chain);
                if !response.contains_key("shielded_terminal_reason") {
                    response.set("shielded_terminal_reason", completion.metadata_reason());
                }
            },
            None => {},
        }
        let request = RequestRecord {
            request_id: self.request_id,
            started_at_unix_ms: self.started_at_unix_ms,
            finished_at_unix_ms: Some(finished_at_unix_ms),
            downstream_mode: self.downstream_mode,
            upstream_mode,
            model_id: self.model_id,
            input_fingerprint: self.input_fingerprint,
            status: completion.request_status(),
            http_status: Some(self.downstream_status),
            error_reason: completion.error_reason(),
            abort_reason: completion.abort_reason(),
            request_metadata: self.request_metadata,
            response_metadata: response,
            raw_payloads: self.raw_payloads,
        };
        (request, attempts)
    }
}

// ---------------------------------------------------------------------------
// Requests that failed
// ---------------------------------------------------------------------------

/// A request that failed before its response.
pub struct FailedRequestRecord {
    pub request_id: String,
    pub started_at_unix_ms: u64,
    pub finished_at_unix_ms: u64,
    pub status: RequestStatus,
    pub http_status: u16,
    pub error_type: &'static str,
    pub error_reason: String,
    pub abort_reason: Option<&'static str>,
    pub request_metadata: Metadata,
    pub attempts: Vec<AttemptRecord>,
}

/// A request that nothing was answered to.
pub open spec fn unanswered(
    request_id: Seq<char>,
    started_at_unix_ms: u64,
    finished_at_unix_ms: u64,
    error_type: Seq<char>,
    error_reason: Seq<char>,
) -> RequestRecordModel {
    RequestRecordModel {
        request_id,
        started_at_unix_ms,
        finished_at_unix_ms: Some(finished_at_unix_ms),
        downstream_mode: DownstreamMode::NonStreamJson,
        upstream_mode: UpstreamMode::NotApplicable,
        model_id: None,
        input_fingerprint: None,
        status: RequestStatus::Failed,
        http_status: None,
        error_reason: Some(error_type + ": "@ + error_reason),
        abort_reason: None,
        request_metadata: Bindings::empty(),
        response_metadata: failed_response_bindings(
            started_at_unix_ms,
            finished_at_unix_ms,
            error_type,
        ),
        raw_payloads: no_payloads(),
    }
}

/// The bindings of a target with what a source says of loops.
pub open spec fn with_loop_bindings(source: Bindings, target: Bindings) -> Bindings {
    target.union_prefer_right(with_prefix(source, "loop_"@))
}

/// Copies what metadata says of loops.
pub fn copy_loop_response_metadata(source: &Metadata, target: &mut Metadata)
    ensures
        final(target)@ == with_loop_bindings(source@, old(target)@),
{
    target.extend_with_prefix(source, "loop_");
}

/// Records a request that failed before its response.
pub fn failed_request_record(failure: &FailedRequestRecord) -> (record: RequestRecord)
    ensures
        ({
            let base = unanswered(
                failure.request_id@,
                failure.started_at_unix_ms,
                failure.finished_at_unix_ms,
                failure.error_type@,
                failure.error_reason@,
            );
            record@ == (RequestRecordModel {
                status: failure.status,
                http_status: Some(failure.http_status),
                abort_reason: opt_str_chars(failure.abort_reason),
                request_metadata: failure.request_metadata@,
                response_metadata: if failure.attempts.len() > 0 {
                    with_loop_bindings(
                        failure.attempts@.last().response_metadata@,
                        base.response_metadata,
                    )
                } else {
                    base.response_metadata
                },
                ..base
            })
        }),
{
    let mut response = failed_response_metadata(
        failure.started_at_unix_ms,
        failure.finished_at_unix_ms,
        failure.error_type,
    );
    if failure.attempts.len() > 0 {
        let last = &failure.attempts[failure.attempts.len() - 1];
        copy_loop_response_metadata(&last.response_metadata, &mut response);
    }
    let mut reason = joined(failure.error_type, ": ");
    reason.append(failure.error_reason.as_str());
    RequestRecord {
        request_id: failure.request_id.clone(),
        started_at_unix_ms: failure.started_at_unix_ms,
        finished_at_unix_ms: Some(failure.finished_at_unix_ms),
        downstream_mode: DownstreamMode::NonStreamJson,
        upstream_mode: UpstreamMode::NotApplicable,
        model_id: None,
        input_fingerprint: None,
        status: failure.status,
        http_status: Some(failure.http_status),
        error_reason: Some(reason),
        abort_reason: own_opt(failure.abort_reason),
        request_metadata: failure.request_metadata.clone(),
        response_metadata: response,
        raw_payloads: RawPayloads::none(),
    }
}

/// Records a request whose client went away while it waited in the queue.
pub fn queued_cancel_record(
    request_id: String,
    started_at_unix_ms: u64,
    finished_at_unix_ms: u64,
    queue_wait_ms: u64,
    timeout_ms: u64,
    request_metadata: Metadata,
) -> (record: RequestRecord)
    ensures
        ({
            let reason = QueueCancellationReason::DownstreamDisconnected;
            let base = unanswered(
                request_id@,
                started_at_unix_ms,
                finished_at_unix_ms,
                "proxy_generation_queue_cancelled"@,
                reason.abort_text(),
            );
            record@ == (RequestRecordModel {
                status: RequestStatus::Aborted,
                abort_reason: Some(reason.abort_text()),
                request_metadata: request_metadata@.union_prefer_right(
                    cancelled_bindings(
                        QueuedAdmissionCancellation {
                            reason,
                            queue_wait_ms,
                            generation_queue_timeout_ms: timeout_ms,
                        },
                    ),
                ),
                response_metadata: base.response_metadata.insert(
                    "abort_reason"@,
                    reason.abort_text(),
                ),
                ..base
            })
        }),
{
    let reason = QueueCancellationReason::DownstreamDisconnected;
    let mut metadata = request_metadata;
    let cancelled = cancelled_admission_metadata(
        QueuedAdmissionCancellation {
            reason,
            queue_wait_ms,
            generation_queue_timeout_ms: timeout_ms,
        },
    );
    metadata.extend(&cancelled);
    let mut response = failed_response_metadata(
        started_at_unix_ms,
        finished_at_unix_ms,
        "proxy_generation_queue_cancelled",
    );
    response.set("abort_reason", reason.abort_reason());
    let mut error_reason = "proxy_generation_queue_cancelled".to_owned();
    error_reason.append(": ");
    error_reason.append(reason.abort_reason());
    RequestRecord {
        request_id,
        started_at_unix_ms,
        finished_at_unix_ms: Some(finished_at_unix_ms),
        downstream_mode: DownstreamMode::NonStreamJson,
        upstream_mode: UpstreamMode::NotApplicable,
        model_id: None,
        input_fingerprint: None,
        status: RequestStatus::Aborted,
        http_status: None,
        error_reason: Some(error_reason),
        abort_reason: Some(reason.abort_reason().to_owned()),
        request_metadata: metadata,
        response_metadata: response,
        raw_payloads: RawPayloads::none(),
    }
}

/// The reason in the cleanup log of a failed request.
pub open spec fn failed_terminal_text(status: RequestStatus, abort_reason: Option<Seq<char>>) -> Seq<
    char,
> {
    match status {
        RequestStatus::Aborted => if abort_reason == Some("server_shutdown"@) || abort_reason
            == Some("server_shutdown_while_queued"@) {
            "server_shutdown"@
        } else if abort_reason == Some("downstream_body_dropped_before_eof"@) || abort_reason
            == Some("downstream_disconnected_while_queued"@) {
            "downstream_disconnect"@
        } else {
            "aborted"@
        },
        RequestStatus::Failed => "failed"@,
        RequestStatus::Succeeded => "succeeded"@,
    }
}

/// The reason in the cleanup log of a failed request.
pub fn failed_request_terminal_reason(status: RequestStatus, abort_reason: Option<&str>) -> (reason:
    &'static str)
    ensures
        reason@ == failed_terminal_text(status, opt_str_chars(abort_reason)),
{
    match status {
        RequestStatus::Aborted => {
            match abort_reason {
                Some(abort) => {
                    if same_text(abort, "server_shutdown") || same_text(
                        abort,
                        "server_shutdown_while_queued",
                    ) {
                        return "server_shutdown";
                    }
                    if same_text(abort, "downstream_body_dropped_before_eof") || same_text(
                        abort,
                        "downstream_disconnected_while_queued",
                    ) {
                        return "downstream_disconnect";
                    }
                },
                None => {},
            }
            "aborted"
        },
        RequestStatus::Failed => "failed",
        RequestStatus::Succeeded => "succeeded",
    }
}

/// The line in the cleanup log of a request.
pub open spec fn cleanup_line(
    request: RequestRecordModel,
    terminal_reason: Seq<char>,
    cleanup_latency_ms: u64,
    downstream_mode: Seq<char>,
    upstream_mode: Seq<char>,
    evidence_written: bool,
) -> Seq<char> {
    "llm_guard_proxy_request_cleanup request_id="@ + request.request_id + " status="@
        + request.status.label() + " terminal_reason="@ + terminal_reason
        + " cleanup_latency_ms="@ + decimal(cleanup_latency_ms as nat) + " http_status="@ + decimal(
        match request.http_status {
            Some(status) => status as nat,
            None => 0,
        },
    ) + " downstream_mode="@ + downstream_mode + " upstream_mode="@ + upstream_mode
        + " evidence_written="@ + bool_chars(evidence_written)
}

/// Writes the line in the cleanup log of a request, with the given labels for its
/// modes.
pub fn request_cleanup_log_line(
    request: &RequestRecord,
    terminal_reason: &str,
    cleanup_latency_ms: u64,
    downstream_mode: &str,
    upstream_mode: &str,
    evidence_written: bool,
) -> (line: String)
    ensures
        line@ == cleanup_line(
            request@,
            terminal_reason@,
            cleanup_latency_ms,
            downstream_mode@,
            upstream_mode@,
            evidence_written,
        ),
{
    let mut line = "llm_guard_proxy_request_cleanup request_id=".to_owned();
    line.append(request.request_id.as_str());
    line.append(" status=");
    line.append(request.status.as_str());
    line.append(" terminal_reason=");
    line.append(terminal_reason);
    line.append(" cleanup_latency_ms=");
    line.append(decimal_text(cleanup_latency_ms).as_str());
    line.append(" http_status=");
    let http_status: u64 = match request.http_status {
        Some(status) => status as u64,
        None => 0,
    };
    line.append(decimal_text(http_status).as_str());
    line.append(" downstream_mode=");
    line.append(downstream_mode);
    line.append(" upstream_mode=");
    line.append(upstream_mode);
    line.append(" evidence_written=");
    line.append(crate::text::bool_text(evidence_written).as_str());
    line
}

/// A request that ended is recorded as it was: its name, its times, its modes, and how
/// it ended.
pub proof fn ended_requests_are_recorded(
    observer: ForwardedBodyObserver,
    progress: Option<ShieldedAttemptProgress>,
    finished_at_unix_ms: u64,
    body_bytes: u64,
    completion: BodyCompletion,
    response_body: Seq<u8>,
)
    ensures
        ({
            let record = ended_request(
                observer,
                progress,
                finished_at_unix_ms,
                body_bytes,
                completion,
                response_body,
            );
            &&& record.request_id == observer.request_id@
            &&& record.started_at_unix_ms == observer.started_at_unix_ms
            &&& record.finished_at_unix_ms == Some(finished_at_unix_ms)
            &&& record.downstream_mode == observer.downstream_mode
            &&& record.model_id == opt_chars(observer.model_id)
            &&& record.input_fingerprint == opt_chars(observer.input_fingerprint)
            &&& record.status == completion.request_outcome()
            &&& record.http_status == Some(observer.downstream_status)
            &&& record.error_reason == completion.error_text()
            &&& record.abort_reason == completion.abort_text()
            &&& record.request_metadata == observer.request_metadata@
            &&& record.raw_payloads == observer.raw_payloads@
            &&& completion is Succeeded ==> record.status is Succeeded
            &&& completion is Shutdown || completion is DownstreamDropped ==> record.status
                is Aborted
        }),
{
}

/// The last attempt of a request that ended is recorded after those before it, with its
/// own number, times, status and usage. Where the client or the proxy went away, the
/// attempt that was under way is the last.
pub proof fn last_attempts_are_recorded(
    observer: ForwardedBodyObserver,
    progress: ShieldedAttemptProgress,
    attempt: FinalAttemptContext,
    finished_at_unix_ms: u64,
    body_bytes: u64,
    completion: BodyCompletion,
    response_body: Seq<u8>,
)
    ensures
        ({
            let attempts = ended_attempts(
                observer,
                None,
                finished_at_unix_ms,
                body_bytes,
                completion,
                response_body,
            );
            observer.final_attempt == Some(attempt) ==> {
                &&& attempts.len() == observer.completed_attempt_records@.len() + 1
                &&& attempts.drop_last() == record_models(observer.completed_attempt_records@)
                &&& attempts.last().attempt_id == attempt.attempt_id@
                &&& attempts.last().attempt_number == attempt.attempt_number
                &&& attempts.last().request_id == observer.request_id@
                &&& attempts.last().started_at_unix_ms == attempt.started_at_unix_ms
                &&& attempts.last().finished_at_unix_ms == Some(finished_at_unix_ms)
                &&& attempts.last().http_status == Some(attempt.upstream_status)
                &&& attempts.last().status == completion.attempt_outcome()
                &&& attempts.last().retry_reason is None
                &&& attempts.last().raw_payloads == attempt.raw_payloads@
                &&& attempt.response_body@.len() > 0 ==> attempts.last().token_usage
                    == response_usage(attempt.response_body@, attempt.sse_body@)
                &&& attempt.response_body@.len() == 0 ==> attempts.last().token_usage
                    == response_usage(response_body, attempt.sse_body@)
            }
        }),
        ({
            let attempts = ended_attempts(
                observer,
                Some(progress),
                finished_at_unix_ms,
                body_bytes,
                completion,
                response_body,
            );
            (completion is Shutdown || completion is DownstreamDropped) && progress.current_attempt
                == Some(attempt) ==> attempts.len() == progress.completed_attempt_records@.len() + 1
                && attempts.last().attempt_id == attempt.attempt_id@ && attempts.drop_last()
                == record_models(progress.completed_attempt_records@)
        }),
{
    let attempts = ended_attempts(
        observer,
        None,
        finished_at_unix_ms,
        body_bytes,
        completion,
        response_body,
    );
    if observer.final_attempt is Some {
        assert(attempts.drop_last() =~= record_models(observer.completed_attempt_records@));
    }
    let dropped = ended_attempts(
        observer,
        Some(progress),
        finished_at_unix_ms,
        body_bytes,
        completion,
        response_body,
    );
    if (completion is Shutdown || completion is DownstreamDropped) && progress.current_attempt
        is Some {
        assert(dropped.drop_last() =~= record_models(progress.completed_attempt_records@));
    }
}

/// An attempt whose response could not be read or used is recorded as failed, with what
/// is known of it.
pub proof fn unread_responses_are_recorded(
    parts: ForwardedResponseParts,
    kind: ErrorKind,
    extra: Bindings,
    finished_at_unix_ms: u64,
)
    ensures
        ({
            let unread = unread_record(parts, kind, extra, finished_at_unix_ms);
            let unused = unprocessed_record(parts, kind, extra, finished_at_unix_ms);
            &&& unread.attempt_id == parts.attempt_id@ && unused.attempt_id == parts.attempt_id@
            &&& unread.attempt_number == parts.attempt_number && unused.attempt_number
                == parts.attempt_number
            &&& unread.status is Failed && unused.status is Failed
            &&& unread.http_status is None
            &&& unused.http_status == Some(parts.upstream_status)
            &&& unread.error_reason == Some(kind.type_text() + ": "@ + kind.message_text())
            &&& unused.error_reason == unread.error_reason
            &&& unread.started_at_unix_ms == parts.attempt_started_at_unix_ms
            &&& unread.finished_at_unix_ms == Some(finished_at_unix_ms)
            &&& forall|key: Seq<char>| #[trigger]
                extra.contains_key(key) ==> unread.response_metadata[key] == extra[key]
        }),
{
}

/// A request that was aborted ended by the proxy, by its client or by neither.
pub proof fn aborted_requests_are_told_apart(reason: Option<Seq<char>>)
    ensures
        failed_terminal_text(RequestStatus::Failed, reason) == "failed"@,
        failed_terminal_text(RequestStatus::Succeeded, reason) == "succeeded"@,
        reason == Some("server_shutdown"@) || reason == Some("server_shutdown_while_queued"@)
            ==> failed_terminal_text(RequestStatus::Aborted, reason) == "server_shutdown"@,
        failed_terminal_text(
            RequestStatus::Aborted,
            Some("downstream_disconnected_while_queued"@),
        ) == "downstream_disconnect"@,
        failed_terminal_text(
            RequestStatus::Aborted,
            Some("downstream_body_dropped_before_eof"@),
        ) == "downstream_disconnect"@,
        failed_terminal_text(RequestStatus::Aborted, None) == "aborted"@,
{
    reveal_strlit("server_shutdown");
    reveal_strlit("server_shutdown_while_queued");
    reveal_strlit("downstream_disconnected_while_queued");
    reveal_strlit("downstream_body_dropped_before_eof");
    assert("server_shutdown"@.len() == 15);
    assert("server_shutdown_while_queued"@.len() == 28);
    assert("downstream_disconnected_while_queued"@.len() == 36);
    assert("downstream_body_dropped_before_eof"@.len() == 34);
}

/// The line of a request that was cleaned up says each thing under its name.
pub proof fn cleanups_are_logged(
    request: RequestRecordModel,
    reason: Seq<char>,
    latency_ms: u64,
    downstream: Seq<char>,
    upstream: Seq<char>,
    written: bool,
)
    ensures
        ({
            let told = cleanup_line(request, reason, latency_ms, downstream, upstream, written);
            &&& crate::text::has_part(told, "llm_guard_proxy_request_cleanup request_id="@ + request.request_id)
            &&& crate::text::has_part(told, " status="@ + request.status.label())
            &&& crate::text::has_part(told, " terminal_reason="@ + reason)
            &&& crate::text::has_part(told, " cleanup_latency_ms="@ + decimal(latency_ms as nat))
            &&& crate::text::has_part(told, " http_status="@ + decimal(
                match request.http_status {
                    Some(status) => status as nat,
                    None => 0,
                },
            ))
            &&& crate::text::has_part(told, " downstream_mode="@ + downstream)
            &&& crate::text::has_part(told, " upstream_mode="@ + upstream)
            &&& crate::text::has_part(told, " evidence_written="@ + bool_chars(written))
        }),
{
    let t0 = "llm_guard_proxy_request_cleanup request_id="@ + request.request_id;
    crate::text::parts_are_found_at_the_end(Seq::<char>::empty(), "llm_guard_proxy_request_cleanup request_id="@, request.request_id);
    assert(Seq::<char>::empty() + "llm_guard_proxy_request_cleanup request_id="@ + request.request_id =~= t0);
    let t1 = t0 + " status="@ + request.status.label();
    crate::text::parts_are_found_at_the_end(t0, " status="@, request.status.label());
    crate::text::parts_are_found_in_more(t0, "llm_guard_proxy_request_cleanup request_id="@ + request.request_id, " status="@);
    crate::text::parts_are_found_in_more(t0 + " status="@, "llm_guard_proxy_request_cleanup request_id="@ + request.request_id, request.status.label());
    let t2 = t1 + " terminal_reason="@ + reason;
    crate::text::parts_are_found_at_the_end(t1, " terminal_reason="@, reason);
    crate::text::parts_are_found_in_more(t1, "llm_guard_proxy_request_cleanup request_id="@ + request.request_id, " terminal_reason="@);
    crate::text::parts_are_found_in_more(t1 + " terminal_reason="@, "llm_guard_proxy_request_cleanup request_id="@ + request.request_id, reason);
    crate::text::parts_are_found_in_more(t1, " status="@ + request.status.label(), " terminal_reason="@);
    crate::text::parts_are_found_in_more(t1 + " terminal_reason="@, " status="@ + request.status.label(), reason);
    let t3 = t2 + " cleanup_latency_ms="@ + decimal(latency_ms as nat);
    crate::text::parts_are_found_at_the_end(t2, " cleanup_latency_ms="@, decimal(latency_ms as nat));
    crate::text::parts_are_found_in_more(t2, "llm_guard_proxy_request_cleanup request_id="@ + request.request_id, " cleanup_latency_ms="@);
    crate::text::parts_are_found_in_more(t2 + " cleanup_latency_ms="@, "llm_guard_proxy_request_cleanup request_id="@ + request.request_id, decimal(latency_ms as nat));
    crate::text::parts_are_found_in_more(t2, " status="@ + request.status.label(), " cleanup_latency_ms="@);
    crate::text::parts_are_found_in_more(t2 + " cleanup_latency_ms="@, " status="@ + request.status.label(), decimal(latency_ms as nat));
    crate::text::parts_are_found_in_more(t2, " terminal_reason="@ + reason, " cleanup_latency_ms="@);
    crate::text::parts_are_found_in_more(t2 + " cleanup_latency_ms="@, " terminal_reason="@ + reason, decimal(latency_ms as nat));
    let t4 = t3 + " http_status="@ + decimal(
                match request.http_status {
                    Some(status) => status as nat,
                    None => 0,
                },
            );
    crate::text::parts_are_found_at_the_end(t3, " http_status="@, decimal(
                match request.http_status {
                    Some(status) => status as nat,
                    None => 0,
                },
            ));
    crate::text::parts_are_found_in_more(t3, "llm_guard_proxy_request_cleanup request_id="@ + request.request_id, " http_status="@);
    crate::text::parts_are_found_in_more(t3 + " http_status="@, "llm_guard_proxy_request_cleanup request_id="@ + request.request_id, decimal(
                match request.http_status {
                    Some(status) => status as nat,
                    None => 0,
                },
            ));
    crate::text::parts_are_found_in_more(t3, " status="@ + request.status.label(), " http_status="@);
    crate::text::parts_are_found_in_more(t3 + " http_status="@, " status="@ + request.status.label(), decimal(
                match request.http_status {
                    Some(status) => status as nat,
                    None => 0,
                },
            ));
    crate::text::parts_are_found_in_more(t3, " terminal_reason="@ + reason, " http_status="@);
    crate::text::parts_are_found_in_more(t3 + " http_status="@, " terminal_reason="@ + reason, decimal(
                match request.http_status {
                    Some(status) => status as nat,
                    None => 0,
                },
            ));
    crate::text::parts_are_found_in_more(t3, " cleanup_latency_ms="@ + decimal(latency_ms as nat), " http_status="@);
    crate::text::parts_are_found_in_more(t3 + " http_status="@, " cleanup_latency_ms="@ + decimal(latency_ms as nat), decimal(
                match request.http_status {
                    Some(status) => status as nat,
                    None => 0,
                },
            ));
    let t5 = t4 + " downstream_mode="@ + downstream;
    crate::text::parts_are_found_at_the_end(t4, " downstream_mode="@, downstream);
    crate::text::parts_are_found_in_more(t4, "llm_guard_proxy_request_cleanup request_id="@ + request.request_id, " downstream_mode="@);
    crate::text::parts_are_found_in_more(t4 + " downstream_mode="@, "llm_guard_proxy_request_cleanup request_id="@ + request.request_id, downstream);
    crate::text::parts_are_found_in_more(t4, " status="@ + request.status.label(), " downstream_mode="@);
    crate::text::parts_are_found_in_more(t4 + " downstream_mode="@, " status="@ + request.status.label(), downstream);
    crate::text::parts_are_found_in_more(t4, " terminal_reason="@ + reason, " downstream_mode="@);
    crate::text::parts_are_found_in_more(t4 + " downstream_mode="@, " terminal_reason="@ + reason, downstream);
    crate::text::parts_are_found_in_more(t4, " cleanup_latency_ms="@ + decimal(latency_ms as nat), " downstream_mode="@);
    crate::text::parts_are_found_in_more(t4 + " downstream_mode="@, " cleanup_latency_ms="@ + decimal(latency_ms as nat), downstream);
    crate::text::parts_are_found_in_more(t4, " http_status="@ + decimal(
                match request.http_status {
                    Some(status) => status as nat,
                    None => 0,
                },
            ), " downstream_mode="@);
    crate::text::parts_are_found_in_more(t4 + " downstream_mode="@, " http_status="@ + decimal(
                match request.http_status {
                    Some(status) => status as nat,
                    None => 0,
                },
            ), downstream);
    let t6 = t5 + " upstream_mode="@ + upstream;
    crate::text::parts_are_found_at_the_end(t5, " upstream_mode="@, upstream);
    crate::text::parts_are_found_in_more(t5, "llm_guard_proxy_request_cleanup request_id="@ + request.request_id, " upstream_mode="@);
    crate::text::parts_are_found_in_more(t5 + " upstream_mode="@, "llm_guard_proxy_request_cleanup request_id="@ + request.request_id, upstream);
    crate::text::parts_are_found_in_more(t5, " status="@ + request.status.label(), " upstream_mode="@);
    crate::text::parts_are_found_in_more(t5 + " upstream_mode="@, " status="@ + request.status.label(), upstream);
    crate::text::parts_are_found_in_more(t5, " terminal_reason="@ + reason, " upstream_mode="@);
    crate::text::parts_are_found_in_more(t5 + " upstream_mode="@, " terminal_reason="@ + reason, upstream);
    crate::text::parts_are_found_in_more(t5, " cleanup_latency_ms="@ + decimal(latency_ms as nat), " upstream_mode="@);
    crate::text::parts_are_found_in_more(t5 + " upstream_mode="@, " cleanup_latency_ms="@ + decimal(latency_ms as nat), upstream);
    crate::text::parts_are_found_in_more(t5, " http_status="@ + decimal(
                match request.http_status {
                    Some(status) => status as nat,
                    None => 0,
                },
            ), " upstream_mode="@);
    crate::text::parts_are_found_in_more(t5 + " upstream_mode="@, " http_status="@ + decimal(
                match request.http_status {
                    Some(status) => status as nat,
                    None => 0,
                },
            ), upstream);
    crate::text::parts_are_found_in_more(t5, " downstream_mode="@ + downstream, " upstream_mode="@);
    crate::text::parts_are_found_in_more(t5 + " upstream_mode="@, " downstream_mode="@ + downstream, upstream);
    let t7 = t6 + " evidence_written="@ + bool_chars(written);
    crate::text::parts_are_found_at_the_end(t6, " evidence_written="@, bool_chars(written));
    crate::text::parts_are_found_in_more(t6, "llm_guard_proxy_request_cleanup request_id="@ + request.request_id, " evidence_written="@);
    crate::text::parts_are_found_in_more(t6 + " evidence_written="@, "llm_guard_proxy_request_cleanup request_id="@ + request.request_id, bool_chars(written));
    crate::text::parts_are_found_in_more(t6, " status="@ + request.status.label(), " evidence_written="@);
    crate::text::parts_are_found_in_more(t6 + " evidence_written="@, " status="@ + request.status.label(), bool_chars(written));
    crate::text::parts_are_found_in_more(t6, " terminal_reason="@ + reason, " evidence_written="@);
    crate::text::parts_are_found_in_more(t6 + " evidence_written="@, " terminal_reason="@ + reason, bool_chars(written));
    crate::text::parts_are_found_in_more(t6, " cleanup_latency_ms="@ + decimal(latency_ms as nat), " evidence_written="@);
    crate::text::parts_are_found_in_more(t6 + " evidence_written="@, " cleanup_latency_ms="@ + decimal(latency_ms as nat), bool_chars(written));
    crate::text::parts_are_found_in_more(t6, " http_status="@ + decimal(
                match request.http_status {
                    Some(status) => status as nat,
                    None => 0,
                },
            ), " evidence_written="@);
    crate::text::parts_are_found_in_more(t6 + " evidence_written="@, " http_status="@ + decimal(
                match request.http_status {
                    Some(status) => status as nat,
                    None => 0,
                },
            ), bool_chars(written));
    crate::text::parts_are_found_in_more(t6, " downstream_mode="@ + downstream, " evidence_written="@);
    crate::text::parts_are_found_in_more(t6 + " evidence_written="@, " downstream_mode="@ + downstream, bool_chars(written));
    crate::text::parts_are_found_in_more(t6, " upstream_mode="@ + upstream, " evidence_written="@);
    crate::text::parts_are_found_in_more(t6 + " evidence_written="@, " upstream_mode="@ + upstream, bool_chars(written));
}

/// A failed attempt is on record as failed, with what is known of it.
pub proof fn failed_attempts_are_recorded(input: FailedAttemptRecordInput, key: Seq<char>)
    ensures
        ({
            let told = failed_record(input);
            &&& told.status is Failed
            &&& told.attempt_id == input.attempt_id@
            &&& told.request_id == input.request_id@
            &&& told.attempt_number == input.attempt_number
            &&& told.started_at_unix_ms == input.started_at_unix_ms
            &&& told.finished_at_unix_ms == Some(input.finished_at_unix_ms)
            &&& told.http_status is None
            &&& told.retry_reason is None
            &&& told.abort_reason is None
            &&& told.request_metadata == input.request_metadata@
            &&& told.error_reason matches Some(reason) && crate::text::has_prefix(
                reason,
                input.error_type@,
            )
            &&& input.extra_response_metadata@.contains_key(key) ==> told.response_metadata[key]
                == input.extra_response_metadata@[key]
        }),
{
    let kind = input.error_type@;
    assert(kind + ": "@ + input.error_reason@ =~= kind + (": "@ + input.error_reason@));
    crate::text::prefixes_and_parts_are_found(kind, kind, ": "@ + input.error_reason@);
}

/// A request that nobody answered is on record as failed, with its times and its reason.
pub proof fn unanswered_requests_are_recorded(
    request_id: Seq<char>,
    started: u64,
    finished: u64,
    error_type: Seq<char>,
    reason: Seq<char>,
)
    ensures
        ({
            let told = unanswered(request_id, started, finished, error_type, reason);
            &&& told.request_id == request_id
            &&& told.started_at_unix_ms == started
            &&& told.finished_at_unix_ms == Some(finished)
            &&& told.status is Failed
            &&& told.http_status is None
            &&& told.model_id is None
            &&& told.abort_reason is None
            &&& told.error_reason matches Some(text) && crate::text::has_part(
                text,
                ": "@ + reason,
            ) && crate::text::has_prefix(text, error_type)
        }),
{
    let text = error_type + ": "@ + reason;
    crate::text::parts_are_found_at_the_end(error_type, ": "@, reason);
    assert(text =~= error_type + (": "@ + reason));
    crate::text::prefixes_and_parts_are_found(error_type, error_type, ": "@ + reason);
}

/// An observer watches the parts that it was made of.
pub proof fn observers_watch_their_parts(
    observer: ForwardedBodyObserver,
    parts: ForwardedResponseParts,
    downstream_mode: DownstreamMode,
    headers: Seq<HeaderModel>,
    attempt_metadata: Bindings,
    extra: Bindings,
    raw: RawPayloadsModel,
)
    requires
        observes_parts(observer, parts, downstream_mode, headers, attempt_metadata, extra, raw),
    ensures
        observer.request_id@ == parts.request_id@,
        observer.started_at_unix_ms == parts.started_at_unix_ms,
        observer.downstream_mode == downstream_mode,
        observer.upstream_mode == parts.upstream_mode,
        observer.model_id == parts.model_id,
        observer.input_fingerprint == parts.input_fingerprint,
        observer.downstream_status == parts.upstream_status,
        observer.downstream_headers@ == headers,
        observer.request_metadata@ == parts.request_metadata@,
        observer.extra_response_metadata@ == extra,
        observer.raw_payloads@ == raw,
        observer.completed_attempt_records@.len() == parts.completed_attempt_records@.len(),
        observer.final_attempt matches Some(attempt) && attempt.attempt_id@ == parts.attempt_id@
            && attempt.attempt_number == parts.attempt_number && attempt.attempt_max_attempts
            == parts.attempt_max_attempts && attempt.started_at_unix_ms
            == parts.attempt_started_at_unix_ms && attempt.upstream_status == parts.upstream_status
            && attempt.request_metadata@ == parts.attempt_request_metadata@
            && attempt.extra_response_metadata@ == attempt_metadata,
{
    assert(record_models(observer.completed_attempt_records@).len() == record_models(
        parts.completed_attempt_records@,
    ).len());
}

/// Where the client went or the server stopped, the attempt that was under way is the
/// last; otherwise it is the one that was accepted.
pub proof fn the_attempt_under_way_is_the_last(
    observer: ForwardedBodyObserver,
    progress: ShieldedAttemptProgress,
    attempt: FinalAttemptContext,
    source: Bindings,
    target: Bindings,
    key: Seq<char>,
)
    ensures
        uses_progress(BodyCompletion::DownstreamDropped),
        uses_progress(BodyCompletion::Shutdown),
        !uses_progress(BodyCompletion::Succeeded),
        progress.current_attempt == Some(attempt) ==> {
            &&& ended_events(observer, Some(progress), BodyCompletion::DownstreamDropped)
                == attempt.sse_body@
            &&& ended_upstream_mode(observer, Some(progress), BodyCompletion::Shutdown)
                == attempt.upstream_mode
        },
        observer.final_attempt == Some(attempt) ==> {
            &&& ended_events(observer, Some(progress), BodyCompletion::Succeeded)
                == attempt.sse_body@
            &&& ended_upstream_mode(observer, None, BodyCompletion::Succeeded)
                == attempt.upstream_mode
        },
        observer.final_attempt is None ==> ended_upstream_mode(
            observer,
            None,
            BodyCompletion::Succeeded,
        ) == observer.upstream_mode,
        source.contains_key(key) && crate::text::has_prefix(key, "loop_"@) ==> with_loop_bindings(
            source,
            target,
        )[key] == source[key],
        !crate::text::has_prefix(key, "loop_"@) && target.contains_key(key) ==> with_loop_bindings(
            source,
            target,
        )[key] == target[key],
{
}

/// An answer that could not be read is an error with the attempt that failed and those
/// before it.
pub proof fn unread_answers_keep_their_attempts(
    parts: ForwardedResponseParts,
    error: ProxyError,
    extra: Bindings,
    now_ms: u64,
)
    ensures
        ({
            let told = unread_error(parts, error, extra, now_ms);
            &&& told.kind == error.kind
            &&& error.kind.is_upstream_failure() ==> {
                &&& told.observability matches Some(seen)
                &&& seen.request_metadata == parts.request_metadata@
                &&& seen.attempt_record.attempt_id == parts.attempt_id@
                &&& seen.attempt_record.status is Failed
                &&& seen.completed == record_models(parts.completed_attempt_records@)
            }
        }),
{
    unread_responses_are_recorded(parts, error.kind, extra, now_ms);
}

/// What is recorded of the last attempt says its number, how it ended and why.
pub proof fn final_attempts_are_recorded(
    attempt: FinalAttemptContext,
    finished: u64,
    bytes: u64,
    completion: BodyCompletion,
)
    ensures
        ({
            let told = final_attempt_bindings(attempt, finished, bytes, completion);
            &&& told.contains_key("attempt_number"@) && told["attempt_number"@] == decimal(attempt.attempt_number as nat)
            &&& told.contains_key("attempt_max_attempts"@) && told["attempt_max_attempts"@] == decimal(attempt.attempt_max_attempts as nat)
            &&& told.contains_key("attempt_outcome"@) && told["attempt_outcome"@] == completion.attempt_outcome().label()
            &&& told.contains_key("attempt_terminal_reason"@) && told["attempt_terminal_reason"@] == completion.metadata_text()
        }),
{
    reveal_strlit("attempt_number");
    reveal_strlit("attempt_max_attempts");
    reveal_strlit("attempt_outcome");
    reveal_strlit("attempt_terminal_reason");
    reveal_strlit("final_direct_relay_terminated");
    reveal_strlit("request_deadline_exhausted");
    assert("attempt_number"@.len() == 14);
    assert("attempt_max_attempts"@.len() == 20);
    assert("attempt_outcome"@.len() == 15);
    assert("attempt_terminal_reason"@.len() == 23);
    assert("final_direct_relay_terminated"@.len() == 29);
    assert("request_deadline_exhausted"@.len() == 26);
}

/// A relay that was cut off says so, and that the time of the request was over.
pub proof fn cut_off_relays_are_recorded(attempt: FinalAttemptContext, finished: u64, bytes: u64)
    ensures
        ({
            let told = final_attempt_bindings(
                attempt,
                finished,
                bytes,
                BodyCompletion::FinalDirectRelayTerminated,
            );
            &&& told["final_direct_relay_terminated"@] == "true"@
            &&& told["request_deadline_exhausted"@] == "true"@
        }),
{
    reveal_strlit("final_direct_relay_terminated");
    reveal_strlit("request_deadline_exhausted");
    assert("final_direct_relay_terminated"@.len() == 29);
    assert("request_deadline_exhausted"@.len() == 26);
}

/// What is recorded of an answer that is not shielded is its status, its headers, its
/// length and its time, and what else is known of it.
pub proof fn plain_answers_are_recorded(
    observer: ForwardedBodyObserver,
    attempts: Seq<AttemptRecordModel>,
    finished: u64,
    bytes: u64,
    completion: BodyCompletion,
    key: Seq<char>,
)
    requires
        observer.retry_policy is None,
    ensures
        ({
            let told = ended_bindings(observer, attempts, finished, bytes, completion);
            let extra = observer.extra_response_metadata@;
            let plain = response_bindings(
                observer.downstream_status,
                observer.downstream_headers@,
                bytes,
                elapsed(finished, observer.started_at_unix_ms),
            );
            &&& extra.contains_key(key) ==> told[key] == extra[key]
            &&& !extra.contains_key(key) && plain.contains_key(key) ==> told[key] == plain[key]
        }),
{
}

/// An answer that came but could not be processed says that it came.
pub proof fn unprocessed_answers_are_recorded(
    parts: ForwardedResponseParts,
    kind: ErrorKind,
    extra: Bindings,
    now_ms: u64,
)
    requires
        parts.upstream_headers@.len() == 0,
    ensures
        ({
            let told = unprocessed_record(parts, kind, extra, now_ms).response_metadata;
            &&& told["upstream_response_received"@] == "true"@
            &&& told["http_status_success"@] == if 200 <= parts.upstream_status < 300 {
                "true"@
            } else {
                "false"@
            }
            &&& told["response_process_error"@] == "true"@
        }),
{
    reveal_strlit("upstream_response_received");
    reveal_strlit("http_status_success");
    reveal_strlit("response_process_error");
    assert("upstream_response_received"@.len() == 26);
    assert("http_status_success"@.len() == 19);
    assert("response_process_error"@.len() == 22);
}

} // verus!
