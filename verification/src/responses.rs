//! The responses of shielded requests, and the observers of their bodies.

use crate::attempts::{
    shielded_start_transport_failure, start_failure_of, ShieldedAttemptFailure,
    ShieldedAttemptInfo, ShieldedFailureOutcome, ShieldedStartFailureInput,
};
use crate::bodies::{counted_once, liveness_content_type, BodyCompletion};
use crate::error_bodies::{
    error_body, has_choices, malformed_body, malformed_choices_error_response, plain_details,
    proxy_error_json_body_with_diagnostics, response_has_valid_choices, DetailsModel,
    ErrorResponse,
};
use crate::errors::{bare_error, ProxyError};
use crate::failover::SentUpstreamResponse;
use crate::failures::{
    cause_of_failure, classify_shielded_failure_cause, SERVER_SHUTDOWN_ABORT_REASON,
    UpstreamFailureCounters,
};
use crate::headers::{
    buffered_chat_headers, bytes_of, copy_response_headers, downstream_mode_from_headers,
    downstream_mode_of, header_value, header_value_of, json_headers, json_response_headers,
    relayed_headers, shielded_chat_response_headers, shown_value, upstream_mode_from_headers,
    upstream_mode_of, with_header, HeaderModel, Headers,
};
use crate::json::{parsed_json, rendered_json};
use crate::liveness::{
    add_shielded_request_metadata, liveness_response_bindings,
    shielded_liveness_response_metadata, with_shielded_request, ShieldedLivenessMode,
    ShieldedLivenessSelection,
};
use crate::message_metadata::{attempt_request_bindings, attempt_request_metadata, is_success, status_is_success};
use crate::metadata::{bound_to, Bindings, Metadata};
use crate::observations::{FinalAttemptContext, ForwardedBodyObserver, ShieldedAttemptProgress};
use crate::path::{is_chat_completion_path, is_chat_path};
use crate::profiles::{
    add_listener_metadata, add_upstream_profile_metadata, with_listener, with_upstream_profile,
    ListenerConfig, UpstreamProfileConfig,
};
use crate::records::{
    clone_records, no_payloads, record_models, with_input, AttemptRecord, AttemptRecordModel,
    DownstreamMode, RawPayloads, RawPayloadsModel, UpstreamMode,
};
use crate::retry::{
    add_retry_attempt_metadata, with_attempt_plan, CotSalvageContext, ShieldedAttemptPlan,
    ShieldedRetryCause, ShieldedRetryPolicy,
};
use crate::text::{clone_opt, decimal, decimal_text, opt_chars};
use crate::uri::RequestTarget;
use vstd::prelude::*;
use vstd::utf8::encode_utf8;

verus! {

// ---------------------------------------------------------------------------
// Attempts
// ---------------------------------------------------------------------------

/// What the attempts of a shielded request are recorded with.
pub struct ShieldedAttemptSurroundings<'a> {
    pub method: &'a str,
    pub uri: &'a RequestTarget,
    pub headers: &'a Headers,
    pub listener: &'a ListenerConfig,
    pub profile: &'a UpstreamProfileConfig,
    pub route_reason: &'a str,
    pub liveness: &'a ShieldedLivenessSelection,
    pub policy: &'a ShieldedRetryPolicy,
}

/// The bindings of an attempt at a shielded request, before its plan.
pub open spec fn shielded_attempt_bindings(
    around: ShieldedAttemptSurroundings<'_>,
    thinking: Bindings,
) -> Bindings {
    with_shielded_request(
        with_upstream_profile(
            with_listener(
                attempt_request_bindings(around.method@, around.uri@, around.headers@),
                *around.listener,
            ),
            *around.profile,
            around.route_reason@,
        ),
        true,
        true,
        *around.liveness,
        thinking,
    )
}

/// Records an attempt at a shielded request. `mode_label` names the mode that the
/// thinking settings of the plan come to.
pub fn shielded_attempt_request_metadata(
    around: &ShieldedAttemptSurroundings<'_>,
    attempt_number: u32,
    retry_cause: Option<ShieldedRetryCause>,
    anti_loop_hint_applied: bool,
    attempt_plan: &ShieldedAttemptPlan,
    mode_label: &str,
    cot_salvage: Option<&CotSalvageContext>,
    thinking_metadata: &Metadata,
) -> (metadata: Metadata)
    ensures
        metadata@ == with_attempt_plan(
            shielded_attempt_bindings(*around, thinking_metadata@),
            *around.policy,
            attempt_number,
            retry_cause,
            anti_loop_hint_applied,
            attempt_plan@,
            mode_label@,
            match cot_salvage {
                Some(salvage) => Some(salvage@),
                None => None,
            },
        ),
{
    let mut metadata = attempt_request_metadata(around.method, around.uri, around.headers);
    add_listener_metadata(&mut metadata, around.listener);
    add_upstream_profile_metadata(&mut metadata, around.profile, around.route_reason);
    add_shielded_request_metadata(&mut metadata, true, true, around.liveness, thinking_metadata);
    add_retry_attempt_metadata(
        &mut metadata,
        around.policy,
        attempt_number,
        retry_cause,
        anti_loop_hint_applied,
        attempt_plan,
        mode_label,
        cot_salvage,
    );
    metadata
}

/// Whether an error says that a shielded request was answered with a rewritten
/// response.
pub open spec fn is_rewritten_error(error: ProxyError) -> bool {
    &&& error.kind is UpstreamBody
    &&& error.kind.message_text() == "failed to read upstream response body within proxy limit: "@
        + "shielded chat request unexpectedly produced a rewritten endpoint response"@
    &&& error@ == bare_error(error.kind)
}

/// A shielded request is never answered with a rewritten response.
pub fn shielded_rewritten_error() -> (error: ProxyError)
    ensures
        is_rewritten_error(error),
{
    ProxyError::upstream_body(
        "shielded chat request unexpectedly produced a rewritten endpoint response".to_owned(),
    )
}

/// An attempt at a shielded request that is about to be sent.
pub struct ShieldedAttemptStart {
    pub attempt_id: String,
    pub attempt_number: u32,
    pub attempt_max_attempts: u32,
    pub started_at_unix_ms: u64,
    pub request_id: String,
    pub request_metadata: Metadata,
    /// The text of what is sent, where it is known and kept.
    pub raw_request_body: Option<String>,
    pub upstream_body: Vec<u8>,
}

/// Whether a failure tells of an attempt that did not get a response what it
/// should.
pub open spec fn failed_to_start(
    failure: ShieldedAttemptFailure,
    start: ShieldedAttemptStart,
    error: ProxyError,
    deadline_over: bool,
    now_unix_ms: u64,
) -> bool {
    failure@ == start_failure_of(
        ShieldedStartFailureInput {
            attempt_id: start.attempt_id,
            request_id: start.request_id,
            attempt_number: start.attempt_number,
            attempt_started_at_unix_ms: start.started_at_unix_ms,
            request_metadata: start.request_metadata,
            raw_request_body: start.raw_request_body,
            evidence_upstream_body: start.upstream_body,
            error,
        },
        deadline_over,
        now_unix_ms,
    )
}

/// Takes an attempt at a shielded request on once it was sent: `sent` is the
/// answer of the upstream, or why there is none. `deadline_over` says whether the
/// time of the request has run out.
pub fn start_shielded_attempt(
    start: ShieldedAttemptStart,
    sent: Result<SentUpstreamResponse, ProxyError>,
    deadline_over: bool,
    now_unix_ms: u64,
) -> (started: Result<ShieldedAttemptInfo, ShieldedAttemptFailure>)
    ensures
        match sent {
            Ok(sent) => {
                &&& started is Ok
                &&& started->Ok_0.attempt_id@ == sent.attempt_id@
                &&& started->Ok_0.request_id@ == start.request_id@
                &&& started->Ok_0.attempt_number == sent.attempt_number
                &&& started->Ok_0.attempt_max_attempts == start.attempt_max_attempts
                &&& started->Ok_0.started_at_unix_ms == sent.attempt_started_at_unix_ms
                &&& started->Ok_0.upstream_status == sent.response.status
                &&& started->Ok_0.upstream_headers@ == sent.response.headers@
                &&& started->Ok_0.upstream_mode == upstream_mode_of(sent.response.headers@)
                &&& started->Ok_0.request_metadata@ == sent.attempt_request_metadata@
                &&& started->Ok_0.raw_request_body == start.raw_request_body
                &&& started->Ok_0.upstream_body == start.upstream_body
            },
            Err(error) => started is Err && failed_to_start(
                started->Err_0,
                start,
                error,
                deadline_over,
                now_unix_ms,
            ),
        },
{
    match sent {
        Ok(sent) => Ok(
            ShieldedAttemptInfo {
                attempt_id: sent.attempt_id,
                request_id: start.request_id,
                attempt_number: sent.attempt_number,
                attempt_max_attempts: start.attempt_max_attempts,
                started_at_unix_ms: sent.attempt_started_at_unix_ms,
                upstream_status: sent.response.status,
                upstream_mode: upstream_mode_from_headers(&sent.response.headers),
                upstream_headers: sent.response.headers,
                request_metadata: sent.attempt_request_metadata,
                raw_request_body: start.raw_request_body,
                upstream_body: start.upstream_body,
            },
        ),
        Err(error) => Err(
            shielded_start_transport_failure(
                ShieldedStartFailureInput {
                    attempt_id: start.attempt_id,
                    request_id: start.request_id,
                    attempt_number: start.attempt_number,
                    attempt_started_at_unix_ms: start.started_at_unix_ms,
                    request_metadata: start.request_metadata,
                    raw_request_body: start.raw_request_body,
                    evidence_upstream_body: start.upstream_body,
                    error,
                },
                deadline_over,
                now_unix_ms,
            ),
        ),
    }
}

/// Whether a context tells of an attempt what it should.
pub open spec fn is_context_of(
    context: FinalAttemptContext,
    info: ShieldedAttemptInfo,
    extra: Bindings,
) -> bool {
    &&& context.attempt_id@ == info.attempt_id@
    &&& context.attempt_number == info.attempt_number
    &&& context.attempt_max_attempts == info.attempt_max_attempts
    &&& context.started_at_unix_ms == info.started_at_unix_ms
    &&& context.upstream_mode == info.upstream_mode
    &&& context.upstream_status == info.upstream_status
    &&& context.upstream_headers@ == info.upstream_headers@
    &&& context.request_metadata@ == info.request_metadata@
    &&& context.extra_response_metadata@ == extra
    &&& context.raw_payloads@ == with_input(no_payloads(), opt_chars(info.raw_request_body))
    &&& context.response_body@.len() == 0
    &&& context.sse_body@.len() == 0
}

/// An attempt as the last of its request, as far as it has got.
pub fn final_context_of(info: &ShieldedAttemptInfo, extra_response_metadata: Metadata) -> (context:
    FinalAttemptContext)
    ensures
        is_context_of(context, *info, extra_response_metadata@),
{
    FinalAttemptContext {
        attempt_id: info.attempt_id.clone(),
        attempt_number: info.attempt_number,
        attempt_max_attempts: info.attempt_max_attempts,
        started_at_unix_ms: info.started_at_unix_ms,
        upstream_mode: info.upstream_mode,
        upstream_status: info.upstream_status,
        upstream_headers: info.upstream_headers.clone(),
        request_metadata: info.request_metadata.clone(),
        extra_response_metadata,
        raw_payloads: RawPayloads::none().or_input(clone_opt(&info.raw_request_body)),
        response_body: Vec::new(),
        sse_body: Vec::new(),
    }
}

/// Notes how far a request has got: the attempts that are over, and the one that
/// is under way.
pub fn update_shielded_attempt_progress(
    progress: &mut ShieldedAttemptProgress,
    completed_attempt_records: &Vec<AttemptRecord>,
    current_attempt: Option<&ShieldedAttemptInfo>,
)
    ensures
        final(progress).extra_response_metadata == old(progress).extra_response_metadata,
        record_models(final(progress).completed_attempt_records@) == record_models(
            completed_attempt_records@,
        ),
        match (current_attempt, final(progress).current_attempt) {
            (Some(info), Some(context)) => is_context_of(
                context,
                *info,
                old(progress).extra_response_metadata@,
            ),
            (None, None) => true,
            _ => false,
        },
{
    progress.completed_attempt_records = clone_records(completed_attempt_records);
    progress.current_attempt =
        match current_attempt {
            Some(info) => Some(final_context_of(info, progress.extra_response_metadata.clone())),
            None => None,
        };
}

// ---------------------------------------------------------------------------
// Observers
// ---------------------------------------------------------------------------

/// What the response of a shielded request is made from.
pub struct ShieldedRuntime {
    pub request_id: String,
    pub started_at_unix_ms: u64,
    pub path: String,
    pub model_id: Option<String>,
    pub request_metadata: Metadata,
    pub liveness: ShieldedLivenessSelection,
    pub retry_policy: ShieldedRetryPolicy,
}

/// What an observer is made from besides the request.
pub struct ShieldedRetryObserverInput {
    pub downstream_mode: DownstreamMode,
    pub downstream_status: u16,
    pub downstream_headers: Headers,
    pub upstream_mode: UpstreamMode,
    pub extra_response_metadata: Metadata,
    pub raw_payloads: RawPayloads,
    pub completed_attempt_records: Vec<AttemptRecord>,
    pub final_attempt: Option<FinalAttemptContext>,
}

/// Whether an observer tells of a shielded request what it should.
pub open spec fn observes_shielded(
    observer: ForwardedBodyObserver,
    runtime: ShieldedRuntime,
    downstream_mode: DownstreamMode,
    downstream_status: u16,
    downstream_headers: Seq<HeaderModel>,
    upstream_mode: UpstreamMode,
    extra_metadata: Bindings,
    raw_payloads: RawPayloadsModel,
    completed: Seq<AttemptRecordModel>,
) -> bool {
    &&& observer.request_id@ == runtime.request_id@
    &&& observer.started_at_unix_ms == runtime.started_at_unix_ms
    &&& observer.downstream_mode == downstream_mode
    &&& observer.upstream_mode == upstream_mode
    &&& opt_chars(observer.model_id) == opt_chars(runtime.model_id)
    &&& opt_chars(observer.input_fingerprint) == opt_chars(runtime.liveness.input_fingerprint)
    &&& observer.downstream_status == downstream_status
    &&& observer.downstream_headers@ == downstream_headers
    &&& observer.request_metadata@ == runtime.request_metadata@
    &&& observer.extra_response_metadata@ == extra_metadata
    &&& observer.raw_payloads@ == raw_payloads
    &&& record_models(observer.completed_attempt_records@) == completed
    &&& observer.retry_policy == Some(runtime.retry_policy)
}

/// Observes the body of a shielded response.
pub fn shielded_retry_observer(runtime: ShieldedRuntime, input: ShieldedRetryObserverInput) -> (
    observer: ForwardedBodyObserver)
    ensures
        observes_shielded(
            observer,
            runtime,
            input.downstream_mode,
            input.downstream_status,
            input.downstream_headers@,
            input.upstream_mode,
            input.extra_response_metadata@,
            input.raw_payloads@,
            record_models(input.completed_attempt_records@),
        ),
        observer.final_attempt == input.final_attempt,
{
    ForwardedBodyObserver {
        request_id: runtime.request_id,
        started_at_unix_ms: runtime.started_at_unix_ms,
        downstream_mode: input.downstream_mode,
        upstream_mode: input.upstream_mode,
        model_id: runtime.model_id,
        input_fingerprint: runtime.liveness.input_fingerprint,
        downstream_status: input.downstream_status,
        downstream_headers: input.downstream_headers,
        request_metadata: runtime.request_metadata,
        extra_response_metadata: input.extra_response_metadata,
        raw_payloads: input.raw_payloads,
        completed_attempt_records: input.completed_attempt_records,
        final_attempt: input.final_attempt,
        retry_policy: Some(runtime.retry_policy),
    }
}

// ---------------------------------------------------------------------------
// Responses
// ---------------------------------------------------------------------------

/// The header fields of a response that keeps its client waiting.
pub open spec fn stream_headers(upstream: Seq<HeaderModel>, mode: ShieldedLivenessMode) -> Seq<
    HeaderModel,
> {
    with_header(
        with_header(
            with_header(
                relayed_headers(upstream),
                "content-type"@,
                bytes_of(
                    if mode is Sse {
                        "text/event-stream"@
                    } else {
                        "application/json"@
                    },
                ),
            ),
            "cache-control"@,
            bytes_of("no-cache"@),
        ),
        "x-accel-buffering"@,
        bytes_of("no"@),
    )
}

/// The header fields of a response that keeps its client waiting.
pub fn shielded_chat_stream_response_headers(
    upstream_headers: &Headers,
    mode: ShieldedLivenessMode,
) -> (headers: Headers)
    ensures
        headers@ == stream_headers(upstream_headers@, mode),
{
    let mut headers = Headers::new();
    copy_response_headers(upstream_headers, &mut headers);
    assert(headers@ =~= relayed_headers(upstream_headers@));
    headers.set_text("content-type", liveness_content_type(mode));
    headers.set_text("cache-control", "no-cache");
    headers.set_text("x-accel-buffering", "no");
    headers
}

/// The content type of an upstream response as it is recorded.
pub open spec fn content_type_of(headers: Seq<HeaderModel>) -> Option<Seq<char>> {
    match header_value_of(headers, "content-type"@) {
        Some(value) => Some(shown_value(value)),
        None => None,
    }
}

fn content_type(headers: &Headers) -> (shown: Option<String>)
    ensures
        opt_chars(shown) == content_type_of(headers@),
{
    match headers.get("content-type") {
        Some(value) => Some(header_value(value)),
        None => None,
    }
}

/// An answer that was accepted.
pub struct ShieldedAcceptedOutcome {
    pub body: Vec<u8>,
    pub sse_body: Vec<u8>,
    pub response_metadata: Metadata,
    pub prior_attempt_records: Vec<AttemptRecord>,
    pub final_attempt: FinalAttemptContext,
}

/// The response to a request whose answer was accepted.
pub enum SuccessResponse {
    /// The answer has no choices; it is replaced, and counted.
    Malformed(ErrorResponse),
    Answer { status: u16, headers: Headers, body: Vec<u8>, observer: ForwardedBodyObserver },
}

/// What is recorded of the response to a request whose answer was accepted.
pub open spec fn accepted_bindings(
    outcome: ShieldedAcceptedOutcome,
    liveness: ShieldedLivenessSelection,
) -> Bindings {
    let shown = content_type_of(outcome.final_attempt.upstream_headers@);
    let told = outcome.response_metadata@.union_prefer_right(
        liveness_response_bindings(liveness, shown),
    );
    match shown {
        Some(shown) => told.insert("upstream_response_header_content-type"@, shown),
        None => told,
    }
}

/// Whether an answer is refused for want of choices.
pub open spec fn lacks_choices(outcome: ShieldedAcceptedOutcome, path: Seq<char>) -> bool {
    &&& is_success(outcome.final_attempt.upstream_status)
    &&& is_chat_path(path)
    &&& !(parsed_json(outcome.body@) is Ok && has_choices(parsed_json(outcome.body@)->Ok_0))
}

/// Answers a request whose answer was accepted.
pub fn shielded_retry_success_response(
    runtime: ShieldedRuntime,
    outcome: ShieldedAcceptedOutcome,
) -> (response: SuccessResponse)
    ensures
        match response {
            SuccessResponse::Malformed(error) => {
                &&& lacks_choices(outcome, runtime.path@)
                &&& error.status == 502
                &&& error.body@ == encode_utf8(rendered_json(malformed_body()))
                &&& error.retry_after is None
                &&& opt_chars(error.request_id) == Some(runtime.request_id@)
            },
            SuccessResponse::Answer { status, headers, body, observer } => {
                let extra = accepted_bindings(outcome, runtime.liveness);
                let upstream = outcome.final_attempt.upstream_headers@;
                &&& !lacks_choices(outcome, runtime.path@)
                &&& status == outcome.final_attempt.upstream_status
                &&& headers@ == buffered_chat_headers(upstream, outcome.body@.len())
                &&& body == outcome.body
                &&& observes_shielded(
                    observer,
                    runtime,
                    DownstreamMode::NonStreamJson,
                    status,
                    headers@,
                    outcome.final_attempt.upstream_mode,
                    extra,
                    outcome.final_attempt.raw_payloads@,
                    record_models(outcome.prior_attempt_records@),
                )
                &&& match observer.final_attempt {
                    Some(attempt) => {
                        &&& attempt.extra_response_metadata@
                            == outcome.final_attempt.extra_response_metadata@.union_prefer_right(
                            extra,
                        )
                        &&& attempt == (FinalAttemptContext {
                            extra_response_metadata: attempt.extra_response_metadata,
                            ..outcome.final_attempt
                        })
                    },
                    None => false,
                }
            },
        },
{
    if status_is_success(outcome.final_attempt.upstream_status) && is_chat_completion_path(
        runtime.path.as_str(),
    ) && !response_has_valid_choices(outcome.body.as_slice()) {
        return SuccessResponse::Malformed(
            malformed_choices_error_response(runtime.request_id.as_str()),
        );
    }
    let status: u16 = outcome.final_attempt.upstream_status;
    let upstream_mode = outcome.final_attempt.upstream_mode;
    let headers = shielded_chat_response_headers(
        &outcome.final_attempt.upstream_headers,
        outcome.body.len(),
    );
    let shown = content_type(&outcome.final_attempt.upstream_headers);
    let mut extra = outcome.response_metadata;
    extra.extend(&shielded_liveness_response_metadata(&runtime.liveness, clone_opt(&shown)));
    match shown {
        Some(shown) => {
            extra.insert("upstream_response_header_content-type", shown);
        },
        None => {},
    }
    let mut final_attempt = outcome.final_attempt;
    final_attempt.extra_response_metadata.extend(&extra);
    let raw_payloads = final_attempt.raw_payloads.clone();
    let observer = shielded_retry_observer(
        runtime,
        ShieldedRetryObserverInput {
            downstream_mode: DownstreamMode::NonStreamJson,
            downstream_status: status,
            downstream_headers: headers.clone(),
            upstream_mode,
            extra_response_metadata: extra,
            raw_payloads,
            completed_attempt_records: outcome.prior_attempt_records,
            final_attempt: Some(final_attempt),
        },
    );
    SuccessResponse::Answer { status, headers, body: outcome.body, observer }
}

/// The response to a request that failed.
pub struct FailureResponse {
    pub status: u16,
    pub headers: Headers,
    pub body: Vec<u8>,
    pub observer: ForwardedBodyObserver,
    /// How the body ends.
    pub completion: BodyCompletion,
}

/// The body of the response to a request that failed.
pub open spec fn failure_body(failure: ShieldedFailureOutcome, request_id: Seq<char>) -> Seq<u8> {
    encode_utf8(
        rendered_json(
            error_body(
                DetailsModel {
                    cause: match cause_of_failure(
                        failure.error_type@,
                        failure.error_message@,
                        failure.response_metadata@,
                    ) {
                        Some(cause) => Some(cause.code_text()),
                        None => None,
                    },
                    request_id: Some(request_id),
                    ..plain_details(failure.error_type@, failure.error_message@)
                },
            ),
        ),
    )
}

/// The header fields of the response to a request that failed.
pub open spec fn failure_headers(failure: ShieldedFailureOutcome, body_len: nat) -> Seq<HeaderModel> {
    match failure.retry_after_secs {
        Some(secs) => with_header(
            json_headers(body_len),
            "retry-after"@,
            bytes_of(decimal(secs as nat)),
        ),
        None => json_headers(body_len),
    }
}

/// How the body of the response to a request that failed ends.
pub open spec fn failure_completion(failure: ShieldedFailureOutcome) -> BodyCompletion {
    if bound_to(failure.response_metadata@, "abort_reason"@, SERVER_SHUTDOWN_ABORT_REASON@) {
        BodyCompletion::Shutdown
    } else {
        BodyCompletion::UpstreamStreamError(failure.error_message)
    }
}

/// Answers a request that failed, and counts the failure by its cause.
pub fn shielded_retry_error_response(
    runtime: ShieldedRuntime,
    failure: ShieldedFailureOutcome,
    counters: &mut UpstreamFailureCounters,
) -> (response: FailureResponse)
    ensures
        response.status == failure.downstream_status,
        response.body@ == failure_body(failure, runtime.request_id@),
        response.headers@ == failure_headers(failure, response.body@.len()),
        response.completion == failure_completion(failure),
        observes_shielded(
            response.observer,
            runtime,
            if runtime.liveness.mode is Sse {
                DownstreamMode::Streaming
            } else {
                DownstreamMode::NonStreamJson
            },
            response.status,
            response.headers@,
            failure.upstream_mode,
            failure.response_metadata@,
            no_payloads(),
            record_models(failure.attempt_records@),
        ),
        response.observer.final_attempt is None,
        counted_once(
            old(counters)@,
            final(counters)@,
            cause_of_failure(
                failure.error_type@,
                failure.error_message@,
                failure.response_metadata@,
            ),
        ),
{
    let cause = classify_shielded_failure_cause(
        failure.error_type,
        failure.error_message.as_str(),
        &failure.response_metadata,
    );
    let cause_code: Option<&str> = match cause {
        Some(cause) => Some(cause.code()),
        None => None,
    };
    let body = proxy_error_json_body_with_diagnostics(
        failure.error_type,
        failure.error_message.as_str(),
        cause_code,
        Some(runtime.request_id.as_str()),
    );
    match cause {
        Some(cause) => {
            counters.increment(cause);
        },
        None => {},
    }
    let is_shutdown = failure.response_metadata.reads("abort_reason", SERVER_SHUTDOWN_ABORT_REASON);
    let mut headers = json_response_headers(body.len());
    match failure.retry_after_secs {
        Some(secs) => {
            headers.set_text("retry-after", decimal_text(secs as u64).as_str());
        },
        None => {},
    }
    let status: u16 = failure.downstream_status;
    let downstream_mode = runtime.liveness.mode.downstream_mode();
    let observer = shielded_retry_observer(
        runtime,
        ShieldedRetryObserverInput {
            downstream_mode,
            downstream_status: status,
            downstream_headers: headers.clone(),
            upstream_mode: failure.upstream_mode,
            extra_response_metadata: failure.response_metadata,
            raw_payloads: RawPayloads::none(),
            completed_attempt_records: failure.attempt_records,
            final_attempt: None,
        },
    );
    let completion = if is_shutdown {
        BodyCompletion::Shutdown
    } else {
        BodyCompletion::UpstreamStreamError(failure.error_message)
    };
    FailureResponse { status, headers, body, observer, completion }
}

/// Observes a response that is handed on as the upstream gave it.
pub fn shielded_retry_terminal_forward_response(
    runtime: ShieldedRuntime,
    info: &ShieldedAttemptInfo,
    prior_attempt_records: Vec<AttemptRecord>,
) -> (observer: ForwardedBodyObserver)
    ensures
        observes_shielded(
            observer,
            runtime,
            downstream_mode_of(info.upstream_headers@),
            info.upstream_status,
            info.upstream_headers@,
            info.upstream_mode,
            Bindings::empty(),
            no_payloads(),
            record_models(prior_attempt_records@),
        ),
        observer.final_attempt is Some,
        is_context_of(observer.final_attempt->Some_0, *info, Bindings::empty()),
{
    let final_attempt = final_context_of(info, Metadata::new());
    shielded_retry_observer(
        runtime,
        ShieldedRetryObserverInput {
            downstream_mode: downstream_mode_from_headers(&info.upstream_headers),
            downstream_status: info.upstream_status,
            downstream_headers: info.upstream_headers.clone(),
            upstream_mode: info.upstream_mode,
            extra_response_metadata: Metadata::new(),
            raw_payloads: RawPayloads::none(),
            completed_attempt_records: prior_attempt_records,
            final_attempt: Some(final_attempt),
        },
    )
}

/// Observes a stream that is handed on while it comes.
pub fn shielded_retry_direct_relay_response(
    runtime: ShieldedRuntime,
    info: &ShieldedAttemptInfo,
    response_metadata: Metadata,
    prior_attempt_records: Vec<AttemptRecord>,
) -> (observer: ForwardedBodyObserver)
    ensures
        observes_shielded(
            observer,
            runtime,
            DownstreamMode::Streaming,
            info.upstream_status,
            info.upstream_headers@,
            info.upstream_mode,
            response_metadata@,
            no_payloads(),
            record_models(prior_attempt_records@),
        ),
        observer.final_attempt is Some,
        is_context_of(observer.final_attempt->Some_0, *info, response_metadata@),
{
    let final_attempt = final_context_of(info, response_metadata.clone());
    shielded_retry_observer(
        runtime,
        ShieldedRetryObserverInput {
            downstream_mode: DownstreamMode::Streaming,
            downstream_status: info.upstream_status,
            downstream_headers: info.upstream_headers.clone(),
            upstream_mode: info.upstream_mode,
            extra_response_metadata: response_metadata,
            raw_payloads: RawPayloads::none(),
            completed_attempt_records: prior_attempt_records,
            final_attempt: Some(final_attempt),
        },
    )
}

/// The response to a request whose client is kept waiting.
pub struct LivenessResponse {
    pub status: u16,
    pub headers: Headers,
    pub observer: ForwardedBodyObserver,
    /// How far the request has got.
    pub progress: ShieldedAttemptProgress,
}

/// Begins the response to a request whose client is kept waiting.
pub fn shielded_liveness_stream_response(
    runtime: ShieldedRuntime,
    info: &ShieldedAttemptInfo,
    prior_attempt_records: Vec<AttemptRecord>,
) -> (response: LivenessResponse)
    ensures
        response.status == info.upstream_status,
        response.headers@ == stream_headers(info.upstream_headers@, runtime.liveness.mode),
        ({
            let extra = liveness_response_bindings(
                runtime.liveness,
                content_type_of(info.upstream_headers@),
            );
            &&& observes_shielded(
                response.observer,
                runtime,
                if runtime.liveness.mode is Sse {
                    DownstreamMode::Streaming
                } else {
                    DownstreamMode::NonStreamJson
                },
                info.upstream_status,
                response.headers@,
                UpstreamMode::Streaming,
                extra,
                no_payloads(),
                record_models(prior_attempt_records@),
            )
            &&& response.observer.final_attempt is None
            &&& response.progress.extra_response_metadata@ == extra
            &&& record_models(response.progress.completed_attempt_records@) == record_models(
                prior_attempt_records@,
            )
            &&& response.progress.current_attempt is Some
            &&& is_context_of(response.progress.current_attempt->Some_0, *info, extra)
        }),
{
    let status: u16 = info.upstream_status;
    let headers = shielded_chat_stream_response_headers(
        &info.upstream_headers,
        runtime.liveness.mode,
    );
    let extra = shielded_liveness_response_metadata(
        &runtime.liveness,
        content_type(&info.upstream_headers),
    );
    let progress = ShieldedAttemptProgress {
        extra_response_metadata: extra.clone(),
        completed_attempt_records: clone_records(&prior_attempt_records),
        current_attempt: Some(final_context_of(info, extra.clone())),
    };
    let downstream_mode = runtime.liveness.mode.downstream_mode();
    let observer = shielded_retry_observer(
        runtime,
        ShieldedRetryObserverInput {
            downstream_mode,
            downstream_status: status,
            downstream_headers: headers.clone(),
            upstream_mode: UpstreamMode::Streaming,
            extra_response_metadata: extra,
            raw_payloads: RawPayloads::none(),
            completed_attempt_records: prior_attempt_records,
            final_attempt: None,
        },
    );
    LivenessResponse { status, headers, observer, progress }
}

// ---------------------------------------------------------------------------
// What a waiting client is told in the end
// ---------------------------------------------------------------------------

/// Whether an observer differs from another in what the end of a request changes,
/// and in nothing else.
pub open spec fn same_but_for_the_end(
    after: ForwardedBodyObserver,
    before: ForwardedBodyObserver,
) -> bool {
    after == (ForwardedBodyObserver {
        completed_attempt_records: after.completed_attempt_records,
        extra_response_metadata: after.extra_response_metadata,
        raw_payloads: after.raw_payloads,
        final_attempt: after.final_attempt,
        ..before
    })
}

/// Notes that an answer was accepted while its client waited.
pub fn observe_accepted(
    observer: &mut ForwardedBodyObserver,
    response_metadata: &Metadata,
    prior_attempt_records: Vec<AttemptRecord>,
    final_attempt: FinalAttemptContext,
)
    ensures
        ({
            let extra = old(observer).extra_response_metadata@.union_prefer_right(
                response_metadata@,
            );
            &&& same_but_for_the_end(*final(observer), *old(observer))
            &&& record_models(final(observer).completed_attempt_records@) == record_models(
                prior_attempt_records@,
            )
            &&& final(observer).extra_response_metadata@ == extra
            &&& final(observer).raw_payloads@ == final_attempt.raw_payloads@
            &&& match final(observer).final_attempt {
                Some(attempt) => {
                    &&& attempt.extra_response_metadata@
                        == final_attempt.extra_response_metadata@.union_prefer_right(extra)
                    &&& attempt == (FinalAttemptContext {
                        extra_response_metadata: attempt.extra_response_metadata,
                        ..final_attempt
                    })
                },
                None => false,
            }
        }),
{
    observer.completed_attempt_records = prior_attempt_records;
    observer.extra_response_metadata.extend(response_metadata);
    let mut final_attempt = final_attempt;
    final_attempt.extra_response_metadata.extend(&observer.extra_response_metadata);
    observer.raw_payloads = final_attempt.raw_payloads.clone();
    observer.final_attempt = Some(final_attempt);
}

/// Notes that a request failed while its client waited.
pub fn observe_failed(
    observer: &mut ForwardedBodyObserver,
    response_metadata: &Metadata,
    attempt_records: Vec<AttemptRecord>,
)
    ensures
        same_but_for_the_end(*final(observer), *old(observer)),
        record_models(final(observer).completed_attempt_records@) == record_models(
            attempt_records@,
        ),
        final(observer).extra_response_metadata@ == old(
            observer,
        ).extra_response_metadata@.union_prefer_right(response_metadata@),
        final(observer).raw_payloads == old(observer).raw_payloads,
        final(observer).final_attempt is None,
{
    observer.completed_attempt_records = attempt_records;
    observer.extra_response_metadata.extend(response_metadata);
    observer.final_attempt = None;
}

/// Notes that a stream is handed on to a client that waited, and how far the
/// request has got with it.
pub fn observe_direct_relay(
    observer: &mut ForwardedBodyObserver,
    progress: &mut ShieldedAttemptProgress,
    info: &ShieldedAttemptInfo,
    response_metadata: &Metadata,
    prior_attempt_records: &Vec<AttemptRecord>,
)
    ensures
        ({
            let extra = old(observer).extra_response_metadata@.union_prefer_right(
                response_metadata@,
            );
            let told = response_metadata@.union_prefer_right(extra);
            &&& same_but_for_the_end(*final(observer), *old(observer))
            &&& record_models(final(observer).completed_attempt_records@) == record_models(
                prior_attempt_records@,
            )
            &&& final(observer).extra_response_metadata@ == extra
            &&& final(observer).raw_payloads == old(observer).raw_payloads
            &&& final(observer).final_attempt is Some
            &&& is_context_of(final(observer).final_attempt->Some_0, *info, told)
            &&& final(progress).extra_response_metadata == old(progress).extra_response_metadata
            &&& record_models(final(progress).completed_attempt_records@) == record_models(
                prior_attempt_records@,
            )
            &&& final(progress).current_attempt is Some
            &&& is_context_of(final(progress).current_attempt->Some_0, *info, told)
        }),
{
    observer.completed_attempt_records = clone_records(prior_attempt_records);
    observer.extra_response_metadata.extend(response_metadata);
    let mut told = response_metadata.clone();
    told.extend(&observer.extra_response_metadata);
    progress.completed_attempt_records = clone_records(prior_attempt_records);
    progress.current_attempt = Some(final_context_of(info, told.clone()));
    observer.final_attempt = Some(final_context_of(info, told));
}

/// An answer that is kept alive is typed by its framing, and is not stored on its way.
pub proof fn live_answers_are_typed(upstream: Seq<HeaderModel>, mode: ShieldedLivenessMode)
    ensures
        mode is Sse ==> header_value_of(stream_headers(upstream, mode), "content-type"@) == Some(
            bytes_of("text/event-stream"@),
        ),
        !(mode is Sse) ==> header_value_of(stream_headers(upstream, mode), "content-type"@) == Some(
            bytes_of("application/json"@),
        ),
        header_value_of(stream_headers(upstream, mode), "cache-control"@) == Some(
            bytes_of("no-cache"@),
        ),
        header_value_of(stream_headers(upstream, mode), "x-accel-buffering"@) == Some(
            bytes_of("no"@),
        ),
{
    reveal_strlit("content-type");
    reveal_strlit("cache-control");
    reveal_strlit("x-accel-buffering");
    assert("content-type"@.len() == 12);
    assert("cache-control"@.len() == 13);
    assert("x-accel-buffering"@.len() == 17);
    assert(crate::text::lowered("content-type"@) =~= "content-type"@);
    assert(crate::text::lowered("cache-control"@) =~= "cache-control"@);
    assert(crate::text::lowered("x-accel-buffering"@) =~= "x-accel-buffering"@);
    let typed = with_header(
        relayed_headers(upstream),
        "content-type"@,
        bytes_of(
            if mode is Sse {
                "text/event-stream"@
            } else {
                "application/json"@
            },
        ),
    );
    let held = with_header(typed, "cache-control"@, bytes_of("no-cache"@));
    crate::headers::set_headers_have_their_value(
        relayed_headers(upstream),
        "content-type"@,
        bytes_of(
            if mode is Sse {
                "text/event-stream"@
            } else {
                "application/json"@
            },
        ),
        "cache-control"@,
    );
    crate::headers::set_headers_have_their_value(
        typed,
        "cache-control"@,
        bytes_of("no-cache"@),
        "content-type"@,
    );
    crate::headers::set_headers_have_their_value(
        held,
        "x-accel-buffering"@,
        bytes_of("no"@),
        "content-type"@,
    );
    crate::headers::set_headers_have_their_value(
        held,
        "x-accel-buffering"@,
        bytes_of("no"@),
        "cache-control"@,
    );
}

/// A failure tells the time to wait where there is one.
pub proof fn failures_tell_when_to_come_back(failure: ShieldedFailureOutcome, body_len: nat)
    ensures
        failure.retry_after_secs matches Some(secs) ==> header_value_of(
            failure_headers(failure, body_len),
            "retry-after"@,
        ) == Some(bytes_of(decimal(secs as nat))),
        failure.retry_after_secs is None ==> failure_headers(failure, body_len) == json_headers(
            body_len,
        ),
{
    crate::headers::set_headers_have_their_value(
        json_headers(body_len),
        "retry-after"@,
        bytes_of(
            decimal(
                match failure.retry_after_secs {
                    Some(secs) => secs as nat,
                    None => 0,
                },
            ),
        ),
        "retry-after"@,
    );
}

/// A request that a shutdown ended is completed as such, and any other failed request
/// with its message.
pub proof fn failures_are_completed(failure: ShieldedFailureOutcome)
    ensures
        bound_to(failure.response_metadata@, "abort_reason"@, "server_shutdown"@)
            ==> failure_completion(failure) is Shutdown,
        !failure.response_metadata@.contains_key("abort_reason"@) ==> (failure_completion(
            failure,
        ) matches BodyCompletion::UpstreamStreamError(message) && message
            == failure.error_message),
{
}

/// A chat that succeeds owes choices; an answer without them is malformed, and any other
/// answer is not.
pub proof fn answers_without_choices_are_malformed(
    outcome: ShieldedAcceptedOutcome,
    fields: Map<Seq<char>, crate::json::JsonModel>,
)
    requires
        parsed_json(outcome.body@) == Ok::<crate::json::JsonModel, Seq<char>>(crate::json::JsonModel::Object(fields)),
    ensures
        200 <= outcome.final_attempt.upstream_status <= 299 ==> (lacks_choices(
            outcome,
            "/v1/chat/completions"@,
        ) <==> !(fields.contains_key("choices"@) && fields["choices"@] is Array)),
        !(200 <= outcome.final_attempt.upstream_status <= 299) ==> !lacks_choices(
            outcome,
            "/v1/chat/completions"@,
        ),
{
}

/// The context of an attempt is that of the attempt.
pub proof fn contexts_are_of_their_attempt(
    context: FinalAttemptContext,
    info: ShieldedAttemptInfo,
    extra: Bindings,
)
    requires
        is_context_of(context, info, extra),
    ensures
        context.attempt_id@ == info.attempt_id@,
        context.attempt_number == info.attempt_number,
        context.attempt_max_attempts == info.attempt_max_attempts,
        context.started_at_unix_ms == info.started_at_unix_ms,
        context.upstream_mode == info.upstream_mode,
        context.upstream_status == info.upstream_status,
        context.upstream_headers@ == info.upstream_headers@,
        context.request_metadata@ == info.request_metadata@,
        context.extra_response_metadata@ == extra,
        context.raw_payloads@.input == opt_chars(info.raw_request_body),
{
}

/// An observer of a shielded answer watches the request that it was made for.
pub proof fn shielded_observers_watch_their_request(
    observer: ForwardedBodyObserver,
    runtime: ShieldedRuntime,
    downstream_mode: DownstreamMode,
    status: u16,
    headers: Seq<HeaderModel>,
    upstream_mode: UpstreamMode,
    extra: Bindings,
    raw: RawPayloadsModel,
    completed: Seq<AttemptRecordModel>,
)
    requires
        observes_shielded(
            observer,
            runtime,
            downstream_mode,
            status,
            headers,
            upstream_mode,
            extra,
            raw,
            completed,
        ),
    ensures
        observer.request_id@ == runtime.request_id@,
        observer.started_at_unix_ms == runtime.started_at_unix_ms,
        observer.downstream_mode == downstream_mode,
        observer.upstream_mode == upstream_mode,
        observer.downstream_status == status,
        observer.downstream_headers@ == headers,
        opt_chars(observer.model_id) == opt_chars(runtime.model_id),
        opt_chars(observer.input_fingerprint) == opt_chars(runtime.liveness.input_fingerprint),
        observer.request_metadata@ == runtime.request_metadata@,
        observer.extra_response_metadata@ == extra,
        observer.raw_payloads@ == raw,
        record_models(observer.completed_attempt_records@) == completed,
        observer.retry_policy == Some(runtime.retry_policy),
{
}

/// What an observer learns at the end changes nothing else of it.
pub proof fn ends_change_the_end_only(after: ForwardedBodyObserver, before: ForwardedBodyObserver)
    requires
        same_but_for_the_end(after, before),
    ensures
        after.request_id == before.request_id,
        after.started_at_unix_ms == before.started_at_unix_ms,
        after.downstream_mode == before.downstream_mode,
        after.upstream_mode == before.upstream_mode,
        after.model_id == before.model_id,
        after.downstream_status == before.downstream_status,
        after.downstream_headers == before.downstream_headers,
        after.request_metadata == before.request_metadata,
        after.retry_policy == before.retry_policy,
{
}

/// The body of a failure tells its type, its message and the request.
pub proof fn failure_bodies_tell_the_failure(failure: ShieldedFailureOutcome, request_id: Seq<char>)
    ensures
        exists|told: crate::json::JsonModel|
            {
                &&& failure_body(failure, request_id) == encode_utf8(#[trigger] rendered_json(told))
                &&& told.field("error"@) matches Some(error)
                &&& error.field("type"@) == Some(
                    crate::json::JsonModel::Text(failure.error_type@),
                )
                &&& error.field("message"@) == Some(
                    crate::json::JsonModel::Text(failure.error_message@),
                )
            },
{
    let details = DetailsModel {
        cause: match cause_of_failure(
            failure.error_type@,
            failure.error_message@,
            failure.response_metadata@,
        ) {
            Some(cause) => Some(cause.code_text()),
            None => None,
        },
        request_id: Some(request_id),
        ..plain_details(failure.error_type@, failure.error_message@)
    };
    crate::error_bodies::error_bodies_tell_the_error(details);
    let told = error_body(details);
    assert(failure_body(failure, request_id) == encode_utf8(rendered_json(told)));
}

/// What is recorded of an accepted answer holds what the upstream's said and how it is
/// kept alive.
pub proof fn accepted_answers_are_recorded(
    outcome: ShieldedAcceptedOutcome,
    liveness: ShieldedLivenessSelection,
    key: Seq<char>,
)
    ensures
        content_type_of(outcome.final_attempt.upstream_headers@) matches Some(shown)
            ==> accepted_bindings(outcome, liveness)["upstream_response_header_content-type"@]
            == shown,
        ({
            let kept = crate::liveness::liveness_response_bindings(
                liveness,
                content_type_of(outcome.final_attempt.upstream_headers@),
            );
            let told = accepted_bindings(outcome, liveness);
            &&& kept.contains_key(key) && key != "upstream_response_header_content-type"@
                ==> told[key] == kept[key]
            &&& !kept.contains_key(key) && outcome.response_metadata@.contains_key(key) && key
                != "upstream_response_header_content-type"@ ==> told[key]
                == outcome.response_metadata@[key]
        }),
{
}

} // verus!
