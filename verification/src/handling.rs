//! Taking a request in: what is refused at the door, how a request is admitted,
//! and what is recorded and answered where it fails.

use crate::admission::{
    acquired_admission_metadata, acquired_bindings, is_control_plane_models_request,
    prefixed_acquired_admission_metadata, AdmissionFailure, ListenerUpstreamDenied,
};
use crate::error_bodies::{
    details_of, error_body, plain_details, proxy_error_json_body,
    proxy_error_response_from_error_with_diagnostics, ErrorResponse,
};
use crate::errors::{
    bare_error, error_attempts, error_metadata, with_metadata, ErrorKind, ProxyError,
};
use crate::forwarding::is_models_request;
use crate::headers::{announced_length, Headers};
use crate::json::rendered_json;
use crate::message_metadata::{base_request_bindings, pre_upstream_request_metadata};
use crate::metadata::{Bindings, Metadata};
use crate::observations::FailedRequestRecord;
use crate::path::{has_dot_segment, in_scope, validate_openai_path, OpenAiPathError};
use crate::profiles::{add_listener_metadata, with_listener, ListenerConfig};
use crate::records::{record_models, RequestStatus};
use crate::text::{decimal, opt_chars, opt_str_chars, same_text};
use crate::uri::RequestTarget;
use vstd::prelude::*;
use vstd::utf8::encode_utf8;

verus! {

/// The path of the debug summary.
pub const DEBUG_SUMMARY_PATH: &'static str = "/debug/recent-requests";

/// A request as it comes in.
pub struct IncomingRequest {
    pub request_id: String,
    pub started_at_unix_ms: u64,
    pub method: String,
    pub uri: RequestTarget,
    pub headers: Headers,
}

/// What is recorded of a request before its body is read.
pub open spec fn incoming_bindings(
    request: IncomingRequest,
    listener: ListenerConfig,
    shielding_enabled: Option<bool>,
) -> Bindings {
    with_listener(
        base_request_bindings(
            request.method@,
            request.uri@,
            request.headers@,
            announced_length(request.headers@),
            shielding_enabled,
        ),
        listener,
    )
}

/// Records a request before its body is read.
pub fn admission_record_context(
    request: &IncomingRequest,
    listener: &ListenerConfig,
    shielding_enabled: Option<bool>,
) -> (metadata: Metadata)
    ensures
        metadata@ == incoming_bindings(*request, *listener, shielding_enabled),
{
    let mut metadata = pre_upstream_request_metadata(
        request.method.as_str(),
        &request.uri,
        &request.headers,
        shielding_enabled,
    );
    add_listener_metadata(&mut metadata, listener);
    metadata
}

// ---------------------------------------------------------------------------
// At the door
// ---------------------------------------------------------------------------

/// What happens to a request first.
#[derive(Clone, Copy, Debug, PartialEq, Eq, Structural)]
pub enum HandlerStep {
    /// It is answered with the debug summary.
    DebugSummary,
    /// Its path is not proxied.
    RefusePath(OpenAiPathError),
    /// It asks to be admitted.
    Admit,
}

/// What happens to a request first. The debug summary needs a configuration that
/// can be read.
pub open spec fn handler_step(method: Seq<char>, path: Seq<char>, config_readable: bool) -> HandlerStep {
    if method == "GET"@ && path == DEBUG_SUMMARY_PATH@ && config_readable {
        HandlerStep::DebugSummary
    } else if !in_scope(path) {
        HandlerStep::RefusePath(OpenAiPathError::OutsideOpenAiScope)
    } else if has_dot_segment(path) {
        HandlerStep::RefusePath(OpenAiPathError::DotSegment)
    } else {
        HandlerStep::Admit
    }
}

/// Whether a request asks for the debug summary.
pub fn is_configured_debug_summary_request(path: &str, config_readable: bool) -> (is: bool)
    ensures
        is == (path@ == DEBUG_SUMMARY_PATH@ && config_readable),
{
    same_text(path, DEBUG_SUMMARY_PATH) && config_readable
}

/// Decides what happens to a request first.
pub fn first_handler_step(method: &str, path: &str, config_readable: bool) -> (step: HandlerStep)
    ensures
        step == handler_step(method@, path@, config_readable),
{
    if same_text(method, "GET") && is_configured_debug_summary_request(path, config_readable) {
        return HandlerStep::DebugSummary;
    }
    match validate_openai_path(path) {
        Ok(_) => HandlerStep::Admit,
        Err(error) => HandlerStep::RefusePath(error),
    }
}

/// A request that failed: what is recorded and what is answered.
pub struct FailedRequest {
    pub record: FailedRequestRecord,
    pub response: ErrorResponse,
}

/// Whether a record says what it should of a request that failed before any
/// attempt.
pub open spec fn records_refusal(
    record: FailedRequestRecord,
    request: IncomingRequest,
    finished_at_unix_ms: u64,
    status: RequestStatus,
    http_status: u16,
    error_type: Seq<char>,
    error_reason: Seq<char>,
    abort_reason: Option<Seq<char>>,
    metadata: Bindings,
) -> bool {
    &&& record.request_id@ == request.request_id@
    &&& record.started_at_unix_ms == request.started_at_unix_ms
    &&& record.finished_at_unix_ms == finished_at_unix_ms
    &&& record.status == status
    &&& record.http_status == http_status
    &&& record.error_type@ == error_type
    &&& record.error_reason@ == error_reason
    &&& opt_str_chars(record.abort_reason) == abort_reason
    &&& record.request_metadata@ == metadata
    &&& record.attempts@.len() == 0
}

/// Whether a response says what it should of a request that failed before any
/// attempt.
pub open spec fn answers_refusal(
    response: ErrorResponse,
    http_status: u16,
    error_type: Seq<char>,
    error_reason: Seq<char>,
    retry_after_secs: Option<u32>,
) -> bool {
    &&& response.status == http_status
    &&& response.body@ == encode_utf8(
        rendered_json(error_body(plain_details(error_type, error_reason))),
    )
    &&& opt_chars(response.retry_after) == match retry_after_secs {
        Some(secs) => Some(decimal(secs as nat)),
        None => None,
    }
    &&& response.request_id is None
}

/// Refuses a request whose path is not proxied.
pub fn refuse_path(
    error: OpenAiPathError,
    request: &IncomingRequest,
    listener: &ListenerConfig,
    shielding_enabled: Option<bool>,
    finished_at_unix_ms: u64,
) -> (failed: FailedRequest)
    ensures
        records_refusal(
            failed.record,
            *request,
            finished_at_unix_ms,
            RequestStatus::Failed,
            error.status_code(),
            error.type_text(),
            error.message_text(),
            None,
            incoming_bindings(*request, *listener, shielding_enabled),
        ),
        answers_refusal(
            failed.response,
            error.status_code(),
            error.type_text(),
            error.message_text(),
            None,
        ),
{
    let error_type = error.error_type();
    let reason = error.message();
    FailedRequest {
        response: ErrorResponse {
            status: error.status(),
            body: proxy_error_json_body(error_type, reason),
            retry_after: None,
            request_id: None,
        },
        record: FailedRequestRecord {
            request_id: request.request_id.clone(),
            started_at_unix_ms: request.started_at_unix_ms,
            finished_at_unix_ms,
            status: RequestStatus::Failed,
            http_status: error.status(),
            error_type,
            error_reason: reason.to_owned(),
            abort_reason: None,
            request_metadata: admission_record_context(request, listener, shielding_enabled),
            attempts: Vec::new(),
        },
    }
}

// ---------------------------------------------------------------------------
// Admission
// ---------------------------------------------------------------------------

/// What a request holds while it is handled.
#[derive(Clone, Copy, Debug, PartialEq, Eq, Structural)]
pub enum AdmissionPermitKind {
    ControlPlane,
    Generation,
    BodyRouting,
}

/// What a request has to acquire to be admitted. Lists of models have capacity
/// of their own; where profiles have limits, a request is first let in to be
/// routed by its body.
pub open spec fn admission_route(
    method: Seq<char>,
    path: Seq<char>,
    has_profile_limits: bool,
) -> AdmissionPermitKind {
    if is_models_request(method, path) {
        AdmissionPermitKind::ControlPlane
    } else if has_profile_limits {
        AdmissionPermitKind::BodyRouting
    } else {
        AdmissionPermitKind::Generation
    }
}

/// Decides what a request has to acquire to be admitted.
pub fn route_admission(method: &str, path: &str, has_profile_limits: bool) -> (kind:
    AdmissionPermitKind)
    ensures
        kind == admission_route(method@, path@, has_profile_limits),
{
    if is_control_plane_models_request(method, path) {
        AdmissionPermitKind::ControlPlane
    } else if has_profile_limits {
        AdmissionPermitKind::BodyRouting
    } else {
        AdmissionPermitKind::Generation
    }
}

/// What is recorded of a request that was admitted.
pub open spec fn admitted_bindings(kind: AdmissionPermitKind, queue_wait_ms: u64) -> Bindings {
    match kind {
        AdmissionPermitKind::ControlPlane => acquired_bindings(0),
        AdmissionPermitKind::Generation => acquired_bindings(queue_wait_ms),
        AdmissionPermitKind::BodyRouting => Bindings::empty().insert(
            "body_routing"@ + "_admission_outcome"@,
            "acquired"@,
        ).insert("body_routing"@ + "_queue_wait_ms"@, decimal(queue_wait_ms as nat)),
    }
}

/// Records a request that was admitted.
pub fn admitted_metadata(kind: AdmissionPermitKind, queue_wait_ms: u64) -> (metadata: Metadata)
    ensures
        metadata@ == admitted_bindings(kind, queue_wait_ms),
{
    match kind {
        AdmissionPermitKind::ControlPlane => acquired_admission_metadata(0),
        AdmissionPermitKind::Generation => acquired_admission_metadata(queue_wait_ms),
        AdmissionPermitKind::BodyRouting => prefixed_acquired_admission_metadata(
            "body_routing",
            queue_wait_ms,
        ),
    }
}

/// Refuses a request while the configuration cannot be read.
pub fn refuse_without_config(
    reason: String,
    request: &IncomingRequest,
    listener: &ListenerConfig,
    finished_at_unix_ms: u64,
) -> (failed: FailedRequest)
    ensures
        records_refusal(
            failed.record,
            *request,
            finished_at_unix_ms,
            RequestStatus::Failed,
            500,
            "config_snapshot_failed"@,
            reason@,
            None,
            incoming_bindings(*request, *listener, None),
        ),
        answers_refusal(failed.response, 500, "config_snapshot_failed"@, reason@, None),
{
    FailedRequest {
        response: ErrorResponse {
            status: 500,
            body: proxy_error_json_body("config_snapshot_failed", reason.as_str()),
            retry_after: None,
            request_id: None,
        },
        record: FailedRequestRecord {
            request_id: request.request_id.clone(),
            started_at_unix_ms: request.started_at_unix_ms,
            finished_at_unix_ms,
            status: RequestStatus::Failed,
            http_status: 500,
            error_type: "config_snapshot_failed",
            error_reason: reason,
            abort_reason: None,
            request_metadata: admission_record_context(request, listener, None),
            attempts: Vec::new(),
        },
    }
}

/// Refuses a request that is not admitted.
pub fn reject_admission(
    failure: &AdmissionFailure,
    request: &IncomingRequest,
    listener: &ListenerConfig,
    shielding_enabled: Option<bool>,
    finished_at_unix_ms: u64,
) -> (failed: FailedRequest)
    ensures
        records_refusal(
            failed.record,
            *request,
            finished_at_unix_ms,
            failure.outcome(),
            failure.status_code(),
            failure.type_text(),
            failure.message_text(),
            failure.abort_text(),
            incoming_bindings(*request, *listener, shielding_enabled).union_prefer_right(
                failure.bindings(),
            ),
        ),
        answers_refusal(
            failed.response,
            failure.status_code(),
            failure.type_text(),
            failure.message_text(),
            failure.retry_seconds(),
        ),
{
    let error_type = failure.error_type();
    let reason = failure.message();
    let mut metadata = admission_record_context(request, listener, shielding_enabled);
    metadata.extend(&failure.request_metadata());
    FailedRequest {
        response: ErrorResponse {
            status: failure.status(),
            body: proxy_error_json_body(error_type, reason.as_str()),
            retry_after: failure.retry_after(),
            request_id: None,
        },
        record: FailedRequestRecord {
            request_id: request.request_id.clone(),
            started_at_unix_ms: request.started_at_unix_ms,
            finished_at_unix_ms,
            status: failure.request_status(),
            http_status: failure.status(),
            error_type,
            error_reason: reason,
            abort_reason: failure.abort_reason(),
            request_metadata: metadata,
            attempts: Vec::new(),
        },
    }
}

/// The error of a request that is not admitted after its body was read.
pub fn admission_proxy_error(failure: AdmissionFailure, request_metadata: Metadata) -> (error:
    ProxyError)
    ensures
        error@ == with_metadata(
            bare_error(ErrorKind::Admission { failure }),
            request_metadata@.union_prefer_right(failure.bindings()),
        ),
{
    let mut metadata = request_metadata;
    metadata.extend(&failure.request_metadata());
    ProxyError::admission(failure).with_request_metadata(metadata)
}

/// What a request does once its body was read.
#[derive(Clone, Copy, Debug, PartialEq, Eq, Structural)]
pub enum BodyAdmissionStep {
    /// It goes on with what it holds.
    GoOn,
    /// It gives back what it holds, waits for the restart of its upstream, and
    /// then acquires the capacity of its profile.
    WaitForRestart,
    /// It acquires the capacity of its profile in place of what it holds.
    AcquireForProfile,
}

/// What a request does once its body was read.
pub open spec fn body_admission(
    method: Seq<char>,
    path: Seq<char>,
    restart_queue_enabled: bool,
    held: AdmissionPermitKind,
) -> BodyAdmissionStep {
    if is_models_request(method, path) {
        BodyAdmissionStep::GoOn
    } else if restart_queue_enabled {
        BodyAdmissionStep::WaitForRestart
    } else if held is Generation {
        BodyAdmissionStep::GoOn
    } else {
        BodyAdmissionStep::AcquireForProfile
    }
}

/// Decides what a request does once its body was read. `profile` is whether the
/// profile that serves it has a queue in front of its restarts, or why none serves
/// it.
pub fn admit_generation_after_body(
    method: &str,
    path: &str,
    profile: Result<bool, ListenerUpstreamDenied>,
    held: AdmissionPermitKind,
    request_metadata: &Metadata,
) -> (step: Result<BodyAdmissionStep, ProxyError>)
    ensures
        match step {
            Ok(step) => {
                &&& is_models_request(method@, path@) || profile is Ok
                &&& step == body_admission(
                    method@,
                    path@,
                    profile is Ok && profile->Ok_0,
                    held,
                )
            },
            Err(error) => {
                &&& !is_models_request(method@, path@)
                &&& profile is Err
                &&& error@ == with_metadata(
                    bare_error(
                        ErrorKind::ListenerUpstreamDenied { failure: profile->Err_0 },
                    ),
                    request_metadata@,
                )
            },
        },
{
    if is_control_plane_models_request(method, path) {
        return Ok(BodyAdmissionStep::GoOn);
    }
    let restart_queue_enabled = match profile {
        Ok(enabled) => enabled,
        Err(denied) => {
            return Err(
                ProxyError::listener_denied(denied).with_request_metadata(request_metadata.clone()),
            );
        },
    };
    if restart_queue_enabled {
        return Ok(BodyAdmissionStep::WaitForRestart);
    }
    match held {
        AdmissionPermitKind::Generation => Ok(BodyAdmissionStep::GoOn),
        _ => Ok(BodyAdmissionStep::AcquireForProfile),
    }
}

/// What is recorded of the admissions of a request.
pub fn body_admitted_metadata(
    step: BodyAdmissionStep,
    admission_metadata: Metadata,
    queue_wait_ms: u64,
) -> (metadata: Metadata)
    ensures
        metadata@ == if step is GoOn {
            admission_metadata@
        } else {
            admission_metadata@.union_prefer_right(acquired_bindings(queue_wait_ms))
        },
{
    match step {
        BodyAdmissionStep::GoOn => admission_metadata,
        _ => {
            let mut metadata = admission_metadata;
            metadata.extend(&acquired_admission_metadata(queue_wait_ms));
            metadata
        },
    }
}

/// No request is handled while it holds only what lets it be routed by its body:
/// once the body was read, it goes on with the capacity that it needs, or acquires
/// it.
pub proof fn routed_requests_acquire_capacity(
    method: Seq<char>,
    path: Seq<char>,
    has_profile_limits: bool,
    restart_queue_enabled: bool,
)
    ensures
        ({
            let held = admission_route(method, path, has_profile_limits);
            held is BodyRouting ==> !(body_admission(method, path, restart_queue_enabled, held)
                is GoOn)
        }),
{
}

// ---------------------------------------------------------------------------
// Requests that fail
// ---------------------------------------------------------------------------

/// The metadata recorded of a request that failed with an error.
pub open spec fn failed_bindings(error: ProxyError) -> Bindings {
    match error_metadata(error@) {
        Some(metadata) => metadata,
        None => Bindings::empty().insert("proxy_error"@, error.kind.type_text()),
    }
}

/// Ends a request with an error: what is recorded and what is answered.
pub fn fail_request(
    error: &ProxyError,
    request_id: &str,
    started_at_unix_ms: u64,
    finished_at_unix_ms: u64,
) -> (failed: FailedRequest)
    ensures
        ({
            let record = failed.record;
            &&& record.request_id@ == request_id@
            &&& record.started_at_unix_ms == started_at_unix_ms
            &&& record.finished_at_unix_ms == finished_at_unix_ms
            &&& record.status == error.kind.outcome()
            &&& record.http_status == error.kind.status_code()
            &&& record.error_type@ == error.kind.type_text()
            &&& record.error_reason@ == error.kind.message_text()
            &&& opt_str_chars(record.abort_reason) == error.kind.abort_text()
            &&& record.request_metadata@ == failed_bindings(*error)
            &&& record_models(record.attempts@) == error_attempts(error@)
        }),
        failed.response.status == error.kind.status_code(),
        failed.response.body@ == encode_utf8(
            rendered_json(error_body(details_of(error.kind, Some(request_id@)))),
        ),
        opt_chars(failed.response.retry_after) == match error.kind {
            ErrorKind::Admission { failure } => match failure.retry_seconds() {
                Some(secs) => Some(decimal(secs as nat)),
                None => None,
            },
            _ => None,
        },
        opt_chars(failed.response.request_id) == match error.kind {
            ErrorKind::Admission { .. } => None,
            _ => Some(request_id@),
        },
{
    let response = proxy_error_response_from_error_with_diagnostics(error, Some(request_id));
    let request_metadata = match error.request_metadata() {
        Some(metadata) => metadata,
        None => {
            let mut metadata = Metadata::new();
            metadata.set("proxy_error", error.error_type());
            metadata
        },
    };
    FailedRequest {
        response,
        record: FailedRequestRecord {
            request_id: request_id.to_owned(),
            started_at_unix_ms,
            finished_at_unix_ms,
            status: error.request_status(),
            http_status: error.status(),
            error_type: error.error_type(),
            error_reason: error.message(),
            abort_reason: error.abort_reason(),
            request_metadata,
            attempts: error.attempt_records(),
        },
    }
}

/// The first step of a request: the summary where it is asked for and can be given, a
/// refusal where the path is not proxied, and admission otherwise.
pub proof fn requests_are_sorted_by_their_path(
    method: Seq<char>,
    path: Seq<char>,
    config_readable: bool,
)
    ensures
        ({
            let step = handler_step(method, path, config_readable);
            let summary = method == "GET"@ && path == DEBUG_SUMMARY_PATH@ && config_readable;
            &&& step is DebugSummary <==> summary
            &&& !summary && path != "/v1"@ && !crate::text::has_prefix(path, "/v1/"@) ==> step == (
            HandlerStep::RefusePath(OpenAiPathError::OutsideOpenAiScope))
            &&& !summary && (path == "/v1"@ || crate::text::has_prefix(path, "/v1/"@))
                && has_dot_segment(path) ==> step == HandlerStep::RefusePath(
                OpenAiPathError::DotSegment,
            )
            &&& step is Admit <==> !summary && (path == "/v1"@ || crate::text::has_prefix(
                path,
                "/v1/"@,
            )) && !has_dot_segment(path)
        }),
{
}

/// A list of models takes a permit of its own, a request whose profile has limits one to
/// read its body, and any other one to generate; once its body is read, a request asks
/// for what it still lacks.
pub proof fn requests_ask_for_their_permit(
    method: Seq<char>,
    path: Seq<char>,
    has_profile_limits: bool,
    restart_queue_enabled: bool,
    held: AdmissionPermitKind,
)
    ensures
        ({
            let models = method == "GET"@ && path == "/v1/models"@;
            let route = admission_route(method, path, has_profile_limits);
            let step = body_admission(method, path, restart_queue_enabled, held);
            &&& route is ControlPlane <==> models
            &&& route is BodyRouting <==> !models && has_profile_limits
            &&& route is Generation <==> !models && !has_profile_limits
            &&& step is WaitForRestart <==> !models && restart_queue_enabled
            &&& step is AcquireForProfile <==> !models && !restart_queue_enabled && !(held
                is Generation)
        }),
{
}

/// A refused request is on record as it came and as it was refused, without an attempt.
pub proof fn refused_requests_are_on_record(
    record: FailedRequestRecord,
    request: IncomingRequest,
    finished_at_unix_ms: u64,
    status: RequestStatus,
    http_status: u16,
    error_type: Seq<char>,
    error_reason: Seq<char>,
    abort_reason: Option<Seq<char>>,
    metadata: Bindings,
)
    requires
        records_refusal(
            record,
            request,
            finished_at_unix_ms,
            status,
            http_status,
            error_type,
            error_reason,
            abort_reason,
            metadata,
        ),
    ensures
        record.request_id@ == request.request_id@,
        record.started_at_unix_ms == request.started_at_unix_ms,
        record.finished_at_unix_ms == finished_at_unix_ms,
        record.status == status,
        record.http_status == http_status,
        record.error_type@ == error_type,
        record.error_reason@ == error_reason,
        opt_str_chars(record.abort_reason) == abort_reason,
        record.request_metadata@ == metadata,
        record.attempts@.len() == 0,
{
}

/// A refused request is answered with its status, its type and its reason, and with when
/// to come back where that is known.
pub proof fn refused_requests_are_answered(
    response: ErrorResponse,
    http_status: u16,
    error_type: Seq<char>,
    error_reason: Seq<char>,
    retry_after_secs: Option<u32>,
)
    requires
        answers_refusal(response, http_status, error_type, error_reason, retry_after_secs),
    ensures
        response.status == http_status,
        retry_after_secs matches Some(secs) ==> opt_chars(response.retry_after) == Some(
            decimal(secs as nat),
        ),
        retry_after_secs is None ==> response.retry_after is None,
        exists|told: crate::json::JsonModel|
            {
                &&& response.body@ == encode_utf8(#[trigger] rendered_json(told))
                &&& told.field("error"@) matches Some(error)
                &&& error.field("type"@) == Some(crate::json::JsonModel::Text(error_type))
                &&& error.field("message"@) == Some(crate::json::JsonModel::Text(error_reason))
            },
{
    let details = plain_details(error_type, error_reason);
    crate::error_bodies::error_bodies_tell_the_error(details);
    let told = error_body(details);
    assert(response.body@ == encode_utf8(rendered_json(told)));
}

/// What is recorded of an admitted request says how long it waited; control requests
/// never wait.
pub proof fn admitted_requests_say_how_long_they_waited(wait: u64, error: ProxyError)
    ensures
        admitted_bindings(AdmissionPermitKind::Generation, wait)["queue_wait_ms"@] == decimal(
            wait as nat,
        ),
        admitted_bindings(AdmissionPermitKind::Generation, wait)["admission_outcome"@]
            == "acquired"@,
        admitted_bindings(AdmissionPermitKind::ControlPlane, wait)["queue_wait_ms"@] == decimal(0),
        admitted_bindings(AdmissionPermitKind::BodyRouting, wait)["body_routing_queue_wait_ms"@]
            == decimal(wait as nat),
        admitted_bindings(
            AdmissionPermitKind::BodyRouting,
            wait,
        )["body_routing_admission_outcome"@] == "acquired"@,
        error_metadata(error@) matches Some(metadata) ==> failed_bindings(error) == metadata,
        error_metadata(error@) is None ==> failed_bindings(error)["proxy_error"@]
            == error.kind.type_text(),
{
    reveal_strlit("body_routing");
    reveal_strlit("_admission_outcome");
    reveal_strlit("_queue_wait_ms");
    reveal_strlit("body_routing_queue_wait_ms");
    reveal_strlit("body_routing_admission_outcome");
    assert("body_routing"@ + "_queue_wait_ms"@ =~= "body_routing_queue_wait_ms"@);
    assert("body_routing"@ + "_admission_outcome"@ =~= "body_routing_admission_outcome"@);
    crate::admission::admissions_are_recorded(wait);
    crate::admission::admissions_are_recorded(0);
}

/// What is recorded of an incoming request says which listener took it.
pub proof fn incoming_requests_are_recorded(
    request: IncomingRequest,
    listener: ListenerConfig,
    shielding: Option<bool>,
)
    ensures
        ({
            let told = incoming_bindings(request, listener, shielding);
            &&& told.contains_key("listener_name"@) && told["listener_name"@] == listener.name@
            &&& told.contains_key("listener_bind_host"@) && told["listener_bind_host"@] == listener.bind_host@
            &&& told.contains_key("listener_port"@) && told["listener_port"@] == decimal(listener.port as nat)
        }),
{
    reveal_strlit("listener_name");
    reveal_strlit("listener_bind_host");
    reveal_strlit("listener_port");
    reveal_strlit("listener_restricted");
    assert("listener_name"@.len() == 13);
    assert("listener_bind_host"@.len() == 18);
    assert("listener_port"@.len() == 13);
    assert("listener_restricted"@.len() == 19);
    assert("listener_name"@[9] != "listener_port"@[9]);
}

} // verus!
