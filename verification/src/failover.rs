//! Trying one endpoint of an upstream after the other.

use crate::errors::{bare_error, with_attempt, with_earlier_attempts, ErrorKind, ProxyError};
use crate::failures::ReqwestFailureKind;
use crate::headers::{
    copy_selected_header_metadata, upstream_mode_from_headers, upstream_mode_of,
    with_selected_headers, Headers,
};
use crate::message_metadata::{
    elapsed, failed_response_bindings, is_success, response_bindings, response_metadata,
    status_is_success,
};
use crate::metadata::{Bindings, Metadata};
use crate::observations::{failed_attempt_record, FailedAttemptRecordInput};
use crate::records::{
    no_payloads, no_usage, push_record, record_models, AttemptRecord, AttemptRecordModel,
    AttemptStatus, RawPayloads, TokenUsage, UpstreamMode,
};
use crate::text::{bool_chars, chars_list, decimal, decimal_text, joined, same_text};
use vstd::prelude::*;

verus! {

/// What an endpoint speaks.
#[derive(Clone, Copy, Debug, PartialEq, Eq, Structural)]
pub enum UpstreamEndpointProtocol {
    OpenAi,
    DeepInfraQwen3Rerank,
}

/// What the decisions read of an endpoint.
pub struct UpstreamEndpointConfig {
    pub base_url: String,
    /// The base URL as it may be shown.
    pub display_url: String,
    pub protocol: UpstreamEndpointProtocol,
    pub priority_label: String,
    /// Whether the endpoint has a credential of its own.
    pub has_credential: bool,
    /// Whether the health of the endpoint is only known from requests to it.
    pub is_passive_cloud: bool,
}

impl Clone for UpstreamEndpointConfig {
    fn clone(&self) -> (copy: UpstreamEndpointConfig)
        ensures
            copy == *self,
    {
        UpstreamEndpointConfig {
            base_url: self.base_url.clone(),
            display_url: self.display_url.clone(),
            protocol: self.protocol,
            priority_label: self.priority_label.clone(),
            has_credential: self.has_credential,
            is_passive_cloud: self.is_passive_cloud,
        }
    }
}

/// A response that an endpoint gave.
pub struct ObservedEndpointResponse {
    pub status: u16,
    pub headers: Headers,
}

/// An attempt at one endpoint.
pub struct PhysicalEndpointAttempt {
    pub attempt_id: String,
    pub attempt_number: u32,
    pub started_at_unix_ms: u64,
    pub request_metadata: Metadata,
    pub endpoint: Option<UpstreamEndpointConfig>,
    pub protocol: UpstreamEndpointProtocol,
    pub observed_response: Option<ObservedEndpointResponse>,
}

/// What came of an attempt at one endpoint.
pub enum EndpointResult {
    Response(ObservedEndpointResponse),
    Failed(ProxyError),
}

// ---------------------------------------------------------------------------
// Judging a result
// ---------------------------------------------------------------------------

/// Whether an endpoint has a credential of its own.
pub open spec fn has_credential(endpoint: Option<UpstreamEndpointConfig>) -> bool {
    match endpoint {
        Some(endpoint) => endpoint.has_credential,
        None => false,
    }
}

/// Whether a refusal to authorise is the endpoint's matter and not the caller's.
pub open spec fn owns_credential(
    protocol: UpstreamEndpointProtocol,
    endpoint: Option<UpstreamEndpointConfig>,
) -> bool {
    protocol is DeepInfraQwen3Rerank || has_credential(endpoint)
}

/// Whether a status is worth trying another endpoint.
pub open spec fn status_is_retryable(
    status: u16,
    protocol: UpstreamEndpointProtocol,
    endpoint: Option<UpstreamEndpointConfig>,
) -> bool {
    if status == 401 || status == 403 {
        owns_credential(protocol, endpoint)
    } else {
        status == 408 || status == 429 || status == 500 || status == 502 || status == 503 || status
            == 504
    }
}

/// Whether an error is worth trying another endpoint.
pub open spec fn error_is_retryable(kind: ErrorKind) -> bool {
    match kind {
        ErrorKind::UpstreamTransport { failure } => failure is Connect || failure is Timeout,
        ErrorKind::UpstreamBody { .. } => true,
        _ => false,
    }
}

/// Whether a result is worth trying another endpoint.
pub open spec fn is_retryable(
    result: EndpointResult,
    protocol: UpstreamEndpointProtocol,
    endpoint: Option<UpstreamEndpointConfig>,
) -> bool {
    match result {
        EndpointResult::Response(response) => status_is_retryable(
            response.status,
            protocol,
            endpoint,
        ),
        EndpointResult::Failed(error) => error_is_retryable(error.kind),
    }
}

/// Whether an endpoint has a credential of its own.
pub fn endpoint_has_configured_credential(endpoint: &Option<UpstreamEndpointConfig>) -> (has: bool)
    ensures
        has == has_credential(*endpoint),
{
    match endpoint {
        Some(endpoint) => endpoint.has_credential,
        None => false,
    }
}

/// Whether a result is worth trying another endpoint.
pub fn is_retryable_endpoint_result(
    result: &EndpointResult,
    protocol: UpstreamEndpointProtocol,
    endpoint: &Option<UpstreamEndpointConfig>,
) -> (retryable: bool)
    ensures
        retryable == is_retryable(*result, protocol, *endpoint),
        (*result matches EndpointResult::Failed(error) && error.kind
            matches ErrorKind::UpstreamTransport { failure } && (failure is Connect || failure
            is Timeout)) ==> retryable,
{
    match result {
        EndpointResult::Response(response) => {
            let status: u16 = response.status;
            if status == 401 || status == 403 {
                protocol == UpstreamEndpointProtocol::DeepInfraQwen3Rerank
                    || endpoint_has_configured_credential(endpoint)
            } else {
                status == 408 || status == 429 || status == 500 || status == 502 || status == 503
                    || status == 504
            }
        },
        EndpointResult::Failed(error) => match &error.kind {
            ErrorKind::UpstreamTransport { failure } => match failure {
                ReqwestFailureKind::Connect | ReqwestFailureKind::Timeout => true,
                _ => false,
            },
            ErrorKind::UpstreamBody { .. } => true,
            _ => false,
        },
    }
}

/// How a result is recorded.
pub open spec fn disposition(
    result: EndpointResult,
    protocol: UpstreamEndpointProtocol,
    endpoint: Option<UpstreamEndpointConfig>,
) -> Seq<char> {
    if is_retryable(result, protocol, endpoint) {
        "retryable_failure"@
    } else {
        match result {
            EndpointResult::Response(response) => if is_success(response.status) {
                "success"@
            } else {
                "nonretryable_response"@
            },
            EndpointResult::Failed(_) => "terminal_failure"@,
        }
    }
}

/// How a result is recorded.
pub fn endpoint_disposition(
    result: &EndpointResult,
    protocol: UpstreamEndpointProtocol,
    endpoint: &Option<UpstreamEndpointConfig>,
) -> (text: &'static str)
    ensures
        text@ == disposition(*result, protocol, *endpoint),
{
    if is_retryable_endpoint_result(result, protocol, endpoint) {
        return "retryable_failure";
    }
    match result {
        EndpointResult::Response(response) => {
            if status_is_success(response.status) {
                "success"
            } else {
                "nonretryable_response"
            }
        },
        EndpointResult::Failed(_) => "terminal_failure",
    }
}

/// A successful response is never tried again.
pub proof fn successes_are_kept(
    response: ObservedEndpointResponse,
    protocol: UpstreamEndpointProtocol,
    endpoint: Option<UpstreamEndpointConfig>,
)
    requires
        is_success(response.status),
    ensures
        !is_retryable(EndpointResult::Response(response), protocol, endpoint),
        disposition(EndpointResult::Response(response), protocol, endpoint) == "success"@,
{
}

/// Whether the endpoint of an attempt is marked unhealthy: where its result is tried
/// elsewhere. A rate limit that is the caller's own matter says nothing of the endpoint.
pub open spec fn marks_unhealthy(attempt: PhysicalEndpointAttempt, result: EndpointResult) -> bool {
    is_retryable(result, attempt.protocol, attempt.endpoint) && attempt.endpoint is Some && (
    owns_credential(attempt.protocol, attempt.endpoint) || !(result
        matches EndpointResult::Response(response) && response.status == 429))
}

/// Whether the endpoint of an attempt is marked unhealthy.
pub fn marks_endpoint_unhealthy(
    attempt: &PhysicalEndpointAttempt,
    result: &EndpointResult,
) -> (marks: bool)
    ensures
        marks == marks_unhealthy(*attempt, *result),
{
    let caller_limited = match result {
        EndpointResult::Response(response) => response.status == 429,
        EndpointResult::Failed(_) => false,
    };
    is_retryable_endpoint_result(result, attempt.protocol, &attempt.endpoint)
        && attempt.endpoint.is_some() && (attempt.protocol
        == UpstreamEndpointProtocol::DeepInfraQwen3Rerank || endpoint_has_configured_credential(
        &attempt.endpoint,
    ) || !caller_limited)
}

/// Whether the endpoint of the last attempt is marked healthy: its health is only
/// known from requests, and it gave a response that is kept.
pub open spec fn marks_healthy(attempt: PhysicalEndpointAttempt, result: EndpointResult) -> bool {
    attempt.endpoint is Some && attempt.endpoint->Some_0.is_passive_cloud && !is_retryable(
        result,
        attempt.protocol,
        attempt.endpoint,
    ) && result is Response
}

/// Whether the endpoint of the last attempt is marked healthy.
pub fn marks_endpoint_healthy(attempt: &PhysicalEndpointAttempt, result: &EndpointResult) -> (marks:
    bool)
    ensures
        marks == marks_healthy(*attempt, *result),
{
    match &attempt.endpoint {
        Some(endpoint) => {
            if !endpoint.is_passive_cloud {
                return false;
            }
        },
        None => {
            return false;
        },
    }
    if is_retryable_endpoint_result(result, attempt.protocol, &attempt.endpoint) {
        return false;
    }
    match result {
        EndpointResult::Response(_) => true,
        EndpointResult::Failed(_) => false,
    }
}

/// A result that is kept never marks its endpoint unhealthy, and no endpoint is marked
/// both ways.
pub proof fn kept_results_leave_endpoints_healthy(
    attempt: PhysicalEndpointAttempt,
    result: EndpointResult,
)
    ensures
        !is_retryable(result, attempt.protocol, attempt.endpoint) ==> !marks_unhealthy(
            attempt,
            result,
        ),
        !(marks_unhealthy(attempt, result) && marks_healthy(attempt, result)),
{
}

/// Why an attempt at an endpoint is followed by another.
pub open spec fn retry_reason_text(result: EndpointResult) -> Seq<char> {
    match result {
        EndpointResult::Response(response) => "endpoint_http_"@ + decimal(response.status as nat),
        EndpointResult::Failed(error) => match error.kind {
            ErrorKind::UpstreamTransport { failure } => "endpoint_"@ + failure.label(),
            ErrorKind::UpstreamBody { .. } => "endpoint_protocol_response"@,
            _ => "endpoint_retry"@,
        },
    }
}

/// Why an attempt at an endpoint is followed by another.
pub fn retry_reason_for_endpoint_result(result: &EndpointResult) -> (reason: String)
    ensures
        reason@ == retry_reason_text(*result),
{
    match result {
        EndpointResult::Response(response) => joined(
            "endpoint_http_",
            decimal_text(response.status as u64).as_str(),
        ),
        EndpointResult::Failed(error) => match &error.kind {
            ErrorKind::UpstreamTransport { failure } => joined("endpoint_", failure.as_str()),
            ErrorKind::UpstreamBody { .. } => "endpoint_protocol_response".to_owned(),
            _ => "endpoint_retry".to_owned(),
        },
    }
}

/// How long an attempt at one endpoint may take: the configured time, and no more
/// than an equal share of what the request has left, for each attempt that may
/// still come. Times are in nanoseconds.
pub open spec fn shared_timeout(
    configured_ns: u64,
    left_ns: Option<u64>,
    attempts_remaining: usize,
) -> Option<u64> {
    let shares = if attempts_remaining == 0 {
        1
    } else if attempts_remaining > u32::MAX {
        u32::MAX as int
    } else {
        attempts_remaining as int
    };
    match left_ns {
        None => Some(configured_ns),
        Some(left) => if left == 0 {
            None
        } else if configured_ns <= left as int / shares {
            Some(configured_ns)
        } else {
            Some((left as int / shares) as u64)
        },
    }
}

/// How long an attempt at one endpoint may take. A request without time left
/// fails as if it had timed out.
pub fn upstream_timeout_within_deadline(
    configured_ns: u64,
    left_ns: Option<u64>,
    attempts_remaining: usize,
) -> (timeout: Result<u64, ProxyError>)
    ensures
        match timeout {
            Ok(timeout_ns) => shared_timeout(configured_ns, left_ns, attempts_remaining) == Some(
                timeout_ns,
            ),
            Err(error) => {
                &&& shared_timeout(configured_ns, left_ns, attempts_remaining) is None
                &&& error@ == crate::errors::bare_error(
                    ErrorKind::UpstreamTransport { failure: ReqwestFailureKind::Timeout },
                )
            },
        },
{
    let left: u64 = match left_ns {
        Some(left) => left,
        None => {
            return Ok(configured_ns);
        },
    };
    if left == 0 {
        return Err(ProxyError::upstream_transport(ReqwestFailureKind::Timeout));
    }
    let shares: u64 = if attempts_remaining == 0 {
        1
    } else if attempts_remaining as u64 > 0xffff_ffff {
        0xffff_ffff
    } else {
        attempts_remaining as u64
    };
    let share: u64 = left / shares;
    if configured_ns <= share {
        Ok(configured_ns)
    } else {
        Ok(share)
    }
}

/// However many attempts come, together they take no more time than the request
/// has left.
pub proof fn attempts_share_the_time(configured_ns: u64, left_ns: u64, attempts: usize)
    requires
        0 < left_ns,
        0 < attempts <= u32::MAX,
    ensures
        shared_timeout(configured_ns, Some(left_ns), attempts) is Some,
        shared_timeout(configured_ns, Some(left_ns), attempts)->Some_0 * attempts <= left_ns,
{
    let share = left_ns as int / attempts as int;
    assert(share * attempts <= left_ns) by (nonlinear_arith)
        requires
            share == left_ns as int / attempts as int,
            attempts > 0,
            left_ns >= 0,
    ;
    let timeout = shared_timeout(configured_ns, Some(left_ns), attempts)->Some_0;
    assert(timeout <= share);
    assert(timeout * attempts <= share * attempts) by (nonlinear_arith)
        requires
            timeout <= share,
            attempts > 0,
    ;
}

// ---------------------------------------------------------------------------
// Metadata
// ---------------------------------------------------------------------------

/// The bindings with an attempt at an endpoint recorded.
pub open spec fn with_endpoint(
    bindings: Bindings,
    protocol_label: Seq<char>,
    endpoint: Option<UpstreamEndpointConfig>,
    display_url: Seq<char>,
    path: Seq<char>,
    body_len: nat,
    failover_selected: bool,
) -> Bindings {
    bindings.insert("upstream_endpoint_protocol"@, protocol_label).insert(
        "upstream_endpoint_base_url"@,
        match endpoint {
            Some(endpoint) => endpoint.display_url@,
            None => display_url,
        },
    ).insert(
        "upstream_endpoint_priority"@,
        match endpoint {
            Some(endpoint) => endpoint.priority_label@,
            None => "primary"@,
        },
    ).insert("upstream_failover_selected"@, bool_chars(failover_selected)).insert(
        "path"@,
        path,
    ).insert("upstream_request_body_bytes"@, decimal(body_len))
}

/// Records an attempt at an endpoint. `display_url` is the URL of the request as
/// it may be shown and `path` its path.
pub fn annotate_physical_endpoint_attempt(
    metadata: &mut Metadata,
    protocol_label: &str,
    endpoint: &Option<UpstreamEndpointConfig>,
    display_url: &str,
    path: &str,
    body_len: usize,
    failover_selected: bool,
)
    ensures
        final(metadata)@ == with_endpoint(
            old(metadata)@,
            protocol_label@,
            *endpoint,
            display_url@,
            path@,
            body_len as nat,
            failover_selected,
        ),
{
    metadata.set("upstream_endpoint_protocol", protocol_label);
    match endpoint {
        Some(endpoint) => {
            metadata.set("upstream_endpoint_base_url", endpoint.display_url.as_str());
            metadata.set("upstream_endpoint_priority", endpoint.priority_label.as_str());
        },
        None => {
            metadata.set("upstream_endpoint_base_url", display_url);
            metadata.set("upstream_endpoint_priority", "primary");
        },
    }
    metadata.set_bool("upstream_failover_selected", failover_selected);
    metadata.set("path", path);
    metadata.set_number("upstream_request_body_bytes", body_len as u64);
}

/// The bindings of a request without what speaks of one endpoint.
pub open spec fn without_endpoint(bindings: Bindings) -> Bindings {
    bindings.remove("upstream_endpoint_protocol"@).remove("upstream_endpoint_base_url"@).remove(
        "upstream_endpoint_priority"@,
    ).remove("upstream_failover_selected"@).remove("path"@).remove(
        "upstream_request_body_bytes"@,
    )
}

/// The metadata that the next attempt takes over from one.
pub fn context_attempt_metadata(attempt: &PhysicalEndpointAttempt) -> (metadata: Metadata)
    ensures
        metadata@ == without_endpoint(attempt.request_metadata@),
{
    attempt.request_metadata.without("upstream_endpoint_protocol").without(
        "upstream_endpoint_base_url",
    ).without("upstream_endpoint_priority").without("upstream_failover_selected").without(
        "path",
    ).without("upstream_request_body_bytes")
}

/// What an attempt sends, as far as it is recorded.
pub struct EndpointTarget<'a> {
    /// The name of what the endpoint speaks.
    pub protocol_label: &'a str,
    /// The URL of the request as it may be shown.
    pub display_url: &'a str,
    pub path: &'a str,
    pub body_len: usize,
}

/// The first attempt of a request, at the endpoint that was selected for it.
pub fn first_endpoint_attempt(
    attempt_id: String,
    attempt_number: u32,
    started_at_unix_ms: u64,
    request_metadata: &Metadata,
    endpoint: Option<UpstreamEndpointConfig>,
    protocol: UpstreamEndpointProtocol,
    target: EndpointTarget<'_>,
) -> (attempt: PhysicalEndpointAttempt)
    ensures
        attempt.attempt_id == attempt_id,
        attempt.attempt_number == attempt_number,
        attempt.started_at_unix_ms == started_at_unix_ms,
        attempt.endpoint == endpoint,
        attempt.protocol == protocol,
        attempt.observed_response is None,
        attempt.request_metadata@ == with_endpoint(
            request_metadata@,
            target.protocol_label@,
            endpoint,
            target.display_url@,
            target.path@,
            target.body_len as nat,
            false,
        ),
{
    let mut metadata = request_metadata.clone();
    annotate_physical_endpoint_attempt(
        &mut metadata,
        target.protocol_label,
        &endpoint,
        target.display_url,
        target.path,
        target.body_len,
        false,
    );
    PhysicalEndpointAttempt {
        attempt_id,
        attempt_number,
        started_at_unix_ms,
        request_metadata: metadata,
        endpoint,
        protocol,
        observed_response: None,
    }
}

/// The attempt at the endpoint that was selected after another failed. `target` is
/// what it sends, where the request can be written for the endpoint.
pub fn next_endpoint_attempt(
    before: &PhysicalEndpointAttempt,
    attempt_id: String,
    attempt_number: u32,
    started_at_unix_ms: u64,
    endpoint: UpstreamEndpointConfig,
    target: Option<EndpointTarget<'_>>,
) -> (attempt: PhysicalEndpointAttempt)
    ensures
        attempt.attempt_id == attempt_id,
        attempt.attempt_number == attempt_number,
        attempt.started_at_unix_ms == started_at_unix_ms,
        attempt.endpoint == Some(endpoint),
        attempt.protocol == endpoint.protocol,
        attempt.observed_response is None,
        attempt.request_metadata@ == match target {
            Some(target) => with_endpoint(
                without_endpoint(before.request_metadata@),
                target.protocol_label@,
                Some(endpoint),
                target.display_url@,
                target.path@,
                target.body_len as nat,
                true,
            ),
            None => without_endpoint(before.request_metadata@),
        },
{
    let mut metadata = context_attempt_metadata(before);
    let protocol = endpoint.protocol;
    let endpoint = Some(endpoint);
    match target {
        Some(target) => {
            annotate_physical_endpoint_attempt(
                &mut metadata,
                target.protocol_label,
                &endpoint,
                target.display_url,
                target.path,
                target.body_len,
                true,
            );
        },
        None => {},
    }
    PhysicalEndpointAttempt {
        attempt_id,
        attempt_number,
        started_at_unix_ms,
        request_metadata: metadata,
        endpoint,
        protocol,
        observed_response: None,
    }
}

/// The text of an HTTP status with its reason.
pub uninterp spec fn status_text(status: u16) -> Seq<char>;

/// `axum::http::StatusCode::from_u16` and the text of the status: its number and
/// its reason. The text is a function of the number.
#[verifier::external_body]
pub(crate) fn write_status(status: u16) -> (text: String)
    requires
        100 <= status < 1000,
    ensures
        text@ == status_text(status),
{
    axum::http::StatusCode::from_u16(status).map_or_else(|_error| String::new(), |s| s.to_string())
}

/// The record of an attempt at an endpoint that is followed by another.
pub open spec fn retried_record(
    result: EndpointResult,
    attempt: PhysicalEndpointAttempt,
    request_id: Seq<char>,
    finished_at_unix_ms: u64,
) -> AttemptRecordModel {
    let request_metadata = attempt.request_metadata@.insert(
        "endpoint_disposition"@,
        disposition(result, attempt.protocol, attempt.endpoint),
    );
    let base = AttemptRecordModel {
        attempt_id: attempt.attempt_id@,
        request_id,
        attempt_number: attempt.attempt_number,
        started_at_unix_ms: attempt.started_at_unix_ms,
        finished_at_unix_ms: Some(finished_at_unix_ms),
        upstream_mode: UpstreamMode::NotApplicable,
        status: AttemptStatus::Retried,
        http_status: None,
        error_reason: None,
        retry_reason: Some(retry_reason_text(result)),
        abort_reason: None,
        token_usage: no_usage(),
        request_metadata,
        response_metadata: Bindings::empty(),
        raw_payloads: no_payloads(),
    };
    match result {
        EndpointResult::Response(response) => AttemptRecordModel {
            upstream_mode: upstream_mode_of(response.headers@),
            http_status: Some(response.status),
            error_reason: Some(
                "upstream HTTP "@ + status_text(response.status) + " selected for failover"@,
            ),
            response_metadata: response_bindings(
                response.status,
                response.headers@,
                0,
                elapsed(finished_at_unix_ms, attempt.started_at_unix_ms),
            ).insert("attempt_outcome"@, "retried"@).insert(
                "endpoint_disposition"@,
                "retryable_failure"@,
            ).insert("retry_reason"@, retry_reason_text(result)),
            ..base
        },
        EndpointResult::Failed(error) => AttemptRecordModel {
            error_reason: Some(error.kind.type_text() + ": "@ + error.kind.message_text()),
            response_metadata: failed_response_bindings(
                attempt.started_at_unix_ms,
                finished_at_unix_ms,
                error.kind.type_text(),
            ).union_prefer_right(
                Bindings::empty().insert("attempt_outcome"@, "retried"@).insert(
                    "endpoint_disposition"@,
                    "retryable_failure"@,
                ),
            ),
            ..base
        },
    }
}

/// Records an attempt at an endpoint that is followed by another.
pub fn retried_endpoint_attempt_record(
    result: &EndpointResult,
    attempt: &PhysicalEndpointAttempt,
    request_id: &str,
    finished_at_unix_ms: u64,
) -> (record: AttemptRecord)
    requires
        *result matches EndpointResult::Response(response) ==> 100 <= response.status < 1000,
    ensures
        record@ == retried_record(*result, *attempt, request_id@, finished_at_unix_ms),
{
    let mut request_metadata = attempt.request_metadata.clone();
    request_metadata.set(
        "endpoint_disposition",
        endpoint_disposition(result, attempt.protocol, &attempt.endpoint),
    );
    match result {
        EndpointResult::Response(response) => {
            let mut metadata = response_metadata(
                response.status,
                &response.headers,
                0,
                finished_at_unix_ms.saturating_sub(attempt.started_at_unix_ms),
            );
            metadata.set("attempt_outcome", "retried");
            metadata.set("endpoint_disposition", "retryable_failure");
            metadata.insert("retry_reason", retry_reason_for_endpoint_result(result));
            let mut reason = joined("upstream HTTP ", write_status(response.status).as_str());
            reason.append(" selected for failover");
            AttemptRecord {
                attempt_id: attempt.attempt_id.clone(),
                request_id: request_id.to_owned(),
                attempt_number: attempt.attempt_number,
                started_at_unix_ms: attempt.started_at_unix_ms,
                finished_at_unix_ms: Some(finished_at_unix_ms),
                upstream_mode: upstream_mode_from_headers(&response.headers),
                status: AttemptStatus::Retried,
                http_status: Some(response.status),
                error_reason: Some(reason),
                retry_reason: Some(retry_reason_for_endpoint_result(result)),
                abort_reason: None,
                token_usage: TokenUsage::default(),
                request_metadata,
                response_metadata: metadata,
                raw_payloads: RawPayloads::none(),
            }
        },
        EndpointResult::Failed(error) => {
            let mut extra = Metadata::new();
            extra.set("attempt_outcome", "retried");
            extra.set("endpoint_disposition", "retryable_failure");
            let mut record = failed_attempt_record(
                FailedAttemptRecordInput {
                    attempt_id: attempt.attempt_id.clone(),
                    attempt_number: attempt.attempt_number,
                    request_id: request_id.to_owned(),
                    started_at_unix_ms: attempt.started_at_unix_ms,
                    finished_at_unix_ms,
                    error_type: error.error_type(),
                    error_reason: error.message(),
                    request_metadata,
                    extra_response_metadata: extra,
                },
            );
            record.status = AttemptStatus::Retried;
            record.retry_reason = Some(retry_reason_for_endpoint_result(result));
            record
        },
    }
}

// ---------------------------------------------------------------------------
// The failover loop
// ---------------------------------------------------------------------------

/// The endpoints that were tried for one attempt, and the records of those that
/// were followed by another.
pub struct FailoverRun {
    pub attempted_base_urls: Vec<String>,
    pub completed_attempt_records: Vec<AttemptRecord>,
    /// How many endpoints there are for the request.
    pub eligible_endpoints: usize,
}

/// The meaning of the endpoints that were tried.
#[verifier::ext_equal]
pub struct FailoverModel {
    pub attempted: Seq<Seq<char>>,
    pub records: Seq<AttemptRecordModel>,
    pub eligible: usize,
}

impl View for FailoverRun {
    type V = FailoverModel;

    open spec fn view(&self) -> FailoverModel {
        FailoverModel {
            attempted: chars_list(self.attempted_base_urls@),
            records: record_models(self.completed_attempt_records@),
            eligible: self.eligible_endpoints,
        }
    }
}

impl FailoverModel {
    /// No endpoint is tried twice, and every one but the last has its record.
    pub open spec fn wf(self) -> bool {
        &&& self.attempted.no_duplicates()
        &&& self.attempted.len() == self.records.len() + 1
    }

    /// The number of endpoints tried is within the number there are.
    pub open spec fn within(self) -> bool {
        self.attempted.len() <= 1 || self.attempted.len() <= self.eligible
    }
}

/// What follows an attempt at one endpoint.
#[derive(Clone, Copy, Debug, PartialEq, Eq, Structural)]
pub enum FailoverStep {
    /// Its result is kept.
    Keep,
    /// Another endpoint is selected, if there is one.
    SelectNext,
}

impl FailoverRun {
    /// A run that begins with one endpoint.
    pub fn new(initial_base_url: &str, eligible_endpoints: usize) -> (run: FailoverRun)
        ensures
            run@ == (FailoverModel {
                attempted: seq![initial_base_url@],
                records: Seq::empty(),
                eligible: eligible_endpoints,
            }),
            run@.wf(),
            run@.within(),
    {
        let mut attempted_base_urls: Vec<String> = Vec::new();
        attempted_base_urls.push(initial_base_url.to_owned());
        let run = FailoverRun {
            attempted_base_urls,
            completed_attempt_records: Vec::new(),
            eligible_endpoints,
        };
        assert(run@.attempted =~= seq![initial_base_url@]);
        assert(run@.records =~= Seq::<AttemptRecordModel>::empty());
        run
    }

    /// Decides what follows an attempt at one endpoint: another one while the
    /// result is worth it and endpoints are left.
    pub fn after_result(&self, attempt: &PhysicalEndpointAttempt, result: &EndpointResult) -> (step:
        FailoverStep)
        ensures
            step == if is_retryable(*result, attempt.protocol, attempt.endpoint)
                && self@.attempted.len() < self@.eligible {
                FailoverStep::SelectNext
            } else {
                FailoverStep::Keep
            },
            (*result matches EndpointResult::Failed(error) && (error.kind
                matches ErrorKind::UpstreamTransport { failure } && (failure is Connect || failure
                is Timeout))) && self@.attempted.len() < self@.eligible ==> step
                == FailoverStep::SelectNext,
            self@.attempted.len() >= self@.eligible ==> step == FailoverStep::Keep,
    {
        if is_retryable_endpoint_result(result, attempt.protocol, &attempt.endpoint)
            && self.attempted_base_urls.len() < self.eligible_endpoints {
            FailoverStep::SelectNext
        } else {
            FailoverStep::Keep
        }
    }

    /// Goes on to a selected endpoint: the attempt before it is recorded. Gives
    /// the number of endpoints that were left before this one, and the number of
    /// the next attempt.
    pub fn go_on(
        &mut self,
        attempt: &PhysicalEndpointAttempt,
        result: &EndpointResult,
        selected_base_url: &str,
        request_id: &str,
        finished_at_unix_ms: u64,
    ) -> (next: (usize, u32))
        requires
            *result matches EndpointResult::Response(response) ==> 100 <= response.status < 1000,
        ensures
            old(self)@.wf() && !old(self)@.attempted.contains(selected_base_url@)
                ==> final(self)@.wf(),
            old(self)@.attempted.len() < old(self)@.eligible ==> final(self)@.within(),
            final(self)@ == (FailoverModel {
                attempted: old(self)@.attempted.push(selected_base_url@),
                records: old(self)@.records.push(
                    retried_record(*result, *attempt, request_id@, finished_at_unix_ms),
                ),
                ..old(self)@
            }),
            next.0 == if old(self)@.attempted.len() < old(self)@.eligible {
                old(self)@.eligible - old(self)@.attempted.len()
            } else {
                0
            },
            next.1 == if attempt.attempt_number == u32::MAX {
                u32::MAX
            } else {
                (attempt.attempt_number + 1) as u32
            },
    {
        let ghost before = self@;
        let record = retried_endpoint_attempt_record(
            result,
            attempt,
            request_id,
            finished_at_unix_ms,
        );
        push_record(&mut self.completed_attempt_records, record);
        let remaining: usize = self.eligible_endpoints.saturating_sub(
            self.attempted_base_urls.len(),
        );
        self.attempted_base_urls.push(selected_base_url.to_owned());
        assert(chars_list(self.attempted_base_urls@) =~= before.attempted.push(selected_base_url@));
        proof {
            if before.wf() && !before.attempted.contains(selected_base_url@) {
                let after = before.attempted.push(selected_base_url@);
                assert forall|i: int, j: int|
                    0 <= i < after.len() && 0 <= j < after.len() && i != j implies after[i]
                    != after[j] by {
                    if i == before.attempted.len() {
                        assert(before.attempted.contains(after[j]));
                    } else if j == before.attempted.len() {
                        assert(before.attempted.contains(after[i]));
                    }
                }
            }
        }
        (remaining, attempt.attempt_number.saturating_add(1))
    }
}

/// Failing over ends: each endpoint it goes on to leaves fewer that have not been
/// tried, and with none left it does not go on.
pub proof fn failing_over_ends(run: FailoverModel, selected: Seq<char>, record: AttemptRecordModel)
    requires
        run.attempted.len() < run.eligible,
    ensures
        ({
            let after = FailoverModel {
                attempted: run.attempted.push(selected),
                records: run.records.push(record),
                ..run
            };
            after.eligible - after.attempted.len() == run.eligible - run.attempted.len() - 1
        }),
{
}

/// A response that was sent for, with the endpoint that gave it.
pub struct SentUpstreamResponse {
    pub attempt_id: String,
    pub attempt_number: u32,
    pub attempt_started_at_unix_ms: u64,
    pub attempt_request_metadata: Metadata,
    pub did_failover: bool,
    pub completed_attempt_records: Vec<AttemptRecord>,
    pub terminal_endpoint: Option<UpstreamEndpointConfig>,
    pub terminal_endpoint_protocol: UpstreamEndpointProtocol,
    pub response: ObservedEndpointResponse,
}

/// The record of the last attempt at an endpoint, which failed.
pub open spec fn terminal_record(
    error: ProxyError,
    attempt: PhysicalEndpointAttempt,
    request_id: Seq<char>,
    finished_at_unix_ms: u64,
) -> AttemptRecordModel {
    let text = disposition(EndpointResult::Failed(error), attempt.protocol, attempt.endpoint);
    let failed = AttemptRecordModel {
        attempt_id: attempt.attempt_id@,
        request_id,
        attempt_number: attempt.attempt_number,
        started_at_unix_ms: attempt.started_at_unix_ms,
        finished_at_unix_ms: Some(finished_at_unix_ms),
        upstream_mode: UpstreamMode::NotApplicable,
        status: AttemptStatus::Failed,
        http_status: None,
        error_reason: Some(error.kind.type_text() + ": "@ + error.kind.message_text()),
        retry_reason: None,
        abort_reason: None,
        token_usage: no_usage(),
        request_metadata: attempt.request_metadata@.insert("endpoint_disposition"@, text),
        response_metadata: failed_response_bindings(
            attempt.started_at_unix_ms,
            finished_at_unix_ms,
            error.kind.type_text(),
        ).union_prefer_right(Bindings::empty().insert("endpoint_disposition"@, text)),
        raw_payloads: no_payloads(),
    };
    match attempt.observed_response {
        Some(observed) => AttemptRecordModel {
            http_status: Some(observed.status),
            upstream_mode: upstream_mode_of(observed.headers@),
            response_metadata: with_selected_headers(
                failed.response_metadata.insert("upstream_response_received"@, "true"@).insert(
                    "http_status_success"@,
                    bool_chars(is_success(observed.status)),
                ),
                observed.headers@,
                "response"@,
            ),
            ..failed
        },
        None => failed,
    }
}

/// Ends the attempts at the endpoints of an upstream: the last result is kept,
/// with all that came before it.
pub fn finalize_sent_upstream_response(
    result: EndpointResult,
    terminal_attempt: PhysicalEndpointAttempt,
    completed_attempt_records: Vec<AttemptRecord>,
    request_id: &str,
    request_metadata: &Metadata,
    finished_at_unix_ms: u64,
) -> (sent: Result<SentUpstreamResponse, ProxyError>)
    ensures
        match result {
            EndpointResult::Response(response) => {
                &&& sent is Ok
                &&& sent->Ok_0.response == response
                &&& sent->Ok_0.attempt_id == terminal_attempt.attempt_id
                &&& sent->Ok_0.attempt_number == terminal_attempt.attempt_number
                &&& sent->Ok_0.attempt_started_at_unix_ms == terminal_attempt.started_at_unix_ms
                &&& sent->Ok_0.attempt_request_metadata@
                    == terminal_attempt.request_metadata@.insert(
                    "endpoint_disposition"@,
                    disposition(result, terminal_attempt.protocol, terminal_attempt.endpoint),
                )
                &&& sent->Ok_0.did_failover == (completed_attempt_records.len() > 0)
                &&& sent->Ok_0.completed_attempt_records == completed_attempt_records
                &&& sent->Ok_0.terminal_endpoint == terminal_attempt.endpoint
                &&& sent->Ok_0.terminal_endpoint_protocol == terminal_attempt.protocol
            },
            EndpointResult::Failed(error) => {
                &&& sent is Err
                &&& sent->Err_0@ == with_earlier_attempts(
                    with_attempt(
                        error@,
                        request_metadata@,
                        terminal_record(
                            error,
                            terminal_attempt,
                            request_id@,
                            finished_at_unix_ms,
                        ),
                    ),
                    record_models(completed_attempt_records@),
                )
            },
        },
{
    let mut attempt = terminal_attempt;
    let text = endpoint_disposition(&result, attempt.protocol, &attempt.endpoint);
    attempt.request_metadata.set("endpoint_disposition", text);
    match result {
        EndpointResult::Response(response) => Ok(
            SentUpstreamResponse {
                attempt_id: attempt.attempt_id,
                attempt_number: attempt.attempt_number,
                attempt_started_at_unix_ms: attempt.started_at_unix_ms,
                attempt_request_metadata: attempt.request_metadata,
                did_failover: completed_attempt_records.len() > 0,
                completed_attempt_records,
                terminal_endpoint: attempt.endpoint,
                terminal_endpoint_protocol: attempt.protocol,
                response,
            },
        ),
        EndpointResult::Failed(error) => {
            let mut extra = Metadata::new();
            extra.set("endpoint_disposition", text);
            let mut record = failed_attempt_record(
                FailedAttemptRecordInput {
                    attempt_id: attempt.attempt_id,
                    attempt_number: attempt.attempt_number,
                    request_id: request_id.to_owned(),
                    started_at_unix_ms: attempt.started_at_unix_ms,
                    finished_at_unix_ms,
                    error_type: error.error_type(),
                    error_reason: error.message(),
                    request_metadata: attempt.request_metadata,
                    extra_response_metadata: extra,
                },
            );
            match &attempt.observed_response {
                Some(observed) => {
                    record.http_status = Some(observed.status);
                    record.upstream_mode = upstream_mode_from_headers(&observed.headers);
                    record.response_metadata.set("upstream_response_received", "true");
                    record.response_metadata.set_bool(
                        "http_status_success",
                        status_is_success(observed.status),
                    );
                    copy_selected_header_metadata(
                        &mut record.response_metadata,
                        &observed.headers,
                        "response",
                    );
                },
                None => {},
            }
            Err(
                error.with_observability(
                    request_metadata.clone(),
                    record,
                ).with_completed_attempt_records(completed_attempt_records),
            )
        },
    }
}

// ---------------------------------------------------------------------------
// The order of endpoints
// ---------------------------------------------------------------------------

/// The order in which endpoints are tried next: the one that answered last comes
/// first, the others keep their order.
pub open spec fn retry_order(last: Seq<char>, order: Seq<Seq<char>>) -> Seq<Seq<char>> {
    seq![last] + order.filter(|base_url: Seq<char>| base_url != last)
}

/// The order in which endpoints are tried next.
pub fn shielded_endpoint_retry_order(terminal_base_url: &str, endpoint_retry_order: &Vec<String>) -> (
    order: Vec<String>)
    ensures
        chars_list(order@) == retry_order(terminal_base_url@, chars_list(endpoint_retry_order@)),
{
    let ghost all = chars_list(endpoint_retry_order@);
    let ghost keep = |base_url: Seq<char>| base_url != terminal_base_url@;
    let mut order: Vec<String> = Vec::new();
    order.push(terminal_base_url.to_owned());
    let mut i: usize = 0;
    proof {
        reveal(Seq::filter);
        assert(chars_list(order@) =~= seq![terminal_base_url@] + all.take(0).filter(keep));
    }
    while i < endpoint_retry_order.len()
        invariant
            i <= endpoint_retry_order.len(),
            all == chars_list(endpoint_retry_order@),
            keep == (|base_url: Seq<char>| base_url != terminal_base_url@),
            chars_list(order@) == seq![terminal_base_url@] + all.take(i as int).filter(keep),
        decreases endpoint_retry_order.len() - i,
    {
        let ghost before = chars_list(order@);
        proof {
            reveal(Seq::filter);
            assert(all.take(i + 1).drop_last() =~= all.take(i as int));
            assert(all[i as int] == endpoint_retry_order[i as int]@);
        }
        if !same_text(endpoint_retry_order[i].as_str(), terminal_base_url) {
            order.push(endpoint_retry_order[i].clone());
            assert(chars_list(order@) =~= before.push(all[i as int]));
        }
        i += 1;
        assert(chars_list(order@) =~= seq![terminal_base_url@] + all.take(i as int).filter(keep));
    }
    assert(all.take(i as int) =~= all);
    order
}

/// Which endpoint the next attempt goes to first, and the order after it: the one
/// that answered last, where it is known.
pub fn shielded_retry_endpoint(
    answered: Option<UpstreamEndpointConfig>,
    current: UpstreamEndpointConfig,
    endpoint_retry_order: &Vec<String>,
) -> (next: (UpstreamEndpointConfig, Vec<String>))
    ensures
        next.0 == match answered {
            Some(endpoint) => endpoint,
            None => current,
        },
        chars_list(next.1@) == retry_order(next.0.base_url@, chars_list(endpoint_retry_order@)),
{
    let endpoint = match answered {
        Some(endpoint) => endpoint,
        None => current,
    };
    let order = shielded_endpoint_retry_order(endpoint.base_url.as_str(), endpoint_retry_order);
    (endpoint, order)
}

// ---------------------------------------------------------------------------
// Responses that are rewritten
// ---------------------------------------------------------------------------

/// What becomes of the body of an endpoint's response.
#[derive(Clone, Copy, Debug, PartialEq, Eq, Structural)]
pub enum EndpointBodyStep {
    /// It is handed on as it comes.
    HandOn,
    /// It cannot be read until the server shuts down.
    Refuse,
    /// It is read and rewritten.
    Rewrite,
}

/// Decides what becomes of the body of an endpoint's response. Only a success is
/// rewritten, of a request that is known in its normal form.
pub fn endpoint_body_step(
    decode_heterogeneous_reranker: bool,
    status: u16,
    has_canonical_form: bool,
    has_shutdown: bool,
) -> (step: EndpointBodyStep)
    ensures
        step == if !(decode_heterogeneous_reranker && is_success(status) && has_canonical_form) {
            EndpointBodyStep::HandOn
        } else if !has_shutdown {
            EndpointBodyStep::Refuse
        } else {
            EndpointBodyStep::Rewrite
        },
{
    if !decode_heterogeneous_reranker || !status_is_success(status) || !has_canonical_form {
        EndpointBodyStep::HandOn
    } else if !has_shutdown {
        EndpointBodyStep::Refuse
    } else {
        EndpointBodyStep::Rewrite
    }
}

/// The error of a response that cannot be read until the server shuts down.
pub fn no_shutdown_controller() -> (error: ProxyError)
    ensures
        error.kind matches ErrorKind::UpstreamBody { reason } && reason@
            == "heterogeneous reranker response has no shutdown controller"@,
        error@ == bare_error(error.kind),
{
    ProxyError::upstream_body(
        "heterogeneous reranker response has no shutdown controller".to_owned(),
    )
}

/// The rewritten body of an endpoint's response, or why it could not be rewritten.
pub fn finish_endpoint_rewrite(rewritten: Result<Vec<u8>, String>) -> (body: Result<
    Vec<u8>,
    ProxyError,
>)
    ensures
        match (rewritten, body) {
            (Ok(rewritten), Ok(body)) => body == rewritten,
            (Err(why), Err(error)) => {
                &&& error.kind matches ErrorKind::UpstreamBody { reason } && reason@
                    == "heterogeneous reranker response rewrite failed: "@ + why@
                &&& error@ == bare_error(error.kind)
            },
            _ => false,
        },
{
    match rewritten {
        Ok(body) => Ok(body),
        Err(why) => Err(
            ProxyError::upstream_body(
                joined("heterogeneous reranker response rewrite failed: ", why.as_str()),
            ),
        ),
    }
}

/// An endpoint that cannot be reached, does not answer in time or breaks off is no
/// reason to give up: its request is tried at another endpoint, whatever it speaks and
/// whoever's credential it has, while one is left, and it is marked unhealthy.
pub proof fn unreachable_endpoints_are_passed_over(
    attempt: PhysicalEndpointAttempt,
    error: ProxyError,
)
    requires
        error.kind matches ErrorKind::UpstreamTransport { failure } && (failure is Connect
            || failure is Timeout) || error.kind is UpstreamBody,
    ensures
        is_retryable(EndpointResult::Failed(error), attempt.protocol, attempt.endpoint),
        disposition(EndpointResult::Failed(error), attempt.protocol, attempt.endpoint)
            == "retryable_failure"@,
        attempt.endpoint is Some ==> marks_unhealthy(attempt, EndpointResult::Failed(error)),
{
}

/// An endpoint that is overloaded or broken is passed over, one that refuses a
/// credential of its own too. Answers and refusals that are the caller's matter are
/// kept, and so are failures that another endpoint would not mend.
pub proof fn answers_are_kept_and_failures_passed_over(
    response: ObservedEndpointResponse,
    error: ProxyError,
    protocol: UpstreamEndpointProtocol,
    endpoint: Option<UpstreamEndpointConfig>,
)
    ensures
        ({
            let status = response.status;
            let retried = is_retryable(EndpointResult::Response(response), protocol, endpoint);
            let own = protocol is DeepInfraQwen3Rerank || (endpoint matches Some(endpoint)
                && endpoint.has_credential);
            &&& (status == 408 || status == 429 || status == 500 || 502 <= status <= 504)
                ==> retried
            &&& (status == 401 || status == 403) ==> retried == own
            &&& status <= 400 ==> !retried
            &&& (status == 402 || 404 <= status <= 407 || 409 <= status <= 428 || 430 <= status
                <= 499 || status == 501 || status >= 505) ==> !retried
        }),
        !(error.kind is UpstreamTransport) && !(error.kind is UpstreamBody) ==> !is_retryable(
            EndpointResult::Failed(error),
            protocol,
            endpoint,
        ),
        error.kind matches ErrorKind::UpstreamTransport { failure } && !(failure is Connect)
            && !(failure is Timeout) ==> !is_retryable(
            EndpointResult::Failed(error),
            protocol,
            endpoint,
        ),
{
}

/// What is recorded of an attempt at an endpoint says which endpoint it was.
pub proof fn endpoints_are_recorded(
    bindings: Bindings,
    protocol_label: Seq<char>,
    endpoint: Option<UpstreamEndpointConfig>,
    display_url: Seq<char>,
    path: Seq<char>,
    body_len: nat,
    failover_selected: bool,
)
    ensures
        ({
            let told = with_endpoint(bindings, protocol_label, endpoint, display_url, path, body_len, failover_selected);
            &&& told.contains_key("upstream_endpoint_protocol"@) && told["upstream_endpoint_protocol"@] == protocol_label
            &&& told.contains_key("upstream_endpoint_base_url"@) && told["upstream_endpoint_base_url"@] == match endpoint {
                Some(endpoint) => endpoint.display_url@,
                None => display_url,
            }
            &&& told.contains_key("upstream_endpoint_priority"@) && told["upstream_endpoint_priority"@] == match endpoint {
                Some(endpoint) => endpoint.priority_label@,
                None => "primary"@,
            }
            &&& told.contains_key("upstream_failover_selected"@) && told["upstream_failover_selected"@] == bool_chars(failover_selected)
            &&& told.contains_key("path"@) && told["path"@] == path
            &&& told.contains_key("upstream_request_body_bytes"@) && told["upstream_request_body_bytes"@] == decimal(body_len)
        }),
{
    reveal_strlit("upstream_endpoint_protocol");
    reveal_strlit("upstream_endpoint_base_url");
    reveal_strlit("upstream_endpoint_priority");
    reveal_strlit("upstream_failover_selected");
    reveal_strlit("path");
    reveal_strlit("upstream_request_body_bytes");
    assert("upstream_endpoint_protocol"@.len() == 26);
    assert("upstream_endpoint_base_url"@.len() == 26);
    assert("upstream_endpoint_priority"@.len() == 26);
    assert("upstream_failover_selected"@.len() == 26);
    assert("path"@.len() == 4);
    assert("upstream_request_body_bytes"@.len() == 27);
    assert("upstream_endpoint_protocol"@[18] != "upstream_endpoint_base_url"@[18]);
    assert("upstream_endpoint_protocol"@[20] != "upstream_endpoint_priority"@[20]);
    assert("upstream_endpoint_protocol"@[9] != "upstream_failover_selected"@[9]);
    assert("upstream_endpoint_base_url"@[18] != "upstream_endpoint_priority"@[18]);
    assert("upstream_endpoint_base_url"@[9] != "upstream_failover_selected"@[9]);
    assert("upstream_endpoint_priority"@[9] != "upstream_failover_selected"@[9]);
}

/// The next attempt forgets the endpoint of the one before, and nothing else of it.
pub proof fn endpoints_are_forgotten(bindings: Bindings, key: Seq<char>)
    ensures
        ({
            let told = key == "upstream_endpoint_protocol"@ || key == "upstream_endpoint_base_url"@
                || key == "upstream_endpoint_priority"@ || key == "upstream_failover_selected"@
                || key == "path"@ || key == "upstream_request_body_bytes"@;
            &&& told ==> !without_endpoint(bindings).contains_key(key)
            &&& !told ==> without_endpoint(bindings).contains_key(key) == bindings.contains_key(key)
            &&& !told && bindings.contains_key(key) ==> without_endpoint(bindings)[key]
                == bindings[key]
        }),
{
}

/// An attempt at an endpoint that is passed over is recorded as retried, and one that
/// ended the request as failed; both tell of the attempt itself, and of its status where
/// there was a response.
pub proof fn endpoint_attempts_are_recorded(
    result: EndpointResult,
    error: ProxyError,
    attempt: PhysicalEndpointAttempt,
    request_id: Seq<char>,
    now_ms: u64,
)
    ensures
        ({
            let passed = retried_record(result, attempt, request_id, now_ms);
            let ended = terminal_record(error, attempt, request_id, now_ms);
            &&& passed.attempt_id == attempt.attempt_id@ && ended.attempt_id == attempt.attempt_id@
            &&& passed.request_id == request_id && ended.request_id == request_id
            &&& passed.attempt_number == attempt.attempt_number && ended.attempt_number
                == attempt.attempt_number
            &&& passed.started_at_unix_ms == attempt.started_at_unix_ms && ended.started_at_unix_ms
                == attempt.started_at_unix_ms
            &&& passed.finished_at_unix_ms == Some(now_ms) && ended.finished_at_unix_ms == Some(
                now_ms,
            )
            &&& passed.status is Retried && ended.status is Failed
            &&& passed.retry_reason is Some && ended.retry_reason is None
            &&& (result matches EndpointResult::Response(response) ==> passed.http_status == Some(
                response.status,
            ))
            &&& result is Failed ==> passed.http_status is None
            &&& ended.error_reason == Some(
                error.kind.type_text() + ": "@ + error.kind.message_text(),
            )
            &&& (attempt.observed_response matches Some(observed) ==> ended.http_status == Some(
                observed.status,
            ))
            &&& attempt.observed_response is None ==> ended.http_status is None
        }),
{
}

/// An endpoint is passed over for its status or for what failed.
pub proof fn passed_endpoints_have_a_reason(result: EndpointResult)
    ensures
        result matches EndpointResult::Response(response) ==> retry_reason_text(result)
            == "endpoint_http_"@ + decimal(response.status as nat),
        result matches EndpointResult::Failed(error) ==> {
            &&& error.kind == (ErrorKind::UpstreamTransport {
                failure: ReqwestFailureKind::Connect,
            }) ==> retry_reason_text(result) == "endpoint_"@ + "connect_failure"@
            &&& error.kind == (ErrorKind::UpstreamTransport {
                failure: ReqwestFailureKind::Timeout,
            }) ==> retry_reason_text(result) == "endpoint_"@ + "timeout_failure"@
            &&& error.kind is UpstreamBody ==> retry_reason_text(result)
                == "endpoint_protocol_response"@
        },
{
}

/// The endpoint that answered last is asked first, and every other after it, in the
/// order in which they are; the last is not asked again.
pub proof fn the_last_endpoint_comes_first(
    last: Seq<char>,
    order: Seq<Seq<char>>,
    next: Seq<char>,
)
    ensures
        retry_order(last, Seq::empty()) == seq![last],
        next != last ==> retry_order(last, order.push(next)) == retry_order(last, order).push(next),
        next == last ==> retry_order(last, order.push(next)) == retry_order(last, order),
{
    reveal(Seq::filter);
    assert(order.push(next).drop_last() =~= order);
    assert(retry_order(last, Seq::empty()) =~= seq![last]);
    if next != last {
        assert(retry_order(last, order.push(next)) =~= retry_order(last, order).push(next));
    }
}

/// A status leads to the next endpoint where it may pass there: always for those that
/// tell of trouble, and for a refused key only where the endpoint has one of its own.
pub proof fn statuses_lead_to_the_next_endpoint(
    status: u16,
    protocol: UpstreamEndpointProtocol,
    endpoint: Option<UpstreamEndpointConfig>,
)
    ensures
        status == 408 || status == 429 || status == 500 || 502 <= status <= 504
            ==> status_is_retryable(status, protocol, endpoint),
        200 <= status <= 399 ==> !status_is_retryable(status, protocol, endpoint),
        status == 400 || status == 404 || status == 422 ==> !status_is_retryable(
            status,
            protocol,
            endpoint,
        ),
        status == 401 || status == 403 ==> (status_is_retryable(status, protocol, endpoint)
            <==> protocol is DeepInfraQwen3Rerank || (endpoint matches Some(endpoint)
            && endpoint.has_credential)),
{
}

/// What is recorded of an endpoint that was passed over, or that was the last, says what
/// became of it; and a reason without a name is a retry.
pub proof fn passed_endpoints_are_recorded(
    result: EndpointResult,
    error: ProxyError,
    attempt: PhysicalEndpointAttempt,
    request_id: Seq<char>,
    now_ms: u64,
)
    ensures
        ({
            let passed = retried_record(result, attempt, request_id, now_ms);
            let ended = terminal_record(error, attempt, request_id, now_ms);
            let failed = EndpointResult::Failed(error);
            &&& passed.request_metadata["endpoint_disposition"@] == disposition(
                result,
                attempt.protocol,
                attempt.endpoint,
            )
            &&& ended.request_metadata["endpoint_disposition"@] == disposition(
                failed,
                attempt.protocol,
                attempt.endpoint,
            )
            &&& passed.response_metadata["attempt_outcome"@] == "retried"@
            &&& passed.response_metadata["endpoint_disposition"@] == "retryable_failure"@
            &&& attempt.observed_response is None ==> ended.response_metadata[
                "endpoint_disposition"@] == disposition(failed, attempt.protocol, attempt.endpoint)
            &&& (result matches EndpointResult::Failed(why) ==> passed.error_reason == Some(
                why.kind.type_text() + ": "@ + why.kind.message_text(),
            ))
            &&& ended.error_reason == Some(error.kind.type_text() + ": "@ + error.kind.message_text())
        }),
        !(error.kind is UpstreamTransport) && !(error.kind is UpstreamBody) ==> retry_reason_text(
            EndpointResult::Failed(error),
        ) == "endpoint_retry"@,
{
    reveal_strlit("attempt_outcome");
    reveal_strlit("endpoint_disposition");
    reveal_strlit("retry_reason");
    assert("attempt_outcome"@.len() == 15);
    assert("endpoint_disposition"@.len() == 20);
    assert("retry_reason"@.len() == 12);
}

} // verus!
