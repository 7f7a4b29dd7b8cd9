//! The endpoints that tell of the proxy itself: health, debug summaries and live
//! requests.

use crate::callers::{debug_summary_authorized, summary_allowed};
use crate::error_bodies::{error_body, plain_details, proxy_error_json_body, ErrorResponse};
use crate::headers::{HeaderModel, Headers};
use crate::json::{
    array_of, models, render_json, rendered_json, Json, JsonModel, JsonObject,
};
use crate::message_metadata::{is_success, status_is_success};
use crate::metadata::{bindings_of, Bindings, Metadata};
use crate::path::{build_upstream_url, upstream_url};
use crate::text::{
    bool_chars, bool_text, decimal, decimal_text, opt_chars, opt_str_chars, parse_u32,
    parsed_unsigned, same_text, split, split_at_first, split_is_never_empty, split_on, split_once,
};
use crate::uri::RequestTarget;
use vstd::prelude::*;
use vstd::string::*;
use vstd::utf8::encode_utf8;

verus! {

// ---------------------------------------------------------------------------
// Health
// ---------------------------------------------------------------------------

/// What is known of the upstream.
#[derive(Clone, Copy, Debug, PartialEq, Eq, Structural)]
pub enum HealthUpstreamStatus {
    Disabled,
    Ready,
    Degraded,
    Unavailable,
}

impl HealthUpstreamStatus {
    /// The label of a status.
    pub open spec fn label(self) -> Seq<char> {
        match self {
            HealthUpstreamStatus::Disabled => "not_checked"@,
            HealthUpstreamStatus::Ready => "ready"@,
            HealthUpstreamStatus::Degraded => "degraded"@,
            HealthUpstreamStatus::Unavailable => "unavailable"@,
        }
    }

    /// The label of a status.
    pub fn as_str(self) -> (label: &'static str)
        ensures
            label@ == self.label(),
    {
        match self {
            HealthUpstreamStatus::Disabled => "not_checked",
            HealthUpstreamStatus::Ready => "ready",
            HealthUpstreamStatus::Degraded => "degraded",
            HealthUpstreamStatus::Unavailable => "unavailable",
        }
    }

    /// The HTTP status that tells of a status.
    pub fn http_status(self) -> (status: u16)
        ensures
            status == if self is Unavailable {
                503u16
            } else {
                200u16
            },
    {
        match self {
            HealthUpstreamStatus::Unavailable => 503,
            _ => 200,
        }
    }
}

/// Whether an upstream that answered a request for its models with a status is
/// there. One that asks for a credential is.
pub open spec fn shows_models(status: Option<u16>) -> bool {
    match status {
        Some(status) => is_success(status) || status == 401,
        None => false,
    }
}

/// Where an upstream is asked for its models, or for a small chat.
pub open spec fn probe_target(chat: bool) -> (Seq<char>, Option<Seq<char>>) {
    (
        if chat {
            "/v1/chat/completions"@
        } else {
            "/v1/models"@
        },
        None,
    )
}

/// The URL at which an upstream is asked for its models, or for a small chat, where
/// its base URL allows one.
pub fn health_probe_url(base_url: &str, base_check: Option<String>, chat: bool) -> (url: Option<
    reqwest::Url,
>)
    ensures
        url == match upstream_url(base_url@, opt_chars(base_check), probe_target(chat)) {
            Ok(url) => Some(url),
            Err(_) => None,
        },
{
    let target = RequestTarget {
        path: if chat {
            "/v1/chat/completions".to_owned()
        } else {
            "/v1/models".to_owned()
        },
        query: None,
    };
    assert(target@ == probe_target(chat));
    match build_upstream_url(base_url, base_check, &target) {
        Ok(url) => Some(url),
        Err(_) => None,
    }
}

/// Whether an upstream is asked for a small chat: where its models were shown.
pub fn asks_for_chat(probe_enabled: bool, models: Option<u16>, chat_probe_enabled: bool) -> (asks:
    bool)
    ensures
        asks == (probe_enabled && shows_models(models) && chat_probe_enabled),
{
    probe_enabled && chat_probe_enabled && match models {
        Some(status) => status_is_success(status) || status == 401,
        None => false,
    }
}

/// Judges an upstream. `models` is the status with which it answered a request
/// for its models, and `chat` the one for a small chat request; either is missing
/// where there was no answer in time, or no request could be made.
pub fn upstream_readiness(
    probe_enabled: bool,
    models: Option<u16>,
    chat_probe_enabled: bool,
    chat: Option<u16>,
) -> (status: HealthUpstreamStatus)
    ensures
        status == if !probe_enabled {
            HealthUpstreamStatus::Disabled
        } else if !shows_models(models) {
            HealthUpstreamStatus::Unavailable
        } else if chat_probe_enabled && !(chat is Some && is_success(chat->Some_0)) {
            HealthUpstreamStatus::Degraded
        } else {
            HealthUpstreamStatus::Ready
        },
{
    if !probe_enabled {
        return HealthUpstreamStatus::Disabled;
    }
    let models_ok = match models {
        Some(status) => status_is_success(status) || status == 401,
        None => false,
    };
    if !models_ok {
        return HealthUpstreamStatus::Unavailable;
    }
    if chat_probe_enabled {
        let chat_ok = match chat {
            Some(status) => status_is_success(status),
            None => false,
        };
        if !chat_ok {
            return HealthUpstreamStatus::Degraded;
        }
    }
    HealthUpstreamStatus::Ready
}

/// How long a request that was not heard of stays among those that are live.
pub const LIVE_REQUEST_MAX_AGE_MS: u64 = 300_000;

/// Longest time that the chat probe of an upstream may take.
pub const MAX_CHAT_PROBE_TIMEOUT_MS: u64 = 10_000;

/// The time that the chat probe of an upstream may take.
pub fn chat_probe_timeout_ms(configured_ms: u64) -> (millis: u64)
    ensures
        millis == if configured_ms < MAX_CHAT_PROBE_TIMEOUT_MS {
            configured_ms
        } else {
            MAX_CHAT_PROBE_TIMEOUT_MS
        },
{
    if configured_ms < MAX_CHAT_PROBE_TIMEOUT_MS {
        configured_ms
    } else {
        MAX_CHAT_PROBE_TIMEOUT_MS
    }
}

/// The chat request with which an upstream is probed.
pub open spec fn probe_request() -> JsonModel {
    let message = Map::<Seq<char>, JsonModel>::empty().insert("role"@, JsonModel::Text("user"@)).insert(
        "content"@,
        JsonModel::Text("ping"@),
    );
    JsonModel::Object(
        Map::<Seq<char>, JsonModel>::empty().insert("model"@, JsonModel::Text("ping"@)).insert(
            "messages"@,
            JsonModel::Array(seq![JsonModel::Object(message)]),
        ).insert("max_tokens"@, JsonModel::Unsigned(1)).insert("stream"@, JsonModel::Bool(false)),
    )
}

/// The body of the chat request with which an upstream is probed.
pub fn chat_probe_body() -> (body: String)
    ensures
        body@ == rendered_json(probe_request()),
{
    let mut message = JsonObject::new();
    message.insert("role", Json::text("user"));
    message.insert("content", Json::text("ping"));
    let mut messages: Vec<Json> = Vec::new();
    messages.push(message.into_json());
    assert(models(messages@) =~= seq![messages@[0]@]);
    let mut body = JsonObject::new();
    body.insert("model", Json::text("ping"));
    body.insert("messages", array_of(messages));
    body.insert("max_tokens", Json::Unsigned(1));
    body.insert("stream", Json::Bool(false));
    render_json(&body.into_json())
}

/// What the health of the proxy is told from.
pub struct HealthReport {
    pub service: String,
    pub readiness: String,
    pub license: String,
    pub upstream: HealthUpstreamStatus,
    pub upstream_probe_enabled: bool,
    pub observability_enabled: bool,
    pub request_id: String,
    pub config_path: String,
    pub heartbeat_mode: String,
    pub heartbeat_interval_secs: u64,
}

/// The health of the proxy as JSON.
pub open spec fn health_json(report: HealthReport) -> JsonModel {
    JsonModel::Object(
        Map::<Seq<char>, JsonModel>::empty().insert(
            "service"@,
            JsonModel::Text(report.service@),
        ).insert("process"@, JsonModel::Text("alive"@)).insert(
            "readiness"@,
            JsonModel::Text(report.readiness@),
        ).insert("upstream"@, JsonModel::Text(report.upstream.label())).insert(
            "upstream_probe_enabled"@,
            JsonModel::Bool(report.upstream_probe_enabled),
        ).insert("observability_enabled"@, JsonModel::Bool(report.observability_enabled)).insert(
            "request_id"@,
            JsonModel::Text(report.request_id@),
        ),
    )
}

/// The health of the proxy: its HTTP status and its body.
pub fn health_response(report: &HealthReport) -> (response: (u16, String))
    ensures
        response.0 == if report.upstream is Unavailable {
            503u16
        } else {
            200u16
        },
        response.1@ == rendered_json(health_json(*report)),
{
    let mut body = JsonObject::new();
    body.insert("service", Json::text(report.service.as_str()));
    body.insert("process", Json::text("alive"));
    body.insert("readiness", Json::text(report.readiness.as_str()));
    body.insert("upstream", Json::text(report.upstream.as_str()));
    body.insert("upstream_probe_enabled", Json::Bool(report.upstream_probe_enabled));
    body.insert("observability_enabled", Json::Bool(report.observability_enabled));
    body.insert("request_id", Json::text(report.request_id.as_str()));
    (report.upstream.http_status(), render_json(&body.into_json()))
}

/// The summary of health and configuration in one line.
pub open spec fn health_line(report: HealthReport) -> Seq<char> {
    report.service@ + " request_id="@ + report.request_id@ + " readiness="@ + report.readiness@
        + " license="@ + report.license@ + " config_path="@ + report.config_path@
        + " heartbeat_mode="@ + report.heartbeat_mode@ + " heartbeat_interval_secs="@ + decimal(
        report.heartbeat_interval_secs as nat,
    ) + " observability_enabled="@ + bool_chars(report.observability_enabled)
}

/// The summary of health and configuration in one line.
pub fn render_health(report: &HealthReport) -> (line: String)
    ensures
        line@ == health_line(*report),
{
    let mut line = report.service.clone();
    line.append(" request_id=");
    line.append(report.request_id.as_str());
    line.append(" readiness=");
    line.append(report.readiness.as_str());
    line.append(" license=");
    line.append(report.license.as_str());
    line.append(" config_path=");
    line.append(report.config_path.as_str());
    line.append(" heartbeat_mode=");
    line.append(report.heartbeat_mode.as_str());
    line.append(" heartbeat_interval_secs=");
    line.append(decimal_text(report.heartbeat_interval_secs).as_str());
    line.append(" observability_enabled=");
    line.append(bool_text(report.observability_enabled).as_str());
    line
}

// ---------------------------------------------------------------------------
// Access
// ---------------------------------------------------------------------------

/// The endpoints that tell of requests.
#[derive(Clone, Copy, Debug, PartialEq, Eq, Structural)]
pub enum DebugEndpoint {
    Summary,
    LiveRequests,
}

/// Why an endpoint is not answered: its status, error type and message.
pub open spec fn debug_refusal(
    endpoint: DebugEndpoint,
    enabled: bool,
    headers: Seq<HeaderModel>,
    token: Option<Seq<char>>,
) -> Option<(u16, Seq<char>, Seq<char>)> {
    if !enabled {
        Some(
            match endpoint {
                DebugEndpoint::Summary => (
                    404u16,
                    "debug_summary_disabled"@,
                    "debug summary endpoint is disabled"@,
                ),
                DebugEndpoint::LiveRequests => (
                    403u16,
                    "debug_summary_disabled"@,
                    "live requests endpoint is disabled"@,
                ),
            },
        )
    } else if !summary_allowed(headers, token) {
        Some(
            match endpoint {
                DebugEndpoint::Summary => (
                    401u16,
                    "debug_summary_unauthorized"@,
                    "debug summary authorization failed"@,
                ),
                DebugEndpoint::LiveRequests => (
                    401u16,
                    "debug_summary_unauthorized"@,
                    "live requests authorization failed"@,
                ),
            },
        )
    } else {
        None
    }
}

/// Whether a response tells of a refusal.
pub open spec fn tells_refusal(response: ErrorResponse, refusal: (u16, Seq<char>, Seq<char>)) -> bool {
    &&& response.status == refusal.0
    &&& response.body@ == encode_utf8(
        rendered_json(error_body(plain_details(refusal.1, refusal.2))),
    )
    &&& response.retry_after is None
    &&& response.request_id is None
}

/// An error response with a type and a message.
pub fn proxy_error_response(status: u16, error_type: &str, message: &str) -> (response:
    ErrorResponse)
    ensures
        tells_refusal(response, (status, error_type@, message@)),
{
    ErrorResponse {
        status,
        body: proxy_error_json_body(error_type, message),
        retry_after: None,
        request_id: None,
    }
}

/// Decides whether an endpoint that tells of requests is answered.
pub fn check_debug_access(
    endpoint: DebugEndpoint,
    enabled: bool,
    headers: &Headers,
    token: Option<&str>,
) -> (checked: Result<(), ErrorResponse>)
    ensures
        match debug_refusal(endpoint, enabled, headers@, opt_str_chars(token)) {
            None => checked is Ok,
            Some(refusal) => checked is Err && tells_refusal(checked->Err_0, refusal),
        },
{
    if !enabled {
        return Err(
            match endpoint {
                DebugEndpoint::Summary => proxy_error_response(
                    404,
                    "debug_summary_disabled",
                    "debug summary endpoint is disabled",
                ),
                DebugEndpoint::LiveRequests => proxy_error_response(
                    403,
                    "debug_summary_disabled",
                    "live requests endpoint is disabled",
                ),
            },
        );
    }
    if !debug_summary_authorized(headers, token) {
        return Err(
            match endpoint {
                DebugEndpoint::Summary => proxy_error_response(
                    401,
                    "debug_summary_unauthorized",
                    "debug summary authorization failed",
                ),
                DebugEndpoint::LiveRequests => proxy_error_response(
                    401,
                    "debug_summary_unauthorized",
                    "live requests authorization failed",
                ),
            },
        );
    }
    Ok(())
}

/// Decides whether the metrics are answered.
pub fn check_metrics_access(enabled: bool) -> (checked: Result<(), ErrorResponse>)
    ensures
        match checked {
            Ok(_) => enabled,
            Err(response) => !enabled && tells_refusal(
                response,
                (404u16, "metrics_disabled"@, "metrics endpoint is disabled"@),
            ),
        },
{
    if enabled {
        return Ok(());
    }
    Err(proxy_error_response(404, "metrics_disabled", "metrics endpoint is disabled"))
}

/// With a token configured, no endpoint that tells of requests is answered
/// without it.
pub proof fn requests_are_told_with_the_token_only(
    endpoint: DebugEndpoint,
    enabled: bool,
    headers: Seq<HeaderModel>,
    token: Seq<char>,
)
    requires
        debug_refusal(endpoint, enabled, headers, Some(token)) is None,
        token.len() > 0,
    ensures
        enabled,
        ({
            ||| crate::callers::exact_bearer(headers) == Some(token)
            ||| crate::headers::header_text_of(headers, "x-admin-token"@) == Some(token)
        }),
{
}

// ---------------------------------------------------------------------------
// Debug summaries
// ---------------------------------------------------------------------------

/// A number within bounds: at least one, and no more than a limit that is itself
/// at least one.
pub open spec fn bounded(value: u32, max: u32) -> u32 {
    if value < 1 {
        1
    } else if max < 1 {
        1
    } else if value > max {
        max
    } else {
        value
    }
}

fn bound(value: u32, max: u32) -> (bounded_value: u32)
    ensures
        bounded_value == bounded(value, max),
{
    if value < 1 {
        1
    } else if max < 1 {
        1
    } else if value > max {
        max
    } else {
        value
    }
}

/// The limit that a part of a query states.
pub open spec fn part_limit(part: Seq<char>) -> Option<int> {
    match split_at_first(part, '=') {
        Some((key, value)) => if key == "limit"@ {
            parsed_unsigned(value, u32::MAX as int)
        } else {
            None
        },
        None => None,
    }
}

/// The limit that the first of some parts of a query states.
pub open spec fn stated_limit(parts: Seq<Seq<char>>) -> Option<int>
    decreases parts.len(),
{
    if parts.len() == 0 {
        None
    } else if part_limit(parts[0]) is Some {
        part_limit(parts[0])
    } else {
        stated_limit(parts.drop_first())
    }
}

/// The number of records that a summary shows.
pub open spec fn summary_limit(query: Option<Seq<char>>, default_limit: u32, max_limit: u32) -> u32 {
    match query {
        Some(query) => match stated_limit(split_on(query, '&')) {
            Some(limit) => bounded(limit as u32, max_limit),
            None => bounded(default_limit, max_limit),
        },
        None => bounded(default_limit, max_limit),
    }
}

/// The number of records that a summary shows: what the query asks for first,
/// within bounds.
pub fn debug_summary_limit(query: Option<&str>, default_limit: u32, max_limit: u32) -> (limit: u32)
    ensures
        limit == summary_limit(opt_str_chars(query), default_limit, max_limit),
        1 <= limit,
        limit <= max_limit || limit == 1,
{
    let asked = match query {
        Some(asked) => asked,
        None => {
            return bound(default_limit, max_limit);
        },
    };
    let parts = split(asked, '&');
    let ghost all = crate::text::chars_list(parts@);
    let mut i: usize = 0;
    assert(all.skip(0) =~= all);
    while i < parts.len()
        invariant
            i <= parts.len(),
            all == crate::text::chars_list(parts@),
            query == Some(asked),
            all == split_on(asked@, '&'),
            stated_limit(all) == stated_limit(all.skip(i as int)),
        decreases parts.len() - i,
    {
        assert(all.skip(i as int).drop_first() =~= all.skip(i + 1));
        assert(all.skip(i as int)[0] == parts[i as int]@);
        match split_once(parts[i].as_str(), '=') {
            Some((key, value)) => {
                if same_text(key.as_str(), "limit") {
                    match parse_u32(value.as_str()) {
                        Some(limit) => {
                            return bound(limit, max_limit);
                        },
                        None => {},
                    }
                }
            },
            None => {},
        }
        i += 1;
    }
    bound(default_limit, max_limit)
}

/// A text that may be missing, as JSON.
pub open spec fn opt_text(text: Option<Seq<char>>) -> JsonModel {
    match text {
        Some(text) => JsonModel::Text(text),
        None => JsonModel::Null,
    }
}

/// A number that may be missing, as JSON.
pub open spec fn opt_number(number: Option<u64>) -> JsonModel {
    match number {
        Some(number) => JsonModel::Unsigned(number),
        None => JsonModel::Null,
    }
}

fn opt_text_json(text: &Option<String>) -> (value: Json)
    ensures
        value@ == opt_text(opt_chars(*text)),
{
    match text {
        Some(text) => Json::text(text.as_str()),
        None => Json::Null,
    }
}

fn opt_number_json(number: Option<u64>) -> (value: Json)
    ensures
        value@ == opt_number(number),
{
    match number {
        Some(number) => Json::Unsigned(number),
        None => Json::Null,
    }
}

/// The members of metadata as JSON.
pub open spec fn text_members(entries: Seq<(String, String)>) -> Map<Seq<char>, JsonModel>
    decreases entries.len(),
{
    if entries.len() == 0 {
        Map::empty()
    } else {
        text_members(entries.drop_last()).insert(
            entries.last().0@,
            JsonModel::Text(entries.last().1@),
        )
    }
}

/// Metadata as JSON.
pub open spec fn bindings_json(bindings: Bindings) -> JsonModel {
    JsonModel::Object(bindings.map_values(|value: Seq<char>| JsonModel::Text(value)))
}

proof fn members_are_bindings(entries: Seq<(String, String)>)
    ensures
        text_members(entries) =~= bindings_of(entries).map_values(
            |value: Seq<char>| JsonModel::Text(value),
        ),
    decreases entries.len(),
{
    if entries.len() > 0 {
        members_are_bindings(entries.drop_last());
    }
}

/// Metadata as JSON.
pub fn metadata_json(metadata: &Metadata) -> (value: Json)
    ensures
        value@ == bindings_json(metadata@),
{
    let mut object = JsonObject::new();
    let count: usize = metadata.len();
    let ghost entries = metadata.listed();
    let mut i: usize = 0;
    while i < count
        invariant
            i <= count,
            count == entries.len(),
            entries == metadata.listed(),
            object@ == text_members(entries.take(i as int)),
        decreases count - i,
    {
        assert(entries.take(i + 1).drop_last() =~= entries.take(i as int));
        object.insert(
            metadata.key_at(i).as_str(),
            Json::text(metadata.value_at(i).as_str()),
        );
        i += 1;
    }
    proof {
        assert(entries.take(i as int) =~= entries);
        members_are_bindings(entries);
    }
    object.into_json()
}

/// What a summary tells of a request.
pub struct DebugRequestSummary {
    pub request_id: String,
    pub started_at_unix_ms: u64,
    pub finished_at_unix_ms: Option<u64>,
    pub duration_ms: Option<u64>,
    pub downstream_mode: String,
    pub upstream_mode: String,
    pub model_id: Option<String>,
    pub status: String,
    pub http_status: Option<u64>,
    pub error_reason: Option<String>,
    pub abort_reason: Option<String>,
    pub attempt_count: u64,
    pub retry_count: u64,
    pub loop_detected: bool,
    pub request_metadata: Metadata,
    pub response_metadata: Metadata,
}

/// What a summary tells of a request, as JSON.
pub open spec fn request_summary(summary: DebugRequestSummary) -> JsonModel {
    JsonModel::Object(
        Map::<Seq<char>, JsonModel>::empty().insert(
            "request_id"@,
            JsonModel::Text(summary.request_id@),
        ).insert("started_at_unix_ms"@, JsonModel::Unsigned(summary.started_at_unix_ms)).insert(
            "finished_at_unix_ms"@,
            opt_number(summary.finished_at_unix_ms),
        ).insert("duration_ms"@, opt_number(summary.duration_ms)).insert(
            "downstream_mode"@,
            JsonModel::Text(summary.downstream_mode@),
        ).insert("upstream_mode"@, JsonModel::Text(summary.upstream_mode@)).insert(
            "model_id"@,
            opt_text(opt_chars(summary.model_id)),
        ).insert("status"@, JsonModel::Text(summary.status@)).insert(
            "http_status"@,
            opt_number(summary.http_status),
        ).insert("error_reason"@, opt_text(opt_chars(summary.error_reason))).insert(
            "abort_reason"@,
            opt_text(opt_chars(summary.abort_reason)),
        ).insert("attempt_count"@, JsonModel::Unsigned(summary.attempt_count)).insert(
            "retry_count"@,
            JsonModel::Unsigned(summary.retry_count),
        ).insert("loop_detected"@, JsonModel::Bool(summary.loop_detected)).insert(
            "request_metadata"@,
            bindings_json(summary.request_metadata@),
        ).insert("response_metadata"@, bindings_json(summary.response_metadata@)),
    )
}

fn request_summary_json(summary: &DebugRequestSummary) -> (value: Json)
    ensures
        value@ == request_summary(*summary),
{
    let mut object = JsonObject::new();
    object.insert("request_id", Json::text(summary.request_id.as_str()));
    object.insert("started_at_unix_ms", Json::Unsigned(summary.started_at_unix_ms));
    object.insert("finished_at_unix_ms", opt_number_json(summary.finished_at_unix_ms));
    object.insert("duration_ms", opt_number_json(summary.duration_ms));
    object.insert("downstream_mode", Json::text(summary.downstream_mode.as_str()));
    object.insert("upstream_mode", Json::text(summary.upstream_mode.as_str()));
    object.insert("model_id", opt_text_json(&summary.model_id));
    object.insert("status", Json::text(summary.status.as_str()));
    object.insert("http_status", opt_number_json(summary.http_status));
    object.insert("error_reason", opt_text_json(&summary.error_reason));
    object.insert("abort_reason", opt_text_json(&summary.abort_reason));
    object.insert("attempt_count", Json::Unsigned(summary.attempt_count));
    object.insert("retry_count", Json::Unsigned(summary.retry_count));
    object.insert("loop_detected", Json::Bool(summary.loop_detected));
    object.insert("request_metadata", metadata_json(&summary.request_metadata));
    object.insert("response_metadata", metadata_json(&summary.response_metadata));
    object.into_json()
}

/// A summary of requests as JSON.
pub open spec fn debug_summary(limit: u32, summaries: Seq<DebugRequestSummary>) -> JsonModel {
    JsonModel::Object(
        Map::<Seq<char>, JsonModel>::empty().insert(
            "limit"@,
            JsonModel::Unsigned(limit as u64),
        ).insert("request_count"@, JsonModel::Unsigned(summaries.len() as u64)).insert(
            "redaction"@,
            JsonModel::Text(
                "raw prompts, raw outputs, and sensitive headers are omitted or redacted"@,
            ),
        ).insert(
            "requests"@,
            JsonModel::Array(
                Seq::new(summaries.len(), |i: int| request_summary(summaries[i])),
            ),
        ),
    )
}

/// A summary of requests as JSON.
pub fn render_debug_summary_json(limit: u32, summaries: &Vec<DebugRequestSummary>) -> (value: Json)
    ensures
        value@ == debug_summary(limit, summaries@),
{
    let mut requests: Vec<Json> = Vec::new();
    let mut i: usize = 0;
    while i < summaries.len()
        invariant
            i <= summaries.len(),
            requests.len() == i,
            forall|j: int| 0 <= j < i ==> (#[trigger] requests[j])@ == request_summary(summaries[j]),
        decreases summaries.len() - i,
    {
        requests.push(request_summary_json(&summaries[i]));
        i += 1;
    }
    assert(models(requests@) =~= Seq::new(
        summaries@.len(),
        |i: int| request_summary(summaries@[i]),
    ));
    let mut object = JsonObject::new();
    object.insert("limit", Json::Unsigned(limit as u64));
    object.insert("request_count", Json::Unsigned(summaries.len() as u64));
    object.insert(
        "redaction",
        Json::text("raw prompts, raw outputs, and sensitive headers are omitted or redacted"),
    );
    object.insert("requests", array_of(requests));
    object.into_json()
}

// ---------------------------------------------------------------------------
// Live requests
// ---------------------------------------------------------------------------

/// The identifier that a path ends in.
pub open spec fn last_segment(path: Seq<char>) -> Seq<char> {
    split_on(path, '/').last()
}

/// The identifier of the live request that a path asks for; none where the path
/// ends in a slash.
pub fn live_request_id(path: &str) -> (id: Option<String>)
    ensures
        match id {
            Some(id) => id@ == last_segment(path@) && id@.len() > 0,
            None => last_segment(path@).len() == 0,
        },
{
    let parts = split(path, '/');
    proof {
        split_is_never_empty(path@, '/');
        assert(crate::text::chars_list(parts@) == split_on(path@, '/'));
        assert(crate::text::chars_list(parts@).last() == parts@.last()@);
    }
    let last = &parts[parts.len() - 1];
    if last.as_str().unicode_len() == 0 {
        return None;
    }
    Some(last.clone())
}

/// What is told of a live request.
pub struct LiveRequestSummary {
    pub request_id: String,
    pub state: String,
    pub model: Option<String>,
    pub profile: Option<String>,
    pub downstream_mode: String,
    pub elapsed_ms: u64,
    pub queue_wait_ms: Option<u64>,
    pub first_token_latency_ms: Option<u64>,
    pub active_ladder_rung: Option<u64>,
    pub active_attempt_index: Option<u64>,
    pub chunks_downstream: u64,
    pub bytes_downstream: u64,
    pub last_progress_at_ms: Option<u64>,
}

/// What is told of a live request, as JSON.
pub open spec fn live_summary(summary: LiveRequestSummary) -> JsonModel {
    JsonModel::Object(
        Map::<Seq<char>, JsonModel>::empty().insert(
            "request_id"@,
            JsonModel::Text(summary.request_id@),
        ).insert("state"@, JsonModel::Text(summary.state@)).insert(
            "model"@,
            opt_text(opt_chars(summary.model)),
        ).insert("profile"@, opt_text(opt_chars(summary.profile))).insert(
            "downstream_mode"@,
            JsonModel::Text(summary.downstream_mode@),
        ).insert("elapsed_ms"@, JsonModel::Unsigned(summary.elapsed_ms)).insert(
            "queue_wait_ms"@,
            opt_number(summary.queue_wait_ms),
        ).insert("first_token_latency_ms"@, opt_number(summary.first_token_latency_ms)).insert(
            "active_ladder_rung"@,
            opt_number(summary.active_ladder_rung),
        ).insert("active_attempt_index"@, opt_number(summary.active_attempt_index)).insert(
            "chunks_downstream"@,
            JsonModel::Unsigned(summary.chunks_downstream),
        ).insert("bytes_downstream"@, JsonModel::Unsigned(summary.bytes_downstream)).insert(
            "last_progress_at_ms"@,
            opt_number(summary.last_progress_at_ms),
        ),
    )
}

/// What is told of a live request, as JSON.
pub fn render_live_summary_json(summary: &LiveRequestSummary) -> (value: Json)
    ensures
        value@ == live_summary(*summary),
{
    let mut object = JsonObject::new();
    object.insert("request_id", Json::text(summary.request_id.as_str()));
    object.insert("state", Json::text(summary.state.as_str()));
    object.insert("model", opt_text_json(&summary.model));
    object.insert("profile", opt_text_json(&summary.profile));
    object.insert("downstream_mode", Json::text(summary.downstream_mode.as_str()));
    object.insert("elapsed_ms", Json::Unsigned(summary.elapsed_ms));
    object.insert("queue_wait_ms", opt_number_json(summary.queue_wait_ms));
    object.insert("first_token_latency_ms", opt_number_json(summary.first_token_latency_ms));
    object.insert("active_ladder_rung", opt_number_json(summary.active_ladder_rung));
    object.insert("active_attempt_index", opt_number_json(summary.active_attempt_index));
    object.insert("chunks_downstream", Json::Unsigned(summary.chunks_downstream));
    object.insert("bytes_downstream", Json::Unsigned(summary.bytes_downstream));
    object.insert("last_progress_at_ms", opt_number_json(summary.last_progress_at_ms));
    object.into_json()
}

/// The list of live requests as JSON.
pub open spec fn live_requests(summaries: Seq<LiveRequestSummary>) -> JsonModel {
    JsonModel::Object(
        Map::<Seq<char>, JsonModel>::empty().insert(
            "redaction"@,
            JsonModel::Text("metadata-only; no raw prompts or responses are exposed"@),
        ).insert("request_count"@, JsonModel::Unsigned(summaries.len() as u64)).insert(
            "requests"@,
            JsonModel::Array(Seq::new(summaries.len(), |i: int| live_summary(summaries[i]))),
        ),
    )
}

/// The list of live requests as JSON.
pub fn render_live_requests_json(summaries: &Vec<LiveRequestSummary>) -> (value: Json)
    ensures
        value@ == live_requests(summaries@),
{
    let mut requests: Vec<Json> = Vec::new();
    let mut i: usize = 0;
    while i < summaries.len()
        invariant
            i <= summaries.len(),
            requests.len() == i,
            forall|j: int| 0 <= j < i ==> (#[trigger] requests[j])@ == live_summary(summaries[j]),
        decreases summaries.len() - i,
    {
        requests.push(render_live_summary_json(&summaries[i]));
        i += 1;
    }
    assert(models(requests@) =~= Seq::new(summaries@.len(), |i: int| live_summary(summaries@[i])));
    let mut object = JsonObject::new();
    object.insert(
        "redaction",
        Json::text("metadata-only; no raw prompts or responses are exposed"),
    );
    object.insert("request_count", Json::Unsigned(summaries.len() as u64));
    object.insert("requests", array_of(requests));
    object.into_json()
}

/// Something that happened to a live request.
pub struct LiveRequestEvent {
    pub at_ms: u64,
    pub event: String,
}

/// All that is told of a live request.
pub struct LiveRequestEntry {
    pub request_id: String,
    pub listener: Option<String>,
    pub profile: Option<String>,
    pub model: Option<String>,
    pub upstream_target: Option<String>,
    pub downstream_mode: String,
    pub state: String,
    pub created_at_ms: u64,
    pub last_updated_at_ms: u64,
    pub queue_wait_ms: Option<u64>,
    pub upstream_elapsed_ms: Option<u64>,
    pub first_token_latency_ms: Option<u64>,
    pub active_ladder_rung: Option<u64>,
    pub active_attempt_index: Option<u64>,
    pub chunks_downstream: u64,
    pub bytes_downstream: u64,
    pub chunks_upstream: u64,
    pub bytes_upstream: u64,
    pub last_progress_at_ms: Option<u64>,
    pub timeline: Vec<LiveRequestEvent>,
}

/// An event as JSON.
pub open spec fn event_json(event: LiveRequestEvent) -> JsonModel {
    JsonModel::Object(
        Map::<Seq<char>, JsonModel>::empty().insert("at_ms"@, JsonModel::Unsigned(event.at_ms)).insert(
            "event"@,
            JsonModel::Text(event.event@),
        ),
    )
}

/// All that is told of a live request, as JSON.
pub open spec fn live_detail(entry: LiveRequestEntry) -> JsonModel {
    JsonModel::Object(
        Map::<Seq<char>, JsonModel>::empty().insert(
            "request_id"@,
            JsonModel::Text(entry.request_id@),
        ).insert("listener"@, opt_text(opt_chars(entry.listener))).insert(
            "profile"@,
            opt_text(opt_chars(entry.profile)),
        ).insert("model"@, opt_text(opt_chars(entry.model))).insert(
            "upstream_target"@,
            opt_text(opt_chars(entry.upstream_target)),
        ).insert("downstream_mode"@, JsonModel::Text(entry.downstream_mode@)).insert(
            "state"@,
            JsonModel::Text(entry.state@),
        ).insert("created_at_ms"@, JsonModel::Unsigned(entry.created_at_ms)).insert(
            "last_updated_at_ms"@,
            JsonModel::Unsigned(entry.last_updated_at_ms),
        ).insert("queue_wait_ms"@, opt_number(entry.queue_wait_ms)).insert(
            "upstream_elapsed_ms"@,
            opt_number(entry.upstream_elapsed_ms),
        ).insert("first_token_latency_ms"@, opt_number(entry.first_token_latency_ms)).insert(
            "active_ladder_rung"@,
            opt_number(entry.active_ladder_rung),
        ).insert("active_attempt_index"@, opt_number(entry.active_attempt_index)).insert(
            "chunks_downstream"@,
            JsonModel::Unsigned(entry.chunks_downstream),
        ).insert("bytes_downstream"@, JsonModel::Unsigned(entry.bytes_downstream)).insert(
            "chunks_upstream"@,
            JsonModel::Unsigned(entry.chunks_upstream),
        ).insert("bytes_upstream"@, JsonModel::Unsigned(entry.bytes_upstream)).insert(
            "last_progress_at_ms"@,
            opt_number(entry.last_progress_at_ms),
        ).insert(
            "timeline"@,
            JsonModel::Array(
                Seq::new(entry.timeline@.len(), |i: int| event_json(entry.timeline@[i])),
            ),
        ).insert(
            "redaction"@,
            JsonModel::Text("metadata-only; no raw prompts or responses are exposed"@),
        ),
    )
}

/// All that is told of a live request, as JSON.
pub fn render_live_request_detail_json(entry: &LiveRequestEntry) -> (value: Json)
    ensures
        value@ == live_detail(*entry),
{
    let mut timeline: Vec<Json> = Vec::new();
    let mut i: usize = 0;
    while i < entry.timeline.len()
        invariant
            i <= entry.timeline.len(),
            timeline.len() == i,
            forall|j: int| 0 <= j < i ==> (#[trigger] timeline[j])@ == event_json(entry.timeline[j]),
        decreases entry.timeline.len() - i,
    {
        let mut event = JsonObject::new();
        event.insert("at_ms", Json::Unsigned(entry.timeline[i].at_ms));
        event.insert("event", Json::text(entry.timeline[i].event.as_str()));
        timeline.push(event.into_json());
        i += 1;
    }
    assert(models(timeline@) =~= Seq::new(
        entry.timeline@.len(),
        |i: int| event_json(entry.timeline@[i]),
    ));
    let mut object = JsonObject::new();
    object.insert("request_id", Json::text(entry.request_id.as_str()));
    object.insert("listener", opt_text_json(&entry.listener));
    object.insert("profile", opt_text_json(&entry.profile));
    object.insert("model", opt_text_json(&entry.model));
    object.insert("upstream_target", opt_text_json(&entry.upstream_target));
    object.insert("downstream_mode", Json::text(entry.downstream_mode.as_str()));
    object.insert("state", Json::text(entry.state.as_str()));
    object.insert("created_at_ms", Json::Unsigned(entry.created_at_ms));
    object.insert("last_updated_at_ms", Json::Unsigned(entry.last_updated_at_ms));
    object.insert("queue_wait_ms", opt_number_json(entry.queue_wait_ms));
    object.insert("upstream_elapsed_ms", opt_number_json(entry.upstream_elapsed_ms));
    object.insert("first_token_latency_ms", opt_number_json(entry.first_token_latency_ms));
    object.insert("active_ladder_rung", opt_number_json(entry.active_ladder_rung));
    object.insert("active_attempt_index", opt_number_json(entry.active_attempt_index));
    object.insert("chunks_downstream", Json::Unsigned(entry.chunks_downstream));
    object.insert("bytes_downstream", Json::Unsigned(entry.bytes_downstream));
    object.insert("chunks_upstream", Json::Unsigned(entry.chunks_upstream));
    object.insert("bytes_upstream", Json::Unsigned(entry.bytes_upstream));
    object.insert("last_progress_at_ms", opt_number_json(entry.last_progress_at_ms));
    object.insert("timeline", array_of(timeline));
    object.insert(
        "redaction",
        Json::text("metadata-only; no raw prompts or responses are exposed"),
    );
    object.into_json()
}

/// The answer to a question for one request: what is known of it, or that it is not
/// known.
pub fn live_request_answer(id: Option<&str>, entry: Option<&LiveRequestEntry>) -> (answer: Result<
    Json,
    ErrorResponse,
>)
    ensures
        match (id, entry, answer) {
            (Some(_), Some(entry), Ok(value)) => value@ == live_detail(*entry),
            (None, _, Err(response)) => tells_refusal(
                response,
                (404u16, "live_request_not_found"@, "request id not provided"@),
            ),
            (Some(_), None, Err(response)) => tells_refusal(
                response,
                (
                    404u16,
                    "live_request_not_found"@,
                    "no active request with that id (it may have completed or been pruned)"@,
                ),
            ),
            _ => false,
        },
{
    match (id, entry) {
        (None, _) => Err(
            proxy_error_response(404, "live_request_not_found", "request id not provided"),
        ),
        (Some(_), None) => Err(
            proxy_error_response(
                404,
                "live_request_not_found",
                "no active request with that id (it may have completed or been pruned)",
            ),
        ),
        (Some(_), Some(entry)) => Ok(render_live_request_detail_json(entry)),
    }
}

/// The answer to a question for the recent requests: what the store holds, or why it
/// cannot tell.
pub fn debug_summary_answer(limit: u32, summaries: &Result<Vec<DebugRequestSummary>, String>) -> (
    answer: Result<Json, ErrorResponse>)
    ensures
        match (*summaries, answer) {
            (Ok(summaries), Ok(value)) => value@ == debug_summary(limit, summaries@),
            (Err(reason), Err(response)) => tells_refusal(
                response,
                (500u16, "debug_summary_failed"@, reason@),
            ),
            _ => false,
        },
{
    match summaries {
        Ok(summaries) => Ok(render_debug_summary_json(limit, summaries)),
        Err(reason) => Err(proxy_error_response(500, "debug_summary_failed", reason.as_str())),
    }
}

/// The summary of a request tells what is known of it, each thing under its name.
pub proof fn requests_are_summed_up(
    summary: DebugRequestSummary,
)
    ensures
        ({
            let told = request_summary(summary);
            &&& told.field("request_id"@) == Some(JsonModel::Text(summary.request_id@))
            &&& told.field("started_at_unix_ms"@) == Some(JsonModel::Unsigned(summary.started_at_unix_ms))
            &&& told.field("finished_at_unix_ms"@) == Some(match summary.finished_at_unix_ms {
                Some(number) => JsonModel::Unsigned(number),
                None => JsonModel::Null,
            })
            &&& told.field("duration_ms"@) == Some(match summary.duration_ms {
                Some(number) => JsonModel::Unsigned(number),
                None => JsonModel::Null,
            })
            &&& told.field("downstream_mode"@) == Some(JsonModel::Text(summary.downstream_mode@))
            &&& told.field("upstream_mode"@) == Some(JsonModel::Text(summary.upstream_mode@))
            &&& told.field("model_id"@) == Some(match summary.model_id {
                Some(text) => JsonModel::Text(text@),
                None => JsonModel::Null,
            })
            &&& told.field("status"@) == Some(JsonModel::Text(summary.status@))
            &&& told.field("http_status"@) == Some(match summary.http_status {
                Some(number) => JsonModel::Unsigned(number),
                None => JsonModel::Null,
            })
            &&& told.field("error_reason"@) == Some(match summary.error_reason {
                Some(text) => JsonModel::Text(text@),
                None => JsonModel::Null,
            })
            &&& told.field("abort_reason"@) == Some(match summary.abort_reason {
                Some(text) => JsonModel::Text(text@),
                None => JsonModel::Null,
            })
            &&& told.field("attempt_count"@) == Some(JsonModel::Unsigned(summary.attempt_count))
            &&& told.field("retry_count"@) == Some(JsonModel::Unsigned(summary.retry_count))
            &&& told.field("loop_detected"@) == Some(JsonModel::Bool(summary.loop_detected))
            &&& told.field("request_metadata"@) == Some(bindings_json(summary.request_metadata@))
            &&& told.field("response_metadata"@) == Some(bindings_json(summary.response_metadata@))
        }),
{
    reveal_strlit("request_id");
    reveal_strlit("started_at_unix_ms");
    reveal_strlit("finished_at_unix_ms");
    reveal_strlit("duration_ms");
    reveal_strlit("downstream_mode");
    reveal_strlit("upstream_mode");
    reveal_strlit("model_id");
    reveal_strlit("status");
    reveal_strlit("http_status");
    reveal_strlit("error_reason");
    reveal_strlit("abort_reason");
    reveal_strlit("attempt_count");
    reveal_strlit("retry_count");
    reveal_strlit("loop_detected");
    reveal_strlit("request_metadata");
    reveal_strlit("response_metadata");
    assert("request_id"@.len() == 10);
    assert("started_at_unix_ms"@.len() == 18);
    assert("finished_at_unix_ms"@.len() == 19);
    assert("duration_ms"@.len() == 11);
    assert("downstream_mode"@.len() == 15);
    assert("upstream_mode"@.len() == 13);
    assert("model_id"@.len() == 8);
    assert("status"@.len() == 6);
    assert("http_status"@.len() == 11);
    assert("error_reason"@.len() == 12);
    assert("abort_reason"@.len() == 12);
    assert("attempt_count"@.len() == 13);
    assert("retry_count"@.len() == 11);
    assert("loop_detected"@.len() == 13);
    assert("request_metadata"@.len() == 16);
    assert("response_metadata"@.len() == 17);
    assert("duration_ms"@[0] != "http_status"@[0]);
    assert("duration_ms"@[0] != "retry_count"@[0]);
    assert("upstream_mode"@[0] != "attempt_count"@[0]);
    assert("upstream_mode"@[0] != "loop_detected"@[0]);
    assert("http_status"@[0] != "retry_count"@[0]);
    assert("error_reason"@[0] != "abort_reason"@[0]);
    assert("attempt_count"@[0] != "loop_detected"@[0]);
}

/// The summary of a live request tells how far it is, each thing under its name.
pub proof fn live_requests_are_summed_up(
    summary: LiveRequestSummary,
)
    ensures
        ({
            let told = live_summary(summary);
            &&& told.field("request_id"@) == Some(JsonModel::Text(summary.request_id@))
            &&& told.field("state"@) == Some(JsonModel::Text(summary.state@))
            &&& told.field("model"@) == Some(match summary.model {
                Some(text) => JsonModel::Text(text@),
                None => JsonModel::Null,
            })
            &&& told.field("profile"@) == Some(match summary.profile {
                Some(text) => JsonModel::Text(text@),
                None => JsonModel::Null,
            })
            &&& told.field("downstream_mode"@) == Some(JsonModel::Text(summary.downstream_mode@))
            &&& told.field("elapsed_ms"@) == Some(JsonModel::Unsigned(summary.elapsed_ms))
            &&& told.field("queue_wait_ms"@) == Some(match summary.queue_wait_ms {
                Some(number) => JsonModel::Unsigned(number),
                None => JsonModel::Null,
            })
            &&& told.field("first_token_latency_ms"@) == Some(match summary.first_token_latency_ms {
                Some(number) => JsonModel::Unsigned(number),
                None => JsonModel::Null,
            })
            &&& told.field("active_ladder_rung"@) == Some(match summary.active_ladder_rung {
                Some(number) => JsonModel::Unsigned(number),
                None => JsonModel::Null,
            })
            &&& told.field("active_attempt_index"@) == Some(match summary.active_attempt_index {
                Some(number) => JsonModel::Unsigned(number),
                None => JsonModel::Null,
            })
            &&& told.field("chunks_downstream"@) == Some(JsonModel::Unsigned(summary.chunks_downstream))
            &&& told.field("bytes_downstream"@) == Some(JsonModel::Unsigned(summary.bytes_downstream))
            &&& told.field("last_progress_at_ms"@) == Some(match summary.last_progress_at_ms {
                Some(number) => JsonModel::Unsigned(number),
                None => JsonModel::Null,
            })
        }),
{
    reveal_strlit("request_id");
    reveal_strlit("state");
    reveal_strlit("model");
    reveal_strlit("profile");
    reveal_strlit("downstream_mode");
    reveal_strlit("elapsed_ms");
    reveal_strlit("queue_wait_ms");
    reveal_strlit("first_token_latency_ms");
    reveal_strlit("active_ladder_rung");
    reveal_strlit("active_attempt_index");
    reveal_strlit("chunks_downstream");
    reveal_strlit("bytes_downstream");
    reveal_strlit("last_progress_at_ms");
    assert("request_id"@.len() == 10);
    assert("state"@.len() == 5);
    assert("model"@.len() == 5);
    assert("profile"@.len() == 7);
    assert("downstream_mode"@.len() == 15);
    assert("elapsed_ms"@.len() == 10);
    assert("queue_wait_ms"@.len() == 13);
    assert("first_token_latency_ms"@.len() == 22);
    assert("active_ladder_rung"@.len() == 18);
    assert("active_attempt_index"@.len() == 20);
    assert("chunks_downstream"@.len() == 17);
    assert("bytes_downstream"@.len() == 16);
    assert("last_progress_at_ms"@.len() == 19);
    assert("request_id"@[0] != "elapsed_ms"@[0]);
    assert("state"@[0] != "model"@[0]);
}

/// The details of a live request are told under their names.
pub proof fn live_requests_are_told_in_detail(
    entry: LiveRequestEntry,
)
    ensures
        ({
            let told = live_detail(entry);
            &&& told.field("request_id"@) == Some(JsonModel::Text(entry.request_id@))
            &&& told.field("listener"@) == Some(match entry.listener {
                Some(text) => JsonModel::Text(text@),
                None => JsonModel::Null,
            })
            &&& told.field("profile"@) == Some(match entry.profile {
                Some(text) => JsonModel::Text(text@),
                None => JsonModel::Null,
            })
            &&& told.field("model"@) == Some(match entry.model {
                Some(text) => JsonModel::Text(text@),
                None => JsonModel::Null,
            })
            &&& told.field("upstream_target"@) == Some(match entry.upstream_target {
                Some(text) => JsonModel::Text(text@),
                None => JsonModel::Null,
            })
            &&& told.field("downstream_mode"@) == Some(JsonModel::Text(entry.downstream_mode@))
            &&& told.field("state"@) == Some(JsonModel::Text(entry.state@))
            &&& told.field("created_at_ms"@) == Some(JsonModel::Unsigned(entry.created_at_ms))
            &&& told.field("last_updated_at_ms"@) == Some(JsonModel::Unsigned(entry.last_updated_at_ms))
            &&& told.field("queue_wait_ms"@) == Some(match entry.queue_wait_ms {
                Some(number) => JsonModel::Unsigned(number),
                None => JsonModel::Null,
            })
            &&& told.field("upstream_elapsed_ms"@) == Some(match entry.upstream_elapsed_ms {
                Some(number) => JsonModel::Unsigned(number),
                None => JsonModel::Null,
            })
            &&& told.field("first_token_latency_ms"@) == Some(match entry.first_token_latency_ms {
                Some(number) => JsonModel::Unsigned(number),
                None => JsonModel::Null,
            })
            &&& told.field("active_ladder_rung"@) == Some(match entry.active_ladder_rung {
                Some(number) => JsonModel::Unsigned(number),
                None => JsonModel::Null,
            })
            &&& told.field("active_attempt_index"@) == Some(match entry.active_attempt_index {
                Some(number) => JsonModel::Unsigned(number),
                None => JsonModel::Null,
            })
            &&& told.field("chunks_downstream"@) == Some(JsonModel::Unsigned(entry.chunks_downstream))
            &&& told.field("bytes_downstream"@) == Some(JsonModel::Unsigned(entry.bytes_downstream))
            &&& told.field("chunks_upstream"@) == Some(JsonModel::Unsigned(entry.chunks_upstream))
            &&& told.field("bytes_upstream"@) == Some(JsonModel::Unsigned(entry.bytes_upstream))
            &&& told.field("last_progress_at_ms"@) == Some(match entry.last_progress_at_ms {
                Some(number) => JsonModel::Unsigned(number),
                None => JsonModel::Null,
            })
        }),
{
    reveal_strlit("request_id");
    reveal_strlit("listener");
    reveal_strlit("profile");
    reveal_strlit("model");
    reveal_strlit("upstream_target");
    reveal_strlit("downstream_mode");
    reveal_strlit("state");
    reveal_strlit("created_at_ms");
    reveal_strlit("last_updated_at_ms");
    reveal_strlit("queue_wait_ms");
    reveal_strlit("upstream_elapsed_ms");
    reveal_strlit("first_token_latency_ms");
    reveal_strlit("active_ladder_rung");
    reveal_strlit("active_attempt_index");
    reveal_strlit("chunks_downstream");
    reveal_strlit("bytes_downstream");
    reveal_strlit("chunks_upstream");
    reveal_strlit("bytes_upstream");
    reveal_strlit("last_progress_at_ms");
    reveal_strlit("timeline");
    reveal_strlit("redaction");
    assert("request_id"@.len() == 10);
    assert("listener"@.len() == 8);
    assert("profile"@.len() == 7);
    assert("model"@.len() == 5);
    assert("upstream_target"@.len() == 15);
    assert("downstream_mode"@.len() == 15);
    assert("state"@.len() == 5);
    assert("created_at_ms"@.len() == 13);
    assert("last_updated_at_ms"@.len() == 18);
    assert("queue_wait_ms"@.len() == 13);
    assert("upstream_elapsed_ms"@.len() == 19);
    assert("first_token_latency_ms"@.len() == 22);
    assert("active_ladder_rung"@.len() == 18);
    assert("active_attempt_index"@.len() == 20);
    assert("chunks_downstream"@.len() == 17);
    assert("bytes_downstream"@.len() == 16);
    assert("chunks_upstream"@.len() == 15);
    assert("bytes_upstream"@.len() == 14);
    assert("last_progress_at_ms"@.len() == 19);
    assert("timeline"@.len() == 8);
    assert("redaction"@.len() == 9);
    assert("listener"@[0] != "timeline"@[0]);
    assert("model"@[0] != "state"@[0]);
    assert("upstream_target"@[0] != "downstream_mode"@[0]);
    assert("upstream_target"@[0] != "chunks_upstream"@[0]);
    assert("downstream_mode"@[0] != "chunks_upstream"@[0]);
    assert("created_at_ms"@[0] != "queue_wait_ms"@[0]);
    assert("last_updated_at_ms"@[0] != "active_ladder_rung"@[0]);
    assert("upstream_elapsed_ms"@[0] != "last_progress_at_ms"@[0]);
}

/// The health of the proxy is told under its names.
pub proof fn health_is_told(
    report: HealthReport,
)
    ensures
        ({
            let told = health_json(report);
            &&& told.field("service"@) == Some(JsonModel::Text(report.service@))
            &&& told.field("process"@) == Some(JsonModel::Text("alive"@))
            &&& told.field("readiness"@) == Some(JsonModel::Text(report.readiness@))
            &&& told.field("upstream"@) == Some(JsonModel::Text(report.upstream.label()))
            &&& told.field("upstream_probe_enabled"@) == Some(JsonModel::Bool(report.upstream_probe_enabled))
            &&& told.field("observability_enabled"@) == Some(JsonModel::Bool(report.observability_enabled))
            &&& told.field("request_id"@) == Some(JsonModel::Text(report.request_id@))
        }),
{
    reveal_strlit("service");
    reveal_strlit("process");
    reveal_strlit("readiness");
    reveal_strlit("upstream");
    reveal_strlit("upstream_probe_enabled");
    reveal_strlit("observability_enabled");
    reveal_strlit("request_id");
    assert("service"@.len() == 7);
    assert("process"@.len() == 7);
    assert("readiness"@.len() == 9);
    assert("upstream"@.len() == 8);
    assert("upstream_probe_enabled"@.len() == 22);
    assert("observability_enabled"@.len() == 21);
    assert("request_id"@.len() == 10);
    assert("service"@[0] != "process"@[0]);
}

/// A summary has one entry for each request, in order, and says how many there are and
/// how many were asked for.
pub proof fn summaries_have_all_requests(
    limit: u32,
    summaries: Seq<DebugRequestSummary>,
    live: Seq<LiveRequestSummary>,
    at: int,
)
    requires
        summaries.len() <= u64::MAX,
        live.len() <= u64::MAX,
    ensures
        ({
            let told = debug_summary(limit, summaries);
            &&& told.field("limit"@) == Some(JsonModel::Unsigned(limit as u64))
            &&& told.field("request_count"@) == Some(JsonModel::Unsigned(summaries.len() as u64))
            &&& (told.field("requests"@) matches Some(JsonModel::Array(items)) && items.len()
                == summaries.len() && (0 <= at < summaries.len() ==> items[at] == request_summary(
                summaries[at],
            )))
        }),
        ({
            let told = live_requests(live);
            &&& told.field("request_count"@) == Some(JsonModel::Unsigned(live.len() as u64))
            &&& (told.field("requests"@) matches Some(JsonModel::Array(items)) && items.len()
                == live.len() && (0 <= at < live.len() ==> items[at] == live_summary(live[at])))
        }),
{
    reveal_strlit("limit");
    reveal_strlit("request_count");
    reveal_strlit("redaction");
    reveal_strlit("requests");
    assert("limit"@.len() == 5);
    assert("request_count"@.len() == 13);
    assert("redaction"@.len() == 9);
    assert("requests"@.len() == 8);
}

/// Metadata are shown as they are.
pub proof fn metadata_are_shown(bindings: Bindings, key: Seq<char>)
    ensures
        bindings.contains_key(key) ==> bindings_json(bindings).field(key) == Some(
            JsonModel::Text(bindings[key]),
        ),
        !bindings.contains_key(key) ==> bindings_json(bindings).field(key) is None,
{
}

/// An upstream shows its models where it answers with success, or asks for a key.
pub proof fn upstreams_show_their_models(status: u16)
    ensures
        200 <= status <= 299 ==> shows_models(Some(status)),
        shows_models(Some(401u16)),
        !(200 <= status <= 299) && status != 401 ==> !shows_models(Some(status)),
        !shows_models(None),
{
}

/// The debug endpoints are hidden or forbidden where they are off, and ask for the
/// token where one is set.
pub proof fn debug_endpoints_are_guarded(
    endpoint: DebugEndpoint,
    headers: Seq<HeaderModel>,
    token: Option<Seq<char>>,
)
    ensures
        debug_refusal(DebugEndpoint::Summary, false, headers, token) matches Some(refusal)
            && refusal.0 == 404,
        debug_refusal(DebugEndpoint::LiveRequests, false, headers, token) matches Some(refusal)
            && refusal.0 == 403,
        summary_allowed(headers, token) ==> debug_refusal(endpoint, true, headers, token) is None,
        !summary_allowed(headers, token) ==> (debug_refusal(
            endpoint,
            true,
            headers,
            token,
        ) matches Some(refusal) && refusal.0 == 401),
{
}

/// The number of requests in a summary is the one that is asked for, held between one
/// and the largest allowed; without a number it is the default.
pub proof fn summaries_are_as_long_as_asked(
    asked: u32,
    default_limit: u32,
    max_limit: u32,
    other: Seq<char>,
)
    requires
        max_limit >= 1,
        !other.contains('='),
        !other.contains('&'),
    ensures
        ({
            let limit = summary_limit(
                Some("limit="@ + decimal(asked as nat)),
                default_limit,
                max_limit,
            );
            &&& 1 <= asked <= max_limit ==> limit == asked
            &&& asked > max_limit ==> limit == max_limit
            &&& asked == 0 ==> limit == 1
        }),
        1 <= default_limit <= max_limit ==> summary_limit(None, default_limit, max_limit)
            == default_limit,
        1 <= default_limit <= max_limit ==> summary_limit(Some(other), default_limit, max_limit)
            == default_limit,
        default_limit > max_limit ==> summary_limit(None, default_limit, max_limit) == max_limit,
{
    reveal_strlit("limit=");
    reveal_strlit("limit");
    let number = decimal(asked as nat);
    let part = "limit="@ + number;
    crate::text::decimal_parses_to_itself(asked as nat, u32::MAX as int);
    crate::text::decimal_reads_back(asked as nat);
    assert forall|i: int| 0 <= i < part.len() implies part[i] != '&' by {
        if i >= 6 {
            assert(part[i] == number[i - 6]);
        }
    }
    crate::text::texts_split_at_separators(part, Seq::empty(), '&');
    crate::text::texts_split_once_at_the_first(part, '=');
    assert(part[5] == '=');
    match split_at_first(part, '=') {
        Some((key, value)) => {
            assert(key.push('=') + value == part);
            if key.len() < 5 {
                assert((key.push('=') + value)[key.len() as int] == '=');
            }
            if key.len() > 5 {
                assert(key[5] == (key.push('=') + value)[5]);
                assert(key.contains(key[5]));
            }
            assert(key =~= "limit"@) by {
                assert forall|i: int| 0 <= i < 5 implies key[i] == "limit"@[i] by {
                    assert((key.push('=') + value)[i] == part[i]);
                }
            }
            assert(value =~= number) by {
                assert forall|i: int| 0 <= i < number.len() implies value[i] == number[i] by {
                    assert((key.push('=') + value)[6 + i] == part[6 + i]);
                }
            }
        },
        None => {
            assert(part.contains(part[5]));
        },
    }
    assert(split_on(part, '&') == seq![part]);
    assert(part_limit(part) == Some(asked as int));
    crate::text::texts_split_at_separators(other, Seq::empty(), '&');
    crate::text::texts_split_once_at_the_first(other, '=');
    match split_at_first(other, '=') {
        Some((key, value)) => {
            assert((key.push('=') + value)[key.len() as int] == '=');
            assert(other.contains('='));
        },
        None => {},
    }
    assert(split_on(other, '&') == seq![other]);
    assert(part_limit(other) is None);
    assert(seq![other].drop_first() =~= Seq::<Seq<char>>::empty());
    assert(stated_limit(seq![other].drop_first()) is None);
}

/// The request that a path asks for is what follows its last slash.
pub proof fn paths_end_in_the_request(before: Seq<char>, id: Seq<char>)
    requires
        !id.contains('/'),
    ensures
        last_segment(before.push('/') + id) == id,
{
    crate::text::texts_split_at_separators(before, id, '/');
    crate::text::texts_split_at_separators(id, Seq::empty(), '/');
}

/// A probe asks for the models, or for a chat of one token that is not streamed.
pub proof fn probes_ask_for_little()
    ensures
        probe_target(true).0 == "/v1/chat/completions"@,
        probe_target(false).0 == "/v1/models"@,
        probe_target(true).1 is None && probe_target(false).1 is None,
        probe_request().field("max_tokens"@) == Some(JsonModel::Unsigned(1)),
        probe_request().field("stream"@) == Some(JsonModel::Bool(false)),
        probe_request().field("model"@) is Some,
        probe_request().field("messages"@) matches Some(JsonModel::Array(messages))
            && messages.len() == 1 && messages[0].field("role"@) == Some(JsonModel::Text("user"@))
            && messages[0].field("content"@) is Some,
{
    reveal_strlit("model");
    reveal_strlit("messages");
    reveal_strlit("max_tokens");
    reveal_strlit("stream");
    reveal_strlit("role");
    reveal_strlit("content");
    assert("model"@.len() == 5);
    assert("messages"@.len() == 8);
    assert("max_tokens"@.len() == 10);
    assert("stream"@.len() == 6);
    assert("role"@.len() == 4);
    assert("content"@.len() == 7);
}

/// A refusal is told with its status, its type and its message, and asks nobody to come
/// back.
pub proof fn refusals_are_told(response: ErrorResponse, refusal: (u16, Seq<char>, Seq<char>))
    requires
        tells_refusal(response, refusal),
    ensures
        response.status == refusal.0,
        response.retry_after is None,
        response.request_id is None,
        exists|told: JsonModel|
            {
                &&& response.body@ == encode_utf8(#[trigger] rendered_json(told))
                &&& told.field("error"@) matches Some(error)
                &&& error.field("type"@) == Some(JsonModel::Text(refusal.1))
                &&& error.field("message"@) == Some(JsonModel::Text(refusal.2))
            },
{
    let details = plain_details(refusal.1, refusal.2);
    crate::error_bodies::error_bodies_tell_the_error(details);
    let told = error_body(details);
    assert(response.body@ == encode_utf8(rendered_json(told)));
}

/// Limits are taken as they are where they are allowed, and are never nothing.
pub proof fn limits_are_bounded(value: u32, max: u32)
    ensures
        bounded(value, max) >= 1,
        1 <= value <= max ==> bounded(value, max) == value,
        1 <= max < value ==> bounded(value, max) == max,
        value == 0 ==> bounded(value, max) == 1,
{
}

/// The limit of a query is what stands behind its name, and the first that can be read
/// counts.
pub proof fn the_first_limit_counts(parts: Seq<Seq<char>>, part: Seq<char>, digits: Seq<char>)
    ensures
        part_limit("limit="@ + digits) == parsed_unsigned(digits, u32::MAX as int),
        part_limit(part) is Some ==> stated_limit(seq![part] + parts) == part_limit(part),
        part_limit(part) is None ==> stated_limit(seq![part] + parts) == stated_limit(parts),
        stated_limit(Seq::empty()) is None,
        !part.contains('=') ==> part_limit(part) is None,
{
    reveal_strlit("limit=");
    reveal_strlit("limit");
    let text = "limit="@ + digits;
    crate::text::texts_split_once_at_the_first(text, '=');
    crate::text::texts_split_once_at_the_first(part, '=');
    assert(text[5] == '=');
    assert(text.contains('='));
    let split = split_at_first(text, '=')->Some_0;
    let at = split.0.len() as int;
    assert(split.0.push('=')[at] == '=' && text[at] == '=');
    if at > 5 {
        assert(split.0[5] == text[5]);
    }
    assert(at == 5);
    let whole = split.0.push('=') + split.1;
    assert(whole == text);
    assert(whole.take(5) =~= split.0 && whole.skip(6) =~= split.1);
    assert(text.take(5) =~= "limit"@);
    assert(text.skip(6) =~= digits);
    if let Some((key, value)) = split_at_first(part, '=') {
        assert(part[key.len() as int] == '=');
    }
    assert((seq![part] + parts).drop_first() =~= parts);
    assert((seq![part] + parts)[0] == part);
}

/// What is not known is shown as null, and what is as it is.
pub proof fn unknown_values_are_null(text: Seq<char>, number: u64, event: LiveRequestEvent)
    ensures
        opt_text(Some(text)) == JsonModel::Text(text),
        opt_text(None) is Null,
        opt_number(Some(number)) == JsonModel::Unsigned(number),
        opt_number(None) is Null,
        event_json(event).field("at_ms"@) == Some(JsonModel::Unsigned(event.at_ms)),
        event_json(event).field("event"@) == Some(JsonModel::Text(event.event@)),
{
    reveal_strlit("at_ms");
    reveal_strlit("event");
    assert("at_ms"@.len() == 5);
    assert("event"@.len() == 5);
    assert("at_ms"@[0] != "event"@[0]);
}

/// The line of the health says each thing under its name.
pub proof fn health_lines_tell_everything(
    report: HealthReport,
)
    ensures
        ({
            let told = health_line(report);
            &&& crate::text::has_part(told, report.service@)
            &&& crate::text::has_part(told, " request_id="@ + report.request_id@)
            &&& crate::text::has_part(told, " readiness="@ + report.readiness@)
            &&& crate::text::has_part(told, " license="@ + report.license@)
            &&& crate::text::has_part(told, " config_path="@ + report.config_path@)
            &&& crate::text::has_part(told, " heartbeat_mode="@ + report.heartbeat_mode@)
            &&& crate::text::has_part(told, " heartbeat_interval_secs="@ + decimal(report.heartbeat_interval_secs as nat))
            &&& crate::text::has_part(told, " observability_enabled="@ + bool_chars(report.observability_enabled))
        }),
{
    let t0 = report.service@;
    crate::text::parts_are_found_at_the_end(Seq::<char>::empty(), Seq::<char>::empty(), report.service@);
    assert(Seq::<char>::empty() + report.service@ =~= report.service@);
    assert(Seq::<char>::empty() + Seq::<char>::empty() + report.service@ =~= t0);
    let t1 = t0 + " request_id="@ + report.request_id@;
    crate::text::parts_are_found_at_the_end(t0, " request_id="@, report.request_id@);
    crate::text::parts_are_found_in_more(t0, report.service@, " request_id="@);
    crate::text::parts_are_found_in_more(t0 + " request_id="@, report.service@, report.request_id@);
    let t2 = t1 + " readiness="@ + report.readiness@;
    crate::text::parts_are_found_at_the_end(t1, " readiness="@, report.readiness@);
    crate::text::parts_are_found_in_more(t1, report.service@, " readiness="@);
    crate::text::parts_are_found_in_more(t1 + " readiness="@, report.service@, report.readiness@);
    crate::text::parts_are_found_in_more(t1, " request_id="@ + report.request_id@, " readiness="@);
    crate::text::parts_are_found_in_more(t1 + " readiness="@, " request_id="@ + report.request_id@, report.readiness@);
    let t3 = t2 + " license="@ + report.license@;
    crate::text::parts_are_found_at_the_end(t2, " license="@, report.license@);
    crate::text::parts_are_found_in_more(t2, report.service@, " license="@);
    crate::text::parts_are_found_in_more(t2 + " license="@, report.service@, report.license@);
    crate::text::parts_are_found_in_more(t2, " request_id="@ + report.request_id@, " license="@);
    crate::text::parts_are_found_in_more(t2 + " license="@, " request_id="@ + report.request_id@, report.license@);
    crate::text::parts_are_found_in_more(t2, " readiness="@ + report.readiness@, " license="@);
    crate::text::parts_are_found_in_more(t2 + " license="@, " readiness="@ + report.readiness@, report.license@);
    let t4 = t3 + " config_path="@ + report.config_path@;
    crate::text::parts_are_found_at_the_end(t3, " config_path="@, report.config_path@);
    crate::text::parts_are_found_in_more(t3, report.service@, " config_path="@);
    crate::text::parts_are_found_in_more(t3 + " config_path="@, report.service@, report.config_path@);
    crate::text::parts_are_found_in_more(t3, " request_id="@ + report.request_id@, " config_path="@);
    crate::text::parts_are_found_in_more(t3 + " config_path="@, " request_id="@ + report.request_id@, report.config_path@);
    crate::text::parts_are_found_in_more(t3, " readiness="@ + report.readiness@, " config_path="@);
    crate::text::parts_are_found_in_more(t3 + " config_path="@, " readiness="@ + report.readiness@, report.config_path@);
    crate::text::parts_are_found_in_more(t3, " license="@ + report.license@, " config_path="@);
    crate::text::parts_are_found_in_more(t3 + " config_path="@, " license="@ + report.license@, report.config_path@);
    let t5 = t4 + " heartbeat_mode="@ + report.heartbeat_mode@;
    crate::text::parts_are_found_at_the_end(t4, " heartbeat_mode="@, report.heartbeat_mode@);
    crate::text::parts_are_found_in_more(t4, report.service@, " heartbeat_mode="@);
    crate::text::parts_are_found_in_more(t4 + " heartbeat_mode="@, report.service@, report.heartbeat_mode@);
    crate::text::parts_are_found_in_more(t4, " request_id="@ + report.request_id@, " heartbeat_mode="@);
    crate::text::parts_are_found_in_more(t4 + " heartbeat_mode="@, " request_id="@ + report.request_id@, report.heartbeat_mode@);
    crate::text::parts_are_found_in_more(t4, " readiness="@ + report.readiness@, " heartbeat_mode="@);
    crate::text::parts_are_found_in_more(t4 + " heartbeat_mode="@, " readiness="@ + report.readiness@, report.heartbeat_mode@);
    crate::text::parts_are_found_in_more(t4, " license="@ + report.license@, " heartbeat_mode="@);
    crate::text::parts_are_found_in_more(t4 + " heartbeat_mode="@, " license="@ + report.license@, report.heartbeat_mode@);
    crate::text::parts_are_found_in_more(t4, " config_path="@ + report.config_path@, " heartbeat_mode="@);
    crate::text::parts_are_found_in_more(t4 + " heartbeat_mode="@, " config_path="@ + report.config_path@, report.heartbeat_mode@);
    let t6 = t5 + " heartbeat_interval_secs="@ + decimal(report.heartbeat_interval_secs as nat);
    crate::text::parts_are_found_at_the_end(t5, " heartbeat_interval_secs="@, decimal(report.heartbeat_interval_secs as nat));
    crate::text::parts_are_found_in_more(t5, report.service@, " heartbeat_interval_secs="@);
    crate::text::parts_are_found_in_more(t5 + " heartbeat_interval_secs="@, report.service@, decimal(report.heartbeat_interval_secs as nat));
    crate::text::parts_are_found_in_more(t5, " request_id="@ + report.request_id@, " heartbeat_interval_secs="@);
    crate::text::parts_are_found_in_more(t5 + " heartbeat_interval_secs="@, " request_id="@ + report.request_id@, decimal(report.heartbeat_interval_secs as nat));
    crate::text::parts_are_found_in_more(t5, " readiness="@ + report.readiness@, " heartbeat_interval_secs="@);
    crate::text::parts_are_found_in_more(t5 + " heartbeat_interval_secs="@, " readiness="@ + report.readiness@, decimal(report.heartbeat_interval_secs as nat));
    crate::text::parts_are_found_in_more(t5, " license="@ + report.license@, " heartbeat_interval_secs="@);
    crate::text::parts_are_found_in_more(t5 + " heartbeat_interval_secs="@, " license="@ + report.license@, decimal(report.heartbeat_interval_secs as nat));
    crate::text::parts_are_found_in_more(t5, " config_path="@ + report.config_path@, " heartbeat_interval_secs="@);
    crate::text::parts_are_found_in_more(t5 + " heartbeat_interval_secs="@, " config_path="@ + report.config_path@, decimal(report.heartbeat_interval_secs as nat));
    crate::text::parts_are_found_in_more(t5, " heartbeat_mode="@ + report.heartbeat_mode@, " heartbeat_interval_secs="@);
    crate::text::parts_are_found_in_more(t5 + " heartbeat_interval_secs="@, " heartbeat_mode="@ + report.heartbeat_mode@, decimal(report.heartbeat_interval_secs as nat));
    let t7 = t6 + " observability_enabled="@ + bool_chars(report.observability_enabled);
    crate::text::parts_are_found_at_the_end(t6, " observability_enabled="@, bool_chars(report.observability_enabled));
    crate::text::parts_are_found_in_more(t6, report.service@, " observability_enabled="@);
    crate::text::parts_are_found_in_more(t6 + " observability_enabled="@, report.service@, bool_chars(report.observability_enabled));
    crate::text::parts_are_found_in_more(t6, " request_id="@ + report.request_id@, " observability_enabled="@);
    crate::text::parts_are_found_in_more(t6 + " observability_enabled="@, " request_id="@ + report.request_id@, bool_chars(report.observability_enabled));
    crate::text::parts_are_found_in_more(t6, " readiness="@ + report.readiness@, " observability_enabled="@);
    crate::text::parts_are_found_in_more(t6 + " observability_enabled="@, " readiness="@ + report.readiness@, bool_chars(report.observability_enabled));
    crate::text::parts_are_found_in_more(t6, " license="@ + report.license@, " observability_enabled="@);
    crate::text::parts_are_found_in_more(t6 + " observability_enabled="@, " license="@ + report.license@, bool_chars(report.observability_enabled));
    crate::text::parts_are_found_in_more(t6, " config_path="@ + report.config_path@, " observability_enabled="@);
    crate::text::parts_are_found_in_more(t6 + " observability_enabled="@, " config_path="@ + report.config_path@, bool_chars(report.observability_enabled));
    crate::text::parts_are_found_in_more(t6, " heartbeat_mode="@ + report.heartbeat_mode@, " observability_enabled="@);
    crate::text::parts_are_found_in_more(t6 + " observability_enabled="@, " heartbeat_mode="@ + report.heartbeat_mode@, bool_chars(report.observability_enabled));
    crate::text::parts_are_found_in_more(t6, " heartbeat_interval_secs="@ + decimal(report.heartbeat_interval_secs as nat), " observability_enabled="@);
    crate::text::parts_are_found_in_more(t6 + " observability_enabled="@, " heartbeat_interval_secs="@ + decimal(report.heartbeat_interval_secs as nat), bool_chars(report.observability_enabled));
}

/// Each state of an upstream has a name of its own.
pub proof fn states_of_upstreams_have_their_names(state: HealthUpstreamStatus)
    ensures
        state is Disabled ==> state.label() == "not_checked"@,
        state is Ready ==> state.label() == "ready"@,
        state is Degraded ==> state.label() == "degraded"@,
        state is Unavailable ==> state.label() == "unavailable"@,
{
}

} // verus!
