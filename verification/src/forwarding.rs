//! What is decided about a request between its admission and its first attempt.

use crate::adapters::{tells, Refusal};
use crate::deepinfra_rerank::{is_inference_request, model_id_from_path, MODEL_ID};
use crate::errors::{bare_error, with_metadata, ErrorKind, ProxyError};
use crate::failover::UpstreamEndpointProtocol;
use crate::headers::{bytes_of, with_header, Headers};
use crate::json::{parse_json, parsed_json, text_field};
use crate::liveness::ShieldedChatKind;
use crate::metadata::{Bindings, Metadata};
use crate::text::{
    clone_bytes, contains, decimal, decimal_text, has_part, joined, opt_chars, same_text,
};
use crate::uri::RequestTarget;
use vstd::prelude::*;

verus! {

/// Largest body that the proxy reads from an upstream.
pub const MAX_PROXY_BODY_BYTES: usize = 67_108_864;

// ---------------------------------------------------------------------------
// Methods
// ---------------------------------------------------------------------------

/// Whether a character may stand in a method.
pub open spec fn is_method_char(c: char) -> bool {
    ||| 'a' <= c && c <= 'z'
    ||| 'A' <= c && c <= 'Z'
    ||| '0' <= c && c <= '9'
    ||| "!#$%&'*+-.^_`|~"@.contains(c)
}

/// Whether a text is a method.
pub open spec fn is_method(text: Seq<char>) -> bool {
    text.len() > 0 && forall|i: int| 0 <= i < text.len() ==> is_method_char(#[trigger] text[i])
}

/// `reqwest::Method::from_bytes`. It takes a text that is not empty and is made
/// of the characters of a method, and keeps it as it is; the text of its error is
/// always the same.
#[verifier::external_body]
fn parse_method(text: &str) -> (parsed: Result<String, String>)
    ensures
        match parsed {
            Ok(method) => is_method(text@) && method@ == text@,
            Err(error) => !is_method(text@) && error@ == "invalid HTTP method"@,
        },
{
    reqwest::Method::from_bytes(text.as_bytes()).map(|method| method.as_str().to_owned()).map_err(
        |error| error.to_string())
}

/// The method of an upstream request.
pub fn upstream_method(method: &str) -> (result: Result<String, ProxyError>)
    ensures
        match result {
            Ok(upstream) => is_method(method@) && upstream@ == method@,
            Err(error) => {
                &&& !is_method(method@)
                &&& error.kind is InvalidMethod
                &&& error.kind.message_text() == "invalid HTTP method: "@ + "invalid HTTP method"@
                &&& error@ == bare_error(error.kind)
            },
        },
{
    match parse_method(method) {
        Ok(method) => Ok(method),
        Err(error) => Err(ProxyError::invalid_method(error)),
    }
}

// ---------------------------------------------------------------------------
// Bodies
// ---------------------------------------------------------------------------

/// Adds a chunk to an upstream body, which has a largest size.
pub fn append_upstream_chunk(body: &mut Vec<u8>, chunk: &Vec<u8>) -> (appended: Result<
    (),
    ProxyError,
>)
    ensures
        match appended {
            Ok(_) => {
                &&& old(body)@.len() + chunk@.len() <= MAX_PROXY_BODY_BYTES
                &&& final(body)@ == old(body)@ + chunk@
            },
            Err(error) => {
                &&& old(body)@.len() + chunk@.len() > MAX_PROXY_BODY_BYTES
                &&& final(body)@ == old(body)@
                &&& error.kind is UpstreamBody
                &&& error@ == bare_error(error.kind)
                &&& error.kind.message_text()
                    == "failed to read upstream response body within proxy limit: "@ + if old(
                    body,
                )@.len() + chunk@.len() > usize::MAX {
                    "upstream body is too large"@
                } else {
                    "upstream body exceeded proxy limit: max_bytes="@ + decimal(
                        MAX_PROXY_BODY_BYTES as nat,
                    )
                }
            },
        },
{
    match body.len().checked_add(chunk.len()) {
        Some(next_len) => {
            if next_len > MAX_PROXY_BODY_BYTES {
                return Err(
                    ProxyError::upstream_body(
                        joined(
                            "upstream body exceeded proxy limit: max_bytes=",
                            decimal_text(MAX_PROXY_BODY_BYTES as u64).as_str(),
                        ),
                    ),
                );
            }
        },
        None => {
            return Err(ProxyError::upstream_body("upstream body is too large".to_owned()));
        },
    }
    let mut copy = clone_bytes(chunk);
    body.append(&mut copy);
    Ok(())
}

/// The error of an upstream body that broke off. `failure` is the kind of the
/// failure.
pub fn broken_upstream_body(failure: &str) -> (error: ProxyError)
    ensures
        error.kind is UpstreamBody,
        error.kind.message_text() == "failed to read upstream response body within proxy limit: "@
            + ("upstream body stream failed: "@ + failure@),
        error@ == bare_error(error.kind),
{
    ProxyError::upstream_body(joined("upstream body stream failed: ", failure))
}

/// How much of a request body is read, and whose limit that is.
#[derive(Clone, Copy)]
pub struct BodyLimit {
    pub max_bytes: usize,
    /// The name of the adapter whose limit it is.
    pub adapter: Option<&'static str>,
}

/// The name of the adapter that reads a request.
pub open spec fn adapter_name(is_score_request: bool, is_deepinfra_request: bool) -> Option<
    Seq<char>,
> {
    if is_score_request {
        Some("score"@)
    } else if is_deepinfra_request {
        Some("DeepInfra rerank"@)
    } else {
        None
    }
}

/// How much of a request body is read: requests that an adapter reads whole have
/// a limit of their own.
pub fn request_body_limit(
    is_score_request: bool,
    method: &str,
    uri: &RequestTarget,
    max_request_body_bytes: usize,
    max_adapter_body_bytes: usize,
) -> (limit: BodyLimit)
    ensures
        ({
            let name = adapter_name(is_score_request, is_inference_request(method@, uri@.0));
            &&& limit.max_bytes == if name is Some && max_adapter_body_bytes
                < max_request_body_bytes {
                max_adapter_body_bytes
            } else {
                max_request_body_bytes
            }
            &&& crate::text::opt_str_chars(limit.adapter) == if max_request_body_bytes
                >= max_adapter_body_bytes {
                name
            } else {
                None
            }
        }),
{
    let label = if is_score_request {
        Some("score")
    } else if crate::deepinfra_rerank::is_request(method, uri) {
        Some("DeepInfra rerank")
    } else {
        None
    };
    let max_bytes: usize = if label.is_some() && max_adapter_body_bytes < max_request_body_bytes {
        max_adapter_body_bytes
    } else {
        max_request_body_bytes
    };
    let adapter = if max_request_body_bytes >= max_adapter_body_bytes {
        label
    } else {
        None
    };
    BodyLimit { max_bytes, adapter }
}

/// Whether an error says that a body is too long.
pub open spec fn is_too_long(kind: ErrorKind) -> bool {
    match kind {
        ErrorKind::RequestBody { reason } => has_part(reason@, "length limit exceeded"@),
        _ => false,
    }
}

/// The error of a request body that could not be read: where it is too long for
/// an adapter, the error says so.
pub fn body_read_error(
    error: ProxyError,
    limit: BodyLimit,
    max_adapter_body_bytes: usize,
    request_metadata: Metadata,
) -> (told: ProxyError)
    ensures
        match limit.adapter {
            Some(name) if is_too_long(error.kind) => {
                &&& told.kind is RequestBody
                &&& told.kind.message_text() == "failed to read request body within proxy limit: "@
                    + (name@ + " request exceeded adapter limit of "@ + decimal(
                    max_adapter_body_bytes as nat,
                ) + " bytes"@)
                &&& told@ == with_metadata(bare_error(told.kind), request_metadata@)
            },
            _ => told@ == with_metadata(error@, request_metadata@),
        },
{
    let too_long = match &error.kind {
        ErrorKind::RequestBody { reason } => contains(reason.as_str(), "length limit exceeded"),
        _ => false,
    };
    match limit.adapter {
        Some(name) => {
            if too_long {
                let mut reason = joined(name, " request exceeded adapter limit of ");
                reason.append(decimal_text(max_adapter_body_bytes as u64).as_str());
                reason.append(" bytes");
                return ProxyError::request_body(reason).with_request_metadata(request_metadata);
            }
        },
        None => {},
    }
    error.with_request_metadata(request_metadata)
}

/// The model that a request names. A score request names it in its own way.
pub open spec fn named_model(
    method: Seq<char>,
    path: Seq<char>,
    body: Seq<u8>,
    is_score_request: bool,
    score_model: Option<Seq<char>>,
) -> Option<Seq<char>> {
    if is_inference_request(method, path) {
        Some(MODEL_ID@)
    } else if is_score_request {
        score_model
    } else {
        match parsed_json(body) {
            Ok(value) => text_field(value, "model"@),
            Err(_) => None,
        }
    }
}

/// Reads the model that a request names.
pub fn extract_model_id(
    method: &str,
    uri: &RequestTarget,
    body: &[u8],
    is_score_request: bool,
    score_model: Option<String>,
) -> (model: Option<String>)
    ensures
        opt_chars(model) == named_model(
            method@,
            uri@.0,
            body@,
            is_score_request,
            opt_chars(score_model),
        ),
{
    match model_id_from_path(method, uri) {
        Some(model) => {
            return Some(model.to_owned());
        },
        None => {},
    }
    if is_score_request {
        return score_model;
    }
    match parse_json(body) {
        Ok(value) => match value.get_str("model") {
            Some(model) => Some(model.clone()),
            None => None,
        },
        Err(_) => None,
    }
}

// ---------------------------------------------------------------------------
// What kind of request it is
// ---------------------------------------------------------------------------

/// What the decisions read of the settings for model lists.
#[derive(Clone, Copy, Debug, PartialEq, Eq, Structural)]
pub struct MetadataConfig {
    pub discovery_enabled: bool,
    pub enrich_responses: bool,
}

/// Whether a request asks for the list of models.
pub open spec fn is_models_request(method: Seq<char>, path: Seq<char>) -> bool {
    method == "GET"@ && path == "/v1/models"@
}

/// Whether a list of models is enriched.
pub fn should_enrich_models_response(method: &str, path: &str, metadata: MetadataConfig) -> (enrich:
    bool)
    ensures
        enrich == (is_models_request(method@, path@) && metadata.discovery_enabled
            && metadata.enrich_responses),
{
    same_text(method, "GET") && same_text(path, "/v1/models") && metadata.discovery_enabled
        && metadata.enrich_responses
}

/// Whether a list of models is read whole before it goes to the client.
pub fn should_buffer_models_response(
    method: &str,
    path: &str,
    metadata: MetadataConfig,
    listener_is_restricted: bool,
) -> (buffer: bool)
    ensures
        buffer == (is_models_request(method@, path@) && (listener_is_restricted || (
        metadata.discovery_enabled && metadata.enrich_responses))),
{
    same_text(method, "GET") && same_text(path, "/v1/models") && (listener_is_restricted
        || should_enrich_models_response(method, path, metadata))
}

/// Whether a chat request is shielded.
pub open spec fn is_intercepted(method: Seq<char>, path: Seq<char>, shielding_enabled: bool) -> bool {
    method == "POST"@ && path == "/v1/chat/completions"@ && shielding_enabled
}

/// Whether a chat request is shielded.
pub fn should_intercept_non_stream_chat(method: &str, path: &str, shielding_enabled: bool) -> (
    intercept: bool)
    ensures
        intercept == is_intercepted(method@, path@, shielding_enabled),
{
    same_text(method, "POST") && same_text(path, "/v1/chat/completions") && shielding_enabled
}

// ---------------------------------------------------------------------------
// The plan of a chat request
// ---------------------------------------------------------------------------

/// A chat request as it is sent on.
pub struct PreparedChatRequest {
    pub upstream_body: Vec<u8>,
    pub thinking_metadata: Metadata,
}

/// How a request is sent on.
pub struct ShieldedChatPlan {
    pub downstream_body: Vec<u8>,
    pub upstream_body: Vec<u8>,
    pub intercepted: bool,
    pub kind: ShieldedChatKind,
    pub thinking_policy_applied: bool,
    pub thinking_metadata: Metadata,
}

/// The meaning of how a request is sent on.
#[verifier::ext_equal]
pub struct PlanModel {
    pub downstream_body: Seq<u8>,
    pub upstream_body: Seq<u8>,
    pub intercepted: bool,
    pub kind: ShieldedChatKind,
    pub thinking_policy_applied: bool,
    pub thinking_metadata: Bindings,
}

impl View for ShieldedChatPlan {
    type V = PlanModel;

    open spec fn view(&self) -> PlanModel {
        PlanModel {
            downstream_body: self.downstream_body@,
            upstream_body: self.upstream_body@,
            intercepted: self.intercepted,
            kind: self.kind,
            thinking_policy_applied: self.thinking_policy_applied,
            thinking_metadata: self.thinking_metadata@,
        }
    }
}

/// The plan of a request that is sent on as it is.
pub open spec fn untouched_plan(body: Seq<u8>) -> PlanModel {
    PlanModel {
        downstream_body: body,
        upstream_body: body,
        intercepted: false,
        kind: ShieldedChatKind::Generic,
        thinking_policy_applied: false,
        thinking_metadata: Bindings::empty(),
    }
}

/// The plan of a chat request that is sent on in another form.
pub open spec fn prepared_plan(
    body: Seq<u8>,
    request: PreparedChatRequest,
    intercepted: bool,
    kind: ShieldedChatKind,
) -> PlanModel {
    PlanModel {
        downstream_body: body,
        upstream_body: request.upstream_body@,
        intercepted,
        kind,
        thinking_policy_applied: true,
        thinking_metadata: request.thinking_metadata@,
    }
}

/// The plan of a request. Chat requests that are answered whole are shielded, and
/// streams where that is on; `non_stream` and `stream` are the forms in which the
/// request is sent on, where it is of either kind.
pub open spec fn chat_plan(
    body: Seq<u8>,
    intercepts: bool,
    streaming_enabled: bool,
    non_stream: Option<PreparedChatRequest>,
    stream: Option<PreparedChatRequest>,
) -> PlanModel {
    if !intercepts {
        untouched_plan(body)
    } else {
        match (non_stream, stream) {
            (Some(request), _) => prepared_plan(body, request, true, ShieldedChatKind::NonStream),
            (None, Some(request)) => prepared_plan(
                body,
                request,
                streaming_enabled,
                if streaming_enabled {
                    ShieldedChatKind::Stream
                } else {
                    ShieldedChatKind::Generic
                },
            ),
            (None, None) => untouched_plan(body),
        }
    }
}

/// Plans how a request is sent on.
pub fn plan_shielded_chat(
    body: Vec<u8>,
    intercepts: bool,
    streaming_enabled: bool,
    non_stream: Option<PreparedChatRequest>,
    stream: Option<PreparedChatRequest>,
) -> (plan: ShieldedChatPlan)
    ensures
        plan@ == chat_plan(body@, intercepts, streaming_enabled, non_stream, stream),
{
    let mut chosen: Option<PreparedChatRequest> = None;
    let mut intercepted = false;
    let mut kind = ShieldedChatKind::Generic;
    if intercepts {
        match non_stream {
            Some(request) => {
                chosen = Some(request);
                intercepted = true;
                kind = ShieldedChatKind::NonStream;
            },
            None => match stream {
                Some(request) => {
                    chosen = Some(request);
                    intercepted = streaming_enabled;
                    if streaming_enabled {
                        kind = ShieldedChatKind::Stream;
                    }
                },
                None => {},
            },
        }
    }
    match chosen {
        Some(request) => ShieldedChatPlan {
            downstream_body: body,
            upstream_body: request.upstream_body,
            intercepted,
            kind,
            thinking_policy_applied: true,
            thinking_metadata: request.thinking_metadata,
        },
        None => {
            let upstream_body = clone_bytes(&body);
            ShieldedChatPlan {
                downstream_body: body,
                upstream_body,
                intercepted,
                kind,
                thinking_policy_applied: false,
                thinking_metadata: Metadata::new(),
            }
        },
    }
}

/// Only chat requests of a kind are shielded, and what the client sent is kept.
pub proof fn shielded_requests_have_a_kind(
    body: Seq<u8>,
    intercepts: bool,
    streaming_enabled: bool,
    non_stream: Option<PreparedChatRequest>,
    stream: Option<PreparedChatRequest>,
)
    ensures
        ({
            let plan = chat_plan(body, intercepts, streaming_enabled, non_stream, stream);
            &&& plan.intercepted <==> !(plan.kind is Generic)
            &&& plan.intercepted ==> intercepts && plan.thinking_policy_applied
            &&& plan.downstream_body == body
            &&& !plan.thinking_policy_applied ==> plan.upstream_body == body
        }),
{
}

// ---------------------------------------------------------------------------
// Endpoints
// ---------------------------------------------------------------------------

/// Why no endpoint was selected.
pub enum EndpointSelectionError {
    Shutdown,
    Incompatible { profile: String },
    Unavailable { profile: String, waited_ms: u64 },
}

/// The refusal of a request that no endpoint can take.
pub open spec fn incompatible_refusal(profile: Seq<char>) -> Refusal {
    Refusal {
        message: "no configured endpoint can losslessly represent this request for profile "@
            + profile,
        param: "body"@,
        code: "unsupported_reranker_endpoint_request"@,
    }
}

/// The error of a request that no endpoint was selected for.
pub fn endpoint_selection_error(error: EndpointSelectionError) -> (told: ProxyError)
    ensures
        match error {
            EndpointSelectionError::Shutdown => told@ == bare_error(ErrorKind::Shutdown),
            EndpointSelectionError::Incompatible { profile } => tells(
                told,
                incompatible_refusal(profile@),
            ),
            EndpointSelectionError::Unavailable { profile, waited_ms } => told@ == bare_error(
                ErrorKind::UpstreamUnavailable { profile, waited_ms },
            ),
        },
{
    match error {
        EndpointSelectionError::Shutdown => ProxyError::server_shutdown(),
        EndpointSelectionError::Incompatible { profile } => ProxyError::invalid_request(
            joined(
                "no configured endpoint can losslessly represent this request for profile ",
                profile.as_str(),
            ),
            "body",
            "unsupported_reranker_endpoint_request",
        ),
        EndpointSelectionError::Unavailable { profile, waited_ms } => {
            ProxyError::upstream_unavailable(profile, waited_ms)
        },
    }
}

/// How a request is written for an endpoint.
#[derive(Clone, Copy, Debug, PartialEq, Eq, Structural)]
pub enum EndpointRendering {
    /// From its normal form.
    Canonical,
    /// As it is.
    OpenAi,
}

/// The refusal of a request that its endpoint cannot take.
pub open spec fn unsupported_refusal() -> Refusal {
    Refusal {
        message: "selected DeepInfra endpoint only supports normalized reranker requests"@,
        param: "path"@,
        code: "unsupported_reranker_endpoint_request"@,
    }
}

/// Decides how a request is written for its endpoint.
pub fn endpoint_rendering(has_canonical_form: bool, protocol: UpstreamEndpointProtocol) -> (
    rendering: Result<EndpointRendering, ProxyError>)
    ensures
        match rendering {
            Ok(rendering) => {
                &&& has_canonical_form || protocol is OpenAi
                &&& rendering == if has_canonical_form {
                    EndpointRendering::Canonical
                } else {
                    EndpointRendering::OpenAi
                }
            },
            Err(error) => {
                &&& !has_canonical_form && !(protocol is OpenAi)
                &&& tells(error, unsupported_refusal())
            },
        },
{
    if has_canonical_form {
        return Ok(EndpointRendering::Canonical);
    }
    match protocol {
        UpstreamEndpointProtocol::OpenAi => Ok(EndpointRendering::OpenAi),
        _ => Err(
            ProxyError::invalid_request(
                "selected DeepInfra endpoint only supports normalized reranker requests".to_owned(),
                "path",
                "unsupported_reranker_endpoint_request",
            ),
        ),
    }
}

/// The endpoint that was selected for a request, as it is recorded.
pub struct SelectedEndpoint {
    pub is_primary: bool,
    /// The base URL as it may be shown.
    pub display_url: String,
    pub protocol_label: String,
    pub selection_label: String,
}

/// The bindings with the endpoint that was selected for a request.
pub open spec fn with_selected_endpoint(bindings: Bindings, selected: SelectedEndpoint) -> Bindings {
    bindings.insert(
        "upstream_endpoint_priority"@,
        if selected.is_primary {
            "primary"@
        } else {
            "failover"@
        },
    ).insert("upstream_failover_selected"@, "false"@).insert(
        "upstream_endpoint_base_url"@,
        selected.display_url@,
    ).insert("upstream_endpoint_protocol"@, selected.protocol_label@).insert(
        "upstream_endpoint_selection"@,
        selected.selection_label@,
    )
}

/// Records the endpoint that was selected for a request.
pub fn add_selected_endpoint_metadata(metadata: &mut Metadata, selected: &SelectedEndpoint)
    ensures
        final(metadata)@ == with_selected_endpoint(old(metadata)@, *selected),
{
    if selected.is_primary {
        metadata.set("upstream_endpoint_priority", "primary");
    } else {
        metadata.set("upstream_endpoint_priority", "failover");
    }
    metadata.set("upstream_failover_selected", "false");
    metadata.set("upstream_endpoint_base_url", selected.display_url.as_str());
    metadata.set("upstream_endpoint_protocol", selected.protocol_label.as_str());
    metadata.set("upstream_endpoint_selection", selected.selection_label.as_str());
}

// ---------------------------------------------------------------------------
// The end of a request
// ---------------------------------------------------------------------------

/// Puts the identifier of a request on its response.
pub fn finalize_proxy_terminal_response(headers: &mut Headers, request_id: &str)
    ensures
        final(headers)@ == with_header(old(headers)@, "x-request-id"@, bytes_of(request_id@)),
{
    headers.set_text("x-request-id", request_id);
}

/// A chat that is not shielded is sent as it came. A shielded one is sent as it was
/// prepared, and the client's own body is kept beside it; a stream is shielded only
/// where streams are.
pub proof fn chats_are_sent_as_prepared(
    body: Seq<u8>,
    streaming_enabled: bool,
    request: PreparedChatRequest,
    other: Option<PreparedChatRequest>,
)
    ensures
        ({
            let plain = chat_plan(body, false, streaming_enabled, Some(request), other);
            &&& plain.upstream_body == body && plain.downstream_body == body
            &&& !plain.intercepted && plain.kind is Generic && !plain.thinking_policy_applied
        }),
        ({
            let shielded = chat_plan(body, true, streaming_enabled, Some(request), other);
            &&& shielded.upstream_body == request.upstream_body@ && shielded.downstream_body == body
            &&& shielded.intercepted && shielded.kind is NonStream
                && shielded.thinking_policy_applied
            &&& shielded.thinking_metadata == request.thinking_metadata@
        }),
        ({
            let stream = chat_plan(body, true, streaming_enabled, None, Some(request));
            &&& stream.upstream_body == request.upstream_body@ && stream.downstream_body == body
            &&& stream.intercepted == streaming_enabled
            &&& stream.kind is Stream <==> streaming_enabled
            &&& stream.kind is Generic <==> !streaming_enabled
            &&& stream.thinking_policy_applied
        }),
        ({
            let unread = chat_plan(body, true, streaming_enabled, None, None);
            &&& unread.upstream_body == body && !unread.intercepted
        }),
{
}

/// The model of a request is the one that its body names.
pub proof fn models_are_named_by_the_body(
    method: Seq<char>,
    path: Seq<char>,
    body: Seq<u8>,
    fields: Map<Seq<char>, crate::json::JsonModel>,
    model: Seq<char>,
    score_model: Option<Seq<char>>,
)
    requires
        !is_inference_request(method, path),
        parsed_json(body) == Ok::<crate::json::JsonModel, Seq<char>>(crate::json::JsonModel::Object(fields)),
    ensures
        fields.contains_key("model"@) && fields["model"@] == crate::json::JsonModel::Text(model) ==> named_model(
            method,
            path,
            body,
            false,
            score_model,
        ) == Some(model),
        !fields.contains_key("model"@) ==> named_model(method, path, body, false, score_model)
            is None,
        named_model(method, path, body, true, score_model) == score_model,
{
}

/// What is recorded of the endpoint of a request says which it is.
pub proof fn selected_endpoints_are_recorded(
    bindings: Bindings,
    selected: SelectedEndpoint,
)
    ensures
        ({
            let told = with_selected_endpoint(bindings, selected);
            &&& told.contains_key("upstream_endpoint_priority"@) && told["upstream_endpoint_priority"@] == if selected.is_primary {
                "primary"@
            } else {
                "failover"@
            }
            &&& told.contains_key("upstream_failover_selected"@) && told["upstream_failover_selected"@] == "false"@
            &&& told.contains_key("upstream_endpoint_base_url"@) && told["upstream_endpoint_base_url"@] == selected.display_url@
            &&& told.contains_key("upstream_endpoint_protocol"@) && told["upstream_endpoint_protocol"@] == selected.protocol_label@
            &&& told.contains_key("upstream_endpoint_selection"@) && told["upstream_endpoint_selection"@] == selected.selection_label@
        }),
{
    reveal_strlit("upstream_endpoint_priority");
    reveal_strlit("upstream_failover_selected");
    reveal_strlit("upstream_endpoint_base_url");
    reveal_strlit("upstream_endpoint_protocol");
    reveal_strlit("upstream_endpoint_selection");
    assert("upstream_endpoint_priority"@.len() == 26);
    assert("upstream_failover_selected"@.len() == 26);
    assert("upstream_endpoint_base_url"@.len() == 26);
    assert("upstream_endpoint_protocol"@.len() == 26);
    assert("upstream_endpoint_selection"@.len() == 27);
    assert("upstream_endpoint_priority"@[9] != "upstream_failover_selected"@[9]);
    assert("upstream_endpoint_priority"@[18] != "upstream_endpoint_base_url"@[18]);
    assert("upstream_endpoint_priority"@[20] != "upstream_endpoint_protocol"@[20]);
    assert("upstream_failover_selected"@[9] != "upstream_endpoint_base_url"@[9]);
    assert("upstream_failover_selected"@[9] != "upstream_endpoint_protocol"@[9]);
    assert("upstream_endpoint_base_url"@[18] != "upstream_endpoint_protocol"@[18]);
}

/// Shielded are the chats that are posted, where shielding is on; a method is any word
/// of letters, digits and the marks that are allowed.
pub proof fn posted_chats_are_shielded(method: Seq<char>, path: Seq<char>)
    ensures
        is_intercepted("POST"@, "/v1/chat/completions"@, true),
        !is_intercepted(method, path, false),
        is_intercepted(method, path, true) ==> method == "POST"@ && path
            == "/v1/chat/completions"@,
        (method.len() > 0 && forall|i: int|
            0 <= i < method.len() ==> 'A' <= #[trigger] method[i] && method[i] <= 'Z') ==> is_method(
            method,
        ),
        is_method(method) ==> method.len() > 0 && !method.contains(' ') && !method.contains('/'),
{
    reveal_strlit("!#$%&'*+-.^_`|~");
    if is_method(method) {
        assert forall|i: int| 0 <= i < method.len() implies method[i] != ' ' && method[i] != '/' by {
            assert(is_method_char(method[i]));
        }
    }
}

/// A request is adapted by what it asks for, and refusals name the part that cannot be
/// sent.
pub proof fn adapted_requests_are_named(profile: Seq<char>, deepinfra: bool, kind: ErrorKind)
    ensures
        adapter_name(true, deepinfra) == Some("score"@),
        adapter_name(false, true) == Some("DeepInfra rerank"@),
        adapter_name(false, false) is None,
        incompatible_refusal(profile).param == "body"@,
        incompatible_refusal(profile).code == "unsupported_reranker_endpoint_request"@,
        has_part(incompatible_refusal(profile).message, profile),
        unsupported_refusal().param == "path"@,
        unsupported_refusal().code == "unsupported_reranker_endpoint_request"@,
        !(kind is RequestBody) ==> !is_too_long(kind),
{
    let before = "no configured endpoint can losslessly represent this request for profile "@;
    assert(incompatible_refusal(profile).message =~= before + profile + Seq::<char>::empty());
    crate::text::prefixes_and_parts_are_found(before, profile, Seq::empty());
}

/// A body that is left alone goes on as it came, and a prepared one as it was prepared.
pub proof fn plans_send_what_was_prepared(
    body: Seq<u8>,
    request: PreparedChatRequest,
    intercepted: bool,
    kind: ShieldedChatKind,
)
    ensures
        untouched_plan(body).upstream_body == body,
        untouched_plan(body).downstream_body == body,
        !untouched_plan(body).intercepted,
        !untouched_plan(body).thinking_policy_applied,
        prepared_plan(body, request, intercepted, kind).upstream_body == request.upstream_body@,
        prepared_plan(body, request, intercepted, kind).downstream_body == body,
        prepared_plan(body, request, intercepted, kind).intercepted == intercepted,
        prepared_plan(body, request, intercepted, kind).kind == kind,
        prepared_plan(body, request, intercepted, kind).thinking_policy_applied,
        prepared_plan(body, request, intercepted, kind).thinking_metadata
            == request.thinking_metadata@,
        is_models_request("GET"@, "/v1/models"@),
{
}

/// Only a request to read the list of the models is one.
pub proof fn model_lists_are_read(method: Seq<char>, path: Seq<char>)
    ensures
        is_models_request(method, path) ==> method == "GET"@,
        is_models_request(method, path) ==> path == "/v1/models"@,
        method == "GET"@ && path == "/v1/models"@ ==> is_models_request(method, path),
{
}

/// A method may be written with any letter or digit.
pub proof fn methods_are_words(c: char)
    ensures
        'a' <= c <= 'z' ==> is_method_char(c),
        'A' <= c <= 'Z' ==> is_method_char(c),
        '0' <= c <= '9' ==> is_method_char(c),
        is_method_char('-') && is_method_char('_') && is_method_char('.'),
        c <= ' ' || c >= '\u{7f}' ==> !is_method_char(c),
        !is_method_char(':') && !is_method_char('(') && !is_method_char('@'),
{
    reveal_strlit("!#$%&'*+-.^_`|~");
    let marks = "!#$%&'*+-.^_`|~"@;
    assert(marks[8] == '-' && marks[9] == '.' && marks[11] == '_');
}

} // verus!
