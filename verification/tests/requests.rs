//! From the arrival of a request to the form in which it is sent on.

use llm_guard_proxy::adapters::{
    adapt_openai_request_if_needed, ensure_transform_headers_supported,
    rewrite_buffered_adapter_response, safe_proxy_authorization_value,
    sanitize_transformed_request_headers, AdaptedOpenAiRequest, BufferedResponseAdapter,
    ScoreExpectations, ScoreRewrite,
};
use llm_guard_proxy::admission::{AdmissionFailure, ListenerUpstreamDenied};
use llm_guard_proxy::callers::{
    BudgetCheck, CallerProfileResolution, CallerSettings, ResolvedCallerProfile, UnknownKeyPolicy,
};
use llm_guard_proxy::context_budget::{
    context_budget_preflight, estimate_json_input_tokens, estimate_request_input_tokens,
    estimate_reserved_output_tokens, estimate_text_tokens, estimate_thinking_budget_tokens,
};
use llm_guard_proxy::deepinfra_rerank::{ResponseExpectations, INFERENCE_PATH};
use llm_guard_proxy::errors::ProxyError;
use llm_guard_proxy::failover::UpstreamEndpointProtocol;
use llm_guard_proxy::forwarding::{
    add_selected_endpoint_metadata, append_upstream_chunk, body_read_error, broken_upstream_body,
    endpoint_rendering, endpoint_selection_error, extract_model_id,
    finalize_proxy_terminal_response, plan_shielded_chat, request_body_limit,
    should_buffer_models_response, should_enrich_models_response, upstream_method,
    EndpointRendering, EndpointSelectionError, MetadataConfig, PreparedChatRequest,
    SelectedEndpoint, MAX_PROXY_BODY_BYTES,
};
use llm_guard_proxy::handling::{
    admit_generation_after_body, admitted_metadata, body_admitted_metadata, fail_request,
    first_handler_step, refuse_path, refuse_without_config, reject_admission, route_admission,
    AdmissionPermitKind, BodyAdmissionStep, HandlerStep, IncomingRequest,
};
use llm_guard_proxy::headers::Headers;
use llm_guard_proxy::json::{parse_json, Fraction};
use llm_guard_proxy::liveness::{
    ShieldedChatKind, ShieldedLivenessMode, ShieldedLivenessSelection,
};
use llm_guard_proxy::metadata::Metadata;
use llm_guard_proxy::observations::{failed_request_record, ForwardedResponseParts};
use llm_guard_proxy::overrides::{
    apply_param_override_to_body, param_override_applies, validate_vllm_native_request_controls,
    DefaultInjectionSchema, FractionOverride, Overridden, ParamOverrideConfig,
};
use llm_guard_proxy::path::OpenAiPathError;
use llm_guard_proxy::preparation::{
    check_plan, choose_route, identify_caller, initial_endpoint_retry_state, plan_forwarding,
    BudgetAnswer, IdentifiedCaller, ModelRouting, PlanSettings,
};
use llm_guard_proxy::profiles::{
    route_reason_text, ListenerConfig, RouteReasonLabels, SelectedUpstreamProfile,
    UpstreamProfileConfig, UpstreamRouteReason,
};
use llm_guard_proxy::records::UpstreamMode;
use llm_guard_proxy::repeat_inputs::RepeatInputObservation;
use llm_guard_proxy::request_flow::{
    advance, live_note, FlowAction, FlowEvent, FlowPlan, FlowStage, LiveMark, LiveNote,
};
use llm_guard_proxy::uri::RequestTarget;
use llm_guard_proxy::workflows::{ModelAlias, ResolvedWorkflowAlias};

fn headers(fields: &[(&str, &str)]) -> Headers {
    let mut headers = Headers::new();
    for (name, value) in fields {
        headers.append(name, &value.as_bytes().to_vec());
    }
    headers
}

fn target(path: &str) -> RequestTarget {
    RequestTarget {
        path: path.to_owned(),
        query: None,
    }
}

fn no_score() -> ScoreRewrite {
    ScoreRewrite {
        is_score_request: false,
        can_adapt: Ok(false),
        body: Ok(Vec::new()),
        forward_uri: Ok(target("/v1/rerank")),
        expectations: None,
    }
}

fn score(can_adapt: Result<bool, String>) -> ScoreRewrite {
    ScoreRewrite {
        is_score_request: true,
        can_adapt,
        body: Ok(b"{}".to_vec()),
        forward_uri: Ok(target("/v1/rerank")),
        expectations: Some(ScoreExpectations {
            result_count: 2,
            document_count: 3,
        }),
    }
}

fn listener() -> ListenerConfig {
    ListenerConfig {
        name: "edge".to_owned(),
        bind_host: "127.0.0.1".to_owned(),
        port: 8080,
        allowed_upstreams: None,
    }
}

fn incoming(method: &str, path: &str) -> IncomingRequest {
    IncomingRequest {
        request_id: "r".to_owned(),
        started_at_unix_ms: 1_000,
        method: method.to_owned(),
        uri: target(path),
        headers: headers(&[("content-length", "5")]),
    }
}

fn profile(window: Option<u64>) -> UpstreamProfileConfig {
    UpstreamProfileConfig {
        name: "gpu".to_owned(),
        base_url: "http://upstream:8000".to_owned(),
        match_models: Vec::new(),
        request_timeout_ms: 60_000,
        context_window_tokens: window,
        input_token_safety_margin: 1,
    }
}

fn reason_labels() -> RouteReasonLabels {
    RouteReasonLabels {
        matched_model: "matched_model".to_owned(),
        default: "default".to_owned(),
    }
}

fn plan_settings() -> PlanSettings {
    PlanSettings {
        display_url: "http://upstream:8000".to_owned(),
        base_check: None,
        reason_labels: reason_labels(),
        has_reranker_endpoint: false,
        has_canonical_form: false,
        injection_schema: DefaultInjectionSchema::Other,
        ladder_schemas: Vec::new(),
        conflicting_controls: false,
        shielding_enabled: true,
        streaming_enabled: true,
        non_stream: None,
        stream: None,
    }
}

fn adapted(path: &str, body: &[u8]) -> AdaptedOpenAiRequest {
    AdaptedOpenAiRequest {
        forward_uri: target(path),
        adapted_body: body.to_vec(),
        response_adapter: None,
    }
}

fn liveness() -> ShieldedLivenessSelection {
    ShieldedLivenessSelection {
        mode: ShieldedLivenessMode::Disabled,
        configured_mode: ShieldedLivenessMode::Disabled,
        heartbeat_interval_secs: 15,
        input_fingerprint: None,
        repeat_observation: RepeatInputObservation {
            repeated: false,
            prior_count: 0,
        },
        repeat_window_secs: 60,
        repeat_max_inputs: 2,
    }
}

fn parts(status: u16) -> ForwardedResponseParts {
    ForwardedResponseParts {
        request_id: "r".to_owned(),
        started_at_unix_ms: 900,
        attempt_id: "r-1".to_owned(),
        attempt_number: 1,
        attempt_max_attempts: 1,
        attempt_started_at_unix_ms: 1_000,
        upstream_mode: UpstreamMode::NonStreamJson,
        model_id: None,
        input_fingerprint: None,
        upstream_status: status,
        upstream_headers: headers(&[("retry-after", "3"), ("x-other", "1")]),
        request_metadata: Metadata::new(),
        attempt_request_metadata: Metadata::new(),
        completed_attempt_records: Vec::new(),
    }
}

#[test]
fn the_first_step_depends_on_the_path() {
    assert_eq!(
        first_handler_step("GET", "/debug/recent-requests", true),
        HandlerStep::DebugSummary
    );
    assert_eq!(
        first_handler_step("GET", "/debug/recent-requests", false),
        HandlerStep::RefusePath(OpenAiPathError::OutsideOpenAiScope)
    );
    assert_eq!(
        first_handler_step("POST", "/v1/chat/completions", true),
        HandlerStep::Admit
    );
    let failed = refuse_path(
        OpenAiPathError::OutsideOpenAiScope,
        &incoming("GET", "/x"),
        &listener(),
        Some(true),
        1_500,
    );
    assert_eq!(failed.response.status, 404);
    assert_eq!(failed.record.http_status, 404);
    assert!(failed.record.request_metadata.reads("listener_name", "edge"));
    assert!(failed
        .record
        .request_metadata
        .reads("request_body_bytes", "5"));
    let record = failed_request_record(&failed.record);
    assert_eq!(record.http_status, Some(404));
}

#[test]
fn requests_are_admitted_by_their_kind() {
    assert_eq!(
        route_admission("GET", "/v1/models", true),
        AdmissionPermitKind::ControlPlane
    );
    assert_eq!(
        route_admission("POST", "/v1/chat/completions", true),
        AdmissionPermitKind::BodyRouting
    );
    assert_eq!(
        route_admission("POST", "/v1/chat/completions", false),
        AdmissionPermitKind::Generation
    );
    assert!(admitted_metadata(AdmissionPermitKind::ControlPlane, 9).reads("queue_wait_ms", "0"));
    assert!(admitted_metadata(AdmissionPermitKind::BodyRouting, 9)
        .reads("body_routing_queue_wait_ms", "9"));
    let refused = reject_admission(
        &AdmissionFailure::GenerationQueueTimeout {
            generation_queue_timeout_ms: 10,
            queue_wait_ms: 11,
        },
        &incoming("POST", "/v1/chat/completions"),
        &listener(),
        Some(true),
        1_500,
    );
    assert_eq!(refused.response.retry_after.as_deref(), Some("1"));
    assert!(refused
        .record
        .request_metadata
        .reads("admission_outcome", "queue_timeout"));
    let broken = refuse_without_config(
        "broken".to_owned(),
        &incoming("GET", "/v1/models"),
        &listener(),
        1_500,
    );
    assert_eq!(broken.response.status, 500);
    assert!(broken
        .record
        .request_metadata
        .reads("shielding_config_enabled", "unknown"));
}

#[test]
fn bodies_decide_about_capacity() {
    let chat = "/v1/chat/completions";
    let held = AdmissionPermitKind::BodyRouting;
    let step = |restart, held| {
        admit_generation_after_body("POST", chat, Ok(restart), held, &Metadata::new())
            .ok()
            .expect("served")
    };
    assert_eq!(step(true, held), BodyAdmissionStep::WaitForRestart);
    assert_eq!(step(false, held), BodyAdmissionStep::AcquireForProfile);
    assert_eq!(
        step(false, AdmissionPermitKind::Generation),
        BodyAdmissionStep::GoOn
    );
    let denied = ListenerUpstreamDenied {
        listener_name: "edge".to_owned(),
        listener_port: 8080,
        upstream_profile: "gpu".to_owned(),
        model_id: "m".to_owned(),
    };
    let error =
        admit_generation_after_body("POST", chat, Err(denied), held, &Metadata::new())
            .err()
            .expect("not served");
    assert_eq!(error.error_type(), "listener_upstream_not_allowed");
    let metadata =
        body_admitted_metadata(BodyAdmissionStep::AcquireForProfile, Metadata::new(), 4);
    assert!(metadata.reads("queue_wait_ms", "4"));
}

#[test]
fn failures_are_recorded_and_told() {
    let failed = fail_request(&ProxyError::request_body("x".to_owned()), "r", 1_000, 1_200);
    assert_eq!(failed.response.status, 413);
    assert!(failed
        .record
        .request_metadata
        .reads("proxy_error", "request_body_error"));
    let body: serde_json::Value = serde_json::from_slice(&failed.response.body).expect("JSON");
    assert_eq!(body["error"]["request_id"], "r");
}

#[test]
fn a_request_takes_its_course() {
    let plan = FlowPlan {
        workflow_alias: false,
        guarded: true,
        failover: true,
        intercepted: true,
    };
    let steps = [
        (
            FlowEvent::Came {
                step: HandlerStep::Admit,
                config_readable: true,
                is_models_request: false,
                has_profile_limits: true,
            },
            FlowAction::Acquire {
                kind: AdmissionPermitKind::BodyRouting,
            },
        ),
        (FlowEvent::Acquired, FlowAction::ReadBody),
        (
            FlowEvent::BodyRead {
                is_models_request: false,
                restart_queue_enabled: true,
            },
            FlowAction::ReleaseAndWaitForRestart,
        ),
        (FlowEvent::RestartOver, FlowAction::AcquireForProfile),
        (FlowEvent::Acquired, FlowAction::Prepare),
        (FlowEvent::Prepared { plan }, FlowAction::AskGuard),
        (FlowEvent::GuardPassed, FlowAction::SelectEndpoint),
        (FlowEvent::EndpointSelected, FlowAction::Render),
        (FlowEvent::Rendered, FlowAction::ForwardShielded),
        (FlowEvent::Responded, FlowAction::Complete),
        (FlowEvent::Refused, FlowAction::Nothing),
    ];
    let mut stage = FlowStage::Arrived;
    for (event, expected) in steps {
        let (next, action) = advance(stage, event);
        assert_eq!(action, expected);
        stage = next;
    }
    assert_eq!(stage, FlowStage::Answered);
    let guarding = FlowStage::Guarding {
        held: AdmissionPermitKind::Generation,
        plan,
    };
    assert_eq!(
        advance(guarding, FlowEvent::Refused),
        (FlowStage::Answered, FlowAction::Fail)
    );
    assert_eq!(
        advance(guarding, FlowEvent::Rendered),
        (guarding, FlowAction::Nothing)
    );
    assert_eq!(
        advance(
            FlowStage::Preparing {
                held: AdmissionPermitKind::ControlPlane
            },
            FlowEvent::Prepared {
                plan: FlowPlan {
                    workflow_alias: false,
                    guarded: false,
                    failover: false,
                    intercepted: false
                }
            }
        )
        .1,
        FlowAction::ForwardGeneric
    );
}

#[test]
fn methods_are_checked() {
    assert_eq!(upstream_method("PATCH").ok().as_deref(), Some("PATCH"));
    assert_eq!(upstream_method("x-y_z!").ok().as_deref(), Some("x-y_z!"));
    for method in ["", "GET /", "gät", "a(b)"] {
        let error = upstream_method(method).err().expect("no method");
        assert_eq!(
            error.message(),
            "invalid HTTP method: invalid HTTP method",
            "{method:?}"
        );
    }
}

#[test]
fn bodies_have_limits() {
    let mut body = vec![0; MAX_PROXY_BODY_BYTES - 1];
    assert!(append_upstream_chunk(&mut body, &vec![1]).is_ok());
    let error = append_upstream_chunk(&mut body, &vec![1])
        .err()
        .expect("full");
    assert!(error
        .message()
        .ends_with("upstream body exceeded proxy limit: max_bytes=67108864"));
    assert_eq!(body.len(), MAX_PROXY_BODY_BYTES);
    assert!(broken_upstream_body("body_failure")
        .message()
        .ends_with("upstream body stream failed: body_failure"));

    let limit = request_body_limit(false, "POST", &target(INFERENCE_PATH), 100, 40);
    assert_eq!((limit.max_bytes, limit.adapter), (40, Some("DeepInfra rerank")));
    let limit = request_body_limit(true, "POST", &target("/v1/score"), 10, 40);
    assert_eq!((limit.max_bytes, limit.adapter), (10, None));
    let limit = request_body_limit(true, "POST", &target("/v1/score"), 40, 40);
    let error = body_read_error(
        ProxyError::request_body("length limit exceeded".to_owned()),
        limit,
        40,
        Metadata::new(),
    );
    assert!(error
        .message()
        .ends_with("score request exceeded adapter limit of 40 bytes"));
    let other = body_read_error(
        ProxyError::request_body("reset".to_owned()),
        limit,
        40,
        Metadata::new(),
    );
    assert!(other.message().ends_with("reset"));
}

#[test]
fn models_are_read_from_requests() {
    let chat = target("/v1/chat/completions");
    assert_eq!(
        extract_model_id("POST", &chat, br#"{"model":"m"}"#, false, None).as_deref(),
        Some("m")
    );
    assert_eq!(
        extract_model_id("POST", &chat, br#"{"model":3}"#, false, None),
        None
    );
    assert_eq!(
        extract_model_id("POST", &target(INFERENCE_PATH), b"", false, None).as_deref(),
        Some("Qwen/Qwen3-Reranker-8B")
    );
    assert_eq!(
        extract_model_id("POST", &chat, b"{}", true, Some("s".to_owned())).as_deref(),
        Some("s")
    );
    let metadata = MetadataConfig {
        discovery_enabled: true,
        enrich_responses: false,
    };
    assert!(!should_enrich_models_response("GET", "/v1/models", metadata));
    assert!(should_buffer_models_response(
        "GET",
        "/v1/models",
        metadata,
        true
    ));
}

#[test]
fn endpoints_are_selected_and_told() {
    let shutdown = endpoint_selection_error(EndpointSelectionError::Shutdown);
    assert_eq!(shutdown.status(), 503);
    let incompatible = endpoint_selection_error(EndpointSelectionError::Incompatible {
        profile: "gpu".to_owned(),
    });
    assert_eq!(
        incompatible.message(),
        "no configured endpoint can losslessly represent this request for profile gpu"
    );
    let unavailable = endpoint_selection_error(EndpointSelectionError::Unavailable {
        profile: "gpu".to_owned(),
        waited_ms: 7,
    });
    assert_eq!(unavailable.error_type(), "upstream_unavailable");
    assert_eq!(
        endpoint_rendering(true, UpstreamEndpointProtocol::DeepInfraQwen3Rerank).ok(),
        Some(EndpointRendering::Canonical)
    );
    assert_eq!(
        endpoint_rendering(false, UpstreamEndpointProtocol::OpenAi).ok(),
        Some(EndpointRendering::OpenAi)
    );
    assert!(endpoint_rendering(false, UpstreamEndpointProtocol::DeepInfraQwen3Rerank).is_err());
    let mut metadata = Metadata::new();
    add_selected_endpoint_metadata(
        &mut metadata,
        &SelectedEndpoint {
            is_primary: false,
            display_url: "http://x".to_owned(),
            protocol_label: "openai".to_owned(),
            selection_label: "ordered".to_owned(),
        },
    );
    assert!(metadata.reads("upstream_endpoint_priority", "failover"));
    assert!(metadata.reads("upstream_failover_selected", "false"));
    let mut answered = Headers::new();
    finalize_proxy_terminal_response(&mut answered, "req-7");
    assert_eq!(answered.get_text("x-request-id").as_deref(), Some("req-7"));
}

#[test]
fn only_plain_tokens_survive_a_rewrite() {
    assert!(safe_proxy_authorization_value(&b" Bearer abc-._~+/=9 ".to_vec()));
    assert!(safe_proxy_authorization_value(&b"BASIC dTpw".to_vec()));
    for value in [
        &b"Bearer"[..],
        b"Bearer a b",
        b"AWS4-HMAC-SHA256 abc",
        b"Bearer a,b",
        b"",
        b"\xff",
    ] {
        assert!(!safe_proxy_authorization_value(&value.to_vec()));
    }
    let mut metadata = Metadata::new();
    let error = ensure_transform_headers_supported(&headers(&[("signature", "x")]), &mut metadata)
        .err()
        .expect("signed");
    assert_eq!(
        error.message(),
        "signed requests cannot be transformed without invalidating the signature"
    );
    assert!(metadata.reads("signed_request_transformation_rejected", "true"));
    let forwarded = sanitize_transformed_request_headers(&headers(&[
        ("accept-encoding", "gzip"),
        ("digest", "x"),
        ("etag", "y"),
        ("accept", "z"),
    ]));
    assert_eq!(
        forwarded.get_text("accept-encoding").as_deref(),
        Some("identity")
    );
    assert!(forwarded.get("digest").is_none() && forwarded.get("etag").is_none());
    assert!(forwarded.get("accept").is_some());
}

#[test]
fn requests_are_rewritten_where_they_have_to_be() {
    let mut metadata = Metadata::new();
    let body = br#"{"queries":["q"],"documents":["d"]}"#.to_vec();
    let rewritten = adapt_openai_request_if_needed(
        "POST",
        &target(INFERENCE_PATH),
        &Headers::new(),
        &body,
        no_score(),
        &mut metadata,
    )
    .ok()
    .expect("rewritten");
    assert_eq!(rewritten.forward_uri.path, "/v1/score");
    assert!(metadata.reads("deepinfra_expected_count", "1"));
    assert!(metadata.reads("deepinfra_service_tier", "default"));
    let error = adapt_openai_request_if_needed(
        "POST",
        &target(INFERENCE_PATH),
        &Headers::new(),
        &b"[]".to_vec(),
        no_score(),
        &mut metadata,
    )
    .err()
    .expect("refused");
    assert!(error
        .message()
        .starts_with("invalid DeepInfra rerank request: "));

    let mut metadata = Metadata::new();
    let scored = adapt_openai_request_if_needed(
        "POST",
        &target("/v1/score"),
        &Headers::new(),
        &body,
        score(Ok(true)),
        &mut metadata,
    )
    .ok()
    .expect("rewritten");
    assert_eq!(scored.forward_uri.path, "/v1/rerank");
    assert!(metadata.reads("score_document_count", "3"));
    let passed = adapt_openai_request_if_needed(
        "POST",
        &target("/v1/score"),
        &Headers::new(),
        &body,
        score(Ok(false)),
        &mut metadata,
    )
    .ok()
    .expect("passed on");
    assert_eq!(passed.adapted_body, body);
    assert!(metadata.reads("score_passthrough", "true"));
    let invalid = adapt_openai_request_if_needed(
        "POST",
        &target("/v1/score"),
        &Headers::new(),
        &body,
        score(Err("no text".to_owned())),
        &mut metadata,
    )
    .err()
    .expect("refused");
    assert_eq!(invalid.message(), "invalid score request: no text");
    let untouched = adapt_openai_request_if_needed(
        "POST",
        &target("/v1/chat/completions"),
        &headers(&[("signature", "x")]),
        &body,
        no_score(),
        &mut Metadata::new(),
    )
    .ok()
    .expect("as it is");
    assert_eq!(untouched.response_adapter, None);
}

#[test]
fn responses_are_rewritten_back() {
    let adapter = BufferedResponseAdapter::DeepInfraQwen3Rerank(ResponseExpectations {
        result_count: 1,
    });
    let body = br#"{"data":[{"index":0,"score":1.0}],"usage":{"prompt_tokens":1}}"#.to_vec();
    let length = body.len().to_string();
    let answered =
        rewrite_buffered_adapter_response(parts(200), body, adapter, Ok(Vec::new()), 2_000)
            .ok()
            .expect("rewritten");
    let value: serde_json::Value = serde_json::from_slice(&answered.body).expect("JSON");
    assert_eq!(value["scores"][0], 1.0);
    assert!(answered
        .response_metadata
        .reads("response_body_bytes", &length));
    let error = rewrite_buffered_adapter_response(
        parts(200),
        b"nonsense".to_vec(),
        adapter,
        Ok(Vec::new()),
        2_000,
    )
    .err()
    .expect("no JSON");
    assert!(error
        .message()
        .contains("DeepInfra rerank from score response rewrite failed: invalid vLLM score JSON"));
    assert_eq!(error.attempt_records().len(), 1);
    let failed = rewrite_buffered_adapter_response(
        parts(500),
        b"busy".to_vec(),
        BufferedResponseAdapter::HeterogeneousReranker,
        Ok(Vec::new()),
        2_000,
    )
    .ok()
    .expect("handed on");
    assert_eq!(failed.body, b"busy");
    assert_eq!(failed.headers.get_text("retry-after").as_deref(), Some("3"));
    assert!(failed.headers.get("x-other").is_none());
    assert_eq!(
        BufferedResponseAdapter::ScoreFromRerank(None).label(),
        "score from rerank"
    );
}

#[test]
fn tokens_are_estimated() {
    assert_eq!(estimate_text_tokens(b""), 0);
    assert_eq!(estimate_text_tokens(b"abcde"), 2);
    assert_eq!(estimate_text_tokens(b"a b c d e"), 5);
    assert_eq!(estimate_text_tokens("\u{3000}ä\u{3000}".as_bytes()), 2);
    assert_eq!(estimate_text_tokens(&[0xff, b' ', 0xff]), 2);
    let value = parse_json(br#"{"a":["abcde",{"b":"abcd"}],"c":7,"d":true}"#).expect("JSON");
    assert_eq!(estimate_json_input_tokens(&value), 3);
    let chat = parse_json(
        br#"{"messages":[{"role":"user","content":"abcdefgh","ignored":"x y z x y z"},"abcd"],"tools":["abcd"],"functions":"abcd"}"#,
    )
    .expect("JSON");
    assert_eq!(estimate_request_input_tokens("messages", &chat), 6);
    assert_eq!(estimate_request_input_tokens("prompt", &chat), 0);
    let caps = parse_json(
        br#"{"max_tokens":5,"max_output_tokens":7,"extra_body":{"thinking":{"budget_tokens":9}}}"#,
    )
    .expect("JSON");
    assert_eq!(estimate_thinking_budget_tokens(&caps), 9);
    assert_eq!(estimate_reserved_output_tokens(&caps), 9);
}

#[test]
fn requests_have_to_fit() {
    let body = br#"{"messages":[{"content":"abcdefgh"}],"max_tokens":5}"#;
    let path = "/v1/chat/completions";
    let fits = context_budget_preflight("POST", path, body, body, Some(8), 1)
        .ok()
        .expect("it fits");
    assert!(fits.reads("context_budget_preflight", "allowed"));
    assert!(fits.reads("context_budget_total_estimate_tokens", "8"));
    let error = context_budget_preflight("POST", path, body, body, Some(7), 1)
        .err()
        .expect("too long");
    assert_eq!(error.status(), 400);
    assert!(error.message().ends_with(
        "estimated_total_tokens=8 context_window_tokens=7 input_tokens=2 reserved_output_tokens=5 safety_margin_tokens=1"
    ));
    assert!(error
        .request_metadata()
        .expect("metadata")
        .reads("context_budget_preflight", "rejected"));
    let skipped = context_budget_preflight("POST", path, body, body, None, 1)
        .ok()
        .expect("unknown window");
    assert!(skipped.reads("context_budget_preflight", "skipped_no_context_window"));
    let other = context_budget_preflight("GET", path, body, body, Some(1), 1)
        .ok()
        .expect("not applicable");
    assert!(other.reads("context_budget_preflight", "not_applicable"));
}

#[test]
fn profiles_override_parameters() {
    let config = ParamOverrideConfig {
        enabled: true,
        temperature: FractionOverride::Number(
            Fraction::of(serde_json::Number::from_f64(0.25).expect("a number"))
                .expect("a fraction"),
        ),
        top_p: FractionOverride::Unsayable,
        top_k: Some(3),
        max_tokens: Some(9),
        frequency_penalty: FractionOverride::Unset,
        presence_penalty: FractionOverride::Unset,
    };
    assert!(param_override_applies(
        "POST",
        "/v1/chat/completions",
        &config
    ));
    assert!(!param_override_applies("POST", "/v1/completions", &config));
    let body = br#"{"temperature":1,"parameters":{"top_k":1}}"#;
    match apply_param_override_to_body(body, &config) {
        Ok(Overridden::ToCap {
            request,
            max_tokens,
        }) => {
            assert_eq!(max_tokens, 9);
            assert_eq!(
                llm_guard_proxy::json::render_json(&request),
                r#"{"parameters":{"temperature":0.25,"top_k":3},"temperature":0.25,"top_k":3}"#
            );
        }
        _ => panic!("changed"),
    }
    assert!(matches!(
        apply_param_override_to_body(b"[]", &config),
        Ok(Overridden::Unchanged)
    ));
    let error = apply_param_override_to_body(b"x", &config)
        .err()
        .expect("no JSON");
    assert!(error.message().contains("request body is not JSON: "));
}

#[test]
fn contradicting_controls_are_refused() {
    let ladder = vec![None, Some(DefaultInjectionSchema::VllmNative)];
    let path = "/v1/chat/completions";
    let error = validate_vllm_native_request_controls(
        DefaultInjectionSchema::Other,
        &ladder,
        "POST",
        path,
        true,
    )
    .err()
    .expect("contradiction");
    assert_eq!(error.status(), 400);
    assert!(error
        .request_metadata()
        .expect("metadata")
        .reads("thinking_control_validation", "rejected_conflict"));
    assert!(validate_vllm_native_request_controls(
        DefaultInjectionSchema::Other,
        &vec![None],
        "POST",
        path,
        true
    )
    .is_ok());
}

#[test]
fn chats_are_planned() {
    let prepared = || {
        Some(PreparedChatRequest {
            upstream_body: b"up".to_vec(),
            thinking_metadata: Metadata::new(),
        })
    };
    let plan = plan_shielded_chat(b"down".to_vec(), true, false, prepared(), prepared());
    assert!(plan.intercepted);
    assert_eq!(plan.kind, ShieldedChatKind::NonStream);
    let plan = plan_shielded_chat(b"down".to_vec(), true, false, None, prepared());
    assert!(!plan.intercepted && plan.thinking_policy_applied);
    assert_eq!(plan.kind, ShieldedChatKind::Generic);
    let plan = plan_shielded_chat(b"down".to_vec(), true, true, None, prepared());
    assert_eq!(plan.kind, ShieldedChatKind::Stream);
    let plan = plan_shielded_chat(b"down".to_vec(), false, true, prepared(), None);
    assert_eq!(plan.upstream_body, b"down");
}

#[test]
fn requests_are_prepared() {
    let settings = CallerSettings {
        virtual_keys_enabled: false,
        keys: Vec::new(),
        unknown_key_policy: UnknownKeyPolicy::FailClosed,
        default_profile: "default".to_owned(),
        profiles: Vec::new(),
    };
    let mut metadata = Metadata::new();
    let path = "/v1/chat/completions";
    let caller = identify_caller(
        &settings,
        "POST",
        &target(path),
        &Headers::new(),
        br#"{"model":"m"}"#,
        false,
        None,
        &mut metadata,
    )
    .ok()
    .expect("a caller");
    assert_eq!(caller.model_id.as_deref(), Some("m"));
    assert!(metadata.reads("caller_profile", "default"));

    let mut metadata = Metadata::new();
    let planned = plan_forwarding(
        &profile(None),
        UpstreamRouteReason::MatchedModel,
        plan_settings(),
        adapted(path, b"{}"),
        "POST",
        &mut metadata,
    )
    .ok()
    .expect("planned");
    assert_eq!(
        planned.upstream_url.as_str(),
        "http://upstream:8000/v1/chat/completions"
    );
    assert!(metadata.reads("upstream_context_window_tokens", "unknown"));
    assert_eq!(planned.route_reason, "matched_model");
    assert!(metadata.reads("upstream_route_reason", "matched_model"));
    assert_eq!(
        route_reason_text(UpstreamRouteReason::Default, &reason_labels()),
        "default"
    );
    assert!(check_plan(
        &planned.plan,
        &liveness(),
        &profile(None),
        "POST",
        path,
        &mut metadata
    )
    .is_ok());
    assert!(metadata.reads("context_budget_preflight", "skipped_no_context_window"));
    let error = check_plan(
        &planned.plan,
        &liveness(),
        &profile(Some(0)),
        "POST",
        path,
        &mut metadata,
    )
    .err()
    .expect("no room");
    assert_eq!(error.error_type(), "invalid_request_error");

    let mut settings = plan_settings();
    settings.base_check = Some("not allowed".to_owned());
    let error = plan_forwarding(
        &profile(None),
        UpstreamRouteReason::Default,
        settings,
        adapted(path, b"{}"),
        "POST",
        &mut Metadata::new(),
    )
    .err()
    .expect("no URL");
    assert_eq!(
        error.message(),
        "invalid upstream base URL http://upstream:8000: not allowed"
    );
    let mut settings = plan_settings();
    settings.injection_schema = DefaultInjectionSchema::VllmNative;
    settings.conflicting_controls = true;
    assert!(plan_forwarding(
        &profile(None),
        UpstreamRouteReason::Default,
        settings,
        adapted(path, b"{}"),
        "POST",
        &mut Metadata::new()
    )
    .is_err());
    let (endpoint, order) = initial_endpoint_retry_state(&profile(None), "http://upstream:8000");
    assert_eq!(order, vec!["http://upstream:8000"]);
    assert_eq!(endpoint.priority_label, "primary");
}

#[test]
fn the_first_refusal_is_told() {
    let caller = || IdentifiedCaller {
        profile: ResolvedCallerProfile {
            name: "team".to_owned(),
            resolution: CallerProfileResolution::VirtualKeyMatched,
            enforce_policy: true,
        },
        model_id: Some("m".to_owned()),
    };
    let budget = |allowed| BudgetAnswer {
        enabled: true,
        limit: 3,
        date: "2024-05-01".to_owned(),
        check: Ok(BudgetCheck {
            allowed,
            current_count: 3,
            limit: 3,
        }),
    };
    let routing = |workflow| ModelRouting {
        workflow,
        alias: None,
        selected: SelectedUpstreamProfile {
            profile: "gpu".to_owned(),
            route_reason: UpstreamRouteReason::Default,
        },
        first_allowed: None,
    };
    let route = |allowed, workflow, listener: &ListenerConfig| {
        choose_route(
            &caller(),
            budget(allowed),
            routing(workflow),
            listener,
            "POST",
            &target("/v1/chat/completions"),
            &Headers::new(),
            &b"{}".to_vec(),
            no_score(),
            &mut Metadata::new(),
        )
    };
    let broken = || Some(Err("no such workflow".to_owned()));
    let error = route(false, broken(), &listener()).err().expect("budget");
    assert_eq!(error.error_type(), "budget_exhausted");
    let error = route(true, broken(), &listener()).err().expect("alias");
    assert_eq!(error.error_type(), "guard_blocked");
    let mut closed = listener();
    closed.allowed_upstreams = Some(Vec::new());
    let error = route(true, None, &closed).err().expect("listener");
    assert_eq!(error.error_type(), "listener_upstream_not_allowed");
    let chosen = route(
        true,
        Some(Ok(ModelAlias::Workflow(ResolvedWorkflowAlias {
            workflow_id: "w".to_owned(),
            timeout_ms: 5,
        }))),
        &listener(),
    )
    .ok()
    .expect("a route");
    assert_eq!(chosen.selected.profile, "gpu");
    assert_eq!(
        chosen.workflow_alias.map(|alias| alias.workflow_id).as_deref(),
        Some("w")
    );
}

#[test]
fn requests_are_live_until_they_are_answered() {
    let came = |step: HandlerStep| FlowEvent::Came {
        step,
        config_readable: true,
        is_models_request: false,
        has_profile_limits: false,
    };
    let silent = LiveNote {
        registers: false,
        mark: None,
    };
    let plan = FlowPlan {
        workflow_alias: false,
        guarded: false,
        failover: false,
        intercepted: false,
    };
    let read = FlowEvent::BodyRead {
        is_models_request: false,
        restart_queue_enabled: false,
    };
    let expected = [
        (
            came(HandlerStep::Admit),
            LiveNote {
                registers: true,
                mark: None,
            },
        ),
        (
            FlowEvent::Acquired,
            LiveNote {
                registers: false,
                mark: Some(LiveMark::Admitted),
            },
        ),
        (read, silent),
        (FlowEvent::Prepared { plan }, silent),
        (
            FlowEvent::Responded,
            LiveNote {
                registers: false,
                mark: Some(LiveMark::Completed),
            },
        ),
    ];
    let mut stage = FlowStage::Arrived;
    for (event, note) in expected {
        let (next, action) = advance(stage, event);
        assert_eq!(live_note(event, action), note);
        stage = next;
    }
    let summary = came(HandlerStep::DebugSummary);
    let (_, action) = advance(FlowStage::Arrived, summary);
    assert_eq!(live_note(summary, action), silent);
    let outside = came(HandlerStep::RefusePath(OpenAiPathError::OutsideOpenAiScope));
    let (_, action) = advance(FlowStage::Arrived, outside);
    assert_eq!(
        live_note(outside, action),
        LiveNote {
            registers: true,
            mark: Some(LiveMark::Failed),
        }
    );
}
