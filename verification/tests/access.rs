//! Callers, profiles, errors and what clients are told of them.

use llm_guard_proxy::admission::AdmissionFailure;
use llm_guard_proxy::callers::{
    admin_token_matches, constant_time_eq, debug_summary_authorized, enforce_caller_profile_budget,
    enforce_caller_profile_policy, extract_virtual_key, resolve_caller_profile, BlockReason,
    BudgetCheck, CallerProfileResolution, CallerSettings, ResolvedCallerProfile, UnknownKeyPolicy,
};
use llm_guard_proxy::error_bodies::{
    proxy_error_response_from_error_with_diagnostics, response_has_valid_choices,
    validate_non_stream_chat_completion_response, FinalResponse,
};
use llm_guard_proxy::errors::ProxyError;
use llm_guard_proxy::failures::{
    classify_shielded_failure_cause, sanitized_reqwest_error, FailureSigns, ReqwestFailureKind,
    UpstreamFailureCause, UpstreamFailureCounters,
};
use llm_guard_proxy::headers::Headers;
use llm_guard_proxy::metadata::Metadata;
use llm_guard_proxy::path::OpenAiPathError;
use llm_guard_proxy::profiles::{
    denied_model_id_summary, filter_models_body_for_listener, listener_models_upstream_profiles,
    looks_sensitive_text, normalized_model_id, select_profile_for_request, stable_text_hash,
    AliasTarget, ListenerConfig, SelectedUpstreamProfile, UpstreamRouteReason,
};
use llm_guard_proxy::records::{
    AttemptRecord, AttemptStatus, RawPayloads, RequestStatus, TokenUsage, UpstreamMode,
};
use std::hash::{Hash, Hasher};

fn headers(fields: &[(&str, &str)]) -> Headers {
    let mut headers = Headers::new();
    for (name, value) in fields {
        headers.append(name, &value.as_bytes().to_vec());
    }
    headers
}

fn settings(policy: UnknownKeyPolicy, profiles: &[&str]) -> CallerSettings {
    CallerSettings {
        virtual_keys_enabled: true,
        keys: vec![
            ("key-a".to_owned(), "team-a".to_owned()),
            ("key-x".to_owned(), "gone".to_owned()),
        ],
        unknown_key_policy: policy,
        default_profile: "default".to_owned(),
        profiles: profiles.iter().map(|name| (*name).to_owned()).collect(),
    }
}

fn resolved(settings: &CallerSettings, headers: &Headers) -> ResolvedCallerProfile {
    match resolve_caller_profile(settings, headers) {
        Ok(profile) => profile,
        Err(error) => panic!("refused: {}", error.message()),
    }
}

fn listener(allowed: Option<&[&str]>) -> ListenerConfig {
    ListenerConfig {
        name: "edge".to_owned(),
        bind_host: "127.0.0.1".to_owned(),
        port: 8080,
        allowed_upstreams: allowed
            .map(|names| names.iter().map(|name| (*name).to_owned()).collect()),
    }
}

fn selected(profile: &str) -> SelectedUpstreamProfile {
    SelectedUpstreamProfile {
        profile: profile.to_owned(),
        route_reason: UpstreamRouteReason::Default,
    }
}

fn attempt(id: &str) -> AttemptRecord {
    AttemptRecord {
        attempt_id: id.to_owned(),
        request_id: "r".to_owned(),
        attempt_number: 1,
        started_at_unix_ms: 1,
        finished_at_unix_ms: Some(2),
        upstream_mode: UpstreamMode::NotApplicable,
        status: AttemptStatus::Failed,
        http_status: None,
        error_reason: None,
        retry_reason: None,
        abort_reason: None,
        token_usage: TokenUsage::default(),
        request_metadata: Metadata::new(),
        response_metadata: Metadata::new(),
        raw_payloads: RawPayloads::none(),
    }
}

#[test]
fn tokens_are_compared_whole() {
    assert!(constant_time_eq(b"secret", b"secret"));
    assert!(!constant_time_eq(b"secret", b"secreT"));
    assert!(!constant_time_eq(b"secret", b"secret\0"));
    assert!(admin_token_matches("t", "t"));
    assert!(!admin_token_matches("t2", "t"));

    assert!(debug_summary_authorized(&Headers::new(), None));
    assert!(debug_summary_authorized(&Headers::new(), Some("")));
    assert!(!debug_summary_authorized(&Headers::new(), Some("t")));
    assert!(debug_summary_authorized(
        &headers(&[("authorization", "Bearer t")]),
        Some("t")
    ));
    assert!(debug_summary_authorized(
        &headers(&[("x-admin-token", "t")]),
        Some("t")
    ));
    assert!(!debug_summary_authorized(
        &headers(&[("authorization", "bearer t")]),
        Some("t")
    ));
}

#[test]
fn keys_lead_to_profiles() {
    let profiles = ["team-a", "team-b"];
    let strict = settings(UnknownKeyPolicy::FailClosed, &profiles);
    let matched = resolved(&strict, &headers(&[("x-virtual-key", " key-a ")]));
    assert_eq!(matched.name, "team-a");
    assert_eq!(matched.resolution, CallerProfileResolution::VirtualKeyMatched);
    assert!(matched.enforce_policy);
    let bearer = resolved(&strict, &headers(&[("authorization", "bearer key-a")]));
    assert_eq!(bearer.name, "team-a");
    for fields in [
        &[][..],
        &[("x-virtual-key", "nope")][..],
        &[("x-virtual-key", "key-x")][..],
    ] {
        let error = resolve_caller_profile(&strict, &headers(fields))
            .err()
            .expect("refused");
        assert_eq!(error.status(), 401);
        assert_eq!(error.error_type(), "virtual_key_unauthorized");
        assert!(error
            .request_metadata()
            .expect("metadata")
            .reads("virtual_key_resolution", "fail_closed"));
    }
    let lenient = settings(UnknownKeyPolicy::UseDefaultProfile, &profiles);
    let unknown = resolved(&lenient, &headers(&[("x-virtual-key", "nope")]));
    assert_eq!(unknown.name, "default");
    assert_eq!(
        unknown.resolution,
        CallerProfileResolution::UnknownUseDefault
    );
    let single = resolved(
        &settings(UnknownKeyPolicy::FailClosed, &["only"]),
        &Headers::new(),
    );
    assert_eq!(single.name, "only");
    let mut off = settings(UnknownKeyPolicy::FailClosed, &[]);
    off.virtual_keys_enabled = false;
    let disabled = resolved(&off, &Headers::new());
    assert_eq!(disabled.resolution.as_str(), "disabled_default");
    assert!(!disabled.enforce_policy);
    assert_eq!(
        extract_virtual_key(&headers(&[
            ("x-virtual-key", "a"),
            ("authorization", "Bearer b")
        ]))
        .as_deref(),
        Some("a")
    );
}

#[test]
fn policies_and_budgets_are_enforced() {
    let profile = ResolvedCallerProfile {
        name: "team".to_owned(),
        resolution: CallerProfileResolution::VirtualKeyMatched,
        enforce_policy: true,
    };
    let block = || Some(BlockReason::DailyLimitExceeded { limit: 3 });
    let error = enforce_caller_profile_policy(&profile, Some("m"), block())
        .err()
        .expect("blocked");
    assert_eq!(error.status(), 403);
    assert_eq!(
        error.message(),
        "guard workflow blocked request: caller profile blocked request: daily request limit exceeded: limit=3"
    );
    let model = enforce_caller_profile_policy(
        &profile,
        Some("m"),
        Some(BlockReason::ModelNotAllowed {
            model: "gpt".to_owned(),
        }),
    )
    .err()
    .expect("blocked");
    assert!(model.message().ends_with("model not allowed: gpt"));
    assert!(enforce_caller_profile_policy(&profile, Some("  "), block()).is_ok());

    let over = enforce_caller_profile_budget(
        &profile,
        true,
        3,
        "2024-05-01".to_owned(),
        Ok(BudgetCheck {
            allowed: false,
            current_count: 3,
            limit: 3,
        }),
    )
    .err()
    .expect("over budget");
    assert_eq!(over.status(), 429);
    assert_eq!(
        over.message(),
        "daily request budget exceeded for profile team: count=3 limit=3 date=2024-05-01"
    );
    let broken = enforce_caller_profile_budget(
        &profile,
        true,
        3,
        "2024-05-01".to_owned(),
        Err("disk".to_owned()),
    )
    .err()
    .expect("no store");
    assert_eq!(broken.error_type(), "budget_store_failed");
    assert!(enforce_caller_profile_budget(
        &profile,
        true,
        0,
        "2024-05-01".to_owned(),
        Err("disk".to_owned())
    )
    .is_ok());
}

#[test]
fn listeners_serve_their_profiles() {
    let open = listener(None);
    let restricted = listener(Some(&["a", "b"]));
    let choice = select_profile_for_request(
        &restricted,
        "GET",
        "/v1/models",
        Some("a".to_owned()),
        None,
        None,
        selected("c"),
    )
    .ok()
    .expect("its first profile");
    assert_eq!(choice.profile, "a");
    let denied = select_profile_for_request(
        &restricted,
        "POST",
        "/v1/chat/completions",
        None,
        Some("m"),
        None,
        selected("c"),
    )
    .err()
    .expect("not served");
    assert_eq!(denied.upstream_profile, "c");
    assert_eq!(denied.model_id, "m");
    let error = ProxyError::listener_denied(denied);
    assert_eq!(error.status(), 400);
    let aliased = select_profile_for_request(
        &restricted,
        "POST",
        "/v1/chat/completions",
        None,
        Some("alias"),
        Some(AliasTarget::Upstream {
            profile: "b".to_owned(),
        }),
        selected("c"),
    )
    .ok()
    .expect("served");
    assert_eq!(aliased.profile, "b");

    assert!(filter_models_body_for_listener(
        &open,
        Some("m"),
        None,
        selected("c")
    ));
    assert!(!filter_models_body_for_listener(
        &restricted,
        Some("m"),
        None,
        selected("c")
    ));
    let known = vec!["b".to_owned(), "z".to_owned()];
    assert_eq!(
        listener_models_upstream_profiles(&restricted, &known, "default", &known),
        vec!["b"]
    );
    assert_eq!(
        listener_models_upstream_profiles(&open, &known, "default", &known),
        vec!["default", "b", "z"]
    );
}

#[test]
fn refused_models_are_shown_harmlessly() {
    assert_eq!(denied_model_id_summary(None), "[none]");
    assert_eq!(denied_model_id_summary(Some("llama")), "llama");
    let long = "x".repeat(129);
    assert_eq!(
        denied_model_id_summary(Some(&long)),
        format!("[redacted model: bytes=129, hash={}]", stable_text_hash(&long))
    );
    assert!(denied_model_id_summary(Some("Sk-abc")).starts_with("[redacted model: bytes=6,"));
    assert!(looks_sensitive_text("my API_KEY"));
    assert!(!looks_sensitive_text("mask"));
    assert_eq!(normalized_model_id(Some(" m ")).as_deref(), Some("m"));
    assert_eq!(normalized_model_id(Some(" ")), None);
}

#[test]
fn text_hashes_are_those_of_the_standard_hasher() {
    let mut hasher = std::collections::hash_map::DefaultHasher::new();
    "abc".hash(&mut hasher);
    assert_eq!(
        stable_text_hash("abc"),
        format!("siphash64:{:016x}", hasher.finish())
    );
}

#[test]
fn every_error_has_its_status_and_type() {
    let cases = [
        (ProxyError::request_body("x".to_owned()), 413, "request_body_error"),
        (
            ProxyError::config_snapshot("x".to_owned()),
            500,
            "config_snapshot_failed",
        ),
        (
            ProxyError::invalid_upstream_url("u".to_owned(), "x".to_owned()),
            500,
            "invalid_upstream_url",
        ),
        (
            ProxyError::invalid_request_path(OpenAiPathError::DotSegment),
            400,
            OpenAiPathError::DotSegment.error_type(),
        ),
        (ProxyError::invalid_method("x".to_owned()), 500, "invalid_method"),
        (
            ProxyError::admission(AdmissionFailure::ShuttingDown { queued: None }),
            503,
            "proxy_shutting_down",
        ),
        (ProxyError::server_shutdown(), 503, "proxy_shutting_down"),
        (
            ProxyError::upstream_unavailable("p".to_owned(), 5),
            503,
            "upstream_unavailable",
        ),
        (
            ProxyError::upstream_transport(ReqwestFailureKind::Connect),
            502,
            "upstream_transport_error",
        ),
        (ProxyError::upstream_body("x".to_owned()), 502, "upstream_body_error"),
        (ProxyError::guard_blocked("x".to_owned()), 403, "guard_blocked"),
        (
            ProxyError::virtual_key_unauthorized(),
            401,
            "virtual_key_unauthorized",
        ),
        (
            ProxyError::budget_exceeded("p".to_owned(), "d".to_owned(), 1, 1),
            429,
            "budget_exhausted",
        ),
        (
            ProxyError::budget_store_failed("x".to_owned()),
            500,
            "budget_store_failed",
        ),
        (
            ProxyError::invalid_request("m".to_owned(), "body", "c"),
            400,
            "invalid_request_error",
        ),
    ];
    for (error, status, error_type) in cases {
        assert_eq!(error.status(), status, "{error_type}");
        assert_eq!(error.error_type(), error_type);
    }
    assert_eq!(
        ProxyError::server_shutdown().request_status(),
        RequestStatus::Aborted
    );
    assert_eq!(
        ProxyError::server_shutdown().abort_reason(),
        Some("server_shutdown")
    );
    assert_eq!(
        ProxyError::upstream_unavailable("p".to_owned(), 5).message(),
        "no healthy upstream endpoint for profile p after 5ms"
    );
}

#[test]
fn earlier_attempts_come_first() {
    let error = ProxyError::upstream_body("x".to_owned())
        .with_observability(Metadata::new(), attempt("last"))
        .with_completed_attempt_records(vec![attempt("first")]);
    let ids: Vec<String> = error
        .attempt_records()
        .into_iter()
        .map(|record| record.attempt_id)
        .collect();
    assert_eq!(ids, vec!["first", "last"]);
    assert_eq!(
        error.upstream_failure_cause(),
        Some(UpstreamFailureCause::BodyError)
    );
}

#[test]
fn errors_are_told_as_json() {
    let error = ProxyError::invalid_request("too long".to_owned(), "messages", "too_long");
    let response = proxy_error_response_from_error_with_diagnostics(&error, Some("req-1"));
    let body: serde_json::Value = serde_json::from_slice(&response.body).expect("JSON");
    assert_eq!(response.status, 400);
    assert_eq!(body["error"]["message"], "too long");
    assert_eq!(body["error"]["type"], "invalid_request_error");
    assert_eq!(body["error"]["code"], "too_long");
    assert_eq!(body["error"]["param"], "messages");
    assert_eq!(body["error"]["request_id"], "req-1");

    let transport = ProxyError::upstream_transport(ReqwestFailureKind::Timeout);
    let response = proxy_error_response_from_error_with_diagnostics(&transport, Some("req-1"));
    let body: serde_json::Value = serde_json::from_slice(&response.body).expect("JSON");
    assert_eq!(body["error"]["code"], "upstream_timeout");

    let full = ProxyError::admission(AdmissionFailure::GenerationQueueFull {
        max_queued_generation_requests: 1,
        status: 42,
        retry_after_secs: None,
    });
    let response = proxy_error_response_from_error_with_diagnostics(&full, Some("req-1"));
    assert_eq!(response.status, 503);
    assert_eq!(response.retry_after.as_deref(), Some("1"));
    assert_eq!(response.request_id, None);
}

#[test]
fn chat_answers_need_choices() {
    assert!(response_has_valid_choices(br#"{"choices":[{}]}"#));
    assert!(!response_has_valid_choices(br#"{"choices":{}}"#));
    assert!(!response_has_valid_choices(b"nonsense"));
    let json = headers(&[("content-type", "application/json")]);
    let path = "/v1/chat/completions";
    assert!(matches!(
        validate_non_stream_chat_completion_response(200, "/v1/models", &json, None, "r"),
        FinalResponse::AsItIs
    ));
    match validate_non_stream_chat_completion_response(200, path, &json, Some(b"{}"), "r") {
        FinalResponse::Replaced(error) => {
            assert_eq!(error.status, 502);
            let body: serde_json::Value = serde_json::from_slice(&error.body).expect("JSON");
            assert_eq!(body["error"]["code"], "malformed_response");
        }
        _ => panic!("no choices"),
    }
    assert!(matches!(
        validate_non_stream_chat_completion_response(
            200,
            path,
            &json,
            Some(br#"{"choices":[{}]}"#),
            "r"
        ),
        FinalResponse::WithLength { length: 16 }
    ));
}

#[test]
fn failures_have_causes() {
    let signs = FailureSigns {
        timeout: false,
        connect: true,
        body: true,
        decode: false,
        request: true,
    };
    assert_eq!(
        ReqwestFailureKind::from_signs(signs),
        ReqwestFailureKind::Connect
    );
    assert!(ReqwestFailureKind::Connect.is_transient());
    assert!(!ReqwestFailureKind::Decode.is_transient());
    for cause in [
        UpstreamFailureCause::ConnectFailed,
        UpstreamFailureCause::Timeout,
        UpstreamFailureCause::BodyError,
        UpstreamFailureCause::StatusError,
        UpstreamFailureCause::TransportError,
    ] {
        assert_eq!(cause.code(), format!("upstream_{}", cause.metric_label()));
    }
    let mut metadata = Metadata::new();
    metadata.set("status_code", "503");
    assert_eq!(
        classify_shielded_failure_cause("x", "y", &metadata),
        Some(UpstreamFailureCause::StatusError)
    );
    let mut counters = UpstreamFailureCounters::new();
    counters.increment(UpstreamFailureCause::Timeout);
    assert_eq!(counters.snapshot().timeout, 1);
    assert_eq!(counters.snapshot().body_error, 0);
}

#[test]
fn client_errors_are_named_by_their_signs() {
    let error = reqwest::Client::new()
        .get("nonsense")
        .build()
        .err()
        .expect("no URL");
    assert!(error.is_builder());
    assert_eq!(
        ReqwestFailureKind::from_error(&error),
        ReqwestFailureKind::Other
    );
    assert_eq!(sanitized_reqwest_error(&error), "unknown_failure");
}
