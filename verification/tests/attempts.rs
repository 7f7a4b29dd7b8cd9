//! What is sent after the first attempt: other endpoints, rewritten responses,
//! overridden parameters, and shadow attempts.

use llm_guard_proxy::adapters::BufferedResponseAdapter;
use llm_guard_proxy::admin::{debug_summary_answer, live_request_answer};
use llm_guard_proxy::attempt_flow::{
    advance_attempts, AttemptAction, AttemptEvent, AttemptStage,
};
use llm_guard_proxy::error_bodies::ErrorResponse;
use llm_guard_proxy::failover::{
    endpoint_body_step, finish_endpoint_rewrite, first_endpoint_attempt, next_endpoint_attempt,
    no_shutdown_controller, shielded_retry_endpoint, EndpointBodyStep, EndpointTarget,
    ObservedEndpointResponse, SentUpstreamResponse, UpstreamEndpointConfig,
    UpstreamEndpointProtocol,
};
use llm_guard_proxy::forwarding::{plan_shielded_chat, MetadataConfig};
use llm_guard_proxy::headers::Headers;
use llm_guard_proxy::json::{render_json, Json};
use llm_guard_proxy::metadata::Metadata;
use llm_guard_proxy::models::{dispatch_response, generic_forwarded_response, ResponseDispatch};
use llm_guard_proxy::overrides::{
    apply_param_override_to_shielded_plan, apply_shielded_param_override_to_body_or_original,
    FractionOverride, Overridden, ParamOverrideConfig,
};
use llm_guard_proxy::records::UpstreamMode;
use llm_guard_proxy::retry::ShieldedRetryCause;
use llm_guard_proxy::shadow_runs::{shadow_attempt_plans, PreparedComparison};
use llm_guard_proxy::shielded_run::StartedStep;
use llm_guard_proxy::thinking::{ShadowComparisonAttempt, ThinkingConfig, ThinkingMode};

fn endpoint(base_url: &str) -> UpstreamEndpointConfig {
    UpstreamEndpointConfig {
        base_url: base_url.to_owned(),
        display_url: base_url.to_owned(),
        protocol: UpstreamEndpointProtocol::OpenAi,
        priority_label: "primary".to_owned(),
        has_credential: false,
        is_passive_cloud: false,
    }
}

#[test]
fn the_endpoint_that_answered_comes_first() {
    let order = vec!["a".to_owned(), "b".to_owned(), "c".to_owned()];
    let (next, tried) = shielded_retry_endpoint(Some(endpoint("b")), endpoint("a"), &order);
    assert_eq!(next.base_url, "b");
    assert_eq!(tried, ["b", "a", "c"]);
    let (next, tried) = shielded_retry_endpoint(None, endpoint("a"), &order);
    assert_eq!(next.base_url, "a");
    assert_eq!(tried, ["a", "b", "c"]);
}

#[test]
fn only_known_successes_are_rewritten() {
    assert_eq!(
        endpoint_body_step(true, 200, true, true),
        EndpointBodyStep::Rewrite
    );
    assert_eq!(
        endpoint_body_step(true, 200, true, false),
        EndpointBodyStep::Refuse
    );
    for (decode, status, known) in [(false, 200, true), (true, 503, true), (true, 200, false)] {
        assert_eq!(
            endpoint_body_step(decode, status, known, true),
            EndpointBodyStep::HandOn
        );
    }
    assert!(no_shutdown_controller()
        .message()
        .ends_with("heterogeneous reranker response has no shutdown controller"));
    assert_eq!(finish_endpoint_rewrite(Ok(vec![1])).ok(), Some(vec![1]));
    let error = finish_endpoint_rewrite(Err("no scores".to_owned()))
        .err()
        .expect("an error");
    assert!(error
        .message()
        .ends_with("heterogeneous reranker response rewrite failed: no scores"));
}

#[test]
fn responses_are_told_with_their_attempt() {
    let mut headers = Headers::new();
    headers.set_text("content-type", "text/event-stream");
    let sent = SentUpstreamResponse {
        attempt_id: "r-2".to_owned(),
        attempt_number: 2,
        attempt_started_at_unix_ms: 30,
        attempt_request_metadata: Metadata::new(),
        did_failover: true,
        completed_attempt_records: Vec::new(),
        terminal_endpoint: None,
        terminal_endpoint_protocol: UpstreamEndpointProtocol::OpenAi,
        response: ObservedEndpointResponse {
            status: 206,
            headers,
        },
    };
    let parts = generic_forwarded_response(
        sent,
        "r".to_owned(),
        10,
        0,
        Some("m".to_owned()),
        None,
        &Metadata::new(),
    );
    assert_eq!(parts.attempt_id, "r-2");
    assert_eq!(parts.attempt_number, 2);
    assert_eq!(parts.attempt_max_attempts, 1);
    assert_eq!(parts.upstream_status, 206);
    assert_eq!(parts.upstream_mode, UpstreamMode::Streaming);
    assert!(parts
        .request_metadata
        .reads("upstream_failover_selected", "true"));
}

fn overrides() -> ParamOverrideConfig {
    ParamOverrideConfig {
        enabled: true,
        temperature: FractionOverride::Unset,
        top_p: FractionOverride::Unset,
        top_k: Some(3),
        max_tokens: Some(9),
        frequency_penalty: FractionOverride::Unset,
        presence_penalty: FractionOverride::Unset,
    }
}

#[test]
fn planned_chats_get_the_parameters_of_their_profile() {
    let plan = plan_shielded_chat(br#"{"top_k":1}"#.to_vec(), false, false, None, None);
    let changed =
        apply_param_override_to_shielded_plan("POST", "/v1/chat/completions", &plan, &overrides());
    match changed {
        Ok(Some(Overridden::ToCap {
            request,
            max_tokens,
        })) => {
            assert_eq!(render_json(&request), r#"{"top_k":3}"#);
            assert_eq!(max_tokens, 9);
        }
        _ => panic!("the parameters are set"),
    }
    assert!(matches!(
        apply_param_override_to_shielded_plan("POST", "/v1/embeddings", &plan, &overrides()),
        Ok(None)
    ));
    let broken = plan_shielded_chat(b"{".to_vec(), false, false, None, None);
    let error = apply_param_override_to_shielded_plan(
        "POST",
        "/v1/chat/completions",
        &broken,
        &overrides(),
    )
    .err()
    .expect("an error");
    assert!(error.message().contains("request body is not JSON: "));
    assert!(matches!(
        apply_shielded_param_override_to_body_or_original(b"{", &overrides()),
        Overridden::Refused
    ));
    assert!(matches!(
        apply_shielded_param_override_to_body_or_original(b"[]", &overrides()),
        Overridden::Unchanged
    ));
    let mut off = overrides();
    off.enabled = false;
    assert!(matches!(
        apply_shielded_param_override_to_body_or_original(b"{", &off),
        Overridden::Unchanged
    ));
    let mut uncapped = overrides();
    uncapped.max_tokens = None;
    match apply_shielded_param_override_to_body_or_original(b"{}", &uncapped) {
        Overridden::Changed { body } => assert_eq!(body, br#"{"top_k":3}"#),
        _ => panic!("the parameters are set"),
    }
}

fn comparison(comparison: ShadowComparisonAttempt, body: Option<Vec<u8>>) -> PreparedComparison {
    PreparedComparison {
        comparison,
        label: "compared".to_owned(),
        mode_label: "mode".to_owned(),
        body,
        thinking_metadata: Metadata::new(),
    }
}

#[test]
fn shadow_attempts_are_planned_in_order() {
    let thinking = ThinkingConfig {
        mode: ThinkingMode::Unchanged,
        enabled: true,
        force_disable: false,
        budget_tokens: 7,
        max_tokens: Some(70),
        preserve_answer_budget: true,
        default_injection_schema: "auto".to_owned(),
    };
    let comparisons = vec![
        comparison(ShadowComparisonAttempt::NoThinking, Some(vec![1])),
        comparison(ShadowComparisonAttempt::MaxThinking, None),
        comparison(ShadowComparisonAttempt::CotSalvage, Some(vec![2])),
        comparison(ShadowComparisonAttempt::MaxThinking, Some(vec![3])),
    ];
    let mut source = Metadata::new();
    source.set("method", "POST");
    let kept = vec![9u8];
    let plans = shadow_attempt_plans(
        Some(&kept),
        &comparisons,
        &source,
        &thinking,
        false,
        Some("because"),
    );
    let bodies: Vec<Vec<u8>> = plans.iter().map(|plan| plan.upstream_body.clone()).collect();
    assert_eq!(bodies, [vec![9], vec![1], vec![2], vec![3]]);
    assert_eq!(plans[0].request_metadata.len(), 1);
    assert!(plans[1]
        .request_metadata
        .reads("attempt_thinking_budget_tokens", "0"));
    assert!(plans[2]
        .request_metadata
        .reads("attempt_thinking_budget_tokens", "1024"));
    assert!(plans[3]
        .request_metadata
        .reads("attempt_thinking_budget_tokens", "32768"));
    assert!(!plans[3]
        .request_metadata
        .contains_key("shadow_paired_comparison"));

    let paired = shadow_attempt_plans(None, &comparisons, &source, &thinking, true, Some("x"));
    assert_eq!(paired.len(), 2);
    assert!(paired[0]
        .request_metadata
        .reads("shadow_paired_comparison", "true"));
    assert!(paired[0].request_metadata.reads("variant_name", "compared"));
    let blank = shadow_attempt_plans(None, &comparisons, &source, &thinking, false, Some("  "));
    assert_eq!(blank.len(), 2);
}

fn drive(events: &[AttemptEvent]) -> (AttemptStage, AttemptAction) {
    let mut at = (AttemptStage::Idle, AttemptAction::Nothing);
    for event in events {
        at = advance_attempts(at.0, *event);
    }
    at
}

fn judged(step: StartedStep, begins_only: bool, relays: bool) -> AttemptEvent {
    AttemptEvent::Judged {
        step,
        begins_only,
        relays,
    }
}

#[test]
fn shielded_requests_go_from_attempt_to_attempt() {
    let came = AttemptEvent::Came { has_attempt: false };
    let started = [came, AttemptEvent::Permitted, AttemptEvent::Began];
    assert_eq!(drive(&started).1, AttemptAction::Judge);
    let retryable = judged(
        StartedStep::RetryableStatus(ShieldedRetryCause::TransientUpstreamStatus),
        false,
        false,
    );
    let stream = judged(StartedStep::Aggregate, false, false);
    let mut events = started.to_vec();
    events.push(retryable);
    assert_eq!(
        drive(&events).1,
        AttemptAction::SettleStatus {
            cause: ShieldedRetryCause::TransientUpstreamStatus
        }
    );
    events.push(AttemptEvent::Settled { retry: true });
    assert_eq!(drive(&events).1, AttemptAction::CheckTime);
    events.extend([AttemptEvent::Permitted, AttemptEvent::Began, stream]);
    assert_eq!(drive(&events).1, AttemptAction::Aggregate);
    events.push(AttemptEvent::Aggregated);
    assert_eq!(drive(&events), (AttemptStage::Ended, AttemptAction::Accept));
    events.push(AttemptEvent::Permitted);
    assert_eq!(drive(&events), (AttemptStage::Ended, AttemptAction::Nothing));
}

#[test]
fn shielded_requests_end_for_a_reason() {
    let came = AttemptEvent::Came { has_attempt: true };
    assert_eq!(
        drive(&[came, judged(StartedStep::Aggregate, true, true)]).1,
        AttemptAction::HandOver
    );
    assert_eq!(
        drive(&[came, judged(StartedStep::Aggregate, false, true)]).1,
        AttemptAction::Relay
    );
    assert_eq!(
        drive(&[came, judged(StartedStep::TerminalForward, false, false)]).1,
        AttemptAction::ForwardTerminal
    );
    assert_eq!(
        drive(&[came, judged(StartedStep::NotAStream, false, false)]).1,
        AttemptAction::Refuse {
            is_stream_missing: true
        }
    );
    let late = [
        AttemptEvent::Came { has_attempt: false },
        AttemptEvent::Late,
    ];
    assert_eq!(drive(&late).1, AttemptAction::GiveUp);
    let failed = [
        came,
        judged(StartedStep::Aggregate, false, false),
        AttemptEvent::NotAggregated,
        AttemptEvent::Settled { retry: false },
    ];
    assert_eq!(drive(&failed).1, AttemptAction::GiveUp);
}

#[test]
fn endpoint_attempts_are_recorded_as_they_go() {
    let target = |path: &'static str| EndpointTarget {
        protocol_label: "openai",
        display_url: "http://shown",
        path,
        body_len: 12,
    };
    let mut metadata = Metadata::new();
    metadata.set("method", "POST");
    let first = first_endpoint_attempt(
        "r-1".to_owned(),
        1,
        5,
        &metadata,
        None,
        UpstreamEndpointProtocol::OpenAi,
        target("/v1/a"),
    );
    assert!(first
        .request_metadata
        .reads("upstream_endpoint_base_url", "http://shown"));
    assert!(first.request_metadata.reads("path", "/v1/a"));
    let next = next_endpoint_attempt(
        &first,
        "r-2".to_owned(),
        2,
        6,
        endpoint("http://b"),
        Some(target("/v1/b")),
    );
    assert_eq!(next.attempt_number, 2);
    assert!(next
        .request_metadata
        .reads("upstream_endpoint_base_url", "http://b"));
    assert!(next
        .request_metadata
        .reads("upstream_failover_selected", "true"));
    assert!(next.request_metadata.reads("method", "POST"));
    let unsent = next_endpoint_attempt(&first, "r-3".to_owned(), 3, 7, endpoint("http://c"), None);
    assert_eq!(unsent.request_metadata.len(), 1);
}

#[test]
fn responses_go_to_the_client_in_their_way() {
    let metadata = MetadataConfig {
        discovery_enabled: true,
        enrich_responses: true,
    };
    let adapter = Some(BufferedResponseAdapter::HeterogeneousReranker);
    assert_eq!(
        dispatch_response(true, adapter, "GET", "/v1/models", metadata, false),
        ResponseDispatch::Rewritten
    );
    assert_eq!(
        dispatch_response(false, adapter, "GET", "/v1/models", metadata, false),
        ResponseDispatch::Adapt(BufferedResponseAdapter::HeterogeneousReranker)
    );
    assert_eq!(
        dispatch_response(false, None, "GET", "/v1/models", metadata, false),
        ResponseDispatch::BufferModels
    );
    assert_eq!(
        dispatch_response(false, None, "POST", "/v1/models", metadata, true),
        ResponseDispatch::Stream
    );
}

#[test]
fn unknown_requests_are_told() {
    let told = |answer: Result<Json, ErrorResponse>| {
        let refusal = answer.err().expect("a refusal");
        (
            refusal.status,
            String::from_utf8(refusal.body).expect("text"),
        )
    };
    let (status, body) = told(live_request_answer(None, None));
    assert_eq!(status, 404);
    assert!(body.contains("request id not provided"));
    let (status, body) = told(live_request_answer(Some("r"), None));
    assert_eq!(status, 404);
    assert!(body.contains("no active request with that id"));
    let (status, body) = told(debug_summary_answer(5, &Err("locked".to_owned())));
    assert_eq!(status, 500);
    assert!(body.contains("debug_summary_failed"));
    let empty = debug_summary_answer(5, &Ok(Vec::new())).ok().expect("an answer");
    assert_eq!(empty.get_u64("limit"), Some(5));
    assert_eq!(empty.get_u64("request_count"), Some(0));
}
