//! Workflows, lists of models, bodies, records, evidence and endpoints.

use std::collections::hash_map::DefaultHasher;
use std::hash::{Hash, Hasher};

use llm_guard_proxy::admission::InFlightLimiter;
use llm_guard_proxy::bodies::{
    heartbeat_chunk, json_whitespace_heartbeat, sse_error_frame, sse_final_frame, BodyCompletion,
    BodyEvent, BodyTally, BufferedBody, BufferedStep, DirectEvent, LivenessBody, LivenessStep, RecordOnce,
    ShieldedAcceptedResponseMode, TOKEN_USAGE_BODY_CAP,
};
use llm_guard_proxy::errors::ProxyError;
use llm_guard_proxy::evidence::{
    attempt_shown_to_downstream, evidence_attempt_from_observability, record_evidence_many,
    EvidenceAttemptStatus, ShadowSkipReason,
};
use llm_guard_proxy::failover::{
    endpoint_disposition, finalize_sent_upstream_response, is_retryable_endpoint_result,
    marks_endpoint_unhealthy, retry_reason_for_endpoint_result, shielded_endpoint_retry_order,
    upstream_timeout_within_deadline, EndpointResult, FailoverRun, FailoverStep,
    ObservedEndpointResponse, PhysicalEndpointAttempt, UpstreamEndpointConfig,
    UpstreamEndpointProtocol,
};
use llm_guard_proxy::failures::{ReqwestFailureKind, UpstreamFailureCounters};
use llm_guard_proxy::fingerprint::{chat_input_fingerprint, is_sensitive_fingerprint_key};
use llm_guard_proxy::headers::Headers;
use llm_guard_proxy::json::{parse_json, render_json, Json};
use llm_guard_proxy::liveness::ShieldedLivenessMode;
use llm_guard_proxy::metadata::Metadata;
use llm_guard_proxy::models::{
    copy_endpoint_selection_metadata, max_attempts_of, merges_models, models_selection_error,
    record_models_fetch, CompletedModelsFetch, ModelsEndpoint, ModelsRun,
};
use llm_guard_proxy::forwarding::EndpointSelectionError;
use llm_guard_proxy::observations::{
    failed_request_terminal_reason, queued_cancel_record, request_cleanup_log_line,
    FinalAttemptContext, ForwardedResponseParts, ShieldedAttemptProgress,
};
use llm_guard_proxy::records::{
    AttemptRecord, AttemptStatus, DownstreamMode, RawPayloads, RequestStatus, TokenUsage,
    UpstreamMode,
};
use llm_guard_proxy::retry::ShieldedRetryCause;
use llm_guard_proxy::shadow::{
    build_shadow_skipped_record, fnv_hash_of, identify_shadow_attempt, paired_sample_matches,
    paired_sample_threshold, schedule_shadow_attempt, shadow_attempt_id_text, shadow_continuation_applies, SampleRate,
    ShadowEvidenceState, ShadowLimits, ShadowStep,
};
use llm_guard_proxy::shadow_runs::{
    append_shadow_chunk, comparison_is_planned, comparison_salvage_hint, end_shadow_continuation,
    paired_comparison_applies, shadow_plans_step, PairedComparisonSettings, ShadowEnd, ShadowPlansStep, ShadowStatusLabels,
};
use llm_guard_proxy::sse_progress::{sse_content_progress, SseProgress};
use llm_guard_proxy::thinking::ShadowComparisonAttempt;
use llm_guard_proxy::token_usage::parse_token_usage;
use llm_guard_proxy::workflows::{
    apply_post_response_guard, apply_pre_request_guard, guard_call,
    guard_outcome_after_workflow_task,
    pre_request_guard_messages, record_workflow_alias_success, replace_chat_messages,
    response_to_guard, safe_refusal_response_body, start_workflow_execution,
    unconfigured_workflow, workflow_alias_chat_completion_body, workflow_alias_content_from_result,
    workflow_alias_for_model, workflow_alias_invocation, workflow_alias_output, GuardOutcome,
    GuardedBodies, GwpDecision, GwpHook, GwpResult, GwpTraceMode, ModelAlias,
    ResolvedWorkflowAlias, WorkflowExecutionTaskError,
};

fn json(text: &str) -> Json {
    parse_json(text.as_bytes()).expect("JSON")
}

fn value(bytes: &[u8]) -> serde_json::Value {
    serde_json::from_slice(bytes).expect("JSON")
}

fn attempt(number: u32, status: AttemptStatus) -> AttemptRecord {
    AttemptRecord {
        attempt_id: format!("r-{number}"),
        request_id: "r".to_owned(),
        attempt_number: number,
        started_at_unix_ms: 1,
        finished_at_unix_ms: Some(2),
        upstream_mode: UpstreamMode::Streaming,
        status,
        http_status: Some(200),
        error_reason: None,
        retry_reason: None,
        abort_reason: None,
        token_usage: TokenUsage::default(),
        request_metadata: Metadata::new(),
        response_metadata: Metadata::new(),
        raw_payloads: RawPayloads::none(),
    }
}

fn context(number: u32) -> FinalAttemptContext {
    FinalAttemptContext {
        attempt_id: format!("r-{number}"),
        attempt_number: number,
        attempt_max_attempts: 1,
        started_at_unix_ms: 1,
        upstream_mode: UpstreamMode::NonStreamJson,
        upstream_status: 200,
        upstream_headers: Headers::new(),
        request_metadata: Metadata::new(),
        extra_response_metadata: Metadata::new(),
        raw_payloads: RawPayloads::none(),
        response_body: Vec::new(),
        sse_body: Vec::new(),
    }
}

fn physical(number: u32) -> PhysicalEndpointAttempt {
    PhysicalEndpointAttempt {
        attempt_id: format!("r-{number}"),
        attempt_number: number,
        started_at_unix_ms: 1,
        request_metadata: Metadata::new(),
        endpoint: None,
        protocol: UpstreamEndpointProtocol::OpenAi,
        observed_response: None,
    }
}

fn response(status: u16) -> EndpointResult {
    EndpointResult::Response(ObservedEndpointResponse {
        status,
        headers: Headers::new(),
    })
}

#[test]
fn guards_fail_open_or_closed() {
    let failed = || {
        Err(WorkflowExecutionTaskError::AtCapacity {
            max_in_flight_executions: 2,
        })
    };
    assert!(matches!(
        guard_outcome_after_workflow_task(failed(), false),
        GuardOutcome::Allow
    ));
    match guard_outcome_after_workflow_task(failed(), true) {
        GuardOutcome::Block { reason } => assert_eq!(
            reason,
            "workflow execution capacity exhausted (max_in_flight_executions=2)"
        ),
        _ => panic!("it blocks"),
    }
    assert_eq!(
        WorkflowExecutionTaskError::WorkerFailed("gone".to_owned()).message(),
        "workflow worker failed: gone"
    );
}

#[test]
fn guards_change_requests() {
    let path = "/v1/chat/completions";
    let body = br#"{"messages":[{"role":"user"}],"model":"m"}"#;
    assert_eq!(
        pre_request_guard_messages("POST", path, true, body).map(|m| m.len()),
        Some(1)
    );
    assert!(pre_request_guard_messages("POST", path, false, body).is_none());
    assert!(pre_request_guard_messages("POST", path, true, b"{}").is_none());
    let bodies = || GuardedBodies {
        downstream_body: body.to_vec(),
        upstream_body: body.to_vec(),
    };
    let replaced = apply_pre_request_guard(
        GuardOutcome::Replace {
            messages: vec![json(r#""hello""#)],
        },
        bodies(),
    )
    .ok()
    .expect("replaced");
    assert_eq!(
        value(&replaced.upstream_body)["messages"][0],
        "hello"
    );
    let blocked = apply_pre_request_guard(
        GuardOutcome::Block {
            reason: "no".to_owned(),
        },
        bodies(),
    )
    .err()
    .expect("blocked");
    assert_eq!(blocked.status(), 403);
    let error = replace_chat_messages(b"[]", &Vec::new())
        .err()
        .expect("no object");
    assert!(error
        .message()
        .ends_with("guard could not rewrite a non-object request body"));
}

#[test]
fn refusals_refuse() {
    let original = json(
        r#"{"id":"x","choices":[{"index":0,"message":{"content":"bad","tool_calls":[1]},"finish_reason":"stop"},{"index":1}]}"#,
    );
    let refusal = value(&safe_refusal_response_body(&original, "policy"));
    assert_eq!(refusal["id"], "x");
    assert_eq!(
        refusal["choices"][0]["message"]["content"],
        "I can't help with that request."
    );
    assert_eq!(refusal["choices"][0]["message"]["refusal"], "policy");
    assert!(refusal["choices"][0]["message"].get("tool_calls").is_none());
    assert_eq!(refusal["choices"][0]["finish_reason"], "content_filter");
    assert_eq!(refusal["choices"][1]["index"], 1);
    let plain = value(&safe_refusal_response_body(&json("[]"), "policy"));
    assert_eq!(plain["id"], "chatcmpl-guard-refusal");
    let keyed = value(&safe_refusal_response_body(
        &json(r#"{"choices":{"0":{"message":{}}}}"#),
        "policy",
    ));
    assert_eq!(keyed["choices"]["0"]["message"]["refusal"], "policy");
}

#[test]
fn guards_change_responses() {
    let mut metadata = Metadata::new();
    let replaced = apply_post_response_guard(
        GuardOutcome::Replace {
            messages: vec![json(r#"{"a":1}"#)],
        },
        &json("{}"),
        &mut metadata,
    )
    .expect("replaced");
    assert_eq!(replaced.body, br#"{"a":1}"#);
    assert_eq!(
        replaced.sse_body,
        b"data: {\"a\":1}\n\ndata: [DONE]\n\n".to_vec()
    );
    assert!(metadata.reads("guard_post_response_replaced", "true"));
    let mut metadata = Metadata::new();
    assert!(
        apply_post_response_guard(GuardOutcome::Skipped, &json("{}"), &mut metadata).is_none()
    );
    let answer = br#"{"id":1}"#.to_vec();
    let guarded = response_to_guard(true, &answer).expect("a guard and JSON");
    assert_eq!(render_json(&guarded).as_bytes(), &answer[..]);
    assert!(response_to_guard(false, &answer).is_none());
    assert!(response_to_guard(true, &b"{".to_vec()).is_none());
    assert!(metadata.is_empty());
}

#[test]
fn workflows_answer_for_models() {
    let alias = || ResolvedWorkflowAlias {
        workflow_id: "w".to_owned(),
        timeout_ms: 9,
    };
    assert!(matches!(
        workflow_alias_for_model(Some("m"), Some(Ok(ModelAlias::Workflow(alias())))),
        Ok(Some(_))
    ));
    assert!(matches!(
        workflow_alias_for_model(Some(" "), Some(Err("x".to_owned()))),
        Ok(None)
    ));
    assert!(workflow_alias_for_model(Some("m"), Some(Err("x".to_owned()))).is_err());
    assert!(unconfigured_workflow("a\"b")
        .message()
        .ends_with("workflow alias references unconfigured workflow \"a\\\"b\""));

    let result = |decision, messages: Option<Vec<Json>>| GwpResult {
        decision,
        summary: "why".to_owned(),
        replacement_messages: messages,
    };
    let content = workflow_alias_content_from_result(
        "w",
        result(
            GwpDecision::Replace,
            Some(vec![json("3"), json(r#""""#), json(r#"{"content":"yes"}"#)]),
        ),
    );
    assert_eq!(content.ok().as_deref(), Some("yes"));
    for (decision, expected) in [
        (
            GwpDecision::Replace,
            "workflow alias \"w\" returned replace without assistant content",
        ),
        (GwpDecision::Block, "why"),
        (
            GwpDecision::Allow,
            "workflow alias \"w\" did not return replacement content: why",
        ),
        (
            GwpDecision::ErrorFailClosed,
            "workflow alias \"w\" failed closed: why",
        ),
    ] {
        let error = workflow_alias_content_from_result("w", result(decision, None))
            .err()
            .expect("no content");
        assert!(error.message().ends_with(expected), "{}", error.message());
    }
    let body = workflow_alias_chat_completion_body("r", 5, "m", "yes");
    let body = value(body.as_bytes());
    assert_eq!(body["id"], "chatcmpl-r");
    assert_eq!(body["choices"][0]["message"]["content"], "yes");
    assert_eq!(body["usage"]["total_tokens"], 0);
    let record =
        record_workflow_alias_success("r", 1, 5, "m", &alias(), Metadata::new(), 10);
    assert_eq!(record.status, RequestStatus::Succeeded);
    assert!(record.request_metadata.reads("workflow_timeout_ms", "9"));
}

fn fetch(number: u32, status: u16) -> CompletedModelsFetch {
    CompletedModelsFetch {
        body: format!("body-{number}").into_bytes(),
        completed_attempt_records: Vec::new(),
        attempt_record: attempt(number, AttemptStatus::Succeeded),
        upstream_status: status,
        upstream_headers: Headers::new(),
        upstream_mode: UpstreamMode::NonStreamJson,
    }
}

fn endpoint(url: &str, key: Option<&str>) -> ModelsEndpoint {
    ModelsEndpoint {
        base_url: url.to_owned(),
        protocol: UpstreamEndpointProtocol::OpenAi,
        api_key_env: key.map(str::to_owned),
    }
}

#[test]
fn models_are_put_together() {
    assert!(merges_models("GET", "/v1/models", 2));
    assert!(!merges_models("GET", "/v1/models", 1));
    let mut run = ModelsRun::new();
    assert_eq!(run.begin_fetch(&endpoint("http://a", None)), Some(1));
    run.record_fetch(endpoint("http://a", None), fetch(1, 503));
    assert_eq!(run.begin_fetch(&endpoint("http://a", None)), None);
    assert_eq!(run.begin_fetch(&endpoint("http://a", Some("KEY"))), Some(2));
    run.record_fetch(endpoint("http://a", Some("KEY")), fetch(4, 200));
    assert_eq!(run.begin_fetch(&endpoint("http://b", None)), Some(5));
    assert_eq!(run.bodies().len(), 2);
    let merged = run.finish(false);
    assert_eq!(merged.status, 503);
    assert_eq!(merged.attempt_max_attempts, 2);
    assert_eq!(merged.attempt_records.len(), 2);
    let mut run = ModelsRun::new();
    run.record_fetch(endpoint("http://a", None), fetch(1, 503));
    assert_eq!(run.finish(true).status, 200);
    let mut run = ModelsRun::new();
    run.record_fetch(endpoint("http://a", None), fetch(1, 503));
    let error = run.fail(
        ProxyError::upstream_body("x".to_owned())
            .with_observability(Metadata::new(), attempt(2, AttemptStatus::Failed)),
    );
    assert_eq!(error.attempt_records().len(), 2);
    assert_eq!(max_attempts_of(0), 1);
    let refused = models_selection_error(EndpointSelectionError::Incompatible {
        profile: "gpu".to_owned(),
    });
    assert_eq!(
        refused.message(),
        "no OpenAI-compatible model discovery endpoint for profile gpu"
    );
    let record = record_models_fetch(context(3), "r", 12, 9);
    assert!(record.response_metadata.reads("attempt_max_attempts", "3"));
    let mut source = Metadata::new();
    source.set("upstream_endpoint_priority", "primary");
    source.set("other", "x");
    let mut copied = Metadata::new();
    copy_endpoint_selection_metadata(&source, &mut copied);
    assert_eq!(copied.len(), 1);
}

#[test]
fn workflows_run_while_there_is_a_place() {
    let mut limiter = InFlightLimiter::new();
    assert!(start_workflow_execution(&mut limiter, 1).is_ok());
    let full = start_workflow_execution(&mut limiter, 1).expect_err("one place");
    assert_eq!(
        full.message(),
        "workflow execution capacity exhausted (max_in_flight_executions=1)"
    );
    assert_eq!(
        workflow_alias_output("w", Err(full)).expect_err("not run").message(),
        "guard workflow blocked request: workflow execution capacity exhausted (max_in_flight_executions=1)"
    );
    limiter.release();
    assert!(start_workflow_execution(&mut limiter, 1).is_ok());
    let missing = workflow_alias_output("w", Ok(None)).expect_err("not configured");
    assert_eq!(
        missing.message(),
        "guard workflow blocked request: \
         workflow alias references unconfigured workflow \"w\""
    );
    let answered = GwpResult {
        decision: GwpDecision::Replace,
        summary: String::new(),
        replacement_messages: Some(vec![json(r#"{"content":"done"}"#)]),
    };
    assert_eq!(
        workflow_alias_output("w", Ok(Some(answered))).ok().as_deref(),
        Some("done")
    );
}

#[test]
fn bodies_leave_one_record() {
    let mut once = RecordOnce::new();
    assert!(once.on_event(BodyEvent::Chunk).is_none());
    assert!(matches!(
        once.on_event(BodyEvent::End),
        Some(BodyCompletion::Succeeded)
    ));
    assert!(once.on_event(BodyEvent::Dropped).is_none());
    assert_eq!(
        BodyCompletion::Shutdown.abort_reason().as_deref(),
        Some("server_shutdown")
    );
    assert_eq!(
        BodyCompletion::DownstreamDropped.request_status(),
        RequestStatus::Aborted
    );
    let mut tally = BodyTally::new();
    tally.note_chunk(&vec![1; TOKEN_USAGE_BODY_CAP]);
    tally.note_chunk(&[2, 3]);
    assert_eq!(tally.bytes_seen, TOKEN_USAGE_BODY_CAP as u64 + 2);
    assert!(tally.kept.len() <= TOKEN_USAGE_BODY_CAP);
}

#[test]
fn bodies_that_are_held_whole_are_emitted_once() {
    let mut body = BufferedBody::new(b"whole".to_vec(), BodyCompletion::Succeeded);
    match body.poll(true) {
        BufferedStep::Emit { body, record } => {
            assert_eq!(body, b"whole");
            assert!(matches!(record, Some(BodyCompletion::Succeeded)));
        }
        BufferedStep::End { .. } => panic!("the body comes first"),
    }
    assert_eq!(body.bytes_seen, 5);
    assert!(matches!(
        body.poll(true),
        BufferedStep::End { record: None }
    ));
    let (rest, record) = body.on_drop();
    assert!(rest.is_empty());
    assert!(record.is_none());

    let mut empty = BufferedBody::new(Vec::new(), BodyCompletion::Succeeded);
    assert!(matches!(
        empty.poll(true),
        BufferedStep::End {
            record: Some(BodyCompletion::Shutdown)
        }
    ));
    let terminal = BodyCompletion::FinalDirectRelayTerminated;
    let mut empty = BufferedBody::new(Vec::new(), terminal);
    assert!(matches!(
        empty.poll(false),
        BufferedStep::End {
            record: Some(BodyCompletion::FinalDirectRelayTerminated)
        }
    ));
    let mut unread = BufferedBody::new(b"unread".to_vec(), BodyCompletion::Succeeded);
    let (rest, record) = unread.on_drop();
    assert_eq!(rest, b"unread");
    assert!(matches!(record, Some(BodyCompletion::DownstreamDropped)));
    assert_eq!(unread.bytes_seen, 0);
}

#[test]
fn waiting_bodies_are_framed() {
    assert_eq!(
        heartbeat_chunk(ShieldedLivenessMode::Sse),
        b": llm-guard-proxy heartbeat\n\n"
    );
    assert_eq!(json_whitespace_heartbeat(), b" \n");
    assert_eq!(
        sse_final_frame(&b"{}".to_vec()),
        b"event: final\ndata: {}\n\n".to_vec()
    );
    assert_eq!(
        sse_error_frame(&b"{}".to_vec()),
        b"event: error\ndata: {}\n\n".to_vec()
    );
    let mut body = LivenessBody::new(
        ShieldedLivenessMode::JsonWhitespace,
        ShieldedAcceptedResponseMode::JsonCompletion,
    );
    assert!(matches!(body.before_poll(false), LivenessStep::Emit(_)));
    let chunk = body.on_accepted(&b"{}".to_vec(), &b"sse".to_vec());
    assert!(chunk.ends_with(b"{}"));
    let mut stream = LivenessBody::new(
        ShieldedLivenessMode::Sse,
        ShieldedAcceptedResponseMode::OpenAiSse,
    );
    let mut counters = UpstreamFailureCounters::new();
    assert!(matches!(
        stream.on_direct_relay(None, &mut counters),
        LivenessStep::Emit(_)
    ));
    assert_eq!(counters.snapshot().timeout, 1);
    let mut relayed = LivenessBody::new(
        ShieldedLivenessMode::Sse,
        ShieldedAcceptedResponseMode::OpenAiSse,
    );
    relayed.on_direct_relay(Some(10), &mut counters);
    assert!(matches!(
        relayed.on_direct_event(DirectEvent::Chunk(b"x".to_vec()), &mut counters),
        LivenessStep::Emit(_)
    ));
    relayed.on_direct_event(
        DirectEvent::Failed(ReqwestFailureKind::Connect),
        &mut counters,
    );
    assert_eq!(counters.snapshot().connect_failed, 1);
}

#[test]
fn usage_is_read_from_bodies() {
    let usage = parse_token_usage(
        br#"{"usage":{"prompt_tokens":3,"completion_tokens":4}}"#,
        b"",
    );
    assert_eq!(usage.input_tokens, Some(3));
    assert_eq!(usage.output_tokens, Some(4));
    let streamed = parse_token_usage(
        b"",
        b"data: {\"choices\":[]}\r\n\ndata: {\"usage\":{\"completion_tokens\":9}}\n\ndata: [DONE]\n\n",
    );
    assert_eq!(streamed.output_tokens, Some(9));
    assert_eq!(sse_content_progress(b": ping\n"), 0);
    let mut stream = SseProgress::new();
    let event = b"data: {\"choices\":[{\"delta\":{\"content\":\"x\"}}]}\n\n";
    let (first, second) = event.split_at(10);
    assert_eq!(stream.record_sse_content_progress(first), 0);
    assert_eq!(stream.record_sse_content_progress(second), 1);
}

#[test]
fn responses_are_observed_to_their_end() {
    let parts = ForwardedResponseParts {
        request_id: "r".to_owned(),
        started_at_unix_ms: 100,
        attempt_id: "r-1".to_owned(),
        attempt_number: 1,
        attempt_max_attempts: 2,
        attempt_started_at_unix_ms: 150,
        upstream_mode: UpstreamMode::NonStreamJson,
        model_id: Some("m".to_owned()),
        input_fingerprint: None,
        upstream_status: 200,
        upstream_headers: Headers::new(),
        request_metadata: Metadata::new(),
        attempt_request_metadata: Metadata::new(),
        completed_attempt_records: Vec::new(),
    };
    let observer = parts.into_observer();
    assert_eq!(observer.downstream_mode, DownstreamMode::NonStreamJson);
    assert!(observer
        .ended_events(&None, &BodyCompletion::Shutdown)
        .is_empty());
    let mut cut_off = context(2);
    cut_off.sse_body = b"data: x".to_vec();
    let progress = Some(ShieldedAttemptProgress {
        extra_response_metadata: Metadata::new(),
        completed_attempt_records: Vec::new(),
        current_attempt: Some(cut_off),
    });
    let events = |completion| observer.ended_events(&progress, &completion);
    assert_eq!(events(BodyCompletion::Shutdown), b"data: x");
    assert_eq!(events(BodyCompletion::DownstreamDropped), b"data: x");
    assert!(events(BodyCompletion::Succeeded).is_empty());
    let body = br#"{"usage":{"completion_tokens":2}}"#.to_vec();
    let (request, attempts) = observer.record(None, 400, 33, &BodyCompletion::Succeeded, &body);
    assert_eq!(request.status, RequestStatus::Succeeded);
    assert!(request.response_metadata.reads("latency_ms", "300"));
    assert_eq!(attempts.len(), 1);
    assert_eq!(attempts[0].token_usage.output_tokens, Some(2));
    assert_eq!(
        request_cleanup_log_line(&request, "succeeded", 7, "json", "json", true),
        "llm_guard_proxy_request_cleanup request_id=r status=succeeded terminal_reason=succeeded cleanup_latency_ms=7 http_status=200 downstream_mode=json upstream_mode=json evidence_written=true"
    );
    assert_eq!(
        failed_request_terminal_reason(
            RequestStatus::Aborted,
            Some("server_shutdown_while_queued")
        ),
        "server_shutdown"
    );
    let cancelled = queued_cancel_record("r".to_owned(), 1, 5, 4, 10, Metadata::new());
    assert_eq!(cancelled.status, RequestStatus::Aborted);
    assert!(attempt_shown_to_downstream(
        &request,
        &attempt(1, AttemptStatus::Succeeded)
    ));
    let evidence = evidence_attempt_from_observability(
        "g",
        &request,
        &attempt(1, AttemptStatus::Retried),
    );
    assert!(!evidence.shown_to_downstream);
    assert_eq!(evidence.status, EvidenceAttemptStatus::Rejected);

    let mut shadows = ShadowEvidenceState::new();
    shadows.push_record(build_shadow_skipped_record(
        "r",
        &attempt(1, AttemptStatus::Retried),
        None,
        ShadowSkipReason::GlobalLimit,
        "global_limit",
        5,
        false,
    ));
    let attempts = vec![
        attempt(1, AttemptStatus::Retried),
        attempt(2, AttemptStatus::Succeeded),
    ];
    assert!(record_evidence_many(false, &request, &attempts, &shadows.snapshot()).is_none());
    let Some((group, records)) =
        record_evidence_many(true, &request, &attempts, &shadows.snapshot())
    else {
        panic!("evidence is collected");
    };
    assert_eq!(group.group_id, request.request_id);
    assert_eq!(group.status, request.status.as_str());
    assert_eq!(
        records
            .iter()
            .map(|record| record.status)
            .collect::<Vec<_>>(),
        vec![
            EvidenceAttemptStatus::Rejected,
            EvidenceAttemptStatus::Accepted,
            EvidenceAttemptStatus::Skipped,
        ]
    );
    assert_eq!(records[2].attempt_id, "r-shadow-1-skipped");
    assert!(!records[2].shown_to_downstream);
}

#[test]
fn fingerprints_ignore_delivery_and_secrets() {
    let plain = chat_input_fingerprint(br#"{"messages":[{"content":"hi"}],"stream":false}"#);
    assert!(plain.is_some());
    assert_eq!(
        plain,
        chat_input_fingerprint(br#"{"stream":true,"messages":[{"content":"hi"}]}"#)
    );
    assert_ne!(
        plain,
        chat_input_fingerprint(br#"{"messages":[{"content":"ho"}],"stream":false}"#)
    );
    assert_eq!(
        chat_input_fingerprint(br#"{"messages":[{"content":"hi","api_key":"one"}]}"#),
        chat_input_fingerprint(br#"{"messages":[{"content":"hi","api_key":"two"}]}"#)
    );
    let mut hasher = DefaultHasher::new();
    br#"{"messages":[{"content":"hi"}]}"#.to_vec().hash(&mut hasher);
    assert_eq!(plain, Some(format!("siphash64:{:016x}", hasher.finish())));
    assert_eq!(chat_input_fingerprint(b"nonsense"), None);
    assert!(is_sensitive_fingerprint_key("X-Api-Key"));
    assert!(!is_sensitive_fingerprint_key("max_tokens"));
}

#[test]
fn shadow_attempts_stay_within_limits() {
    let mut limiter = InFlightLimiter::new();
    let mut state = ShadowEvidenceState::new();
    let limits = ShadowLimits {
        max_global_in_flight: 2,
        max_per_request: 1,
    };
    assert_eq!(
        schedule_shadow_attempt(&mut limiter, &mut state, limits, false, false),
        ShadowStep::Run { sequence: 1 }
    );
    assert_eq!(
        schedule_shadow_attempt(&mut limiter, &mut state, limits, false, false),
        ShadowStep::Skip(ShadowSkipReason::PerRequestLimit)
    );
    assert_eq!(limiter.snapshot_counts().active, 1);
    let running = ShadowStep::Run { sequence: 1 };
    assert_eq!(identify_shadow_attempt(&mut limiter, running, true), running);
    assert_eq!(limiter.snapshot_counts().active, 1);
    assert_eq!(
        identify_shadow_attempt(&mut limiter, running, false),
        ShadowStep::Skip(ShadowSkipReason::ContinuationUnavailable)
    );
    assert_eq!(limiter.snapshot_counts().active, 0);
    assert_eq!(
        schedule_shadow_attempt(&mut limiter, &mut state, limits, true, false),
        ShadowStep::Ignore
    );
    assert!(limiter.try_acquire(1));
    let full = ShadowLimits {
        max_global_in_flight: 1,
        max_per_request: 9,
    };
    assert_eq!(
        schedule_shadow_attempt(&mut limiter, &mut state, full, false, false),
        ShadowStep::Skip(ShadowSkipReason::GlobalLimit)
    );
    assert!(shadow_continuation_applies(
        false,
        Some(ShieldedRetryCause::LoopDetected),
        true,
        true
    ));
    assert_eq!(shadow_plans_step(0, 0), ShadowPlansStep::Nothing);
    assert_eq!(
        shadow_plans_step(1, 0),
        ShadowPlansStep::Skip(ShadowSkipReason::PerRequestLimit)
    );
    assert!(comparison_is_planned(
        ShadowComparisonAttempt::CotSalvage,
        false,
        Some("thought")
    ));
    assert!(!comparison_is_planned(
        ShadowComparisonAttempt::CotSalvage,
        true,
        Some("thought")
    ));
    assert_eq!(shadow_attempt_id_text("r", 2, 3), "r-shadow-2-3");
    let skipped = build_shadow_skipped_record(
        "r",
        &attempt(1, AttemptStatus::Retried),
        None,
        ShadowSkipReason::GlobalLimit,
        "global_limit",
        100,
        false,
    );
    assert_eq!(skipped.attempt_id, "r-shadow-1-skipped");
    assert!(skipped
        .response_metadata
        .reads("shadow_skip_reason", "global_limit"));
}

#[test]
fn samples_are_drawn_by_hash() {
    assert_eq!(fnv_hash_of(b""), 0xcbf2_9ce4_8422_2325);
    assert_eq!(fnv_hash_of(b"a"), 0xaf63_dc4c_8601_ec8c);
    assert_eq!(paired_sample_threshold("0.250000"), 250_000);
    assert_eq!(paired_sample_threshold("1.000000"), 1_000_000);
    assert_eq!(paired_sample_threshold("nan"), 0);
    assert!(paired_sample_matches("r", SampleRate::Everything, "1.000000"));
    assert!(!paired_sample_matches("r", SampleRate::Nothing, "0.000000"));
    let expected = fnv_hash_of(b"r") % 1_000_000 < 500_000;
    assert_eq!(
        paired_sample_matches("r", SampleRate::Part, "0.500000"),
        expected
    );
    let settings = PairedComparisonSettings {
        evidence_enabled: true,
        paired_enabled: true,
        rate: SampleRate::Everything,
        variant_count: 1,
    };
    assert!(paired_comparison_applies(false, settings, "r", "1.000000"));
    assert!(!paired_comparison_applies(true, settings, "r", "1.000000"));
}

#[test]
fn failed_shadows_have_reasons() {
    let labels = ShadowStatusLabels {
        accepted: "accepted".to_owned(),
        failed: "failed".to_owned(),
        aborted: "aborted".to_owned(),
        timed_out: "shadow_timeout".to_owned(),
    };
    let input = end_shadow_continuation(ShadowEnd::TimedOut, &labels, 1, 2);
    assert_eq!(input.abort_reason.as_deref(), Some("shadow_timeout"));
    assert_eq!(input.status_label, "shadow_timeout");
    let input = end_shadow_continuation(
        ShadowEnd::Body {
            status: 418,
            headers: Headers::new(),
            body: b"tea".to_vec(),
        },
        &labels,
        1,
        2,
    );
    assert_eq!(
        input.error_reason.as_deref(),
        Some("shadow continuation HTTP 418")
    );
    assert_eq!(input.raw_payloads.output.as_deref(), Some("tea"));
    let input = end_shadow_continuation(ShadowEnd::Shutdown, &labels, 1, 2);
    assert!(input
        .response_metadata
        .reads("abort_reason", "server_shutdown"));
    let mut body = Vec::new();
    assert!(append_shadow_chunk(&mut body, &vec![1, 2]).is_ok());
    assert_eq!(body, vec![1, 2]);
}

#[test]
fn endpoints_are_tried_in_turn() {
    let protocol = UpstreamEndpointProtocol::OpenAi;
    assert!(is_retryable_endpoint_result(&response(503), protocol, &None));
    assert!(!is_retryable_endpoint_result(&response(401), protocol, &None));
    assert!(is_retryable_endpoint_result(
        &response(401),
        UpstreamEndpointProtocol::DeepInfraQwen3Rerank,
        &None
    ));
    assert_eq!(endpoint_disposition(&response(200), protocol, &None), "success");
    assert_eq!(
        retry_reason_for_endpoint_result(&response(503)),
        "endpoint_http_503"
    );
    let mut run = FailoverRun::new("http://a", 2);
    assert_eq!(
        run.after_result(&physical(1), &response(503)),
        FailoverStep::SelectNext
    );
    let (left, number) = run.go_on(&physical(1), &response(503), "http://b", "r", 9);
    assert_eq!((left, number), (1, 2));
    assert_eq!(
        run.completed_attempt_records[0].error_reason.as_deref(),
        Some("upstream HTTP 503 Service Unavailable selected for failover")
    );
    assert_eq!(
        run.after_result(&physical(2), &response(503)),
        FailoverStep::Keep
    );
    let sent = finalize_sent_upstream_response(
        response(200),
        physical(2),
        run.completed_attempt_records,
        "r",
        &Metadata::new(),
        10,
    )
    .ok()
    .expect("an answer");
    assert!(sent.did_failover);
    let failed = finalize_sent_upstream_response(
        EndpointResult::Failed(ProxyError::upstream_transport(ReqwestFailureKind::Timeout)),
        physical(1),
        Vec::new(),
        "r",
        &Metadata::new(),
        10,
    )
    .err()
    .expect("no answer");
    assert_eq!(failed.attempt_records().len(), 1);
    let order = vec!["http://a".to_owned(), "http://b".to_owned()];
    assert_eq!(
        shielded_endpoint_retry_order("http://b", &order),
        vec!["http://b", "http://a"]
    );
    assert_eq!(
        upstream_timeout_within_deadline(1_000, Some(600), 3).ok(),
        Some(200)
    );
    assert_eq!(upstream_timeout_within_deadline(100, Some(600), 3).ok(), Some(100));
    assert!(upstream_timeout_within_deadline(100, Some(0), 1).is_err());
    assert_eq!(render_json(&json("[1]")), "[1]");
}

#[test]
fn configured_workflows_stand_for_models() {
    let alias = ResolvedWorkflowAlias {
        workflow_id: "w".to_owned(),
        timeout_ms: 9,
    };
    let body = br#"{"model":"m","messages":[{"role":"user"}]}"#;
    let invocation = workflow_alias_invocation(&alias, true, "r", "team", Some("m"), body)
        .ok()
        .expect("configured");
    assert_eq!(invocation.workflow_id, "w");
    assert_eq!(invocation.timeout_ms, 9);
    assert!(matches!(invocation.hook, GwpHook::PreRequestGuard));
    assert_eq!(invocation.request_id, "r");
    assert_eq!(invocation.profile, "team");
    assert_eq!(invocation.model_alias, "m");
    assert_eq!(invocation.messages.len(), 1);
    assert_eq!(render_json(&invocation.messages[0]), r#"{"role":"user"}"#);
    assert_eq!(render_json(&invocation.policy), "null");
    assert_eq!(render_json(&invocation.budgets), r#"{"timeout_ms":9}"#);
    assert!(matches!(invocation.trace_mode, GwpTraceMode::Redacted));
    let bare = workflow_alias_invocation(&alias, true, "r", "team", None, b"{")
        .ok()
        .expect("configured");
    assert_eq!(bare.model_alias, "");
    assert!(bare.messages.is_empty());
    let error = workflow_alias_invocation(&alias, false, "r", "team", Some("m"), body)
        .err()
        .expect("not configured");
    assert_eq!(
        error.message(),
        "guard workflow blocked request: workflow alias references unconfigured workflow \"w\""
    );
}

#[test]
fn kept_responses_leave_endpoints_healthy() {
    let mut attempt = physical(1);
    attempt.endpoint = Some(UpstreamEndpointConfig {
        base_url: "http://a".to_owned(),
        display_url: "http://a".to_owned(),
        protocol: UpstreamEndpointProtocol::OpenAi,
        priority_label: "primary".to_owned(),
        has_credential: false,
        is_passive_cloud: true,
    });
    assert!(!marks_endpoint_unhealthy(&attempt, &response(200)));
    assert!(!marks_endpoint_unhealthy(&attempt, &response(400)));
    assert!(marks_endpoint_unhealthy(&attempt, &response(503)));
    attempt.endpoint = None;
    assert!(!marks_endpoint_unhealthy(&attempt, &response(503)));
}

#[test]
fn comparisons_build_on_reasoning() {
    let hint = comparison_salvage_hint(2, 4, "cot_salvage", Some("so far")).expect("a hint");
    assert_eq!((hint.attempt_number, hint.max_attempts), (3, 4));
    assert_eq!(hint.policy_label, "cot_salvage");
    assert_eq!(hint.reasoning_prefix, "so far");
    assert_eq!(hint.anti_loop_hint, None);
    let last = comparison_salvage_hint(u32::MAX, 4, "cot_salvage", Some("x")).expect("a hint");
    assert_eq!(last.attempt_number, u32::MAX);
    assert!(comparison_salvage_hint(2, 4, "cot_salvage", Some(" \n")).is_none());
    assert!(comparison_salvage_hint(2, 4, "cot_salvage", None).is_none());
}

#[test]
fn guards_are_told_of_requests() {
    let call = guard_call("r", Some("m"), "team");
    assert_eq!(call.request_id, "r");
    assert_eq!(call.model, "m");
    assert_eq!(call.profile, "team");
    assert_eq!(guard_call("r", None, "team").model, "");
}
