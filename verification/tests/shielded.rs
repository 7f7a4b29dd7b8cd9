//! Shielded attempts: policies, failures, retries, and what is recorded of them.

use llm_guard_proxy::attempts::{
    aggregation_failure, attempt_failure_record, bounded_utf8_prefix,
    cot_salvage_context_for_failure, raw_payload_text, request_deadline_shielded_attempt_failure,
    shielded_failure_outcome, should_retry_after_shielded_failure,
    shutdown_shielded_attempt_failure, status_failure, status_failure_without_retry,
    AggregationError, ShieldedAttemptFailure, ShieldedAttemptInfo,
};
use llm_guard_proxy::clock::ShieldedRequestDeadline;
use llm_guard_proxy::errors::ProxyError;
use llm_guard_proxy::failover::{
    ObservedEndpointResponse, SentUpstreamResponse, UpstreamEndpointProtocol,
};
use llm_guard_proxy::failures::{ReqwestFailureKind, UpstreamFailureCounters};
use llm_guard_proxy::headers::Headers;
use llm_guard_proxy::liveness::{
    ShieldedChatKind, ShieldedLivenessMode, ShieldedLivenessSelection,
};
use llm_guard_proxy::metadata::Metadata;
use llm_guard_proxy::observations::{FinalAttemptContext, ShieldedAttemptProgress};
use llm_guard_proxy::records::{AttemptStatus, DownstreamMode, RawPayloads, UpstreamMode};
use llm_guard_proxy::recovery::{
    open_hot_restart_gate, open_stall_recovery_gate, unapplied_local_recovery_gate,
    LocalRecoveryGate,
};
use llm_guard_proxy::repeat_inputs::RepeatInputObservation;
use llm_guard_proxy::responses::{
    observe_accepted, observe_direct_relay, observe_failed, shielded_chat_stream_response_headers, shielded_liveness_stream_response,
    shielded_retry_direct_relay_response, shielded_retry_error_response,
    shielded_retry_success_response, shielded_retry_terminal_forward_response,
    shielded_rewritten_error, start_shielded_attempt, update_shielded_attempt_progress,
    ShieldedAcceptedOutcome, ShieldedAttemptStart, ShieldedRuntime, SuccessResponse,
};
use llm_guard_proxy::retry::{
    attempt_chain_summary, retry_cause_for_upstream_status, DownstreamDropPolicy,
    LoopFailureConfig, RetryConfig, ShieldedRetryCause, ShieldedRetryPolicy,
};
use llm_guard_proxy::shielded_run::{
    aggregation_time_left, answers_when_complete, attempt_hints, attempt_request, detaches,
    lost_detached_outcome, may_wait_for_restart, prepared_as_stream, shielded_attempt_body,
    shielded_attempt_upstream_timeout, should_direct_relay_no_thinking_stream, FailureStep,
    ShieldedRun, StartStep, StartedStep,
};
use llm_guard_proxy::thinking::{
    cot_salvage_thinking, initial_stream_thinking, initial_thinking, LoopFailurePolicy, RetryLadderConfig, ThinkingConfig, ThinkingMode,
};

fn thinking(budget: u32) -> ThinkingConfig {
    ThinkingConfig {
        mode: ThinkingMode::Unchanged,
        enabled: true,
        force_disable: false,
        budget_tokens: budget,
        max_tokens: None,
        preserve_answer_budget: true,
        default_injection_schema: "auto".to_owned(),
    }
}

fn policy(max_attempts: u32, rungs: usize) -> ShieldedRetryPolicy {
    let ladder = (0..rungs)
        .map(|rung| RetryLadderConfig {
            name: format!("rung-{rung}"),
            thinking: thinking(100 * (rung as u32 + 1)),
            effective_mode: ThinkingMode::BoundedThinking,
            default_injection_schema: None,
            anti_loop_hint: Some("stop repeating".to_owned()),
        })
        .collect();
    ShieldedRetryPolicy::from_config(
        &RetryConfig {
            enabled: true,
            max_attempts,
            request_deadline_ms: 60_000,
            anti_loop_hint_enabled: true,
            shielded_streaming_enabled: true,
            downstream_drop_policy: DownstreamDropPolicy::Cancel,
            downstream_drop_policy_label: "cancel".to_owned(),
            ladder,
        },
        &LoopFailureConfig {
            policy: LoopFailurePolicy::TruncateCotThenAnswer,
            label: "truncate_cot_then_answer".to_owned(),
            uses_cot_salvage: true,
        },
    )
}

fn info(number: u32) -> ShieldedAttemptInfo {
    let mut headers = Headers::new();
    headers.set_text("content-type", "text/event-stream");
    ShieldedAttemptInfo {
        attempt_id: format!("r-{number}"),
        request_id: "r".to_owned(),
        attempt_number: number,
        attempt_max_attempts: 3,
        started_at_unix_ms: 1_000,
        upstream_status: 200,
        upstream_headers: headers,
        upstream_mode: UpstreamMode::Streaming,
        request_metadata: Metadata::new(),
        raw_request_body: Some("{}".to_owned()),
        upstream_body: b"{}".to_vec(),
    }
}

fn looped(number: u32) -> ShieldedAttemptFailure {
    let mut metadata = Metadata::new();
    metadata.set("loop_channel", "reasoning");
    aggregation_failure(
        &info(number),
        &AggregationError {
            loop_detected: true,
            upstream_stall: false,
            transient_stream: false,
            message: "loop detected".to_owned(),
            response_metadata: metadata,
            raw_payloads: RawPayloads {
                input: None,
                output: None,
                reasoning: Some("first I think".to_owned()),
            },
        },
        1_500,
    )
}

fn liveness(mode: ShieldedLivenessMode) -> ShieldedLivenessSelection {
    ShieldedLivenessSelection {
        mode,
        configured_mode: ShieldedLivenessMode::Sse,
        heartbeat_interval_secs: 15,
        input_fingerprint: Some("f".to_owned()),
        repeat_observation: RepeatInputObservation {
            repeated: false,
            prior_count: 0,
        },
        repeat_window_secs: 60,
        repeat_max_inputs: 2,
    }
}

fn runtime(mode: ShieldedLivenessMode) -> ShieldedRuntime {
    ShieldedRuntime {
        request_id: "r".to_owned(),
        started_at_unix_ms: 900,
        path: "/v1/chat/completions".to_owned(),
        model_id: Some("m".to_owned()),
        request_metadata: Metadata::new(),
        liveness: liveness(mode),
        retry_policy: policy(3, 0),
    }
}

fn final_attempt() -> FinalAttemptContext {
    info(1).into_final_context(
        Metadata::new(),
        RawPayloads::none(),
        Vec::new(),
        Vec::new(),
    )
}

#[test]
fn attempts_are_bounded_by_policy_and_ladder() {
    assert_eq!(policy(3, 0).max_attempts, 3);
    assert_eq!(policy(3, 2).max_attempts, 2);
    let policy = policy(5, 2);
    assert!(policy.allows_retry_after(1));
    assert!(!policy.allows_retry_after(2));
    let disabled = ShieldedRetryPolicy::disabled(1_000, "cancel", "ladder");
    assert_eq!(disabled.max_attempts, 1);
    assert!(!disabled.allows_retry_after(1));
}

#[test]
fn plans_follow_the_ladder() {
    let policy = policy(3, 2);
    let rung = policy.attempt_plan(2, &thinking(9), None);
    assert_eq!(rung.name, "rung-1");
    assert_eq!(rung.anti_loop_hint.as_deref(), Some("stop repeating"));
    let above = policy.attempt_plan(3, &thinking(9), None);
    assert_eq!(above.name, "attempt-3");
    assert_eq!(above.thinking.budget_tokens, 9);
    let salvage = policy.attempt_plan(3, &thinking(9), Some(LoopFailurePolicy::BoundedAnswerFromCot));
    assert_eq!(salvage.thinking.mode, ThinkingMode::BoundedThinking);
    assert_eq!(salvage.thinking.budget_tokens, 1_024);
    let truncated = cot_salvage_thinking(LoopFailurePolicy::TruncateCotThenAnswer, &thinking(9));
    assert_eq!(truncated.mode, ThinkingMode::ForceDisable);
    assert_eq!(truncated.budget_tokens, 0);
}

#[test]
fn next_reasons_name_the_previous() {
    for cause in [
        ShieldedRetryCause::LoopDetected,
        ShieldedRetryCause::TransientUpstreamStatus,
        ShieldedRetryCause::TransientTransport,
        ShieldedRetryCause::TransientStream,
        ShieldedRetryCause::UpstreamStall,
    ] {
        assert_eq!(
            cause.next_attempt_reason(),
            format!("previous_{}", cause.retry_reason())
        );
    }
    assert_eq!(
        retry_cause_for_upstream_status(503),
        Some(ShieldedRetryCause::TransientUpstreamStatus)
    );
    assert_eq!(retry_cause_for_upstream_status(404), None);
}

#[test]
fn loops_are_retried_and_reasoning_is_salvaged_once() {
    let policy = policy(3, 0);
    let mut run = ShieldedRun::new(1, Vec::new(), true);
    let step = run.after_late_failure(
        &policy,
        looped(1),
        false,
        unapplied_local_recovery_gate(),
        open_stall_recovery_gate(),
    );
    assert!(matches!(step, FailureStep::Retry));
    assert_eq!(run.attempt_number, 2);
    let salvage = run.cot_salvage.as_ref().expect("salvaged");
    assert_eq!(salvage.reasoning_prefix, "first I think");
    assert_eq!(salvage.source_attempt_duration_ms, 500);

    let step = run.after_late_failure(
        &policy,
        looped(2),
        false,
        unapplied_local_recovery_gate(),
        open_stall_recovery_gate(),
    );
    assert!(matches!(step, FailureStep::Retry));
    assert!(run.cot_salvage.is_none());
    match run.after_late_failure(
        &policy,
        looped(3),
        false,
        unapplied_local_recovery_gate(),
        open_stall_recovery_gate(),
    ) {
        FailureStep::Failed(outcome) => {
            assert_eq!(outcome.attempt_records.len(), 3);
            assert_eq!(outcome.attempt_records[0].status, AttemptStatus::Retried);
            assert_eq!(outcome.attempt_records[2].status, AttemptStatus::Failed);
        }
        FailureStep::Retry => panic!("no attempts are left"),
    }
}

#[test]
fn nothing_is_retried_for_a_client_that_is_gone() {
    let policy = policy(3, 0);
    assert!(should_retry_after_shielded_failure(&looped(1), &policy, false));
    assert!(!should_retry_after_shielded_failure(&looped(1), &policy, true));
    let mut run = ShieldedRun::new(1, Vec::new(), true);
    let step = run.after_early_failure(
        &policy,
        looped(1),
        true,
        unapplied_local_recovery_gate(),
        open_hot_restart_gate(),
    );
    assert!(matches!(step, FailureStep::Failed(_)));
}

#[test]
fn time_runs_out_unless_a_replay_is_permitted() {
    let policy = policy(3, 0);
    let mut run = ShieldedRun::new(2, Vec::new(), true);
    let mut permits = 1;
    assert!(matches!(
        run.before_start(&policy, true, &mut permits),
        StartStep::Start {
            ignores_request_deadline: true
        }
    ));
    assert_eq!(permits, 0);
    match run.before_start(&policy, true, &mut permits) {
        StartStep::Failed(outcome) => {
            assert_eq!(outcome.error_type, "llm_guard_request_deadline_exhausted");
        }
        StartStep::Start { .. } => panic!("no time is left"),
    }
    let deadline = ShieldedRequestDeadline::new(0, 1_000);
    assert_eq!(
        shielded_attempt_upstream_timeout(5_000, deadline, false, 600),
        400
    );
    assert_eq!(
        shielded_attempt_upstream_timeout(5_000, deadline, false, 2_000),
        0
    );
    assert_eq!(
        shielded_attempt_upstream_timeout(5_000, deadline, true, 2_000),
        5_000
    );
}

#[test]
fn responses_are_sorted() {
    let run = ShieldedRun::new(1, Vec::new(), true);
    assert!(matches!(run.on_started(200, true), StartedStep::Aggregate));
    assert!(matches!(
        run.on_started(503, false),
        StartedStep::RetryableStatus(ShieldedRetryCause::TransientUpstreamStatus)
    ));
    assert!(matches!(
        run.on_started(400, false),
        StartedStep::TerminalForward
    ));
    let strict = ShieldedRun::new(1, Vec::new(), false);
    assert!(matches!(
        strict.on_started(400, false),
        StartedStep::RefusedStatus
    ));
    assert!(matches!(
        strict.on_started(200, false),
        StartedStep::NotAStream
    ));
}

#[test]
fn failures_are_told_by_their_kind() {
    let policy = policy(1, 0);
    let shutdown = shutdown_shielded_attempt_failure(&info(1), 1_500);
    let outcome = shielded_failure_outcome(shutdown, Vec::new(), &policy);
    assert_eq!(outcome.error_type, "proxy_shutting_down");
    assert_eq!(outcome.downstream_status, 503);
    let late = request_deadline_shielded_attempt_failure(&info(1), 1_500);
    let outcome = shielded_failure_outcome(late, Vec::new(), &policy);
    assert_eq!(outcome.error_type, "llm_guard_request_deadline_exhausted");
    let status = status_failure(
        &info(1),
        ShieldedRetryCause::TransientUpstreamStatus,
        "upstream HTTP 503",
        1_500,
    );
    assert_eq!(
        status.retry_cause,
        Some(ShieldedRetryCause::TransientUpstreamStatus)
    );
    let terminal = status_failure_without_retry(&info(1), "no stream", 1_500);
    assert_eq!(terminal.retry_cause, None);
    let record = attempt_failure_record(&looped(1), AttemptStatus::Failed, None, &policy);
    assert_eq!(record.attempt_number, 1);
    assert_eq!(
        record.raw_payloads.reasoning.as_deref(),
        Some("first I think")
    );
    assert_eq!(
        attempt_chain_summary(&vec![record]),
        attempt_chain_summary(&vec![attempt_failure_record(
            &looped(1),
            AttemptStatus::Failed,
            None,
            &policy
        )])
    );
}

#[test]
fn prefixes_end_at_characters() {
    assert_eq!(bounded_utf8_prefix("äöü", 3), "ä");
    assert_eq!(bounded_utf8_prefix("äöü", 6), "äöü");
    assert_eq!(bounded_utf8_prefix("abc", 0), "");
    let mut blank = looped(1);
    blank.raw_payloads.reasoning = Some(" \n".to_owned());
    assert!(cot_salvage_context_for_failure(&blank, &policy(3, 0)).is_none());
    assert_eq!(raw_payload_text(&b"text".to_vec()).as_deref(), Some("text"));
    assert_eq!(raw_payload_text(&vec![0xff]), None);
    assert_eq!(raw_payload_text(&Vec::new()), None);
}

#[test]
fn chats_start_on_the_first_rung() {
    let ladder = policy(3, 2).ladder;
    assert_eq!(initial_thinking(&ladder, &thinking(7)).budget_tokens, 100);
    assert_eq!(initial_thinking(&Vec::new(), &thinking(7)).budget_tokens, 7);
    let stream = |enabled| initial_stream_thinking(&ladder, &thinking(7), enabled).budget_tokens;
    assert_eq!((stream(true), stream(false)), (100, 7));
}

#[test]
fn bodies_are_chosen() {
    let cause = Some(ShieldedRetryCause::LoopDetected);
    let retries = policy(3, 3);
    let plan = retries.attempt_plan(1, &thinking(50), None);
    let salvage = cot_salvage_context_for_failure(&looped(1), &retries).expect("reasoning");
    let hints = attempt_hints(2, cause, &retries, &plan, Some(&salvage));
    let hint = hints.salvage.expect("a hint");
    assert_eq!((hint.attempt_number, hint.max_attempts), (2, 3));
    assert_eq!(hint.policy_label, "truncate_cot_then_answer");
    assert_eq!(hint.reasoning_prefix, salvage.reasoning_prefix);
    assert_eq!(hint.anti_loop_hint.as_deref(), Some("stop repeating"));
    let hint = hints.anti_loop.expect("a hint");
    assert_eq!((hint.attempt_number, hint.max_attempts), (2, 3));
    assert_eq!(hint.anti_loop_hint.as_deref(), Some("stop repeating"));
    let hints = attempt_hints(1, cause, &retries, &plan, None);
    assert!(hints.salvage.is_none() && hints.anti_loop.is_none());
    let other = Some(ShieldedRetryCause::UpstreamStall);
    assert!(attempt_hints(2, other, &retries, &plan, None).anti_loop.is_none());
    let [plain, salvaged, hinted] = [b"p".to_vec(), b"s".to_vec(), b"h".to_vec()];
    assert_eq!(
        shielded_attempt_body(plain.clone(), Some(salvaged.clone()), Some(hinted.clone())),
        (salvaged, true)
    );
    assert_eq!(
        shielded_attempt_body(plain.clone(), None, Some(hinted.clone())),
        (hinted, true)
    );
    assert_eq!(shielded_attempt_body(plain.clone(), None, None), (plain, false));
    assert_eq!(prepared_as_stream(ShieldedChatKind::NonStream), Some(false));
    assert_eq!(prepared_as_stream(ShieldedChatKind::Stream), Some(true));
    assert_eq!(prepared_as_stream(ShieldedChatKind::Generic), None);
    let mut planned = Metadata::new();
    planned.set("thinking", "planned");
    let request = attempt_request(None, &b"planned".to_vec(), &planned);
    assert_eq!(request.upstream_body, b"planned");
    assert!(request.thinking_metadata.reads("thinking", "planned"));
    let again = attempt_request(Some(request), &b"other".to_vec(), &Metadata::new());
    assert_eq!(again.upstream_body, b"planned");
    assert!(answers_when_complete(
        ShieldedLivenessMode::Disabled,
        ShieldedChatKind::NonStream
    ));
    assert!(!answers_when_complete(
        ShieldedLivenessMode::Sse,
        ShieldedChatKind::Stream
    ));
    assert!(!detaches(&policy(1, 0)));
    assert_eq!(lost_detached_outcome().downstream_status, 502);
    assert!(!should_direct_relay_no_thinking_stream(
        ShieldedChatKind::NonStream,
        1,
        None,
        &Metadata::new(),
        "no_thinking"
    ));
}

#[test]
fn attempts_start_with_what_was_sent() {
    let start = || ShieldedAttemptStart {
        attempt_id: "r-1".to_owned(),
        attempt_number: 1,
        attempt_max_attempts: 3,
        started_at_unix_ms: 1_000,
        request_id: "r".to_owned(),
        request_metadata: Metadata::new(),
        raw_request_body: Some("{}".to_owned()),
        upstream_body: b"{}".to_vec(),
    };
    let mut headers = Headers::new();
    headers.set_text("content-type", "text/event-stream");
    let sent = SentUpstreamResponse {
        attempt_id: "r-2".to_owned(),
        attempt_number: 2,
        attempt_started_at_unix_ms: 1_100,
        attempt_request_metadata: Metadata::new(),
        did_failover: true,
        completed_attempt_records: Vec::new(),
        terminal_endpoint: None,
        terminal_endpoint_protocol: UpstreamEndpointProtocol::OpenAi,
        response: ObservedEndpointResponse {
            status: 200,
            headers,
        },
    };
    let started = start_shielded_attempt(start(), Ok(sent), false, 2_000)
        .ok()
        .expect("started");
    assert_eq!(started.attempt_id, "r-2");
    assert_eq!(started.upstream_mode, UpstreamMode::Streaming);
    let failure = start_shielded_attempt(
        start(),
        Err(ProxyError::upstream_transport(ReqwestFailureKind::Timeout)),
        true,
        2_000,
    )
    .err()
    .expect("failed");
    assert_eq!(
        failure.abort_reason.as_deref(),
        Some("request_deadline_exhausted")
    );
    assert_eq!(failure.retry_cause, None);
    let rewritten = start_shielded_attempt(start(), Err(shielded_rewritten_error()), false, 2_000)
        .err()
        .expect("failed");
    assert_eq!(rewritten.error_type, "upstream_body_error");
}

#[test]
fn accepted_answers_become_responses() {
    let outcome = |body: &[u8]| ShieldedAcceptedOutcome {
        body: body.to_vec(),
        sse_body: Vec::new(),
        response_metadata: Metadata::new(),
        prior_attempt_records: Vec::new(),
        final_attempt: final_attempt(),
    };
    let body = br#"{"choices":[{}]}"#;
    match shielded_retry_success_response(runtime(ShieldedLivenessMode::Disabled), outcome(body)) {
        SuccessResponse::Answer {
            status,
            headers,
            observer,
            ..
        } => {
            assert_eq!(status, 200);
            assert_eq!(headers.get_text("content-length").as_deref(), Some("16"));
            assert_eq!(observer.downstream_mode, DownstreamMode::NonStreamJson);
            assert!(observer.extra_response_metadata.reads(
                "upstream_response_header_content-type",
                "text/event-stream"
            ));
        }
        SuccessResponse::Malformed(_) => panic!("it has choices"),
    }
    assert!(matches!(
        shielded_retry_success_response(runtime(ShieldedLivenessMode::Disabled), outcome(b"{}")),
        SuccessResponse::Malformed(_)
    ));
}

#[test]
fn failed_requests_become_responses() {
    let mut counters = UpstreamFailureCounters::new();
    let failure = shielded_failure_outcome(
        status_failure_without_retry(&info(1), "upstream HTTP 500", 1_500),
        Vec::new(),
        &policy(1, 0),
    );
    let response =
        shielded_retry_error_response(runtime(ShieldedLivenessMode::Sse), failure, &mut counters);
    let body: serde_json::Value = serde_json::from_slice(&response.body).expect("JSON");
    assert_eq!(body["error"]["request_id"], "r");
    assert_eq!(
        response.headers.get_text("content-length"),
        Some(response.body.len().to_string())
    );
    assert_eq!(response.observer.downstream_mode, DownstreamMode::Streaming);
    assert!(response.observer.final_attempt.is_none());
}

#[test]
fn streams_are_observed() {
    let headers =
        shielded_chat_stream_response_headers(&info(1).upstream_headers, ShieldedLivenessMode::Sse);
    assert_eq!(
        headers.get_text("content-type").as_deref(),
        Some("text/event-stream")
    );
    assert_eq!(headers.get_text("cache-control").as_deref(), Some("no-cache"));
    assert_eq!(headers.get_text("x-accel-buffering").as_deref(), Some("no"));

    let waiting = shielded_liveness_stream_response(
        runtime(ShieldedLivenessMode::JsonWhitespace),
        &info(1),
        Vec::new(),
    );
    assert_eq!(
        waiting.headers.get_text("content-type").as_deref(),
        Some("application/json")
    );
    assert!(waiting.progress.current_attempt.is_some());

    let mut extra = Metadata::new();
    extra.set("told", "before");
    let mut progress = ShieldedAttemptProgress {
        extra_response_metadata: extra,
        completed_attempt_records: Vec::new(),
        current_attempt: None,
    };
    update_shielded_attempt_progress(&mut progress, &Vec::new(), Some(&info(2)));
    assert!(progress.current_attempt.as_ref().is_some_and(|attempt| attempt
        .extra_response_metadata
        .reads("told", "before")));
    assert_eq!(
        progress.current_attempt.as_ref().map(|a| a.attempt_number),
        Some(2)
    );

    let relayed = shielded_retry_direct_relay_response(
        runtime(ShieldedLivenessMode::Sse),
        &info(1),
        Metadata::new(),
        Vec::new(),
    );
    assert_eq!(relayed.downstream_mode, DownstreamMode::Streaming);
    let forwarded = shielded_retry_terminal_forward_response(
        runtime(ShieldedLivenessMode::Sse),
        &info(1),
        Vec::new(),
    );
    assert_eq!(forwarded.downstream_status, 200);
}

#[test]
fn the_end_of_a_wait_is_observed() {
    let begin = || {
        shielded_liveness_stream_response(runtime(ShieldedLivenessMode::Sse), &info(1), Vec::new())
            .observer
    };
    let mut told = Metadata::new();
    told.set("k", "v");
    let mut observer = begin();
    let record = attempt_failure_record(&looped(1), AttemptStatus::Retried, None, &policy(3, 0));
    observe_accepted(&mut observer, &told, vec![record.clone()], final_attempt());
    assert!(observer.extra_response_metadata.reads("k", "v"));
    assert_eq!(observer.completed_attempt_records.len(), 1);
    assert!(observer
        .final_attempt
        .expect("an attempt")
        .extra_response_metadata
        .reads("k", "v"));
    let mut observer = begin();
    observe_failed(&mut observer, &told, vec![record]);
    assert!(observer.final_attempt.is_none());
    let mut observer = begin();
    let mut before = Metadata::new();
    before.set("told", "before");
    let mut progress = ShieldedAttemptProgress {
        extra_response_metadata: before,
        completed_attempt_records: Vec::new(),
        current_attempt: None,
    };
    observe_direct_relay(&mut observer, &mut progress, &info(2), &told, &Vec::new());
    assert!(progress.extra_response_metadata.reads("told", "before"));
    assert_eq!(
        progress.current_attempt.map(|attempt| attempt.attempt_number),
        Some(2)
    );
}

#[test]
fn a_recovery_comes_before_a_restart() {
    let mut metadata = Metadata::new();
    metadata.set("local_recovery_status", "succeeded");
    let told = |applied: bool| LocalRecoveryGate {
        metadata: metadata.clone(),
        permits_retry: true,
        applied,
        permits_deadline_replay: false,
    };
    assert!(!may_wait_for_restart(&looped(1), &told(true)));
    assert!(may_wait_for_restart(&looped(1), &told(false)));
    assert!(may_wait_for_restart(
        &looped(1),
        &unapplied_local_recovery_gate()
    ));
}

#[test]
fn streams_are_read_for_as_long_as_the_request_has() {
    let deadline = ShieldedRequestDeadline::new(1_000, 500);
    assert_eq!(aggregation_time_left(9_000, deadline, false, 1_200), Some(300));
    assert_eq!(aggregation_time_left(9_000, deadline, false, 1_501), None);
    assert_eq!(aggregation_time_left(9_000, deadline, true, 1_501), Some(9_000));
}
