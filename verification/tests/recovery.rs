//! Recovering upstreams, watching them, and repeating requests.

use llm_guard_proxy::clock::ShieldedRequestDeadline;
use llm_guard_proxy::errors::ProxyError;
use llm_guard_proxy::failover::{
    ObservedEndpointResponse, SentUpstreamResponse, UpstreamEndpointProtocol,
};
use llm_guard_proxy::failures::ReqwestFailureKind;
use llm_guard_proxy::generic_recovery::{
    after_recovery, finish_replay, next_generic_step, precommit_body_failure, replay_cause,
    status_retry_attempt_history, GenericStep, ReplayStep, UnrecordedAttempt,
};
use llm_guard_proxy::headers::Headers;
use llm_guard_proxy::json::{parse_json, render_json};
use llm_guard_proxy::metadata::Metadata;
use llm_guard_proxy::records::AttemptStatus;
use llm_guard_proxy::recovery::{
    after_probe, ask_for_hot_restart, begin_local_recovery, completed_local_recovery_metadata,
    finish_hot_restart_recovery, finish_upstream_stall_recovery, gate_after_local_recovery,
    hot_restart_gate, hot_restart_probe_answer, hot_restart_probe_body, hot_restart_probe_model,
    hot_restart_probe_result, hot_restart_target,
    is_valid_chat_completion_probe_response, is_valid_hot_restart_completion,
    local_recovery_cause_for_status, local_recovery_permits_retry, local_recovery_result,
    needs_readiness, plan_local_recovery, readiness_metadata, readiness_probe_answer,
    readiness_target, restart_command_metadata,
    upstream_stall_command_result, upstream_stall_recovery_permits_retry,
    wait_for_hot_restart_probe_result, wait_for_local_recovery_result, CommandOutcome,
    HotRestartConfig, HotRestartStart, HotRestartState, HotRestartTerminal, HotRestartWait,
    LocalRecoveryCause, LocalRecoveryPolicy, ProbeEnd, ProbeStep, RecoveryPlan, RecoveryStart,
    RecoveryWait, UpstreamStallRecoveryState,
};
use llm_guard_proxy::sse_progress::SseProgress;
use llm_guard_proxy::watchdog::{
    emitted_chunk_progress, finish_restart_wait, finish_watchdog_recovery, look_at_profile,
    restart_queue_wait_deadline, wait_for_restart_queue, watchdog_metrics_snapshot,
    watchdog_progress_unit, watchdog_round, RestartQueueConfig, RestartQueueWaitResult, RestartWait,
    WatchdogMetricsSnapshot, WatchdogProgressUnit, WatchdogSchedule, WatchdogWindow,
    WatchedProfile, STUCK_WATCHDOG_TOKEN_SAMPLE_CAP,
};

fn policy() -> LocalRecoveryPolicy {
    LocalRecoveryPolicy {
        enabled: true,
        restart_command: vec!["restart".to_owned()],
        restart_timeout_ms: 1_000,
        readiness_deadline_ms: 2_000,
        readiness_interval_ms: 100,
        max_attempts_per_request: 1,
        cooldown_ms: 5_000,
        budget_window_ms: 60_000,
        max_per_window: 2,
    }
}

fn bound(entries: &[(&str, &str)]) -> Metadata {
    let mut metadata = Metadata::new();
    for (key, value) in entries {
        metadata.set(key, value);
    }
    metadata
}

fn sent(status: u16) -> SentUpstreamResponse {
    SentUpstreamResponse {
        attempt_id: "r-1".to_owned(),
        attempt_number: 1,
        attempt_started_at_unix_ms: 1_000,
        attempt_request_metadata: Metadata::new(),
        did_failover: false,
        completed_attempt_records: Vec::new(),
        terminal_endpoint: None,
        terminal_endpoint_protocol: UpstreamEndpointProtocol::OpenAi,
        response: ObservedEndpointResponse {
            status,
            headers: Headers::new(),
        },
    }
}

fn unrecorded() -> UnrecordedAttempt {
    UnrecordedAttempt {
        attempt_id: "r-1".to_owned(),
        request_id: "r".to_owned(),
        started_at_unix_ms: 1_000,
        request_metadata: Metadata::new(),
    }
}

fn no_metrics() -> WatchdogMetricsSnapshot {
    WatchdogMetricsSnapshot {
        detections: 0,
        restarts: 0,
        recovery_successes: 0,
        recovery_timeouts: 0,
        restart_queue_depth: 0,
    }
}

#[test]
fn one_recovery_runs_at_a_time() {
    let mut state = UpstreamStallRecoveryState::new();
    assert!(matches!(
        begin_local_recovery(&policy(), &mut state, 1_000, None),
        RecoveryStart::Started
    ));
    assert!(state.running);
    assert!(matches!(
        begin_local_recovery(&policy(), &mut state, 1_001, None),
        RecoveryStart::Join
    ));
    assert!(matches!(
        wait_for_local_recovery_result(&state, true, 1_100, 1_050),
        RecoveryWait::Wait { max_wait_ms: 50 }
    ));
    finish_upstream_stall_recovery(
        &mut state,
        bound(&[("local_recovery_status", "succeeded")]),
        2_000,
    );
    match begin_local_recovery(&policy(), &mut state, 3_000, None) {
        RecoveryStart::Skipped(metadata) => {
            assert!(metadata.reads("local_recovery_status", "skipped_cooldown"));
            assert!(metadata.reads("local_recovery_cooldown_remaining_ms", "4000"));
        }
        _ => panic!("too soon"),
    }
    assert!(matches!(
        begin_local_recovery(&policy(), &mut state, 10_000, None),
        RecoveryStart::Started
    ));
    finish_upstream_stall_recovery(&mut state, Metadata::new(), 11_000);
    match begin_local_recovery(&policy(), &mut state, 20_000, None) {
        RecoveryStart::Skipped(metadata) => {
            assert!(metadata.reads("local_recovery_status", "skipped_budget_exhausted"));
        }
        _ => panic!("two in one window"),
    }
    assert!(matches!(
        begin_local_recovery(&policy(), &mut state, 70_000, None),
        RecoveryStart::Started
    ));
}

#[test]
fn joining_keeps_the_verdict() {
    let mut state = UpstreamStallRecoveryState::new();
    assert!(completed_local_recovery_metadata(&state, false)
        .reads("local_recovery_status", "missing_result"));
    finish_upstream_stall_recovery(
        &mut state,
        bound(&[("local_recovery_status", "succeeded")]),
        2_000,
    );
    let joined = completed_local_recovery_metadata(&state, true);
    assert!(joined.reads("local_recovery_status", "joined_inflight"));
    assert!(joined.reads("local_recovery_joined_status", "succeeded"));
    assert!(local_recovery_permits_retry(&joined));
}

#[test]
fn recoveries_are_planned_and_judged() {
    let mut asked = 0;
    match plan_local_recovery(
        &policy(),
        "gpu",
        true,
        Some(LocalRecoveryCause::TransientStatus),
        false,
        &mut asked,
    ) {
        RecoveryPlan::Run { cause, metadata } => {
            let mut replays = 0;
            let gate = gate_after_local_recovery(
                cause,
                metadata,
                &bound(&[("local_recovery_status", "succeeded")]),
                &mut replays,
            );
            assert!(gate.applied && gate.permits_retry);
        }
        RecoveryPlan::Known(_) => panic!("it runs"),
    }
    assert!(matches!(
        plan_local_recovery(
            &policy(),
            "gpu",
            true,
            Some(LocalRecoveryCause::TransientStatus),
            false,
            &mut asked
        ),
        RecoveryPlan::Known(_)
    ));
    assert_eq!(
        local_recovery_cause_for_status(503),
        Some(LocalRecoveryCause::TransientStatus)
    );
    assert_eq!(local_recovery_cause_for_status(400), None);
}

#[test]
fn commands_and_probes_are_recorded() {
    let restarted = restart_command_metadata(&CommandOutcome::Exited {
        success: true,
        code: Some(0),
    });
    assert!(needs_readiness(&restarted));
    let result = local_recovery_result(
        LocalRecoveryCause::UpstreamStall,
        &restarted,
        Some(&readiness_metadata(&ProbeEnd::Timeout)),
    );
    assert!(result.reads("local_recovery_status", "readiness_timeout"));
    assert!(result.reads("local_recovery_trigger_cause", "upstream_stall"));
    let failed = restart_command_metadata(&CommandOutcome::Exited {
        success: false,
        code: Some(-3),
    });
    assert!(!needs_readiness(&failed));
    assert!(failed.reads("local_recovery_restart_exit_code", "-3"));
    assert!(failed.reads("local_recovery_status", "exit_failure"));

    assert!(matches!(
        after_probe(Ok(true), 100, 1_000, 500),
        ProbeStep::Done(ProbeEnd::Ready)
    ));
    assert!(matches!(
        after_probe(Ok(false), 100, 1_000, 950),
        ProbeStep::Sleep { sleep_ms: 50 }
    ));
    assert!(matches!(
        after_probe(Err("x".to_owned()), 100, 1_000, 1_000),
        ProbeStep::Done(ProbeEnd::Error(_))
    ));
    let probe = parse_json(br#"{"choices":[{}]}"#).expect("JSON");
    assert!(is_valid_chat_completion_probe_response(&probe));

    let stall = upstream_stall_command_result(&CommandOutcome::SpawnFailed {
        error: "not found".to_owned(),
    });
    assert!(stall.reads("upstream_stall_recovery_status", "spawn_failed"));
    assert!(!upstream_stall_recovery_permits_retry(&stall));
}

#[test]
fn responses_are_held_returned_or_repeated() {
    let deadline = ShieldedRequestDeadline::new(0, 1_000);
    let chat = "/v1/chat/completions";
    assert_eq!(
        next_generic_step(429, true, chat, deadline, 400),
        GenericStep::RetryLater { remaining_ms: 600 }
    );
    assert_eq!(
        next_generic_step(429, false, chat, deadline, 400),
        GenericStep::Return
    );
    assert_eq!(
        next_generic_step(200, true, chat, deadline, 400),
        GenericStep::HoldFirstChunk
    );
    assert_eq!(
        next_generic_step(200, true, "/v1/embeddings", deadline, 400),
        GenericStep::Return
    );
    assert_eq!(
        next_generic_step(200, true, chat, deadline, 1_000),
        GenericStep::Return
    );

    assert_eq!(
        replay_cause(&Ok(sent(502)), deadline, 400),
        Some(LocalRecoveryCause::TransientStatus)
    );
    assert_eq!(replay_cause(&Ok(sent(500)), deadline, 400), None);
    assert_eq!(replay_cause(&Ok(sent(502)), deadline, 1_000), None);
    let transport = Err(ProxyError::upstream_transport(ReqwestFailureKind::Connect));
    assert_eq!(
        replay_cause(&transport, deadline, 400),
        Some(LocalRecoveryCause::TransientTransport)
    );
}

#[test]
fn repeated_attempts_stay_on_record() {
    let deadline = ShieldedRequestDeadline::new(0, 1_000_000);
    let recovery = || bound(&[("local_recovery_status", "succeeded")]);
    match after_recovery(Ok(sent(503)), true, recovery(), unrecorded(), deadline, 1_500, 1_500) {
        ReplayStep::Replay {
            attempt_number,
            completed_attempt_records,
        } => {
            assert_eq!(attempt_number, 2);
            let record = &completed_attempt_records[0];
            assert_eq!(record.status, AttemptStatus::Retried);
            assert_eq!(
                record.error_reason.as_deref(),
                Some("upstream HTTP 503 Service Unavailable selected for local recovery")
            );
            assert_eq!(record.retry_reason.as_deref(), Some("local_recovery"));
        }
        ReplayStep::Keep(_) => panic!("it is repeated"),
    }
    let failed = Err(ProxyError::upstream_transport(ReqwestFailureKind::Connect));
    match after_recovery(failed, true, recovery(), unrecorded(), deadline, 1_500, 1_500) {
        ReplayStep::Replay {
            attempt_number,
            completed_attempt_records,
        } => {
            assert_eq!(attempt_number, 2);
            assert_eq!(completed_attempt_records.len(), 1);
            let replayed = finish_replay(Ok(sent(200)), completed_attempt_records)
                .ok()
                .expect("an answer");
            assert_eq!(replayed.completed_attempt_records.len(), 1);
        }
        ReplayStep::Keep(_) => panic!("it is repeated"),
    }
    match after_recovery(Ok(sent(503)), false, recovery(), unrecorded(), deadline, 1_500, 1_500) {
        ReplayStep::Keep(Ok(kept)) => {
            assert!(kept
                .attempt_request_metadata
                .reads("local_recovery_status", "succeeded"));
        }
        _ => panic!("it is kept"),
    }
    let (number, history) = status_retry_attempt_history(&sent(429), "r", Metadata::new(), 1_500);
    assert_eq!(number, 2);
    assert_eq!(
        history[0].error_reason.as_deref(),
        Some("bounded upstream rate limit retry")
    );
    let told = precommit_body_failure(
        sent(200),
        ReqwestFailureKind::Body,
        "r",
        &Metadata::new(),
        1_500,
    );
    let records = told.attempt_records();
    assert_eq!(records[0].http_status, Some(200));
    assert!(records[0]
        .response_metadata
        .reads("precommit_body_failure", "true"));
}

#[test]
fn progress_depends_on_the_endpoint() {
    assert_eq!(
        watchdog_progress_unit("/v1/embeddings"),
        WatchdogProgressUnit::Embedding
    );
    assert_eq!(
        watchdog_progress_unit("/v1/rerank"),
        WatchdogProgressUnit::Reranker
    );
    assert_eq!(
        watchdog_progress_unit("/v1/chat/completions"),
        WatchdogProgressUnit::Chat
    );
    let mut stream = SseProgress::new();
    assert_eq!(
        emitted_chunk_progress(WatchdogProgressUnit::Embedding, &mut stream, b"x"),
        1
    );
    assert_eq!(
        emitted_chunk_progress(WatchdogProgressUnit::Chat, &mut stream, b": ping\n\n"),
        0
    );
    assert_eq!(
        emitted_chunk_progress(
            WatchdogProgressUnit::Chat,
            &mut stream,
            b"data: {\"choices\":[{\"delta\":{\"content\":\"hi\"}}]}\n\n"
        ),
        1
    );
}

#[test]
fn alive_upstreams_are_not_stuck() {
    let mut window = WatchdogWindow::new();
    window.begin_request(1, 1_000);
    assert!(window.has_active_requests());
    assert!(!window.window_has_too_few_output_tokens(500, 10, 1_400));
    assert!(window.window_has_too_few_output_tokens(500, 10, 1_500));
    window.record_progress(500, 10, 1_500);
    assert!(!window.window_has_too_few_output_tokens(500, 10, 1_500));
    assert!(window.window_has_too_few_output_tokens(500, 10, 2_001));
    window.record_upstream_response_started(1, 2_001);
    assert!(!window.window_has_too_few_output_tokens(500, 10, 9_000));
    window.complete_request(1, 9_000);
    assert!(!window.has_active_requests());
    window.record_response(500, br#"{"usage":{"completion_tokens":12}}"#, b"", 9_000);
    assert_eq!(window.sample_count(), 1);
}

#[test]
fn samples_are_bounded() {
    let mut window = WatchdogWindow::new();
    for _ in 0..STUCK_WATCHDOG_TOKEN_SAMPLE_CAP + 5 {
        window.record_watchdog_progress(1, 1);
    }
    assert_eq!(window.sample_count(), STUCK_WATCHDOG_TOKEN_SAMPLE_CAP);
}

fn watched(name: &str, window: WatchdogWindow) -> WatchedProfile {
    WatchedProfile {
        name: name.to_owned(),
        enabled: true,
        check_interval_ms: 1_000,
        detection_window_ms: 500,
        min_output_tokens: 1,
        recoverable: true,
        recovering: false,
        window,
        counters: no_metrics(),
    }
}

#[test]
fn stuck_profiles_are_recovered_once() {
    let mut window = WatchdogWindow::new();
    window.begin_request(1, 0);
    let profiles = vec![
        watched("idle", WatchdogWindow::new()),
        watched("stuck", window),
    ];
    let mut schedule = WatchdogSchedule::new();
    let (profiles, stuck) = watchdog_round(&mut schedule, profiles, 10_000);
    assert_eq!(stuck, vec!["stuck"]);
    assert!(profiles[1].recovering);
    assert_eq!(profiles[1].counters.detections, 1);
    let (profiles, stuck) = watchdog_round(&mut schedule, profiles, 10_500);
    assert!(stuck.is_empty());
    let (mut profiles, stuck) = watchdog_round(&mut schedule, profiles, 11_000);
    assert!(stuck.is_empty());
    let status = finish_watchdog_recovery(
        &mut profiles[1],
        &bound(&[("local_recovery_status", "episode_timeout")]),
    );
    assert_eq!(status, "episode_timeout");
    assert_eq!(profiles[1].counters.recovery_timeouts, 1);
    let sum = watchdog_metrics_snapshot(&profiles.iter().map(|p| p.counters).collect());
    assert_eq!(sum.restarts, 1);
    let (_, stuck) = look_at_profile(profiles.remove(1), true, 12_000);
    assert!(stuck);
}

#[test]
fn restarts_are_waited_for() {
    let queue = RestartQueueConfig {
        enabled: true,
        queue_deadline_secs: 30,
        restart_timeout_secs: 20,
    };
    assert_eq!(restart_queue_wait_deadline(queue), 20);
    let mut state = UpstreamStallRecoveryState::new();
    assert_eq!(
        wait_for_restart_queue(&state, false, 5_000, 1_000),
        RestartWait::Done(RestartQueueWaitResult::NotRecovering)
    );
    state.running = true;
    state.recovery_deadline = Some(3_000);
    assert_eq!(
        wait_for_restart_queue(&state, true, 5_000, 1_000),
        RestartWait::Wait { max_wait_ms: 2_000 }
    );
    assert_eq!(
        wait_for_restart_queue(&state, true, 5_000, 3_000),
        RestartWait::Done(RestartQueueWaitResult::TimedOut)
    );
    finish_upstream_stall_recovery(&mut state, Metadata::new(), 3_500);
    assert_eq!(
        wait_for_restart_queue(&state, true, 5_000, 3_600),
        RestartWait::Done(RestartQueueWaitResult::Failed)
    );
    let mut metadata = Metadata::new();
    let error = finish_restart_wait(
        RestartQueueWaitResult::Failed,
        queue,
        "gpu".to_owned(),
        &mut metadata,
    )
    .err()
    .expect("it failed");
    assert_eq!(
        error.message(),
        "no healthy upstream endpoint for profile gpu after 20000ms"
    );
    assert!(metadata.reads("restart_queue_outcome", "recovery_failed"));
    assert!(metadata.reads("restart_queue_deadline_secs", "30"));
    let mut metadata = Metadata::new();
    assert!(finish_restart_wait(
        RestartQueueWaitResult::Ready,
        queue,
        "gpu".to_owned(),
        &mut metadata
    )
    .is_ok());
    assert!(metadata.reads("restart_queue_outcome", "released_after_recovery"));
}

#[test]
fn one_probe_serves_all_who_wait_for_a_restart() {
    let mut state = HotRestartState::new();
    assert!(matches!(
        wait_for_hot_restart_probe_result(&state, true),
        HotRestartWait::Done(ProbeEnd::Error(error))
            if error == "hot-restart probe completed without result"
    ));
    assert_eq!(ask_for_hot_restart(&mut state), HotRestartStart::Start);
    assert_eq!(ask_for_hot_restart(&mut state), HotRestartStart::Join);
    assert_eq!(ask_for_hot_restart(&mut state), HotRestartStart::Join);
    assert!(matches!(
        wait_for_hot_restart_probe_result(&state, false),
        HotRestartWait::Wait { max_wait_ms: 100 }
    ));
    assert!(matches!(
        wait_for_hot_restart_probe_result(&state, true),
        HotRestartWait::Collect
    ));
    let end = hot_restart_probe_result(Err(String::from("panicked")));
    finish_hot_restart_recovery(&mut state, end);
    for _ in 0..2 {
        assert!(matches!(
            wait_for_hot_restart_probe_result(&state, false),
            HotRestartWait::Done(ProbeEnd::Error(error))
                if error == "probe task failed: panicked"
        ));
    }
    assert_eq!(ask_for_hot_restart(&mut state), HotRestartStart::Start);
    let end = hot_restart_probe_result(Ok(ProbeEnd::Ready));
    finish_hot_restart_recovery(&mut state, end);
    assert!(matches!(
        wait_for_hot_restart_probe_result(&state, false),
        HotRestartWait::Done(ProbeEnd::Ready)
    ));
}

#[test]
fn restarting_upstreams_are_probed() {
    let config = HotRestartConfig {
        enabled: true,
        probe_interval_secs: 7,
        probe_timeout_secs: 60,
        probe_max_tokens: 1,
        probe_messages: parse_json(b"[]").expect("JSON"),
        probe_chat_template_kwargs: None,
    };
    let models = vec![String::from("m")];
    let model = hot_restart_probe_model(&None, &models);
    assert_eq!(
        render_json(&hot_restart_probe_body(&config, model.as_deref())),
        r#"{"max_tokens":1,"messages":[],"model":"m","stream":false}"#
    );
    let answer = parse_json(br#"{"choices":[{}]}"#).expect("JSON");
    assert!(is_valid_hot_restart_completion(&answer));
    let answer = parse_json(br#"{"choices":[]}"#).expect("JSON");
    assert!(!is_valid_hot_restart_completion(&answer));
    let gate = hot_restart_gate(&config, &ProbeEnd::Ready);
    assert!(gate.permits_retry && gate.terminal.is_none());
    let gate = hot_restart_gate(&config, &ProbeEnd::Timeout);
    assert_eq!(
        gate.terminal,
        Some(HotRestartTerminal::Timeout {
            retry_after_secs: 7
        })
    );
    let gate = hot_restart_gate(&config, &ProbeEnd::Error(String::from("gone")));
    assert!(!gate.permits_retry);
    assert!(gate.metadata.reads("hot_restart_recovery_error", "gone"));
}

#[test]
fn probes_are_answered() {
    let target = readiness_target("/v1/chat/completions?probe=1").expect("a target");
    assert_eq!(target.path, "/v1/chat/completions");
    assert_eq!(target.query.as_deref(), Some("probe=1"));
    let error = readiness_target("not a path").err().expect("no target");
    assert!(error.starts_with("readiness endpoint parse failed: "));
    assert_eq!(hot_restart_target().path, "/v1/chat/completions");
    assert_eq!(hot_restart_target().query, None);
    let good = br#"{"choices":[{"message":{"content":"ok"}}]}"#;
    assert_eq!(readiness_probe_answer(good), Ok(true));
    assert_eq!(hot_restart_probe_answer(good), Ok(true));
    assert_eq!(readiness_probe_answer(b"{}"), Ok(false));
    assert_eq!(hot_restart_probe_answer(b"{}"), Ok(false));
    let error = readiness_probe_answer(b"{").err().expect("no JSON");
    assert!(error.starts_with("readiness response JSON decode failed: "));
    let error = hot_restart_probe_answer(b"{").err().expect("no JSON");
    assert!(error.starts_with("probe response JSON decode failed: "));
}
