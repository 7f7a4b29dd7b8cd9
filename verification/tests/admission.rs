//! Admission, deadlines, shutdown, repeated inputs and liveness.

use llm_guard_proxy::admission::{
    acquire_generation_permit_with_limiter, acquire_restart_queue_permit,
    acquired_admission_metadata, leave_restart_queue, prefixed_acquired_admission_metadata,
    try_acquire_control_plane_permit, wait_for_generation_capacity, AdmissionFailure,
    AdmissionLimits, AdmissionStep, InFlightLimiter, ListenerUpstreamDenied, QueueCancellationReason,
    QueueStep, QueuedAdmissionCancellation, QueuedRequest, RestartQueueStep,
};
use llm_guard_proxy::clock::{
    duration_millis_u64, unix_time_millis, unix_time_secs, whole_seconds, ShieldedRequestDeadline,
};
use llm_guard_proxy::effective_liveness;
use llm_guard_proxy::lifecycle::{
    DownstreamDropSignal, PersistenceBacklogDropLog, PersistenceStep, PersistenceTasks,
    ShutdownGate, MAX_PERSISTENCE_TASKS,
};
use llm_guard_proxy::liveness::{
    select_liveness_mode, select_shielded_liveness, shielded_liveness_response_metadata,
    HeartbeatMode, LivenessSettings, ShieldedChatKind, ShieldedLivenessMode,
};
use llm_guard_proxy::records::RequestStatus;
use llm_guard_proxy::repeat_inputs::RepeatInputCache;

fn limits(max: usize, queued: usize) -> AdmissionLimits {
    AdmissionLimits {
        max_in_flight_requests: max,
        max_queued_generation_requests: queued,
        generation_queue_full_status: 429,
        generation_queue_retry_after_secs: Some(7),
    }
}

fn denied() -> ListenerUpstreamDenied {
    ListenerUpstreamDenied {
        listener_name: "edge".to_owned(),
        listener_port: 8080,
        upstream_profile: "gpu".to_owned(),
        model_id: "m".to_owned(),
    }
}

#[test]
fn capacity_is_kept() {
    let mut limiter = InFlightLimiter::new();
    assert!(matches!(
        acquire_generation_permit_with_limiter(&mut limiter, false, Ok(limits(1, 1))),
        AdmissionStep::Acquired
    ));
    assert!(matches!(
        acquire_generation_permit_with_limiter(&mut limiter, false, Ok(limits(1, 1))),
        AdmissionStep::Queued
    ));
    match acquire_generation_permit_with_limiter(&mut limiter, false, Ok(limits(1, 1))) {
        AdmissionStep::Refused(failure) => {
            assert_eq!(failure.status(), 429);
            assert_eq!(failure.error_type(), "proxy_generation_queue_full");
            assert_eq!(failure.retry_after().as_deref(), Some("7"));
            assert!(failure
                .request_metadata()
                .reads("admission_outcome", "queue_full_rejected"));
            assert_eq!(
                failure.message(),
                "proxy generation request queue is full: max_queued_generation_requests=1"
            );
        }
        _ => panic!("the queue is full"),
    }
    assert_eq!(limiter.snapshot_counts().active, 1);
    assert_eq!(limiter.snapshot_counts().queued, 1);
    limiter.leave_queue();
    limiter.release();
    limiter.release();
    assert_eq!(limiter.snapshot_counts().active, 0);
    assert_eq!(limiter.snapshot_counts().queued, 0);
}

#[test]
fn refusals_have_an_order() {
    let mut limiter = InFlightLimiter::new();
    let refused = |step: AdmissionStep| match step {
        AdmissionStep::Refused(failure) => failure,
        _ => panic!("refused"),
    };
    let config = refused(acquire_generation_permit_with_limiter(
        &mut limiter,
        true,
        Err(AdmissionFailure::ConfigSnapshot("broken".to_owned())),
    ));
    assert_eq!(config.status(), 500);
    assert_eq!(config.retry_after(), None);
    let shutdown = refused(acquire_generation_permit_with_limiter(
        &mut limiter,
        true,
        Err(AdmissionFailure::ListenerUpstreamDenied(denied())),
    ));
    assert_eq!(shutdown.error_type(), "proxy_shutting_down");
    let listener = refused(acquire_generation_permit_with_limiter(
        &mut limiter,
        false,
        Err(AdmissionFailure::ListenerUpstreamDenied(denied())),
    ));
    assert_eq!(listener.status(), 400);
    assert_eq!(listener.error_type(), "listener_upstream_not_allowed");
}

#[test]
fn waiting_ends_in_time() {
    let mut limiter = InFlightLimiter::new();
    assert!(limiter.try_acquire(1));
    let request = QueuedRequest {
        queued_at_ms: 1_000,
        timeout_ms: 250,
    };
    let step = wait_for_generation_capacity(&mut limiter, request, false, Ok(1), 1_010);
    assert!(matches!(step, QueueStep::Wait { max_wait_ms: 100 }));
    let step = wait_for_generation_capacity(&mut limiter, request, false, Ok(1), 1_200);
    assert!(matches!(step, QueueStep::Wait { max_wait_ms: 50 }));
    match wait_for_generation_capacity(&mut limiter, request, false, Ok(1), 1_250) {
        QueueStep::Refused(failure) => {
            assert_eq!(failure.error_type(), "proxy_generation_queue_timeout");
            assert_eq!(failure.status(), 503);
            assert!(failure.request_metadata().reads("queue_wait_ms", "250"));
        }
        _ => panic!("its time is up"),
    }
    let step = wait_for_generation_capacity(&mut limiter, request, false, Ok(2), 1_250);
    assert!(matches!(step, QueueStep::Acquired { queue_wait_ms: 250 }));
    match wait_for_generation_capacity(&mut limiter, request, true, Ok(2), 1_100) {
        QueueStep::Refused(failure) => {
            assert_eq!(failure.request_status(), RequestStatus::Aborted);
            assert_eq!(
                failure.abort_reason(),
                Some("server_shutdown_while_queued")
            );
            assert_eq!(failure.error_type(), "proxy_generation_queue_cancelled");
        }
        _ => panic!("the server shuts down"),
    }
}

#[test]
fn other_queues_are_bounded() {
    let mut control = InFlightLimiter::new();
    assert!(try_acquire_control_plane_permit(&mut control, 1).is_ok());
    let failure = try_acquire_control_plane_permit(&mut control, 1)
        .err()
        .expect("no capacity");
    assert_eq!(
        failure.error_type(),
        "proxy_control_plane_in_flight_limit_exceeded"
    );
    assert_eq!(failure.retry_after().as_deref(), Some("1"));

    let mut limiter = InFlightLimiter::new();
    let mut depth = 0;
    let step = acquire_restart_queue_permit(&mut limiter, &mut depth, false, 1);
    assert_eq!((step, depth), (RestartQueueStep::NotNeeded, 0));
    let step = acquire_restart_queue_permit(&mut limiter, &mut depth, true, 1);
    assert_eq!((step, depth), (RestartQueueStep::Queued, 1));
    let step = acquire_restart_queue_permit(&mut limiter, &mut depth, true, 1);
    assert_eq!((step, depth), (RestartQueueStep::Full, 1));
    leave_restart_queue(&mut limiter, &mut depth);
    assert_eq!((limiter.snapshot_counts().queued, depth), (0, 0));
    let step = acquire_restart_queue_permit(&mut limiter, &mut depth, true, 1);
    assert_eq!((step, depth), (RestartQueueStep::Queued, 1));
}

#[test]
fn admissions_are_recorded() {
    assert!(acquired_admission_metadata(12).reads("queue_wait_ms", "12"));
    let routed = prefixed_acquired_admission_metadata("body_routing", 3);
    assert!(routed.reads("body_routing_admission_outcome", "acquired"));
    let cancelled = AdmissionFailure::ShuttingDown {
        queued: Some(QueuedAdmissionCancellation {
            reason: QueueCancellationReason::DownstreamDisconnected,
            queue_wait_ms: 5,
            generation_queue_timeout_ms: 10,
        }),
    };
    assert!(cancelled
        .request_metadata()
        .reads("generation_queue_timeout_ms", "10"));
    assert_eq!(
        cancelled.abort_reason(),
        Some(QueueCancellationReason::DownstreamDisconnected.abort_reason())
    );
}

#[test]
fn deadlines_stay_over() {
    let deadline = ShieldedRequestDeadline::new(100, 50);
    assert_eq!(deadline.remaining(100), Some(50));
    assert_eq!(deadline.remaining(150), Some(0));
    assert!(deadline.is_exhausted(150));
    assert_eq!(deadline.remaining(151), None);
    assert!(deadline.is_exhausted(1_000));
    assert!(!deadline.is_exhausted(0));
    assert_eq!(duration_millis_u64(u128::MAX), u64::MAX);
    assert_eq!(whole_seconds(1_999), 1);
}

#[test]
fn the_clock_tells_the_time_of_day() {
    let before = std::time::SystemTime::now()
        .duration_since(std::time::UNIX_EPOCH)
        .expect("after the epoch")
        .as_millis() as u64;
    let now = unix_time_millis();
    assert!(now >= before && now < before + 60_000);
    assert!(unix_time_secs() >= before / 1_000);
}

#[test]
fn a_shutdown_is_told_once() {
    let mut gate = ShutdownGate::new();
    assert!(!gate.is_shutting_down());
    assert!(gate.begin_shutdown());
    assert!(!gate.begin_shutdown());
    assert!(gate.is_shutting_down());
    let mut signal = DownstreamDropSignal::new();
    assert!(!signal.is_dropped());
    signal.mark_dropped();
    assert!(signal.is_dropped());
    signal.mark_dropped();
    assert!(signal.is_dropped());
}

#[test]
fn drop_reports_are_spaced() {
    let mut log = PersistenceBacklogDropLog::new();
    assert_eq!(log.take_report(5, 3), Some(3));
    assert_eq!(log.take_report(10_004, 9), None);
    assert_eq!(log.take_report(10_005, 9), Some(6));
}

#[test]
fn the_backlog_is_bounded() {
    let mut tasks = PersistenceTasks::new();
    for _ in 0..MAX_PERSISTENCE_TASKS {
        assert!(matches!(tasks.start(0), PersistenceStep::Run));
    }
    assert!(matches!(
        tasks.start(0),
        PersistenceStep::Drop {
            dropped_total: 1,
            report: Some(1)
        }
    ));
    assert!(matches!(
        tasks.start(1),
        PersistenceStep::Drop {
            dropped_total: 2,
            report: None
        }
    ));
    assert_eq!(tasks.dropped_total(), 2);
    tasks.track();
    assert!(!tasks.finish(true));
    assert!(matches!(tasks.start(2), PersistenceStep::Run));
}

#[test]
fn repeated_inputs_are_noticed() {
    let mut cache = RepeatInputCache::new();
    let first = cache.observe("f", 1_000, 60, 2);
    assert!(!first.repeated);
    assert_eq!(first.prior_count, 0);
    let second = cache.observe("f", 2_000, 60, 2);
    assert_eq!(second.prior_count, 1);
    let third = cache.observe("f", 3_000, 60, 2);
    assert_eq!(third.prior_count, 2);
    assert!(third.repeated);
    let later = cache.observe("f", 70_000, 60, 2);
    assert_eq!(later.prior_count, 0);
    assert!(!cache.observe("g", 70_000, 60, 2).repeated);
}

#[test]
fn clients_are_kept_waiting_in_their_framing() {
    assert_eq!(
        select_liveness_mode(ShieldedChatKind::Stream, HeartbeatMode::Disabled, false),
        ShieldedLivenessMode::Sse
    );
    assert_eq!(
        select_liveness_mode(ShieldedChatKind::NonStream, HeartbeatMode::Sse, false),
        ShieldedLivenessMode::Disabled
    );
    assert_eq!(
        select_liveness_mode(ShieldedChatKind::NonStream, HeartbeatMode::Sse, true),
        ShieldedLivenessMode::JsonWhitespace
    );
    assert_eq!(
        select_liveness_mode(ShieldedChatKind::Generic, HeartbeatMode::JsonWhitespace, false),
        ShieldedLivenessMode::JsonWhitespace
    );

    let settings = LivenessSettings {
        heartbeat_mode: HeartbeatMode::Sse,
        heartbeat_interval_secs: 15,
        loop_guard_disabled: false,
        normalized_input_window_secs: 60,
        max_repeated_inputs: 1,
    };
    let mut cache = RepeatInputCache::new();
    let first =
        select_shielded_liveness(&mut cache, settings, Some("f".to_owned()), ShieldedChatKind::NonStream, 1_000);
    assert_eq!(first.mode, ShieldedLivenessMode::Disabled);
    let second =
        select_shielded_liveness(&mut cache, settings, Some("f".to_owned()), ShieldedChatKind::NonStream, 1_001);
    assert_eq!(second.mode, ShieldedLivenessMode::JsonWhitespace);
    let told = shielded_liveness_response_metadata(&second, Some("text/event-stream".to_owned()));
    assert!(told.reads("downstream_liveness_mode", "json-whitespace"));
    assert!(told.reads("repeat_input_matched", "true"));
    assert!(told.reads("upstream_response_header_content-type", "text/event-stream"));

    let held = effective_liveness::response_metadata(&second, None);
    assert!(held.reads("downstream_liveness_mode", "held"));
    assert!(held.reads("downstream_liveness_configured_mode", "sse"));
    assert!(held.reads("downstream_liveness_framing_mode", "json-whitespace"));
    assert!(held.reads("downstream_heartbeat_emitted_count", "0"));
}
