//! What the proxy tells of itself: metrics, health, summaries and live requests.

use llm_guard_proxy::admin::{
    asks_for_chat, chat_probe_body, chat_probe_timeout_ms, check_debug_access,
    check_metrics_access, debug_summary_limit, health_probe_url, health_response, live_request_id, metadata_json, render_debug_summary_json,
    render_health, render_live_request_detail_json, render_live_requests_json, upstream_readiness,
    DebugEndpoint, DebugRequestSummary, HealthReport, HealthUpstreamStatus, LiveRequestEntry,
    LiveRequestEvent, LiveRequestSummary,
};
use llm_guard_proxy::admission::AdmissionCounts;
use llm_guard_proxy::failures::UpstreamFailureSnapshot;
use llm_guard_proxy::headers::Headers;
use llm_guard_proxy::json::{render_json, Json};
use llm_guard_proxy::metadata::Metadata;
use llm_guard_proxy::metrics::{
    admission_metrics_snapshot, prometheus_escape_label, push_latency_distribution_gauges,
    push_metric_header, push_metric_line, render_metrics, HeartbeatModeCount, LatencyHistogram,
    ObservabilityMetricsSnapshot, ProfileAdmissionMetrics, RequestCount, UpstreamErrorCount,
};
use llm_guard_proxy::watchdog::WatchdogMetricsSnapshot;

fn value(json: &Json) -> serde_json::Value {
    serde_json::from_str(&render_json(json)).expect("JSON")
}

fn report(upstream: HealthUpstreamStatus) -> HealthReport {
    HealthReport {
        service: "llm-guard-proxy".to_owned(),
        readiness: "ready".to_owned(),
        license: "MIT".to_owned(),
        upstream,
        upstream_probe_enabled: true,
        observability_enabled: false,
        request_id: "r".to_owned(),
        config_path: "/etc/p.toml".to_owned(),
        heartbeat_mode: "sse".to_owned(),
        heartbeat_interval_secs: 15,
    }
}

#[test]
fn labels_are_escaped() {
    assert_eq!(prometheus_escape_label("a\\b\n\"c\""), "a\\\\b\\n\\\"c\\\"");
    let escaped = prometheus_escape_label("x\ny\"z");
    assert!(!escaped.contains('\n'));
    let mut output = String::new();
    push_metric_line(&mut output, "m", &[("a", "1"), ("b", "\"")], 7);
    push_metric_line(&mut output, "n", &[], 8);
    assert_eq!(output, "m{a=\"1\",b=\"\\\"\"} 7\nn 8\n");
    let mut header = String::new();
    push_metric_header(&mut header, "m", "help me", "gauge");
    assert_eq!(header, "# HELP m help me\n# TYPE m gauge\n");
}

#[test]
fn histograms_are_written() {
    let mut output = String::new();
    push_latency_distribution_gauges(
        &mut output,
        "l",
        "latency",
        &LatencyHistogram {
            buckets: vec![(50, 1), (100, 2)],
            count: 3,
            sum_ms: 400,
        },
    );
    assert_eq!(
        output,
        "# HELP l_le Currently retained latency observations less than or equal to the bound.\n\
         # TYPE l_le gauge\n\
         l_le{le=\"50\"} 1\n\
         l_le{le=\"100\"} 2\n\
         l_le{le=\"+Inf\"} 3\n\
         # HELP l_observations Currently retained latency observation count.\n\
         # TYPE l_observations gauge\n\
         l_observations 3\n\
         # HELP l_sum_ms Currently retained latency sum.\n\
         # TYPE l_sum_ms gauge\n\
         l_sum_ms 400\n"
    );
}

#[test]
fn all_metrics_are_rendered() {
    let histogram = || LatencyHistogram {
        buckets: Vec::new(),
        count: 0,
        sum_ms: 0,
    };
    let snapshot = ObservabilityMetricsSnapshot {
        request_counts: vec![RequestCount {
            status: "succeeded".to_owned(),
            downstream_mode: "streaming".to_owned(),
            upstream_mode: "streaming".to_owned(),
            http_status_class: "2xx".to_owned(),
            count: 4,
        }],
        request_terminal_counts: Vec::new(),
        attempt_counts: Vec::new(),
        retry_count: 2,
        loop_abort_count: 1,
        upstream_error_counts: vec![UpstreamErrorCount {
            kind: "timeout".to_owned(),
            http_status_class: "none".to_owned(),
            count: 5,
        }],
        first_token_latency_ms: histogram(),
        total_latency_ms: histogram(),
        heartbeat_mode_counts: vec![HeartbeatModeCount {
            mode: "sse".to_owned(),
            count: 6,
        }],
        record_count: 7,
        observed_bytes: 8,
        prune_events: 9,
        pruned_requests: 10,
        pruned_attempts: 11,
    };
    let counts = |active, queued| AdmissionCounts { active, queued };
    let admission = admission_metrics_snapshot(
        counts(1, 2),
        ["b", "c", "a"]
            .iter()
            .map(|name| ProfileAdmissionMetrics {
                profile: (*name).to_owned(),
                counts: counts(3, 4),
            })
            .collect(),
    );
    let names: Vec<&str> = admission
        .profiles
        .iter()
        .map(|profile| profile.profile.as_str())
        .collect();
    assert_eq!(names, vec!["a", "b", "c"]);
    let text = render_metrics(
        &snapshot,
        &admission,
        12,
        13,
        UpstreamFailureSnapshot {
            connect_failed: 14,
            timeout: 15,
            body_error: 16,
            status_error: 17,
            transport_error: 18,
        },
        WatchdogMetricsSnapshot {
            detections: 19,
            restarts: 20,
            recovery_successes: 21,
            recovery_timeouts: 22,
            restart_queue_depth: 23,
        },
    );
    for line in [
        "llm_guard_proxy_generation_active 1\n",
        "llm_guard_proxy_generation_profile_queued{profile=\"a\"} 4\n",
        "llm_guard_proxy_current_retained_requests{status=\"succeeded\",downstream_mode=\"streaming\",upstream_mode=\"streaming\",http_status_class=\"2xx\"} 4\n",
        "llm_guard_proxy_current_retained_retries 2\n",
        "llm_guard_proxy_current_retained_upstream_errors{kind=\"timeout\",http_status_class=\"none\"} 5\n",
        "llm_guard_proxy_current_retained_heartbeat_modes{mode=\"sse\"} 6\n",
        "llm_guard_proxy_malformed_response_total{kind=\"missing_choices\"} 12\n",
        "llm_guard_proxy_persistence_dropped_total 13\n",
        "llm_guard_proxy_upstream_failure_total{cause=\"timeout\"} 15\n",
        "llm_guard_proxy_stuck_watchdog_restart_queue_depth 23\n",
        "llm_guard_proxy_storage_pruned_attempts_total 11\n",
    ] {
        assert!(text.contains(line), "{line}");
    }
}

#[test]
fn health_is_told() {
    assert_eq!(
        upstream_readiness(false, None, true, None),
        HealthUpstreamStatus::Disabled
    );
    assert_eq!(
        upstream_readiness(true, None, false, None),
        HealthUpstreamStatus::Unavailable
    );
    assert_eq!(
        upstream_readiness(true, Some(401), false, None),
        HealthUpstreamStatus::Ready
    );
    assert_eq!(
        upstream_readiness(true, Some(200), true, Some(500)),
        HealthUpstreamStatus::Degraded
    );
    let (status, body) = health_response(&report(HealthUpstreamStatus::Unavailable));
    assert_eq!(status, 503);
    let body: serde_json::Value = serde_json::from_str(&body).expect("JSON");
    assert_eq!(body["upstream"], "unavailable");
    assert_eq!(body["process"], "alive");
    assert_eq!(
        render_health(&report(HealthUpstreamStatus::Ready)),
        "llm-guard-proxy request_id=r readiness=ready license=MIT config_path=/etc/p.toml heartbeat_mode=sse heartbeat_interval_secs=15 observability_enabled=false"
    );
    assert_eq!(chat_probe_timeout_ms(60_000), 10_000);
    assert_eq!(chat_probe_timeout_ms(5), 5);
    assert_eq!(
        chat_probe_body(),
        r#"{"max_tokens":1,"messages":[{"content":"ping","role":"user"}],"model":"ping","stream":false}"#
    );
}

#[test]
fn debug_endpoints_are_guarded() {
    let refused = check_debug_access(DebugEndpoint::Summary, false, &Headers::new(), None)
        .err()
        .expect("disabled");
    assert_eq!(refused.status, 404);
    let refused = check_debug_access(DebugEndpoint::LiveRequests, false, &Headers::new(), None)
        .err()
        .expect("disabled");
    assert_eq!(refused.status, 403);
    let refused = check_debug_access(DebugEndpoint::Summary, true, &Headers::new(), Some("t"))
        .err()
        .expect("no token");
    assert_eq!(refused.status, 401);
    let mut headers = Headers::new();
    headers.set_text("x-admin-token", "t");
    assert!(check_debug_access(DebugEndpoint::LiveRequests, true, &headers, Some("t")).is_ok());
    assert!(check_metrics_access(true).is_ok());
    assert_eq!(
        check_metrics_access(false).err().map(|error| error.status),
        Some(404)
    );
}

#[test]
fn summaries_are_limited() {
    assert_eq!(debug_summary_limit(None, 50, 100), 50);
    assert_eq!(debug_summary_limit(Some("a=1&limit=7"), 50, 100), 7);
    assert_eq!(debug_summary_limit(Some("limit=x&limit=8"), 50, 100), 8);
    assert_eq!(debug_summary_limit(Some("limit=0"), 50, 100), 1);
    assert_eq!(debug_summary_limit(Some("limit=500"), 50, 100), 100);
    assert_eq!(debug_summary_limit(Some("limit=5"), 50, 0), 1);
    let mut metadata = Metadata::new();
    metadata.set("k", "v");
    assert_eq!(render_json(&metadata_json(&metadata)), r#"{"k":"v"}"#);
    let summary = render_debug_summary_json(
        3,
        &vec![DebugRequestSummary {
            request_id: "r".to_owned(),
            started_at_unix_ms: 1,
            finished_at_unix_ms: None,
            duration_ms: Some(2),
            downstream_mode: "streaming".to_owned(),
            upstream_mode: "streaming".to_owned(),
            model_id: None,
            status: "failed".to_owned(),
            http_status: Some(502),
            error_reason: Some("x".to_owned()),
            abort_reason: None,
            attempt_count: 1,
            retry_count: 0,
            loop_detected: true,
            request_metadata: metadata,
            response_metadata: Metadata::new(),
        }],
    );
    let summary = value(&summary);
    assert_eq!(summary["limit"], 3);
    assert_eq!(summary["request_count"], 1);
    assert_eq!(summary["requests"][0]["http_status"], 502);
    assert!(summary["requests"][0]["model_id"].is_null());
    assert_eq!(summary["requests"][0]["request_metadata"]["k"], "v");
}

#[test]
fn live_requests_are_told() {
    assert_eq!(
        live_request_id("/debug/requests/abc").as_deref(),
        Some("abc")
    );
    assert_eq!(live_request_id("/debug/requests/"), None);
    let list = value(&render_live_requests_json(&vec![LiveRequestSummary {
        request_id: "r".to_owned(),
        state: "queued".to_owned(),
        model: Some("m".to_owned()),
        profile: None,
        downstream_mode: "streaming".to_owned(),
        elapsed_ms: 5,
        queue_wait_ms: None,
        first_token_latency_ms: None,
        active_ladder_rung: Some(2),
        active_attempt_index: None,
        chunks_downstream: 1,
        bytes_downstream: 2,
        last_progress_at_ms: None,
    }]));
    assert_eq!(list["requests"][0]["active_ladder_rung"], 2);
    let detail = value(&render_live_request_detail_json(&LiveRequestEntry {
        request_id: "r".to_owned(),
        listener: Some("edge".to_owned()),
        profile: None,
        model: None,
        upstream_target: None,
        downstream_mode: "streaming".to_owned(),
        state: "queued".to_owned(),
        created_at_ms: 1,
        last_updated_at_ms: 2,
        queue_wait_ms: None,
        upstream_elapsed_ms: None,
        first_token_latency_ms: None,
        active_ladder_rung: None,
        active_attempt_index: None,
        chunks_downstream: 0,
        bytes_downstream: 0,
        chunks_upstream: 0,
        bytes_upstream: 0,
        last_progress_at_ms: None,
        timeline: vec![LiveRequestEvent {
            at_ms: 1,
            event: "registered".to_owned(),
        }],
    }));
    assert_eq!(detail["timeline"][0]["event"], "registered");
    assert_eq!(
        detail["redaction"],
        "metadata-only; no raw prompts or responses are exposed"
    );
}

#[test]
fn upstreams_are_probed_below_their_base_url() {
    let url = |chat| health_probe_url("http://up:8000/", None, chat).expect("a URL");
    assert_eq!(url(false).as_str(), "http://up:8000/v1/models");
    assert_eq!(url(true).as_str(), "http://up:8000/v1/chat/completions");
    assert!(health_probe_url("nonsense", None, false).is_none());
    assert!(health_probe_url("http://up", Some("not allowed".to_owned()), false).is_none());
    assert!(asks_for_chat(true, Some(401), true));
    assert!(!asks_for_chat(true, Some(500), true));
    assert!(!asks_for_chat(true, None, true));
    assert!(!asks_for_chat(true, Some(200), false));
    assert!(!asks_for_chat(false, Some(200), true));
}
