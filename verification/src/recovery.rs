//! Recovering an upstream before a request is tried again: restarting it, and
//! waiting until it answers.

use crate::clock::{held_sum, min_u64, since, smaller};
use crate::failures::{ReqwestFailureKind, REQUEST_DEADLINE_ABORT_REASON};
use crate::json::{items_field, parse_json, parsed_json, Json, JsonModel, JsonObject};
use crate::metadata::{bound_to, opt_bindings, Bindings, Metadata};
use crate::retry::ShieldedRetryCause;
use crate::text::{
    bool_chars, decimal, joined, opt_chars, opt_str_chars, same_text, signed_decimal, signed_text,
};
use crate::uri::{parse_uri, parsed_uri, RequestTarget};
use vstd::prelude::*;

verus! {

/// Why an upstream is recovered.
#[derive(Clone, Copy, Debug, PartialEq, Eq, Structural)]
pub enum LocalRecoveryCause {
    UpstreamStall,
    TransientStatus,
    TransientTransport,
    RequestDeadline,
}

impl LocalRecoveryCause {
    /// The label of a cause.
    pub open spec fn label(self) -> Seq<char> {
        match self {
            LocalRecoveryCause::UpstreamStall => "upstream_stall"@,
            LocalRecoveryCause::TransientStatus => "transient_status"@,
            LocalRecoveryCause::TransientTransport => "transient_transport"@,
            LocalRecoveryCause::RequestDeadline => "request_deadline"@,
        }
    }

    /// The label of a cause.
    pub fn as_str(self) -> (label: &'static str)
        ensures
            label@ == self.label(),
    {
        match self {
            LocalRecoveryCause::UpstreamStall => "upstream_stall",
            LocalRecoveryCause::TransientStatus => "transient_status",
            LocalRecoveryCause::TransientTransport => "transient_transport",
            LocalRecoveryCause::RequestDeadline => "request_deadline",
        }
    }
}

/// The cause of a recovery after a failure to reach an upstream.
pub open spec fn transport_recovery_cause(
    retry_cause: Option<ShieldedRetryCause>,
    transport_failure: Option<ReqwestFailureKind>,
) -> Option<LocalRecoveryCause> {
    if retry_cause == Some(ShieldedRetryCause::TransientStream) || transport_failure == Some(
        ReqwestFailureKind::Timeout,
    ) || transport_failure == Some(ReqwestFailureKind::Connect) {
        Some(LocalRecoveryCause::TransientTransport)
    } else {
        None
    }
}

/// The cause of a recovery after a failure to reach an upstream.
pub fn local_recovery_transport_cause(
    retry_cause: Option<ShieldedRetryCause>,
    transport_failure: Option<ReqwestFailureKind>,
) -> (cause: Option<LocalRecoveryCause>)
    ensures
        cause == transport_recovery_cause(retry_cause, transport_failure),
{
    match retry_cause {
        Some(ShieldedRetryCause::TransientStream) => {
            return Some(LocalRecoveryCause::TransientTransport);
        },
        _ => {},
    }
    match transport_failure {
        Some(ReqwestFailureKind::Timeout) | Some(ReqwestFailureKind::Connect) => Some(
            LocalRecoveryCause::TransientTransport,
        ),
        _ => None,
    }
}

/// The cause of a recovery after a failed attempt.
pub open spec fn attempt_recovery_cause(
    abort_reason: Option<Seq<char>>,
    retry_cause: Option<ShieldedRetryCause>,
    transport_failure: Option<ReqwestFailureKind>,
) -> Option<LocalRecoveryCause> {
    if abort_reason == Some(REQUEST_DEADLINE_ABORT_REASON@) {
        Some(LocalRecoveryCause::RequestDeadline)
    } else {
        transport_recovery_cause(retry_cause, transport_failure)
    }
}

/// The cause of a recovery after a failed attempt.
pub fn local_recovery_cause_for_attempt_failure(
    abort_reason: &Option<String>,
    retry_cause: Option<ShieldedRetryCause>,
    transport_failure: Option<ReqwestFailureKind>,
) -> (cause: Option<LocalRecoveryCause>)
    ensures
        cause == attempt_recovery_cause(opt_chars(*abort_reason), retry_cause, transport_failure),
{
    if crate::text::opt_reads(abort_reason, REQUEST_DEADLINE_ABORT_REASON) {
        Some(LocalRecoveryCause::RequestDeadline)
    } else {
        local_recovery_transport_cause(retry_cause, transport_failure)
    }
}

/// Whether a status says that an upstream is down.
pub open spec fn is_gateway_status(status: u16) -> bool {
    502 <= status <= 504
}

/// The cause of a recovery after an upstream status.
pub fn local_recovery_cause_for_status(status: u16) -> (cause: Option<LocalRecoveryCause>)
    ensures
        cause == if is_gateway_status(status) {
            Some(LocalRecoveryCause::TransientStatus)
        } else {
            None
        },
{
    if status >= 502 && status <= 504 {
        Some(LocalRecoveryCause::TransientStatus)
    } else {
        None
    }
}

// ---------------------------------------------------------------------------
// What stands before a retry
// ---------------------------------------------------------------------------

/// What a recovery says of a retry.
pub struct LocalRecoveryGate {
    pub metadata: Metadata,
    pub permits_retry: bool,
    pub applied: bool,
    pub permits_deadline_replay: bool,
}

/// The meaning of what a recovery says of a retry.
#[verifier::ext_equal]
pub struct GateModel {
    pub metadata: Bindings,
    pub permits_retry: bool,
    pub applied: bool,
    pub permits_deadline_replay: bool,
}

impl View for LocalRecoveryGate {
    type V = GateModel;

    open spec fn view(&self) -> GateModel {
        GateModel {
            metadata: self.metadata@,
            permits_retry: self.permits_retry,
            applied: self.applied,
            permits_deadline_replay: self.permits_deadline_replay,
        }
    }
}

/// No recovery was called for.
pub open spec fn unapplied_gate() -> GateModel {
    GateModel {
        metadata: Bindings::empty(),
        permits_retry: true,
        applied: false,
        permits_deadline_replay: false,
    }
}

/// A recovery was called for.
pub open spec fn applied_gate(
    metadata: Bindings,
    permits_retry: bool,
    permits_deadline_replay: bool,
) -> GateModel {
    GateModel { metadata, permits_retry, applied: true, permits_deadline_replay }
}

/// A recovery was called for and left out.
pub open spec fn skipped_gate(
    metadata: Bindings,
    status: Seq<char>,
    permits_retry: bool,
) -> GateModel {
    applied_gate(
        metadata.insert("local_recovery_status"@, status).insert(
            "local_recovery_permits_retry"@,
            bool_chars(permits_retry),
        ),
        permits_retry,
        false,
    )
}

/// No recovery was called for.
pub fn unapplied_local_recovery_gate() -> (gate: LocalRecoveryGate)
    ensures
        gate@ == unapplied_gate(),
{
    LocalRecoveryGate {
        metadata: Metadata::new(),
        permits_retry: true,
        applied: false,
        permits_deadline_replay: false,
    }
}

/// A recovery was called for.
pub fn applied_local_recovery_gate(
    metadata: Metadata,
    permits_retry: bool,
    permits_deadline_replay: bool,
) -> (gate: LocalRecoveryGate)
    ensures
        gate@ == applied_gate(metadata@, permits_retry, permits_deadline_replay),
{
    LocalRecoveryGate { metadata, permits_retry, applied: true, permits_deadline_replay }
}

/// A recovery was called for and left out.
pub fn skipped_local_recovery_gate(metadata: Metadata, status: &str, permits_retry: bool) -> (gate:
    LocalRecoveryGate)
    ensures
        gate@ == skipped_gate(metadata@, status@, permits_retry),
{
    let mut metadata = metadata;
    metadata.set("local_recovery_status", status);
    metadata.set_bool("local_recovery_permits_retry", permits_retry);
    applied_local_recovery_gate(metadata, permits_retry, false)
}

/// Whether a recovery came to a status, by itself or by joining another.
pub open spec fn came_to(
    metadata: Bindings,
    status_key: Seq<char>,
    joined_key: Seq<char>,
    status: Seq<char>,
) -> bool {
    bound_to(metadata, status_key, status) || (bound_to(metadata, status_key, "joined_inflight"@)
        && bound_to(metadata, joined_key, status))
}

/// Whether a recovery permits a retry.
pub open spec fn recovery_permits(metadata: Bindings) -> bool {
    ||| bound_to(metadata, "local_recovery_status"@, "skipped_disabled"@)
    ||| bound_to(metadata, "local_recovery_status"@, "skipped_no_command"@)
    ||| came_to(
        metadata,
        "local_recovery_status"@,
        "local_recovery_joined_status"@,
        "succeeded"@,
    )
}

/// Whether a recovery permits a retry.
pub fn local_recovery_permits_retry(metadata: &Metadata) -> (permits: bool)
    ensures
        permits == recovery_permits(metadata@),
{
    metadata.reads("local_recovery_status", "skipped_disabled") || metadata.reads(
        "local_recovery_status",
        "skipped_no_command",
    ) || local_recovery_completed_ready(metadata)
}

/// Whether a recovery brought the upstream back.
pub open spec fn recovery_completed(metadata: Bindings) -> bool {
    came_to(metadata, "local_recovery_status"@, "local_recovery_joined_status"@, "succeeded"@)
}

/// Whether a recovery brought the upstream back.
pub fn local_recovery_completed_ready(metadata: &Metadata) -> (ready: bool)
    ensures
        ready == recovery_completed(metadata@),
{
    metadata.reads("local_recovery_status", "succeeded") || (metadata.reads(
        "local_recovery_status",
        "joined_inflight",
    ) && metadata.reads("local_recovery_joined_status", "succeeded"))
}

/// A recovery that brought the upstream back permits a retry.
pub proof fn completed_recoveries_permit_retries(metadata: Bindings)
    requires
        recovery_completed(metadata),
    ensures
        recovery_permits(metadata),
{
}

/// What a request's local recovery is configured to do.
pub struct LocalRecoveryPolicy {
    pub enabled: bool,
    pub restart_command: Vec<String>,
    pub restart_timeout_ms: u64,
    pub readiness_deadline_ms: u64,
    pub readiness_interval_ms: u64,
    pub max_attempts_per_request: u32,
    pub cooldown_ms: u64,
    pub budget_window_ms: u64,
    pub max_per_window: u32,
}

impl LocalRecoveryPolicy {
    /// Whether the policy can do anything.
    pub open spec fn configured(self) -> bool {
        self.enabled && self.restart_command.len() > 0
    }

    /// Whether the policy can do anything.
    pub fn is_configured(&self) -> (configured: bool)
        ensures
            configured == self.configured(),
    {
        self.enabled && self.restart_command.len() > 0
    }
}

/// What is recorded of a recovery before it runs.
pub open spec fn recovery_bindings(
    policy: LocalRecoveryPolicy,
    cause: LocalRecoveryCause,
    profile: Seq<char>,
) -> Bindings {
    Bindings::empty().insert(
        "local_recovery_configured"@,
        bool_chars(policy.configured()),
    ).insert("local_recovery_cause"@, cause.label()).insert("local_recovery_profile"@, profile)
}

/// Records a recovery before it runs.
pub fn local_recovery_metadata(
    policy: &LocalRecoveryPolicy,
    cause: LocalRecoveryCause,
    profile: &str,
) -> (metadata: Metadata)
    ensures
        metadata@ == recovery_bindings(*policy, cause, profile@),
{
    let mut metadata = Metadata::new();
    metadata.set_bool("local_recovery_configured", policy.is_configured());
    metadata.set("local_recovery_cause", cause.as_str());
    metadata.set("local_recovery_profile", profile);
    metadata
}

/// What is done before a failed attempt is tried again.
pub enum RecoveryPlan {
    /// Nothing: it is known already whether a retry may follow.
    Known(LocalRecoveryGate),
    /// The upstream is recovered, and `metadata` recorded with what comes of it.
    Run { cause: LocalRecoveryCause, metadata: Metadata },
}

/// The meaning of a plan.
#[verifier::ext_equal]
pub enum RecoveryPlanModel {
    Known(GateModel),
    Run { cause: LocalRecoveryCause, metadata: Bindings },
}

impl View for RecoveryPlan {
    type V = RecoveryPlanModel;

    open spec fn view(&self) -> RecoveryPlanModel {
        match self {
            RecoveryPlan::Known(gate) => RecoveryPlanModel::Known(gate@),
            RecoveryPlan::Run { cause, metadata } => RecoveryPlanModel::Run {
                cause: *cause,
                metadata: metadata@,
            },
        }
    }
}

/// What is done before a failed attempt is tried again, and how many recoveries
/// the request has asked for after it. Only a lack of time is recovered from
/// where no retry is in sight.
pub open spec fn recovery_plan(
    policy: LocalRecoveryPolicy,
    profile: Seq<char>,
    can_retry: bool,
    cause: Option<LocalRecoveryCause>,
    client_gone: bool,
    asked: u64,
) -> (RecoveryPlanModel, u64) {
    match cause {
        None => (RecoveryPlanModel::Known(unapplied_gate()), asked),
        Some(cause) => if (!can_retry && !(cause is RequestDeadline)) || !policy.configured() {
            (RecoveryPlanModel::Known(unapplied_gate()), asked)
        } else {
            let metadata = recovery_bindings(policy, cause, profile);
            if client_gone {
                (
                    RecoveryPlanModel::Known(
                        skipped_gate(metadata, "skipped_downstream_dropped"@, false),
                    ),
                    asked,
                )
            } else if asked >= policy.max_attempts_per_request {
                (
                    RecoveryPlanModel::Known(
                        applied_gate(
                            metadata.insert(
                                "local_recovery_status"@,
                                "skipped_request_budget_exhausted"@,
                            ).insert("local_recovery_permits_retry"@, "false"@).insert(
                                "local_recovery_request_attempts_used"@,
                                decimal(asked as nat),
                            ),
                            false,
                            false,
                        ),
                    ),
                    crate::failures::next_count(asked),
                )
            } else {
                (
                    RecoveryPlanModel::Run {
                        cause,
                        metadata: metadata.insert(
                            "local_recovery_request_attempts_used"@,
                            decimal(held_sum(asked, 1) as nat),
                        ),
                    },
                    crate::failures::next_count(asked),
                )
            }
        },
    }
}

/// Plans what is done before a failed attempt is tried again. `asked` counts the
/// recoveries that the request has asked for.
pub fn plan_local_recovery(
    policy: &LocalRecoveryPolicy,
    profile: &str,
    can_retry: bool,
    cause: Option<LocalRecoveryCause>,
    client_gone: bool,
    asked: &mut u64,
) -> (plan: RecoveryPlan)
    ensures
        (plan@, *final(asked)) == recovery_plan(
            *policy,
            profile@,
            can_retry,
            cause,
            client_gone,
            *old(asked),
        ),
{
    let cause = match cause {
        Some(cause) => cause,
        None => {
            return RecoveryPlan::Known(unapplied_local_recovery_gate());
        },
    };
    if (!can_retry && cause != LocalRecoveryCause::RequestDeadline) || !policy.is_configured() {
        return RecoveryPlan::Known(unapplied_local_recovery_gate());
    }
    let mut metadata = local_recovery_metadata(policy, cause, profile);
    if client_gone {
        return RecoveryPlan::Known(
            skipped_local_recovery_gate(metadata, "skipped_downstream_dropped", false),
        );
    }
    let previous: u64 = *asked;
    *asked = asked.wrapping_add(1);
    if previous >= policy.max_attempts_per_request as u64 {
        metadata.set("local_recovery_status", "skipped_request_budget_exhausted");
        metadata.set("local_recovery_permits_retry", "false");
        metadata.set_number("local_recovery_request_attempts_used", previous);
        return RecoveryPlan::Known(applied_local_recovery_gate(metadata, false, false));
    }
    metadata.set_number("local_recovery_request_attempts_used", previous.saturating_add(1));
    RecoveryPlan::Run { cause, metadata }
}

/// What a recovery that has run says of a retry.
pub open spec fn gate_after(
    cause: LocalRecoveryCause,
    planned: Bindings,
    result: Bindings,
) -> GateModel {
    let metadata = planned.union_prefer_right(result);
    applied_gate(
        metadata.insert(
            "local_recovery_permits_retry"@,
            bool_chars(recovery_permits(metadata)),
        ),
        recovery_permits(metadata),
        cause is RequestDeadline && recovery_completed(metadata),
    )
}

/// What a recovery that has run says of a retry. A request that ran out of time may replay
/// once where the upstream came back, which is counted in `replay_permits`.
pub fn gate_after_local_recovery(
    cause: LocalRecoveryCause,
    planned: Metadata,
    result: &Metadata,
    replay_permits: &mut u64,
) -> (gate: LocalRecoveryGate)
    ensures
        gate@ == gate_after(cause, planned@, result@),
        *final(replay_permits) == if gate.permits_deadline_replay {
            crate::failures::next_count(*old(replay_permits))
        } else {
            *old(replay_permits)
        },
{
    let mut metadata = planned;
    metadata.extend(result);
    let permits_retry = local_recovery_permits_retry(&metadata);
    let permits_deadline_replay = cause == LocalRecoveryCause::RequestDeadline
        && local_recovery_completed_ready(&metadata);
    if permits_deadline_replay {
        *replay_permits = replay_permits.wrapping_add(1);
    }
    metadata.set_bool("local_recovery_permits_retry", permits_retry);
    applied_local_recovery_gate(metadata, permits_retry, permits_deadline_replay)
}

/// A request may replay past its time only after a recovery that also permits a
/// retry.
pub proof fn replays_follow_recoveries(
    cause: LocalRecoveryCause,
    planned: Bindings,
    result: Bindings,
)
    requires
        gate_after(cause, planned, result).permits_deadline_replay,
    ensures
        gate_after(cause, planned, result).permits_retry,
        gate_after(cause, planned, result).applied,
        cause is RequestDeadline,
{
}

/// Uses up one permit to replay past the time of a request, if there is one.
pub fn consume_local_recovery_deadline_replay_permit(replay_permits: &mut u64) -> (granted: bool)
    ensures
        granted == (*old(replay_permits) > 0),
        *final(replay_permits) == if *old(replay_permits) > 0 {
            (*old(replay_permits) - 1) as u64
        } else {
            0
        },
{
    if *replay_permits > 0 {
        *replay_permits = *replay_permits - 1;
        true
    } else {
        false
    }
}

// ---------------------------------------------------------------------------
// One recovery at a time
// ---------------------------------------------------------------------------

/// The state of the recoveries of one upstream. Times are in milliseconds.
pub struct UpstreamStallRecoveryState {
    pub running: bool,
    pub recovery_started: Option<u64>,
    pub recovery_deadline: Option<u64>,
    pub last_finished: Option<u64>,
    pub window_started: Option<u64>,
    pub runs_in_window: u32,
    pub last_result: Option<Metadata>,
}

/// The meaning of the state of the recoveries of one upstream.
#[verifier::ext_equal]
pub struct RecoveryModel {
    pub running: bool,
    pub recovery_started: Option<u64>,
    pub recovery_deadline: Option<u64>,
    pub last_finished: Option<u64>,
    pub window_started: Option<u64>,
    pub runs_in_window: u32,
    pub last_result: Option<Bindings>,
}

impl View for UpstreamStallRecoveryState {
    type V = RecoveryModel;

    open spec fn view(&self) -> RecoveryModel {
        RecoveryModel {
            running: self.running,
            recovery_started: self.recovery_started,
            recovery_deadline: self.recovery_deadline,
            last_finished: self.last_finished,
            window_started: self.window_started,
            runs_in_window: self.runs_in_window,
            last_result: opt_bindings(self.last_result),
        }
    }
}

/// How often recoveries may run.
#[derive(Clone, Copy, Debug, PartialEq, Eq, Structural)]
pub struct RecoveryLimits {
    pub cooldown_ms: u64,
    pub budget_window_ms: u64,
    pub max_per_window: u32,
}

/// Whether a recovery may start.
#[derive(Clone, Copy, Debug, PartialEq, Eq, Structural)]
pub enum RecoveryAdmission {
    /// One is running, which can be joined.
    Running,
    /// The last one has not been over for long enough.
    Cooling { remaining_ms: u64 },
    /// There have been too many in this window.
    Exhausted { runs: u32 },
    /// It starts.
    Started,
}

/// Whether the window of recoveries is over.
pub open spec fn window_over(state: RecoveryModel, limits: RecoveryLimits, now_ms: u64) -> bool {
    let started = match state.window_started {
        Some(started) => started,
        None => now_ms,
    };
    since(now_ms, started) >= limits.budget_window_ms
}

/// One more run, up to the largest number.
pub open spec fn one_more_run(runs: u32) -> u32 {
    if runs == u32::MAX {
        runs
    } else {
        (runs + 1) as u32
    }
}

/// Whether a recovery may start, and the state after it was asked for.
pub open spec fn admitted(
    state: RecoveryModel,
    limits: RecoveryLimits,
    now_ms: u64,
) -> (RecoveryAdmission, RecoveryModel) {
    let cooling = match state.last_finished {
        Some(finished) => since(now_ms, finished) < limits.cooldown_ms,
        None => false,
    };
    if state.running {
        (RecoveryAdmission::Running, state)
    } else if cooling {
        (
            RecoveryAdmission::Cooling {
                remaining_ms: (limits.cooldown_ms - since(
                    now_ms,
                    state.last_finished->Some_0,
                )) as u64,
            },
            state,
        )
    } else if window_over(state, limits, now_ms) {
        (
            RecoveryAdmission::Started,
            RecoveryModel {
                running: true,
                window_started: Some(now_ms),
                runs_in_window: 1,
                ..state
            },
        )
    } else if state.runs_in_window >= limits.max_per_window {
        (RecoveryAdmission::Exhausted { runs: state.runs_in_window }, state)
    } else {
        (
            RecoveryAdmission::Started,
            RecoveryModel {
                running: true,
                window_started: if state.window_started is Some {
                    state.window_started
                } else {
                    Some(now_ms)
                },
                runs_in_window: one_more_run(state.runs_in_window),
                ..state
            },
        )
    }
}

impl UpstreamStallRecoveryState {
    /// No recovery yet.
    pub fn new() -> (state: UpstreamStallRecoveryState)
        ensures
            state@ == (RecoveryModel {
                running: false,
                recovery_started: None,
                recovery_deadline: None,
                last_finished: None,
                window_started: None,
                runs_in_window: 0,
                last_result: None,
            }),
    {
        UpstreamStallRecoveryState {
            running: false,
            recovery_started: None,
            recovery_deadline: None,
            last_finished: None,
            window_started: None,
            runs_in_window: 0,
            last_result: None,
        }
    }

    /// Starts a recovery if one may start.
    pub fn try_start(&mut self, limits: RecoveryLimits, now_ms: u64) -> (admission: RecoveryAdmission)
        ensures
            (admission, final(self)@) == admitted(old(self)@, limits, now_ms),
    {
        if self.running {
            return RecoveryAdmission::Running;
        }
        match self.last_finished {
            Some(finished) => {
                let elapsed: u64 = now_ms.saturating_sub(finished);
                if elapsed < limits.cooldown_ms {
                    return RecoveryAdmission::Cooling {
                        remaining_ms: limits.cooldown_ms - elapsed,
                    };
                }
            },
            None => {},
        }
        let window_started: u64 = match self.window_started {
            Some(started) => started,
            None => now_ms,
        };
        if now_ms.saturating_sub(window_started) >= limits.budget_window_ms {
            self.window_started = Some(now_ms);
            self.runs_in_window = 0;
        } else if self.runs_in_window >= limits.max_per_window {
            return RecoveryAdmission::Exhausted { runs: self.runs_in_window };
        } else if self.window_started.is_none() {
            self.window_started = Some(now_ms);
        }
        self.running = true;
        self.runs_in_window = self.runs_in_window.saturating_add(1);
        RecoveryAdmission::Started
    }
}

/// The state after a recovery has ended.
pub open spec fn finished(state: RecoveryModel, result: Bindings, now_ms: u64) -> RecoveryModel {
    RecoveryModel {
        running: false,
        last_finished: Some(now_ms),
        last_result: Some(result),
        ..state
    }
}

/// Notes what came of a recovery.
pub fn finish_upstream_stall_recovery(
    state: &mut UpstreamStallRecoveryState,
    metadata: Metadata,
    now_ms: u64,
)
    ensures
        final(state)@ == finished(old(state)@, metadata@, now_ms),
{
    state.running = false;
    state.last_finished = Some(now_ms);
    state.last_result = Some(metadata);
}

/// There is never more than one recovery at a time: one that is running is
/// joined, and no other starts.
pub proof fn one_recovery_at_a_time(state: RecoveryModel, limits: RecoveryLimits, now_ms: u64)
    requires
        state.running,
    ensures
        admitted(state, limits, now_ms) == (RecoveryAdmission::Running, state),
{
}

/// After a recovery has ended, no other starts before the cooldown is over.
pub proof fn recoveries_keep_their_distance(
    state: RecoveryModel,
    result: Bindings,
    limits: RecoveryLimits,
    finished_ms: u64,
    now_ms: u64,
)
    requires
        finished_ms <= now_ms,
        now_ms - finished_ms < limits.cooldown_ms,
    ensures
        admitted(finished(state, result, finished_ms), limits, now_ms).0 is Cooling,
{
}

/// Within one window no more recoveries start than the limit says: whenever one
/// starts, the count for its window is at most the limit, or it is the first of
/// a new window.
pub proof fn recoveries_stay_within_budget(
    state: RecoveryModel,
    limits: RecoveryLimits,
    now_ms: u64,
)
    requires
        admitted(state, limits, now_ms).0 is Started,
    ensures
        ({
            let after = admitted(state, limits, now_ms).1;
            &&& after.running
            &&& after.runs_in_window <= limits.max_per_window || (after.runs_in_window == 1
                && after.window_started == Some(now_ms))
        }),
{
}

// ---------------------------------------------------------------------------
// Local recovery
// ---------------------------------------------------------------------------

/// What comes of asking for a recovery.
pub enum RecoveryStart {
    /// Another one is running: its result is waited for.
    Join,
    /// None is started, and this is recorded.
    Skipped(Metadata),
    /// One is started.
    Started,
}

/// How long a recovery of one policy may take.
pub open spec fn recovery_time(policy: LocalRecoveryPolicy, episode_timeout_ms: Option<u64>) -> u64 {
    let full = held_sum(held_sum(policy.restart_timeout_ms, policy.readiness_deadline_ms), 1_000);
    match episode_timeout_ms {
        Some(timeout) => smaller(full, timeout),
        None => full,
    }
}

/// What comes of asking for a local recovery, and the state after it.
pub open spec fn local_recovery_start(
    policy: LocalRecoveryPolicy,
    state: RecoveryModel,
    now_ms: u64,
    episode_timeout_ms: Option<u64>,
) -> (Option<Option<Bindings>>, RecoveryModel) {
    let limits = RecoveryLimits {
        cooldown_ms: policy.cooldown_ms,
        budget_window_ms: policy.budget_window_ms,
        max_per_window: policy.max_per_window,
    };
    let (admission, after) = admitted(state, limits, now_ms);
    match admission {
        RecoveryAdmission::Running => (None, after),
        RecoveryAdmission::Cooling { remaining_ms } => (
            Some(
                Some(
                    Bindings::empty().insert(
                        "local_recovery_status"@,
                        "skipped_cooldown"@,
                    ).insert(
                        "local_recovery_cooldown_remaining_ms"@,
                        decimal(remaining_ms as nat),
                    ),
                ),
            ),
            after,
        ),
        RecoveryAdmission::Exhausted { runs } => (
            Some(
                Some(
                    Bindings::empty().insert(
                        "local_recovery_status"@,
                        "skipped_budget_exhausted"@,
                    ).insert("local_recovery_budget_runs"@, decimal(runs as nat)).insert(
                        "local_recovery_budget_max_per_window"@,
                        decimal(policy.max_per_window as nat),
                    ),
                ),
            ),
            after,
        ),
        RecoveryAdmission::Started => (
            Some(None),
            RecoveryModel {
                recovery_started: Some(now_ms),
                recovery_deadline: Some(
                    held_sum(now_ms, recovery_time(policy, episode_timeout_ms)),
                ),
                ..after
            },
        ),
    }
}

/// The meaning of what comes of asking for a recovery: nothing where another one
/// is joined, else what is recorded where none is started.
pub open spec fn start_model(start: RecoveryStart) -> Option<Option<Bindings>> {
    match start {
        RecoveryStart::Join => None,
        RecoveryStart::Skipped(metadata) => Some(Some(metadata@)),
        RecoveryStart::Started => Some(None),
    }
}

/// Asks for a local recovery.
pub fn begin_local_recovery(
    policy: &LocalRecoveryPolicy,
    state: &mut UpstreamStallRecoveryState,
    now_ms: u64,
    episode_timeout_ms: Option<u64>,
) -> (start: RecoveryStart)
    ensures
        (start_model(start), final(state)@) == local_recovery_start(
            *policy,
            old(state)@,
            now_ms,
            episode_timeout_ms,
        ),
{
    let limits = RecoveryLimits {
        cooldown_ms: policy.cooldown_ms,
        budget_window_ms: policy.budget_window_ms,
        max_per_window: policy.max_per_window,
    };
    match state.try_start(limits, now_ms) {
        RecoveryAdmission::Running => RecoveryStart::Join,
        RecoveryAdmission::Cooling { remaining_ms } => {
            let mut metadata = Metadata::new();
            metadata.set("local_recovery_status", "skipped_cooldown");
            metadata.set_number("local_recovery_cooldown_remaining_ms", remaining_ms);
            RecoveryStart::Skipped(metadata)
        },
        RecoveryAdmission::Exhausted { runs } => {
            let mut metadata = Metadata::new();
            metadata.set("local_recovery_status", "skipped_budget_exhausted");
            metadata.set_number("local_recovery_budget_runs", runs as u64);
            metadata.set_number(
                "local_recovery_budget_max_per_window",
                policy.max_per_window as u64,
            );
            RecoveryStart::Skipped(metadata)
        },
        RecoveryAdmission::Started => {
            let full: u64 = policy.restart_timeout_ms.saturating_add(
                policy.readiness_deadline_ms,
            ).saturating_add(1_000);
            let time: u64 = match episode_timeout_ms {
                Some(timeout) => min_u64(full, timeout),
                None => full,
            };
            state.recovery_started = Some(now_ms);
            state.recovery_deadline = Some(now_ms.saturating_add(time));
            RecoveryStart::Started
        },
    }
}

/// What is recorded of a local recovery that has ended.
pub open spec fn completed_bindings(state: RecoveryModel, joined_inflight: bool) -> Bindings {
    match state.last_result {
        None => Bindings::empty().insert("local_recovery_status"@, "missing_result"@),
        Some(result) => if !joined_inflight {
            result
        } else {
            let joined = Bindings::empty().insert("local_recovery_status"@, "joined_inflight"@);
            if result.contains_key("local_recovery_status"@) {
                joined.insert(
                    "local_recovery_joined_status"@,
                    result["local_recovery_status"@],
                )
            } else {
                joined
            }
        },
    }
}

/// Records a local recovery that has ended.
pub fn completed_local_recovery_metadata(
    state: &UpstreamStallRecoveryState,
    joined_inflight: bool,
) -> (metadata: Metadata)
    ensures
        metadata@ == completed_bindings(state@, joined_inflight),
{
    let result = match &state.last_result {
        Some(result) => result,
        None => {
            let mut missing = Metadata::new();
            missing.set("local_recovery_status", "missing_result");
            return missing;
        },
    };
    if !joined_inflight {
        return result.clone();
    }
    let mut joined = Metadata::new();
    joined.set("local_recovery_status", "joined_inflight");
    match result.get("local_recovery_status") {
        Some(status) => {
            joined.set("local_recovery_joined_status", status.as_str());
        },
        None => {},
    }
    joined
}

/// Joining a recovery that permits a retry permits a retry, and joining one that
/// does not, does not: what the joined recovery came to is what counts.
pub proof fn joining_keeps_the_verdict(state: RecoveryModel)
    requires
        state.last_result is Some,
    ensures
        recovery_completed(completed_bindings(state, true)) == bound_to(
            state.last_result->Some_0,
            "local_recovery_status"@,
            "succeeded"@,
        ),
{
    reveal_strlit("local_recovery_status");
    reveal_strlit("local_recovery_joined_status");
    reveal_strlit("joined_inflight");
    reveal_strlit("succeeded");
    assert("local_recovery_status"@.len() != "local_recovery_joined_status"@.len());
    assert("joined_inflight"@.len() != "succeeded"@.len());
}

/// What a request that waits for a recovery does next.
pub enum RecoveryWait {
    /// The recovery has ended, or the wait is given up.
    Done(Metadata),
    /// It waits at most this long.
    Wait { max_wait_ms: u64 },
}

/// Until when a local recovery is waited for.
pub open spec fn wait_deadline(policy: LocalRecoveryPolicy, state: RecoveryModel, now_ms: u64) -> u64 {
    let started = match state.recovery_started {
        Some(started) => started,
        None => now_ms,
    };
    match state.recovery_deadline {
        Some(deadline) => deadline,
        None => held_sum(started, recovery_time(policy, None)),
    }
}

/// Settles until when a local recovery is waited for.
pub fn settle_recovery_deadline(
    policy: &LocalRecoveryPolicy,
    state: &mut UpstreamStallRecoveryState,
    now_ms: u64,
) -> (deadline_ms: u64)
    ensures
        deadline_ms == wait_deadline(*policy, old(state)@, now_ms),
        final(state)@ == (RecoveryModel {
            recovery_started: Some(
                match old(state).recovery_started {
                    Some(started) => started,
                    None => now_ms,
                },
            ),
            recovery_deadline: Some(deadline_ms),
            ..old(state)@
        }),
{
    let started: u64 = match state.recovery_started {
        Some(started) => started,
        None => now_ms,
    };
    state.recovery_started = Some(started);
    let deadline: u64 = match state.recovery_deadline {
        Some(deadline) => deadline,
        None => started.saturating_add(
            policy.restart_timeout_ms.saturating_add(policy.readiness_deadline_ms).saturating_add(
                1_000,
            ),
        ),
    };
    state.recovery_deadline = Some(deadline);
    deadline
}

/// The meaning of what a waiting request does next.
pub open spec fn wait_model(wait: RecoveryWait) -> Result<Bindings, u64> {
    match wait {
        RecoveryWait::Done(metadata) => Ok(metadata@),
        RecoveryWait::Wait { max_wait_ms } => Err(max_wait_ms),
    }
}

/// Decides what a request that waits for a local recovery does next.
pub fn wait_for_local_recovery_result(
    state: &UpstreamStallRecoveryState,
    joined_inflight: bool,
    deadline_ms: u64,
    now_ms: u64,
) -> (wait: RecoveryWait)
    ensures
        wait_model(wait) == if !state.running {
            Ok::<Bindings, u64>(completed_bindings(state@, joined_inflight))
        } else if since(deadline_ms, now_ms) == 0 {
            Ok::<Bindings, u64>(
                Bindings::empty().insert(
                    "local_recovery_status"@,
                    if joined_inflight {
                        "join_timeout"@
                    } else {
                        "completion_timeout"@
                    },
                ),
            )
        } else {
            Err::<Bindings, u64>(since(deadline_ms, now_ms))
        },
{
    if !state.running {
        return RecoveryWait::Done(completed_local_recovery_metadata(state, joined_inflight));
    }
    let remaining: u64 = deadline_ms.saturating_sub(now_ms);
    if remaining == 0 {
        let mut metadata = Metadata::new();
        if joined_inflight {
            metadata.set("local_recovery_status", "join_timeout");
        } else {
            metadata.set("local_recovery_status", "completion_timeout");
        }
        return RecoveryWait::Done(metadata);
    }
    RecoveryWait::Wait { max_wait_ms: remaining }
}

/// What came of running a command.
pub enum CommandOutcome {
    SpawnFailed { error: String },
    Exited { success: bool, code: Option<i32> },
    WaitFailed { error: String },
    TimedOut { terminated: Metadata },
}

/// What is recorded of a restart command.
pub open spec fn restart_bindings(outcome: CommandOutcome) -> Bindings {
    let ran = Bindings::empty().insert("local_recovery_restart_ran"@, "true"@);
    match outcome {
        CommandOutcome::SpawnFailed { error } => ran.insert(
            "local_recovery_restart_status"@,
            "spawn_failed"@,
        ).insert("local_recovery_restart_error"@, error@).insert(
            "local_recovery_status"@,
            "spawn_failed"@,
        ),
        CommandOutcome::Exited { success, code } => {
            let exited = if success {
                ran.insert("local_recovery_restart_status"@, "succeeded"@)
            } else {
                ran.insert("local_recovery_restart_status"@, "exit_failure"@).insert(
                    "local_recovery_status"@,
                    "exit_failure"@,
                )
            };
            match code {
                Some(code) => exited.insert(
                    "local_recovery_restart_exit_code"@,
                    signed_decimal(code as int),
                ),
                None => exited,
            }
        },
        CommandOutcome::WaitFailed { error } => ran.insert(
            "local_recovery_restart_status"@,
            "wait_failed"@,
        ).insert("local_recovery_restart_error"@, error@).insert(
            "local_recovery_status"@,
            "wait_failed"@,
        ),
        CommandOutcome::TimedOut { terminated } => ran.insert(
            "local_recovery_restart_status"@,
            "timeout_killed"@,
        ).insert("local_recovery_status"@, "timeout_killed"@).union_prefer_right(terminated@),
    }
}

/// Records a restart command.
pub fn restart_command_metadata(outcome: &CommandOutcome) -> (metadata: Metadata)
    ensures
        metadata@ == restart_bindings(*outcome),
{
    let mut metadata = Metadata::new();
    metadata.set("local_recovery_restart_ran", "true");
    match outcome {
        CommandOutcome::SpawnFailed { error } => {
            metadata.set("local_recovery_restart_status", "spawn_failed");
            metadata.set("local_recovery_restart_error", error.as_str());
            metadata.set("local_recovery_status", "spawn_failed");
        },
        CommandOutcome::Exited { success, code } => {
            if *success {
                metadata.set("local_recovery_restart_status", "succeeded");
            } else {
                metadata.set("local_recovery_restart_status", "exit_failure");
                metadata.set("local_recovery_status", "exit_failure");
            }
            match code {
                Some(code) => {
                    metadata.insert("local_recovery_restart_exit_code", signed_text(*code));
                },
                None => {},
            }
        },
        CommandOutcome::WaitFailed { error } => {
            metadata.set("local_recovery_restart_status", "wait_failed");
            metadata.set("local_recovery_restart_error", error.as_str());
            metadata.set("local_recovery_status", "wait_failed");
        },
        CommandOutcome::TimedOut { terminated } => {
            metadata.set("local_recovery_restart_status", "timeout_killed");
            metadata.set("local_recovery_status", "timeout_killed");
            metadata.extend(terminated);
        },
    }
    metadata
}

/// What is recorded of a recovery so far, with its cause.
pub open spec fn triggered_bindings(cause: LocalRecoveryCause, restart: Bindings) -> Bindings {
    Bindings::empty().insert(
        "local_recovery_trigger_cause"@,
        cause.label(),
    ).union_prefer_right(restart)
}

/// Whether the readiness of an upstream is looked at after its restart.
pub fn needs_readiness(restart: &Metadata) -> (needs: bool)
    ensures
        needs == bound_to(restart@, "local_recovery_restart_status"@, "succeeded"@),
{
    restart.reads("local_recovery_restart_status", "succeeded")
}

/// The status of a recovery, by the readiness of the upstream after it.
pub open spec fn readiness_verdict(metadata: Bindings) -> Seq<char> {
    if !metadata.contains_key("local_recovery_readiness_status"@) {
        "restart_failed"@
    } else {
        let readiness = metadata["local_recovery_readiness_status"@];
        if readiness == "ready"@ {
            "succeeded"@
        } else if readiness == "timeout"@ {
            "readiness_timeout"@
        } else if readiness == "error"@ {
            "readiness_error"@
        } else {
            "readiness_not_ready"@
        }
    }
}

/// What is recorded of a recovery that has run: its restart, the readiness after
/// it, and a status.
pub open spec fn recovery_result(
    cause: LocalRecoveryCause,
    restart: Bindings,
    readiness: Option<Bindings>,
) -> Bindings {
    let restarted = triggered_bindings(cause, restart);
    let looked = match readiness {
        Some(readiness) if bound_to(
            restarted,
            "local_recovery_restart_status"@,
            "succeeded"@,
        ) => restarted.union_prefer_right(readiness),
        _ => restarted,
    };
    if looked.contains_key("local_recovery_status"@) {
        looked
    } else {
        looked.insert("local_recovery_status"@, readiness_verdict(looked))
    }
}

/// Records a recovery that has run.
pub fn local_recovery_result(
    cause: LocalRecoveryCause,
    restart: &Metadata,
    readiness: Option<&Metadata>,
) -> (metadata: Metadata)
    ensures
        metadata@ == recovery_result(
            cause,
            restart@,
            match readiness {
                Some(readiness) => Some(readiness@),
                None => None,
            },
        ),
{
    let mut metadata = Metadata::new();
    metadata.set("local_recovery_trigger_cause", cause.as_str());
    metadata.extend(restart);
    match readiness {
        Some(readiness) => {
            if needs_readiness(&metadata) {
                metadata.extend(readiness);
            }
        },
        None => {},
    }
    if !metadata.contains_key("local_recovery_status") {
        let status = match metadata.get("local_recovery_readiness_status") {
            None => "restart_failed",
            Some(readiness) => {
                if same_text(readiness.as_str(), "ready") {
                    "succeeded"
                } else if same_text(readiness.as_str(), "timeout") {
                    "readiness_timeout"
                } else if same_text(readiness.as_str(), "error") {
                    "readiness_error"
                } else {
                    "readiness_not_ready"
                }
            },
        };
        metadata.set("local_recovery_status", status);
    }
    metadata
}

/// What is recorded of a recovery that took too long.
pub fn local_recovery_episode_timeout(cause: LocalRecoveryCause) -> (metadata: Metadata)
    ensures
        metadata@ == Bindings::empty().insert(
            "local_recovery_trigger_cause"@,
            cause.label(),
        ).insert("local_recovery_status"@, "episode_timeout"@),
{
    let mut metadata = Metadata::new();
    metadata.set("local_recovery_trigger_cause", cause.as_str());
    metadata.set("local_recovery_status", "episode_timeout");
    metadata
}

// ---------------------------------------------------------------------------
// Probing
// ---------------------------------------------------------------------------

/// What came of probing an upstream.
pub enum ProbeEnd {
    Ready,
    Timeout,
    Error(String),
}

/// What is done after one probe.
pub enum ProbeStep {
    /// Probing ends.
    Done(ProbeEnd),
    /// The next probe comes after this long.
    Sleep { sleep_ms: u64 },
}

/// Whether probing has run out of time before the next probe.
pub fn probe_time_is_up(deadline_ms: u64, now_ms: u64) -> (up: bool)
    ensures
        up == (now_ms >= deadline_ms),
{
    now_ms >= deadline_ms
}

/// What is done after one probe: a ready upstream ends it, a failure ends it only
/// once the time is up, and otherwise the next probe comes after the interval,
/// or when the time is up if that is sooner.
pub open spec fn step_after_probe(
    probe: Result<bool, String>,
    interval_ms: u64,
    deadline_ms: u64,
    now_ms: u64,
) -> ProbeStep {
    match probe {
        Ok(true) => ProbeStep::Done(ProbeEnd::Ready),
        Err(error) if now_ms >= deadline_ms => ProbeStep::Done(ProbeEnd::Error(error)),
        _ => if now_ms >= deadline_ms {
            ProbeStep::Done(ProbeEnd::Timeout)
        } else {
            ProbeStep::Sleep { sleep_ms: smaller(interval_ms, (deadline_ms - now_ms) as u64) }
        },
    }
}

/// Decides what is done after one probe.
pub fn after_probe(
    probe: Result<bool, String>,
    interval_ms: u64,
    deadline_ms: u64,
    now_ms: u64,
) -> (step: ProbeStep)
    ensures
        step == step_after_probe(probe, interval_ms, deadline_ms, now_ms),
{
    match probe {
        Ok(ready) => {
            if ready {
                return ProbeStep::Done(ProbeEnd::Ready);
            }
        },
        Err(error) => {
            if now_ms >= deadline_ms {
                return ProbeStep::Done(ProbeEnd::Error(error));
            }
        },
    }
    let remaining: u64 = deadline_ms.saturating_sub(now_ms);
    if remaining == 0 {
        return ProbeStep::Done(ProbeEnd::Timeout);
    }
    ProbeStep::Sleep { sleep_ms: min_u64(interval_ms, remaining) }
}

/// A probe loop never sleeps past its time.
pub proof fn probing_ends_in_time(
    probe: Result<bool, String>,
    interval_ms: u64,
    deadline_ms: u64,
    now_ms: u64,
)
    ensures
        match step_after_probe(probe, interval_ms, deadline_ms, now_ms) {
            ProbeStep::Sleep { sleep_ms } => now_ms < deadline_ms && now_ms + sleep_ms
                <= deadline_ms,
            ProbeStep::Done(_) => true,
        },
{
}

/// What is recorded of the readiness of an upstream.
pub open spec fn readiness_bindings(end: ProbeEnd) -> Bindings {
    match end {
        ProbeEnd::Ready => Bindings::empty().insert(
            "local_recovery_readiness_status"@,
            "ready"@,
        ),
        ProbeEnd::Timeout => Bindings::empty().insert(
            "local_recovery_readiness_status"@,
            "timeout"@,
        ),
        ProbeEnd::Error(error) => Bindings::empty().insert(
            "local_recovery_readiness_status"@,
            "error"@,
        ).insert("local_recovery_readiness_error"@, error@),
    }
}

/// Records the readiness of an upstream.
pub fn readiness_metadata(end: &ProbeEnd) -> (metadata: Metadata)
    ensures
        metadata@ == readiness_bindings(*end),
{
    let mut metadata = Metadata::new();
    match end {
        ProbeEnd::Ready => {
            metadata.set("local_recovery_readiness_status", "ready");
        },
        ProbeEnd::Timeout => {
            metadata.set("local_recovery_readiness_status", "timeout");
        },
        ProbeEnd::Error(error) => {
            metadata.set("local_recovery_readiness_status", "error");
            metadata.set("local_recovery_readiness_error", error.as_str());
        },
    }
    metadata
}

/// Whether a probe was answered with at least one choice.
pub open spec fn answers_with_choices(value: JsonModel) -> bool {
    match items_field(value, "choices"@) {
        Some(items) => items.len() > 0,
        None => false,
    }
}

/// Where a restarted upstream is probed.
pub open spec fn readiness_uri(endpoint: Seq<char>) -> Result<
    (Seq<char>, Option<Seq<char>>),
    Seq<char>,
> {
    match parsed_uri(endpoint) {
        Ok(target) => Ok(target),
        Err(error) => Err("readiness endpoint parse failed: "@ + error),
    }
}

/// Where a restarted upstream is probed.
pub fn readiness_target(endpoint: &str) -> (target: Result<RequestTarget, String>)
    ensures
        match target {
            Ok(target) => readiness_uri(endpoint@) == Ok::<
                (Seq<char>, Option<Seq<char>>),
                Seq<char>,
            >(target@),
            Err(error) => readiness_uri(endpoint@) == Err::<
                (Seq<char>, Option<Seq<char>>),
                Seq<char>,
            >(error@),
        },
{
    match parse_uri(endpoint) {
        Ok(target) => Ok(target),
        Err(error) => Err(joined("readiness endpoint parse failed: ", error.as_str())),
    }
}

/// What the body of a successful answer says to a probe: whether there is a choice, or
/// why that cannot be told.
pub open spec fn probe_answer(prefix: Seq<char>, body: Seq<u8>) -> Result<bool, Seq<char>> {
    match parsed_json(body) {
        Ok(value) => Ok(answers_with_choices(value)),
        Err(error) => Err(prefix + error),
    }
}

/// What a probe comes to.
pub open spec fn probe_model(probe: Result<bool, String>) -> Result<bool, Seq<char>> {
    match probe {
        Ok(ready) => Ok(ready),
        Err(error) => Err(error@),
    }
}

/// What the body of a successful answer says of a restarted upstream.
pub fn readiness_probe_answer(body: &[u8]) -> (probe: Result<bool, String>)
    ensures
        probe_model(probe) == probe_answer("readiness response JSON decode failed: "@, body@),
{
    match parse_json(body) {
        Ok(value) => Ok(is_valid_chat_completion_probe_response(&value)),
        Err(error) => Err(joined("readiness response JSON decode failed: ", error.as_str())),
    }
}

/// Whether a probe was answered with at least one choice.
pub fn is_valid_chat_completion_probe_response(value: &Json) -> (valid: bool)
    ensures
        valid == answers_with_choices(value@),
{
    match value.get_array("choices") {
        Some(items) => items.len() > 0,
        None => false,
    }
}

/// Whether a hot-restart probe was answered with at least one choice.
pub fn is_valid_hot_restart_completion(value: &Json) -> (valid: bool)
    ensures
        valid == answers_with_choices(value@),
{
    is_valid_chat_completion_probe_response(value)
}

/// What the body of a successful answer says of an upstream that restarts.
pub fn hot_restart_probe_answer(body: &[u8]) -> (probe: Result<bool, String>)
    ensures
        probe_model(probe) == probe_answer("probe response JSON decode failed: "@, body@),
{
    match parse_json(body) {
        Ok(value) => Ok(is_valid_hot_restart_completion(&value)),
        Err(error) => Err(joined("probe response JSON decode failed: ", error.as_str())),
    }
}

/// Where an upstream that restarts is probed.
pub fn hot_restart_target() -> (target: RequestTarget)
    ensures
        target@ == ("/v1/chat/completions"@, None::<Seq<char>>),
{
    RequestTarget { path: "/v1/chat/completions".to_owned(), query: None }
}

// ---------------------------------------------------------------------------
// Recovery from stalls
// ---------------------------------------------------------------------------

/// How a stalled upstream is recovered.
pub struct UpstreamStallPolicy {
    pub enabled: bool,
    pub first_chunk_timeout_ms: u64,
    pub idle_timeout_ms: u64,
    pub recovery_command: Vec<String>,
    pub recovery_timeout_ms: u64,
    pub recovery_cooldown_ms: u64,
    pub recovery_budget_window_ms: u64,
    pub recovery_max_per_window: u32,
}

/// How long the chunks of a stream are waited for.
#[derive(Clone, Copy, Debug, PartialEq, Eq, Structural)]
pub struct UpstreamStreamTimeouts {
    pub first_chunk_ms: u64,
    pub inter_chunk_ms: u64,
}

impl UpstreamStallPolicy {
    /// How long the chunks of a stream are waited for, where stalls are detected.
    pub fn stream_timeouts(&self) -> (timeouts: Option<UpstreamStreamTimeouts>)
        ensures
            timeouts == if self.enabled {
                Some(
                    UpstreamStreamTimeouts {
                        first_chunk_ms: self.first_chunk_timeout_ms,
                        inter_chunk_ms: self.idle_timeout_ms,
                    },
                )
            } else {
                None
            },
    {
        if self.enabled {
            Some(
                UpstreamStreamTimeouts {
                    first_chunk_ms: self.first_chunk_timeout_ms,
                    inter_chunk_ms: self.idle_timeout_ms,
                },
            )
        } else {
            None
        }
    }
}

/// What is recorded of a stall recovery before it runs.
pub open spec fn stall_bindings(configured: bool) -> Bindings {
    Bindings::empty().insert("upstream_stall_recovery_configured"@, bool_chars(configured))
}

/// Records a stall recovery before it runs.
pub fn upstream_stall_recovery_metadata(configured: bool) -> (metadata: Metadata)
    ensures
        metadata@ == stall_bindings(configured),
{
    let mut metadata = Metadata::new();
    metadata.set_bool("upstream_stall_recovery_configured", configured);
    metadata
}

/// Whether a stall recovery permits a retry.
pub open spec fn stall_recovery_permits(metadata: Bindings) -> bool {
    bound_to(metadata, "upstream_stall_recovery_status"@, "skipped_no_command"@) || came_to(
        metadata,
        "upstream_stall_recovery_status"@,
        "upstream_stall_recovery_joined_status"@,
        "succeeded"@,
    )
}

/// Whether a stall recovery permits a retry.
pub fn upstream_stall_recovery_permits_retry(metadata: &Metadata) -> (permits: bool)
    ensures
        permits == stall_recovery_permits(metadata@),
{
    metadata.reads("upstream_stall_recovery_status", "skipped_no_command") || metadata.reads(
        "upstream_stall_recovery_status",
        "succeeded",
    ) || (metadata.reads("upstream_stall_recovery_status", "joined_inflight") && metadata.reads(
        "upstream_stall_recovery_joined_status",
        "succeeded",
    ))
}

/// What comes of asking for a stall recovery, and the state after it.
pub open spec fn stall_recovery_start(
    policy: UpstreamStallPolicy,
    state: RecoveryModel,
    now_ms: u64,
) -> (Option<Option<Bindings>>, RecoveryModel) {
    let metadata = stall_bindings(policy.recovery_command.len() > 0);
    if policy.recovery_command.len() == 0 {
        (
            Some(
                Some(metadata.insert("upstream_stall_recovery_status"@, "skipped_no_command"@)),
            ),
            state,
        )
    } else {
        let limits = RecoveryLimits {
            cooldown_ms: policy.recovery_cooldown_ms,
            budget_window_ms: policy.recovery_budget_window_ms,
            max_per_window: policy.recovery_max_per_window,
        };
        let (admission, after) = admitted(state, limits, now_ms);
        match admission {
            RecoveryAdmission::Running => (None, after),
            RecoveryAdmission::Cooling { remaining_ms } => (
                Some(
                    Some(
                        metadata.insert(
                            "upstream_stall_recovery_status"@,
                            "skipped_cooldown"@,
                        ).insert(
                            "upstream_stall_recovery_cooldown_remaining_ms"@,
                            decimal(remaining_ms as nat),
                        ),
                    ),
                ),
                after,
            ),
            RecoveryAdmission::Exhausted { runs } => (
                Some(
                    Some(
                        metadata.insert(
                            "upstream_stall_recovery_status"@,
                            "skipped_budget_exhausted"@,
                        ).insert("upstream_stall_recovery_budget_runs"@, decimal(runs as nat)).insert(
                            "upstream_stall_recovery_budget_max_per_window"@,
                            decimal(policy.recovery_max_per_window as nat),
                        ),
                    ),
                ),
                after,
            ),
            RecoveryAdmission::Started => (Some(None), after),
        }
    }
}

/// Asks for a stall recovery.
pub fn begin_upstream_stall_recovery(
    policy: &UpstreamStallPolicy,
    state: &mut UpstreamStallRecoveryState,
    now_ms: u64,
) -> (start: RecoveryStart)
    ensures
        (start_model(start), final(state)@) == stall_recovery_start(*policy, old(state)@, now_ms),
{
    let mut metadata = upstream_stall_recovery_metadata(policy.recovery_command.len() > 0);
    if policy.recovery_command.len() == 0 {
        metadata.set("upstream_stall_recovery_status", "skipped_no_command");
        return RecoveryStart::Skipped(metadata);
    }
    let limits = RecoveryLimits {
        cooldown_ms: policy.recovery_cooldown_ms,
        budget_window_ms: policy.recovery_budget_window_ms,
        max_per_window: policy.recovery_max_per_window,
    };
    match state.try_start(limits, now_ms) {
        RecoveryAdmission::Running => RecoveryStart::Join,
        RecoveryAdmission::Cooling { remaining_ms } => {
            metadata.set("upstream_stall_recovery_status", "skipped_cooldown");
            metadata.set_number("upstream_stall_recovery_cooldown_remaining_ms", remaining_ms);
            RecoveryStart::Skipped(metadata)
        },
        RecoveryAdmission::Exhausted { runs } => {
            metadata.set("upstream_stall_recovery_status", "skipped_budget_exhausted");
            metadata.set_number("upstream_stall_recovery_budget_runs", runs as u64);
            metadata.set_number(
                "upstream_stall_recovery_budget_max_per_window",
                policy.recovery_max_per_window as u64,
            );
            RecoveryStart::Skipped(metadata)
        },
        RecoveryAdmission::Started => RecoveryStart::Started,
    }
}

/// What is recorded of a stall recovery that has ended.
pub open spec fn completed_stall_bindings(
    metadata: Bindings,
    state: RecoveryModel,
    joined_inflight: bool,
) -> Bindings {
    match state.last_result {
        None => metadata.insert("upstream_stall_recovery_status"@, "missing_result"@),
        Some(result) => if !joined_inflight {
            result
        } else {
            let joined = metadata.insert("upstream_stall_recovery_status"@, "joined_inflight"@);
            if result.contains_key("upstream_stall_recovery_status"@) {
                joined.insert(
                    "upstream_stall_recovery_joined_status"@,
                    result["upstream_stall_recovery_status"@],
                )
            } else {
                joined
            }
        },
    }
}

/// Records a stall recovery that has ended.
pub fn completed_upstream_stall_recovery_metadata(
    metadata: &Metadata,
    state: &UpstreamStallRecoveryState,
    joined_inflight: bool,
) -> (completed: Metadata)
    ensures
        completed@ == completed_stall_bindings(metadata@, state@, joined_inflight),
{
    let result = match &state.last_result {
        Some(result) => result,
        None => {
            let mut missing = metadata.clone();
            missing.set("upstream_stall_recovery_status", "missing_result");
            return missing;
        },
    };
    if !joined_inflight {
        return result.clone();
    }
    let mut joined = metadata.clone();
    joined.set("upstream_stall_recovery_status", "joined_inflight");
    match result.get("upstream_stall_recovery_status") {
        Some(status) => {
            joined.set("upstream_stall_recovery_joined_status", status.as_str());
        },
        None => {},
    }
    joined
}

/// Decides what a request that waits for a stall recovery does next. It looks
/// again after `poll_interval_ms` at the latest.
pub fn wait_for_upstream_stall_recovery_result(
    state: &UpstreamStallRecoveryState,
    joined_inflight: bool,
    deadline_ms: u64,
    poll_interval_ms: u64,
    now_ms: u64,
) -> (wait: RecoveryWait)
    ensures
        wait_model(wait) == if !state.running {
            Ok::<Bindings, u64>(
                completed_stall_bindings(stall_bindings(true), state@, joined_inflight),
            )
        } else if since(deadline_ms, now_ms) == 0 {
            Ok::<Bindings, u64>(
                stall_bindings(true).insert(
                    "upstream_stall_recovery_status"@,
                    if joined_inflight {
                        "join_timeout"@
                    } else {
                        "completion_timeout"@
                    },
                ),
            )
        } else {
            Err::<Bindings, u64>(smaller(since(deadline_ms, now_ms), poll_interval_ms))
        },
{
    let mut metadata = upstream_stall_recovery_metadata(true);
    if !state.running {
        return RecoveryWait::Done(
            completed_upstream_stall_recovery_metadata(&metadata, state, joined_inflight),
        );
    }
    let remaining: u64 = deadline_ms.saturating_sub(now_ms);
    if remaining == 0 {
        if joined_inflight {
            metadata.set("upstream_stall_recovery_status", "join_timeout");
        } else {
            metadata.set("upstream_stall_recovery_status", "completion_timeout");
        }
        return RecoveryWait::Done(metadata);
    }
    RecoveryWait::Wait { max_wait_ms: min_u64(remaining, poll_interval_ms) }
}

/// What is recorded of the command of a stall recovery.
pub open spec fn stall_command_bindings(outcome: CommandOutcome) -> Bindings {
    let ran = Bindings::empty().insert("upstream_stall_recovery_ran"@, "true"@);
    match outcome {
        CommandOutcome::SpawnFailed { error } => ran.insert(
            "upstream_stall_recovery_status"@,
            "spawn_failed"@,
        ).insert("upstream_stall_recovery_error"@, error@),
        CommandOutcome::Exited { success, code } => {
            let exited = ran.insert(
                "upstream_stall_recovery_status"@,
                if success {
                    "succeeded"@
                } else {
                    "exit_failure"@
                },
            );
            match code {
                Some(code) => exited.insert(
                    "upstream_stall_recovery_exit_code"@,
                    signed_decimal(code as int),
                ),
                None => exited,
            }
        },
        CommandOutcome::WaitFailed { error } => ran.insert(
            "upstream_stall_recovery_status"@,
            "wait_failed"@,
        ).insert("upstream_stall_recovery_error"@, error@),
        CommandOutcome::TimedOut { terminated } => ran.insert(
            "upstream_stall_recovery_status"@,
            "timeout_killed"@,
        ).union_prefer_right(terminated@),
    }
}

/// Records a stall recovery whose command has run.
pub fn upstream_stall_command_result(outcome: &CommandOutcome) -> (metadata: Metadata)
    ensures
        metadata@ == stall_bindings(true).union_prefer_right(stall_command_bindings(*outcome)),
{
    let mut ran = Metadata::new();
    ran.set("upstream_stall_recovery_ran", "true");
    match outcome {
        CommandOutcome::SpawnFailed { error } => {
            ran.set("upstream_stall_recovery_status", "spawn_failed");
            ran.set("upstream_stall_recovery_error", error.as_str());
        },
        CommandOutcome::Exited { success, code } => {
            if *success {
                ran.set("upstream_stall_recovery_status", "succeeded");
            } else {
                ran.set("upstream_stall_recovery_status", "exit_failure");
            }
            match code {
                Some(code) => {
                    ran.insert("upstream_stall_recovery_exit_code", signed_text(*code));
                },
                None => {},
            }
        },
        CommandOutcome::WaitFailed { error } => {
            ran.set("upstream_stall_recovery_status", "wait_failed");
            ran.set("upstream_stall_recovery_error", error.as_str());
        },
        CommandOutcome::TimedOut { terminated } => {
            ran.set("upstream_stall_recovery_status", "timeout_killed");
            ran.extend(terminated);
        },
    }
    let mut metadata = upstream_stall_recovery_metadata(true);
    metadata.extend(&ran);
    metadata
}

/// What a stall recovery says of a retry.
pub struct UpstreamStallRecoveryGate {
    pub metadata: Metadata,
    pub permits_retry: bool,
}

/// Whether a retry waits for the recovery of a stalled upstream.
pub fn stall_recovery_applies(can_retry: bool, retry_cause: Option<ShieldedRetryCause>) -> (applies:
    bool)
    ensures
        applies == (can_retry && retry_cause == Some(ShieldedRetryCause::UpstreamStall)),
{
    can_retry && match retry_cause {
        Some(ShieldedRetryCause::UpstreamStall) => true,
        _ => false,
    }
}

/// A retry that waits for no recovery.
pub fn open_stall_recovery_gate() -> (gate: UpstreamStallRecoveryGate)
    ensures
        gate.metadata@ == Bindings::empty(),
        gate.permits_retry,
{
    UpstreamStallRecoveryGate { metadata: Metadata::new(), permits_retry: true }
}

/// What a stall recovery that has run says of a retry.
pub fn gate_after_stall_recovery(result: Metadata) -> (gate: UpstreamStallRecoveryGate)
    ensures
        gate.permits_retry == stall_recovery_permits(result@),
        gate.metadata@ == result@.insert(
            "upstream_stall_recovery_permits_retry"@,
            bool_chars(stall_recovery_permits(result@)),
        ),
{
    let mut metadata = result;
    let permits_retry = upstream_stall_recovery_permits_retry(&metadata);
    metadata.set_bool("upstream_stall_recovery_permits_retry", permits_retry);
    UpstreamStallRecoveryGate { metadata, permits_retry }
}

/// What the local recovery of a stalled upstream says of a retry.
pub fn stall_gate_of_local_recovery(gate: LocalRecoveryGate) -> (stall: UpstreamStallRecoveryGate)
    ensures
        stall.metadata@ == gate.metadata@,
        stall.permits_retry == gate.permits_retry,
{
    UpstreamStallRecoveryGate { metadata: gate.metadata, permits_retry: gate.permits_retry }
}

// ---------------------------------------------------------------------------
// Hot restarts
// ---------------------------------------------------------------------------

/// How the end of a hot restart is waited for.
pub struct HotRestartConfig {
    pub enabled: bool,
    pub probe_interval_secs: u64,
    pub probe_timeout_secs: u64,
    pub probe_max_tokens: u64,
    pub probe_messages: Json,
    pub probe_chat_template_kwargs: Option<Json>,
}

/// How a request ends whose upstream did not come back.
#[derive(Clone, Copy, Debug, PartialEq, Eq, Structural)]
pub enum HotRestartTerminal {
    /// The upstream took too long.
    Timeout { retry_after_secs: u32 },
    /// The upstream could not be probed.
    Error,
    /// The time of the request ran out.
    RequestDeadline,
}

impl HotRestartTerminal {
    /// The HTTP status given to the client.
    pub fn status(self) -> (status: u16)
        ensures
            status == if self is Timeout {
                503u16
            } else {
                502u16
            },
    {
        match self {
            HotRestartTerminal::Timeout { .. } => 503,
            _ => 502,
        }
    }

    /// Seconds after which the request may be tried again.
    pub fn retry_after(self) -> (secs: Option<u32>)
        ensures
            secs == match self {
                HotRestartTerminal::Timeout { retry_after_secs } => Some(retry_after_secs),
                _ => None,
            },
    {
        match self {
            HotRestartTerminal::Timeout { retry_after_secs } => Some(retry_after_secs),
            _ => None,
        }
    }

    /// The abort reason that is recorded.
    pub open spec fn abort_text(self) -> Seq<char> {
        match self {
            HotRestartTerminal::Timeout { .. } => "hot_restart_timeout"@,
            HotRestartTerminal::Error => "hot_restart_error"@,
            HotRestartTerminal::RequestDeadline => REQUEST_DEADLINE_ABORT_REASON@,
        }
    }

    /// The abort reason that is recorded.
    pub fn abort_reason(self) -> (reason: &'static str)
        ensures
            reason@ == self.abort_text(),
    {
        match self {
            HotRestartTerminal::Timeout { .. } => "hot_restart_timeout",
            HotRestartTerminal::Error => "hot_restart_error",
            HotRestartTerminal::RequestDeadline => REQUEST_DEADLINE_ABORT_REASON,
        }
    }
}

/// What a hot restart says of a retry.
pub struct HotRestartGate {
    pub metadata: Metadata,
    pub permits_retry: bool,
    pub terminal: Option<HotRestartTerminal>,
}

/// What is recorded of a hot restart before its end is waited for.
pub open spec fn hot_restart_bindings(configured: bool) -> Bindings {
    Bindings::empty().insert("hot_restart_recovery_configured"@, bool_chars(configured))
}

/// Records a hot restart before its end is waited for.
pub fn hot_restart_recovery_metadata(configured: bool) -> (metadata: Metadata)
    ensures
        metadata@ == hot_restart_bindings(configured),
{
    let mut metadata = Metadata::new();
    metadata.set_bool("hot_restart_recovery_configured", configured);
    metadata
}

/// Whether a status says that an upstream is restarting.
pub fn is_hot_restart_status(status: u16) -> (is: bool)
    ensures
        is == is_gateway_status(status),
{
    status >= 502 && status <= 504
}

/// Whether the end of a hot restart is waited for after a failed attempt.
pub fn hot_restart_applies_to_attempt_failure(
    config: &HotRestartConfig,
    can_retry: bool,
    transport_failure: Option<ReqwestFailureKind>,
) -> (applies: bool)
    ensures
        applies == (can_retry && config.enabled && transport_failure == Some(
            ReqwestFailureKind::Connect,
        )),
{
    can_retry && config.enabled && match transport_failure {
        Some(ReqwestFailureKind::Connect) => true,
        _ => false,
    }
}

/// Whether the end of a hot restart is waited for after an upstream status.
pub fn hot_restart_applies_to_status(config: &HotRestartConfig, can_retry: bool, status: u16) -> (
    applies: bool)
    ensures
        applies == (can_retry && config.enabled && is_gateway_status(status)),
{
    can_retry && config.enabled && is_hot_restart_status(status)
}

/// Seconds after which a request may be tried again whose upstream is restarting.
pub open spec fn retry_after_restart(config: HotRestartConfig) -> u32 {
    if config.probe_interval_secs <= u32::MAX {
        config.probe_interval_secs as u32
    } else {
        u32::MAX
    }
}

/// Seconds after which a request may be tried again whose upstream is restarting.
pub fn hot_restart_retry_after_secs(config: &HotRestartConfig) -> (secs: u32)
    ensures
        secs == retry_after_restart(*config),
{
    if config.probe_interval_secs <= 0xffff_ffff {
        config.probe_interval_secs as u32
    } else {
        0xffff_ffff
    }
}

/// The meaning of what came of probing an upstream.
#[verifier::ext_equal]
pub enum ProbeEndModel {
    Ready,
    Timeout,
    Error(Seq<char>),
}

impl View for ProbeEnd {
    type V = ProbeEndModel;

    open spec fn view(&self) -> ProbeEndModel {
        match *self {
            ProbeEnd::Ready => ProbeEndModel::Ready,
            ProbeEnd::Timeout => ProbeEndModel::Timeout,
            ProbeEnd::Error(error) => ProbeEndModel::Error(error@),
        }
    }
}

impl Clone for ProbeEnd {
    fn clone(&self) -> (copy: ProbeEnd)
        ensures
            copy@ == self@,
    {
        match self {
            ProbeEnd::Ready => ProbeEnd::Ready,
            ProbeEnd::Timeout => ProbeEnd::Timeout,
            ProbeEnd::Error(error) => ProbeEnd::Error(error.clone()),
        }
    }
}

/// The probe that requests share while their upstreams restart.
pub struct HotRestartState {
    /// Whether a probe is under way.
    pub in_progress: bool,
    /// What came of the last probe.
    pub last_result: Option<ProbeEnd>,
}

/// The meaning of the probe that requests share.
#[verifier::ext_equal]
pub struct HotRestartModel {
    pub in_progress: bool,
    pub last_result: Option<ProbeEndModel>,
}

impl View for HotRestartState {
    type V = HotRestartModel;

    open spec fn view(&self) -> HotRestartModel {
        HotRestartModel {
            in_progress: self.in_progress,
            last_result: match self.last_result {
                Some(result) => Some(result@),
                None => None,
            },
        }
    }
}

/// How a request gets its probe.
#[derive(Clone, Copy, Debug, PartialEq, Eq, Structural)]
pub enum HotRestartStart {
    /// It starts one.
    Start,
    /// It waits for the one that is under way.
    Join,
}

/// What a request that waits for a probe does.
pub enum HotRestartWait {
    /// The probe has ended like this.
    Done(ProbeEnd),
    /// The probe has ended, and nobody has said how: it does.
    Collect,
    /// It waits until it is told of the end, and looks again after this long.
    Wait { max_wait_ms: u64 },
}

/// How long a request waits for a probe before it looks again.
pub const HOT_RESTART_RECHECK_MS: u64 = 100;

/// How a request gets its probe, and the state after it has asked.
pub open spec fn asked(state: HotRestartModel) -> (HotRestartStart, HotRestartModel) {
    (
        if state.in_progress {
            HotRestartStart::Join
        } else {
            HotRestartStart::Start
        },
        HotRestartModel { in_progress: true, ..state },
    )
}

/// The state after a probe has ended.
pub open spec fn probed(result: ProbeEndModel) -> HotRestartModel {
    HotRestartModel { in_progress: false, last_result: Some(result) }
}

/// What the requests that wait for a probe read, once it has ended.
pub open spec fn shared_result(state: HotRestartModel) -> Option<ProbeEndModel> {
    if state.in_progress {
        None
    } else {
        match state.last_result {
            Some(result) => Some(result),
            None => Some(ProbeEndModel::Error("hot-restart probe completed without result"@)),
        }
    }
}

impl HotRestartState {
    /// No probe yet.
    pub fn new() -> (state: HotRestartState)
        ensures
            state@ == (HotRestartModel { in_progress: false, last_result: None }),
    {
        HotRestartState { in_progress: false, last_result: None }
    }
}

/// Asks for a probe: one is started only where none is under way.
pub fn ask_for_hot_restart(state: &mut HotRestartState) -> (start: HotRestartStart)
    ensures
        (start, final(state)@) == asked(old(state)@),
        final(state).last_result == old(state).last_result,
{
    if state.in_progress {
        HotRestartStart::Join
    } else {
        state.in_progress = true;
        HotRestartStart::Start
    }
}

/// What came of a probe, or of the task that it ran in.
pub fn hot_restart_probe_result(probe: Result<ProbeEnd, String>) -> (result: ProbeEnd)
    ensures
        result@ == match probe {
            Ok(end) => end@,
            Err(error) => ProbeEndModel::Error("probe task failed: "@ + error@),
        },
{
    match probe {
        Ok(end) => end,
        Err(error) => ProbeEnd::Error(joined("probe task failed: ", error.as_str())),
    }
}

/// Ends a probe: its result is what all who wait for it read.
pub fn finish_hot_restart_recovery(state: &mut HotRestartState, result: ProbeEnd)
    ensures
        final(state)@ == probed(result@),
{
    state.in_progress = false;
    state.last_result = Some(result);
}

/// Decides what a request that waits for a probe does, with whether the task of the
/// probe is over.
pub fn wait_for_hot_restart_probe_result(
    state: &HotRestartState,
    task_is_over: bool,
) -> (wait: HotRestartWait)
    ensures
        match wait {
            HotRestartWait::Done(result) => shared_result(state@) == Some(result@),
            HotRestartWait::Collect => shared_result(state@) is None && task_is_over,
            HotRestartWait::Wait { max_wait_ms } => shared_result(state@) is None && !task_is_over
                && max_wait_ms == HOT_RESTART_RECHECK_MS,
        },
{
    if state.in_progress {
        return if task_is_over {
            HotRestartWait::Collect
        } else {
            HotRestartWait::Wait { max_wait_ms: HOT_RESTART_RECHECK_MS }
        };
    }
    match &state.last_result {
        Some(result) => HotRestartWait::Done(result.clone()),
        None => HotRestartWait::Done(
            ProbeEnd::Error("hot-restart probe completed without result".to_owned()),
        ),
    }
}

/// The state after some requests have asked for a probe, one after the other.
pub open spec fn asked_by(state: HotRestartModel, requests: nat) -> HotRestartModel
    decreases requests,
{
    if requests == 0 {
        state
    } else {
        asked(asked_by(state, (requests - 1) as nat)).1
    }
}

/// However many requests wait for upstreams that restart, one probe serves them: of
/// those that ask, only the first starts one, none of them reads a result before it
/// has ended, and then all read its result.
pub proof fn hot_restart_probes_are_shared(
    state: HotRestartModel,
    requests: nat,
    result: ProbeEndModel,
)
    requires
        !state.in_progress,
        requests > 0,
    ensures
        asked(state).0 == HotRestartStart::Start,
        asked(asked_by(state, requests)).0 == HotRestartStart::Join,
        shared_result(asked_by(state, requests)) is None,
        shared_result(probed(result)) == Some(result),
        asked(probed(result)).0 == HotRestartStart::Start,
    decreases requests,
{
    if requests > 1 {
        hot_restart_probes_are_shared(state, (requests - 1) as nat, result);
    } else {
        assert(asked_by(state, 0) == state);
    }
}

/// A retry that waits for no restart.
pub fn open_hot_restart_gate() -> (gate: HotRestartGate)
    ensures
        gate.metadata@ == Bindings::empty(),
        gate.permits_retry,
        gate.terminal is None,
{
    HotRestartGate { metadata: Metadata::new(), permits_retry: true, terminal: None }
}

/// A request whose time ran out while its upstream restarted.
pub fn request_deadline_hot_restart_gate(metadata: Metadata) -> (gate: HotRestartGate)
    ensures
        gate.metadata@ == metadata@.insert(
            "hot_restart_recovery_status"@,
            REQUEST_DEADLINE_ABORT_REASON@,
        ).insert("request_deadline_exhausted"@, "true"@).insert(
            "shielded_terminal_reason"@,
            REQUEST_DEADLINE_ABORT_REASON@,
        ),
        !gate.permits_retry,
        gate.terminal == Some(HotRestartTerminal::RequestDeadline),
{
    let mut metadata = metadata;
    metadata.set("hot_restart_recovery_status", REQUEST_DEADLINE_ABORT_REASON);
    metadata.set("request_deadline_exhausted", "true");
    metadata.set("shielded_terminal_reason", REQUEST_DEADLINE_ABORT_REASON);
    HotRestartGate {
        metadata,
        permits_retry: false,
        terminal: Some(HotRestartTerminal::RequestDeadline),
    }
}

/// What the end of a hot restart says of a retry.
pub fn hot_restart_gate(config: &HotRestartConfig, result: &ProbeEnd) -> (gate: HotRestartGate)
    ensures
        gate.permits_retry == (result is Ready),
        gate.terminal == match *result {
            ProbeEnd::Ready => None,
            ProbeEnd::Timeout => Some(
                HotRestartTerminal::Timeout { retry_after_secs: retry_after_restart(*config) },
            ),
            ProbeEnd::Error(_) => Some(HotRestartTerminal::Error),
        },
        gate.metadata@ == match *result {
            ProbeEnd::Ready => hot_restart_bindings(true).insert(
                "hot_restart_recovery_status"@,
                "ready"@,
            ),
            ProbeEnd::Timeout => hot_restart_bindings(true).insert(
                "hot_restart_recovery_status"@,
                "timeout"@,
            ),
            ProbeEnd::Error(error) => hot_restart_bindings(true).insert(
                "hot_restart_recovery_status"@,
                "error"@,
            ).insert("hot_restart_recovery_error"@, error@),
        },
{
    let mut metadata = hot_restart_recovery_metadata(true);
    match result {
        ProbeEnd::Ready => {
            metadata.set("hot_restart_recovery_status", "ready");
            HotRestartGate { metadata, permits_retry: true, terminal: None }
        },
        ProbeEnd::Timeout => {
            metadata.set("hot_restart_recovery_status", "timeout");
            HotRestartGate {
                metadata,
                permits_retry: false,
                terminal: Some(
                    HotRestartTerminal::Timeout {
                        retry_after_secs: hot_restart_retry_after_secs(config),
                    },
                ),
            }
        },
        ProbeEnd::Error(error) => {
            metadata.set("hot_restart_recovery_status", "error");
            metadata.set("hot_restart_recovery_error", error.as_str());
            HotRestartGate {
                metadata,
                permits_retry: false,
                terminal: Some(HotRestartTerminal::Error),
            }
        },
    }
}

/// The model that a hot-restart probe asks for: that of the request, else the
/// first that the profile serves.
pub fn hot_restart_probe_model(model_id: &Option<String>, match_models: &Vec<String>) -> (model:
    Option<String>)
    ensures
        opt_chars(model) == match *model_id {
            Some(model) => Some(model@),
            None => if match_models.len() > 0 {
                Some(match_models[0]@)
            } else {
                None
            },
        },
{
    match model_id {
        Some(model) => Some(model.clone()),
        None => {
            if match_models.len() > 0 {
                Some(match_models[0].clone())
            } else {
                None
            }
        },
    }
}

/// The body of a hot-restart probe.
pub open spec fn probe_body(config: HotRestartConfig, model_id: Option<Seq<char>>) -> JsonModel {
    let start = Map::<Seq<char>, JsonModel>::empty().insert(
        "messages"@,
        config.probe_messages@,
    ).insert("max_tokens"@, JsonModel::Unsigned(config.probe_max_tokens)).insert(
        "stream"@,
        JsonModel::Bool(false),
    );
    let named = match model_id {
        Some(model) => start.insert("model"@, JsonModel::Text(model)),
        None => start,
    };
    JsonModel::Object(
        match config.probe_chat_template_kwargs {
            Some(kwargs) => named.insert("chat_template_kwargs"@, kwargs@),
            None => named,
        },
    )
}

/// Builds the body of a hot-restart probe.
pub fn hot_restart_probe_body(config: &HotRestartConfig, model_id: Option<&str>) -> (body: Json)
    ensures
        body@ == probe_body(*config, opt_str_chars(model_id)),
{
    let mut body = JsonObject::new();
    body.insert("messages", config.probe_messages.clone());
    body.insert("max_tokens", Json::Unsigned(config.probe_max_tokens));
    body.insert("stream", Json::Bool(false));
    match model_id {
        Some(model) => {
            body.insert("model", Json::text(model));
        },
        None => {},
    }
    match &config.probe_chat_template_kwargs {
        Some(kwargs) => {
            body.insert("chat_template_kwargs", kwargs.clone());
        },
        None => {},
    }
    body.into_json()
}

/// Upstreams are recovered after timeouts, after connections that fail or break off, and
/// after the statuses 502, 503 and 504; a request whose time ran out is recovered first
/// of all.
pub proof fn lost_upstreams_are_recovered(
    retry_cause: Option<ShieldedRetryCause>,
    transport_failure: Option<ReqwestFailureKind>,
    abort_reason: Option<Seq<char>>,
    status: u16,
)
    ensures
        transport_failure == Some(ReqwestFailureKind::Timeout) ==> transport_recovery_cause(
            retry_cause,
            transport_failure,
        ) == Some(LocalRecoveryCause::TransientTransport),
        transport_failure == Some(ReqwestFailureKind::Connect) ==> transport_recovery_cause(
            retry_cause,
            transport_failure,
        ) == Some(LocalRecoveryCause::TransientTransport),
        retry_cause == Some(ShieldedRetryCause::TransientStream) ==> transport_recovery_cause(
            retry_cause,
            transport_failure,
        ) == Some(LocalRecoveryCause::TransientTransport),
        retry_cause is None && transport_failure is None ==> transport_recovery_cause(
            retry_cause,
            transport_failure,
        ) is None,
        abort_reason == Some("request_deadline_exhausted"@) ==> attempt_recovery_cause(
            abort_reason,
            retry_cause,
            transport_failure,
        ) == Some(LocalRecoveryCause::RequestDeadline),
        abort_reason is None ==> attempt_recovery_cause(
            abort_reason,
            retry_cause,
            transport_failure,
        ) == transport_recovery_cause(retry_cause, transport_failure),
        is_gateway_status(status) <==> status == 502 || status == 503 || status == 504,
{
}

/// A recovery starts where none runs, the last one is long enough ago and the budget of
/// the window is not spent; a new window has its whole budget.
pub proof fn recoveries_start_when_they_may(
    state: RecoveryModel,
    limits: RecoveryLimits,
    now_ms: u64,
)
    requires
        state.last_finished matches Some(at) ==> at <= now_ms,
        state.window_started matches Some(at) ==> at <= now_ms,
    ensures
        ({
            let (admission, after) = admitted(state, limits, now_ms);
            let cooled = match state.last_finished {
                Some(at) => at + limits.cooldown_ms <= now_ms,
                None => true,
            };
            let renewed = match state.window_started {
                Some(at) => at + limits.budget_window_ms <= now_ms,
                None => limits.budget_window_ms == 0,
            };
            &&& admission is Running <==> state.running
            &&& admission is Cooling <==> !state.running && !cooled
            &&& (admission matches RecoveryAdmission::Cooling { remaining_ms } ==> now_ms
                + remaining_ms == state.last_finished->Some_0 + limits.cooldown_ms)
            &&& admission is Exhausted <==> !state.running && cooled && !renewed
                && state.runs_in_window >= limits.max_per_window
            &&& !(admission is Started) ==> after == state
            &&& admission is Started && renewed ==> after.runs_in_window == 1
                && after.window_started == Some(now_ms)
            &&& admission is Started && !renewed && state.runs_in_window < u32::MAX
                ==> after.runs_in_window == state.runs_in_window + 1
            &&& admission is Started && !renewed && state.window_started is Some
                ==> after.window_started == state.window_started
            &&& admission is Started && state.window_started is None ==> after.window_started
                == Some(now_ms)
        }),
{
}

/// A recovery that starts has the time of its restart, of its probes and one second
/// more, and no more than the time of the request that asks for it.
pub proof fn recoveries_have_their_time(
    policy: LocalRecoveryPolicy,
    state: RecoveryModel,
    now_ms: u64,
    timeout_ms: u64,
)
    ensures
        ({
            let full = policy.restart_timeout_ms + policy.readiness_deadline_ms + 1_000;
            let (start, after) = local_recovery_start(policy, state, now_ms, None);
            let (held_start, held) = local_recovery_start(policy, state, now_ms, Some(timeout_ms));
            &&& start == held_start
            &&& state.running ==> start is None && after == state
            &&& start == Some(None::<Bindings>) ==> after.running && after.recovery_started == Some(
                now_ms,
            )
            &&& start == Some(None::<Bindings>) && now_ms + full <= u64::MAX
                ==> after.recovery_deadline == Some((now_ms + full) as u64)
            &&& start == Some(None::<Bindings>) && now_ms + timeout_ms <= u64::MAX ==> (
            held.recovery_deadline matches Some(deadline) && deadline <= now_ms + timeout_ms && (
            full <= timeout_ms || deadline == now_ms + timeout_ms))
        }),
{
}

/// A recovery is planned for every failure that has a cause, where one is configured
/// and the client still waits, as often as a request may ask for one. It takes a retry
/// that is left, but for a request whose time ran out. Where a recovery is called for
/// and does not run, nothing is tried again.
pub proof fn recoveries_are_planned_where_configured(
    policy: LocalRecoveryPolicy,
    profile: Seq<char>,
    can_retry: bool,
    cause: LocalRecoveryCause,
    client_gone: bool,
    asked: u64,
)
    ensures
        ({
            let (plan, after) = recovery_plan(
                policy,
                profile,
                can_retry,
                Some(cause),
                client_gone,
                asked,
            );
            let called_for = policy.enabled && policy.restart_command.len() > 0 && (can_retry
                || cause is RequestDeadline);
            &&& plan is Run <==> called_for && !client_gone && asked
                < policy.max_attempts_per_request
            &&& plan is Run ==> after == asked + 1
            &&& (plan matches RecoveryPlanModel::Run { cause: planned, metadata } ==> planned
                == cause)
            &&& !called_for ==> (plan matches RecoveryPlanModel::Known(gate) && gate.permits_retry
                && !gate.applied && gate.metadata == Bindings::empty())
            &&& called_for && !(plan is Run) ==> (plan matches RecoveryPlanModel::Known(gate)
                && !gate.permits_retry && gate.applied && !gate.permits_deadline_replay)
        }),
        ({
            let (plan, after) = recovery_plan(
                policy,
                profile,
                can_retry,
                None,
                client_gone,
                asked,
            );
            &&& (plan matches RecoveryPlanModel::Known(gate) && gate.permits_retry && !gate.applied)
            &&& after == asked
        }),
{
}

proof fn recovery_words_differ()
    ensures
        "succeeded"@ != "spawn_failed"@,
        "succeeded"@ != "exit_failure"@,
        "succeeded"@ != "wait_failed"@,
        "succeeded"@ != "restart_failed"@,
        "succeeded"@ != "readiness_timeout"@,
        "succeeded"@ != "readiness_error"@,
        "joined_inflight"@ != "spawn_failed"@,
        "joined_inflight"@ != "exit_failure"@,
        "joined_inflight"@ != "wait_failed"@,
        "joined_inflight"@ != "restart_failed"@,
        "joined_inflight"@ != "readiness_timeout"@,
        "joined_inflight"@ != "readiness_error"@,
        "skipped_disabled"@ != "spawn_failed"@,
        "skipped_disabled"@ != "exit_failure"@,
        "skipped_disabled"@ != "wait_failed"@,
        "skipped_disabled"@ != "restart_failed"@,
        "skipped_disabled"@ != "readiness_timeout"@,
        "skipped_disabled"@ != "readiness_error"@,
        "skipped_no_command"@ != "spawn_failed"@,
        "skipped_no_command"@ != "exit_failure"@,
        "skipped_no_command"@ != "wait_failed"@,
        "skipped_no_command"@ != "restart_failed"@,
        "skipped_no_command"@ != "readiness_timeout"@,
        "skipped_no_command"@ != "readiness_error"@,
        "ready"@ != "timeout"@,
        "ready"@ != "error"@,
        "timeout"@ != "error"@,
{
    reveal_strlit("succeeded");
    reveal_strlit("spawn_failed");
    reveal_strlit("exit_failure");
    reveal_strlit("wait_failed");
    reveal_strlit("restart_failed");
    reveal_strlit("readiness_timeout");
    reveal_strlit("readiness_error");
    reveal_strlit("joined_inflight");
    reveal_strlit("skipped_disabled");
    reveal_strlit("skipped_no_command");
    reveal_strlit("ready");
    reveal_strlit("timeout");
    reveal_strlit("error");
    assert("joined_inflight"@[0] != "readiness_error"@[0]);
    assert("ready"@[0] != "error"@[0]);
    assert("succeeded"@.len() == 9);
    assert("spawn_failed"@.len() == 12);
    assert("exit_failure"@.len() == 12);
    assert("wait_failed"@.len() == 11);
    assert("restart_failed"@.len() == 14);
    assert("readiness_timeout"@.len() == 17);
    assert("readiness_error"@.len() == 15);
    assert("joined_inflight"@.len() == 15);
    assert("skipped_disabled"@.len() == 16);
    assert("skipped_no_command"@.len() == 18);
    assert("ready"@.len() == 5);
    assert("timeout"@.len() == 7);
    assert("error"@.len() == 5);
}

proof fn recovery_keys_differ()
    ensures
        "local_recovery_status"@ != "local_recovery_restart_status"@,
        "local_recovery_status"@ != "local_recovery_readiness_status"@,
        "local_recovery_status"@ != "local_recovery_restart_ran"@,
        "local_recovery_status"@ != "local_recovery_trigger_cause"@,
        "local_recovery_status"@ != "local_recovery_restart_exit_code"@,
        "local_recovery_status"@ != "local_recovery_restart_error"@,
        "local_recovery_status"@ != "local_recovery_readiness_error"@,
        "local_recovery_restart_status"@ != "local_recovery_readiness_status"@,
        "local_recovery_restart_status"@ != "local_recovery_restart_ran"@,
        "local_recovery_restart_status"@ != "local_recovery_trigger_cause"@,
        "local_recovery_restart_status"@ != "local_recovery_restart_exit_code"@,
        "local_recovery_restart_status"@ != "local_recovery_restart_error"@,
        "local_recovery_readiness_status"@ != "local_recovery_restart_ran"@,
        "local_recovery_readiness_status"@ != "local_recovery_trigger_cause"@,
        "local_recovery_readiness_status"@ != "local_recovery_restart_exit_code"@,
        "local_recovery_readiness_status"@ != "local_recovery_restart_error"@,
        "local_recovery_readiness_status"@ != "local_recovery_readiness_error"@,
{
    reveal_strlit("local_recovery_status");
    reveal_strlit("local_recovery_restart_status");
    reveal_strlit("local_recovery_readiness_status");
    reveal_strlit("local_recovery_restart_ran");
    reveal_strlit("local_recovery_trigger_cause");
    reveal_strlit("local_recovery_restart_exit_code");
    reveal_strlit("local_recovery_restart_error");
    reveal_strlit("local_recovery_readiness_error");
    assert("local_recovery_status"@.len() == 21);
    assert("local_recovery_restart_status"@.len() == 29);
    assert("local_recovery_readiness_status"@.len() == 31);
    assert("local_recovery_restart_ran"@.len() == 26);
    assert("local_recovery_trigger_cause"@.len() == 28);
    assert("local_recovery_restart_exit_code"@.len() == 32);
    assert("local_recovery_restart_error"@.len() == 28);
    assert("local_recovery_readiness_error"@.len() == 30);
}

/// An upstream is recovered exactly where its restart succeeds and it is ready
/// afterwards; only then is the request tried again, and only then replayed past its
/// time.
pub proof fn recovered_upstreams_are_ready(
    cause: LocalRecoveryCause,
    outcome: CommandOutcome,
    end: ProbeEnd,
)
    requires
        !(outcome is TimedOut),
    ensures
        ({
            let result = recovery_result(
                cause,
                restart_bindings(outcome),
                Some(readiness_bindings(end)),
            );
            let recovered = (outcome matches CommandOutcome::Exited { success, code } && success)
                && end is Ready;
            &&& recovery_completed(result) == recovered
            &&& recovery_permits(result) == recovered
        }),
{
    recovery_words_differ();
    recovery_keys_differ();
}

/// A result that came out well permits the retry whatever was planned, and a replay
/// only to a request whose time ran out.
pub proof fn good_results_permit_retries(
    cause: LocalRecoveryCause,
    planned: Bindings,
    result: Bindings,
)
    requires
        bound_to(result, "local_recovery_status"@, "succeeded"@),
    ensures
        gate_after(cause, planned, result).permits_retry,
        gate_after(cause, planned, result).applied,
        gate_after(cause, planned, result).permits_deadline_replay <==> cause is RequestDeadline,
{
}

/// Probing goes on until the upstream is ready or the time is up: the wait between two
/// probes is the interval, or what time is left.
pub proof fn probes_are_repeated_until_ready(
    ready: bool,
    error: String,
    interval_ms: u64,
    deadline_ms: u64,
    now_ms: u64,
)
    ensures
        step_after_probe(Ok(true), interval_ms, deadline_ms, now_ms) == ProbeStep::Done(
            ProbeEnd::Ready,
        ),
        now_ms >= deadline_ms ==> step_after_probe(Ok(false), interval_ms, deadline_ms, now_ms)
            == ProbeStep::Done(ProbeEnd::Timeout),
        now_ms >= deadline_ms ==> step_after_probe(Err(error), interval_ms, deadline_ms, now_ms)
            == ProbeStep::Done(ProbeEnd::Error(error)),
        now_ms < deadline_ms ==> (step_after_probe(
            Ok(false),
            interval_ms,
            deadline_ms,
            now_ms,
        ) matches ProbeStep::Sleep { sleep_ms } && (sleep_ms == interval_ms || now_ms + sleep_ms
            == deadline_ms) && sleep_ms <= interval_ms),
        now_ms < deadline_ms ==> step_after_probe(Err(error), interval_ms, deadline_ms, now_ms)
            == step_after_probe(Ok(false), interval_ms, deadline_ms, now_ms),
{
}

/// An upstream answers a probe where its completion has at least one choice.
pub proof fn probes_ask_for_choices(fields: Map<Seq<char>, JsonModel>, items: Seq<JsonModel>)
    ensures
        fields.contains_key("choices"@) && fields["choices"@] == JsonModel::Array(items) ==> (
        answers_with_choices(JsonModel::Object(fields)) <==> items.len() > 0),
        !fields.contains_key("choices"@) ==> !answers_with_choices(JsonModel::Object(fields)),
        fields.contains_key("choices"@) && !(fields["choices"@] is Array) ==> !answers_with_choices(
            JsonModel::Object(fields),
        ),
{
}

/// A probe asks for a plain completion of the configured length from the model, and
/// clients are told to come back after the configured interval.
pub proof fn hot_restart_probes_are_plain(config: HotRestartConfig, model: Seq<char>)
    ensures
        ({
            let body = probe_body(config, Some(model));
            let unnamed = probe_body(config, None);
            &&& body.field("stream"@) == Some(JsonModel::Bool(false))
            &&& body.field("max_tokens"@) == Some(JsonModel::Unsigned(config.probe_max_tokens))
            &&& body.field("messages"@) == Some(config.probe_messages@)
            &&& body.field("model"@) == Some(JsonModel::Text(model))
            &&& unnamed.field("model"@) is None
            &&& unnamed.field("stream"@) == Some(JsonModel::Bool(false))
        }),
        retry_after_restart(config) <= config.probe_interval_secs,
        config.probe_interval_secs <= u32::MAX ==> retry_after_restart(config)
            == config.probe_interval_secs,
        config.probe_interval_secs > u32::MAX ==> retry_after_restart(config) == u32::MAX,
{
    reveal_strlit("stream");
    reveal_strlit("max_tokens");
    reveal_strlit("messages");
    reveal_strlit("model");
    reveal_strlit("chat_template_kwargs");
    assert("stream"@.len() == 6);
    assert("max_tokens"@.len() == 10);
    assert("messages"@.len() == 8);
    assert("model"@.len() == 5);
    assert("chat_template_kwargs"@.len() == 20);
}

/// A stalled upstream is recovered exactly where its command succeeds, and the request
/// is tried again then, and where there is no command to run.
pub proof fn recovered_stalls_permit_retries(
    policy: UpstreamStallPolicy,
    state: RecoveryModel,
    outcome: CommandOutcome,
    now_ms: u64,
)
    requires
        !(outcome is TimedOut),
    ensures
        stall_recovery_permits(
            stall_bindings(true).union_prefer_right(stall_command_bindings(outcome)),
        ) == (outcome matches CommandOutcome::Exited { success, code } && success),
        policy.recovery_command.len() == 0 ==> (stall_recovery_start(
            policy,
            state,
            now_ms,
        ).0 matches Some(Some(metadata)) && stall_recovery_permits(metadata)),
        policy.recovery_command.len() == 0 ==> stall_recovery_start(policy, state, now_ms).1
            == state,
        policy.recovery_command.len() > 0 && state.running ==> stall_recovery_start(
            policy,
            state,
            now_ms,
        ) == (None::<Option<Bindings>>, state),
{
    recovery_words_differ();
    reveal_strlit("upstream_stall_recovery_status");
    reveal_strlit("upstream_stall_recovery_error");
    reveal_strlit("upstream_stall_recovery_exit_code");
    reveal_strlit("upstream_stall_recovery_ran");
    reveal_strlit("upstream_stall_recovery_configured");
    assert("upstream_stall_recovery_status"@.len() == 30);
    assert("upstream_stall_recovery_error"@.len() == 29);
    assert("upstream_stall_recovery_exit_code"@.len() == 33);
    assert("upstream_stall_recovery_ran"@.len() == 27);
    assert("upstream_stall_recovery_configured"@.len() == 34);
}

/// A finished recovery hands its own result to the request that ran it, and to those
/// that joined it how it came out.
pub proof fn results_are_handed_on(state: RecoveryModel, result: Bindings, now_ms: u64)
    ensures
        ({
            let done = finished(state, result, now_ms);
            &&& !done.running
            &&& done.last_finished == Some(now_ms)
            &&& done.runs_in_window == state.runs_in_window
            &&& done.window_started == state.window_started
            &&& completed_bindings(done, false) == result
            &&& result.contains_key("local_recovery_status"@) ==> bound_to(
                completed_bindings(done, true),
                "local_recovery_joined_status"@,
                result["local_recovery_status"@],
            )
        }),
{
}

/// What is recorded of a recovery says whether it is set up, why it runs and for which
/// upstream.
pub proof fn recoveries_are_recorded(
    policy: LocalRecoveryPolicy,
    cause: LocalRecoveryCause,
    profile: Seq<char>,
)
    ensures
        ({
            let told = recovery_bindings(policy, cause, profile);
            &&& told.contains_key("local_recovery_configured"@) && told["local_recovery_configured"@] == if policy.enabled && policy.restart_command.len() > 0 {
                "true"@
            } else {
                "false"@
            }
            &&& told.contains_key("local_recovery_cause"@) && told["local_recovery_cause"@] == cause.label()
            &&& told.contains_key("local_recovery_profile"@) && told["local_recovery_profile"@] == profile
        }),
{
    reveal_strlit("local_recovery_configured");
    reveal_strlit("local_recovery_cause");
    reveal_strlit("local_recovery_profile");
    assert("local_recovery_configured"@.len() == 25);
    assert("local_recovery_cause"@.len() == 20);
    assert("local_recovery_profile"@.len() == 22);
}

/// A recovery is waited for until its own deadline, and where it has none for as long as
/// one takes from when it started.
pub proof fn recoveries_are_waited_for(
    policy: LocalRecoveryPolicy,
    state: RecoveryModel,
    now_ms: u64,
)
    ensures
        state.recovery_deadline matches Some(deadline) ==> wait_deadline(policy, state, now_ms)
            == deadline,
        state.recovery_deadline is None ==> ({
            let started = match state.recovery_started {
                Some(at) => at,
                None => now_ms,
            };
            let end = started + policy.restart_timeout_ms + policy.readiness_deadline_ms + 1_000;
            end <= u64::MAX ==> wait_deadline(policy, state, now_ms) == end
        }),
{
}

/// A probe that cannot be read is an error that says so; any other is ready where it
/// has choices.
pub proof fn probes_are_read(prefix: Seq<char>, body: Seq<u8>, value: JsonModel, error: Seq<char>)
    ensures
        parsed_json(body) == Ok::<JsonModel, Seq<char>>(value) ==> probe_answer(prefix, body) == Ok::<
            bool,
            Seq<char>,
        >(answers_with_choices(value)),
        parsed_json(body) == Err::<JsonModel, Seq<char>>(error) ==> probe_answer(prefix, body)
            == Err::<bool, Seq<char>>(prefix + error),
{
}

/// How many recoveries a request asked for is recorded of each.
pub proof fn recoveries_are_numbered(
    policy: LocalRecoveryPolicy,
    profile: Seq<char>,
    can_retry: bool,
    cause: LocalRecoveryCause,
    asked: u64,
)
    requires
        asked < u64::MAX,
    ensures
        recovery_plan(policy, profile, can_retry, Some(cause), false, asked).0 matches RecoveryPlanModel::Run {
            cause: planned,
            metadata,
        } ==> metadata.contains_key("local_recovery_request_attempts_used"@)
            && metadata["local_recovery_request_attempts_used"@] == decimal((asked + 1) as nat),
{
}

/// The probe of a shared restart has a result once it is over, and none before.
pub proof fn restarts_have_a_result_when_over(state: HotRestartModel)
    ensures
        state.in_progress ==> shared_result(state) is None,
        !state.in_progress ==> shared_result(state) is Some,
        !state.in_progress && state.last_result is Some ==> shared_result(state)
            == state.last_result,
        !state.in_progress && state.last_result is None ==> shared_result(state)->Some_0 is Error,
        asked(state).1.in_progress,
        asked(state).1.last_result == state.last_result,
{
}

/// A gate that was not applied lets the retries go on; one that was skipped says what
/// became of them and replays nothing.
pub proof fn gates_permit_what_they_say(
    metadata: Bindings,
    status: Seq<char>,
    permits: bool,
    replays: bool,
)
    ensures
        unapplied_gate().permits_retry && !unapplied_gate().applied
            && !unapplied_gate().permits_deadline_replay,
        applied_gate(metadata, permits, replays).applied,
        applied_gate(metadata, permits, replays).permits_retry == permits,
        applied_gate(metadata, permits, replays).permits_deadline_replay == replays,
        applied_gate(metadata, permits, replays).metadata == metadata,
        ({
            let gate = skipped_gate(metadata, status, permits);
            &&& gate.applied
            &&& gate.permits_retry == permits
            &&& !gate.permits_deadline_replay
            &&& gate.metadata["local_recovery_status"@] == status
            &&& gate.metadata["local_recovery_permits_retry"@] == if permits {
                "true"@
            } else {
                "false"@
            }
        }),
{
    reveal_strlit("local_recovery_status");
    reveal_strlit("local_recovery_permits_retry");
    assert("local_recovery_status"@.len() == 21);
    assert("local_recovery_permits_retry"@.len() == 28);
}

/// A recovery takes the time of the restart and of the probes and a second, unless its
/// episode is shorter; and its budget is counted in windows.
pub proof fn recoveries_take_their_time(
    policy: LocalRecoveryPolicy,
    episode_ms: u64,
    state: RecoveryModel,
    limits: RecoveryLimits,
    now_ms: u64,
    runs: u32,
)
    ensures
        policy.restart_timeout_ms + policy.readiness_deadline_ms + 1_000 <= u64::MAX
            ==> recovery_time(policy, None) == policy.restart_timeout_ms
            + policy.readiness_deadline_ms + 1_000,
        recovery_time(policy, Some(episode_ms)) <= episode_ms,
        recovery_time(policy, Some(episode_ms)) <= recovery_time(policy, None),
        recovery_time(policy, Some(episode_ms)) == episode_ms || recovery_time(
            policy,
            Some(episode_ms),
        ) == recovery_time(policy, None),
        state.window_started matches Some(started) && started <= now_ms ==> (window_over(
            state,
            limits,
            now_ms,
        ) <==> now_ms - state.window_started->Some_0 >= limits.budget_window_ms),
        runs < u32::MAX ==> one_more_run(runs) == runs + 1,
        policy.configured() <==> policy.enabled && policy.restart_command.len() > 0,
{
}

/// A restart is judged by its probe: ready is a success, and anything else is told apart.
pub proof fn restarts_are_judged_by_their_probe(metadata: Bindings, status: Seq<char>)
    ensures
        readiness_verdict(
            metadata.insert("local_recovery_readiness_status"@, "ready"@),
        ) == "succeeded"@,
        readiness_verdict(
            metadata.insert("local_recovery_readiness_status"@, "timeout"@),
        ) == "readiness_timeout"@,
        readiness_verdict(
            metadata.insert("local_recovery_readiness_status"@, "error"@),
        ) == "readiness_error"@,
        status != "ready"@ && status != "timeout"@ && status != "error"@ ==> readiness_verdict(
            metadata.insert("local_recovery_readiness_status"@, status),
        ) == "readiness_not_ready"@,
        readiness_verdict(metadata.remove("local_recovery_readiness_status"@))
            == "restart_failed"@,
{
    reveal_strlit("ready");
    reveal_strlit("timeout");
    reveal_strlit("error");
    assert("ready"@.len() == 5);
    assert("timeout"@.len() == 7);
    assert("error"@.len() == 5);
    assert("ready"@[0] != "error"@[0]);
}

/// A recovery of a stall that is over is told as it went; who joined it is told so, with
/// how it went.
pub proof fn joined_stalls_are_told(metadata: Bindings, state: RecoveryModel, result: Bindings)
    requires
        state.last_result == Some(result),
        result.contains_key("upstream_stall_recovery_status"@),
    ensures
        completed_stall_bindings(metadata, state, false) == result,
        completed_stall_bindings(metadata, state, true)["upstream_stall_recovery_status"@]
            == "joined_inflight"@,
        completed_stall_bindings(
            metadata,
            state,
            true,
        )["upstream_stall_recovery_joined_status"@] == result["upstream_stall_recovery_status"@],
        came_to(
            completed_stall_bindings(metadata, state, true),
            "upstream_stall_recovery_status"@,
            "upstream_stall_recovery_joined_status"@,
            result["upstream_stall_recovery_status"@],
        ),
        hot_restart_bindings(true)["hot_restart_recovery_configured"@] == "true"@,
        hot_restart_bindings(false)["hot_restart_recovery_configured"@] == "false"@,
{
    reveal_strlit("upstream_stall_recovery_status");
    reveal_strlit("upstream_stall_recovery_joined_status");
    assert("upstream_stall_recovery_status"@.len() == 30);
    assert("upstream_stall_recovery_joined_status"@.len() == 37);
}

/// An address that a probe cannot be sent to is told with the reason.
pub proof fn bad_probe_addresses_are_told(endpoint: Seq<char>, reason: Seq<char>)
    ensures
        parsed_uri(endpoint) matches Ok(target) ==> readiness_uri(endpoint) == Ok::<
            (Seq<char>, Option<Seq<char>>),
            Seq<char>,
        >(target),
        parsed_uri(endpoint) == Err::<(Seq<char>, Option<Seq<char>>), Seq<char>>(reason) ==> (
        readiness_uri(endpoint) matches Err(told) && crate::text::has_part(told, reason)),
{
    let before = "readiness endpoint parse failed: "@;
    assert(before + reason =~= before + reason + Seq::<char>::empty());
    crate::text::prefixes_and_parts_are_found(before, reason, Seq::empty());
}

/// Each cause of a recovery has a name of its own.
pub proof fn causes_of_recoveries_have_their_names(cause: LocalRecoveryCause)
    ensures
        cause is UpstreamStall ==> cause.label() == "upstream_stall"@,
        cause is TransientStatus ==> cause.label() == "transient_status"@,
        cause is TransientTransport ==> cause.label() == "transient_transport"@,
        cause is RequestDeadline ==> cause.label() == "request_deadline"@,
{
}

/// Each bad end of a restart is a reason of its own.
pub proof fn ends_of_restarts_have_their_names(end: HotRestartTerminal)
    ensures
        end is Timeout ==> end.abort_text() == "hot_restart_timeout"@,
        end is Error ==> end.abort_text() == "hot_restart_error"@,
        end is RequestDeadline ==> end.abort_text() == "request_deadline_exhausted"@,
{
}

} // verus!
