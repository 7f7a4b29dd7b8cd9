//! The attempts of a shielded request, one after the other: when the next one
//! starts, when the request is given up, and what is recorded on the way.
//!
//! The caller does what takes time (sending, reading streams, recovering the
//! upstream) and hands the outcome of each step to a [`ShieldedRun`], which says
//! what is done next.

use crate::attempts::{
    attempt_failure_record, cot_salvage_context_for_failure, failed_status, failure_outcome,
    failure_record, final_status_failure_of, late_outcome, marked_late,
    mark_request_deadline_attempt_failure, request_deadline_exhausted_outcome, salvaged,
    shielded_failed_attempt_status, shielded_failure_outcome, should_retry_after_shielded_failure,
    status_failure_without_retry, wants_retry, FailureModel, FailureOutcomeModel,
    ShieldedAttemptFailure, ShieldedAttemptInfo, ShieldedFailureOutcome,
};
use crate::clock::{min_u64, smaller, ShieldedRequestDeadline};
use crate::forwarding::PreparedChatRequest;
use crate::liveness::{ShieldedChatKind, ShieldedLivenessMode};
use crate::message_metadata::{is_success, status_is_success};
use crate::metadata::{bound_to, Bindings, Metadata};
use crate::records::{
    append_records, push_record, record_models, AttemptRecord, AttemptRecordModel, AttemptStatus,
    UpstreamMode,
};
use crate::recovery::{
    consume_local_recovery_deadline_replay_permit, GateModel, HotRestartGate, HotRestartTerminal,
    LocalRecoveryGate, UpstreamStallRecoveryGate,
};
use crate::retry::{
    cause_of_status, opt_salvage, recorded_cause, retry_cause_for_attempt_record,
    retry_cause_for_upstream_status, CotSalvageContext, DownstreamDropPolicy, SalvageModel,
    ShieldedAttemptPlan, ShieldedRetryCause, ShieldedRetryPolicy,
};
use crate::text::{clone_bytes, clone_opt, opt_chars};
use vstd::prelude::*;

verus! {

/// The attempts of one request so far, and the next one.
pub struct ShieldedRun {
    pub attempt_number: u32,
    pub retry_cause: Option<ShieldedRetryCause>,
    pub cot_salvage: Option<CotSalvageContext>,
    pub cot_salvage_attempted: bool,
    pub attempt_records: Vec<AttemptRecord>,
    pub allow_terminal_forward: bool,
}

/// The meaning of the attempts of one request.
#[verifier::ext_equal]
pub struct RunModel {
    pub attempt_number: u32,
    pub retry_cause: Option<ShieldedRetryCause>,
    pub salvage: Option<SalvageModel>,
    pub salvage_attempted: bool,
    pub records: Seq<AttemptRecordModel>,
    pub allow_terminal_forward: bool,
}

impl View for ShieldedRun {
    type V = RunModel;

    open spec fn view(&self) -> RunModel {
        RunModel {
            attempt_number: self.attempt_number,
            retry_cause: self.retry_cause,
            salvage: opt_salvage(self.cot_salvage),
            salvage_attempted: self.cot_salvage_attempted,
            records: record_models(self.attempt_records@),
            allow_terminal_forward: self.allow_terminal_forward,
        }
    }
}

/// Whether the next attempt starts.
pub enum StartStep {
    /// It starts, bound by the time of the request or not.
    Start { ignores_request_deadline: bool },
    /// The request is given up.
    Failed(ShieldedFailureOutcome),
}

/// What follows a failed attempt.
pub enum FailureStep {
    /// Another attempt.
    Retry,
    /// The request is given up.
    Failed(ShieldedFailureOutcome),
}

/// What follows the beginning of a response.
#[derive(Clone, Copy, Debug, PartialEq, Eq, Structural)]
pub enum StartedStep {
    /// The stream is aggregated.
    Aggregate,
    /// The status may go away.
    RetryableStatus(ShieldedRetryCause),
    /// The response is handed on as it is.
    TerminalForward,
    /// The response cannot be handed on any more.
    RefusedStatus,
    /// The response is no stream.
    NotAStream,
}

/// What follows the beginning of a response.
pub open spec fn started_step(
    status: u16,
    event_stream: bool,
    allow_terminal_forward: bool,
) -> StartedStep {
    if is_success(status) {
        if event_stream {
            StartedStep::Aggregate
        } else {
            StartedStep::NotAStream
        }
    } else {
        match cause_of_status(status) {
            Some(cause) => StartedStep::RetryableStatus(cause),
            None => if allow_terminal_forward {
                StartedStep::TerminalForward
            } else {
                StartedStep::RefusedStatus
            },
        }
    }
}

/// What a hot restart says of a retry.
#[verifier::ext_equal]
pub struct HotGateModel {
    pub metadata: Bindings,
    pub permits_retry: bool,
    pub terminal: Option<HotRestartTerminal>,
}

impl View for HotRestartGate {
    type V = HotGateModel;

    open spec fn view(&self) -> HotGateModel {
        HotGateModel {
            metadata: self.metadata@,
            permits_retry: self.permits_retry,
            terminal: self.terminal,
        }
    }
}

/// Whether an attempt is tried again, once local recovery has had its say.
pub open spec fn retry_after_recovery(can_retry: bool, gate: GateModel) -> bool {
    if gate.applied {
        gate.permits_deadline_replay || (can_retry && gate.permits_retry)
    } else {
        can_retry
    }
}

/// A failed attempt, once local recovery has had its say.
pub open spec fn after_local_gate(failure: FailureModel, gate: GateModel) -> FailureModel {
    if gate.applied {
        FailureModel {
            response_metadata: failure.response_metadata.union_prefer_right(gate.metadata),
            ..failure
        }
    } else {
        failure
    }
}

/// A failed attempt, once a hot restart has had its say. Where a local recovery
/// was called for, a hot restart has none.
pub open spec fn after_hot_gate(failure: FailureModel, gate: HotGateModel) -> FailureModel {
    if failure.response_metadata.contains_key("local_recovery_status"@) {
        failure
    } else {
        FailureModel {
            response_metadata: failure.response_metadata.union_prefer_right(gate.metadata),
            abort_reason: match gate.terminal {
                Some(terminal) => Some(terminal.abort_text()),
                None => failure.abort_reason,
            },
            ..failure
        }
    }
}

/// Whether an attempt is tried again, once a hot restart has had its say.
pub open spec fn retry_after_restart(
    can_retry: bool,
    failure: FailureModel,
    gate: HotGateModel,
) -> bool {
    if failure.response_metadata.contains_key("local_recovery_status"@) {
        can_retry
    } else {
        can_retry && gate.permits_retry
    }
}

/// How a request ends whose upstream did not come back.
pub open spec fn ended_by_restart(
    outcome: FailureOutcomeModel,
    failure: FailureModel,
    gate: HotGateModel,
) -> FailureOutcomeModel {
    if failure.response_metadata.contains_key("local_recovery_status"@) {
        outcome
    } else {
        match gate.terminal {
            None => outcome,
            Some(HotRestartTerminal::Timeout { retry_after_secs }) => FailureOutcomeModel {
                downstream_status: 503,
                retry_after_secs: Some(retry_after_secs),
                ..outcome
            },
            Some(_) => FailureOutcomeModel {
                downstream_status: 502,
                retry_after_secs: None,
                ..outcome
            },
        }
    }
}

/// The number of the next attempt.
pub open spec fn next_number(attempt_number: u32) -> u32 {
    if attempt_number == u32::MAX {
        attempt_number
    } else {
        (attempt_number + 1) as u32
    }
}

/// The meaning of what follows a failed attempt.
pub open spec fn step_model(step: FailureStep) -> Option<FailureOutcomeModel> {
    match step {
        FailureStep::Retry => None,
        FailureStep::Failed(outcome) => Some(outcome@),
    }
}

/// What follows an attempt that failed before its stream was read, and the run
/// after it: `can_retry` says whether the attempt is to be tried again at all.
pub open spec fn early_failure(
    run: RunModel,
    failure: FailureModel,
    can_retry: bool,
    local: GateModel,
    hot: HotGateModel,
    policy: ShieldedRetryPolicy,
) -> (Option<FailureOutcomeModel>, RunModel) {
    let recovered = after_local_gate(failure, local);
    let recovered_retry = retry_after_recovery(can_retry, local);
    let settled = after_hot_gate(recovered, hot);
    let retry = retry_after_restart(recovered_retry, recovered, hot);
    let records = (run.records + failure.completed).push(
        failure_record(
            settled,
            failed_status(retry, settled),
            recorded_cause(retry, failure.retry_cause),
            policy,
        ),
    );
    if retry {
        (
            None,
            RunModel {
                attempt_number: next_number(failure.attempt_number),
                retry_cause: failure.retry_cause,
                salvage: None,
                records,
                ..run
            },
        )
    } else {
        (
            Some(ended_by_restart(failure_outcome(settled, records, policy), recovered, hot)),
            RunModel { records: Seq::empty(), ..run },
        )
    }
}

/// What follows an attempt whose stream could not be aggregated, and the run
/// after it.
pub open spec fn late_failure(
    run: RunModel,
    failure: FailureModel,
    can_retry: bool,
    local: GateModel,
    stall_metadata: Bindings,
    stall_permits: bool,
    policy: ShieldedRetryPolicy,
) -> (Option<FailureOutcomeModel>, RunModel) {
    let recovered = after_local_gate(failure, local);
    let recovered_retry = retry_after_recovery(can_retry, local);
    let salvage = if recovered_retry && run.salvage is None && !run.salvage_attempted {
        salvaged(recovered, policy)
    } else {
        None
    };
    let retry = recovered_retry && stall_permits;
    let settled = FailureModel {
        response_metadata: recovered.response_metadata.union_prefer_right(stall_metadata),
        ..recovered
    };
    let records = run.records.push(
        failure_record(
            settled,
            failed_status(retry, settled),
            recorded_cause(retry, failure.retry_cause),
            policy,
        ),
    );
    if retry {
        (
            None,
            RunModel {
                attempt_number: next_number(failure.attempt_number),
                retry_cause: failure.retry_cause,
                salvage,
                salvage_attempted: run.salvage_attempted || salvage is Some,
                records,
                ..run
            },
        )
    } else {
        (
            Some(failure_outcome(settled, records, policy)),
            RunModel { records: Seq::empty(), ..run },
        )
    }
}

/// Whether a failed attempt is still retried after a recovery.
pub fn retries_after_local_recovery(can_retry: bool, gate: &LocalRecoveryGate) -> (retry: bool)
    ensures
        retry == retry_after_recovery(can_retry, gate@),
{
    if gate.applied {
        gate.permits_deadline_replay || (can_retry && gate.permits_retry)
    } else {
        can_retry
    }
}

/// Whether a failed attempt may wait for its upstream to restart: where no recovery
/// has settled it.
pub fn may_wait_for_restart(failure: &ShieldedAttemptFailure, local: &LocalRecoveryGate) -> (
    may: bool)
    ensures
        may == !after_local_gate(failure@, local@).response_metadata.contains_key(
            "local_recovery_status"@,
        ),
{
    !failure.response_metadata.contains_key("local_recovery_status") && !(local.applied
        && local.metadata.contains_key("local_recovery_status"))
}

fn apply_local_gate(failure: &mut ShieldedAttemptFailure, can_retry: bool, gate: &LocalRecoveryGate) -> (
    retry: bool)
    ensures
        final(failure)@ == after_local_gate(old(failure)@, gate@),
        retry == retry_after_recovery(can_retry, gate@),
{
    if gate.applied {
        failure.response_metadata.extend(&gate.metadata);
    }
    retries_after_local_recovery(can_retry, gate)
}

impl ShieldedRun {
    /// A run that begins with the given attempt.
    pub fn new(
        attempt_number: u32,
        prior_attempt_records: Vec<AttemptRecord>,
        allow_terminal_forward: bool,
    ) -> (run: ShieldedRun)
        ensures
            run@ == (RunModel {
                attempt_number,
                retry_cause: None,
                salvage: None,
                salvage_attempted: false,
                records: record_models(prior_attempt_records@),
                allow_terminal_forward,
            }),
    {
        ShieldedRun {
            attempt_number,
            retry_cause: None,
            cot_salvage: None,
            cot_salvage_attempted: false,
            attempt_records: prior_attempt_records,
            allow_terminal_forward,
        }
    }

    fn take_records(&mut self) -> (records: Vec<AttemptRecord>)
        ensures
            records@ == old(self).attempt_records@,
            final(self)@ == (RunModel { records: Seq::empty(), ..old(self)@ }),
            final(self).attempt_records@.len() == 0,
    {
        let mut records: Vec<AttemptRecord> = Vec::new();
        records.append(&mut self.attempt_records);
        assert(records@ =~= old(self).attempt_records@);
        assert(record_models(self.attempt_records@) =~= Seq::<AttemptRecordModel>::empty());
        records
    }

    /// Decides whether the next attempt starts. Once the time of the request is
    /// over it starts only on a permit to replay, which is used up.
    pub fn before_start(
        &mut self,
        policy: &ShieldedRetryPolicy,
        deadline_over: bool,
        replay_permits: &mut u64,
    ) -> (step: StartStep)
        ensures
            *final(replay_permits) == if *old(replay_permits) > 0 {
                (*old(replay_permits) - 1) as u64
            } else {
                0
            },
            match step {
                StartStep::Start { ignores_request_deadline } => {
                    &&& ignores_request_deadline == (*old(replay_permits) > 0)
                    &&& !deadline_over || ignores_request_deadline
                    &&& final(self)@ == old(self)@
                },
                StartStep::Failed(outcome) => {
                    &&& deadline_over && *old(replay_permits) == 0
                    &&& outcome@ == late_outcome(
                        old(self).attempt_number,
                        old(self)@.records,
                        *policy,
                    )
                    &&& final(self)@ == (RunModel { records: Seq::empty(), ..old(self)@ })
                },
            },
    {
        let ignores_request_deadline = consume_local_recovery_deadline_replay_permit(
            replay_permits,
        );
        if deadline_over && !ignores_request_deadline {
            let number: u32 = self.attempt_number;
            let records = self.take_records();
            return StartStep::Failed(request_deadline_exhausted_outcome(policy, number, records));
        }
        StartStep::Start { ignores_request_deadline }
    }

    /// Decides what follows an attempt that got no response, or a status that may
    /// go away. `local` and `hot` are what the recoveries say that were called
    /// for, with `client_gone` as it was when they were.
    pub fn after_early_failure(
        &mut self,
        policy: &ShieldedRetryPolicy,
        failure: ShieldedAttemptFailure,
        client_gone: bool,
        local: LocalRecoveryGate,
        hot: HotRestartGate,
    ) -> (step: FailureStep)
        ensures
            (step_model(step), final(self)@) == early_failure(
                old(self)@,
                failure@,
                wants_retry(failure@, *policy, client_gone),
                local@,
                hot@,
                *policy,
            ),
    {
        let ghost run = self@;
        let ghost given = failure@;
        let can_retry = should_retry_after_shielded_failure(&failure, policy, client_gone);
        let next_retry_cause = failure.retry_cause;
        let mut failure = failure;
        let mut completed: Vec<AttemptRecord> = Vec::new();
        completed.append(&mut failure.completed_endpoint_attempt_records);
        assert(record_models(completed@) =~= given.completed);
        append_records(&mut self.attempt_records, completed);
        proof {
            let emptied = FailureModel { completed: Seq::empty(), ..given };
            assert(record_models(failure.completed_endpoint_attempt_records@) =~= Seq::<
                AttemptRecordModel,
            >::empty());
            assert(failure@ =~= emptied);
        }
        let mut retry = apply_local_gate(&mut failure, can_retry, &local);
        let ghost recovered = after_local_gate(given, local@);
        assert(failure@ =~= FailureModel { completed: Seq::empty(), ..recovered });
        let mut terminal: Option<HotRestartTerminal> = None;
        if !failure.response_metadata.contains_key("local_recovery_status") {
            retry = retry && hot.permits_retry;
            failure.response_metadata.extend(&hot.metadata);
            match hot.terminal {
                Some(ended) => {
                    failure.abort_reason = Some(ended.abort_reason().to_owned());
                    terminal = Some(ended);
                },
                None => {},
            }
        }
        let ghost settled = after_hot_gate(recovered, hot@);
        assert(failure@ =~= FailureModel { completed: Seq::empty(), ..settled });
        let record = attempt_failure_record(
            &failure,
            shielded_failed_attempt_status(retry, &failure),
            retry_cause_for_attempt_record(retry, next_retry_cause),
            policy,
        );
        proof {
            lemma_record_ignores_completed(
                settled,
                failed_status(retry, settled),
                recorded_cause(retry, next_retry_cause),
                *policy,
            );
        }
        push_record(&mut self.attempt_records, record);
        if retry {
            self.attempt_number = failure.attempt_number.saturating_add(1);
            self.retry_cause = next_retry_cause;
            self.cot_salvage = None;
            return FailureStep::Retry;
        }
        let records = self.take_records();
        let mut outcome = shielded_failure_outcome(failure, records, policy);
        match terminal {
            Some(ended) => {
                outcome.downstream_status = ended.status();
                outcome.retry_after_secs = ended.retry_after();
            },
            None => {},
        }
        FailureStep::Failed(outcome)
    }

    /// Decides what follows the beginning of a response.
    pub fn on_started(&self, status: u16, event_stream: bool) -> (step: StartedStep)
        ensures
            step == started_step(status, event_stream, self.allow_terminal_forward),
    {
        if status_is_success(status) {
            if event_stream {
                return StartedStep::Aggregate;
            }
            return StartedStep::NotAStream;
        }
        match retry_cause_for_upstream_status(status) {
            Some(cause) => StartedStep::RetryableStatus(cause),
            None => {
                if self.allow_terminal_forward {
                    StartedStep::TerminalForward
                } else {
                    StartedStep::RefusedStatus
                }
            },
        }
    }

    /// Gives a request up whose response cannot be handed on.
    pub fn refuse_response(
        &mut self,
        policy: &ShieldedRetryPolicy,
        info: &ShieldedAttemptInfo,
        is_stream_missing: bool,
        finished_at_unix_ms: u64,
    ) -> (outcome: ShieldedFailureOutcome)
        ensures
            ({
                let message = refusal_message(is_stream_missing);
                let failure = final_status_failure_of(*info, message, finished_at_unix_ms);
                outcome@ == failure_outcome(
                    failure,
                    old(self)@.records.push(
                        failure_record(failure, AttemptStatus::Failed, None, *policy),
                    ),
                    *policy,
                )
            }),
            final(self)@ == (RunModel { records: Seq::empty(), ..old(self)@ }),
    {
        let message = if is_stream_missing {
            "shielded chat completion expected upstream text/event-stream response"
        } else {
            "non-retryable upstream response after shielded response started"
        };
        let failure = status_failure_without_retry(info, message, finished_at_unix_ms);
        let record = attempt_failure_record(&failure, AttemptStatus::Failed, None, policy);
        push_record(&mut self.attempt_records, record);
        let records = self.take_records();
        shielded_failure_outcome(failure, records, policy)
    }

    /// Decides what follows an attempt whose stream could not be aggregated.
    /// `local` and `stall` are what the recoveries say that were called for, with
    /// `client_gone` as it was when they were.
    pub fn after_late_failure(
        &mut self,
        policy: &ShieldedRetryPolicy,
        failure: ShieldedAttemptFailure,
        client_gone: bool,
        local: LocalRecoveryGate,
        stall: UpstreamStallRecoveryGate,
    ) -> (step: FailureStep)
        ensures
            (step_model(step), final(self)@) == late_failure(
                old(self)@,
                failure@,
                wants_retry(failure@, *policy, client_gone),
                local@,
                stall.metadata@,
                stall.permits_retry,
                *policy,
            ),
    {
        let can_retry = should_retry_after_shielded_failure(&failure, policy, client_gone);
        let next_retry_cause = failure.retry_cause;
        let mut failure = failure;
        let recovered_retry = apply_local_gate(&mut failure, can_retry, &local);
        let next_salvage = if recovered_retry && self.cot_salvage.is_none()
            && !self.cot_salvage_attempted {
            cot_salvage_context_for_failure(&failure, policy)
        } else {
            None
        };
        let retry = recovered_retry && stall.permits_retry;
        failure.response_metadata.extend(&stall.metadata);
        let record = attempt_failure_record(
            &failure,
            shielded_failed_attempt_status(retry, &failure),
            retry_cause_for_attempt_record(retry, next_retry_cause),
            policy,
        );
        push_record(&mut self.attempt_records, record);
        if retry {
            self.attempt_number = failure.attempt_number.saturating_add(1);
            self.retry_cause = next_retry_cause;
            if next_salvage.is_some() {
                self.cot_salvage_attempted = true;
            }
            self.cot_salvage = next_salvage;
            return FailureStep::Retry;
        }
        let records = self.take_records();
        FailureStep::Failed(shielded_failure_outcome(failure, records, policy))
    }
}

/// The message of a request whose response cannot be handed on.
pub open spec fn refusal_message(is_stream_missing: bool) -> Seq<char> {
    if is_stream_missing {
        "shielded chat completion expected upstream text/event-stream response"@
    } else {
        "non-retryable upstream response after shielded response started"@
    }
}

/// Notes on a failed attempt that the time of its request is over, if it is.
pub fn note_deadline(failure: &mut ShieldedAttemptFailure, deadline_over: bool)
    ensures
        final(failure)@ == if deadline_over {
            marked_late(old(failure)@)
        } else {
            old(failure)@
        },
{
    if deadline_over {
        mark_request_deadline_attempt_failure(failure);
    }
}

proof fn lemma_record_ignores_completed(
    failure: FailureModel,
    status: AttemptStatus,
    cause: Option<ShieldedRetryCause>,
    policy: ShieldedRetryPolicy,
)
    ensures
        failure_record(FailureModel { completed: Seq::empty(), ..failure }, status, cause, policy)
            == failure_record(failure, status, cause, policy),
{
}

// ---------------------------------------------------------------------------
// Laws of a run
// ---------------------------------------------------------------------------

/// A retry that is no replay past the time of the request never goes beyond the
/// number of attempts that the policy allows.
pub proof fn retries_stay_within_the_policy(
    run: RunModel,
    failure: FailureModel,
    client_gone: bool,
    local: GateModel,
    hot: HotGateModel,
    stall_metadata: Bindings,
    stall_permits: bool,
    policy: ShieldedRetryPolicy,
)
    requires
        !(local.applied && local.permits_deadline_replay),
    ensures
        ({
            let can_retry = wants_retry(failure, policy, client_gone);
            let early = early_failure(run, failure, can_retry, local, hot, policy);
            let late = late_failure(
                run,
                failure,
                can_retry,
                local,
                stall_metadata,
                stall_permits,
                policy,
            );
            &&& early.0 is None ==> early.1.attempt_number <= policy.max_attempts
            &&& late.0 is None ==> late.1.attempt_number <= policy.max_attempts
        }),
{
}

/// Reasoning is salvaged at most once in a run: after it has been, no attempt
/// salvages again, and this is never forgotten.
pub proof fn reasoning_is_salvaged_once(
    run: RunModel,
    failure: FailureModel,
    can_retry: bool,
    local: GateModel,
    hot: HotGateModel,
    stall_metadata: Bindings,
    stall_permits: bool,
    policy: ShieldedRetryPolicy,
)
    requires
        run.salvage_attempted,
    ensures
        ({
            let early = early_failure(run, failure, can_retry, local, hot, policy).1;
            let late = late_failure(
                run,
                failure,
                can_retry,
                local,
                stall_metadata,
                stall_permits,
                policy,
            );
            &&& early.salvage_attempted && late.1.salvage_attempted
            &&& late.0 is None ==> late.1.salvage is None
        }),
{
}

/// A request whose client is gone, or that a shutdown ended, is not tried again,
/// except for a replay past its time.
pub proof fn nothing_is_retried_for_no_one(
    run: RunModel,
    failure: FailureModel,
    client_gone: bool,
    local: GateModel,
    hot: HotGateModel,
    stall_metadata: Bindings,
    stall_permits: bool,
    policy: ShieldedRetryPolicy,
)
    requires
        client_gone || crate::attempts::ended_by_shutdown(failure),
        !(local.applied && local.permits_deadline_replay),
    ensures
        ({
            let can_retry = wants_retry(failure, policy, client_gone);
            &&& early_failure(run, failure, can_retry, local, hot, policy).0 is Some
            &&& late_failure(
                run,
                failure,
                can_retry,
                local,
                stall_metadata,
                stall_permits,
                policy,
            ).0 is Some
        }),
{
}

/// No record is lost: a failed attempt adds its own record, and those of the
/// endpoints tried for it, behind all earlier ones; and a request that is given
/// up tells of all of them.
pub proof fn every_attempt_is_recorded(
    run: RunModel,
    failure: FailureModel,
    can_retry: bool,
    local: GateModel,
    hot: HotGateModel,
    policy: ShieldedRetryPolicy,
)
    ensures
        ({
            let (outcome, after) = early_failure(run, failure, can_retry, local, hot, policy);
            let records = match outcome {
                Some(outcome) => outcome.attempt_records,
                None => after.records,
            };
            &&& records.len() == run.records.len() + failure.completed.len() + 1
            &&& records.take(run.records.len() as int) == run.records
            &&& records.last().attempt_id == failure.attempt_id
        }),
{
    let (outcome, after) = early_failure(run, failure, can_retry, local, hot, policy);
    let records = match outcome {
        Some(outcome) => outcome.attempt_records,
        None => after.records,
    };
    assert(records.take(run.records.len() as int) =~= run.records);
}

// ---------------------------------------------------------------------------
// Around a run
// ---------------------------------------------------------------------------

/// Whether a shielded request is answered only when it is complete: it gets no
/// heartbeats and its client asked for no stream.
pub fn answers_when_complete(mode: ShieldedLivenessMode, kind: ShieldedChatKind) -> (at_once: bool)
    ensures
        at_once == (mode is Disabled && !(kind is Stream)),
{
    mode == ShieldedLivenessMode::Disabled && kind != ShieldedChatKind::Stream
}

/// Whether a stream without thinking is handed on without inspection: the client
/// asked for a stream, an earlier attempt looped, and this attempt neither thinks
/// nor answers from salvaged reasoning.
pub open spec fn relays_directly(
    kind: ShieldedChatKind,
    attempt_number: u32,
    retry_cause: Option<ShieldedRetryCause>,
    request: Bindings,
    no_thinking_label: Seq<char>,
) -> bool {
    &&& kind is Stream
    &&& attempt_number > 1
    &&& retry_cause == Some(ShieldedRetryCause::LoopDetected)
    &&& !bound_to(request, "cot_salvage_used"@, "true"@)
    &&& bound_to(request, "attempt_thinking_mode"@, no_thinking_label)
}

/// Whether a stream without thinking is handed on without inspection.
/// `no_thinking_label` names the mode without thinking.
pub fn should_direct_relay_no_thinking_stream(
    kind: ShieldedChatKind,
    attempt_number: u32,
    retry_cause: Option<ShieldedRetryCause>,
    request_metadata: &Metadata,
    no_thinking_label: &str,
) -> (relays: bool)
    ensures
        relays == relays_directly(
            kind,
            attempt_number,
            retry_cause,
            request_metadata@,
            no_thinking_label@,
        ),
{
    let looped = match retry_cause {
        Some(ShieldedRetryCause::LoopDetected) => true,
        _ => false,
    };
    kind == ShieldedChatKind::Stream && attempt_number > 1 && looped && !request_metadata.reads(
        "cot_salvage_used",
        "true",
    ) && request_metadata.reads("attempt_thinking_mode", no_thinking_label)
}

/// Records a stream that is handed on without inspection.
pub fn no_thinking_direct_relay_metadata() -> (metadata: Metadata)
    ensures
        metadata@ == Bindings::empty().insert(
            "shielded_direct_streaming_relay"@,
            "true"@,
        ).insert("shielded_direct_streaming_relay_deadline_bound"@, "true"@).insert(
            "shielded_loop_inspection_skipped"@,
            "no_thinking_direct_streaming_relay"@,
        ),
{
    let mut metadata = Metadata::new();
    metadata.set("shielded_direct_streaming_relay", "true");
    metadata.set("shielded_direct_streaming_relay_deadline_bound", "true");
    metadata.set("shielded_loop_inspection_skipped", "no_thinking_direct_streaming_relay");
    metadata
}

/// The time that the stream of an attempt may take; none where the time of the request
/// has been overrun.
pub fn aggregation_time_left(
    upstream_timeout_ms: u64,
    deadline: ShieldedRequestDeadline,
    ignores_request_deadline: bool,
    now_ms: u64,
) -> (left_ms: Option<u64>)
    ensures
        left_ms == if ignores_request_deadline {
            Some(upstream_timeout_ms)
        } else {
            deadline.left(now_ms)
        },
{
    if ignores_request_deadline {
        Some(upstream_timeout_ms)
    } else {
        deadline.remaining(now_ms)
    }
}

/// How long an attempt may take: no longer than the upstream is given, nor than
/// the request has left, unless it is a replay past the time of the request.
pub fn shielded_attempt_upstream_timeout(
    upstream_timeout_ms: u64,
    deadline: ShieldedRequestDeadline,
    ignores_request_deadline: bool,
    now_ms: u64,
) -> (timeout_ms: u64)
    ensures
        timeout_ms == if ignores_request_deadline {
            upstream_timeout_ms
        } else {
            match deadline.left(now_ms) {
                Some(left) => smaller(upstream_timeout_ms, left),
                None => 0,
            }
        },
{
    if ignores_request_deadline {
        return upstream_timeout_ms;
    }
    match deadline.remaining(now_ms) {
        Some(left) => min_u64(upstream_timeout_ms, left),
        None => 0,
    }
}

/// How the body of an attempt is prepared anew: as a stream or not, where it is of
/// either kind.
pub fn prepared_as_stream(kind: ShieldedChatKind) -> (stream: Option<bool>)
    ensures
        stream == match kind {
            ShieldedChatKind::NonStream => Some(false),
            ShieldedChatKind::Stream => Some(true),
            ShieldedChatKind::Generic => None,
        },
{
    match kind {
        ShieldedChatKind::NonStream => Some(false),
        ShieldedChatKind::Stream => Some(true),
        ShieldedChatKind::Generic => None,
    }
}

/// The request of an attempt: the one that was prepared anew, or the planned one.
pub fn attempt_request(
    prepared: Option<PreparedChatRequest>,
    planned_body: &Vec<u8>,
    planned_thinking: &Metadata,
) -> (request: PreparedChatRequest)
    ensures
        match prepared {
            Some(prepared) => request == prepared,
            None => request.upstream_body@ == planned_body@ && request.thinking_metadata@
                == planned_thinking@,
        },
{
    match prepared {
        Some(prepared) => prepared,
        None => PreparedChatRequest {
            upstream_body: clone_bytes(planned_body),
            thinking_metadata: planned_thinking.clone(),
        },
    }
}

/// What the hint of an attempt that answers from salvaged reasoning is made from.
pub struct SalvageHint {
    pub attempt_number: u32,
    pub max_attempts: u32,
    pub policy_label: String,
    pub reasoning_prefix: String,
    pub anti_loop_hint: Option<String>,
}

/// What the hint of an attempt against loops is made from.
pub struct AntiLoopHint {
    pub attempt_number: u32,
    pub max_attempts: u32,
    pub anti_loop_hint: Option<String>,
}

/// The hints that an attempt asks for. One that answers from salvaged reasoning comes
/// first.
pub struct AttemptHints {
    pub salvage: Option<SalvageHint>,
    pub anti_loop: Option<AntiLoopHint>,
}

/// Whether an attempt gets a hint against loops.
pub open spec fn wants_hint(
    attempt_number: u32,
    hint_enabled: bool,
    retry_cause: Option<ShieldedRetryCause>,
) -> bool {
    attempt_number > 1 && hint_enabled && retry_cause == Some(ShieldedRetryCause::LoopDetected)
}

/// Decides which hints an attempt asks for, and what they are made from.
pub fn attempt_hints(
    attempt_number: u32,
    retry_cause: Option<ShieldedRetryCause>,
    policy: &ShieldedRetryPolicy,
    plan: &ShieldedAttemptPlan,
    cot_salvage: Option<&CotSalvageContext>,
) -> (hints: AttemptHints)
    ensures
        match (cot_salvage, hints.salvage) {
            (Some(salvage), Some(hint)) => {
                &&& hint.attempt_number == attempt_number
                &&& hint.max_attempts == policy.max_attempts
                &&& hint.policy_label@ == salvage.policy_label@
                &&& hint.reasoning_prefix@ == salvage.reasoning_prefix@
                &&& opt_chars(hint.anti_loop_hint) == plan@.anti_loop_hint
            },
            (None, None) => true,
            _ => false,
        },
        match hints.anti_loop {
            Some(hint) => {
                &&& wants_hint(attempt_number, policy.anti_loop_hint_enabled, retry_cause)
                &&& hint.attempt_number == attempt_number
                &&& hint.max_attempts == policy.max_attempts
                &&& opt_chars(hint.anti_loop_hint) == plan@.anti_loop_hint
            },
            None => !wants_hint(attempt_number, policy.anti_loop_hint_enabled, retry_cause),
        },
{
    let salvage = match cot_salvage {
        Some(salvage) => Some(
            SalvageHint {
                attempt_number,
                max_attempts: policy.max_attempts,
                policy_label: salvage.policy_label.clone(),
                reasoning_prefix: salvage.reasoning_prefix.clone(),
                anti_loop_hint: clone_opt(&plan.anti_loop_hint),
            },
        ),
        None => None,
    };
    let looped = match retry_cause {
        Some(ShieldedRetryCause::LoopDetected) => true,
        _ => false,
    };
    let anti_loop = if attempt_number > 1 && policy.anti_loop_hint_enabled && looped {
        Some(
            AntiLoopHint {
                attempt_number,
                max_attempts: policy.max_attempts,
                anti_loop_hint: clone_opt(&plan.anti_loop_hint),
            },
        )
    } else {
        None
    };
    AttemptHints { salvage, anti_loop }
}

/// The body that an attempt sends, and whether it holds a hint: the one that answers
/// from salvaged reasoning, or the one with a hint against loops, where such a body
/// was asked for and made, and else the request itself.
pub fn shielded_attempt_body(
    request_body: Vec<u8>,
    salvage_body: Option<Vec<u8>>,
    hint_body: Option<Vec<u8>>,
) -> (body: (Vec<u8>, bool))
    ensures
        body == match (salvage_body, hint_body) {
            (Some(salvage), _) => (salvage, true),
            (None, Some(hinted)) => (hinted, true),
            (None, None) => (request_body, false),
        },
{
    match (salvage_body, hint_body) {
        (Some(salvage), _) => (salvage, true),
        (None, Some(hinted)) => (hinted, true),
        (None, None) => (request_body, false),
    }
}

/// Whether a request goes on when its client goes away.
pub fn detaches(policy: &ShieldedRetryPolicy) -> (detaches: bool)
    ensures
        detaches == (policy.downstream_drop_policy is Detach),
{
    policy.downstream_drop_policy == DownstreamDropPolicy::Detach
}

/// How a detached request ends whose result was lost.
pub fn lost_detached_outcome() -> (outcome: ShieldedFailureOutcome)
    ensures
        outcome@ == (FailureOutcomeModel {
            error_type: "llm_guard_upstream_error"@,
            error_message: "detached shielded upstream attempt result was lost"@,
            response_metadata: Bindings::empty().insert("downstream_drop_policy"@, "detach"@),
            attempt_records: Seq::empty(),
            upstream_mode: UpstreamMode::NotApplicable,
            downstream_status: 502,
            retry_after_secs: None,
        }),
{
    let mut response_metadata = Metadata::new();
    response_metadata.set("downstream_drop_policy", "detach");
    let none: Vec<AttemptRecord> = Vec::new();
    assert(record_models(none@) =~= Seq::<AttemptRecordModel>::empty());
    ShieldedFailureOutcome {
        error_type: "llm_guard_upstream_error",
        error_message: "detached shielded upstream attempt result was lost".to_owned(),
        response_metadata,
        attempt_records: none,
        upstream_mode: UpstreamMode::NotApplicable,
        downstream_status: 502,
        retry_after_secs: None,
    }
}

/// A response is read where it succeeds and is a stream, and tried again where its
/// status may pass; any other is forwarded where that is allowed and refused where not.
pub proof fn responses_are_judged_by_their_status(
    status: u16,
    event_stream: bool,
    allow_terminal_forward: bool,
)
    ensures
        ({
            let step = started_step(status, event_stream, allow_terminal_forward);
            let succeeds = 200 <= status <= 299;
            &&& step is Aggregate <==> succeeds && event_stream
            &&& step is NotAStream <==> succeeds && !event_stream
            &&& step is RetryableStatus <==> !succeeds && cause_of_status(status) is Some
            &&& (step matches StartedStep::RetryableStatus(cause) ==> cause_of_status(status)
                == Some(cause))
            &&& step is TerminalForward <==> !succeeds && cause_of_status(status) is None
                && allow_terminal_forward
            &&& step is RefusedStatus <==> !succeeds && cause_of_status(status) is None
                && !allow_terminal_forward
        }),
{
}

/// A failure that may be retried, with no recovery in the way, is followed by the next
/// attempt, for the same cause, and nothing is told to the client. Otherwise the client
/// is told what went wrong.
pub proof fn failures_are_retried_or_told(
    run: RunModel,
    failure: FailureModel,
    can_retry: bool,
    local: GateModel,
    hot: HotGateModel,
    stall_metadata: Bindings,
    policy: ShieldedRetryPolicy,
)
    requires
        !local.applied,
        hot.permits_retry,
        hot.terminal is None,
    ensures
        ({
            let (early, early_run) = early_failure(run, failure, can_retry, local, hot, policy);
            let (late, late_run) = late_failure(
                run,
                failure,
                can_retry,
                local,
                stall_metadata,
                true,
                policy,
            );
            &&& early is None <==> can_retry
            &&& late is None <==> can_retry
            &&& can_retry && failure.attempt_number < u32::MAX ==> early_run.attempt_number
                == failure.attempt_number + 1 && late_run.attempt_number == failure.attempt_number
                + 1
            &&& can_retry ==> early_run.retry_cause == failure.retry_cause && late_run.retry_cause
                == failure.retry_cause
            &&& can_retry ==> early_run.salvage is None
            &&& can_retry ==> early_run.records.last().status is Retried
                && late_run.records.last().status is Retried
            &&& (early matches Some(told) ==> told.error_message == failure.error_message)
            &&& (late matches Some(told) ==> told.error_message == failure.error_message)
        }),
{
}

/// A recovery that ran and failed stops the retries, and so does a restart that the
/// upstream did not come back from, and a stall that was not recovered. A replay that a
/// recovery permits takes place though no retry is left.
pub proof fn failed_recoveries_stop_the_retries(
    run: RunModel,
    failure: FailureModel,
    can_retry: bool,
    local: GateModel,
    hot: HotGateModel,
    stall_metadata: Bindings,
    stall_permits: bool,
    policy: ShieldedRetryPolicy,
)
    ensures
        local.applied && !local.permits_retry && !local.permits_deadline_replay ==> early_failure(
            run,
            failure,
            can_retry,
            local,
            hot,
            policy,
        ).0 is Some,
        !hot.permits_retry && !local.applied && !failure.response_metadata.contains_key(
            "local_recovery_status"@,
        ) ==> early_failure(run, failure, can_retry, local, hot, policy).0 is Some,
        local.applied && !local.permits_retry && !local.permits_deadline_replay ==> late_failure(
            run,
            failure,
            can_retry,
            local,
            stall_metadata,
            stall_permits,
            policy,
        ).0 is Some,
        !stall_permits ==> late_failure(
            run,
            failure,
            can_retry,
            local,
            stall_metadata,
            stall_permits,
            policy,
        ).0 is Some,
        local.applied && local.permits_deadline_replay && stall_permits ==> late_failure(
            run,
            failure,
            can_retry,
            local,
            stall_metadata,
            stall_permits,
            policy,
        ).0 is None,
{
}

/// An upstream that did not come back from its restart in time is told by 503 with the
/// time to wait, and one that cannot be probed by 502 without one.
pub proof fn lost_restarts_are_told(
    outcome: FailureOutcomeModel,
    failure: FailureModel,
    gate: HotGateModel,
)
    requires
        !failure.response_metadata.contains_key("local_recovery_status"@),
    ensures
        gate.terminal matches Some(HotRestartTerminal::Timeout { retry_after_secs }) ==> {
            &&& ended_by_restart(outcome, failure, gate).downstream_status == 503
            &&& ended_by_restart(outcome, failure, gate).retry_after_secs == Some(retry_after_secs)
        },
        gate.terminal == Some(HotRestartTerminal::Error) ==> {
            &&& ended_by_restart(outcome, failure, gate).downstream_status == 502
            &&& ended_by_restart(outcome, failure, gate).retry_after_secs is None
        },
        gate.terminal is None ==> ended_by_restart(outcome, failure, gate) == outcome,
        ended_by_restart(outcome, failure, gate).error_message == outcome.error_message,
        ended_by_restart(outcome, failure, gate).attempt_records == outcome.attempt_records,
{
}

/// A retry is told not to loop exactly after a loop, where hints are on, and never on
/// the first attempt; a stream is relayed directly exactly on such a retry that does
/// not think and does not answer from salvaged reasoning.
pub proof fn loops_change_the_next_attempt(
    kind: ShieldedChatKind,
    attempt_number: u32,
    hint_enabled: bool,
    retry_cause: ShieldedRetryCause,
    request: Bindings,
    label: Seq<char>,
)
    ensures
        !wants_hint(1, hint_enabled, Some(retry_cause)),
        !wants_hint(attempt_number, false, Some(retry_cause)),
        !wants_hint(attempt_number, hint_enabled, None),
        attempt_number >= 2 ==> (wants_hint(attempt_number, true, Some(retry_cause)) <==> retry_cause
            is LoopDetected),
        relays_directly(kind, attempt_number, Some(retry_cause), request, label) ==> kind is Stream
            && attempt_number >= 2 && retry_cause is LoopDetected,
        kind is Stream && attempt_number >= 2 && retry_cause is LoopDetected && !request.contains_key(
            "cot_salvage_used"@,
        ) && request.contains_key("attempt_thinking_mode"@) ==> (relays_directly(
            kind,
            attempt_number,
            Some(retry_cause),
            request,
            label,
        ) <==> request["attempt_thinking_mode"@] == label),
{
}

/// A recovery lets the retries go on where it permits them, and replays a request that
/// ran out of time; what it did is told of the failure.
pub proof fn recoveries_permit_the_retries(
    can_retry: bool,
    gate: GateModel,
    hot: HotGateModel,
    failure: FailureModel,
    key: Seq<char>,
)
    ensures
        !gate.applied ==> retry_after_recovery(can_retry, gate) == can_retry,
        gate.applied && gate.permits_deadline_replay ==> retry_after_recovery(can_retry, gate),
        gate.applied && !gate.permits_deadline_replay ==> (retry_after_recovery(can_retry, gate)
            <==> can_retry && gate.permits_retry),
        !gate.applied ==> after_local_gate(failure, gate) == failure,
        gate.applied && gate.metadata.contains_key(key) ==> after_local_gate(
            failure,
            gate,
        ).response_metadata[key] == gate.metadata[key],
        after_local_gate(failure, gate).retry_cause == failure.retry_cause,
        after_local_gate(failure, gate).abort_reason == failure.abort_reason,
        failure.response_metadata.contains_key("local_recovery_status"@) ==> after_hot_gate(
            failure,
            hot,
        ) == failure,
        !failure.response_metadata.contains_key("local_recovery_status"@) && hot.terminal is None
            ==> after_hot_gate(failure, hot).abort_reason == failure.abort_reason,
        !failure.response_metadata.contains_key("local_recovery_status"@)
            && hot.metadata.contains_key(key) ==> after_hot_gate(failure, hot).response_metadata[key]
            == hot.metadata[key],
{
}

/// A response that cannot be used is told by what it lacks.
pub proof fn refused_responses_are_told()
    ensures
        refusal_message(true)
            == "shielded chat completion expected upstream text/event-stream response"@,
        refusal_message(false) == "non-retryable upstream response after shielded response started"@,
{
}

} // verus!
