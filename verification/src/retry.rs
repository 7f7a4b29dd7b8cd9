//! Retrying shielded requests: the policy, the causes of a retry, the plan of
//! each attempt and what is recorded of them.

use crate::failures::ReqwestFailureKind;
use crate::metadata::{with_key_of, with_prefix, Bindings, Metadata};
use crate::records::{record_models, AttemptRecord, AttemptRecordModel};
use crate::text::{
    bool_chars, clone_opt, decimal, decimal_text, joined, opt_chars,
};
use crate::thinking::{
    cot_salvage_thinking, ladder_thinking, retry_ladder_thinking, salvage_thinking,
    LoopFailurePolicy, RetryLadderConfig, RetryLadderModel, ThinkingConfig, ThinkingModel,
};
use vstd::prelude::*;

verus! {

/// Why an attempt is tried again.
#[derive(Clone, Copy, Debug, PartialEq, Eq, Structural)]
pub enum ShieldedRetryCause {
    LoopDetected,
    TransientUpstreamStatus,
    TransientTransport,
    TransientStream,
    UpstreamStall,
}

impl ShieldedRetryCause {
    /// The reason recorded on the attempt that is tried again.
    pub open spec fn reason_text(self) -> Seq<char> {
        match self {
            ShieldedRetryCause::LoopDetected => "loop_detected"@,
            ShieldedRetryCause::TransientUpstreamStatus => "transient_upstream_status"@,
            ShieldedRetryCause::TransientTransport => "transient_upstream_transport"@,
            ShieldedRetryCause::TransientStream => "transient_upstream_stream_failure"@,
            ShieldedRetryCause::UpstreamStall => "upstream_stall"@,
        }
    }

    /// The reason recorded on the next attempt.
    pub open spec fn next_text(self) -> Seq<char> {
        match self {
            ShieldedRetryCause::LoopDetected => "previous_loop_detected"@,
            ShieldedRetryCause::TransientUpstreamStatus => "previous_transient_upstream_status"@,
            ShieldedRetryCause::TransientTransport => "previous_transient_upstream_transport"@,
            ShieldedRetryCause::TransientStream => "previous_transient_upstream_stream_failure"@,
            ShieldedRetryCause::UpstreamStall => "previous_upstream_stall"@,
        }
    }

    /// The reason recorded on the attempt that is tried again.
    pub fn retry_reason(self) -> (reason: &'static str)
        ensures
            reason@ == self.reason_text(),
    {
        match self {
            ShieldedRetryCause::LoopDetected => "loop_detected",
            ShieldedRetryCause::TransientUpstreamStatus => "transient_upstream_status",
            ShieldedRetryCause::TransientTransport => "transient_upstream_transport",
            ShieldedRetryCause::TransientStream => "transient_upstream_stream_failure",
            ShieldedRetryCause::UpstreamStall => "upstream_stall",
        }
    }

    /// The reason recorded on the next attempt.
    pub fn next_attempt_reason(self) -> (reason: &'static str)
        ensures
            reason@ == self.next_text(),
    {
        match self {
            ShieldedRetryCause::LoopDetected => "previous_loop_detected",
            ShieldedRetryCause::TransientUpstreamStatus => "previous_transient_upstream_status",
            ShieldedRetryCause::TransientTransport => "previous_transient_upstream_transport",
            ShieldedRetryCause::TransientStream => "previous_transient_upstream_stream_failure",
            ShieldedRetryCause::UpstreamStall => "previous_upstream_stall",
        }
    }
}

/// The reason recorded on the next attempt is the word `previous_` and the
/// reason recorded on the attempt that is tried again.
pub proof fn next_reasons_name_the_previous(cause: ShieldedRetryCause)
    ensures
        cause.next_text() == "previous_"@ + cause.reason_text(),
{
    reveal_strlit("previous_");
    reveal_strlit("loop_detected");
    reveal_strlit("transient_upstream_status");
    reveal_strlit("transient_upstream_transport");
    reveal_strlit("transient_upstream_stream_failure");
    reveal_strlit("upstream_stall");
    reveal_strlit("previous_loop_detected");
    reveal_strlit("previous_transient_upstream_status");
    reveal_strlit("previous_transient_upstream_transport");
    reveal_strlit("previous_transient_upstream_stream_failure");
    reveal_strlit("previous_upstream_stall");
    assert(cause.next_text() =~= "previous_"@ + cause.reason_text());
}

/// Whether an upstream status may go away when it is tried again.
pub open spec fn is_transient_status(status: u16) -> bool {
    status == 408 || status == 429 || status == 500 || status == 502 || status == 503 || status
        == 504
}

/// The cause of a retry after an upstream status.
pub open spec fn cause_of_status(status: u16) -> Option<ShieldedRetryCause> {
    if is_transient_status(status) {
        Some(ShieldedRetryCause::TransientUpstreamStatus)
    } else {
        None
    }
}

/// The cause of a retry after an upstream status.
pub fn retry_cause_for_upstream_status(status: u16) -> (cause: Option<ShieldedRetryCause>)
    ensures
        cause == cause_of_status(status),
{
    if status == 408 || status == 429 || status == 500 || status == 502 || status == 503 || status
        == 504 {
        Some(ShieldedRetryCause::TransientUpstreamStatus)
    } else {
        None
    }
}

/// The cause of a retry after a failure of the upstream client.
pub open spec fn cause_of_transport(failure: Option<ReqwestFailureKind>) -> Option<
    ShieldedRetryCause,
> {
    match failure {
        Some(failure) if failure.transient() => Some(ShieldedRetryCause::TransientTransport),
        _ => None,
    }
}

/// The cause of a retry after a failure of the upstream client.
pub fn transport_retry_cause(failure: Option<ReqwestFailureKind>) -> (cause: Option<
    ShieldedRetryCause,
>)
    ensures
        cause == cause_of_transport(failure),
{
    match failure {
        Some(failure) => {
            if failure.is_transient() {
                Some(ShieldedRetryCause::TransientTransport)
            } else {
                None
            }
        },
        None => None,
    }
}

/// The cause that is recorded on an attempt: only where it is tried again.
pub fn retry_cause_for_attempt_record(can_retry: bool, retry_cause: Option<ShieldedRetryCause>) -> (
    recorded: Option<ShieldedRetryCause>)
    ensures
        recorded == recorded_cause(can_retry, retry_cause),
{
    if can_retry {
        retry_cause
    } else {
        None
    }
}

/// The cause that is recorded on an attempt: only where it is tried again.
pub open spec fn recorded_cause(
    can_retry: bool,
    retry_cause: Option<ShieldedRetryCause>,
) -> Option<ShieldedRetryCause> {
    if can_retry {
        retry_cause
    } else {
        None
    }
}

// ---------------------------------------------------------------------------
// Policy
// ---------------------------------------------------------------------------

/// What becomes of a request whose client goes away.
#[derive(Clone, Copy, Debug, PartialEq, Eq, Structural)]
pub enum DownstreamDropPolicy {
    Cancel,
    Detach,
}

/// What is done when reasoning loops.
pub struct LoopFailureConfig {
    pub policy: LoopFailurePolicy,
    pub label: String,
    /// Whether the policy answers from salvaged reasoning.
    pub uses_cot_salvage: bool,
}

/// Retry settings.
pub struct RetryConfig {
    pub enabled: bool,
    pub max_attempts: u32,
    pub request_deadline_ms: u64,
    pub anti_loop_hint_enabled: bool,
    pub shielded_streaming_enabled: bool,
    pub downstream_drop_policy: DownstreamDropPolicy,
    pub downstream_drop_policy_label: String,
    pub ladder: Vec<RetryLadderConfig>,
}

/// The policy that the attempts of one request follow.
pub struct ShieldedRetryPolicy {
    pub enabled: bool,
    pub max_attempts: u32,
    pub request_deadline_ms: u64,
    pub anti_loop_hint_enabled: bool,
    pub shielded_streaming_enabled: bool,
    pub downstream_drop_policy: DownstreamDropPolicy,
    pub downstream_drop_policy_label: String,
    pub loop_failure_policy: LoopFailurePolicy,
    pub loop_failure_policy_label: String,
    pub uses_cot_salvage: bool,
    pub ladder: Vec<RetryLadderConfig>,
}

/// How many attempts a request gets: one where retries are off; else the
/// configured number, and no more than there are rungs on the ladder, if there
/// is one.
pub open spec fn attempt_limit(enabled: bool, max_attempts: u32, rungs: nat) -> u32 {
    if !enabled {
        1
    } else if rungs == 0 {
        max_attempts
    } else if rungs < max_attempts {
        rungs as u32
    } else {
        max_attempts
    }
}

/// The meanings of a ladder.
pub open spec fn ladder_models(ladder: Seq<RetryLadderConfig>) -> Seq<RetryLadderModel> {
    Seq::new(ladder.len(), |i: int| ladder[i]@)
}

fn clone_ladder(ladder: &Vec<RetryLadderConfig>) -> (copy: Vec<RetryLadderConfig>)
    ensures
        ladder_models(copy@) == ladder_models(ladder@),
{
    let mut copy: Vec<RetryLadderConfig> = Vec::new();
    let mut i: usize = 0;
    while i < ladder.len()
        invariant
            i <= ladder.len(),
            copy.len() == i,
            forall|j: int| 0 <= j < i ==> (#[trigger] copy[j])@ == ladder[j]@,
        decreases ladder.len() - i,
    {
        copy.push(ladder[i].clone());
        i += 1;
    }
    assert(ladder_models(copy@) =~= ladder_models(ladder@));
    copy
}

/// Whether an attempt may be followed by another.
pub open spec fn retry_allowed(policy: ShieldedRetryPolicy, attempt_number: u32) -> bool {
    policy.enabled && attempt_number < policy.max_attempts
}

/// The plan of one attempt.
pub struct ShieldedAttemptPlan {
    pub name: String,
    pub thinking: ThinkingConfig,
    pub anti_loop_hint: Option<String>,
}

/// The meaning of the plan of one attempt.
#[verifier::ext_equal]
pub struct AttemptPlanModel {
    pub name: Seq<char>,
    pub thinking: ThinkingModel,
    pub anti_loop_hint: Option<Seq<char>>,
}

impl View for ShieldedAttemptPlan {
    type V = AttemptPlanModel;

    open spec fn view(&self) -> AttemptPlanModel {
        AttemptPlanModel {
            name: self.name@,
            thinking: self.thinking@,
            anti_loop_hint: opt_chars(self.anti_loop_hint),
        }
    }
}

/// The plan of an attempt before reasoning is salvaged: that of its rung, or a
/// numbered attempt with the thinking settings of the upstream above the ladder.
pub open spec fn rung_plan(
    ladder: Seq<RetryLadderModel>,
    attempt_number: u32,
    fallback: ThinkingModel,
) -> AttemptPlanModel {
    let index = if attempt_number == 0 {
        0
    } else {
        attempt_number - 1
    };
    if index < ladder.len() {
        AttemptPlanModel {
            name: ladder[index].name,
            thinking: ladder_thinking(ladder[index], fallback),
            anti_loop_hint: ladder[index].anti_loop_hint,
        }
    } else {
        AttemptPlanModel {
            name: "attempt-"@ + decimal(attempt_number as nat),
            thinking: fallback,
            anti_loop_hint: None,
        }
    }
}

/// The plan of an attempt.
pub open spec fn attempt_plan_of(
    ladder: Seq<RetryLadderModel>,
    attempt_number: u32,
    fallback: ThinkingModel,
    salvage: Option<LoopFailurePolicy>,
) -> AttemptPlanModel {
    let plan = rung_plan(ladder, attempt_number, fallback);
    match salvage {
        Some(policy) => AttemptPlanModel {
            thinking: salvage_thinking(policy, plan.thinking),
            ..plan
        },
        None => plan,
    }
}

impl ShieldedRetryPolicy {
    /// The policy that a configuration sets.
    pub fn from_config(config: &RetryConfig, loop_failure: &LoopFailureConfig) -> (policy:
        ShieldedRetryPolicy)
        ensures
            policy.enabled == config.enabled,
            policy.max_attempts == attempt_limit(
                config.enabled,
                config.max_attempts,
                config.ladder.len() as nat,
            ),
            policy.request_deadline_ms == config.request_deadline_ms,
            policy.anti_loop_hint_enabled == config.anti_loop_hint_enabled,
            policy.shielded_streaming_enabled == config.shielded_streaming_enabled,
            policy.downstream_drop_policy == config.downstream_drop_policy,
            policy.downstream_drop_policy_label == config.downstream_drop_policy_label,
            policy.loop_failure_policy == loop_failure.policy,
            policy.loop_failure_policy_label == loop_failure.label,
            policy.uses_cot_salvage == loop_failure.uses_cot_salvage,
            ladder_models(policy.ladder@) == ladder_models(config.ladder@),
    {
        let max_attempts: u32 = if config.enabled {
            if config.ladder.len() == 0 {
                config.max_attempts
            } else if (config.ladder.len() as u64) < config.max_attempts as u64 {
                config.ladder.len() as u32
            } else {
                config.max_attempts
            }
        } else {
            1
        };
        ShieldedRetryPolicy {
            enabled: config.enabled,
            max_attempts,
            request_deadline_ms: config.request_deadline_ms,
            anti_loop_hint_enabled: config.anti_loop_hint_enabled,
            shielded_streaming_enabled: config.shielded_streaming_enabled,
            downstream_drop_policy: config.downstream_drop_policy,
            downstream_drop_policy_label: config.downstream_drop_policy_label.clone(),
            loop_failure_policy: loop_failure.policy,
            loop_failure_policy_label: loop_failure.label.clone(),
            uses_cot_salvage: loop_failure.uses_cot_salvage,
            ladder: clone_ladder(&config.ladder),
        }
    }

    /// The policy of a response that is handed on without retries.
    pub fn disabled(default_deadline_ms: u64, drop_label: &str, loop_label: &str) -> (policy:
        ShieldedRetryPolicy)
        ensures
            !policy.enabled,
            policy.max_attempts == 1,
            policy.request_deadline_ms == default_deadline_ms,
            !policy.anti_loop_hint_enabled,
            !policy.shielded_streaming_enabled,
            policy.downstream_drop_policy == DownstreamDropPolicy::Cancel,
            policy.downstream_drop_policy_label@ == drop_label@,
            policy.loop_failure_policy == LoopFailurePolicy::RetryLadder,
            policy.loop_failure_policy_label@ == loop_label@,
            !policy.uses_cot_salvage,
            policy.ladder.len() == 0,
    {
        ShieldedRetryPolicy {
            enabled: false,
            max_attempts: 1,
            request_deadline_ms: default_deadline_ms,
            anti_loop_hint_enabled: false,
            shielded_streaming_enabled: false,
            downstream_drop_policy: DownstreamDropPolicy::Cancel,
            downstream_drop_policy_label: drop_label.to_owned(),
            loop_failure_policy: LoopFailurePolicy::RetryLadder,
            loop_failure_policy_label: loop_label.to_owned(),
            uses_cot_salvage: false,
            ladder: Vec::new(),
        }
    }

    /// Whether an attempt may be followed by another.
    pub fn allows_retry_after(&self, attempt_number: u32) -> (allows: bool)
        ensures
            allows == retry_allowed(*self, attempt_number),
    {
        self.enabled && attempt_number < self.max_attempts
    }

    /// The plan of an attempt.
    pub fn attempt_plan(
        &self,
        attempt_number: u32,
        fallback_thinking: &ThinkingConfig,
        salvage: Option<LoopFailurePolicy>,
    ) -> (plan: ShieldedAttemptPlan)
        ensures
            plan@ == attempt_plan_of(
                ladder_models(self.ladder@),
                attempt_number,
                fallback_thinking@,
                salvage,
            ),
            1 <= attempt_number <= self.ladder.len() ==> plan.name@
                == self.ladder[attempt_number - 1].name@ && opt_chars(plan.anti_loop_hint)
                == opt_chars(self.ladder[attempt_number - 1].anti_loop_hint),
            1 <= attempt_number <= self.ladder.len() && salvage is None ==> {
                let entry = self.ladder[attempt_number - 1];
                &&& plan.thinking.mode == entry.thinking.mode
                &&& plan.thinking.enabled == entry.thinking.enabled
                &&& plan.thinking.force_disable == entry.thinking.force_disable
                &&& plan.thinking.max_tokens == entry.thinking.max_tokens
                &&& plan.thinking.preserve_answer_budget == entry.thinking.preserve_answer_budget
                &&& plan.thinking.budget_tokens == if entry.effective_mode is ForceDisable {
                    0
                } else {
                    entry.thinking.budget_tokens
                }
                &&& plan.thinking.default_injection_schema@ == match entry.default_injection_schema {
                    Some(schema) => schema@,
                    None => fallback_thinking.default_injection_schema@,
                }
            },
            attempt_number > self.ladder.len() && salvage is None ==> plan.thinking@
                == fallback_thinking@ && plan.anti_loop_hint is None,
            salvage matches Some(LoopFailurePolicy::TruncateCotThenAnswer) ==> plan.thinking.mode
                is ForceDisable && !plan.thinking.enabled && plan.thinking.budget_tokens == 0,
            salvage matches Some(LoopFailurePolicy::BoundedAnswerFromCot) ==> plan.thinking.mode
                is BoundedThinking && plan.thinking.enabled && plan.thinking.budget_tokens == 1_024,
    {
        let index: u32 = attempt_number.saturating_sub(1);
        let mut plan = if (index as u64) < self.ladder.len() as u64 {
            let entry = &self.ladder[index as usize];
            ShieldedAttemptPlan {
                name: entry.name.clone(),
                thinking: retry_ladder_thinking(entry, fallback_thinking),
                anti_loop_hint: clone_opt(&entry.anti_loop_hint),
            }
        } else {
            ShieldedAttemptPlan {
                name: joined("attempt-", decimal_text(attempt_number as u64).as_str()),
                thinking: fallback_thinking.clone(),
                anti_loop_hint: None,
            }
        };
        match salvage {
            Some(policy) => {
                plan.thinking = cot_salvage_thinking(policy, &plan.thinking);
            },
            None => {},
        }
        plan
    }
}

/// A request never gets more attempts than its configuration names, nor than its
/// ladder has rungs, and at least one wherever the configuration names one.
pub proof fn attempts_are_bounded(enabled: bool, max_attempts: u32, rungs: nat)
    ensures
        enabled ==> attempt_limit(enabled, max_attempts, rungs) <= max_attempts,
        enabled && rungs > 0 ==> attempt_limit(enabled, max_attempts, rungs) <= rungs,
        max_attempts > 0 ==> attempt_limit(enabled, max_attempts, rungs) >= 1,
        !enabled ==> attempt_limit(enabled, max_attempts, rungs) == 1,
        enabled && rungs == 0 ==> attempt_limit(enabled, max_attempts, rungs) == max_attempts,
        enabled && rungs >= max_attempts ==> attempt_limit(enabled, max_attempts, rungs)
            == max_attempts,
        enabled && 0 < rungs <= max_attempts ==> attempt_limit(enabled, max_attempts, rungs)
            == rungs,
{
}

/// The attempts of a request walk its ladder: the attempt with number n goes by the
/// rung with number n, by what is configured on that rung and on no other. A rung
/// that switches thinking off leaves no budget for it.
pub proof fn attempts_walk_the_ladder(
    ladder: Seq<RetryLadderModel>,
    attempt_number: u32,
    fallback: ThinkingModel,
)
    requires
        1 <= attempt_number <= ladder.len(),
    ensures
        ({
            let plan = attempt_plan_of(ladder, attempt_number, fallback, None);
            let entry = ladder[attempt_number - 1];
            &&& plan.name == entry.name
            &&& plan.anti_loop_hint == entry.anti_loop_hint
            &&& plan.thinking.mode == entry.thinking.mode
            &&& plan.thinking.enabled == entry.thinking.enabled
            &&& plan.thinking.force_disable == entry.thinking.force_disable
            &&& plan.thinking.max_tokens == entry.thinking.max_tokens
            &&& plan.thinking.preserve_answer_budget == entry.thinking.preserve_answer_budget
            &&& entry.effective_mode is ForceDisable ==> plan.thinking.budget_tokens == 0
            &&& !(entry.effective_mode is ForceDisable) ==> plan.thinking.budget_tokens
                == entry.thinking.budget_tokens
            &&& entry.default_injection_schema matches Some(schema)
                ==> plan.thinking.default_injection_schema == schema
            &&& entry.default_injection_schema is None ==> plan.thinking.default_injection_schema
                == fallback.default_injection_schema
        }),
{
}

/// What is on the other rungs does not matter to an attempt, and above the ladder an
/// attempt thinks as the upstream is configured to.
pub proof fn other_rungs_do_not_matter(
    ladder: Seq<RetryLadderModel>,
    other: Seq<RetryLadderModel>,
    attempt_number: u32,
    fallback: ThinkingModel,
    salvage: Option<LoopFailurePolicy>,
)
    requires
        attempt_number >= 1,
    ensures
        attempt_number <= ladder.len() && attempt_number <= other.len() && ladder[attempt_number - 1]
            == other[attempt_number - 1] ==> attempt_plan_of(
            ladder,
            attempt_number,
            fallback,
            salvage,
        ) == attempt_plan_of(other, attempt_number, fallback, salvage),
        attempt_number > ladder.len() ==> attempt_plan_of(
            ladder,
            attempt_number,
            fallback,
            None,
        ).thinking == fallback,
{
}

/// An attempt is followed by another only where retries are on and the attempts are
/// not used up; and where they are, it may be.
pub proof fn retries_stop_at_the_limit(policy: ShieldedRetryPolicy, attempt_number: u32)
    ensures
        !policy.enabled ==> !retry_allowed(policy, attempt_number),
        attempt_number >= policy.max_attempts ==> !retry_allowed(policy, attempt_number),
        policy.enabled && attempt_number < policy.max_attempts ==> retry_allowed(
            policy,
            attempt_number,
        ),
{
}

/// What may go away is tried again: timeouts, rate limits and failures of the server.
/// What the server has answered or refused for good is not.
pub proof fn passing_statuses_are_tried_again(status: u16)
    ensures
        502 <= status <= 504 || status == 500 || status == 408 || status == 429
            ==> cause_of_status(status) == Some(ShieldedRetryCause::TransientUpstreamStatus),
        status < 400 ==> cause_of_status(status) is None,
        400 <= status < 500 && status != 408 && status != 429 ==> cause_of_status(status) is None,
        status == 501 || status >= 505 ==> cause_of_status(status) is None,
{
}

// ---------------------------------------------------------------------------
// Metadata
// ---------------------------------------------------------------------------

/// The bindings of the policy of a request.
pub open spec fn with_policy(bindings: Bindings, policy: ShieldedRetryPolicy) -> Bindings {
    bindings.insert("retry_policy_enabled"@, bool_chars(policy.enabled)).insert(
        "retry_max_attempts"@,
        decimal(policy.max_attempts as nat),
    ).insert("retry_request_deadline_ms"@, decimal(policy.request_deadline_ms as nat)).insert(
        "retry_anti_loop_hint_enabled"@,
        bool_chars(policy.anti_loop_hint_enabled),
    ).insert(
        "retry_shielded_streaming_enabled"@,
        bool_chars(policy.shielded_streaming_enabled),
    ).insert("loop_failure_policy"@, policy.loop_failure_policy_label@).insert(
        "downstream_drop_policy"@,
        policy.downstream_drop_policy_label@,
    )
}

/// Records the policy of a request.
pub fn add_retry_request_metadata(metadata: &mut Metadata, policy: &ShieldedRetryPolicy)
    ensures
        final(metadata)@ == with_policy(old(metadata)@, *policy),
{
    metadata.set_bool("retry_policy_enabled", policy.enabled);
    metadata.set_number("retry_max_attempts", policy.max_attempts as u64);
    metadata.set_number("retry_request_deadline_ms", policy.request_deadline_ms);
    metadata.set_bool("retry_anti_loop_hint_enabled", policy.anti_loop_hint_enabled);
    metadata.set_bool("retry_shielded_streaming_enabled", policy.shielded_streaming_enabled);
    metadata.set("loop_failure_policy", policy.loop_failure_policy_label.as_str());
    metadata.set("downstream_drop_policy", policy.downstream_drop_policy_label.as_str());
}

/// Reasoning that a later attempt answers from.
pub struct CotSalvageContext {
    pub policy: LoopFailurePolicy,
    pub policy_label: String,
    pub source_attempt_id: String,
    pub source_attempt_number: u32,
    pub source_attempt_duration_ms: u64,
    pub reasoning_prefix: String,
}

/// The meaning of salvaged reasoning.
#[verifier::ext_equal]
pub struct SalvageModel {
    pub policy: LoopFailurePolicy,
    pub policy_label: Seq<char>,
    pub source_attempt_id: Seq<char>,
    pub source_attempt_number: u32,
    pub source_attempt_duration_ms: u64,
    pub reasoning_prefix: Seq<char>,
}

impl View for CotSalvageContext {
    type V = SalvageModel;

    open spec fn view(&self) -> SalvageModel {
        SalvageModel {
            policy: self.policy,
            policy_label: self.policy_label@,
            source_attempt_id: self.source_attempt_id@,
            source_attempt_number: self.source_attempt_number,
            source_attempt_duration_ms: self.source_attempt_duration_ms,
            reasoning_prefix: self.reasoning_prefix@,
        }
    }
}

impl CotSalvageContext {
    /// The length of the salvaged reasoning, in bytes.
    pub fn prefix_bytes(&self) -> (bytes: usize)
        ensures
            bytes == vstd::utf8::encode_utf8(self.reasoning_prefix@).len(),
    {
        self.reasoning_prefix.as_str().as_bytes().len()
    }
}

/// The meaning of optional salvaged reasoning.
pub open spec fn opt_salvage(salvage: Option<CotSalvageContext>) -> Option<SalvageModel> {
    match salvage {
        Some(salvage) => Some(salvage@),
        None => None,
    }
}

/// The bindings of the reasoning that an attempt answers from.
pub open spec fn with_salvage(
    bindings: Bindings,
    salvage: Option<SalvageModel>,
    thinking: ThinkingModel,
    mode_label: Seq<char>,
) -> Bindings {
    match salvage {
        None => bindings.insert("cot_salvage_used"@, "false"@),
        Some(salvage) => bindings.insert("cot_salvage_used"@, "true"@).insert(
            "cot_salvage_policy"@,
            salvage.policy_label,
        ).insert("cot_salvage_source_attempt_id"@, salvage.source_attempt_id).insert(
            "cot_salvage_source_attempt_number"@,
            decimal(salvage.source_attempt_number as nat),
        ).insert(
            "cot_salvage_source_attempt_duration_ms"@,
            decimal(salvage.source_attempt_duration_ms as nat),
        ).insert(
            "cot_salvage_reasoning_prefix_bytes"@,
            decimal(vstd::utf8::encode_utf8(salvage.reasoning_prefix).len()),
        ).insert(
            "cot_salvage_thinking_budget_tokens"@,
            decimal(thinking.budget_tokens as nat),
        ).insert("cot_salvage_thinking_mode"@, mode_label),
    }
}

/// Records the reasoning that an attempt answers from. `mode_label` names the
/// mode that the thinking settings come to.
pub fn add_cot_salvage_request_metadata(
    metadata: &mut Metadata,
    cot_salvage: Option<&CotSalvageContext>,
    thinking: &ThinkingConfig,
    mode_label: &str,
)
    ensures
        final(metadata)@ == with_salvage(
            old(metadata)@,
            match cot_salvage {
                Some(salvage) => Some(salvage@),
                None => None,
            },
            thinking@,
            mode_label@,
        ),
{
    let salvage = match cot_salvage {
        Some(salvage) => salvage,
        None => {
            metadata.set("cot_salvage_used", "false");
            return;
        },
    };
    metadata.set("cot_salvage_used", "true");
    metadata.set("cot_salvage_policy", salvage.policy_label.as_str());
    metadata.set("cot_salvage_source_attempt_id", salvage.source_attempt_id.as_str());
    metadata.set_number("cot_salvage_source_attempt_number", salvage.source_attempt_number as u64);
    metadata.set_number("cot_salvage_source_attempt_duration_ms", salvage.source_attempt_duration_ms);
    metadata.set_number("cot_salvage_reasoning_prefix_bytes", salvage.prefix_bytes() as u64);
    metadata.set_number("cot_salvage_thinking_budget_tokens", thinking.budget_tokens as u64);
    metadata.set("cot_salvage_thinking_mode", mode_label);
}

/// The bindings of an attempt.
pub open spec fn with_attempt_plan(
    bindings: Bindings,
    policy: ShieldedRetryPolicy,
    attempt_number: u32,
    retry_cause: Option<ShieldedRetryCause>,
    anti_loop_hint_applied: bool,
    plan: AttemptPlanModel,
    mode_label: Seq<char>,
    salvage: Option<SalvageModel>,
) -> Bindings {
    let index = if attempt_number == 0 {
        0
    } else {
        attempt_number - 1
    };
    let numbered = bindings.insert("attempt_number"@, decimal(attempt_number as nat)).insert(
        "attempt_index"@,
        decimal(index as nat),
    ).insert("attempt_name"@, plan.name);
    let of_policy = with_policy(numbered, policy);
    let planned = of_policy.insert(
        "retry_previous_reason"@,
        match retry_cause {
            Some(cause) => cause.next_text(),
            None => "none"@,
        },
    ).insert("retry_anti_loop_hint_applied"@, bool_chars(anti_loop_hint_applied)).insert(
        "attempt_thinking_mode"@,
        mode_label,
    ).insert(
        "attempt_thinking_budget_tokens"@,
        decimal(plan.thinking.budget_tokens as nat),
    ).insert(
        "attempt_thinking_max_tokens"@,
        match plan.thinking.max_tokens {
            Some(tokens) => decimal(tokens as nat),
            None => "unset"@,
        },
    );
    with_salvage(planned, salvage, plan.thinking, mode_label)
}

/// Records an attempt: its number, its plan, its policy and why it is made.
/// `mode_label` names the mode that the thinking settings of the plan come to.
pub fn add_retry_attempt_metadata(
    metadata: &mut Metadata,
    policy: &ShieldedRetryPolicy,
    attempt_number: u32,
    retry_cause: Option<ShieldedRetryCause>,
    anti_loop_hint_applied: bool,
    attempt_plan: &ShieldedAttemptPlan,
    mode_label: &str,
    cot_salvage: Option<&CotSalvageContext>,
)
    ensures
        final(metadata)@ == with_attempt_plan(
            old(metadata)@,
            *policy,
            attempt_number,
            retry_cause,
            anti_loop_hint_applied,
            attempt_plan@,
            mode_label@,
            match cot_salvage {
                Some(salvage) => Some(salvage@),
                None => None,
            },
        ),
{
    metadata.set_number("attempt_number", attempt_number as u64);
    metadata.set_number("attempt_index", attempt_number.saturating_sub(1) as u64);
    metadata.set("attempt_name", attempt_plan.name.as_str());
    add_retry_request_metadata(metadata, policy);
    match retry_cause {
        Some(cause) => {
            metadata.set("retry_previous_reason", cause.next_attempt_reason());
        },
        None => {
            metadata.set("retry_previous_reason", "none");
        },
    }
    metadata.set_bool("retry_anti_loop_hint_applied", anti_loop_hint_applied);
    metadata.set("attempt_thinking_mode", mode_label);
    metadata.set_number(
        "attempt_thinking_budget_tokens",
        attempt_plan.thinking.budget_tokens as u64,
    );
    match attempt_plan.thinking.max_tokens {
        Some(tokens) => {
            metadata.set_number("attempt_thinking_max_tokens", tokens as u64);
        },
        None => {
            metadata.set("attempt_thinking_max_tokens", "unset");
        },
    }
    add_cot_salvage_request_metadata(metadata, cot_salvage, &attempt_plan.thinking, mode_label);
}

/// The bindings of a response with what its request says of the attempt.
pub open spec fn with_attempt_request(response: Bindings, request: Bindings) -> Bindings {
    let thinking = response.union_prefer_right(with_prefix(request, "thinking_"@));
    let b1 = with_key_of(thinking, request, "attempt_index"@);
    let b2 = with_key_of(b1, request, "attempt_name"@);
    let b3 = with_key_of(b2, request, "retry_request_deadline_ms"@);
    let b4 = with_key_of(b3, request, "retry_previous_reason"@);
    let b5 = with_key_of(b4, request, "retry_anti_loop_hint_applied"@);
    let b6 = with_key_of(b5, request, "retry_shielded_streaming_enabled"@);
    let b7 = with_key_of(b6, request, "loop_failure_policy"@);
    let b8 = with_key_of(b7, request, "downstream_drop_policy"@);
    let b9 = with_key_of(b8, request, "attempt_thinking_mode"@);
    let b10 = with_key_of(b9, request, "attempt_thinking_budget_tokens"@);
    let b11 = with_key_of(b10, request, "attempt_thinking_max_tokens"@);
    let b12 = with_key_of(b11, request, "cot_salvage_used"@);
    let b13 = with_key_of(b12, request, "cot_salvage_policy"@);
    let b14 = with_key_of(b13, request, "cot_salvage_source_attempt_id"@);
    let b15 = with_key_of(b14, request, "cot_salvage_source_attempt_number"@);
    let b16 = with_key_of(b15, request, "cot_salvage_source_attempt_duration_ms"@);
    let b17 = with_key_of(b16, request, "cot_salvage_reasoning_prefix_bytes"@);
    let b18 = with_key_of(b17, request, "cot_salvage_thinking_budget_tokens"@);
    with_key_of(b18, request, "cot_salvage_thinking_mode"@)
}

/// Copies to the metadata of a response what its request says of the attempt.
pub fn copy_attempt_request_metadata(response_metadata: &mut Metadata, request_metadata: &Metadata)
    ensures
        final(response_metadata)@ == with_attempt_request(
            old(response_metadata)@,
            request_metadata@,
        ),
{
    response_metadata.extend_with_prefix(request_metadata, "thinking_");
    response_metadata.copy_key(request_metadata, "attempt_index");
    response_metadata.copy_key(request_metadata, "attempt_name");
    response_metadata.copy_key(request_metadata, "retry_request_deadline_ms");
    response_metadata.copy_key(request_metadata, "retry_previous_reason");
    response_metadata.copy_key(request_metadata, "retry_anti_loop_hint_applied");
    response_metadata.copy_key(request_metadata, "retry_shielded_streaming_enabled");
    response_metadata.copy_key(request_metadata, "loop_failure_policy");
    response_metadata.copy_key(request_metadata, "downstream_drop_policy");
    response_metadata.copy_key(request_metadata, "attempt_thinking_mode");
    response_metadata.copy_key(request_metadata, "attempt_thinking_budget_tokens");
    response_metadata.copy_key(request_metadata, "attempt_thinking_max_tokens");
    response_metadata.copy_key(request_metadata, "cot_salvage_used");
    response_metadata.copy_key(request_metadata, "cot_salvage_policy");
    response_metadata.copy_key(request_metadata, "cot_salvage_source_attempt_id");
    response_metadata.copy_key(request_metadata, "cot_salvage_source_attempt_number");
    response_metadata.copy_key(request_metadata, "cot_salvage_source_attempt_duration_ms");
    response_metadata.copy_key(request_metadata, "cot_salvage_reasoning_prefix_bytes");
    response_metadata.copy_key(request_metadata, "cot_salvage_thinking_budget_tokens");
    response_metadata.copy_key(request_metadata, "cot_salvage_thinking_mode");
}

/// A text, or `none`.
pub open spec fn or_none(text: Option<Seq<char>>) -> Seq<char> {
    match text {
        Some(text) => text,
        None => "none"@,
    }
}

/// One attempt in the summary of a chain of attempts.
pub open spec fn chain_link(attempt: AttemptRecordModel) -> Seq<char> {
    decimal(attempt.attempt_number as nat) + ":"@ + attempt.status.label() + ":"@ + or_none(
        attempt.abort_reason,
    ) + ":"@ + or_none(attempt.retry_reason)
}

/// The summary of a chain of attempts.
pub open spec fn chain_text(attempts: Seq<AttemptRecordModel>) -> Seq<char>
    decreases attempts.len(),
{
    if attempts.len() == 0 {
        "none"@
    } else if attempts.len() == 1 {
        chain_link(attempts[0])
    } else {
        chain_text(attempts.drop_last()) + ","@ + chain_link(attempts.last())
    }
}

fn write_link(text: &mut String, attempt: &AttemptRecord)
    ensures
        final(text)@ == old(text)@ + chain_link(attempt@),
{
    let ghost before = text@;
    text.append(decimal_text(attempt.attempt_number as u64).as_str());
    text.append(":");
    text.append(attempt.status.as_str());
    text.append(":");
    match &attempt.abort_reason {
        Some(reason) => {
            text.append(reason.as_str());
        },
        None => {
            text.append("none");
        },
    }
    text.append(":");
    match &attempt.retry_reason {
        Some(reason) => {
            text.append(reason.as_str());
        },
        None => {
            text.append("none");
        },
    }
    assert(text@ =~= before + chain_link(attempt@));
}

/// Summarises a chain of attempts.
pub fn attempt_chain_summary(attempts: &Vec<AttemptRecord>) -> (summary: String)
    ensures
        summary@ == chain_text(record_models(attempts@)),
{
    if attempts.len() == 0 {
        return "none".to_owned();
    }
    let ghost all = record_models(attempts@);
    let mut summary = String::new();
    write_link(&mut summary, &attempts[0]);
    let mut i: usize = 1;
    assert(summary@ =~= chain_text(all.take(1)));
    while i < attempts.len()
        invariant
            1 <= i <= attempts.len(),
            all == record_models(attempts@),
            summary@ == chain_text(all.take(i as int)),
        decreases attempts.len() - i,
    {
        let ghost before = summary@;
        assert(all.take(i + 1).drop_last() =~= all.take(i as int));
        assert(all.take(i + 1).last() == attempts[i as int]@);
        summary.append(",");
        write_link(&mut summary, &attempts[i]);
        i += 1;
    }
    assert(all.take(i as int) =~= all);
    summary
}

/// What is recorded of a chain of attempts.
pub open spec fn chain_bindings(
    attempts: Seq<AttemptRecordModel>,
    policy: ShieldedRetryPolicy,
    final_outcome: Seq<char>,
) -> Bindings {
    with_policy(Bindings::empty(), policy).insert(
        "retry_attempt_count"@,
        decimal(attempts.len()),
    ).insert("retry_final_outcome"@, final_outcome).insert(
        "retry_attempt_chain"@,
        chain_text(attempts),
    )
}

/// Records a chain of attempts.
pub fn retry_chain_metadata(
    attempts: &Vec<AttemptRecord>,
    policy: &ShieldedRetryPolicy,
    final_outcome: &str,
) -> (metadata: Metadata)
    ensures
        metadata@ == chain_bindings(record_models(attempts@), *policy, final_outcome@),
{
    let mut metadata = Metadata::new();
    add_retry_request_metadata(&mut metadata, policy);
    metadata.set_number("retry_attempt_count", attempts.len() as u64);
    metadata.set("retry_final_outcome", final_outcome);
    metadata.insert("retry_attempt_chain", attempt_chain_summary(attempts));
    metadata
}

/// What is recorded of the policy of a request is the policy.
pub proof fn policies_are_recorded(
    bindings: Bindings,
    policy: ShieldedRetryPolicy,
)
    ensures
        ({
            let told = with_policy(bindings, policy);
            &&& told.contains_key("retry_policy_enabled"@) && told["retry_policy_enabled"@] == bool_chars(policy.enabled)
            &&& told.contains_key("retry_max_attempts"@) && told["retry_max_attempts"@] == decimal(policy.max_attempts as nat)
            &&& told.contains_key("retry_request_deadline_ms"@) && told["retry_request_deadline_ms"@] == decimal(policy.request_deadline_ms as nat)
            &&& told.contains_key("retry_anti_loop_hint_enabled"@) && told["retry_anti_loop_hint_enabled"@] == bool_chars(policy.anti_loop_hint_enabled)
            &&& told.contains_key("retry_shielded_streaming_enabled"@) && told["retry_shielded_streaming_enabled"@] == bool_chars(policy.shielded_streaming_enabled)
            &&& told.contains_key("loop_failure_policy"@) && told["loop_failure_policy"@] == policy.loop_failure_policy_label@
            &&& told.contains_key("downstream_drop_policy"@) && told["downstream_drop_policy"@] == policy.downstream_drop_policy_label@
        }),
{
    reveal_strlit("retry_policy_enabled");
    reveal_strlit("retry_max_attempts");
    reveal_strlit("retry_request_deadline_ms");
    reveal_strlit("retry_anti_loop_hint_enabled");
    reveal_strlit("retry_shielded_streaming_enabled");
    reveal_strlit("loop_failure_policy");
    reveal_strlit("downstream_drop_policy");
    assert("retry_policy_enabled"@.len() == 20);
    assert("retry_max_attempts"@.len() == 18);
    assert("retry_request_deadline_ms"@.len() == 25);
    assert("retry_anti_loop_hint_enabled"@.len() == 28);
    assert("retry_shielded_streaming_enabled"@.len() == 32);
    assert("loop_failure_policy"@.len() == 19);
    assert("downstream_drop_policy"@.len() == 22);
}

/// What is recorded of salvaged reasoning says where it came from and how it is used.
pub proof fn salvages_are_recorded(
    bindings: Bindings,
    salvage: SalvageModel,
    thinking: ThinkingModel,
    mode_label: Seq<char>,
)
    ensures
        ({
            let told = with_salvage(bindings, Some(salvage), thinking, mode_label);
            &&& told.contains_key("cot_salvage_used"@) && told["cot_salvage_used"@] == "true"@
            &&& told.contains_key("cot_salvage_policy"@) && told["cot_salvage_policy"@] == salvage.policy_label
            &&& told.contains_key("cot_salvage_source_attempt_id"@) && told["cot_salvage_source_attempt_id"@] == salvage.source_attempt_id
            &&& told.contains_key("cot_salvage_source_attempt_number"@) && told["cot_salvage_source_attempt_number"@] == decimal(salvage.source_attempt_number as nat)
            &&& told.contains_key("cot_salvage_source_attempt_duration_ms"@) && told["cot_salvage_source_attempt_duration_ms"@] == decimal(salvage.source_attempt_duration_ms as nat)
            &&& told.contains_key("cot_salvage_reasoning_prefix_bytes"@) && told["cot_salvage_reasoning_prefix_bytes"@] == decimal(vstd::utf8::encode_utf8(salvage.reasoning_prefix).len())
            &&& told.contains_key("cot_salvage_thinking_budget_tokens"@) && told["cot_salvage_thinking_budget_tokens"@] == decimal(thinking.budget_tokens as nat)
            &&& told.contains_key("cot_salvage_thinking_mode"@) && told["cot_salvage_thinking_mode"@] == mode_label
        }),
{
    reveal_strlit("cot_salvage_used");
    reveal_strlit("cot_salvage_policy");
    reveal_strlit("cot_salvage_source_attempt_id");
    reveal_strlit("cot_salvage_source_attempt_number");
    reveal_strlit("cot_salvage_source_attempt_duration_ms");
    reveal_strlit("cot_salvage_reasoning_prefix_bytes");
    reveal_strlit("cot_salvage_thinking_budget_tokens");
    reveal_strlit("cot_salvage_thinking_mode");
    assert("cot_salvage_used"@.len() == 16);
    assert("cot_salvage_policy"@.len() == 18);
    assert("cot_salvage_source_attempt_id"@.len() == 29);
    assert("cot_salvage_source_attempt_number"@.len() == 33);
    assert("cot_salvage_source_attempt_duration_ms"@.len() == 38);
    assert("cot_salvage_reasoning_prefix_bytes"@.len() == 34);
    assert("cot_salvage_thinking_budget_tokens"@.len() == 34);
    assert("cot_salvage_thinking_mode"@.len() == 25);
    assert("cot_salvage_reasoning_prefix_bytes"@[12] != "cot_salvage_thinking_budget_tokens"@[12]);
}

/// What is recorded of an attempt is its place in the chain, why it is made and how it
/// thinks.
pub proof fn attempts_are_recorded_as_planned(
    bindings: Bindings,
    policy: ShieldedRetryPolicy,
    attempt_number: u32,
    cause: ShieldedRetryCause,
    hinted: bool,
    plan: AttemptPlanModel,
    mode_label: Seq<char>,
)
    requires
        attempt_number >= 1,
    ensures
        ({
            let told = with_attempt_plan(bindings, policy, attempt_number, Some(cause), hinted, plan, mode_label, None);
            &&& told.contains_key("attempt_number"@) && told["attempt_number"@] == decimal(attempt_number as nat)
            &&& told.contains_key("attempt_index"@) && told["attempt_index"@] == decimal((attempt_number - 1) as nat)
            &&& told.contains_key("attempt_name"@) && told["attempt_name"@] == plan.name
            &&& told.contains_key("retry_previous_reason"@) && told["retry_previous_reason"@] == cause.next_text()
            &&& told.contains_key("retry_anti_loop_hint_applied"@) && told["retry_anti_loop_hint_applied"@] == bool_chars(hinted)
            &&& told.contains_key("attempt_thinking_mode"@) && told["attempt_thinking_mode"@] == mode_label
            &&& told.contains_key("attempt_thinking_budget_tokens"@) && told["attempt_thinking_budget_tokens"@] == decimal(plan.thinking.budget_tokens as nat)
            &&& told.contains_key("attempt_thinking_max_tokens"@) && told["attempt_thinking_max_tokens"@] == match plan.thinking.max_tokens {
                Some(tokens) => decimal(tokens as nat),
                None => "unset"@,
            }
            &&& told.contains_key("cot_salvage_used"@) && told["cot_salvage_used"@] == "false"@
            &&& told.contains_key("retry_max_attempts"@) && told["retry_max_attempts"@] == decimal(policy.max_attempts as nat)
        }),
{
    reveal_strlit("attempt_number");
    reveal_strlit("attempt_index");
    reveal_strlit("attempt_name");
    reveal_strlit("retry_previous_reason");
    reveal_strlit("retry_anti_loop_hint_applied");
    reveal_strlit("attempt_thinking_mode");
    reveal_strlit("attempt_thinking_budget_tokens");
    reveal_strlit("attempt_thinking_max_tokens");
    reveal_strlit("cot_salvage_used");
    reveal_strlit("retry_max_attempts");
    reveal_strlit("retry_policy_enabled");
    reveal_strlit("retry_request_deadline_ms");
    reveal_strlit("retry_anti_loop_hint_enabled");
    reveal_strlit("retry_shielded_streaming_enabled");
    reveal_strlit("loop_failure_policy");
    reveal_strlit("downstream_drop_policy");
    assert("attempt_number"@.len() == 14);
    assert("attempt_index"@.len() == 13);
    assert("attempt_name"@.len() == 12);
    assert("retry_previous_reason"@.len() == 21);
    assert("retry_anti_loop_hint_applied"@.len() == 28);
    assert("attempt_thinking_mode"@.len() == 21);
    assert("attempt_thinking_budget_tokens"@.len() == 30);
    assert("attempt_thinking_max_tokens"@.len() == 27);
    assert("cot_salvage_used"@.len() == 16);
    assert("retry_max_attempts"@.len() == 18);
    assert("retry_policy_enabled"@.len() == 20);
    assert("retry_request_deadline_ms"@.len() == 25);
    assert("retry_anti_loop_hint_enabled"@.len() == 28);
    assert("retry_shielded_streaming_enabled"@.len() == 32);
    assert("loop_failure_policy"@.len() == 19);
    assert("downstream_drop_policy"@.len() == 22);
    assert("retry_previous_reason"@[0] != "attempt_thinking_mode"@[0]);
    assert("retry_anti_loop_hint_applied"@[21] != "retry_anti_loop_hint_enabled"@[21]);
}

/// What is recorded of a chain of attempts says how many there were, how they went and
/// how it ended.
pub proof fn chains_are_recorded(
    attempts: Seq<AttemptRecordModel>,
    policy: ShieldedRetryPolicy,
    final_outcome: Seq<char>,
)
    ensures
        ({
            let told = chain_bindings(attempts, policy, final_outcome);
            &&& told.contains_key("retry_attempt_count"@) && told["retry_attempt_count"@] == decimal(attempts.len())
            &&& told.contains_key("retry_final_outcome"@) && told["retry_final_outcome"@] == final_outcome
            &&& told.contains_key("retry_attempt_chain"@) && told["retry_attempt_chain"@] == chain_text(attempts)
            &&& told.contains_key("retry_max_attempts"@) && told["retry_max_attempts"@] == decimal(policy.max_attempts as nat)
        }),
{
    reveal_strlit("retry_attempt_count");
    reveal_strlit("retry_final_outcome");
    reveal_strlit("retry_attempt_chain");
    reveal_strlit("retry_max_attempts");
    reveal_strlit("retry_policy_enabled");
    reveal_strlit("retry_request_deadline_ms");
    reveal_strlit("retry_anti_loop_hint_enabled");
    reveal_strlit("retry_shielded_streaming_enabled");
    reveal_strlit("loop_failure_policy");
    reveal_strlit("downstream_drop_policy");
    assert("retry_attempt_count"@.len() == 19);
    assert("retry_final_outcome"@.len() == 19);
    assert("retry_attempt_chain"@.len() == 19);
    assert("retry_max_attempts"@.len() == 18);
    assert("retry_policy_enabled"@.len() == 20);
    assert("retry_request_deadline_ms"@.len() == 25);
    assert("retry_anti_loop_hint_enabled"@.len() == 28);
    assert("retry_shielded_streaming_enabled"@.len() == 32);
    assert("loop_failure_policy"@.len() == 19);
    assert("downstream_drop_policy"@.len() == 22);
    assert("retry_attempt_count"@[6] != "retry_final_outcome"@[6]);
    assert("retry_attempt_count"@[15] != "retry_attempt_chain"@[15]);
    assert("retry_attempt_count"@[0] != "loop_failure_policy"@[0]);
    assert("retry_final_outcome"@[6] != "retry_attempt_chain"@[6]);
    assert("retry_final_outcome"@[0] != "loop_failure_policy"@[0]);
    assert("retry_attempt_chain"@[0] != "loop_failure_policy"@[0]);
}

#[verifier::opaque]
spec fn is_taken(bindings: Bindings, request: Bindings, key: Seq<char>) -> bool {
    bindings.contains_key(key) && bindings[key] == request[key]
}

proof fn taken_keys_stay(bindings: Bindings, request: Bindings, taken: Seq<char>, key: Seq<char>)
    requires
        request.contains_key(key),
    ensures
        taken == key || is_taken(bindings, request, key) ==> is_taken(
            with_key_of(bindings, request, taken),
            request,
            key,
        ),
{
    reveal(is_taken);
}

/// The record of an attempt takes over from its request how it was planned: whatever is
/// told under one of these keys is told of the attempt too.
pub proof fn plans_are_told_of_the_attempt(response: Bindings, request: Bindings, key: Seq<char>)
    requires
        request.contains_key(key),
        ({
            ||| key == "attempt_index"@
            ||| key == "attempt_name"@
            ||| key == "retry_request_deadline_ms"@
            ||| key == "retry_previous_reason"@
            ||| key == "retry_anti_loop_hint_applied"@
            ||| key == "retry_shielded_streaming_enabled"@
            ||| key == "loop_failure_policy"@
            ||| key == "downstream_drop_policy"@
            ||| key == "attempt_thinking_mode"@
            ||| key == "attempt_thinking_budget_tokens"@
            ||| key == "attempt_thinking_max_tokens"@
            ||| key == "cot_salvage_used"@
            ||| key == "cot_salvage_policy"@
            ||| key == "cot_salvage_source_attempt_id"@
            ||| key == "cot_salvage_source_attempt_number"@
            ||| key == "cot_salvage_source_attempt_duration_ms"@
            ||| key == "cot_salvage_reasoning_prefix_bytes"@
            ||| key == "cot_salvage_thinking_budget_tokens"@
            ||| key == "cot_salvage_thinking_mode"@
            ||| crate::text::has_prefix(key, "thinking_"@)
        }),
    ensures
        with_attempt_request(response, request).contains_key(key),
        with_attempt_request(response, request)[key] == request[key],
{
    let b0 = response.union_prefer_right(with_prefix(request, "thinking_"@));
    assert(crate::text::has_prefix(key, "thinking_"@) ==> is_taken(b0, request, key)) by {
        reveal(is_taken);
    }
    let b1 = with_key_of(b0, request, "attempt_index"@);
    taken_keys_stay(b0, request, "attempt_index"@, key);
    let b2 = with_key_of(b1, request, "attempt_name"@);
    taken_keys_stay(b1, request, "attempt_name"@, key);
    let b3 = with_key_of(b2, request, "retry_request_deadline_ms"@);
    taken_keys_stay(b2, request, "retry_request_deadline_ms"@, key);
    let b4 = with_key_of(b3, request, "retry_previous_reason"@);
    taken_keys_stay(b3, request, "retry_previous_reason"@, key);
    let b5 = with_key_of(b4, request, "retry_anti_loop_hint_applied"@);
    taken_keys_stay(b4, request, "retry_anti_loop_hint_applied"@, key);
    let b6 = with_key_of(b5, request, "retry_shielded_streaming_enabled"@);
    taken_keys_stay(b5, request, "retry_shielded_streaming_enabled"@, key);
    let b7 = with_key_of(b6, request, "loop_failure_policy"@);
    taken_keys_stay(b6, request, "loop_failure_policy"@, key);
    let b8 = with_key_of(b7, request, "downstream_drop_policy"@);
    taken_keys_stay(b7, request, "downstream_drop_policy"@, key);
    let b9 = with_key_of(b8, request, "attempt_thinking_mode"@);
    taken_keys_stay(b8, request, "attempt_thinking_mode"@, key);
    let b10 = with_key_of(b9, request, "attempt_thinking_budget_tokens"@);
    taken_keys_stay(b9, request, "attempt_thinking_budget_tokens"@, key);
    let b11 = with_key_of(b10, request, "attempt_thinking_max_tokens"@);
    taken_keys_stay(b10, request, "attempt_thinking_max_tokens"@, key);
    let b12 = with_key_of(b11, request, "cot_salvage_used"@);
    taken_keys_stay(b11, request, "cot_salvage_used"@, key);
    let b13 = with_key_of(b12, request, "cot_salvage_policy"@);
    taken_keys_stay(b12, request, "cot_salvage_policy"@, key);
    let b14 = with_key_of(b13, request, "cot_salvage_source_attempt_id"@);
    taken_keys_stay(b13, request, "cot_salvage_source_attempt_id"@, key);
    let b15 = with_key_of(b14, request, "cot_salvage_source_attempt_number"@);
    taken_keys_stay(b14, request, "cot_salvage_source_attempt_number"@, key);
    let b16 = with_key_of(b15, request, "cot_salvage_source_attempt_duration_ms"@);
    taken_keys_stay(b15, request, "cot_salvage_source_attempt_duration_ms"@, key);
    let b17 = with_key_of(b16, request, "cot_salvage_reasoning_prefix_bytes"@);
    taken_keys_stay(b16, request, "cot_salvage_reasoning_prefix_bytes"@, key);
    let b18 = with_key_of(b17, request, "cot_salvage_thinking_budget_tokens"@);
    taken_keys_stay(b17, request, "cot_salvage_thinking_budget_tokens"@, key);
    let b19 = with_key_of(b18, request, "cot_salvage_thinking_mode"@);
    taken_keys_stay(b18, request, "cot_salvage_thinking_mode"@, key);
    assert(is_taken(b19, request, key));
    reveal(is_taken);
    assert(with_attempt_request(response, request) == b19);
}

/// The attempts of a chain are told in order, each by its number, its outcome and its
/// reasons.
pub proof fn chains_tell_every_attempt(attempts: Seq<AttemptRecordModel>, last: AttemptRecordModel)
    ensures
        chain_text(Seq::empty()) == "none"@,
        chain_text(seq![last]) == decimal(last.attempt_number as nat) + ":"@ + last.status.label()
            + ":"@ + (match last.abort_reason {
            Some(reason) => reason,
            None => "none"@,
        }) + ":"@ + (match last.retry_reason {
            Some(reason) => reason,
            None => "none"@,
        }),
        attempts.len() > 0 ==> chain_text(attempts.push(last)) == chain_text(attempts) + ","@
            + chain_text(seq![last]),
{
    assert(attempts.push(last).drop_last() =~= attempts);
}

/// Timeouts, limits and errors of the server pass; anything else does not.
pub proof fn passing_statuses_are_six(status: u16)
    ensures
        is_transient_status(408) && is_transient_status(429) && is_transient_status(500)
            && is_transient_status(502) && is_transient_status(503) && is_transient_status(504),
        is_transient_status(status) ==> 408 <= status <= 504,
        200 <= status < 408 ==> !is_transient_status(status),
        430 <= status < 500 ==> !is_transient_status(status),
        !is_transient_status(501) && !is_transient_status(413) && !is_transient_status(422),
{
}

/// A failure on the way is a cause to try again where it passes, and a cause is recorded
/// where it leads to another attempt.
pub proof fn causes_are_recorded_where_they_count(
    failure: ReqwestFailureKind,
    cause: Option<ShieldedRetryCause>,
    text: Seq<char>,
)
    ensures
        failure.transient() ==> cause_of_transport(Some(failure)) == Some(
            ShieldedRetryCause::TransientTransport,
        ),
        !failure.transient() ==> cause_of_transport(Some(failure)) is None,
        cause_of_transport(None) is None,
        recorded_cause(true, cause) == cause,
        recorded_cause(false, cause) is None,
        or_none(Some(text)) == text,
        or_none(None) == "none"@,
{
}

/// A link of the chain tells the number of its attempt, how it ended and why.
pub proof fn links_tell_their_attempt(
    attempt: AttemptRecordModel,
)
    ensures
        ({
            let told = chain_link(attempt);
            &&& crate::text::has_part(told, decimal(attempt.attempt_number as nat))
            &&& crate::text::has_part(told, ":"@ + attempt.status.label())
            &&& crate::text::has_part(told, ":"@ + or_none(attempt.abort_reason))
            &&& crate::text::has_part(told, ":"@ + or_none(attempt.retry_reason))
        }),
{
    let t0 = decimal(attempt.attempt_number as nat);
    crate::text::parts_are_found_at_the_end(Seq::<char>::empty(), Seq::<char>::empty(), decimal(attempt.attempt_number as nat));
    assert(Seq::<char>::empty() + decimal(attempt.attempt_number as nat) =~= decimal(attempt.attempt_number as nat));
    assert(Seq::<char>::empty() + Seq::<char>::empty() + decimal(attempt.attempt_number as nat) =~= t0);
    let t1 = t0 + ":"@ + attempt.status.label();
    crate::text::parts_are_found_at_the_end(t0, ":"@, attempt.status.label());
    crate::text::parts_are_found_in_more(t0, decimal(attempt.attempt_number as nat), ":"@);
    crate::text::parts_are_found_in_more(t0 + ":"@, decimal(attempt.attempt_number as nat), attempt.status.label());
    let t2 = t1 + ":"@ + or_none(attempt.abort_reason);
    crate::text::parts_are_found_at_the_end(t1, ":"@, or_none(attempt.abort_reason));
    crate::text::parts_are_found_in_more(t1, decimal(attempt.attempt_number as nat), ":"@);
    crate::text::parts_are_found_in_more(t1 + ":"@, decimal(attempt.attempt_number as nat), or_none(attempt.abort_reason));
    crate::text::parts_are_found_in_more(t1, ":"@ + attempt.status.label(), ":"@);
    crate::text::parts_are_found_in_more(t1 + ":"@, ":"@ + attempt.status.label(), or_none(attempt.abort_reason));
    let t3 = t2 + ":"@ + or_none(attempt.retry_reason);
    crate::text::parts_are_found_at_the_end(t2, ":"@, or_none(attempt.retry_reason));
    crate::text::parts_are_found_in_more(t2, decimal(attempt.attempt_number as nat), ":"@);
    crate::text::parts_are_found_in_more(t2 + ":"@, decimal(attempt.attempt_number as nat), or_none(attempt.retry_reason));
    crate::text::parts_are_found_in_more(t2, ":"@ + attempt.status.label(), ":"@);
    crate::text::parts_are_found_in_more(t2 + ":"@, ":"@ + attempt.status.label(), or_none(attempt.retry_reason));
    crate::text::parts_are_found_in_more(t2, ":"@ + or_none(attempt.abort_reason), ":"@);
    crate::text::parts_are_found_in_more(t2 + ":"@, ":"@ + or_none(attempt.abort_reason), or_none(attempt.retry_reason));
}

/// Each cause of a retry has a name, and another one for the attempt after it.
pub proof fn causes_of_retries_have_their_names(cause: ShieldedRetryCause)
    ensures
        cause is LoopDetected ==> cause.reason_text() == "loop_detected"@,
        cause is TransientUpstreamStatus ==> cause.reason_text() == "transient_upstream_status"@,
        cause is TransientTransport ==> cause.reason_text() == "transient_upstream_transport"@,
        cause is TransientStream ==> cause.reason_text() == "transient_upstream_stream_failure"@,
        cause is UpstreamStall ==> cause.reason_text() == "upstream_stall"@,
        cause is LoopDetected ==> cause.next_text() == "previous_loop_detected"@,
        cause is TransientUpstreamStatus ==> cause.next_text() == "previous_transient_upstream_status"@,
        cause is TransientTransport ==> cause.next_text() == "previous_transient_upstream_transport"@,
        cause is TransientStream ==> cause.next_text() == "previous_transient_upstream_stream_failure"@,
        cause is UpstreamStall ==> cause.next_text() == "previous_upstream_stall"@,
{
}

} // verus!
