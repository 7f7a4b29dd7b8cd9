//! How much a model may think before it answers.

use crate::text::{clone_opt, opt_chars};
use vstd::prelude::*;

verus! {

/// Thinking budget of an attempt that answers from salvaged reasoning.
pub const COT_SALVAGE_THINKING_BUDGET_TOKENS: u32 = 1_024;

/// Least thinking budget of a comparison with full thinking.
pub const MAX_THINKING_BUDGET_TOKENS: u32 = 32_768;

/// How thinking is controlled.
#[derive(Clone, Copy, Debug, PartialEq, Eq, Structural)]
pub enum ThinkingMode {
    /// The request is left as the client wrote it.
    Unchanged,
    /// Thinking is switched on.
    ForceThinking,
    /// Thinking is switched on within a budget.
    BoundedThinking,
    /// Thinking is switched off.
    ForceDisable,
}

/// Thinking settings.
pub struct ThinkingConfig {
    pub mode: ThinkingMode,
    pub enabled: bool,
    pub force_disable: bool,
    pub budget_tokens: u32,
    pub max_tokens: Option<u32>,
    pub preserve_answer_budget: bool,
    pub default_injection_schema: String,
}

/// The meaning of thinking settings.
#[verifier::ext_equal]
pub struct ThinkingModel {
    pub mode: ThinkingMode,
    pub enabled: bool,
    pub force_disable: bool,
    pub budget_tokens: u32,
    pub max_tokens: Option<u32>,
    pub preserve_answer_budget: bool,
    pub default_injection_schema: Seq<char>,
}

impl View for ThinkingConfig {
    type V = ThinkingModel;

    open spec fn view(&self) -> ThinkingModel {
        ThinkingModel {
            mode: self.mode,
            enabled: self.enabled,
            force_disable: self.force_disable,
            budget_tokens: self.budget_tokens,
            max_tokens: self.max_tokens,
            preserve_answer_budget: self.preserve_answer_budget,
            default_injection_schema: self.default_injection_schema@,
        }
    }
}

impl Clone for ThinkingConfig {
    fn clone(&self) -> (copy: ThinkingConfig)
        ensures
            copy@ == self@,
    {
        ThinkingConfig {
            mode: self.mode,
            enabled: self.enabled,
            force_disable: self.force_disable,
            budget_tokens: self.budget_tokens,
            max_tokens: self.max_tokens,
            preserve_answer_budget: self.preserve_answer_budget,
            default_injection_schema: self.default_injection_schema.clone(),
        }
    }
}

/// Thinking switched off.
pub open spec fn without_thinking(thinking: ThinkingModel) -> ThinkingModel {
    ThinkingModel {
        mode: ThinkingMode::ForceDisable,
        enabled: false,
        force_disable: true,
        budget_tokens: 0,
        preserve_answer_budget: false,
        ..thinking
    }
}

/// Thinking within the salvage budget.
pub open spec fn bounded_thinking(thinking: ThinkingModel) -> ThinkingModel {
    ThinkingModel {
        mode: ThinkingMode::BoundedThinking,
        enabled: true,
        force_disable: false,
        budget_tokens: COT_SALVAGE_THINKING_BUDGET_TOKENS,
        preserve_answer_budget: false,
        ..thinking
    }
}

/// Thinking with at least the full budget.
pub open spec fn full_thinking(thinking: ThinkingModel) -> ThinkingModel {
    ThinkingModel {
        mode: ThinkingMode::ForceThinking,
        enabled: true,
        force_disable: false,
        budget_tokens: if thinking.budget_tokens >= MAX_THINKING_BUDGET_TOKENS {
            thinking.budget_tokens
        } else {
            MAX_THINKING_BUDGET_TOKENS
        },
        preserve_answer_budget: true,
        ..thinking
    }
}

fn disable_thinking(current: &ThinkingConfig) -> (thinking: ThinkingConfig)
    ensures
        thinking@ == without_thinking(current@),
{
    let mut thinking = current.clone();
    thinking.mode = ThinkingMode::ForceDisable;
    thinking.enabled = false;
    thinking.force_disable = true;
    thinking.budget_tokens = 0;
    thinking.preserve_answer_budget = false;
    thinking
}

fn bound_thinking(current: &ThinkingConfig) -> (thinking: ThinkingConfig)
    ensures
        thinking@ == bounded_thinking(current@),
{
    let mut thinking = current.clone();
    thinking.mode = ThinkingMode::BoundedThinking;
    thinking.enabled = true;
    thinking.force_disable = false;
    thinking.budget_tokens = COT_SALVAGE_THINKING_BUDGET_TOKENS;
    thinking.preserve_answer_budget = false;
    thinking
}

/// What is done when the reasoning of a model loops.
#[derive(Clone, Copy, Debug, PartialEq, Eq, Structural)]
pub enum LoopFailurePolicy {
    RetryLadder,
    TruncateCotThenAnswer,
    BoundedAnswerFromCot,
}

/// The thinking settings of an attempt that answers from salvaged reasoning.
pub open spec fn salvage_thinking(policy: LoopFailurePolicy, thinking: ThinkingModel) -> ThinkingModel {
    match policy {
        LoopFailurePolicy::RetryLadder => thinking,
        LoopFailurePolicy::TruncateCotThenAnswer => without_thinking(thinking),
        LoopFailurePolicy::BoundedAnswerFromCot => bounded_thinking(thinking),
    }
}

/// The thinking settings of an attempt that answers from salvaged reasoning.
pub fn cot_salvage_thinking(policy: LoopFailurePolicy, current: &ThinkingConfig) -> (thinking:
    ThinkingConfig)
    ensures
        thinking@ == salvage_thinking(policy, current@),
{
    match policy {
        LoopFailurePolicy::RetryLadder => current.clone(),
        LoopFailurePolicy::TruncateCotThenAnswer => disable_thinking(current),
        LoopFailurePolicy::BoundedAnswerFromCot => bound_thinking(current),
    }
}

/// What a shadow attempt compares with.
#[derive(Clone, Copy, Debug, PartialEq, Eq, Structural)]
pub enum ShadowComparisonAttempt {
    MaxThinking,
    BoundedThinking,
    NoThinking,
    CotSalvage,
}

/// The thinking settings of a comparison.
pub open spec fn comparison_thinking(
    comparison: ShadowComparisonAttempt,
    thinking: ThinkingModel,
) -> ThinkingModel {
    match comparison {
        ShadowComparisonAttempt::MaxThinking => full_thinking(thinking),
        ShadowComparisonAttempt::BoundedThinking => bounded_thinking(thinking),
        ShadowComparisonAttempt::CotSalvage => bounded_thinking(thinking),
        ShadowComparisonAttempt::NoThinking => without_thinking(thinking),
    }
}

/// The thinking settings of a comparison.
pub fn shadow_comparison_thinking(
    comparison: ShadowComparisonAttempt,
    current: &ThinkingConfig,
) -> (thinking: ThinkingConfig)
    ensures
        thinking@ == comparison_thinking(comparison, current@),
{
    match comparison {
        ShadowComparisonAttempt::MaxThinking => {
            let mut thinking = current.clone();
            thinking.mode = ThinkingMode::ForceThinking;
            thinking.enabled = true;
            thinking.force_disable = false;
            if thinking.budget_tokens < MAX_THINKING_BUDGET_TOKENS {
                thinking.budget_tokens = MAX_THINKING_BUDGET_TOKENS;
            }
            thinking.preserve_answer_budget = true;
            thinking
        },
        ShadowComparisonAttempt::BoundedThinking
        | ShadowComparisonAttempt::CotSalvage => bound_thinking(current),
        ShadowComparisonAttempt::NoThinking => disable_thinking(current),
    }
}

/// One rung of the retry ladder.
pub struct RetryLadderConfig {
    pub name: String,
    pub thinking: ThinkingConfig,
    /// The mode that the thinking settings come to.
    pub effective_mode: ThinkingMode,
    pub default_injection_schema: Option<String>,
    pub anti_loop_hint: Option<String>,
}

/// The meaning of a rung.
#[verifier::ext_equal]
pub struct RetryLadderModel {
    pub name: Seq<char>,
    pub thinking: ThinkingModel,
    pub effective_mode: ThinkingMode,
    pub default_injection_schema: Option<Seq<char>>,
    pub anti_loop_hint: Option<Seq<char>>,
}

impl View for RetryLadderConfig {
    type V = RetryLadderModel;

    open spec fn view(&self) -> RetryLadderModel {
        RetryLadderModel {
            name: self.name@,
            thinking: self.thinking@,
            effective_mode: self.effective_mode,
            default_injection_schema: opt_chars(self.default_injection_schema),
            anti_loop_hint: opt_chars(self.anti_loop_hint),
        }
    }
}

impl Clone for RetryLadderConfig {
    fn clone(&self) -> (copy: RetryLadderConfig)
        ensures
            copy@ == self@,
    {
        RetryLadderConfig {
            name: self.name.clone(),
            thinking: self.thinking.clone(),
            effective_mode: self.effective_mode,
            default_injection_schema: clone_opt(&self.default_injection_schema),
            anti_loop_hint: clone_opt(&self.anti_loop_hint),
        }
    }
}

/// The thinking settings of a rung: the injection schema falls back to that of
/// the upstream, and a rung without thinking has no budget.
pub open spec fn ladder_thinking(entry: RetryLadderModel, fallback: ThinkingModel) -> ThinkingModel {
    ThinkingModel {
        default_injection_schema: match entry.default_injection_schema {
            Some(schema) => schema,
            None => fallback.default_injection_schema,
        },
        budget_tokens: if entry.effective_mode == ThinkingMode::ForceDisable {
            0
        } else {
            entry.thinking.budget_tokens
        },
        ..entry.thinking
    }
}

/// The thinking settings of a rung.
pub fn retry_ladder_thinking(entry: &RetryLadderConfig, fallback_thinking: &ThinkingConfig) -> (
    thinking: ThinkingConfig)
    ensures
        thinking@ == ladder_thinking(entry@, fallback_thinking@),
{
    let mut thinking = entry.thinking.clone();
    thinking.default_injection_schema = match &entry.default_injection_schema {
        Some(schema) => schema.clone(),
        None => fallback_thinking.default_injection_schema.clone(),
    };
    if entry.effective_mode == ThinkingMode::ForceDisable {
        thinking.budget_tokens = 0;
    }
    thinking
}

/// The thinking settings that a whole chat is first prepared with: those of the first
/// rung of the ladder, or those of the upstream.
pub open spec fn first_thinking(
    ladder: Seq<RetryLadderConfig>,
    thinking: ThinkingModel,
) -> ThinkingModel {
    if ladder.len() > 0 {
        ladder_thinking(ladder[0]@, thinking)
    } else {
        thinking
    }
}

/// The thinking settings that a whole chat is first prepared with.
pub fn initial_thinking(ladder: &Vec<RetryLadderConfig>, thinking: &ThinkingConfig) -> (initial:
    ThinkingConfig)
    ensures
        initial@ == first_thinking(ladder@, thinking@),
{
    if ladder.len() > 0 {
        retry_ladder_thinking(&ladder[0], thinking)
    } else {
        thinking.clone()
    }
}

/// The thinking settings that a streamed chat is first prepared with: those of a whole
/// chat where streams are shielded, and else those of the upstream.
pub fn initial_stream_thinking(
    ladder: &Vec<RetryLadderConfig>,
    thinking: &ThinkingConfig,
    shielded_streaming_enabled: bool,
) -> (initial: ThinkingConfig)
    ensures
        initial@ == if shielded_streaming_enabled {
            first_thinking(ladder@, thinking@)
        } else {
            thinking@
        },
{
    if shielded_streaming_enabled {
        initial_thinking(ladder, thinking)
    } else {
        thinking.clone()
    }
}

/// An answer from salvaged reasoning is given without thinking, or with little of it;
/// what else is configured stays.
pub proof fn salvaged_answers_think_little(policy: LoopFailurePolicy, thinking: ThinkingModel)
    ensures
        ({
            let salvaged = salvage_thinking(policy, thinking);
            &&& policy is RetryLadder ==> salvaged == thinking
            &&& policy is TruncateCotThenAnswer ==> salvaged.mode is ForceDisable
                && !salvaged.enabled && salvaged.force_disable && salvaged.budget_tokens == 0
                && !salvaged.preserve_answer_budget
            &&& policy is BoundedAnswerFromCot ==> salvaged.mode is BoundedThinking
                && salvaged.enabled && !salvaged.force_disable && salvaged.budget_tokens == 1_024
                && !salvaged.preserve_answer_budget
            &&& salvaged.max_tokens == thinking.max_tokens
            &&& salvaged.default_injection_schema == thinking.default_injection_schema
        }),
{
}

/// A comparison thinks as much as its name says: with the full budget, which is never
/// less than what is configured, within a small one, or not at all.
pub proof fn comparisons_think_as_named(
    comparison: ShadowComparisonAttempt,
    thinking: ThinkingModel,
)
    ensures
        ({
            let compared = comparison_thinking(comparison, thinking);
            &&& comparison is MaxThinking ==> compared.mode is ForceThinking && compared.enabled
                && !compared.force_disable && compared.preserve_answer_budget
                && compared.budget_tokens >= thinking.budget_tokens && compared.budget_tokens
                >= 32_768 && (compared.budget_tokens == thinking.budget_tokens
                || compared.budget_tokens == 32_768)
            &&& comparison is BoundedThinking || comparison is CotSalvage ==> compared.mode
                is BoundedThinking && compared.enabled && !compared.force_disable
                && compared.budget_tokens == 1_024 && !compared.preserve_answer_budget
            &&& comparison is NoThinking ==> compared.mode is ForceDisable && !compared.enabled
                && compared.force_disable && compared.budget_tokens == 0
                && !compared.preserve_answer_budget
            &&& compared.max_tokens == thinking.max_tokens
            &&& compared.default_injection_schema == thinking.default_injection_schema
        }),
{
}

/// A chat is first prepared as its first rung says, where there is a ladder, and as the
/// upstream is configured where there is none.
pub proof fn chats_begin_on_the_first_rung(
    ladder: Seq<RetryLadderConfig>,
    thinking: ThinkingModel,
)
    ensures
        ladder.len() == 0 ==> first_thinking(ladder, thinking) == thinking,
        ladder.len() > 0 ==> {
            let first = first_thinking(ladder, thinking);
            let rung = ladder[0];
            &&& first.mode == rung.thinking.mode
            &&& first.enabled == rung.thinking.enabled
            &&& first.force_disable == rung.thinking.force_disable
            &&& first.max_tokens == rung.thinking.max_tokens
            &&& first.preserve_answer_budget == rung.thinking.preserve_answer_budget
            &&& rung.effective_mode is ForceDisable ==> first.budget_tokens == 0
            &&& !(rung.effective_mode is ForceDisable) ==> first.budget_tokens
                == rung.thinking.budget_tokens
            &&& rung.default_injection_schema matches Some(schema)
                ==> first.default_injection_schema == schema@
            &&& rung.default_injection_schema is None ==> first.default_injection_schema
                == thinking.default_injection_schema
        },
{
}

/// Thinking is switched off with no tokens left for it, bounded to a few, or given all
/// that it may have; the other settings stay.
pub proof fn thinking_is_set_as_named(
    thinking: ThinkingModel,
    entry: RetryLadderModel,
    fallback: ThinkingModel,
)
    ensures
        !without_thinking(thinking).enabled && without_thinking(thinking).force_disable,
        without_thinking(thinking).budget_tokens == 0,
        without_thinking(thinking).max_tokens == thinking.max_tokens,
        bounded_thinking(thinking).enabled && !bounded_thinking(thinking).force_disable,
        bounded_thinking(thinking).budget_tokens == COT_SALVAGE_THINKING_BUDGET_TOKENS,
        full_thinking(thinking).enabled && !full_thinking(thinking).force_disable,
        full_thinking(thinking).preserve_answer_budget,
        full_thinking(thinking).budget_tokens >= MAX_THINKING_BUDGET_TOKENS,
        full_thinking(thinking).budget_tokens >= thinking.budget_tokens,
        entry.effective_mode == ThinkingMode::ForceDisable ==> ladder_thinking(
            entry,
            fallback,
        ).budget_tokens == 0,
        entry.effective_mode != ThinkingMode::ForceDisable ==> ladder_thinking(
            entry,
            fallback,
        ).budget_tokens == entry.thinking.budget_tokens,
        entry.default_injection_schema is None ==> ladder_thinking(
            entry,
            fallback,
        ).default_injection_schema == fallback.default_injection_schema,
        entry.default_injection_schema matches Some(schema) ==> ladder_thinking(
            entry,
            fallback,
        ).default_injection_schema == schema,
        ladder_thinking(entry, fallback).enabled == entry.thinking.enabled,
        ladder_thinking(entry, fallback).mode == entry.thinking.mode,
{
}

} // verus!
