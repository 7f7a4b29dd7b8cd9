//! Running shadow attempts: which of them are made, and how each ends.

use crate::attempts::{
    bounded_utf8_prefix, longest_fit, longest_fit_is_unique, payload_text, raw_payload_text,
    COT_SALVAGE_PREFIX_MAX_BYTES,
};
use crate::evidence::{EvidenceAttemptStatus, ShadowSkipReason};
use crate::failures::SERVER_SHUTDOWN_ABORT_REASON;
use crate::forwarding::MAX_PROXY_BODY_BYTES;
use crate::headers::{HeaderModel, Headers};
use crate::message_metadata::{is_success, status_is_success};
use crate::metadata::{Bindings, Metadata};
use crate::records::{no_payloads, RawPayloads, RawPayloadsModel};
use crate::shadow::{
    comparison_bindings, comparison_request_metadata, is_sampled, paired_sample_matches,
    SampleRate, ShadowTerminalInput,
};
use crate::shielded_run::SalvageHint;
use crate::text::{
    clone_bytes, decimal, decimal_text, joined, opt_chars, opt_str_chars, trim, trimmed,
};
use crate::thinking::{
    comparison_thinking, shadow_comparison_thinking, ShadowComparisonAttempt, ThinkingConfig,
    ThinkingModel,
};
use vstd::prelude::*;

verus! {

// ---------------------------------------------------------------------------
// Which attempts are made
// ---------------------------------------------------------------------------

/// What the plans for the shadow attempts of a request come to.
#[derive(Clone, Copy, Debug, PartialEq, Eq, Structural)]
pub enum ShadowPlansStep {
    /// There are none.
    Nothing,
    /// None may be made, and that is recorded.
    Skip(ShadowSkipReason),
    /// Each of them is scheduled.
    Schedule,
}

/// Decides what the plans for the shadow attempts of a request come to.
pub fn shadow_plans_step(plan_count: usize, max_per_request: u32) -> (step: ShadowPlansStep)
    ensures
        step == if plan_count == 0 {
            ShadowPlansStep::Nothing
        } else if max_per_request == 0 {
            ShadowPlansStep::Skip(ShadowSkipReason::PerRequestLimit)
        } else {
            ShadowPlansStep::Schedule
        },
{
    if plan_count == 0 {
        ShadowPlansStep::Nothing
    } else if max_per_request == 0 {
        ShadowPlansStep::Skip(ShadowSkipReason::PerRequestLimit)
    } else {
        ShadowPlansStep::Schedule
    }
}

/// The start of some reasoning that a comparison builds on, where there is
/// anything in it.
pub open spec fn salvageable_prefix(reasoning: Option<Seq<char>>) -> Option<Seq<char>> {
    match reasoning {
        Some(reasoning) => {
            let prefix = reasoning.take(
                longest_fit(reasoning, COT_SALVAGE_PREFIX_MAX_BYTES as nat),
            );
            if trimmed(prefix).len() == 0 {
                None
            } else {
                Some(prefix)
            }
        },
        None => None,
    }
}

/// The start of some reasoning that a comparison builds on.
pub fn comparison_salvage_prefix(reasoning: Option<&str>) -> (prefix: Option<String>)
    ensures
        opt_chars(prefix) == salvageable_prefix(opt_str_chars(reasoning)),
{
    let reasoning = match reasoning {
        Some(reasoning) => reasoning,
        None => {
            return None;
        },
    };
    let prefix = bounded_utf8_prefix(reasoning, COT_SALVAGE_PREFIX_MAX_BYTES);
    proof {
        longest_fit_is_unique(
            reasoning@,
            COT_SALVAGE_PREFIX_MAX_BYTES as nat,
            prefix@.len() as int,
            longest_fit(reasoning@, COT_SALVAGE_PREFIX_MAX_BYTES as nat),
        );
    }
    if trim(prefix.as_str()).as_str().is_empty() {
        return None;
    }
    Some(prefix)
}

/// What a comparison that builds on the reasoning of an attempt is hinted with, where
/// there is anything in that reasoning: it counts as the attempt that follows, and no
/// hint against loops goes with it.
pub fn comparison_salvage_hint(
    source_attempt_number: u32,
    max_attempts: u32,
    label: &str,
    reasoning: Option<&str>,
) -> (hint: Option<SalvageHint>)
    ensures
        match hint {
            Some(hint) => {
                &&& salvageable_prefix(opt_str_chars(reasoning)) == Some(hint.reasoning_prefix@)
                &&& hint.attempt_number == if source_attempt_number < u32::MAX {
                    source_attempt_number + 1
                } else {
                    u32::MAX as int
                }
                &&& hint.max_attempts == max_attempts
                &&& hint.policy_label@ == label@
                &&& hint.anti_loop_hint is None
            },
            None => salvageable_prefix(opt_str_chars(reasoning)) is None,
        },
{
    match comparison_salvage_prefix(reasoning) {
        Some(reasoning_prefix) => Some(
            SalvageHint {
                attempt_number: source_attempt_number.saturating_add(1),
                max_attempts,
                policy_label: label.to_owned(),
                reasoning_prefix,
                anti_loop_hint: None,
            },
        ),
        None => None,
    }
}

/// Whether a comparison can be planned. One that builds on the reasoning of a
/// failed attempt needs that reasoning, and is no variant of an answer that was
/// accepted.
pub fn comparison_is_planned(
    comparison: ShadowComparisonAttempt,
    paired: bool,
    reasoning: Option<&str>,
) -> (planned: bool)
    ensures
        planned == can_compare(comparison, paired, opt_str_chars(reasoning)),
{
    match comparison {
        ShadowComparisonAttempt::CotSalvage => !paired && comparison_salvage_prefix(
            reasoning,
        ).is_some(),
        _ => true,
    }
}

/// A comparison as it could be made.
pub struct PreparedComparison {
    pub comparison: ShadowComparisonAttempt,
    /// The name of the comparison.
    pub label: String,
    /// The name of the mode that its thinking settings come to.
    pub mode_label: String,
    /// The request with those settings, where it can be written for the endpoint.
    pub body: Option<Vec<u8>>,
    pub thinking_metadata: Metadata,
}

/// A shadow attempt that is to be made.
pub struct ShadowAttemptPlan {
    pub upstream_body: Vec<u8>,
    pub request_metadata: Metadata,
    pub comparison_attempt: Option<ShadowComparisonAttempt>,
}

/// The meaning of a planned shadow attempt.
#[verifier::ext_equal]
pub struct ShadowPlanModel {
    pub upstream_body: Seq<u8>,
    pub request_metadata: Bindings,
    pub comparison_attempt: Option<ShadowComparisonAttempt>,
}

impl View for ShadowAttemptPlan {
    type V = ShadowPlanModel;

    open spec fn view(&self) -> ShadowPlanModel {
        ShadowPlanModel {
            upstream_body: self.upstream_body@,
            request_metadata: self.request_metadata@,
            comparison_attempt: self.comparison_attempt,
        }
    }
}

/// The meaning of the planned shadow attempts.
pub open spec fn plan_models(plans: Seq<ShadowAttemptPlan>) -> Seq<ShadowPlanModel> {
    plans.map_values(|plan: ShadowAttemptPlan| plan@)
}

/// Whether a comparison can be planned.
pub open spec fn can_compare(
    comparison: ShadowComparisonAttempt,
    paired: bool,
    reasoning: Option<Seq<char>>,
) -> bool {
    !(comparison is CotSalvage) || (!paired && salvageable_prefix(reasoning) is Some)
}

/// The plan of a comparison with the attempt that `source` was recorded of.
pub open spec fn planned_comparison(
    prepared: PreparedComparison,
    source: Bindings,
    current: ThinkingModel,
    paired: bool,
    reasoning: Option<Seq<char>>,
) -> Option<ShadowPlanModel> {
    if can_compare(prepared.comparison, paired, reasoning) && prepared.body is Some {
        Some(
            ShadowPlanModel {
                upstream_body: prepared.body->Some_0@,
                request_metadata: comparison_bindings(
                    source,
                    prepared.thinking_metadata@,
                    prepared.label@,
                    paired,
                    comparison_thinking(prepared.comparison, current),
                    prepared.mode_label@,
                ),
                comparison_attempt: Some(prepared.comparison),
            },
        )
    } else {
        None
    }
}

/// Plans a comparison with the attempt that `source` was recorded of.
pub fn shadow_comparison_attempt_plan(
    prepared: &PreparedComparison,
    source: &Metadata,
    current: &ThinkingConfig,
    paired: bool,
    reasoning: Option<&str>,
) -> (plan: Option<ShadowAttemptPlan>)
    ensures
        match plan {
            Some(plan) => planned_comparison(
                *prepared,
                source@,
                current@,
                paired,
                opt_str_chars(reasoning),
            ) == Some(plan@),
            None => planned_comparison(
                *prepared,
                source@,
                current@,
                paired,
                opt_str_chars(reasoning),
            ) is None,
        },
{
    if !comparison_is_planned(prepared.comparison, paired, reasoning) {
        return None;
    }
    match &prepared.body {
        Some(body) => {
            let thinking = shadow_comparison_thinking(prepared.comparison, current);
            Some(
                ShadowAttemptPlan {
                    upstream_body: clone_bytes(body),
                    request_metadata: comparison_request_metadata(
                        source,
                        &prepared.thinking_metadata,
                        prepared.label.as_str(),
                        paired,
                        &thinking,
                        prepared.mode_label.as_str(),
                    ),
                    comparison_attempt: Some(prepared.comparison),
                },
            )
        },
        None => None,
    }
}

/// The plans of some comparisons, in their order, without those that cannot be
/// made.
pub open spec fn planned_comparisons(
    comparisons: Seq<PreparedComparison>,
    source: Bindings,
    current: ThinkingModel,
    paired: bool,
    reasoning: Option<Seq<char>>,
) -> Seq<ShadowPlanModel>
    decreases comparisons.len(),
{
    if comparisons.len() == 0 {
        Seq::empty()
    } else {
        let before = planned_comparisons(
            comparisons.drop_last(),
            source,
            current,
            paired,
            reasoning,
        );
        match planned_comparison(comparisons.last(), source, current, paired, reasoning) {
            Some(plan) => before.push(plan),
            None => before,
        }
    }
}

/// The plans that follow an attempt: the attempt itself, where it goes on, and the
/// comparisons.
pub open spec fn planned_attempts(
    kept_body: Option<Seq<u8>>,
    comparisons: Seq<PreparedComparison>,
    source: Bindings,
    current: ThinkingModel,
    paired: bool,
    reasoning: Option<Seq<char>>,
) -> Seq<ShadowPlanModel> {
    let compared = planned_comparisons(comparisons, source, current, paired, reasoning);
    match kept_body {
        Some(body) => seq![
            ShadowPlanModel {
                upstream_body: body,
                request_metadata: source,
                comparison_attempt: None,
            },
        ] + compared,
        None => compared,
    }
}

/// Plans the shadow attempts that follow an attempt. `kept_body` is the body of an
/// attempt that goes on in the shadow.
pub fn shadow_attempt_plans(
    kept_body: Option<&Vec<u8>>,
    comparisons: &Vec<PreparedComparison>,
    source: &Metadata,
    current: &ThinkingConfig,
    paired: bool,
    reasoning: Option<&str>,
) -> (plans: Vec<ShadowAttemptPlan>)
    ensures
        plan_models(plans@) == planned_attempts(
            match kept_body {
                Some(body) => Some(body@),
                None => None,
            },
            comparisons@,
            source@,
            current@,
            paired,
            opt_str_chars(reasoning),
        ),
{
    let mut plans: Vec<ShadowAttemptPlan> = Vec::new();
    match kept_body {
        Some(body) => {
            plans.push(
                ShadowAttemptPlan {
                    upstream_body: clone_bytes(body),
                    request_metadata: source.clone(),
                    comparison_attempt: None,
                },
            );
        },
        None => {},
    }
    let ghost first = plan_models(plans@);
    let mut i: usize = 0;
    assert(comparisons@.take(0) =~= Seq::empty());
    assert(plan_models(plans@) =~= first + planned_comparisons(
        comparisons@.take(0),
        source@,
        current@,
        paired,
        opt_str_chars(reasoning),
    ));
    while i < comparisons.len()
        invariant
            i <= comparisons.len(),
            plan_models(plans@) == first + planned_comparisons(
                comparisons@.take(i as int),
                source@,
                current@,
                paired,
                opt_str_chars(reasoning),
            ),
        decreases comparisons.len() - i,
    {
        assert(comparisons@.take(i + 1).drop_last() =~= comparisons@.take(i as int));
        let ghost before = plans@;
        match shadow_comparison_attempt_plan(&comparisons[i], source, current, paired, reasoning) {
            Some(plan) => {
                plans.push(plan);
                assert(plan_models(plans@) =~= plan_models(before).push(plan@));
            },
            None => {},
        }
        i += 1;
    }
    assert(comparisons@.take(comparisons.len() as int) =~= comparisons@);
    plans
}

/// The settings of paired comparisons.
#[derive(Clone, Copy, Debug, PartialEq, Eq, Structural)]
pub struct PairedComparisonSettings {
    pub evidence_enabled: bool,
    pub paired_enabled: bool,
    pub rate: SampleRate,
    pub variant_count: usize,
}

/// Whether paired comparisons follow a request: its client is there, they are
/// collected, and the request is among the samples. `rendered` is the rate with
/// six decimal places.
pub fn paired_comparison_applies(
    client_gone: bool,
    settings: PairedComparisonSettings,
    request_id: &str,
    rendered: &str,
) -> (applies: bool)
    ensures
        applies == (!client_gone && settings.evidence_enabled && settings.paired_enabled && !(
        settings.rate is Nothing) && settings.variant_count > 0 && is_sampled(
            request_id@,
            settings.rate,
            rendered@,
        )),
{
    if client_gone {
        return false;
    }
    let collected = match settings.rate {
        SampleRate::Nothing => false,
        _ => settings.evidence_enabled && settings.paired_enabled && settings.variant_count > 0,
    };
    collected && paired_sample_matches(request_id, settings.rate, rendered)
}

// ---------------------------------------------------------------------------
// How an attempt ends
// ---------------------------------------------------------------------------

/// Adds a chunk to the body of a shadow attempt, which has a largest size.
pub fn append_shadow_chunk(body: &mut Vec<u8>, chunk: &Vec<u8>) -> (appended: Result<(), String>)
    ensures
        match appended {
            Ok(_) => {
                &&& old(body)@.len() + chunk@.len() <= MAX_PROXY_BODY_BYTES
                &&& final(body)@ == old(body)@ + chunk@
            },
            Err(error) => {
                &&& old(body)@.len() + chunk@.len() > MAX_PROXY_BODY_BYTES
                &&& final(body)@ == old(body)@
                &&& error@ == if old(body)@.len() + chunk@.len() > usize::MAX {
                    "shadow continuation body is too large"@
                } else {
                    "shadow continuation body exceeded proxy limit: max_bytes="@ + decimal(
                        MAX_PROXY_BODY_BYTES as nat,
                    )
                }
            },
        },
{
    match body.len().checked_add(chunk.len()) {
        Some(bytes_seen) => {
            if bytes_seen > MAX_PROXY_BODY_BYTES {
                return Err(
                    joined(
                        "shadow continuation body exceeded proxy limit: max_bytes=",
                        decimal_text(MAX_PROXY_BODY_BYTES as u64).as_str(),
                    ),
                );
            }
        },
        None => {
            return Err("shadow continuation body is too large".to_owned());
        },
    }
    let mut copy = clone_bytes(chunk);
    body.append(&mut copy);
    Ok(())
}

/// Whether the response of a shadow attempt is read as a stream.
pub fn shadow_reads_stream(status: u16, headers: &Headers) -> (stream: bool)
    ensures
        stream == (is_success(status) && crate::headers::says_event_stream(headers@)),
{
    status_is_success(status) && crate::headers::is_event_stream(headers)
}

/// What a shadow attempt came to.
pub enum ShadowEnd {
    /// The server is shutting down.
    Shutdown,
    /// Its time is over.
    TimedOut,
    /// No response came.
    NotSent { error: String },
    /// Its stream was read.
    Aggregated {
        status: u16,
        headers: Headers,
        sse_body_len: u64,
        metadata: Metadata,
        raw_payloads: RawPayloads,
    },
    /// Its stream could not be read.
    AggregationFailed {
        status: u16,
        headers: Headers,
        metadata: Metadata,
        raw_payloads: RawPayloads,
        error: String,
    },
    /// Its body was read.
    Body { status: u16, headers: Headers, body: Vec<u8> },
    /// Its body could not be read.
    BodyFailed { status: u16, headers: Headers, error: String },
}

/// The meaning of how a shadow attempt ended.
#[verifier::ext_equal]
pub struct ShadowEndModel {
    pub status: EvidenceAttemptStatus,
    pub http_status: Option<u16>,
    pub headers: Seq<HeaderModel>,
    pub metadata: Bindings,
    pub raw_payloads: RawPayloadsModel,
    pub body_bytes: u64,
    pub error_reason: Option<Seq<char>>,
    pub abort_reason: Option<Seq<char>>,
}

/// An attempt that brought nothing.
pub open spec fn nothing_came() -> ShadowEndModel {
    ShadowEndModel {
        status: EvidenceAttemptStatus::Failed,
        http_status: None,
        headers: Seq::empty(),
        metadata: Bindings::empty(),
        raw_payloads: no_payloads(),
        body_bytes: 0,
        error_reason: None,
        abort_reason: None,
    }
}

/// How a shadow attempt ended.
pub open spec fn shadow_end(end: ShadowEnd) -> ShadowEndModel {
    match end {
        ShadowEnd::Shutdown => ShadowEndModel {
            status: EvidenceAttemptStatus::Aborted,
            metadata: Bindings::empty().insert("abort_reason"@, SERVER_SHUTDOWN_ABORT_REASON@),
            error_reason: Some("shadow continuation cancelled by server shutdown"@),
            abort_reason: Some(SERVER_SHUTDOWN_ABORT_REASON@),
            ..nothing_came()
        },
        ShadowEnd::TimedOut => ShadowEndModel {
            status: EvidenceAttemptStatus::ShadowTimeout,
            error_reason: Some("shadow continuation timed out"@),
            abort_reason: Some("shadow_timeout"@),
            ..nothing_came()
        },
        ShadowEnd::NotSent { error } => ShadowEndModel {
            error_reason: Some(error@),
            ..nothing_came()
        },
        ShadowEnd::Aggregated {
            status,
            headers,
            sse_body_len,
            metadata,
            raw_payloads,
        } => ShadowEndModel {
            status: EvidenceAttemptStatus::Accepted,
            http_status: Some(status),
            headers: headers@,
            metadata: metadata@,
            raw_payloads: raw_payloads@,
            body_bytes: sse_body_len,
            ..nothing_came()
        },
        ShadowEnd::AggregationFailed {
            status,
            headers,
            metadata,
            raw_payloads,
            error,
        } => ShadowEndModel {
            http_status: Some(status),
            headers: headers@,
            metadata: metadata@,
            raw_payloads: raw_payloads@,
            error_reason: Some("shadow continuation SSE aggregation failed: "@ + error@),
            ..nothing_came()
        },
        ShadowEnd::Body { status, headers, body } => ShadowEndModel {
            status: if is_success(status) {
                EvidenceAttemptStatus::Accepted
            } else {
                EvidenceAttemptStatus::Failed
            },
            http_status: Some(status),
            headers: headers@,
            raw_payloads: RawPayloadsModel { output: payload_text(body@), ..no_payloads() },
            body_bytes: body@.len() as u64,
            error_reason: if is_success(status) {
                None
            } else {
                Some("shadow continuation HTTP "@ + decimal(status as nat))
            },
            ..nothing_came()
        },
        ShadowEnd::BodyFailed { status, headers, error } => ShadowEndModel {
            http_status: Some(status),
            headers: headers@,
            error_reason: Some(error@),
            ..nothing_came()
        },
    }
}

/// The meaning of what the evidence of a shadow attempt is made from.
pub open spec fn terminal_model(input: ShadowTerminalInput) -> ShadowEndModel {
    ShadowEndModel {
        status: input.status,
        http_status: input.http_status,
        headers: input.response_headers@,
        metadata: input.response_metadata@,
        raw_payloads: input.raw_payloads@,
        body_bytes: input.response_body_bytes,
        error_reason: opt_chars(input.error_reason),
        abort_reason: opt_chars(input.abort_reason),
    }
}

/// The names of how shadow attempts end, as they are recorded.
pub struct ShadowStatusLabels {
    pub accepted: String,
    pub failed: String,
    pub aborted: String,
    pub timed_out: String,
}

/// The name of how a shadow attempt ended.
pub open spec fn status_label(labels: ShadowStatusLabels, status: EvidenceAttemptStatus) -> Seq<char> {
    match status {
        EvidenceAttemptStatus::Accepted => labels.accepted@,
        EvidenceAttemptStatus::Aborted => labels.aborted@,
        EvidenceAttemptStatus::ShadowTimeout => labels.timed_out@,
        _ => labels.failed@,
    }
}

fn empty_input(
    status: EvidenceAttemptStatus,
    label: &str,
    started_at_unix_ms: u64,
    finished_at_unix_ms: u64,
) -> (input: ShadowTerminalInput)
    ensures
        terminal_model(input) == (ShadowEndModel { status, ..nothing_came() }),
        input.started_at_unix_ms == started_at_unix_ms,
        input.finished_at_unix_ms == finished_at_unix_ms,
        input.status_label@ == label@,
{
    ShadowTerminalInput {
        started_at_unix_ms,
        finished_at_unix_ms,
        status,
        status_label: label.to_owned(),
        http_status: None,
        response_headers: Headers::new(),
        response_metadata: Metadata::new(),
        raw_payloads: RawPayloads::none(),
        response_body_bytes: 0,
        error_reason: None,
        abort_reason: None,
    }
}

/// What the evidence of a shadow attempt is made from.
pub fn end_shadow_continuation(
    end: ShadowEnd,
    labels: &ShadowStatusLabels,
    started_at_unix_ms: u64,
    finished_at_unix_ms: u64,
) -> (input: ShadowTerminalInput)
    ensures
        terminal_model(input) == shadow_end(end),
        input.started_at_unix_ms == started_at_unix_ms,
        input.finished_at_unix_ms == finished_at_unix_ms,
        input.status_label@ == status_label(*labels, input.status),
{
    match end {
        ShadowEnd::Shutdown => {
            let mut input = empty_input(
                EvidenceAttemptStatus::Aborted,
                labels.aborted.as_str(),
                started_at_unix_ms,
                finished_at_unix_ms,
            );
            input.response_metadata.set("abort_reason", SERVER_SHUTDOWN_ABORT_REASON);
            input.error_reason = Some(
                "shadow continuation cancelled by server shutdown".to_owned(),
            );
            input.abort_reason = Some(SERVER_SHUTDOWN_ABORT_REASON.to_owned());
            input
        },
        ShadowEnd::TimedOut => {
            let mut input = empty_input(
                EvidenceAttemptStatus::ShadowTimeout,
                labels.timed_out.as_str(),
                started_at_unix_ms,
                finished_at_unix_ms,
            );
            input.error_reason = Some("shadow continuation timed out".to_owned());
            input.abort_reason = Some("shadow_timeout".to_owned());
            input
        },
        ShadowEnd::NotSent { error } => {
            let mut input = empty_input(
                EvidenceAttemptStatus::Failed,
                labels.failed.as_str(),
                started_at_unix_ms,
                finished_at_unix_ms,
            );
            input.error_reason = Some(error);
            input
        },
        ShadowEnd::Aggregated { status, headers, sse_body_len, metadata, raw_payloads } => {
            let mut input = empty_input(
                EvidenceAttemptStatus::Accepted,
                labels.accepted.as_str(),
                started_at_unix_ms,
                finished_at_unix_ms,
            );
            input.http_status = Some(status);
            input.response_headers = headers;
            input.response_metadata = metadata;
            input.raw_payloads = raw_payloads;
            input.response_body_bytes = sse_body_len;
            input
        },
        ShadowEnd::AggregationFailed { status, headers, metadata, raw_payloads, error } => {
            let mut input = empty_input(
                EvidenceAttemptStatus::Failed,
                labels.failed.as_str(),
                started_at_unix_ms,
                finished_at_unix_ms,
            );
            input.http_status = Some(status);
            input.response_headers = headers;
            input.response_metadata = metadata;
            input.raw_payloads = raw_payloads;
            input.error_reason = Some(
                joined("shadow continuation SSE aggregation failed: ", error.as_str()),
            );
            input
        },
        ShadowEnd::Body { status, headers, body } => {
            let accepted = status_is_success(status);
            let mut input = if accepted {
                empty_input(
                    EvidenceAttemptStatus::Accepted,
                    labels.accepted.as_str(),
                    started_at_unix_ms,
                    finished_at_unix_ms,
                )
            } else {
                empty_input(
                    EvidenceAttemptStatus::Failed,
                    labels.failed.as_str(),
                    started_at_unix_ms,
                    finished_at_unix_ms,
                )
            };
            input.http_status = Some(status);
            input.response_headers = headers;
            input.response_body_bytes = body.len() as u64;
            input.raw_payloads = RawPayloads {
                input: None,
                output: raw_payload_text(&body),
                reasoning: None,
            };
            if !accepted {
                input.error_reason = Some(
                    joined(
                        "shadow continuation HTTP ",
                        decimal_text(status as u64).as_str(),
                    ),
                );
            }
            input
        },
        ShadowEnd::BodyFailed { status, headers, error } => {
            let mut input = empty_input(
                EvidenceAttemptStatus::Failed,
                labels.failed.as_str(),
                started_at_unix_ms,
                finished_at_unix_ms,
            );
            input.http_status = Some(status);
            input.response_headers = headers;
            input.error_reason = Some(error);
            input
        },
    }
}

/// A shadow attempt that was not accepted says why.
pub proof fn failed_shadows_have_reasons(end: ShadowEnd)
    ensures
        shadow_end(end).status is Accepted <==> shadow_end(end).error_reason is None,
        shadow_end(end).abort_reason is Some ==> shadow_end(end).http_status is None,
{
}

/// Comparisons are planned in the order in which they were prepared, each on its own.
pub proof fn comparisons_are_planned_in_order(
    first: Seq<PreparedComparison>,
    second: Seq<PreparedComparison>,
    source: Bindings,
    current: ThinkingModel,
    paired: bool,
    reasoning: Option<Seq<char>>,
)
    ensures
        planned_comparisons(first + second, source, current, paired, reasoning)
            == planned_comparisons(first, source, current, paired, reasoning)
            + planned_comparisons(second, source, current, paired, reasoning),
    decreases second.len(),
{
    let before = planned_comparisons(first, source, current, paired, reasoning);
    if second.len() == 0 {
        assert(first + second =~= first);
        assert(before + planned_comparisons(second, source, current, paired, reasoning) =~= before);
    } else {
        comparisons_are_planned_in_order(
            first,
            second.drop_last(),
            source,
            current,
            paired,
            reasoning,
        );
        assert((first + second).drop_last() =~= first + second.drop_last());
        assert((first + second).last() == second.last());
        assert(planned_comparisons(first + second, source, current, paired, reasoning) =~= before
            + planned_comparisons(second, source, current, paired, reasoning));
    }
}

/// A comparison that was prepared is planned with its own body; one that answers from
/// salvaged reasoning only where there is some and it is not one of a pair.
pub proof fn prepared_comparisons_are_planned(
    prepared: PreparedComparison,
    source: Bindings,
    current: ThinkingModel,
    paired: bool,
    reasoning: Option<Seq<char>>,
)
    ensures
        prepared.body is None ==> planned_comparison(prepared, source, current, paired, reasoning)
            is None,
        prepared.comparison is CotSalvage && (paired || salvageable_prefix(reasoning) is None)
            ==> planned_comparison(prepared, source, current, paired, reasoning) is None,
        prepared.body is Some && !(prepared.comparison is CotSalvage) ==> planned_comparison(
            prepared,
            source,
            current,
            paired,
            reasoning,
        ) is Some,
        prepared.body is Some && prepared.comparison is CotSalvage && !paired && salvageable_prefix(
            reasoning,
        ) is Some ==> planned_comparison(prepared, source, current, paired, reasoning) is Some,
        planned_comparison(prepared, source, current, paired, reasoning) matches Some(plan)
            ==> plan.upstream_body == prepared.body->Some_0@ && plan.comparison_attempt == Some(
            prepared.comparison,
        ),
{
}

/// The attempt that goes on as it was comes first, with its own body and metadata.
pub proof fn continued_attempts_come_first(
    body: Seq<u8>,
    comparisons: Seq<PreparedComparison>,
    source: Bindings,
    current: ThinkingModel,
    paired: bool,
    reasoning: Option<Seq<char>>,
)
    ensures
        ({
            let plans = planned_attempts(
                Some(body),
                comparisons,
                source,
                current,
                paired,
                reasoning,
            );
            &&& plans.len() > 0
            &&& plans[0].upstream_body == body
            &&& plans[0].request_metadata == source
            &&& plans[0].comparison_attempt is None
            &&& plans.drop_first() == planned_attempts(
                None,
                comparisons,
                source,
                current,
                paired,
                reasoning,
            )
        }),
{
    let plans = planned_attempts(Some(body), comparisons, source, current, paired, reasoning);
    assert(plans.drop_first() =~= planned_comparisons(
        comparisons,
        source,
        current,
        paired,
        reasoning,
    ));
}

/// A shadow attempt is accepted where an answer came with success; what came is
/// recorded, and what ended it otherwise.
pub proof fn shadows_end_as_they_ended(end: ShadowEnd)
    ensures
        end is Shutdown ==> shadow_end(end).status is Aborted && shadow_end(end).abort_reason
            == Some("server_shutdown"@),
        end is TimedOut ==> shadow_end(end).status is ShadowTimeout,
        end is NotSent ==> shadow_end(end).status is Failed && shadow_end(end).http_status is None,
        end matches ShadowEnd::Aggregated {
            status,
            headers,
            sse_body_len,
            metadata,
            raw_payloads,
        } ==> shadow_end(end).status is Accepted && shadow_end(end).http_status == Some(status)
            && shadow_end(end).body_bytes == sse_body_len && shadow_end(end).metadata == metadata@
            && shadow_end(end).raw_payloads == raw_payloads@,
        end is AggregationFailed || end is BodyFailed ==> shadow_end(end).status is Failed,
        end matches ShadowEnd::Body { status, headers, body } ==> {
            &&& shadow_end(end).status is Accepted <==> 200 <= status <= 299
            &&& shadow_end(end).http_status == Some(status)
            &&& body@.len() <= u64::MAX ==> shadow_end(end).body_bytes == body@.len()
            &&& shadow_end(end).headers == headers@
        },
{
}

/// Each end of a shadow attempt goes by its own label.
pub proof fn shadow_ends_have_their_label(labels: ShadowStatusLabels)
    ensures
        status_label(labels, EvidenceAttemptStatus::Accepted) == labels.accepted@,
        status_label(labels, EvidenceAttemptStatus::Aborted) == labels.aborted@,
        status_label(labels, EvidenceAttemptStatus::ShadowTimeout) == labels.timed_out@,
        status_label(labels, EvidenceAttemptStatus::Failed) == labels.failed@,
{
}

/// Reasoning is compared where there is some that can be salvaged and no pair does it;
/// the end of a shadow is told as it came.
pub proof fn ends_are_told_as_they_came(
    comparison: ShadowComparisonAttempt,
    paired: bool,
    reasoning: Option<Seq<char>>,
    input: ShadowTerminalInput,
)
    ensures
        !(comparison is CotSalvage) ==> can_compare(comparison, paired, reasoning),
        comparison is CotSalvage ==> (can_compare(comparison, paired, reasoning) <==> !paired
            && salvageable_prefix(reasoning) is Some),
        nothing_came().status is Failed,
        nothing_came().http_status is None,
        nothing_came().body_bytes == 0,
        terminal_model(input).status == input.status,
        terminal_model(input).http_status == input.http_status,
        terminal_model(input).headers == input.response_headers@,
        terminal_model(input).metadata == input.response_metadata@,
        terminal_model(input).body_bytes == input.response_body_bytes,
        terminal_model(input).error_reason == opt_chars(input.error_reason),
        terminal_model(input).abort_reason == opt_chars(input.abort_reason),
{
}

} // verus!
