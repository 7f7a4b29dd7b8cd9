//! Shadow attempts: attempts beside a request that only leave evidence.

use crate::admission::{after_release, after_try_acquire, AdmissionCounts, InFlightLimiter};
use crate::attempts::{payload_text, raw_payload_text};
use crate::evidence::{
    clone_evidence, evidence_detector_features, evidence_models, features, opt_int, was_shown,
    EvidenceAttemptRecord, EvidenceAttemptRole, EvidenceAttemptStatus, EvidenceModel,
    ShadowSkipReason,
};
use crate::headers::Headers;
use crate::message_metadata::{elapsed, response_bindings, response_metadata};
use crate::metadata::{
    metadata_u32, metadata_value, stated_u32, stated_value, Bindings, Metadata,
};
use crate::records::{
    no_payloads, with_input, AttemptRecord, AttemptRecordModel, AttemptStatus, RawPayloads,
    RequestStatus,
};
use crate::retry::ShieldedRetryCause;
use crate::text::{
    bool_chars, chars_of, clone_opt, decimal, decimal_text, joined, opt_chars, opt_str_chars,
    own_opt, parse_u64, parsed_unsigned, same_text, split, split_on,
};
use crate::thinking::{ThinkingConfig, ThinkingModel};
use vstd::prelude::*;
use vstd::utf8::encode_utf8;

verus! {

/// What a full sampling rate comes to.
pub const PAIRED_SAMPLE_DENOMINATOR: u64 = 1_000_000;

// ---------------------------------------------------------------------------
// Sampling
// ---------------------------------------------------------------------------

/// The FNV-1a hash of some bytes.
pub open spec fn fnv_hash(bytes: Seq<u8>) -> u64
    decreases bytes.len(),
{
    if bytes.len() == 0 {
        0xcbf2_9ce4_8422_2325
    } else {
        let mixed = fnv_hash(bytes.drop_last()) ^ (bytes.last() as u64);
        ((mixed * 0x0000_0100_0000_01b3) % 0x1_0000_0000_0000_0000) as u64
    }
}

/// The FNV-1a hash of some bytes.
pub fn fnv_hash_of(bytes: &[u8]) -> (hash: u64)
    ensures
        hash == fnv_hash(bytes@),
{
    let mut hash: u64 = 0xcbf2_9ce4_8422_2325;
    let mut i: usize = 0;
    while i < bytes.len()
        invariant
            i <= bytes.len(),
            hash == fnv_hash(bytes@.take(i as int)),
        decreases bytes.len() - i,
    {
        assert(bytes@.take(i + 1).drop_last() =~= bytes@.take(i as int));
        let mixed: u64 = hash ^ (bytes[i] as u64);
        hash = mixed.wrapping_mul(0x0000_0100_0000_01b3);
        i += 1;
    }
    assert(bytes@.take(i as int) =~= bytes@);
    hash
}

/// A text cut or filled with zeros to six characters.
pub open spec fn six_digits(fraction: Seq<char>) -> Seq<char> {
    Seq::new(
        6,
        |i: int|
            if i < fraction.len() {
                fraction[i]
            } else {
                '0'
            },
    )
}

/// The number of samples in a million for a sampling rate that is written with
/// six decimal places: all for a rate of one, none where the text is no rate.
pub open spec fn sample_threshold(rendered: Seq<char>) -> int {
    let parts = split_on(rendered, '.');
    let fraction = if parts.len() > 1 {
        parts[1]
    } else {
        Seq::empty()
    };
    if parts[0] == "1"@ {
        PAIRED_SAMPLE_DENOMINATOR as int
    } else if parts[0] != "0"@ {
        0
    } else {
        match parsed_unsigned(six_digits(fraction), u64::MAX as int) {
            Some(value) => if value <= PAIRED_SAMPLE_DENOMINATOR {
                value
            } else {
                PAIRED_SAMPLE_DENOMINATOR as int
            },
            None => 0,
        }
    }
}

fn write_six_digits(fraction: &str) -> (digits: String)
    ensures
        digits@ == six_digits(fraction@),
{
    let chars = chars_of(fraction);
    let mut digits = String::new();
    let mut i: usize = 0;
    while i < 6
        invariant
            i <= 6,
            chars@ == fraction@,
            digits@ == six_digits(fraction@).take(i as int),
        decreases 6 - i,
    {
        if i < chars.len() {
            digits.push(chars[i]);
        } else {
            digits.push('0');
        }
        i += 1;
        assert(digits@ =~= six_digits(fraction@).take(i as int));
    }
    assert(digits@ =~= six_digits(fraction@));
    digits
}

/// The number of samples in a million for a sampling rate that is written with
/// six decimal places.
pub fn paired_sample_threshold(rendered: &str) -> (threshold: u64)
    ensures
        threshold == sample_threshold(rendered@),
        threshold <= PAIRED_SAMPLE_DENOMINATOR,
{
    let parts = split(rendered, '.');
    let ghost all = split_on(rendered@, '.');
    assert(crate::text::chars_list(parts@) == all);
    if parts.len() == 0 {
        proof {
            crate::text::split_is_never_empty(rendered@, '.');
        }
        return 0;
    }
    assert(all[0] == parts[0]@);
    if same_text(parts[0].as_str(), "1") {
        return PAIRED_SAMPLE_DENOMINATOR;
    }
    if !same_text(parts[0].as_str(), "0") {
        return 0;
    }
    let fraction = if parts.len() > 1 {
        assert(all[1] == parts[1]@);
        parts[1].clone()
    } else {
        String::new()
    };
    let digits = write_six_digits(fraction.as_str());
    match parse_u64(digits.as_str()) {
        Some(value) => {
            if value <= PAIRED_SAMPLE_DENOMINATOR {
                value
            } else {
                PAIRED_SAMPLE_DENOMINATOR
            }
        },
        None => 0,
    }
}

/// How a sampling rate lies to zero and one.
#[derive(Clone, Copy, Debug, PartialEq, Eq, Structural)]
pub enum SampleRate {
    /// One or more.
    Everything,
    /// Zero or less.
    Nothing,
    /// Between the two.
    Part,
}

/// Whether a request is among the samples.
pub open spec fn is_sampled(request_id: Seq<char>, rate: SampleRate, rendered: Seq<char>) -> bool {
    match rate {
        SampleRate::Everything => true,
        SampleRate::Nothing => false,
        SampleRate::Part => fnv_hash(encode_utf8(request_id)) % PAIRED_SAMPLE_DENOMINATOR
            < sample_threshold(rendered),
    }
}

/// Whether a request is among the samples. `rendered` is the rate with six
/// decimal places.
pub fn paired_sample_matches(request_id: &str, rate: SampleRate, rendered: &str) -> (sampled: bool)
    ensures
        sampled == is_sampled(request_id@, rate, rendered@),
{
    match rate {
        SampleRate::Everything => true,
        SampleRate::Nothing => false,
        SampleRate::Part => {
            let hash: u64 = fnv_hash_of(request_id.as_bytes());
            let threshold: u64 = paired_sample_threshold(rendered);
            threshold > 0 && hash % PAIRED_SAMPLE_DENOMINATOR < threshold
        },
    }
}

// ---------------------------------------------------------------------------
// Scheduling
// ---------------------------------------------------------------------------

/// The shadow attempts of one request.
pub struct ShadowEvidenceState {
    pub reserved_attempts: u32,
    /// The evidence of those that ended or were left out.
    pub records: Vec<EvidenceAttemptRecord>,
}

impl ShadowEvidenceState {
    /// No shadow attempts.
    pub fn new() -> (state: ShadowEvidenceState)
        ensures
            state.reserved_attempts == 0,
            state.records@.len() == 0,
    {
        ShadowEvidenceState { reserved_attempts: 0, records: Vec::new() }
    }

    /// Adds the evidence of a shadow attempt.
    pub fn push_record(&mut self, record: EvidenceAttemptRecord)
        ensures
            final(self).reserved_attempts == old(self).reserved_attempts,
            evidence_models(final(self).records@) == evidence_models(old(self).records@).push(
                record@,
            ),
    {
        let ghost before = self.records@;
        self.records.push(record);
        assert(evidence_models(self.records@) =~= evidence_models(before).push(record@));
    }

    /// The evidence of the shadow attempts so far.
    pub fn snapshot(&self) -> (records: Vec<EvidenceAttemptRecord>)
        ensures
            evidence_models(records@) == evidence_models(self.records@),
    {
        clone_evidence(&self.records)
    }

    /// Reserves a shadow attempt, if fewer than `max_attempts` are reserved.
    pub fn try_reserve_attempt(&mut self, max_attempts: u32) -> (sequence: Option<u32>)
        ensures
            if old(self).reserved_attempts < max_attempts {
                sequence == Some((old(self).reserved_attempts + 1) as u32)
                    && final(self).reserved_attempts == old(self).reserved_attempts + 1
                    && final(self).records == old(self).records
            } else {
                sequence is None && *final(self) == *old(self)
            },
    {
        if self.reserved_attempts >= max_attempts {
            return None;
        }
        self.reserved_attempts = self.reserved_attempts + 1;
        Some(self.reserved_attempts)
    }
}

/// Limits of shadow attempts.
#[derive(Clone, Copy, Debug, PartialEq, Eq, Structural)]
pub struct ShadowLimits {
    pub max_global_in_flight: usize,
    pub max_per_request: u32,
}

/// What becomes of a shadow attempt.
#[derive(Clone, Copy, Debug, PartialEq, Eq, Structural)]
pub enum ShadowStep {
    /// Nothing: the server is shutting down or the client is gone.
    Ignore,
    /// It is left out, and that is recorded.
    Skip(ShadowSkipReason),
    /// It runs, as the given one of its request.
    Run { sequence: u32 },
}

/// What becomes of a shadow attempt, with the counts and reservations after it.
pub open spec fn shadow_step(
    counts: AdmissionCounts,
    reserved: u32,
    limits: ShadowLimits,
    shutting_down: bool,
    client_gone: bool,
) -> (ShadowStep, AdmissionCounts, u32) {
    if shutting_down || client_gone {
        (ShadowStep::Ignore, counts, reserved)
    } else if limits.max_global_in_flight == 0 || counts.active >= limits.max_global_in_flight {
        (ShadowStep::Skip(ShadowSkipReason::GlobalLimit), counts, reserved)
    } else if reserved >= limits.max_per_request {
        (ShadowStep::Skip(ShadowSkipReason::PerRequestLimit), counts, reserved)
    } else {
        (
            ShadowStep::Run { sequence: (reserved + 1) as u32 },
            after_try_acquire(counts, limits.max_global_in_flight),
            (reserved + 1) as u32,
        )
    }
}

/// Decides what becomes of a shadow attempt. A running one holds a place among
/// all shadow attempts; one that is left out holds none.
pub fn schedule_shadow_attempt(
    limiter: &mut InFlightLimiter,
    state: &mut ShadowEvidenceState,
    limits: ShadowLimits,
    shutting_down: bool,
    client_gone: bool,
) -> (step: ShadowStep)
    ensures
        (step, final(limiter)@, final(state).reserved_attempts) == shadow_step(
            old(limiter)@,
            old(state).reserved_attempts,
            limits,
            shutting_down,
            client_gone,
        ),
        final(state).records == old(state).records,
{
    if shutting_down || client_gone {
        return ShadowStep::Ignore;
    }
    if limits.max_global_in_flight == 0 {
        return ShadowStep::Skip(ShadowSkipReason::GlobalLimit);
    }
    if !limiter.try_acquire(limits.max_global_in_flight) {
        return ShadowStep::Skip(ShadowSkipReason::GlobalLimit);
    }
    match state.try_reserve_attempt(limits.max_per_request) {
        Some(sequence) => ShadowStep::Run { sequence },
        None => {
            limiter.release();
            ShadowStep::Skip(ShadowSkipReason::PerRequestLimit)
        },
    }
}

/// What becomes of a shadow attempt once its identifier is known to be one or not,
/// with the counts after it.
pub open spec fn identified_step(
    step: ShadowStep,
    counts: AdmissionCounts,
    is_identifier: bool,
) -> (ShadowStep, AdmissionCounts) {
    if step is Run && !is_identifier {
        (ShadowStep::Skip(ShadowSkipReason::ContinuationUnavailable), after_release(counts))
    } else {
        (step, counts)
    }
}

/// Decides what becomes of a shadow attempt once its identifier is known to be one
/// or not. One that cannot be named is left out, and gives its place back.
pub fn identify_shadow_attempt(
    limiter: &mut InFlightLimiter,
    step: ShadowStep,
    is_identifier: bool,
) -> (identified: ShadowStep)
    ensures
        (identified, final(limiter)@) == identified_step(step, old(limiter)@, is_identifier),
{
    match step {
        ShadowStep::Run { .. } => {
            if is_identifier {
                step
            } else {
                limiter.release();
                ShadowStep::Skip(ShadowSkipReason::ContinuationUnavailable)
            }
        },
        _ => step,
    }
}

/// Shadow attempts stay within their limits: one that runs is within both, and
/// one that is left out takes no place, nor does one that cannot be named.
pub proof fn shadow_attempts_stay_within_limits(
    counts: AdmissionCounts,
    reserved: u32,
    limits: ShadowLimits,
    shutting_down: bool,
    client_gone: bool,
)
    ensures
        ({
            let (step, after, after_reserved) = shadow_step(
                counts,
                reserved,
                limits,
                shutting_down,
                client_gone,
            );
            match step {
                ShadowStep::Run { sequence } => after.active <= limits.max_global_in_flight
                    && after_reserved <= limits.max_per_request && sequence == after_reserved
                    && identified_step(step, after, false).1 == counts,
                _ => after == counts && after_reserved == reserved && identified_step(
                    step,
                    after,
                    false,
                ) == (step, counts),
            }
        }),
{
}

/// Whether shadow attempts follow a failed attempt.
pub open spec fn shadows_failure(
    client_gone: bool,
    retry_cause: Option<ShieldedRetryCause>,
    evidence_enabled: bool,
    shadow_enabled: bool,
) -> bool {
    !client_gone && retry_cause == Some(ShieldedRetryCause::LoopDetected) && evidence_enabled
        && shadow_enabled
}

/// Whether shadow attempts follow a failed attempt: it looped, its client is
/// there, and shadow evidence is collected.
pub fn shadow_continuation_applies(
    client_gone: bool,
    retry_cause: Option<ShieldedRetryCause>,
    evidence_enabled: bool,
    shadow_enabled: bool,
) -> (applies: bool)
    ensures
        applies == shadows_failure(client_gone, retry_cause, evidence_enabled, shadow_enabled),
{
    let looped = match retry_cause {
        Some(ShieldedRetryCause::LoopDetected) => true,
        _ => false,
    };
    !client_gone && looped && evidence_enabled && shadow_enabled
}

/// The place of the attempt that paired comparisons start from.
pub open spec fn is_pair_source(request_status: RequestStatus, attempt: AttemptRecordModel) -> bool {
    attempt.attempt_number == 1 && attempt.status == AttemptStatus::Succeeded && was_shown(
        request_status,
        attempt,
    )
}

/// Finds the attempt that paired comparisons start from: the first one of the
/// request, if the client saw its answer.
pub fn paired_comparison_source(
    request: &crate::observations::RequestRecord,
    attempts: &Vec<AttemptRecord>,
) -> (source: Option<usize>)
    ensures
        match source {
            Some(at) => {
                &&& at < attempts.len()
                &&& is_pair_source(request.status, attempts[at as int]@)
                &&& forall|j: int|
                    0 <= j < at ==> !is_pair_source(request.status, (#[trigger] attempts[j])@)
            },
            None => forall|j: int|
                0 <= j < attempts.len() ==> !is_pair_source(
                    request.status,
                    (#[trigger] attempts[j])@,
                ),
        },
{
    let mut i: usize = 0;
    while i < attempts.len()
        invariant
            i <= attempts.len(),
            forall|j: int|
                0 <= j < i ==> !is_pair_source(request.status, (#[trigger] attempts[j])@),
        decreases attempts.len() - i,
    {
        let attempt = &attempts[i];
        if attempt.attempt_number == 1 && attempt.status == AttemptStatus::Succeeded
            && crate::evidence::attempt_shown_to_downstream(request, attempt) {
            return Some(i);
        }
        i += 1;
    }
    None
}

/// The identifier of a shadow attempt.
pub fn shadow_attempt_id_text(request_id: &str, source_attempt_number: u32, sequence: u32) -> (id:
    String)
    ensures
        id@ == request_id@ + "-shadow-"@ + decimal(source_attempt_number as nat) + "-"@ + decimal(
            sequence as nat,
        ),
{
    let mut id = joined(request_id, "-shadow-");
    id.append(decimal_text(source_attempt_number as u64).as_str());
    id.append("-");
    id.append(decimal_text(sequence as u64).as_str());
    id
}

/// The identifier of a shadow attempt that was left out.
pub open spec fn skipped_id(request_id: Seq<char>, source_attempt_number: u32) -> Seq<char> {
    request_id + "-shadow-"@ + decimal(source_attempt_number as nat) + "-skipped"@
}

// ---------------------------------------------------------------------------
// Metadata and evidence
// ---------------------------------------------------------------------------

/// What is recorded on the request of a comparison.
pub open spec fn comparison_bindings(
    source: Bindings,
    prepared: Bindings,
    label: Seq<char>,
    paired: bool,
    thinking: ThinkingModel,
    mode_label: Seq<char>,
) -> Bindings {
    let compared = source.union_prefer_right(prepared).insert("shadow_compare_attempt"@, label);
    let named = if paired {
        compared.insert("shadow_paired_comparison"@, "true"@).insert("variant_name"@, label)
    } else {
        compared
    };
    named.insert("attempt_thinking_mode"@, mode_label).insert(
        "attempt_thinking_budget_tokens"@,
        decimal(thinking.budget_tokens as nat),
    ).insert(
        "attempt_thinking_max_tokens"@,
        match thinking.max_tokens {
            Some(tokens) => decimal(tokens as nat),
            None => "unset"@,
        },
    )
}

/// Records the request of a comparison. `label` names the comparison and
/// `mode_label` the mode that its thinking settings come to.
pub fn comparison_request_metadata(
    source: &Metadata,
    prepared: &Metadata,
    label: &str,
    paired: bool,
    thinking: &ThinkingConfig,
    mode_label: &str,
) -> (metadata: Metadata)
    ensures
        metadata@ == comparison_bindings(
            source@,
            prepared@,
            label@,
            paired,
            thinking@,
            mode_label@,
        ),
{
    let mut metadata = source.clone();
    metadata.extend(prepared);
    metadata.set("shadow_compare_attempt", label);
    if paired {
        metadata.set("shadow_paired_comparison", "true");
        metadata.set("variant_name", label);
    }
    metadata.set("attempt_thinking_mode", mode_label);
    metadata.set_number("attempt_thinking_budget_tokens", thinking.budget_tokens as u64);
    match thinking.max_tokens {
        Some(tokens) => {
            metadata.set_number("attempt_thinking_max_tokens", tokens as u64);
        },
        None => {
            metadata.set("attempt_thinking_max_tokens", "unset");
        },
    }
    metadata
}

/// The bindings with a shadow attempt recorded.
pub open spec fn with_shadow(
    bindings: Bindings,
    source: AttemptRecordModel,
    timeout_ms: u64,
    parallel_downgrade_attempts: bool,
    comparison: Option<Seq<char>>,
) -> Bindings {
    let base = bindings.insert("shadow_continuation"@, "true"@).insert(
        "shadow_source_attempt_id"@,
        source.attempt_id,
    ).insert("shadow_attempt_timeout_ms"@, decimal(timeout_ms as nat)).insert(
        "shadow_parallel_downgrade_attempts"@,
        bool_chars(parallel_downgrade_attempts),
    );
    let compared = match comparison {
        Some(label) => base.insert("shadow_compare_attempt"@, label),
        None => base,
    };
    compared.union_prefer_right(features(source.response_metadata))
}

/// Records a shadow attempt.
pub fn add_shadow_metadata(
    metadata: &mut Metadata,
    source: &AttemptRecord,
    timeout_ms: u64,
    parallel_downgrade_attempts: bool,
    comparison: Option<&str>,
)
    ensures
        final(metadata)@ == with_shadow(
            old(metadata)@,
            source@,
            timeout_ms,
            parallel_downgrade_attempts,
            opt_str_chars(comparison),
        ),
{
    metadata.set("shadow_continuation", "true");
    metadata.set("shadow_source_attempt_id", source.attempt_id.as_str());
    metadata.set_number("shadow_attempt_timeout_ms", timeout_ms);
    metadata.set_bool("shadow_parallel_downgrade_attempts", parallel_downgrade_attempts);
    match comparison {
        Some(label) => {
            metadata.set("shadow_compare_attempt", label);
        },
        None => {},
    }
    let seen = evidence_detector_features(&source.response_metadata);
    metadata.extend(&seen);
}

/// A shadow attempt that ran.
pub struct ShadowContinuationTask {
    pub request_id: String,
    pub group_id: String,
    pub attempt_id: String,
    pub source: AttemptRecord,
    pub request_metadata: Metadata,
    pub model_id: Option<String>,
    pub upstream_body: Vec<u8>,
    pub shadow_attempt_timeout_ms: u64,
    pub parallel_downgrade_attempts: bool,
    /// The name of the comparison that the attempt is, if it is one.
    pub comparison: Option<String>,
}

/// How a shadow attempt ended.
pub struct ShadowTerminalInput {
    pub started_at_unix_ms: u64,
    pub finished_at_unix_ms: u64,
    pub status: EvidenceAttemptStatus,
    pub status_label: String,
    pub http_status: Option<u16>,
    pub response_headers: Headers,
    pub response_metadata: Metadata,
    pub raw_payloads: RawPayloads,
    pub response_body_bytes: u64,
    pub error_reason: Option<String>,
    pub abort_reason: Option<String>,
}

/// The status that stands for a shadow attempt without a response, or with one
/// whose status is none.
pub open spec fn shadow_status(http_status: Option<u16>) -> u16 {
    match http_status {
        Some(status) => if crate::admission::is_http_status(status) {
            status
        } else {
            500
        },
        None => 599,
    }
}

/// The metadata of the response of a shadow attempt.
pub open spec fn shadow_response_bindings(
    task: ShadowContinuationTask,
    input: ShadowTerminalInput,
) -> Bindings {
    with_shadow(
        response_bindings(
            shadow_status(input.http_status),
            input.response_headers@,
            input.response_body_bytes,
            elapsed(input.finished_at_unix_ms, input.started_at_unix_ms),
        ).union_prefer_right(input.response_metadata@),
        task.source@,
        task.shadow_attempt_timeout_ms,
        task.parallel_downgrade_attempts,
        opt_chars(task.comparison),
    ).insert("shadow_terminal_status"@, input.status_label@)
}

/// Whether `evidence` is the evidence of a shadow attempt that ended so.
pub open spec fn is_shadow_evidence(
    task: ShadowContinuationTask,
    input: ShadowTerminalInput,
    evidence: EvidenceModel,
) -> bool {
    &&& evidence.attempt_id == task.attempt_id@
    &&& evidence.group_id == task.group_id@
    &&& evidence.request_id == task.request_id@
    &&& evidence.attempt_number == task.source.attempt_number
    &&& evidence.role == EvidenceAttemptRole::ShadowContinued
    &&& !evidence.shown_to_downstream
    &&& evidence.started_at_unix_ms == input.started_at_unix_ms
    &&& evidence.finished_at_unix_ms == Some(input.finished_at_unix_ms)
    &&& evidence.upstream_profile == stated_value(task.request_metadata@, "upstream_profile"@)
    &&& evidence.model_id == opt_chars(task.model_id)
    &&& evidence.thinking_mode == stated_value(task.request_metadata@, "attempt_thinking_mode"@)
    &&& opt_int(evidence.thinking_budget_tokens) == stated_u32(
        task.request_metadata@,
        "attempt_thinking_budget_tokens"@,
    )
    &&& opt_int(evidence.thinking_max_tokens) == stated_u32(
        task.request_metadata@,
        "attempt_thinking_max_tokens"@,
    )
    &&& evidence.detector_features == features(task.source.response_metadata@)
    &&& evidence.status == input.status
    &&& evidence.http_status == input.http_status
    &&& evidence.error_reason == opt_chars(input.error_reason)
    &&& evidence.retry_reason is None
    &&& evidence.abort_reason == opt_chars(input.abort_reason)
    &&& evidence.shadow_skip_reason is None
    &&& evidence.request_metadata == task.request_metadata@
    &&& evidence.response_metadata == shadow_response_bindings(task, input)
    &&& evidence.raw_payloads == with_input(
        input.raw_payloads@,
        payload_text(task.upstream_body@),
    )
}

/// The evidence of a shadow attempt that has ended.
pub fn build_shadow_terminal_record(task: &ShadowContinuationTask, input: ShadowTerminalInput) -> (
    evidence: EvidenceAttemptRecord)
    ensures
        is_shadow_evidence(*task, input, evidence@),
{
    let status: u16 = match input.http_status {
        Some(status) => {
            if status >= 100 && status < 1000 {
                status
            } else {
                500
            }
        },
        None => 599,
    };
    let mut response = response_metadata(
        status,
        &input.response_headers,
        input.response_body_bytes,
        input.finished_at_unix_ms.saturating_sub(input.started_at_unix_ms),
    );
    response.extend(&input.response_metadata);
    let comparison: Option<&str> = match &task.comparison {
        Some(label) => Some(label.as_str()),
        None => None,
    };
    add_shadow_metadata(
        &mut response,
        &task.source,
        task.shadow_attempt_timeout_ms,
        task.parallel_downgrade_attempts,
        comparison,
    );
    response.set("shadow_terminal_status", input.status_label.as_str());
    EvidenceAttemptRecord {
        attempt_id: task.attempt_id.clone(),
        group_id: task.group_id.clone(),
        request_id: task.request_id.clone(),
        attempt_number: task.source.attempt_number,
        role: EvidenceAttemptRole::ShadowContinued,
        shown_to_downstream: false,
        started_at_unix_ms: input.started_at_unix_ms,
        finished_at_unix_ms: Some(input.finished_at_unix_ms),
        upstream_profile: metadata_value(&task.request_metadata, "upstream_profile"),
        model_id: clone_opt(&task.model_id),
        thinking_mode: metadata_value(&task.request_metadata, "attempt_thinking_mode"),
        thinking_budget_tokens: metadata_u32(
            &task.request_metadata,
            "attempt_thinking_budget_tokens",
        ),
        thinking_max_tokens: metadata_u32(&task.request_metadata, "attempt_thinking_max_tokens"),
        detector_features: evidence_detector_features(&task.source.response_metadata),
        status: input.status,
        http_status: input.http_status,
        error_reason: input.error_reason,
        retry_reason: None,
        abort_reason: input.abort_reason,
        shadow_skip_reason: None,
        request_metadata: task.request_metadata.clone(),
        response_metadata: response,
        raw_payloads: input.raw_payloads.or_input(raw_payload_text(&task.upstream_body)),
    }
}

/// The metadata of the response of a shadow attempt that was left out.
pub open spec fn skipped_bindings(
    source: AttemptRecordModel,
    reason_label: Seq<char>,
    timeout_ms: u64,
    parallel_downgrade_attempts: bool,
) -> Bindings {
    with_shadow(
        Bindings::empty().insert("shadow_skipped"@, "true"@).insert(
            "shadow_skip_reason"@,
            reason_label,
        ),
        source,
        timeout_ms,
        parallel_downgrade_attempts,
        None,
    ).union_prefer_right(features(source.response_metadata))
}

/// Whether `evidence` is the evidence of a shadow attempt that was left out.
pub open spec fn is_skipped_evidence(
    request_id: Seq<char>,
    source: AttemptRecordModel,
    model_id: Option<Seq<char>>,
    reason: ShadowSkipReason,
    response: Bindings,
    evidence: EvidenceModel,
) -> bool {
    &&& evidence.attempt_id == skipped_id(request_id, source.attempt_number)
    &&& evidence.group_id == request_id
    &&& evidence.request_id == request_id
    &&& evidence.attempt_number == source.attempt_number
    &&& evidence.role == EvidenceAttemptRole::ShadowContinued
    &&& !evidence.shown_to_downstream
    &&& evidence.started_at_unix_ms == match source.finished_at_unix_ms {
        Some(finished) => finished,
        None => source.started_at_unix_ms,
    }
    &&& evidence.finished_at_unix_ms == source.finished_at_unix_ms
    &&& evidence.upstream_profile == stated_value(source.request_metadata, "upstream_profile"@)
    &&& evidence.model_id == model_id
    &&& evidence.thinking_mode == stated_value(source.request_metadata, "attempt_thinking_mode"@)
    &&& opt_int(evidence.thinking_budget_tokens) == stated_u32(
        source.request_metadata,
        "attempt_thinking_budget_tokens"@,
    )
    &&& opt_int(evidence.thinking_max_tokens) == stated_u32(
        source.request_metadata,
        "attempt_thinking_max_tokens"@,
    )
    &&& evidence.detector_features == features(source.response_metadata)
    &&& evidence.status == EvidenceAttemptStatus::Skipped
    &&& evidence.http_status == source.http_status
    &&& evidence.error_reason is None
    &&& evidence.retry_reason is None
    &&& evidence.abort_reason is None
    &&& evidence.shadow_skip_reason == Some(reason)
    &&& evidence.request_metadata == source.request_metadata
    &&& evidence.response_metadata == response
    &&& evidence.raw_payloads == no_payloads()
}

/// The evidence of a shadow attempt that was left out. `reason_label` names the
/// reason.
pub fn build_shadow_skipped_record(
    request_id: &str,
    source: &AttemptRecord,
    model_id: Option<&str>,
    reason: ShadowSkipReason,
    reason_label: &str,
    timeout_ms: u64,
    parallel_downgrade_attempts: bool,
) -> (evidence: EvidenceAttemptRecord)
    ensures
        is_skipped_evidence(
            request_id@,
            source@,
            opt_str_chars(model_id),
            reason,
            skipped_bindings(
                source@,
                reason_label@,
                timeout_ms,
                parallel_downgrade_attempts,
            ),
            evidence@,
        ),
{
    let mut attempt_id = joined(request_id, "-shadow-");
    attempt_id.append(decimal_text(source.attempt_number as u64).as_str());
    attempt_id.append("-skipped");
    let mut response = Metadata::new();
    response.set("shadow_skipped", "true");
    response.set("shadow_skip_reason", reason_label);
    add_shadow_metadata(&mut response, source, timeout_ms, parallel_downgrade_attempts, None);
    let seen = evidence_detector_features(&source.response_metadata);
    response.extend(&seen);
    let started: u64 = match source.finished_at_unix_ms {
        Some(finished) => finished,
        None => source.started_at_unix_ms,
    };
    EvidenceAttemptRecord {
        attempt_id,
        group_id: request_id.to_owned(),
        request_id: request_id.to_owned(),
        attempt_number: source.attempt_number,
        role: EvidenceAttemptRole::ShadowContinued,
        shown_to_downstream: false,
        started_at_unix_ms: started,
        finished_at_unix_ms: source.finished_at_unix_ms,
        upstream_profile: metadata_value(&source.request_metadata, "upstream_profile"),
        model_id: own_opt(model_id),
        thinking_mode: metadata_value(&source.request_metadata, "attempt_thinking_mode"),
        thinking_budget_tokens: metadata_u32(
            &source.request_metadata,
            "attempt_thinking_budget_tokens",
        ),
        thinking_max_tokens: metadata_u32(&source.request_metadata, "attempt_thinking_max_tokens"),
        detector_features: seen,
        status: EvidenceAttemptStatus::Skipped,
        http_status: source.http_status,
        error_reason: None,
        retry_reason: None,
        abort_reason: None,
        shadow_skip_reason: Some(reason),
        request_metadata: source.request_metadata.clone(),
        response_metadata: response,
        raw_payloads: RawPayloads::none(),
    }
}

/// A rate counts in millionths: the first six digits after the point, with zeros where
/// there are fewer; one samples everything.
pub proof fn rates_count_in_millionths(digits: Seq<char>, one: char)
    requires
        digits.len() == 6,
        forall|i: int| 0 <= i < 6 ==> '0' <= #[trigger] digits[i] && digits[i] <= '9',
        '0' <= one && one <= '9',
    ensures
        sample_threshold("0."@ + digits) == (digits[0] as int - 48) * 100_000 + (digits[1] as int
            - 48) * 10_000 + (digits[2] as int - 48) * 1_000 + (digits[3] as int - 48) * 100 + (
        digits[4] as int - 48) * 10 + (digits[5] as int - 48),
        sample_threshold(seq!['0', '.', one]) == (one as int - 48) * 100_000,
        sample_threshold("1"@) == 1_000_000,
        sample_threshold("0"@) == 0,
{
    reveal_strlit("0.");
    reveal_strlit("0");
    reveal_strlit("1");
    let zero = "0"@;
    assert("0."@ =~= zero.push('.'));
    assert("0"@ =~= seq!['0']);
    assert("1"@ =~= seq!['1']);
    assert("1"@[0] != "0"@[0]);
    no_point_in(digits);
    crate::text::texts_split_at_separators(zero, digits, '.');
    crate::text::texts_split_at_separators(digits, Seq::empty(), '.');
    assert(split_on("0."@ + digits, '.') == seq![zero, digits]) by {
        assert("0."@ + digits =~= zero.push('.') + digits);
        assert(split_on(zero, '.') =~= seq![zero]);
        assert(seq![zero] + seq![digits] =~= seq![zero, digits]);
    }
    assert(six_digits(digits) =~= digits);
    six_digits_count(digits);
    let short = seq![one];
    let padded = seq![one, '0', '0', '0', '0', '0'];
    crate::text::texts_split_at_separators(zero, short, '.');
    crate::text::texts_split_at_separators(short, Seq::empty(), '.');
    assert(split_on(seq!['0', '.', one], '.') == seq![zero, short]) by {
        assert(seq!['0', '.', one] =~= zero.push('.') + short);
        assert(split_on(zero, '.') =~= seq![zero]);
        assert(seq![zero] + seq![short] =~= seq![zero, short]);
    }
    assert(six_digits(short) =~= padded);
    six_digits_count(padded);
    crate::text::texts_split_at_separators("1"@, Seq::empty(), '.');
    crate::text::texts_split_at_separators("0"@, Seq::empty(), '.');
    assert(split_on("1"@, '.') == seq!["1"@]);
    assert(split_on("0"@, '.') == seq!["0"@]);
    let zeros = seq!['0', '0', '0', '0', '0', '0'];
    assert(six_digits(Seq::empty()) =~= zeros);
    six_digits_count(zeros);
}

proof fn no_point_in(digits: Seq<char>)
    requires
        forall|i: int| 0 <= i < digits.len() ==> '0' <= #[trigger] digits[i] && digits[i] <= '9',
    ensures
        !digits.contains('.'),
{
}

proof fn six_digits_count(digits: Seq<char>)
    requires
        digits.len() == 6,
        forall|i: int| 0 <= i < 6 ==> '0' <= #[trigger] digits[i] && digits[i] <= '9',
    ensures
        parsed_unsigned(digits, u64::MAX as int) == Some(
            (digits[0] as int - 48) * 100_000 + (digits[1] as int - 48) * 10_000 + (digits[2] as int
                - 48) * 1_000 + (digits[3] as int - 48) * 100 + (digits[4] as int - 48) * 10 + (
            digits[5] as int - 48),
        ),
{
    let d5 = digits.drop_last();
    let d4 = d5.drop_last();
    let d3 = d4.drop_last();
    let d2 = d3.drop_last();
    let d1 = d2.drop_last();
    let d0 = d1.drop_last();
    assert(crate::text::decimal_value(d0) == 0);
    assert(crate::text::decimal_value(d1) == digits[0] as int - 48);
    assert(crate::text::decimal_value(d2) == crate::text::decimal_value(d1) * 10 + (digits[1] as int
        - 48));
    assert(crate::text::decimal_value(d3) == crate::text::decimal_value(d2) * 10 + (digits[2] as int
        - 48));
    assert(crate::text::decimal_value(d4) == crate::text::decimal_value(d3) * 10 + (digits[3] as int
        - 48));
    assert(crate::text::decimal_value(d5) == crate::text::decimal_value(d4) * 10 + (digits[4] as int
        - 48));
    assert(crate::text::decimal_value(digits) == crate::text::decimal_value(d5) * 10
        + (digits[5] as int - 48));
}

/// A larger rate samples what a smaller one does, and more; the rate of one samples
/// every request and that of zero none.
pub proof fn larger_rates_sample_more(
    request_id: Seq<char>,
    smaller: Seq<char>,
    larger: Seq<char>,
)
    ensures
        is_sampled(request_id, SampleRate::Everything, smaller),
        !is_sampled(request_id, SampleRate::Nothing, smaller),
        sample_threshold(smaller) <= sample_threshold(larger) && is_sampled(
            request_id,
            SampleRate::Part,
            smaller,
        ) ==> is_sampled(request_id, SampleRate::Part, larger),
        sample_threshold(smaller) == 1_000_000 ==> is_sampled(
            request_id,
            SampleRate::Part,
            smaller,
        ),
        sample_threshold(smaller) == 0 ==> !is_sampled(request_id, SampleRate::Part, smaller),
{
}

/// A shadow attempt runs while there is room for it among all and among those of its
/// request; nothing runs for a client that is gone or while the proxy shuts down.
pub proof fn shadows_run_where_there_is_room(
    counts: AdmissionCounts,
    reserved: u32,
    limits: ShadowLimits,
    shutting_down: bool,
    client_gone: bool,
)
    ensures
        ({
            let (step, after, taken) = shadow_step(
                counts,
                reserved,
                limits,
                shutting_down,
                client_gone,
            );
            let ends = shutting_down || client_gone;
            let room = counts.active < limits.max_global_in_flight;
            &&& step is Ignore <==> ends
            &&& step is Run <==> !ends && room && reserved < limits.max_per_request
            &&& step is Run ==> after.active == counts.active + 1 && taken == reserved + 1
            &&& step == ShadowStep::Skip(ShadowSkipReason::GlobalLimit) <==> !ends && !room
            &&& step == ShadowStep::Skip(ShadowSkipReason::PerRequestLimit) <==> !ends && room
                && reserved >= limits.max_per_request
        }),
{
}

/// Shadows follow loops alone, where they are on and the client still waits; pairs are
/// made from the first attempt of an answer that was shown.
pub proof fn shadows_follow_loops(
    retry_cause: ShieldedRetryCause,
    request_status: RequestStatus,
    attempt: AttemptRecordModel,
)
    ensures
        shadows_failure(false, Some(retry_cause), true, true) <==> retry_cause is LoopDetected,
        !shadows_failure(true, Some(retry_cause), true, true),
        !shadows_failure(false, Some(retry_cause), false, true),
        !shadows_failure(false, Some(retry_cause), true, false),
        !shadows_failure(false, None, true, true),
        is_pair_source(request_status, attempt) <==> attempt.attempt_number == 1
            && attempt.status == AttemptStatus::Succeeded && request_status
            == RequestStatus::Succeeded && attempt.retry_reason is None && attempt.abort_reason
            is None,
{
}

/// A status that a shadow attempt got is recorded, and marked where it is none.
pub proof fn shadow_statuses_are_recorded(status: u16)
    ensures
        100 <= status <= 999 ==> shadow_status(Some(status)) == status,
        status < 100 || status > 999 ==> shadow_status(Some(status)) == 500,
        shadow_status(None) == 599,
{
}

/// A comparison says which it is and how it thinks.
pub proof fn comparisons_say_what_they_compare(
    source: Bindings,
    prepared: Bindings,
    label: Seq<char>,
    thinking: ThinkingModel,
    mode_label: Seq<char>,
)
    ensures
        ({
            let told = comparison_bindings(source, prepared, label, true, thinking, mode_label);
            &&& told.contains_key("shadow_compare_attempt"@) && told["shadow_compare_attempt"@] == label
            &&& told.contains_key("shadow_paired_comparison"@) && told["shadow_paired_comparison"@] == "true"@
            &&& told.contains_key("variant_name"@) && told["variant_name"@] == label
            &&& told.contains_key("attempt_thinking_mode"@) && told["attempt_thinking_mode"@] == mode_label
            &&& told.contains_key("attempt_thinking_budget_tokens"@) && told["attempt_thinking_budget_tokens"@] == decimal(thinking.budget_tokens as nat)
            &&& told.contains_key("attempt_thinking_max_tokens"@) && told["attempt_thinking_max_tokens"@] == match thinking.max_tokens {
                Some(tokens) => decimal(tokens as nat),
                None => "unset"@,
            }
        }),
{
    reveal_strlit("shadow_compare_attempt");
    reveal_strlit("shadow_paired_comparison");
    reveal_strlit("variant_name");
    reveal_strlit("attempt_thinking_mode");
    reveal_strlit("attempt_thinking_budget_tokens");
    reveal_strlit("attempt_thinking_max_tokens");
    assert("shadow_compare_attempt"@.len() == 22);
    assert("shadow_paired_comparison"@.len() == 24);
    assert("variant_name"@.len() == 12);
    assert("attempt_thinking_mode"@.len() == 21);
    assert("attempt_thinking_budget_tokens"@.len() == 30);
    assert("attempt_thinking_max_tokens"@.len() == 27);
}

/// What is recorded of a shadow attempt says which attempt it follows and how.
pub proof fn shadows_are_recorded(
    bindings: Bindings,
    source: AttemptRecordModel,
    timeout_ms: u64,
    parallel: bool,
    label: Seq<char>,
)
    requires
        source.response_metadata == Bindings::empty(),
    ensures
        ({
            let told = with_shadow(bindings, source, timeout_ms, parallel, Some(label));
            &&& told.contains_key("shadow_continuation"@) && told["shadow_continuation"@] == "true"@
            &&& told.contains_key("shadow_source_attempt_id"@) && told["shadow_source_attempt_id"@] == source.attempt_id
            &&& told.contains_key("shadow_attempt_timeout_ms"@) && told["shadow_attempt_timeout_ms"@] == decimal(timeout_ms as nat)
            &&& told.contains_key("shadow_parallel_downgrade_attempts"@) && told["shadow_parallel_downgrade_attempts"@] == bool_chars(parallel)
            &&& told.contains_key("shadow_compare_attempt"@) && told["shadow_compare_attempt"@] == label
        }),
{
    reveal_strlit("shadow_continuation");
    reveal_strlit("shadow_source_attempt_id");
    reveal_strlit("shadow_attempt_timeout_ms");
    reveal_strlit("shadow_parallel_downgrade_attempts");
    reveal_strlit("shadow_compare_attempt");
    assert("shadow_continuation"@.len() == 19);
    assert("shadow_source_attempt_id"@.len() == 24);
    assert("shadow_attempt_timeout_ms"@.len() == 25);
    assert("shadow_parallel_downgrade_attempts"@.len() == 34);
    assert("shadow_compare_attempt"@.len() == 22);
}

/// The evidence of a shadow attempt is that of this attempt, and was never shown.
pub proof fn shadow_evidence_is_not_shown(
    task: ShadowContinuationTask,
    input: ShadowTerminalInput,
    evidence: EvidenceModel,
)
    requires
        is_shadow_evidence(task, input, evidence),
    ensures
        !evidence.shown_to_downstream,
        evidence.role is ShadowContinued,
        evidence.attempt_id == task.attempt_id@,
        evidence.request_id == task.request_id@,
        evidence.started_at_unix_ms == input.started_at_unix_ms,
        evidence.finished_at_unix_ms == Some(input.finished_at_unix_ms),
        evidence.status == input.status,
        evidence.http_status == input.http_status,
        evidence.error_reason == opt_chars(input.error_reason),
        evidence.abort_reason == opt_chars(input.abort_reason),
        evidence.request_metadata == task.request_metadata@,
{
}

/// The hash takes each byte in its turn: nothing is a fixed number, and one more byte is
/// mixed into what was there.
pub proof fn bytes_are_mixed_in_turn(bytes: Seq<u8>, byte: u8)
    ensures
        fnv_hash(Seq::empty()) == 0xcbf2_9ce4_8422_2325,
        fnv_hash(bytes.push(byte)) == ((fnv_hash(bytes) ^ (byte as u64)) * 0x100_0000_01b3)
            % 0x1_0000_0000_0000_0000,
{
    assert(bytes.push(byte).drop_last() =~= bytes);
}

/// A fraction is read in six digits, with zeros for those that are not there.
pub proof fn fractions_have_six_digits(fraction: Seq<char>, i: int)
    ensures
        six_digits(fraction).len() == 6,
        0 <= i < 6 && i < fraction.len() ==> six_digits(fraction)[i] == fraction[i],
        fraction.len() <= i < 6 ==> six_digits(fraction)[i] == '0',
{
}

/// The evidence of a skipped shadow is that of the attempt it would have followed, and
/// says why it was skipped.
pub proof fn skipped_shadows_are_told(
    request_id: Seq<char>,
    source: AttemptRecordModel,
    model_id: Option<Seq<char>>,
    reason: ShadowSkipReason,
    response: Bindings,
    evidence: EvidenceModel,
)
    requires
        is_skipped_evidence(request_id, source, model_id, reason, response, evidence),
    ensures
        evidence.status is Skipped,
        evidence.role is ShadowContinued,
        !evidence.shown_to_downstream,
        evidence.shadow_skip_reason == Some(reason),
        evidence.request_id == request_id,
        evidence.group_id == request_id,
        crate::text::has_prefix(evidence.attempt_id, request_id),
        evidence.attempt_number == source.attempt_number,
        evidence.model_id == model_id,
        evidence.http_status == source.http_status,
        evidence.finished_at_unix_ms == source.finished_at_unix_ms,
        source.finished_at_unix_ms matches Some(finished) ==> evidence.started_at_unix_ms
            == finished,
        evidence.error_reason is None && evidence.retry_reason is None && evidence.abort_reason
            is None,
        evidence.request_metadata == source.request_metadata,
        evidence.response_metadata == response,
{
    let end = "-shadow-"@ + decimal(source.attempt_number as nat) + "-skipped"@;
    assert(evidence.attempt_id =~= request_id + end);
    crate::text::prefixes_and_parts_are_found(Seq::empty(), request_id, end);
}

} // verus!
