//! Evidence of attempts: which were shown to the client, and what detectors saw
//! in them.

use crate::metadata::{
    bindings_of, metadata_u32, metadata_value, stated_u32, stated_value, Bindings, Metadata,
};
use crate::observations::{RequestRecord, RequestRecordModel};
use crate::records::{
    record_models, AttemptRecord, AttemptRecordModel, AttemptStatus, RawPayloads,
    RawPayloadsModel, RequestStatus,
};
use crate::text::{clone_opt, has_prefix, opt_chars, same_text, starts_with};
use vstd::prelude::*;

verus! {

/// The part that an attempt played.
#[derive(Clone, Copy, Debug, PartialEq, Eq, Structural)]
pub enum EvidenceAttemptRole {
    Primary,
    Fallback,
    ShadowContinued,
}

/// What became of an attempt.
#[derive(Clone, Copy, Debug, PartialEq, Eq, Structural)]
pub enum EvidenceAttemptStatus {
    Accepted,
    Rejected,
    Failed,
    Aborted,
    ShadowTimeout,
    Skipped,
}

/// Why a shadow attempt was not made.
#[derive(Clone, Copy, Debug, PartialEq, Eq, Structural)]
pub enum ShadowSkipReason {
    PerRequestLimit,
    GlobalLimit,
    ContinuationUnavailable,
}

/// The evidence of one attempt.
pub struct EvidenceAttemptRecord {
    pub attempt_id: String,
    pub group_id: String,
    pub request_id: String,
    pub attempt_number: u32,
    pub role: EvidenceAttemptRole,
    pub shown_to_downstream: bool,
    pub started_at_unix_ms: u64,
    pub finished_at_unix_ms: Option<u64>,
    pub upstream_profile: Option<String>,
    pub model_id: Option<String>,
    pub thinking_mode: Option<String>,
    pub thinking_budget_tokens: Option<u32>,
    pub thinking_max_tokens: Option<u32>,
    pub detector_features: Metadata,
    pub status: EvidenceAttemptStatus,
    pub http_status: Option<u16>,
    pub error_reason: Option<String>,
    pub retry_reason: Option<String>,
    pub abort_reason: Option<String>,
    pub shadow_skip_reason: Option<ShadowSkipReason>,
    pub request_metadata: Metadata,
    pub response_metadata: Metadata,
    pub raw_payloads: RawPayloads,
}

/// The meaning of the evidence of one attempt.
#[verifier::ext_equal]
pub struct EvidenceModel {
    pub attempt_id: Seq<char>,
    pub group_id: Seq<char>,
    pub request_id: Seq<char>,
    pub attempt_number: u32,
    pub role: EvidenceAttemptRole,
    pub shown_to_downstream: bool,
    pub started_at_unix_ms: u64,
    pub finished_at_unix_ms: Option<u64>,
    pub upstream_profile: Option<Seq<char>>,
    pub model_id: Option<Seq<char>>,
    pub thinking_mode: Option<Seq<char>>,
    pub thinking_budget_tokens: Option<u32>,
    pub thinking_max_tokens: Option<u32>,
    pub detector_features: Bindings,
    pub status: EvidenceAttemptStatus,
    pub http_status: Option<u16>,
    pub error_reason: Option<Seq<char>>,
    pub retry_reason: Option<Seq<char>>,
    pub abort_reason: Option<Seq<char>>,
    pub shadow_skip_reason: Option<ShadowSkipReason>,
    pub request_metadata: Bindings,
    pub response_metadata: Bindings,
    pub raw_payloads: RawPayloadsModel,
}

impl View for EvidenceAttemptRecord {
    type V = EvidenceModel;

    open spec fn view(&self) -> EvidenceModel {
        EvidenceModel {
            attempt_id: self.attempt_id@,
            group_id: self.group_id@,
            request_id: self.request_id@,
            attempt_number: self.attempt_number,
            role: self.role,
            shown_to_downstream: self.shown_to_downstream,
            started_at_unix_ms: self.started_at_unix_ms,
            finished_at_unix_ms: self.finished_at_unix_ms,
            upstream_profile: opt_chars(self.upstream_profile),
            model_id: opt_chars(self.model_id),
            thinking_mode: opt_chars(self.thinking_mode),
            thinking_budget_tokens: self.thinking_budget_tokens,
            thinking_max_tokens: self.thinking_max_tokens,
            detector_features: self.detector_features@,
            status: self.status,
            http_status: self.http_status,
            error_reason: opt_chars(self.error_reason),
            retry_reason: opt_chars(self.retry_reason),
            abort_reason: opt_chars(self.abort_reason),
            shadow_skip_reason: self.shadow_skip_reason,
            request_metadata: self.request_metadata@,
            response_metadata: self.response_metadata@,
            raw_payloads: self.raw_payloads@,
        }
    }
}

impl Clone for EvidenceAttemptRecord {
    fn clone(&self) -> (copy: EvidenceAttemptRecord)
        ensures
            copy@ == self@,
    {
        EvidenceAttemptRecord {
            attempt_id: self.attempt_id.clone(),
            group_id: self.group_id.clone(),
            request_id: self.request_id.clone(),
            attempt_number: self.attempt_number,
            role: self.role,
            shown_to_downstream: self.shown_to_downstream,
            started_at_unix_ms: self.started_at_unix_ms,
            finished_at_unix_ms: self.finished_at_unix_ms,
            upstream_profile: clone_opt(&self.upstream_profile),
            model_id: clone_opt(&self.model_id),
            thinking_mode: clone_opt(&self.thinking_mode),
            thinking_budget_tokens: self.thinking_budget_tokens,
            thinking_max_tokens: self.thinking_max_tokens,
            detector_features: self.detector_features.clone(),
            status: self.status,
            http_status: self.http_status,
            error_reason: clone_opt(&self.error_reason),
            retry_reason: clone_opt(&self.retry_reason),
            abort_reason: clone_opt(&self.abort_reason),
            shadow_skip_reason: self.shadow_skip_reason,
            request_metadata: self.request_metadata.clone(),
            response_metadata: self.response_metadata.clone(),
            raw_payloads: self.raw_payloads.clone(),
        }
    }
}

/// The meanings of the evidence of some attempts.
pub open spec fn evidence_models(records: Seq<EvidenceAttemptRecord>) -> Seq<EvidenceModel> {
    Seq::new(records.len(), |i: int| records[i]@)
}

/// A copy of the evidence of some attempts.
pub fn clone_evidence(records: &Vec<EvidenceAttemptRecord>) -> (copy: Vec<EvidenceAttemptRecord>)
    ensures
        evidence_models(copy@) == evidence_models(records@),
{
    let mut copy: Vec<EvidenceAttemptRecord> = Vec::new();
    let mut i: usize = 0;
    while i < records.len()
        invariant
            i <= records.len(),
            copy.len() == i,
            forall|j: int| 0 <= j < i ==> (#[trigger] copy[j])@ == records[j]@,
        decreases records.len() - i,
    {
        copy.push(records[i].clone());
        i += 1;
    }
    assert(evidence_models(copy@) =~= evidence_models(records@));
    copy
}

// ---------------------------------------------------------------------------
// Detector features
// ---------------------------------------------------------------------------

/// Whether a key tells what a detector saw.
pub open spec fn is_feature(key: Seq<char>) -> bool {
    ||| has_prefix(key, "loop_"@)
    ||| key == "response_body_bytes"@
    ||| key == "delta_count"@
    ||| key == "content_delta_count"@
    ||| key == "reasoning_delta_count"@
    ||| key == "tool_call_delta_count"@
    ||| key == "finish_reason"@
    ||| key == "loop_failure_policy"@
    ||| key == "cot_salvage_used"@
    ||| key == "cot_salvage_policy"@
    ||| key == "cot_salvage_source_attempt_number"@
    ||| key == "cot_salvage_reasoning_prefix_bytes"@
    ||| key == "cot_salvage_thinking_budget_tokens"@
    ||| key == "shadow_compare_attempt"@
    ||| key == "shadow_paired_comparison"@
    ||| key == "variant_name"@
    ||| key == "shadow_terminal_status"@
}

fn is_feature_key(key: &str) -> (is: bool)
    ensures
        is == is_feature(key@),
{
    starts_with(key, "loop_") || same_text(key, "response_body_bytes") || same_text(
        key,
        "delta_count",
    ) || same_text(key, "content_delta_count") || same_text(key, "reasoning_delta_count")
        || same_text(key, "tool_call_delta_count") || same_text(key, "finish_reason") || same_text(
        key,
        "loop_failure_policy",
    ) || same_text(key, "cot_salvage_used") || same_text(key, "cot_salvage_policy") || same_text(
        key,
        "cot_salvage_source_attempt_number",
    ) || same_text(key, "cot_salvage_reasoning_prefix_bytes") || same_text(
        key,
        "cot_salvage_thinking_budget_tokens",
    ) || same_text(key, "shadow_compare_attempt") || same_text(key, "shadow_paired_comparison")
        || same_text(key, "variant_name") || same_text(key, "shadow_terminal_status")
}

/// What detectors saw, by the metadata of a response.
pub open spec fn features(metadata: Bindings) -> Bindings {
    metadata.filter_keys(|key: Seq<char>| is_feature(key))
}

/// What detectors saw, by the metadata of a response.
pub fn evidence_detector_features(metadata: &Metadata) -> (seen: Metadata)
    ensures
        seen@ == features(metadata@),
{
    let count: usize = metadata.len();
    let mut seen = Metadata::new();
    let mut i: usize = 0;
    assert(seen@ =~= features(bindings_of(metadata.listed().take(0))));
    while i < count
        invariant
            i <= count,
            count == metadata.listed().len(),
            seen@ == features(bindings_of(metadata.listed().take(i as int))),
        decreases count - i,
    {
        let ghost next = metadata.listed().take(i + 1);
        assert(next.drop_last() =~= metadata.listed().take(i as int));
        if is_feature_key(metadata.key_at(i).as_str()) {
            seen.set(metadata.key_at(i).as_str(), metadata.value_at(i).as_str());
        }
        i += 1;
        assert(seen@ =~= features(bindings_of(next)));
    }
    assert(metadata.listed().take(count as int) =~= metadata.listed());
    seen
}

// ---------------------------------------------------------------------------
// Evidence of recorded attempts
// ---------------------------------------------------------------------------

/// The part that an attempt played.
pub open spec fn role_of(attempt_number: u32) -> EvidenceAttemptRole {
    if attempt_number <= 1 {
        EvidenceAttemptRole::Primary
    } else {
        EvidenceAttemptRole::Fallback
    }
}

/// The part that an attempt played.
pub fn evidence_attempt_role(attempt: &AttemptRecord) -> (role: EvidenceAttemptRole)
    ensures
        role == role_of(attempt.attempt_number),
{
    if attempt.attempt_number <= 1 {
        EvidenceAttemptRole::Primary
    } else {
        EvidenceAttemptRole::Fallback
    }
}

/// Whether the client saw the answer of an attempt.
pub open spec fn was_shown(request_status: RequestStatus, attempt: AttemptRecordModel) -> bool {
    request_status == RequestStatus::Succeeded && attempt.status == AttemptStatus::Succeeded
        && attempt.retry_reason is None && attempt.abort_reason is None
}

/// Whether the client saw the answer of an attempt.
pub fn attempt_shown_to_downstream(request: &RequestRecord, attempt: &AttemptRecord) -> (shown: bool)
    ensures
        shown == was_shown(request.status, attempt@),
{
    request.status == RequestStatus::Succeeded && attempt.status == AttemptStatus::Succeeded
        && attempt.retry_reason.is_none() && attempt.abort_reason.is_none()
}

/// What became of an attempt.
pub open spec fn evidence_status(status: AttemptStatus) -> EvidenceAttemptStatus {
    match status {
        AttemptStatus::Succeeded => EvidenceAttemptStatus::Accepted,
        AttemptStatus::Retried => EvidenceAttemptStatus::Rejected,
        AttemptStatus::Failed => EvidenceAttemptStatus::Failed,
        AttemptStatus::Aborted => EvidenceAttemptStatus::Aborted,
    }
}

/// What became of an attempt.
pub fn evidence_attempt_status(attempt: &AttemptRecord) -> (status: EvidenceAttemptStatus)
    ensures
        status == evidence_status(attempt.status),
{
    match attempt.status {
        AttemptStatus::Succeeded => EvidenceAttemptStatus::Accepted,
        AttemptStatus::Retried => EvidenceAttemptStatus::Rejected,
        AttemptStatus::Failed => EvidenceAttemptStatus::Failed,
        AttemptStatus::Aborted => EvidenceAttemptStatus::Aborted,
    }
}

/// What the request or else the response of an attempt says under a key.
pub open spec fn stated_by_either(attempt: AttemptRecordModel, key: Seq<char>) -> Option<Seq<char>> {
    match stated_value(attempt.request_metadata, key) {
        Some(value) => Some(value),
        None => stated_value(attempt.response_metadata, key),
    }
}

/// The number that the request or else the response of an attempt gives under a
/// key.
pub open spec fn number_by_either(attempt: AttemptRecordModel, key: Seq<char>) -> Option<int> {
    match stated_u32(attempt.request_metadata, key) {
        Some(value) => Some(value),
        None => stated_u32(attempt.response_metadata, key),
    }
}

fn value_of_either(attempt: &AttemptRecord, key: &str) -> (value: Option<String>)
    ensures
        opt_chars(value) == stated_by_either(attempt@, key@),
{
    match metadata_value(&attempt.request_metadata, key) {
        Some(value) => Some(value),
        None => metadata_value(&attempt.response_metadata, key),
    }
}

fn number_of_either(attempt: &AttemptRecord, key: &str) -> (value: Option<u32>)
    ensures
        opt_int(value) == number_by_either(attempt@, key@),
{
    match metadata_u32(&attempt.request_metadata, key) {
        Some(value) => Some(value),
        None => metadata_u32(&attempt.response_metadata, key),
    }
}

/// An optional number without a range.
pub open spec fn opt_int(value: Option<u32>) -> Option<int> {
    match value {
        Some(value) => Some(value as int),
        None => None,
    }
}

/// Whether `evidence` is the evidence of a recorded attempt.
pub open spec fn is_evidence_of(
    group_id: Seq<char>,
    request: RequestRecordModel,
    attempt: AttemptRecordModel,
    evidence: EvidenceModel,
) -> bool {
    &&& evidence.attempt_id == attempt.attempt_id
    &&& evidence.group_id == group_id
    &&& evidence.request_id == request.request_id
    &&& evidence.attempt_number == attempt.attempt_number
    &&& evidence.role == role_of(attempt.attempt_number)
    &&& evidence.shown_to_downstream == was_shown(request.status, attempt)
    &&& evidence.started_at_unix_ms == attempt.started_at_unix_ms
    &&& evidence.finished_at_unix_ms == attempt.finished_at_unix_ms
    &&& evidence.upstream_profile == stated_by_either(attempt, "upstream_profile"@)
    &&& evidence.model_id == request.model_id
    &&& evidence.thinking_mode == stated_by_either(attempt, "attempt_thinking_mode"@)
    &&& opt_int(evidence.thinking_budget_tokens) == number_by_either(
        attempt,
        "attempt_thinking_budget_tokens"@,
    )
    &&& opt_int(evidence.thinking_max_tokens) == number_by_either(
        attempt,
        "attempt_thinking_max_tokens"@,
    )
    &&& evidence.detector_features == features(attempt.response_metadata)
    &&& evidence.status == evidence_status(attempt.status)
    &&& evidence.http_status == attempt.http_status
    &&& evidence.error_reason == attempt.error_reason
    &&& evidence.retry_reason == attempt.retry_reason
    &&& evidence.abort_reason == attempt.abort_reason
    &&& evidence.shadow_skip_reason is None
    &&& evidence.request_metadata == attempt.request_metadata
    &&& evidence.response_metadata == attempt.response_metadata
    &&& evidence.raw_payloads == attempt.raw_payloads
}

/// The evidence of a recorded attempt.
pub fn evidence_attempt_from_observability(
    group_id: &str,
    request: &RequestRecord,
    attempt: &AttemptRecord,
) -> (evidence: EvidenceAttemptRecord)
    ensures
        is_evidence_of(group_id@, request@, attempt@, evidence@),
{
    EvidenceAttemptRecord {
        attempt_id: attempt.attempt_id.clone(),
        group_id: group_id.to_owned(),
        request_id: request.request_id.clone(),
        attempt_number: attempt.attempt_number,
        role: evidence_attempt_role(attempt),
        shown_to_downstream: attempt_shown_to_downstream(request, attempt),
        started_at_unix_ms: attempt.started_at_unix_ms,
        finished_at_unix_ms: attempt.finished_at_unix_ms,
        upstream_profile: value_of_either(attempt, "upstream_profile"),
        model_id: clone_opt(&request.model_id),
        thinking_mode: value_of_either(attempt, "attempt_thinking_mode"),
        thinking_budget_tokens: number_of_either(attempt, "attempt_thinking_budget_tokens"),
        thinking_max_tokens: number_of_either(attempt, "attempt_thinking_max_tokens"),
        detector_features: evidence_detector_features(&attempt.response_metadata),
        status: evidence_attempt_status(attempt),
        http_status: attempt.http_status,
        error_reason: clone_opt(&attempt.error_reason),
        retry_reason: clone_opt(&attempt.retry_reason),
        abort_reason: clone_opt(&attempt.abort_reason),
        shadow_skip_reason: None,
        request_metadata: attempt.request_metadata.clone(),
        response_metadata: attempt.response_metadata.clone(),
        raw_payloads: attempt.raw_payloads.clone(),
    }
}

/// Evidence never says that the client saw an attempt that was not accepted.
pub proof fn only_accepted_attempts_are_shown(
    group_id: Seq<char>,
    request: RequestRecordModel,
    attempt: AttemptRecordModel,
    evidence: EvidenceModel,
)
    requires
        is_evidence_of(group_id, request, attempt, evidence),
        evidence.shown_to_downstream,
    ensures
        evidence.status == EvidenceAttemptStatus::Accepted,
        request.status == RequestStatus::Succeeded,
{
}

// ---------------------------------------------------------------------------
// The evidence of a request
// ---------------------------------------------------------------------------

/// What the evidence of a request says of the request.
pub struct EvidenceGroupRecord {
    pub group_id: String,
    pub request_id: String,
    pub started_at_unix_ms: u64,
    pub finished_at_unix_ms: Option<u64>,
    pub model_id: Option<String>,
    pub status: String,
    pub request_metadata: Metadata,
    pub response_metadata: Metadata,
}

/// The meaning of what the evidence of a request says of the request.
#[verifier::ext_equal]
pub struct EvidenceGroupModel {
    pub group_id: Seq<char>,
    pub request_id: Seq<char>,
    pub started_at_unix_ms: u64,
    pub finished_at_unix_ms: Option<u64>,
    pub model_id: Option<Seq<char>>,
    pub status: Seq<char>,
    pub request_metadata: Bindings,
    pub response_metadata: Bindings,
}

impl View for EvidenceGroupRecord {
    type V = EvidenceGroupModel;

    open spec fn view(&self) -> EvidenceGroupModel {
        EvidenceGroupModel {
            group_id: self.group_id@,
            request_id: self.request_id@,
            started_at_unix_ms: self.started_at_unix_ms,
            finished_at_unix_ms: self.finished_at_unix_ms,
            model_id: opt_chars(self.model_id),
            status: self.status@,
            request_metadata: self.request_metadata@,
            response_metadata: self.response_metadata@,
        }
    }
}

/// What the evidence of a recorded request says of it. The request names the group.
pub open spec fn evidence_group(request: RequestRecordModel) -> EvidenceGroupModel {
    EvidenceGroupModel {
        group_id: request.request_id,
        request_id: request.request_id,
        started_at_unix_ms: request.started_at_unix_ms,
        finished_at_unix_ms: request.finished_at_unix_ms,
        model_id: request.model_id,
        status: request.status.label(),
        request_metadata: request.request_metadata,
        response_metadata: request.response_metadata,
    }
}

/// Whether `evidence` is the evidence of the attempts of a request, in their order,
/// followed by that of its shadow attempts.
pub open spec fn is_evidence_of_all(
    request: RequestRecordModel,
    attempts: Seq<AttemptRecordModel>,
    shadows: Seq<EvidenceModel>,
    evidence: Seq<EvidenceModel>,
) -> bool {
    &&& evidence.len() == attempts.len() + shadows.len()
    &&& forall|i: int|
        0 <= i < attempts.len() ==> is_evidence_of(
            request.request_id,
            request,
            attempts[i],
            #[trigger] evidence[i],
        )
    &&& evidence.skip(attempts.len() as int) == shadows
}

/// The evidence of a recorded request, where evidence is collected.
pub fn record_evidence_many(
    enabled: bool,
    request: &RequestRecord,
    attempts: &Vec<AttemptRecord>,
    shadows: &Vec<EvidenceAttemptRecord>,
) -> (evidence: Option<(EvidenceGroupRecord, Vec<EvidenceAttemptRecord>)>)
    ensures
        match evidence {
            Some((group, records)) => {
                &&& enabled
                &&& group@ == evidence_group(request@)
                &&& is_evidence_of_all(
                    request@,
                    record_models(attempts@),
                    evidence_models(shadows@),
                    evidence_models(records@),
                )
            },
            None => !enabled,
        },
{
    if !enabled {
        return None;
    }
    let group = EvidenceGroupRecord {
        group_id: request.request_id.clone(),
        request_id: request.request_id.clone(),
        started_at_unix_ms: request.started_at_unix_ms,
        finished_at_unix_ms: request.finished_at_unix_ms,
        model_id: clone_opt(&request.model_id),
        status: request.status.as_str().to_owned(),
        request_metadata: request.request_metadata.clone(),
        response_metadata: request.response_metadata.clone(),
    };
    let mut records: Vec<EvidenceAttemptRecord> = Vec::new();
    let mut i: usize = 0;
    while i < attempts.len()
        invariant
            i <= attempts.len(),
            records.len() == i,
            forall|j: int|
                0 <= j < i ==> is_evidence_of(
                    request.request_id@,
                    request@,
                    attempts[j]@,
                    (#[trigger] records[j])@,
                ),
        decreases attempts.len() - i,
    {
        records.push(
            evidence_attempt_from_observability(
                request.request_id.as_str(),
                request,
                &attempts[i],
            ),
        );
        i += 1;
    }
    let ghost own = records@;
    let mut copies = clone_evidence(shadows);
    let ghost copied = copies@;
    records.append(&mut copies);
    assert(evidence_models(copied).len() == evidence_models(shadows@).len());
    assert(records@ =~= own + copied);
    assert(evidence_models(records@).skip(attempts.len() as int) =~= evidence_models(shadows@)) by {
        assert forall|j: int| 0 <= j < shadows.len() implies evidence_models(records@)[attempts.len()
            + j] == evidence_models(shadows@)[j] by {
            assert(evidence_models(copied)[j] == evidence_models(shadows@)[j]);
            assert(records@[attempts.len() + j] == copied[j]);
        }
    }
    assert forall|j: int| 0 <= j < attempts.len() implies is_evidence_of(
        request.request_id@,
        request@,
        record_models(attempts@)[j],
        #[trigger] evidence_models(records@)[j],
    ) by {
        assert(records@[j] == own[j]);
    }
    Some((group, records))
}

/// No attempt of a request is left out of its evidence, and shadow attempts that
/// were not shown do not make any other attempt shown.
pub proof fn evidence_is_complete(
    request: RequestRecordModel,
    attempts: Seq<AttemptRecordModel>,
    shadows: Seq<EvidenceModel>,
    evidence: Seq<EvidenceModel>,
)
    requires
        is_evidence_of_all(request, attempts, shadows, evidence),
        forall|i: int| 0 <= i < shadows.len() ==> !(#[trigger] shadows[i]).shown_to_downstream,
    ensures
        forall|i: int|
            0 <= i < attempts.len() ==> (#[trigger] evidence[i]).attempt_id
                == attempts[i].attempt_id,
        forall|i: int|
            0 <= i < evidence.len() && (#[trigger] evidence[i]).shown_to_downstream ==> i
                < attempts.len() && was_shown(request.status, attempts[i]),
{
    assert forall|i: int|
        0 <= i < evidence.len() && (#[trigger] evidence[i]).shown_to_downstream implies i
        < attempts.len() && was_shown(request.status, attempts[i]) by {
        if i >= attempts.len() {
            assert(evidence.skip(attempts.len() as int)[i - attempts.len()] == evidence[i]);
            assert(shadows[i - attempts.len()] == evidence[i]);
        }
    }
}

/// What the detectors saw of an attempt is everything on loops, the sizes and counts of
/// the answer, and what was salvaged and compared; nothing else is taken, and nothing
/// of it is changed.
pub proof fn features_are_what_detectors_saw(metadata: Bindings, key: Seq<char>, rest: Seq<char>)
    ensures
        is_feature("loop_"@ + rest),
        is_feature("response_body_bytes"@),
        is_feature("delta_count"@),
        is_feature("content_delta_count"@),
        is_feature("reasoning_delta_count"@),
        is_feature("tool_call_delta_count"@),
        is_feature("finish_reason"@),
        is_feature("loop_failure_policy"@),
        is_feature("cot_salvage_used"@),
        is_feature("cot_salvage_policy"@),
        is_feature("cot_salvage_source_attempt_number"@),
        is_feature("cot_salvage_reasoning_prefix_bytes"@),
        is_feature("cot_salvage_thinking_budget_tokens"@),
        is_feature("shadow_compare_attempt"@),
        is_feature("shadow_paired_comparison"@),
        is_feature("variant_name"@),
        is_feature("shadow_terminal_status"@),
        features(metadata).contains_key(key) <==> metadata.contains_key(key) && is_feature(key),
        features(metadata).contains_key(key) ==> features(metadata)[key] == metadata[key],
{
    assert(("loop_"@ + rest).take("loop_"@.len() as int) =~= "loop_"@);
}

/// The first attempt of a request is its primary one, and every later one a fallback;
/// an attempt that was retried counts as rejected.
pub proof fn attempts_have_their_role(attempt_number: u32)
    ensures
        role_of(1) is Primary,
        attempt_number >= 2 ==> role_of(attempt_number) is Fallback,
        evidence_status(AttemptStatus::Succeeded) is Accepted,
        evidence_status(AttemptStatus::Retried) is Rejected,
        evidence_status(AttemptStatus::Failed) is Failed,
        evidence_status(AttemptStatus::Aborted) is Aborted,
{
}

/// The evidence of an attempt is that of this attempt, of its request and of its
/// answer.
pub proof fn evidence_tells_of_its_attempt(
    group_id: Seq<char>,
    request: RequestRecordModel,
    attempt: AttemptRecordModel,
    evidence: EvidenceModel,
)
    requires
        is_evidence_of(group_id, request, attempt, evidence),
    ensures
        evidence.attempt_id == attempt.attempt_id,
        evidence.group_id == group_id,
        evidence.request_id == request.request_id,
        evidence.attempt_number == attempt.attempt_number,
        evidence.started_at_unix_ms == attempt.started_at_unix_ms,
        evidence.finished_at_unix_ms == attempt.finished_at_unix_ms,
        evidence.model_id == request.model_id,
        evidence.http_status == attempt.http_status,
        evidence.error_reason == attempt.error_reason,
        evidence.retry_reason == attempt.retry_reason,
        evidence.abort_reason == attempt.abort_reason,
        evidence.request_metadata == attempt.request_metadata,
        evidence.response_metadata == attempt.response_metadata,
        evidence.raw_payloads == attempt.raw_payloads,
        evidence.shown_to_downstream <==> request.status == RequestStatus::Succeeded
            && attempt.status == AttemptStatus::Succeeded && attempt.retry_reason is None
            && attempt.abort_reason is None,
        evidence.upstream_profile matches Some(profile) ==> profile != "unset"@ && profile
            != "unknown"@ && ((attempt.request_metadata.contains_key("upstream_profile"@)
            && attempt.request_metadata["upstream_profile"@] == profile) || (
        attempt.response_metadata.contains_key("upstream_profile"@)
            && attempt.response_metadata["upstream_profile"@] == profile)),
        attempt.request_metadata.contains_key("upstream_profile"@)
            && attempt.request_metadata["upstream_profile"@] != "unset"@
            && attempt.request_metadata["upstream_profile"@] != "unknown"@
            ==> evidence.upstream_profile == Some(attempt.request_metadata["upstream_profile"@]),
{
}

/// The group of a request tells of the request.
pub proof fn groups_tell_of_their_request(request: RequestRecordModel)
    ensures
        evidence_group(request).group_id == request.request_id,
        evidence_group(request).request_id == request.request_id,
        evidence_group(request).started_at_unix_ms == request.started_at_unix_ms,
        evidence_group(request).finished_at_unix_ms == request.finished_at_unix_ms,
        evidence_group(request).model_id == request.model_id,
        evidence_group(request).request_metadata == request.request_metadata,
        evidence_group(request).response_metadata == request.response_metadata,
{
}

/// The evidence of a request is that of its attempts, one each and in their order, and
/// then that of its shadows.
pub proof fn evidence_comes_in_order(
    request: RequestRecordModel,
    attempts: Seq<AttemptRecordModel>,
    shadows: Seq<EvidenceModel>,
    evidence: Seq<EvidenceModel>,
    i: int,
)
    requires
        is_evidence_of_all(request, attempts, shadows, evidence),
    ensures
        evidence.len() == attempts.len() + shadows.len(),
        0 <= i < attempts.len() ==> evidence[i].attempt_id == attempts[i].attempt_id
            && evidence[i].request_id == request.request_id && evidence[i].attempt_number
            == attempts[i].attempt_number,
        0 <= i < shadows.len() ==> evidence[attempts.len() + i] == shadows[i],
{
    if 0 <= i < attempts.len() {
        assert(is_evidence_of(request.request_id, request, attempts[i], evidence[i]));
    }
    if 0 <= i < shadows.len() {
        assert(evidence.skip(attempts.len() as int)[i] == shadows[i]);
    }
}

} // verus!
