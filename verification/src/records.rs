//! Records of requests and attempts.

use crate::metadata::{Bindings, Metadata};
use crate::text::{clone_opt, opt_chars};
use vstd::prelude::*;

verus! {

/// How an attempt ended.
#[derive(Clone, Copy, Debug, PartialEq, Eq, Structural)]
pub enum AttemptStatus {
    Succeeded,
    Failed,
    Retried,
    Aborted,
}

impl AttemptStatus {
    /// The label of a status.
    pub open spec fn label(self) -> Seq<char> {
        match self {
            AttemptStatus::Succeeded => "succeeded"@,
            AttemptStatus::Failed => "failed"@,
            AttemptStatus::Retried => "retried"@,
            AttemptStatus::Aborted => "aborted"@,
        }
    }

    /// The label of a status.
    pub fn as_str(self) -> (label: &'static str)
        ensures
            label@ == self.label(),
    {
        match self {
            AttemptStatus::Succeeded => "succeeded",
            AttemptStatus::Failed => "failed",
            AttemptStatus::Retried => "retried",
            AttemptStatus::Aborted => "aborted",
        }
    }
}

/// How a request ended.
#[derive(Clone, Copy, Debug, PartialEq, Eq, Structural)]
pub enum RequestStatus {
    Succeeded,
    Failed,
    Aborted,
}

impl RequestStatus {
    /// The label of a status.
    pub open spec fn label(self) -> Seq<char> {
        match self {
            RequestStatus::Succeeded => "succeeded"@,
            RequestStatus::Failed => "failed"@,
            RequestStatus::Aborted => "aborted"@,
        }
    }

    /// The label of a status.
    pub fn as_str(self) -> (label: &'static str)
        ensures
            label@ == self.label(),
    {
        match self {
            RequestStatus::Succeeded => "succeeded",
            RequestStatus::Failed => "failed",
            RequestStatus::Aborted => "aborted",
        }
    }
}

/// How the upstream answered.
#[derive(Clone, Copy, Debug, PartialEq, Eq, Structural)]
pub enum UpstreamMode {
    NotApplicable,
    NonStreamJson,
    Streaming,
}

/// How the client is answered.
#[derive(Clone, Copy, Debug, PartialEq, Eq, Structural)]
pub enum DownstreamMode {
    NonStreamJson,
    Streaming,
}

/// Token counts that an upstream reported.
#[derive(Clone, Copy, Debug, PartialEq, Eq, Structural)]
pub struct TokenUsage {
    pub input_tokens: Option<u64>,
    pub output_tokens: Option<u64>,
    pub cached_input_tokens: Option<u64>,
    pub reasoning_tokens: Option<u64>,
}

/// Unknown token counts.
pub open spec fn no_usage() -> TokenUsage {
    TokenUsage {
        input_tokens: None,
        output_tokens: None,
        cached_input_tokens: None,
        reasoning_tokens: None,
    }
}

impl Default for TokenUsage {
    fn default() -> (usage: TokenUsage)
        ensures
            usage == no_usage(),
    {
        TokenUsage {
            input_tokens: None,
            output_tokens: None,
            cached_input_tokens: None,
            reasoning_tokens: None,
        }
    }
}

/// The texts of an attempt, where they are kept.
pub struct RawPayloads {
    pub input: Option<String>,
    pub output: Option<String>,
    pub reasoning: Option<String>,
}

/// The meaning of the texts of an attempt.
#[verifier::ext_equal]
pub struct RawPayloadsModel {
    pub input: Option<Seq<char>>,
    pub output: Option<Seq<char>>,
    pub reasoning: Option<Seq<char>>,
}

/// No texts.
pub open spec fn no_payloads() -> RawPayloadsModel {
    RawPayloadsModel { input: None, output: None, reasoning: None }
}

/// The texts of an attempt, with the request text filled in where it is missing.
pub open spec fn with_input(payloads: RawPayloadsModel, input: Option<Seq<char>>) -> RawPayloadsModel {
    if payloads.input is None {
        RawPayloadsModel { input, ..payloads }
    } else {
        payloads
    }
}

impl View for RawPayloads {
    type V = RawPayloadsModel;

    open spec fn view(&self) -> RawPayloadsModel {
        RawPayloadsModel {
            input: opt_chars(self.input),
            output: opt_chars(self.output),
            reasoning: opt_chars(self.reasoning),
        }
    }
}

impl RawPayloads {
    /// No texts.
    pub fn none() -> (payloads: RawPayloads)
        ensures
            payloads@ == no_payloads(),
    {
        RawPayloads { input: None, output: None, reasoning: None }
    }

    /// The request text alone.
    pub fn of_input(input: Option<String>) -> (payloads: RawPayloads)
        ensures
            payloads@ == (RawPayloadsModel { input: opt_chars(input), ..no_payloads() }),
    {
        RawPayloads { input, output: None, reasoning: None }
    }

    /// Fills in the request text where it is missing.
    pub fn or_input(self, input: Option<String>) -> (payloads: RawPayloads)
        ensures
            payloads@ == with_input(self@, opt_chars(input)),
    {
        if self.input.is_none() {
            RawPayloads { input, output: self.output, reasoning: self.reasoning }
        } else {
            self
        }
    }
}

impl Clone for RawPayloads {
    fn clone(&self) -> (copy: RawPayloads)
        ensures
            copy@ == self@,
    {
        RawPayloads {
            input: clone_opt(&self.input),
            output: clone_opt(&self.output),
            reasoning: clone_opt(&self.reasoning),
        }
    }
}

/// One attempt at an upstream.
pub struct AttemptRecord {
    pub attempt_id: String,
    pub request_id: String,
    pub attempt_number: u32,
    pub started_at_unix_ms: u64,
    pub finished_at_unix_ms: Option<u64>,
    pub upstream_mode: UpstreamMode,
    pub status: AttemptStatus,
    pub http_status: Option<u16>,
    pub error_reason: Option<String>,
    pub retry_reason: Option<String>,
    pub abort_reason: Option<String>,
    pub token_usage: TokenUsage,
    pub request_metadata: Metadata,
    pub response_metadata: Metadata,
    pub raw_payloads: RawPayloads,
}

/// The meaning of an attempt record.
#[verifier::ext_equal]
pub struct AttemptRecordModel {
    pub attempt_id: Seq<char>,
    pub request_id: Seq<char>,
    pub attempt_number: u32,
    pub started_at_unix_ms: u64,
    pub finished_at_unix_ms: Option<u64>,
    pub upstream_mode: UpstreamMode,
    pub status: AttemptStatus,
    pub http_status: Option<u16>,
    pub error_reason: Option<Seq<char>>,
    pub retry_reason: Option<Seq<char>>,
    pub abort_reason: Option<Seq<char>>,
    pub token_usage: TokenUsage,
    pub request_metadata: Bindings,
    pub response_metadata: Bindings,
    pub raw_payloads: RawPayloadsModel,
}

impl View for AttemptRecord {
    type V = AttemptRecordModel;

    open spec fn view(&self) -> AttemptRecordModel {
        AttemptRecordModel {
            attempt_id: self.attempt_id@,
            request_id: self.request_id@,
            attempt_number: self.attempt_number,
            started_at_unix_ms: self.started_at_unix_ms,
            finished_at_unix_ms: self.finished_at_unix_ms,
            upstream_mode: self.upstream_mode,
            status: self.status,
            http_status: self.http_status,
            error_reason: opt_chars(self.error_reason),
            retry_reason: opt_chars(self.retry_reason),
            abort_reason: opt_chars(self.abort_reason),
            token_usage: self.token_usage,
            request_metadata: self.request_metadata@,
            response_metadata: self.response_metadata@,
            raw_payloads: self.raw_payloads@,
        }
    }
}

impl Clone for AttemptRecord {
    fn clone(&self) -> (copy: AttemptRecord)
        ensures
            copy@ == self@,
    {
        AttemptRecord {
            attempt_id: self.attempt_id.clone(),
            request_id: self.request_id.clone(),
            attempt_number: self.attempt_number,
            started_at_unix_ms: self.started_at_unix_ms,
            finished_at_unix_ms: self.finished_at_unix_ms,
            upstream_mode: self.upstream_mode,
            status: self.status,
            http_status: self.http_status,
            error_reason: clone_opt(&self.error_reason),
            retry_reason: clone_opt(&self.retry_reason),
            abort_reason: clone_opt(&self.abort_reason),
            token_usage: self.token_usage,
            request_metadata: self.request_metadata.clone(),
            response_metadata: self.response_metadata.clone(),
            raw_payloads: self.raw_payloads.clone(),
        }
    }
}

/// The meanings of a list of attempt records.
pub open spec fn record_models(records: Seq<AttemptRecord>) -> Seq<AttemptRecordModel> {
    Seq::new(records.len(), |i: int| records[i]@)
}

/// A copy of a list of attempt records.
pub fn clone_records(records: &Vec<AttemptRecord>) -> (copy: Vec<AttemptRecord>)
    ensures
        record_models(copy@) == record_models(records@),
{
    let mut copy: Vec<AttemptRecord> = Vec::new();
    let mut i: usize = 0;
    while i < records.len()
        invariant
            i <= records.len(),
            copy.len() == i,
            forall|j: int| 0 <= j < i ==> (#[trigger] copy[j])@ == records[j]@,
        decreases records.len() - i,
    {
        copy.push(records[i].clone());
        i += 1;
    }
    assert(record_models(copy@) =~= record_models(records@));
    copy
}

/// Adds a record at the end of a list.
pub fn push_record(records: &mut Vec<AttemptRecord>, record: AttemptRecord)
    ensures
        record_models(final(records)@) == record_models(old(records)@).push(record@),
{
    let ghost before = records@;
    records.push(record);
    assert(record_models(records@) =~= record_models(before).push(record@));
}

/// Moves the records of `other` to the end of a list.
pub fn append_records(records: &mut Vec<AttemptRecord>, other: Vec<AttemptRecord>)
    ensures
        record_models(final(records)@) == record_models(old(records)@) + record_models(other@),
{
    let ghost before = records@;
    let ghost added = other@;
    let mut other = other;
    records.append(&mut other);
    assert(record_models(records@) =~= record_models(before) + record_models(added));
}

/// The input of a request is kept with its payloads, where they have none of their own.
pub proof fn inputs_are_kept(payloads: RawPayloadsModel, input: Option<Seq<char>>)
    ensures
        payloads.input is None ==> with_input(payloads, input).input == input,
        payloads.input is Some ==> with_input(payloads, input) == payloads,
        with_input(payloads, input).output == payloads.output,
        with_input(payloads, input).reasoning == payloads.reasoning,
{
}

/// Without usage no tokens are known, and without payloads nothing is kept.
pub proof fn nothing_is_known_of_nothing()
    ensures
        no_usage().input_tokens is None && no_usage().output_tokens is None
            && no_usage().cached_input_tokens is None && no_usage().reasoning_tokens is None,
        no_payloads().input is None && no_payloads().output is None && no_payloads().reasoning
            is None,
{
}

/// Each end of an attempt has a name of its own.
pub proof fn ends_of_attempts_have_their_names(status: AttemptStatus)
    ensures
        status is Succeeded ==> status.label() == "succeeded"@,
        status is Failed ==> status.label() == "failed"@,
        status is Retried ==> status.label() == "retried"@,
        status is Aborted ==> status.label() == "aborted"@,
{
}

/// Each end of a request has a name of its own.
pub proof fn ends_of_requests_have_their_names(status: RequestStatus)
    ensures
        status is Succeeded ==> status.label() == "succeeded"@,
        status is Failed ==> status.label() == "failed"@,
        status is Aborted ==> status.label() == "aborted"@,
{
}

} // verus!
