//! Requests that are forwarded as they are, and lists of models, which are put
//! together from several upstreams.

use crate::adapters::{
    length_bindings, sanitize_transformed_request_headers, tells, transformed_headers,
    BufferedResponseAdapter, Refusal,
};
use crate::bodies::BodyCompletion;
use crate::errors::{bare_error, with_attempt, with_earlier_attempts, ErrorKind, ProxyError};
use crate::failover::{SentUpstreamResponse, UpstreamEndpointProtocol};
use crate::forwarding::{
    is_models_request, should_buffer_models_response, EndpointSelectionError, MetadataConfig,
};
use crate::generic_recovery::next_number;
use crate::headers::{
    bytes_of, discovery_headers, model_discovery_request_headers, upstream_mode_from_headers,
    upstream_mode_of, with_header, HeaderModel, Headers,
};
use crate::liveness::{
    add_shielded_request_metadata, with_shielded_request, ShieldedLivenessSelection,
};
use crate::message_metadata::{attempt_request_bindings, attempt_request_metadata};
use crate::metadata::{with_key_of, Bindings, Metadata};
use crate::observations::{
    failed_attempt_record, failed_record, final_attempt_record, final_record,
    FailedAttemptRecordInput, FinalAttemptContext, ForwardedResponseParts,
};
use crate::profiles::{
    add_listener_metadata, add_upstream_profile_metadata, with_listener, with_upstream_profile,
    ListenerConfig, UpstreamProfileConfig,
};
use crate::records::{
    append_records, push_record, record_models, AttemptRecord, AttemptRecordModel, UpstreamMode,
};
use crate::text::{bool_chars, decimal, joined, opt_chars, same_text};
use crate::uri::RequestTarget;
use vstd::prelude::*;

verus! {

// ---------------------------------------------------------------------------
// Requests that are forwarded as they are
// ---------------------------------------------------------------------------

/// The bindings of a target with what a source says of the endpoint that was
/// selected.
pub open spec fn with_endpoint_selection(target: Bindings, source: Bindings) -> Bindings {
    with_key_of(
        with_key_of(
            with_key_of(
                with_key_of(target, source, "upstream_endpoint_priority"@),
                source,
                "upstream_failover_selected"@,
            ),
            source,
            "upstream_endpoint_protocol"@,
        ),
        source,
        "upstream_endpoint_selection"@,
    )
}

/// Copies what metadata says of the endpoint that was selected.
pub fn copy_endpoint_selection_metadata(source: &Metadata, target: &mut Metadata)
    ensures
        final(target)@ == with_endpoint_selection(old(target)@, source@),
{
    target.copy_key(source, "upstream_endpoint_priority");
    target.copy_key(source, "upstream_failover_selected");
    target.copy_key(source, "upstream_endpoint_protocol");
    target.copy_key(source, "upstream_endpoint_selection");
}

/// What an attempt at a request is recorded from.
pub struct GenericAttemptInput {
    pub method: String,
    pub uri: RequestTarget,
    /// The header fields that the client sent.
    pub downstream_headers: Headers,
    /// The header fields that were written for the endpoint, where they were.
    pub upstream_headers: Option<Headers>,
    pub transformed_request_headers: bool,
    pub has_response_adapter: bool,
    /// The path of the upstream URL.
    pub upstream_path: String,
    /// Whether the upstream URL has a query.
    pub upstream_query_present: bool,
    pub upstream_body_len: u64,
}

/// The header fields that are sent in place of those of the client.
pub open spec fn override_headers(input: GenericAttemptInput) -> Option<Seq<HeaderModel>> {
    match input.upstream_headers {
        Some(headers) => Some(headers@),
        None => if input.transformed_request_headers {
            Some(transformed_headers(input.downstream_headers@))
        } else {
            None
        },
    }
}

/// What is recorded of the request of an attempt.
pub open spec fn generic_attempt_bindings(input: GenericAttemptInput) -> Bindings {
    let headers = match override_headers(input) {
        Some(headers) => headers,
        None => input.downstream_headers@,
    };
    let base = attempt_request_bindings(input.method@, input.uri@, headers).insert(
        "upstream_request_body_bytes"@,
        decimal(input.upstream_body_len as nat),
    );
    if input.has_response_adapter {
        base.insert("path"@, input.upstream_path@).insert(
            "query_present"@,
            bool_chars(input.upstream_query_present),
        )
    } else {
        base
    }
}

/// The header fields that are sent in place of those of the client, and what is
/// recorded of the request of an attempt.
pub fn prepare_generic_attempt_request(input: &GenericAttemptInput) -> (prepared: (
    Option<Headers>,
    Metadata,
))
    ensures
        match prepared.0 {
            Some(headers) => override_headers(*input) == Some(headers@),
            None => override_headers(*input) is None,
        },
        prepared.1@ == generic_attempt_bindings(*input),
{
    let override_headers: Option<Headers> = match &input.upstream_headers {
        Some(headers) => Some(headers.clone()),
        None => if input.transformed_request_headers {
            Some(sanitize_transformed_request_headers(&input.downstream_headers))
        } else {
            None
        },
    };
    let mut metadata = match &override_headers {
        Some(headers) => attempt_request_metadata(input.method.as_str(), &input.uri, headers),
        None => attempt_request_metadata(
            input.method.as_str(),
            &input.uri,
            &input.downstream_headers,
        ),
    };
    metadata.set_number("upstream_request_body_bytes", input.upstream_body_len);
    if input.has_response_adapter {
        metadata.set("path", input.upstream_path.as_str());
        metadata.set_bool("query_present", input.upstream_query_present);
    }
    (override_headers, metadata)
}

/// What an attempt is recorded with besides its request.
pub struct AttemptSurroundings<'a> {
    pub listener: &'a ListenerConfig,
    pub profile: &'a UpstreamProfileConfig,
    pub route_reason: &'a str,
    pub thinking_policy_applied: bool,
    pub liveness: &'a ShieldedLivenessSelection,
    pub thinking_metadata: &'a Metadata,
}

/// The bindings of an attempt with what surrounds it.
pub open spec fn with_surroundings(bindings: Bindings, around: AttemptSurroundings<'_>) -> Bindings {
    with_shielded_request(
        with_upstream_profile(
            with_listener(bindings, *around.listener),
            *around.profile,
            around.route_reason@,
        ),
        false,
        around.thinking_policy_applied,
        *around.liveness,
        around.thinking_metadata@,
    )
}

fn add_surroundings(metadata: &mut Metadata, around: &AttemptSurroundings<'_>)
    ensures
        final(metadata)@ == with_surroundings(old(metadata)@, *around),
{
    add_listener_metadata(metadata, around.listener);
    add_upstream_profile_metadata(metadata, around.profile, around.route_reason);
    add_shielded_request_metadata(
        metadata,
        false,
        around.thinking_policy_applied,
        around.liveness,
        around.thinking_metadata,
    );
}

/// The header fields that are sent in place of those of the client, and all that is
/// recorded of the request of the first attempt.
pub fn first_generic_attempt(
    input: &GenericAttemptInput,
    around: &AttemptSurroundings<'_>,
    request_metadata: &Metadata,
) -> (prepared: (Option<Headers>, Metadata))
    ensures
        match prepared.0 {
            Some(headers) => override_headers(*input) == Some(headers@),
            None => override_headers(*input) is None,
        },
        prepared.1@ == with_endpoint_selection(
            with_surroundings(generic_attempt_bindings(*input), *around),
            request_metadata@,
        ),
{
    let (headers, metadata) = prepare_generic_attempt_request(input);
    let mut metadata = metadata;
    add_surroundings(&mut metadata, around);
    copy_endpoint_selection_metadata(request_metadata, &mut metadata);
    (headers, metadata)
}

/// What is recorded of a request once it was answered.
pub fn answered_request_metadata(request_metadata: &Metadata, did_failover: bool) -> (metadata:
    Metadata)
    ensures
        metadata@ == if did_failover {
            request_metadata@.insert("upstream_failover_selected"@, "true"@)
        } else {
            request_metadata@
        },
{
    let mut metadata = request_metadata.clone();
    if did_failover {
        metadata.set("upstream_failover_selected", "true");
    }
    metadata
}

/// The number of attempts that a count of endpoints allows: at least one.
pub open spec fn attempts_of(endpoints: nat) -> u32 {
    if endpoints == 0 {
        1
    } else if endpoints > u32::MAX {
        u32::MAX
    } else {
        endpoints as u32
    }
}

/// The number of attempts that a count of endpoints allows.
pub fn max_attempts_of(endpoints: usize) -> (attempts: u32)
    ensures
        attempts == attempts_of(endpoints as nat),
{
    if endpoints == 0 {
        1
    } else if endpoints > 0xffff_ffff {
        0xffff_ffff
    } else {
        endpoints as u32
    }
}

/// What a response to a request is told and recorded with: the request, the attempt
/// that brought it, and the attempts before.
pub fn generic_forwarded_response(
    sent: SentUpstreamResponse,
    request_id: String,
    started_at_unix_ms: u64,
    endpoints: usize,
    model_id: Option<String>,
    input_fingerprint: Option<String>,
    request_metadata: &Metadata,
) -> (parts: ForwardedResponseParts)
    ensures
        parts.request_id == request_id,
        parts.started_at_unix_ms == started_at_unix_ms,
        parts.attempt_id == sent.attempt_id,
        parts.attempt_number == sent.attempt_number,
        parts.attempt_max_attempts == attempts_of(endpoints as nat),
        parts.attempt_started_at_unix_ms == sent.attempt_started_at_unix_ms,
        parts.upstream_mode == upstream_mode_of(sent.response.headers@),
        parts.model_id == model_id,
        parts.input_fingerprint == input_fingerprint,
        parts.upstream_status == sent.response.status,
        parts.upstream_headers == sent.response.headers,
        parts.request_metadata@ == if sent.did_failover {
            request_metadata@.insert("upstream_failover_selected"@, "true"@)
        } else {
            request_metadata@
        },
        parts.attempt_request_metadata == sent.attempt_request_metadata,
        parts.completed_attempt_records == sent.completed_attempt_records,
{
    let upstream_mode = upstream_mode_from_headers(&sent.response.headers);
    ForwardedResponseParts {
        request_id,
        started_at_unix_ms,
        attempt_id: sent.attempt_id,
        attempt_number: sent.attempt_number,
        attempt_max_attempts: max_attempts_of(endpoints),
        attempt_started_at_unix_ms: sent.attempt_started_at_unix_ms,
        upstream_mode,
        model_id,
        input_fingerprint,
        upstream_status: sent.response.status,
        upstream_headers: sent.response.headers,
        request_metadata: answered_request_metadata(request_metadata, sent.did_failover),
        attempt_request_metadata: sent.attempt_request_metadata,
        completed_attempt_records: sent.completed_attempt_records,
    }
}

/// How a response goes to the client.
#[derive(Clone, Copy, Debug, PartialEq, Eq, Structural)]
pub enum ResponseDispatch {
    /// It was rewritten already.
    Rewritten,
    /// It is read whole and rewritten.
    Adapt(BufferedResponseAdapter),
    /// It is a list of models, which is read whole.
    BufferModels,
    /// It goes on as it comes.
    Stream,
}

/// Decides how a response goes to the client.
pub fn dispatch_response(
    is_rewritten: bool,
    adapter: Option<BufferedResponseAdapter>,
    method: &str,
    path: &str,
    metadata: MetadataConfig,
    listener_is_restricted: bool,
) -> (dispatch: ResponseDispatch)
    ensures
        dispatch == if is_rewritten {
            ResponseDispatch::Rewritten
        } else if adapter is Some {
            ResponseDispatch::Adapt(adapter->Some_0)
        } else if is_models_request(method@, path@) && (listener_is_restricted || (
        metadata.discovery_enabled && metadata.enrich_responses)) {
            ResponseDispatch::BufferModels
        } else {
            ResponseDispatch::Stream
        },
{
    if is_rewritten {
        return ResponseDispatch::Rewritten;
    }
    match adapter {
        Some(adapter) => ResponseDispatch::Adapt(adapter),
        None => {
            if should_buffer_models_response(method, path, metadata, listener_is_restricted) {
                ResponseDispatch::BufferModels
            } else {
                ResponseDispatch::Stream
            }
        },
    }
}

/// The header fields of a response that was rewritten for the client, and what is
/// recorded of its length.
pub fn rewritten_endpoint_response(upstream_body_bytes: u64) -> (response: (Headers, Metadata))
    ensures
        response.0@ == with_header(
            Seq::empty(),
            "content-type"@,
            bytes_of("application/json"@),
        ),
        response.1@ == length_bindings(upstream_body_bytes as nat),
{
    let mut headers = Headers::new();
    headers.set_text("content-type", "application/json");
    let mut metadata = Metadata::new();
    metadata.set_number("response_body_bytes", upstream_body_bytes);
    (headers, metadata)
}

/// The error of a response body that could not be read, with the record of its
/// attempt.
pub fn upstream_body_error_with_observability(
    error: ProxyError,
    request_metadata: Metadata,
    attempt_request_metadata: Metadata,
    attempt_id: String,
    attempt_number: u32,
    request_id: String,
    attempt_started_at_unix_ms: u64,
    finished_at_unix_ms: u64,
) -> (told: ProxyError)
    ensures
        exists|input: FailedAttemptRecordInput|
            {
                &&& input.attempt_id@ == attempt_id@
                &&& input.attempt_number == attempt_number
                &&& input.request_id@ == request_id@
                &&& input.started_at_unix_ms == attempt_started_at_unix_ms
                &&& input.finished_at_unix_ms == finished_at_unix_ms
                &&& input.error_type@ == error.kind.type_text()
                &&& input.error_reason@ == error.kind.message_text()
                &&& input.request_metadata@ == attempt_request_metadata@
                &&& input.extra_response_metadata@ == Bindings::empty()
                &&& told@ == with_attempt(
                    error@,
                    request_metadata@,
                    #[trigger] failed_record(input),
                )
            },
{
    let input = FailedAttemptRecordInput {
        attempt_id,
        attempt_number,
        request_id,
        started_at_unix_ms: attempt_started_at_unix_ms,
        finished_at_unix_ms,
        error_type: error.error_type(),
        error_reason: error.message(),
        request_metadata: attempt_request_metadata,
        extra_response_metadata: Metadata::new(),
    };
    let ghost told_of = input;
    let record = failed_attempt_record(input);
    assert(record@ == failed_record(told_of));
    error.with_observability(request_metadata, record)
}

// ---------------------------------------------------------------------------
// Lists of models
// ---------------------------------------------------------------------------

/// Whether a request is answered with the models of several profiles.
pub fn merges_models(method: &str, path: &str, profile_count: usize) -> (merges: bool)
    ensures
        merges == (is_models_request(method@, path@) && profile_count > 1),
{
    same_text(method, "GET") && same_text(path, "/v1/models") && profile_count > 1
}

/// The refusal of a list of models that no endpoint can give.
pub open spec fn models_refusal(profile: Seq<char>) -> Refusal {
    Refusal {
        message: "no OpenAI-compatible model discovery endpoint for profile "@ + profile,
        param: "path"@,
        code: "unsupported_models_endpoint"@,
    }
}

/// The error of a list of models that no endpoint was selected for.
pub fn models_selection_error(error: EndpointSelectionError) -> (told: ProxyError)
    ensures
        match error {
            EndpointSelectionError::Shutdown => told@ == bare_error(ErrorKind::Shutdown),
            EndpointSelectionError::Incompatible { profile } => tells(
                told,
                models_refusal(profile@),
            ),
            EndpointSelectionError::Unavailable { profile, waited_ms } => told@ == bare_error(
                ErrorKind::UpstreamUnavailable { profile, waited_ms },
            ),
        },
{
    match error {
        EndpointSelectionError::Shutdown => ProxyError::server_shutdown(),
        EndpointSelectionError::Incompatible { profile } => ProxyError::invalid_request(
            joined(
                "no OpenAI-compatible model discovery endpoint for profile ",
                profile.as_str(),
            ),
            "path",
            "unsupported_models_endpoint",
        ),
        EndpointSelectionError::Unavailable { profile, waited_ms } => {
            ProxyError::upstream_unavailable(profile, waited_ms)
        },
    }
}

/// What tells one source of models from another.
pub struct ModelsEndpoint {
    pub base_url: String,
    pub protocol: UpstreamEndpointProtocol,
    /// The name under which its credential is kept, where it has one.
    pub api_key_env: Option<String>,
}

/// The meaning of a source of models.
pub type ModelsEndpointModel = (Seq<char>, UpstreamEndpointProtocol, Option<Seq<char>>);

impl View for ModelsEndpoint {
    type V = ModelsEndpointModel;

    open spec fn view(&self) -> ModelsEndpointModel {
        (self.base_url@, self.protocol, opt_chars(self.api_key_env))
    }
}

/// Whether two sources of models are the same.
pub fn same_models_endpoint_identity(left: &ModelsEndpoint, right: &ModelsEndpoint) -> (same: bool)
    ensures
        same == (left@ == right@),
{
    let same_key = match (&left.api_key_env, &right.api_key_env) {
        (Some(a), Some(b)) => same_text(a.as_str(), b.as_str()),
        (None, None) => true,
        _ => false,
    };
    let same_protocol = match (left.protocol, right.protocol) {
        (UpstreamEndpointProtocol::OpenAi, UpstreamEndpointProtocol::OpenAi) => true,
        (
            UpstreamEndpointProtocol::DeepInfraQwen3Rerank,
            UpstreamEndpointProtocol::DeepInfraQwen3Rerank,
        ) => true,
        _ => false,
    };
    same_text(left.base_url.as_str(), right.base_url.as_str()) && same_protocol && same_key
}

/// The header fields of a list of models that was put together.
pub fn models_success_response_headers() -> (headers: Headers)
    ensures
        headers@ == with_header(Seq::empty(), "content-type"@, bytes_of("application/json"@)),
{
    let mut headers = Headers::new();
    headers.set_text("content-type", "application/json");
    headers
}

/// The header fields with which one source is asked for its models, and what is
/// recorded of the request.
pub fn models_attempt_request(
    method: &str,
    uri: &RequestTarget,
    downstream_headers: &Headers,
    around: &AttemptSurroundings<'_>,
    attempt_number: u32,
) -> (request: (Headers, Metadata))
    ensures
        request.0@ == discovery_headers(downstream_headers@),
        request.1@ == with_surroundings(
            attempt_request_bindings(method@, uri@, discovery_headers(downstream_headers@)).insert(
                "attempt_number"@,
                decimal(attempt_number as nat),
            ),
            *around,
        ),
{
    let headers = model_discovery_request_headers(downstream_headers);
    let mut metadata = attempt_request_metadata(method, uri, &headers);
    metadata.set_number("attempt_number", attempt_number as u64);
    add_surroundings(&mut metadata, around);
    (headers, metadata)
}

/// The models of one source.
pub struct CompletedModelsFetch {
    pub body: Vec<u8>,
    pub completed_attempt_records: Vec<AttemptRecord>,
    pub attempt_record: AttemptRecord,
    pub upstream_status: u16,
    pub upstream_headers: Headers,
    pub upstream_mode: UpstreamMode,
}

/// The larger of two numbers.
pub open spec fn larger_number(a: u32, b: u32) -> u32 {
    if a > b {
        a
    } else {
        b
    }
}

/// Records that the models of one source were read. `body_len` is the length of
/// what the source sent; `attempt` holds what the client may see of it.
pub fn record_models_fetch(
    attempt: FinalAttemptContext,
    request_id: &str,
    body_len: u64,
    finished_at_unix_ms: u64,
) -> (record: AttemptRecord)
    ensures
        exists|counted: FinalAttemptContext|
            {
                &&& counted == (FinalAttemptContext {
                    attempt_max_attempts: larger_number(
                        attempt.attempt_max_attempts,
                        attempt.attempt_number,
                    ),
                    ..attempt
                })
                &&& record@ == #[trigger] final_record(
                    counted,
                    request_id@,
                    finished_at_unix_ms,
                    body_len,
                    BodyCompletion::Succeeded,
                    Seq::empty(),
                )
            },
{
    let mut counted = attempt;
    if counted.attempt_number > counted.attempt_max_attempts {
        counted.attempt_max_attempts = counted.attempt_number;
    }
    let ghost told_of = counted;
    let nothing: Vec<u8> = Vec::new();
    let record = final_attempt_record(
        counted,
        request_id,
        finished_at_unix_ms,
        body_len,
        &BodyCompletion::Succeeded,
        &nothing,
    );
    assert(nothing@ =~= Seq::<u8>::empty());
    assert(record@ == final_record(
        told_of,
        request_id@,
        finished_at_unix_ms,
        body_len,
        BodyCompletion::Succeeded,
        Seq::empty(),
    ));
    record
}

/// What the first source answered.
pub struct FirstModels {
    pub status: u16,
    pub headers: Headers,
    pub mode: UpstreamMode,
}

/// Putting a list of models together: the sources that were asked, what they
/// gave, and the attempts.
pub struct ModelsRun {
    selected: Vec<ModelsEndpoint>,
    bodies: Vec<Vec<u8>>,
    attempt_records: Vec<AttemptRecord>,
    next_attempt_number: u32,
    first: Option<FirstModels>,
}

/// The meaning of putting a list of models together.
#[verifier::ext_equal]
pub struct ModelsRunModel {
    pub selected: Seq<ModelsEndpointModel>,
    pub bodies: Seq<Seq<u8>>,
    pub attempts: Seq<AttemptRecordModel>,
    pub next_attempt_number: u32,
    /// What the first source answered.
    pub first: Option<(u16, Seq<HeaderModel>, UpstreamMode)>,
}

/// The meaning of a list of sources.
pub open spec fn endpoint_models(endpoints: Seq<ModelsEndpoint>) -> Seq<ModelsEndpointModel> {
    Seq::new(endpoints.len(), |i: int| endpoints[i]@)
}

/// The meaning of a list of bodies.
pub open spec fn body_models(bodies: Seq<Vec<u8>>) -> Seq<Seq<u8>> {
    Seq::new(bodies.len(), |i: int| bodies[i]@)
}

/// The meaning of what the first source answered.
pub open spec fn first_model(first: Option<FirstModels>) -> Option<
    (u16, Seq<HeaderModel>, UpstreamMode),
> {
    match first {
        Some(first) => Some((first.status, first.headers@, first.mode)),
        None => None,
    }
}

impl View for ModelsRun {
    type V = ModelsRunModel;

    closed spec fn view(&self) -> ModelsRunModel {
        ModelsRunModel {
            selected: endpoint_models(self.selected@),
            bodies: body_models(self.bodies@),
            attempts: record_models(self.attempt_records@),
            next_attempt_number: self.next_attempt_number,
            first: first_model(self.first),
        }
    }
}

/// Nothing asked for yet.
pub open spec fn fresh_models_run() -> ModelsRunModel {
    ModelsRunModel {
        selected: Seq::empty(),
        bodies: Seq::empty(),
        attempts: Seq::empty(),
        next_attempt_number: 1,
        first: None,
    }
}

/// A run with the models of one more source.
pub open spec fn with_fetch(
    run: ModelsRunModel,
    endpoint: ModelsEndpointModel,
    fetch: CompletedModelsFetch,
) -> ModelsRunModel {
    ModelsRunModel {
        selected: run.selected.push(endpoint),
        bodies: run.bodies.push(fetch.body@),
        attempts: (run.attempts + record_models(fetch.completed_attempt_records@)).push(
            fetch.attempt_record@,
        ),
        next_attempt_number: next_number(fetch.attempt_record.attempt_number),
        first: match run.first {
            Some(first) => Some(first),
            None => Some(
                (fetch.upstream_status, fetch.upstream_headers@, fetch.upstream_mode),
            ),
        },
    }
}

/// What goes to the client where the models could not be put together.
pub open spec fn first_answer(run: ModelsRunModel) -> (u16, Seq<HeaderModel>, UpstreamMode) {
    match run.first {
        Some(first) => first,
        None => (200, Seq::empty(), UpstreamMode::NotApplicable),
    }
}

/// A list of models as it goes to the client.
pub struct MergedModels {
    pub status: u16,
    pub headers: Headers,
    pub mode: UpstreamMode,
    pub attempt_max_attempts: u32,
    pub attempt_records: Vec<AttemptRecord>,
}

impl ModelsRun {
    /// No source was asked twice, and each gave one body.
    pub closed spec fn wf(&self) -> bool {
        endpoint_models(self.selected@).no_duplicates() && self.selected.len() == self.bodies.len()
    }

    /// A run that has asked no source yet.
    pub fn new() -> (run: ModelsRun)
        ensures
            run.wf(),
            run@ == fresh_models_run(),
    {
        let run = ModelsRun {
            selected: Vec::new(),
            bodies: Vec::new(),
            attempt_records: Vec::new(),
            next_attempt_number: 1,
            first: None,
        };
        assert(run@ =~= fresh_models_run()) by {
            assert(run@.selected =~= Seq::<ModelsEndpointModel>::empty());
            assert(run@.bodies =~= Seq::<Seq<u8>>::empty());
            assert(run@.attempts =~= Seq::<AttemptRecordModel>::empty());
        }
        run
    }

    /// The number of the next attempt, if a source has not been asked yet.
    pub fn begin_fetch(&self, endpoint: &ModelsEndpoint) -> (attempt_number: Option<u32>)
        ensures
            attempt_number == if self@.selected.contains(endpoint@) {
                None
            } else {
                Some(self@.next_attempt_number)
            },
    {
        let mut i: usize = 0;
        while i < self.selected.len()
            invariant
                i <= self.selected.len(),
                forall|j: int| 0 <= j < i ==> #[trigger] self@.selected[j] != endpoint@,
            decreases self.selected.len() - i,
        {
            assert(self@.selected[i as int] == self.selected[i as int]@);
            if same_models_endpoint_identity(&self.selected[i], endpoint) {
                return None;
            }
            i += 1;
        }
        Some(self.next_attempt_number)
    }

    /// Takes the models of one more source.
    pub fn record_fetch(&mut self, endpoint: ModelsEndpoint, fetch: CompletedModelsFetch)
        requires
            old(self).wf(),
            !old(self)@.selected.contains(endpoint@),
        ensures
            final(self).wf(),
            final(self)@ == with_fetch(old(self)@, endpoint@, fetch),
    {
        let ghost before = self@;
        let ghost bodies = self.bodies@;
        let ghost selected = self.selected@;
        self.next_attempt_number = fetch.attempt_record.attempt_number.saturating_add(1);
        if self.first.is_none() {
            self.first = Some(
                FirstModels {
                    status: fetch.upstream_status,
                    headers: fetch.upstream_headers.clone(),
                    mode: fetch.upstream_mode,
                },
            );
        }
        self.bodies.push(fetch.body);
        append_records(&mut self.attempt_records, fetch.completed_attempt_records);
        push_record(&mut self.attempt_records, fetch.attempt_record);
        self.selected.push(endpoint);
        proof {
            assert(body_models(self.bodies@) =~= body_models(bodies).push(fetch.body@));
            let models = endpoint_models(selected);
            assert(endpoint_models(self.selected@) =~= models.push(endpoint@));
            assert forall|i: int, j: int|
                0 <= i < models.len() + 1 && 0 <= j < models.len() + 1 && i != j implies models.push(
                endpoint@,
            )[i] != models.push(endpoint@)[j] by {
                if i == models.len() {
                    assert(models.contains(models[j]));
                } else if j == models.len() {
                    assert(models.contains(models[i]));
                }
            }
        }
    }

    /// The bodies that the sources gave.
    pub fn bodies(&self) -> (bodies: &Vec<Vec<u8>>)
        ensures
            body_models(bodies@) == self@.bodies,
    {
        &self.bodies
    }

    /// Ends the run with an error, which tells of the attempts that were made.
    pub fn fail(self, error: ProxyError) -> (told: ProxyError)
        ensures
            told@ == with_earlier_attempts(error@, self@.attempts),
    {
        error.with_completed_attempt_records(self.attempt_records)
    }

    /// Ends the run. Where some source gave a list of models
    /// (`has_valid_model_list`), that is a success whatever the others answered;
    /// else what the first of them answered stands.
    pub fn finish(self, has_valid_model_list: bool) -> (merged: MergedModels)
        ensures
            (merged.status, merged.headers@, merged.mode) == if has_valid_model_list {
                (
                    200u16,
                    with_header(Seq::empty(), "content-type"@, bytes_of("application/json"@)),
                    UpstreamMode::NotApplicable,
                )
            } else {
                first_answer(self@)
            },
            merged.attempt_max_attempts == attempts_of(self@.selected.len()),
            record_models(merged.attempt_records@) == self@.attempts,
    {
        let attempt_max_attempts: u32 = max_attempts_of(self.selected.len());
        if has_valid_model_list {
            return MergedModels {
                status: 200,
                headers: models_success_response_headers(),
                mode: UpstreamMode::NotApplicable,
                attempt_max_attempts,
                attempt_records: self.attempt_records,
            };
        }
        match self.first {
            Some(first) => MergedModels {
                status: first.status,
                headers: first.headers,
                mode: first.mode,
                attempt_max_attempts,
                attempt_records: self.attempt_records,
            },
            None => MergedModels {
                status: 200,
                headers: Headers::new(),
                mode: UpstreamMode::NotApplicable,
                attempt_max_attempts,
                attempt_records: self.attempt_records,
            },
        }
    }
}

/// Asking one more source adds its attempts after all others, and no attempt is
/// lost.
pub proof fn models_attempts_are_kept(
    run: ModelsRunModel,
    endpoint: ModelsEndpointModel,
    fetch: CompletedModelsFetch,
)
    ensures
        ({
            let next = with_fetch(run, endpoint, fetch);
            &&& next.attempts.len() == run.attempts.len() + fetch.completed_attempt_records@.len()
                + 1
            &&& next.attempts.take(run.attempts.len() as int) =~= run.attempts
            &&& next.attempts.last() == fetch.attempt_record@
            &&& fetch.attempt_record.attempt_number < u32::MAX ==> next.next_attempt_number
                > fetch.attempt_record.attempt_number
        }),
{
}

/// A list of models never comes from a rewritten response.
pub fn models_rewritten_error() -> (error: ProxyError)
    ensures
        error.kind is UpstreamBody,
        error.kind.message_text() == "failed to read upstream response body within proxy limit: "@
            + "models request unexpectedly produced a rewritten endpoint response"@,
        error@ == bare_error(error.kind),
{
    ProxyError::upstream_body(
        "models request unexpectedly produced a rewritten endpoint response".to_owned(),
    )
}

/// Models are asked of each endpoint once, each time as the next attempt, and their
/// bodies are kept in the order of the endpoints; the first answer stays the first.
pub proof fn endpoints_are_asked_once(
    run: ModelsRunModel,
    endpoint: ModelsEndpointModel,
    fetch: CompletedModelsFetch,
)
    ensures
        ({
            let next = with_fetch(run, endpoint, fetch);
            &&& next.selected.last() == endpoint && next.selected.len() == run.selected.len() + 1
            &&& next.bodies.last() == fetch.body@ && next.bodies.len() == run.bodies.len() + 1
            &&& next.selected.drop_last() == run.selected && next.bodies.drop_last() == run.bodies
            &&& fetch.attempt_record.attempt_number < u32::MAX ==> next.next_attempt_number
                == fetch.attempt_record.attempt_number + 1
            &&& run.first is Some ==> next.first == run.first
            &&& run.first is None ==> first_answer(next) == (
                fetch.upstream_status,
                fetch.upstream_headers@,
                fetch.upstream_mode,
            )
        }),
        fresh_models_run().next_attempt_number == 1,
{
    let next = with_fetch(run, endpoint, fetch);
    assert(next.selected.drop_last() =~= run.selected);
    assert(next.bodies.drop_last() =~= run.bodies);
}

/// There is an attempt for each endpoint, and one where there is none.
pub proof fn endpoints_have_an_attempt_each(endpoints: nat)
    ensures
        1 <= endpoints <= u32::MAX ==> attempts_of(endpoints) == endpoints,
        attempts_of(0) == 1,
        attempts_of(endpoints) >= 1,
{
}

/// Which endpoint was chosen is told of the attempt as it was told of the request.
pub proof fn chosen_endpoints_are_told(target: Bindings, source: Bindings, key: Seq<char>)
    requires
        key == "upstream_endpoint_priority"@ || key == "upstream_failover_selected"@ || key
            == "upstream_endpoint_protocol"@ || key == "upstream_endpoint_selection"@,
    ensures
        source.contains_key(key) ==> with_endpoint_selection(target, source).contains_key(key)
            && with_endpoint_selection(target, source)[key] == source[key],
        !source.contains_key(key) && target.contains_key(key) ==> with_endpoint_selection(
            target,
            source,
        )[key] == target[key],
{
    reveal_strlit("upstream_endpoint_priority");
    reveal_strlit("upstream_failover_selected");
    reveal_strlit("upstream_endpoint_protocol");
    reveal_strlit("upstream_endpoint_selection");
    assert("upstream_endpoint_priority"@.len() == 26);
    assert("upstream_failover_selected"@.len() == 26);
    assert("upstream_endpoint_protocol"@.len() == 26);
    assert("upstream_endpoint_selection"@.len() == 27);
    assert("upstream_endpoint_priority"@[9] != "upstream_failover_selected"@[9]);
    assert("upstream_endpoint_protocol"@[9] != "upstream_failover_selected"@[9]);
    assert("upstream_endpoint_priority"@[20] != "upstream_endpoint_protocol"@[20]);
}

/// A rewritten request goes on with headers that suit it, and any other with its own.
pub proof fn rewritten_requests_have_their_headers(input: GenericAttemptInput)
    ensures
        input.upstream_headers matches Some(headers) ==> override_headers(input) == Some(headers@),
        input.upstream_headers is None && input.transformed_request_headers ==> override_headers(
            input,
        ) == Some(transformed_headers(input.downstream_headers@)),
        input.upstream_headers is None && !input.transformed_request_headers ==> override_headers(
            input,
        ) is None,
{
}

/// An attempt is recorded with what is sent: its path and its query where it was adapted,
/// and the length of its body.
pub proof fn generic_attempts_are_recorded(input: GenericAttemptInput)
    ensures
        ({
            let told = generic_attempt_bindings(input);
            &&& told["upstream_request_body_bytes"@] == decimal(input.upstream_body_len as nat)
            &&& input.has_response_adapter ==> told["path"@] == input.upstream_path@
                && told["query_present"@] == if input.upstream_query_present {
                "true"@
            } else {
                "false"@
            }
        }),
{
    reveal_strlit("upstream_request_body_bytes");
    reveal_strlit("path");
    reveal_strlit("query_present");
    assert("upstream_request_body_bytes"@.len() == 27);
    assert("path"@.len() == 4);
    assert("query_present"@.len() == 13);
}

/// A profile without a list of models is told by its name; the larger of two numbers is
/// the larger one.
pub proof fn missing_lists_are_told(profile: Seq<char>, a: u32, b: u32)
    ensures
        models_refusal(profile).param == "path"@,
        models_refusal(profile).code == "unsupported_models_endpoint"@,
        crate::text::has_part(models_refusal(profile).message, profile),
        larger_number(a, b) >= a,
        larger_number(a, b) >= b,
        larger_number(a, b) == a || larger_number(a, b) == b,
{
    let before = "no OpenAI-compatible model discovery endpoint for profile "@;
    assert(models_refusal(profile).message =~= before + profile + Seq::<char>::empty());
    crate::text::prefixes_and_parts_are_found(before, profile, Seq::empty());
}

} // verus!
