//! Workflows that guard requests and responses, or answer in place of a model.

use crate::admission::{after_try_acquire, InFlightLimiter};
use crate::deepinfra_rerank::{debug_text, write_debug};
use crate::errors::{bare_error, ErrorKind, ProxyError};
use crate::headers::{bytes_of, with_header, Headers};
use crate::json::{
    array_of, clone_items, items_field, models, parse_json, parsed_json, render_json,
    rendered_json, Json, JsonModel, JsonObject,
};
use crate::message_metadata::{elapsed, response_bindings, response_metadata};
use crate::metadata::{Bindings, Metadata};
use crate::observations::{RequestRecord, RequestRecordModel};
use crate::profiles::{model_name, normalized_model_id};
use crate::records::{
    no_payloads, DownstreamMode, RawPayloads, RequestStatus, UpstreamMode,
};
use crate::text::{chars_of, clone_bytes, decimal, decimal_text, joined, opt_str_chars, same_text};
use vstd::prelude::*;
use vstd::string::*;
use vstd::utf8::encode_utf8;

verus! {

/// Whether an error says that a guard blocked a request for the given reason.
pub open spec fn blocks(error: ProxyError, reason: Seq<char>) -> bool {
    &&& error.kind matches ErrorKind::GuardBlocked { reason: told } && told@ == reason
    &&& error@ == bare_error(error.kind)
}

// ---------------------------------------------------------------------------
// Running a workflow
// ---------------------------------------------------------------------------

/// Why a workflow did not run to its end.
pub enum WorkflowExecutionTaskError {
    AtCapacity { max_in_flight_executions: usize },
    WorkerFailed(String),
}

impl WorkflowExecutionTaskError {
    /// The message of the error.
    pub open spec fn text(self) -> Seq<char> {
        match self {
            WorkflowExecutionTaskError::AtCapacity {
                max_in_flight_executions,
            } => "workflow execution capacity exhausted (max_in_flight_executions="@ + decimal(
                max_in_flight_executions as nat,
            ) + ")"@,
            WorkflowExecutionTaskError::WorkerFailed(reason) => "workflow worker failed: "@
                + reason@,
        }
    }

    /// The message of the error.
    pub fn message(&self) -> (message: String)
        ensures
            message@ == self.text(),
    {
        match self {
            WorkflowExecutionTaskError::AtCapacity { max_in_flight_executions } => {
                let mut message =
                    "workflow execution capacity exhausted (max_in_flight_executions=".to_owned();
                message.append(decimal_text(*max_in_flight_executions as u64).as_str());
                message.append(")");
                message
            },
            WorkflowExecutionTaskError::WorkerFailed(reason) => joined(
                "workflow worker failed: ",
                reason.as_str(),
            ),
        }
    }
}

/// What a guard decided.
pub enum GuardOutcome {
    Allow,
    Skipped,
    Block { reason: String },
    Replace { messages: Vec<Json> },
}

/// Takes a place for the execution of a workflow, without waiting for one.
pub fn start_workflow_execution(
    limiter: &mut InFlightLimiter,
    max_in_flight_executions: usize,
) -> (started: Result<(), WorkflowExecutionTaskError>)
    ensures
        final(limiter)@ == after_try_acquire(old(limiter)@, max_in_flight_executions),
        started == if old(limiter)@.active < max_in_flight_executions {
            Ok::<(), WorkflowExecutionTaskError>(())
        } else {
            Err(WorkflowExecutionTaskError::AtCapacity { max_in_flight_executions })
        },
{
    if limiter.try_acquire(max_in_flight_executions) {
        Ok(())
    } else {
        Err(WorkflowExecutionTaskError::AtCapacity { max_in_flight_executions })
    }
}

/// What a guard decided after all: a guard that did not run to its end blocks
/// where it is to fail closed.
pub fn guard_outcome_after_workflow_task(
    result: Result<GuardOutcome, WorkflowExecutionTaskError>,
    fail_closed_blocks: bool,
) -> (outcome: GuardOutcome)
    ensures
        match result {
            Ok(decided) => outcome == decided,
            Err(error) => if fail_closed_blocks {
                outcome matches GuardOutcome::Block { reason } && reason@ == error.text()
            } else {
                outcome is Allow
            },
        },
{
    match result {
        Ok(decided) => decided,
        Err(error) => if fail_closed_blocks {
            GuardOutcome::Block { reason: error.message() }
        } else {
            GuardOutcome::Allow
        },
    }
}

// ---------------------------------------------------------------------------
// Guarding requests
// ---------------------------------------------------------------------------

/// Whether a request asks for a chat completion.
pub open spec fn is_chat_request(method: Seq<char>, path: Seq<char>) -> bool {
    method == "POST"@ && path == "/v1/chat/completions"@
}

/// Whether a request asks for a chat completion.
pub fn is_chat_completions_request(method: &str, path: &str) -> (is: bool)
    ensures
        is == is_chat_request(method@, path@),
{
    same_text(method, "POST") && same_text(path, "/v1/chat/completions")
}

/// The messages of a chat request.
pub open spec fn chat_messages(body: Seq<u8>) -> Option<Seq<JsonModel>> {
    match parsed_json(body) {
        Ok(value) => items_field(value, "messages"@),
        Err(_) => None,
    }
}

/// The messages of a chat request.
pub fn chat_messages_from_body(body: &[u8]) -> (messages: Option<Vec<Json>>)
    ensures
        match messages {
            Some(messages) => chat_messages(body@) == Some(models(messages@)),
            None => chat_messages(body@) is None,
        },
{
    match parse_json(body) {
        Ok(value) => match value.get_array("messages") {
            Some(items) => {
                let messages = clone_items(items);
                assert(chat_messages(body@) == Some(models(messages@)));
                Some(messages)
            },
            None => None,
        },
        Err(_) => None,
    }
}

/// The messages that a guard is asked about before a request is sent, if it is.
pub fn pre_request_guard_messages(method: &str, path: &str, configured: bool, body: &[u8]) -> (
    messages: Option<Vec<Json>>)
    ensures
        match messages {
            Some(messages) => is_chat_request(method@, path@) && configured && chat_messages(body@)
                == Some(models(messages@)),
            None => !is_chat_request(method@, path@) || !configured || chat_messages(body@) is None,
        },
{
    if !is_chat_completions_request(method, path) || !configured {
        return None;
    }
    chat_messages_from_body(body)
}

/// What a guard is told of a request, besides what it is asked about.
pub struct GuardCall {
    pub request_id: String,
    pub model: String,
    /// The profile of the caller.
    pub profile: String,
}

/// What a guard is told of a request. One that names no model is told of with an
/// empty name.
pub fn guard_call(request_id: &str, model: Option<&str>, profile: &str) -> (call: GuardCall)
    ensures
        call.request_id@ == request_id@,
        call.model@ == match model {
            Some(model) => model@,
            None => Seq::empty(),
        },
        call.profile@ == profile@,
{
    GuardCall {
        request_id: request_id.to_owned(),
        model: match model {
            Some(model) => model.to_owned(),
            None => String::new(),
        },
        profile: profile.to_owned(),
    }
}

/// What becomes of a chat request whose messages are replaced: the new body, or
/// why there is none.
pub open spec fn with_messages(body: Seq<u8>, messages: Seq<JsonModel>) -> Result<
    Seq<u8>,
    Seq<char>,
> {
    match parsed_json(body) {
        Err(error) => Err("guard could not parse request JSON: "@ + error),
        Ok(JsonModel::Object(fields)) => Ok(
            encode_utf8(
                rendered_json(
                    JsonModel::Object(fields.insert("messages"@, JsonModel::Array(messages))),
                ),
            ),
        ),
        Ok(_) => Err("guard could not rewrite a non-object request body"@),
    }
}

/// Replaces the messages of a chat request.
pub fn replace_chat_messages(body: &[u8], messages: &Vec<Json>) -> (replaced: Result<
    Vec<u8>,
    ProxyError,
>)
    ensures
        match with_messages(body@, models(messages@)) {
            Ok(bytes) => replaced is Ok && replaced->Ok_0@ == bytes,
            Err(reason) => replaced is Err && blocks(replaced->Err_0, reason),
        },
{
    let value = match parse_json(body) {
        Ok(value) => value,
        Err(error) => {
            return Err(
                ProxyError::guard_blocked(
                    joined("guard could not parse request JSON: ", error.as_str()),
                ),
            );
        },
    };
    match JsonObject::of(&value) {
        Some(object) => {
            let mut object = object;
            object.insert("messages", array_of(clone_items(messages)));
            Ok(render_json(&object.into_json()).as_str().as_bytes_vec())
        },
        None => Err(
            ProxyError::guard_blocked("guard could not rewrite a non-object request body".to_owned()),
        ),
    }
}

/// The bodies of a chat request, as the client sent it and as it is sent on.
pub struct GuardedBodies {
    pub downstream_body: Vec<u8>,
    pub upstream_body: Vec<u8>,
}

/// Takes a request on after its guard has decided.
pub fn apply_pre_request_guard(outcome: GuardOutcome, bodies: GuardedBodies) -> (guarded: Result<
    GuardedBodies,
    ProxyError,
>)
    ensures
        match outcome {
            GuardOutcome::Allow | GuardOutcome::Skipped => guarded is Ok && guarded->Ok_0 == bodies,
            GuardOutcome::Block { reason } => guarded is Err && blocks(guarded->Err_0, reason@),
            GuardOutcome::Replace { messages } => match (
                with_messages(bodies.downstream_body@, models(messages@)),
                with_messages(bodies.upstream_body@, models(messages@)),
            ) {
                (Ok(downstream), Ok(upstream)) => {
                    &&& guarded is Ok
                    &&& guarded->Ok_0.downstream_body@ == downstream
                    &&& guarded->Ok_0.upstream_body@ == upstream
                },
                (Err(reason), _) => guarded is Err && blocks(guarded->Err_0, reason),
                (Ok(_), Err(reason)) => guarded is Err && blocks(guarded->Err_0, reason),
            },
        },
{
    match outcome {
        GuardOutcome::Allow | GuardOutcome::Skipped => Ok(bodies),
        GuardOutcome::Block { reason } => Err(ProxyError::guard_blocked(reason)),
        GuardOutcome::Replace { messages } => {
            let downstream_body = match replace_chat_messages(
                bodies.downstream_body.as_slice(),
                &messages,
            ) {
                Ok(body) => body,
                Err(error) => {
                    return Err(error);
                },
            };
            let upstream_body = match replace_chat_messages(
                bodies.upstream_body.as_slice(),
                &messages,
            ) {
                Ok(body) => body,
                Err(error) => {
                    return Err(error);
                },
            };
            Ok(GuardedBodies { downstream_body, upstream_body })
        },
    }
}

// ---------------------------------------------------------------------------
// Guarding responses
// ---------------------------------------------------------------------------

/// What is said in place of a response that a guard blocked.
pub const REFUSAL: &'static str = "I can't help with that request.";

/// The first choice of a response: the first item of a list, or the member `0`.
pub open spec fn first_choice(response: JsonModel) -> Option<JsonModel> {
    match response.field("choices"@) {
        Some(JsonModel::Array(items)) => if items.len() > 0 {
            Some(items[0])
        } else {
            None
        },
        Some(choices) => choices.field("0"@),
        None => None,
    }
}

/// A response with another first choice.
pub open spec fn with_first_choice(response: JsonModel, choice: JsonModel) -> JsonModel {
    let choices = match response.field("choices"@) {
        Some(JsonModel::Array(items)) => JsonModel::Array(items.update(0, choice)),
        Some(JsonModel::Object(fields)) => JsonModel::Object(fields.insert("0"@, choice)),
        _ => JsonModel::Null,
    };
    JsonModel::Object(response->Object_0.insert("choices"@, choices))
}

/// A message that refuses in place of another.
pub open spec fn refusing_message(
    message: Map<Seq<char>, JsonModel>,
    reason: Seq<char>,
) -> JsonModel {
    JsonModel::Object(
        message.insert("content"@, JsonModel::Text(REFUSAL@)).insert(
            "refusal"@,
            JsonModel::Text(reason),
        ).remove("tool_calls"@),
    )
}

/// A choice that refuses in place of another.
pub open spec fn refusing_choice(
    choice: Map<Seq<char>, JsonModel>,
    message: Map<Seq<char>, JsonModel>,
    reason: Seq<char>,
) -> JsonModel {
    JsonModel::Object(
        choice.insert("message"@, refusing_message(message, reason)).insert(
            "finish_reason"@,
            JsonModel::Text("content_filter"@),
        ),
    )
}

/// A response that refuses, made of nothing.
pub open spec fn plain_refusal(reason: Seq<char>) -> JsonModel {
    let message = Map::<Seq<char>, JsonModel>::empty().insert(
        "role"@,
        JsonModel::Text("assistant"@),
    ).insert("content"@, JsonModel::Text(REFUSAL@)).insert("refusal"@, JsonModel::Text(reason));
    let choice = Map::<Seq<char>, JsonModel>::empty().insert("index"@, JsonModel::Unsigned(0)).insert(
        "message"@,
        JsonModel::Object(message),
    ).insert("finish_reason"@, JsonModel::Text("content_filter"@));
    JsonModel::Object(
        Map::<Seq<char>, JsonModel>::empty().insert(
            "id"@,
            JsonModel::Text("chatcmpl-guard-refusal"@),
        ).insert("object"@, JsonModel::Text("chat.completion"@)).insert(
            "choices"@,
            JsonModel::Array(seq![JsonModel::Object(choice)]),
        ),
    )
}

/// A response that refuses in place of another: its first message says so, and
/// calls no tools.
pub open spec fn refusal_of(original: JsonModel, reason: Seq<char>) -> JsonModel {
    match first_choice(original) {
        Some(JsonModel::Object(choice)) => match choice.contains_key("message"@) {
            true => match choice["message"@] {
                JsonModel::Object(message) => with_first_choice(
                    original,
                    refusing_choice(choice, message, reason),
                ),
                _ => plain_refusal(reason),
            },
            false => plain_refusal(reason),
        },
        _ => plain_refusal(reason),
    }
}

fn plain_refusal_json(reason: &str) -> (value: Json)
    ensures
        value@ == plain_refusal(reason@),
{
    let mut message = JsonObject::new();
    message.insert("role", Json::text("assistant"));
    message.insert("content", Json::text(REFUSAL));
    message.insert("refusal", Json::text(reason));
    let mut choice = JsonObject::new();
    choice.insert("index", Json::Unsigned(0));
    choice.insert("message", message.into_json());
    choice.insert("finish_reason", Json::text("content_filter"));
    let mut choices: Vec<Json> = Vec::new();
    choices.push(choice.into_json());
    let mut response = JsonObject::new();
    response.insert("id", Json::text("chatcmpl-guard-refusal"));
    response.insert("object", Json::text("chat.completion"));
    assert(models(choices@) =~= seq![choices@[0]@]);
    response.insert("choices", array_of(choices));
    response.into_json()
}

fn find_first_choice(response: &Json) -> (choice: Option<&Json>)
    ensures
        crate::json::opt_model(choice) == first_choice(response@),
{
    match response.get("choices") {
        Some(choices) => match choices {
            Json::Array(items) => {
                if items.len() > 0 {
                    Some(&items[0])
                } else {
                    None
                }
            },
            _ => choices.get("0"),
        },
        None => None,
    }
}

fn put_first_choice(response: &Json, choice: Json) -> (changed: Option<Json>)
    requires
        first_choice(response@) is Some,
    ensures
        changed is Some,
        changed->Some_0@ == with_first_choice(response@, choice@),
{
    let mut object = match JsonObject::of(response) {
        Some(object) => object,
        None => {
            return None;
        },
    };
    let choices = match response.get("choices") {
        Some(choices) => choices,
        None => {
            return None;
        },
    };
    let changed = match choices {
        Json::Array(items) => {
            let mut copies = clone_items(items);
            assert(choices@ == JsonModel::Array(models(items@))) by {
                assert(choices@->Array_0 =~= models(items@));
            }
            let ghost before = models(copies@);
            copies.set(0, choice);
            assert(models(copies@) =~= before.update(0, choice@));
            array_of(copies)
        },
        _ => match JsonObject::of(choices) {
            Some(members) => {
                let mut members = members;
                members.insert("0", choice);
                members.into_json()
            },
            None => {
                return None;
            },
        },
    };
    object.insert("choices", changed);
    Some(object.into_json())
}

/// A response that refuses in place of another.
pub fn refuse_in_place(original: &Json, reason: &str) -> (response: Json)
    ensures
        response@ == refusal_of(original@, reason@),
{
    let found = match find_first_choice(original) {
        Some(choice) => choice,
        None => {
            return plain_refusal_json(reason);
        },
    };
    let mut choice = match JsonObject::of(found) {
        Some(choice) => choice,
        None => {
            return plain_refusal_json(reason);
        },
    };
    let mut message = match found.get("message") {
        Some(message) => match JsonObject::of(message) {
            Some(message) => message,
            None => {
                return plain_refusal_json(reason);
            },
        },
        None => {
            return plain_refusal_json(reason);
        },
    };
    message.insert("content", Json::text(REFUSAL));
    message.insert("refusal", Json::text(reason));
    message.remove("tool_calls");
    choice.insert("message", message.into_json());
    choice.insert("finish_reason", Json::text("content_filter"));
    match put_first_choice(original, choice.into_json()) {
        Some(response) => response,
        None => plain_refusal_json(reason),
    }
}

/// The body of a response that refuses in place of another.
pub fn safe_refusal_response_body(original: &Json, reason: &str) -> (body: Vec<u8>)
    ensures
        body@ == encode_utf8(rendered_json(refusal_of(original@, reason@))),
{
    render_json(&refuse_in_place(original, reason)).as_str().as_bytes_vec()
}

/// What a refusal says: whatever the response was, its first message says the
/// refusal and holds no tool calls.
pub proof fn refusals_refuse(original: JsonModel, reason: Seq<char>)
    ensures
        ({
            let choice = first_choice(refusal_of(original, reason));
            &&& choice is Some
            &&& choice->Some_0 is Object
            &&& choice->Some_0.field("message"@) is Some
            &&& choice->Some_0.field("finish_reason"@) == Some(JsonModel::Text("content_filter"@))
            &&& choice->Some_0.field("message"@)->Some_0.field("content"@) == Some(
                JsonModel::Text(REFUSAL@),
            )
            &&& choice->Some_0.field("message"@)->Some_0.field("refusal"@) == Some(
                JsonModel::Text(reason),
            )
            &&& choice->Some_0.field("message"@)->Some_0.field("tool_calls"@) is None
        }),
{
    reveal_strlit("content");
    reveal_strlit("refusal");
    reveal_strlit("tool_calls");
    reveal_strlit("message");
    reveal_strlit("finish_reason");
    reveal_strlit("role");
    assert("content"@.len() != "tool_calls"@.len());
    assert("content"@[0] != "refusal"@[0]);
    assert("refusal"@.len() != "tool_calls"@.len());
    assert("message"@.len() != "finish_reason"@.len());
    assert("role"@.len() != "tool_calls"@.len());
    reveal_strlit("choices");
    reveal_strlit("id");
    reveal_strlit("object");
    reveal_strlit("index");
}

/// The frames of one response as an event stream.
pub open spec fn sse_frames(body: Seq<u8>) -> Seq<u8> {
    encode_utf8("data: "@) + body + encode_utf8("\n\ndata: [DONE]\n\n"@)
}

/// A response as an event stream of one event.
pub fn openai_data_sse_body(body: &Vec<u8>) -> (frame: Vec<u8>)
    ensures
        frame@ == sse_frames(body@),
{
    let mut frame = "data: ".as_bytes_vec();
    let mut copy = clone_bytes(body);
    frame.append(&mut copy);
    let mut end = "\n\ndata: [DONE]\n\n".as_bytes_vec();
    frame.append(&mut end);
    frame
}

/// A response in place of the one that the upstream gave.
pub struct ReplacedResponse {
    pub body: Vec<u8>,
    pub sse_body: Vec<u8>,
}

/// The body that a guard puts in place of a response, if it does.
pub open spec fn guarded_body(outcome: GuardOutcome, response: JsonModel) -> Option<Seq<u8>> {
    match outcome {
        GuardOutcome::Allow | GuardOutcome::Skipped => None,
        GuardOutcome::Block { reason } => Some(
            encode_utf8(rendered_json(refusal_of(response, reason@))),
        ),
        GuardOutcome::Replace { messages } => if messages.len() > 0 {
            Some(encode_utf8(rendered_json(messages[0]@)))
        } else {
            None
        },
    }
}

/// The response that the guard looks at: one that is JSON, where there is a guard.
pub fn response_to_guard(configured: bool, body: &Vec<u8>) -> (response: Option<Json>)
    ensures
        match response {
            Some(response) => configured && parsed_json(body@) == Ok::<JsonModel, Seq<char>>(
                response@,
            ),
            None => !configured || parsed_json(body@) is Err,
        },
{
    if !configured {
        return None;
    }
    match parse_json(body) {
        Ok(response) => Some(response),
        Err(_) => None,
    }
}

/// Takes a response on after its guard has decided. Where the guard puts another
/// in its place, that is noted.
pub fn apply_post_response_guard(
    outcome: GuardOutcome,
    response: &Json,
    response_metadata: &mut Metadata,
) -> (replaced: Option<ReplacedResponse>)
    ensures
        match guarded_body(outcome, response@) {
            None => replaced is None && final(response_metadata)@ == old(response_metadata)@,
            Some(body) => {
                &&& replaced is Some
                &&& replaced->Some_0.body@ == body
                &&& replaced->Some_0.sse_body@ == sse_frames(body)
                &&& final(response_metadata)@ == old(response_metadata)@.insert(
                    "guard_post_response_replaced"@,
                    "true"@,
                )
            },
        },
{
    let body = match outcome {
        GuardOutcome::Allow | GuardOutcome::Skipped => {
            return None;
        },
        GuardOutcome::Block { reason } => safe_refusal_response_body(response, reason.as_str()),
        GuardOutcome::Replace { messages } => {
            if messages.len() == 0 {
                return None;
            }
            render_json(&messages[0]).as_str().as_bytes_vec()
        },
    };
    response_metadata.set("guard_post_response_replaced", "true");
    let sse_body = openai_data_sse_body(&body);
    Some(ReplacedResponse { body, sse_body })
}

// ---------------------------------------------------------------------------
// Workflows in place of models
// ---------------------------------------------------------------------------

/// A workflow that a model name stands for.
pub struct ResolvedWorkflowAlias {
    pub workflow_id: String,
    pub timeout_ms: u64,
}

/// What a model name stands for.
pub enum ModelAlias {
    Workflow(ResolvedWorkflowAlias),
    Upstream,
}

/// Why a model name stands for nothing that can be used, if so.
pub open spec fn alias_refusal(
    model: Option<Seq<char>>,
    alias: Option<Result<ModelAlias, String>>,
) -> Option<Seq<char>> {
    match (model_name(model), alias) {
        (Some(_), Some(Err(reason))) => Some(reason@),
        _ => None,
    }
}

/// The workflow that a model name stands for.
pub open spec fn aliased_workflow(
    model: Option<Seq<char>>,
    alias: Option<Result<ModelAlias, String>>,
) -> Option<ResolvedWorkflowAlias> {
    match (model_name(model), alias) {
        (Some(_), Some(Ok(ModelAlias::Workflow(resolved)))) => Some(resolved),
        _ => None,
    }
}

/// The workflow that a model name stands for, if it does. `alias` is what the
/// configuration holds under the name.
pub fn workflow_alias_for_model(
    model: Option<&str>,
    alias: Option<Result<ModelAlias, String>>,
) -> (workflow: Result<Option<ResolvedWorkflowAlias>, ProxyError>)
    ensures
        match workflow {
            Ok(workflow) => {
                &&& alias_refusal(opt_str_chars(model), alias) is None
                &&& workflow == aliased_workflow(opt_str_chars(model), alias)
            },
            Err(error) => {
                &&& alias_refusal(opt_str_chars(model), alias) is Some
                &&& blocks(error, alias_refusal(opt_str_chars(model), alias)->Some_0)
            },
        },
{
    if normalized_model_id(model).is_none() {
        return Ok(None);
    }
    match alias {
        None => Ok(None),
        Some(Ok(ModelAlias::Workflow(resolved))) => Ok(Some(resolved)),
        Some(Ok(ModelAlias::Upstream)) => Ok(None),
        Some(Err(reason)) => Err(ProxyError::guard_blocked(reason)),
    }
}

/// The refusal of a request whose workflow is not configured.
pub fn unconfigured_workflow(workflow_id: &str) -> (error: ProxyError)
    ensures
        blocks(
            error,
            "workflow alias references unconfigured workflow "@ + debug_text(workflow_id@),
        ),
{
    ProxyError::guard_blocked(
        joined(
            "workflow alias references unconfigured workflow ",
            write_debug(workflow_id).as_str(),
        ),
    )
}

/// What a workflow decided.
#[derive(Clone, Copy, Debug, PartialEq, Eq, Structural)]
pub enum GwpDecision {
    Allow,
    Block,
    Replace,
    DeferToParent,
    ErrorFailClosed,
}

/// What came of a workflow.
pub struct GwpResult {
    pub decision: GwpDecision,
    pub summary: String,
    pub replacement_messages: Option<Vec<Json>>,
}

/// The text of a message: the message itself, or its content, where it is not
/// empty.
pub open spec fn message_content(message: JsonModel) -> Option<Seq<char>> {
    let content = match message {
        JsonModel::Text(text) => Some(text),
        _ => crate::json::text_field(message, "content"@),
    };
    match content {
        Some(text) => if text.len() > 0 {
            Some(text)
        } else {
            None
        },
        None => None,
    }
}

/// The text of the first message that has one.
pub open spec fn first_content(messages: Seq<JsonModel>) -> Option<Seq<char>>
    decreases messages.len(),
{
    if messages.len() == 0 {
        None
    } else if message_content(messages[0]) is Some {
        message_content(messages[0])
    } else {
        first_content(messages.drop_first())
    }
}

/// The text of the first of some messages that has one.
pub fn workflow_replacement_content(messages: &Option<Vec<Json>>) -> (content: Option<String>)
    ensures
        crate::text::opt_chars(content) == match *messages {
            Some(messages) => first_content(models(messages@)),
            None => None,
        },
{
    let list = match messages {
        Some(list) => list,
        None => {
            return None;
        },
    };
    let ghost all = models(list@);
    let mut i: usize = 0;
    assert(all.skip(0) =~= all);
    while i < list.len()
        invariant
            i <= list.len(),
            *messages == Some(*list),
            all == models(list@),
            first_content(all) == first_content(all.skip(i as int)),
        decreases list.len() - i,
    {
        assert(all.skip(i as int).drop_first() =~= all.skip(i + 1));
        assert(all.skip(i as int)[0] == list[i as int]@);
        let content = match &list[i] {
            Json::Text(text) => Some(text),
            _ => list[i].get_str("content"),
        };
        match content {
            Some(text) => {
                if chars_of(text.as_str()).len() > 0 {
                    return Some(text.clone());
                }
            },
            None => {},
        }
        i += 1;
    }
    None
}

/// What is answered after a workflow: its text, or why there is none.
pub open spec fn alias_content(workflow_id: Seq<char>, result: GwpResult) -> Result<
    Seq<char>,
    Seq<char>,
> {
    let content = match result.replacement_messages {
        Some(messages) => first_content(models(messages@)),
        None => None,
    };
    match result.decision {
        GwpDecision::Replace => match content {
            Some(text) => Ok(text),
            None => Err(
                "workflow alias "@ + debug_text(workflow_id)
                    + " returned replace without assistant content"@,
            ),
        },
        GwpDecision::Block => Err(result.summary@),
        GwpDecision::Allow | GwpDecision::DeferToParent => Err(
            "workflow alias "@ + debug_text(workflow_id)
                + " did not return replacement content: "@ + result.summary@,
        ),
        GwpDecision::ErrorFailClosed => Err(
            "workflow alias "@ + debug_text(workflow_id) + " failed closed: "@ + result.summary@,
        ),
    }
}

/// What is answered after a workflow.
pub fn workflow_alias_content_from_result(workflow_id: &str, result: GwpResult) -> (content: Result<
    String,
    ProxyError,
>)
    ensures
        match alias_content(workflow_id@, result) {
            Ok(text) => content is Ok && content->Ok_0@ == text,
            Err(reason) => content is Err && blocks(content->Err_0, reason),
        },
{
    let mut message = joined("workflow alias ", write_debug(workflow_id).as_str());
    match result.decision {
        GwpDecision::Replace => match workflow_replacement_content(&result.replacement_messages) {
            Some(text) => Ok(text),
            None => {
                message.append(" returned replace without assistant content");
                Err(ProxyError::guard_blocked(message))
            },
        },
        GwpDecision::Block => Err(ProxyError::guard_blocked(result.summary)),
        GwpDecision::Allow | GwpDecision::DeferToParent => {
            message.append(" did not return replacement content: ");
            message.append(result.summary.as_str());
            Err(ProxyError::guard_blocked(message))
        },
        GwpDecision::ErrorFailClosed => {
            message.append(" failed closed: ");
            message.append(result.summary.as_str());
            Err(ProxyError::guard_blocked(message))
        },
    }
}

/// When a workflow runs.
#[derive(Clone, Copy, Debug, PartialEq, Eq, Structural)]
pub enum GwpHook {
    /// Before a request is sent on.
    PreRequestGuard,
}

/// What is kept of the trace of a workflow.
#[derive(Clone, Copy, Debug, PartialEq, Eq, Structural)]
pub enum GwpTraceMode {
    /// No content.
    Redacted,
}

/// What a workflow is run with.
pub struct WorkflowInvocation {
    pub workflow_id: String,
    /// How long the workflow may take.
    pub timeout_ms: u64,
    pub hook: GwpHook,
    pub request_id: String,
    /// The profile of the caller.
    pub profile: String,
    pub model_alias: String,
    pub messages: Vec<Json>,
    pub policy: Json,
    pub budgets: Json,
    pub trace_mode: GwpTraceMode,
}

/// What a workflow may use up.
pub open spec fn workflow_budgets(timeout_ms: u64) -> JsonModel {
    JsonModel::Object(
        Map::<Seq<char>, JsonModel>::empty().insert(
            "timeout_ms"@,
            JsonModel::Unsigned(timeout_ms),
        ),
    )
}

/// What a workflow that stands for a model is run with: the messages of the request,
/// where it has some, within the time of the alias. One that is not configured is
/// refused.
pub fn workflow_alias_invocation(
    alias: &ResolvedWorkflowAlias,
    configured: bool,
    request_id: &str,
    profile: &str,
    model: Option<&str>,
    body: &[u8],
) -> (invocation: Result<WorkflowInvocation, ProxyError>)
    ensures
        match invocation {
            Ok(invocation) => {
                &&& configured
                &&& invocation.workflow_id@ == alias.workflow_id@
                &&& invocation.timeout_ms == alias.timeout_ms
                &&& invocation.hook == GwpHook::PreRequestGuard
                &&& invocation.request_id@ == request_id@
                &&& invocation.profile@ == profile@
                &&& invocation.model_alias@ == match model {
                    Some(model) => model@,
                    None => Seq::empty(),
                }
                &&& models(invocation.messages@) == match chat_messages(body@) {
                    Some(messages) => messages,
                    None => Seq::empty(),
                }
                &&& invocation.policy@ == JsonModel::Null
                &&& invocation.budgets@ == workflow_budgets(alias.timeout_ms)
                &&& invocation.trace_mode == GwpTraceMode::Redacted
            },
            Err(error) => !configured && blocks(
                error,
                "workflow alias references unconfigured workflow "@ + debug_text(
                    alias.workflow_id@,
                ),
            ),
        },
{
    if !configured {
        return Err(unconfigured_workflow(alias.workflow_id.as_str()));
    }
    let messages = match chat_messages_from_body(body) {
        Some(messages) => messages,
        None => {
            let none: Vec<Json> = Vec::new();
            assert(models(none@) =~= Seq::<JsonModel>::empty());
            none
        },
    };
    let mut budgets = JsonObject::new();
    budgets.insert("timeout_ms", Json::Unsigned(alias.timeout_ms));
    Ok(
        WorkflowInvocation {
            workflow_id: alias.workflow_id.clone(),
            timeout_ms: alias.timeout_ms,
            hook: GwpHook::PreRequestGuard,
            request_id: request_id.to_owned(),
            profile: profile.to_owned(),
            model_alias: match model {
                Some(model) => model.to_owned(),
                None => String::new(),
            },
            messages,
            policy: Json::Null,
            budgets: budgets.into_json(),
            trace_mode: GwpTraceMode::Redacted,
        },
    )
}

/// What a workflow answers in place of a model, or why it answers nothing: it did not
/// run, is not configured, or refuses.
pub open spec fn alias_output(
    workflow_id: Seq<char>,
    result: Result<Option<GwpResult>, WorkflowExecutionTaskError>,
) -> Result<Seq<char>, Seq<char>> {
    match result {
        Err(error) => Err(error.text()),
        Ok(None) => Err(
            "workflow alias references unconfigured workflow "@ + debug_text(workflow_id),
        ),
        Ok(Some(result)) => alias_content(workflow_id, result),
    }
}

/// What a workflow answers in place of a model, with what came of its execution.
pub fn workflow_alias_output(
    workflow_id: &str,
    result: Result<Option<GwpResult>, WorkflowExecutionTaskError>,
) -> (output: Result<String, ProxyError>)
    ensures
        match alias_output(workflow_id@, result) {
            Ok(text) => output is Ok && output->Ok_0@ == text,
            Err(reason) => output is Err && blocks(output->Err_0, reason),
        },
{
    match result {
        Err(error) => Err(ProxyError::guard_blocked(error.message())),
        Ok(None) => Err(unconfigured_workflow(workflow_id)),
        Ok(Some(result)) => workflow_alias_content_from_result(workflow_id, result),
    }
}

/// The chat completion that a workflow gives.
pub open spec fn alias_completion(
    request_id: Seq<char>,
    created: u64,
    model: Seq<char>,
    content: Seq<char>,
) -> JsonModel {
    let message = Map::<Seq<char>, JsonModel>::empty().insert(
        "role"@,
        JsonModel::Text("assistant"@),
    ).insert("content"@, JsonModel::Text(content));
    let choice = Map::<Seq<char>, JsonModel>::empty().insert("index"@, JsonModel::Unsigned(0)).insert(
        "message"@,
        JsonModel::Object(message),
    ).insert("finish_reason"@, JsonModel::Text("stop"@));
    let usage = Map::<Seq<char>, JsonModel>::empty().insert(
        "prompt_tokens"@,
        JsonModel::Unsigned(0),
    ).insert("completion_tokens"@, JsonModel::Unsigned(0)).insert(
        "total_tokens"@,
        JsonModel::Unsigned(0),
    );
    JsonModel::Object(
        Map::<Seq<char>, JsonModel>::empty().insert(
            "id"@,
            JsonModel::Text("chatcmpl-"@ + request_id),
        ).insert("object"@, JsonModel::Text("chat.completion"@)).insert(
            "created"@,
            JsonModel::Unsigned(created),
        ).insert("model"@, JsonModel::Text(model)).insert(
            "choices"@,
            JsonModel::Array(seq![JsonModel::Object(choice)]),
        ).insert("usage"@, JsonModel::Object(usage)),
    )
}

/// The chat completion that a workflow gives, as JSON text.
pub fn workflow_alias_chat_completion_body(
    request_id: &str,
    created_unix_secs: u64,
    requested_model: &str,
    workflow_output: &str,
) -> (body: String)
    ensures
        body@ == rendered_json(
            alias_completion(request_id@, created_unix_secs, requested_model@, workflow_output@),
        ),
{
    let mut message = JsonObject::new();
    message.insert("role", Json::text("assistant"));
    message.insert("content", Json::text(workflow_output));
    let mut choice = JsonObject::new();
    choice.insert("index", Json::Unsigned(0));
    choice.insert("message", message.into_json());
    choice.insert("finish_reason", Json::text("stop"));
    let mut choices: Vec<Json> = Vec::new();
    choices.push(choice.into_json());
    let mut usage = JsonObject::new();
    usage.insert("prompt_tokens", Json::Unsigned(0));
    usage.insert("completion_tokens", Json::Unsigned(0));
    usage.insert("total_tokens", Json::Unsigned(0));
    let mut body = JsonObject::new();
    body.insert("id", Json::Text(joined("chatcmpl-", request_id)));
    body.insert("object", Json::text("chat.completion"));
    body.insert("created", Json::Unsigned(created_unix_secs));
    body.insert("model", Json::text(requested_model));
    assert(models(choices@) =~= seq![choices@[0]@]);
    body.insert("choices", array_of(choices));
    body.insert("usage", usage.into_json());
    render_json(&body.into_json())
}

/// The record of a request that a workflow answered.
pub open spec fn alias_record(
    request_id: Seq<char>,
    started_at_unix_ms: u64,
    finished_at_unix_ms: u64,
    model: Seq<char>,
    alias: ResolvedWorkflowAlias,
    request_metadata: Bindings,
    body_len: u64,
) -> RequestRecordModel {
    RequestRecordModel {
        request_id,
        started_at_unix_ms,
        finished_at_unix_ms: Some(finished_at_unix_ms),
        downstream_mode: DownstreamMode::NonStreamJson,
        upstream_mode: UpstreamMode::NotApplicable,
        model_id: Some(model),
        input_fingerprint: None,
        status: RequestStatus::Succeeded,
        http_status: Some(200),
        error_reason: None,
        abort_reason: None,
        request_metadata: request_metadata.insert("workflow_alias"@, "true"@).insert(
            "workflow_id"@,
            alias.workflow_id@,
        ).insert("workflow_timeout_ms"@, decimal(alias.timeout_ms as nat)),
        response_metadata: response_bindings(
            200,
            with_header(Seq::empty(), "content-type"@, bytes_of("application/json"@)),
            body_len,
            elapsed(finished_at_unix_ms, started_at_unix_ms),
        ),
        raw_payloads: no_payloads(),
    }
}

/// Records a request that a workflow answered.
pub fn record_workflow_alias_success(
    request_id: &str,
    started_at_unix_ms: u64,
    finished_at_unix_ms: u64,
    requested_model: &str,
    workflow_alias: &ResolvedWorkflowAlias,
    request_metadata: Metadata,
    body_len: u64,
) -> (record: RequestRecord)
    ensures
        record@ == alias_record(
            request_id@,
            started_at_unix_ms,
            finished_at_unix_ms,
            requested_model@,
            *workflow_alias,
            request_metadata@,
            body_len,
        ),
{
    let mut request_metadata = request_metadata;
    request_metadata.set("workflow_alias", "true");
    request_metadata.set("workflow_id", workflow_alias.workflow_id.as_str());
    request_metadata.set_number("workflow_timeout_ms", workflow_alias.timeout_ms);
    let mut headers = Headers::new();
    headers.set_text("content-type", "application/json");
    RequestRecord {
        request_id: request_id.to_owned(),
        started_at_unix_ms,
        finished_at_unix_ms: Some(finished_at_unix_ms),
        downstream_mode: DownstreamMode::NonStreamJson,
        upstream_mode: UpstreamMode::NotApplicable,
        model_id: Some(requested_model.to_owned()),
        input_fingerprint: None,
        status: RequestStatus::Succeeded,
        http_status: Some(200),
        error_reason: None,
        abort_reason: None,
        request_metadata,
        response_metadata: response_metadata(
            200,
            &headers,
            body_len,
            finished_at_unix_ms.saturating_sub(started_at_unix_ms),
        ),
        raw_payloads: RawPayloads::none(),
    }
}

/// A guard that replaces the messages of a request replaces them and nothing else.
pub proof fn replaced_messages_are_all_that_changes(
    body: Seq<u8>,
    fields: Map<Seq<char>, JsonModel>,
    messages: Seq<JsonModel>,
    changed: Map<Seq<char>, JsonModel>,
)
    requires
        parsed_json(body) == Ok::<JsonModel, Seq<char>>(JsonModel::Object(fields)),
        changed.contains_key("messages"@),
        changed["messages"@] == JsonModel::Array(messages),
        forall|key: Seq<char>| #[trigger]
            changed.contains_key(key) <==> fields.contains_key(key) || key == "messages"@,
        forall|key: Seq<char>|
            fields.contains_key(key) && key != "messages"@ ==> #[trigger] changed[key]
                == fields[key],
    ensures
        with_messages(body, messages) == Ok::<Seq<u8>, Seq<char>>(
            encode_utf8(rendered_json(JsonModel::Object(changed))),
        ),
{
    assert(changed =~= fields.insert("messages"@, JsonModel::Array(messages)));
}

/// An answer that the guard lets pass stays, one that it blocks is replaced by a
/// refusal, and one that it replaces by the first message that it gives.
pub proof fn answers_are_guarded(
    reason: String,
    messages: Vec<Json>,
    response: JsonModel,
)
    ensures
        guarded_body(GuardOutcome::Allow, response) is None,
        guarded_body(GuardOutcome::Skipped, response) is None,
        guarded_body(GuardOutcome::Block { reason }, response) == Some(
            encode_utf8(rendered_json(refusal_of(response, reason@))),
        ),
        messages.len() > 0 ==> guarded_body(GuardOutcome::Replace { messages }, response) == Some(
            encode_utf8(rendered_json(messages[0]@)),
        ),
        messages.len() == 0 ==> guarded_body(GuardOutcome::Replace { messages }, response) is None,
{
}

/// A refusal changes the first choice of an answer alone: its other choices and members
/// stay.
pub proof fn refusals_change_the_first_choice(
    fields: Map<Seq<char>, JsonModel>,
    choices: Seq<JsonModel>,
    choice: Map<Seq<char>, JsonModel>,
    reason: Seq<char>,
    key: Seq<char>,
    at: int,
)
    requires
        fields.contains_key("choices"@),
        fields["choices"@] == JsonModel::Array(choices),
        choices.len() > 0,
        choices[0] == JsonModel::Object(choice),
        choice.contains_key("message"@),
        choice["message"@] is Object,
        key != "choices"@,
        1 <= at < choices.len(),
    ensures
        ({
            let refused = refusal_of(JsonModel::Object(fields), reason);
            &&& refused.field(key) == JsonModel::Object(fields).field(key)
            &&& (refused.field("choices"@) matches Some(JsonModel::Array(told)) && told.len()
                == choices.len() && told[at] == choices[at])
        }),
{
}

/// What an answer says is the first content that is not empty.
pub proof fn the_first_content_counts(messages: Seq<JsonModel>, at: int)
    ensures
        0 <= at < messages.len() && message_content(messages[at]) is Some && (forall|i: int|
            0 <= i < at ==> message_content(#[trigger] messages[i]) is None) ==> first_content(
            messages,
        ) == message_content(messages[at]),
        (forall|i: int| 0 <= i < messages.len() ==> message_content(#[trigger] messages[i]) is None)
            ==> first_content(messages) is None,
    decreases messages.len(),
{
    if messages.len() > 0 {
        let rest = messages.drop_first();
        the_first_content_counts(rest, at - 1);
        if 0 < at < messages.len() && (forall|i: int|
            0 <= i < at ==> message_content(#[trigger] messages[i]) is None) {
            assert(rest[at - 1] == messages[at]);
            assert forall|i: int| 0 <= i < at - 1 implies message_content(#[trigger] rest[i])
                is None by {
                assert(rest[i] == messages[i + 1]);
            }
        }
        if (forall|i: int|
            0 <= i < messages.len() ==> message_content(#[trigger] messages[i]) is None) {
            assert forall|i: int| 0 <= i < rest.len() implies message_content(#[trigger] rest[i])
                is None by {
                assert(rest[i] == messages[i + 1]);
            }
        }
    }
}

/// A message says its content, where that is a text with something in it.
pub proof fn messages_say_their_content(fields: Map<Seq<char>, JsonModel>, text: Seq<char>)
    ensures
        text.len() > 0 ==> message_content(JsonModel::Text(text)) == Some(text),
        message_content(JsonModel::Text(Seq::empty())) is None,
        fields.contains_key("content"@) && fields["content"@] == JsonModel::Text(text) && text.len()
            > 0 ==> message_content(JsonModel::Object(fields)) == Some(text),
        !fields.contains_key("content"@) ==> message_content(JsonModel::Object(fields)) is None,
{
}

/// A workflow that stands for a model answers with the content that it replaces the
/// messages by, and every other decision of it refuses the request.
pub proof fn workflows_answer_by_replacing(workflow_id: Seq<char>, result: GwpResult)
    ensures
        alias_content(workflow_id, result) is Ok <==> result.decision is Replace && (
        result.replacement_messages matches Some(messages) && first_content(models(messages@))
            is Some),
        alias_content(workflow_id, result) matches Ok(text) ==> (
        result.replacement_messages matches Some(messages) && first_content(models(messages@))
            == Some(text)),
        result.decision is Block ==> alias_content(workflow_id, result) == Err::<
            Seq<char>,
            Seq<char>,
        >(result.summary@),
        alias_output(workflow_id, Ok(None)) is Err,
        alias_output(workflow_id, Ok(Some(result))) == alias_content(workflow_id, result),
{
}

/// A completion that a workflow gives has one choice, which says the content, for the
/// model that was asked for.
pub proof fn workflow_completions_say_the_content(
    request_id: Seq<char>,
    created: u64,
    model: Seq<char>,
    content: Seq<char>,
)
    ensures
        ({
            let completion = alias_completion(request_id, created, model, content);
            &&& completion.field("model"@) == Some(JsonModel::Text(model))
            &&& completion.field("created"@) == Some(JsonModel::Unsigned(created))
            &&& completion.field("id"@) == Some(JsonModel::Text("chatcmpl-"@ + request_id))
            &&& (first_choice(completion) matches Some(choice) && (choice.field(
                "message"@,
            ) matches Some(message) && message_content(message) == if content.len() > 0 {
                Some(content)
            } else {
                None
            } && message.field("role"@) == Some(JsonModel::Text("assistant"@))) && choice.field(
                "finish_reason"@,
            ) == Some(JsonModel::Text("stop"@)))
        }),
{
    reveal_strlit("id");
    reveal_strlit("object");
    reveal_strlit("created");
    reveal_strlit("model");
    reveal_strlit("choices");
    reveal_strlit("usage");
    reveal_strlit("role");
    reveal_strlit("content");
    reveal_strlit("index");
    reveal_strlit("message");
    reveal_strlit("finish_reason");
    assert("id"@.len() == 2);
    assert("object"@.len() == 6);
    assert("created"@.len() == 7);
    assert("model"@.len() == 5);
    assert("choices"@.len() == 7);
    assert("usage"@.len() == 5);
    assert("created"@[1] != "choices"@[1]);
    assert("model"@[0] != "usage"@[0]);
    assert("role"@.len() == 4);
    assert("content"@.len() == 7);
    assert("index"@.len() == 5);
    assert("message"@.len() == 7);
    assert("finish_reason"@.len() == 13);
}

/// A body in one event is that body, with the mark of the end after it.
pub proof fn bodies_are_one_event(body: Seq<u8>)
    ensures
        sse_frames(body).len() == body.len() + 22,
        sse_frames(body).subrange(6, 6 + body.len() as int) == body,
{
    reveal_strlit("data: ");
    reveal_strlit("\n\ndata: [DONE]\n\n");
    vstd::utf8::is_ascii_chars_encode_utf8("data: "@);
    vstd::utf8::is_ascii_chars_encode_utf8("\n\ndata: [DONE]\n\n"@);
    assert(sse_frames(body).subrange(6, 6 + body.len() as int) =~= body);
}

/// Only a model that has a name stands for a workflow, and only where its alias says so.
pub proof fn aliases_lead_to_workflows(
    model: Seq<char>,
    resolved: ResolvedWorkflowAlias,
    reason: String,
)
    requires
        crate::text::trimmed(model).len() > 0,
    ensures
        aliased_workflow(Some(model), Some(Ok(ModelAlias::Workflow(resolved)))) == Some(resolved),
        aliased_workflow(Some(model), None) is None,
        aliased_workflow(None, Some(Ok(ModelAlias::Workflow(resolved)))) is None,
        alias_refusal(Some(model), Some(Err(reason))) == Some(reason@),
        alias_refusal(Some(model), Some(Ok(ModelAlias::Workflow(resolved)))) is None,
        alias_refusal(Some(model), None) is None,
{
}

/// The messages of a chat are the list under that name.
pub proof fn messages_are_the_list(
    body: Seq<u8>,
    fields: Map<Seq<char>, JsonModel>,
    messages: Seq<JsonModel>,
)
    requires
        parsed_json(body) == Ok::<JsonModel, Seq<char>>(JsonModel::Object(fields)),
    ensures
        fields.contains_key("messages"@) && fields["messages"@] == JsonModel::Array(messages)
            ==> chat_messages(body) == Some(messages),
        !fields.contains_key("messages"@) ==> chat_messages(body) is None,
        is_chat_request("POST"@, "/v1/chat/completions"@),
{
}

/// An answer that a workflow gave is recorded as a success of the request.
pub proof fn workflow_answers_are_recorded(
    request_id: Seq<char>,
    started_at_unix_ms: u64,
    finished_at_unix_ms: u64,
    model: Seq<char>,
    alias: ResolvedWorkflowAlias,
    request_metadata: Bindings,
    body_len: u64,
)
    ensures
        ({
            let record = alias_record(
                request_id,
                started_at_unix_ms,
                finished_at_unix_ms,
                model,
                alias,
                request_metadata,
                body_len,
            );
            &&& record.request_id == request_id
            &&& record.started_at_unix_ms == started_at_unix_ms
            &&& record.finished_at_unix_ms == Some(finished_at_unix_ms)
            &&& record.model_id == Some(model)
            &&& record.status is Succeeded
            &&& record.http_status == Some(200u16)
            &&& record.request_metadata["workflow_timeout_ms"@] == decimal(alias.timeout_ms as nat)
        }),
{
}

/// A blocked request is told the reason and nothing else; a refusal says so, in place of
/// what was to be said.
pub proof fn refusals_say_so(
    error: ProxyError,
    reason: Seq<char>,
    choice: Map<Seq<char>, JsonModel>,
    message: Map<Seq<char>, JsonModel>,
    timeout_ms: u64,
)
    ensures
        blocks(error, reason) ==> (error.kind matches ErrorKind::GuardBlocked { reason: told }
            && told@ == reason),
        blocks(error, reason) ==> error@.request_metadata is None && error@.attempts.len() == 0,
        refusing_message(message, reason).field("content"@) == Some(JsonModel::Text(REFUSAL@)),
        refusing_message(message, reason).field("refusal"@) == Some(JsonModel::Text(reason)),
        refusing_message(message, reason).field("tool_calls"@) is None,
        refusing_choice(choice, message, reason).field("finish_reason"@) == Some(
            JsonModel::Text("content_filter"@),
        ),
        refusing_choice(choice, message, reason).field("message"@) == Some(
            refusing_message(message, reason),
        ),
        workflow_budgets(timeout_ms).field("timeout_ms"@) == Some(JsonModel::Unsigned(timeout_ms)),
        plain_refusal(reason).field("choices"@) matches Some(JsonModel::Array(choices))
            && choices.len() == 1 && choices[0].field("finish_reason"@) == Some(
            JsonModel::Text("content_filter"@),
        ) && (choices[0].field("message"@) matches Some(said) && said.field("content"@) == Some(
            JsonModel::Text(REFUSAL@),
        ) && said.field("refusal"@) == Some(JsonModel::Text(reason)) && said.field("role"@) == Some(
            JsonModel::Text("assistant"@),
        )),
{
    reveal_strlit("content");
    reveal_strlit("refusal");
    reveal_strlit("tool_calls");
    reveal_strlit("finish_reason");
    reveal_strlit("message");
    reveal_strlit("role");
    reveal_strlit("index");
    reveal_strlit("choices");
    reveal_strlit("id");
    reveal_strlit("object");
    assert("content"@.len() == 7);
    assert("refusal"@.len() == 7);
    assert("tool_calls"@.len() == 10);
    assert("finish_reason"@.len() == 13);
    assert("message"@.len() == 7);
    assert("role"@.len() == 4);
    assert("index"@.len() == 5);
    assert("choices"@.len() == 7);
    assert("id"@.len() == 2);
    assert("object"@.len() == 6);
    assert("content"@[0] != "refusal"@[0]);
    assert("content"@[0] != "message"@[0]);
    assert("content"@[1] != "choices"@[1]);
    assert("refusal"@[0] != "message"@[0]);
    assert("refusal"@[0] != "choices"@[0]);
    assert("message"@[0] != "choices"@[0]);
}

/// An answer of a workflow is a chat that cost no tokens.
pub proof fn workflow_answers_cost_nothing(
    request_id: Seq<char>,
    created: u64,
    model: Seq<char>,
    content: Seq<char>,
)
    ensures
        ({
            let completion = alias_completion(request_id, created, model, content);
            &&& completion.field("object"@) == Some(JsonModel::Text("chat.completion"@))
            &&& completion.field("usage"@) matches Some(usage)
            &&& usage.field("prompt_tokens"@) == Some(JsonModel::Unsigned(0))
            &&& usage.field("completion_tokens"@) == Some(JsonModel::Unsigned(0))
            &&& usage.field("total_tokens"@) == Some(JsonModel::Unsigned(0))
        }),
{
    reveal_strlit("id");
    reveal_strlit("object");
    reveal_strlit("created");
    reveal_strlit("model");
    reveal_strlit("choices");
    reveal_strlit("usage");
    reveal_strlit("prompt_tokens");
    reveal_strlit("completion_tokens");
    reveal_strlit("total_tokens");
    assert("id"@.len() == 2);
    assert("object"@.len() == 6);
    assert("created"@.len() == 7);
    assert("model"@.len() == 5);
    assert("choices"@.len() == 7);
    assert("usage"@.len() == 5);
    assert("prompt_tokens"@.len() == 13);
    assert("completion_tokens"@.len() == 17);
    assert("total_tokens"@.len() == 12);
    assert("created"@[1] != "choices"@[1]);
    assert("model"@[0] != "usage"@[0]);
}

} // verus!
