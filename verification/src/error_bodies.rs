//! The JSON bodies of error responses.

use crate::errors::{ErrorKind, ProxyError};
use crate::json::{
    items_field, parse_json, parsed_json, render_json, rendered_json, Json, JsonModel, JsonObject,
};
use crate::text::{decimal, opt_chars, opt_str_chars};
use vstd::prelude::*;
use vstd::utf8::encode_utf8;

verus! {

/// The message for a response without choices.
pub const MALFORMED_CHOICES_MESSAGE: &'static str =
    "upstream returned a malformed response: missing or invalid 'choices' field";

/// What an error body says.
pub struct ErrorDetails<'a> {
    pub error_type: &'a str,
    pub message: &'a str,
    pub code: Option<&'a str>,
    pub param: Option<&'a str>,
    pub cause: Option<&'a str>,
    pub request_id: Option<&'a str>,
}

/// The meaning of what an error body says.
#[verifier::ext_equal]
pub struct DetailsModel {
    pub error_type: Seq<char>,
    pub message: Seq<char>,
    pub code: Option<Seq<char>>,
    pub param: Option<Seq<char>>,
    pub cause: Option<Seq<char>>,
    pub request_id: Option<Seq<char>>,
}

impl<'a> View for ErrorDetails<'a> {
    type V = DetailsModel;

    open spec fn view(&self) -> DetailsModel {
        DetailsModel {
            error_type: self.error_type@,
            message: self.message@,
            code: opt_str_chars(self.code),
            param: opt_str_chars(self.param),
            cause: opt_str_chars(self.cause),
            request_id: opt_str_chars(self.request_id),
        }
    }
}

/// The members of an object with one text member more, where there is one.
pub open spec fn with_text(
    fields: Map<Seq<char>, JsonModel>,
    key: Seq<char>,
    text: Option<Seq<char>>,
) -> Map<Seq<char>, JsonModel> {
    match text {
        Some(text) => fields.insert(key, JsonModel::Text(text)),
        None => fields,
    }
}

/// The error object of a body. A cause is also the code of the error, unless it
/// has one of its own.
pub open spec fn error_object(details: DetailsModel) -> Map<Seq<char>, JsonModel> {
    let start = Map::<Seq<char>, JsonModel>::empty().insert(
        "type"@,
        JsonModel::Text(details.error_type),
    ).insert("message"@, JsonModel::Text(details.message));
    let coded = with_text(start, "code"@, details.code);
    let with_param = with_text(coded, "param"@, details.param);
    let caused = match details.cause {
        Some(cause) => {
            let told = with_param.insert("cause"@, JsonModel::Text(cause));
            if details.code is Some {
                told
            } else {
                told.insert("code"@, JsonModel::Text(cause))
            }
        },
        None => with_param,
    };
    with_text(caused, "request_id"@, details.request_id)
}

/// The body of an error response.
pub open spec fn error_body(details: DetailsModel) -> JsonModel {
    JsonModel::Object(
        Map::<Seq<char>, JsonModel>::empty().insert(
            "error"@,
            JsonModel::Object(error_object(details)),
        ),
    )
}

fn insert_text(object: &mut JsonObject, key: &str, text: Option<&str>)
    ensures
        final(object)@ == with_text(old(object)@, key@, opt_str_chars(text)),
{
    match text {
        Some(text) => {
            object.insert(key, Json::text(text));
        },
        None => {},
    }
}

/// Builds the body of an error response.
pub fn error_json(details: &ErrorDetails<'_>) -> (body: Json)
    ensures
        body@ == error_body(details@),
{
    let mut error = JsonObject::new();
    error.insert("type", Json::text(details.error_type));
    error.insert("message", Json::text(details.message));
    insert_text(&mut error, "code", details.code);
    insert_text(&mut error, "param", details.param);
    match details.cause {
        Some(cause) => {
            error.insert("cause", Json::text(cause));
            if details.code.is_none() {
                error.insert("code", Json::text(cause));
            }
        },
        None => {},
    }
    insert_text(&mut error, "request_id", details.request_id);
    let mut body = JsonObject::new();
    body.insert("error", error.into_json());
    body.into_json()
}

/// The bytes of a JSON text.
pub fn json_bytes(value: &Json) -> (bytes: Vec<u8>)
    ensures
        bytes@ == encode_utf8(rendered_json(value@)),
{
    render_json(value).as_str().as_bytes_vec()
}

/// An error that says its type and message only.
pub open spec fn plain_details(error_type: Seq<char>, message: Seq<char>) -> DetailsModel {
    DetailsModel { error_type, message, code: None, param: None, cause: None, request_id: None }
}

/// The body of an error response with a type and a message.
pub fn proxy_error_json_body(error_type: &str, message: &str) -> (body: Vec<u8>)
    ensures
        body@ == encode_utf8(rendered_json(error_body(plain_details(error_type@, message@)))),
{
    json_bytes(
        &error_json(
            &ErrorDetails {
                error_type,
                message,
                code: None,
                param: None,
                cause: None,
                request_id: None,
            },
        ),
    )
}

/// The body of an error response with what helps to find the cause.
pub fn proxy_error_json_body_with_diagnostics(
    error_type: &str,
    message: &str,
    cause_code: Option<&str>,
    request_id: Option<&str>,
) -> (body: Vec<u8>)
    ensures
        body@ == encode_utf8(
            rendered_json(
                error_body(
                    DetailsModel {
                        cause: opt_str_chars(cause_code),
                        request_id: opt_str_chars(request_id),
                        ..plain_details(error_type@, message@)
                    },
                ),
            ),
        ),
{
    json_bytes(
        &error_json(
            &ErrorDetails {
                error_type,
                message,
                code: None,
                param: None,
                cause: cause_code,
                request_id,
            },
        ),
    )
}

/// Every upstream failure that has a cause also has a code, for clients that look
/// at the code alone.
pub proof fn causes_are_also_codes(details: DetailsModel)
    requires
        details.cause is Some,
    ensures
        error_object(details).contains_key("code"@),
        details.code is None ==> error_object(details)["code"@] == JsonModel::Text(
            details.cause->Some_0,
        ),
        details.code is Some ==> error_object(details)["code"@] == JsonModel::Text(
            details.code->Some_0,
        ),
{
    reveal_strlit("code");
    reveal_strlit("param");
    reveal_strlit("cause");
    reveal_strlit("request_id");
    reveal_strlit("type");
    reveal_strlit("message");
    assert("code"@[1] != "cause"@[1]);
    assert("code"@.len() != "param"@.len());
    assert("code"@.len() != "request_id"@.len());
}

/// An error response.
pub struct ErrorResponse {
    pub status: u16,
    pub body: Vec<u8>,
    /// The value of the `Retry-After` field, where there is one.
    pub retry_after: Option<String>,
    /// The value of the `x-request-id` field, where there is one.
    pub request_id: Option<String>,
}

/// What the response of an error says. A request that is not admitted is not told
/// of the request identifier.
pub open spec fn details_of(kind: ErrorKind, request_id: Option<Seq<char>>) -> DetailsModel {
    DetailsModel {
        error_type: kind.type_text(),
        message: kind.message_text(),
        code: match kind {
            ErrorKind::ContextBudgetExceeded { code, .. } => Some(code@),
            _ => None,
        },
        param: match kind {
            ErrorKind::ContextBudgetExceeded { param, .. } => Some(param@),
            _ => None,
        },
        cause: match kind.cause() {
            Some(cause) => Some(cause.code_text()),
            None => None,
        },
        request_id: match kind {
            ErrorKind::Admission { .. } => None,
            _ => request_id,
        },
    }
}

/// The response of an error.
pub fn proxy_error_response_from_error_with_diagnostics(
    error: &ProxyError,
    request_id: Option<&str>,
) -> (response: ErrorResponse)
    ensures
        response.status == error.kind.status_code(),
        response.body@ == encode_utf8(
            rendered_json(error_body(details_of(error.kind, opt_str_chars(request_id)))),
        ),
        opt_chars(response.retry_after) == match error.kind {
            ErrorKind::Admission { failure } => match failure.retry_seconds() {
                Some(secs) => Some(decimal(secs as nat)),
                None => None,
            },
            _ => None,
        },
        opt_chars(response.request_id) == match error.kind {
            ErrorKind::Admission { .. } => None,
            _ => opt_str_chars(request_id),
        },
{
    let message = error.message();
    let (code, param): (Option<&str>, Option<&str>) = match &error.kind {
        ErrorKind::ContextBudgetExceeded { param, code, .. } => (Some(*code), Some(*param)),
        _ => (None, None),
    };
    let (retry_after, told_id): (Option<String>, Option<&str>) = match &error.kind {
        ErrorKind::Admission { failure } => (failure.retry_after(), None),
        _ => (None, request_id),
    };
    let cause: Option<&str> = match error.upstream_failure_cause() {
        Some(cause) => Some(cause.code()),
        None => None,
    };
    let details = ErrorDetails {
        error_type: error.error_type(),
        message: message.as_str(),
        code,
        param,
        cause,
        request_id: told_id,
    };
    ErrorResponse {
        status: error.status(),
        body: json_bytes(&error_json(&details)),
        retry_after,
        request_id: crate::text::own_opt(told_id),
    }
}

// ---------------------------------------------------------------------------
// Responses without choices
// ---------------------------------------------------------------------------

/// Whether a response holds a list of choices.
pub open spec fn has_choices(value: JsonModel) -> bool {
    items_field(value, "choices"@) is Some
}

/// Whether a parsed response holds a list of choices.
pub fn holds_choices(value: &Json) -> (holds: bool)
    ensures
        holds == has_choices(value@),
{
    value.get_array("choices").is_some()
}

/// Whether the body of a response is JSON and holds a list of choices.
pub fn response_has_valid_choices(body: &[u8]) -> (valid: bool)
    ensures
        valid == match parsed_json(body@) {
            Ok(value) => has_choices(value),
            Err(_) => false,
        },
{
    match parse_json(body) {
        Ok(value) => holds_choices(&value),
        Err(_) => false,
    }
}

/// The body of the response to a request whose response has no choices.
pub open spec fn malformed_body() -> JsonModel {
    JsonModel::Object(
        Map::<Seq<char>, JsonModel>::empty().insert(
            "error"@,
            JsonModel::Object(
                Map::<Seq<char>, JsonModel>::empty().insert(
                    "message"@,
                    JsonModel::Text(MALFORMED_CHOICES_MESSAGE@),
                ).insert("type"@, JsonModel::Text("upstream_error"@)).insert(
                    "code"@,
                    JsonModel::Text("malformed_response"@),
                ),
            ),
        ),
    )
}

/// The response to a request whose response has no choices.
pub fn malformed_choices_error_response(request_id: &str) -> (response: ErrorResponse)
    ensures
        response.status == 502,
        response.body@ == encode_utf8(rendered_json(malformed_body())),
        response.retry_after is None,
        opt_chars(response.request_id) == Some(request_id@),
{
    let mut error = JsonObject::new();
    error.insert("message", Json::text(MALFORMED_CHOICES_MESSAGE));
    error.insert("type", Json::text("upstream_error"));
    error.insert("code", Json::text("malformed_response"));
    let mut body = JsonObject::new();
    body.insert("error", error.into_json());
    ErrorResponse {
        status: 502,
        body: json_bytes(&body.into_json()),
        retry_after: None,
        request_id: Some(request_id.to_owned()),
    }
}

/// Whether a response is held to having choices: it is a successful JSON response
/// to a chat request, and no stream.
pub open spec fn choices_are_owed(
    status: u16,
    path: Seq<char>,
    headers: Seq<crate::headers::HeaderModel>,
) -> bool {
    &&& crate::message_metadata::is_success(status)
    &&& crate::path::is_chat_path(path)
    &&& !crate::headers::says_event_stream(headers)
    &&& crate::headers::says_application(headers)
}

/// Whether a response is held to having choices.
pub fn owes_choices(status: u16, path: &str, headers: &crate::headers::Headers) -> (owes: bool)
    ensures
        owes == choices_are_owed(status, path@, headers@),
{
    crate::message_metadata::status_is_success(status) && crate::path::is_chat_completion_path(path)
        && !crate::headers::is_event_stream(headers)
        && crate::headers::is_application_json_response(headers)
}

/// What becomes of a response at the last boundary before the client.
pub enum FinalResponse {
    /// It is handed on as it is.
    AsItIs,
    /// It is handed on with the length of its body.
    WithLength { length: usize },
    /// It is replaced by an error, and counted.
    Replaced(ErrorResponse),
}

/// Validates a response at the last boundary before the client. `body` is the
/// body of a response that owes choices, where it could be read.
pub fn validate_non_stream_chat_completion_response(
    status: u16,
    path: &str,
    headers: &crate::headers::Headers,
    body: Option<&[u8]>,
    request_id: &str,
) -> (response: FinalResponse)
    ensures
        match response {
            FinalResponse::AsItIs => !choices_are_owed(status, path@, headers@),
            FinalResponse::WithLength { length } => {
                &&& choices_are_owed(status, path@, headers@)
                &&& body is Some
                &&& parsed_json(body->Some_0@) is Ok
                &&& has_choices(parsed_json(body->Some_0@)->Ok_0)
                &&& length == body->Some_0@.len()
            },
            FinalResponse::Replaced(error) => {
                &&& choices_are_owed(status, path@, headers@)
                &&& body is None || parsed_json(body->Some_0@) is Err || !has_choices(
                    parsed_json(body->Some_0@)->Ok_0,
                )
                &&& error.status == 502
                &&& error.body@ == encode_utf8(rendered_json(malformed_body()))
                &&& error.retry_after is None
                &&& opt_chars(error.request_id) == Some(request_id@)
            },
        },
{
    if !owes_choices(status, path, headers) {
        return FinalResponse::AsItIs;
    }
    match body {
        Some(bytes) => {
            if response_has_valid_choices(bytes) {
                return FinalResponse::WithLength { length: bytes.len() };
            }
        },
        None => {},
    }
    FinalResponse::Replaced(malformed_choices_error_response(request_id))
}

/// The body of an error names its type and says its message, and tells the parameter,
/// the cause and the request where they are known.
pub proof fn error_bodies_tell_the_error(details: DetailsModel)
    ensures
        ({
            let told = error_body(details).field("error"@);
            let says = |key: Seq<char>, text: Seq<char>|
                told->Some_0.field(key) == Some(JsonModel::Text(text));
            &&& told is Some
            &&& says("type"@, details.error_type)
            &&& says("message"@, details.message)
            &&& (details.param matches Some(param) ==> says("param"@, param))
            &&& details.param is None ==> told->Some_0.field("param"@) is None
            &&& (details.cause matches Some(cause) ==> says("cause"@, cause))
            &&& details.cause is None ==> told->Some_0.field("cause"@) is None
            &&& (details.request_id matches Some(id) ==> says("request_id"@, id))
            &&& details.request_id is None ==> told->Some_0.field("request_id"@) is None
            &&& (details.code matches Some(code) ==> says("code"@, code))
            &&& details.code is None && details.cause is None ==> told->Some_0.field("code"@)
                is None
        }),
{
    reveal_strlit("code");
    reveal_strlit("param");
    reveal_strlit("cause");
    reveal_strlit("request_id");
    reveal_strlit("type");
    reveal_strlit("message");
    assert("code"@.len() == 4);
    assert("param"@.len() == 5);
    assert("cause"@.len() == 5);
    assert("request_id"@.len() == 10);
    assert("type"@.len() == 4);
    assert("message"@.len() == 7);
    assert("code"@[0] != "type"@[0]);
    assert("param"@[0] != "cause"@[0]);
}

/// What is told of an error is its own type and message, the cause of an upstream
/// failure, and the request that it ended, but for one that was not admitted.
pub proof fn errors_tell_of_themselves(kind: ErrorKind, request_id: Seq<char>)
    ensures
        ({
            let details = details_of(kind, Some(request_id));
            &&& details.error_type == kind.type_text()
            &&& details.message == kind.message_text()
            &&& !(kind is Admission) ==> details.request_id == Some(request_id)
            &&& kind is Admission ==> details.request_id is None
            &&& kind == (ErrorKind::UpstreamTransport {
                failure: crate::failures::ReqwestFailureKind::Connect,
            }) ==> details.cause == Some("upstream_connect_failed"@)
            &&& kind == (ErrorKind::UpstreamTransport {
                failure: crate::failures::ReqwestFailureKind::Timeout,
            }) ==> details.cause == Some("upstream_timeout"@)
            &&& kind is UpstreamBody ==> details.cause == Some("upstream_body_error"@)
            &&& (kind matches ErrorKind::ContextBudgetExceeded { message, param, code }
                ==> details.param == Some(param@) && details.code == Some(code@)
                && details.message == message@)
        }),
{
}

/// Choices are owed by chats that succeed with a body of their own, and by nothing
/// else; a body has them where they are a list.
pub proof fn chats_owe_choices(
    status: u16,
    path: Seq<char>,
    headers: Seq<crate::headers::HeaderModel>,
    fields: Map<Seq<char>, JsonModel>,
)
    ensures
        choices_are_owed(status, path, headers) ==> 200 <= status <= 299 && (path
            == "/v1/chat/completions"@ || path == "/chat/completions"@),
        200 <= status <= 299 && path == "/v1/chat/completions"@ ==> (choices_are_owed(
            status,
            path,
            headers,
        ) <==> !crate::headers::says_event_stream(headers) && crate::headers::says_application(
            headers,
        )),
        has_choices(JsonModel::Object(fields)) <==> fields.contains_key("choices"@)
            && fields["choices"@] is Array,
{
}

/// Details are those of the error, and an answer without choices is told as a malformed
/// one of the upstream.
pub proof fn malformed_answers_are_told(error_type: Seq<char>, message: Seq<char>)
    ensures
        plain_details(error_type, message).error_type == error_type,
        plain_details(error_type, message).message == message,
        plain_details(error_type, message).code is None,
        plain_details(error_type, message).param is None,
        plain_details(error_type, message).cause is None,
        plain_details(error_type, message).request_id is None,
        malformed_body().field("error"@) matches Some(error) && error.field("type"@) == Some(
            JsonModel::Text("upstream_error"@),
        ) && error.field("code"@) == Some(JsonModel::Text("malformed_response"@)) && error.field(
            "message"@,
        ) == Some(JsonModel::Text(MALFORMED_CHOICES_MESSAGE@)),
{
    reveal_strlit("message");
    reveal_strlit("type");
    reveal_strlit("code");
    assert("message"@.len() == 7);
    assert("type"@.len() == 4);
    assert("code"@.len() == 4);
    assert("type"@[0] != "code"@[0]);
}

} // verus!
