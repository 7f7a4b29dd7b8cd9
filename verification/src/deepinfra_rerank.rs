//! Adapts DeepInfra's native Qwen3 reranker contract to vLLM's score API.
//!
//! vLLM's score protocol has no instruction field: the target template has to
//! implement DeepInfra's documented default instruction, and any other
//! instruction is refused.

use crate::json::{
    array_of_texts, is_fraction, items_field, models, opt_model, parse_json, parsed_json,
    render_json, rendered_json, text_array, unsigned_field, Fraction, Json, JsonModel, JsonObject,
};
use crate::text::{chars_list, chars_of, decimal, decimal_text, opt_chars, same_text, trim, trimmed};
use crate::uri::{parse_uri, parsed_uri, RequestTarget};
use vstd::prelude::*;
use vstd::string::*;
use vstd::utf8::encode_utf8;

verus! {

/// Model identity of the inference path, used for policy and routing.
pub const MODEL_ID: &'static str = "Qwen/Qwen3-Reranker-8B";

/// Model name that the upstream score endpoint serves.
pub const UPSTREAM_MODEL_ID: &'static str = "qwen3-reranker-8b";

/// The one native inference path that is adapted.
pub const INFERENCE_PATH: &'static str = "/v1/inference/Qwen/Qwen3-Reranker-8B";

/// The documented default retrieval instruction.
pub const DEFAULT_INSTRUCTION: &'static str =
    "Given a web search query, retrieve relevant passages that answer the query";

/// Largest number of pairs in one request.
pub const MAX_PAIR_COUNT: usize = 1_024;

/// Largest number of characters in an instruction.
pub const MAX_INSTRUCTION_CHARS: usize = 2_048;

/// The bits of the largest magnitude that a scalar score may have: one plus
/// eight units in the last place of a single-precision one.
pub const MAX_SCORE_MAGNITUDE_BITS: u64 = 0x3ff0_0001_0000_0000;

/// The bits of the double-precision number one.
pub const ONE_BITS: u64 = 0x3ff0_0000_0000_0000;

/// Scheduling hint of a request; local inference has one scheduling tier.
#[derive(Clone, Copy, Debug, PartialEq, Eq, Structural)]
pub enum ServiceTier {
    /// Normal cloud scheduling.
    Default,
    /// Cloud priority scheduling hint.
    Priority,
    /// Cloud spare-capacity scheduling hint.
    Flex,
}

impl ServiceTier {
    /// The wire value of a tier.
    pub open spec fn label(self) -> Seq<char> {
        match self {
            ServiceTier::Default => "default"@,
            ServiceTier::Priority => "priority"@,
            ServiceTier::Flex => "flex"@,
        }
    }

    /// The wire value of a tier, for observability.
    pub fn as_str(self) -> (label: &'static str)
        ensures
            label@ == self.label(),
    {
        match self {
            ServiceTier::Default => "default",
            ServiceTier::Priority => "priority",
            ServiceTier::Flex => "flex",
        }
    }
}

/// What the score response has to agree with.
#[derive(Clone, Copy, Debug, PartialEq, Eq, Structural)]
pub struct ResponseExpectations {
    /// Exact number of pairwise scores that the response has to hold.
    pub result_count: usize,
}

/// A validated request, ready to be forwarded.
pub struct AdaptedRequest {
    /// Score endpoint, with the query of the request.
    pub forward_uri: RequestTarget,
    /// The score request as JSON.
    pub body: Vec<u8>,
    /// What the response will be held to.
    pub response_expectations: ResponseExpectations,
    /// Scheduling hint, kept for observability.
    pub service_tier: ServiceTier,
}

/// The meaning of an adapted request.
#[verifier::ext_equal]
pub struct AdaptedRequestModel {
    pub forward_uri: (Seq<char>, Option<Seq<char>>),
    pub body: Seq<u8>,
    pub response_expectations: ResponseExpectations,
    pub service_tier: ServiceTier,
}

impl View for AdaptedRequest {
    type V = AdaptedRequestModel;

    open spec fn view(&self) -> AdaptedRequestModel {
        AdaptedRequestModel {
            forward_uri: self.forward_uri@,
            body: self.body@,
            response_expectations: self.response_expectations,
            service_tier: self.service_tier,
        }
    }
}

/// Why a request is refused before any upstream request is made.
pub enum RequestError {
    /// The request does not satisfy the documented schema.
    Invalid(String),
    /// The request asks for what the synchronous adapter cannot provide.
    Unsupported(String),
}

/// The meaning of a refusal.
#[verifier::ext_equal]
pub enum RequestErrorModel {
    Invalid(Seq<char>),
    Unsupported(Seq<char>),
}

impl View for RequestError {
    type V = RequestErrorModel;

    open spec fn view(&self) -> RequestErrorModel {
        match self {
            RequestError::Invalid(message) => RequestErrorModel::Invalid(message@),
            RequestError::Unsupported(message) => RequestErrorModel::Unsupported(message@),
        }
    }
}

impl RequestError {
    /// The stable error code given to the client.
    pub fn code(&self) -> (code: &'static str)
        ensures
            code@ == match *self {
                RequestError::Invalid(_) => "invalid_deepinfra_rerank_request"@,
                RequestError::Unsupported(_) => "unsupported_deepinfra_rerank_feature"@,
            },
    {
        match self {
            RequestError::Invalid(_) => "invalid_deepinfra_rerank_request",
            RequestError::Unsupported(_) => "unsupported_deepinfra_rerank_feature",
        }
    }

    /// The message given to the client.
    pub fn message(&self) -> (message: String)
        ensures
            message@ == match self@ {
                RequestErrorModel::Invalid(message) => message,
                RequestErrorModel::Unsupported(message) => message,
            },
    {
        match self {
            RequestError::Invalid(message) => message.clone(),
            RequestError::Unsupported(message) => message.clone(),
        }
    }
}

/// Whether a request targets the adapted inference path.
pub open spec fn is_inference_request(method: Seq<char>, path: Seq<char>) -> bool {
    method == "POST"@ && path == INFERENCE_PATH@
}

/// Whether a request targets exactly the adapted model.
pub fn is_request(method: &str, uri: &RequestTarget) -> (is: bool)
    ensures
        is == is_inference_request(method@, uri@.0),
{
    same_text(method, "POST") && same_text(uri.path.as_str(), INFERENCE_PATH)
}

/// The model identity of the path; no `model` member of the body is needed.
pub fn model_id_from_path(method: &str, uri: &RequestTarget) -> (model: Option<&'static str>)
    ensures
        match model {
            Some(model) => is_inference_request(method@, uri@.0) && model@ == MODEL_ID@,
            None => !is_inference_request(method@, uri@.0),
        },
{
    if is_request(method, uri) {
        Some(MODEL_ID)
    } else {
        None
    }
}

// ---------------------------------------------------------------------------
// Requests
// ---------------------------------------------------------------------------

/// Whether a member of the request body is known.
pub open spec fn is_allowed_field(key: Seq<char>) -> bool {
    ||| key == "queries"@
    ||| key == "documents"@
    ||| key == "instruction"@
    ||| key == "service_tier"@
    ||| key == "webhook"@
}

fn allowed_field(key: &str) -> (allowed: bool)
    ensures
        allowed == is_allowed_field(key@),
{
    same_text(key, "queries") || same_text(key, "documents") || same_text(key, "instruction")
        || same_text(key, "service_tier") || same_text(key, "webhook")
}

/// Whether `a` comes before `b` in the order of their code points.
pub open spec fn comes_before(a: Seq<char>, b: Seq<char>) -> bool
    decreases a.len(),
{
    if b.len() == 0 {
        false
    } else if a.len() == 0 {
        true
    } else if a[0] != b[0] {
        a[0] < b[0]
    } else {
        comes_before(a.drop_first(), b.drop_first())
    }
}

pub(crate) fn text_before(a: &str, b: &str) -> (before: bool)
    ensures
        before == comes_before(a@, b@),
{
    let left = chars_of(a);
    let right = chars_of(b);
    let mut i: usize = 0;
    assert(left@.skip(0) =~= left@ && right@.skip(0) =~= right@);
    while i < left.len() && i < right.len() && left[i] == right[i]
        invariant
            i <= left.len(),
            i <= right.len(),
            left@ == a@,
            right@ == b@,
            comes_before(a@, b@) == comes_before(a@.skip(i as int), b@.skip(i as int)),
        decreases left.len() - i,
    {
        assert(a@.skip(i as int).drop_first() =~= a@.skip(i + 1));
        assert(b@.skip(i as int).drop_first() =~= b@.skip(i + 1));
        i += 1;
    }
    if i == right.len() {
        false
    } else if i == left.len() {
        true
    } else {
        left[i] < right[i]
    }
}

/// Whether `key` is the first unknown member of an object, in key order.
pub open spec fn first_unknown_field(fields: Map<Seq<char>, JsonModel>, key: Seq<char>) -> bool {
    &&& fields.contains_key(key)
    &&& !is_allowed_field(key)
    &&& forall|other: Seq<char>| #[trigger]
        fields.contains_key(other) && !is_allowed_field(other) ==> !comes_before(other, key)
}

/// The text that `{:?}` writes for a string.
pub uninterp spec fn debug_text(text: Seq<char>) -> Seq<char>;

/// The standard library's `Debug` form of a string: quoted, with escapes. It is
/// a function of the text.
#[verifier::external_body]
pub(crate) fn write_debug(text: &str) -> (shown: String)
    ensures
        shown@ == debug_text(text@),
{
    format!("{text:?}")
}

/// Checks that an object has known members only.
pub fn reject_unknown_fields(object: &Json) -> (checked: Result<(), String>)
    ensures
        match checked {
            Ok(_) => forall|key: Seq<char>| #[trigger]
                object@.field(key) is Some ==> is_allowed_field(key),
            Err(message) => object@ is Object && exists|key: Seq<char>|
                first_unknown_field(object@->Object_0, key) && message@
                    == "DeepInfra rerank body contains unsupported field "@ + debug_text(key),
        },
{
    let keys = object.keys();
    let ghost listed = chars_list(keys@);
    let mut first: Option<usize> = None;
    let mut i: usize = 0;
    while i < keys.len()
        invariant
            i <= keys.len(),
            match first {
                Some(at) => {
                    &&& at < i
                    &&& !is_allowed_field(keys[at as int]@)
                    &&& forall|j: int|
                        0 <= j < i && !is_allowed_field((#[trigger] keys[j])@) ==> !comes_before(
                            keys[j]@,
                            keys[at as int]@,
                        )
                },
                None => forall|j: int| 0 <= j < i ==> is_allowed_field((#[trigger] keys[j])@),
            },
        decreases keys.len() - i,
    {
        if !allowed_field(keys[i].as_str()) {
            match first {
                Some(at) => {
                    if text_before(keys[i].as_str(), keys[at].as_str()) {
                        proof {
                            lemma_order_step(keys@, i as int, at as int);
                        }
                        first = Some(i);
                    }
                },
                None => {
                    proof {
                        lemma_not_before_itself(keys[i as int]@);
                    }
                    first = Some(i);
                },
            }
        }
        i += 1;
    }
    match first {
        Some(at) => {
            let mut message = "DeepInfra rerank body contains unsupported field ".to_owned();
            let shown = write_debug(keys[at].as_str());
            message.append(shown.as_str());
            proof {
                let key = keys[at as int]@;
                assert(listed[at as int] == key);
                assert(listed.contains(key));
                assert(object@.field(key) is Some);
                let fields = object@->Object_0;
                assert forall|other: Seq<char>| #[trigger]
                    fields.contains_key(other) && !is_allowed_field(other) implies !comes_before(
                    other,
                    key,
                ) by {
                    assert(object@.field(other) is Some);
                    assert(listed.contains(other));
                    let j = choose|j: int| 0 <= j < listed.len() && listed[j] == other;
                    assert(keys[j]@ == other);
                }
                assert(first_unknown_field(fields, key));
            }
            Err(message)
        },
        None => {
            proof {
                assert forall|key: Seq<char>| #[trigger]
                    object@.field(key) is Some implies is_allowed_field(key) by {
                    assert(listed.contains(key));
                    let j = choose|j: int| 0 <= j < listed.len() && listed[j] == key;
                    assert(keys[j]@ == key);
                }
            }
            Ok(())
        },
    }
}

proof fn lemma_not_before_itself(a: Seq<char>)
    ensures
        !comes_before(a, a),
    decreases a.len(),
{
    if a.len() > 0 {
        lemma_not_before_itself(a.drop_first());
    }
}

proof fn lemma_before_trans(a: Seq<char>, b: Seq<char>, c: Seq<char>)
    requires
        comes_before(a, b),
        comes_before(b, c),
    ensures
        comes_before(a, c),
    decreases a.len(),
{
    if a.len() > 0 && a[0] == b[0] && b[0] == c[0] {
        lemma_before_trans(a.drop_first(), b.drop_first(), c.drop_first());
    }
}

proof fn lemma_order_step(keys: Seq<String>, i: int, at: int)
    requires
        0 <= at < i < keys.len(),
        comes_before(keys[i]@, keys[at]@),
        forall|j: int|
            0 <= j < i && !is_allowed_field((#[trigger] keys[j])@) ==> !comes_before(
                keys[j]@,
                keys[at]@,
            ),
    ensures
        forall|j: int|
            0 <= j <= i && !is_allowed_field((#[trigger] keys[j])@) ==> !comes_before(
                keys[j]@,
                keys[i]@,
            ),
{
    assert forall|j: int| 0 <= j <= i && !is_allowed_field((#[trigger] keys[j])@) implies !comes_before(
        keys[j]@,
        keys[i]@,
    ) by {
        if j == i {
            lemma_not_before_itself(keys[i]@);
        } else if comes_before(keys[j]@, keys[i]@) {
            lemma_before_trans(keys[j]@, keys[i]@, keys[at]@);
        }
    }
}

/// The place of the first item at or after `from` that is not a string.
pub open spec fn first_non_text(items: Seq<JsonModel>, from: int) -> Option<int>
    decreases items.len() - from,
{
    if from < 0 || from >= items.len() {
        None
    } else if items[from].as_text() is None {
        Some(from)
    } else {
        first_non_text(items, from + 1)
    }
}

/// The strings of an array of strings.
pub open spec fn texts_of(items: Seq<JsonModel>) -> Seq<Seq<char>> {
    Seq::new(
        items.len(),
        |i: int|
            match items[i].as_text() {
                Some(text) => text,
                None => Seq::empty(),
            },
    )
}

/// The member `field` of a request body, which has to be an array of between one
/// and [`MAX_PAIR_COUNT`] strings, or the message that says why it is not.
pub open spec fn string_array(object: JsonModel, field: Seq<char>) -> Result<
    Seq<Seq<char>>,
    Seq<char>,
> {
    match object.field(field) {
        None => Err("DeepInfra rerank body missing "@ + field),
        Some(member) => match member.as_items() {
            None => Err("DeepInfra rerank "@ + field + " must be an array of strings"@),
            Some(items) => if items.len() == 0 {
                Err("DeepInfra rerank "@ + field + " must be a non-empty array"@)
            } else if items.len() > MAX_PAIR_COUNT {
                Err(
                    "DeepInfra rerank "@ + field + " must contain at most "@ + decimal(
                        MAX_PAIR_COUNT as nat,
                    ) + " items"@,
                )
            } else {
                match first_non_text(items, 0) {
                    Some(at) => Err(
                        "DeepInfra rerank "@ + field + "["@ + decimal(at as nat)
                            + "] must be a string"@,
                    ),
                    None => Ok(texts_of(items)),
                }
            },
        },
    }
}

/// The member `field` of a request body as a list of strings.
pub fn required_string_array(object: &Json, field: &str) -> (list: Result<Vec<String>, String>)
    ensures
        match list {
            Ok(list) => string_array(object@, field@) == Ok::<Seq<Seq<char>>, Seq<char>>(
                chars_list(list@),
            ),
            Err(message) => string_array(object@, field@) == Err::<Seq<Seq<char>>, Seq<char>>(
                message@,
            ),
        },
{
    let member = match object.get(field) {
        Some(member) => member,
        None => {
            let mut message = "DeepInfra rerank body missing ".to_owned();
            message.append(field);
            return Err(message);
        },
    };
    let mut message = "DeepInfra rerank ".to_owned();
    message.append(field);
    let items = match member.as_array() {
        Some(items) => items,
        None => {
            message.append(" must be an array of strings");
            return Err(message);
        },
    };
    if items.len() == 0 {
        message.append(" must be a non-empty array");
        return Err(message);
    }
    if items.len() > MAX_PAIR_COUNT {
        message.append(" must contain at most ");
        message.append(decimal_text(MAX_PAIR_COUNT as u64).as_str());
        message.append(" items");
        return Err(message);
    }
    let mut list: Vec<String> = Vec::new();
    let mut i: usize = 0;
    while i < items.len()
        invariant
            i <= items.len(),
            items.len() <= MAX_PAIR_COUNT,
            message@ == "DeepInfra rerank "@ + field@,
            object@.field(field@) == Some(member@),
            member@.as_items() == Some(models(items@)),
            0 < items.len(),
            first_non_text(models(items@), 0) == first_non_text(models(items@), i as int),
            list.len() == i,
            forall|j: int| 0 <= j < i ==> models(items@)[j] == JsonModel::Text((#[trigger] list[j])@),
        decreases items.len() - i,
    {
        match items[i].as_str() {
            Some(text) => {
                list.push(text.clone());
            },
            None => {
                message.append("[");
                message.append(decimal_text(i as u64).as_str());
                message.append("] must be a string");
                return Err(message);
            },
        }
        i += 1;
    }
    assert(chars_list(list@) =~= texts_of(models(items@)));
    Ok(list)
}

/// Whether an instruction is acceptable, or why it is not.
pub open spec fn instruction_verdict(instruction: Option<JsonModel>) -> Result<
    (),
    RequestErrorModel,
> {
    match instruction {
        None => Ok(()),
        Some(value) => match value.as_text() {
            None => Err(
                RequestErrorModel::Invalid("DeepInfra rerank instruction must be a string"@),
            ),
            Some(text) => if text.len() > MAX_INSTRUCTION_CHARS {
                Err(
                    RequestErrorModel::Invalid(
                        "DeepInfra rerank instruction must not exceed "@ + decimal(
                            MAX_INSTRUCTION_CHARS as nat,
                        ) + " characters"@,
                    ),
                )
            } else if text != DEFAULT_INSTRUCTION@ {
                Err(
                    RequestErrorModel::Unsupported(
                        "custom instruction is unsupported because vLLM /v1/score has no per-request instruction field"@,
                    ),
                )
            } else {
                Ok(())
            },
        },
    }
}

/// The model of a checked step.
pub open spec fn checked_model(checked: Result<(), RequestError>) -> Result<
    (),
    RequestErrorModel,
> {
    match checked {
        Ok(_) => Ok(()),
        Err(error) => Err(error@),
    }
}

/// Accepts the documented default instruction only.
pub fn validate_instruction(instruction: Option<&Json>) -> (checked: Result<(), RequestError>)
    ensures
        checked_model(checked) == instruction_verdict(opt_model(instruction)),
{
    let instruction = match instruction {
        Some(instruction) => instruction,
        None => {
            return Ok(());
        },
    };
    let text = match instruction.as_str() {
        Some(text) => text,
        None => {
            return Err(
                RequestError::Invalid("DeepInfra rerank instruction must be a string".to_owned()),
            );
        },
    };
    if text.as_str().unicode_len() > MAX_INSTRUCTION_CHARS {
        let mut message = "DeepInfra rerank instruction must not exceed ".to_owned();
        message.append(decimal_text(MAX_INSTRUCTION_CHARS as u64).as_str());
        message.append(" characters");
        return Err(RequestError::Invalid(message));
    }
    if !same_text(text.as_str(), DEFAULT_INSTRUCTION) {
        return Err(
            RequestError::Unsupported(
                "custom instruction is unsupported because vLLM /v1/score has no per-request instruction field".to_owned(),
            ),
        );
    }
    Ok(())
}

/// Whether a webhook is acceptable, or why it is not.
pub open spec fn webhook_verdict(webhook: Option<JsonModel>) -> Result<(), RequestErrorModel> {
    match webhook {
        None => Ok(()),
        Some(JsonModel::Null) => Ok(()),
        Some(JsonModel::Text(text)) => if text.len() == 0 {
            Err(RequestErrorModel::Invalid("DeepInfra rerank webhook must not be empty"@))
        } else {
            Err(
                RequestErrorModel::Unsupported(
                    "DeepInfra rerank webhook is unsupported by the synchronous local adapter"@,
                ),
            )
        },
        Some(_) => Err(
            RequestErrorModel::Invalid("DeepInfra rerank webhook must be a string or null"@),
        ),
    }
}

/// Refuses any webhook: the adapter answers synchronously.
pub fn validate_webhook(webhook: Option<&Json>) -> (checked: Result<(), RequestError>)
    ensures
        checked_model(checked) == webhook_verdict(opt_model(webhook)),
{
    match webhook {
        None => Ok(()),
        Some(Json::Null) => Ok(()),
        Some(Json::Text(text)) => {
            if text.as_str().is_empty() {
                Err(
                    RequestError::Invalid("DeepInfra rerank webhook must not be empty".to_owned()),
                )
            } else {
                Err(
                    RequestError::Unsupported(
                        "DeepInfra rerank webhook is unsupported by the synchronous local adapter".to_owned(),
                    ),
                )
            }
        },
        Some(_) => Err(
            RequestError::Invalid("DeepInfra rerank webhook must be a string or null".to_owned()),
        ),
    }
}

/// The tier that a member names; without the member, the default tier.
pub open spec fn tier_of(service_tier: Option<JsonModel>) -> Option<ServiceTier> {
    match service_tier {
        None => Some(ServiceTier::Default),
        Some(JsonModel::Text(text)) => if text == "default"@ {
            Some(ServiceTier::Default)
        } else if text == "priority"@ {
            Some(ServiceTier::Priority)
        } else if text == "flex"@ {
            Some(ServiceTier::Flex)
        } else {
            None
        },
        Some(_) => None,
    }
}

/// The message for an unknown tier.
pub open spec fn tier_message() -> Seq<char> {
    "DeepInfra rerank service_tier must be default, priority, or flex"@
}

/// Reads the scheduling hint.
pub fn parse_service_tier(service_tier: Option<&Json>) -> (tier: Result<ServiceTier, String>)
    ensures
        match tier {
            Ok(tier) => tier_of(opt_model(service_tier)) == Some(tier),
            Err(message) => tier_of(opt_model(service_tier)) is None && message@ == tier_message(),
        },
{
    match service_tier {
        None => {
            return Ok(ServiceTier::Default);
        },
        Some(Json::Text(text)) => {
            if same_text(text.as_str(), "default") {
                return Ok(ServiceTier::Default);
            }
            if same_text(text.as_str(), "priority") {
                return Ok(ServiceTier::Priority);
            }
            if same_text(text.as_str(), "flex") {
                return Ok(ServiceTier::Flex);
            }
        },
        Some(_) => {},
    }
    Err("DeepInfra rerank service_tier must be default, priority, or flex".to_owned())
}

/// The text of the score endpoint, with the query of the request.
pub open spec fn score_target(query: Option<Seq<char>>) -> Seq<char> {
    match query {
        Some(query) => "/v1/score?"@ + query,
        None => "/v1/score"@,
    }
}

/// The score endpoint, with the query of the request.
pub fn score_uri(uri: &RequestTarget) -> (target: Result<RequestTarget, String>)
    ensures
        match target {
            Ok(target) => parsed_uri(score_target(uri@.1)) == Ok::<
                (Seq<char>, Option<Seq<char>>),
                Seq<char>,
            >(target@),
            Err(message) => match parsed_uri(score_target(uri@.1)) {
                Ok(_) => false,
                Err(error) => message@ == "rewrite DeepInfra rerank URI failed: "@ + error,
            },
        },
{
    let rewritten = match &uri.query {
        Some(query) => {
            let mut text = "/v1/score?".to_owned();
            text.append(query.as_str());
            text
        },
        None => "/v1/score".to_owned(),
    };
    match parse_uri(rewritten.as_str()) {
        Ok(target) => Ok(target),
        Err(error) => {
            let mut message = "rewrite DeepInfra rerank URI failed: ".to_owned();
            message.append(error.as_str());
            Err(message)
        },
    }
}

/// The score request for a batch of pairs.
pub open spec fn score_request(queries: Seq<Seq<char>>, documents: Seq<Seq<char>>) -> JsonModel {
    JsonModel::Object(
        Map::<Seq<char>, JsonModel>::empty().insert(
            "model"@,
            JsonModel::Text(UPSTREAM_MODEL_ID@),
        ).insert("text_1"@, text_array(queries)).insert("text_2"@, text_array(documents)),
    )
}

/// What becomes of a parsed request: the checks in their order, then the
/// forwarded request.
pub open spec fn adapted(
    query: Option<Seq<char>>,
    body: JsonModel,
    outcome: Result<AdaptedRequestModel, RequestErrorModel>,
) -> bool {
    let queries = string_array(body, "queries"@);
    let documents = string_array(body, "documents"@);
    let target = parsed_uri(score_target(query));
    if !(body is Object) {
        outcome == Err::<AdaptedRequestModel, RequestErrorModel>(
            RequestErrorModel::Invalid("DeepInfra rerank body must be a JSON object"@),
        )
    } else if exists|key: Seq<char>| #[trigger] body.field(key) is Some && !is_allowed_field(key) {
        exists|key: Seq<char>|
            first_unknown_field(body->Object_0, key) && outcome == Err::<
                AdaptedRequestModel,
                RequestErrorModel,
            >(
                RequestErrorModel::Invalid(
                    "DeepInfra rerank body contains unsupported field "@ + debug_text(key),
                ),
            )
    } else if queries is Err {
        outcome == Err::<AdaptedRequestModel, RequestErrorModel>(
            RequestErrorModel::Invalid(queries->Err_0),
        )
    } else if documents is Err {
        outcome == Err::<AdaptedRequestModel, RequestErrorModel>(
            RequestErrorModel::Invalid(documents->Err_0),
        )
    } else if queries->Ok_0.len() != documents->Ok_0.len() {
        outcome == Err::<AdaptedRequestModel, RequestErrorModel>(
            RequestErrorModel::Invalid(
                "DeepInfra rerank queries and documents must have the same length"@,
            ),
        )
    } else if instruction_verdict(body.field("instruction"@)) is Err {
        outcome == Err::<AdaptedRequestModel, RequestErrorModel>(
            instruction_verdict(body.field("instruction"@))->Err_0,
        )
    } else if webhook_verdict(body.field("webhook"@)) is Err {
        outcome == Err::<AdaptedRequestModel, RequestErrorModel>(
            webhook_verdict(body.field("webhook"@))->Err_0,
        )
    } else if tier_of(body.field("service_tier"@)) is None {
        outcome == Err::<AdaptedRequestModel, RequestErrorModel>(
            RequestErrorModel::Invalid(tier_message()),
        )
    } else if target is Err {
        outcome == Err::<AdaptedRequestModel, RequestErrorModel>(
            RequestErrorModel::Invalid(
                "rewrite DeepInfra rerank URI failed: "@ + target->Err_0,
            ),
        )
    } else {
        outcome == Ok::<AdaptedRequestModel, RequestErrorModel>(
            AdaptedRequestModel {
                forward_uri: target->Ok_0,
                body: encode_utf8(
                    rendered_json(score_request(queries->Ok_0, documents->Ok_0)),
                ),
                response_expectations: ResponseExpectations {
                    result_count: queries->Ok_0.len() as usize,
                },
                service_tier: tier_of(body.field("service_tier"@))->Some_0,
            },
        )
    }
}

/// The model of an adaptation.
pub open spec fn adapted_model(outcome: Result<AdaptedRequest, RequestError>) -> Result<
    AdaptedRequestModel,
    RequestErrorModel,
> {
    match outcome {
        Ok(request) => Ok(request@),
        Err(error) => Err(error@),
    }
}

/// Validates a parsed request and converts it to one score batch.
pub fn adapt_parsed_request(uri: &RequestTarget, value: &Json) -> (outcome: Result<
    AdaptedRequest,
    RequestError,
>)
    ensures
        adapted(uri@.1, value@, adapted_model(outcome)),
{
    if !value.is_object() {
        return Err(RequestError::Invalid("DeepInfra rerank body must be a JSON object".to_owned()));
    }
    match reject_unknown_fields(value) {
        Ok(_) => {},
        Err(message) => {
            proof {
                let key = choose|key: Seq<char>|
                    first_unknown_field(value@->Object_0, key) && message@
                        == "DeepInfra rerank body contains unsupported field "@ + debug_text(key);
                assert(value@.field(key) is Some && !is_allowed_field(key));
                assert(first_unknown_field(value@->Object_0, key));
            }
            return Err(RequestError::Invalid(message));
        },
    }
    let queries = match required_string_array(value, "queries") {
        Ok(queries) => queries,
        Err(message) => {
            return Err(RequestError::Invalid(message));
        },
    };
    let documents = match required_string_array(value, "documents") {
        Ok(documents) => documents,
        Err(message) => {
            return Err(RequestError::Invalid(message));
        },
    };
    if queries.len() != documents.len() {
        return Err(
            RequestError::Invalid(
                "DeepInfra rerank queries and documents must have the same length".to_owned(),
            ),
        );
    }
    match validate_instruction(value.get("instruction")) {
        Ok(_) => {},
        Err(error) => {
            return Err(error);
        },
    }
    match validate_webhook(value.get("webhook")) {
        Ok(_) => {},
        Err(error) => {
            return Err(error);
        },
    }
    let service_tier = match parse_service_tier(value.get("service_tier")) {
        Ok(tier) => tier,
        Err(message) => {
            return Err(RequestError::Invalid(message));
        },
    };
    let forward_uri = match score_uri(uri) {
        Ok(target) => target,
        Err(message) => {
            return Err(RequestError::Invalid(message));
        },
    };
    let result_count: usize = queries.len();
    let mut request = JsonObject::new();
    request.insert("model", Json::text(UPSTREAM_MODEL_ID));
    request.insert("text_1", array_of_texts(&queries));
    request.insert("text_2", array_of_texts(&documents));
    let rendered = render_json(&request.into_json());
    Ok(
        AdaptedRequest {
            forward_uri,
            body: rendered.as_str().as_bytes_vec(),
            response_expectations: ResponseExpectations { result_count },
            service_tier,
        },
    )
}

/// Validates one synchronous request and converts it to one score batch.
pub fn adapt_request(uri: &RequestTarget, body: &[u8]) -> (outcome: Result<
    AdaptedRequest,
    RequestError,
>)
    ensures
        match parsed_json(body@) {
            Ok(value) => adapted(uri@.1, value, adapted_model(outcome)),
            Err(error) => adapted_model(outcome) == Err::<AdaptedRequestModel, RequestErrorModel>(
                RequestErrorModel::Invalid("invalid DeepInfra rerank JSON: "@ + error),
            ),
        },
{
    match parse_json(body) {
        Ok(value) => adapt_parsed_request(uri, &value),
        Err(error) => {
            let mut message = "invalid DeepInfra rerank JSON: ".to_owned();
            message.append(error.as_str());
            Err(RequestError::Invalid(message))
        },
    }
}

// ---------------------------------------------------------------------------
// Responses
// ---------------------------------------------------------------------------

/// The `serde_json` number of a whole number that is not negative.
pub uninterp spec fn unsigned_number(value: u64) -> serde_json::Number;

/// The `serde_json` number of a whole number.
pub uninterp spec fn signed_number(value: i64) -> serde_json::Number;

/// The bits of a number as a double-precision float.
pub uninterp spec fn float_bits(number: serde_json::Number) -> u64;

/// The shortest decimal text of a number as a double-precision float.
pub uninterp spec fn float_text(number: serde_json::Number) -> Seq<char>;

/// The midpoint of two numbers in double precision, where it is a JSON number.
pub uninterp spec fn float_midpoint(
    a: serde_json::Number,
    b: serde_json::Number,
) -> Option<serde_json::Number>;

/// The number that a value is, where it is one.
pub open spec fn number_of(value: JsonModel) -> Option<serde_json::Number> {
    match value {
        JsonModel::Unsigned(value) => Some(unsigned_number(value)),
        JsonModel::Negative(value) => Some(signed_number(value)),
        JsonModel::Float(number) => Some(number),
        _ => None,
    }
}

/// `serde_json::Number::from` on a `u64`. The number is a function of the value.
#[verifier::external_body]
fn number_from_u64(value: u64) -> (number: serde_json::Number)
    ensures
        number == unsigned_number(value),
{
    serde_json::Number::from(value)
}

/// `serde_json::Number::from` on an `i64`. The number is a function of the value.
#[verifier::external_body]
fn number_from_i64(value: i64) -> (number: serde_json::Number)
    ensures
        number == signed_number(value),
{
    serde_json::Number::from(value)
}

/// The number that a value is, where it is one.
pub fn number_value(value: &Json) -> (number: Option<serde_json::Number>)
    ensures
        number == number_of(value@),
{
    match value {
        Json::Unsigned(value) => Some(number_from_u64(*value)),
        Json::Negative(value) => {
            if *value < 0 {
                Some(number_from_i64(*value))
            } else {
                Some(number_from_u64(*value as u64))
            }
        },
        Json::Float(fraction) => Some(fraction.number()),
        _ => None,
    }
}

/// `serde_json::Number::as_f64` and the bits of its result. Every number has
/// such a form, so the bits are a function of the number.
#[verifier::external_body]
fn number_bits(number: &serde_json::Number) -> (bits: u64)
    ensures
        bits == float_bits(*number),
{
    number.as_f64().map_or(u64::MAX, |value| value.to_bits())
}

/// `serde_json::Number::as_f64` and the text that the standard library writes
/// for its result.
#[verifier::external_body]
fn number_text(number: &serde_json::Number) -> (text: String)
    ensures
        text@ == float_text(*number),
{
    number.as_f64().map_or_else(String::new, |value| value.to_string())
}

/// The standard library's floating-point `midpoint` of two numbers, as a
/// `serde_json::Number` (`from_f64` gives none for what is not finite, and holds
/// what it gives as a float).
#[verifier::external_body]
fn number_midpoint(a: &serde_json::Number, b: &serde_json::Number) -> (middle: Option<
    serde_json::Number,
>)
    ensures
        middle == float_midpoint(*a, *b),
        middle matches Some(number) ==> is_fraction(number),
{
    let (a, b) = (a.as_f64()?, b.as_f64()?);
    serde_json::Number::from_f64(a.midpoint(b))
}

/// The magnitude bits of a float: without its sign.
pub open spec fn magnitude_bits(bits: u64) -> u64 {
    bits & 0x7fff_ffff_ffff_ffff
}

/// Whether the sign of a float is minus.
pub open spec fn is_negative(bits: u64) -> bool {
    bits & 0x8000_0000_0000_0000 != 0
}

/// Whether a scalar score lies in the domain from minus one to one, up to
/// representation noise. Magnitudes of floats are ordered as their bits are; an
/// infinity or a not-a-number lies above every finite magnitude.
pub open spec fn in_score_domain(bits: u64) -> bool {
    magnitude_bits(bits) <= MAX_SCORE_MAGNITUDE_BITS
}

/// The message for a score outside of the domain.
pub open spec fn domain_message(shown: Seq<char>) -> Seq<char> {
    "vLLM scalar score "@ + shown + " is outside expected [-1, 1] domain"@
}

/// Checks that a score lies in the domain; `shown` is its decimal text.
pub fn check_score_domain(bits: u64, shown: &str) -> (checked: Result<(), String>)
    ensures
        match checked {
            Ok(_) => in_score_domain(bits),
            Err(message) => !in_score_domain(bits) && message@ == domain_message(shown@),
        },
{
    if bits & 0x7fff_ffff_ffff_ffff <= MAX_SCORE_MAGNITUDE_BITS {
        Ok(())
    } else {
        let mut message = "vLLM scalar score ".to_owned();
        message.append(shown);
        message.append(" is outside expected [-1, 1] domain");
        Err(message)
    }
}

/// A score held to the range from minus one to one.
pub open spec fn clamped_score(number: serde_json::Number) -> serde_json::Number {
    if magnitude_bits(float_bits(number)) <= ONE_BITS {
        number
    } else if is_negative(float_bits(number)) {
        signed_number((-1) as i64)
    } else {
        unsigned_number(1)
    }
}

/// The probability of a scalar score: halfway between the score, held to its
/// range, and one.
pub open spec fn probability(number: serde_json::Number) -> Result<
    serde_json::Number,
    Seq<char>,
> {
    if !in_score_domain(float_bits(number)) {
        Err(domain_message(float_text(number)))
    } else {
        match float_midpoint(clamped_score(number), unsigned_number(1)) {
            Some(probability) => Ok(probability),
            None => Err("vLLM scalar score has no finite probability"@),
        }
    }
}

/// Converts a scalar score to a probability.
pub fn scalar_score_to_probability(number: &serde_json::Number) -> (converted: Result<
    serde_json::Number,
    String,
>)
    ensures
        match converted {
            Ok(value) => probability(*number) == Ok::<serde_json::Number, Seq<char>>(value)
                && is_fraction(value),
            Err(message) => probability(*number) == Err::<serde_json::Number, Seq<char>>(message@),
        },
{
    let bits: u64 = number_bits(number);
    match check_score_domain(bits, number_text(number).as_str()) {
        Ok(_) => {},
        Err(message) => {
            return Err(message);
        },
    }
    let clamped = if bits & 0x7fff_ffff_ffff_ffff <= ONE_BITS {
        number.clone()
    } else if bits & 0x8000_0000_0000_0000 != 0 {
        number_from_i64(-1)
    } else {
        number_from_u64(1)
    };
    match number_midpoint(&clamped, &number_from_u64(1)) {
        Some(middle) => Ok(middle),
        None => Err("vLLM scalar score has no finite probability".to_owned()),
    }
}

/// The slot of each result, filled as the entries of a response come in.
pub type ScoreSlots = Seq<Option<serde_json::Number>>;

/// The place that an entry names.
pub open spec fn entry_index(item: JsonModel) -> Option<u64> {
    unsigned_field(item, "index"@)
}

/// The score of an entry.
pub open spec fn entry_score(item: JsonModel) -> Option<serde_json::Number> {
    match item.field("score"@) {
        Some(score) => number_of(score),
        None => None,
    }
}

/// What becomes of the slots when the entry at `at` comes in.
pub open spec fn place_entry(item: JsonModel, at: nat, slots: ScoreSlots) -> Result<
    ScoreSlots,
    Seq<char>,
> {
    let here = "vLLM score response data["@ + decimal(at);
    if !(item is Object) {
        Err(here + "] must be an object"@)
    } else {
        match entry_index(item) {
            None => Err(here + "].index must be a non-negative integer"@),
            Some(index) => if index >= slots.len() {
                Err(
                    "vLLM score response index "@ + decimal(index as nat)
                        + " is outside expected range 0.."@ + decimal(slots.len()),
                )
            } else if slots[index as int] is Some {
                Err("vLLM score response contains duplicate index "@ + decimal(index as nat))
            } else {
                match entry_score(item) {
                    None => Err(here + "].score must be finite"@),
                    Some(score) => match probability(score) {
                        Err(message) => Err(message),
                        Ok(value) => Ok(slots.update(index as int, Some(value))),
                    },
                }
            },
        }
    }
}

/// The slots after the first `count` entries, or the first error among them.
pub open spec fn placed(items: Seq<JsonModel>, slots: nat, count: nat) -> Result<
    ScoreSlots,
    Seq<char>,
>
    decreases count,
{
    if count == 0 {
        Ok(Seq::new(slots, |i: int| None))
    } else {
        match placed(items, slots, (count - 1) as nat) {
            Err(message) => Err(message),
            Ok(filled) => place_entry(items[count - 1], (count - 1) as nat, filled),
        }
    }
}

/// Number of filled slots.
pub open spec fn filled_count(slots: ScoreSlots) -> nat
    decreases slots.len(),
{
    if slots.len() == 0 {
        0
    } else {
        filled_count(slots.drop_last()) + if slots.last() is Some {
            1nat
        } else {
            0nat
        }
    }
}

proof fn lemma_filled_bound(slots: ScoreSlots)
    ensures
        filled_count(slots) <= slots.len(),
        filled_count(slots) == slots.len() ==> forall|i: int|
            0 <= i < slots.len() ==> #[trigger] slots[i] is Some,
    decreases slots.len(),
{
    if slots.len() > 0 {
        let shorter = slots.drop_last();
        lemma_filled_bound(shorter);
        assert forall|i: int|
            filled_count(slots) == slots.len() && 0 <= i < slots.len() implies #[trigger] slots[i] is Some by {
            if i < shorter.len() {
                assert(shorter[i] is Some);
            }
        }
    }
}

proof fn lemma_filled_update(slots: ScoreSlots, at: int, value: serde_json::Number)
    requires
        0 <= at < slots.len(),
        slots[at] is None,
    ensures
        filled_count(slots.update(at, Some(value))) == filled_count(slots) + 1,
    decreases slots.len(),
{
    let updated = slots.update(at, Some(value));
    if at < slots.len() - 1 {
        lemma_filled_update(slots.drop_last(), at, value);
        assert(updated.drop_last() =~= slots.drop_last().update(at, Some(value)));
    } else {
        assert(updated.drop_last() =~= slots.drop_last());
    }
}

proof fn lemma_placed_count(items: Seq<JsonModel>, slots: nat, count: nat)
    requires
        placed(items, slots, count) is Ok,
    ensures
        placed(items, slots, count)->Ok_0.len() == slots,
        filled_count(placed(items, slots, count)->Ok_0) == count,
    decreases count,
{
    if count == 0 {
        lemma_nothing_filled(slots);
    } else {
        lemma_placed_count(items, slots, (count - 1) as nat);
        let before = placed(items, slots, (count - 1) as nat)->Ok_0;
        let item = items[count - 1];
        let index = entry_index(item)->Some_0 as int;
        lemma_filled_update(before, index, probability(entry_score(item)->Some_0)->Ok_0);
    }
}

proof fn lemma_nothing_filled(slots: nat)
    ensures
        filled_count(Seq::new(slots, |i: int| None)) == 0,
    decreases slots,
{
    if slots > 0 {
        let all: ScoreSlots = Seq::new(slots, |i: int| None);
        assert(all.drop_last() =~= Seq::new((slots - 1) as nat, |i: int| None));
        lemma_nothing_filled((slots - 1) as nat);
    }
}

/// A response that is accepted scores every pair exactly once: with as many
/// entries as there are slots and no entry refused, no slot stays empty.
pub proof fn accepted_scores_are_complete(items: Seq<JsonModel>)
    requires
        placed(items, items.len(), items.len()) is Ok,
    ensures
        placed(items, items.len(), items.len())->Ok_0.len() == items.len(),
        forall|i: int|
            0 <= i < items.len() ==> #[trigger] placed(
                items,
                items.len(),
                items.len(),
            )->Ok_0[i] is Some,
{
    lemma_placed_count(items, items.len(), items.len());
    lemma_filled_bound(placed(items, items.len(), items.len())->Ok_0);
}

/// The prompt token count of a response, or why it cannot be trusted.
pub open spec fn prompt_tokens(object: JsonModel) -> Result<u64, Seq<char>> {
    match object.field("usage"@) {
        Some(usage) if usage is Object => match unsigned_field(usage, "prompt_tokens"@) {
            None => Err(
                "vLLM score response usage.prompt_tokens must be a non-negative integer"@,
            ),
            Some(tokens) => if bad_token_count(usage, "total_tokens"@) {
                Err(token_count_message("total_tokens"@))
            } else if bad_token_count(usage, "completion_tokens"@) {
                Err(token_count_message("completion_tokens"@))
            } else {
                Ok(tokens)
            },
        },
        _ => Err("vLLM score response usage must be an object"@),
    }
}

/// Whether an optional token count is there and neither null nor unsigned.
pub open spec fn bad_token_count(usage: JsonModel, field: Seq<char>) -> bool {
    match usage.field(field) {
        Some(value) => !(value is Null) && value.as_unsigned() is None,
        None => false,
    }
}

/// The message for a bad optional token count.
pub open spec fn token_count_message(field: Seq<char>) -> Seq<char> {
    "vLLM score response usage."@ + field + " must be a non-negative integer or null"@
}

fn check_token_count(usage: &Json, field: &str) -> (checked: Result<(), String>)
    ensures
        match checked {
            Ok(_) => !bad_token_count(usage@, field@),
            Err(message) => bad_token_count(usage@, field@) && message@ == token_count_message(
                field@,
            ),
        },
{
    match usage.get(field) {
        Some(value) => {
            if !value.is_null() && value.as_u64().is_none() {
                let mut message = "vLLM score response usage.".to_owned();
                message.append(field);
                message.append(" must be a non-negative integer or null");
                return Err(message);
            }
        },
        None => {},
    }
    Ok(())
}

/// Reads the prompt token count of a response.
pub fn trusted_prompt_tokens(object: &Json) -> (tokens: Result<u64, String>)
    ensures
        match tokens {
            Ok(tokens) => prompt_tokens(object@) == Ok::<u64, Seq<char>>(tokens),
            Err(message) => prompt_tokens(object@) == Err::<u64, Seq<char>>(message@),
        },
{
    let usage = match object.get("usage") {
        Some(usage) if usage.is_object() => usage,
        _ => {
            return Err("vLLM score response usage must be an object".to_owned());
        },
    };
    let tokens: u64 = match usage.get_u64("prompt_tokens") {
        Some(tokens) => tokens,
        None => {
            return Err(
                "vLLM score response usage.prompt_tokens must be a non-negative integer".to_owned(),
            );
        },
    };
    match check_token_count(usage, "total_tokens") {
        Ok(_) => {},
        Err(message) => {
            return Err(message);
        },
    }
    match check_token_count(usage, "completion_tokens") {
        Ok(_) => {},
        Err(message) => {
            return Err(message);
        },
    }
    Ok(tokens)
}

/// The request identifier of a response: absent where it is missing, null or
/// blank.
pub open spec fn request_id_of(object: JsonModel) -> Result<Option<Seq<char>>, Seq<char>> {
    match object.field("id"@) {
        None => Ok(None),
        Some(JsonModel::Null) => Ok(None),
        Some(JsonModel::Text(id)) => if trimmed(id).len() == 0 {
            Ok(None)
        } else {
            Ok(Some(id))
        },
        Some(_) => Err("vLLM score response id must be a string or null"@),
    }
}

/// Reads the request identifier of a response.
pub fn optional_request_id(object: &Json) -> (id: Result<Option<String>, String>)
    ensures
        match id {
            Ok(id) => request_id_of(object@) == Ok::<Option<Seq<char>>, Seq<char>>(opt_chars(id)),
            Err(message) => request_id_of(object@) == Err::<Option<Seq<char>>, Seq<char>>(message@),
        },
{
    match object.get("id") {
        None => Ok(None),
        Some(Json::Null) => Ok(None),
        Some(Json::Text(id)) => {
            if trim(id.as_str()).as_str().is_empty() {
                Ok(None)
            } else {
                Ok(Some(id.clone()))
            }
        },
        Some(_) => Err("vLLM score response id must be a string or null".to_owned()),
    }
}

/// The number zero as a float.
pub open spec fn zero_cost() -> JsonModel {
    match float_midpoint(signed_number((-1) as i64), unsigned_number(1)) {
        Some(zero) => JsonModel::Float(zero),
        None => JsonModel::Null,
    }
}

/// The JSON array of the probabilities in the slots.
pub open spec fn score_array(slots: ScoreSlots) -> JsonModel {
    JsonModel::Array(
        Seq::new(
            slots.len(),
            |i: int|
                match slots[i] {
                    Some(value) => JsonModel::Float(value),
                    None => JsonModel::Null,
                },
        ),
    )
}

/// Whether every filled slot holds what is written as a fraction.
spec fn hold_fractions(slots: ScoreSlots) -> bool {
    forall|i: int|
        0 <= i < slots.len() && (#[trigger] slots[i]) is Some ==> is_fraction(slots[i]->Some_0)
}

/// The response given to the client.
pub open spec fn rerank_response(
    slots: ScoreSlots,
    input_tokens: u64,
    request_id: Option<Seq<char>>,
) -> JsonModel {
    let status = Map::<Seq<char>, JsonModel>::empty().insert(
        "status"@,
        JsonModel::Text("succeeded"@),
    ).insert("runtime_ms"@, JsonModel::Unsigned(0)).insert("cost"@, zero_cost()).insert(
        "tokens_generated"@,
        JsonModel::Unsigned(0),
    ).insert("tokens_input"@, JsonModel::Unsigned(input_tokens)).insert(
        "output_length"@,
        JsonModel::Unsigned(0),
    );
    let start = Map::<Seq<char>, JsonModel>::empty().insert("scores"@, score_array(slots)).insert(
        "input_tokens"@,
        JsonModel::Unsigned(input_tokens),
    );
    let identified = match request_id {
        Some(id) => start.insert("request_id"@, JsonModel::Text(id)),
        None => start,
    };
    JsonModel::Object(identified.insert("inference_status"@, JsonModel::Object(status)))
}

/// What becomes of a parsed score response.
pub open spec fn converted_response(value: JsonModel, count: nat) -> Result<
    JsonModel,
    Seq<char>,
> {
    if !(value is Object) {
        Err("vLLM score response must be a JSON object"@)
    } else {
        match items_field(value, "data"@) {
            None => Err("vLLM score response data must be an array"@),
            Some(items) => if items.len() != count {
                Err(
                    "vLLM score response count "@ + decimal(items.len())
                        + " does not match expected "@ + decimal(count),
                )
            } else {
                match placed(items, count, count) {
                    Err(message) => Err(message),
                    Ok(slots) => match prompt_tokens(value) {
                        Err(message) => Err(message),
                        Ok(tokens) => match request_id_of(value) {
                            Err(message) => Err(message),
                            Ok(id) => Ok(rerank_response(slots, tokens, id)),
                        },
                    },
                }
            },
        }
    }
}

fn place(item: &Json, at: usize, slots: &mut Vec<Option<serde_json::Number>>) -> (done: Result<
    (),
    String,
>)
    ensures
        match done {
            Ok(_) => place_entry(item@, at as nat, old(slots)@) == Ok::<ScoreSlots, Seq<char>>(
                final(slots)@,
            ) && (hold_fractions(old(slots)@) ==> hold_fractions(final(slots)@)),
            Err(message) => place_entry(item@, at as nat, old(slots)@) == Err::<
                ScoreSlots,
                Seq<char>,
            >(message@),
        },
{
    let mut here = "vLLM score response data[".to_owned();
    here.append(decimal_text(at as u64).as_str());
    if !item.is_object() {
        here.append("] must be an object");
        return Err(here);
    }
    let index: u64 = match item.get_u64("index") {
        Some(index) => index,
        None => {
            here.append("].index must be a non-negative integer");
            return Err(here);
        },
    };
    if index >= slots.len() as u64 {
        let mut message = "vLLM score response index ".to_owned();
        message.append(decimal_text(index).as_str());
        message.append(" is outside expected range 0..");
        message.append(decimal_text(slots.len() as u64).as_str());
        return Err(message);
    }
    let place: usize = index as usize;
    if slots[place].is_some() {
        let mut message = "vLLM score response contains duplicate index ".to_owned();
        message.append(decimal_text(index).as_str());
        return Err(message);
    }
    let score = match item.get("score") {
        Some(score) => number_value(score),
        None => None,
    };
    match score {
        Some(score) => match scalar_score_to_probability(&score) {
            Ok(value) => {
                slots.set(place, Some(value));
                Ok(())
            },
            Err(message) => Err(message),
        },
        None => {
            here.append("].score must be finite");
            Err(here)
        },
    }
}

/// The model of a converted response.
pub open spec fn converted_model(converted: Result<Json, String>) -> Result<
    JsonModel,
    Seq<char>,
> {
    match converted {
        Ok(value) => Ok(value@),
        Err(message) => Err(message@),
    }
}

/// Converts a parsed score response: the scores in the order of their pairs, as
/// probabilities, with the usage and the identifier of the response.
pub fn convert_score_response(value: &Json, expected: ResponseExpectations) -> (converted: Result<
    Json,
    String,
>)
    ensures
        converted_model(converted) == converted_response(value@, expected.result_count as nat),
{
    if !value.is_object() {
        return Err("vLLM score response must be a JSON object".to_owned());
    }
    let items = match value.get_array("data") {
        Some(items) => items,
        None => {
            return Err("vLLM score response data must be an array".to_owned());
        },
    };
    let count: usize = expected.result_count;
    if items.len() != count {
        let mut message = "vLLM score response count ".to_owned();
        message.append(decimal_text(items.len() as u64).as_str());
        message.append(" does not match expected ");
        message.append(decimal_text(count as u64).as_str());
        return Err(message);
    }
    let mut slots: Vec<Option<serde_json::Number>> = Vec::new();
    while slots.len() < count
        invariant
            slots.len() <= count,
            forall|i: int| 0 <= i < slots.len() ==> #[trigger] slots[i] is None,
        decreases count - slots.len(),
    {
        slots.push(None);
    }
    let mut at: usize = 0;
    assert(slots@ =~= Seq::new(count as nat, |i: int| None));
    while at < count
        invariant
            at <= count,
            count == items.len(),
            placed(models(items@), count as nat, at as nat) == Ok::<ScoreSlots, Seq<char>>(slots@),
            hold_fractions(slots@),
            value@ is Object,
            items_field(value@, "data"@) == Some(models(items@)),
            count == expected.result_count,
        decreases count - at,
    {
        match place(&items[at], at, &mut slots) {
            Ok(_) => {},
            Err(message) => {
                proof {
                    lemma_placed_error(models(items@), count as nat, at as nat + 1, count as nat);
                }
                return Err(message);
            },
        }
        at += 1;
    }
    let tokens: u64 = match trusted_prompt_tokens(value) {
        Ok(tokens) => tokens,
        Err(message) => {
            return Err(message);
        },
    };
    let id = match optional_request_id(value) {
        Ok(id) => id,
        Err(message) => {
            return Err(message);
        },
    };
    Ok(write_rerank_response(&slots, tokens, id))
}

proof fn lemma_placed_error(items: Seq<JsonModel>, slots: nat, from: nat, to: nat)
    requires
        from <= to,
        placed(items, slots, from) is Err,
    ensures
        placed(items, slots, to) == placed(items, slots, from),
    decreases to,
{
    if from < to {
        lemma_placed_error(items, slots, from, (to - 1) as nat);
    }
}

fn write_rerank_response(
    slots: &Vec<Option<serde_json::Number>>,
    tokens: u64,
    request_id: Option<String>,
) -> (response: Json)
    requires
        hold_fractions(slots@),
    ensures
        response@ == rerank_response(slots@, tokens, opt_chars(request_id)),
{
    let mut scores: Vec<Json> = Vec::new();
    let mut i: usize = 0;
    while i < slots.len()
        invariant
            i <= slots.len(),
            hold_fractions(slots@),
            scores.len() == i,
            forall|j: int|
                0 <= j < i ==> (#[trigger] scores[j])@ == score_array(slots@)->Array_0[j],
        decreases slots.len() - i,
    {
        let score = match &slots[i] {
            Some(value) => match Fraction::of(value.clone()) {
                Some(fraction) => Json::Float(fraction),
                None => Json::Null,
            },
            None => Json::Null,
        };
        scores.push(score);
        i += 1;
    }
    let scores = Json::Array(scores);
    assert(scores@->Array_0 =~= score_array(slots@)->Array_0);
    let mut status = JsonObject::new();
    status.insert("status", Json::text("succeeded"));
    status.insert("runtime_ms", Json::Unsigned(0));
    let cost = match number_midpoint(&number_from_i64(-1), &number_from_u64(1)) {
        Some(zero) => match Fraction::of(zero) {
            Some(fraction) => Json::Float(fraction),
            None => Json::Null,
        },
        None => Json::Null,
    };
    status.insert("cost", cost);
    status.insert("tokens_generated", Json::Unsigned(0));
    status.insert("tokens_input", Json::Unsigned(tokens));
    status.insert("output_length", Json::Unsigned(0));
    let mut response = JsonObject::new();
    response.insert("scores", scores);
    response.insert("input_tokens", Json::Unsigned(tokens));
    match request_id {
        Some(id) => {
            response.insert("request_id", Json::Text(id));
        },
        None => {},
    }
    response.insert("inference_status", status.into_json());
    response.into_json()
}

/// Converts a score response to a reranker response.
pub fn score_response_to_deepinfra_response(
    body: &[u8],
    expected: ResponseExpectations,
) -> (converted: Result<Vec<u8>, String>)
    ensures
        match parsed_json(body@) {
            Err(error) => converted is Err && converted->Err_0@ == "invalid vLLM score JSON: "@
                + error,
            Ok(value) => match converted_response(value, expected.result_count as nat) {
                Err(message) => converted is Err && converted->Err_0@ == message,
                Ok(response) => converted is Ok && converted->Ok_0@ == encode_utf8(
                    rendered_json(response),
                ),
            },
        },
{
    let value = match parse_json(body) {
        Ok(value) => value,
        Err(error) => {
            let mut message = "invalid vLLM score JSON: ".to_owned();
            message.append(error.as_str());
            return Err(message);
        },
    };
    match convert_score_response(&value, expected) {
        Ok(response) => Ok(render_json(&response).as_str().as_bytes_vec()),
        Err(message) => Err(message),
    }
}

/// Every score goes to the place that its entry names, whatever the order of the
/// entries.
pub proof fn scores_go_to_their_place(items: Seq<JsonModel>, slots: nat, count: nat, at: int)
    requires
        count <= items.len(),
        0 <= at < count,
        placed(items, slots, count) is Ok,
    ensures
        entry_index(items[at]) is Some,
        entry_index(items[at])->Some_0 < slots,
        entry_score(items[at]) is Some,
        probability(entry_score(items[at])->Some_0) is Ok,
        placed(items, slots, count)->Ok_0.len() == slots,
        placed(items, slots, count)->Ok_0[entry_index(items[at])->Some_0 as int] == Some(
            probability(entry_score(items[at])->Some_0)->Ok_0,
        ),
    decreases count,
{
    let before = (count - 1) as nat;
    placed_keeps_its_length(items, slots, before);
    if at < count - 1 {
        scores_go_to_their_place(items, slots, before, at);
    }
}

proof fn placed_keeps_its_length(items: Seq<JsonModel>, slots: nat, count: nat)
    requires
        count <= items.len(),
    ensures
        placed(items, slots, count) matches Ok(filled) ==> filled.len() == slots,
    decreases count,
{
    if count > 0 {
        placed_keeps_its_length(items, slots, (count - 1) as nat);
    }
}

/// A score from -1 to 1 counts as it is, and one a little beyond as the end it is
/// beyond; one that is further out is refused.
pub proof fn scores_are_held_to_their_range(number: serde_json::Number)
    ensures
        magnitude_bits(float_bits(number)) <= 0x3ff0_0000_0000_0000 ==> clamped_score(number)
            == number,
        magnitude_bits(float_bits(number)) > 0x3ff0_0000_0000_0000 && is_negative(
            float_bits(number),
        ) ==> clamped_score(number) == signed_number((-1) as i64),
        magnitude_bits(float_bits(number)) > 0x3ff0_0000_0000_0000 && !is_negative(
            float_bits(number),
        ) ==> clamped_score(number) == unsigned_number(1),
        magnitude_bits(float_bits(number)) > 0x3ff0_0001_0000_0000 ==> probability(number) is Err,
        probability(number) matches Ok(value) ==> float_midpoint(
            clamped_score(number),
            unsigned_number(1),
        ) == Some(value),
{
}

/// The pairs are scored in the order of the request: the first text of a pair is the
/// query, the second its document.
pub proof fn pairs_are_scored_in_order(
    queries: Seq<Seq<char>>,
    documents: Seq<Seq<char>>,
    at: int,
)
    requires
        queries.len() == documents.len(),
        0 <= at < queries.len(),
    ensures
        ({
            let request = score_request(queries, documents);
            &&& (request.field("text_1"@) matches Some(JsonModel::Array(first)) && first.len()
                == queries.len() && first[at] == JsonModel::Text(queries[at]))
            &&& (request.field("text_2"@) matches Some(JsonModel::Array(second)) && second.len()
                == documents.len() && second[at] == JsonModel::Text(documents[at]))
            &&& request.field("model"@) == Some(JsonModel::Text("qwen3-reranker-8b"@))
        }),
{
    reveal_strlit("model");
    reveal_strlit("text_1");
    reveal_strlit("text_2");
    assert("model"@.len() == 5);
    assert("text_1"@.len() == 6);
    assert("text_2"@.len() == 6);
    assert("text_1"@[5] != "text_2"@[5]);
}

proof fn texts_are_no_others(items: Seq<JsonModel>, from: int)
    requires
        0 <= from <= items.len(),
    ensures
        (forall|i: int| from <= i < items.len() ==> (#[trigger] items[i]) is Text)
            <==> first_non_text(items, from) is None,
        first_non_text(items, from) matches Some(at) ==> from <= at < items.len()
            && !(items[at] is Text),
    decreases items.len() - from,
{
    if from < items.len() {
        texts_are_no_others(items, from + 1);
        if first_non_text(items, from) is None {
            assert(items[from] is Text);
            assert forall|i: int| from <= i < items.len() implies (#[trigger] items[i]) is Text by {
                if i > from {
                }
            }
        }
    }
}

/// A list of texts is taken where it has from one to 1024 items and all are texts, and
/// each stays in its place.
pub proof fn lists_of_texts_are_taken(
    fields: Map<Seq<char>, JsonModel>,
    name: Seq<char>,
    items: Seq<JsonModel>,
    at: int,
)
    requires
        fields.contains_key(name),
        fields[name] == JsonModel::Array(items),
    ensures
        string_array(JsonModel::Object(fields), name) is Ok <==> 1 <= items.len() <= 1024 && (
        forall|i: int| 0 <= i < items.len() ==> (#[trigger] items[i]) is Text),
        string_array(JsonModel::Object(fields), name) matches Ok(texts) ==> texts.len()
            == items.len() && (0 <= at < items.len() ==> items[at] == JsonModel::Text(texts[at])),
        !fields.contains_key(name.push('s')) ==> string_array(
            JsonModel::Object(fields),
            name.push('s'),
        ) is Err,
{
    texts_are_no_others(items, 0);
}

/// A request is adapted where it has as many queries as documents and asks for nothing
/// that the upstream cannot do; the answer then has one score for each pair.
pub proof fn plain_requests_are_adapted(
    query: Option<Seq<char>>,
    body: JsonModel,
    outcome: Result<AdaptedRequestModel, RequestErrorModel>,
)
    requires
        adapted(query, body, outcome),
        body is Object,
    ensures
        ({
            let queries = string_array(body, "queries"@);
            let documents = string_array(body, "documents"@);
            &&& (outcome matches Ok(request) ==> {
                &&& queries is Ok && documents is Ok
                &&& queries->Ok_0.len() == documents->Ok_0.len()
                &&& request.response_expectations.result_count == queries->Ok_0.len() as usize
                &&& request.body == encode_utf8(
                    rendered_json(score_request(queries->Ok_0, documents->Ok_0)),
                )
                &&& parsed_uri(score_target(query)) == Ok::<
                    (Seq<char>, Option<Seq<char>>),
                    Seq<char>,
                >(request.forward_uri)
            })
            &&& (forall|key: Seq<char>| #[trigger]
                body.field(key) is Some ==> key == "queries"@ || key == "documents"@) && queries
                is Ok && documents is Ok && queries->Ok_0.len() == documents->Ok_0.len()
                && parsed_uri(score_target(query)) is Ok ==> outcome is Ok
        }),
        score_target(None) == "/v1/score"@,
        query matches Some(text) ==> score_target(query) == "/v1/score?"@ + text,
{
    reveal_strlit("queries");
    reveal_strlit("documents");
    reveal_strlit("instruction");
    reveal_strlit("webhook");
    reveal_strlit("service_tier");
    assert("queries"@.len() == 7);
    assert("documents"@.len() == 9);
    assert("instruction"@.len() == 11);
    assert("webhook"@.len() == 7);
    assert("webhook"@[0] != "queries"@[0]);
    assert("service_tier"@.len() == 12);
}

/// Each service tier goes by its name, and the default by none.
pub proof fn tiers_go_by_their_names(other: Seq<char>)
    ensures
        tier_of(None) == Some(ServiceTier::Default),
        tier_of(Some(JsonModel::Text("default"@))) == Some(ServiceTier::Default),
        tier_of(Some(JsonModel::Text("priority"@))) == Some(ServiceTier::Priority),
        tier_of(Some(JsonModel::Text("flex"@))) == Some(ServiceTier::Flex),
        other != "default"@ && other != "priority"@ && other != "flex"@ ==> tier_of(
            Some(JsonModel::Text(other)),
        ) is None,
        tier_of(Some(JsonModel::Null)) is None,
{
    reveal_strlit("default");
    reveal_strlit("priority");
    reveal_strlit("flex");
    assert("default"@.len() == 7);
    assert("priority"@.len() == 8);
    assert("flex"@.len() == 4);
}

/// An answer has the scores in the order of the pairs, the tokens that the upstream
/// counted, and its name where it has one.
pub proof fn answers_hold_the_scores(
    slots: ScoreSlots,
    tokens: u64,
    id: Seq<char>,
    at: int,
    value: serde_json::Number,
)
    requires
        0 <= at < slots.len(),
        slots[at] == Some(value),
    ensures
        ({
            let answer = rerank_response(slots, tokens, Some(id));
            let nameless = rerank_response(slots, tokens, None);
            &&& (answer.field("scores"@) matches Some(JsonModel::Array(scores)) && scores.len()
                == slots.len() && scores[at] == JsonModel::Float(value))
            &&& answer.field("input_tokens"@) == Some(JsonModel::Unsigned(tokens))
            &&& answer.field("request_id"@) == Some(JsonModel::Text(id))
            &&& nameless.field("request_id"@) is None
            &&& (answer.field("inference_status"@) matches Some(status) && status.field(
                "status"@,
            ) == Some(JsonModel::Text("succeeded"@)) && status.field("tokens_input"@) == Some(
                JsonModel::Unsigned(tokens),
            ))
        }),
{
    reveal_strlit("scores");
    reveal_strlit("input_tokens");
    reveal_strlit("request_id");
    reveal_strlit("inference_status");
    reveal_strlit("status");
    reveal_strlit("runtime_ms");
    reveal_strlit("cost");
    reveal_strlit("tokens_generated");
    reveal_strlit("tokens_input");
    reveal_strlit("output_length");
    assert("scores"@.len() == 6);
    assert("input_tokens"@.len() == 12);
    assert("request_id"@.len() == 10);
    assert("inference_status"@.len() == 16);
    assert("status"@.len() == 6);
    assert("runtime_ms"@.len() == 10);
    assert("cost"@.len() == 4);
    assert("tokens_generated"@.len() == 16);
    assert("tokens_input"@.len() == 12);
    assert("output_length"@.len() == 13);
}

/// An answer is converted only where it has one entry for each pair, each with a score
/// that counts, and tokens that are counted.
pub proof fn answers_are_converted_whole(
    fields: Map<Seq<char>, JsonModel>,
    items: Seq<JsonModel>,
    count: nat,
)
    requires
        fields.contains_key("data"@),
        fields["data"@] == JsonModel::Array(items),
    ensures
        ({
            let value = JsonModel::Object(fields);
            let converted = converted_response(value, count);
            &&& items.len() != count ==> converted is Err
            &&& items.len() == count ==> (converted is Ok <==> placed(items, count, count) is Ok
                && prompt_tokens(value) is Ok && request_id_of(value) is Ok)
            &&& (converted matches Ok(answer) ==> answer == rerank_response(
                placed(items, count, count)->Ok_0,
                prompt_tokens(value)->Ok_0,
                request_id_of(value)->Ok_0,
            ))
        }),
{
}

/// An instruction may be left out or be the default one; any other cannot be followed,
/// and one that is no text, or too long, is wrong. A webhook may be left out or be null.
pub proof fn plain_instructions_are_followed(text: Seq<char>, value: JsonModel)
    ensures
        instruction_verdict(None) is Ok,
        text.len() <= 2048 ==> (instruction_verdict(Some(JsonModel::Text(text))) is Ok <==> text
            == DEFAULT_INSTRUCTION@),
        text.len() <= 2048 && text != DEFAULT_INSTRUCTION@ ==> (instruction_verdict(
            Some(JsonModel::Text(text)),
        ) matches Err(error) && error is Unsupported),
        text.len() > 2048 ==> (instruction_verdict(Some(JsonModel::Text(text))) matches Err(error)
            && error is Invalid),
        !(value is Text) ==> (instruction_verdict(Some(value)) matches Err(error) && error
            is Invalid),
        webhook_verdict(None) is Ok,
        webhook_verdict(Some(JsonModel::Null)) is Ok,
        text.len() > 0 ==> (webhook_verdict(Some(JsonModel::Text(text))) matches Err(error)
            && error is Unsupported),
        webhook_verdict(Some(JsonModel::Text(Seq::empty()))) matches Err(error) && error is Invalid,
        !(value is Text) && !(value is Null) ==> (webhook_verdict(Some(value)) matches Err(error)
            && error is Invalid),
{
}

/// An entry is placed where it names a free place and has a score that counts, and
/// nowhere else.
pub proof fn entries_are_placed_once(
    fields: Map<Seq<char>, JsonModel>,
    index: u64,
    at: nat,
    slots: ScoreSlots,
)
    requires
        fields.contains_key("index"@),
        fields["index"@] == JsonModel::Unsigned(index),
    ensures
        ({
            let item = JsonModel::Object(fields);
            let placed = place_entry(item, at, slots);
            let score = entry_score(item);
            &&& placed is Ok <==> index < slots.len() && slots[index as int] is None && score is Some
                && probability(score->Some_0) is Ok
            &&& (placed matches Ok(after) ==> after.len() == slots.len() && after[index as int]
                == Some(probability(score->Some_0)->Ok_0) && forall|i: int|
                0 <= i < slots.len() && i != index ==> after[i] == slots[i])
        }),
        !(place_entry(JsonModel::Null, at, slots) is Ok),
{
}

/// The tokens that an upstream counted are those of its prompt; an answer that does not
/// count them, or counts others wrongly, is not trusted.
pub proof fn counted_tokens_are_trusted(
    fields: Map<Seq<char>, JsonModel>,
    usage: Map<Seq<char>, JsonModel>,
    tokens: u64,
)
    requires
        fields.contains_key("usage"@),
        fields["usage"@] == JsonModel::Object(usage),
    ensures
        usage.contains_key("prompt_tokens"@) && usage["prompt_tokens"@] == JsonModel::Unsigned(
            tokens,
        ) && !usage.contains_key("total_tokens"@) && !usage.contains_key("completion_tokens"@)
            ==> prompt_tokens(JsonModel::Object(fields)) == Ok::<u64, Seq<char>>(tokens),
        !usage.contains_key("prompt_tokens"@) ==> prompt_tokens(JsonModel::Object(fields)) is Err,
        usage.contains_key("total_tokens"@) && usage["total_tokens"@] is Text ==> prompt_tokens(
            JsonModel::Object(fields),
        ) is Err,
        usage.contains_key("completion_tokens"@) && usage["completion_tokens"@] is Negative
            ==> prompt_tokens(JsonModel::Object(fields)) is Err,
        prompt_tokens(JsonModel::Object(fields)) matches Ok(counted) ==> usage.contains_key(
            "prompt_tokens"@,
        ) && usage["prompt_tokens"@] == JsonModel::Unsigned(counted),
        prompt_tokens(JsonModel::Object(Map::empty())) is Err,
{
}

/// An answer keeps its name where it has one that is not blank.
pub proof fn answers_keep_their_name(fields: Map<Seq<char>, JsonModel>, id: Seq<char>)
    ensures
        fields.contains_key("id"@) && fields["id"@] == JsonModel::Text(id) && trimmed(id).len() > 0
            ==> request_id_of(JsonModel::Object(fields)) == Ok::<Option<Seq<char>>, Seq<char>>(
            Some(id),
        ),
        fields.contains_key("id"@) && fields["id"@] == JsonModel::Text(id) && trimmed(id).len() == 0
            ==> request_id_of(JsonModel::Object(fields)) == Ok::<Option<Seq<char>>, Seq<char>>(
            None,
        ),
        !fields.contains_key("id"@) ==> request_id_of(JsonModel::Object(fields)) == Ok::<
            Option<Seq<char>>,
            Seq<char>,
        >(None),
        fields.contains_key("id"@) && fields["id"@] is Unsigned ==> request_id_of(
            JsonModel::Object(fields),
        ) is Err,
{
}

/// Texts have one order: of two that differ one comes first, the shorter one where it
/// begins the other, and otherwise the one whose first other character is smaller.
pub proof fn texts_have_one_order(a: Seq<char>, b: Seq<char>, rest: Seq<char>, x: char, y: char)
    ensures
        !comes_before(a, a),
        a != b ==> comes_before(a, b) != comes_before(b, a),
        comes_before(a, a + rest) <==> rest.len() > 0,
        x < y ==> comes_before(a.push(x) + rest, a.push(y) + b),
    decreases a.len(),
{
    if a.len() > 0 {
        assert((a + rest).drop_first() =~= a.drop_first() + rest);
        assert((a.push(x) + rest).drop_first() =~= a.drop_first().push(x) + rest);
        assert((a.push(y) + b).drop_first() =~= a.drop_first().push(y) + b);
        texts_have_one_order(a.drop_first(), b, rest, x, y);
        if b.len() > 0 {
            texts_have_one_order(a.drop_first(), b.drop_first(), rest, x, y);
            if a != b && a[0] == b[0] && a.drop_first() == b.drop_first() {
                assert(a =~= seq![a[0]] + a.drop_first());
                assert(b =~= seq![b[0]] + b.drop_first());
            }
        }
    } else {
        if a != b && b.len() == 0 {
            assert(a =~= b);
        }
    }
}

/// The fields of a request that are known are five; of the others the first in order is
/// told.
pub proof fn the_first_unknown_field_is_told(
    fields: Map<Seq<char>, JsonModel>,
    key: Seq<char>,
    other: Seq<char>,
)
    ensures
        is_allowed_field("queries"@) && is_allowed_field("documents"@) && is_allowed_field(
            "instruction"@,
        ) && is_allowed_field("service_tier"@) && is_allowed_field("webhook"@),
        is_allowed_field(key) ==> key == "queries"@ || key == "documents"@ || key
            == "instruction"@ || key == "service_tier"@ || key == "webhook"@,
        first_unknown_field(fields, key) ==> fields.contains_key(key) && !is_allowed_field(key),
        first_unknown_field(fields, key) && fields.contains_key(other) && !is_allowed_field(other)
            && other != key ==> comes_before(key, other),
{
    texts_have_one_order(key, other, Seq::empty(), 'a', 'b');
}

/// A score has its domain on both sides of nothing, a little more than one to each.
pub proof fn scores_are_about_one(bits: u64)
    ensures
        in_score_domain(0x3ff0_0000_0000_0000),
        in_score_domain(0xbff0_0000_0000_0000),
        in_score_domain(0),
        !in_score_domain(0x4000_0000_0000_0000),
        !in_score_domain(0xc000_0000_0000_0000),
        in_score_domain(bits) == in_score_domain(bits ^ 0x8000_0000_0000_0000),
{
    assert(0x3ff0_0000_0000_0000u64 & 0x7fff_ffff_ffff_ffff == 0x3ff0_0000_0000_0000u64)
        by (bit_vector);
    assert(0xbff0_0000_0000_0000u64 & 0x7fff_ffff_ffff_ffff == 0x3ff0_0000_0000_0000u64)
        by (bit_vector);
    assert(0u64 & 0x7fff_ffff_ffff_ffff == 0) by (bit_vector);
    assert(0x4000_0000_0000_0000u64 & 0x7fff_ffff_ffff_ffff == 0x4000_0000_0000_0000u64)
        by (bit_vector);
    assert(0xc000_0000_0000_0000u64 & 0x7fff_ffff_ffff_ffff == 0x4000_0000_0000_0000u64)
        by (bit_vector);
    assert((bits ^ 0x8000_0000_0000_0000) & 0x7fff_ffff_ffff_ffff == bits & 0x7fff_ffff_ffff_ffff)
        by (bit_vector);
}

/// A count of tokens may be left out or be null; any other must be a whole number. The
/// scores of an answer stand in their order.
pub proof fn token_counts_are_numbers(
    fields: Map<Seq<char>, JsonModel>,
    key: Seq<char>,
    tokens: u64,
    slots: ScoreSlots,
    at: int,
    value: serde_json::Number,
)
    ensures
        !fields.contains_key(key) ==> !bad_token_count(JsonModel::Object(fields), key),
        fields.contains_key(key) && fields[key] is Null ==> !bad_token_count(
            JsonModel::Object(fields),
            key,
        ),
        fields.contains_key(key) && fields[key] == JsonModel::Unsigned(tokens) ==> !bad_token_count(
            JsonModel::Object(fields),
            key,
        ),
        fields.contains_key(key) && !(fields[key] is Unsigned) && !(fields[key] is Null)
            ==> bad_token_count(JsonModel::Object(fields), key),
        number_of(JsonModel::Unsigned(tokens)) == Some(unsigned_number(tokens)),
        number_of(JsonModel::Float(value)) == Some(value),
        number_of(JsonModel::Null) is None,
        score_array(slots) matches JsonModel::Array(items) && items.len() == slots.len() && (0 <= at
            < slots.len() && slots[at] == Some(value) ==> items[at] == JsonModel::Float(value)),
{
}

/// A request that cannot be scored pair by pair, or that asks for what there is not, is
/// refused; one that is taken keeps its tier.
pub proof fn unfit_requests_are_refused(
    query: Option<Seq<char>>,
    fields: Map<Seq<char>, JsonModel>,
    outcome: Result<AdaptedRequestModel, RequestErrorModel>,
    other: Seq<char>,
)
    requires
        adapted(query, JsonModel::Object(fields), outcome),
    ensures
        fields.contains_key(other) && !is_allowed_field(other) ==> outcome is Err,
        !fields.contains_key("queries"@) ==> outcome is Err,
        !fields.contains_key("documents"@) ==> outcome is Err,
        fields.contains_key("webhook"@) && fields["webhook"@] is Text ==> outcome is Err,
        fields.contains_key("instruction"@) && !(fields["instruction"@] is Text) ==> outcome is Err,
        outcome matches Ok(request) ==> tier_of(
            JsonModel::Object(fields).field("service_tier"@),
        ) == Some(request.service_tier),
{
    let body = JsonModel::Object(fields);
    if fields.contains_key(other) && !is_allowed_field(other) {
        assert(body.field(other) is Some);
    }
}

/// A rerank is asked for by a post to its own path.
pub proof fn reranks_are_posted(method: Seq<char>, path: Seq<char>)
    ensures
        is_inference_request("POST"@, INFERENCE_PATH@),
        is_inference_request(method, path) ==> method == "POST"@ && path == INFERENCE_PATH@,
{
}

/// Each tier has a name of its own.
pub proof fn tiers_have_their_names(tier: ServiceTier)
    ensures
        tier is Default ==> tier.label() == "default"@,
        tier is Priority ==> tier.label() == "priority"@,
        tier is Flex ==> tier.label() == "flex"@,
{
}

} // verus!
