//! Requests that are rewritten before they are forwarded, and their responses.

use crate::deepinfra_rerank::{
    adapt_request, adapted, adapted_model, converted_response, is_inference_request,
    score_response_to_deepinfra_response, AdaptedRequest, AdaptedRequestModel, RequestError,
    RequestErrorModel, ResponseExpectations,
};
use crate::errors::{
    bare_error, is_invalid_request, with_attempt, with_earlier_attempts, ErrorKind, ProxyError,
};
use crate::headers::{
    bytes_of, forwarded_headers, forwarded_request_headers, header_chars, header_text,
    header_value_of, with_header, HeaderModel, Headers,
};
use crate::json::{parsed_json, rendered_json};
use crate::message_metadata::{is_success, status_is_success};
use crate::metadata::{Bindings, Metadata};
use crate::observations::{unprocessed_record, ForwardedResponseParts};
use crate::records::record_models;
use crate::text::{
    chars_of, clone_bytes, decimal, is_space, is_space_char, lowered, same_text, to_lowercase, trim,
    trimmed,
};
use crate::uri::RequestTarget;
use vstd::prelude::*;
use vstd::utf8::encode_utf8;

verus! {

// ---------------------------------------------------------------------------
// Which requests may be rewritten
// ---------------------------------------------------------------------------

/// The place of the first white space of a text.
pub open spec fn first_space(text: Seq<char>, from: int) -> Option<int>
    decreases text.len() - from,
{
    if from < 0 || from >= text.len() {
        None
    } else if is_space(text[from]) {
        Some(from)
    } else {
        first_space(text, from + 1)
    }
}

/// Whether a character may stand in the credentials of a plain token.
pub open spec fn is_token_char(c: char) -> bool {
    ||| 'a' <= c && c <= 'z'
    ||| 'A' <= c && c <= 'Z'
    ||| '0' <= c && c <= '9'
    ||| c == '-'
    ||| c == '.'
    ||| c == '_'
    ||| c == '~'
    ||| c == '+'
    ||| c == '/'
    ||| c == '='
}

/// Whether an authorization is a plain bearer or basic token, which stays valid
/// when the body changes.
pub open spec fn is_plain_token(value: Seq<u8>) -> bool {
    match header_chars(value) {
        None => false,
        Some(text) => match first_space(trimmed(text), 0) {
            None => false,
            Some(at) => {
                let scheme = lowered(trimmed(text).take(at));
                let credentials = trimmed(trimmed(text).skip(at + 1));
                &&& credentials.len() > 0
                &&& forall|i: int|
                    0 <= i < credentials.len() ==> is_token_char(#[trigger] credentials[i])
                &&& scheme == "bearer"@ || scheme == "basic"@
            },
        },
    }
}

fn is_token_character(c: char) -> (is: bool)
    ensures
        is == is_token_char(c),
{
    (c >= 'a' && c <= 'z') || (c >= 'A' && c <= 'Z') || (c >= '0' && c <= '9') || c == '-' || c
        == '.' || c == '_' || c == '~' || c == '+' || c == '/' || c == '='
}

/// Whether an authorization is a plain bearer or basic token.
pub fn safe_proxy_authorization_value(value: &Vec<u8>) -> (safe: bool)
    ensures
        safe == is_plain_token(value@),
{
    let text = match header_text(value) {
        Some(text) => text,
        None => {
            return false;
        },
    };
    let whole = trim(text.as_str());
    let chars = chars_of(whole.as_str());
    let mut at: usize = 0;
    while at < chars.len() && !is_space_char(chars[at])
        invariant
            at <= chars.len(),
            chars@ == whole@,
            first_space(whole@, 0) == first_space(whole@, at as int),
        decreases chars.len() - at,
    {
        at += 1;
    }
    if at >= chars.len() {
        return false;
    }
    let scheme = to_lowercase(whole.as_str().substring_char(0, at));
    assert(whole@.subrange(0, at as int) =~= whole@.take(at as int));
    let rest = whole.as_str().substring_char(at + 1, chars.len());
    assert(whole@.subrange(at + 1, chars.len() as int) =~= whole@.skip(at + 1));
    let credentials = trim(rest);
    let marks = chars_of(credentials.as_str());
    if marks.len() == 0 {
        return false;
    }
    let mut i: usize = 0;
    while i < marks.len()
        invariant
            i <= marks.len(),
            marks@ == credentials@,
            credentials@ == trimmed(whole@.skip(at + 1)),
            whole@ == trimmed(text@),
            header_chars(value@) == Some(text@),
            first_space(whole@, 0) == Some(at as int),
            forall|j: int| 0 <= j < i ==> is_token_char(#[trigger] credentials@[j]),
        decreases marks.len() - i,
    {
        if !is_token_character(marks[i]) {
            assert(!is_token_char(credentials@[i as int]));
            return false;
        }
        i += 1;
    }
    same_text(scheme.as_str(), "bearer") || same_text(scheme.as_str(), "basic")
}

/// Whether every authorization of a request is a plain token.
pub open spec fn has_plain_authorization(headers: Seq<HeaderModel>) -> bool {
    forall|i: int|
        0 <= i < headers.len() && (#[trigger] headers[i]).0 == "authorization"@ ==> is_plain_token(
            headers[i].1,
        )
}

/// Whether every authorization of a request is a plain token.
pub fn score_transform_authorization_supported(headers: &Headers) -> (supported: bool)
    ensures
        supported == has_plain_authorization(headers@),
{
    let mut i: usize = 0;
    while i < headers.len()
        invariant
            i <= headers@.len(),
            forall|j: int|
                0 <= j < i && (#[trigger] headers@[j]).0 == "authorization"@ ==> is_plain_token(
                    headers@[j].1,
                ),
        decreases headers@.len() - i,
    {
        if same_text(headers.name(i), "authorization") && !safe_proxy_authorization_value(
            headers.value(i),
        ) {
            return false;
        }
        i += 1;
    }
    true
}

/// Whether the body of a request may change without making what is signed
/// invalid.
pub open spec fn may_transform(headers: Seq<HeaderModel>) -> bool {
    &&& header_value_of(headers, "signature"@) is None
    &&& header_value_of(headers, "signature-input"@) is None
    &&& has_plain_authorization(headers)
}

/// What a client is told whose request cannot be served as it stands.
#[verifier::ext_equal]
pub struct Refusal {
    pub message: Seq<char>,
    pub param: Seq<char>,
    pub code: Seq<char>,
}

/// Whether an error tells of a refusal and nothing more.
pub open spec fn tells(error: ProxyError, refusal: Refusal) -> bool {
    &&& is_invalid_request(error.kind, refusal.message, refusal.param, refusal.code)
    &&& error@ == bare_error(error.kind)
}

/// The refusal of a signed request.
pub open spec fn signed_refusal() -> Refusal {
    Refusal {
        message: "signed requests cannot be transformed without invalidating the signature"@,
        param: "headers"@,
        code: "signed_request_transformation_unsupported"@,
    }
}

/// What is recorded of a request that is signed.
pub open spec fn signed_bindings(bindings: Bindings) -> Bindings {
    bindings.insert("signed_request_transformation_rejected"@, "true"@)
}

/// Refuses to rewrite a request that is signed.
pub fn ensure_transform_headers_supported(
    downstream_headers: &Headers,
    request_metadata: &mut Metadata,
) -> (checked: Result<(), ProxyError>)
    ensures
        match checked {
            Ok(_) => may_transform(downstream_headers@) && final(request_metadata)@ == old(
                request_metadata,
            )@,
            Err(error) => {
                &&& !may_transform(downstream_headers@)
                &&& tells(error, signed_refusal())
                &&& final(request_metadata)@ == signed_bindings(old(request_metadata)@)
            },
        },
{
    if downstream_headers.get("signature").is_some() || downstream_headers.get(
        "signature-input",
    ).is_some() || !score_transform_authorization_supported(downstream_headers) {
        request_metadata.set("signed_request_transformation_rejected", "true");
        return Err(
            ProxyError::invalid_request(
                "signed requests cannot be transformed without invalidating the signature".to_owned(),
                "headers",
                "signed_request_transformation_unsupported",
            ),
        );
    }
    Ok(())
}

// ---------------------------------------------------------------------------
// Rewriting requests
// ---------------------------------------------------------------------------

/// What the response to a rewritten score request has to agree with.
#[derive(Clone, Copy, Debug, PartialEq, Eq, Structural)]
pub struct ScoreExpectations {
    pub result_count: usize,
    pub document_count: usize,
}

/// How a response is rewritten before it goes to the client.
#[derive(Clone, Copy, Debug, PartialEq, Eq, Structural)]
pub enum BufferedResponseAdapter {
    ScoreFromRerank(Option<ScoreExpectations>),
    DeepInfraQwen3Rerank(ResponseExpectations),
    HeterogeneousReranker,
}

impl BufferedResponseAdapter {
    /// The name of the rewriting.
    pub open spec fn name(self) -> Seq<char> {
        match self {
            BufferedResponseAdapter::ScoreFromRerank(_) => "score from rerank"@,
            BufferedResponseAdapter::DeepInfraQwen3Rerank(_) => "DeepInfra rerank from score"@,
            BufferedResponseAdapter::HeterogeneousReranker => "heterogeneous reranker response"@,
        }
    }

    /// The name of the rewriting.
    pub fn label(self) -> (label: &'static str)
        ensures
            label@ == self.name(),
    {
        match self {
            BufferedResponseAdapter::ScoreFromRerank(_) => "score from rerank",
            BufferedResponseAdapter::DeepInfraQwen3Rerank(_) => "DeepInfra rerank from score",
            BufferedResponseAdapter::HeterogeneousReranker => "heterogeneous reranker response",
        }
    }
}

/// What rewriting a score request as a rerank request would give.
pub struct ScoreRewrite {
    /// Whether the request is a score request.
    pub is_score_request: bool,
    /// Whether its body can be rewritten, or why it is invalid.
    pub can_adapt: Result<bool, String>,
    /// The rewritten body, or why it is invalid.
    pub body: Result<Vec<u8>, String>,
    /// Where the rewritten request goes, or why nowhere.
    pub forward_uri: Result<RequestTarget, String>,
    /// What the response has to agree with.
    pub expectations: Option<ScoreExpectations>,
}

/// A request as it is forwarded.
pub struct AdaptedOpenAiRequest {
    pub forward_uri: RequestTarget,
    pub adapted_body: Vec<u8>,
    pub response_adapter: Option<BufferedResponseAdapter>,
}

/// The meaning of a request as it is forwarded.
#[verifier::ext_equal]
pub struct AdaptedOpenAiModel {
    pub forward_uri: (Seq<char>, Option<Seq<char>>),
    pub adapted_body: Seq<u8>,
    pub response_adapter: Option<BufferedResponseAdapter>,
}

impl View for AdaptedOpenAiRequest {
    type V = AdaptedOpenAiModel;

    open spec fn view(&self) -> AdaptedOpenAiModel {
        AdaptedOpenAiModel {
            forward_uri: self.forward_uri@,
            adapted_body: self.adapted_body@,
            response_adapter: self.response_adapter,
        }
    }
}

/// Whether a request was forwarded as `expected` says, or refused as it says.
pub open spec fn comes_to(
    result: Result<AdaptedOpenAiRequest, ProxyError>,
    expected: Result<AdaptedOpenAiModel, Refusal>,
) -> bool {
    match (result, expected) {
        (Ok(request), Ok(model)) => request@ == model,
        (Err(error), Err(refusal)) => tells(error, refusal),
        _ => false,
    }
}

/// The refusal of an invalid score request.
pub open spec fn score_refusal(error: Seq<char>) -> Refusal {
    Refusal {
        message: "invalid score request: "@ + error,
        param: "body"@,
        code: "invalid_score_request"@,
    }
}

/// What is recorded of a score request that is rewritten.
pub open spec fn score_bindings(bindings: Bindings, expectations: Option<ScoreExpectations>) -> Bindings {
    let told = bindings.insert("score_via_rerank"@, "true"@);
    match expectations {
        Some(expected) => told.insert(
            "score_expected_count"@,
            decimal(expected.result_count as nat),
        ).insert("score_document_count"@, decimal(expected.document_count as nat)),
        None => told,
    }
}

/// What becomes of a request that is no DeepInfra request: a score request that
/// can be is sent as a rerank request, any other as it is.
pub open spec fn score_adaptation(
    uri: (Seq<char>, Option<Seq<char>>),
    headers: Seq<HeaderModel>,
    body: Seq<u8>,
    score: ScoreRewrite,
    bindings: Bindings,
) -> (Bindings, Result<AdaptedOpenAiModel, Refusal>) {
    let as_it_is = AdaptedOpenAiModel {
        forward_uri: uri,
        adapted_body: body,
        response_adapter: None,
    };
    if !score.is_score_request {
        (bindings, Ok(as_it_is))
    } else {
        match score.can_adapt {
            Err(error) => (bindings, Err(score_refusal(error@))),
            Ok(false) => (
                bindings.insert("score_via_rerank"@, "false"@).insert(
                    "score_passthrough"@,
                    "true"@,
                ),
                Ok(as_it_is),
            ),
            Ok(true) => if !may_transform(headers) {
                (signed_bindings(bindings), Err(signed_refusal()))
            } else {
                match (score.body, score.forward_uri) {
                    (Err(error), _) => (bindings, Err(score_refusal(error@))),
                    (Ok(_), Err(error)) => (
                        bindings,
                        Err(
                            Refusal {
                                message: "invalid score request uri: "@ + error@,
                                param: "path"@,
                                code: "invalid_score_request"@,
                            },
                        ),
                    ),
                    (Ok(rewritten), Ok(target)) => (
                        score_bindings(bindings, score.expectations),
                        Ok(
                            AdaptedOpenAiModel {
                                forward_uri: target@,
                                adapted_body: rewritten@,
                                response_adapter: Some(
                                    BufferedResponseAdapter::ScoreFromRerank(score.expectations),
                                ),
                            },
                        ),
                    ),
                }
            },
        }
    }
}

fn invalid_score(prefix: &str, error: String, param: &'static str) -> (told: ProxyError)
    ensures
        tells(
            told,
            Refusal {
                message: prefix@ + error@,
                param: param@,
                code: "invalid_score_request"@,
            },
        ),
{
    let mut message = prefix.to_owned();
    message.append(error.as_str());
    ProxyError::invalid_request(message, param, "invalid_score_request")
}

/// Rewrites a score request as a rerank request, where it is one and can be.
pub fn adapt_score_request_if_needed(
    uri: &RequestTarget,
    downstream_headers: &Headers,
    body: &Vec<u8>,
    score: ScoreRewrite,
    request_metadata: &mut Metadata,
) -> (result: Result<AdaptedOpenAiRequest, ProxyError>)
    ensures
        ({
            let (bindings, expected) = score_adaptation(
                uri@,
                downstream_headers@,
                body@,
                score,
                old(request_metadata)@,
            );
            &&& final(request_metadata)@ == bindings
            &&& comes_to(result, expected)
        }),
{
    if !score.is_score_request {
        return Ok(
            AdaptedOpenAiRequest {
                forward_uri: uri.clone(),
                adapted_body: clone_bytes(body),
                response_adapter: None,
            },
        );
    }
    let adapt = match score.can_adapt {
        Ok(adapt) => adapt,
        Err(error) => {
            return Err(invalid_score("invalid score request: ", error, "body"));
        },
    };
    if !adapt {
        request_metadata.set("score_via_rerank", "false");
        request_metadata.set("score_passthrough", "true");
        return Ok(
            AdaptedOpenAiRequest {
                forward_uri: uri.clone(),
                adapted_body: clone_bytes(body),
                response_adapter: None,
            },
        );
    }
    match ensure_transform_headers_supported(downstream_headers, request_metadata) {
        Ok(_) => {},
        Err(error) => {
            return Err(error);
        },
    }
    let adapted_body = match score.body {
        Ok(body) => body,
        Err(error) => {
            return Err(invalid_score("invalid score request: ", error, "body"));
        },
    };
    let forward_uri = match score.forward_uri {
        Ok(uri) => uri,
        Err(error) => {
            return Err(invalid_score("invalid score request uri: ", error, "path"));
        },
    };
    request_metadata.set("score_via_rerank", "true");
    match score.expectations {
        Some(expected) => {
            request_metadata.set_number("score_expected_count", expected.result_count as u64);
            request_metadata.set_number("score_document_count", expected.document_count as u64);
        },
        None => {},
    }
    Ok(
        AdaptedOpenAiRequest {
            forward_uri,
            adapted_body,
            response_adapter: Some(BufferedResponseAdapter::ScoreFromRerank(score.expectations)),
        },
    )
}

/// What becomes of the body of a DeepInfra request.
pub open spec fn deepinfra_outcome(
    query: Option<Seq<char>>,
    body: Seq<u8>,
    outcome: Result<AdaptedRequestModel, RequestErrorModel>,
) -> bool {
    match parsed_json(body) {
        Ok(value) => adapted(query, value, outcome),
        Err(error) => outcome == Err::<AdaptedRequestModel, RequestErrorModel>(
            RequestErrorModel::Invalid("invalid DeepInfra rerank JSON: "@ + error),
        ),
    }
}

/// What becomes of a DeepInfra request whose body came to `outcome`.
pub open spec fn deepinfra_adaptation(
    outcome: Result<AdaptedRequestModel, RequestErrorModel>,
    bindings: Bindings,
) -> (Bindings, Result<AdaptedOpenAiModel, Refusal>) {
    match outcome {
        Ok(request) => (
            bindings.insert(
                "deepinfra_expected_count"@,
                decimal(request.response_expectations.result_count as nat),
            ).insert("deepinfra_service_tier"@, request.service_tier.label()).insert(
                "deepinfra_service_tier_local_behavior"@,
                "single_tier"@,
            ),
            Ok(
                AdaptedOpenAiModel {
                    forward_uri: request.forward_uri,
                    adapted_body: request.body,
                    response_adapter: Some(
                        BufferedResponseAdapter::DeepInfraQwen3Rerank(
                            request.response_expectations,
                        ),
                    ),
                },
            ),
        ),
        Err(RequestErrorModel::Invalid(message)) => (
            bindings,
            Err(
                Refusal {
                    message: "invalid DeepInfra rerank request: "@ + message,
                    param: "body"@,
                    code: "invalid_deepinfra_rerank_request"@,
                },
            ),
        ),
        Err(RequestErrorModel::Unsupported(message)) => (
            bindings,
            Err(
                Refusal {
                    message: "invalid DeepInfra rerank request: "@ + message,
                    param: "body"@,
                    code: "unsupported_deepinfra_rerank_feature"@,
                },
            ),
        ),
    }
}

/// Takes a DeepInfra request on whose body came to `outcome`.
pub fn finish_deepinfra_adaptation(
    outcome: Result<AdaptedRequest, RequestError>,
    request_metadata: &mut Metadata,
) -> (result: Result<AdaptedOpenAiRequest, ProxyError>)
    ensures
        ({
            let (bindings, expected) = deepinfra_adaptation(
                adapted_model(outcome),
                old(request_metadata)@,
            );
            &&& final(request_metadata)@ == bindings
            &&& comes_to(result, expected)
        }),
{
    match outcome {
        Ok(request) => {
            request_metadata.set_number(
                "deepinfra_expected_count",
                request.response_expectations.result_count as u64,
            );
            request_metadata.set("deepinfra_service_tier", request.service_tier.as_str());
            request_metadata.set("deepinfra_service_tier_local_behavior", "single_tier");
            Ok(
                AdaptedOpenAiRequest {
                    forward_uri: request.forward_uri,
                    adapted_body: request.body,
                    response_adapter: Some(
                        BufferedResponseAdapter::DeepInfraQwen3Rerank(
                            request.response_expectations,
                        ),
                    ),
                },
            )
        },
        Err(error) => {
            let mut message = "invalid DeepInfra rerank request: ".to_owned();
            message.append(error.message().as_str());
            Err(ProxyError::invalid_request(message, "body", error.code()))
        },
    }
}

/// Whether a request was rewritten as it should be, with `after` recorded in place
/// of `before`: DeepInfra requests and score requests are rewritten.
pub open spec fn adapts(
    method: Seq<char>,
    uri: (Seq<char>, Option<Seq<char>>),
    headers: Seq<HeaderModel>,
    body: Seq<u8>,
    score: ScoreRewrite,
    before: Bindings,
    after: Bindings,
    result: Result<AdaptedOpenAiRequest, ProxyError>,
) -> bool {
    let told = before.insert("deepinfra_rerank_adapter"@, "true"@);
    if !is_inference_request(method, uri.0) {
        let (bindings, expected) = score_adaptation(uri, headers, body, score, before);
        after == bindings && comes_to(result, expected)
    } else if !may_transform(headers) {
        after == signed_bindings(told) && comes_to(result, Err(signed_refusal()))
    } else {
        exists|outcome: Result<AdaptedRequestModel, RequestErrorModel>|
            {
                let (bindings, expected) = deepinfra_adaptation(outcome, told);
                &&& #[trigger] deepinfra_outcome(uri.1, body, outcome)
                &&& after == bindings
                &&& comes_to(result, expected)
            }
    }
}

/// Rewrites a request, where it is of a kind that is rewritten.
pub fn adapt_openai_request_if_needed(
    method: &str,
    uri: &RequestTarget,
    downstream_headers: &Headers,
    body: &Vec<u8>,
    score: ScoreRewrite,
    request_metadata: &mut Metadata,
) -> (result: Result<AdaptedOpenAiRequest, ProxyError>)
    ensures
        adapts(
            method@,
            uri@,
            downstream_headers@,
            body@,
            score,
            old(request_metadata)@,
            final(request_metadata)@,
            result,
        ),
{
    if crate::deepinfra_rerank::is_request(method, uri) {
        request_metadata.set("deepinfra_rerank_adapter", "true");
        match ensure_transform_headers_supported(downstream_headers, request_metadata) {
            Ok(_) => {},
            Err(error) => {
                return Err(error);
            },
        }
        let outcome = adapt_request(uri, body.as_slice());
        assert(deepinfra_outcome(uri@.1, body@, adapted_model(outcome)));
        return finish_deepinfra_adaptation(outcome, request_metadata);
    }
    adapt_score_request_if_needed(uri, downstream_headers, body, score, request_metadata)
}

/// The header fields that speak of the body as the client sent it.
pub open spec fn speaks_of_body(name: Seq<char>) -> bool {
    ||| name == "content-encoding"@
    ||| name == "content-md5"@
    ||| name == "digest"@
    ||| name == "content-digest"@
    ||| name == "repr-digest"@
    ||| name == "etag"@
    ||| name == "if-match"@
    ||| name == "if-none-match"@
}

fn is_about_body(name: &str) -> (is: bool)
    ensures
        is == speaks_of_body(name@),
{
    same_text(name, "content-encoding") || same_text(name, "content-md5") || same_text(
        name,
        "digest",
    ) || same_text(name, "content-digest") || same_text(name, "repr-digest") || same_text(
        name,
        "etag",
    ) || same_text(name, "if-match") || same_text(name, "if-none-match")
}

/// The header fields of a rewritten request.
pub open spec fn transformed_headers(headers: Seq<HeaderModel>) -> Seq<HeaderModel> {
    with_header(
        forwarded_headers(headers),
        "accept-encoding"@,
        bytes_of("identity"@),
    ).filter(|header: HeaderModel| !speaks_of_body(header.0))
}

/// The header fields of a rewritten request: those that are handed on, without
/// what speaks of the body as it was, and the response is asked for plain.
pub fn sanitize_transformed_request_headers(headers: &Headers) -> (forwarded: Headers)
    ensures
        forwarded@ == transformed_headers(headers@),
{
    let mut all = forwarded_request_headers(headers);
    all.set_text("accept-encoding", "identity");
    let ghost keep = |header: HeaderModel| !speaks_of_body(header.0);
    let mut forwarded = Headers::new();
    let mut i: usize = 0;
    proof {
        reveal(Seq::filter);
        assert(all@.take(0).filter(keep) =~= Seq::<HeaderModel>::empty());
    }
    while i < all.len()
        invariant
            i <= all@.len(),
            keep == (|header: HeaderModel| !speaks_of_body(header.0)),
            forwarded@ == all@.take(i as int).filter(keep),
        decreases all@.len() - i,
    {
        proof {
            reveal(Seq::filter);
            assert(all@.take(i + 1).drop_last() =~= all@.take(i as int));
        }
        if !is_about_body(all.name(i)) {
            forwarded.append(all.name(i), all.value(i));
        }
        i += 1;
    }
    assert(all@.take(i as int) =~= all@);
    forwarded
}

/// A rewritten request says nothing of the body that it was rewritten from.
pub proof fn rewritten_requests_have_plain_bodies(headers: Seq<HeaderModel>, i: int)
    requires
        0 <= i < transformed_headers(headers).len(),
    ensures
        !speaks_of_body(transformed_headers(headers)[i].0),
{
    broadcast use vstd::seq_lib::group_filter_ensures;

    let keep = |header: HeaderModel| !speaks_of_body(header.0);
    let all = with_header(
        forwarded_headers(headers),
        "accept-encoding"@,
        bytes_of("identity"@),
    );
    assert(keep(all.filter(keep)[i]));
}

// ---------------------------------------------------------------------------
// Rewriting responses
// ---------------------------------------------------------------------------

/// The header fields of a rewritten response.
pub fn transformed_json_response_headers() -> (headers: Headers)
    ensures
        headers@ == with_header(Seq::empty(), "content-type"@, bytes_of("application/json"@)),
{
    let mut headers = Headers::new();
    headers.set_text("content-type", "application/json");
    headers
}

/// The header fields with a field of others, where they have it.
pub open spec fn with_field_of(
    headers: Seq<HeaderModel>,
    source: Seq<HeaderModel>,
    name: Seq<char>,
) -> Seq<HeaderModel> {
    match header_value_of(source, name) {
        Some(value) => with_header(headers, name, value),
        None => headers,
    }
}

/// The header fields of an error that is handed on: what it is, and when to try
/// again.
pub open spec fn error_headers(upstream: Seq<HeaderModel>) -> Seq<HeaderModel> {
    with_field_of(
        with_field_of(Seq::empty(), upstream, "content-type"@),
        upstream,
        "retry-after"@,
    )
}

/// The header fields of an error that is handed on.
pub fn transformed_error_response_headers(upstream_headers: &Headers) -> (headers: Headers)
    ensures
        headers@ == error_headers(upstream_headers@),
{
    let mut headers = Headers::new();
    match upstream_headers.get("content-type") {
        Some(value) => {
            headers.set("content-type", value);
        },
        None => {},
    }
    match upstream_headers.get("retry-after") {
        Some(value) => {
            headers.set("retry-after", value);
        },
        None => {},
    }
    headers
}

/// What a response body is rewritten to, or why it cannot be. What the other
/// rewritings give is `elsewhere`.
pub open spec fn rewritten(
    adapter: BufferedResponseAdapter,
    body: Seq<u8>,
    elsewhere: Result<Seq<u8>, Seq<char>>,
) -> Result<Seq<u8>, Seq<char>> {
    match adapter {
        BufferedResponseAdapter::DeepInfraQwen3Rerank(expected) => match parsed_json(body) {
            Err(error) => Err("invalid vLLM score JSON: "@ + error),
            Ok(value) => match converted_response(value, expected.result_count as nat) {
                Err(message) => Err(message),
                Ok(response) => Ok(encode_utf8(rendered_json(response))),
            },
        },
        _ => elsewhere,
    }
}

/// The meaning of a rewriting.
pub open spec fn rewrite_model(result: Result<Vec<u8>, String>) -> Result<Seq<u8>, Seq<char>> {
    match result {
        Ok(body) => Ok(body@),
        Err(error) => Err(error@),
    }
}

impl BufferedResponseAdapter {
    /// Rewrites a response body.
    pub fn rewrite(self, body: &[u8], elsewhere: Result<Vec<u8>, String>) -> (result: Result<
        Vec<u8>,
        String,
    >)
        ensures
            rewrite_model(result) == rewritten(self, body@, rewrite_model(elsewhere)),
    {
        match self {
            BufferedResponseAdapter::DeepInfraQwen3Rerank(
                expected,
            ) => score_response_to_deepinfra_response(body, expected),
            _ => elsewhere,
        }
    }
}

/// A response as it goes to the client.
pub struct BufferedResponse {
    pub body: Vec<u8>,
    pub headers: Headers,
    pub response_metadata: Metadata,
}

/// What is recorded of the length of a body.
pub open spec fn length_bindings(bytes: nat) -> Bindings {
    Bindings::empty().insert("response_body_bytes"@, decimal(bytes))
}

/// The error of a response that could not be taken on.
pub open spec fn unprocessed(
    parts: ForwardedResponseParts,
    error: ProxyError,
    kind: ErrorKind,
    extra: Bindings,
    now_ms: u64,
) -> bool {
    error@ == with_earlier_attempts(
        with_attempt(
            bare_error(kind),
            parts.request_metadata@,
            unprocessed_record(parts, kind, extra, now_ms),
        ),
        record_models(parts.completed_attempt_records@),
    )
}

/// Rewrites a response that was read whole. A response that tells of success is
/// rewritten; any other is handed on. A response that cannot be rewritten is an
/// error of the upstream.
pub fn rewrite_buffered_adapter_response(
    parts: ForwardedResponseParts,
    body: Vec<u8>,
    adapter: BufferedResponseAdapter,
    elsewhere: Result<Vec<u8>, String>,
    now_ms: u64,
) -> (result: Result<BufferedResponse, ProxyError>)
    ensures
        match (
            is_success(parts.upstream_status),
            rewritten(adapter, body@, rewrite_model(elsewhere)),
        ) {
            (false, _) => {
                &&& result is Ok
                &&& result->Ok_0.body@ == body@
                &&& result->Ok_0.headers@ == error_headers(parts.upstream_headers@)
                &&& result->Ok_0.response_metadata@ == length_bindings(body@.len())
            },
            (true, Ok(bytes)) => {
                &&& result is Ok
                &&& result->Ok_0.body@ == bytes
                &&& result->Ok_0.headers@ == with_header(
                    Seq::empty(),
                    "content-type"@,
                    bytes_of("application/json"@),
                )
                &&& result->Ok_0.response_metadata@ == length_bindings(body@.len())
            },
            (true, Err(message)) => {
                &&& result is Err
                &&& result->Err_0.kind is UpstreamBody
                &&& result->Err_0.kind.message_text()
                    == "failed to read upstream response body within proxy limit: "@ + (
                adapter.name() + " response rewrite failed: "@ + message)
                &&& unprocessed(
                    parts,
                    result->Err_0,
                    result->Err_0.kind,
                    length_bindings(body@.len()),
                    now_ms,
                )
            },
        },
{
    let mut response_metadata = Metadata::new();
    response_metadata.set_number("response_body_bytes", body.len() as u64);
    if !status_is_success(parts.upstream_status) {
        return Ok(
            BufferedResponse {
                headers: transformed_error_response_headers(&parts.upstream_headers),
                body,
                response_metadata,
            },
        );
    }
    match adapter.rewrite(body.as_slice(), elsewhere) {
        Ok(body) => Ok(
            BufferedResponse {
                body,
                headers: transformed_json_response_headers(),
                response_metadata,
            },
        ),
        Err(error) => {
            let mut message = adapter.label().to_owned();
            message.append(" response rewrite failed: ");
            message.append(error.as_str());
            Err(
                parts.into_response_process_error(
                    ProxyError::upstream_body(message),
                    response_metadata,
                    now_ms,
                ),
            )
        },
    }
}

/// A request that is no score and no rerank request goes on as it came.
pub proof fn other_requests_go_on_as_they_came(
    method: Seq<char>,
    uri: (Seq<char>, Option<Seq<char>>),
    headers: Seq<HeaderModel>,
    body: Seq<u8>,
    score: ScoreRewrite,
    before: Bindings,
    after: Bindings,
    result: Result<AdaptedOpenAiRequest, ProxyError>,
)
    requires
        adapts(method, uri, headers, body, score, before, after, result),
        !score.is_score_request,
        method != "POST"@ || uri.0 != "/v1/inference/Qwen/Qwen3-Reranker-8B"@,
    ensures
        after == before,
        result matches Ok(request) && request@.forward_uri == uri && request@.adapted_body == body
            && request@.response_adapter is None,
{
}

/// A request that is signed is never rewritten: where it would have to be, it is
/// refused.
pub proof fn signed_requests_are_not_rewritten(
    method: Seq<char>,
    uri: (Seq<char>, Option<Seq<char>>),
    headers: Seq<HeaderModel>,
    body: Seq<u8>,
    score: ScoreRewrite,
    before: Bindings,
    after: Bindings,
    result: Result<AdaptedOpenAiRequest, ProxyError>,
)
    requires
        adapts(method, uri, headers, body, score, before, after, result),
        header_value_of(headers, "signature"@) is Some || header_value_of(
            headers,
            "signature-input"@,
        ) is Some,
    ensures
        result matches Ok(request) ==> request@.forward_uri == uri && request@.adapted_body == body
            && request@.response_adapter is None,
        method == "POST"@ && uri.0 == "/v1/inference/Qwen/Qwen3-Reranker-8B"@ ==> result is Err,
{
}

/// A score request that can be asked as a rerank request is, at the place and with the
/// body that were made for it; one that cannot goes on as it came, and one that is
/// wrong is refused.
pub proof fn scores_are_asked_as_reranks(
    uri: (Seq<char>, Option<Seq<char>>),
    headers: Seq<HeaderModel>,
    body: Seq<u8>,
    score: ScoreRewrite,
    bindings: Bindings,
)
    requires
        score.is_score_request,
    ensures
        ({
            let (told, result) = score_adaptation(uri, headers, body, score, bindings);
            &&& score.can_adapt is Err ==> result is Err && told == bindings
            &&& score.can_adapt == Ok::<bool, String>(false) ==> (result matches Ok(request)
                && request.forward_uri == uri && request.adapted_body == body
                && request.response_adapter is None)
            &&& score.can_adapt == Ok::<bool, String>(true) && may_transform(headers) && (
            score.body matches Ok(rewritten) && (score.forward_uri matches Ok(target))) ==> (
            result matches Ok(request) && request.adapted_body == score.body->Ok_0@
                && request.forward_uri == score.forward_uri->Ok_0@
                && request.response_adapter == Some(
                BufferedResponseAdapter::ScoreFromRerank(score.expectations),
            ))
            &&& score.can_adapt == Ok::<bool, String>(true) && score.body is Err ==> result is Err
        }),
{
}

/// A refused rerank request is refused for what is wrong with it, and an adapted one
/// goes on as it was adapted, with an answer of as many scores.
pub proof fn adapted_reranks_go_on(
    request: AdaptedRequestModel,
    message: Seq<char>,
    bindings: Bindings,
)
    ensures
        ({
            let (told, result) = deepinfra_adaptation(Ok(request), bindings);
            &&& (result matches Ok(sent) && sent.forward_uri == request.forward_uri
                && sent.adapted_body == request.body && sent.response_adapter == Some(
                BufferedResponseAdapter::DeepInfraQwen3Rerank(request.response_expectations),
            ))
        }),
        deepinfra_adaptation(Err(RequestErrorModel::Invalid(message)), bindings).1 matches Err(
            refusal,
        ) && refusal.code == "invalid_deepinfra_rerank_request"@,
        deepinfra_adaptation(Err(RequestErrorModel::Unsupported(message)), bindings).1 matches Err(
            refusal,
        ) && refusal.code == "unsupported_deepinfra_rerank_feature"@,
{
}

/// The names of the fields that speak of a body which is rewritten.
pub proof fn fields_of_the_body_are_known(name: Seq<char>)
    ensures
        speaks_of_body("content-encoding"@),
        speaks_of_body("content-md5"@),
        speaks_of_body("digest"@),
        speaks_of_body("content-digest"@),
        speaks_of_body("repr-digest"@),
        speaks_of_body("etag"@),
        speaks_of_body("if-match"@),
        speaks_of_body("if-none-match"@),
        !speaks_of_body("authorization"@),
        !speaks_of_body("content-type"@),
{
    reveal_strlit("authorization");
    reveal_strlit("content-type");
    reveal_strlit("content-encoding");
    reveal_strlit("content-md5");
    reveal_strlit("digest");
    reveal_strlit("content-digest");
    reveal_strlit("repr-digest");
    reveal_strlit("etag");
    reveal_strlit("if-match");
    reveal_strlit("if-none-match");
    assert("authorization"@.len() == 13);
    assert("content-type"@.len() == 12);
    assert("content-encoding"@.len() == 16);
    assert("content-md5"@.len() == 11);
    assert("digest"@.len() == 6);
    assert("content-digest"@.len() == 14);
    assert("repr-digest"@.len() == 11);
    assert("etag"@.len() == 4);
    assert("if-match"@.len() == 8);
    assert("if-none-match"@.len() == 13);
    assert("if-none-match"@[0] == 'i');
    assert("authorization"@[0] == 'a');
}

/// An error of an upstream keeps its type and the time to wait, where it has them.
pub proof fn upstream_errors_keep_their_headers(upstream: Seq<HeaderModel>)
    ensures
        header_value_of(error_headers(upstream), "content-type"@) == header_value_of(
            upstream,
            "content-type"@,
        ),
        header_value_of(error_headers(upstream), "retry-after"@) == header_value_of(
            upstream,
            "retry-after"@,
        ),
{
    reveal_strlit("content-type");
    reveal_strlit("retry-after");
    assert(lowered("content-type"@) =~= "content-type"@);
    assert(lowered("retry-after"@) =~= "retry-after"@);
    assert("content-type"@.len() != "retry-after"@.len());
    let none = Seq::<HeaderModel>::empty();
    let typed = with_field_of(none, upstream, "content-type"@);
    match header_value_of(upstream, "content-type"@) {
        Some(value) => {
            crate::headers::set_headers_have_their_value(
                none,
                "content-type"@,
                value,
                "retry-after"@,
            );
        },
        None => {},
    }
    match header_value_of(upstream, "retry-after"@) {
        Some(value) => {
            crate::headers::set_headers_have_their_value(
                typed,
                "retry-after"@,
                value,
                "content-type"@,
            );
        },
        None => {},
    }
}

/// A plain credential is a scheme that is known, a blank and a token; anything else may
/// be a signature and is not.
pub proof fn plain_tokens_have_a_known_scheme(value: Seq<u8>, text: Seq<char>)
    requires
        header_chars(value) == Some(text),
    ensures
        is_plain_token(value) ==> ({
            let told = trimmed(text);
            let at = first_space(told, 0);
            &&& at is Some
            &&& lowered(told.take(at->Some_0)) == "bearer"@ || lowered(told.take(at->Some_0))
                == "basic"@
            &&& forall|i: int|
                0 <= i < trimmed(told.skip(at->Some_0 + 1)).len() ==> is_token_char(
                    #[trigger] trimmed(told.skip(at->Some_0 + 1))[i],
                )
        }),
        first_space(trimmed(text), 0) is None ==> !is_plain_token(value),
        is_token_char('a') && is_token_char('z') && is_token_char('A') && is_token_char('Z')
            && is_token_char('0') && is_token_char('9') && is_token_char('-') && is_token_char('.')
            && is_token_char('_') && is_token_char('~') && is_token_char('+') && is_token_char('/')
            && is_token_char('='),
        !is_token_char(' ') && !is_token_char(',') && !is_token_char('"') && !is_token_char(':'),
{
}

/// What is recorded of a rewritten answer is how long it is.
pub proof fn rewritten_answers_have_their_length(
    bytes: nat,
)
    ensures
        ({
            let told = length_bindings(bytes);
            &&& told.contains_key("response_body_bytes"@) && told["response_body_bytes"@] == decimal(bytes)
        }),
{
    reveal_strlit("response_body_bytes");
    assert("response_body_bytes"@.len() == 19);
}

/// A refused rewriting is recorded.
pub proof fn refused_rewrites_are_recorded(
    bindings: Bindings,
)
    ensures
        ({
            let told = signed_bindings(bindings);
            &&& told.contains_key("signed_request_transformation_rejected"@) && told["signed_request_transformation_rejected"@] == "true"@
        }),
{
    reveal_strlit("signed_request_transformation_rejected");
    assert("signed_request_transformation_rejected"@.len() == 38);
}

/// What is recorded of a score request says that it goes as a rerank and how many
/// answers and documents it has.
pub proof fn score_requests_are_recorded(
    bindings: Bindings,
    expected: ScoreExpectations,
)
    ensures
        ({
            let told = score_bindings(bindings, Some(expected));
            &&& told.contains_key("score_via_rerank"@) && told["score_via_rerank"@] == "true"@
            &&& told.contains_key("score_expected_count"@) && told["score_expected_count"@] == decimal(expected.result_count as nat)
            &&& told.contains_key("score_document_count"@) && told["score_document_count"@] == decimal(expected.document_count as nat)
        }),
{
    reveal_strlit("score_via_rerank");
    reveal_strlit("score_expected_count");
    reveal_strlit("score_document_count");
    assert("score_via_rerank"@.len() == 16);
    assert("score_expected_count"@.len() == 20);
    assert("score_document_count"@.len() == 20);
    assert("score_expected_count"@[6] != "score_document_count"@[6]);
}

/// A refusal is told as an invalid request, with its message, the part of the request
/// that is meant and the code, and with nothing else.
pub proof fn refusals_are_told_as_they_are(error: ProxyError, refusal: Refusal, reason: Seq<char>)
    ensures
        tells(error, refusal) ==> {
            &&& error@.kind == error.kind
            &&& error@.request_metadata is None
            &&& error@.attempts.len() == 0
            &&& error.kind matches ErrorKind::ContextBudgetExceeded { message, param, code }
            &&& message@ == refusal.message
            &&& param@ == refusal.param
            &&& code@ == refusal.code
        },
        signed_refusal().param == "headers"@,
        signed_refusal().code == "signed_request_transformation_unsupported"@,
        score_refusal(reason).param == "body"@,
        score_refusal(reason).code == "invalid_score_request"@,
        crate::text::has_part(score_refusal(reason).message, reason),
{
    let before = "invalid score request: "@;
    assert(score_refusal(reason).message =~= before + reason + Seq::<char>::empty());
    crate::text::prefixes_and_parts_are_found(before, reason, Seq::empty());
}

/// A request may be rewritten where each of its credentials is a plain token; one that
/// is not is enough to refuse it.
pub proof fn every_credential_must_be_plain(headers: Seq<HeaderModel>, header: HeaderModel)
    ensures
        header.0 == "authorization"@ && !is_plain_token(header.1) ==> !has_plain_authorization(
            headers.push(header),
        ),
        header.0 == "authorization"@ && is_plain_token(header.1) ==> has_plain_authorization(
            headers.push(header),
        ) == has_plain_authorization(headers),
        header.0 != "authorization"@ ==> has_plain_authorization(headers.push(header))
            == has_plain_authorization(headers),
        has_plain_authorization(Seq::empty()),
{
    let more = headers.push(header);
    assert(more[headers.len() as int] == header);
    assert forall|i: int| 0 <= i < headers.len() implies more[i] == #[trigger] headers[i] by {}
    if has_plain_authorization(more) {
        assert forall|i: int|
            0 <= i < headers.len() && (#[trigger] headers[i]).0 == "authorization"@ implies is_plain_token(
            headers[i].1,
        ) by {
            assert(more[i] == headers[i]);
        }
    }
}

/// An answer that could not be processed is told with the attempts before it and the one
/// that failed.
pub proof fn unprocessed_answers_keep_their_attempts(
    parts: ForwardedResponseParts,
    error: ProxyError,
    kind: ErrorKind,
    extra: Bindings,
    now_ms: u64,
)
    requires
        unprocessed(parts, error, kind, extra, now_ms),
    ensures
        error.kind == kind,
        kind.is_upstream_failure() ==> {
            &&& error@.observability matches Some(seen)
            &&& seen.request_metadata == parts.request_metadata@
            &&& seen.attempt_record == unprocessed_record(parts, kind, extra, now_ms)
            &&& seen.completed == record_models(parts.completed_attempt_records@)
        },
        kind is Shutdown ==> error@.attempts.len() == parts.completed_attempt_records@.len() + 1,
{
    assert(error@.kind == error.kind);
}

/// The scheme of a plain credential is one of two, whatever its case, and its token
/// follows a blank.
pub proof fn bearer_credentials_are_plain(value: Seq<u8>, token: Seq<char>)
    requires
        token.len() > 0,
        forall|i: int| 0 <= i < token.len() ==> is_token_char(#[trigger] token[i]),
    ensures
        header_chars(value) == Some("Bearer "@ + token) ==> is_plain_token(value),
        header_chars(value) == Some("Basic "@ + token) ==> is_plain_token(value),
        header_chars(value) == Some("Digest "@ + token) ==> !is_plain_token(value),
        header_chars(value) == Some(token) ==> !is_plain_token(value),
{
    if header_chars(value) == Some("Bearer "@ + token) {
        reveal_strlit("Bearer ");
        reveal_strlit("bearer");
        credentials_have_a_scheme("Bearer "@, token);
        assert(lowered("Bearer "@.drop_last()) =~= "bearer"@);
    }
    if header_chars(value) == Some("Basic "@ + token) {
        reveal_strlit("Basic ");
        reveal_strlit("basic");
        credentials_have_a_scheme("Basic "@, token);
        assert(lowered("Basic "@.drop_last()) =~= "basic"@);
    }
    if header_chars(value) == Some("Digest "@ + token) {
        reveal_strlit("Digest ");
        reveal_strlit("bearer");
        reveal_strlit("basic");
        credentials_have_a_scheme("Digest "@, token);
        assert(lowered("Digest "@.drop_last())[0] == 'd');
        assert("bearer"@[0] == 'b' && "basic"@[0] == 'b');
    }
    if header_chars(value) == Some(token) {
        tokens_have_no_blanks(token, 0);
        assert(is_token_char(token[0]) && is_token_char(token.last()));
        crate::text::visible_characters_are_no_white_space(token[0]);
        crate::text::visible_characters_are_no_white_space(token.last());
        crate::text::bare_texts_stay(token);
    }
}

proof fn tokens_have_no_blanks(token: Seq<char>, from: int)
    requires
        0 <= from <= token.len(),
        forall|i: int| 0 <= i < token.len() ==> is_token_char(#[trigger] token[i]),
    ensures
        first_space(token, from) is None,
    decreases token.len() - from,
{
    if from < token.len() {
        assert(is_token_char(token[from]));
        crate::text::visible_characters_are_no_white_space(token[from]);
        tokens_have_no_blanks(token, from + 1);
    }
}

proof fn credentials_have_a_scheme(scheme: Seq<char>, token: Seq<char>)
    requires
        scheme.len() > 1,
        scheme.last() == ' ',
        forall|i: int| 0 <= i < scheme.len() - 1 ==> 'A' <= #[trigger] scheme[i] <= 'z',
        token.len() > 0,
        forall|i: int| 0 <= i < token.len() ==> is_token_char(#[trigger] token[i]),
    ensures
        trimmed(scheme + token) == scheme + token,
        first_space(scheme + token, 0) == Some(scheme.len() - 1),
        (scheme + token).take(scheme.len() - 1) == scheme.drop_last(),
        (scheme + token).skip(scheme.len() as int) == token,
        trimmed(token) == token,
{
    let text = scheme + token;
    assert(is_token_char(token[0]) && is_token_char(token.last()));
    crate::text::visible_characters_are_no_white_space(token[0]);
    crate::text::visible_characters_are_no_white_space(token.last());
    crate::text::visible_characters_are_no_white_space(scheme[0]);
    assert(text[0] == scheme[0] && text.last() == token.last());
    crate::text::bare_texts_stay(text);
    crate::text::bare_texts_stay(token);
    assert(text[scheme.len() - 1] == ' ');
    crate::text::blanks_are_white_space(' ');
    assert forall|i: int| 0 <= i < scheme.len() - 1 implies !is_space(#[trigger] text[i]) by {
        assert(text[i] == scheme[i]);
        crate::text::visible_characters_are_no_white_space(scheme[i]);
    }
    the_blank_comes_first(text, 0, scheme.len() - 1);
    assert(text.take(scheme.len() - 1) =~= scheme.drop_last());
    assert(text.skip(scheme.len() as int) =~= token);
}

proof fn the_blank_comes_first(text: Seq<char>, from: int, at: int)
    requires
        0 <= from <= at < text.len(),
        is_space(text[at]),
        forall|i: int| from <= i < at ==> !is_space(#[trigger] text[i]),
    ensures
        first_space(text, from) == Some(at),
    decreases at - from,
{
    if from < at {
        the_blank_comes_first(text, from + 1, at);
    }
}

/// A signed rerank is refused and said to be; any other request is a score or goes on.
pub proof fn signed_reranks_are_refused(
    uri: (Seq<char>, Option<Seq<char>>),
    headers: Seq<HeaderModel>,
    body: Seq<u8>,
    score: ScoreRewrite,
    before: Bindings,
    after: Bindings,
    result: Result<AdaptedOpenAiRequest, ProxyError>,
    method: Seq<char>,
)
    requires
        adapts(method, uri, headers, body, score, before, after, result),
    ensures
        is_inference_request(method, uri.0) && !may_transform(headers) ==> {
            &&& result matches Err(error)
            &&& tells(error, signed_refusal())
            &&& after["signed_request_transformation_rejected"@] == "true"@
            &&& after["deepinfra_rerank_adapter"@] == "true"@
        },
        !is_inference_request(method, uri.0) ==> after == score_adaptation(
            uri,
            headers,
            body,
            score,
            before,
        ).0 && (result is Ok <==> score_adaptation(uri, headers, body, score, before).1 is Ok),
{
    reveal_strlit("signed_request_transformation_rejected");
    reveal_strlit("deepinfra_rerank_adapter");
    assert("signed_request_transformation_rejected"@.len() == 38);
    assert("deepinfra_rerank_adapter"@.len() == 24);
}

/// Each adapter has a name of its own.
pub proof fn adapters_have_their_names(adapter: BufferedResponseAdapter)
    ensures
        adapter is ScoreFromRerank ==> adapter.name() == "score from rerank"@,
        adapter is DeepInfraQwen3Rerank ==> adapter.name() == "DeepInfra rerank from score"@,
        adapter is HeterogeneousReranker ==> adapter.name() == "heterogeneous reranker response"@,
{
}

/// What is recorded of a rerank says how many answers it has and of which tier it is.
pub proof fn adapted_reranks_are_recorded(
    bindings: Bindings,
    request: AdaptedRequestModel,
)
    ensures
        ({
            let told = deepinfra_adaptation(Ok(request), bindings).0;
            &&& told.contains_key("deepinfra_expected_count"@) && told["deepinfra_expected_count"@] == decimal(
                request.response_expectations.result_count as nat,
            )
            &&& told.contains_key("deepinfra_service_tier"@) && told["deepinfra_service_tier"@] == request.service_tier.label()
            &&& told.contains_key("deepinfra_service_tier_local_behavior"@) && told["deepinfra_service_tier_local_behavior"@] == "single_tier"@
        }),
{
    reveal_strlit("deepinfra_expected_count");
    reveal_strlit("deepinfra_service_tier");
    reveal_strlit("deepinfra_service_tier_local_behavior");
    assert("deepinfra_expected_count"@.len() == 24);
    assert("deepinfra_service_tier"@.len() == 22);
    assert("deepinfra_service_tier_local_behavior"@.len() == 37);
}

/// A rerank that is refused is told why, and whether it is wrong or only cannot be done.
pub proof fn refused_reranks_are_told_why(bindings: Bindings, reason: Seq<char>)
    ensures
        deepinfra_adaptation(Err(RequestErrorModel::Invalid(reason)), bindings).1 matches Err(
            refusal,
        ) && refusal.code == "invalid_deepinfra_rerank_request"@ && refusal.param == "body"@
            && crate::text::has_part(refusal.message, reason),
        deepinfra_adaptation(Err(RequestErrorModel::Unsupported(reason)), bindings).1 matches Err(
            refusal,
        ) && refusal.code == "unsupported_deepinfra_rerank_feature"@ && refusal.param == "body"@
            && crate::text::has_part(refusal.message, reason),
        signed_refusal().message
            == "signed requests cannot be transformed without invalidating the signature"@,
{
    let before = "invalid DeepInfra rerank request: "@;
    assert(before + reason =~= before + reason + Seq::<char>::empty());
    crate::text::prefixes_and_parts_are_found(before, reason, Seq::empty());
}

} // verus!
