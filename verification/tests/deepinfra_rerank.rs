//! The reranker adapter: requests, responses, and the limits of both.

use llm_guard_proxy::deepinfra_rerank::{
    adapt_request, check_score_domain, is_request, model_id_from_path, scalar_score_to_probability,
    score_response_to_deepinfra_response, AdaptedRequest, RequestError, ResponseExpectations,
    ServiceTier, DEFAULT_INSTRUCTION, INFERENCE_PATH, MODEL_ID, UPSTREAM_MODEL_ID,
};
use llm_guard_proxy::uri::RequestTarget;
use serde_json::Value;

fn target(path: &str, query: Option<&str>) -> RequestTarget {
    RequestTarget {
        path: path.to_owned(),
        query: query.map(str::to_owned),
    }
}

fn request_body(extra: &str) -> Vec<u8> {
    format!(r#"{{"queries":["q1","q2"],"documents":["d1","d2"]{extra}}}"#).into_bytes()
}

fn adapt(body: &[u8]) -> Result<AdaptedRequest, RequestError> {
    adapt_request(&target(INFERENCE_PATH, None), body)
}

fn adapted(body: &[u8]) -> AdaptedRequest {
    match adapt(body) {
        Ok(request) => request,
        Err(error) => panic!("refused: {}", error.message()),
    }
}

fn refusal(body: &[u8]) -> String {
    match adapt(body) {
        Ok(_) => panic!("wrongly accepted"),
        Err(error) => error.message(),
    }
}

fn score_body(data: &str, usage: &str, id: &str) -> Vec<u8> {
    format!(r#"{{"data":{data},"usage":{usage}{id}}}"#).into_bytes()
}

fn response_json(body: &[u8], expected_count: usize) -> Result<Value, String> {
    score_response_to_deepinfra_response(
        body,
        ResponseExpectations {
            result_count: expected_count,
        },
    )
    .and_then(|body| serde_json::from_slice(&body).map_err(|error| error.to_string()))
}

fn numbers(list: &[f64]) -> Value {
    Value::from(list.to_vec())
}

#[test]
fn recognizes_only_the_exact_post_model_path() {
    let exact = target(INFERENCE_PATH, None);
    let with_query = target(INFERENCE_PATH, Some("client=deepinfra"));
    let wrong_case = target("/v1/inference/qwen/Qwen3-Reranker-8B", None);

    assert!(is_request("POST", &exact));
    assert!(is_request("POST", &with_query));
    assert!(!is_request("GET", &exact));
    assert!(!is_request("POST", &wrong_case));
    assert_eq!(model_id_from_path("POST", &exact), Some(MODEL_ID));
    assert_eq!(model_id_from_path("GET", &exact), None);
}

#[test]
fn rewrites_pairs_as_one_vllm_nn_score_batch() {
    let uri = target(INFERENCE_PATH, Some("client=deepinfra"));
    let adapted = match adapt_request(&uri, &request_body("")) {
        Ok(adapted) => adapted,
        Err(error) => panic!("refused: {}", error.message()),
    };
    let value: Value = serde_json::from_slice(&adapted.body).expect("score JSON");

    assert_eq!(adapted.forward_uri.path, "/v1/score");
    assert_eq!(
        adapted.forward_uri.query.as_deref(),
        Some("client=deepinfra")
    );
    assert_eq!(value["model"], UPSTREAM_MODEL_ID);
    assert_eq!(value["text_1"], Value::from(vec!["q1", "q2"]));
    assert_eq!(value["text_2"], Value::from(vec!["d1", "d2"]));
    assert!(value.get("query").is_none());
    assert!(value.get("documents").is_none());
    assert_eq!(adapted.response_expectations.result_count, 2);
}

#[test]
fn accepts_absent_or_explicit_default_instruction() {
    let absent = adapted(&request_body(""));
    let explicit = adapted(&request_body(&format!(
        r#","instruction":{}"#,
        serde_json::to_string(DEFAULT_INSTRUCTION).expect("serialize default instruction")
    )));

    assert_eq!(absent.body, explicit.body);
}

#[test]
fn rejects_custom_instruction_instead_of_ignoring_it() {
    let error = refusal(&request_body(r#", "instruction":"rank legal passages""#));

    assert!(error.contains("custom instruction"), "{error}");
    assert!(error.contains("/v1/score"), "{error}");
}

#[test]
fn validates_instruction_length_before_reporting_missing_plumbing() {
    let at_limit = "x".repeat(2_048);
    let over_limit = "x".repeat(2_049);
    let at_limit_error = refusal(&request_body(&format!(
        r#", "instruction":{}"#,
        serde_json::to_string(&at_limit).expect("serialize instruction")
    )));
    let over_limit_error = refusal(&request_body(&format!(
        r#", "instruction":{}"#,
        serde_json::to_string(&over_limit).expect("serialize instruction")
    )));

    assert!(
        at_limit_error.contains("custom instruction"),
        "{at_limit_error}"
    );
    assert!(over_limit_error.contains("2048"), "{over_limit_error}");
}

#[test]
fn rejects_missing_empty_mismatched_and_oversized_pairs() {
    let oversized = vec!["x"; 1_025];
    let cases = [
        (r#"{"documents":["d"]}"#.to_owned(), "queries"),
        (r#"{"queries":["q"]}"#.to_owned(), "documents"),
        (r#"{"queries":[],"documents":[]}"#.to_owned(), "non-empty"),
        (
            r#"{"queries":["q1","q2"],"documents":["d1"]}"#.to_owned(),
            "same length",
        ),
        (
            format!(
                r#"{{"queries":{},"documents":["d"]}}"#,
                serde_json::to_string(&oversized).expect("serialize oversized request")
            ),
            "1024",
        ),
    ];

    for (body, expected) in cases {
        let error = refusal(body.as_bytes());
        assert!(
            error.contains(expected),
            "expected {expected:?} in {error:?}"
        );
    }
}

#[test]
fn rejects_wrong_input_and_optional_field_types() {
    let cases = [
        r#"{"queries":"q","documents":["d"]}"#,
        r#"{"queries":[1],"documents":["d"]}"#,
        r#"{"queries":["q"],"documents":"d"}"#,
        r#"{"queries":["q"],"documents":[{"text":"d"}]}"#,
        r#"{"queries":["q"],"documents":["d"],"instruction":3}"#,
        r#"{"queries":["q"],"documents":["d"],"service_tier":3}"#,
        r#"{"queries":["q"],"documents":["d"],"webhook":3}"#,
    ];

    for body in cases {
        assert!(adapt(body.as_bytes()).is_err(), "wrongly accepted {body}");
    }
}

#[test]
fn validates_all_documented_service_tier_values() {
    for (raw, expected) in [
        ("default", ServiceTier::Default),
        ("priority", ServiceTier::Priority),
        ("flex", ServiceTier::Flex),
    ] {
        let adapted = adapted(&request_body(&format!(r#", "service_tier":"{raw}""#)));
        assert_eq!(adapted.service_tier, expected);
        assert_eq!(adapted.service_tier.as_str(), raw);
    }
    let defaulted = adapted(&request_body(""));
    assert_eq!(defaulted.service_tier, ServiceTier::Default);

    let error = refusal(&request_body(r#", "service_tier":"expedite""#));
    assert!(error.contains("default, priority, or flex"), "{error}");
}

#[test]
fn rejects_non_null_webhook_as_unsupported_async_behavior() {
    adapted(&request_body(r#", "webhook":null"#));
    let error = refusal(&request_body(
        r#", "webhook":"https://example.invalid/result""#,
    ));

    assert!(error.contains("webhook"), "{error}");
    assert!(error.contains("synchronous"), "{error}");
}

#[test]
fn maps_scalar_head_endpoints_order_and_ties_to_probabilities() {
    let body = score_body(
        r#"[{"index":3,"score":0.0},{"index":1,"score":1.0},{"index":0,"score":-1.0},{"index":2,"score":0.0}]"#,
        r#"{"prompt_tokens":27,"total_tokens":27,"completion_tokens":0}"#,
        r#","id":"score-upstream-123""#,
    );
    let value = response_json(&body, 4).expect("valid response should adapt");

    assert_eq!(value["scores"], numbers(&[0.0, 1.0, 0.5, 0.5]));
    assert_eq!(value["input_tokens"], 27);
    assert_eq!(value["request_id"], "score-upstream-123");
    assert_eq!(value["inference_status"]["status"], "succeeded");
    assert_eq!(value["inference_status"]["runtime_ms"], 0);
    assert_eq!(value["inference_status"]["cost"], 0.0);
    assert_eq!(value["inference_status"]["tokens_generated"], 0);
    assert_eq!(value["inference_status"]["tokens_input"], 27);
    assert_eq!(value["inference_status"]["output_length"], 0);
}

#[test]
fn clamps_only_tiny_f32_domain_roundoff() {
    let body = score_body(
        r#"[{"index":0,"score":-1.0000005},{"index":1,"score":1.0000005}]"#,
        r#"{"prompt_tokens":2}"#,
        "",
    );
    let value = response_json(&body, 2).expect("tiny roundoff should adapt");
    assert_eq!(value["scores"], numbers(&[0.0, 1.0]));

    for score in [-1.000_01, 1.000_01] {
        let body = score_body(
            &format!(r#"[{{"index":0,"score":{score}}}]"#),
            r#"{"prompt_tokens":1}"#,
            "",
        );
        let error = response_json(&body, 1).expect_err("material domain violation should fail");
        assert!(error.contains("[-1, 1]"), "{error}");
    }
}

#[test]
fn rejects_nonfinite_scalar_scores() {
    for score in [f64::NAN, f64::INFINITY, f64::NEG_INFINITY] {
        let error = check_score_domain(score.to_bits(), &score.to_string())
            .expect_err("non-finite scalar score must fail closed");
        assert!(error.contains("[-1, 1]"), "{error}");
    }
}

#[test]
fn rejects_incomplete_duplicate_or_out_of_range_indices() {
    let cases = [
        "[]",
        r#"[{"index":0,"score":0.0}]"#,
        r#"[{"index":0,"score":0.0},{"index":0,"score":0.1}]"#,
        r#"[{"index":0,"score":0.0},{"index":2,"score":0.1}]"#,
        r#"[{"index":1,"score":0.0},{"index":2,"score":0.1}]"#,
    ];

    for data in cases {
        let body = score_body(data, r#"{"prompt_tokens":2}"#, "");
        assert!(
            response_json(&body, 2).is_err(),
            "wrongly accepted indices in {data}"
        );
    }
}

#[test]
fn requires_trusted_non_negative_prompt_token_usage() {
    for usage in [
        "null",
        "{}",
        r#"{"prompt_tokens":-1}"#,
        r#"{"prompt_tokens":1.5}"#,
        r#"{"prompt_tokens":"1"}"#,
        r#"{"prompt_tokens":1,"total_tokens":-1}"#,
        r#"{"prompt_tokens":1,"completion_tokens":-1}"#,
    ] {
        let body = score_body(r#"[{"index":0,"score":0.0}]"#, usage, "");
        assert!(
            response_json(&body, 1).is_err(),
            "wrongly accepted usage {usage}"
        );
    }
}

#[test]
fn rejects_malformed_upstream_score_bodies() {
    let cases = [
        b"not json".to_vec(),
        br#"{"usage":{"prompt_tokens":1}}"#.to_vec(),
        score_body("{}", r#"{"prompt_tokens":1}"#, ""),
        score_body(r#"[{"score":0.0}]"#, r#"{"prompt_tokens":1}"#, ""),
        score_body(r#"[{"index":0,"score":"0"}]"#, r#"{"prompt_tokens":1}"#, ""),
        score_body(
            r#"[{"index":0,"score":0.0}]"#,
            r#"{"prompt_tokens":1}"#,
            r#","id":42"#,
        ),
    ];

    for body in cases {
        assert!(
            response_json(&body, 1).is_err(),
            "wrongly accepted malformed upstream body {body:?}"
        );
    }
}

#[test]
fn omits_optional_request_id_when_upstream_has_none() {
    for id in ["", r#","id":null"#] {
        let body = score_body(r#"[{"index":0,"score":0.0}]"#, r#"{"prompt_tokens":1}"#, id);
        let value = response_json(&body, 1).expect("optional id should not fail response");
        assert!(value.get("request_id").is_none());
    }
}

#[test]
fn refusals_name_their_code() {
    let invalid = adapt(b"[]").err().expect("no object");
    assert_eq!(invalid.code(), "invalid_deepinfra_rerank_request");
    let unsupported = adapt(&request_body(r#", "webhook":"https://example.invalid""#))
        .err()
        .expect("no webhooks");
    assert_eq!(unsupported.code(), "unsupported_deepinfra_rerank_feature");
    let not_json = adapt(b"{").err().expect("no JSON");
    assert!(not_json
        .message()
        .starts_with("invalid DeepInfra rerank JSON: EOF"));
}

#[test]
fn unknown_fields_are_quoted() {
    let error = refusal(&request_body(r#", "top_n":1, "limit":2"#));
    assert_eq!(
        error,
        "DeepInfra rerank body contains unsupported field \"limit\""
    );
}

#[test]
fn scores_are_moved_to_the_unit_interval() {
    let halfway = serde_json::Number::from_f64(0.25).expect("a number");
    let probability = scalar_score_to_probability(&halfway).expect("in the domain");
    assert_eq!(probability.as_f64(), Some(0.625));

    let outside = serde_json::Number::from_f64(1.5).expect("a number");
    let error = scalar_score_to_probability(&outside).expect_err("out of the domain");
    assert!(error.contains("1.5"), "{error}");
}

#[test]
fn the_domain_ends_with_the_tolerance() {
    assert!(check_score_domain(1.0_f64.to_bits(), "1").is_ok());
    assert!(check_score_domain((-1.0_f64).to_bits(), "-1").is_ok());
    let edge = 1.0 + 8.0 * f64::from(f32::EPSILON);
    assert!(check_score_domain(edge.to_bits(), "edge").is_ok());
    let beyond = f64::from_bits(edge.to_bits() + 1);
    assert!(check_score_domain(beyond.to_bits(), "beyond").is_err());
    assert!(check_score_domain((-beyond).to_bits(), "beyond").is_err());
}
