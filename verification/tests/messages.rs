//! Header fields, paths and URLs, and what is recorded of messages.

use llm_guard_proxy::headers::{
    copy_response_headers, copy_selected_header_metadata, downstream_mode_from_headers,
    forwarded_request_headers, is_application_json_response, is_event_stream,
    json_response_headers, model_discovery_request_headers, request_body_bytes_hint,
    selected_header_metadata_value, shielded_chat_response_headers, Headers,
};
use llm_guard_proxy::message_metadata::{
    failed_response_metadata, pre_upstream_request_metadata, request_metadata, response_metadata,
};
use llm_guard_proxy::metadata::Metadata;
use llm_guard_proxy::path::{
    build_upstream_url, path_segment_decodes_to_dot_segment, percent_encoded_byte, upstream_path,
    validate_openai_path, OpenAiPathError, UpstreamUrlError,
};
use llm_guard_proxy::records::DownstreamMode;
use llm_guard_proxy::uri::RequestTarget;

fn headers(fields: &[(&str, &str)]) -> Headers {
    let mut headers = Headers::new();
    for (name, value) in fields {
        headers.append(name, &value.as_bytes().to_vec());
    }
    headers
}

fn names(headers: &Headers) -> Vec<String> {
    (0..headers.len()).map(|i| headers.name(i).to_owned()).collect()
}

fn target(path: &str, query: Option<&str>) -> RequestTarget {
    RequestTarget {
        path: path.to_owned(),
        query: query.map(str::to_owned),
    }
}

#[test]
fn hop_by_hop_fields_are_not_forwarded() {
    let forwarded = forwarded_request_headers(&headers(&[
        ("host", "proxy"),
        ("connection", "keep-alive, X-Secret ,"),
        ("x-secret", "1"),
        ("keep-alive", "timeout=5"),
        ("transfer-encoding", "chunked"),
        ("content-length", "5"),
        ("x-admin-token", "t"),
        ("authorization", "Bearer k"),
        ("accept", "a"),
        ("accept", "b"),
    ]));
    assert_eq!(names(&forwarded), vec!["authorization", "accept", "accept"]);
}

#[test]
fn names_are_kept_in_lower_case() {
    let mut fields = headers(&[
        ("X-Admin-Token", "t"),
        ("CONNECTION", "close"),
        ("X-Trace", "1"),
        ("x-trace", "2"),
    ]);
    assert_eq!(fields.get_text("X-TRACE").as_deref(), Some("1"));
    assert_eq!(fields.value(3), b"2");
    assert_eq!(names(&forwarded_request_headers(&fields)), ["x-trace", "x-trace"]);
    fields.set_text("X-Trace", "3");
    assert_eq!(names(&fields), ["x-admin-token", "connection", "x-trace"]);
    assert_eq!(fields.get_text("x-trace").as_deref(), Some("3"));
    assert_eq!(names(&fields.clone()), names(&fields));
}

#[test]
fn response_fields_are_relayed() {
    let mut relayed = Headers::new();
    copy_response_headers(
        &headers(&[
            ("content-type", "application/json"),
            ("connection", "x-gone"),
            ("x-gone", "1"),
            ("upgrade", "h2c"),
            ("x-kept", "2"),
        ]),
        &mut relayed,
    );
    assert_eq!(names(&relayed), vec!["content-type", "x-kept"]);
}

#[test]
fn credentials_stay_out_of_records() {
    let mut metadata = Metadata::new();
    copy_selected_header_metadata(
        &mut metadata,
        &headers(&[("authorization", "Bearer secret"), ("content-type", "text/plain")]),
        "request",
    );
    for i in 0..metadata.len() {
        assert!(!metadata.value_at(i).contains("secret"));
    }
    assert!(metadata.reads("request_header_content-type", "text/plain"));
    assert_eq!(
        selected_header_metadata_value("x-api-key", &b"secret".to_vec()),
        "[redacted]"
    );
    assert_eq!(
        selected_header_metadata_value("content-type", &vec![0xff]),
        "[non-utf8]"
    );
}

#[test]
fn content_types_are_told_apart() {
    let stream = headers(&[("content-type", "Text/Event-Stream; charset=utf-8")]);
    assert!(is_event_stream(&stream));
    assert_eq!(
        downstream_mode_from_headers(&stream),
        DownstreamMode::Streaming
    );
    assert!(!is_event_stream(&Headers::new()));
    assert!(is_application_json_response(&headers(&[(
        "content-type",
        "application/json"
    )])));
    assert!(!is_application_json_response(&stream));
    assert_eq!(
        request_body_bytes_hint(&headers(&[("content-length", "12")])),
        "12"
    );
    assert_eq!(request_body_bytes_hint(&Headers::new()), "unknown");
}

#[test]
fn response_fields_are_made() {
    let made = json_response_headers(17);
    assert_eq!(made.get_text("content-length").as_deref(), Some("17"));
    let chat = shielded_chat_response_headers(
        &headers(&[("content-type", "text/event-stream"), ("x-kept", "1")]),
        3,
    );
    assert_eq!(
        chat.get_text("content-type").as_deref(),
        Some("application/json")
    );
    assert_eq!(chat.get_text("content-length").as_deref(), Some("3"));
    assert_eq!(chat.get_text("x-kept").as_deref(), Some("1"));
    let discovery = model_discovery_request_headers(&headers(&[
        ("authorization", "Bearer k"),
        ("accept", "application/json"),
    ]));
    assert_eq!(names(&discovery), vec!["accept"]);
}

#[test]
fn messages_are_recorded() {
    let asked = request_metadata(
        "POST",
        &target("/v1/chat/completions", Some("a=b")),
        &Headers::new(),
        12,
        true,
    );
    assert!(asked.reads("method", "POST"));
    assert!(asked.reads("query_present", "true"));
    assert!(asked.reads("request_body_bytes", "12"));
    assert!(asked.reads("shielding_config_enabled", "true"));

    let unread =
        pre_upstream_request_metadata("GET", &target("/v1/models", None), &Headers::new(), None);
    assert!(unread.reads("shielding_config_enabled", "unknown"));
    assert!(unread.reads("request_body_bytes", "unknown"));

    let answered = response_metadata(503, &Headers::new(), 4, 250);
    assert!(answered.reads("http_status_success", "false"));
    assert!(answered.reads("latency_ms", "250"));
    let failed = failed_response_metadata(1_000, 1_250, "upstream_body_error");
    assert!(failed.reads("latency_ms", "250"));
    assert!(failed.reads("error_type", "upstream_body_error"));
}

#[test]
fn only_the_api_is_proxied() {
    assert!(validate_openai_path("/v1").is_ok());
    assert!(validate_openai_path("/v1/chat/completions").is_ok());
    for path in ["/", "/v2/models", "/v1x", "/health"] {
        assert_eq!(
            validate_openai_path(path),
            Err(OpenAiPathError::OutsideOpenAiScope),
            "{path}"
        );
    }
    for path in ["/v1/../admin", "/v1/%2e%2E/x", "/v1/.", "/v1/.%2e"] {
        assert_eq!(
            validate_openai_path(path),
            Err(OpenAiPathError::DotSegment),
            "{path}"
        );
    }
    assert_eq!(OpenAiPathError::OutsideOpenAiScope.status(), 404);
    assert_eq!(OpenAiPathError::DotSegment.status(), 400);
}

#[test]
fn percent_encoding_is_decoded() {
    assert_eq!(percent_encoded_byte(b"%2e", 0), Some((b'.', 3)));
    assert_eq!(percent_encoded_byte(b"%2", 0), None);
    assert_eq!(percent_encoded_byte(b"%zz", 0), None);
    assert!(path_segment_decodes_to_dot_segment("%2E."));
    assert!(!path_segment_decodes_to_dot_segment("..."));
}

#[test]
fn upstream_paths_keep_their_form() {
    assert_eq!(upstream_path("/", "/v1/models"), "/v1/models");
    assert_eq!(upstream_path("/v1/", "/v1/models"), "/v1/models");
    assert_eq!(upstream_path("/v1", "/v1"), "/v1");
    assert_eq!(upstream_path("/proxy", "/v1/models"), "/proxy/v1/models");
}

#[test]
fn upstream_urls_are_built() {
    let url = build_upstream_url(
        "HTTP://Example.com:8080/v1/?x=y#z",
        None,
        &target("/v1/models", Some("limit=5")),
    );
    assert_eq!(
        url.ok().expect("a URL").as_str(),
        "http://example.com:8080/v1/models?limit=5"
    );
    assert!(matches!(
        build_upstream_url("http://x", None, &target("/v2", None)),
        Err(UpstreamUrlError::Path(OpenAiPathError::OutsideOpenAiScope))
    ));
    match build_upstream_url("nonsense", None, &target("/v1/models", None)) {
        Err(UpstreamUrlError::Url(reason)) => {
            assert_eq!(reason, "relative URL without a base");
        }
        _ => panic!("no URL"),
    }
    match build_upstream_url(
        "http://x",
        Some("not allowed".to_owned()),
        &target("/v1/models", None),
    ) {
        Err(UpstreamUrlError::Url(reason)) => assert_eq!(reason, "not allowed"),
        _ => panic!("not allowed"),
    }
}
