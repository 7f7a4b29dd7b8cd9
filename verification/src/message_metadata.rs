//! Metadata that is recorded of requests and responses.

use crate::headers::{
    announced_length, copy_selected_header_metadata, request_body_bytes_hint,
    with_selected_headers, HeaderModel, Headers,
};
use crate::metadata::{Bindings, Metadata};
use crate::text::{bool_chars, decimal, decimal_text};
use crate::uri::RequestTarget;
use vstd::prelude::*;

verus! {

/// Whether an HTTP status says success.
pub open spec fn is_success(status: u16) -> bool {
    200 <= status < 300
}

/// Whether an HTTP status says success.
pub fn status_is_success(status: u16) -> (success: bool)
    ensures
        success == is_success(status),
{
    status >= 200 && status < 300
}

/// `a - b`, or zero where `b` is larger.
pub open spec fn elapsed(a: u64, b: u64) -> nat {
    if a >= b {
        (a - b) as nat
    } else {
        0
    }
}

/// What is recorded of a request whose body has the given length.
pub open spec fn base_request_bindings(
    method: Seq<char>,
    uri: (Seq<char>, Option<Seq<char>>),
    headers: Seq<HeaderModel>,
    request_body_bytes: Seq<char>,
    shielding_enabled: Option<bool>,
) -> Bindings {
    with_selected_headers(
        Bindings::empty().insert("method"@, method).insert("path"@, uri.0).insert(
            "query_present"@,
            bool_chars(uri.1 is Some),
        ).insert("request_body_bytes"@, request_body_bytes).insert(
            "shielding_config_enabled"@,
            match shielding_enabled {
                Some(enabled) => bool_chars(enabled),
                None => "unknown"@,
            },
        ).insert("policy_transform_applied"@, "false"@),
        headers,
        "request"@,
    )
}

/// Records a request whose body has the given length.
pub fn base_request_metadata(
    method: &str,
    uri: &RequestTarget,
    headers: &Headers,
    request_body_bytes: String,
    shielding_enabled: Option<bool>,
) -> (metadata: Metadata)
    ensures
        metadata@ == base_request_bindings(
            method@,
            uri@,
            headers@,
            request_body_bytes@,
            shielding_enabled,
        ),
{
    let mut metadata = Metadata::new();
    metadata.set("method", method);
    metadata.set("path", uri.path.as_str());
    metadata.set_bool("query_present", uri.query.is_some());
    metadata.insert("request_body_bytes", request_body_bytes);
    match shielding_enabled {
        Some(enabled) => {
            metadata.set_bool("shielding_config_enabled", enabled);
        },
        None => {
            metadata.set("shielding_config_enabled", "unknown");
        },
    }
    metadata.set("policy_transform_applied", "false");
    copy_selected_header_metadata(&mut metadata, headers, "request");
    metadata
}

/// Records a request whose body has been read.
pub fn request_metadata(
    method: &str,
    uri: &RequestTarget,
    headers: &Headers,
    body_len: usize,
    shielding_enabled: bool,
) -> (metadata: Metadata)
    ensures
        metadata@ == base_request_bindings(
            method@,
            uri@,
            headers@,
            decimal(body_len as nat),
            Some(shielding_enabled),
        ),
{
    base_request_metadata(
        method,
        uri,
        headers,
        decimal_text(body_len as u64),
        Some(shielding_enabled),
    )
}

/// Records a request whose body has not been read.
pub fn pre_upstream_request_metadata(
    method: &str,
    uri: &RequestTarget,
    headers: &Headers,
    shielding_enabled: Option<bool>,
) -> (metadata: Metadata)
    ensures
        metadata@ == base_request_bindings(
            method@,
            uri@,
            headers@,
            announced_length(headers@),
            shielding_enabled,
        ),
{
    base_request_metadata(method, uri, headers, request_body_bytes_hint(headers), shielding_enabled)
}

/// What is recorded of the request of an attempt.
pub open spec fn attempt_request_bindings(
    method: Seq<char>,
    uri: (Seq<char>, Option<Seq<char>>),
    headers: Seq<HeaderModel>,
) -> Bindings {
    with_selected_headers(
        Bindings::empty().insert("method"@, method).insert("path"@, uri.0).insert(
            "query_present"@,
            bool_chars(uri.1 is Some),
        ).insert("attempt_number"@, "1"@),
        headers,
        "upstream_request"@,
    )
}

/// Records the request of an attempt.
pub fn attempt_request_metadata(method: &str, uri: &RequestTarget, headers: &Headers) -> (metadata:
    Metadata)
    ensures
        metadata@ == attempt_request_bindings(method@, uri@, headers@),
{
    let mut metadata = Metadata::new();
    metadata.set("method", method);
    metadata.set("path", uri.path.as_str());
    metadata.set_bool("query_present", uri.query.is_some());
    metadata.set("attempt_number", "1");
    copy_selected_header_metadata(&mut metadata, headers, "upstream_request");
    metadata
}

/// What is recorded of a response.
pub open spec fn response_bindings(
    status: u16,
    headers: Seq<HeaderModel>,
    body_len: u64,
    latency_ms: nat,
) -> Bindings {
    with_selected_headers(
        Bindings::empty().insert("http_status_success"@, bool_chars(is_success(status))).insert(
            "response_body_bytes"@,
            decimal(body_len as nat),
        ).insert("latency_ms"@, decimal(latency_ms)),
        headers,
        "response"@,
    )
}

/// Records a response.
pub fn response_metadata(status: u16, headers: &Headers, body_len: u64, latency_ms: u64) -> (
    metadata: Metadata)
    ensures
        metadata@ == response_bindings(status, headers@, body_len, latency_ms as nat),
{
    let mut metadata = Metadata::new();
    metadata.set_bool("http_status_success", status_is_success(status));
    metadata.set_number("response_body_bytes", body_len);
    metadata.set_number("latency_ms", latency_ms);
    copy_selected_header_metadata(&mut metadata, headers, "response");
    metadata
}

/// What is recorded where no response came.
pub open spec fn failed_response_bindings(
    started_at_unix_ms: u64,
    finished_at_unix_ms: u64,
    error_type: Seq<char>,
) -> Bindings {
    Bindings::empty().insert("error_type"@, error_type).insert(
        "latency_ms"@,
        decimal(elapsed(finished_at_unix_ms, started_at_unix_ms)),
    ).insert("upstream_response_received"@, "false"@)
}

/// Records that no response came.
pub fn failed_response_metadata(
    started_at_unix_ms: u64,
    finished_at_unix_ms: u64,
    error_type: &str,
) -> (metadata: Metadata)
    ensures
        metadata@ == failed_response_bindings(
            started_at_unix_ms,
            finished_at_unix_ms,
            error_type@,
        ),
{
    let mut metadata = Metadata::new();
    metadata.set("error_type", error_type);
    metadata.set_number("latency_ms", finished_at_unix_ms.saturating_sub(started_at_unix_ms));
    metadata.set("upstream_response_received", "false");
    metadata
}

/// A status says success from 200 to 299.
pub proof fn success_is_in_the_two_hundreds(status: u16)
    ensures
        is_success(status) <==> 200 <= status <= 299,
{
}

/// The time between two moments is their difference, and none where the later comes
/// first.
pub proof fn elapsed_time_is_a_difference(a: u64, b: u64)
    ensures
        a >= b ==> elapsed(a, b) == a - b,
        a <= b ==> elapsed(a, b) == 0,
{
}

/// What is recorded of a request says how and for what it was made, and how long its
/// body is.
pub proof fn requests_are_recorded(
    method: Seq<char>,
    path: Seq<char>,
    query: Option<Seq<char>>,
    headers: Seq<HeaderModel>,
    body_bytes: Seq<char>,
    shielding: bool,
)
    ensures
        ({
            let told = base_request_bindings(
                method,
                (path, query),
                headers,
                body_bytes,
                Some(shielding),
            );
            let says = |key: Seq<char>, text: Seq<char>| told.contains_key(key) && told[key] == text;
            &&& says("method"@, method)
            &&& says("path"@, path)
            &&& says(
                "query_present"@,
                if query is Some {
                    "true"@
                } else {
                    "false"@
                },
            )
            &&& says("request_body_bytes"@, body_bytes)
            &&& says(
                "shielding_config_enabled"@,
                if shielding {
                    "true"@
                } else {
                    "false"@
                },
            )
            &&& says("policy_transform_applied"@, "false"@)
        }),
{
    reveal_strlit("method");
    reveal_strlit("path");
    reveal_strlit("query_present");
    reveal_strlit("request_body_bytes");
    reveal_strlit("shielding_config_enabled");
    reveal_strlit("policy_transform_applied");
    assert("method"@.len() == 6);
    assert("path"@.len() == 4);
    assert("query_present"@.len() == 13);
    assert("request_body_bytes"@.len() == 18);
    assert("shielding_config_enabled"@.len() == 24);
    assert("policy_transform_applied"@.len() == 24);
    assert("shielding_config_enabled"@[0] != "policy_transform_applied"@[0]);
    let known = Bindings::empty().insert("method"@, method).insert("path"@, path).insert(
        "query_present"@,
        bool_chars(query is Some),
    ).insert("request_body_bytes"@, body_bytes).insert(
        "shielding_config_enabled"@,
        bool_chars(shielding),
    ).insert("policy_transform_applied"@, "false"@);
    reveal_strlit("request");
    reveal_strlit("_header_");
    let start = "request"@ + "_header_"@;
    assert(start.len() == 15);
    assert(start[0] == 'r' && start[8] == 'h');
    assert forall|key: Seq<char>|
        key == "method"@ || key == "path"@ || key == "query_present"@ || key
            == "request_body_bytes"@ || key == "shielding_config_enabled"@ || key
            == "policy_transform_applied"@ implies !#[trigger] crate::text::has_prefix(key, start) by {
        if crate::text::has_prefix(key, start) {
            assert(key.take(15)[0] == key[0]);
            assert(key.take(15)[8] == key[8]);
        }
    }
    let told = base_request_bindings(method, (path, query), headers, body_bytes, Some(shielding));
    crate::headers::recording_headers_leaves_the_rest(known, headers, "request"@, "method"@);
    crate::headers::recording_headers_leaves_the_rest(known, headers, "request"@, "path"@);
    crate::headers::recording_headers_leaves_the_rest(known, headers, "request"@, "query_present"@);
    crate::headers::recording_headers_leaves_the_rest(
        known,
        headers,
        "request"@,
        "request_body_bytes"@,
    );
    crate::headers::recording_headers_leaves_the_rest(
        known,
        headers,
        "request"@,
        "shielding_config_enabled"@,
    );
    crate::headers::recording_headers_leaves_the_rest(
        known,
        headers,
        "request"@,
        "policy_transform_applied"@,
    );
}

/// What is recorded of a response says whether it was a success, how long its body is
/// and how long it took.
pub proof fn responses_are_recorded(
    status: u16,
    headers: Seq<HeaderModel>,
    body_len: u64,
    latency_ms: nat,
)
    ensures
        ({
            let told = response_bindings(status, headers, body_len, latency_ms);
            let says = |key: Seq<char>, text: Seq<char>| told.contains_key(key) && told[key] == text;
            &&& says(
                "http_status_success"@,
                if 200 <= status <= 299 {
                    "true"@
                } else {
                    "false"@
                },
            )
            &&& says("response_body_bytes"@, decimal(body_len as nat))
            &&& says("latency_ms"@, decimal(latency_ms))
        }),
{
    reveal_strlit("http_status_success");
    reveal_strlit("response_body_bytes");
    reveal_strlit("latency_ms");
    assert("http_status_success"@.len() == 19);
    assert("response_body_bytes"@.len() == 19);
    assert("latency_ms"@.len() == 10);
    assert("http_status_success"@[0] != "response_body_bytes"@[0]);
    let known = Bindings::empty().insert(
        "http_status_success"@,
        bool_chars(is_success(status)),
    ).insert("response_body_bytes"@, decimal(body_len as nat)).insert(
        "latency_ms"@,
        decimal(latency_ms),
    );
    reveal_strlit("response");
    reveal_strlit("_header_");
    let start = "response"@ + "_header_"@;
    assert(start.len() == 16);
    assert(start[0] == 'r' && start[9] == 'h');
    assert forall|key: Seq<char>|
        key == "http_status_success"@ || key == "response_body_bytes"@ || key == "latency_ms"@
            implies !#[trigger] crate::text::has_prefix(key, start) by {
        if crate::text::has_prefix(key, start) {
            assert(key.take(16)[0] == key[0]);
            assert(key.take(16)[9] == key[9]);
        }
    }
    crate::headers::recording_headers_leaves_the_rest(
        known,
        headers,
        "response"@,
        "http_status_success"@,
    );
    crate::headers::recording_headers_leaves_the_rest(
        known,
        headers,
        "response"@,
        "response_body_bytes"@,
    );
    crate::headers::recording_headers_leaves_the_rest(known, headers, "response"@, "latency_ms"@);
}

/// What is recorded of a request without a response says what failed and how long it
/// took.
pub proof fn failures_are_recorded(
    started_at_unix_ms: u64,
    finished_at_unix_ms: u64,
    error_type: Seq<char>,
)
    ensures
        ({
            let told = failed_response_bindings(started_at_unix_ms, finished_at_unix_ms, error_type);
            &&& told.contains_key("error_type"@) && told["error_type"@] == error_type
            &&& told.contains_key("latency_ms"@) && told["latency_ms"@] == decimal(
                if finished_at_unix_ms >= started_at_unix_ms {
                    (finished_at_unix_ms - started_at_unix_ms) as nat
                } else {
                    0
                },
            )
            &&& told.contains_key("upstream_response_received"@) && told["upstream_response_received"@] == "false"@
        }),
{
    reveal_strlit("error_type");
    reveal_strlit("latency_ms");
    reveal_strlit("upstream_response_received");
    assert("error_type"@.len() == 10);
    assert("latency_ms"@.len() == 10);
    assert("upstream_response_received"@.len() == 26);
    assert("error_type"@[0] != "latency_ms"@[0]);
}

/// The first attempt is recorded with its method, its path and whether it has a query.
pub proof fn attempts_are_recorded_as_sent(
    method: Seq<char>,
    path: Seq<char>,
    query: Option<Seq<char>>,
)
    ensures
        ({
            let told = attempt_request_bindings(method, (path, query), Seq::empty());
            &&& told["method"@] == method
            &&& told["path"@] == path
            &&& told["query_present"@] == if query is Some {
                "true"@
            } else {
                "false"@
            }
            &&& told["attempt_number"@] == "1"@
        }),
{
    reveal_strlit("method");
    reveal_strlit("path");
    reveal_strlit("query_present");
    reveal_strlit("attempt_number");
    assert("method"@.len() == 6);
    assert("path"@.len() == 4);
    assert("query_present"@.len() == 13);
    assert("attempt_number"@.len() == 14);
}

} // verus!
