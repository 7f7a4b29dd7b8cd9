//! Texts, metadata and JSON values.

use llm_guard_proxy::json::{
    array_of, clone_items, parse_json, render_json, Fraction, Json, JsonObject,
};
use llm_guard_proxy::metadata::{
    merge_request_metadata, metadata_has, metadata_u32, metadata_value, Metadata,
};
use llm_guard_proxy::text::{
    contains, decimal_text, hex_text, joined, parse_u32, parse_u64, position_of, same_text,
    signed_text, split, split_once, starts_with, strip_prefix, text_of, to_lowercase, trim,
};

fn metadata(entries: &[(&str, &str)]) -> Metadata {
    let mut metadata = Metadata::new();
    for (key, value) in entries {
        metadata.set(key, value);
    }
    metadata
}

#[test]
fn decimals_read_back() {
    for n in [0, 7, 10, 65_535, 4_294_967_296, u64::MAX] {
        let text = decimal_text(n);
        assert_eq!(text, n.to_string());
        assert_eq!(parse_u64(&text), Some(n));
    }
    assert_eq!(signed_text(-12), "-12");
    assert_eq!(signed_text(i32::MIN), "-2147483648");
}

#[test]
fn numbers_are_read_as_the_standard_library_reads_them() {
    assert_eq!(parse_u32("+42"), Some(42));
    assert_eq!(parse_u32("0042"), Some(42));
    assert_eq!(parse_u32("4294967295"), Some(u32::MAX));
    assert_eq!(parse_u32("4294967296"), None);
    assert_eq!(parse_u64("18446744073709551616"), None);
    for text in ["", "+", "-1", " 1", "1 ", "1.0", "0x1"] {
        assert_eq!(parse_u64(text), None, "{text:?}");
    }
}

#[test]
fn texts_are_taken_apart() {
    assert!(starts_with("Bearer abc", "Bearer "));
    assert_eq!(strip_prefix("Bearer abc", "Bearer ").as_deref(), Some("abc"));
    assert_eq!(strip_prefix("bearer abc", "Bearer "), None);
    assert!(contains("text/event-stream; charset=utf-8", "event-stream"));
    assert!(!contains("abc", "abd"));
    assert_eq!(split("a&b=1&", '&'), vec!["a", "b=1", ""]);
    assert_eq!(
        split_once("limit=5=6", '='),
        Some(("limit".to_owned(), "5=6".to_owned()))
    );
    assert_eq!(split_once("limit", '='), None);
    assert_eq!(trim("\u{3000} a b\t\n"), "a b");
    assert_eq!(to_lowercase("X-Api-KEY Ä"), "x-api-key Ä");
    assert_eq!(hex_text(0xbeef, 8), "0000beef");
    assert_eq!(joined("a", "b"), "ab");
    assert_eq!(text_of(&vec!['ä', '\n']), "ä\n");
    assert!(same_text("ä", "ä") && !same_text("a", "A"));
    assert_eq!(
        position_of(&vec!["a".to_owned(), "b".to_owned()], "b"),
        Some(1)
    );
}

#[test]
fn the_last_binding_of_a_key_counts() {
    let mut bound = metadata(&[("a", "1"), ("b", "2")]);
    bound.set("a", "3");
    bound.set_number("n", 12);
    bound.set_bool("t", true);
    assert_eq!(bound.get("a").map(String::as_str), Some("3"));
    assert!(bound.reads("n", "12") && bound.reads("t", "true"));
    assert!(metadata_has(&bound, "b", "2") && !metadata_has(&bound, "b", "3"));
    assert_eq!(metadata_u32(&bound, "n"), Some(12));
    assert_eq!(metadata_u32(&bound, "t"), None);
    assert_eq!(metadata_value(&bound, "missing"), None);

    let rest = bound.without("a");
    assert!(!rest.contains_key("a") && rest.contains_key("b"));
    assert!(Metadata::new().is_empty() && !rest.is_empty());
}

#[test]
fn metadata_is_merged() {
    let mut first = metadata(&[("a", "1"), ("loop_x", "y")]);
    first.extend(&metadata(&[("a", "2"), ("c", "3")]));
    assert_eq!(first.get("a").map(String::as_str), Some("2"));

    let mut loops = Metadata::new();
    loops.extend_with_prefix(&first, "loop_");
    assert_eq!(loops.get("loop_x").map(String::as_str), Some("y"));
    assert!(!loops.contains_key("a"));

    let merged = merge_request_metadata(Some(metadata(&[("a", "1")])), metadata(&[("b", "2")]));
    assert!(merged.reads("a", "1") && merged.reads("b", "2"));
}

#[test]
fn json_is_read_and_written() {
    let value = parse_json(br#"{"b":[1,-2,1.5,"x",null,true],"a":{"n":18446744073709551615}}"#)
        .expect("JSON");
    assert_eq!(
        render_json(&value),
        r#"{"a":{"n":18446744073709551615},"b":[1,-2,1.5,"x",null,true]}"#
    );
    let items = value.get_array("b").expect("a list");
    assert!(matches!(items[0], Json::Unsigned(1)));
    assert!(matches!(items[1], Json::Negative(-2)));
    assert!(matches!(items[2], Json::Float(_)));
    assert!(items[4].is_null());
    assert_eq!(
        value.get("a").and_then(|a| a.get_u64("n")),
        Some(u64::MAX)
    );
    assert_eq!(value.keys(), vec!["a", "b"]);
}

#[test]
fn text_that_is_no_json_is_told_why() {
    let error = parse_json(b"{").err().expect("no JSON");
    assert_eq!(error, "EOF while parsing an object at line 1 column 1");
}

#[test]
fn objects_are_edited() {
    let value = parse_json(br#"{"a":1,"b":2}"#).expect("JSON");
    let mut object = JsonObject::of(&value).expect("an object");
    object.insert("a", Json::text("x"));
    object.remove("b");
    object.insert("c", array_of(vec![Json::Null]));
    assert_eq!(
        render_json(&object.into_json()),
        r#"{"a":"x","c":[null]}"#
    );
    assert!(JsonObject::of(&Json::Null).is_none());
    let copies = clone_items(&vec![value]);
    assert_eq!(render_json(&copies[0]), r#"{"a":1,"b":2}"#);
}

#[test]
fn a_repeated_key_is_read_as_its_last_value() {
    let value = parse_json(br#"{"a":1,"a":2}"#).expect("JSON");
    assert_eq!(value.get_u64("a"), Some(2));
}

#[test]
fn whole_numbers_are_no_fractions() {
    assert!(Fraction::of(serde_json::Number::from(5u64)).is_none());
    assert!(Fraction::of(serde_json::Number::from(-5i64)).is_none());
    let half = serde_json::Number::from_f64(0.5).expect("a number");
    let fraction = Fraction::of(half.clone()).expect("a fraction");
    assert_eq!(fraction.number(), half);
    assert_eq!(render_json(&Json::Float(fraction.clone())), "0.5");
    assert_eq!(Json::Negative(5).as_u64(), Some(5));
    assert_eq!(Json::Negative(-5).as_u64(), None);
    assert_eq!(render_json(&Json::Negative(5)), "5");
}
