use serde_json::Value;
use whistle::event::{InboundEvent, MarketEvent};
use whistle::members::{string_field, string_member};

fn json(text: &str) -> Value {
    serde_json::from_str(text).unwrap()
}

fn blank() -> MarketEvent {
    MarketEvent {
        exchange: String::new(),
        ticker: String::new(),
        close: String::new(),
        open: String::new(),
        volume: String::new(),
        event: String::new(),
        interval: String::new(),
    }
}

#[test]
fn object_with_every_field_is_structured() {
    let body = json(
        r#"{"exchange":"X","ticker":"BTC","close":"9","open":"10","volume":"1","event":"tick","interval":"1m"}"#,
    );
    assert_eq!(
        InboundEvent::from_json(&body),
        InboundEvent::Structured(MarketEvent {
            exchange: "X".to_string(),
            ticker: "BTC".to_string(),
            close: "9".to_string(),
            open: "10".to_string(),
            volume: "1".to_string(),
            event: "tick".to_string(),
            interval: "1m".to_string(),
        })
    );
}

#[test]
fn empty_object_is_structured_with_empty_fields() {
    assert_eq!(InboundEvent::from_json(&json("{}")), InboundEvent::Structured(blank()));
}

#[test]
fn object_with_other_keys_is_structured() {
    assert_eq!(InboundEvent::from_json(&json(r#"{"price":"1","Ticker":"x"}"#)), InboundEvent::Structured(blank()));
}

#[test]
fn missing_fields_are_empty() {
    let mut want = blank();
    want.ticker = "ETH".to_string();
    want.open = "3".to_string();
    assert_eq!(InboundEvent::from_json(&json(r#"{"ticker":"ETH","open":"3"}"#)), InboundEvent::Structured(want));
}

#[test]
fn fields_that_are_no_strings_are_empty() {
    let body = json(
        r#"{"exchange":1,"ticker":null,"close":9.5,"open":true,"volume":["1"],"event":{"a":"b"},"interval":"5m"}"#,
    );
    let mut want = blank();
    want.interval = "5m".to_string();
    assert_eq!(InboundEvent::from_json(&body), InboundEvent::Structured(want));
}

#[test]
fn string_body_is_unstructured() {
    assert_eq!(
        InboundEvent::from_json(&Value::String("hello".to_string())),
        InboundEvent::Unstructured("\"hello\"".to_string())
    );
}

#[test]
fn string_body_is_rendered_with_escapes() {
    assert_eq!(
        InboundEvent::from_json(&Value::String("a\"b\\c\nd".to_string())),
        InboundEvent::Unstructured(r#""a\"b\\c\nd""#.to_string())
    );
}

#[test]
fn other_bodies_are_unstructured() {
    for (body, text) in [
        ("null", "null"),
        ("true", "true"),
        ("false", "false"),
        ("42", "42"),
        ("-7", "-7"),
        ("1.5", "1.5"),
        ("[]", "[]"),
        ("[1, \"two\", [3], {\"k\": null}]", "[1,\"two\",[3],{\"k\":null}]"),
        ("[{\"ticker\": \"BTC\"}]", "[{\"ticker\":\"BTC\"}]"),
    ] {
        assert_eq!(InboundEvent::from_json(&json(body)), InboundEvent::Unstructured(text.to_string()), "{body}");
    }
}

#[test]
fn string_member_finds_strings_in_objects_only() {
    let doc = json(r#"{"a":"x","b":1,"c":"","d":{"a":"deep"}}"#);
    assert_eq!(string_member(&doc, "a"), Some("x".to_string()));
    assert_eq!(string_member(&doc, "b"), None);
    assert_eq!(string_member(&doc, "c"), Some(String::new()));
    assert_eq!(string_member(&doc, "d"), None);
    assert_eq!(string_member(&doc, "e"), None);
    assert_eq!(string_member(&doc, ""), None);
    assert_eq!(string_member(&json("[\"a\"]"), "a"), None);
    assert_eq!(string_member(&json("[\"a\"]"), "0"), None);
    assert_eq!(string_member(&json("\"a\""), "a"), None);
    assert_eq!(string_member(&json("null"), "a"), None);
}

#[test]
fn string_field_defaults_to_empty() {
    let doc = json(r#"{"a":"x","b":1}"#);
    assert_eq!(string_field(&doc, "a"), "x");
    assert_eq!(string_field(&doc, "b"), "");
    assert_eq!(string_field(&doc, "z"), "");
    assert_eq!(string_field(&json("7"), "a"), "");
}
