use kugou_api::cookies::parse_loose_cookie;
use kugou_api::form::parse_pairs;
use kugou_api::js::{from_json_text, js_string, number_value, to_json_text};
use kugou_api::json::{JsonObject, JsonValue};

fn text_of(object: JsonObject) -> String {
    to_json_text(&JsonValue::Object(object))
}

#[test]
fn loose_cookie_keeps_node_compatibility() {
    let cookie = parse_loose_cookie("token=abc;userid=123");
    assert_eq!(js_string(cookie.get("token").unwrap()), "abc");
    assert_eq!(js_string(cookie.get("userid").unwrap()), "123");
}

#[test]
fn repeated_query_values_become_an_array() {
    let params = parse_pairs(b"id=1&id=2");
    assert_eq!(to_json_text(params.get("id").unwrap()), r#"["1","2"]"#);
    assert_eq!(text_of(params), r#"{"id":["1","2"]}"#);
}

#[test]
fn js_number_conversion_keeps_integer_signature_format() {
    assert_eq!(js_string(&number_value(JsonValue::text("1"))), "1");
    assert_eq!(js_string(&number_value(JsonValue::text("1.5"))), "1.5");
}

#[test]
fn json_text_round_trips_through_the_parser() {
    let value = from_json_text(r#"{"b":[1,-2,"x"],"a":{"c":null,"d":true}}"#).unwrap();
    assert_eq!(to_json_text(&value), r#"{"a":{"c":null,"d":true},"b":[1,-2,"x"]}"#);
}
