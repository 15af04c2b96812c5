use kugou_api::js::{from_json_text, js_string, to_json_text};
use kugou_api::json::{JsonObject, JsonValue};

fn text(object: &JsonObject) -> String {
    to_json_text(&JsonValue::Object(object.deep_clone()))
}

#[test]
fn reading_a_key_gives_back_what_was_written() {
    let mut o = JsonObject::new();
    o.insert("b".to_owned(), JsonValue::text("first"));
    o.insert("a".to_owned(), JsonValue::unsigned(1));
    o.insert("b".to_owned(), JsonValue::text("second"));
    assert_eq!(js_string(o.get("b").unwrap()), "second");
    assert_eq!(js_string(o.get("a").unwrap()), "1");
    assert!(o.get("c").is_none());
    assert_eq!(o.len(), 2);
}

#[test]
fn removed_keys_read_as_absent() {
    let mut o = JsonObject::new();
    o.insert("x".to_owned(), JsonValue::Bool(true));
    o.insert("y".to_owned(), JsonValue::Null);
    let removed = o.remove("x");
    assert_eq!(to_json_text(&removed.unwrap()), "true");
    assert!(o.get("x").is_none());
    assert!(o.remove("x").is_none());
    assert_eq!(text(&o), r#"{"y":null}"#);
}

#[test]
fn writes_in_either_order_give_the_same_object() {
    let mut first = JsonObject::new();
    first.insert("clientver".to_owned(), JsonValue::unsigned(20489));
    first.insert("appid".to_owned(), JsonValue::unsigned(1005));
    let mut second = JsonObject::new();
    second.insert("appid".to_owned(), JsonValue::unsigned(1005));
    second.insert("clientver".to_owned(), JsonValue::unsigned(20489));
    assert_eq!(text(&first), text(&second));
    assert_eq!(text(&first), r#"{"appid":1005,"clientver":20489}"#);
}

#[test]
fn parsed_objects_keep_their_keys_in_order() {
    let v = from_json_text(r#"{"zeta":1,"alpha":[true,null],"mid":{"k":"v"}}"#).unwrap();
    assert_eq!(to_json_text(&v), r#"{"alpha":[true,null],"mid":{"k":"v"},"zeta":1}"#);
    assert!(from_json_text("{not json").is_err());
}
