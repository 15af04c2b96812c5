use kugou_api::js::from_json_text;
use kugou_api::json::{JsonObject, JsonValue};
use kugou_api::signing::{sign_key, sign_params_key, signature_android, signature_web};

fn object(text: &str) -> JsonObject {
    match from_json_text(text).unwrap() {
        JsonValue::Object(o) => o,
        _ => panic!("not an object"),
    }
}

#[test]
fn android_signature_matches_node_vector() {
    let params = object(
        r#"{"appid":3116,"clienttime":1700000000,"clientver":11440,"dfid":"-","mid":"123","uuid":"-"}"#,
    );
    assert_eq!(signature_android(&params, "", true), "154afc2378c777465a2b712468a7f9f9");
}

#[test]
fn web_signature_matches_node_vector() {
    let params = object(
        r#"{"appid":1005,"clienttime":1700000000,"clientver":20489,"dfid":"-","mid":"123","position":2,"srcappid":2919,"uuid":"-"}"#,
    );
    assert_eq!(signature_web(&params), "13eb297ff8d9214a6354a67e02a0665f");
}

#[test]
fn encrypt_key_matches_node_vector() {
    assert_eq!(sign_key("ABC", "123", "0", "3116", true), "075554afd631fed34df32da5cceb7f24");
}

#[test]
fn params_key_matches_node_vector() {
    assert_eq!(sign_params_key(1700000000000u64, true), "d0ea4884a9807886a7c7e582cda713fa");
}
