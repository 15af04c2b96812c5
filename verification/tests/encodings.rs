use kugou_api::config::{all_modules, cli_override, display_host, host_setting, parse_port, port_setting, proxy_setting};
use kugou_api::device::{device_identity, machine_id};
use kugou_api::encoding::{base64_decode, base64_encode};
use kugou_api::js::js_string;
use kugou_api::json::JsonValue;
use kugou_api::params::split_values;
use kugou_api::qr::{qrcode_data_url, scale_modules};
use kugou_api::response::clean_set_cookie;

#[test]
fn base64_text_has_four_characters_per_three_bytes() {
    assert_eq!(base64_encode(b"hello world"), "aGVsbG8gd29ybGQ=");
    assert_eq!(base64_encode(b"ab"), "YWI=");
    assert_eq!(base64_encode(b""), "");
    for n in 0..10usize {
        let bytes = vec![7u8; n];
        assert_eq!(base64_encode(&bytes).len(), 4 * ((n + 2) / 3));
        assert_eq!(base64_decode(&base64_encode(&bytes)).unwrap(), bytes);
    }
    assert!(base64_decode("a").is_err());
}

#[test]
fn qr_images_have_a_white_quiet_zone() {
    let pixels = scale_modules(1, &vec![true]);
    assert_eq!(pixels.len(), 36 * 36);
    assert_eq!(pixels[0], 255);
    assert_eq!(pixels[16 * 36 + 16], 0);
    assert_eq!(pixels[19 * 36 + 19], 0);
    assert_eq!(pixels[20 * 36 + 20], 255);
    let url = qrcode_data_url("https://example.com").unwrap();
    assert!(url.starts_with("data:image/png;base64,iVBORw0KGgo"));
}

#[test]
fn list_values_are_trimmed_and_never_empty() {
    let v = split_values(JsonValue::text(" a, ,b ,,"));
    assert_eq!(v, vec!["a".to_owned(), "b".to_owned()]);
    assert!(split_values(JsonValue::Null).is_empty());
    let arr = kugou_api::js::from_json_text(r#"["x,y", 3, ""]"#).unwrap();
    assert_eq!(split_values(arr), vec!["x".to_owned(), "y".to_owned(), "3".to_owned()]);
}

#[test]
fn cleaned_cookies_drop_their_scope() {
    assert_eq!(
        clean_set_cookie("token=abc; Path=/; Domain=.kugou.com; Expires=Thu; HttpOnly; Max-Age=9"),
        "token=abc;Max-Age=9"
    );
    assert_eq!(clean_set_cookie("a=1"), "a=1");
}

#[test]
fn machine_ids_read_the_digest_as_a_number() {
    assert_eq!(machine_id("abc"), "191415658344158766168031473277922803570");
}

#[test]
fn version_four_guids_are_replaced_by_their_digest() {
    let d = device_identity(
        Some("2f1b6a8e-9c3d-4e5f-8a7b-1c2d3e4f5a6b".to_owned()),
        "unused".to_owned(),
        Some("ab12".to_owned()),
        "unused".to_owned(),
        None,
        None,
        None,
    );
    assert_eq!(d.guid, "43fc039498227246e6d244c4e8a20f30");
    assert_eq!(d.mid, "64931977195580121854182937035818803391");
    assert_eq!(d.dev, "AB12");
    assert_eq!(d.mac, "02:00:00:00:00:00");
    assert_eq!(d.platform, "undefined");
    let plain = device_identity(Some("fixed-guid".to_owned()), String::new(), None, "x9z".to_owned(), Some("aa:bb".to_owned()), Some("lite".to_owned()), Some("w".to_owned()));
    assert_eq!(plain.guid, "fixed-guid");
    assert_eq!(plain.dev, "X9Z");
    assert_eq!(plain.mac, "AA:BB");
    assert_eq!(plain.platform, "lite");
    assert_eq!(plain.webgl, Some("w".to_owned()));
}

#[test]
fn settings_come_from_the_command_line_and_environment() {
    assert_eq!(cli_override("--proxy=http://p:1"), Some(("KUGOU_API_PROXY".to_owned(), "http://p:1".to_owned())));
    assert_eq!(cli_override("--platform=lite"), Some(("platform".to_owned(), "lite".to_owned())));
    assert_eq!(cli_override("--other"), None);
    assert_eq!(proxy_setting(Some("  http://p:1 ")), Some("http://p:1".to_owned()));
    assert_eq!(proxy_setting(Some("   ")), None);
    assert_eq!(host_setting(""), "0.0.0.0");
    assert_eq!(display_host("0.0.0.0"), "localhost");
    assert_eq!(display_host("127.0.0.1"), "127.0.0.1");
    assert_eq!(port_setting(Some(" ")), "3000");
    assert_eq!(port_setting(Some("8080")), "8080");
    assert_eq!(parse_port("8080"), Ok(8080));
    assert!(parse_port("99999").is_err());
}

#[test]
fn served_modules_are_sorted_and_unique() {
    let js = vec!["b".to_owned(), "a".to_owned()];
    let native = vec!["c".to_owned(), "a".to_owned()];
    assert_eq!(all_modules(&js, &native), vec!["a".to_owned(), "b".to_owned(), "c".to_owned()]);
}

#[test]
fn js_strings_of_numbers_keep_their_text() {
    assert_eq!(js_string(&JsonValue::integer(-5)), "-5");
    assert_eq!(js_string(&JsonValue::unsigned(18446744073709551615)), "18446744073709551615");
}

#[test]
fn bodies_that_are_not_json_are_read_as_lossy_text() {
    match kugou_api::js::read_body(&[0x6f, 0x6b, 0xff]) {
        JsonValue::Str(text) => assert_eq!(text, "ok\u{fffd}"),
        _ => panic!("expected text"),
    }
    match kugou_api::js::read_body(br#"{"status":1}"#) {
        JsonValue::Object(o) => assert_eq!(o.len(), 1),
        _ => panic!("expected an object"),
    }
}

#[test]
fn ports_are_an_optional_plus_and_digits_within_range() {
    assert_eq!(parse_port("+80"), Ok(80));
    assert_eq!(parse_port("65535"), Ok(65535));
    assert!(parse_port("65536").is_err());
    assert!(parse_port("-0").is_err());
    assert!(parse_port("").is_err());
    assert!(parse_port(" 80").is_err());
}

#[test]
fn form_queries_keep_safe_bytes_and_escape_the_rest() {
    let params = kugou_api::js::from_json_text(r#"{"a b":"é*~","n":1,"z":"x&y=+"}"#).unwrap();
    let object = params.as_object().unwrap();
    assert_eq!(
        kugou_api::form::path_with_query("/p", object),
        "/p?a+b=%C3%A9*%7E&n=1&z=x%26y%3D%2B"
    );
}
