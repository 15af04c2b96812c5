use kugou_api::bridge::{bridge_text, raw_reply, raw_request, RawBody};
use kugou_api::handlers::{plan_module, Clock, ModulePlan};
use kugou_api::js::{from_json_text, to_json_text};
use kugou_api::json::JsonValue;
use kugou_api::server::{
    body_limit, cache_fresh, cacheable, cookies_to_set, cors_headers, forwarded_https, forwarded_ip,
    no_cookie, not_found, parse_body, rejection, reply_body, reply_status, ReplyBody,
};
use kugou_api::server::{admit_body, cache_step, engine_for, module_outcome, preflight_status, CacheStep, Engine};

#[test]
fn body_limits_follow_the_content_type() {
    assert_eq!(body_limit("application/octet-stream"), 100 * 1024 * 1024);
    assert_eq!(body_limit("application/x-www-form-urlencoded; charset=utf-8"), 5 * 1024 * 1024);
    assert_eq!(body_limit("application/json"), 16 * 1024 * 1024);
    assert_eq!(body_limit(""), 16 * 1024 * 1024);
}

#[test]
fn bodies_are_read_by_content_type() {
    let empty = parse_body("application/json", b"").unwrap();
    assert_eq!(empty.len(), 0);
    let raw = parse_body("application/octet-stream", b"hello world").unwrap();
    assert_eq!(
        to_json_text(&JsonValue::Object(raw)),
        r#"{"data":{"__kugou_buffer__":"aGVsbG8gd29ybGQ="}}"#
    );
    let form = parse_body("application/x-www-form-urlencoded", b"a=1&b=x+y&a=2").unwrap();
    assert_eq!(to_json_text(&JsonValue::Object(form)), r#"{"a":["1","2"],"b":"x y"}"#);
    let json = parse_body("application/json", br#"{"id":7}"#).unwrap();
    assert_eq!(to_json_text(&JsonValue::Object(json)), r#"{"id":7}"#);
}

#[test]
fn bodies_that_are_not_objects_are_refused() {
    assert_eq!(parse_body("application/json", b"[1,2]").err().unwrap(), "JSON request body must be an object");
    assert!(parse_body("text/plain", b"{oops").is_err());
}

#[test]
fn the_forwarded_address_is_the_first_entry() {
    assert_eq!(forwarded_ip(Some(" 10.0.0.1 , 10.0.0.2")).unwrap(), "10.0.0.1");
    assert!(forwarded_ip(Some(" ,10.0.0.2")).is_none());
    assert!(forwarded_ip(None).is_none());
}

#[test]
fn https_is_read_in_any_case() {
    assert!(forwarded_https(Some("HTTPS")));
    assert!(!forwarded_https(Some("http")));
    assert!(!forwarded_https(None));
}

#[test]
fn cookies_get_the_scope_suffix_and_respect_no_cookie() {
    let device = vec!["KUGOU_API_MID=1".to_owned()];
    let module = vec!["token=t".to_owned(), "userid=9".to_owned()];
    let all = cookies_to_set(&device, &module, false, false);
    assert_eq!(all, vec!["KUGOU_API_MID=1; PATH=/", "token=t; PATH=/", "userid=9; PATH=/"]);
    let only_device = cookies_to_set(&device, &module, true, true);
    assert_eq!(only_device, vec!["KUGOU_API_MID=1; PATH=/; SameSite=None; Secure"]);
    let params = from_json_text(r#"{"noCookie":"1"}"#).unwrap();
    assert!(no_cookie(&params));
    let params = from_json_text(r#"{"noCookie":0}"#).unwrap();
    assert!(!no_cookie(&params));
}

#[test]
fn cors_headers_prefer_the_configured_origin() {
    let h = cors_headers(Some("https://a.example"), Some("https://b.example"));
    assert_eq!(h[1], ("access-control-allow-origin".to_owned(), "https://a.example".to_owned()));
    let h = cors_headers(None, Some("https://b.example"));
    assert_eq!(h[1].1, "https://b.example");
    let h = cors_headers(None, None);
    assert_eq!(h[1].1, "*");
    assert_eq!(h.len(), 4);
    assert_eq!(h[0], ("access-control-allow-credentials".to_owned(), "true".to_owned()));
}

#[test]
fn statuses_outside_the_valid_range_become_500() {
    assert_eq!(reply_status(200), 200);
    assert_eq!(reply_status(502), 502);
    assert_eq!(reply_status(42), 500);
    assert_eq!(reply_status(1000), 500);
}

#[test]
fn reply_bodies_decode_buffers_and_keep_text() {
    let buffer = from_json_text(r#"{"__kugou_buffer__":"aGVsbG8gd29ybGQ="}"#).unwrap();
    match reply_body(&buffer) {
        ReplyBody::Bytes(b) => assert_eq!(b, b"hello world".to_vec()),
        ReplyBody::Json(_) => panic!("expected bytes"),
    }
    let broken = from_json_text(r#"{"__kugou_buffer__":"%%%"}"#).unwrap();
    match reply_body(&broken) {
        ReplyBody::Bytes(b) => assert!(b.is_empty()),
        ReplyBody::Json(_) => panic!("expected bytes"),
    }
    match reply_body(&JsonValue::text("plain")) {
        ReplyBody::Json(t) => assert_eq!(t, "plain"),
        ReplyBody::Bytes(_) => panic!("expected text"),
    }
    let object = from_json_text(r#"{"status":1}"#).unwrap();
    match reply_body(&object) {
        ReplyBody::Json(t) => assert_eq!(t, r#"{"status":1}"#),
        ReplyBody::Bytes(_) => panic!("expected text"),
    }
}

#[test]
fn octet_stream_bodies_come_back_as_the_same_bytes() {
    let sent: Vec<u8> = vec![0, 1, 2, 250, 255, 10, 13];
    let body = parse_body("application/octet-stream", &sent).unwrap();
    let data = body.get("data").unwrap();
    match reply_body(data) {
        ReplyBody::Bytes(b) => assert_eq!(b, sent),
        ReplyBody::Json(_) => panic!("expected bytes"),
    }
}

#[test]
fn failures_are_answered_with_their_message() {
    let r = not_found("unknown native module: nope".to_owned());
    assert_eq!(r.status, 404);
    assert_eq!(
        to_json_text(&r.body),
        r#"{"code":404,"data":null,"error":"unknown native module: nope","msg":"Not Found"}"#
    );
    assert_eq!(rejection("too big".to_owned()), r#"{"msg":"too big","status":0}"#);
}

#[test]
fn the_cache_keeps_successes_for_two_minutes() {
    assert!(cache_fresh(119_999));
    assert!(!cache_fresh(120_000));
    assert!(cacheable(200));
    assert!(!cacheable(502));
}

#[test]
fn unknown_modules_are_reported_by_name() {
    let params = from_json_text("{}").unwrap();
    let clock = Clock { now_ms: 1_700_000_000_000, lite: false };
    match plan_module("no_such_module", &params, clock) {
        Err(e) => assert_eq!(e, "unknown native module: no_such_module"),
        Ok(_) => panic!("expected an error"),
    }
}

#[test]
fn every_listed_module_has_a_plan() {
    let params = from_json_text(r#"{"hash":"abc","id":"1"}"#).unwrap();
    let clock = Clock { now_ms: 1_700_000_000_000, lite: false };
    for module in kugou_api::routes::modules().unwrap() {
        assert!(plan_module(&module, &params, clock).is_ok(), "{module}");
    }
}

#[test]
fn bridged_requests_are_read_from_their_options() {
    let q = raw_request(
        r#"{"url":"/v1/x","baseURL":"https://example.com/api/","method":"post","params":{"a":1,"b":[2,3],"c":null},"headers":{"h":1,"n":null},"data":{"k":"v"},"responseType":"arraybuffer"}"#,
    )
    .unwrap();
    assert_eq!(q.method, "POST");
    assert_eq!(q.url, "https://example.com/v1/x?a=1&b%5B%5D=2&b%5B%5D=3");
    assert_eq!(
        q.headers,
        vec![
            ("h".to_owned(), "1".to_owned()),
            ("content-type".to_owned(), "application/json".to_owned()),
        ]
    );
    let own = raw_request(r#"{"url":"/p","headers":{"Content-Type":"text/plain"},"data":[1]}"#).unwrap();
    assert_eq!(own.headers, vec![("Content-Type".to_owned(), "text/plain".to_owned())]);
    assert!(q.array_buffer);
    match q.body {
        RawBody::Json(v) => assert_eq!(to_json_text(&v), r#"{"k":"v"}"#),
        _ => panic!("expected a JSON body"),
    }
    let absolute = raw_request(r#"{"url":"http://other.example/p","data":"text"}"#).unwrap();
    assert_eq!(absolute.url, "http://other.example/p");
    assert_eq!(absolute.method, "GET");
    match absolute.body {
        RawBody::Text(t) => assert_eq!(t, "text"),
        _ => panic!("expected text"),
    }
    let buffer = raw_request(r#"{"url":"/p","data":{"__kugou_buffer__":"YWI="}}"#).unwrap();
    assert_eq!(buffer.url, "https://gateway.kugou.com/p");
    match buffer.body {
        RawBody::Bytes(b) => assert_eq!(b, b"ab".to_vec()),
        _ => panic!("expected bytes"),
    }
}

#[test]
fn bridged_requests_with_bad_options_are_refused() {
    assert_eq!(raw_request("[1]").err().unwrap(), "request options must be an object");
    assert!(raw_request("{").is_err());
    assert!(raw_request(r#"{"url":"/p","method":"BAD METHOD"}"#).is_err());
    assert!(raw_request(r#"{"url":"/p","data":{"__kugou_buffer__":"%%"}}"#).is_err());
}

#[test]
fn bridged_replies_are_wrapped() {
    let headers = vec![
        ("set-cookie".to_owned(), vec!["a=1".to_owned(), "b=2".to_owned()]),
        ("x-list".to_owned(), vec!["p".to_owned(), "q".to_owned()]),
    ];
    let ok = raw_reply(200, &headers, br#"{"status":1}"#, false);
    assert_eq!(
        to_json_text(&ok),
        r#"{"data":{"status":1},"headers":{"set-cookie":["a=1","b=2"],"x-list":"p, q"},"status":200}"#
    );
    let failed = raw_reply(404, &Vec::new(), b"missing", false);
    assert_eq!(
        to_json_text(&failed),
        r#"{"__error__":true,"message":"upstream returned HTTP 404","response":{"data":"missing","headers":{},"status":404}}"#
    );
    let raw = raw_reply(200, &Vec::new(), b"ab", true);
    assert_eq!(to_json_text(&raw), r#"{"data":{"__kugou_buffer__":"YWI="},"headers":{},"status":200}"#);
    assert_eq!(bridge_text(Err("boom".to_owned())), r#"{"__error__":true,"message":"boom"}"#);
    assert_eq!(bridge_text(Ok(JsonValue::Null)), "null");
}

#[test]
fn preflight_requests_are_answered_at_once() {
    assert_eq!(preflight_status("OPTIONS"), Some(204));
    assert_eq!(preflight_status("GET"), None);
    assert_eq!(preflight_status("options"), None);
}

#[test]
fn unreadable_bodies_get_413_and_unparsable_ones_400() {
    match admit_body("application/json", Err("length limit exceeded".to_owned())) {
        Err((status, text)) => {
            assert_eq!(status, 413);
            assert_eq!(text, r#"{"msg":"length limit exceeded","status":0}"#);
        }
        Ok(_) => panic!("expected a refusal"),
    }
    match admit_body("application/json", Ok(b"[1]".to_vec())) {
        Err((status, text)) => {
            assert_eq!(status, 400);
            assert_eq!(text, r#"{"msg":"JSON request body must be an object","status":0}"#);
        }
        Ok(_) => panic!("expected a refusal"),
    }
    let body = admit_body("application/json", Ok(br#"{"a":1}"#.to_vec())).ok().unwrap();
    assert_eq!(body.len(), 1);
}

#[test]
fn the_cache_serves_fresh_entries_and_evicts_stale_ones() {
    assert!(matches!(cache_step(Some(119_999)), CacheStep::Serve));
    assert!(matches!(cache_step(Some(120_000)), CacheStep::Evict));
    assert!(matches!(cache_step(None), CacheStep::Miss));
}

#[test]
fn listed_modules_run_natively_and_others_as_scripts() {
    assert!(matches!(engine_for("top_ip"), Engine::Native));
    assert!(matches!(engine_for("user_cloud_url"), Engine::Script));
}

#[test]
fn failed_modules_are_answered_404_and_only_successes_are_stored() {
    let (answer, store) = module_outcome(Err("boom".to_owned()));
    assert_eq!(answer.status, 404);
    assert!(!store);
    let (ok, store) = module_outcome(Ok(not_found("x".to_owned())));
    assert_eq!(ok.status, 404);
    assert!(!store);
}

#[test]
fn bridged_methods_must_be_tokens() {
    let q = raw_request(r#"{"url":"/p","method":"patch"}"#).unwrap();
    assert_eq!(q.method, "PATCH");
    let custom = raw_request(r#"{"url":"/p","method":"x-purge"}"#).unwrap();
    assert_eq!(custom.method, "X-PURGE");
    assert_eq!(
        raw_request(r#"{"url":"/p","method":"BAD METHOD"}"#).err().unwrap(),
        "invalid HTTP method"
    );
}
