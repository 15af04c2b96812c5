use kugou_api::handlers::{finish_reply, plan_module, AfterReply, Clock, ModulePlan, NumericArm};
use kugou_api::handlers::replies::{sort_method, user_cloud_match, wx_check_reply};
use kugou_api::js::{from_json_text, to_json_text};
use kugou_api::json::{JsonObject, JsonValue};
use kugou_api::response::ModuleResponse;
use kugou_api::upstream::{prepare_request, Method, NativeRequest, SignatureKind};

fn params(text: &str) -> JsonValue {
    from_json_text(text).unwrap()
}

fn object_text(o: &JsonObject) -> String {
    to_json_text(&JsonValue::Object(o.deep_clone()))
}

fn clock() -> Clock {
    Clock { now_ms: 1_700_000_000_123, lite: false }
}

fn request(module: &str, p: &JsonValue) -> (NativeRequest, AfterReply) {
    match plan_module(module, p, clock()) {
        Ok(ModulePlan::Upstream(q, after)) => (q, after),
        _ => panic!("expected an upstream request for {module}"),
    }
}

#[test]
fn comment_count_asks_by_hash_before_special_id() {
    let (q, after) = request("comment_count", &params(r#"{"hash":"H","special_id":"S"}"#));
    assert!(after == AfterReply::Plain);
    assert_eq!(q.url, "/index.php");
    assert!(matches!(q.method, Method::Get));
    assert!(matches!(q.signature, SignatureKind::Web));
    assert_eq!(
        object_text(&q.params),
        r#"{"code":"fc4be23b4e972707f36b8a828a93ba8a","hash":"H","r":"comments/getcommentsnum"}"#
    );
    let (q, _) = request("comment_count", &params(r#"{"hash":"","special_id":"S"}"#));
    assert_eq!(
        object_text(&q.params),
        r#"{"childrenid":"S","code":"fc4be23b4e972707f36b8a828a93ba8a","r":"comments/getcommentsnum"}"#
    );
}

#[test]
fn search_picks_its_path_from_the_type() {
    let (q, _) = request("search", &params(r#"{"type":"album","keywords":"k"}"#));
    assert_eq!(q.url, "/v1/search/album");
    let (q, _) = request("search", &params(r#"{"keywords":"k"}"#));
    assert_eq!(q.url, "/v3/search/song");
    assert_eq!(
        object_text(&q.params),
        r#"{"albumhide":0,"iscorrection":1,"keyword":"k","nocollect":0,"page":1,"pagesize":30,"platform":"AndroidFilter"}"#
    );
    assert_eq!(object_text(&q.headers), r#"{"x-router":"complexsearch.kugou.com"}"#);
}

#[test]
fn album_detail_wraps_the_id() {
    let (q, _) = request("album_detail", &params(r#"{"id":"42"}"#));
    assert!(matches!(q.method, Method::Post));
    assert_eq!(q.url, "/kmr/v2/albums");
    let data = q.data.unwrap();
    assert!(to_json_text(&data).starts_with(r#"{"data":[{"album_id":"42"}],"fields":"album_id,album_name"#));
    assert!(to_json_text(&data).ends_with(r#","is_buy":0}"#));
}

#[test]
fn youth_channel_sub_unsubscribes_when_t_is_zero() {
    let (q, _) = request("youth_channel_sub", &params(r#"{"t":"0","global_collection_id":"g"}"#));
    assert!(matches!(q.method, Method::Delete));
    assert_eq!(q.url, "/youth/v1/channel_un_subscribe");
    let (q, _) = request("youth_channel_sub", &params(r#"{"t":1,"global_collection_id":"g"}"#));
    assert!(matches!(q.method, Method::Post));
    assert_eq!(object_text(&q.params), r#"{"global_collection_id":"g","source":1}"#);
}

#[test]
fn song_url_lowers_the_hash_and_names_effects() {
    let (q, _) = request("song_url", &params(r#"{"hash":"ABCdef","quality":"piano"}"#));
    let text = object_text(&q.params);
    assert!(text.contains(r#""hash":"abcdef""#));
    assert!(text.contains(r#""quality":"magic_piano""#));
    assert!(text.contains(r#""page_id":151369488"#));
    assert!(q.encrypt_key);
    let lite = Clock { now_ms: 0, lite: true };
    match plan_module("song_url", &params("{}"), lite) {
        Ok(ModulePlan::Upstream(q, _)) => {
            let text = object_text(&q.params);
            assert!(text.contains(r#""quality":128"#));
            assert!(text.contains(r#""page_id":967177915"#));
            assert!(text.contains(r#""ppage_id":"356753938,823673182,967485191""#));
        },
        _ => panic!("expected a request"),
    }
}

#[test]
fn zone_and_match_modules_enrich_their_replies() {
    let (_, after) = request("ip_zone", &params("{}"));
    assert!(after == AfterReply::IpZone);
    let (_, after) = request("top_ip", &params("{}"));
    assert!(after == AfterReply::TopIp);
    let (_, after) = request("login_qr_check", &params(r#"{"key":"k"}"#));
    assert!(after == AfterReply::QrLogin);
    match plan_module("playlist_track_all", &params("{}"), clock()) {
        Ok(ModulePlan::Numeric(arm)) => assert!(arm == NumericArm::TrackAll),
        _ => panic!("expected a numeric plan"),
    }
    match plan_module("login_wx_check", &params(r#"{"uuid":"u-1"}"#), clock()) {
        Ok(ModulePlan::WxCheck(uuid)) => assert_eq!(uuid, "u-1"),
        _ => panic!("expected a WeChat check"),
    }
}

fn response(body: &str) -> ModuleResponse {
    ModuleResponse { status: 200, body: params(body), cookie: Vec::new(), headers: JsonObject::new() }
}

#[test]
fn a_confirmed_qr_login_sets_token_and_userid() {
    let done = finish_reply(
        AfterReply::QrLogin,
        response(r#"{"data":{"status":"4","token":"tk","userid":77}}"#),
    );
    assert_eq!(done.cookie, vec!["token=tk".to_owned(), "userid=77".to_owned()]);
    let waiting = finish_reply(AfterReply::QrLogin, response(r#"{"data":{"status":2,"token":"tk"}}"#));
    assert!(waiting.cookie.is_empty());
}

#[test]
fn ip_zone_items_get_their_ip_id() {
    let done = finish_reply(
        AfterReply::IpZone,
        response(r#"{"status":1,"data":{"list":[{"special_link":"?path=ip_id%3D12%26x%3D1"},{"x":1}]}}"#),
    );
    assert_eq!(
        to_json_text(&done.body),
        r#"{"data":{"list":[{"ip_id":12,"special_link":"?path=ip_id%3D12%26x%3D1"},{"x":1}]},"status":1}"#
    );
    let failed = finish_reply(AfterReply::IpZone, response(r#"{"status":0,"data":{"list":[{}]}}"#));
    assert_eq!(to_json_text(&failed.body), r#"{"data":{"list":[{}]},"status":0}"#);
}

#[test]
fn top_ip_reads_the_id_after_its_last_mention() {
    let done = finish_reply(
        AfterReply::TopIp,
        response(r#"{"status":1,"data":{"list":[{"extra":{"inner_url":"a?ip_id=1&ip_id=345"}}]}}"#),
    );
    assert_eq!(
        to_json_text(&done.body),
        r#"{"data":{"list":[{"extra":{"inner_url":"a?ip_id=1&ip_id=345","ip_id":345}}]},"status":1}"#
    );
}

#[test]
fn cloud_matches_collect_the_songs_named() {
    let done = finish_reply(
        AfterReply::CloudMatch,
        response(r#"{"status":1,"data":[[{"album_audio_id":"5","hash":"h","audio_name":"n"}],{"album_audio_id":0,"audio_id":0},7]}"#),
    );
    let text = to_json_text(&done.body);
    assert!(text.contains(r#""match":{"album_audio_id":5,"album_info":null,"audio_id":0,"audio_name":"n","author_name":"","hash":"h","hash_std":"h""#));
    assert!(text.contains(r#""match_list":[{"#));
}

#[test]
fn a_cloud_match_without_hashes_is_answered_at_once() {
    match user_cloud_match(&params(r#"{"hash":" , "}"#), clock()) {
        Err(r) => {
            assert_eq!(r.status, 500);
            assert_eq!(
                to_json_text(&r.body),
                r#"{"msg":"请传入 hash，或通过请求体传入文件二进制数据","status":0}"#
            );
        },
        Ok(_) => panic!("expected an answer"),
    }
    match user_cloud_match(&params(r#"{"hash":"AB,cd","album_audio_id":"12,-3"}"#), clock()) {
        Ok(q) => {
            let data = to_json_text(&q.data.unwrap());
            assert!(data.contains(r#""data":[{"album_audio_id":"12","hash":"ab"},{"hash":"cd"}]"#));
            assert!(q.clear_default_params);
        },
        Err(_) => panic!("expected a request"),
    }
}

#[test]
fn the_wechat_check_answers_with_the_reply_or_the_failure() {
    let ok = wx_check_reply(Ok(br#"{"wx_errcode":408}"#.to_vec()));
    assert_eq!(ok.status, 200);
    assert_eq!(to_json_text(&ok.body), r#"{"wx_errcode":408}"#);
    let text = wx_check_reply(Ok(b"window.x=1".to_vec()));
    assert_eq!(to_json_text(&text.body), r#""window.x=1""#);
    let failed = wx_check_reply(Err("timeout".to_owned()));
    assert_eq!(failed.status, 502);
    assert_eq!(to_json_text(&failed.body), r#"{"msg":"timeout","status":0}"#);
}

#[test]
fn prepared_requests_carry_the_signed_query() {
    let (q, _) = request("everyday_recommend", &params(r#"{"cookie":{"dfid":"D","KUGOU_API_MID":"M"}}"#));
    let prepared = prepare_request(q, &params(r#"{"cookie":{"dfid":"D","KUGOU_API_MID":"M"}}"#), 1_700_000_000, false, "1.2.3.4").unwrap();
    assert!(prepared.url.starts_with("https://gateway.kugou.com/everyday_song_recommend?"));
    assert!(prepared.url.contains("dfid=D"));
    assert!(prepared.url.contains("mid=M"));
    assert!(prepared.url.contains("signature="));
    assert!(prepared.headers.iter().any(|(k, v)| k == "x-router" && v == "everydayrec.service.kugou.com"));
    assert!(prepared.headers.iter().any(|(k, v)| k == "X-Real-IP" && v == "1.2.3.4"));
}

#[test]
fn comment_classify_keeps_a_sort_of_two_and_asks_for_one_otherwise() {
    for (text, kept) in [
        (r#"{"sort":"2"}"#, true),
        (r#"{"sort":2}"#, true),
        (r#"{"sort":2.0}"#, true),
        (r#"{"sort":" 2.00 "}"#, true),
        (r#"{"sort":"3"}"#, false),
        (r#"{"sort":"two"}"#, false),
        (r#"{}"#, false),
    ] {
        let p = params(text);
        let sort = sort_method(&p);
        if kept {
            assert_eq!(to_json_text(&sort), to_json_text(p.get("sort").unwrap()), "{text}");
        } else {
            assert_eq!(to_json_text(&sort), "1", "{text}");
        }
    }
    let (q, after) = request("comment_music_classify", &params(r#"{"sort":"2","mixsongid":7}"#));
    assert!(after == AfterReply::Plain);
    assert_eq!(to_json_text(q.params.get("sort_method").unwrap()), r#""2""#);
}
