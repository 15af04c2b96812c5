//! Modules that do more than describe one request: QR logins, the WeChat
//! login check, the IP zones that are enriched after the reply, the cloud
//! match, and the three whose fields need floating-point values.
use crate::enrich::{
    enrich_cloud_match, enrich_ip_zone, enrich_top_ip, enriched_cloud_match, enriched_ip_zone,
    enriched_top_ip,
};
use crate::handlers::{
    appid_value, array, clientver_value, cookie_or, items_of, no_entries, no_items, num,
    or_default, push_item, truthy_param, truthy_value, txt, Clock,
};
use crate::handlers::choices::{text_or_undefined, text_or_undefined_of};
use crate::js::{
    body_value, is_truthy, js_number, js_string, js_text, number_value, positive_decimal,
    positive_text, read_body, truthy,
};
use crate::decimal::{float_reading, read_back, text_reading};
use crate::json::{get_field, insert_entry, view_as_i64, JsonNumber, JsonObject, JsonValue, JsonView, NumberView};
use crate::params::{
    cookie, cookie_or_param, cookie_then_param, csv_number_objects, csv_number_objects_view,
    param, param_or, param_or_cookie, param_then_cookie, split_values, split_values_view, value,
    value_or,
};
use crate::qr::{qr_data_url, qrcode_data_url};
use crate::response::{failure_body, upstream_error, ModuleResponse, ResponseView};
use crate::signing::{android_salt, md5_hex, md5_hex_of, platform_appid, platform_clientver};
use crate::text::{ascii_lower, ascii_lower_chars, chars_of, decimal, split, split_str, string_of, u128_text};
use crate::upstream::{request, Method, NativeRequest, RequestView, SignatureKind};
use vstd::prelude::*;

verus! {

/// A response with the given status and body, and no cookies or headers.
pub open spec fn plain_response(status: u16, body: JsonView) -> ResponseView {
    ResponseView { status, body, cookie: Seq::empty(), headers: Seq::empty() }
}

fn respond(status: u16, body: JsonValue) -> (r: ModuleResponse)
    ensures
        r@ == plain_response(status, body@),
{
    let r = ModuleResponse { status, body, cookie: Vec::new(), headers: JsonObject::new() };
    assert(r@.cookie =~= Seq::<Seq<char>>::empty());
    r
}

// ---------------------------------------------------------------------------
// QR logins.
// ---------------------------------------------------------------------------

/// The page a login QR code points to.
pub open spec fn qr_login_url(p: JsonView) -> Seq<char> {
    "https://h5.kugou.com/apps/loginQRCode/html/index.html?qrcode="@ + text_or_undefined(p, "key"@)
}

/// The answer of `login_qr_create`: the page URL, and its QR code image
/// when `qrimg` is truthy (else the empty text); the image's error otherwise.
pub open spec fn qr_create_reply(p: JsonView) -> Result<ResponseView, Seq<char>> {
    let url = qr_login_url(p);
    let image = if is_truthy(param(p, "qrimg"@)) {
        qr_data_url(url)
    } else {
        Ok(Seq::empty())
    };
    match image {
        Err(e) => Err(e),
        Ok(b64) => {
            let data = insert_entry(insert_entry(no_entries(), "url"@, txt(url)), "base64"@, txt(b64));
            let body = insert_entry(insert_entry(no_entries(), "code"@, num(200)), "data"@, JsonView::Object(data));
            Ok(plain_response(200, JsonView::Object(body)))
        },
    }
}

/// Answers `login_qr_create` (see [`qr_create_reply`]).
pub fn login_qr_create(params: &JsonValue) -> (r: Result<ModuleResponse, String>)
    ensures
        match r {
            Ok(resp) => qr_create_reply(params@) == Ok::<ResponseView, Seq<char>>(resp@),
            Err(e) => qr_create_reply(params@) == Err::<ResponseView, Seq<char>>(e@),
        },
{
    let key = text_or_undefined_of(params, "key");
    let mut url = "https://h5.kugou.com/apps/loginQRCode/html/index.html?qrcode=".to_owned();
    url.append(key.as_str());
    let wants_image = match params.get("qrimg") {
        Some(v) => truthy(v),
        None => false,
    };
    let image = if wants_image {
        match qrcode_data_url(url.as_str()) {
            Ok(b) => b,
            Err(e) => {
                return Err(e);
            },
        }
    } else {
        String::new()
    };
    let mut data = JsonObject::new();
    data.insert("url".to_owned(), JsonValue::Str(url));
    data.insert("base64".to_owned(), JsonValue::Str(image));
    let mut body = JsonObject::new();
    body.insert("code".to_owned(), JsonValue::unsigned(200));
    body.insert("data".to_owned(), JsonValue::Object(data));
    Ok(respond(200, JsonValue::Object(body)))
}

/// The upstream request of `login_qr_check`.
pub open spec fn login_qr_check_request(p: JsonView, c: Clock) -> RequestView {
    let q = no_entries();
    let q = insert_entry(q, "plat"@, num(4));
    let q = insert_entry(q, "appid"@, num(platform_appid(c.lite)));
    let q = insert_entry(q, "srcappid"@, num(2919));
    let q = insert_entry(q, "qrcode"@, param(p, "key"@));
    request("/v2/get_userinfo_qrcode"@, Method::Get).with_base_url("https://login-user.kugou.com"@).with_params(
        JsonView::Object(q),
    ).signed(SignatureKind::Web)
}

/// Describes the upstream request of `login_qr_check`.
pub fn login_qr_check(params: &JsonValue, c: Clock) -> (r: NativeRequest)
    ensures
        r@ == login_qr_check_request(params@, c),
{
    let mut q = JsonObject::new();
    q.insert("plat".to_owned(), JsonValue::unsigned(4));
    q.insert("appid".to_owned(), appid_value(c));
    q.insert("srcappid".to_owned(), JsonValue::unsigned(2919));
    q.insert("qrcode".to_owned(), value(params, "key"));
    NativeRequest::get("/v2/get_userinfo_qrcode").base_url("https://login-user.kugou.com").params(
        JsonValue::Object(q),
    ).web()
}

/// `body.data.name`, when the body and its data are objects holding it.
pub open spec fn data_field(body: JsonView, name: Seq<char>) -> Option<JsonView> {
    match get_field(body, "data"@) {
        Some(d) => get_field(d, name),
        None => None,
    }
}

/// The QR login is confirmed: `data.status` reads as the integer 4.
pub open spec fn qr_confirmed(body: JsonView) -> bool {
    match data_field(body, "status"@) {
        Some(s) => view_as_i64(js_number(s)) == Some(4i64),
        None => false,
    }
}

/// The cookies a confirmed QR login sets: `token=` and `userid=` with the
/// texts of `data.token` and `data.userid`, where present.
pub open spec fn qr_login_cookies(body: JsonView) -> Seq<Seq<char>> {
    if qr_confirmed(body) {
        let t = match data_field(body, "token"@) {
            Some(v) => seq!["token="@ + js_text(v)],
            None => Seq::empty(),
        };
        let u = match data_field(body, "userid"@) {
            Some(v) => seq!["userid="@ + js_text(v)],
            None => Seq::empty(),
        };
        t + u
    } else {
        Seq::empty()
    }
}

fn data_value<'a>(body: &'a JsonValue, name: &str) -> (r: Option<&'a JsonValue>)
    ensures
        match r {
            Some(v) => data_field(body@, name@) == Some(v@),
            None => data_field(body@, name@) is None,
        },
{
    match body.get("data") {
        Some(d) => d.get(name),
        None => None,
    }
}

fn push_cookie(cookies: &mut Vec<String>, prefix: &str, v: &JsonValue)
    ensures
        final(cookies)@.map_values(|c: String| c@) == old(cookies)@.map_values(|c: String| c@).push(
            prefix@ + js_text(v@),
        ),
{
    let mut c = prefix.to_owned();
    let t = js_string(v);
    c.append(t.as_str());
    let ghost before = cookies@;
    cookies.push(c);
    assert(cookies@.map_values(|c: String| c@) =~= before.map_values(|c: String| c@).push(
        prefix@ + js_text(v@),
    ));
}

/// The response with more cookies set.
pub open spec fn with_cookies(r: ResponseView, extra: Seq<Seq<char>>) -> ResponseView {
    ResponseView { cookie: r.cookie + extra, ..r }
}

/// Adds the login cookies of a confirmed QR login (see [`qr_login_cookies`]).
pub fn finish_qr_login(response: &mut ModuleResponse)
    ensures
        final(response)@ == with_cookies(old(response)@, qr_login_cookies(old(response)@.body)),
{
    let ghost before = response@;
    let confirmed = match data_value(&response.body, "status") {
        Some(s) => number_value(s.deep_clone()).as_i64() == Some(4i64),
        None => false,
    };
    if !confirmed {
        assert(response@.cookie =~= before.cookie + qr_login_cookies(before.body));
        return;
    }
    match data_value(&response.body, "token") {
        Some(t) => push_cookie(&mut response.cookie, "token=", t),
        None => {},
    }
    let ghost mid = response@.cookie;
    match data_value(&response.body, "userid") {
        Some(u) => push_cookie(&mut response.cookie, "userid=", u),
        None => {},
    }
    assert(response@.cookie =~= before.cookie + qr_login_cookies(before.body));
}

// ---------------------------------------------------------------------------
// The WeChat login check.
// ---------------------------------------------------------------------------

/// The `uuid` of a WeChat login check: the parameter's text, or empty.
pub open spec fn wx_uuid(p: JsonView) -> Seq<char> {
    match get_field(p, "uuid"@) {
        Some(v) => js_text(v),
        None => Seq::empty(),
    }
}

/// The `uuid` of a WeChat login check (see [`wx_uuid`]).
pub fn wx_check_uuid(params: &JsonValue) -> (r: String)
    ensures
        r@ == wx_uuid(params@),
{
    match params.get("uuid") {
        Some(v) => js_string(v),
        None => String::new(),
    }
}

/// The answer of `login_wx_check` given the outcome of its request: the body
/// of a successful reply (JSON, or its text) with status 200, or the failure
/// with status 502.
pub fn wx_check_reply(outcome: Result<Vec<u8>, String>) -> (r: ModuleResponse)
    ensures
        r@ == match outcome {
            Ok(bytes) => plain_response(200, body_value(bytes@)),
            Err(m) => plain_response(502, failure_body(m@)),
        },
{
    match outcome {
        Ok(bytes) => respond(200, read_body(bytes.as_slice())),
        Err(m) => {
            let r = upstream_error(m);
            assert(r@.cookie =~= Seq::<Seq<char>>::empty());
            r
        },
    }
}

// ---------------------------------------------------------------------------
// IP zones.
// ---------------------------------------------------------------------------

/// The upstream request of `ip_zone`.
pub open spec fn ip_zone_request(p: JsonView, c: Clock) -> RequestView {
    request("/v1/zone/index"@, Method::Get).with_header("x-router"@, "yuekucategory.kugou.com"@)
}

/// Describes the upstream request of `ip_zone`.
pub fn ip_zone(params: &JsonValue, c: Clock) -> (r: NativeRequest)
    ensures
        r@ == ip_zone_request(params@, c),
{
    NativeRequest::get("/v1/zone/index").header("x-router", "yuekucategory.kugou.com")
}

/// The upstream request of `top_ip`.
pub open spec fn top_ip_request(p: JsonView, c: Clock) -> RequestView {
    let q = insert_entry(insert_entry(no_entries(), "clientver"@, num(12349)), "area_code"@, num(1));
    let d = insert_entry(no_entries(), "tags"@, JsonView::Object(no_entries()));
    request("/v1/daily_recommend"@, Method::Post).with_base_url("http://musicadservice.kugou.com"@).with_params(
        JsonView::Object(q),
    ).with_data(JsonView::Object(d))
}

/// Describes the upstream request of `top_ip`.
pub fn top_ip(params: &JsonValue, c: Clock) -> (r: NativeRequest)
    ensures
        r@ == top_ip_request(params@, c),
{
    let mut q = JsonObject::new();
    q.insert("clientver".to_owned(), JsonValue::unsigned(12349));
    q.insert("area_code".to_owned(), JsonValue::unsigned(1));
    let mut d = JsonObject::new();
    d.insert("tags".to_owned(), JsonValue::Object(JsonObject::new()));
    NativeRequest::post("/v1/daily_recommend").base_url("http://musicadservice.kugou.com").params(
        JsonValue::Object(q),
    ).data(JsonValue::Object(d))
}

// ---------------------------------------------------------------------------
// Cloud match.
// ---------------------------------------------------------------------------

/// The ids source of a cloud match: the first truthy of `album_audio_ids`,
/// `album_audio_id`, `mixid` and `mix_id`, else null.
pub open spec fn cloud_ids_source(p: JsonView) -> JsonView {
    match truthy_param(p, "album_audio_ids"@) {
        Some(v) => v,
        None => match truthy_param(p, "album_audio_id"@) {
            Some(v) => v,
            None => match truthy_param(p, "mixid"@) {
                Some(v) => v,
                None => or_default(truthy_param(p, "mix_id"@), JsonView::Null),
            },
        },
    }
}

/// The id paired with the `i`-th hash: the `i`-th id, else the first.
pub open spec fn cloud_id_for(ids: Seq<Seq<char>>, i: int) -> Option<Seq<char>> {
    if i < ids.len() {
        Some(ids[i])
    } else if ids.len() > 0 {
        Some(ids[0])
    } else {
        None
    }
}

/// One hash to match: lowered, with its id when that reads as a positive
/// number.
pub open spec fn cloud_item(hash: Seq<char>, id: Option<Seq<char>>) -> JsonView {
    let o = insert_entry(no_entries(), "hash"@, txt(ascii_lower(hash)));
    match id {
        Some(x) => if positive_text(x) {
            JsonView::Object(insert_entry(o, "album_audio_id"@, txt(x)))
        } else {
            JsonView::Object(o)
        },
        None => JsonView::Object(o),
    }
}

/// The hashes of a cloud match.
pub open spec fn cloud_hashes(p: JsonView) -> Seq<Seq<char>> {
    split_values_view(param(p, "hash"@))
}

/// The items of a cloud match, one per hash.
pub open spec fn cloud_items(p: JsonView) -> Seq<JsonView> {
    let hashes = cloud_hashes(p);
    let ids = split_values_view(cloud_ids_source(p));
    Seq::new(hashes.len(), |i: int| cloud_item(hashes[i], cloud_id_for(ids, i)))
}

/// The key of a cloud match: the hex MD5 of the app id, the salt, the client
/// version and the time in seconds.
pub open spec fn cloud_key(p: JsonView, c: Clock) -> Seq<char> {
    md5_hex(
        js_text(param_or(p, "appid"@, num(platform_appid(c.lite)))) + android_salt(c.lite) + js_text(
            param_or(p, "clientver"@, num(platform_clientver(c.lite))),
        ) + decimal((c.now_ms / 1000) as nat),
    )
}

/// The message of a cloud match without hashes.
pub open spec fn no_hash_message() -> Seq<char> {
    "请传入 hash，或通过请求体传入文件二进制数据"@
}

/// What `user_cloud_match` does: answer status 500 when no hash is given,
/// else send the match request (its reply is then enriched).
pub open spec fn cloud_match_plan(p: JsonView, c: Clock) -> Result<RequestView, ResponseView> {
    if cloud_hashes(p).len() == 0 {
        Err(plain_response(500, failure_body(no_hash_message())))
    } else {
        let d = no_entries();
        let d = insert_entry(d, "appid"@, param_or(p, "appid"@, num(platform_appid(c.lite))));
        let d = insert_entry(d, "clienttime"@, num(c.now_ms / 1000));
        let d = insert_entry(d, "clientver"@, param_or(p, "clientver"@, num(platform_clientver(c.lite))));
        let d = insert_entry(d, "data"@, JsonView::Array(cloud_items(p)));
        let d = insert_entry(d, "dfid"@, cookie_then_param(p, "dfid"@, txt("-"@)));
        let d = insert_entry(d, "key"@, txt(cloud_key(p, c)));
        let d = insert_entry(
            d,
            "mid"@,
            or_default(cookie(p, "KUGOU_API_MID"@), param_or(p, "mid"@, txt(""@))),
        );
        let d = insert_entry(d, "show_privilege"@, num(0));
        let d = insert_entry(d, "show_author_alias"@, num(0));
        let d = insert_entry(d, "show_rel_album_audio_info"@, num(0));
        let d = insert_entry(d, "show_remarks"@, num(0));
        Ok(
            request("/v2/album_audio/audio"@, Method::Post).with_base_url(
                "http://kmr.service.kugou.com"@,
            ).with_data(JsonView::Object(d)).cleared().signed(SignatureKind::Unsigned).with_header(
                "x-router"@,
                "kmr.service.kugou.com"@,
            ).with_header("Content-Type"@, "application/json"@),
        )
    }
}

fn first_truthy_of(params: &JsonValue) -> (r: JsonValue)
    ensures
        r@ == cloud_ids_source(params@),
{
    match truthy_value(params, "album_audio_ids") {
        Some(v) => v,
        None => match truthy_value(params, "album_audio_id") {
            Some(v) => v,
            None => match truthy_value(params, "mixid") {
                Some(v) => v,
                None => match truthy_value(params, "mix_id") {
                    Some(v) => v,
                    None => JsonValue::Null,
                },
            },
        },
    }
}

fn cloud_item_value(hash: &String, id: Option<&String>) -> (r: JsonValue)
    ensures
        r@ == cloud_item(
            hash@,
            match id {
                Some(x) => Some(x@),
                None => None,
            },
        ),
{
    let cs = chars_of(hash.as_str());
    let lowered = ascii_lower_chars(cs.as_slice());
    let mut o = JsonObject::new();
    o.insert("hash".to_owned(), JsonValue::Str(string_of(lowered.as_slice())));
    match id {
        Some(x) => if positive_decimal(x.as_str()) {
            o.insert("album_audio_id".to_owned(), JsonValue::Str(x.clone()));
        },
        None => {},
    }
    JsonValue::Object(o)
}

/// Plans `user_cloud_match` (see [`cloud_match_plan`]).
pub fn user_cloud_match(params: &JsonValue, c: Clock) -> (r: Result<NativeRequest, ModuleResponse>)
    ensures
        match r {
            Ok(q) => cloud_match_plan(params@, c) == Ok::<RequestView, ResponseView>(q@),
            Err(resp) => cloud_match_plan(params@, c) == Err::<RequestView, ResponseView>(resp@),
        },
{
    let hashes = split_values(value(params, "hash"));
    if hashes.len() == 0 {
        let mut body = JsonObject::new();
        body.insert("status".to_owned(), JsonValue::unsigned(0));
        body.insert("msg".to_owned(), JsonValue::text("请传入 hash，或通过请求体传入文件二进制数据"));
        return Err(respond(500, JsonValue::Object(body)));
    }
    let ids = split_values(first_truthy_of(params));
    let ghost hs = cloud_hashes(params@);
    let ghost is = split_values_view(cloud_ids_source(params@));
    let mut items = no_items();
    let mut i: usize = 0;
    while i < hashes.len()
        invariant
            hs == cloud_hashes(params@),
            is == split_values_view(cloud_ids_source(params@)),
            hashes@.map_values(|s: String| s@) == hs,
            ids@.map_values(|s: String| s@) == is,
            i <= hashes@.len(),
            items_of(items@) == Seq::new(i as nat, |k: int| cloud_item(hs[k], cloud_id_for(is, k))),
        decreases hashes@.len() - i,
    {
        let id = if i < ids.len() {
            Some(&ids[i])
        } else if ids.len() > 0 {
            Some(&ids[0])
        } else {
            None
        };
        proof {
            assert(hashes@[i as int]@ == hs[i as int]);
            if i < ids@.len() {
                assert(ids@[i as int]@ == is[i as int]);
            } else if ids@.len() > 0 {
                assert(ids@[0]@ == is[0]);
            }
        }
        let item = cloud_item_value(&hashes[i], id);
        let ghost before = items_of(items@);
        push_item(&mut items, item);
        assert(items_of(items@) =~= Seq::new((i + 1) as nat, |k: int| cloud_item(hs[k], cloud_id_for(is, k))));
        i = i + 1;
    }
    let appid = value_or(params, "appid", appid_value(c));
    let clientver = value_or(params, "clientver", clientver_value(c));
    let secs = c.now_ms / 1000;
    let mut seed = js_string(&appid);
    seed.append(if c.lite {
        "LnT6xpN3khm36zse0QzvmgTZ3waWdRSA"
    } else {
        "OIlwieks28dk2k092lksi2UIkp"
    });
    let ver = js_string(&clientver);
    seed.append(ver.as_str());
    let t = u128_text(secs as u128);
    seed.append(t.as_str());
    let key = md5_hex_of(seed.as_str());
    let mut d = JsonObject::new();
    d.insert("appid".to_owned(), appid);
    d.insert("clienttime".to_owned(), JsonValue::unsigned(secs));
    d.insert("clientver".to_owned(), clientver);
    d.insert("data".to_owned(), array(items));
    d.insert("dfid".to_owned(), cookie_or_param(params, "dfid", JsonValue::text("-")));
    d.insert("key".to_owned(), JsonValue::Str(key));
    d.insert(
        "mid".to_owned(),
        cookie_or(params, "KUGOU_API_MID", value_or(params, "mid", JsonValue::text(""))),
    );
    d.insert("show_privilege".to_owned(), JsonValue::unsigned(0));
    d.insert("show_author_alias".to_owned(), JsonValue::unsigned(0));
    d.insert("show_rel_album_audio_info".to_owned(), JsonValue::unsigned(0));
    d.insert("show_remarks".to_owned(), JsonValue::unsigned(0));
    Ok(
        NativeRequest::post("/v2/album_audio/audio").base_url("http://kmr.service.kugou.com").data(
            JsonValue::Object(d),
        ).clear_default_params().unsigned().header("x-router", "kmr.service.kugou.com").header(
            "Content-Type",
            "application/json",
        ),
    )
}

// ---------------------------------------------------------------------------
// Modules whose fields are floating-point values.
// ---------------------------------------------------------------------------

/// The upstream request of `comment_music_classify`, given the sort method
/// (the `sort` parameter when it reads as the number 2, else 1).
pub open spec fn comment_music_classify_request(p: JsonView, sort: JsonView) -> RequestView {
    let q = no_entries();
    let q = insert_entry(q, "mixsongid"@, param(p, "mixsongid"@));
    let q = insert_entry(q, "need_show_image"@, num(1));
    let q = insert_entry(q, "page"@, param_or(p, "page"@, num(1)));
    let q = insert_entry(q, "pagesize"@, param_or(p, "pagesize"@, num(30)));
    let q = insert_entry(q, "type_id"@, param(p, "type_id"@));
    let q = insert_entry(q, "extdata"@, txt("0"@));
    let q = insert_entry(q, "code"@, txt("fc4be23b4e972707f36b8a828a93ba8a"@));
    let q = insert_entry(q, "sort_method"@, sort);
    request("/mcomment/v1/cmt_classify_list"@, Method::Post).with_params(JsonView::Object(q))
}

/// A value whose JavaScript `Number` is the number 2: the integer 2, or a
/// float whose reading by serde_json is the integer 2.
pub open spec fn numerically_two(v: JsonView) -> bool {
    match js_number(v) {
        JsonView::Number(NumberView::PosInt(u)) => u == 2,
        JsonView::Number(NumberView::Float(t)) => match float_reading(t) {
            Some(x) => read_back(x) == JsonView::Number(NumberView::PosInt(2)),
            None => false,
        },
        _ => false,
    }
}

/// The sort method `comment_music_classify` asks for: the `sort` parameter
/// when it is numerically 2, else 1.
pub open spec fn sort_for(p: JsonView) -> JsonView {
    match get_field(p, "sort"@) {
        Some(v) => if numerically_two(v) {
            v
        } else {
            num(1)
        },
        None => num(1),
    }
}

/// Whether a value is numerically 2 (see [`numerically_two`]).
fn is_two(v: &JsonValue) -> (r: bool)
    ensures
        r == numerically_two(v@),
{
    match number_value(v.deep_clone()) {
        JsonValue::Number(JsonNumber::PosInt(u)) => u == 2,
        JsonValue::Number(JsonNumber::Float(t)) => match text_reading(t.as_str()) {
            Some(JsonValue::Number(JsonNumber::PosInt(u))) => u == 2,
            _ => false,
        },
        _ => false,
    }
}

/// The sort method of `comment_music_classify` (see [`sort_for`]).
pub fn sort_method(params: &JsonValue) -> (r: JsonValue)
    ensures
        r@ == sort_for(params@),
{
    match params.get("sort") {
        Some(v) => if is_two(v) {
            v.deep_clone()
        } else {
            JsonValue::unsigned(1)
        },
        None => JsonValue::unsigned(1),
    }
}

/// Describes the upstream request of `comment_music_classify`.
pub fn comment_music_classify(params: &JsonValue, sort: JsonValue) -> (r: NativeRequest)
    ensures
        r@ == comment_music_classify_request(params@, sort@),
{
    let mut q = JsonObject::new();
    q.insert("mixsongid".to_owned(), value(params, "mixsongid"));
    q.insert("need_show_image".to_owned(), JsonValue::unsigned(1));
    q.insert("page".to_owned(), value_or(params, "page", JsonValue::unsigned(1)));
    q.insert("pagesize".to_owned(), value_or(params, "pagesize", JsonValue::unsigned(30)));
    q.insert("type_id".to_owned(), value(params, "type_id"));
    q.insert("extdata".to_owned(), JsonValue::text("0"));
    q.insert("code".to_owned(), JsonValue::text("fc4be23b4e972707f36b8a828a93ba8a"));
    q.insert("sort_method".to_owned(), sort);
    NativeRequest::post("/mcomment/v1/cmt_classify_list").params(JsonValue::Object(q))
}

/// The upstream request of `playlist_track_all`, given the index of the first
/// track (`(page - 1) * pagesize` as a floating-point number).
pub open spec fn playlist_track_all_request(p: JsonView, begin_idx: JsonView) -> RequestView {
    let q = no_entries();
    let q = insert_entry(q, "area_code"@, num(1));
    let q = insert_entry(q, "begin_idx"@, begin_idx);
    let q = insert_entry(q, "plat"@, num(1));
    let q = insert_entry(q, "type"@, num(1));
    let q = insert_entry(q, "mode"@, num(1));
    let q = insert_entry(q, "personal_switch"@, num(1));
    let q = insert_entry(q, "extend_fields"@, txt("abtags,hot_cmt,popularization"@));
    let q = insert_entry(q, "pagesize"@, param_or(p, "pagesize"@, num(30)));
    let q = insert_entry(q, "global_collection_id"@, param(p, "id"@));
    request("/pubsongs/v2/get_other_list_file_nofilt"@, Method::Get).with_params(JsonView::Object(q))
}

/// Describes the upstream request of `playlist_track_all`.
pub fn playlist_track_all(params: &JsonValue, begin_idx: JsonValue) -> (r: NativeRequest)
    ensures
        r@ == playlist_track_all_request(params@, begin_idx@),
{
    let mut q = JsonObject::new();
    q.insert("area_code".to_owned(), JsonValue::unsigned(1));
    q.insert("begin_idx".to_owned(), begin_idx);
    q.insert("plat".to_owned(), JsonValue::unsigned(1));
    q.insert("type".to_owned(), JsonValue::unsigned(1));
    q.insert("mode".to_owned(), JsonValue::unsigned(1));
    q.insert("personal_switch".to_owned(), JsonValue::unsigned(1));
    q.insert("extend_fields".to_owned(), JsonValue::text("abtags,hot_cmt,popularization"));
    q.insert("pagesize".to_owned(), value_or(params, "pagesize", JsonValue::unsigned(30)));
    q.insert("global_collection_id".to_owned(), value(params, "id"));
    NativeRequest::get("/pubsongs/v2/get_other_list_file_nofilt").params(JsonValue::Object(q))
}

/// The `|`-separated fields of each comma-separated track in `data`.
pub open spec fn track_pieces(p: JsonView) -> Seq<Seq<Seq<char>>> {
    split(js_text(param_or(p, "data"@, txt(""@))), ',').map_values(|t: Seq<char>| split(t, '|'))
}

/// The fields of the tracks to add (see [`track_pieces`]); the album and
/// song ids among them are read as floating-point numbers by the caller.
pub fn track_fields(params: &JsonValue) -> (r: Vec<Vec<String>>)
    ensures
        r@.len() == track_pieces(params@).len(),
        forall|i: int|
            0 <= i < r@.len() ==> (#[trigger] r@[i])@.map_values(|s: String| s@)
                == track_pieces(params@)[i],
{
    let text = js_string(&value_or(params, "data", JsonValue::text("")));
    let tracks = split_str(text.as_str(), ',');
    let ghost want = track_pieces(params@);
    let mut out: Vec<Vec<String>> = Vec::new();
    let mut i: usize = 0;
    while i < tracks.len()
        invariant
            want == track_pieces(params@),
            tracks@.len() == want.len(),
            forall|k: int|
                0 <= k < tracks@.len() ==> split((#[trigger] tracks@[k])@, '|') == want[k],
            i <= tracks@.len(),
            out@.len() == i,
            forall|k: int| 0 <= k < i ==> (#[trigger] out@[k])@.map_values(|s: String| s@) == want[k],
        decreases tracks@.len() - i,
    {
        let fields = split_str(tracks[i].as_str(), '|');
        assert(fields@.map_values(|s: String| s@) =~= split(tracks@[i as int]@, '|'));
        out.push(fields);
        i = i + 1;
    }
    out
}

/// The field at `i`, or the empty text.
pub open spec fn field_or_empty(fields: Seq<Seq<char>>, i: int) -> Seq<char> {
    if i < fields.len() {
        fields[i]
    } else {
        Seq::empty()
    }
}

/// One track to add: its name and hash from the fields, and the album and
/// song ids given.
pub open spec fn track_item(fields: Seq<Seq<char>>, ids: (JsonView, JsonView)) -> JsonView {
    let o = no_entries();
    let o = insert_entry(o, "number"@, num(1));
    let o = insert_entry(o, "name"@, txt(field_or_empty(fields, 0)));
    let o = insert_entry(o, "hash"@, txt(field_or_empty(fields, 1)));
    let o = insert_entry(o, "size"@, num(0));
    let o = insert_entry(o, "sort"@, num(0));
    let o = insert_entry(o, "timelen"@, num(0));
    let o = insert_entry(o, "bitrate"@, num(0));
    let o = insert_entry(o, "album_id"@, ids.0);
    JsonView::Object(insert_entry(o, "mixsongid"@, ids.1))
}

/// The upstream request of `playlist_tracks_add`, given for each track its
/// album id and song id as numbers.
pub open spec fn playlist_tracks_add_request(
    p: JsonView,
    c: Clock,
    ids: Seq<(JsonView, JsonView)>,
) -> RequestView {
    let userid = param_then_cookie(p, "userid"@, num(0));
    let token = param_then_cookie(p, "token"@, txt(""@));
    let tracks = track_pieces(p);
    let q = no_entries();
    let q = insert_entry(q, "last_time"@, num(c.now_ms / 1000));
    let q = insert_entry(q, "last_area"@, txt("gztx"@));
    let q = insert_entry(q, "userid"@, userid);
    let q = insert_entry(q, "token"@, token);
    let d = no_entries();
    let d = insert_entry(d, "userid"@, userid);
    let d = insert_entry(d, "token"@, token);
    let d = insert_entry(d, "listid"@, param(p, "listid"@));
    let d = insert_entry(d, "list_ver"@, num(0));
    let d = insert_entry(d, "type"@, num(0));
    let d = insert_entry(d, "slow_upload"@, num(1));
    let d = insert_entry(d, "scene"@, txt("false;null"@));
    let d = insert_entry(
        d,
        "data"@,
        JsonView::Array(Seq::new(tracks.len(), |i: int| track_item(tracks[i], ids[i]))),
    );
    request("/cloudlist.service/v6/add_song"@, Method::Post).with_params(JsonView::Object(q)).with_data(
        JsonView::Object(d),
    )
}

fn text_at(fields: &Vec<String>, i: usize) -> (r: JsonValue)
    ensures
        r@ == txt(field_or_empty(fields@.map_values(|s: String| s@), i as int)),
{
    if i < fields.len() {
        JsonValue::Str(fields[i].clone())
    } else {
        JsonValue::Str(String::new())
    }
}

/// Describes the upstream request of `playlist_tracks_add`.
pub fn playlist_tracks_add(params: &JsonValue, c: Clock, ids: &Vec<(JsonValue, JsonValue)>) -> (r:
    NativeRequest)
    requires
        ids@.len() == track_pieces(params@).len(),
    ensures
        r@ == playlist_tracks_add_request(
            params@,
            c,
            ids@.map_values(|x: (JsonValue, JsonValue)| (x.0@, x.1@)),
        ),
{
    let ghost id_views = ids@.map_values(|x: (JsonValue, JsonValue)| (x.0@, x.1@));
    let tracks = track_fields(params);
    let ghost want = track_pieces(params@);
    let mut items = no_items();
    let mut i: usize = 0;
    while i < tracks.len()
        invariant
            want == track_pieces(params@),
            tracks@.len() == want.len(),
            forall|k: int|
                0 <= k < tracks@.len() ==> (#[trigger] tracks@[k])@.map_values(|s: String| s@)
                    == want[k],
            id_views == ids@.map_values(|x: (JsonValue, JsonValue)| (x.0@, x.1@)),
            ids@.len() == want.len(),
            i <= tracks@.len(),
            items_of(items@) == Seq::new(i as nat, |k: int| track_item(want[k], id_views[k])),
        decreases tracks@.len() - i,
    {
        let fields = &tracks[i];
        let mut o = JsonObject::new();
        o.insert("number".to_owned(), JsonValue::unsigned(1));
        o.insert("name".to_owned(), text_at(fields, 0));
        o.insert("hash".to_owned(), text_at(fields, 1));
        o.insert("size".to_owned(), JsonValue::unsigned(0));
        o.insert("sort".to_owned(), JsonValue::unsigned(0));
        o.insert("timelen".to_owned(), JsonValue::unsigned(0));
        o.insert("bitrate".to_owned(), JsonValue::unsigned(0));
        o.insert("album_id".to_owned(), ids[i].0.deep_clone());
        o.insert("mixsongid".to_owned(), ids[i].1.deep_clone());
        proof {
            assert(id_views[i as int] == (ids@[i as int].0@, ids@[i as int].1@));
        }
        push_item(&mut items, JsonValue::Object(o));
        assert(items_of(items@) =~= Seq::new((i + 1) as nat, |k: int| track_item(want[k], id_views[k])));
        i = i + 1;
    }
    let userid = param_or_cookie(params, "userid", JsonValue::unsigned(0));
    let token = param_or_cookie(params, "token", JsonValue::text(""));
    let mut q = JsonObject::new();
    q.insert("last_time".to_owned(), JsonValue::unsigned(c.now_ms / 1000));
    q.insert("last_area".to_owned(), JsonValue::text("gztx"));
    q.insert("userid".to_owned(), userid.deep_clone());
    q.insert("token".to_owned(), token.deep_clone());
    let mut d = JsonObject::new();
    d.insert("userid".to_owned(), userid);
    d.insert("token".to_owned(), token);
    d.insert("listid".to_owned(), value(params, "listid"));
    d.insert("list_ver".to_owned(), JsonValue::unsigned(0));
    d.insert("type".to_owned(), JsonValue::unsigned(0));
    d.insert("slow_upload".to_owned(), JsonValue::unsigned(1));
    d.insert("scene".to_owned(), JsonValue::text("false;null"));
    d.insert("data".to_owned(), array(items));
    NativeRequest::post("/cloudlist.service/v6/add_song").params(JsonValue::Object(q)).data(
        JsonValue::Object(d),
    )
}

} // verus!
