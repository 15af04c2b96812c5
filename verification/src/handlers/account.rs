//! Requests about logins, users and memberships.
use crate::handlers::{
    appid_value, array, clientver_value, cookie_or, items_of, no_entries, no_items, num, or_default,
    push_item, txt, Clock,
};
use crate::js::{js_number, number_value};
use crate::json::{insert_entry, int_view, JsonNumber, JsonObject, JsonValue, JsonView, NumberView};
use crate::params::{
    cookie, cookie_or_param, cookie_then_param, csv_number_objects, csv_number_objects_view,
    csv_objects, csv_objects_view, param, param_nullish, param_or, param_or_cookie,
    param_then_cookie, value, value_nullish, value_or,
};
use crate::signing::{params_key, platform_appid, platform_clientver, platform_numbers, sign_params_key};
use crate::text::{decimal, str_eq, u128_text};
use crate::upstream::{request, Method, NativeRequest, RequestView, SignatureKind};
use vstd::prelude::*;

verus! {

/// The upstream request of `get_verify_info`.
pub open spec fn get_verify_info_request(p: JsonView, c: Clock) -> RequestView {
    let d0 = {
        let o = no_entries();
        let o = insert_entry(o, "eventid"@, param(p, "eventid"@));
        let o = insert_entry(o, "userid"@, js_number(param_then_cookie(p, "userid"@, txt("0"@))));
        let o = insert_entry(o, "platid"@, param_or(p, "platid"@, num(2)));
        let o = insert_entry(o, "rtype"@, num(1));
        let o = insert_entry(o, "wasm"@, num(1));
        let o = insert_entry(o, "i"@, txt(""@));
        let o = insert_entry(o, "sid"@, txt(""@));
        let o = insert_entry(o, "edt"@, txt(""@));
        JsonView::Object(o)
    };
    request("/verifyservice/v3/get_verify_info"@, Method::Post).with_data(d0)
}

/// Describes the upstream request of `get_verify_info`.
pub fn get_verify_info(params: &JsonValue, c: Clock) -> (r: NativeRequest)
    ensures
        r@ == get_verify_info_request(params@, c),
{
    let mut o1 = JsonObject::new();
    o1.insert("eventid".to_owned(), value(params, "eventid"));
    o1.insert("userid".to_owned(), number_value(param_or_cookie(params, "userid", JsonValue::text("0"))));
    o1.insert("platid".to_owned(), value_or(params, "platid", JsonValue::unsigned(2)));
    o1.insert("rtype".to_owned(), JsonValue::unsigned(1));
    o1.insert("wasm".to_owned(), JsonValue::unsigned(1));
    o1.insert("i".to_owned(), JsonValue::text(""));
    o1.insert("sid".to_owned(), JsonValue::text(""));
    o1.insert("edt".to_owned(), JsonValue::text(""));
    let d2 = JsonValue::Object(o1);
    NativeRequest::post("/verifyservice/v3/get_verify_info").data(d2)
}

/// The upstream request of `user_playlist`.
pub open spec fn user_playlist_request(p: JsonView, c: Clock) -> RequestView {
    let p0 = {
        let o = no_entries();
        let o = insert_entry(o, "plat"@, num(1));
        let o = insert_entry(o, "userid"@, js_number(cookie_then_param(p, "userid"@, num(0))));
        let o = insert_entry(o, "token"@, cookie_then_param(p, "token"@, txt(""@)));
        JsonView::Object(o)
    };
    let d1 = {
        let o = no_entries();
        let o = insert_entry(o, "userid"@, cookie_then_param(p, "userid"@, num(0)));
        let o = insert_entry(o, "token"@, cookie_then_param(p, "token"@, txt(""@)));
        let o = insert_entry(o, "total_ver"@, num(979));
        let o = insert_entry(o, "type"@, num(2));
        let o = insert_entry(o, "page"@, param_or(p, "page"@, num(1)));
        let o = insert_entry(o, "pagesize"@, param_or(p, "pagesize"@, num(30)));
        JsonView::Object(o)
    };
    request("/v7/get_all_list"@, Method::Post).with_params(p0).with_data(d1).with_header("x-router"@, "cloudlist.service.kugou.com"@)
}

/// Describes the upstream request of `user_playlist`.
pub fn user_playlist(params: &JsonValue, c: Clock) -> (r: NativeRequest)
    ensures
        r@ == user_playlist_request(params@, c),
{
    let mut o1 = JsonObject::new();
    o1.insert("plat".to_owned(), JsonValue::unsigned(1));
    o1.insert("userid".to_owned(), number_value(cookie_or_param(params, "userid", JsonValue::unsigned(0))));
    o1.insert("token".to_owned(), cookie_or_param(params, "token", JsonValue::text("")));
    let p2 = JsonValue::Object(o1);
    let mut o3 = JsonObject::new();
    o3.insert("userid".to_owned(), cookie_or_param(params, "userid", JsonValue::unsigned(0)));
    o3.insert("token".to_owned(), cookie_or_param(params, "token", JsonValue::text("")));
    o3.insert("total_ver".to_owned(), JsonValue::unsigned(979));
    o3.insert("type".to_owned(), JsonValue::unsigned(2));
    o3.insert("page".to_owned(), value_or(params, "page", JsonValue::unsigned(1)));
    o3.insert("pagesize".to_owned(), value_or(params, "pagesize", JsonValue::unsigned(30)));
    let d4 = JsonValue::Object(o3);
    NativeRequest::post("/v7/get_all_list").params(p2).data(d4).header("x-router", "cloudlist.service.kugou.com")
}

/// The upstream request of `user_purchased_albums`.
pub open spec fn user_purchased_albums_request(p: JsonView, c: Clock) -> RequestView {
    let d0 = {
        let o = no_entries();
        let o = insert_entry(o, "appid"@, num(platform_appid(c.lite)));
        let o = insert_entry(o, "userid"@, js_number(or_default(cookie(p, "userid"@), num(0))));
        let o = insert_entry(o, "token"@, or_default(cookie(p, "token"@), txt(""@)));
        let o = insert_entry(o, "page"@, js_number(param_or(p, "page"@, num(1))));
        let o = insert_entry(o, "pagesize"@, js_number(param_or(p, "pagesize"@, num(15))));
        let o = insert_entry(o, "clientver"@, txt(decimal(platform_clientver(c.lite) as nat)));
        let o = insert_entry(o, "deleted"@, num(0));
        JsonView::Object(o)
    };
    request("/openapi/v1/copyright/get_album_goods"@, Method::Post).with_data(d0)
}

/// Describes the upstream request of `user_purchased_albums`.
pub fn user_purchased_albums(params: &JsonValue, c: Clock) -> (r: NativeRequest)
    ensures
        r@ == user_purchased_albums_request(params@, c),
{
    let mut o1 = JsonObject::new();
    o1.insert("appid".to_owned(), appid_value(c));
    o1.insert("userid".to_owned(), number_value(cookie_or(params, "userid", JsonValue::unsigned(0))));
    o1.insert("token".to_owned(), cookie_or(params, "token", JsonValue::text("")));
    o1.insert("page".to_owned(), number_value(value_or(params, "page", JsonValue::unsigned(1))));
    o1.insert("pagesize".to_owned(), number_value(value_or(params, "pagesize", JsonValue::unsigned(15))));
    o1.insert("clientver".to_owned(), JsonValue::Str(u128_text(platform_numbers(c.lite).1 as u128)));
    o1.insert("deleted".to_owned(), JsonValue::unsigned(0));
    let d2 = JsonValue::Object(o1);
    NativeRequest::post("/openapi/v1/copyright/get_album_goods").data(d2)
}

/// The upstream request of `user_purchased_songs`.
pub open spec fn user_purchased_songs_request(p: JsonView, c: Clock) -> RequestView {
    let d0 = {
        let o = no_entries();
        let o = insert_entry(o, "appid"@, num(platform_appid(c.lite)));
        let o = insert_entry(o, "userid"@, js_number(or_default(cookie(p, "userid"@), num(0))));
        let o = insert_entry(o, "token"@, or_default(cookie(p, "token"@), txt(""@)));
        let o = insert_entry(o, "page"@, js_number(param_or(p, "page"@, num(1))));
        let o = insert_entry(o, "pagesize"@, js_number(param_or(p, "pagesize"@, num(50))));
        let o = insert_entry(o, "clientver"@, txt(decimal(platform_clientver(c.lite) as nat)));
        let o = insert_entry(o, "deleted"@, num(0));
        let o = insert_entry(o, "need_audio_info"@, num(1));
        let o = insert_entry(o, "area_code"@, txt("1"@));
        JsonView::Object(o)
    };
    request("/openapi/copyright/v1/audio/get_goods"@, Method::Post).with_data(d0)
}

/// Describes the upstream request of `user_purchased_songs`.
pub fn user_purchased_songs(params: &JsonValue, c: Clock) -> (r: NativeRequest)
    ensures
        r@ == user_purchased_songs_request(params@, c),
{
    let mut o1 = JsonObject::new();
    o1.insert("appid".to_owned(), appid_value(c));
    o1.insert("userid".to_owned(), number_value(cookie_or(params, "userid", JsonValue::unsigned(0))));
    o1.insert("token".to_owned(), cookie_or(params, "token", JsonValue::text("")));
    o1.insert("page".to_owned(), number_value(value_or(params, "page", JsonValue::unsigned(1))));
    o1.insert("pagesize".to_owned(), number_value(value_or(params, "pagesize", JsonValue::unsigned(50))));
    o1.insert("clientver".to_owned(), JsonValue::Str(u128_text(platform_numbers(c.lite).1 as u128)));
    o1.insert("deleted".to_owned(), JsonValue::unsigned(0));
    o1.insert("need_audio_info".to_owned(), JsonValue::unsigned(1));
    o1.insert("area_code".to_owned(), JsonValue::text("1"));
    let d2 = JsonValue::Object(o1);
    NativeRequest::post("/openapi/copyright/v1/audio/get_goods").data(d2)
}

/// The upstream request of `user_video_collect`.
pub open spec fn user_video_collect_request(p: JsonView, c: Clock) -> RequestView {
    let p0 = {
        let o = no_entries();
        let o = insert_entry(o, "plat"@, num(1));
        JsonView::Object(o)
    };
    let d1 = {
        let o = no_entries();
        let o = insert_entry(o, "userid"@, param_then_cookie(p, "userid"@, txt("0"@)));
        let o = insert_entry(o, "token"@, param_then_cookie(p, "token"@, txt(""@)));
        let o = insert_entry(o, "page"@, param_nullish(p, "page"@, num(1)));
        let o = insert_entry(o, "pagesize"@, param_nullish(p, "pagesize"@, num(30)));
        JsonView::Object(o)
    };
    request("/collectservice/v2/collect_list_mixvideo"@, Method::Post).with_params(p0).with_data(d1)
}

/// Describes the upstream request of `user_video_collect`.
pub fn user_video_collect(params: &JsonValue, c: Clock) -> (r: NativeRequest)
    ensures
        r@ == user_video_collect_request(params@, c),
{
    let mut o1 = JsonObject::new();
    o1.insert("plat".to_owned(), JsonValue::unsigned(1));
    let p2 = JsonValue::Object(o1);
    let mut o3 = JsonObject::new();
    o3.insert("userid".to_owned(), param_or_cookie(params, "userid", JsonValue::text("0")));
    o3.insert("token".to_owned(), param_or_cookie(params, "token", JsonValue::text("")));
    o3.insert("page".to_owned(), value_nullish(params, "page", JsonValue::unsigned(1)));
    o3.insert("pagesize".to_owned(), value_nullish(params, "pagesize", JsonValue::unsigned(30)));
    let d4 = JsonValue::Object(o3);
    NativeRequest::post("/collectservice/v2/collect_list_mixvideo").params(p2).data(d4)
}

/// The upstream request of `user_video_love`.
pub open spec fn user_video_love_request(p: JsonView, c: Clock) -> RequestView {
    let p0 = {
        let o = no_entries();
        let o = insert_entry(o, "kugouid"@, param_then_cookie(p, "userid"@, txt("0"@)));
        let o = insert_entry(o, "pagesize"@, param_nullish(p, "pagesize"@, num(30)));
        let o = insert_entry(o, "load_video_info"@, num(1));
        let o = insert_entry(o, "p"@, num(1));
        let o = insert_entry(o, "plat"@, num(1));
        JsonView::Object(o)
    };
    request("/m.comment.service/v1/get_user_like_video"@, Method::Get).with_params(p0)
}

/// Describes the upstream request of `user_video_love`.
pub fn user_video_love(params: &JsonValue, c: Clock) -> (r: NativeRequest)
    ensures
        r@ == user_video_love_request(params@, c),
{
    let mut o1 = JsonObject::new();
    o1.insert("kugouid".to_owned(), param_or_cookie(params, "userid", JsonValue::text("0")));
    o1.insert("pagesize".to_owned(), value_nullish(params, "pagesize", JsonValue::unsigned(30)));
    o1.insert("load_video_info".to_owned(), JsonValue::unsigned(1));
    o1.insert("p".to_owned(), JsonValue::unsigned(1));
    o1.insert("plat".to_owned(), JsonValue::unsigned(1));
    let p2 = JsonValue::Object(o1);
    NativeRequest::get("/m.comment.service/v1/get_user_like_video").params(p2)
}

/// The upstream request of `user_vip_detail`.
pub open spec fn user_vip_detail_request(p: JsonView, c: Clock) -> RequestView {
    let p0 = {
        let o = no_entries();
        let o = insert_entry(o, "busi_type"@, txt("concept"@));
        JsonView::Object(o)
    };
    request("/v1/get_union_vip"@, Method::Get).with_base_url("https://kugouvip.kugou.com"@).with_params(p0)
}

/// Describes the upstream request of `user_vip_detail`.
pub fn user_vip_detail(params: &JsonValue, c: Clock) -> (r: NativeRequest)
    ensures
        r@ == user_vip_detail_request(params@, c),
{
    let mut o1 = JsonObject::new();
    o1.insert("busi_type".to_owned(), JsonValue::text("concept"));
    let p2 = JsonValue::Object(o1);
    NativeRequest::get("/v1/get_union_vip").base_url("https://kugouvip.kugou.com").params(p2)
}

/// The upstream request of `youth_day_vip`.
pub open spec fn youth_day_vip_request(p: JsonView, c: Clock) -> RequestView {
    let p0 = {
        let o = no_entries();
        let o = insert_entry(o, "source_id"@, num(90139));
        let o = insert_entry(o, "receive_day"@, param(p, "receive_day"@));
        JsonView::Object(o)
    };
    request("/youth/v1/recharge/receive_vip_listen_song"@, Method::Post).with_params(p0).with_header("content-type"@, "application/x-www-form-urlencoded"@)
}

/// Describes the upstream request of `youth_day_vip`.
pub fn youth_day_vip(params: &JsonValue, c: Clock) -> (r: NativeRequest)
    ensures
        r@ == youth_day_vip_request(params@, c),
{
    let mut o1 = JsonObject::new();
    o1.insert("source_id".to_owned(), JsonValue::unsigned(90139));
    o1.insert("receive_day".to_owned(), value(params, "receive_day"));
    let p2 = JsonValue::Object(o1);
    NativeRequest::post("/youth/v1/recharge/receive_vip_listen_song").params(p2).header("content-type", "application/x-www-form-urlencoded")
}

/// The upstream request of `youth_day_vip_upgrade`.
pub open spec fn youth_day_vip_upgrade_request(p: JsonView, c: Clock) -> RequestView {
    let p0 = {
        let o = no_entries();
        let o = insert_entry(o, "kugouid"@, js_number(param_then_cookie(p, "userid"@, num(0))));
        let o = insert_entry(o, "ad_type"@, num(1));
        JsonView::Object(o)
    };
    request("/youth/v1/listen_song/upgrade_vip_reward"@, Method::Post).with_params(p0)
}

/// Describes the upstream request of `youth_day_vip_upgrade`.
pub fn youth_day_vip_upgrade(params: &JsonValue, c: Clock) -> (r: NativeRequest)
    ensures
        r@ == youth_day_vip_upgrade_request(params@, c),
{
    let mut o1 = JsonObject::new();
    o1.insert("kugouid".to_owned(), number_value(param_or_cookie(params, "userid", JsonValue::unsigned(0))));
    o1.insert("ad_type".to_owned(), JsonValue::unsigned(1));
    let p2 = JsonValue::Object(o1);
    NativeRequest::post("/youth/v1/listen_song/upgrade_vip_reward").params(p2)
}

/// The upstream request of `youth_dynamic`.
pub open spec fn youth_dynamic_request(p: JsonView, c: Clock) -> RequestView {
    request("/youth/v3/user/get_dynamic"@, Method::Get)
}

/// Describes the upstream request of `youth_dynamic`.
pub fn youth_dynamic(params: &JsonValue, c: Clock) -> (r: NativeRequest)
    ensures
        r@ == youth_dynamic_request(params@, c),
{
    NativeRequest::get("/youth/v3/user/get_dynamic")
}

/// The upstream request of `youth_dynamic_recent`.
pub open spec fn youth_dynamic_recent_request(p: JsonView, c: Clock) -> RequestView {
    request("/youth/v3/user/recent_dynamic"@, Method::Get)
}

/// Describes the upstream request of `youth_dynamic_recent`.
pub fn youth_dynamic_recent(params: &JsonValue, c: Clock) -> (r: NativeRequest)
    ensures
        r@ == youth_dynamic_recent_request(params@, c),
{
    NativeRequest::get("/youth/v3/user/recent_dynamic")
}

/// The upstream request of `youth_month_vip_record`.
pub open spec fn youth_month_vip_record_request(p: JsonView, c: Clock) -> RequestView {
    let p0 = {
        let o = no_entries();
        let o = insert_entry(o, "latest_limit"@, num(100));
        JsonView::Object(o)
    };
    request("/youth/v1/activity/get_month_vip_record"@, Method::Get).with_params(p0)
}

/// Describes the upstream request of `youth_month_vip_record`.
pub fn youth_month_vip_record(params: &JsonValue, c: Clock) -> (r: NativeRequest)
    ensures
        r@ == youth_month_vip_record_request(params@, c),
{
    let mut o1 = JsonObject::new();
    o1.insert("latest_limit".to_owned(), JsonValue::unsigned(100));
    let p2 = JsonValue::Object(o1);
    NativeRequest::get("/youth/v1/activity/get_month_vip_record").params(p2)
}

/// The upstream request of `youth_listen_song`.
pub open spec fn youth_listen_song_request(p: JsonView, c: Clock) -> RequestView {
    let p0 = {
        let o = no_entries();
        let o = insert_entry(o, "clientver"@, num(10566));
        JsonView::Object(o)
    };
    let d1 = {
        let o = no_entries();
        let o = insert_entry(o, "mixsongid"@, param_or(p, "mixsongid"@, num(666075191)));
        JsonView::Object(o)
    };
    request("/youth/v2/report/listen_song"@, Method::Post).with_params(p0).with_data(d1).with_header("user-agent"@, "Android13-1070-10566-201-0-ReportPlaySongToServerProtocol-wifi"@).with_header("content-type"@, "application/json; charset=utf-8"@)
}

/// Describes the upstream request of `youth_listen_song`.
pub fn youth_listen_song(params: &JsonValue, c: Clock) -> (r: NativeRequest)
    ensures
        r@ == youth_listen_song_request(params@, c),
{
    let mut o1 = JsonObject::new();
    o1.insert("clientver".to_owned(), JsonValue::unsigned(10566));
    let p2 = JsonValue::Object(o1);
    let mut o3 = JsonObject::new();
    o3.insert("mixsongid".to_owned(), value_or(params, "mixsongid", JsonValue::unsigned(666075191)));
    let d4 = JsonValue::Object(o3);
    NativeRequest::post("/youth/v2/report/listen_song").params(p2).data(d4).header("user-agent", "Android13-1070-10566-201-0-ReportPlaySongToServerProtocol-wifi").header("content-type", "application/json; charset=utf-8")
}

/// The upstream request of `youth_union_vip`.
pub open spec fn youth_union_vip_request(p: JsonView, c: Clock) -> RequestView {
    let p0 = {
        let o = no_entries();
        let o = insert_entry(o, "busi_type"@, txt("concept"@));
        let o = insert_entry(o, "opt_product_types"@, txt("dvip,qvip"@));
        let o = insert_entry(o, "product_type"@, txt("svip"@));
        JsonView::Object(o)
    };
    request("/v1/get_union_vip"@, Method::Get).with_base_url("https://kugouvip.kugou.com"@).with_params(p0)
}

/// Describes the upstream request of `youth_union_vip`.
pub fn youth_union_vip(params: &JsonValue, c: Clock) -> (r: NativeRequest)
    ensures
        r@ == youth_union_vip_request(params@, c),
{
    let mut o1 = JsonObject::new();
    o1.insert("busi_type".to_owned(), JsonValue::text("concept"));
    o1.insert("opt_product_types".to_owned(), JsonValue::text("dvip,qvip"));
    o1.insert("product_type".to_owned(), JsonValue::text("svip"));
    let p2 = JsonValue::Object(o1);
    NativeRequest::get("/v1/get_union_vip").base_url("https://kugouvip.kugou.com").params(p2)
}

/// The upstream request of `youth_user_song`.
pub open spec fn youth_user_song_request(p: JsonView, c: Clock) -> RequestView {
    let p0 = {
        let o = no_entries();
        let o = insert_entry(o, "filter_video"@, num(0));
        let o = insert_entry(o, "type"@, param_or(p, "type"@, num(0)));
        let o = insert_entry(o, "userid"@, param(p, "userid"@));
        let o = insert_entry(o, "pagesize"@, param_or(p, "pagesize"@, num(30)));
        let o = insert_entry(o, "page"@, param_or(p, "page"@, num(1)));
        let o = insert_entry(o, "is_filter"@, num(0));
        JsonView::Object(o)
    };
    request("/youth/v1/get_user_song_public"@, Method::Get).with_params(p0)
}

/// Describes the upstream request of `youth_user_song`.
pub fn youth_user_song(params: &JsonValue, c: Clock) -> (r: NativeRequest)
    ensures
        r@ == youth_user_song_request(params@, c),
{
    let mut o1 = JsonObject::new();
    o1.insert("filter_video".to_owned(), JsonValue::unsigned(0));
    o1.insert("type".to_owned(), value_or(params, "type", JsonValue::unsigned(0)));
    o1.insert("userid".to_owned(), value(params, "userid"));
    o1.insert("pagesize".to_owned(), value_or(params, "pagesize", JsonValue::unsigned(30)));
    o1.insert("page".to_owned(), value_or(params, "page", JsonValue::unsigned(1)));
    o1.insert("is_filter".to_owned(), JsonValue::unsigned(0));
    let p2 = JsonValue::Object(o1);
    NativeRequest::get("/youth/v1/get_user_song_public").params(p2)
}

/// The request a module of this group describes, if it is one of them.
#[verifier::opaque]
pub open spec fn requested(m: Seq<char>, p: JsonView, c: Clock) -> Option<RequestView> {
    if m == "get_verify_info"@ {
        Some(get_verify_info_request(p, c))
    } else if m == "user_playlist"@ {
        Some(user_playlist_request(p, c))
    } else if m == "user_purchased_albums"@ {
        Some(user_purchased_albums_request(p, c))
    } else if m == "user_purchased_songs"@ {
        Some(user_purchased_songs_request(p, c))
    } else if m == "user_video_collect"@ {
        Some(user_video_collect_request(p, c))
    } else if m == "user_video_love"@ {
        Some(user_video_love_request(p, c))
    } else if m == "user_vip_detail"@ {
        Some(user_vip_detail_request(p, c))
    } else if m == "youth_day_vip"@ {
        Some(youth_day_vip_request(p, c))
    } else if m == "youth_day_vip_upgrade"@ {
        Some(youth_day_vip_upgrade_request(p, c))
    } else if m == "youth_dynamic"@ {
        Some(youth_dynamic_request(p, c))
    } else if m == "youth_dynamic_recent"@ {
        Some(youth_dynamic_recent_request(p, c))
    } else if m == "youth_listen_song"@ {
        Some(youth_listen_song_request(p, c))
    } else if m == "youth_month_vip_record"@ {
        Some(youth_month_vip_record_request(p, c))
    } else if m == "youth_union_vip"@ {
        Some(youth_union_vip_request(p, c))
    } else if m == "youth_user_song"@ {
        Some(youth_user_song_request(p, c))
    } else {
        None
    }
}

/// The request a module of this group describes (see [`requested`]).
pub fn request_for(module: &str, params: &JsonValue, c: Clock) -> (r: Option<NativeRequest>)
    ensures
        match r {
            Some(q) => requested(module@, params@, c) == Some(q@),
            None => requested(module@, params@, c) is None,
        },
{
    reveal(requested);
    if str_eq(module, "get_verify_info") {
        return Some(get_verify_info(params, c));
    }
    if str_eq(module, "user_playlist") {
        return Some(user_playlist(params, c));
    }
    if str_eq(module, "user_purchased_albums") {
        return Some(user_purchased_albums(params, c));
    }
    if str_eq(module, "user_purchased_songs") {
        return Some(user_purchased_songs(params, c));
    }
    if str_eq(module, "user_video_collect") {
        return Some(user_video_collect(params, c));
    }
    if str_eq(module, "user_video_love") {
        return Some(user_video_love(params, c));
    }
    if str_eq(module, "user_vip_detail") {
        return Some(user_vip_detail(params, c));
    }
    if str_eq(module, "youth_day_vip") {
        return Some(youth_day_vip(params, c));
    }
    if str_eq(module, "youth_day_vip_upgrade") {
        return Some(youth_day_vip_upgrade(params, c));
    }
    if str_eq(module, "youth_dynamic") {
        return Some(youth_dynamic(params, c));
    }
    if str_eq(module, "youth_dynamic_recent") {
        return Some(youth_dynamic_recent(params, c));
    }
    if str_eq(module, "youth_listen_song") {
        return Some(youth_listen_song(params, c));
    }
    if str_eq(module, "youth_month_vip_record") {
        return Some(youth_month_vip_record(params, c));
    }
    if str_eq(module, "youth_union_vip") {
        return Some(youth_union_vip(params, c));
    }
    if str_eq(module, "youth_user_song") {
        return Some(youth_user_song(params, c));
    }
    None
}

/// Whether `m` is one of the modules described here.
pub open spec fn handles(m: Seq<char>) -> bool {
    m == "get_verify_info"@
        || m == "user_playlist"@
        || m == "user_purchased_albums"@
        || m == "user_purchased_songs"@
        || m == "user_video_collect"@
        || m == "user_video_love"@
        || m == "user_vip_detail"@
        || m == "youth_day_vip"@
        || m == "youth_day_vip_upgrade"@
        || m == "youth_dynamic"@
        || m == "youth_dynamic_recent"@
        || m == "youth_listen_song"@
        || m == "youth_month_vip_record"@
        || m == "youth_union_vip"@
        || m == "youth_user_song"@
}

/// Each module described here has a request.
pub proof fn lemma_handled_requested(m: Seq<char>, p: JsonView, c: Clock)
    requires
        handles(m),
    ensures
        requested(m, p, c) is Some,
{
    reveal(requested);
}

} // verus!
