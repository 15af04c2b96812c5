//! Requests about recommendations, radio, rankings, scenes and search.
use crate::handlers::{
    appid_value, array, clientver_value, cookie_or, items_of, no_entries, no_items, num, or_default,
    push_item, txt, Clock,
};
use crate::js::{js_number, number_value};
use crate::json::{insert_entry, int_view, JsonNumber, JsonObject, JsonValue, JsonView, NumberView};
use crate::params::{
    cookie, cookie_or_param, cookie_then_param, csv_number_objects, csv_number_objects_view,
    csv_objects, csv_objects_view, param, param_nullish, param_or, param_or_cookie,
    param_then_cookie, value, value_nullish, value_or,
};
use crate::signing::{params_key, platform_appid, platform_clientver, platform_numbers, sign_params_key};
use crate::text::{decimal, str_eq, u128_text};
use crate::upstream::{request, Method, NativeRequest, RequestView, SignatureKind};
use vstd::prelude::*;

verus! {

/// The upstream request of `ai_recommend`.
pub open spec fn ai_recommend_request(p: JsonView, c: Clock) -> RequestView {
    let d0 = {
        let o = no_entries();
        let o = insert_entry(o, "platform"@, txt("ios"@));
        let o = insert_entry(o, "clientver"@, num(platform_clientver(c.lite)));
        let o = insert_entry(o, "clienttime"@, num(c.now_ms));
        let o = insert_entry(o, "userid"@, param_then_cookie(p, "userid"@, num(0)));
        let o = insert_entry(o, "client_playlist"@, JsonView::Array(Seq::empty()));
        let o = insert_entry(o, "source_type"@, num(2));
        let o = insert_entry(o, "playlist_ver"@, num(2));
        let o = insert_entry(o, "area_code"@, num(1));
        let o = insert_entry(o, "appid"@, num(platform_appid(c.lite)));
        let o = insert_entry(o, "key"@, txt(params_key(decimal((c.now_ms) as nat), c.lite)));
        let o = insert_entry(o, "mid"@, or_default(cookie(p, "KUGOU_API_MID"@), JsonView::Null));
        let o = insert_entry(o, "recommend_source"@, csv_number_objects_view(p, "album_audio_id"@, "ID"@));
        JsonView::Object(o)
    };
    request("/recommend"@, Method::Post).with_data(d0).with_header("x-router"@, "songlistairec.kugou.com"@).cleared()
}

/// Describes the upstream request of `ai_recommend`.
pub fn ai_recommend(params: &JsonValue, c: Clock) -> (r: NativeRequest)
    ensures
        r@ == ai_recommend_request(params@, c),
{
    let mut o1 = JsonObject::new();
    o1.insert("platform".to_owned(), JsonValue::text("ios"));
    o1.insert("clientver".to_owned(), clientver_value(c));
    o1.insert("clienttime".to_owned(), JsonValue::unsigned(c.now_ms));
    o1.insert("userid".to_owned(), param_or_cookie(params, "userid", JsonValue::unsigned(0)));
    o1.insert("client_playlist".to_owned(), array(no_items()));
    o1.insert("source_type".to_owned(), JsonValue::unsigned(2));
    o1.insert("playlist_ver".to_owned(), JsonValue::unsigned(2));
    o1.insert("area_code".to_owned(), JsonValue::unsigned(1));
    o1.insert("appid".to_owned(), appid_value(c));
    o1.insert("key".to_owned(), JsonValue::Str(sign_params_key(c.now_ms, c.lite)));
    o1.insert("mid".to_owned(), cookie_or(params, "KUGOU_API_MID", JsonValue::Null));
    o1.insert("recommend_source".to_owned(), csv_number_objects(params, "album_audio_id", "ID"));
    let d2 = JsonValue::Object(o1);
    NativeRequest::post("/recommend").data(d2).header("x-router", "songlistairec.kugou.com").clear_default_params()
}

/// The upstream request of `everyday_recommend`.
pub open spec fn everyday_recommend_request(p: JsonView, c: Clock) -> RequestView {
    let p0 = {
        let o = no_entries();
        let o = insert_entry(o, "platform"@, param_or(p, "platform"@, txt("ios"@)));
        JsonView::Object(o)
    };
    request("/everyday_song_recommend"@, Method::Post).with_params(p0).with_header("x-router"@, "everydayrec.service.kugou.com"@)
}

/// Describes the upstream request of `everyday_recommend`.
pub fn everyday_recommend(params: &JsonValue, c: Clock) -> (r: NativeRequest)
    ensures
        r@ == everyday_recommend_request(params@, c),
{
    let mut o1 = JsonObject::new();
    o1.insert("platform".to_owned(), value_or(params, "platform", JsonValue::text("ios")));
    let p2 = JsonValue::Object(o1);
    NativeRequest::post("/everyday_song_recommend").params(p2).header("x-router", "everydayrec.service.kugou.com")
}

/// The upstream request of `everyday_style_recommend`.
pub open spec fn everyday_style_recommend_request(p: JsonView, c: Clock) -> RequestView {
    let p0 = {
        let o = no_entries();
        let o = insert_entry(o, "tagids"@, param_nullish(p, "tagids"@, txt(""@)));
        JsonView::Object(o)
    };
    let d1 = {
        let o = no_entries();
        JsonView::Object(o)
    };
    request("/everydayrec.service/everyday_style_recommend"@, Method::Post).with_params(p0).with_data(d1)
}

/// Describes the upstream request of `everyday_style_recommend`.
pub fn everyday_style_recommend(params: &JsonValue, c: Clock) -> (r: NativeRequest)
    ensures
        r@ == everyday_style_recommend_request(params@, c),
{
    let mut o1 = JsonObject::new();
    o1.insert("tagids".to_owned(), value_nullish(params, "tagids", JsonValue::text("")));
    let p2 = JsonValue::Object(o1);
    let mut o3 = JsonObject::new();
    let d4 = JsonValue::Object(o3);
    NativeRequest::post("/everydayrec.service/everyday_style_recommend").params(p2).data(d4)
}

/// The upstream request of `get_model`.
pub open spec fn get_model_request(p: JsonView, c: Clock) -> RequestView {
    let p0 = {
        let o = no_entries();
        let o = insert_entry(o, "super_vip"@, num(1));
        let o = insert_entry(o, "sound_ver"@, num(2));
        let o = insert_entry(o, "page"@, param_or(p, "page"@, num(1)));
        let o = insert_entry(o, "pagesize"@, param_or(p, "pagesize"@, num(30)));
        let o = insert_entry(o, "apiver"@, num(3));
        let o = insert_entry(o, "classify"@, txt("2,3"@));
        let o = insert_entry(o, "plat"@, num(2));
        let o = insert_entry(o, "privilege"@, num(1));
        let o = insert_entry(o, "sort"@, num(2));
        JsonView::Object(o)
    };
    request("/ocean/v6/sound/list"@, Method::Get).with_params(p0)
}

/// Describes the upstream request of `get_model`.
pub fn get_model(params: &JsonValue, c: Clock) -> (r: NativeRequest)
    ensures
        r@ == get_model_request(params@, c),
{
    let mut o1 = JsonObject::new();
    o1.insert("super_vip".to_owned(), JsonValue::unsigned(1));
    o1.insert("sound_ver".to_owned(), JsonValue::unsigned(2));
    o1.insert("page".to_owned(), value_or(params, "page", JsonValue::unsigned(1)));
    o1.insert("pagesize".to_owned(), value_or(params, "pagesize", JsonValue::unsigned(30)));
    o1.insert("apiver".to_owned(), JsonValue::unsigned(3));
    o1.insert("classify".to_owned(), JsonValue::text("2,3"));
    o1.insert("plat".to_owned(), JsonValue::unsigned(2));
    o1.insert("privilege".to_owned(), JsonValue::unsigned(1));
    o1.insert("sort".to_owned(), JsonValue::unsigned(2));
    let p2 = JsonValue::Object(o1);
    NativeRequest::get("/ocean/v6/sound/list").params(p2)
}

/// The upstream request of `get_mode_info`.
pub open spec fn get_mode_info_request(p: JsonView, c: Clock) -> RequestView {
    let p0 = {
        let o = no_entries();
        let o = insert_entry(o, "model_id"@, js_number(param_or(p, "model_id"@, num(0))));
        let o = insert_entry(o, "req_src"@, txt("collection"@));
        let o = insert_entry(o, "earphone_vip"@, num(1));
        let o = insert_entry(o, "sound_ver"@, num(2));
        let o = insert_entry(o, "key"@, txt(params_key(decimal((c.now_ms) as nat), c.lite)));
        let o = insert_entry(o, "page"@, param_or(p, "page"@, num(1)));
        let o = insert_entry(o, "pagesize"@, param_or(p, "pagesize"@, num(30)));
        JsonView::Object(o)
    };
    request("/api/v5/earphone/get_model_info"@, Method::Get).with_base_url("http://mobileservice.kugou.com"@).with_params(p0)
}

/// Describes the upstream request of `get_mode_info`.
pub fn get_mode_info(params: &JsonValue, c: Clock) -> (r: NativeRequest)
    ensures
        r@ == get_mode_info_request(params@, c),
{
    let mut o1 = JsonObject::new();
    o1.insert("model_id".to_owned(), number_value(value_or(params, "model_id", JsonValue::unsigned(0))));
    o1.insert("req_src".to_owned(), JsonValue::text("collection"));
    o1.insert("earphone_vip".to_owned(), JsonValue::unsigned(1));
    o1.insert("sound_ver".to_owned(), JsonValue::unsigned(2));
    o1.insert("key".to_owned(), JsonValue::Str(sign_params_key(c.now_ms, c.lite)));
    o1.insert("page".to_owned(), value_or(params, "page", JsonValue::unsigned(1)));
    o1.insert("pagesize".to_owned(), value_or(params, "pagesize", JsonValue::unsigned(30)));
    let p2 = JsonValue::Object(o1);
    NativeRequest::get("/api/v5/earphone/get_model_info").base_url("http://mobileservice.kugou.com").params(p2)
}

/// The upstream request of `recommend_songs`.
pub open spec fn recommend_songs_request(p: JsonView, c: Clock) -> RequestView {
    let d0 = {
        let o = no_entries();
        let o = insert_entry(o, "platform"@, param_or(p, "platform"@, txt("android"@)));
        let o = insert_entry(o, "userid"@, param_then_cookie(p, "userid"@, txt("0"@)));
        JsonView::Object(o)
    };
    request("/everyday_song_recommend"@, Method::Post).with_data(d0).with_header("x-router"@, "everydayrec.service.kugou.com"@)
}

/// Describes the upstream request of `recommend_songs`.
pub fn recommend_songs(params: &JsonValue, c: Clock) -> (r: NativeRequest)
    ensures
        r@ == recommend_songs_request(params@, c),
{
    let mut o1 = JsonObject::new();
    o1.insert("platform".to_owned(), value_or(params, "platform", JsonValue::text("android")));
    o1.insert("userid".to_owned(), param_or_cookie(params, "userid", JsonValue::text("0")));
    let d2 = JsonValue::Object(o1);
    NativeRequest::post("/everyday_song_recommend").data(d2).header("x-router", "everydayrec.service.kugou.com")
}

/// The upstream request of `rank_info`.
pub open spec fn rank_info_request(p: JsonView, c: Clock) -> RequestView {
    let p0 = {
        let o = no_entries();
        let o = insert_entry(o, "rank_cid"@, param_or(p, "rank_cid"@, num(0)));
        let o = insert_entry(o, "rankid"@, param(p, "rankid"@));
        let o = insert_entry(o, "with_album_img"@, param_or(p, "album_img"@, num(1)));
        let o = insert_entry(o, "zone"@, param_or(p, "zone"@, txt(""@)));
        JsonView::Object(o)
    };
    request("/ocean/v6/rank/info"@, Method::Get).with_params(p0)
}

/// Describes the upstream request of `rank_info`.
pub fn rank_info(params: &JsonValue, c: Clock) -> (r: NativeRequest)
    ensures
        r@ == rank_info_request(params@, c),
{
    let mut o1 = JsonObject::new();
    o1.insert("rank_cid".to_owned(), value_or(params, "rank_cid", JsonValue::unsigned(0)));
    o1.insert("rankid".to_owned(), value(params, "rankid"));
    o1.insert("with_album_img".to_owned(), value_or(params, "album_img", JsonValue::unsigned(1)));
    o1.insert("zone".to_owned(), value_or(params, "zone", JsonValue::text("")));
    let p2 = JsonValue::Object(o1);
    NativeRequest::get("/ocean/v6/rank/info").params(p2)
}

/// The upstream request of `rank_audio`.
pub open spec fn rank_audio_request(p: JsonView, c: Clock) -> RequestView {
    let d0 = {
        let o = no_entries();
        let o = insert_entry(o, "show_portrait_mv"@, num(1));
        let o = insert_entry(o, "show_type_total"@, num(1));
        let o = insert_entry(o, "filter_original_remarks"@, num(1));
        let o = insert_entry(o, "area_code"@, num(1));
        let o = insert_entry(o, "pagesize"@, param_or(p, "pagesize"@, num(30)));
        let o = insert_entry(o, "rank_cid"@, param_or(p, "rank_cid"@, num(0)));
        let o = insert_entry(o, "type"@, num(1));
        let o = insert_entry(o, "page"@, param_or(p, "page"@, num(1)));
        let o = insert_entry(o, "rank_id"@, param(p, "rankid"@));
        JsonView::Object(o)
    };
    request("/openapi/kmr/v2/rank/audio"@, Method::Post).with_data(d0).with_header("kg-tid"@, "369"@)
}

/// Describes the upstream request of `rank_audio`.
pub fn rank_audio(params: &JsonValue, c: Clock) -> (r: NativeRequest)
    ensures
        r@ == rank_audio_request(params@, c),
{
    let mut o1 = JsonObject::new();
    o1.insert("show_portrait_mv".to_owned(), JsonValue::unsigned(1));
    o1.insert("show_type_total".to_owned(), JsonValue::unsigned(1));
    o1.insert("filter_original_remarks".to_owned(), JsonValue::unsigned(1));
    o1.insert("area_code".to_owned(), JsonValue::unsigned(1));
    o1.insert("pagesize".to_owned(), value_or(params, "pagesize", JsonValue::unsigned(30)));
    o1.insert("rank_cid".to_owned(), value_or(params, "rank_cid", JsonValue::unsigned(0)));
    o1.insert("type".to_owned(), JsonValue::unsigned(1));
    o1.insert("page".to_owned(), value_or(params, "page", JsonValue::unsigned(1)));
    o1.insert("rank_id".to_owned(), value(params, "rankid"));
    let d2 = JsonValue::Object(o1);
    NativeRequest::post("/openapi/kmr/v2/rank/audio").data(d2).header("kg-tid", "369")
}

/// The upstream request of `rank_list`.
pub open spec fn rank_list_request(p: JsonView, c: Clock) -> RequestView {
    let p0 = {
        let o = no_entries();
        let o = insert_entry(o, "plat"@, num(2));
        let o = insert_entry(o, "withsong"@, param_or(p, "withsong"@, num(1)));
        let o = insert_entry(o, "parentid"@, num(0));
        JsonView::Object(o)
    };
    request("/ocean/v6/rank/list"@, Method::Get).with_params(p0)
}

/// Describes the upstream request of `rank_list`.
pub fn rank_list(params: &JsonValue, c: Clock) -> (r: NativeRequest)
    ensures
        r@ == rank_list_request(params@, c),
{
    let mut o1 = JsonObject::new();
    o1.insert("plat".to_owned(), JsonValue::unsigned(2));
    o1.insert("withsong".to_owned(), value_or(params, "withsong", JsonValue::unsigned(1)));
    o1.insert("parentid".to_owned(), JsonValue::unsigned(0));
    let p2 = JsonValue::Object(o1);
    NativeRequest::get("/ocean/v6/rank/list").params(p2)
}

/// The upstream request of `rank_top`.
pub open spec fn rank_top_request(p: JsonView, c: Clock) -> RequestView {
    request("/mobileservice/api/v5/rank/rec_rank_list"@, Method::Get)
}

/// Describes the upstream request of `rank_top`.
pub fn rank_top(params: &JsonValue, c: Clock) -> (r: NativeRequest)
    ensures
        r@ == rank_top_request(params@, c),
{
    NativeRequest::get("/mobileservice/api/v5/rank/rec_rank_list")
}

/// The upstream request of `rank_vol`.
pub open spec fn rank_vol_request(p: JsonView, c: Clock) -> RequestView {
    let p0 = {
        let o = no_entries();
        let o = insert_entry(o, "rank_cid"@, param_or(p, "rank_cid"@, num(0)));
        let o = insert_entry(o, "rankid"@, param(p, "rankid"@));
        let o = insert_entry(o, "ranktype"@, num(1));
        let o = insert_entry(o, "type"@, num(0));
        let o = insert_entry(o, "plat"@, num(2));
        JsonView::Object(o)
    };
    request("/ocean/v6/rank/vol"@, Method::Get).with_params(p0)
}

/// Describes the upstream request of `rank_vol`.
pub fn rank_vol(params: &JsonValue, c: Clock) -> (r: NativeRequest)
    ensures
        r@ == rank_vol_request(params@, c),
{
    let mut o1 = JsonObject::new();
    o1.insert("rank_cid".to_owned(), value_or(params, "rank_cid", JsonValue::unsigned(0)));
    o1.insert("rankid".to_owned(), value(params, "rankid"));
    o1.insert("ranktype".to_owned(), JsonValue::unsigned(1));
    o1.insert("type".to_owned(), JsonValue::unsigned(0));
    o1.insert("plat".to_owned(), JsonValue::unsigned(2));
    let p2 = JsonValue::Object(o1);
    NativeRequest::get("/ocean/v6/rank/vol").params(p2)
}

/// The upstream request of `scene_lists`.
pub open spec fn scene_lists_request(p: JsonView, c: Clock) -> RequestView {
    request("/scene/v1/scene/list"@, Method::Get)
}

/// Describes the upstream request of `scene_lists`.
pub fn scene_lists(params: &JsonValue, c: Clock) -> (r: NativeRequest)
    ensures
        r@ == scene_lists_request(params@, c),
{
    NativeRequest::get("/scene/v1/scene/list")
}

/// The upstream request of `scene_audio_list`.
pub open spec fn scene_audio_list_request(p: JsonView, c: Clock) -> RequestView {
    let p0 = {
        let o = no_entries();
        let o = insert_entry(o, "scene_id"@, param(p, "id"@));
        let o = insert_entry(o, "module_id"@, param(p, "module_id"@));
        let o = insert_entry(o, "tag"@, param(p, "tag"@));
        let o = insert_entry(o, "page"@, param_or(p, "page"@, num(1)));
        let o = insert_entry(o, "page_size"@, param_or(p, "pagesize"@, num(30)));
        JsonView::Object(o)
    };
    let d1 = {
        let o = no_entries();
        let o = insert_entry(o, "appid"@, num(platform_appid(c.lite)));
        let o = insert_entry(o, "clientver"@, num(platform_clientver(c.lite)));
        let o = insert_entry(o, "token"@, param_then_cookie(p, "token"@, txt(""@)));
        let o = insert_entry(o, "userid"@, param_then_cookie(p, "userid"@, num(0)));
        JsonView::Object(o)
    };
    request("/scene/v1/scene/audio_list"@, Method::Post).with_params(p0).with_data(d1)
}

/// Describes the upstream request of `scene_audio_list`.
pub fn scene_audio_list(params: &JsonValue, c: Clock) -> (r: NativeRequest)
    ensures
        r@ == scene_audio_list_request(params@, c),
{
    let mut o1 = JsonObject::new();
    o1.insert("scene_id".to_owned(), value(params, "id"));
    o1.insert("module_id".to_owned(), value(params, "module_id"));
    o1.insert("tag".to_owned(), value(params, "tag"));
    o1.insert("page".to_owned(), value_or(params, "page", JsonValue::unsigned(1)));
    o1.insert("page_size".to_owned(), value_or(params, "pagesize", JsonValue::unsigned(30)));
    let p2 = JsonValue::Object(o1);
    let mut o3 = JsonObject::new();
    o3.insert("appid".to_owned(), appid_value(c));
    o3.insert("clientver".to_owned(), clientver_value(c));
    o3.insert("token".to_owned(), param_or_cookie(params, "token", JsonValue::text("")));
    o3.insert("userid".to_owned(), param_or_cookie(params, "userid", JsonValue::unsigned(0)));
    let d4 = JsonValue::Object(o3);
    NativeRequest::post("/scene/v1/scene/audio_list").params(p2).data(d4)
}

/// The upstream request of `scene_collection_list`.
pub open spec fn scene_collection_list_request(p: JsonView, c: Clock) -> RequestView {
    let d0 = {
        let o = no_entries();
        let o = insert_entry(o, "appid"@, num(platform_appid(c.lite)));
        let o = insert_entry(o, "clientver"@, num(platform_clientver(c.lite)));
        let o = insert_entry(o, "token"@, param_then_cookie(p, "token"@, txt(""@)));
        let o = insert_entry(o, "userid"@, param_then_cookie(p, "userid"@, num(0)));
        let o = insert_entry(o, "tag_id"@, param(p, "tag_id"@));
        let o = insert_entry(o, "page"@, param_or(p, "page"@, num(1)));
        let o = insert_entry(o, "page_size"@, param_or(p, "pagesize"@, num(30)));
        let o = insert_entry(o, "exposed_data"@, JsonView::Array(Seq::empty()));
        JsonView::Object(o)
    };
    request("/scene/v1/distribution/collection_list"@, Method::Post).with_data(d0)
}

/// Describes the upstream request of `scene_collection_list`.
pub fn scene_collection_list(params: &JsonValue, c: Clock) -> (r: NativeRequest)
    ensures
        r@ == scene_collection_list_request(params@, c),
{
    let mut o1 = JsonObject::new();
    o1.insert("appid".to_owned(), appid_value(c));
    o1.insert("clientver".to_owned(), clientver_value(c));
    o1.insert("token".to_owned(), param_or_cookie(params, "token", JsonValue::text("")));
    o1.insert("userid".to_owned(), param_or_cookie(params, "userid", JsonValue::unsigned(0)));
    o1.insert("tag_id".to_owned(), value(params, "tag_id"));
    o1.insert("page".to_owned(), value_or(params, "page", JsonValue::unsigned(1)));
    o1.insert("page_size".to_owned(), value_or(params, "pagesize", JsonValue::unsigned(30)));
    o1.insert("exposed_data".to_owned(), array(no_items()));
    let d2 = JsonValue::Object(o1);
    NativeRequest::post("/scene/v1/distribution/collection_list").data(d2)
}

/// The upstream request of `scene_music`.
pub open spec fn scene_music_request(p: JsonView, c: Clock) -> RequestView {
    let p0 = {
        let o = no_entries();
        let o = insert_entry(o, "scene_id"@, param(p, "id"@));
        let o = insert_entry(o, "page"@, param_or(p, "page"@, num(1)));
        let o = insert_entry(o, "pagesize"@, param_or(p, "pagesize"@, num(30)));
        JsonView::Object(o)
    };
    let d1 = {
        let o = no_entries();
        let o = insert_entry(o, "exposure"@, JsonView::Array(Seq::empty()));
        JsonView::Object(o)
    };
    request("/genesisapi/v1/scene_music/rec_music"@, Method::Post).with_params(p0).with_data(d1)
}

/// Describes the upstream request of `scene_music`.
pub fn scene_music(params: &JsonValue, c: Clock) -> (r: NativeRequest)
    ensures
        r@ == scene_music_request(params@, c),
{
    let mut o1 = JsonObject::new();
    o1.insert("scene_id".to_owned(), value(params, "id"));
    o1.insert("page".to_owned(), value_or(params, "page", JsonValue::unsigned(1)));
    o1.insert("pagesize".to_owned(), value_or(params, "pagesize", JsonValue::unsigned(30)));
    let p2 = JsonValue::Object(o1);
    let mut o3 = JsonObject::new();
    o3.insert("exposure".to_owned(), array(no_items()));
    let d4 = JsonValue::Object(o3);
    NativeRequest::post("/genesisapi/v1/scene_music/rec_music").params(p2).data(d4)
}

/// The upstream request of `scene_video_list`.
pub open spec fn scene_video_list_request(p: JsonView, c: Clock) -> RequestView {
    let d0 = {
        let o = no_entries();
        let o = insert_entry(o, "appid"@, num(platform_appid(c.lite)));
        let o = insert_entry(o, "clientver"@, num(platform_clientver(c.lite)));
        let o = insert_entry(o, "token"@, param_then_cookie(p, "token"@, txt(""@)));
        let o = insert_entry(o, "userid"@, param_then_cookie(p, "userid"@, num(0)));
        let o = insert_entry(o, "tag_id"@, param(p, "tag_id"@));
        let o = insert_entry(o, "page"@, param_or(p, "page"@, num(1)));
        let o = insert_entry(o, "page_size"@, param_or(p, "pagesize"@, num(30)));
        let o = insert_entry(o, "exposed_data"@, JsonView::Array(Seq::empty()));
        JsonView::Object(o)
    };
    request("/scene/v1/distribution/video_list"@, Method::Post).with_data(d0)
}

/// Describes the upstream request of `scene_video_list`.
pub fn scene_video_list(params: &JsonValue, c: Clock) -> (r: NativeRequest)
    ensures
        r@ == scene_video_list_request(params@, c),
{
    let mut o1 = JsonObject::new();
    o1.insert("appid".to_owned(), appid_value(c));
    o1.insert("clientver".to_owned(), clientver_value(c));
    o1.insert("token".to_owned(), param_or_cookie(params, "token", JsonValue::text("")));
    o1.insert("userid".to_owned(), param_or_cookie(params, "userid", JsonValue::unsigned(0)));
    o1.insert("tag_id".to_owned(), value(params, "tag_id"));
    o1.insert("page".to_owned(), value_or(params, "page", JsonValue::unsigned(1)));
    o1.insert("page_size".to_owned(), value_or(params, "pagesize", JsonValue::unsigned(30)));
    o1.insert("exposed_data".to_owned(), array(no_items()));
    let d2 = JsonValue::Object(o1);
    NativeRequest::post("/scene/v1/distribution/video_list").data(d2)
}

/// The upstream request of `scene_module`.
pub open spec fn scene_module_request(p: JsonView, c: Clock) -> RequestView {
    let p0 = {
        let o = no_entries();
        let o = insert_entry(o, "scene_id"@, param(p, "id"@));
        JsonView::Object(o)
    };
    request("/scene/v1/scene/module"@, Method::Post).with_params(p0)
}

/// Describes the upstream request of `scene_module`.
pub fn scene_module(params: &JsonValue, c: Clock) -> (r: NativeRequest)
    ensures
        r@ == scene_module_request(params@, c),
{
    let mut o1 = JsonObject::new();
    o1.insert("scene_id".to_owned(), value(params, "id"));
    let p2 = JsonValue::Object(o1);
    NativeRequest::post("/scene/v1/scene/module").params(p2)
}

/// The upstream request of `scene_module_info`.
pub open spec fn scene_module_info_request(p: JsonView, c: Clock) -> RequestView {
    let p0 = {
        let o = no_entries();
        let o = insert_entry(o, "scene_id"@, param(p, "id"@));
        let o = insert_entry(o, "module_id"@, param(p, "module_id"@));
        JsonView::Object(o)
    };
    request("/scene/v1/scene/module_info"@, Method::Get).with_params(p0)
}

/// Describes the upstream request of `scene_module_info`.
pub fn scene_module_info(params: &JsonValue, c: Clock) -> (r: NativeRequest)
    ensures
        r@ == scene_module_info_request(params@, c),
{
    let mut o1 = JsonObject::new();
    o1.insert("scene_id".to_owned(), value(params, "id"));
    o1.insert("module_id".to_owned(), value(params, "module_id"));
    let p2 = JsonValue::Object(o1);
    NativeRequest::get("/scene/v1/scene/module_info").params(p2)
}

/// The upstream request of `search_hot`.
pub open spec fn search_hot_request(p: JsonView, c: Clock) -> RequestView {
    let p0 = {
        let o = no_entries();
        let o = insert_entry(o, "navid"@, num(1));
        let o = insert_entry(o, "plat"@, num(2));
        JsonView::Object(o)
    };
    request("/api/v3/search/hot_tab"@, Method::Get).with_params(p0).with_header("x-router"@, "msearch.kugou.com"@)
}

/// Describes the upstream request of `search_hot`.
pub fn search_hot(params: &JsonValue, c: Clock) -> (r: NativeRequest)
    ensures
        r@ == search_hot_request(params@, c),
{
    let mut o1 = JsonObject::new();
    o1.insert("navid".to_owned(), JsonValue::unsigned(1));
    o1.insert("plat".to_owned(), JsonValue::unsigned(2));
    let p2 = JsonValue::Object(o1);
    NativeRequest::get("/api/v3/search/hot_tab").params(p2).header("x-router", "msearch.kugou.com")
}

/// The upstream request of `search_lyric`.
pub open spec fn search_lyric_request(p: JsonView, c: Clock) -> RequestView {
    let p0 = {
        let o = no_entries();
        let o = insert_entry(o, "album_audio_id"@, param_or(p, "album_audio_id"@, num(0)));
        let o = insert_entry(o, "appid"@, num(platform_appid(c.lite)));
        let o = insert_entry(o, "clientver"@, num(platform_clientver(c.lite)));
        let o = insert_entry(o, "duration"@, param_or(p, "duration"@, num(0)));
        let o = insert_entry(o, "hash"@, param_or(p, "hash"@, txt(""@)));
        let o = insert_entry(o, "keyword"@, param_or(p, "keywords"@, txt(""@)));
        let o = insert_entry(o, "lrctxt"@, num(1));
        let o = insert_entry(o, "man"@, param_nullish(p, "man"@, txt("no"@)));
        JsonView::Object(o)
    };
    request("/v1/search"@, Method::Get).with_base_url("https://lyrics.kugou.com"@).cleared().with_params(p0)
}

/// Describes the upstream request of `search_lyric`.
pub fn search_lyric(params: &JsonValue, c: Clock) -> (r: NativeRequest)
    ensures
        r@ == search_lyric_request(params@, c),
{
    let mut o1 = JsonObject::new();
    o1.insert("album_audio_id".to_owned(), value_or(params, "album_audio_id", JsonValue::unsigned(0)));
    o1.insert("appid".to_owned(), appid_value(c));
    o1.insert("clientver".to_owned(), clientver_value(c));
    o1.insert("duration".to_owned(), value_or(params, "duration", JsonValue::unsigned(0)));
    o1.insert("hash".to_owned(), value_or(params, "hash", JsonValue::text("")));
    o1.insert("keyword".to_owned(), value_or(params, "keywords", JsonValue::text("")));
    o1.insert("lrctxt".to_owned(), JsonValue::unsigned(1));
    o1.insert("man".to_owned(), value_nullish(params, "man", JsonValue::text("no")));
    let p2 = JsonValue::Object(o1);
    NativeRequest::get("/v1/search").base_url("https://lyrics.kugou.com").clear_default_params().params(p2)
}

/// The upstream request of `search_complex`.
pub open spec fn search_complex_request(p: JsonView, c: Clock) -> RequestView {
    let p0 = {
        let o = no_entries();
        let o = insert_entry(o, "platform"@, txt("AndroidFilter"@));
        let o = insert_entry(o, "keyword"@, param(p, "keywords"@));
        let o = insert_entry(o, "page"@, param_or(p, "page"@, num(1)));
        let o = insert_entry(o, "pagesize"@, param_or(p, "pagesize"@, num(30)));
        let o = insert_entry(o, "cursor"@, num(0));
        JsonView::Object(o)
    };
    request("/v6/search/complex"@, Method::Get).with_base_url("https://complexsearch.kugou.com"@).with_params(p0)
}

/// Describes the upstream request of `search_complex`.
pub fn search_complex(params: &JsonValue, c: Clock) -> (r: NativeRequest)
    ensures
        r@ == search_complex_request(params@, c),
{
    let mut o1 = JsonObject::new();
    o1.insert("platform".to_owned(), JsonValue::text("AndroidFilter"));
    o1.insert("keyword".to_owned(), value(params, "keywords"));
    o1.insert("page".to_owned(), value_or(params, "page", JsonValue::unsigned(1)));
    o1.insert("pagesize".to_owned(), value_or(params, "pagesize", JsonValue::unsigned(30)));
    o1.insert("cursor".to_owned(), JsonValue::unsigned(0));
    let p2 = JsonValue::Object(o1);
    NativeRequest::get("/v6/search/complex").base_url("https://complexsearch.kugou.com").params(p2)
}

/// The upstream request of `search_suggest`.
pub open spec fn search_suggest_request(p: JsonView, c: Clock) -> RequestView {
    let p0 = {
        let o = no_entries();
        let o = insert_entry(o, "keyword"@, param(p, "keywords"@));
        let o = insert_entry(o, "AlbumTipCount"@, param_or(p, "albumTipCount"@, num(10)));
        let o = insert_entry(o, "CorrectTipCount"@, param_or(p, "correctTipCount"@, num(10)));
        let o = insert_entry(o, "MVTipCount"@, param_or(p, "mvTipCount"@, num(10)));
        let o = insert_entry(o, "MusicTipCount"@, param_or(p, "musicTipCount"@, num(10)));
        let o = insert_entry(o, "radiotip"@, num(1));
        JsonView::Object(o)
    };
    request("/v2/getSearchTip"@, Method::Get).with_params(p0).with_header("x-router"@, "searchtip.kugou.com"@)
}

/// Describes the upstream request of `search_suggest`.
pub fn search_suggest(params: &JsonValue, c: Clock) -> (r: NativeRequest)
    ensures
        r@ == search_suggest_request(params@, c),
{
    let mut o1 = JsonObject::new();
    o1.insert("keyword".to_owned(), value(params, "keywords"));
    o1.insert("AlbumTipCount".to_owned(), value_or(params, "albumTipCount", JsonValue::unsigned(10)));
    o1.insert("CorrectTipCount".to_owned(), value_or(params, "correctTipCount", JsonValue::unsigned(10)));
    o1.insert("MVTipCount".to_owned(), value_or(params, "mvTipCount", JsonValue::unsigned(10)));
    o1.insert("MusicTipCount".to_owned(), value_or(params, "musicTipCount", JsonValue::unsigned(10)));
    o1.insert("radiotip".to_owned(), JsonValue::unsigned(1));
    let p2 = JsonValue::Object(o1);
    NativeRequest::get("/v2/getSearchTip").params(p2).header("x-router", "searchtip.kugou.com")
}

/// The upstream request of `theme_music`.
pub open spec fn theme_music_request(p: JsonView, c: Clock) -> RequestView {
    let d0 = {
        let o = no_entries();
        let o = insert_entry(o, "platform"@, txt("android"@));
        let o = insert_entry(o, "clienttime"@, num(c.now_ms / 1000));
        let o = insert_entry(o, "show_theme_category_ids"@, param(p, "ids"@));
        let o = insert_entry(o, "userid"@, param_then_cookie(p, "userid"@, num(0)));
        let o = insert_entry(o, "module_id"@, num(508));
        JsonView::Object(o)
    };
    request("/everydayrec.service/v1/mul_theme_category_recommend"@, Method::Post).with_data(d0)
}

/// Describes the upstream request of `theme_music`.
pub fn theme_music(params: &JsonValue, c: Clock) -> (r: NativeRequest)
    ensures
        r@ == theme_music_request(params@, c),
{
    let mut o1 = JsonObject::new();
    o1.insert("platform".to_owned(), JsonValue::text("android"));
    o1.insert("clienttime".to_owned(), JsonValue::unsigned(c.now_ms / 1000));
    o1.insert("show_theme_category_ids".to_owned(), value(params, "ids"));
    o1.insert("userid".to_owned(), param_or_cookie(params, "userid", JsonValue::unsigned(0)));
    o1.insert("module_id".to_owned(), JsonValue::unsigned(508));
    let d2 = JsonValue::Object(o1);
    NativeRequest::post("/everydayrec.service/v1/mul_theme_category_recommend").data(d2)
}

/// The upstream request of `theme_music_detail`.
pub open spec fn theme_music_detail_request(p: JsonView, c: Clock) -> RequestView {
    let d0 = {
        let o = no_entries();
        let o = insert_entry(o, "platform"@, txt("android"@));
        let o = insert_entry(o, "clienttime"@, num(c.now_ms / 1000));
        let o = insert_entry(o, "theme_category_id"@, param(p, "id"@));
        let o = insert_entry(o, "show_theme_category_id"@, num(0));
        let o = insert_entry(o, "userid"@, param_then_cookie(p, "userid"@, num(0)));
        let o = insert_entry(o, "module_id"@, num(508));
        JsonView::Object(o)
    };
    request("/everydayrec.service/v1/theme_category_recommend"@, Method::Post).with_data(d0)
}

/// Describes the upstream request of `theme_music_detail`.
pub fn theme_music_detail(params: &JsonValue, c: Clock) -> (r: NativeRequest)
    ensures
        r@ == theme_music_detail_request(params@, c),
{
    let mut o1 = JsonObject::new();
    o1.insert("platform".to_owned(), JsonValue::text("android"));
    o1.insert("clienttime".to_owned(), JsonValue::unsigned(c.now_ms / 1000));
    o1.insert("theme_category_id".to_owned(), value(params, "id"));
    o1.insert("show_theme_category_id".to_owned(), JsonValue::unsigned(0));
    o1.insert("userid".to_owned(), param_or_cookie(params, "userid", JsonValue::unsigned(0)));
    o1.insert("module_id".to_owned(), JsonValue::unsigned(508));
    let d2 = JsonValue::Object(o1);
    NativeRequest::post("/everydayrec.service/v1/theme_category_recommend").data(d2)
}

/// The upstream request of `theme_playlist`.
pub open spec fn theme_playlist_request(p: JsonView, c: Clock) -> RequestView {
    let d0 = {
        let o = no_entries();
        let o = insert_entry(o, "platform"@, txt("android"@));
        let o = insert_entry(o, "clientver"@, num(platform_clientver(c.lite)));
        let o = insert_entry(o, "clienttime"@, num(c.now_ms));
        let o = insert_entry(o, "area_code"@, num(1));
        let o = insert_entry(o, "module_id"@, num(1));
        let o = insert_entry(o, "userid"@, param_then_cookie(p, "userid"@, num(0)));
        JsonView::Object(o)
    };
    request("/v2/getthemelist"@, Method::Post).with_data(d0).with_header("x-router"@, "everydayrec.service.kugou.com"@)
}

/// Describes the upstream request of `theme_playlist`.
pub fn theme_playlist(params: &JsonValue, c: Clock) -> (r: NativeRequest)
    ensures
        r@ == theme_playlist_request(params@, c),
{
    let mut o1 = JsonObject::new();
    o1.insert("platform".to_owned(), JsonValue::text("android"));
    o1.insert("clientver".to_owned(), clientver_value(c));
    o1.insert("clienttime".to_owned(), JsonValue::unsigned(c.now_ms));
    o1.insert("area_code".to_owned(), JsonValue::unsigned(1));
    o1.insert("module_id".to_owned(), JsonValue::unsigned(1));
    o1.insert("userid".to_owned(), param_or_cookie(params, "userid", JsonValue::unsigned(0)));
    let d2 = JsonValue::Object(o1);
    NativeRequest::post("/v2/getthemelist").data(d2).header("x-router", "everydayrec.service.kugou.com")
}

/// The upstream request of `theme_playlist_track`.
pub open spec fn theme_playlist_track_request(p: JsonView, c: Clock) -> RequestView {
    let d0 = {
        let o = no_entries();
        let o = insert_entry(o, "platform"@, txt("android"@));
        let o = insert_entry(o, "clientver"@, num(platform_clientver(c.lite)));
        let o = insert_entry(o, "clienttime"@, num(c.now_ms));
        let o = insert_entry(o, "area_code"@, num(1));
        let o = insert_entry(o, "module_id"@, num(1));
        let o = insert_entry(o, "userid"@, param_then_cookie(p, "userid"@, num(0)));
        let o = insert_entry(o, "theme_id"@, param(p, "theme_id"@));
        JsonView::Object(o)
    };
    request("/v2/gettheme_songidlist"@, Method::Post).with_data(d0).with_header("x-router"@, "everydayrec.service.kugou.com"@)
}

/// Describes the upstream request of `theme_playlist_track`.
pub fn theme_playlist_track(params: &JsonValue, c: Clock) -> (r: NativeRequest)
    ensures
        r@ == theme_playlist_track_request(params@, c),
{
    let mut o1 = JsonObject::new();
    o1.insert("platform".to_owned(), JsonValue::text("android"));
    o1.insert("clientver".to_owned(), clientver_value(c));
    o1.insert("clienttime".to_owned(), JsonValue::unsigned(c.now_ms));
    o1.insert("area_code".to_owned(), JsonValue::unsigned(1));
    o1.insert("module_id".to_owned(), JsonValue::unsigned(1));
    o1.insert("userid".to_owned(), param_or_cookie(params, "userid", JsonValue::unsigned(0)));
    o1.insert("theme_id".to_owned(), value(params, "theme_id"));
    let d2 = JsonValue::Object(o1);
    NativeRequest::post("/v2/gettheme_songidlist").data(d2).header("x-router", "everydayrec.service.kugou.com")
}

/// The upstream request of `top_album`.
pub open spec fn top_album_request(p: JsonView, c: Clock) -> RequestView {
    let d0 = {
        let o = no_entries();
        let o = insert_entry(o, "apiver"@, num(20));
        let o = insert_entry(o, "token"@, param_then_cookie(p, "token"@, txt(""@)));
        let o = insert_entry(o, "page"@, param_or(p, "page"@, num(1)));
        let o = insert_entry(o, "pagesize"@, param_or(p, "pagesize"@, num(30)));
        let o = insert_entry(o, "withpriv"@, num(1));
        JsonView::Object(o)
    };
    request("/musicadservice/v1/mobile_newalbum_sp"@, Method::Post).with_data(d0)
}

/// Describes the upstream request of `top_album`.
pub fn top_album(params: &JsonValue, c: Clock) -> (r: NativeRequest)
    ensures
        r@ == top_album_request(params@, c),
{
    let mut o1 = JsonObject::new();
    o1.insert("apiver".to_owned(), JsonValue::unsigned(20));
    o1.insert("token".to_owned(), param_or_cookie(params, "token", JsonValue::text("")));
    o1.insert("page".to_owned(), value_or(params, "page", JsonValue::unsigned(1)));
    o1.insert("pagesize".to_owned(), value_or(params, "pagesize", JsonValue::unsigned(30)));
    o1.insert("withpriv".to_owned(), JsonValue::unsigned(1));
    let d2 = JsonValue::Object(o1);
    NativeRequest::post("/musicadservice/v1/mobile_newalbum_sp").data(d2)
}

/// The upstream request of `top_song`.
pub open spec fn top_song_request(p: JsonView, c: Clock) -> RequestView {
    let d0 = {
        let o = no_entries();
        let o = insert_entry(o, "rank_id"@, param_or(p, "type"@, num(21608)));
        let o = insert_entry(o, "userid"@, param_then_cookie(p, "userid"@, num(0)));
        let o = insert_entry(o, "page"@, param_or(p, "page"@, num(1)));
        let o = insert_entry(o, "pagesize"@, param_or(p, "pagesize"@, num(30)));
        let o = insert_entry(o, "tags"@, JsonView::Array(Seq::empty()));
        JsonView::Object(o)
    };
    request("/musicadservice/container/v1/newsong_publish"@, Method::Post).with_data(d0)
}

/// Describes the upstream request of `top_song`.
pub fn top_song(params: &JsonValue, c: Clock) -> (r: NativeRequest)
    ensures
        r@ == top_song_request(params@, c),
{
    let mut o1 = JsonObject::new();
    o1.insert("rank_id".to_owned(), value_or(params, "type", JsonValue::unsigned(21608)));
    o1.insert("userid".to_owned(), param_or_cookie(params, "userid", JsonValue::unsigned(0)));
    o1.insert("page".to_owned(), value_or(params, "page", JsonValue::unsigned(1)));
    o1.insert("pagesize".to_owned(), value_or(params, "pagesize", JsonValue::unsigned(30)));
    o1.insert("tags".to_owned(), array(no_items()));
    let d2 = JsonValue::Object(o1);
    NativeRequest::post("/musicadservice/container/v1/newsong_publish").data(d2)
}

/// The upstream request of `top_tag_card_youth`.
pub open spec fn top_tag_card_youth_request(p: JsonView, c: Clock) -> RequestView {
    let p0 = {
        let o = no_entries();
        let o = insert_entry(o, "ver"@, txt("v2"@));
        let o = insert_entry(o, "area_code"@, num(1));
        let o = insert_entry(o, "platform"@, txt("ios"@));
        let o = insert_entry(o, "module_id"@, num(1));
        let o = insert_entry(o, "clientver"@, num(11490));
        JsonView::Object(o)
    };
    let d1 = {
        let o = no_entries();
        let o = insert_entry(o, "tagid"@, txt(""@));
        let o = insert_entry(o, "u_info"@, txt(""@));
        let o = insert_entry(o, "source_mixsong"@, txt(""@));
        JsonView::Object(o)
    };
    request("/youth/v1/song/tag_card_recommend"@, Method::Post).with_params(p0).with_data(d1)
}

/// Describes the upstream request of `top_tag_card_youth`.
pub fn top_tag_card_youth(params: &JsonValue, c: Clock) -> (r: NativeRequest)
    ensures
        r@ == top_tag_card_youth_request(params@, c),
{
    let mut o1 = JsonObject::new();
    o1.insert("ver".to_owned(), JsonValue::text("v2"));
    o1.insert("area_code".to_owned(), JsonValue::unsigned(1));
    o1.insert("platform".to_owned(), JsonValue::text("ios"));
    o1.insert("module_id".to_owned(), JsonValue::unsigned(1));
    o1.insert("clientver".to_owned(), JsonValue::unsigned(11490));
    let p2 = JsonValue::Object(o1);
    let mut o3 = JsonObject::new();
    o3.insert("tagid".to_owned(), JsonValue::text(""));
    o3.insert("u_info".to_owned(), JsonValue::text(""));
    o3.insert("source_mixsong".to_owned(), JsonValue::text(""));
    let d4 = JsonValue::Object(o3);
    NativeRequest::post("/youth/v1/song/tag_card_recommend").params(p2).data(d4)
}

/// The upstream request of `yueku`.
pub open spec fn yueku_request(p: JsonView, c: Clock) -> RequestView {
    let p0 = {
        let o = no_entries();
        let o = insert_entry(o, "operator"@, num(7));
        let o = insert_entry(o, "plat"@, num(0));
        let o = insert_entry(o, "type"@, num(11));
        let o = insert_entry(o, "area_code"@, num(1));
        let o = insert_entry(o, "req_multi"@, num(1));
        JsonView::Object(o)
    };
    request("/v1/yueku/recommend_v2"@, Method::Get).with_params(p0).with_header("x-router"@, "service.mobile.kugou.com"@)
}

/// Describes the upstream request of `yueku`.
pub fn yueku(params: &JsonValue, c: Clock) -> (r: NativeRequest)
    ensures
        r@ == yueku_request(params@, c),
{
    let mut o1 = JsonObject::new();
    o1.insert("operator".to_owned(), JsonValue::unsigned(7));
    o1.insert("plat".to_owned(), JsonValue::unsigned(0));
    o1.insert("type".to_owned(), JsonValue::unsigned(11));
    o1.insert("area_code".to_owned(), JsonValue::unsigned(1));
    o1.insert("req_multi".to_owned(), JsonValue::unsigned(1));
    let p2 = JsonValue::Object(o1);
    NativeRequest::get("/v1/yueku/recommend_v2").params(p2).header("x-router", "service.mobile.kugou.com")
}

/// The upstream request of `yueku_banner`.
pub open spec fn yueku_banner_request(p: JsonView, c: Clock) -> RequestView {
    let d0 = {
        let o = no_entries();
        let o = insert_entry(o, "plat"@, num(0));
        let o = insert_entry(o, "channel"@, num(201));
        let o = insert_entry(o, "operator"@, num(7));
        let o = insert_entry(o, "networktype"@, num(2));
        let o = insert_entry(o, "userid"@, param_then_cookie(p, "userid"@, num(0)));
        let o = insert_entry(o, "vip_type"@, num(0));
        let o = insert_entry(o, "m_type"@, num(0));
        let o = insert_entry(o, "tags"@, JsonView::Array(Seq::empty()));
        let o = insert_entry(o, "apiver"@, num(5));
        let o = insert_entry(o, "ability"@, num(2));
        let o = insert_entry(o, "mode"@, txt("normal"@));
        JsonView::Object(o)
    };
    request("/ads.gateway/v3/listen_banner"@, Method::Post).with_data(d0)
}

/// Describes the upstream request of `yueku_banner`.
pub fn yueku_banner(params: &JsonValue, c: Clock) -> (r: NativeRequest)
    ensures
        r@ == yueku_banner_request(params@, c),
{
    let mut o1 = JsonObject::new();
    o1.insert("plat".to_owned(), JsonValue::unsigned(0));
    o1.insert("channel".to_owned(), JsonValue::unsigned(201));
    o1.insert("operator".to_owned(), JsonValue::unsigned(7));
    o1.insert("networktype".to_owned(), JsonValue::unsigned(2));
    o1.insert("userid".to_owned(), param_or_cookie(params, "userid", JsonValue::unsigned(0)));
    o1.insert("vip_type".to_owned(), JsonValue::unsigned(0));
    o1.insert("m_type".to_owned(), JsonValue::unsigned(0));
    o1.insert("tags".to_owned(), array(no_items()));
    o1.insert("apiver".to_owned(), JsonValue::unsigned(5));
    o1.insert("ability".to_owned(), JsonValue::unsigned(2));
    o1.insert("mode".to_owned(), JsonValue::text("normal"));
    let d2 = JsonValue::Object(o1);
    NativeRequest::post("/ads.gateway/v3/listen_banner").data(d2)
}

/// The upstream request of `yueku_fm`.
pub open spec fn yueku_fm_request(p: JsonView, c: Clock) -> RequestView {
    let p0 = {
        let o = no_entries();
        let o = insert_entry(o, "operator"@, num(7));
        let o = insert_entry(o, "plat"@, num(0));
        let o = insert_entry(o, "type"@, num(11));
        let o = insert_entry(o, "area_code"@, num(1));
        let o = insert_entry(o, "req_multi"@, num(1));
        JsonView::Object(o)
    };
    request("/v1/time_fm_info"@, Method::Get).with_params(p0).with_header("x-router"@, "fm.service.kugou.com"@)
}

/// Describes the upstream request of `yueku_fm`.
pub fn yueku_fm(params: &JsonValue, c: Clock) -> (r: NativeRequest)
    ensures
        r@ == yueku_fm_request(params@, c),
{
    let mut o1 = JsonObject::new();
    o1.insert("operator".to_owned(), JsonValue::unsigned(7));
    o1.insert("plat".to_owned(), JsonValue::unsigned(0));
    o1.insert("type".to_owned(), JsonValue::unsigned(11));
    o1.insert("area_code".to_owned(), JsonValue::unsigned(1));
    o1.insert("req_multi".to_owned(), JsonValue::unsigned(1));
    let p2 = JsonValue::Object(o1);
    NativeRequest::get("/v1/time_fm_info").params(p2).header("x-router", "fm.service.kugou.com")
}

/// The upstream request of `everyday_friend`.
pub open spec fn everyday_friend_request(p: JsonView, c: Clock) -> RequestView {
    let p0 = {
        let o = no_entries();
        let o = insert_entry(o, "channel"@, num(130));
        let o = insert_entry(o, "isteen"@, num(0));
        let o = insert_entry(o, "platform"@, num(2));
        let o = insert_entry(o, "usemkv"@, num(1));
        JsonView::Object(o)
    };
    let d1 = {
        let o = no_entries();
        let o = insert_entry(o, "list"@, JsonView::Array(Seq::empty().push({
            let o = no_entries();
            let o = insert_entry(o, "user_id"@, num(853927886));
            let o = insert_entry(o, "mixsong_ids"@, JsonView::Array(Seq::empty().push(num(290083753)).push(num(251724346)).push(num(571554587)).push(num(250126644)).push(num(208831644)).push(num(40328518)).push(num(250504076)).push(num(581706850)).push(num(318347675)).push(num(585258401)).push(num(288481998)).push(num(407414475)).push(num(28239430)).push(num(280584633)).push(num(291957521)).push(num(64556644)).push(num(243149863)).push(num(488725103)).push(num(32114153)).push(num(39951172)).push(num(29019580)).push(num(40397606)).push(num(327507651)).push(num(32029382)).push(num(32218359)).push(num(340353127)).push(num(276448762)).push(num(177071956)).push(num(100031397)).push(num(249251602))));
            JsonView::Object(o)
        })));
        JsonView::Object(o)
    };
    request("/sing7/relation/json/v3/friend_rec_by_using_song_list"@, Method::Post).with_base_url("https://acsing.service.kugou.com"@).with_params(p0).with_data(d1).with_header("pid"@, "126556797"@)
}

/// Describes the upstream request of `everyday_friend`.
pub fn everyday_friend(params: &JsonValue, c: Clock) -> (r: NativeRequest)
    ensures
        r@ == everyday_friend_request(params@, c),
{
    let mut o1 = JsonObject::new();
    o1.insert("channel".to_owned(), JsonValue::unsigned(130));
    o1.insert("isteen".to_owned(), JsonValue::unsigned(0));
    o1.insert("platform".to_owned(), JsonValue::unsigned(2));
    o1.insert("usemkv".to_owned(), JsonValue::unsigned(1));
    let p2 = JsonValue::Object(o1);
    let mut a3 = no_items();
    push_item(&mut a3, JsonValue::unsigned(290083753));
    push_item(&mut a3, JsonValue::unsigned(251724346));
    push_item(&mut a3, JsonValue::unsigned(571554587));
    push_item(&mut a3, JsonValue::unsigned(250126644));
    push_item(&mut a3, JsonValue::unsigned(208831644));
    push_item(&mut a3, JsonValue::unsigned(40328518));
    push_item(&mut a3, JsonValue::unsigned(250504076));
    push_item(&mut a3, JsonValue::unsigned(581706850));
    push_item(&mut a3, JsonValue::unsigned(318347675));
    push_item(&mut a3, JsonValue::unsigned(585258401));
    push_item(&mut a3, JsonValue::unsigned(288481998));
    push_item(&mut a3, JsonValue::unsigned(407414475));
    push_item(&mut a3, JsonValue::unsigned(28239430));
    push_item(&mut a3, JsonValue::unsigned(280584633));
    push_item(&mut a3, JsonValue::unsigned(291957521));
    push_item(&mut a3, JsonValue::unsigned(64556644));
    push_item(&mut a3, JsonValue::unsigned(243149863));
    push_item(&mut a3, JsonValue::unsigned(488725103));
    push_item(&mut a3, JsonValue::unsigned(32114153));
    push_item(&mut a3, JsonValue::unsigned(39951172));
    push_item(&mut a3, JsonValue::unsigned(29019580));
    push_item(&mut a3, JsonValue::unsigned(40397606));
    push_item(&mut a3, JsonValue::unsigned(327507651));
    push_item(&mut a3, JsonValue::unsigned(32029382));
    push_item(&mut a3, JsonValue::unsigned(32218359));
    push_item(&mut a3, JsonValue::unsigned(340353127));
    push_item(&mut a3, JsonValue::unsigned(276448762));
    push_item(&mut a3, JsonValue::unsigned(177071956));
    push_item(&mut a3, JsonValue::unsigned(100031397));
    push_item(&mut a3, JsonValue::unsigned(249251602));
    let mut o4 = JsonObject::new();
    o4.insert("user_id".to_owned(), JsonValue::unsigned(853927886));
    o4.insert("mixsong_ids".to_owned(), array(a3));
    let mut a5 = no_items();
    push_item(&mut a5, JsonValue::Object(o4));
    let mut o6 = JsonObject::new();
    o6.insert("list".to_owned(), array(a5));
    let d7 = JsonValue::Object(o6);
    NativeRequest::post("/sing7/relation/json/v3/friend_rec_by_using_song_list").base_url("https://acsing.service.kugou.com").params(p2).data(d7).header("pid", "126556797")
}

/// The upstream request of `fm_class`.
pub open spec fn fm_class_request(p: JsonView, c: Clock) -> RequestView {
    let d0 = {
        let o = no_entries();
        let o = insert_entry(o, "kguid"@, cookie_then_param(p, "userid"@, num(0)));
        let o = insert_entry(o, "clienttime"@, num(c.now_ms));
        let o = insert_entry(o, "mid"@, or_default(cookie(p, "KUGOU_API_MID"@), JsonView::Null));
        let o = insert_entry(o, "platform"@, txt("android"@));
        let o = insert_entry(o, "clientver"@, num(platform_clientver(c.lite)));
        let o = insert_entry(o, "uid"@, cookie_then_param(p, "userid"@, num(0)));
        let o = insert_entry(o, "get_tracker"@, num(1));
        let o = insert_entry(o, "key"@, txt(params_key(decimal((c.now_ms) as nat), c.lite)));
        let o = insert_entry(o, "appid"@, num(platform_appid(c.lite)));
        JsonView::Object(o)
    };
    request("/v1/class_fm_song"@, Method::Post).with_data(d0).with_header("x-router"@, "fm.service.kugou.com"@)
}

/// Describes the upstream request of `fm_class`.
pub fn fm_class(params: &JsonValue, c: Clock) -> (r: NativeRequest)
    ensures
        r@ == fm_class_request(params@, c),
{
    let mut o1 = JsonObject::new();
    o1.insert("kguid".to_owned(), cookie_or_param(params, "userid", JsonValue::unsigned(0)));
    o1.insert("clienttime".to_owned(), JsonValue::unsigned(c.now_ms));
    o1.insert("mid".to_owned(), cookie_or(params, "KUGOU_API_MID", JsonValue::Null));
    o1.insert("platform".to_owned(), JsonValue::text("android"));
    o1.insert("clientver".to_owned(), clientver_value(c));
    o1.insert("uid".to_owned(), cookie_or_param(params, "userid", JsonValue::unsigned(0)));
    o1.insert("get_tracker".to_owned(), JsonValue::unsigned(1));
    o1.insert("key".to_owned(), JsonValue::Str(sign_params_key(c.now_ms, c.lite)));
    o1.insert("appid".to_owned(), appid_value(c));
    let d2 = JsonValue::Object(o1);
    NativeRequest::post("/v1/class_fm_song").data(d2).header("x-router", "fm.service.kugou.com")
}

/// The upstream request of `fm_recommend`.
pub open spec fn fm_recommend_request(p: JsonView, c: Clock) -> RequestView {
    let d0 = {
        let o = no_entries();
        let o = insert_entry(o, "appid"@, num(platform_appid(c.lite)));
        let o = insert_entry(o, "clientver"@, num(platform_clientver(c.lite)));
        let o = insert_entry(o, "clienttime"@, num(c.now_ms));
        let o = insert_entry(o, "mid"@, or_default(cookie(p, "KUGOU_API_MID"@), JsonView::Null));
        let o = insert_entry(o, "key"@, txt(params_key(decimal((c.now_ms) as nat), c.lite)));
        let o = insert_entry(o, "rcmdsongcount"@, num(1));
        let o = insert_entry(o, "level"@, num(0));
        let o = insert_entry(o, "area_code"@, num(1));
        let o = insert_entry(o, "get_tracker"@, num(1));
        let o = insert_entry(o, "uid"@, num(0));
        JsonView::Object(o)
    };
    request("/v1/rcmd_list"@, Method::Post).with_data(d0).with_header("x-router"@, "fm.service.kugou.com"@)
}

/// Describes the upstream request of `fm_recommend`.
pub fn fm_recommend(params: &JsonValue, c: Clock) -> (r: NativeRequest)
    ensures
        r@ == fm_recommend_request(params@, c),
{
    let mut o1 = JsonObject::new();
    o1.insert("appid".to_owned(), appid_value(c));
    o1.insert("clientver".to_owned(), clientver_value(c));
    o1.insert("clienttime".to_owned(), JsonValue::unsigned(c.now_ms));
    o1.insert("mid".to_owned(), cookie_or(params, "KUGOU_API_MID", JsonValue::Null));
    o1.insert("key".to_owned(), JsonValue::Str(sign_params_key(c.now_ms, c.lite)));
    o1.insert("rcmdsongcount".to_owned(), JsonValue::unsigned(1));
    o1.insert("level".to_owned(), JsonValue::unsigned(0));
    o1.insert("area_code".to_owned(), JsonValue::unsigned(1));
    o1.insert("get_tracker".to_owned(), JsonValue::unsigned(1));
    o1.insert("uid".to_owned(), JsonValue::unsigned(0));
    let d2 = JsonValue::Object(o1);
    NativeRequest::post("/v1/rcmd_list").data(d2).header("x-router", "fm.service.kugou.com")
}

/// The upstream request of `search_default`.
pub open spec fn search_default_request(p: JsonView, c: Clock) -> RequestView {
    let p0 = {
        let o = no_entries();
        let o = insert_entry(o, "clientver"@, num(12329));
        JsonView::Object(o)
    };
    let d1 = {
        let o = no_entries();
        let o = insert_entry(o, "plat"@, num(0));
        let o = insert_entry(o, "userid"@, js_number(param_then_cookie(p, "userid"@, num(0))));
        let o = insert_entry(o, "tags"@, txt("{}"@));
        let o = insert_entry(o, "vip_type"@, param_then_cookie(p, "vip_type"@, num(65530)));
        let o = insert_entry(o, "m_type"@, num(0));
        let o = insert_entry(o, "own_ads"@, {
            let o = no_entries();
            JsonView::Object(o)
        });
        let o = insert_entry(o, "ability"@, txt("3"@));
        let o = insert_entry(o, "sources"@, JsonView::Array(Seq::empty()));
        let o = insert_entry(o, "bitmap"@, num(2));
        let o = insert_entry(o, "mode"@, txt("normal"@));
        JsonView::Object(o)
    };
    request("/searchnofocus/v1/search_no_focus_word"@, Method::Post).with_params(p0).with_data(d1)
}

/// Describes the upstream request of `search_default`.
pub fn search_default(params: &JsonValue, c: Clock) -> (r: NativeRequest)
    ensures
        r@ == search_default_request(params@, c),
{
    let mut o1 = JsonObject::new();
    o1.insert("clientver".to_owned(), JsonValue::unsigned(12329));
    let p2 = JsonValue::Object(o1);
    let mut o3 = JsonObject::new();
    let mut o4 = JsonObject::new();
    o4.insert("plat".to_owned(), JsonValue::unsigned(0));
    o4.insert("userid".to_owned(), number_value(param_or_cookie(params, "userid", JsonValue::unsigned(0))));
    o4.insert("tags".to_owned(), JsonValue::text("{}"));
    o4.insert("vip_type".to_owned(), param_or_cookie(params, "vip_type", JsonValue::unsigned(65530)));
    o4.insert("m_type".to_owned(), JsonValue::unsigned(0));
    o4.insert("own_ads".to_owned(), JsonValue::Object(o3));
    o4.insert("ability".to_owned(), JsonValue::text("3"));
    o4.insert("sources".to_owned(), array(no_items()));
    o4.insert("bitmap".to_owned(), JsonValue::unsigned(2));
    o4.insert("mode".to_owned(), JsonValue::text("normal"));
    let d5 = JsonValue::Object(o4);
    NativeRequest::post("/searchnofocus/v1/search_no_focus_word").params(p2).data(d5)
}

/// The upstream request of `top_card`.
pub open spec fn top_card_request(p: JsonView, c: Clock) -> RequestView {
    let p0 = {
        let o = no_entries();
        let o = insert_entry(o, "card_id"@, param_or(p, "card_id"@, num(1)));
        let o = insert_entry(o, "fakem"@, txt("60f7ebf1f812edbac3c63a7310001701760f"@));
        let o = insert_entry(o, "area_code"@, num(1));
        let o = insert_entry(o, "platform"@, txt("ios"@));
        JsonView::Object(o)
    };
    let d1 = {
        let o = no_entries();
        let o = insert_entry(o, "appid"@, num(platform_appid(c.lite)));
        let o = insert_entry(o, "clientver"@, num(platform_clientver(c.lite)));
        let o = insert_entry(o, "platform"@, txt("android"@));
        let o = insert_entry(o, "clienttime"@, num(c.now_ms));
        let o = insert_entry(o, "userid"@, param_then_cookie(p, "userid"@, num(0)));
        let o = insert_entry(o, "key"@, txt(params_key(decimal((c.now_ms) as nat), c.lite)));
        let o = insert_entry(o, "fakem"@, txt("60f7ebf1f812edbac3c63a7310001701760f"@));
        let o = insert_entry(o, "area_code"@, num(1));
        let o = insert_entry(o, "mid"@, or_default(cookie(p, "KUGOU_API_MID"@), JsonView::Null));
        let o = insert_entry(o, "uuid"@, txt("-"@));
        let o = insert_entry(o, "client_playlist"@, JsonView::Array(Seq::empty()));
        let o = insert_entry(o, "u_info"@, txt("a0c35cd40af564444b5584c2754dedec"@));
        JsonView::Object(o)
    };
    request("/singlecardrec.service/v1/single_card_recommend"@, Method::Post).with_params(p0).with_data(d1)
}

/// Describes the upstream request of `top_card`.
pub fn top_card(params: &JsonValue, c: Clock) -> (r: NativeRequest)
    ensures
        r@ == top_card_request(params@, c),
{
    let mut o1 = JsonObject::new();
    o1.insert("card_id".to_owned(), value_or(params, "card_id", JsonValue::unsigned(1)));
    o1.insert("fakem".to_owned(), JsonValue::text("60f7ebf1f812edbac3c63a7310001701760f"));
    o1.insert("area_code".to_owned(), JsonValue::unsigned(1));
    o1.insert("platform".to_owned(), JsonValue::text("ios"));
    let p2 = JsonValue::Object(o1);
    let mut o3 = JsonObject::new();
    o3.insert("appid".to_owned(), appid_value(c));
    o3.insert("clientver".to_owned(), clientver_value(c));
    o3.insert("platform".to_owned(), JsonValue::text("android"));
    o3.insert("clienttime".to_owned(), JsonValue::unsigned(c.now_ms));
    o3.insert("userid".to_owned(), param_or_cookie(params, "userid", JsonValue::unsigned(0)));
    o3.insert("key".to_owned(), JsonValue::Str(sign_params_key(c.now_ms, c.lite)));
    o3.insert("fakem".to_owned(), JsonValue::text("60f7ebf1f812edbac3c63a7310001701760f"));
    o3.insert("area_code".to_owned(), JsonValue::unsigned(1));
    o3.insert("mid".to_owned(), cookie_or(params, "KUGOU_API_MID", JsonValue::Null));
    o3.insert("uuid".to_owned(), JsonValue::text("-"));
    o3.insert("client_playlist".to_owned(), array(no_items()));
    o3.insert("u_info".to_owned(), JsonValue::text("a0c35cd40af564444b5584c2754dedec"));
    let d4 = JsonValue::Object(o3);
    NativeRequest::post("/singlecardrec.service/v1/single_card_recommend").params(p2).data(d4)
}

/// The upstream request of `top_card_youth`.
pub open spec fn top_card_youth_request(p: JsonView, c: Clock) -> RequestView {
    let p0 = {
        let o = no_entries();
        let o = insert_entry(o, "card_id"@, param_or(p, "card_id"@, num(3005)));
        let o = insert_entry(o, "area_code"@, num(1));
        let o = insert_entry(o, "platform"@, txt("ios"@));
        let o = insert_entry(o, "module_id"@, num(1));
        let o = insert_entry(o, "ver"@, txt("v2"@));
        let o = insert_entry(o, "pagesize"@, param_nullish(p, "pagesize"@, num(30)));
        let o = insert_entry(o, "clientver"@, num(11490));
        JsonView::Object(o)
    };
    let d1 = {
        let o = no_entries();
        let o = insert_entry(o, "tagid"@, param_nullish(p, "tagid"@, txt(""@)));
        let o = insert_entry(o, "u_info"@, txt(""@));
        let o = insert_entry(o, "source_mixsong"@, txt(""@));
        JsonView::Object(o)
    };
    request("/youth/v1/song/single_card_recommend"@, Method::Post).with_params(p0).with_data(d1)
}

/// Describes the upstream request of `top_card_youth`.
pub fn top_card_youth(params: &JsonValue, c: Clock) -> (r: NativeRequest)
    ensures
        r@ == top_card_youth_request(params@, c),
{
    let mut o1 = JsonObject::new();
    o1.insert("card_id".to_owned(), value_or(params, "card_id", JsonValue::unsigned(3005)));
    o1.insert("area_code".to_owned(), JsonValue::unsigned(1));
    o1.insert("platform".to_owned(), JsonValue::text("ios"));
    o1.insert("module_id".to_owned(), JsonValue::unsigned(1));
    o1.insert("ver".to_owned(), JsonValue::text("v2"));
    o1.insert("pagesize".to_owned(), value_nullish(params, "pagesize", JsonValue::unsigned(30)));
    o1.insert("clientver".to_owned(), JsonValue::unsigned(11490));
    let p2 = JsonValue::Object(o1);
    let mut o3 = JsonObject::new();
    o3.insert("tagid".to_owned(), value_nullish(params, "tagid", JsonValue::text("")));
    o3.insert("u_info".to_owned(), JsonValue::text(""));
    o3.insert("source_mixsong".to_owned(), JsonValue::text(""));
    let d4 = JsonValue::Object(o3);
    NativeRequest::post("/youth/v1/song/single_card_recommend").params(p2).data(d4)
}

/// The request a module of this group describes, if it is one of them.
#[verifier::opaque]
pub open spec fn requested(m: Seq<char>, p: JsonView, c: Clock) -> Option<RequestView> {
    if m == "ai_recommend"@ {
        Some(ai_recommend_request(p, c))
    } else if m == "everyday_friend"@ {
        Some(everyday_friend_request(p, c))
    } else if m == "everyday_recommend"@ {
        Some(everyday_recommend_request(p, c))
    } else if m == "everyday_style_recommend"@ {
        Some(everyday_style_recommend_request(p, c))
    } else if m == "fm_class"@ {
        Some(fm_class_request(p, c))
    } else if m == "fm_recommend"@ {
        Some(fm_recommend_request(p, c))
    } else if m == "get_mode_info"@ {
        Some(get_mode_info_request(p, c))
    } else if m == "get_model"@ {
        Some(get_model_request(p, c))
    } else if m == "rank_audio"@ {
        Some(rank_audio_request(p, c))
    } else if m == "rank_info"@ {
        Some(rank_info_request(p, c))
    } else if m == "rank_list"@ {
        Some(rank_list_request(p, c))
    } else if m == "rank_top"@ {
        Some(rank_top_request(p, c))
    } else if m == "rank_vol"@ {
        Some(rank_vol_request(p, c))
    } else if m == "recommend_songs"@ {
        Some(recommend_songs_request(p, c))
    } else if m == "scene_audio_list"@ {
        Some(scene_audio_list_request(p, c))
    } else if m == "scene_collection_list"@ {
        Some(scene_collection_list_request(p, c))
    } else if m == "scene_lists"@ {
        Some(scene_lists_request(p, c))
    } else if m == "scene_module"@ {
        Some(scene_module_request(p, c))
    } else if m == "scene_module_info"@ {
        Some(scene_module_info_request(p, c))
    } else if m == "scene_music"@ {
        Some(scene_music_request(p, c))
    } else if m == "scene_video_list"@ {
        Some(scene_video_list_request(p, c))
    } else if m == "search_complex"@ {
        Some(search_complex_request(p, c))
    } else if m == "search_default"@ {
        Some(search_default_request(p, c))
    } else if m == "search_hot"@ {
        Some(search_hot_request(p, c))
    } else if m == "search_lyric"@ {
        Some(search_lyric_request(p, c))
    } else if m == "search_suggest"@ {
        Some(search_suggest_request(p, c))
    } else if m == "theme_music"@ {
        Some(theme_music_request(p, c))
    } else if m == "theme_music_detail"@ {
        Some(theme_music_detail_request(p, c))
    } else if m == "theme_playlist"@ {
        Some(theme_playlist_request(p, c))
    } else if m == "theme_playlist_track"@ {
        Some(theme_playlist_track_request(p, c))
    } else if m == "top_album"@ {
        Some(top_album_request(p, c))
    } else if m == "top_card"@ {
        Some(top_card_request(p, c))
    } else if m == "top_card_youth"@ {
        Some(top_card_youth_request(p, c))
    } else if m == "top_song"@ {
        Some(top_song_request(p, c))
    } else if m == "top_tag_card_youth"@ {
        Some(top_tag_card_youth_request(p, c))
    } else if m == "yueku"@ {
        Some(yueku_request(p, c))
    } else if m == "yueku_banner"@ {
        Some(yueku_banner_request(p, c))
    } else if m == "yueku_fm"@ {
        Some(yueku_fm_request(p, c))
    } else {
        None
    }
}

/// The request a module of this group describes (see [`requested`]).
pub fn request_for(module: &str, params: &JsonValue, c: Clock) -> (r: Option<NativeRequest>)
    ensures
        match r {
            Some(q) => requested(module@, params@, c) == Some(q@),
            None => requested(module@, params@, c) is None,
        },
{
    reveal(requested);
    if str_eq(module, "ai_recommend") {
        return Some(ai_recommend(params, c));
    }
    if str_eq(module, "everyday_friend") {
        return Some(everyday_friend(params, c));
    }
    if str_eq(module, "everyday_recommend") {
        return Some(everyday_recommend(params, c));
    }
    if str_eq(module, "everyday_style_recommend") {
        return Some(everyday_style_recommend(params, c));
    }
    if str_eq(module, "fm_class") {
        return Some(fm_class(params, c));
    }
    if str_eq(module, "fm_recommend") {
        return Some(fm_recommend(params, c));
    }
    if str_eq(module, "get_mode_info") {
        return Some(get_mode_info(params, c));
    }
    if str_eq(module, "get_model") {
        return Some(get_model(params, c));
    }
    if str_eq(module, "rank_audio") {
        return Some(rank_audio(params, c));
    }
    if str_eq(module, "rank_info") {
        return Some(rank_info(params, c));
    }
    if str_eq(module, "rank_list") {
        return Some(rank_list(params, c));
    }
    if str_eq(module, "rank_top") {
        return Some(rank_top(params, c));
    }
    if str_eq(module, "rank_vol") {
        return Some(rank_vol(params, c));
    }
    if str_eq(module, "recommend_songs") {
        return Some(recommend_songs(params, c));
    }
    if str_eq(module, "scene_audio_list") {
        return Some(scene_audio_list(params, c));
    }
    if str_eq(module, "scene_collection_list") {
        return Some(scene_collection_list(params, c));
    }
    if str_eq(module, "scene_lists") {
        return Some(scene_lists(params, c));
    }
    if str_eq(module, "scene_module") {
        return Some(scene_module(params, c));
    }
    if str_eq(module, "scene_module_info") {
        return Some(scene_module_info(params, c));
    }
    if str_eq(module, "scene_music") {
        return Some(scene_music(params, c));
    }
    if str_eq(module, "scene_video_list") {
        return Some(scene_video_list(params, c));
    }
    if str_eq(module, "search_complex") {
        return Some(search_complex(params, c));
    }
    if str_eq(module, "search_default") {
        return Some(search_default(params, c));
    }
    if str_eq(module, "search_hot") {
        return Some(search_hot(params, c));
    }
    if str_eq(module, "search_lyric") {
        return Some(search_lyric(params, c));
    }
    if str_eq(module, "search_suggest") {
        return Some(search_suggest(params, c));
    }
    if str_eq(module, "theme_music") {
        return Some(theme_music(params, c));
    }
    if str_eq(module, "theme_music_detail") {
        return Some(theme_music_detail(params, c));
    }
    if str_eq(module, "theme_playlist") {
        return Some(theme_playlist(params, c));
    }
    if str_eq(module, "theme_playlist_track") {
        return Some(theme_playlist_track(params, c));
    }
    if str_eq(module, "top_album") {
        return Some(top_album(params, c));
    }
    if str_eq(module, "top_card") {
        return Some(top_card(params, c));
    }
    if str_eq(module, "top_card_youth") {
        return Some(top_card_youth(params, c));
    }
    if str_eq(module, "top_song") {
        return Some(top_song(params, c));
    }
    if str_eq(module, "top_tag_card_youth") {
        return Some(top_tag_card_youth(params, c));
    }
    if str_eq(module, "yueku") {
        return Some(yueku(params, c));
    }
    if str_eq(module, "yueku_banner") {
        return Some(yueku_banner(params, c));
    }
    if str_eq(module, "yueku_fm") {
        return Some(yueku_fm(params, c));
    }
    None
}

/// Whether `m` is one of the modules described here.
pub open spec fn handles(m: Seq<char>) -> bool {
    m == "ai_recommend"@
        || m == "everyday_friend"@
        || m == "everyday_recommend"@
        || m == "everyday_style_recommend"@
        || m == "fm_class"@
        || m == "fm_recommend"@
        || m == "get_mode_info"@
        || m == "get_model"@
        || m == "rank_audio"@
        || m == "rank_info"@
        || m == "rank_list"@
        || m == "rank_top"@
        || m == "rank_vol"@
        || m == "recommend_songs"@
        || m == "scene_audio_list"@
        || m == "scene_collection_list"@
        || m == "scene_lists"@
        || m == "scene_module"@
        || m == "scene_module_info"@
        || m == "scene_music"@
        || m == "scene_video_list"@
        || m == "search_complex"@
        || m == "search_default"@
        || m == "search_hot"@
        || m == "search_lyric"@
        || m == "search_suggest"@
        || m == "theme_music"@
        || m == "theme_music_detail"@
        || m == "theme_playlist"@
        || m == "theme_playlist_track"@
        || m == "top_album"@
        || m == "top_card"@
        || m == "top_card_youth"@
        || m == "top_song"@
        || m == "top_tag_card_youth"@
        || m == "yueku"@
        || m == "yueku_banner"@
        || m == "yueku_fm"@
}

/// Each module described here has a request.
pub proof fn lemma_handled_requested(m: Seq<char>, p: JsonView, c: Clock)
    requires
        handles(m),
    ensures
        requested(m, p, c) is Some,
{
    reveal(requested);
}

} // verus!
