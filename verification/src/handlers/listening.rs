//! Requests about playlists, comments, play history and youth channels.
use crate::handlers::{
    appid_value, array, clientver_value, cookie_or, items_of, no_entries, no_items, num, or_default,
    push_item, txt, Clock,
};
use crate::js::{js_number, number_value};
use crate::json::{insert_entry, int_view, JsonNumber, JsonObject, JsonValue, JsonView, NumberView};
use crate::params::{
    cookie, cookie_or_param, cookie_then_param, csv_number_objects, csv_number_objects_view,
    csv_objects, csv_objects_view, param, param_nullish, param_or, param_or_cookie,
    param_then_cookie, value, value_nullish, value_or,
};
use crate::signing::{params_key, platform_appid, platform_clientver, platform_numbers, sign_params_key};
use crate::text::{decimal, str_eq, u128_text};
use crate::upstream::{request, Method, NativeRequest, RequestView, SignatureKind};
use vstd::prelude::*;

verus! {

/// The upstream request of `comment_album`.
pub open spec fn comment_album_request(p: JsonView, c: Clock) -> RequestView {
    let p0 = {
        let o = no_entries();
        let o = insert_entry(o, "childrenid"@, param(p, "id"@));
        let o = insert_entry(o, "need_show_image"@, num(1));
        let o = insert_entry(o, "p"@, param_or(p, "page"@, num(1)));
        let o = insert_entry(o, "pagesize"@, param_or(p, "pagesize"@, num(30)));
        let o = insert_entry(o, "show_classify"@, param_or(p, "show_classify"@, num(1)));
        let o = insert_entry(o, "show_hotword_list"@, param_or(p, "show_hotword_list"@, num(1)));
        let o = insert_entry(o, "code"@, txt("94f1792ced1df89aa68a7939eaf2efca"@));
        JsonView::Object(o)
    };
    request("/m.comment.service/v1/cmtlist"@, Method::Post).with_params(p0)
}

/// Describes the upstream request of `comment_album`.
pub fn comment_album(params: &JsonValue, c: Clock) -> (r: NativeRequest)
    ensures
        r@ == comment_album_request(params@, c),
{
    let mut o1 = JsonObject::new();
    o1.insert("childrenid".to_owned(), value(params, "id"));
    o1.insert("need_show_image".to_owned(), JsonValue::unsigned(1));
    o1.insert("p".to_owned(), value_or(params, "page", JsonValue::unsigned(1)));
    o1.insert("pagesize".to_owned(), value_or(params, "pagesize", JsonValue::unsigned(30)));
    o1.insert("show_classify".to_owned(), value_or(params, "show_classify", JsonValue::unsigned(1)));
    o1.insert("show_hotword_list".to_owned(), value_or(params, "show_hotword_list", JsonValue::unsigned(1)));
    o1.insert("code".to_owned(), JsonValue::text("94f1792ced1df89aa68a7939eaf2efca"));
    let p2 = JsonValue::Object(o1);
    NativeRequest::post("/m.comment.service/v1/cmtlist").params(p2)
}

/// The upstream request of `comment_music`.
pub open spec fn comment_music_request(p: JsonView, c: Clock) -> RequestView {
    let p0 = {
        let o = no_entries();
        let o = insert_entry(o, "mixsongid"@, param(p, "mixsongid"@));
        let o = insert_entry(o, "need_show_image"@, num(1));
        let o = insert_entry(o, "p"@, param_or(p, "page"@, num(1)));
        let o = insert_entry(o, "pagesize"@, param_or(p, "pagesize"@, num(30)));
        let o = insert_entry(o, "show_classify"@, param_or(p, "show_classify"@, num(1)));
        let o = insert_entry(o, "show_hotword_list"@, param_or(p, "show_hotword_list"@, num(1)));
        let o = insert_entry(o, "extdata"@, txt("0"@));
        let o = insert_entry(o, "code"@, txt("fc4be23b4e972707f36b8a828a93ba8a"@));
        JsonView::Object(o)
    };
    request("/mcomment/v1/cmtlist"@, Method::Post).with_params(p0)
}

/// Describes the upstream request of `comment_music`.
pub fn comment_music(params: &JsonValue, c: Clock) -> (r: NativeRequest)
    ensures
        r@ == comment_music_request(params@, c),
{
    let mut o1 = JsonObject::new();
    o1.insert("mixsongid".to_owned(), value(params, "mixsongid"));
    o1.insert("need_show_image".to_owned(), JsonValue::unsigned(1));
    o1.insert("p".to_owned(), value_or(params, "page", JsonValue::unsigned(1)));
    o1.insert("pagesize".to_owned(), value_or(params, "pagesize", JsonValue::unsigned(30)));
    o1.insert("show_classify".to_owned(), value_or(params, "show_classify", JsonValue::unsigned(1)));
    o1.insert("show_hotword_list".to_owned(), value_or(params, "show_hotword_list", JsonValue::unsigned(1)));
    o1.insert("extdata".to_owned(), JsonValue::text("0"));
    o1.insert("code".to_owned(), JsonValue::text("fc4be23b4e972707f36b8a828a93ba8a"));
    let p2 = JsonValue::Object(o1);
    NativeRequest::post("/mcomment/v1/cmtlist").params(p2)
}

/// The upstream request of `comment_music_hotword`.
pub open spec fn comment_music_hotword_request(p: JsonView, c: Clock) -> RequestView {
    let p0 = {
        let o = no_entries();
        let o = insert_entry(o, "mixsongid"@, param(p, "mixsongid"@));
        let o = insert_entry(o, "need_show_image"@, num(1));
        let o = insert_entry(o, "p"@, param_or(p, "page"@, num(1)));
        let o = insert_entry(o, "pagesize"@, param_or(p, "pagesize"@, num(30)));
        let o = insert_entry(o, "hot_word"@, param(p, "hot_word"@));
        let o = insert_entry(o, "extdata"@, txt("0"@));
        let o = insert_entry(o, "code"@, txt("fc4be23b4e972707f36b8a828a93ba8a"@));
        JsonView::Object(o)
    };
    request("/mcomment/v1/get_hot_word"@, Method::Post).with_params(p0)
}

/// Describes the upstream request of `comment_music_hotword`.
pub fn comment_music_hotword(params: &JsonValue, c: Clock) -> (r: NativeRequest)
    ensures
        r@ == comment_music_hotword_request(params@, c),
{
    let mut o1 = JsonObject::new();
    o1.insert("mixsongid".to_owned(), value(params, "mixsongid"));
    o1.insert("need_show_image".to_owned(), JsonValue::unsigned(1));
    o1.insert("p".to_owned(), value_or(params, "page", JsonValue::unsigned(1)));
    o1.insert("pagesize".to_owned(), value_or(params, "pagesize", JsonValue::unsigned(30)));
    o1.insert("hot_word".to_owned(), value(params, "hot_word"));
    o1.insert("extdata".to_owned(), JsonValue::text("0"));
    o1.insert("code".to_owned(), JsonValue::text("fc4be23b4e972707f36b8a828a93ba8a"));
    let p2 = JsonValue::Object(o1);
    NativeRequest::post("/mcomment/v1/get_hot_word").params(p2)
}

/// The upstream request of `comment_playlist`.
pub open spec fn comment_playlist_request(p: JsonView, c: Clock) -> RequestView {
    let p0 = {
        let o = no_entries();
        let o = insert_entry(o, "childrenid"@, param(p, "id"@));
        let o = insert_entry(o, "need_show_image"@, num(1));
        let o = insert_entry(o, "p"@, param_or(p, "page"@, num(1)));
        let o = insert_entry(o, "pagesize"@, param_or(p, "pagesize"@, num(30)));
        let o = insert_entry(o, "show_classify"@, param_or(p, "show_classify"@, num(1)));
        let o = insert_entry(o, "show_hotword_list"@, param_or(p, "show_hotword_list"@, num(1)));
        let o = insert_entry(o, "code"@, txt("ca53b96fe5a1d9c22d71c8f522ef7c4f"@));
        let o = insert_entry(o, "content_type"@, num(0));
        let o = insert_entry(o, "tag"@, num(5));
        JsonView::Object(o)
    };
    request("/m.comment.service/v1/cmtlist"@, Method::Post).with_params(p0)
}

/// Describes the upstream request of `comment_playlist`.
pub fn comment_playlist(params: &JsonValue, c: Clock) -> (r: NativeRequest)
    ensures
        r@ == comment_playlist_request(params@, c),
{
    let mut o1 = JsonObject::new();
    o1.insert("childrenid".to_owned(), value(params, "id"));
    o1.insert("need_show_image".to_owned(), JsonValue::unsigned(1));
    o1.insert("p".to_owned(), value_or(params, "page", JsonValue::unsigned(1)));
    o1.insert("pagesize".to_owned(), value_or(params, "pagesize", JsonValue::unsigned(30)));
    o1.insert("show_classify".to_owned(), value_or(params, "show_classify", JsonValue::unsigned(1)));
    o1.insert("show_hotword_list".to_owned(), value_or(params, "show_hotword_list", JsonValue::unsigned(1)));
    o1.insert("code".to_owned(), JsonValue::text("ca53b96fe5a1d9c22d71c8f522ef7c4f"));
    o1.insert("content_type".to_owned(), JsonValue::unsigned(0));
    o1.insert("tag".to_owned(), JsonValue::unsigned(5));
    let p2 = JsonValue::Object(o1);
    NativeRequest::post("/m.comment.service/v1/cmtlist").params(p2)
}

/// The upstream request of `lastest_songs_listen`.
pub open spec fn lastest_songs_listen_request(p: JsonView, c: Clock) -> RequestView {
    let d0 = {
        let o = no_entries();
        let o = insert_entry(o, "area_code"@, txt("1"@));
        let o = insert_entry(o, "sources"@, JsonView::Array(Seq::empty().push(txt("pc"@)).push(txt("mobile"@)).push(txt("tv"@)).push(txt("car"@))));
        let o = insert_entry(o, "userid"@, js_number(param_then_cookie(p, "userid"@, num(0))));
        let o = insert_entry(o, "ret_info"@, num(1));
        let o = insert_entry(o, "token"@, param_then_cookie(p, "token"@, txt(""@)));
        let o = insert_entry(o, "pagesize"@, js_number(param_or(p, "pagesize"@, num(30))));
        JsonView::Object(o)
    };
    request("/playque/devque/v1/get_latest_songs"@, Method::Post).with_data(d0)
}

/// Describes the upstream request of `lastest_songs_listen`.
pub fn lastest_songs_listen(params: &JsonValue, c: Clock) -> (r: NativeRequest)
    ensures
        r@ == lastest_songs_listen_request(params@, c),
{
    let mut a1 = no_items();
    push_item(&mut a1, JsonValue::text("pc"));
    push_item(&mut a1, JsonValue::text("mobile"));
    push_item(&mut a1, JsonValue::text("tv"));
    push_item(&mut a1, JsonValue::text("car"));
    let mut o2 = JsonObject::new();
    o2.insert("area_code".to_owned(), JsonValue::text("1"));
    o2.insert("sources".to_owned(), array(a1));
    o2.insert("userid".to_owned(), number_value(param_or_cookie(params, "userid", JsonValue::unsigned(0))));
    o2.insert("ret_info".to_owned(), JsonValue::unsigned(1));
    o2.insert("token".to_owned(), param_or_cookie(params, "token", JsonValue::text("")));
    o2.insert("pagesize".to_owned(), number_value(value_or(params, "pagesize", JsonValue::unsigned(30))));
    let d3 = JsonValue::Object(o2);
    NativeRequest::post("/playque/devque/v1/get_latest_songs").data(d3)
}

/// The upstream request of `playlist_effect`.
pub open spec fn playlist_effect_request(p: JsonView, c: Clock) -> RequestView {
    let d0 = {
        let o = no_entries();
        let o = insert_entry(o, "page"@, param_or(p, "page"@, num(1)));
        let o = insert_entry(o, "pagesize"@, param_or(p, "pagesize"@, num(30)));
        JsonView::Object(o)
    };
    request("/pubsongs/v1/get_sound_effect_list"@, Method::Post).with_data(d0)
}

/// Describes the upstream request of `playlist_effect`.
pub fn playlist_effect(params: &JsonValue, c: Clock) -> (r: NativeRequest)
    ensures
        r@ == playlist_effect_request(params@, c),
{
    let mut o1 = JsonObject::new();
    o1.insert("page".to_owned(), value_or(params, "page", JsonValue::unsigned(1)));
    o1.insert("pagesize".to_owned(), value_or(params, "pagesize", JsonValue::unsigned(30)));
    let d2 = JsonValue::Object(o1);
    NativeRequest::post("/pubsongs/v1/get_sound_effect_list").data(d2)
}

/// The upstream request of `playlist_detail`.
pub open spec fn playlist_detail_request(p: JsonView, c: Clock) -> RequestView {
    let d0 = {
        let o = no_entries();
        let o = insert_entry(o, "data"@, csv_objects_view(p, "ids"@, "global_collection_id"@));
        let o = insert_entry(o, "userid"@, param_then_cookie(p, "userid"@, num(0)));
        let o = insert_entry(o, "token"@, param_then_cookie(p, "token"@, txt(""@)));
        JsonView::Object(o)
    };
    request("/v3/get_list_info"@, Method::Post).with_data(d0).with_header("x-router"@, "pubsongs.kugou.com"@)
}

/// Describes the upstream request of `playlist_detail`.
pub fn playlist_detail(params: &JsonValue, c: Clock) -> (r: NativeRequest)
    ensures
        r@ == playlist_detail_request(params@, c),
{
    let mut o1 = JsonObject::new();
    o1.insert("data".to_owned(), csv_objects(params, "ids", "global_collection_id"));
    o1.insert("userid".to_owned(), param_or_cookie(params, "userid", JsonValue::unsigned(0)));
    o1.insert("token".to_owned(), param_or_cookie(params, "token", JsonValue::text("")));
    let d2 = JsonValue::Object(o1);
    NativeRequest::post("/v3/get_list_info").data(d2).header("x-router", "pubsongs.kugou.com")
}

/// The upstream request of `playlist_similar`.
pub open spec fn playlist_similar_request(p: JsonView, c: Clock) -> RequestView {
    let d0 = {
        let o = no_entries();
        let o = insert_entry(o, "appid"@, num(platform_appid(c.lite)));
        let o = insert_entry(o, "clientver"@, num(platform_clientver(c.lite)));
        let o = insert_entry(o, "clienttime"@, num(c.now_ms));
        let o = insert_entry(o, "key"@, txt(params_key(decimal((c.now_ms) as nat), c.lite)));
        let o = insert_entry(o, "userid"@, param_then_cookie(p, "userid"@, num(0)));
        let o = insert_entry(o, "ugc"@, num(1));
        let o = insert_entry(o, "show_list"@, num(1));
        let o = insert_entry(o, "need_songs"@, num(1));
        let o = insert_entry(o, "data"@, csv_objects_view(p, "ids"@, "global_collection_id"@));
        JsonView::Object(o)
    };
    request("/pubsongs/v1/kmr_get_similar_lists"@, Method::Post).with_data(d0)
}

/// Describes the upstream request of `playlist_similar`.
pub fn playlist_similar(params: &JsonValue, c: Clock) -> (r: NativeRequest)
    ensures
        r@ == playlist_similar_request(params@, c),
{
    let mut o1 = JsonObject::new();
    o1.insert("appid".to_owned(), appid_value(c));
    o1.insert("clientver".to_owned(), clientver_value(c));
    o1.insert("clienttime".to_owned(), JsonValue::unsigned(c.now_ms));
    o1.insert("key".to_owned(), JsonValue::Str(sign_params_key(c.now_ms, c.lite)));
    o1.insert("userid".to_owned(), param_or_cookie(params, "userid", JsonValue::unsigned(0)));
    o1.insert("ugc".to_owned(), JsonValue::unsigned(1));
    o1.insert("show_list".to_owned(), JsonValue::unsigned(1));
    o1.insert("need_songs".to_owned(), JsonValue::unsigned(1));
    o1.insert("data".to_owned(), csv_objects(params, "ids", "global_collection_id"));
    let d2 = JsonValue::Object(o1);
    NativeRequest::post("/pubsongs/v1/kmr_get_similar_lists").data(d2)
}

/// The upstream request of `playlist_tags`.
pub open spec fn playlist_tags_request(p: JsonView, c: Clock) -> RequestView {
    let d0 = {
        let o = no_entries();
        let o = insert_entry(o, "tag_type"@, txt("collection"@));
        let o = insert_entry(o, "tag_id"@, num(0));
        let o = insert_entry(o, "source"@, num(3));
        JsonView::Object(o)
    };
    request("/pubsongs/v1/get_tags_by_type"@, Method::Post).with_data(d0)
}

/// Describes the upstream request of `playlist_tags`.
pub fn playlist_tags(params: &JsonValue, c: Clock) -> (r: NativeRequest)
    ensures
        r@ == playlist_tags_request(params@, c),
{
    let mut o1 = JsonObject::new();
    o1.insert("tag_type".to_owned(), JsonValue::text("collection"));
    o1.insert("tag_id".to_owned(), JsonValue::unsigned(0));
    o1.insert("source".to_owned(), JsonValue::unsigned(3));
    let d2 = JsonValue::Object(o1);
    NativeRequest::post("/pubsongs/v1/get_tags_by_type").data(d2)
}

/// The upstream request of `playlist_tracks_del`.
pub open spec fn playlist_tracks_del_request(p: JsonView, c: Clock) -> RequestView {
    let d0 = {
        let o = no_entries();
        let o = insert_entry(o, "listid"@, param(p, "listid"@));
        let o = insert_entry(o, "userid"@, param_then_cookie(p, "userid"@, num(0)));
        let o = insert_entry(o, "data"@, csv_number_objects_view(p, "fileids"@, "fileid"@));
        let o = insert_entry(o, "type"@, num(0));
        let o = insert_entry(o, "token"@, param_then_cookie(p, "token"@, txt(""@)));
        let o = insert_entry(o, "list_ver"@, num(0));
        JsonView::Object(o)
    };
    request("/v4/delete_songs"@, Method::Post).with_data(d0).with_header("x-router"@, "cloudlist.service.kugou.com"@)
}

/// Describes the upstream request of `playlist_tracks_del`.
pub fn playlist_tracks_del(params: &JsonValue, c: Clock) -> (r: NativeRequest)
    ensures
        r@ == playlist_tracks_del_request(params@, c),
{
    let mut o1 = JsonObject::new();
    o1.insert("listid".to_owned(), value(params, "listid"));
    o1.insert("userid".to_owned(), param_or_cookie(params, "userid", JsonValue::unsigned(0)));
    o1.insert("data".to_owned(), csv_number_objects(params, "fileids", "fileid"));
    o1.insert("type".to_owned(), JsonValue::unsigned(0));
    o1.insert("token".to_owned(), param_or_cookie(params, "token", JsonValue::text("")));
    o1.insert("list_ver".to_owned(), JsonValue::unsigned(0));
    let d2 = JsonValue::Object(o1);
    NativeRequest::post("/v4/delete_songs").data(d2).header("x-router", "cloudlist.service.kugou.com")
}

/// The upstream request of `playhistory_upload`.
pub open spec fn playhistory_upload_request(p: JsonView, c: Clock) -> RequestView {
    let p0 = {
        let o = no_entries();
        let o = insert_entry(o, "plat"@, num(3));
        JsonView::Object(o)
    };
    let d1 = {
        let o = no_entries();
        let o = insert_entry(o, "songs"@, JsonView::Array(Seq::empty().push({
            let o = no_entries();
            let o = insert_entry(o, "mxid"@, js_number(param(p, "mxid"@)));
            let o = insert_entry(o, "op"@, num(1));
            let o = insert_entry(o, "ot"@, js_number(param_or(p, "time"@, num(c.now_ms / 1000))));
            let o = insert_entry(o, "pc"@, js_number(param_or(p, "pc"@, num(1))));
            JsonView::Object(o)
        })));
        let o = insert_entry(o, "token"@, param_then_cookie(p, "token"@, txt(""@)));
        let o = insert_entry(o, "userid"@, param_then_cookie(p, "userid"@, num(0)));
        JsonView::Object(o)
    };
    request("/playhistory/v1/upload_songs"@, Method::Post).with_params(p0).with_data(d1)
}

/// Describes the upstream request of `playhistory_upload`.
pub fn playhistory_upload(params: &JsonValue, c: Clock) -> (r: NativeRequest)
    ensures
        r@ == playhistory_upload_request(params@, c),
{
    let mut o1 = JsonObject::new();
    o1.insert("plat".to_owned(), JsonValue::unsigned(3));
    let p2 = JsonValue::Object(o1);
    let mut o3 = JsonObject::new();
    o3.insert("mxid".to_owned(), number_value(value(params, "mxid")));
    o3.insert("op".to_owned(), JsonValue::unsigned(1));
    o3.insert("ot".to_owned(), number_value(value_or(params, "time", JsonValue::unsigned(c.now_ms / 1000))));
    o3.insert("pc".to_owned(), number_value(value_or(params, "pc", JsonValue::unsigned(1))));
    let mut a4 = no_items();
    push_item(&mut a4, JsonValue::Object(o3));
    let mut o5 = JsonObject::new();
    o5.insert("songs".to_owned(), array(a4));
    o5.insert("token".to_owned(), param_or_cookie(params, "token", JsonValue::text("")));
    o5.insert("userid".to_owned(), param_or_cookie(params, "userid", JsonValue::unsigned(0)));
    let d6 = JsonValue::Object(o5);
    NativeRequest::post("/playhistory/v1/upload_songs").params(p2).data(d6)
}

/// The upstream request of `server_now`.
pub open spec fn server_now_request(p: JsonView, c: Clock) -> RequestView {
    let p0 = {
        let o = no_entries();
        let o = insert_entry(o, "plat"@, num(3));
        JsonView::Object(o)
    };
    let d1 = {
        let o = no_entries();
        let o = insert_entry(o, "token"@, param_then_cookie(p, "token"@, txt(""@)));
        let o = insert_entry(o, "userid"@, param_then_cookie(p, "userid"@, num(0)));
        JsonView::Object(o)
    };
    request("/v1/server_now"@, Method::Post).with_params(p0).with_data(d1).with_header("x-router"@, "usercenter.kugou.com"@)
}

/// Describes the upstream request of `server_now`.
pub fn server_now(params: &JsonValue, c: Clock) -> (r: NativeRequest)
    ensures
        r@ == server_now_request(params@, c),
{
    let mut o1 = JsonObject::new();
    o1.insert("plat".to_owned(), JsonValue::unsigned(3));
    let p2 = JsonValue::Object(o1);
    let mut o3 = JsonObject::new();
    o3.insert("token".to_owned(), param_or_cookie(params, "token", JsonValue::text("")));
    o3.insert("userid".to_owned(), param_or_cookie(params, "userid", JsonValue::unsigned(0)));
    let d4 = JsonValue::Object(o3);
    NativeRequest::post("/v1/server_now").params(p2).data(d4).header("x-router", "usercenter.kugou.com")
}

/// The upstream request of `youth_channel_all`.
pub open spec fn youth_channel_all_request(p: JsonView, c: Clock) -> RequestView {
    let p0 = {
        let o = no_entries();
        let o = insert_entry(o, "page"@, param_or(p, "page"@, num(1)));
        let o = insert_entry(o, "pagesize"@, param_or(p, "pagesize"@, num(30)));
        let o = insert_entry(o, "type"@, num(1));
        JsonView::Object(o)
    };
    request("/youth/v2/channel/channel_all_list"@, Method::Get).with_params(p0)
}

/// Describes the upstream request of `youth_channel_all`.
pub fn youth_channel_all(params: &JsonValue, c: Clock) -> (r: NativeRequest)
    ensures
        r@ == youth_channel_all_request(params@, c),
{
    let mut o1 = JsonObject::new();
    o1.insert("page".to_owned(), value_or(params, "page", JsonValue::unsigned(1)));
    o1.insert("pagesize".to_owned(), value_or(params, "pagesize", JsonValue::unsigned(30)));
    o1.insert("type".to_owned(), JsonValue::unsigned(1));
    let p2 = JsonValue::Object(o1);
    NativeRequest::get("/youth/v2/channel/channel_all_list").params(p2)
}

/// The upstream request of `youth_channel_amway`.
pub open spec fn youth_channel_amway_request(p: JsonView, c: Clock) -> RequestView {
    let p0 = {
        let o = no_entries();
        let o = insert_entry(o, "global_collection_id"@, param(p, "global_collection_id"@));
        JsonView::Object(o)
    };
    request("/youth/api/amway/v2/index"@, Method::Get).with_params(p0)
}

/// Describes the upstream request of `youth_channel_amway`.
pub fn youth_channel_amway(params: &JsonValue, c: Clock) -> (r: NativeRequest)
    ensures
        r@ == youth_channel_amway_request(params@, c),
{
    let mut o1 = JsonObject::new();
    o1.insert("global_collection_id".to_owned(), value(params, "global_collection_id"));
    let p2 = JsonValue::Object(o1);
    NativeRequest::get("/youth/api/amway/v2/index").params(p2)
}

/// The upstream request of `youth_channel_detail`.
pub open spec fn youth_channel_detail_request(p: JsonView, c: Clock) -> RequestView {
    let d0 = {
        let o = no_entries();
        let o = insert_entry(o, "data"@, csv_objects_view(p, "global_collection_id"@, "global_collection_id"@));
        JsonView::Object(o)
    };
    request("/youth/api/channel/v1/channel_list_by_id"@, Method::Post).with_data(d0)
}

/// Describes the upstream request of `youth_channel_detail`.
pub fn youth_channel_detail(params: &JsonValue, c: Clock) -> (r: NativeRequest)
    ensures
        r@ == youth_channel_detail_request(params@, c),
{
    let mut o1 = JsonObject::new();
    o1.insert("data".to_owned(), csv_objects(params, "global_collection_id", "global_collection_id"));
    let d2 = JsonValue::Object(o1);
    NativeRequest::post("/youth/api/channel/v1/channel_list_by_id").data(d2)
}

/// The upstream request of `youth_channel_similar`.
pub open spec fn youth_channel_similar_request(p: JsonView, c: Clock) -> RequestView {
    let p0 = {
        let o = no_entries();
        let o = insert_entry(o, "channel_id"@, param(p, "channel_id"@));
        JsonView::Object(o)
    };
    let d1 = {
        let o = no_entries();
        let o = insert_entry(o, "area_code"@, num(1));
        let o = insert_entry(o, "playlist_ver"@, num(2));
        let o = insert_entry(o, "vip_type"@, param_then_cookie(p, "vip_type"@, num(0)));
        let o = insert_entry(o, "platform"@, txt("ios"@));
        JsonView::Object(o)
    };
    request("/youth/v1/channel/get_friendly_channel"@, Method::Post).with_params(p0).with_data(d1)
}

/// Describes the upstream request of `youth_channel_similar`.
pub fn youth_channel_similar(params: &JsonValue, c: Clock) -> (r: NativeRequest)
    ensures
        r@ == youth_channel_similar_request(params@, c),
{
    let mut o1 = JsonObject::new();
    o1.insert("channel_id".to_owned(), value(params, "channel_id"));
    let p2 = JsonValue::Object(o1);
    let mut o3 = JsonObject::new();
    o3.insert("area_code".to_owned(), JsonValue::unsigned(1));
    o3.insert("playlist_ver".to_owned(), JsonValue::unsigned(2));
    o3.insert("vip_type".to_owned(), param_or_cookie(params, "vip_type", JsonValue::unsigned(0)));
    o3.insert("platform".to_owned(), JsonValue::text("ios"));
    let d4 = JsonValue::Object(o3);
    NativeRequest::post("/youth/v1/channel/get_friendly_channel").params(p2).data(d4)
}

/// The upstream request of `youth_channel_song`.
pub open spec fn youth_channel_song_request(p: JsonView, c: Clock) -> RequestView {
    let p0 = {
        let o = no_entries();
        let o = insert_entry(o, "global_collection_id"@, param(p, "global_collection_id"@));
        let o = insert_entry(o, "pagesize"@, param_or(p, "pagesize"@, num(30)));
        let o = insert_entry(o, "page"@, param_or(p, "page"@, num(1)));
        let o = insert_entry(o, "is_filter"@, num(0));
        JsonView::Object(o)
    };
    request("/youth/api/channel/v1/channel_get_song_audit_passed"@, Method::Get).with_params(p0)
}

/// Describes the upstream request of `youth_channel_song`.
pub fn youth_channel_song(params: &JsonValue, c: Clock) -> (r: NativeRequest)
    ensures
        r@ == youth_channel_song_request(params@, c),
{
    let mut o1 = JsonObject::new();
    o1.insert("global_collection_id".to_owned(), value(params, "global_collection_id"));
    o1.insert("pagesize".to_owned(), value_or(params, "pagesize", JsonValue::unsigned(30)));
    o1.insert("page".to_owned(), value_or(params, "page", JsonValue::unsigned(1)));
    o1.insert("is_filter".to_owned(), JsonValue::unsigned(0));
    let p2 = JsonValue::Object(o1);
    NativeRequest::get("/youth/api/channel/v1/channel_get_song_audit_passed").params(p2)
}

/// The upstream request of `youth_channel_song_detail`.
pub open spec fn youth_channel_song_detail_request(p: JsonView, c: Clock) -> RequestView {
    let p0 = {
        let o = no_entries();
        let o = insert_entry(o, "global_collection_id"@, param(p, "global_collection_id"@));
        let o = insert_entry(o, "fileid"@, param(p, "fileid"@));
        JsonView::Object(o)
    };
    request("/youth/v2/post/get_song_detail"@, Method::Get).with_params(p0)
}

/// Describes the upstream request of `youth_channel_song_detail`.
pub fn youth_channel_song_detail(params: &JsonValue, c: Clock) -> (r: NativeRequest)
    ensures
        r@ == youth_channel_song_detail_request(params@, c),
{
    let mut o1 = JsonObject::new();
    o1.insert("global_collection_id".to_owned(), value(params, "global_collection_id"));
    o1.insert("fileid".to_owned(), value(params, "fileid"));
    let p2 = JsonValue::Object(o1);
    NativeRequest::get("/youth/v2/post/get_song_detail").params(p2)
}

/// The upstream request of `playlist_track_all_new`.
pub open spec fn playlist_track_all_new_request(p: JsonView, c: Clock) -> RequestView {
    let d0 = {
        let o = no_entries();
        let o = insert_entry(o, "listid"@, param(p, "listid"@));
        let o = insert_entry(o, "userid"@, param_then_cookie(p, "userid"@, txt("0"@)));
        let o = insert_entry(o, "area_code"@, num(1));
        let o = insert_entry(o, "show_relate_goods"@, num(0));
        let o = insert_entry(o, "pagesize"@, param_or(p, "pagesize"@, num(30)));
        let o = insert_entry(o, "allplatform"@, num(1));
        let o = insert_entry(o, "show_cover"@, num(1));
        let o = insert_entry(o, "type"@, num(0));
        let o = insert_entry(o, "token"@, param_then_cookie(p, "token"@, txt("0"@)));
        let o = insert_entry(o, "page"@, param_or(p, "page"@, num(1)));
        JsonView::Object(o)
    };
    request("/v4/get_list_all_file"@, Method::Post).with_data(d0).with_header("x-router"@, "cloudlist.service.kugou.com"@)
}

/// Describes the upstream request of `playlist_track_all_new`.
pub fn playlist_track_all_new(params: &JsonValue, c: Clock) -> (r: NativeRequest)
    ensures
        r@ == playlist_track_all_new_request(params@, c),
{
    let mut o1 = JsonObject::new();
    o1.insert("listid".to_owned(), value(params, "listid"));
    o1.insert("userid".to_owned(), param_or_cookie(params, "userid", JsonValue::text("0")));
    o1.insert("area_code".to_owned(), JsonValue::unsigned(1));
    o1.insert("show_relate_goods".to_owned(), JsonValue::unsigned(0));
    o1.insert("pagesize".to_owned(), value_or(params, "pagesize", JsonValue::unsigned(30)));
    o1.insert("allplatform".to_owned(), JsonValue::unsigned(1));
    o1.insert("show_cover".to_owned(), JsonValue::unsigned(1));
    o1.insert("type".to_owned(), JsonValue::unsigned(0));
    o1.insert("token".to_owned(), param_or_cookie(params, "token", JsonValue::text("0")));
    o1.insert("page".to_owned(), value_or(params, "page", JsonValue::unsigned(1)));
    let d2 = JsonValue::Object(o1);
    NativeRequest::post("/v4/get_list_all_file").data(d2).header("x-router", "cloudlist.service.kugou.com")
}

/// The request a module of this group describes, if it is one of them.
#[verifier::opaque]
pub open spec fn requested(m: Seq<char>, p: JsonView, c: Clock) -> Option<RequestView> {
    if m == "comment_album"@ {
        Some(comment_album_request(p, c))
    } else if m == "comment_music"@ {
        Some(comment_music_request(p, c))
    } else if m == "comment_music_hotword"@ {
        Some(comment_music_hotword_request(p, c))
    } else if m == "comment_playlist"@ {
        Some(comment_playlist_request(p, c))
    } else if m == "lastest_songs_listen"@ {
        Some(lastest_songs_listen_request(p, c))
    } else if m == "playhistory_upload"@ {
        Some(playhistory_upload_request(p, c))
    } else if m == "playlist_detail"@ {
        Some(playlist_detail_request(p, c))
    } else if m == "playlist_effect"@ {
        Some(playlist_effect_request(p, c))
    } else if m == "playlist_similar"@ {
        Some(playlist_similar_request(p, c))
    } else if m == "playlist_tags"@ {
        Some(playlist_tags_request(p, c))
    } else if m == "playlist_track_all_new"@ {
        Some(playlist_track_all_new_request(p, c))
    } else if m == "playlist_tracks_del"@ {
        Some(playlist_tracks_del_request(p, c))
    } else if m == "server_now"@ {
        Some(server_now_request(p, c))
    } else if m == "youth_channel_all"@ {
        Some(youth_channel_all_request(p, c))
    } else if m == "youth_channel_amway"@ {
        Some(youth_channel_amway_request(p, c))
    } else if m == "youth_channel_detail"@ {
        Some(youth_channel_detail_request(p, c))
    } else if m == "youth_channel_similar"@ {
        Some(youth_channel_similar_request(p, c))
    } else if m == "youth_channel_song"@ {
        Some(youth_channel_song_request(p, c))
    } else if m == "youth_channel_song_detail"@ {
        Some(youth_channel_song_detail_request(p, c))
    } else {
        None
    }
}

/// The request a module of this group describes (see [`requested`]).
pub fn request_for(module: &str, params: &JsonValue, c: Clock) -> (r: Option<NativeRequest>)
    ensures
        match r {
            Some(q) => requested(module@, params@, c) == Some(q@),
            None => requested(module@, params@, c) is None,
        },
{
    reveal(requested);
    if str_eq(module, "comment_album") {
        return Some(comment_album(params, c));
    }
    if str_eq(module, "comment_music") {
        return Some(comment_music(params, c));
    }
    if str_eq(module, "comment_music_hotword") {
        return Some(comment_music_hotword(params, c));
    }
    if str_eq(module, "comment_playlist") {
        return Some(comment_playlist(params, c));
    }
    if str_eq(module, "lastest_songs_listen") {
        return Some(lastest_songs_listen(params, c));
    }
    if str_eq(module, "playhistory_upload") {
        return Some(playhistory_upload(params, c));
    }
    if str_eq(module, "playlist_detail") {
        return Some(playlist_detail(params, c));
    }
    if str_eq(module, "playlist_effect") {
        return Some(playlist_effect(params, c));
    }
    if str_eq(module, "playlist_similar") {
        return Some(playlist_similar(params, c));
    }
    if str_eq(module, "playlist_tags") {
        return Some(playlist_tags(params, c));
    }
    if str_eq(module, "playlist_track_all_new") {
        return Some(playlist_track_all_new(params, c));
    }
    if str_eq(module, "playlist_tracks_del") {
        return Some(playlist_tracks_del(params, c));
    }
    if str_eq(module, "server_now") {
        return Some(server_now(params, c));
    }
    if str_eq(module, "youth_channel_all") {
        return Some(youth_channel_all(params, c));
    }
    if str_eq(module, "youth_channel_amway") {
        return Some(youth_channel_amway(params, c));
    }
    if str_eq(module, "youth_channel_detail") {
        return Some(youth_channel_detail(params, c));
    }
    if str_eq(module, "youth_channel_similar") {
        return Some(youth_channel_similar(params, c));
    }
    if str_eq(module, "youth_channel_song") {
        return Some(youth_channel_song(params, c));
    }
    if str_eq(module, "youth_channel_song_detail") {
        return Some(youth_channel_song_detail(params, c));
    }
    None
}

/// Whether `m` is one of the modules described here.
pub open spec fn handles(m: Seq<char>) -> bool {
    m == "comment_album"@
        || m == "comment_music"@
        || m == "comment_music_hotword"@
        || m == "comment_playlist"@
        || m == "lastest_songs_listen"@
        || m == "playhistory_upload"@
        || m == "playlist_detail"@
        || m == "playlist_effect"@
        || m == "playlist_similar"@
        || m == "playlist_tags"@
        || m == "playlist_track_all_new"@
        || m == "playlist_tracks_del"@
        || m == "server_now"@
        || m == "youth_channel_all"@
        || m == "youth_channel_amway"@
        || m == "youth_channel_detail"@
        || m == "youth_channel_similar"@
        || m == "youth_channel_song"@
        || m == "youth_channel_song_detail"@
}

/// Each module described here has a request.
pub proof fn lemma_handled_requested(m: Seq<char>, p: JsonView, c: Clock)
    requires
        handles(m),
    ensures
        requested(m, p, c) is Some,
{
    reveal(requested);
}

} // verus!
