//! Requests about the catalogue: albums, artists, songs, videos, sheets and IP zones.
use crate::handlers::{
    appid_value, array, clientver_value, cookie_or, items_of, no_entries, no_items, num, or_default,
    push_item, txt, Clock,
};
use crate::js::{js_number, number_value};
use crate::json::{insert_entry, int_view, JsonNumber, JsonObject, JsonValue, JsonView, NumberView};
use crate::params::{
    cookie, cookie_or_param, cookie_then_param, csv_number_objects, csv_number_objects_view,
    csv_objects, csv_objects_view, param, param_nullish, param_or, param_or_cookie,
    param_then_cookie, value, value_nullish, value_or,
};
use crate::signing::{params_key, platform_appid, platform_clientver, platform_numbers, sign_params_key};
use crate::text::{decimal, str_eq, u128_text};
use crate::upstream::{request, Method, NativeRequest, RequestView, SignatureKind};
use vstd::prelude::*;

verus! {

/// The upstream request of `album_detail`.
pub open spec fn album_detail_request(p: JsonView, c: Clock) -> RequestView {
    let d0 = {
        let o = no_entries();
        let o = insert_entry(o, "data"@, JsonView::Array(Seq::empty().push({
            let o = no_entries();
            let o = insert_entry(o, "album_id"@, param(p, "id"@));
            JsonView::Object(o)
        })));
        let o = insert_entry(o, "is_buy"@, param_or(p, "is_buy"@, num(0)));
        let o = insert_entry(o, "fields"@, txt("album_id,album_name,publish_date,sizable_cover,intro,language,is_publish,heat,type,quality,authors,exclusive,author_name,trans_param"@));
        JsonView::Object(o)
    };
    request("/kmr/v2/albums"@, Method::Post).with_data(d0).with_header("x-router"@, "openapi.kugou.com"@).with_header("kg-tid"@, "255"@)
}

/// Describes the upstream request of `album_detail`.
pub fn album_detail(params: &JsonValue, c: Clock) -> (r: NativeRequest)
    ensures
        r@ == album_detail_request(params@, c),
{
    let mut o1 = JsonObject::new();
    o1.insert("album_id".to_owned(), value(params, "id"));
    let mut a2 = no_items();
    push_item(&mut a2, JsonValue::Object(o1));
    let mut o3 = JsonObject::new();
    o3.insert("data".to_owned(), array(a2));
    o3.insert("is_buy".to_owned(), value_or(params, "is_buy", JsonValue::unsigned(0)));
    o3.insert("fields".to_owned(), JsonValue::text("album_id,album_name,publish_date,sizable_cover,intro,language,is_publish,heat,type,quality,authors,exclusive,author_name,trans_param"));
    let d4 = JsonValue::Object(o3);
    NativeRequest::post("/kmr/v2/albums").data(d4).header("x-router", "openapi.kugou.com").header("kg-tid", "255")
}

/// The upstream request of `album_shop`.
pub open spec fn album_shop_request(p: JsonView, c: Clock) -> RequestView {
    request("/zhuanjidata/v3/album_shop_v2/get_classify_data"@, Method::Get)
}

/// Describes the upstream request of `album_shop`.
pub fn album_shop(params: &JsonValue, c: Clock) -> (r: NativeRequest)
    ensures
        r@ == album_shop_request(params@, c),
{
    NativeRequest::get("/zhuanjidata/v3/album_shop_v2/get_classify_data")
}

/// The upstream request of `album_songs`.
pub open spec fn album_songs_request(p: JsonView, c: Clock) -> RequestView {
    let d0 = {
        let o = no_entries();
        let o = insert_entry(o, "album_id"@, param(p, "id"@));
        let o = insert_entry(o, "is_buy"@, param_or(p, "is_buy"@, txt(""@)));
        let o = insert_entry(o, "page"@, param_or(p, "page"@, num(1)));
        let o = insert_entry(o, "pagesize"@, param_or(p, "pagesize"@, num(30)));
        JsonView::Object(o)
    };
    request("/v1/album_audio/lite"@, Method::Post).with_data(d0).with_header("x-router"@, "openapi.kugou.com"@).with_header("kg-tid"@, "255"@)
}

/// Describes the upstream request of `album_songs`.
pub fn album_songs(params: &JsonValue, c: Clock) -> (r: NativeRequest)
    ensures
        r@ == album_songs_request(params@, c),
{
    let mut o1 = JsonObject::new();
    o1.insert("album_id".to_owned(), value(params, "id"));
    o1.insert("is_buy".to_owned(), value_or(params, "is_buy", JsonValue::text("")));
    o1.insert("page".to_owned(), value_or(params, "page", JsonValue::unsigned(1)));
    o1.insert("pagesize".to_owned(), value_or(params, "pagesize", JsonValue::unsigned(30)));
    let d2 = JsonValue::Object(o1);
    NativeRequest::post("/v1/album_audio/lite").data(d2).header("x-router", "openapi.kugou.com").header("kg-tid", "255")
}

/// The upstream request of `artist_detail`.
pub open spec fn artist_detail_request(p: JsonView, c: Clock) -> RequestView {
    let d0 = {
        let o = no_entries();
        let o = insert_entry(o, "author_id"@, param(p, "id"@));
        JsonView::Object(o)
    };
    request("/kmr/v3/author"@, Method::Post).with_data(d0).with_header("x-router"@, "openapi.kugou.com"@).with_header("kg-tid"@, "36"@)
}

/// Describes the upstream request of `artist_detail`.
pub fn artist_detail(params: &JsonValue, c: Clock) -> (r: NativeRequest)
    ensures
        r@ == artist_detail_request(params@, c),
{
    let mut o1 = JsonObject::new();
    o1.insert("author_id".to_owned(), value(params, "id"));
    let d2 = JsonValue::Object(o1);
    NativeRequest::post("/kmr/v3/author").data(d2).header("x-router", "openapi.kugou.com").header("kg-tid", "36")
}

/// The upstream request of `artist_honour`.
pub open spec fn artist_honour_request(p: JsonView, c: Clock) -> RequestView {
    let p0 = {
        let o = no_entries();
        let o = insert_entry(o, "singer_id"@, param(p, "id"@));
        let o = insert_entry(o, "pagesize"@, param_or(p, "pagesize"@, num(30)));
        let o = insert_entry(o, "page"@, param_or(p, "page"@, num(1)));
        JsonView::Object(o)
    };
    request("/v1/query_singer_honour_detail"@, Method::Post).with_base_url("http://h5activity.kugou.com"@).with_params(p0)
}

/// Describes the upstream request of `artist_honour`.
pub fn artist_honour(params: &JsonValue, c: Clock) -> (r: NativeRequest)
    ensures
        r@ == artist_honour_request(params@, c),
{
    let mut o1 = JsonObject::new();
    o1.insert("singer_id".to_owned(), value(params, "id"));
    o1.insert("pagesize".to_owned(), value_or(params, "pagesize", JsonValue::unsigned(30)));
    o1.insert("page".to_owned(), value_or(params, "page", JsonValue::unsigned(1)));
    let p2 = JsonValue::Object(o1);
    NativeRequest::post("/v1/query_singer_honour_detail").base_url("http://h5activity.kugou.com").params(p2)
}

/// The upstream request of `artist_lists`.
pub open spec fn artist_lists_request(p: JsonView, c: Clock) -> RequestView {
    let p0 = {
        let o = no_entries();
        let o = insert_entry(o, "musician"@, js_number(param_or(p, "musician"@, num(0))));
        let o = insert_entry(o, "sextype"@, param_or(p, "sextypes"@, num(0)));
        let o = insert_entry(o, "showtype"@, num(2));
        let o = insert_entry(o, "type"@, param_or(p, "type"@, num(0)));
        let o = insert_entry(o, "hotsize"@, js_number(param_or(p, "hotsize"@, num(30))));
        JsonView::Object(o)
    };
    request("/ocean/v6/singer/list"@, Method::Get).with_params(p0)
}

/// Describes the upstream request of `artist_lists`.
pub fn artist_lists(params: &JsonValue, c: Clock) -> (r: NativeRequest)
    ensures
        r@ == artist_lists_request(params@, c),
{
    let mut o1 = JsonObject::new();
    o1.insert("musician".to_owned(), number_value(value_or(params, "musician", JsonValue::unsigned(0))));
    o1.insert("sextype".to_owned(), value_or(params, "sextypes", JsonValue::unsigned(0)));
    o1.insert("showtype".to_owned(), JsonValue::unsigned(2));
    o1.insert("type".to_owned(), value_or(params, "type", JsonValue::unsigned(0)));
    o1.insert("hotsize".to_owned(), number_value(value_or(params, "hotsize", JsonValue::unsigned(30))));
    let p2 = JsonValue::Object(o1);
    NativeRequest::get("/ocean/v6/singer/list").params(p2)
}

/// The upstream request of `favorite_count`.
pub open spec fn favorite_count_request(p: JsonView, c: Clock) -> RequestView {
    let p0 = {
        let o = no_entries();
        let o = insert_entry(o, "mixsongids"@, param(p, "mixsongids"@));
        JsonView::Object(o)
    };
    request("/count/v1/audio/mget_collect"@, Method::Get).with_params(p0)
}

/// Describes the upstream request of `favorite_count`.
pub fn favorite_count(params: &JsonValue, c: Clock) -> (r: NativeRequest)
    ensures
        r@ == favorite_count_request(params@, c),
{
    let mut o1 = JsonObject::new();
    o1.insert("mixsongids".to_owned(), value(params, "mixsongids"));
    let p2 = JsonValue::Object(o1);
    NativeRequest::get("/count/v1/audio/mget_collect").params(p2)
}

/// The upstream request of `ip_dateil`.
pub open spec fn ip_dateil_request(p: JsonView, c: Clock) -> RequestView {
    let d0 = {
        let o = no_entries();
        let o = insert_entry(o, "data"@, csv_objects_view(p, "id"@, "ip_id"@));
        let o = insert_entry(o, "is_publish"@, num(1));
        JsonView::Object(o)
    };
    request("/openapi/v1/ip"@, Method::Post).with_data(d0)
}

/// Describes the upstream request of `ip_dateil`.
pub fn ip_dateil(params: &JsonValue, c: Clock) -> (r: NativeRequest)
    ensures
        r@ == ip_dateil_request(params@, c),
{
    let mut o1 = JsonObject::new();
    o1.insert("data".to_owned(), csv_objects(params, "id", "ip_id"));
    o1.insert("is_publish".to_owned(), JsonValue::unsigned(1));
    let d2 = JsonValue::Object(o1);
    NativeRequest::post("/openapi/v1/ip").data(d2)
}

/// The upstream request of `ip_playlist`.
pub open spec fn ip_playlist_request(p: JsonView, c: Clock) -> RequestView {
    let p0 = {
        let o = no_entries();
        let o = insert_entry(o, "ip"@, param(p, "id"@));
        let o = insert_entry(o, "page"@, param_or(p, "page"@, num(1)));
        let o = insert_entry(o, "pagesize"@, param_or(p, "pagesize"@, num(30)));
        JsonView::Object(o)
    };
    request("/ocean/v6/pubsongs/list_info_for_ip"@, Method::Post).with_params(p0)
}

/// Describes the upstream request of `ip_playlist`.
pub fn ip_playlist(params: &JsonValue, c: Clock) -> (r: NativeRequest)
    ensures
        r@ == ip_playlist_request(params@, c),
{
    let mut o1 = JsonObject::new();
    o1.insert("ip".to_owned(), value(params, "id"));
    o1.insert("page".to_owned(), value_or(params, "page", JsonValue::unsigned(1)));
    o1.insert("pagesize".to_owned(), value_or(params, "pagesize", JsonValue::unsigned(30)));
    let p2 = JsonValue::Object(o1);
    NativeRequest::post("/ocean/v6/pubsongs/list_info_for_ip").params(p2)
}

/// The upstream request of `ip_zone_home`.
pub open spec fn ip_zone_home_request(p: JsonView, c: Clock) -> RequestView {
    let p0 = {
        let o = no_entries();
        let o = insert_entry(o, "id"@, param(p, "id"@));
        let o = insert_entry(o, "share"@, num(0));
        JsonView::Object(o)
    };
    request("/v1/zone/home"@, Method::Get).with_params(p0).with_header("x-router"@, "yuekucategory.kugou.com"@)
}

/// Describes the upstream request of `ip_zone_home`.
pub fn ip_zone_home(params: &JsonValue, c: Clock) -> (r: NativeRequest)
    ensures
        r@ == ip_zone_home_request(params@, c),
{
    let mut o1 = JsonObject::new();
    o1.insert("id".to_owned(), value(params, "id"));
    o1.insert("share".to_owned(), JsonValue::unsigned(0));
    let p2 = JsonValue::Object(o1);
    NativeRequest::get("/v1/zone/home").params(p2).header("x-router", "yuekucategory.kugou.com")
}

/// The upstream request of `kmr_audio_mv`.
pub open spec fn kmr_audio_mv_request(p: JsonView, c: Clock) -> RequestView {
    let d0 = {
        let o = no_entries();
        let o = insert_entry(o, "data"@, csv_objects_view(p, "album_audio_id"@, "album_audio_id"@));
        let o = insert_entry(o, "fields"@, param_or(p, "fields"@, txt(""@)));
        JsonView::Object(o)
    };
    request("/kmr/v1/audio/mv"@, Method::Post).with_data(d0).with_header("x-router"@, "openapi.kugou.com"@).with_header("KG-TID"@, "38"@)
}

/// Describes the upstream request of `kmr_audio_mv`.
pub fn kmr_audio_mv(params: &JsonValue, c: Clock) -> (r: NativeRequest)
    ensures
        r@ == kmr_audio_mv_request(params@, c),
{
    let mut o1 = JsonObject::new();
    o1.insert("data".to_owned(), csv_objects(params, "album_audio_id", "album_audio_id"));
    o1.insert("fields".to_owned(), value_or(params, "fields", JsonValue::text("")));
    let d2 = JsonValue::Object(o1);
    NativeRequest::post("/kmr/v1/audio/mv").data(d2).header("x-router", "openapi.kugou.com").header("KG-TID", "38")
}

/// The upstream request of `krm_audio`.
pub open spec fn krm_audio_request(p: JsonView, c: Clock) -> RequestView {
    let d0 = {
        let o = no_entries();
        let o = insert_entry(o, "data"@, csv_number_objects_view(p, "album_audio_id"@, "entity_id"@));
        let o = insert_entry(o, "fields"@, param_or(p, "fields"@, txt("base"@)));
        JsonView::Object(o)
    };
    request("/kmr/v2/audio"@, Method::Post).with_data(d0).with_header("x-router"@, "openapi.kugou.com"@).with_header("KG-TID"@, "238"@)
}

/// Describes the upstream request of `krm_audio`.
pub fn krm_audio(params: &JsonValue, c: Clock) -> (r: NativeRequest)
    ensures
        r@ == krm_audio_request(params@, c),
{
    let mut o1 = JsonObject::new();
    o1.insert("data".to_owned(), csv_number_objects(params, "album_audio_id", "entity_id"));
    o1.insert("fields".to_owned(), value_or(params, "fields", JsonValue::text("base")));
    let d2 = JsonValue::Object(o1);
    NativeRequest::post("/kmr/v2/audio").data(d2).header("x-router", "openapi.kugou.com").header("KG-TID", "238")
}

/// The upstream request of `longaudio_album_audios`.
pub open spec fn longaudio_album_audios_request(p: JsonView, c: Clock) -> RequestView {
    let d0 = {
        let o = no_entries();
        let o = insert_entry(o, "album_id"@, param(p, "album_id"@));
        let o = insert_entry(o, "area_code"@, num(1));
        let o = insert_entry(o, "tagid"@, num(0));
        let o = insert_entry(o, "page"@, param_or(p, "page"@, num(1)));
        let o = insert_entry(o, "pagesize"@, param_or(p, "pagesize"@, num(30)));
        JsonView::Object(o)
    };
    request("/longaudio/v2/album_audios"@, Method::Post).with_data(d0).with_header("x-router"@, "openapi.kugou.com"@).with_header("KG-TID"@, "78"@)
}

/// Describes the upstream request of `longaudio_album_audios`.
pub fn longaudio_album_audios(params: &JsonValue, c: Clock) -> (r: NativeRequest)
    ensures
        r@ == longaudio_album_audios_request(params@, c),
{
    let mut o1 = JsonObject::new();
    o1.insert("album_id".to_owned(), value(params, "album_id"));
    o1.insert("area_code".to_owned(), JsonValue::unsigned(1));
    o1.insert("tagid".to_owned(), JsonValue::unsigned(0));
    o1.insert("page".to_owned(), value_or(params, "page", JsonValue::unsigned(1)));
    o1.insert("pagesize".to_owned(), value_or(params, "pagesize", JsonValue::unsigned(30)));
    let d2 = JsonValue::Object(o1);
    NativeRequest::post("/longaudio/v2/album_audios").data(d2).header("x-router", "openapi.kugou.com").header("KG-TID", "78")
}

/// The upstream request of `longaudio_album_detail`.
pub open spec fn longaudio_album_detail_request(p: JsonView, c: Clock) -> RequestView {
    let d0 = {
        let o = no_entries();
        let o = insert_entry(o, "data"@, csv_objects_view(p, "album_id"@, "album_id"@));
        let o = insert_entry(o, "show_album_tag"@, num(1));
        let o = insert_entry(o, "fields"@, txt("album_name,album_id,category,authors,sizable_cover,intro,author_name,trans_param,album_tag,mix_intro,full_intro,is_publish"@));
        JsonView::Object(o)
    };
    request("/openapi/v2/broadcast"@, Method::Post).with_data(d0).with_header("KG-TID"@, "78"@)
}

/// Describes the upstream request of `longaudio_album_detail`.
pub fn longaudio_album_detail(params: &JsonValue, c: Clock) -> (r: NativeRequest)
    ensures
        r@ == longaudio_album_detail_request(params@, c),
{
    let mut o1 = JsonObject::new();
    o1.insert("data".to_owned(), csv_objects(params, "album_id", "album_id"));
    o1.insert("show_album_tag".to_owned(), JsonValue::unsigned(1));
    o1.insert("fields".to_owned(), JsonValue::text("album_name,album_id,category,authors,sizable_cover,intro,author_name,trans_param,album_tag,mix_intro,full_intro,is_publish"));
    let d2 = JsonValue::Object(o1);
    NativeRequest::post("/openapi/v2/broadcast").data(d2).header("KG-TID", "78")
}

/// The upstream request of `longaudio_daily_recommend`.
pub open spec fn longaudio_daily_recommend_request(p: JsonView, c: Clock) -> RequestView {
    let p0 = {
        let o = no_entries();
        let o = insert_entry(o, "module_id"@, num(1));
        let o = insert_entry(o, "size"@, param_or(p, "pagesize"@, num(30)));
        let o = insert_entry(o, "page"@, param_or(p, "page"@, num(1)));
        JsonView::Object(o)
    };
    request("/longaudio/v1/home_new/daily_recommend"@, Method::Post).with_params(p0)
}

/// Describes the upstream request of `longaudio_daily_recommend`.
pub fn longaudio_daily_recommend(params: &JsonValue, c: Clock) -> (r: NativeRequest)
    ensures
        r@ == longaudio_daily_recommend_request(params@, c),
{
    let mut o1 = JsonObject::new();
    o1.insert("module_id".to_owned(), JsonValue::unsigned(1));
    o1.insert("size".to_owned(), value_or(params, "pagesize", JsonValue::unsigned(30)));
    o1.insert("page".to_owned(), value_or(params, "page", JsonValue::unsigned(1)));
    let p2 = JsonValue::Object(o1);
    NativeRequest::post("/longaudio/v1/home_new/daily_recommend").params(p2)
}

/// The upstream request of `longaudio_rank_recommend`.
pub open spec fn longaudio_rank_recommend_request(p: JsonView, c: Clock) -> RequestView {
    let p0 = {
        let o = no_entries();
        let o = insert_entry(o, "platform"@, txt("ios"@));
        JsonView::Object(o)
    };
    request("/longaudio/v1/home_new/rank_card_recommend"@, Method::Get).with_params(p0)
}

/// Describes the upstream request of `longaudio_rank_recommend`.
pub fn longaudio_rank_recommend(params: &JsonValue, c: Clock) -> (r: NativeRequest)
    ensures
        r@ == longaudio_rank_recommend_request(params@, c),
{
    let mut o1 = JsonObject::new();
    o1.insert("platform".to_owned(), JsonValue::text("ios"));
    let p2 = JsonValue::Object(o1);
    NativeRequest::get("/longaudio/v1/home_new/rank_card_recommend").params(p2)
}

/// The upstream request of `longaudio_vip_recommend`.
pub open spec fn longaudio_vip_recommend_request(p: JsonView, c: Clock) -> RequestView {
    let p0 = {
        let o = no_entries();
        let o = insert_entry(o, "position"@, txt("2"@));
        let o = insert_entry(o, "clientver"@, num(12329));
        JsonView::Object(o)
    };
    let d1 = {
        let o = no_entries();
        let o = insert_entry(o, "album_playlist"@, JsonView::Array(Seq::empty()));
        JsonView::Object(o)
    };
    request("/longaudio/v1/home_new/vip_select_recommend"@, Method::Post).with_params(p0).with_data(d1)
}

/// Describes the upstream request of `longaudio_vip_recommend`.
pub fn longaudio_vip_recommend(params: &JsonValue, c: Clock) -> (r: NativeRequest)
    ensures
        r@ == longaudio_vip_recommend_request(params@, c),
{
    let mut o1 = JsonObject::new();
    o1.insert("position".to_owned(), JsonValue::text("2"));
    o1.insert("clientver".to_owned(), JsonValue::unsigned(12329));
    let p2 = JsonValue::Object(o1);
    let mut o3 = JsonObject::new();
    o3.insert("album_playlist".to_owned(), array(no_items()));
    let d4 = JsonValue::Object(o3);
    NativeRequest::post("/longaudio/v1/home_new/vip_select_recommend").params(p2).data(d4)
}

/// The upstream request of `longaudio_week_recommend`.
pub open spec fn longaudio_week_recommend_request(p: JsonView, c: Clock) -> RequestView {
    let p0 = {
        let o = no_entries();
        let o = insert_entry(o, "clientver"@, num(12329));
        JsonView::Object(o)
    };
    let d1 = {
        let o = no_entries();
        let o = insert_entry(o, "album_playlist"@, JsonView::Array(Seq::empty()));
        JsonView::Object(o)
    };
    request("/longaudio/v1/home_new/week_new_albums_recommend"@, Method::Post).with_params(p0).with_data(d1)
}

/// Describes the upstream request of `longaudio_week_recommend`.
pub fn longaudio_week_recommend(params: &JsonValue, c: Clock) -> (r: NativeRequest)
    ensures
        r@ == longaudio_week_recommend_request(params@, c),
{
    let mut o1 = JsonObject::new();
    o1.insert("clientver".to_owned(), JsonValue::unsigned(12329));
    let p2 = JsonValue::Object(o1);
    let mut o3 = JsonObject::new();
    o3.insert("album_playlist".to_owned(), array(no_items()));
    let d4 = JsonValue::Object(o3);
    NativeRequest::post("/longaudio/v1/home_new/week_new_albums_recommend").params(p2).data(d4)
}

/// The upstream request of `sheet_collection`.
pub open spec fn sheet_collection_request(p: JsonView, c: Clock) -> RequestView {
    let p0 = {
        let o = no_entries();
        let o = insert_entry(o, "srcappid"@, num(2919));
        let o = insert_entry(o, "position"@, param_nullish(p, "position"@, num(2)));
        JsonView::Object(o)
    };
    request("/miniyueku/v1/opern_square/get_home_module_config"@, Method::Get).with_params(p0).signed(SignatureKind::Web)
}

/// Describes the upstream request of `sheet_collection`.
pub fn sheet_collection(params: &JsonValue, c: Clock) -> (r: NativeRequest)
    ensures
        r@ == sheet_collection_request(params@, c),
{
    let mut o1 = JsonObject::new();
    o1.insert("srcappid".to_owned(), JsonValue::unsigned(2919));
    o1.insert("position".to_owned(), value_nullish(params, "position", JsonValue::unsigned(2)));
    let p2 = JsonValue::Object(o1);
    NativeRequest::get("/miniyueku/v1/opern_square/get_home_module_config").params(p2).web()
}

/// The upstream request of `sheet_explore`.
pub open spec fn sheet_explore_request(p: JsonView, c: Clock) -> RequestView {
    let p0 = {
        let o = no_entries();
        let o = insert_entry(o, "pagesize"@, param_or(p, "pagesize"@, num(30)));
        let o = insert_entry(o, "page"@, param_or(p, "page"@, num(1)));
        let o = insert_entry(o, "opern_level"@, param_or(p, "level"@, num(0)));
        let o = insert_entry(o, "instruments"@, param_or(p, "instruments"@, num(1)));
        let o = insert_entry(o, "tagid"@, param_or(p, "tagid"@, num(0)));
        JsonView::Object(o)
    };
    let d1 = {
        let o = no_entries();
        let o = insert_entry(o, "exposure_mixids"@, txt(""@));
        JsonView::Object(o)
    };
    request("/opern/v1/home/get_rec_opern"@, Method::Post).with_params(p0).with_data(d1)
}

/// Describes the upstream request of `sheet_explore`.
pub fn sheet_explore(params: &JsonValue, c: Clock) -> (r: NativeRequest)
    ensures
        r@ == sheet_explore_request(params@, c),
{
    let mut o1 = JsonObject::new();
    o1.insert("pagesize".to_owned(), value_or(params, "pagesize", JsonValue::unsigned(30)));
    o1.insert("page".to_owned(), value_or(params, "page", JsonValue::unsigned(1)));
    o1.insert("opern_level".to_owned(), value_or(params, "level", JsonValue::unsigned(0)));
    o1.insert("instruments".to_owned(), value_or(params, "instruments", JsonValue::unsigned(1)));
    o1.insert("tagid".to_owned(), value_or(params, "tagid", JsonValue::unsigned(0)));
    let p2 = JsonValue::Object(o1);
    let mut o3 = JsonObject::new();
    o3.insert("exposure_mixids".to_owned(), JsonValue::text(""));
    let d4 = JsonValue::Object(o3);
    NativeRequest::post("/opern/v1/home/get_rec_opern").params(p2).data(d4)
}

/// The upstream request of `sheet_rank`.
pub open spec fn sheet_rank_request(p: JsonView, c: Clock) -> RequestView {
    let p0 = {
        let o = no_entries();
        let o = insert_entry(o, "pagesize"@, param_or(p, "pagesize"@, num(30)));
        let o = insert_entry(o, "page"@, param_or(p, "page"@, num(1)));
        let o = insert_entry(o, "opern_level"@, param_or(p, "level"@, num(0)));
        let o = insert_entry(o, "instruments"@, param_or(p, "instruments"@, num(1)));
        let o = insert_entry(o, "tagid"@, param_or(p, "tagid"@, num(0)));
        JsonView::Object(o)
    };
    request("/opern/v1/home/get_rank_opern"@, Method::Post).with_params(p0)
}

/// Describes the upstream request of `sheet_rank`.
pub fn sheet_rank(params: &JsonValue, c: Clock) -> (r: NativeRequest)
    ensures
        r@ == sheet_rank_request(params@, c),
{
    let mut o1 = JsonObject::new();
    o1.insert("pagesize".to_owned(), value_or(params, "pagesize", JsonValue::unsigned(30)));
    o1.insert("page".to_owned(), value_or(params, "page", JsonValue::unsigned(1)));
    o1.insert("opern_level".to_owned(), value_or(params, "level", JsonValue::unsigned(0)));
    o1.insert("instruments".to_owned(), value_or(params, "instruments", JsonValue::unsigned(1)));
    o1.insert("tagid".to_owned(), value_or(params, "tagid", JsonValue::unsigned(0)));
    let p2 = JsonValue::Object(o1);
    NativeRequest::post("/opern/v1/home/get_rank_opern").params(p2)
}

/// The upstream request of `sheet_song`.
pub open spec fn sheet_song_request(p: JsonView, c: Clock) -> RequestView {
    let p0 = {
        let o = no_entries();
        let o = insert_entry(o, "mixsongid"@, param(p, "album_audio_id"@));
        let o = insert_entry(o, "instruments"@, param_nullish(p, "instruments"@, num(1)));
        let o = insert_entry(o, "opern_level"@, param_nullish(p, "level"@, num(0)));
        JsonView::Object(o)
    };
    request("/opern/v1/detail/song_info"@, Method::Get).with_params(p0)
}

/// Describes the upstream request of `sheet_song`.
pub fn sheet_song(params: &JsonValue, c: Clock) -> (r: NativeRequest)
    ensures
        r@ == sheet_song_request(params@, c),
{
    let mut o1 = JsonObject::new();
    o1.insert("mixsongid".to_owned(), value(params, "album_audio_id"));
    o1.insert("instruments".to_owned(), value_nullish(params, "instruments", JsonValue::unsigned(1)));
    o1.insert("opern_level".to_owned(), value_nullish(params, "level", JsonValue::unsigned(0)));
    let p2 = JsonValue::Object(o1);
    NativeRequest::get("/opern/v1/detail/song_info").params(p2)
}

/// The upstream request of `sheet_detail`.
pub open spec fn sheet_detail_request(p: JsonView, c: Clock) -> RequestView {
    let p0 = {
        let o = no_entries();
        let o = insert_entry(o, "opern_id"@, param(p, "id"@));
        JsonView::Object(o)
    };
    request("/opern/v1/detail/info"@, Method::Get).with_params(p0)
}

/// Describes the upstream request of `sheet_detail`.
pub fn sheet_detail(params: &JsonValue, c: Clock) -> (r: NativeRequest)
    ensures
        r@ == sheet_detail_request(params@, c),
{
    let mut o1 = JsonObject::new();
    o1.insert("opern_id".to_owned(), value(params, "id"));
    let p2 = JsonValue::Object(o1);
    NativeRequest::get("/opern/v1/detail/info").params(p2)
}

/// The upstream request of `sheet_tags`.
pub open spec fn sheet_tags_request(p: JsonView, c: Clock) -> RequestView {
    request("/opern/v1/home/get_tags"@, Method::Get)
}

/// Describes the upstream request of `sheet_tags`.
pub fn sheet_tags(params: &JsonValue, c: Clock) -> (r: NativeRequest)
    ensures
        r@ == sheet_tags_request(params@, c),
{
    NativeRequest::get("/opern/v1/home/get_tags")
}

/// The upstream request of `singer_list`.
pub open spec fn singer_list_request(p: JsonView, c: Clock) -> RequestView {
    let p0 = {
        let o = no_entries();
        let o = insert_entry(o, "hotsize"@, param_nullish(p, "hotsize"@, num(200)));
        let o = insert_entry(o, "musician"@, num(0));
        let o = insert_entry(o, "sextype"@, param_nullish(p, "sextype"@, num(0)));
        let o = insert_entry(o, "showtype"@, num(2));
        let o = insert_entry(o, "type"@, param_nullish(p, "type"@, num(0)));
        JsonView::Object(o)
    };
    request("/ocean/v6/singer/list"@, Method::Get).with_params(p0)
}

/// Describes the upstream request of `singer_list`.
pub fn singer_list(params: &JsonValue, c: Clock) -> (r: NativeRequest)
    ensures
        r@ == singer_list_request(params@, c),
{
    let mut o1 = JsonObject::new();
    o1.insert("hotsize".to_owned(), value_nullish(params, "hotsize", JsonValue::unsigned(200)));
    o1.insert("musician".to_owned(), JsonValue::unsigned(0));
    o1.insert("sextype".to_owned(), value_nullish(params, "sextype", JsonValue::unsigned(0)));
    o1.insert("showtype".to_owned(), JsonValue::unsigned(2));
    o1.insert("type".to_owned(), value_nullish(params, "type", JsonValue::unsigned(0)));
    let p2 = JsonValue::Object(o1);
    NativeRequest::get("/ocean/v6/singer/list").params(p2)
}

/// The upstream request of `song_ranking`.
pub open spec fn song_ranking_request(p: JsonView, c: Clock) -> RequestView {
    let p0 = {
        let o = no_entries();
        let o = insert_entry(o, "album_audio_id"@, param(p, "album_audio_id"@));
        JsonView::Object(o)
    };
    request("/grow/v1/song_ranking/play_page/ranking_info"@, Method::Get).with_params(p0)
}

/// Describes the upstream request of `song_ranking`.
pub fn song_ranking(params: &JsonValue, c: Clock) -> (r: NativeRequest)
    ensures
        r@ == song_ranking_request(params@, c),
{
    let mut o1 = JsonObject::new();
    o1.insert("album_audio_id".to_owned(), value(params, "album_audio_id"));
    let p2 = JsonValue::Object(o1);
    NativeRequest::get("/grow/v1/song_ranking/play_page/ranking_info").params(p2)
}

/// The upstream request of `song_ranking_filter`.
pub open spec fn song_ranking_filter_request(p: JsonView, c: Clock) -> RequestView {
    let p0 = {
        let o = no_entries();
        let o = insert_entry(o, "album_audio_id"@, param(p, "album_audio_id"@));
        let o = insert_entry(o, "page"@, param_or(p, "page"@, num(1)));
        let o = insert_entry(o, "pagesize"@, param_or(p, "pagesize"@, num(30)));
        JsonView::Object(o)
    };
    request("/grow/v1/song_ranking/unlock/v2/ranking_filter"@, Method::Get).with_params(p0)
}

/// Describes the upstream request of `song_ranking_filter`.
pub fn song_ranking_filter(params: &JsonValue, c: Clock) -> (r: NativeRequest)
    ensures
        r@ == song_ranking_filter_request(params@, c),
{
    let mut o1 = JsonObject::new();
    o1.insert("album_audio_id".to_owned(), value(params, "album_audio_id"));
    o1.insert("page".to_owned(), value_or(params, "page", JsonValue::unsigned(1)));
    o1.insert("pagesize".to_owned(), value_or(params, "pagesize", JsonValue::unsigned(30)));
    let p2 = JsonValue::Object(o1);
    NativeRequest::get("/grow/v1/song_ranking/unlock/v2/ranking_filter").params(p2)
}

/// The upstream request of `video_url`.
pub open spec fn video_url_request(p: JsonView, c: Clock) -> RequestView {
    let p0 = {
        let o = no_entries();
        let o = insert_entry(o, "backupdomain"@, num(1));
        let o = insert_entry(o, "cmd"@, num(123));
        let o = insert_entry(o, "ext"@, txt("mp4"@));
        let o = insert_entry(o, "ismp3"@, num(0));
        let o = insert_entry(o, "hash"@, param(p, "hash"@));
        let o = insert_entry(o, "pid"@, num(1));
        let o = insert_entry(o, "type"@, num(1));
        JsonView::Object(o)
    };
    request("/v2/interface/index"@, Method::Get).with_params(p0).keyed().with_header("x-router"@, "trackermv.kugou.com"@)
}

/// Describes the upstream request of `video_url`.
pub fn video_url(params: &JsonValue, c: Clock) -> (r: NativeRequest)
    ensures
        r@ == video_url_request(params@, c),
{
    let mut o1 = JsonObject::new();
    o1.insert("backupdomain".to_owned(), JsonValue::unsigned(1));
    o1.insert("cmd".to_owned(), JsonValue::unsigned(123));
    o1.insert("ext".to_owned(), JsonValue::text("mp4"));
    o1.insert("ismp3".to_owned(), JsonValue::unsigned(0));
    o1.insert("hash".to_owned(), value(params, "hash"));
    o1.insert("pid".to_owned(), JsonValue::unsigned(1));
    o1.insert("type".to_owned(), JsonValue::unsigned(1));
    let p2 = JsonValue::Object(o1);
    NativeRequest::get("/v2/interface/index").params(p2).encrypt_key().header("x-router", "trackermv.kugou.com")
}

/// The request a module of this group describes, if it is one of them.
#[verifier::opaque]
pub open spec fn requested(m: Seq<char>, p: JsonView, c: Clock) -> Option<RequestView> {
    if m == "album_detail"@ {
        Some(album_detail_request(p, c))
    } else if m == "album_shop"@ {
        Some(album_shop_request(p, c))
    } else if m == "album_songs"@ {
        Some(album_songs_request(p, c))
    } else if m == "artist_detail"@ {
        Some(artist_detail_request(p, c))
    } else if m == "artist_honour"@ {
        Some(artist_honour_request(p, c))
    } else if m == "artist_lists"@ {
        Some(artist_lists_request(p, c))
    } else if m == "favorite_count"@ {
        Some(favorite_count_request(p, c))
    } else if m == "ip_dateil"@ {
        Some(ip_dateil_request(p, c))
    } else if m == "ip_playlist"@ {
        Some(ip_playlist_request(p, c))
    } else if m == "ip_zone_home"@ {
        Some(ip_zone_home_request(p, c))
    } else if m == "kmr_audio_mv"@ {
        Some(kmr_audio_mv_request(p, c))
    } else if m == "krm_audio"@ {
        Some(krm_audio_request(p, c))
    } else if m == "longaudio_album_audios"@ {
        Some(longaudio_album_audios_request(p, c))
    } else if m == "longaudio_album_detail"@ {
        Some(longaudio_album_detail_request(p, c))
    } else if m == "longaudio_daily_recommend"@ {
        Some(longaudio_daily_recommend_request(p, c))
    } else if m == "longaudio_rank_recommend"@ {
        Some(longaudio_rank_recommend_request(p, c))
    } else if m == "longaudio_vip_recommend"@ {
        Some(longaudio_vip_recommend_request(p, c))
    } else if m == "longaudio_week_recommend"@ {
        Some(longaudio_week_recommend_request(p, c))
    } else if m == "sheet_collection"@ {
        Some(sheet_collection_request(p, c))
    } else if m == "sheet_detail"@ {
        Some(sheet_detail_request(p, c))
    } else if m == "sheet_explore"@ {
        Some(sheet_explore_request(p, c))
    } else if m == "sheet_rank"@ {
        Some(sheet_rank_request(p, c))
    } else if m == "sheet_song"@ {
        Some(sheet_song_request(p, c))
    } else if m == "sheet_tags"@ {
        Some(sheet_tags_request(p, c))
    } else if m == "singer_list"@ {
        Some(singer_list_request(p, c))
    } else if m == "song_ranking"@ {
        Some(song_ranking_request(p, c))
    } else if m == "song_ranking_filter"@ {
        Some(song_ranking_filter_request(p, c))
    } else if m == "video_url"@ {
        Some(video_url_request(p, c))
    } else {
        None
    }
}

/// The request a module of this group describes (see [`requested`]).
pub fn request_for(module: &str, params: &JsonValue, c: Clock) -> (r: Option<NativeRequest>)
    ensures
        match r {
            Some(q) => requested(module@, params@, c) == Some(q@),
            None => requested(module@, params@, c) is None,
        },
{
    reveal(requested);
    if str_eq(module, "album_detail") {
        return Some(album_detail(params, c));
    }
    if str_eq(module, "album_shop") {
        return Some(album_shop(params, c));
    }
    if str_eq(module, "album_songs") {
        return Some(album_songs(params, c));
    }
    if str_eq(module, "artist_detail") {
        return Some(artist_detail(params, c));
    }
    if str_eq(module, "artist_honour") {
        return Some(artist_honour(params, c));
    }
    if str_eq(module, "artist_lists") {
        return Some(artist_lists(params, c));
    }
    if str_eq(module, "favorite_count") {
        return Some(favorite_count(params, c));
    }
    if str_eq(module, "ip_dateil") {
        return Some(ip_dateil(params, c));
    }
    if str_eq(module, "ip_playlist") {
        return Some(ip_playlist(params, c));
    }
    if str_eq(module, "ip_zone_home") {
        return Some(ip_zone_home(params, c));
    }
    if str_eq(module, "kmr_audio_mv") {
        return Some(kmr_audio_mv(params, c));
    }
    if str_eq(module, "krm_audio") {
        return Some(krm_audio(params, c));
    }
    if str_eq(module, "longaudio_album_audios") {
        return Some(longaudio_album_audios(params, c));
    }
    if str_eq(module, "longaudio_album_detail") {
        return Some(longaudio_album_detail(params, c));
    }
    if str_eq(module, "longaudio_daily_recommend") {
        return Some(longaudio_daily_recommend(params, c));
    }
    if str_eq(module, "longaudio_rank_recommend") {
        return Some(longaudio_rank_recommend(params, c));
    }
    if str_eq(module, "longaudio_vip_recommend") {
        return Some(longaudio_vip_recommend(params, c));
    }
    if str_eq(module, "longaudio_week_recommend") {
        return Some(longaudio_week_recommend(params, c));
    }
    if str_eq(module, "sheet_collection") {
        return Some(sheet_collection(params, c));
    }
    if str_eq(module, "sheet_detail") {
        return Some(sheet_detail(params, c));
    }
    if str_eq(module, "sheet_explore") {
        return Some(sheet_explore(params, c));
    }
    if str_eq(module, "sheet_rank") {
        return Some(sheet_rank(params, c));
    }
    if str_eq(module, "sheet_song") {
        return Some(sheet_song(params, c));
    }
    if str_eq(module, "sheet_tags") {
        return Some(sheet_tags(params, c));
    }
    if str_eq(module, "singer_list") {
        return Some(singer_list(params, c));
    }
    if str_eq(module, "song_ranking") {
        return Some(song_ranking(params, c));
    }
    if str_eq(module, "song_ranking_filter") {
        return Some(song_ranking_filter(params, c));
    }
    if str_eq(module, "video_url") {
        return Some(video_url(params, c));
    }
    None
}

/// Whether `m` is one of the modules described here.
pub open spec fn handles(m: Seq<char>) -> bool {
    m == "album_detail"@
        || m == "album_shop"@
        || m == "album_songs"@
        || m == "artist_detail"@
        || m == "artist_honour"@
        || m == "artist_lists"@
        || m == "favorite_count"@
        || m == "ip_dateil"@
        || m == "ip_playlist"@
        || m == "ip_zone_home"@
        || m == "kmr_audio_mv"@
        || m == "krm_audio"@
        || m == "longaudio_album_audios"@
        || m == "longaudio_album_detail"@
        || m == "longaudio_daily_recommend"@
        || m == "longaudio_rank_recommend"@
        || m == "longaudio_vip_recommend"@
        || m == "longaudio_week_recommend"@
        || m == "sheet_collection"@
        || m == "sheet_detail"@
        || m == "sheet_explore"@
        || m == "sheet_rank"@
        || m == "sheet_song"@
        || m == "sheet_tags"@
        || m == "singer_list"@
        || m == "song_ranking"@
        || m == "song_ranking_filter"@
        || m == "video_url"@
}

/// Each module described here has a request.
pub proof fn lemma_handled_requested(m: Seq<char>, p: JsonView, c: Clock)
    requires
        handles(m),
    ensures
        requested(m, p, c) is Some,
{
    reveal(requested);
}

} // verus!
