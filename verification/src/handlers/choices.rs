//! Requests whose path, method or fields depend on what the parameters say.
use crate::handlers::{
    appid_value, array, clientver_value, cookie_or, flag, flag_value, no_entries, no_items, num,
    or_default, param_is, param_text_is, truthy_param, truthy_value, txt, Clock,
};
use crate::js::{is_zero_value, js_number, js_string, js_text, number_is_zero, number_value};
use crate::json::{get_field, insert_entry, view_as_i64, JsonObject, JsonValue, JsonView};
use crate::params::{
    cookie, cookie_or_param, cookie_then_param, csv_objects, csv_objects_view, param,
    param_nullish, param_or, param_or_cookie, param_then_cookie, value, value_nullish, value_or,
};
use crate::signing::{params_key, platform_appid, platform_clientver, platform_numbers, sign_params_key};
use crate::text::{decimal, lower_case, lowercase, str_eq, u128_text};
use crate::upstream::{request, Method, NativeRequest, RequestView, SignatureKind};
use vstd::prelude::*;

verus! {

/// 3 for `sort=hot`, else 1.
pub open spec fn album_sort(p: JsonView) -> JsonView {
    if param_is(p, "sort"@, "hot"@) {
        num(3)
    } else {
        num(1)
    }
}

/// The upstream request of `artist_albums`.
pub open spec fn artist_albums_request(p: JsonView, c: Clock) -> RequestView {
    let o = no_entries();
    let o = insert_entry(o, "author_id"@, param(p, "id"@));
    let o = insert_entry(o, "pagesize"@, param_or(p, "pagesize"@, num(30)));
    let o = insert_entry(o, "page"@, param_or(p, "page"@, num(1)));
    let o = insert_entry(o, "sort"@, album_sort(p));
    let o = insert_entry(o, "category"@, num(1));
    let o = insert_entry(o, "area_code"@, txt("all"@));
    request("/kmr/v1/author/albums"@, Method::Post).with_data(JsonView::Object(o)).with_header(
        "x-router"@,
        "openapi.kugou.com"@,
    ).with_header("kg-tid"@, "36"@)
}

/// Describes the upstream request of `artist_albums`.
pub fn artist_albums(params: &JsonValue, c: Clock) -> (r: NativeRequest)
    ensures
        r@ == artist_albums_request(params@, c),
{
    let sort = if param_text_is(params, "sort", "hot") {
        3
    } else {
        1
    };
    let mut o = JsonObject::new();
    o.insert("author_id".to_owned(), value(params, "id"));
    o.insert("pagesize".to_owned(), value_or(params, "pagesize", JsonValue::unsigned(30)));
    o.insert("page".to_owned(), value_or(params, "page", JsonValue::unsigned(1)));
    o.insert("sort".to_owned(), JsonValue::unsigned(sort));
    o.insert("category".to_owned(), JsonValue::unsigned(1));
    o.insert("area_code".to_owned(), JsonValue::text("all"));
    NativeRequest::post("/kmr/v1/author/albums").data(JsonValue::Object(o)).header(
        "x-router",
        "openapi.kugou.com",
    ).header("kg-tid", "36")
}

/// The upstream request of `artist_audios`.
pub open spec fn artist_audios_request(p: JsonView, c: Clock) -> RequestView {
    let secs = c.now_ms / 1000;
    let o = no_entries();
    let o = insert_entry(o, "appid"@, num(platform_appid(c.lite)));
    let o = insert_entry(o, "clientver"@, num(platform_clientver(c.lite)));
    let o = insert_entry(o, "mid"@, or_default(cookie(p, "KUGOU_API_MID"@), JsonView::Null));
    let o = insert_entry(o, "clienttime"@, num(secs));
    let o = insert_entry(o, "key"@, txt(params_key(decimal(secs as nat), c.lite)));
    let o = insert_entry(o, "author_id"@, param(p, "id"@));
    let o = insert_entry(o, "pagesize"@, param_or(p, "pagesize"@, num(30)));
    let o = insert_entry(o, "page"@, param_or(p, "page"@, num(1)));
    let o = insert_entry(
        o,
        "sort"@,
        if param_is(p, "sort"@, "hot"@) {
            num(1)
        } else {
            num(2)
        },
    );
    let o = insert_entry(o, "area_code"@, txt("all"@));
    request("/kmr/v1/audio_group/author"@, Method::Post).with_base_url(
        "https://openapi.kugou.com"@,
    ).with_data(JsonView::Object(o)).with_header("x-router"@, "openapi.kugou.com"@).with_header(
        "kg-tid"@,
        "220"@,
    )
}

/// Describes the upstream request of `artist_audios`.
pub fn artist_audios(params: &JsonValue, c: Clock) -> (r: NativeRequest)
    ensures
        r@ == artist_audios_request(params@, c),
{
    let secs = c.now_ms / 1000;
    let sort = if param_text_is(params, "sort", "hot") {
        1
    } else {
        2
    };
    let mut o = JsonObject::new();
    o.insert("appid".to_owned(), appid_value(c));
    o.insert("clientver".to_owned(), clientver_value(c));
    o.insert("mid".to_owned(), cookie_or(params, "KUGOU_API_MID", JsonValue::Null));
    o.insert("clienttime".to_owned(), JsonValue::unsigned(secs));
    o.insert("key".to_owned(), JsonValue::Str(sign_params_key(secs, c.lite)));
    o.insert("author_id".to_owned(), value(params, "id"));
    o.insert("pagesize".to_owned(), value_or(params, "pagesize", JsonValue::unsigned(30)));
    o.insert("page".to_owned(), value_or(params, "page", JsonValue::unsigned(1)));
    o.insert("sort".to_owned(), JsonValue::unsigned(sort));
    o.insert("area_code".to_owned(), JsonValue::text("all"));
    NativeRequest::post("/kmr/v1/audio_group/author").base_url("https://openapi.kugou.com").data(
        JsonValue::Object(o),
    ).header("x-router", "openapi.kugou.com").header("kg-tid", "220")
}

/// 2 when `opt_sort` is the integer 2, else 1.
pub open spec fn opt_sort(p: JsonView) -> JsonView {
    match get_field(p, "opt_sort"@) {
        Some(v) => if view_as_i64(v) == Some(2i64) {
            num(2)
        } else {
            num(1)
        },
        None => num(1),
    }
}

/// The upstream request of `artist_follow_newsongs`.
pub open spec fn artist_follow_newsongs_request(p: JsonView, c: Clock) -> RequestView {
    let last = param_or(p, "last_album_id"@, num(0));
    let q = no_entries();
    let q = insert_entry(q, "last_album_id"@, last);
    let q = insert_entry(q, "page_size"@, param_or(p, "pagesize"@, num(30)));
    let q = insert_entry(q, "opt_sort"@, opt_sort(p));
    let d = insert_entry(no_entries(), "last_album_id"@, last);
    request("/feed/v1/follow/newsong_album_list"@, Method::Post).with_params(JsonView::Object(q)).with_data(
        JsonView::Object(d),
    )
}

/// Describes the upstream request of `artist_follow_newsongs`.
pub fn artist_follow_newsongs(params: &JsonValue, c: Clock) -> (r: NativeRequest)
    ensures
        r@ == artist_follow_newsongs_request(params@, c),
{
    let sort = match params.get("opt_sort") {
        Some(v) => if v.as_i64() == Some(2i64) {
            2
        } else {
            1
        },
        None => 1,
    };
    let mut q = JsonObject::new();
    q.insert("last_album_id".to_owned(), value_or(params, "last_album_id", JsonValue::unsigned(0)));
    q.insert("page_size".to_owned(), value_or(params, "pagesize", JsonValue::unsigned(30)));
    q.insert("opt_sort".to_owned(), JsonValue::unsigned(sort));
    let mut d = JsonObject::new();
    d.insert("last_album_id".to_owned(), value_or(params, "last_album_id", JsonValue::unsigned(0)));
    NativeRequest::post("/feed/v1/follow/newsong_album_list").params(JsonValue::Object(q)).data(
        JsonValue::Object(d),
    )
}

/// The video tag index for `tag`.
pub open spec fn video_tag(p: JsonView) -> JsonView {
    if param_is(p, "tag"@, "official"@) {
        num(18)
    } else if param_is(p, "tag"@, "live"@) {
        num(20)
    } else if param_is(p, "tag"@, "fan"@) {
        num(23)
    } else if param_is(p, "tag"@, "artist"@) {
        num(42419)
    } else {
        txt(""@)
    }
}

/// The upstream request of `artist_videos`.
pub open spec fn artist_videos_request(p: JsonView, c: Clock) -> RequestView {
    let q = no_entries();
    let q = insert_entry(q, "author_id"@, param(p, "id"@));
    let q = insert_entry(q, "is_fanmade"@, txt(""@));
    let q = insert_entry(q, "tag_idx"@, video_tag(p));
    let q = insert_entry(q, "pagesize"@, param_or(p, "pagesize"@, num(30)));
    let q = insert_entry(q, "page"@, param_or(p, "page"@, num(1)));
    request("/kmr/v1/author/videos"@, Method::Get).with_base_url("https://openapicdn.kugou.com"@).with_params(
        JsonView::Object(q),
    )
}

/// Describes the upstream request of `artist_videos`.
pub fn artist_videos(params: &JsonValue, c: Clock) -> (r: NativeRequest)
    ensures
        r@ == artist_videos_request(params@, c),
{
    let tag = if param_text_is(params, "tag", "official") {
        JsonValue::unsigned(18)
    } else if param_text_is(params, "tag", "live") {
        JsonValue::unsigned(20)
    } else if param_text_is(params, "tag", "fan") {
        JsonValue::unsigned(23)
    } else if param_text_is(params, "tag", "artist") {
        JsonValue::unsigned(42419)
    } else {
        JsonValue::text("")
    };
    let mut q = JsonObject::new();
    q.insert("author_id".to_owned(), value(params, "id"));
    q.insert("is_fanmade".to_owned(), JsonValue::text(""));
    q.insert("tag_idx".to_owned(), tag);
    q.insert("pagesize".to_owned(), value_or(params, "pagesize", JsonValue::unsigned(30)));
    q.insert("page".to_owned(), value_or(params, "page", JsonValue::unsigned(1)));
    NativeRequest::get("/kmr/v1/author/videos").base_url("https://openapicdn.kugou.com").params(
        JsonValue::Object(q),
    )
}

/// The IP listing path for `type`.
pub open spec fn ip_path(p: JsonView) -> Seq<char> {
    if param_is(p, "type"@, "albums"@) {
        "/openapi/v1/ip/albums"@
    } else if param_is(p, "type"@, "videos"@) {
        "/openapi/v1/ip/videos"@
    } else if param_is(p, "type"@, "author_list"@) {
        "/openapi/v1/ip/author_list"@
    } else {
        "/openapi/v1/ip/audios"@
    }
}

/// The upstream request of `ip`.
pub open spec fn ip_request(p: JsonView, c: Clock) -> RequestView {
    let d = no_entries();
    let d = insert_entry(d, "is_publish"@, num(1));
    let d = insert_entry(d, "ip_id"@, param(p, "id"@));
    let d = insert_entry(d, "sort"@, num(3));
    let d = insert_entry(d, "page"@, param_or(p, "page"@, num(1)));
    let d = insert_entry(d, "pagesize"@, param_or(p, "pagesize"@, num(30)));
    let d = insert_entry(d, "query"@, num(1));
    request(ip_path(p), Method::Post).with_data(JsonView::Object(d))
}

/// Describes the upstream request of `ip`.
pub fn ip(params: &JsonValue, c: Clock) -> (r: NativeRequest)
    ensures
        r@ == ip_request(params@, c),
{
    let path = if param_text_is(params, "type", "albums") {
        "/openapi/v1/ip/albums"
    } else if param_text_is(params, "type", "videos") {
        "/openapi/v1/ip/videos"
    } else if param_text_is(params, "type", "author_list") {
        "/openapi/v1/ip/author_list"
    } else {
        "/openapi/v1/ip/audios"
    };
    let mut d = JsonObject::new();
    d.insert("is_publish".to_owned(), JsonValue::unsigned(1));
    d.insert("ip_id".to_owned(), value(params, "id"));
    d.insert("sort".to_owned(), JsonValue::unsigned(3));
    d.insert("page".to_owned(), value_or(params, "page", JsonValue::unsigned(1)));
    d.insert("pagesize".to_owned(), value_or(params, "pagesize", JsonValue::unsigned(30)));
    d.insert("query".to_owned(), JsonValue::unsigned(1));
    NativeRequest::post(path).data(JsonValue::Object(d))
}

/// The search path for `type`.
pub open spec fn search_path(p: JsonView) -> Seq<char> {
    if param_is(p, "type"@, "special"@) {
        "/v1/search/special"@
    } else if param_is(p, "type"@, "lyric"@) {
        "/v1/search/lyric"@
    } else if param_is(p, "type"@, "album"@) {
        "/v1/search/album"@
    } else if param_is(p, "type"@, "author"@) {
        "/v1/search/author"@
    } else if param_is(p, "type"@, "mv"@) {
        "/v1/search/mv"@
    } else {
        "/v3/search/song"@
    }
}

/// The upstream request of `search`.
pub open spec fn search_request(p: JsonView, c: Clock) -> RequestView {
    let q = no_entries();
    let q = insert_entry(q, "albumhide"@, num(0));
    let q = insert_entry(q, "iscorrection"@, num(1));
    let q = insert_entry(q, "keyword"@, param_or(p, "keywords"@, txt(""@)));
    let q = insert_entry(q, "nocollect"@, num(0));
    let q = insert_entry(q, "page"@, param_or(p, "page"@, num(1)));
    let q = insert_entry(q, "pagesize"@, param_or(p, "pagesize"@, num(30)));
    let q = insert_entry(q, "platform"@, txt("AndroidFilter"@));
    request(search_path(p), Method::Get).with_params(JsonView::Object(q)).with_header(
        "x-router"@,
        "complexsearch.kugou.com"@,
    )
}

/// Describes the upstream request of `search`.
pub fn search(params: &JsonValue, c: Clock) -> (r: NativeRequest)
    ensures
        r@ == search_request(params@, c),
{
    let path = if param_text_is(params, "type", "special") {
        "/v1/search/special"
    } else if param_text_is(params, "type", "lyric") {
        "/v1/search/lyric"
    } else if param_text_is(params, "type", "album") {
        "/v1/search/album"
    } else if param_text_is(params, "type", "author") {
        "/v1/search/author"
    } else if param_text_is(params, "type", "mv") {
        "/v1/search/mv"
    } else {
        "/v3/search/song"
    };
    let mut q = JsonObject::new();
    q.insert("albumhide".to_owned(), JsonValue::unsigned(0));
    q.insert("iscorrection".to_owned(), JsonValue::unsigned(1));
    q.insert("keyword".to_owned(), value_or(params, "keywords", JsonValue::text("")));
    q.insert("nocollect".to_owned(), JsonValue::unsigned(0));
    q.insert("page".to_owned(), value_or(params, "page", JsonValue::unsigned(1)));
    q.insert("pagesize".to_owned(), value_or(params, "pagesize", JsonValue::unsigned(30)));
    q.insert("platform".to_owned(), JsonValue::text("AndroidFilter"));
    NativeRequest::get(path).params(JsonValue::Object(q)).header("x-router", "complexsearch.kugou.com")
}

/// 2 for `sort=hot`, 3 for `sort=new`, else 1.
pub open spec fn scene_sort(p: JsonView) -> JsonView {
    if param_is(p, "sort"@, "hot"@) {
        num(2)
    } else if param_is(p, "sort"@, "new"@) {
        num(3)
    } else {
        num(1)
    }
}

/// The upstream request of `scene_lists_v2`.
pub open spec fn scene_lists_v2_request(p: JsonView, c: Clock) -> RequestView {
    let q = no_entries();
    let q = insert_entry(q, "scene_id"@, param(p, "id"@));
    let q = insert_entry(q, "page"@, param_or(p, "page"@, num(1)));
    let q = insert_entry(q, "pagesize"@, param_or(p, "pagesize"@, num(30)));
    let q = insert_entry(q, "sort_type"@, scene_sort(p));
    let q = insert_entry(q, "kugouid"@, param_then_cookie(p, "userid"@, txt("0"@)));
    let d = insert_entry(no_entries(), "exposure"@, JsonView::Array(Seq::empty()));
    request("/scene/v1/scene/list_v2"@, Method::Post).with_params(JsonView::Object(q)).with_data(
        JsonView::Object(d),
    )
}

/// Describes the upstream request of `scene_lists_v2`.
pub fn scene_lists_v2(params: &JsonValue, c: Clock) -> (r: NativeRequest)
    ensures
        r@ == scene_lists_v2_request(params@, c),
{
    let sort = if param_text_is(params, "sort", "hot") {
        2
    } else if param_text_is(params, "sort", "new") {
        3
    } else {
        1
    };
    let mut q = JsonObject::new();
    q.insert("scene_id".to_owned(), value(params, "id"));
    q.insert("page".to_owned(), value_or(params, "page", JsonValue::unsigned(1)));
    q.insert("pagesize".to_owned(), value_or(params, "pagesize", JsonValue::unsigned(30)));
    q.insert("sort_type".to_owned(), JsonValue::unsigned(sort));
    q.insert("kugouid".to_owned(), param_or_cookie(params, "userid", JsonValue::text("0")));
    let mut d = JsonObject::new();
    d.insert("exposure".to_owned(), array(no_items()));
    NativeRequest::post("/scene/v1/scene/list_v2").params(JsonValue::Object(q)).data(
        JsonValue::Object(d),
    )
}

/// The upstream request of `login_qr_key`.
pub open spec fn login_qr_key_request(p: JsonView, c: Clock) -> RequestView {
    let q = no_entries();
    let q = insert_entry(
        q,
        "appid"@,
        if param_is(p, "type"@, "web"@) {
            num(1014)
        } else {
            num(1001)
        },
    );
    let q = insert_entry(q, "type"@, num(1));
    let q = insert_entry(q, "plat"@, num(4));
    let q = insert_entry(
        q,
        "qrcode_txt"@,
        txt(
            "https://h5.kugou.com/apps/loginQRCode/html/index.html?appid="@ + decimal(
                platform_appid(c.lite) as nat,
            ) + "&"@,
        ),
    );
    let q = insert_entry(q, "srcappid"@, num(2919));
    request("/v2/qrcode"@, Method::Get).with_base_url("https://login-user.kugou.com"@).with_params(
        JsonView::Object(q),
    ).signed(SignatureKind::Web)
}

/// Describes the upstream request of `login_qr_key`.
pub fn login_qr_key(params: &JsonValue, c: Clock) -> (r: NativeRequest)
    ensures
        r@ == login_qr_key_request(params@, c),
{
    let appid = if param_text_is(params, "type", "web") {
        1014
    } else {
        1001
    };
    let mut link = "https://h5.kugou.com/apps/loginQRCode/html/index.html?appid=".to_owned();
    let config_appid = u128_text(platform_numbers(c.lite).0 as u128);
    link.append(config_appid.as_str());
    link.append("&");
    let mut q = JsonObject::new();
    q.insert("appid".to_owned(), JsonValue::unsigned(appid));
    q.insert("type".to_owned(), JsonValue::unsigned(1));
    q.insert("plat".to_owned(), JsonValue::unsigned(4));
    q.insert("qrcode_txt".to_owned(), JsonValue::Str(link));
    q.insert("srcappid".to_owned(), JsonValue::unsigned(2919));
    NativeRequest::get("/v2/qrcode").base_url("https://login-user.kugou.com").params(
        JsonValue::Object(q),
    ).web()
}

/// The upstream request of `youth_channel_sub`: an unsubscription when `t`
/// is zero.
pub open spec fn youth_channel_sub_request(p: JsonView, c: Clock) -> RequestView {
    let q = no_entries();
    let q = insert_entry(q, "global_collection_id"@, param(p, "global_collection_id"@));
    let q = insert_entry(q, "source"@, num(1));
    let base = if is_zero_value(get_field(p, "t"@)) {
        request("/youth/v1/channel_un_subscribe"@, Method::Delete)
    } else {
        request("/youth/v1/channel_subscribe"@, Method::Post)
    };
    base.with_params(JsonView::Object(q))
}

/// Describes the upstream request of `youth_channel_sub`.
pub fn youth_channel_sub(params: &JsonValue, c: Clock) -> (r: NativeRequest)
    ensures
        r@ == youth_channel_sub_request(params@, c),
{
    let base = if number_is_zero(params.get("t")) {
        NativeRequest::delete("/youth/v1/channel_un_subscribe")
    } else {
        NativeRequest::post("/youth/v1/channel_subscribe")
    };
    let mut q = JsonObject::new();
    q.insert("global_collection_id".to_owned(), value(params, "global_collection_id"));
    q.insert("source".to_owned(), JsonValue::unsigned(1));
    base.params(JsonValue::Object(q))
}

/// The upstream request of `comment_count`: by a truthy `hash`, else by a
/// truthy `special_id`.
pub open spec fn comment_count_request(p: JsonView, c: Clock) -> RequestView {
    let q = no_entries();
    let q = insert_entry(q, "r"@, txt("comments/getcommentsnum"@));
    let q = insert_entry(q, "code"@, txt("fc4be23b4e972707f36b8a828a93ba8a"@));
    let q = match truthy_param(p, "hash"@) {
        Some(h) => insert_entry(q, "hash"@, h),
        None => match truthy_param(p, "special_id"@) {
            Some(id) => insert_entry(q, "childrenid"@, id),
            None => q,
        },
    };
    request("/index.php"@, Method::Get).with_params(JsonView::Object(q)).signed(
        SignatureKind::Web,
    ).with_header("x-router"@, "sum.comment.service.kugou.com"@)
}

/// Describes the upstream request of `comment_count`.
pub fn comment_count(params: &JsonValue, c: Clock) -> (r: NativeRequest)
    ensures
        r@ == comment_count_request(params@, c),
{
    let mut q = JsonObject::new();
    q.insert("r".to_owned(), JsonValue::text("comments/getcommentsnum"));
    q.insert("code".to_owned(), JsonValue::text("fc4be23b4e972707f36b8a828a93ba8a"));
    match truthy_value(params, "hash") {
        Some(h) => {
            q.insert("hash".to_owned(), h);
        },
        None => match truthy_value(params, "special_id") {
            Some(id) => {
                q.insert("childrenid".to_owned(), id);
            },
            None => {},
        },
    }
    NativeRequest::get("/index.php").params(JsonValue::Object(q)).web().header(
        "x-router",
        "sum.comment.service.kugou.com",
    )
}

/// The text of `params[name]`, or `undefined` when absent.
pub open spec fn text_or_undefined(p: JsonView, name: Seq<char>) -> Seq<char> {
    match get_field(p, name) {
        Some(v) => js_text(v),
        None => "undefined"@,
    }
}

/// The text of `params[name]`, or `undefined` when absent.
pub fn text_or_undefined_of(params: &JsonValue, name: &str) -> (r: String)
    ensures
        r@ == text_or_undefined(params@, name@),
{
    match params.get(name) {
        Some(v) => js_string(v),
        None => "undefined".to_owned(),
    }
}

/// The upstream request of `captcha_sent`.
pub open spec fn captcha_sent_request(p: JsonView, c: Clock) -> RequestView {
    let d = no_entries();
    let d = insert_entry(d, "businessid"@, num(5));
    let d = insert_entry(d, "mobile"@, txt(text_or_undefined(p, "mobile"@)));
    let d = insert_entry(d, "plat"@, num(3));
    request("/v7/send_mobile_code"@, Method::Post).with_base_url("http://login.user.kugou.com"@).cookieless().with_data(
        JsonView::Object(d),
    )
}

/// Describes the upstream request of `captcha_sent`.
pub fn captcha_sent(params: &JsonValue, c: Clock) -> (r: NativeRequest)
    ensures
        r@ == captcha_sent_request(params@, c),
{
    let mobile = text_or_undefined_of(params, "mobile");
    let mut d = JsonObject::new();
    d.insert("businessid".to_owned(), JsonValue::unsigned(5));
    d.insert("mobile".to_owned(), JsonValue::Str(mobile));
    d.insert("plat".to_owned(), JsonValue::unsigned(3));
    NativeRequest::post("/v7/send_mobile_code").base_url("http://login.user.kugou.com").without_cookie().data(
        JsonValue::Object(d),
    )
}

/// A sound effect that the quality names with a `magic_` prefix.
pub open spec fn magic_quality(q: Seq<char>) -> bool {
    ||| q == "piano"@
    ||| q == "acappella"@
    ||| q == "subwoofer"@
    ||| q == "ancient"@
    ||| q == "dj"@
    ||| q == "surnay"@
}

/// The requested quality: the text of a truthy `quality` (sound effects
/// prefixed with `magic_`), else 128.
pub open spec fn song_quality(p: JsonView) -> JsonView {
    match truthy_param(p, "quality"@) {
        Some(v) => if magic_quality(js_text(v)) {
            txt("magic_"@ + js_text(v))
        } else {
            txt(js_text(v))
        },
        None => num(128),
    }
}

fn quality_value(params: &JsonValue) -> (r: JsonValue)
    ensures
        r@ == song_quality(params@),
{
    match truthy_value(params, "quality") {
        Some(v) => {
            let q = js_string(&v);
            let s = q.as_str();
            if str_eq(s, "piano") || str_eq(s, "acappella") || str_eq(s, "subwoofer") || str_eq(
                s,
                "ancient",
            ) || str_eq(s, "dj") || str_eq(s, "surnay") {
                let mut m = "magic_".to_owned();
                m.append(s);
                JsonValue::Str(m)
            } else {
                JsonValue::Str(q)
            }
        },
        None => JsonValue::unsigned(128),
    }
}

/// The upstream request of `song_url`.
pub open spec fn song_url_request(p: JsonView, c: Clock) -> RequestView {
    let q = no_entries();
    let q = insert_entry(q, "album_id"@, js_number(param_nullish(p, "album_id"@, num(0))));
    let q = insert_entry(q, "area_code"@, num(1));
    let q = insert_entry(q, "hash"@, txt(lowercase(js_text(param_or(p, "hash"@, txt(""@))))));
    let q = insert_entry(q, "ssa_flag"@, txt("is_fromtrack"@));
    let q = insert_entry(q, "version"@, num(11430));
    let q = insert_entry(q, "page_id"@, num(if c.lite { 967177915 } else { 151369488 }));
    let q = insert_entry(q, "quality"@, song_quality(p));
    let q = insert_entry(
        q,
        "album_audio_id"@,
        js_number(param_nullish(p, "album_audio_id"@, num(0))),
    );
    let q = insert_entry(q, "behavior"@, txt("play"@));
    let q = insert_entry(q, "pid"@, num(if c.lite { 411 } else { 2 }));
    let q = insert_entry(q, "cmd"@, num(26));
    let q = insert_entry(q, "pidversion"@, num(3001));
    let q = insert_entry(q, "IsFreePart"@, flag(p, "free_part"@));
    let q = insert_entry(
        q,
        "ppage_id"@,
        if c.lite {
            param_or(p, "ppage_id"@, txt("356753938,823673182,967485191"@))
        } else {
            txt("463467626,350369493,788954147"@)
        },
    );
    let q = insert_entry(q, "cdnBackup"@, num(1));
    let q = insert_entry(q, "module"@, txt(""@));
    let q = insert_entry(q, "clientver"@, num(11430));
    request("/v5/url"@, Method::Get).with_params(JsonView::Object(q)).keyed().with_header(
        "x-router"@,
        "trackercdn.kugou.com"@,
    )
}

/// Describes the upstream request of `song_url`.
pub fn song_url(params: &JsonValue, c: Clock) -> (r: NativeRequest)
    ensures
        r@ == song_url_request(params@, c),
{
    let hash_text = js_string(&value_or(params, "hash", JsonValue::text("")));
    let hash = lower_case(hash_text.as_str());
    let mut q = JsonObject::new();
    q.insert(
        "album_id".to_owned(),
        number_value(value_nullish(params, "album_id", JsonValue::unsigned(0))),
    );
    q.insert("area_code".to_owned(), JsonValue::unsigned(1));
    q.insert("hash".to_owned(), JsonValue::Str(hash));
    q.insert("ssa_flag".to_owned(), JsonValue::text("is_fromtrack"));
    q.insert("version".to_owned(), JsonValue::unsigned(11430));
    q.insert(
        "page_id".to_owned(),
        JsonValue::unsigned(
            if c.lite {
                967177915
            } else {
                151369488
            },
        ),
    );
    q.insert("quality".to_owned(), quality_value(params));
    q.insert(
        "album_audio_id".to_owned(),
        number_value(value_nullish(params, "album_audio_id", JsonValue::unsigned(0))),
    );
    q.insert("behavior".to_owned(), JsonValue::text("play"));
    q.insert(
        "pid".to_owned(),
        JsonValue::unsigned(
            if c.lite {
                411
            } else {
                2
            },
        ),
    );
    q.insert("cmd".to_owned(), JsonValue::unsigned(26));
    q.insert("pidversion".to_owned(), JsonValue::unsigned(3001));
    q.insert("IsFreePart".to_owned(), flag_value(params, "free_part"));
    let ppage = if c.lite {
        value_or(params, "ppage_id", JsonValue::text("356753938,823673182,967485191"))
    } else {
        JsonValue::text("463467626,350369493,788954147")
    };
    q.insert("ppage_id".to_owned(), ppage);
    q.insert("cdnBackup".to_owned(), JsonValue::unsigned(1));
    q.insert("module".to_owned(), JsonValue::text(""));
    q.insert("clientver".to_owned(), JsonValue::unsigned(11430));
    NativeRequest::get("/v5/url").params(JsonValue::Object(q)).encrypt_key().header(
        "x-router",
        "trackercdn.kugou.com",
    )
}

/// The upstream request of `pc_diantai`.
pub open spec fn pc_diantai_request(p: JsonView, c: Clock) -> RequestView {
    let d = no_entries();
    let d = insert_entry(d, "isvip"@, num(0));
    let d = insert_entry(d, "userid"@, cookie_then_param(p, "userid"@, num(0)));
    let d = insert_entry(d, "vipType"@, num(0));
    request("/v3/pc_diantai"@, Method::Post).with_base_url("https://adservice.kugou.com"@).with_data(
        JsonView::Object(d),
    )
}

/// Describes the upstream request of `pc_diantai`.
pub fn pc_diantai(params: &JsonValue, c: Clock) -> (r: NativeRequest)
    ensures
        r@ == pc_diantai_request(params@, c),
{
    let mut d = JsonObject::new();
    d.insert("isvip".to_owned(), JsonValue::unsigned(0));
    d.insert("userid".to_owned(), cookie_or_param(params, "userid", JsonValue::unsigned(0)));
    d.insert("vipType".to_owned(), JsonValue::unsigned(0));
    NativeRequest::post("/v3/pc_diantai").base_url("https://adservice.kugou.com").data(
        JsonValue::Object(d),
    )
}

/// The upstream request of `user_follow_message`.
pub open spec fn user_follow_message_request(p: JsonView, c: Clock) -> RequestView {
    let userid = param_then_cookie(p, "userid"@, txt("0"@));
    let q = no_entries();
    let q = insert_entry(q, "filter"@, num(1));
    let q = insert_entry(q, "maxid"@, num(0));
    let q = insert_entry(q, "pagesize"@, param_nullish(p, "pagesize"@, num(30)));
    let q = insert_entry(
        q,
        "tag"@,
        txt("chat:"@ + js_text(userid) + "_"@ + js_text(param(p, "id"@))),
    );
    request("/msg.mobile/v3/msgtag/history"@, Method::Get).with_params(JsonView::Object(q))
}

/// Describes the upstream request of `user_follow_message`.
pub fn user_follow_message(params: &JsonValue, c: Clock) -> (r: NativeRequest)
    ensures
        r@ == user_follow_message_request(params@, c),
{
    let userid = param_or_cookie(params, "userid", JsonValue::text("0"));
    let mut tag = "chat:".to_owned();
    let u = js_string(&userid);
    tag.append(u.as_str());
    tag.append("_");
    let id = js_string(&value(params, "id"));
    tag.append(id.as_str());
    let mut q = JsonObject::new();
    q.insert("filter".to_owned(), JsonValue::unsigned(1));
    q.insert("maxid".to_owned(), JsonValue::unsigned(0));
    q.insert("pagesize".to_owned(), value_nullish(params, "pagesize", JsonValue::unsigned(30)));
    q.insert("tag".to_owned(), JsonValue::Str(tag));
    NativeRequest::get("/msg.mobile/v3/msgtag/history").params(JsonValue::Object(q))
}

/// The upstream request of `song_climax`: the hash objects sent as JSON text.
pub open spec fn song_climax_request(p: JsonView, c: Clock) -> RequestView {
    let q = insert_entry(
        no_entries(),
        "data"@,
        txt(js_text(csv_objects_view(p, "hash"@, "hash"@))),
    );
    request("/v1/audio_climax/audio"@, Method::Get).with_base_url(
        "https://expendablekmrcdn.kugou.com"@,
    ).with_params(JsonView::Object(q))
}

/// Describes the upstream request of `song_climax`.
pub fn song_climax(params: &JsonValue, c: Clock) -> (r: NativeRequest)
    ensures
        r@ == song_climax_request(params@, c),
{
    let data = csv_objects(params, "hash", "hash");
    let mut q = JsonObject::new();
    q.insert("data".to_owned(), JsonValue::Str(js_string(&data)));
    NativeRequest::get("/v1/audio_climax/audio").base_url("https://expendablekmrcdn.kugou.com").params(
        JsonValue::Object(q),
    )
}

/// The entries with the truthy `params[name]` stored under `name`, if any.
pub open spec fn with_truthy(
    es: Seq<(Seq<char>, JsonView)>,
    p: JsonView,
    name: Seq<char>,
) -> Seq<(Seq<char>, JsonView)> {
    match truthy_param(p, name) {
        Some(v) => insert_entry(es, name, v),
        None => es,
    }
}

/// Stores the truthy `params[name]` under `name`, if any.
pub fn add_truthy(o: &mut JsonObject, params: &JsonValue, name: &str)
    ensures
        final(o)@ == with_truthy(old(o)@, params@, name@),
{
    match truthy_value(params, name) {
        Some(v) => {
            o.insert(name.to_owned(), v);
        },
        None => {},
    }
}

/// The upstream request of `everyday_history`.
pub open spec fn everyday_history_request(p: JsonView, c: Clock) -> RequestView {
    let q = no_entries();
    let q = insert_entry(q, "mode"@, param_or(p, "mode"@, txt("list"@)));
    let q = insert_entry(q, "platform"@, param_or(p, "platform"@, txt("ios"@)));
    let q = with_truthy(q, p, "history_name"@);
    let q = with_truthy(q, p, "date"@);
    request("/everyday/api/v1/get_history"@, Method::Post).with_params(JsonView::Object(q)).with_header(
        "x-router"@,
        "everydayrec.service.kugou.com"@,
    )
}

/// Describes the upstream request of `everyday_history`.
pub fn everyday_history(params: &JsonValue, c: Clock) -> (r: NativeRequest)
    ensures
        r@ == everyday_history_request(params@, c),
{
    let mut q = JsonObject::new();
    q.insert("mode".to_owned(), value_or(params, "mode", JsonValue::text("list")));
    q.insert("platform".to_owned(), value_or(params, "platform", JsonValue::text("ios")));
    add_truthy(&mut q, params, "history_name");
    add_truthy(&mut q, params, "date");
    NativeRequest::post("/everyday/api/v1/get_history").params(JsonValue::Object(q)).header(
        "x-router",
        "everydayrec.service.kugou.com",
    )
}

/// The upstream request of `user_history`.
pub open spec fn user_history_request(p: JsonView, c: Clock) -> RequestView {
    let d = no_entries();
    let d = insert_entry(d, "token"@, param_then_cookie(p, "token"@, txt(""@)));
    let d = insert_entry(d, "userid"@, param_then_cookie(p, "userid"@, num(0)));
    let d = insert_entry(d, "source_classify"@, txt("app"@));
    let d = insert_entry(d, "to_subdivide_sr"@, num(1));
    let d = with_truthy(d, p, "bp"@);
    request("/playhistory/v1/get_songs"@, Method::Post).with_data(JsonView::Object(d))
}

/// Describes the upstream request of `user_history`.
pub fn user_history(params: &JsonValue, c: Clock) -> (r: NativeRequest)
    ensures
        r@ == user_history_request(params@, c),
{
    let mut d = JsonObject::new();
    d.insert("token".to_owned(), param_or_cookie(params, "token", JsonValue::text("")));
    d.insert("userid".to_owned(), param_or_cookie(params, "userid", JsonValue::unsigned(0)));
    d.insert("source_classify".to_owned(), JsonValue::text("app"));
    d.insert("to_subdivide_sr".to_owned(), JsonValue::unsigned(1));
    add_truthy(&mut d, params, "bp");
    NativeRequest::post("/playhistory/v1/get_songs").data(JsonValue::Object(d))
}

/// The upstream request of `youth_vip`: a play report for the last 30 s.
pub open spec fn youth_vip_request(p: JsonView, c: Clock) -> RequestView {
    let d = no_entries();
    let d = insert_entry(d, "ad_id"@, num(12307537187));
    let d = insert_entry(d, "play_end"@, num(c.now_ms));
    let d = insert_entry(
        d,
        "play_start"@,
        num(if c.now_ms >= 30000 { (c.now_ms - 30000) as u64 } else { 0 }),
    );
    request("/youth/v1/ad/play_report"@, Method::Post).with_data(JsonView::Object(d))
}

/// Describes the upstream request of `youth_vip`.
pub fn youth_vip(params: &JsonValue, c: Clock) -> (r: NativeRequest)
    ensures
        r@ == youth_vip_request(params@, c),
{
    let mut d = JsonObject::new();
    d.insert("ad_id".to_owned(), JsonValue::unsigned(12307537187));
    d.insert("play_end".to_owned(), JsonValue::unsigned(c.now_ms));
    d.insert("play_start".to_owned(), JsonValue::unsigned(c.now_ms.saturating_sub(30000)));
    NativeRequest::post("/youth/v1/ad/play_report").data(JsonValue::Object(d))
}

/// The request a module of this group describes, if it is one of them.
#[verifier::opaque]
pub open spec fn requested(m: Seq<char>, p: JsonView, c: Clock) -> Option<RequestView> {
    if m == "artist_albums"@ {
        Some(artist_albums_request(p, c))
    } else if m == "artist_audios"@ {
        Some(artist_audios_request(p, c))
    } else if m == "artist_follow_newsongs"@ {
        Some(artist_follow_newsongs_request(p, c))
    } else if m == "artist_videos"@ {
        Some(artist_videos_request(p, c))
    } else if m == "captcha_sent"@ {
        Some(captcha_sent_request(p, c))
    } else if m == "comment_count"@ {
        Some(comment_count_request(p, c))
    } else if m == "everyday_history"@ {
        Some(everyday_history_request(p, c))
    } else if m == "ip"@ {
        Some(ip_request(p, c))
    } else if m == "login_qr_key"@ {
        Some(login_qr_key_request(p, c))
    } else if m == "pc_diantai"@ {
        Some(pc_diantai_request(p, c))
    } else if m == "scene_lists_v2"@ {
        Some(scene_lists_v2_request(p, c))
    } else if m == "search"@ {
        Some(search_request(p, c))
    } else if m == "song_climax"@ {
        Some(song_climax_request(p, c))
    } else if m == "song_url"@ {
        Some(song_url_request(p, c))
    } else if m == "user_follow_message"@ {
        Some(user_follow_message_request(p, c))
    } else if m == "user_history"@ {
        Some(user_history_request(p, c))
    } else if m == "youth_channel_sub"@ {
        Some(youth_channel_sub_request(p, c))
    } else if m == "youth_vip"@ {
        Some(youth_vip_request(p, c))
    } else {
        None
    }
}

/// The request a module of this group describes (see [`requested`]).
pub fn request_for(module: &str, params: &JsonValue, c: Clock) -> (r: Option<NativeRequest>)
    ensures
        match r {
            Some(q) => requested(module@, params@, c) == Some(q@),
            None => requested(module@, params@, c) is None,
        },
{
    reveal(requested);
    if str_eq(module, "artist_albums") {
        return Some(artist_albums(params, c));
    }
    if str_eq(module, "artist_audios") {
        return Some(artist_audios(params, c));
    }
    if str_eq(module, "artist_follow_newsongs") {
        return Some(artist_follow_newsongs(params, c));
    }
    if str_eq(module, "artist_videos") {
        return Some(artist_videos(params, c));
    }
    if str_eq(module, "captcha_sent") {
        return Some(captcha_sent(params, c));
    }
    if str_eq(module, "comment_count") {
        return Some(comment_count(params, c));
    }
    if str_eq(module, "everyday_history") {
        return Some(everyday_history(params, c));
    }
    if str_eq(module, "ip") {
        return Some(ip(params, c));
    }
    if str_eq(module, "login_qr_key") {
        return Some(login_qr_key(params, c));
    }
    if str_eq(module, "pc_diantai") {
        return Some(pc_diantai(params, c));
    }
    if str_eq(module, "scene_lists_v2") {
        return Some(scene_lists_v2(params, c));
    }
    if str_eq(module, "search") {
        return Some(search(params, c));
    }
    if str_eq(module, "song_climax") {
        return Some(song_climax(params, c));
    }
    if str_eq(module, "song_url") {
        return Some(song_url(params, c));
    }
    if str_eq(module, "user_follow_message") {
        return Some(user_follow_message(params, c));
    }
    if str_eq(module, "user_history") {
        return Some(user_history(params, c));
    }
    if str_eq(module, "youth_channel_sub") {
        return Some(youth_channel_sub(params, c));
    }
    if str_eq(module, "youth_vip") {
        return Some(youth_vip(params, c));
    }
    None
}

/// Whether `m` is one of the modules described here.
pub open spec fn handles(m: Seq<char>) -> bool {
    m == "artist_albums"@
        || m == "artist_audios"@
        || m == "artist_follow_newsongs"@
        || m == "artist_videos"@
        || m == "captcha_sent"@
        || m == "comment_count"@
        || m == "everyday_history"@
        || m == "ip"@
        || m == "login_qr_key"@
        || m == "pc_diantai"@
        || m == "scene_lists_v2"@
        || m == "search"@
        || m == "song_climax"@
        || m == "song_url"@
        || m == "user_follow_message"@
        || m == "user_history"@
        || m == "youth_channel_sub"@
        || m == "youth_vip"@
}

/// Each module described here has a request.
pub proof fn lemma_handled_requested(m: Seq<char>, p: JsonView, c: Clock)
    requires
        handles(m),
    ensures
        requested(m, p, c) is Some,
{
    reveal(requested);
}

} // verus!
