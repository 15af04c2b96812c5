//! Requests whose bodies are assembled field by field: optional identity
//! fields, lists built from comma-separated parameters, nested objects.
use crate::handlers::{
    appid_value, array, clientver_value, cookie_or, flag, flag_value, items_of, no_entries,
    no_items, num, or_default, push_item, truthy_param, truthy_value, txt, Clock,
};
use crate::handlers::choices::{add_truthy, with_truthy};
use crate::js::{
    is_nonempty_text, is_truthy, is_zero_value, js_number, js_string, js_text, nonempty,
    number_is_zero, number_value, truthy,
};
use crate::json::{get_field, insert_entry, int_view, JsonObject, JsonValue, JsonView};
use crate::params::{
    applied_field, apply_csv_field, cookie, cookie_or_param, cookie_then_param, csv_hash_audio,
    csv_hash_audio_view, csv_hash_resource, csv_hash_resource_view, list_text, param,
    param_nullish, param_or, param_or_cookie, param_then_cookie, value, value_nullish, value_or,
};
use crate::signing::{params_key, platform_appid, platform_clientver, sign_params_key};
use crate::text::{ascii_lower, ascii_lower_chars, chars_of, decimal, split, split_str, str_eq, string_of};
use crate::upstream::{request, Method, NativeRequest, RequestView};
use vstd::prelude::*;

verus! {

// ---------------------------------------------------------------------------
// Lists built from comma-separated parameters.
// ---------------------------------------------------------------------------

/// The kinds of object made from one comma-separated piece.
pub enum PieceShape {
    /// `{ album_id: piece, album_name: "", author_name: "" }`
    AlbumRef,
    /// `{ fields: "imgUrl100,imgUrl50", fmid: piece, fmtype: 2 }`
    FmImage,
    /// `{ hash: piece, id: 0, name: "" }`
    VideoHash,
}

/// The object of the given shape for one piece.
pub open spec fn shaped(shape: PieceShape, piece: Seq<char>) -> JsonView {
    match shape {
        PieceShape::AlbumRef => {
            let o = insert_entry(no_entries(), "album_id"@, txt(piece));
            let o = insert_entry(o, "album_name"@, txt(""@));
            JsonView::Object(insert_entry(o, "author_name"@, txt(""@)))
        },
        PieceShape::FmImage => {
            let o = insert_entry(no_entries(), "fields"@, txt("imgUrl100,imgUrl50"@));
            let o = insert_entry(o, "fmid"@, txt(piece));
            JsonView::Object(insert_entry(o, "fmtype"@, num(2)))
        },
        PieceShape::VideoHash => {
            let o = insert_entry(no_entries(), "hash"@, txt(piece));
            let o = insert_entry(o, "id"@, num(0));
            JsonView::Object(insert_entry(o, "name"@, txt(""@)))
        },
    }
}

/// One object of the given shape per comma-separated piece of the text.
pub open spec fn shaped_pieces(t: Seq<char>, shape: PieceShape) -> JsonView {
    JsonView::Array(split(t, ',').map_values(|s: Seq<char>| shaped(shape, s)))
}

fn shaped_value(shape: &PieceShape, piece: String) -> (r: JsonValue)
    ensures
        r@ == shaped(*shape, piece@),
{
    let mut o = JsonObject::new();
    match shape {
        PieceShape::AlbumRef => {
            o.insert("album_id".to_owned(), JsonValue::Str(piece));
            o.insert("album_name".to_owned(), JsonValue::text(""));
            o.insert("author_name".to_owned(), JsonValue::text(""));
        },
        PieceShape::FmImage => {
            o.insert("fields".to_owned(), JsonValue::text("imgUrl100,imgUrl50"));
            o.insert("fmid".to_owned(), JsonValue::Str(piece));
            o.insert("fmtype".to_owned(), JsonValue::unsigned(2));
        },
        PieceShape::VideoHash => {
            o.insert("hash".to_owned(), JsonValue::Str(piece));
            o.insert("id".to_owned(), JsonValue::unsigned(0));
            o.insert("name".to_owned(), JsonValue::text(""));
        },
    }
    JsonValue::Object(o)
}

/// One object of the given shape per comma-separated piece of the text.
pub fn shaped_list(text: &str, shape: PieceShape) -> (r: JsonValue)
    ensures
        r@ == shaped_pieces(text@, shape),
{
    let pieces = split_str(text, ',');
    let ghost want = split(text@, ',');
    let mut out = no_items();
    let mut i: usize = 0;
    while i < pieces.len()
        invariant
            want == split(text@, ','),
            pieces@.len() == want.len(),
            forall|k: int| 0 <= k < pieces@.len() ==> (#[trigger] pieces@[k])@ == want[k],
            i <= pieces@.len(),
            items_of(out@) == want.take(i as int).map_values(|s: Seq<char>| shaped(shape, s)),
        decreases pieces@.len() - i,
    {
        let item = shaped_value(&shape, pieces[i].clone());
        let ghost before = items_of(out@);
        push_item(&mut out, item);
        assert(want.take(i + 1).map_values(|s: Seq<char>| shaped(shape, s)) =~= before.push(
            shaped(shape, want[i as int]),
        ));
        i = i + 1;
    }
    assert(want.take(i as int) =~= want);
    array(out)
}

// ---------------------------------------------------------------------------
// Album and audio lookups on the kmr service.
// ---------------------------------------------------------------------------

/// The identity fields of a kmr lookup, `data` given, then a truthy `token`
/// and a truthy `userid` (cookie first).
pub open spec fn kmr_body(p: JsonView, c: Clock, data: JsonView) -> Seq<(Seq<char>, JsonView)> {
    let token = cookie_then_param(p, "token"@, num(0));
    let userid = cookie_then_param(p, "userid"@, num(0));
    let o = no_entries();
    let o = insert_entry(o, "appid"@, num(platform_appid(c.lite)));
    let o = insert_entry(o, "clienttime"@, num(c.now_ms));
    let o = insert_entry(o, "clientver"@, num(platform_clientver(c.lite)));
    let o = insert_entry(o, "data"@, data);
    let o = insert_entry(o, "dfid"@, cookie_then_param(p, "dfid"@, txt("-"@)));
    let o = insert_entry(o, "key"@, txt(params_key(decimal(c.now_ms as nat), c.lite)));
    let o = insert_entry(o, "mid"@, or_default(cookie(p, "KUGOU_API_MID"@), JsonView::Null));
    let o = if is_truthy(token) {
        insert_entry(o, "token"@, token)
    } else {
        o
    };
    if is_truthy(userid) {
        insert_entry(o, "userid"@, userid)
    } else {
        o
    }
}

fn kmr_object(params: &JsonValue, c: Clock, data: JsonValue) -> (r: JsonObject)
    ensures
        r@ == kmr_body(params@, c, data@),
{
    let mut o = JsonObject::new();
    o.insert("appid".to_owned(), appid_value(c));
    o.insert("clienttime".to_owned(), JsonValue::unsigned(c.now_ms));
    o.insert("clientver".to_owned(), clientver_value(c));
    o.insert("data".to_owned(), data);
    o.insert("dfid".to_owned(), cookie_or_param(params, "dfid", JsonValue::text("-")));
    o.insert("key".to_owned(), JsonValue::Str(sign_params_key(c.now_ms, c.lite)));
    o.insert("mid".to_owned(), cookie_or(params, "KUGOU_API_MID", JsonValue::Null));
    let token = cookie_or_param(params, "token", JsonValue::unsigned(0));
    let userid = cookie_or_param(params, "userid", JsonValue::unsigned(0));
    if truthy(&token) {
        o.insert("token".to_owned(), token);
    }
    if truthy(&userid) {
        o.insert("userid".to_owned(), userid);
    }
    o
}

/// The upstream request of `album`.
pub open spec fn album_request(p: JsonView, c: Clock) -> RequestView {
    let o = kmr_body(p, c, shaped_pieces(list_text(p, "album_id"@), PieceShape::AlbumRef));
    let o = insert_entry(o, "fields"@, param_or(p, "fields"@, txt(""@)));
    request("/v1/album"@, Method::Post).with_base_url("http://kmr.service.kugou.com"@).with_data(
        JsonView::Object(o),
    ).with_header("x-router"@, "kmr.service.kugou.com"@).with_header(
        "Content-Type"@,
        "application/json"@,
    )
}

/// Describes the upstream request of `album`.
pub fn album(params: &JsonValue, c: Clock) -> (r: NativeRequest)
    ensures
        r@ == album_request(params@, c),
{
    proof {
        reveal_strlit("");
        assert(""@ =~= Seq::<char>::empty());
    }
    let ids = js_string(&value_or(params, "album_id", JsonValue::text("")));
    let data = shaped_list(ids.as_str(), PieceShape::AlbumRef);
    let mut o = kmr_object(params, c, data);
    o.insert("fields".to_owned(), value_or(params, "fields", JsonValue::text("")));
    NativeRequest::post("/v1/album").base_url("http://kmr.service.kugou.com").data(
        JsonValue::Object(o),
    ).header("x-router", "kmr.service.kugou.com").header("Content-Type", "application/json")
}

/// The upstream request of `audio`.
pub open spec fn audio_request(p: JsonView, c: Clock) -> RequestView {
    let o = kmr_body(p, c, csv_hash_audio_view(p));
    request("/v1/audio/audio"@, Method::Post).with_base_url("http://kmr.service.kugou.com"@).with_data(
        JsonView::Object(o),
    ).with_header("x-router"@, "kmr.service.kugou.com"@).with_header(
        "Content-Type"@,
        "application/json"@,
    )
}

/// Describes the upstream request of `audio`.
pub fn audio(params: &JsonValue, c: Clock) -> (r: NativeRequest)
    ensures
        r@ == audio_request(params@, c),
{
    let o = kmr_object(params, c, csv_hash_audio(params));
    NativeRequest::post("/v1/audio/audio").base_url("http://kmr.service.kugou.com").data(
        JsonValue::Object(o),
    ).header("x-router", "kmr.service.kugou.com").header("Content-Type", "application/json")
}

// ---------------------------------------------------------------------------
// Radio.
// ---------------------------------------------------------------------------

fn empty_is_empty()
    ensures
        ""@ == Seq::<char>::empty(),
{
    proof {
        reveal_strlit("");
        assert(""@ =~= Seq::<char>::empty());
    }
}

/// The upstream request of `fm_image`.
pub open spec fn fm_image_request(p: JsonView, c: Clock) -> RequestView {
    let userid = cookie_then_param(p, "userid"@, JsonView::Null);
    let token = cookie_then_param(p, "token"@, JsonView::Null);
    let o = no_entries();
    let o = insert_entry(o, "appid"@, num(platform_appid(c.lite)));
    let o = insert_entry(o, "clienttime"@, num(c.now_ms));
    let o = insert_entry(o, "clientver"@, num(platform_clientver(c.lite)));
    let o = insert_entry(o, "data"@, shaped_pieces(list_text(p, "fmid"@), PieceShape::FmImage));
    let o = insert_entry(o, "dfid"@, cookie_then_param(p, "dfid"@, txt("-"@)));
    let o = insert_entry(o, "key"@, txt(params_key(decimal(c.now_ms as nat), c.lite)));
    let o = insert_entry(o, "mid"@, or_default(cookie(p, "KUGOU_API_MID"@), JsonView::Null));
    let o = if is_truthy(userid) {
        insert_entry(o, "userid"@, userid)
    } else {
        o
    };
    let o = if is_truthy(token) {
        insert_entry(o, "token"@, token)
    } else {
        o
    };
    request("/v1/fm_info"@, Method::Post).with_data(JsonView::Object(o)).with_header(
        "x-router"@,
        "fm.service.kugou.com"@,
    ).with_header("Content-Type"@, "application/json"@)
}

/// Describes the upstream request of `fm_image`.
pub fn fm_image(params: &JsonValue, c: Clock) -> (r: NativeRequest)
    ensures
        r@ == fm_image_request(params@, c),
{
    empty_is_empty();
    let ids = js_string(&value_or(params, "fmid", JsonValue::text("")));
    let mut o = JsonObject::new();
    o.insert("appid".to_owned(), appid_value(c));
    o.insert("clienttime".to_owned(), JsonValue::unsigned(c.now_ms));
    o.insert("clientver".to_owned(), clientver_value(c));
    o.insert("data".to_owned(), shaped_list(ids.as_str(), PieceShape::FmImage));
    o.insert("dfid".to_owned(), cookie_or_param(params, "dfid", JsonValue::text("-")));
    o.insert("key".to_owned(), JsonValue::Str(sign_params_key(c.now_ms, c.lite)));
    o.insert("mid".to_owned(), cookie_or(params, "KUGOU_API_MID", JsonValue::Null));
    let userid = cookie_or_param(params, "userid", JsonValue::Null);
    let token = cookie_or_param(params, "token", JsonValue::Null);
    if truthy(&userid) {
        o.insert("userid".to_owned(), userid);
    }
    if truthy(&token) {
        o.insert("token".to_owned(), token);
    }
    NativeRequest::post("/v1/fm_info").data(JsonValue::Object(o)).header(
        "x-router",
        "fm.service.kugou.com",
    ).header("Content-Type", "application/json")
}

/// One song request of `fm_songs` for a station id.
pub open spec fn fm_item(p: JsonView, fmid: Seq<char>) -> JsonView {
    let o = insert_entry(no_entries(), "fmid"@, txt(fmid));
    let o = insert_entry(o, "fmtype"@, param_or(p, "type"@, num(2)));
    let o = insert_entry(o, "offset"@, param_or(p, "offset"@, int_view(-1)));
    let o = insert_entry(o, "size"@, param_or(p, "size"@, num(20)));
    JsonView::Object(insert_entry(o, "singername"@, txt(""@)))
}

/// The items after setting `field` of the `i`-th object item to the `i`-th
/// piece, where that piece is not empty.
pub open spec fn filled_field(items: Seq<JsonView>, pieces: Seq<Seq<char>>, field: Seq<char>) -> Seq<
    JsonView,
> {
    Seq::new(
        items.len(),
        |i: int|
            if i < pieces.len() && items[i] is Object && pieces[i].len() > 0 {
                JsonView::Object(insert_entry(items[i]->Object_0, field, txt(pieces[i])))
            } else {
                items[i]
            },
    )
}

/// The song requests of `fm_songs`: one per station id, then the per-station
/// type, offset and size lists applied.
pub open spec fn fm_items(p: JsonView) -> Seq<JsonView> {
    let items = split(list_text(p, "fmid"@), ',').map_values(|s: Seq<char>| fm_item(p, s));
    let items = filled_field(items, split(list_text(p, "fmtype"@), ','), "fmtype"@);
    let items = filled_field(items, split(list_text(p, "fmoffset"@), ','), "offset"@);
    filled_field(items, split(list_text(p, "fmsize"@), ','), "size"@)
}

fn fm_item_value(params: &JsonValue, fmid: String) -> (r: JsonValue)
    ensures
        r@ == fm_item(params@, fmid@),
{
    let mut o = JsonObject::new();
    o.insert("fmid".to_owned(), JsonValue::Str(fmid));
    o.insert("fmtype".to_owned(), value_or(params, "type", JsonValue::unsigned(2)));
    o.insert("offset".to_owned(), value_or(params, "offset", JsonValue::integer(-1)));
    o.insert("size".to_owned(), value_or(params, "size", JsonValue::unsigned(20)));
    o.insert("singername".to_owned(), JsonValue::text(""));
    JsonValue::Object(o)
}

fn fill_field(items: &mut Vec<JsonValue>, params: &JsonValue, name: &str, field: &str)
    ensures
        items_of(final(items)@) == filled_field(
            items_of(old(items)@),
            split(list_text(params@, name@), ','),
            field@,
        ),
{
    empty_is_empty();
    let text = js_string(&value_or(params, name, JsonValue::text("")));
    let pieces = split_str(text.as_str(), ',');
    let ghost want = split(list_text(params@, name@), ',');
    let ghost before = items_of(items@);
    let mut i: usize = 0;
    while i < items.len()
        invariant
            want == split(list_text(params@, name@), ','),
            pieces@.len() == want.len(),
            forall|k: int| 0 <= k < pieces@.len() ==> (#[trigger] pieces@[k])@ == want[k],
            before.len() == items@.len(),
            i <= items@.len(),
            forall|k: int|
                0 <= k < i ==> (#[trigger] items@[k])@ == filled_field(before, want, field@)[k],
            forall|k: int| i <= k < items@.len() ==> (#[trigger] items@[k])@ == before[k],
        decreases items@.len() - i,
    {
        if i < pieces.len() && !pieces[i].as_str().is_empty() {
            let mut slot = JsonValue::Null;
            std::mem::swap(&mut slot, &mut items[i]);
            let updated = match slot {
                JsonValue::Object(mut o) => {
                    o.insert(field.to_owned(), JsonValue::Str(pieces[i].clone()));
                    JsonValue::Object(o)
                },
                other => other,
            };
            items.set(i, updated);
        }
        proof {
            if !(i < pieces@.len() && pieces@[i as int]@.len() > 0) {
                assert(filled_field(before, want, field@)[i as int] == before[i as int]);
            }
        }
        i = i + 1;
    }
    assert(items_of(items@) =~= filled_field(before, want, field@));
}

/// The upstream request of `fm_songs`.
pub open spec fn fm_songs_request(p: JsonView, c: Clock) -> RequestView {
    let o = no_entries();
    let o = insert_entry(o, "appid"@, num(platform_appid(c.lite)));
    let o = insert_entry(o, "area_code"@, num(1));
    let o = insert_entry(o, "clienttime"@, num(c.now_ms));
    let o = insert_entry(o, "clientver"@, num(platform_clientver(c.lite)));
    let o = insert_entry(o, "data"@, JsonView::Array(fm_items(p)));
    let o = insert_entry(o, "get_tracker"@, num(1));
    let o = insert_entry(o, "key"@, txt(params_key(decimal(c.now_ms as nat), c.lite)));
    let o = insert_entry(o, "mid"@, or_default(cookie(p, "KUGOU_API_MID"@), JsonView::Null));
    let o = insert_entry(o, "uid"@, cookie_then_param(p, "userid"@, JsonView::Null));
    request("/v1/app_song_list_offset"@, Method::Post).with_data(JsonView::Object(o)).with_header(
        "x-router"@,
        "fm.service.kugou.com"@,
    ).with_header("Content-Type"@, "application/json"@)
}

/// Describes the upstream request of `fm_songs`.
pub fn fm_songs(params: &JsonValue, c: Clock) -> (r: NativeRequest)
    ensures
        r@ == fm_songs_request(params@, c),
{
    empty_is_empty();
    let ids = js_string(&value_or(params, "fmid", JsonValue::text("")));
    let pieces = split_str(ids.as_str(), ',');
    let ghost want = split(list_text(params@, "fmid"@), ',');
    let mut data = no_items();
    let mut i: usize = 0;
    while i < pieces.len()
        invariant
            want == split(list_text(params@, "fmid"@), ','),
            pieces@.len() == want.len(),
            forall|k: int| 0 <= k < pieces@.len() ==> (#[trigger] pieces@[k])@ == want[k],
            i <= pieces@.len(),
            items_of(data@) == want.take(i as int).map_values(|s: Seq<char>| fm_item(params@, s)),
        decreases pieces@.len() - i,
    {
        let item = fm_item_value(params, pieces[i].clone());
        let ghost before = items_of(data@);
        push_item(&mut data, item);
        assert(want.take(i + 1).map_values(|s: Seq<char>| fm_item(params@, s)) =~= before.push(
            fm_item(params@, want[i as int]),
        ));
        i = i + 1;
    }
    assert(want.take(i as int) =~= want);
    fill_field(&mut data, params, "fmtype", "fmtype");
    fill_field(&mut data, params, "fmoffset", "offset");
    fill_field(&mut data, params, "fmsize", "size");
    let mut o = JsonObject::new();
    o.insert("appid".to_owned(), appid_value(c));
    o.insert("area_code".to_owned(), JsonValue::unsigned(1));
    o.insert("clienttime".to_owned(), JsonValue::unsigned(c.now_ms));
    o.insert("clientver".to_owned(), clientver_value(c));
    o.insert("data".to_owned(), array(data));
    o.insert("get_tracker".to_owned(), JsonValue::unsigned(1));
    o.insert("key".to_owned(), JsonValue::Str(sign_params_key(c.now_ms, c.lite)));
    o.insert("mid".to_owned(), cookie_or(params, "KUGOU_API_MID", JsonValue::Null));
    o.insert("uid".to_owned(), cookie_or_param(params, "userid", JsonValue::Null));
    NativeRequest::post("/v1/app_song_list_offset").data(JsonValue::Object(o)).header(
        "x-router",
        "fm.service.kugou.com",
    ).header("Content-Type", "application/json")
}

/// The body of `personal_fm` before its optional fields.
pub open spec fn personal_fm_base(p: JsonView, c: Clock) -> Seq<(Seq<char>, JsonView)> {
    let o = no_entries();
    let o = insert_entry(o, "appid"@, num(platform_appid(c.lite)));
    let o = insert_entry(o, "clienttime"@, num(c.now_ms));
    let o = insert_entry(o, "mid"@, or_default(cookie(p, "KUGOU_API_MID"@), JsonView::Null));
    let o = insert_entry(o, "action"@, param_or(p, "action"@, txt("play"@)));
    let o = insert_entry(o, "recommend_source_locked"@, num(0));
    let o = insert_entry(o, "song_pool_id"@, js_number(param_or(p, "song_pool_id"@, num(0))));
    let o = insert_entry(o, "callerid"@, num(0));
    let o = insert_entry(o, "m_type"@, num(1));
    let o = insert_entry(o, "platform"@, param_or(p, "platform"@, txt("ios"@)));
    let o = insert_entry(o, "area_code"@, num(1));
    let o = insert_entry(o, "remain_songcnt"@, js_number(param_or(p, "remain_songcnt"@, num(0))));
    let o = insert_entry(o, "clientver"@, num(platform_clientver(c.lite)));
    let o = insert_entry(o, "is_overplay"@, flag(p, "is_overplay"@));
    let o = insert_entry(o, "mode"@, param_or(p, "mode"@, txt("normal"@)));
    let o = insert_entry(o, "fakem"@, txt("ca981cfc583a4c37f28d2d49000013c16a0a"@));
    insert_entry(o, "key"@, txt(params_key(decimal(c.now_ms as nat), c.lite)))
}

/// The upstream request of `personal_fm`: a truthy user id (also as
/// `kguid`), token and VIP type, and truthy `hash`, `songid` and `playtime`,
/// are added.
pub open spec fn personal_fm_request(p: JsonView, c: Clock) -> RequestView {
    let userid = cookie_then_param(p, "userid"@, num(0));
    let token = cookie_then_param(p, "token"@, num(0));
    let vip_type = cookie_then_param(p, "vip_type"@, param_or(p, "vipType"@, num(0)));
    let o = personal_fm_base(p, c);
    let o = if is_truthy(userid) {
        insert_entry(insert_entry(o, "userid"@, userid), "kguid"@, userid)
    } else {
        o
    };
    let o = if is_truthy(token) {
        insert_entry(o, "token"@, token)
    } else {
        o
    };
    let o = if is_truthy(vip_type) {
        insert_entry(o, "vip_type"@, vip_type)
    } else {
        o
    };
    let o = with_truthy(o, p, "hash"@);
    let o = with_truthy(o, p, "songid"@);
    let o = with_truthy(o, p, "playtime"@);
    request("/v2/personal_recommend"@, Method::Post).with_data(JsonView::Object(o)).with_header(
        "x-router"@,
        "persnfm.service.kugou.com"@,
    )
}

/// Describes the upstream request of `personal_fm`.
pub fn personal_fm(params: &JsonValue, c: Clock) -> (r: NativeRequest)
    ensures
        r@ == personal_fm_request(params@, c),
{
    let userid = cookie_or_param(params, "userid", JsonValue::unsigned(0));
    let token = cookie_or_param(params, "token", JsonValue::unsigned(0));
    let vip_type = cookie_or_param(
        params,
        "vip_type",
        value_or(params, "vipType", JsonValue::unsigned(0)),
    );
    let mut o = JsonObject::new();
    o.insert("appid".to_owned(), appid_value(c));
    o.insert("clienttime".to_owned(), JsonValue::unsigned(c.now_ms));
    o.insert("mid".to_owned(), cookie_or(params, "KUGOU_API_MID", JsonValue::Null));
    o.insert("action".to_owned(), value_or(params, "action", JsonValue::text("play")));
    o.insert("recommend_source_locked".to_owned(), JsonValue::unsigned(0));
    o.insert(
        "song_pool_id".to_owned(),
        number_value(value_or(params, "song_pool_id", JsonValue::unsigned(0))),
    );
    o.insert("callerid".to_owned(), JsonValue::unsigned(0));
    o.insert("m_type".to_owned(), JsonValue::unsigned(1));
    o.insert("platform".to_owned(), value_or(params, "platform", JsonValue::text("ios")));
    o.insert("area_code".to_owned(), JsonValue::unsigned(1));
    o.insert(
        "remain_songcnt".to_owned(),
        number_value(value_or(params, "remain_songcnt", JsonValue::unsigned(0))),
    );
    o.insert("clientver".to_owned(), clientver_value(c));
    o.insert("is_overplay".to_owned(), flag_value(params, "is_overplay"));
    o.insert("mode".to_owned(), value_or(params, "mode", JsonValue::text("normal")));
    o.insert("fakem".to_owned(), JsonValue::text("ca981cfc583a4c37f28d2d49000013c16a0a"));
    o.insert("key".to_owned(), JsonValue::Str(sign_params_key(c.now_ms, c.lite)));
    if truthy(&userid) {
        o.insert("userid".to_owned(), userid.deep_clone());
        o.insert("kguid".to_owned(), userid);
    }
    if truthy(&token) {
        o.insert("token".to_owned(), token);
    }
    if truthy(&vip_type) {
        o.insert("vip_type".to_owned(), vip_type);
    }
    add_truthy(&mut o, params, "hash");
    add_truthy(&mut o, params, "songid");
    add_truthy(&mut o, params, "playtime");
    NativeRequest::post("/v2/personal_recommend").data(JsonValue::Object(o)).header(
        "x-router",
        "persnfm.service.kugou.com",
    )
}

// ---------------------------------------------------------------------------
// Playlists, privileges, the feed and comment floors.
// ---------------------------------------------------------------------------

/// The upstream request of `playlist_add`: a list of type zero is private
/// when asked and carries a query with the time and the caller's identity.
pub open spec fn playlist_add_request(p: JsonView, c: Clock) -> RequestView {
    let userid = param_then_cookie(p, "userid"@, num(0));
    let token = param_then_cookie(p, "token"@, txt(""@));
    let list_type = param_or(p, "type"@, num(0));
    let zero_type = is_zero_value(Some(list_type));
    let d = no_entries();
    let d = insert_entry(d, "userid"@, userid);
    let d = insert_entry(d, "token"@, token);
    let d = insert_entry(d, "total_ver"@, num(0));
    let d = insert_entry(d, "name"@, param(p, "name"@));
    let d = insert_entry(d, "type"@, list_type);
    let d = insert_entry(
        d,
        "source"@,
        if is_zero_value(get_field(p, "source"@)) {
            num(0)
        } else {
            param_or(p, "source"@, num(1))
        },
    );
    let d = insert_entry(d, "is_pri"@, num(0));
    let d = insert_entry(d, "list_create_userid"@, param(p, "list_create_userid"@));
    let d = insert_entry(d, "list_create_listid"@, param(p, "list_create_listid"@));
    let d = insert_entry(d, "list_create_gid"@, param_or(p, "list_create_gid"@, txt(""@)));
    let d = insert_entry(d, "from_shupinmv"@, num(0));
    let d = if zero_type {
        insert_entry(d, "is_pri"@, param_or(p, "is_pri"@, num(0)))
    } else {
        d
    };
    let q = if zero_type {
        let q = insert_entry(no_entries(), "last_time"@, num(c.now_ms / 1000));
        let q = insert_entry(q, "last_area"@, txt("gztx"@));
        let q = insert_entry(q, "userid"@, userid);
        insert_entry(q, "token"@, token)
    } else {
        no_entries()
    };
    request("/cloudlist.service/v5/add_list"@, Method::Post).with_params(JsonView::Object(q)).with_data(
        JsonView::Object(d),
    )
}

/// Describes the upstream request of `playlist_add`.
pub fn playlist_add(params: &JsonValue, c: Clock) -> (r: NativeRequest)
    ensures
        r@ == playlist_add_request(params@, c),
{
    let userid = param_or_cookie(params, "userid", JsonValue::unsigned(0));
    let token = param_or_cookie(params, "token", JsonValue::text(""));
    let list_type = value_or(params, "type", JsonValue::unsigned(0));
    let zero_type = number_is_zero(Some(&list_type));
    let source = if number_is_zero(params.get("source")) {
        JsonValue::unsigned(0)
    } else {
        value_or(params, "source", JsonValue::unsigned(1))
    };
    let mut d = JsonObject::new();
    d.insert("userid".to_owned(), userid.deep_clone());
    d.insert("token".to_owned(), token.deep_clone());
    d.insert("total_ver".to_owned(), JsonValue::unsigned(0));
    d.insert("name".to_owned(), value(params, "name"));
    d.insert("type".to_owned(), list_type);
    d.insert("source".to_owned(), source);
    d.insert("is_pri".to_owned(), JsonValue::unsigned(0));
    d.insert("list_create_userid".to_owned(), value(params, "list_create_userid"));
    d.insert("list_create_listid".to_owned(), value(params, "list_create_listid"));
    d.insert("list_create_gid".to_owned(), value_or(params, "list_create_gid", JsonValue::text("")));
    d.insert("from_shupinmv".to_owned(), JsonValue::unsigned(0));
    let mut q = JsonObject::new();
    if zero_type {
        d.insert("is_pri".to_owned(), value_or(params, "is_pri", JsonValue::unsigned(0)));
        q.insert("last_time".to_owned(), JsonValue::unsigned(c.now_ms / 1000));
        q.insert("last_area".to_owned(), JsonValue::text("gztx"));
        q.insert("userid".to_owned(), userid);
        q.insert("token".to_owned(), token);
    }
    NativeRequest::post("/cloudlist.service/v5/add_list").params(JsonValue::Object(q)).data(
        JsonValue::Object(d),
    )
}

/// The qualities the privilege lookup asks about.
pub open spec fn privilege_qualities() -> Seq<JsonView> {
    Seq::empty().push(txt("128"@)).push(txt("320"@)).push(txt("flac"@)).push(txt("high"@)).push(
        txt("viper_atmos"@),
    ).push(txt("viper_tape"@)).push(txt("viper_clear"@)).push(txt("super"@)).push(
        txt("multitrack"@),
    )
}

/// The resources of `privilege_lite`: one audio per hash, with the matching
/// `album_id` piece.
pub open spec fn privilege_items(p: JsonView) -> Seq<JsonView> {
    let base = insert_entry(no_entries(), "type"@, txt("audio"@));
    let base = insert_entry(base, "page_id"@, num(0));
    let base = insert_entry(base, "album_id"@, num(0));
    applied_field(
        csv_hash_resource_view(p, "hash"@, "hash"@, JsonView::Object(base)),
        split(list_text(p, "album_id"@), ','),
        "album_id"@,
        false,
    )
}

/// The upstream request of `privilege_lite`.
pub open spec fn privilege_lite_request(p: JsonView, c: Clock) -> RequestView {
    let d = no_entries();
    let d = insert_entry(d, "appid"@, num(platform_appid(c.lite)));
    let d = insert_entry(d, "area_code"@, num(1));
    let d = insert_entry(d, "behavior"@, txt("play"@));
    let d = insert_entry(d, "clientver"@, num(platform_clientver(c.lite)));
    let d = insert_entry(d, "need_hash_offset"@, num(1));
    let d = insert_entry(d, "relate"@, num(1));
    let d = insert_entry(d, "support_verify"@, num(1));
    let d = insert_entry(d, "resource"@, JsonView::Array(privilege_items(p)));
    let d = insert_entry(d, "qualities"@, JsonView::Array(privilege_qualities()));
    request("/v2/get_res_privilege/lite"@, Method::Post).with_data(JsonView::Object(d)).with_header(
        "x-router"@,
        "media.store.kugou.com"@,
    ).with_header("Content-Type"@, "application/json"@)
}

/// Describes the upstream request of `privilege_lite`.
pub fn privilege_lite(params: &JsonValue, c: Clock) -> (r: NativeRequest)
    ensures
        r@ == privilege_lite_request(params@, c),
{
    let mut base = JsonObject::new();
    base.insert("type".to_owned(), JsonValue::text("audio"));
    base.insert("page_id".to_owned(), JsonValue::unsigned(0));
    base.insert("album_id".to_owned(), JsonValue::unsigned(0));
    let mut resource = csv_hash_resource(params, "hash", "hash", JsonValue::Object(base));
    let ghost r0 = items_of(resource@);
    assert(r0 =~= csv_hash_resource_view(params@, "hash"@, "hash"@, JsonView::Object(base@)));
    apply_csv_field(&mut resource, params, "album_id", "album_id");
    assert(items_of(resource@) =~= applied_field(
        r0,
        split(list_text(params@, "album_id"@), ','),
        "album_id"@,
        false,
    ));
    let mut qs = no_items();
    push_item(&mut qs, JsonValue::text("128"));
    push_item(&mut qs, JsonValue::text("320"));
    push_item(&mut qs, JsonValue::text("flac"));
    push_item(&mut qs, JsonValue::text("high"));
    push_item(&mut qs, JsonValue::text("viper_atmos"));
    push_item(&mut qs, JsonValue::text("viper_tape"));
    push_item(&mut qs, JsonValue::text("viper_clear"));
    push_item(&mut qs, JsonValue::text("super"));
    push_item(&mut qs, JsonValue::text("multitrack"));
    let mut d = JsonObject::new();
    d.insert("appid".to_owned(), appid_value(c));
    d.insert("area_code".to_owned(), JsonValue::unsigned(1));
    d.insert("behavior".to_owned(), JsonValue::text("play"));
    d.insert("clientver".to_owned(), clientver_value(c));
    d.insert("need_hash_offset".to_owned(), JsonValue::unsigned(1));
    d.insert("relate".to_owned(), JsonValue::unsigned(1));
    d.insert("support_verify".to_owned(), JsonValue::unsigned(1));
    d.insert("resource".to_owned(), array(resource));
    d.insert("qualities".to_owned(), array(qs));
    NativeRequest::post("/v2/get_res_privilege/lite").data(JsonValue::Object(d)).header(
        "x-router",
        "media.store.kugou.com",
    ).header("Content-Type", "application/json")
}

/// The upstream request of `video_privilege`.
pub open spec fn video_privilege_request(p: JsonView, c: Clock) -> RequestView {
    let d = no_entries();
    let d = insert_entry(d, "appid"@, num(platform_appid(c.lite)));
    let d = insert_entry(d, "area_code"@, num(1));
    let d = insert_entry(d, "behavior"@, txt("play"@));
    let d = insert_entry(d, "clientver"@, num(platform_clientver(c.lite)));
    let d = insert_entry(d, "dfid"@, or_default(cookie(p, "dfid"@), txt("-"@)));
    let d = insert_entry(d, "mid"@, or_default(cookie(p, "KUGOU_API_MID"@), JsonView::Null));
    let d = insert_entry(d, "resource"@, shaped_pieces(list_text(p, "hash"@), PieceShape::VideoHash));
    let d = insert_entry(d, "token"@, or_default(cookie(p, "token"@), txt(""@)));
    let d = insert_entry(d, "userid"@, or_default(cookie(p, "userid"@), num(0)));
    let d = insert_entry(d, "vip"@, or_default(cookie(p, "vip_type"@), num(0)));
    request("/v1/get_video_privilege"@, Method::Post).with_data(JsonView::Object(d)).with_header(
        "x-router"@,
        "media.store.kugou.com"@,
    )
}

/// Describes the upstream request of `video_privilege`.
pub fn video_privilege(params: &JsonValue, c: Clock) -> (r: NativeRequest)
    ensures
        r@ == video_privilege_request(params@, c),
{
    empty_is_empty();
    let hashes = js_string(&value_or(params, "hash", JsonValue::text("")));
    let mut d = JsonObject::new();
    d.insert("appid".to_owned(), appid_value(c));
    d.insert("area_code".to_owned(), JsonValue::unsigned(1));
    d.insert("behavior".to_owned(), JsonValue::text("play"));
    d.insert("clientver".to_owned(), clientver_value(c));
    d.insert("dfid".to_owned(), cookie_or(params, "dfid", JsonValue::text("-")));
    d.insert("mid".to_owned(), cookie_or(params, "KUGOU_API_MID", JsonValue::Null));
    d.insert("resource".to_owned(), shaped_list(hashes.as_str(), PieceShape::VideoHash));
    d.insert("token".to_owned(), cookie_or(params, "token", JsonValue::text("")));
    d.insert("userid".to_owned(), cookie_or(params, "userid", JsonValue::unsigned(0)));
    d.insert("vip".to_owned(), cookie_or(params, "vip_type", JsonValue::unsigned(0)));
    NativeRequest::post("/v1/get_video_privilege").data(JsonValue::Object(d)).header(
        "x-router",
        "media.store.kugou.com",
    )
}

/// The recommendation parameters of `brush`.
pub open spec fn brush_params(p: JsonView, c: Clock) -> Seq<(Seq<char>, JsonView)> {
    let userid = cookie_then_param(p, "userid"@, num(0));
    let o = no_entries();
    let o = insert_entry(o, "userid"@, userid);
    let o = insert_entry(o, "appid"@, num(platform_appid(c.lite)));
    let o = insert_entry(o, "playlist_ver"@, num(2));
    let o = insert_entry(o, "clienttime"@, num(c.now_ms));
    let o = insert_entry(o, "mid"@, or_default(cookie(p, "KUGOU_API_MID"@), JsonView::Null));
    let o = insert_entry(o, "new_sync_point"@, num(c.now_ms));
    let o = insert_entry(o, "module_id"@, num(1));
    let o = insert_entry(o, "action"@, txt("login"@));
    let o = insert_entry(
        o,
        "vip_type"@,
        or_default(cookie(p, "vip_type"@), param_or(p, "vipType"@, num(0))),
    );
    let o = insert_entry(o, "vip_flags"@, num(3));
    let o = insert_entry(o, "recommend_source_locked"@, num(0));
    let o = insert_entry(o, "song_pool_id"@, js_number(param_or(p, "song_pool_id"@, num(0))));
    let o = insert_entry(o, "callerid"@, num(0));
    let o = insert_entry(o, "m_type"@, num(1));
    let o = insert_entry(o, "kguid"@, userid);
    let o = insert_entry(o, "platform"@, txt("ios"@));
    let o = insert_entry(o, "area_code"@, num(1));
    let o = insert_entry(o, "fakem"@, txt("ca981cfc583a4c37f28d2d49000013c16a0a"@));
    let o = insert_entry(o, "clientver"@, num(11850));
    let o = insert_entry(o, "mode"@, param_or(p, "mode"@, txt("normal"@)));
    let o = insert_entry(o, "active_swtich"@, txt("on"@));
    insert_entry(o, "key"@, txt(params_key(decimal(c.now_ms as nat), c.lite)))
}

/// The upstream request of `brush`.
pub open spec fn brush_request(p: JsonView, c: Clock) -> RequestView {
    let q = no_entries();
    let q = insert_entry(q, "sort_type"@, num(1));
    let q = insert_entry(q, "platform"@, txt("ios"@));
    let q = insert_entry(q, "page"@, num(1));
    let q = insert_entry(q, "content_ver"@, num(4));
    let q = insert_entry(q, "clientver"@, num(11850));
    let shua = insert_entry(no_entries(), "commentcard"@, num(2));
    let inner = insert_entry(no_entries(), "shuashua"@, JsonView::Object(shua));
    let ab = insert_entry(no_entries(), "abtest"@, JsonView::Object(inner));
    let d = insert_entry(no_entries(), "behaviors"@, JsonView::Array(Seq::empty()));
    let d = insert_entry(d, "abtest"@, JsonView::Object(ab));
    let d = insert_entry(d, "personal_recommend_params"@, JsonView::Object(brush_params(p, c)));
    request("/genesisapi/v1/newepoch_song_rec/feed"@, Method::Post).with_params(JsonView::Object(q)).with_data(
        JsonView::Object(d),
    )
}

/// Describes the upstream request of `brush`.
pub fn brush(params: &JsonValue, c: Clock) -> (r: NativeRequest)
    ensures
        r@ == brush_request(params@, c),
{
    let userid = cookie_or_param(params, "userid", JsonValue::unsigned(0));
    let mut o = JsonObject::new();
    o.insert("userid".to_owned(), userid.deep_clone());
    o.insert("appid".to_owned(), appid_value(c));
    o.insert("playlist_ver".to_owned(), JsonValue::unsigned(2));
    o.insert("clienttime".to_owned(), JsonValue::unsigned(c.now_ms));
    o.insert("mid".to_owned(), cookie_or(params, "KUGOU_API_MID", JsonValue::Null));
    o.insert("new_sync_point".to_owned(), JsonValue::unsigned(c.now_ms));
    o.insert("module_id".to_owned(), JsonValue::unsigned(1));
    o.insert("action".to_owned(), JsonValue::text("login"));
    o.insert(
        "vip_type".to_owned(),
        cookie_or(params, "vip_type", value_or(params, "vipType", JsonValue::unsigned(0))),
    );
    o.insert("vip_flags".to_owned(), JsonValue::unsigned(3));
    o.insert("recommend_source_locked".to_owned(), JsonValue::unsigned(0));
    o.insert(
        "song_pool_id".to_owned(),
        number_value(value_or(params, "song_pool_id", JsonValue::unsigned(0))),
    );
    o.insert("callerid".to_owned(), JsonValue::unsigned(0));
    o.insert("m_type".to_owned(), JsonValue::unsigned(1));
    o.insert("kguid".to_owned(), userid);
    o.insert("platform".to_owned(), JsonValue::text("ios"));
    o.insert("area_code".to_owned(), JsonValue::unsigned(1));
    o.insert("fakem".to_owned(), JsonValue::text("ca981cfc583a4c37f28d2d49000013c16a0a"));
    o.insert("clientver".to_owned(), JsonValue::unsigned(11850));
    o.insert("mode".to_owned(), value_or(params, "mode", JsonValue::text("normal")));
    o.insert("active_swtich".to_owned(), JsonValue::text("on"));
    o.insert("key".to_owned(), JsonValue::Str(sign_params_key(c.now_ms, c.lite)));
    let mut q = JsonObject::new();
    q.insert("sort_type".to_owned(), JsonValue::unsigned(1));
    q.insert("platform".to_owned(), JsonValue::text("ios"));
    q.insert("page".to_owned(), JsonValue::unsigned(1));
    q.insert("content_ver".to_owned(), JsonValue::unsigned(4));
    q.insert("clientver".to_owned(), JsonValue::unsigned(11850));
    let mut shua = JsonObject::new();
    shua.insert("commentcard".to_owned(), JsonValue::unsigned(2));
    let mut inner = JsonObject::new();
    inner.insert("shuashua".to_owned(), JsonValue::Object(shua));
    let mut ab = JsonObject::new();
    ab.insert("abtest".to_owned(), JsonValue::Object(inner));
    let mut d = JsonObject::new();
    d.insert("behaviors".to_owned(), array(no_items()));
    d.insert("abtest".to_owned(), JsonValue::Object(ab));
    d.insert("personal_recommend_params".to_owned(), JsonValue::Object(o));
    NativeRequest::post("/genesisapi/v1/newepoch_song_rec/feed").params(JsonValue::Object(q)).data(
        JsonValue::Object(d),
    )
}

/// The comment resource type: the first truthy of `resource_type` and
/// `resourceType`, as text with ASCII letters lowered, else empty.
pub open spec fn floor_resource_type(p: JsonView) -> Seq<char> {
    ascii_lower(
        match truthy_param(p, "resource_type"@) {
            Some(v) => js_text(v),
            None => match truthy_param(p, "resourceType"@) {
                Some(v) => js_text(v),
                None => Seq::empty(),
            },
        },
    )
}

/// The comment code: a present `code` parameter, else the code of the
/// resource type (songs unless playlist or album).
pub open spec fn floor_code(p: JsonView) -> Seq<char> {
    match get_field(p, "code"@) {
        Some(v) if is_nonempty_text(js_text(v)) => js_text(v),
        _ => if floor_resource_type(p) == "playlist"@ {
            "ca53b96fe5a1d9c22d71c8f522ef7c4f"@
        } else if floor_resource_type(p) == "album"@ {
            "94f1792ced1df89aa68a7939eaf2efca"@
        } else {
            "fc4be23b4e972707f36b8a828a93ba8a"@
        },
    }
}

/// Whether the floor belongs to the general comment service (playlists and
/// albums) rather than the song comments.
pub open spec fn floor_on_service(p: JsonView) -> bool {
    ||| floor_resource_type(p) == "playlist"@
    ||| floor_resource_type(p) == "album"@
    ||| floor_code(p) == "ca53b96fe5a1d9c22d71c8f522ef7c4f"@
    ||| floor_code(p) == "94f1792ced1df89aa68a7939eaf2efca"@
}

/// The upstream request of `comment_floor`.
pub open spec fn comment_floor_request(p: JsonView, c: Clock) -> RequestView {
    let q = no_entries();
    let q = insert_entry(q, "childrenid"@, param(p, "special_id"@));
    let q = insert_entry(q, "need_show_image"@, num(1));
    let q = insert_entry(q, "p"@, param_or(p, "page"@, num(1)));
    let q = insert_entry(q, "pagesize"@, param_or(p, "pagesize"@, num(30)));
    let q = insert_entry(q, "show_classify"@, param_nullish(p, "show_classify"@, num(1)));
    let q = insert_entry(q, "show_hotword_list"@, param_nullish(p, "show_hotword_list"@, num(1)));
    let q = insert_entry(q, "code"@, txt(floor_code(p)));
    let q = insert_entry(q, "tid"@, param(p, "tid"@));
    let q = match get_field(p, "mixsongid"@) {
        Some(v) if is_nonempty_text(js_text(v)) => insert_entry(q, "mixsongid"@, v),
        _ => q,
    };
    let path = if floor_on_service(p) {
        "/m.comment.service/v1/hot_replylist"@
    } else {
        "/mcomment/v1/hot_replylist"@
    };
    request(path, Method::Post).with_params(JsonView::Object(q))
}

fn resource_type_text(params: &JsonValue) -> (r: String)
    ensures
        r@ == floor_resource_type(params@),
{
    let raw = match truthy_value(params, "resource_type") {
        Some(v) => js_string(&v),
        None => match truthy_value(params, "resourceType") {
            Some(v) => js_string(&v),
            None => String::new(),
        },
    };
    let cs = chars_of(raw.as_str());
    let lowered = ascii_lower_chars(cs.as_slice());
    string_of(lowered.as_slice())
}

/// Describes the upstream request of `comment_floor`.
pub fn comment_floor(params: &JsonValue, c: Clock) -> (r: NativeRequest)
    ensures
        r@ == comment_floor_request(params@, c),
{
    let kind = resource_type_text(params);
    let given = match params.get("code") {
        Some(v) => if nonempty(v) {
            Some(js_string(v))
        } else {
            None
        },
        None => None,
    };
    let code = match given {
        Some(t) => t,
        None => if str_eq(kind.as_str(), "playlist") {
            "ca53b96fe5a1d9c22d71c8f522ef7c4f".to_owned()
        } else if str_eq(kind.as_str(), "album") {
            "94f1792ced1df89aa68a7939eaf2efca".to_owned()
        } else {
            "fc4be23b4e972707f36b8a828a93ba8a".to_owned()
        },
    };
    let service = str_eq(kind.as_str(), "playlist") || str_eq(kind.as_str(), "album") || str_eq(
        code.as_str(),
        "ca53b96fe5a1d9c22d71c8f522ef7c4f",
    ) || str_eq(code.as_str(), "94f1792ced1df89aa68a7939eaf2efca");
    let mut q = JsonObject::new();
    q.insert("childrenid".to_owned(), value(params, "special_id"));
    q.insert("need_show_image".to_owned(), JsonValue::unsigned(1));
    q.insert("p".to_owned(), value_or(params, "page", JsonValue::unsigned(1)));
    q.insert("pagesize".to_owned(), value_or(params, "pagesize", JsonValue::unsigned(30)));
    q.insert("show_classify".to_owned(), value_nullish(params, "show_classify", JsonValue::unsigned(1)));
    q.insert(
        "show_hotword_list".to_owned(),
        value_nullish(params, "show_hotword_list", JsonValue::unsigned(1)),
    );
    q.insert("code".to_owned(), JsonValue::Str(code));
    q.insert("tid".to_owned(), value(params, "tid"));
    match params.get("mixsongid") {
        Some(v) => if nonempty(v) {
            q.insert("mixsongid".to_owned(), v.deep_clone());
        },
        None => {},
    }
    let path = if service {
        "/m.comment.service/v1/hot_replylist"
    } else {
        "/mcomment/v1/hot_replylist"
    };
    NativeRequest::post(path).params(JsonValue::Object(q))
}

/// The request a module of this group describes, if it is one of them.
#[verifier::opaque]
pub open spec fn requested(m: Seq<char>, p: JsonView, c: Clock) -> Option<RequestView> {
    if m == "album"@ {
        Some(album_request(p, c))
    } else if m == "audio"@ {
        Some(audio_request(p, c))
    } else if m == "brush"@ {
        Some(brush_request(p, c))
    } else if m == "comment_floor"@ {
        Some(comment_floor_request(p, c))
    } else if m == "fm_image"@ {
        Some(fm_image_request(p, c))
    } else if m == "fm_songs"@ {
        Some(fm_songs_request(p, c))
    } else if m == "personal_fm"@ {
        Some(personal_fm_request(p, c))
    } else if m == "playlist_add"@ {
        Some(playlist_add_request(p, c))
    } else if m == "privilege_lite"@ {
        Some(privilege_lite_request(p, c))
    } else if m == "video_privilege"@ {
        Some(video_privilege_request(p, c))
    } else {
        None
    }
}

/// The request a module of this group describes (see [`requested`]).
pub fn request_for(module: &str, params: &JsonValue, c: Clock) -> (r: Option<NativeRequest>)
    ensures
        match r {
            Some(q) => requested(module@, params@, c) == Some(q@),
            None => requested(module@, params@, c) is None,
        },
{
    reveal(requested);
    if str_eq(module, "album") {
        return Some(album(params, c));
    }
    if str_eq(module, "audio") {
        return Some(audio(params, c));
    }
    if str_eq(module, "brush") {
        return Some(brush(params, c));
    }
    if str_eq(module, "comment_floor") {
        return Some(comment_floor(params, c));
    }
    if str_eq(module, "fm_image") {
        return Some(fm_image(params, c));
    }
    if str_eq(module, "fm_songs") {
        return Some(fm_songs(params, c));
    }
    if str_eq(module, "personal_fm") {
        return Some(personal_fm(params, c));
    }
    if str_eq(module, "playlist_add") {
        return Some(playlist_add(params, c));
    }
    if str_eq(module, "privilege_lite") {
        return Some(privilege_lite(params, c));
    }
    if str_eq(module, "video_privilege") {
        return Some(video_privilege(params, c));
    }
    None
}

/// Whether `m` is one of the modules described here.
pub open spec fn handles(m: Seq<char>) -> bool {
    m == "album"@
        || m == "audio"@
        || m == "brush"@
        || m == "comment_floor"@
        || m == "fm_image"@
        || m == "fm_songs"@
        || m == "personal_fm"@
        || m == "playlist_add"@
        || m == "privilege_lite"@
        || m == "video_privilege"@
}

/// Each module described here has a request.
pub proof fn lemma_handled_requested(m: Seq<char>, p: JsonView, c: Clock)
    requires
        handles(m),
    ensures
        requested(m, p, c) is Some,
{
    reveal(requested);
}

} // verus!
