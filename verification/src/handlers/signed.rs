//! Requests that carry a digest of their own fields: signed queries, keys and
//! request ids.
use crate::form::{form_text, path_with_query, text_pairs};
use crate::handlers::{
    appid_value, array, clientver_value, cookie_or, flag, flag_value, items_of, no_entries,
    no_items, num, or_default, param_is, param_text_is, push_item, truthy_param, truthy_value, txt,
    Clock,
};
use crate::handlers::choices::{text_or_undefined, text_or_undefined_of};
use crate::js::{is_truthy, is_zero_value, js_number, js_string, js_text, number_is_zero, number_value, truthy};
use crate::json::{get_field, insert_entry, JsonNumber, JsonObject, JsonValue, JsonView, NumberView};
use crate::params::{
    applied_field, apply_csv_field, apply_csv_field_or_zero, cookie, csv_hash_resource,
    csv_hash_resource_view, csv_objects, csv_objects_view, list_text, param, param_nullish,
    param_or, param_or_cookie, param_then_cookie, value, value_nullish, value_or,
};
use crate::signing::{
    android_signature, joined_pairs, md5_hex, md5_hex_of, params_key, platform_appid,
    platform_clientver, platform_numbers, sign_params_key, signature_android, sorted_pairs,
};
use crate::text::{decimal, lower_case, lowercase, split, u128_text};
use crate::handlers::slice_text;
use crate::upstream::{request, Method, NativeRequest, RequestView, SignatureKind};
use crate::text::str_eq;
use vstd::prelude::*;

verus! {

/// The salt of the sing service's query signature.
pub open spec fn sing_salt() -> Seq<char> {
    "*s&iN#G70*"@
}

/// The sing service's signature: characters 8..24 of the hex MD5 of the
/// `&`-joined sorted pairs followed by the salt.
pub open spec fn sing_sign(q: Seq<(Seq<char>, JsonView)>) -> Seq<char> {
    md5_hex(joined_pairs(q, "&"@) + sing_salt()).subrange(8, 24)
}

/// Adds the sing service's signature to a query.
fn add_sing_sign(q: &mut JsonObject)
    ensures
        final(q)@ == insert_entry(old(q)@, "sign"@, txt(sing_sign(old(q)@))),
{
    let mut text = sorted_pairs(q, "&");
    text.append("*s&iN#G70*");
    let digest = md5_hex_of(text.as_str());
    let sign = slice_text(digest.as_str(), 8, 24);
    q.insert("sign".to_owned(), JsonValue::Str(sign));
}

/// The upstream request of `audio_accompany_matching`.
pub open spec fn audio_accompany_matching_request(p: JsonView, c: Clock) -> RequestView {
    let mix_id = js_number(param(p, "mixId"@));
    let q = no_entries();
    let q = insert_entry(q, "isteen"@, num(0));
    let q = insert_entry(
        q,
        "mixId"@,
        if is_truthy(mix_id) {
            mix_id
        } else {
            num(0)
        },
    );
    let q = insert_entry(q, "usemkv"@, num(1));
    let q = insert_entry(q, "platform"@, num(2));
    let q = insert_entry(q, "fileName"@, param_or(p, "fileName"@, txt(""@)));
    let q = insert_entry(q, "hash"@, param(p, "hash"@));
    let q = insert_entry(q, "version"@, num(12375));
    let q = insert_entry(q, "appid"@, num(platform_appid(c.lite)));
    let q = insert_entry(q, "sign"@, txt(sing_sign(q)));
    request(
        "/sing7/accompanywan/json/v2/cdn/optimal_matching_accompany_2_listen.do"@,
        Method::Get,
    ).with_base_url("https://nsongacsing.kugou.com"@).with_params(JsonView::Object(q)).cleared().signed(
        SignatureKind::Unsigned,
    )
}

/// Describes the upstream request of `audio_accompany_matching`.
pub fn audio_accompany_matching(params: &JsonValue, c: Clock) -> (r: NativeRequest)
    ensures
        r@ == audio_accompany_matching_request(params@, c),
{
    let mix_id = number_value(value(params, "mixId"));
    let mix = if truthy(&mix_id) {
        mix_id
    } else {
        JsonValue::unsigned(0)
    };
    let mut q = JsonObject::new();
    q.insert("isteen".to_owned(), JsonValue::unsigned(0));
    q.insert("mixId".to_owned(), mix);
    q.insert("usemkv".to_owned(), JsonValue::unsigned(1));
    q.insert("platform".to_owned(), JsonValue::unsigned(2));
    q.insert("fileName".to_owned(), value_or(params, "fileName", JsonValue::text("")));
    q.insert("hash".to_owned(), value(params, "hash"));
    q.insert("version".to_owned(), JsonValue::unsigned(12375));
    q.insert("appid".to_owned(), appid_value(c));
    add_sing_sign(&mut q);
    NativeRequest::get("/sing7/accompanywan/json/v2/cdn/optimal_matching_accompany_2_listen.do").base_url(
        "https://nsongacsing.kugou.com",
    ).params(JsonValue::Object(q)).clear_default_params().unsigned()
}

/// The upstream request of `audio_ktv_total`.
pub open spec fn audio_ktv_total_request(p: JsonView, c: Clock) -> RequestView {
    let q = no_entries();
    let q = insert_entry(q, "isteen"@, num(0));
    let q = insert_entry(q, "songId"@, js_number(param(p, "songId"@)));
    let q = insert_entry(q, "usemkv"@, num(1));
    let q = insert_entry(q, "platform"@, num(2));
    let q = insert_entry(q, "singerName"@, param(p, "singerName"@));
    let q = insert_entry(q, "songHash"@, param(p, "songHash"@));
    let q = insert_entry(q, "version"@, num(12375));
    let q = insert_entry(q, "appid"@, num(platform_appid(c.lite)));
    let q = insert_entry(q, "sign"@, txt(sing_sign(q)));
    request(
        "/sing7/listenguide/json/v2/cdn/listenguide/get_total_opus_num_v02.do"@,
        Method::Get,
    ).with_base_url("https://acsing.service.kugou.com"@).with_params(JsonView::Object(q)).cleared().signed(
        SignatureKind::Unsigned,
    )
}

/// Describes the upstream request of `audio_ktv_total`.
pub fn audio_ktv_total(params: &JsonValue, c: Clock) -> (r: NativeRequest)
    ensures
        r@ == audio_ktv_total_request(params@, c),
{
    let mut q = JsonObject::new();
    q.insert("isteen".to_owned(), JsonValue::unsigned(0));
    q.insert("songId".to_owned(), number_value(value(params, "songId")));
    q.insert("usemkv".to_owned(), JsonValue::unsigned(1));
    q.insert("platform".to_owned(), JsonValue::unsigned(2));
    q.insert("singerName".to_owned(), value(params, "singerName"));
    q.insert("songHash".to_owned(), value(params, "songHash"));
    q.insert("version".to_owned(), JsonValue::unsigned(12375));
    q.insert("appid".to_owned(), appid_value(c));
    add_sing_sign(&mut q);
    NativeRequest::get("/sing7/listenguide/json/v2/cdn/listenguide/get_total_opus_num_v02.do").base_url(
        "https://acsing.service.kugou.com",
    ).params(JsonValue::Object(q)).clear_default_params().unsigned()
}

/// The salt around the related-songs signature.
pub open spec fn related_salt() -> Seq<char> {
    "OIlwieks28dk2k092lksi2UIkp"@
}

/// 2 for `sort=hot`, 3 for `sort=new`, else 1.
pub open spec fn related_sort(p: JsonView) -> JsonView {
    if param_is(p, "sort"@, "hot"@) {
        num(2)
    } else if param_is(p, "sort"@, "new"@) {
        num(3)
    } else {
        num(1)
    }
}

/// The query of `audio_related` before its signature: the paging fields
/// only when `show_detail` is not zero.
pub open spec fn related_query(p: JsonView) -> Seq<(Seq<char>, JsonView)> {
    let q = no_entries();
    let q = insert_entry(q, "album_audio_id"@, js_number(param(p, "album_audio_id"@)));
    let q = insert_entry(q, "appid"@, num(1005));
    let q = insert_entry(q, "area_code"@, num(1));
    let q = insert_entry(q, "clientver"@, num(12329));
    let q = if !is_zero_value(get_field(p, "show_detail"@)) {
        let q = insert_entry(q, "page"@, param_or(p, "page"@, num(1)));
        let q = insert_entry(q, "pagesize"@, param_or(p, "pagesize"@, num(30)));
        let q = insert_entry(q, "show_input"@, num(1));
        let q = insert_entry(q, "show_type"@, param_or(p, "show_type"@, num(0)));
        let q = insert_entry(q, "sort"@, related_sort(p));
        insert_entry(q, "type"@, param_or(p, "type"@, num(0)))
    } else {
        q
    };
    insert_entry(q, "version"@, num(1))
}

/// The upstream request of `audio_related`: the totals when `show_detail` is
/// zero, else the related songs, signed with the salted digest of the pairs.
pub open spec fn audio_related_request(p: JsonView, c: Clock) -> RequestView {
    let q = related_query(p);
    let q = insert_entry(
        q,
        "signature"@,
        txt(md5_hex(related_salt() + joined_pairs(q, Seq::empty()) + related_salt())),
    );
    let path = if is_zero_value(get_field(p, "show_detail"@)) {
        "/v2/audio_related/total"@
    } else {
        "/v3/album_audio/related"@
    };
    request(path, Method::Get).with_base_url("https://listkmrp3cdnretry.kugou.com"@).with_params(
        JsonView::Object(q),
    ).cleared()
}

/// Describes the upstream request of `audio_related`.
pub fn audio_related(params: &JsonValue, c: Clock) -> (r: NativeRequest)
    ensures
        r@ == audio_related_request(params@, c),
{
    let show_detail = number_is_zero(params.get("show_detail"));
    let mut q = JsonObject::new();
    q.insert("album_audio_id".to_owned(), number_value(value(params, "album_audio_id")));
    q.insert("appid".to_owned(), JsonValue::unsigned(1005));
    q.insert("area_code".to_owned(), JsonValue::unsigned(1));
    q.insert("clientver".to_owned(), JsonValue::unsigned(12329));
    if !show_detail {
        let sort = if param_text_is(params, "sort", "hot") {
            2
        } else if param_text_is(params, "sort", "new") {
            3
        } else {
            1
        };
        q.insert("page".to_owned(), value_or(params, "page", JsonValue::unsigned(1)));
        q.insert("pagesize".to_owned(), value_or(params, "pagesize", JsonValue::unsigned(30)));
        q.insert("show_input".to_owned(), JsonValue::unsigned(1));
        q.insert("show_type".to_owned(), value_or(params, "show_type", JsonValue::unsigned(0)));
        q.insert("sort".to_owned(), JsonValue::unsigned(sort));
        q.insert("type".to_owned(), value_or(params, "type", JsonValue::unsigned(0)));
    }
    q.insert("version".to_owned(), JsonValue::unsigned(1));
    let pairs = sorted_pairs(&q, "");
    proof {
        reveal_strlit("");
        assert(""@ =~= Seq::<char>::empty());
    }
    let mut text = "OIlwieks28dk2k092lksi2UIkp".to_owned();
    text.append(pairs.as_str());
    text.append("OIlwieks28dk2k092lksi2UIkp");
    q.insert("signature".to_owned(), JsonValue::Str(md5_hex_of(text.as_str())));
    let path = if show_detail {
        "/v2/audio_related/total"
    } else {
        "/v3/album_audio/related"
    };
    NativeRequest::get(path).base_url("https://listkmrp3cdnretry.kugou.com").params(
        JsonValue::Object(q),
    ).clear_default_params()
}

/// The image resources of `images`: one per hash, with `album_id` and
/// `album_audio_id` taken from the matching pieces (0 when empty).
pub open spec fn image_items(p: JsonView) -> Seq<JsonView> {
    let base = insert_entry(insert_entry(no_entries(), "album_id"@, num(0)), "album_audio_id"@, num(0));
    let items = csv_hash_resource_view(p, "hash"@, "hash"@, JsonView::Object(base));
    let items = applied_field(items, split(list_text(p, "album_id"@), ','), "album_id"@, true);
    applied_field(items, split(list_text(p, "album_audio_id"@), ','), "album_audio_id"@, true)
}

/// The query of `images` before its signature.
pub open spec fn images_query(p: JsonView, c: Clock) -> Seq<(Seq<char>, JsonView)> {
    let q = no_entries();
    let q = insert_entry(q, "album_image_type"@, txt("-3"@));
    let q = insert_entry(q, "appid"@, num(platform_appid(c.lite)));
    let q = insert_entry(q, "clientver"@, num(platform_clientver(c.lite)));
    let q = insert_entry(q, "author_image_type"@, txt("3,4,5"@));
    let q = insert_entry(q, "count"@, param_or(p, "count"@, num(5)));
    let q = insert_entry(q, "data"@, JsonView::Array(image_items(p)));
    let q = insert_entry(q, "isCdn"@, num(1));
    insert_entry(q, "publish_time"@, num(1))
}

/// The upstream request of `images`: the query goes into the path, and only
/// its signature into the query parameters.
pub open spec fn images_request(p: JsonView, c: Clock) -> RequestView {
    let q = images_query(p, c);
    request("/container/v2/image"@ + "?"@ + form_text(text_pairs(q)), Method::Get).with_base_url(
        "https://expendablekmr.kugou.com"@,
    ).with_params(
        JsonView::Object(
            insert_entry(no_entries(), "signature"@, txt(android_signature(q, Seq::empty(), c.lite))),
        ),
    ).cleared()
}

fn empty_text() -> (r: &'static str)
    ensures
        r@ == Seq::<char>::empty(),
{
    proof {
        reveal_strlit("");
    }
    ""
}

/// Describes the upstream request of `images`.
pub fn images(params: &JsonValue, c: Clock) -> (r: NativeRequest)
    ensures
        r@ == images_request(params@, c),
{
    let mut base = JsonObject::new();
    base.insert("album_id".to_owned(), JsonValue::unsigned(0));
    base.insert("album_audio_id".to_owned(), JsonValue::unsigned(0));
    let mut data = csv_hash_resource(params, "hash", "hash", JsonValue::Object(base));
    let ghost d0 = items_of(data@);
    assert(d0 =~= csv_hash_resource_view(params@, "hash"@, "hash"@, JsonView::Object(base@)));
    apply_csv_field_or_zero(&mut data, params, "album_id", "album_id");
    let ghost d1 = items_of(data@);
    assert(d1 =~= applied_field(d0, split(list_text(params@, "album_id"@), ','), "album_id"@, true));
    apply_csv_field_or_zero(&mut data, params, "album_audio_id", "album_audio_id");
    assert(items_of(data@) =~= applied_field(
        d1,
        split(list_text(params@, "album_audio_id"@), ','),
        "album_audio_id"@,
        true,
    ));
    let mut q = JsonObject::new();
    q.insert("album_image_type".to_owned(), JsonValue::text("-3"));
    q.insert("appid".to_owned(), appid_value(c));
    q.insert("clientver".to_owned(), clientver_value(c));
    q.insert("author_image_type".to_owned(), JsonValue::text("3,4,5"));
    q.insert("count".to_owned(), value_or(params, "count", JsonValue::unsigned(5)));
    q.insert("data".to_owned(), array(data));
    q.insert("isCdn".to_owned(), JsonValue::unsigned(1));
    q.insert("publish_time".to_owned(), JsonValue::unsigned(1));
    let signature = signature_android(&q, empty_text(), c.lite);
    let path = path_with_query("/container/v2/image", &q);
    let mut sq = JsonObject::new();
    sq.insert("signature".to_owned(), JsonValue::Str(signature));
    NativeRequest::get(path.as_str()).base_url("https://expendablekmr.kugou.com").params(
        JsonValue::Object(sq),
    ).clear_default_params()
}

/// The image resources of `images_audio`: one per hash, with `audio_id` and
/// `album_audio_id` (0 when empty) and `filename` taken from the matching
/// pieces.
pub open spec fn audio_image_items(p: JsonView) -> Seq<JsonView> {
    let base = insert_entry(
        insert_entry(insert_entry(no_entries(), "audio_id"@, num(0)), "album_audio_id"@, num(0)),
        "filename"@,
        txt(""@),
    );
    let items = csv_hash_resource_view(p, "hash"@, "hash"@, JsonView::Object(base));
    let items = applied_field(items, split(list_text(p, "audio_id"@), ','), "audio_id"@, true);
    let items = applied_field(
        items,
        split(list_text(p, "album_audio_id"@), ','),
        "album_audio_id"@,
        true,
    );
    applied_field(items, split(list_text(p, "filename"@), ','), "filename"@, false)
}

/// The query of `images_audio` before its signature.
pub open spec fn images_audio_query(p: JsonView, c: Clock) -> Seq<(Seq<char>, JsonView)> {
    let q = no_entries();
    let q = insert_entry(q, "appid"@, num(platform_appid(c.lite)));
    let q = insert_entry(q, "clientver"@, num(platform_clientver(c.lite)));
    let q = insert_entry(q, "count"@, param_or(p, "count"@, num(5)));
    let q = insert_entry(q, "data"@, JsonView::Array(audio_image_items(p)));
    let q = insert_entry(q, "isCdn"@, num(1));
    let q = insert_entry(q, "publish_time"@, num(1));
    insert_entry(q, "show_authors"@, num(1))
}

/// The upstream request of `images_audio` (laid out as [`images_request`]).
pub open spec fn images_audio_request(p: JsonView, c: Clock) -> RequestView {
    let q = images_audio_query(p, c);
    request("/v2/author_image/audio"@ + "?"@ + form_text(text_pairs(q)), Method::Get).with_base_url(
        "https://expendablekmr.kugou.com"@,
    ).with_params(
        JsonView::Object(
            insert_entry(no_entries(), "signature"@, txt(android_signature(q, Seq::empty(), c.lite))),
        ),
    ).cleared()
}

/// Describes the upstream request of `images_audio`.
pub fn images_audio(params: &JsonValue, c: Clock) -> (r: NativeRequest)
    ensures
        r@ == images_audio_request(params@, c),
{
    let mut base = JsonObject::new();
    base.insert("audio_id".to_owned(), JsonValue::unsigned(0));
    base.insert("album_audio_id".to_owned(), JsonValue::unsigned(0));
    base.insert("filename".to_owned(), JsonValue::text(""));
    let mut data = csv_hash_resource(params, "hash", "hash", JsonValue::Object(base));
    let ghost d0 = items_of(data@);
    assert(d0 =~= csv_hash_resource_view(params@, "hash"@, "hash"@, JsonView::Object(base@)));
    apply_csv_field_or_zero(&mut data, params, "audio_id", "audio_id");
    let ghost d1 = items_of(data@);
    assert(d1 =~= applied_field(d0, split(list_text(params@, "audio_id"@), ','), "audio_id"@, true));
    apply_csv_field_or_zero(&mut data, params, "album_audio_id", "album_audio_id");
    let ghost d2 = items_of(data@);
    assert(d2 =~= applied_field(
        d1,
        split(list_text(params@, "album_audio_id"@), ','),
        "album_audio_id"@,
        true,
    ));
    apply_csv_field(&mut data, params, "filename", "filename");
    assert(items_of(data@) =~= applied_field(
        d2,
        split(list_text(params@, "filename"@), ','),
        "filename"@,
        false,
    ));
    let mut q = JsonObject::new();
    q.insert("appid".to_owned(), appid_value(c));
    q.insert("clientver".to_owned(), clientver_value(c));
    q.insert("count".to_owned(), value_or(params, "count", JsonValue::unsigned(5)));
    q.insert("data".to_owned(), array(data));
    q.insert("isCdn".to_owned(), JsonValue::unsigned(1));
    q.insert("publish_time".to_owned(), JsonValue::unsigned(1));
    q.insert("show_authors".to_owned(), JsonValue::unsigned(1));
    let signature = signature_android(&q, empty_text(), c.lite);
    let path = path_with_query("/v2/author_image/audio", &q);
    let mut sq = JsonObject::new();
    sq.insert("signature".to_owned(), JsonValue::Str(signature));
    NativeRequest::get(path.as_str()).base_url("https://expendablekmr.kugou.com").params(
        JsonValue::Object(sq),
    ).clear_default_params()
}

/// The request id of a mixed search: the hex MD5 of a fixed prefix and the
/// client time, then `_0`.
pub open spec fn mixed_request_id(ms: u64) -> Seq<char> {
    md5_hex("bdaa53d04e7475feb9024164a47032f9"@ + decimal(ms as nat)) + "_0"@
}

/// The upstream request of `search_mixed`.
pub open spec fn search_mixed_request(p: JsonView, c: Clock) -> RequestView {
    let q = no_entries();
    let q = insert_entry(q, "ab_tag"@, num(0));
    let q = insert_entry(q, "ability"@, num(511));
    let q = insert_entry(q, "albumhide"@, num(0));
    let q = insert_entry(q, "apiver"@, num(22));
    let q = insert_entry(q, "area_code"@, num(1));
    let q = insert_entry(q, "clientver"@, num(20125));
    let q = insert_entry(q, "cursor"@, num(0));
    let q = insert_entry(q, "is_gpay"@, num(0));
    let q = insert_entry(q, "iscorrection"@, num(1));
    let q = insert_entry(q, "keyword"@, param(p, "keyword"@));
    let q = insert_entry(q, "nocollect"@, num(0));
    let q = insert_entry(q, "osversion"@, JsonView::Number(NumberView::Float("16.5"@)));
    let q = insert_entry(q, "platform"@, txt("IOSFilter"@));
    let q = insert_entry(q, "recver"@, num(2));
    let q = insert_entry(q, "req_ai"@, num(1));
    let q = insert_entry(q, "requestid"@, txt(mixed_request_id(c.now_ms)));
    let q = insert_entry(q, "search_ability"@, num(3));
    let q = insert_entry(q, "sec_aggre"@, num(1));
    let q = insert_entry(q, "sec_aggre_bitmap"@, num(0));
    let q = insert_entry(q, "style_type"@, num(3));
    let q = insert_entry(q, "tag"@, txt("em"@));
    request("/v3/search/mixed"@, Method::Get).with_params(JsonView::Object(q)).with_header(
        "x-router"@,
        "complexsearch.kugou.com"@,
    ).with_header("kg-clienttimems"@, decimal(c.now_ms as nat))
}

/// Describes the upstream request of `search_mixed`.
pub fn search_mixed(params: &JsonValue, c: Clock) -> (r: NativeRequest)
    ensures
        r@ == search_mixed_request(params@, c),
{
    let ms = u128_text(c.now_ms as u128);
    let mut seed = "bdaa53d04e7475feb9024164a47032f9".to_owned();
    seed.append(ms.as_str());
    let mut requestid = md5_hex_of(seed.as_str());
    requestid.append("_0");
    let mut q = JsonObject::new();
    q.insert("ab_tag".to_owned(), JsonValue::unsigned(0));
    q.insert("ability".to_owned(), JsonValue::unsigned(511));
    q.insert("albumhide".to_owned(), JsonValue::unsigned(0));
    q.insert("apiver".to_owned(), JsonValue::unsigned(22));
    q.insert("area_code".to_owned(), JsonValue::unsigned(1));
    q.insert("clientver".to_owned(), JsonValue::unsigned(20125));
    q.insert("cursor".to_owned(), JsonValue::unsigned(0));
    q.insert("is_gpay".to_owned(), JsonValue::unsigned(0));
    q.insert("iscorrection".to_owned(), JsonValue::unsigned(1));
    q.insert("keyword".to_owned(), value(params, "keyword"));
    q.insert("nocollect".to_owned(), JsonValue::unsigned(0));
    q.insert("osversion".to_owned(), JsonValue::Number(JsonNumber::Float("16.5".to_owned())));
    q.insert("platform".to_owned(), JsonValue::text("IOSFilter"));
    q.insert("recver".to_owned(), JsonValue::unsigned(2));
    q.insert("req_ai".to_owned(), JsonValue::unsigned(1));
    q.insert("requestid".to_owned(), JsonValue::Str(requestid));
    q.insert("search_ability".to_owned(), JsonValue::unsigned(3));
    q.insert("sec_aggre".to_owned(), JsonValue::unsigned(1));
    q.insert("sec_aggre_bitmap".to_owned(), JsonValue::unsigned(0));
    q.insert("style_type".to_owned(), JsonValue::unsigned(3));
    q.insert("tag".to_owned(), JsonValue::text("em"));
    NativeRequest::get("/v3/search/mixed").params(JsonValue::Object(q)).header(
        "x-router",
        "complexsearch.kugou.com",
    ).header("kg-clienttimems", ms.as_str())
}

/// The hash `song_url_new` asks for: the first truthy of `hash`,
/// `file_hash` and `FileHash`, as text, else empty.
pub open spec fn new_url_hash(p: JsonView) -> Seq<char> {
    match truthy_param(p, "hash"@) {
        Some(v) => js_text(v),
        None => match truthy_param(p, "file_hash"@) {
            Some(v) => js_text(v),
            None => match truthy_param(p, "FileHash"@) {
                Some(v) => js_text(v),
                None => Seq::empty(),
            },
        },
    }
}

/// The text of the truthy cookie `KUGOU_API_MID`, or `undefined`.
pub open spec fn mid_text(p: JsonView) -> Seq<char> {
    match cookie(p, "KUGOU_API_MID"@) {
        Some(v) => js_text(v),
        None => "undefined"@,
    }
}

/// The tracker key of `song_url_new`.
pub open spec fn tracker_key(p: JsonView, c: Clock) -> Seq<char> {
    let userid = js_number(param_then_cookie(p, "userid"@, txt("0"@)));
    md5_hex(
        new_url_hash(p) + "185672dd44712f60bb1736df5a377e82"@ + decimal(
            platform_appid(c.lite) as nat,
        ) + mid_text(p) + js_text(userid),
    )
}

/// The qualities a track may be offered in.
pub open spec fn track_qualities() -> Seq<JsonView> {
    Seq::empty().push(txt("128"@)).push(txt("320"@)).push(txt("flac"@)).push(txt("high"@)).push(
        txt("multitrack"@),
    ).push(txt("viper_atmos"@)).push(txt("viper_tape"@)).push(txt("viper_clear"@)).push(
        txt("super"@),
    )
}

/// The upstream request of `song_url_new`.
pub open spec fn song_url_new_request(p: JsonView, c: Clock) -> RequestView {
    let userid = js_number(param_then_cookie(p, "userid"@, txt("0"@)));
    let res = no_entries();
    let res = insert_entry(res, "album_audio_id"@, param(p, "album_audio_id"@));
    let res = insert_entry(res, "collect_list_id"@, txt("3"@));
    let res = insert_entry(res, "collect_time"@, num(c.now_ms));
    let res = insert_entry(res, "hash"@, txt(new_url_hash(p)));
    let res = insert_entry(res, "id"@, num(0));
    let res = insert_entry(res, "page_id"@, num(1));
    let res = insert_entry(res, "type"@, txt("audio"@));
    let tp = no_entries();
    let tp = insert_entry(tp, "all_m"@, num(1));
    let tp = insert_entry(tp, "auth"@, txt(""@));
    let tp = insert_entry(tp, "is_free_part"@, flag(p, "free_part"@));
    let tp = insert_entry(tp, "key"@, txt(tracker_key(p, c)));
    let tp = insert_entry(tp, "module_id"@, num(0));
    let tp = insert_entry(tp, "need_climax"@, num(1));
    let tp = insert_entry(tp, "need_xcdn"@, num(1));
    let tp = insert_entry(tp, "open_time"@, txt(""@));
    let tp = insert_entry(tp, "pid"@, txt("411"@));
    let tp = insert_entry(tp, "pidversion"@, txt("3001"@));
    let tp = insert_entry(tp, "priv_vip_type"@, txt("6"@));
    let tp = insert_entry(tp, "viptoken"@, param_then_cookie(p, "vip_token"@, txt(""@)));
    let d = no_entries();
    let d = insert_entry(d, "area_code"@, txt("1"@));
    let d = insert_entry(d, "behavior"@, txt("play"@));
    let d = insert_entry(d, "qualities"@, JsonView::Array(track_qualities()));
    let d = insert_entry(d, "resource"@, JsonView::Object(res));
    let d = insert_entry(d, "token"@, param_then_cookie(p, "token"@, txt(""@)));
    let d = insert_entry(d, "tracker_param"@, JsonView::Object(tp));
    let d = insert_entry(d, "userid"@, txt(js_text(userid)));
    let d = insert_entry(
        d,
        "vip"@,
        match cookie(p, "vip_type"@) {
            Some(v) => v,
            None => param_or(p, "vipType"@, num(0)),
        },
    );
    request("/v6/priv_url"@, Method::Post).with_base_url("http://tracker.kugou.com"@).with_data(
        JsonView::Object(d),
    )
}

fn first_truthy_text(params: &JsonValue) -> (r: String)
    ensures
        r@ == new_url_hash(params@),
{
    match truthy_value(params, "hash") {
        Some(v) => js_string(&v),
        None => match truthy_value(params, "file_hash") {
            Some(v) => js_string(&v),
            None => match truthy_value(params, "FileHash") {
                Some(v) => js_string(&v),
                None => String::new(),
            },
        },
    }
}

fn qualities() -> (r: JsonValue)
    ensures
        r@ == JsonView::Array(track_qualities()),
{
    let mut a = no_items();
    push_item(&mut a, JsonValue::text("128"));
    push_item(&mut a, JsonValue::text("320"));
    push_item(&mut a, JsonValue::text("flac"));
    push_item(&mut a, JsonValue::text("high"));
    push_item(&mut a, JsonValue::text("multitrack"));
    push_item(&mut a, JsonValue::text("viper_atmos"));
    push_item(&mut a, JsonValue::text("viper_tape"));
    push_item(&mut a, JsonValue::text("viper_clear"));
    push_item(&mut a, JsonValue::text("super"));
    array(a)
}

/// Describes the upstream request of `song_url_new`.
pub fn song_url_new(params: &JsonValue, c: Clock) -> (r: NativeRequest)
    ensures
        r@ == song_url_new_request(params@, c),
{
    let userid = number_value(param_or_cookie(params, "userid", JsonValue::text("0")));
    let hash = first_truthy_text(params);
    let mid = match cookie_or(params, "KUGOU_API_MID", JsonValue::Null) {
        JsonValue::Null => "undefined".to_owned(),
        v => js_string(&v),
    };
    let user_text = js_string(&userid);
    let mut seed = hash.clone();
    seed.append("185672dd44712f60bb1736df5a377e82");
    let appid = u128_text(platform_numbers(c.lite).0 as u128);
    seed.append(appid.as_str());
    seed.append(mid.as_str());
    seed.append(user_text.as_str());
    let key = md5_hex_of(seed.as_str());
    let mut res = JsonObject::new();
    res.insert("album_audio_id".to_owned(), value(params, "album_audio_id"));
    res.insert("collect_list_id".to_owned(), JsonValue::text("3"));
    res.insert("collect_time".to_owned(), JsonValue::unsigned(c.now_ms));
    res.insert("hash".to_owned(), JsonValue::Str(hash));
    res.insert("id".to_owned(), JsonValue::unsigned(0));
    res.insert("page_id".to_owned(), JsonValue::unsigned(1));
    res.insert("type".to_owned(), JsonValue::text("audio"));
    let mut tp = JsonObject::new();
    tp.insert("all_m".to_owned(), JsonValue::unsigned(1));
    tp.insert("auth".to_owned(), JsonValue::text(""));
    tp.insert("is_free_part".to_owned(), flag_value(params, "free_part"));
    tp.insert("key".to_owned(), JsonValue::Str(key));
    tp.insert("module_id".to_owned(), JsonValue::unsigned(0));
    tp.insert("need_climax".to_owned(), JsonValue::unsigned(1));
    tp.insert("need_xcdn".to_owned(), JsonValue::unsigned(1));
    tp.insert("open_time".to_owned(), JsonValue::text(""));
    tp.insert("pid".to_owned(), JsonValue::text("411"));
    tp.insert("pidversion".to_owned(), JsonValue::text("3001"));
    tp.insert("priv_vip_type".to_owned(), JsonValue::text("6"));
    tp.insert("viptoken".to_owned(), param_or_cookie(params, "vip_token", JsonValue::text("")));
    let vip = match truthy_cookie(params, "vip_type") {
        Some(v) => v,
        None => value_or(params, "vipType", JsonValue::unsigned(0)),
    };
    let mut d = JsonObject::new();
    d.insert("area_code".to_owned(), JsonValue::text("1"));
    d.insert("behavior".to_owned(), JsonValue::text("play"));
    d.insert("qualities".to_owned(), qualities());
    d.insert("resource".to_owned(), JsonValue::Object(res));
    d.insert("token".to_owned(), param_or_cookie(params, "token", JsonValue::text("")));
    d.insert("tracker_param".to_owned(), JsonValue::Object(tp));
    d.insert("userid".to_owned(), JsonValue::Str(user_text));
    d.insert("vip".to_owned(), vip);
    NativeRequest::post("/v6/priv_url").base_url("http://tracker.kugou.com").data(JsonValue::Object(d))
}

/// The truthy cookie `name`, if any.
fn truthy_cookie(params: &JsonValue, name: &str) -> (r: Option<JsonValue>)
    ensures
        match r {
            Some(v) => cookie(params@, name@) == Some(v@),
            None => cookie(params@, name@) is None,
        },
{
    crate::params::cookie_value(params, name)
}

/// The upstream request of `user_cloud_url`.
pub open spec fn user_cloud_url_request(p: JsonView, c: Clock) -> RequestView {
    let hash = lowercase(text_or_undefined(p, "hash"@));
    let key = md5_hex("musicclound"@ + hash + "20026ebd1ac3134c880bda6a2194537843caa0162e2e7"@);
    let q = no_entries();
    let q = insert_entry(q, "hash"@, txt(hash));
    let q = insert_entry(q, "ssa_flag"@, txt("is_fromtrack"@));
    let q = insert_entry(q, "version"@, txt("20102"@));
    let q = insert_entry(q, "ssl"@, num(0));
    let q = insert_entry(q, "album_audio_id"@, param_nullish(p, "album_audio_id"@, num(0)));
    let q = insert_entry(q, "pid"@, num(20026));
    let q = insert_entry(q, "audio_id"@, param_nullish(p, "audio_id"@, num(0)));
    let q = insert_entry(q, "kv_id"@, num(2));
    let q = insert_entry(q, "key"@, txt(key));
    let q = insert_entry(q, "bucket"@, txt("musicclound"@));
    let q = insert_entry(q, "name"@, param_nullish(p, "name"@, txt(""@)));
    let q = insert_entry(q, "with_res_tag"@, num(0));
    request("/bsstrackercdngz/v2/query_musicclound_url"@, Method::Get).with_params(JsonView::Object(q))
}

/// Describes the upstream request of `user_cloud_url`.
pub fn user_cloud_url(params: &JsonValue, c: Clock) -> (r: NativeRequest)
    ensures
        r@ == user_cloud_url_request(params@, c),
{
    let raw = text_or_undefined_of(params, "hash");
    let hash = lower_case(raw.as_str());
    let mut seed = "musicclound".to_owned();
    seed.append(hash.as_str());
    seed.append("20026ebd1ac3134c880bda6a2194537843caa0162e2e7");
    let key = md5_hex_of(seed.as_str());
    let mut q = JsonObject::new();
    q.insert("hash".to_owned(), JsonValue::Str(hash));
    q.insert("ssa_flag".to_owned(), JsonValue::text("is_fromtrack"));
    q.insert("version".to_owned(), JsonValue::text("20102"));
    q.insert("ssl".to_owned(), JsonValue::unsigned(0));
    q.insert(
        "album_audio_id".to_owned(),
        value_nullish(params, "album_audio_id", JsonValue::unsigned(0)),
    );
    q.insert("pid".to_owned(), JsonValue::unsigned(20026));
    q.insert("audio_id".to_owned(), value_nullish(params, "audio_id", JsonValue::unsigned(0)));
    q.insert("kv_id".to_owned(), JsonValue::unsigned(2));
    q.insert("key".to_owned(), JsonValue::Str(key));
    q.insert("bucket".to_owned(), JsonValue::text("musicclound"));
    q.insert("name".to_owned(), value_nullish(params, "name", JsonValue::text("")));
    q.insert("with_res_tag".to_owned(), JsonValue::unsigned(0));
    NativeRequest::get("/bsstrackercdngz/v2/query_musicclound_url").params(JsonValue::Object(q))
}

/// The upstream request of `video_detail`.
pub open spec fn video_detail_request(p: JsonView, c: Clock) -> RequestView {
    let secs = c.now_ms / 1000;
    let dfid = or_default(cookie(p, "dfid"@), txt("-"@));
    let mid = or_default(cookie(p, "KUGOU_API_MID"@), JsonView::Null);
    let d = no_entries();
    let d = insert_entry(d, "appid"@, num(platform_appid(c.lite)));
    let d = insert_entry(d, "clientver"@, num(platform_clientver(c.lite)));
    let d = insert_entry(d, "clienttime"@, num(secs));
    let d = insert_entry(d, "mid"@, mid);
    let d = insert_entry(d, "uuid"@, txt(md5_hex(js_text(dfid) + js_text(mid))));
    let d = insert_entry(d, "dfid"@, dfid);
    let d = insert_entry(d, "token"@, param_then_cookie(p, "token"@, txt(""@)));
    let d = insert_entry(d, "key"@, txt(params_key(decimal(secs as nat), c.lite)));
    let d = insert_entry(d, "show_resolution"@, num(1));
    let d = insert_entry(d, "data"@, csv_objects_view(p, "id"@, "video_id"@));
    request("/v1/video"@, Method::Post).with_data(JsonView::Object(d)).cleared().with_header(
        "x-router"@,
        "kmr.service.kugou.com"@,
    )
}

/// Describes the upstream request of `video_detail`.
pub fn video_detail(params: &JsonValue, c: Clock) -> (r: NativeRequest)
    ensures
        r@ == video_detail_request(params@, c),
{
    let secs = c.now_ms / 1000;
    let dfid = cookie_or(params, "dfid", JsonValue::text("-"));
    let mid = cookie_or(params, "KUGOU_API_MID", JsonValue::Null);
    let mut seed = js_string(&dfid);
    let mid_text = js_string(&mid);
    seed.append(mid_text.as_str());
    let uuid = md5_hex_of(seed.as_str());
    let mut d = JsonObject::new();
    d.insert("appid".to_owned(), appid_value(c));
    d.insert("clientver".to_owned(), clientver_value(c));
    d.insert("clienttime".to_owned(), JsonValue::unsigned(secs));
    d.insert("mid".to_owned(), mid);
    d.insert("uuid".to_owned(), JsonValue::Str(uuid));
    d.insert("dfid".to_owned(), dfid);
    d.insert("token".to_owned(), param_or_cookie(params, "token", JsonValue::text("")));
    d.insert("key".to_owned(), JsonValue::Str(sign_params_key(secs, c.lite)));
    d.insert("show_resolution".to_owned(), JsonValue::unsigned(1));
    d.insert("data".to_owned(), csv_objects(params, "id", "video_id"));
    NativeRequest::post("/v1/video").data(JsonValue::Object(d)).clear_default_params().header(
        "x-router",
        "kmr.service.kugou.com",
    )
}

/// The client time in seconds, rounded half up from the milliseconds.
pub open spec fn rounded_secs(ms: u64) -> u64 {
    (ms / 1000 + if ms % 1000 >= 500 { 1u64 } else { 0u64 }) as u64
}

/// The upstream request of `top_playlist`.
pub open spec fn top_playlist_request(p: JsonView, c: Clock) -> RequestView {
    let t = rounded_secs(c.now_ms);
    let sr = no_entries();
    let sr = insert_entry(sr, "withtag"@, param_or(p, "withtag"@, num(1)));
    let sr = insert_entry(sr, "withsong"@, param_or(p, "withsong"@, num(1)));
    let sr = insert_entry(sr, "sort"@, param_or(p, "sort"@, num(1)));
    let sr = insert_entry(sr, "ugc"@, num(1));
    let sr = insert_entry(sr, "is_selected"@, num(0));
    let sr = insert_entry(sr, "withrecommend"@, num(1));
    let sr = insert_entry(sr, "area_code"@, num(1));
    let sr = insert_entry(sr, "categoryid"@, param_or(p, "category_id"@, num(0)));
    let d = no_entries();
    let d = insert_entry(d, "appid"@, num(platform_appid(c.lite)));
    let d = insert_entry(d, "mid"@, or_default(cookie(p, "KUGOU_API_MID"@), JsonView::Null));
    let d = insert_entry(d, "clientver"@, num(platform_clientver(c.lite)));
    let d = insert_entry(d, "platform"@, txt("android"@));
    let d = insert_entry(d, "clienttime"@, txt(decimal(t as nat)));
    let d = insert_entry(d, "userid"@, param_then_cookie(p, "userid"@, num(0)));
    let d = insert_entry(d, "module_id"@, param_or(p, "module_id"@, num(1)));
    let d = insert_entry(d, "page"@, param_or(p, "page"@, num(1)));
    let d = insert_entry(d, "pagesize"@, param_or(p, "pagesize"@, num(30)));
    let d = insert_entry(d, "key"@, txt(params_key(decimal(t as nat), c.lite)));
    let d = insert_entry(d, "special_recommend"@, JsonView::Object(sr));
    let d = insert_entry(d, "req_multi"@, num(1));
    let d = insert_entry(d, "retrun_min"@, num(5));
    let d = insert_entry(d, "return_special_falg"@, num(1));
    request("/v2/special_recommend"@, Method::Post).with_data(JsonView::Object(d)).with_header(
        "x-router"@,
        "specialrec.service.kugou.com"@,
    )
}

/// Describes the upstream request of `top_playlist`.
pub fn top_playlist(params: &JsonValue, c: Clock) -> (r: NativeRequest)
    ensures
        r@ == top_playlist_request(params@, c),
{
    let t: u64 = c.now_ms / 1000 + if c.now_ms % 1000 >= 500 {
        1
    } else {
        0
    };
    let mut sr = JsonObject::new();
    sr.insert("withtag".to_owned(), value_or(params, "withtag", JsonValue::unsigned(1)));
    sr.insert("withsong".to_owned(), value_or(params, "withsong", JsonValue::unsigned(1)));
    sr.insert("sort".to_owned(), value_or(params, "sort", JsonValue::unsigned(1)));
    sr.insert("ugc".to_owned(), JsonValue::unsigned(1));
    sr.insert("is_selected".to_owned(), JsonValue::unsigned(0));
    sr.insert("withrecommend".to_owned(), JsonValue::unsigned(1));
    sr.insert("area_code".to_owned(), JsonValue::unsigned(1));
    sr.insert("categoryid".to_owned(), value_or(params, "category_id", JsonValue::unsigned(0)));
    let mut d = JsonObject::new();
    d.insert("appid".to_owned(), appid_value(c));
    d.insert("mid".to_owned(), cookie_or(params, "KUGOU_API_MID", JsonValue::Null));
    d.insert("clientver".to_owned(), clientver_value(c));
    d.insert("platform".to_owned(), JsonValue::text("android"));
    d.insert("clienttime".to_owned(), JsonValue::Str(u128_text(t as u128)));
    d.insert("userid".to_owned(), param_or_cookie(params, "userid", JsonValue::unsigned(0)));
    d.insert("module_id".to_owned(), value_or(params, "module_id", JsonValue::unsigned(1)));
    d.insert("page".to_owned(), value_or(params, "page", JsonValue::unsigned(1)));
    d.insert("pagesize".to_owned(), value_or(params, "pagesize", JsonValue::unsigned(30)));
    d.insert("key".to_owned(), JsonValue::Str(sign_params_key(t, c.lite)));
    d.insert("special_recommend".to_owned(), JsonValue::Object(sr));
    d.insert("req_multi".to_owned(), JsonValue::unsigned(1));
    d.insert("retrun_min".to_owned(), JsonValue::unsigned(5));
    d.insert("return_special_falg".to_owned(), JsonValue::unsigned(1));
    NativeRequest::post("/v2/special_recommend").data(JsonValue::Object(d)).header(
        "x-router",
        "specialrec.service.kugou.com",
    )
}

/// The request a module of this group describes, if it is one of them.
#[verifier::opaque]
pub open spec fn requested(m: Seq<char>, p: JsonView, c: Clock) -> Option<RequestView> {
    if m == "audio_accompany_matching"@ {
        Some(audio_accompany_matching_request(p, c))
    } else if m == "audio_ktv_total"@ {
        Some(audio_ktv_total_request(p, c))
    } else if m == "audio_related"@ {
        Some(audio_related_request(p, c))
    } else if m == "images"@ {
        Some(images_request(p, c))
    } else if m == "images_audio"@ {
        Some(images_audio_request(p, c))
    } else if m == "search_mixed"@ {
        Some(search_mixed_request(p, c))
    } else if m == "song_url_new"@ {
        Some(song_url_new_request(p, c))
    } else if m == "top_playlist"@ {
        Some(top_playlist_request(p, c))
    } else if m == "user_cloud_url"@ {
        Some(user_cloud_url_request(p, c))
    } else if m == "video_detail"@ {
        Some(video_detail_request(p, c))
    } else {
        None
    }
}

/// The request a module of this group describes (see [`requested`]).
pub fn request_for(module: &str, params: &JsonValue, c: Clock) -> (r: Option<NativeRequest>)
    ensures
        match r {
            Some(q) => requested(module@, params@, c) == Some(q@),
            None => requested(module@, params@, c) is None,
        },
{
    reveal(requested);
    if str_eq(module, "audio_accompany_matching") {
        return Some(audio_accompany_matching(params, c));
    }
    if str_eq(module, "audio_ktv_total") {
        return Some(audio_ktv_total(params, c));
    }
    if str_eq(module, "audio_related") {
        return Some(audio_related(params, c));
    }
    if str_eq(module, "images") {
        return Some(images(params, c));
    }
    if str_eq(module, "images_audio") {
        return Some(images_audio(params, c));
    }
    if str_eq(module, "search_mixed") {
        return Some(search_mixed(params, c));
    }
    if str_eq(module, "song_url_new") {
        return Some(song_url_new(params, c));
    }
    if str_eq(module, "top_playlist") {
        return Some(top_playlist(params, c));
    }
    if str_eq(module, "user_cloud_url") {
        return Some(user_cloud_url(params, c));
    }
    if str_eq(module, "video_detail") {
        return Some(video_detail(params, c));
    }
    None
}

/// Whether `m` is one of the modules described here.
pub open spec fn handles(m: Seq<char>) -> bool {
    m == "audio_accompany_matching"@
        || m == "audio_ktv_total"@
        || m == "audio_related"@
        || m == "images"@
        || m == "images_audio"@
        || m == "search_mixed"@
        || m == "song_url_new"@
        || m == "top_playlist"@
        || m == "user_cloud_url"@
        || m == "video_detail"@
}

/// Each module described here has a request.
pub proof fn lemma_handled_requested(m: Seq<char>, p: JsonView, c: Clock)
    requires
        handles(m),
    ensures
        requested(m, p, c) is Some,
{
    reveal(requested);
}

} // verus!
