//! What some handlers add to an upstream body: the cloud match list, and
//! the `ip_id` read from links.
use crate::form::{decode_form, form_pairs, pairs_view};
use crate::js::{is_truthy, is_zero_value, js_number, js_string, js_text, number_is_zero, number_value, truthy};
use crate::json::{get_field, insert_entry, lookup, view_as_i64, JsonObject, JsonValue, JsonView};
use crate::routes::strip_start;
use crate::text::{chars_of, string_of, string_range};
use vstd::prelude::*;
use vstd::utf8::encode_utf8;

verus! {

// ---------------------------------------------------------------------------
// Query values.
// ---------------------------------------------------------------------------

/// The value of the first pair named `name`.
pub open spec fn first_value(pairs: Seq<(Seq<char>, Seq<char>)>, name: Seq<char>) -> Option<Seq<char>>
    decreases pairs.len(),
{
    if pairs.len() == 0 {
        None
    } else if pairs[0].0 == name {
        Some(pairs[0].1)
    } else {
        first_value(pairs.drop_first(), name)
    }
}

/// The value of the first query field named `name` (leading `?`s ignored).
pub open spec fn query_field(query: Seq<char>, name: Seq<char>) -> Option<Seq<char>> {
    first_value(form_pairs(encode_utf8(strip_start(query, '?'))), name)
}

proof fn lemma_first_value_skip(pairs: Seq<(Seq<char>, Seq<char>)>, name: Seq<char>, i: int)
    requires
        0 <= i <= pairs.len(),
        forall|k: int| 0 <= k < i ==> (#[trigger] pairs[k]).0 != name,
    ensures
        first_value(pairs, name) == first_value(pairs.skip(i), name),
    decreases i,
{
    if i > 0 {
        assert(pairs.drop_first().skip(i - 1) =~= pairs.skip(i));
        lemma_first_value_skip(pairs.drop_first(), name, i - 1);
    } else {
        assert(pairs.skip(0) =~= pairs);
    }
}

/// The value of the first query field named `name`.
pub fn query_value(query: &str, name: &str) -> (r: Option<String>)
    ensures
        match r {
            Some(v) => query_field(query@, name@) == Some(v@),
            None => query_field(query@, name@) is None,
        },
{
    let cs = chars_of(query);
    let mut start: usize = 0;
    while start < cs.len() && cs[start] == '?'
        invariant
            start <= cs@.len(),
            forall|j: int| 0 <= j < start ==> cs@[j] == '?',
        decreases cs@.len() - start,
    {
        start = start + 1;
    }
    let rest = string_range(cs.as_slice(), start, cs.len());
    proof {
        assert(cs@.subrange(start as int, cs@.len() as int) =~= cs@.skip(start as int));
        crate::routes::lemma_strip_start_skip(cs@, '?', start as int);
        assert(strip_start(cs@.skip(start as int), '?') == cs@.skip(start as int)) by {
            if cs@.skip(start as int).len() > 0 {
                assert(cs@.skip(start as int)[0] == cs@[start as int]);
            }
        }
    }
    assert(rest@ == strip_start(query@, '?'));
    let pairs = decode_form(rest.as_str().as_bytes());
    let ghost ps = form_pairs(encode_utf8(rest@));
    let mut i: usize = 0;
    while i < pairs.len()
        invariant
            ps == pairs_view(pairs@),
            ps == form_pairs(encode_utf8(strip_start(query@, '?'))),
            i <= pairs@.len(),
            forall|k: int| 0 <= k < i ==> (#[trigger] ps[k]).0 != name@,
        decreases pairs@.len() - i,
    {
        if crate::text::str_eq(pairs[i].0.as_str(), name) {
            let v = pairs[i].1.clone();
            proof {
                lemma_first_value_skip(ps, name@, i as int);
                assert(ps.skip(i as int)[0] == ps[i as int]);
                assert(ps[i as int] == (pairs@[i as int].0@, pairs@[i as int].1@));
                assert(first_value(ps.skip(i as int), name@) == Some(ps[i as int].1));
            }
            return Some(v);
        }
        i = i + 1;
    }
    proof {
        lemma_first_value_skip(ps, name@, i as int);
    }
    None
}

// ---------------------------------------------------------------------------
// ip_id from special links.
// ---------------------------------------------------------------------------

/// The body reports success: its `status` is 1.
pub open spec fn status_is_one(body: JsonView) -> bool {
    match get_field(body, "status"@) {
        Some(v) => view_as_i64(v) == Some(1i64),
        None => false,
    }
}

/// An item with `ip_id` read from the `ip_id` field of the `path` field of
/// its truthy `special_link`.
pub open spec fn ip_zone_item(item: JsonView) -> JsonView {
    match item {
        JsonView::Object(es) => match lookup(es, "special_link"@) {
            Some(link) => if is_truthy(link) {
                match query_field(js_text(link), "path"@) {
                    Some(path) => match query_field(path, "ip_id"@) {
                        Some(id) => JsonView::Object(
                            insert_entry(es, "ip_id"@, js_number(JsonView::Str(id))),
                        ),
                        None => item,
                    },
                    None => item,
                }
            } else {
                item
            },
            None => item,
        },
        _ => item,
    }
}

/// The items of a list value (none unless it is an array).
pub open spec fn list_items(list: JsonView) -> Seq<JsonView> {
    match list {
        JsonView::Array(xs) => xs,
        _ => Seq::empty(),
    }
}

/// The body with its `data.list` replaced, when the body is an object whose
/// `data` is an object with a `list` (that is truthy when `need_truthy`).
pub open spec fn with_list(
    body: JsonView,
    need_truthy: bool,
    f: spec_fn(JsonView) -> JsonView,
) -> JsonView {
    if !status_is_one(body) {
        body
    } else {
        match body {
            JsonView::Object(b) => match lookup(b, "data"@) {
                Some(JsonView::Object(d)) => match lookup(d, "list"@) {
                    Some(list) => if need_truthy && !is_truthy(list) {
                        body
                    } else {
                        JsonView::Object(
                            insert_entry(
                                b,
                                "data"@,
                                JsonView::Object(
                                    insert_entry(
                                        d,
                                        "list"@,
                                        JsonView::Array(list_items(list).map_values(f)),
                                    ),
                                ),
                            ),
                        )
                    },
                    None => body,
                },
                _ => body,
            },
            _ => body,
        }
    }
}

/// The zone body with `ip_id` added to each item that links to one.
pub open spec fn enriched_ip_zone(body: JsonView) -> JsonView {
    with_list(body, true, |item: JsonView| ip_zone_item(item))
}

fn ip_zone_update(item: JsonValue) -> (r: JsonValue)
    ensures
        r@ == ip_zone_item(item@),
{
    match item {
        JsonValue::Object(mut es) => {
            let link_text = match es.get("special_link") {
                Some(link) => if truthy(link) {
                    Some(js_string(link))
                } else {
                    None
                },
                None => None,
            };
            let ghost before = es@;
            match link_text {
                Some(t) => match query_value(t.as_str(), "path") {
                    Some(path) => match query_value(path.as_str(), "ip_id") {
                        Some(id) => {
                            let n = number_value(JsonValue::Str(id));
                            es.insert("ip_id".to_owned(), n);
                            JsonValue::Object(es)
                        },
                        None => JsonValue::Object(es),
                    },
                    None => JsonValue::Object(es),
                },
                None => JsonValue::Object(es),
            }
        },
        other => other,
    }
}

fn take_items(list: JsonValue) -> (r: Vec<JsonValue>)
    ensures
        r@.map_values(|v: JsonValue| v@) == list_items(list@),
{
    match list {
        JsonValue::Array(xs) => {
            proof {
                crate::json::lemma_items_view(xs@);
                assert(xs@.map_values(|v: JsonValue| v@) =~= crate::json::items_view(xs@));
            }
            xs
        },
        _ => {
            let r: Vec<JsonValue> = Vec::new();
            assert(r@.map_values(|v: JsonValue| v@) =~= Seq::<JsonView>::empty());
            r
        },
    }
}

fn array_of(items: Vec<JsonValue>) -> (r: JsonValue)
    ensures
        r@ == JsonView::Array(items@.map_values(|v: JsonValue| v@)),
{
    proof {
        crate::json::lemma_items_view(items@);
        assert(crate::json::items_view(items@) =~= items@.map_values(|v: JsonValue| v@));
    }
    JsonValue::Array(items)
}

/// Whether the body's `status` is 1.
fn status_one(body: &JsonValue) -> (r: bool)
    ensures
        r == status_is_one(body@),
{
    match body.get("status") {
        Some(v) => v.as_i64() == Some(1i64),
        None => false,
    }
}

/// Replaces `data.list` (see [`with_list`]); `zone` picks the item update.
fn update_list(body: &mut JsonValue, need_truthy: bool, zone: bool)
    ensures
        final(body)@ == with_list(
            old(body)@,
            need_truthy,
            if zone {
                |item: JsonView| ip_zone_item(item)
            } else {
                |item: JsonView| top_ip_item(item)
            },
        ),
{
    let ghost f = if zone {
        |item: JsonView| ip_zone_item(item)
    } else {
        |item: JsonView| top_ip_item(item)
    };
    if !status_one(body) {
        return;
    }
    let mut taken = JsonValue::Null;
    std::mem::swap(&mut taken, body);
    let ghost prior = taken@;
    let mut b = match taken {
        JsonValue::Object(b) => b,
        other => {
            *body = other;
            return;
        },
    };
    let mut d = match b.remove("data") {
        Some(JsonValue::Object(d)) => d,
        Some(other) => {
            b.insert("data".to_owned(), other);
            proof {
                crate::json::lemma_insert_after_remove_same(prior->Object_0, "data"@);
            }
            *body = JsonValue::Object(b);
            return;
        },
        None => {
            proof {
                crate::json::lemma_remove_absent_lookup(prior->Object_0, "data"@);
            }
            *body = JsonValue::Object(b);
            return;
        },
    };
    let ghost d0 = d@;
    let list = match d.remove("list") {
        Some(list) => list,
        None => {
            proof {
                crate::json::lemma_remove_absent_lookup(d0, "list"@);
                crate::json::lemma_insert_after_remove_same(prior->Object_0, "data"@);
            }
            b.insert("data".to_owned(), JsonValue::Object(d));
            *body = JsonValue::Object(b);
            return;
        },
    };
    if need_truthy && !truthy(&list) {
        proof {
            crate::json::lemma_insert_after_remove_same(d0, "list"@);
            crate::json::lemma_insert_after_remove_same(prior->Object_0, "data"@);
        }
        d.insert("list".to_owned(), list);
        b.insert("data".to_owned(), JsonValue::Object(d));
        *body = JsonValue::Object(b);
        return;
    }
    let mut items = take_items(list);
    let ghost before = items@.map_values(|v: JsonValue| v@);
    let mut i: usize = 0;
    while i < items.len()
        invariant
            before.len() == items@.len(),
            i <= items@.len(),
            forall|k: int| 0 <= k < i ==> (#[trigger] items@[k])@ == f(before[k]),
            forall|k: int| i <= k < items@.len() ==> (#[trigger] items@[k])@ == before[k],
            f == (if zone {
                |item: JsonView| ip_zone_item(item)
            } else {
                |item: JsonView| top_ip_item(item)
            }),
        decreases items@.len() - i,
    {
        let mut slot = JsonValue::Null;
        std::mem::swap(&mut slot, &mut items[i]);
        let updated = if zone {
            ip_zone_update(slot)
        } else {
            top_ip_update(slot)
        };
        items.set(i, updated);
        i = i + 1;
    }
    assert(items@.map_values(|v: JsonValue| v@) =~= before.map_values(f));
    let new_list = array_of(items);
    proof {
        crate::json::lemma_insert_after_remove(d0, "list"@, new_list@);
    }
    d.insert("list".to_owned(), new_list);
    let ghost nd = JsonView::Object(d@);
    proof {
        crate::json::lemma_insert_after_remove(prior->Object_0, "data"@, nd);
    }
    b.insert("data".to_owned(), JsonValue::Object(d));
    *body = JsonValue::Object(b);
}

/// Adds `ip_id` to the zone items that link to one.
pub fn enrich_ip_zone(body: &mut JsonValue)
    ensures
        final(body)@ == enriched_ip_zone(old(body)@),
{
    update_list(body, true, true);
}

// ---------------------------------------------------------------------------
// ip_id from inner URLs.
// ---------------------------------------------------------------------------

/// `ip_id` starts at position `p` of `u`.
pub open spec fn ip_id_at(u: Seq<char>, p: int) -> bool {
    0 <= p && p + 5 <= u.len() && u.subrange(p, p + 5) == "ip_id"@
}

/// The last position below `n` where `ip_id` starts.
pub open spec fn last_ip_id_below(u: Seq<char>, n: int) -> Option<int>
    decreases n,
{
    if n <= 0 {
        None
    } else if ip_id_at(u, n - 1) {
        Some(n - 1)
    } else {
        last_ip_id_below(u, n - 1)
    }
}

/// The text after `ip_id` and one more character, when that character is
/// ASCII (a byte offset past `ip_id` lands there only then); empty otherwise.
pub open spec fn ip_id_suffix(u: Seq<char>, p: int) -> Seq<char> {
    if p + 5 < u.len() && (u[p + 5] as u32) < 128 {
        u.skip(p + 6)
    } else {
        Seq::empty()
    }
}

/// An item whose `extra.inner_url` is truthy and contains `ip_id` gets
/// `extra.ip_id` set to the number after its last occurrence.
pub open spec fn top_ip_item(item: JsonView) -> JsonView {
    match item {
        JsonView::Object(es) => match lookup(es, "extra"@) {
            Some(JsonView::Object(x)) => match lookup(x, "inner_url"@) {
                Some(link) => if is_truthy(link) {
                    let u = js_text(link);
                    match last_ip_id_below(u, u.len() as int) {
                        Some(p) => JsonView::Object(
                            insert_entry(
                                es,
                                "extra"@,
                                JsonView::Object(
                                    insert_entry(
                                        x,
                                        "ip_id"@,
                                        js_number(JsonView::Str(ip_id_suffix(u, p))),
                                    ),
                                ),
                            ),
                        ),
                        None => item,
                    }
                } else {
                    item
                },
                None => item,
            },
            _ => item,
        },
        _ => item,
    }
}

/// The daily list with `extra.ip_id` added to each item that links to one.
pub open spec fn enriched_top_ip(body: JsonView) -> JsonView {
    with_list(body, false, |item: JsonView| top_ip_item(item))
}

fn find_last_ip_id(u: &[char]) -> (r: Option<usize>)
    ensures
        match r {
            Some(p) => last_ip_id_below(u@, u@.len() as int) == Some(p as int) && p + 5 <= u@.len(),
            None => last_ip_id_below(u@, u@.len() as int) is None,
        },
{
    proof {
        reveal_strlit("ip_id");
    }
    let mut n: usize = u.len();
    while n > 0
        invariant
            n <= u@.len(),
            last_ip_id_below(u@, u@.len() as int) == last_ip_id_below(u@, n as int),
        decreases n,
    {
        proof {
            reveal_strlit("ip_id");
        }
        let p = n - 1;
        if u.len() - p >= 5 && u[p] == 'i' && u[p + 1] == 'p' && u[p + 2] == '_' && u[p + 3] == 'i'
            && u[p + 4] == 'd' {
            assert(u@.subrange(p as int, p + 5) =~= "ip_id"@);
            return Some(p);
        }
        proof {
            if ip_id_at(u@, p as int) {
                let w = u@.subrange(p as int, p + 5);
                assert(w[0] == u@[p as int]);
                assert(w[1] == u@[p + 1]);
                assert(w[2] == u@[p + 2]);
                assert(w[3] == u@[p + 3]);
                assert(w[4] == u@[p + 4]);
            }
        }
        n = p;
    }
    None
}

fn top_ip_update(item: JsonValue) -> (r: JsonValue)
    ensures
        r@ == top_ip_item(item@),
{
    match item {
        JsonValue::Object(mut es) => {
            let ghost es0 = es@;
            let found = match es.get("extra") {
                Some(JsonValue::Object(x)) => match x.get("inner_url") {
                    Some(link) => if truthy(link) {
                        let u = chars_of(js_string(link).as_str());
                        match find_last_ip_id(u.as_slice()) {
                            Some(p) => {
                                let suffix = if u.len() - p > 5 && (u[p + 5] as u32) < 128 {
                                    string_range(u.as_slice(), p + 6, u.len())
                                } else {
                                    String::new()
                                };
                                proof {
                                    if p + 5 < u@.len() && (u@[p + 5] as u32) < 128 {
                                        assert(u@.subrange(p + 6, u@.len() as int) =~= u@.skip(p + 6));
                                    }
                                }
                                let mut x2 = x.deep_clone();
                                x2.insert("ip_id".to_owned(), number_value(JsonValue::Str(suffix)));
                                Some(x2)
                            },
                            None => None,
                        }
                    } else {
                        None
                    },
                    None => None,
                },
                _ => None,
            };
            match found {
                Some(x2) => {
                    es.insert("extra".to_owned(), JsonValue::Object(x2));
                    JsonValue::Object(es)
                },
                None => JsonValue::Object(es),
            }
        },
        other => other,
    }
}

/// Adds `extra.ip_id` to the daily items that link to one.
pub fn enrich_top_ip(body: &mut JsonValue)
    ensures
        final(body)@ == enriched_top_ip(old(body)@),
{
    update_list(body, false, false);
}

// ---------------------------------------------------------------------------
// Cloud matches.
// ---------------------------------------------------------------------------

/// The entries of the object an item stands for: the item itself, or the
/// first element when it is a non-empty array; none unless that is an object.
pub open spec fn candidate_of(item: JsonView) -> Option<Seq<(Seq<char>, JsonView)>> {
    let c = match item {
        JsonView::Array(xs) => if xs.len() > 0 {
            xs[0]
        } else {
            item
        },
        _ => item,
    };
    match c {
        JsonView::Object(es) => Some(es),
        _ => None,
    }
}

/// The value under `k` when it is truthy.
pub open spec fn truthy_field(es: Seq<(Seq<char>, JsonView)>, k: Seq<char>) -> Option<JsonView> {
    match lookup(es, k) {
        Some(v) => if is_truthy(v) {
            Some(v)
        } else {
            None
        },
        None => None,
    }
}

/// The value, or the empty string.
pub open spec fn or_empty(v: Option<JsonView>) -> JsonView {
    match v {
        Some(x) => x,
        None => JsonView::Str(Seq::empty()),
    }
}

/// The value, or null.
pub open spec fn or_null(v: Option<JsonView>) -> JsonView {
    match v {
        Some(x) => x,
        None => JsonView::Null,
    }
}

/// The entries of the candidate's `audio_info`, when that is an object.
pub open spec fn audio_info_of(es: Seq<(Seq<char>, JsonView)>) -> Option<Seq<(Seq<char>, JsonView)>> {
    match lookup(es, "audio_info"@) {
        Some(JsonView::Object(info)) => Some(info),
        _ => None,
    }
}

/// `audio_info.audio_id`, else the candidate's own `audio_id`, else null.
pub open spec fn audio_id_source(es: Seq<(Seq<char>, JsonView)>) -> JsonView {
    let from_info = match audio_info_of(es) {
        Some(info) => lookup(info, "audio_id"@),
        None => None,
    };
    match from_info {
        Some(v) => v,
        None => or_null(lookup(es, "audio_id"@)),
    }
}

/// A truthy `audio_info.hash`, else a truthy own `hash`, else the empty string.
pub open spec fn match_hash(es: Seq<(Seq<char>, JsonView)>) -> JsonView {
    let from_info = match audio_info_of(es) {
        Some(info) => truthy_field(info, "hash"@),
        None => None,
    };
    match from_info {
        Some(v) => v,
        None => or_empty(truthy_field(es, "hash"@)),
    }
}

/// The first truthy of `ori_audio_name`, `audio_name` and `songname`, else
/// the empty string.
pub open spec fn match_name(es: Seq<(Seq<char>, JsonView)>) -> JsonView {
    match truthy_field(es, "ori_audio_name"@) {
        Some(v) => v,
        None => match truthy_field(es, "audio_name"@) {
            Some(v) => v,
            None => or_empty(truthy_field(es, "songname"@)),
        },
    }
}

/// The match built from one candidate, or none when it names no song (both
/// ids zero and no hash).
pub open spec fn match_entry(es: Seq<(Seq<char>, JsonView)>) -> Option<JsonView> {
    let album_audio_id = js_number(or_null(lookup(es, "album_audio_id"@)));
    let audio_id = js_number(audio_id_source(es));
    let hash = match_hash(es);
    if is_zero_value(Some(album_audio_id)) && is_zero_value(Some(audio_id)) && !is_truthy(hash) {
        None
    } else {
        let e0 = Seq::<(Seq<char>, JsonView)>::empty();
        let e1 = insert_entry(e0, "album_audio_id"@, album_audio_id);
        let e2 = insert_entry(e1, "audio_id"@, audio_id);
        let e3 = insert_entry(e2, "hash_std"@, hash);
        let e4 = insert_entry(e3, "hash"@, hash);
        let e5 = insert_entry(e4, "author_name"@, or_empty(truthy_field(es, "author_name"@)));
        let e6 = insert_entry(e5, "audio_name"@, match_name(es));
        let e7 = insert_entry(
            e6,
            "suffix_audio_name"@,
            or_empty(truthy_field(es, "suffix_audio_name"@)),
        );
        let e8 = insert_entry(e7, "album_info"@, or_null(lookup(es, "album_info"@)));
        Some(JsonView::Object(insert_entry(e8, "raw"@, JsonView::Object(es))))
    }
}

/// The matches of the items, in order.
pub open spec fn cloud_matches(items: Seq<JsonView>) -> Seq<JsonView>
    decreases items.len(),
{
    if items.len() == 0 {
        Seq::empty()
    } else {
        let rest = cloud_matches(items.drop_last());
        match candidate_of(items.last()) {
            Some(es) => match match_entry(es) {
                Some(m) => rest.push(m),
                None => rest,
            },
            None => rest,
        }
    }
}

/// The body with `match_list` (the matches of the `data` array) and `match`
/// (the first of them, or null) added, when its `status` is 1 and its `data`
/// is an array.
pub open spec fn enriched_cloud_match(body: JsonView) -> JsonView {
    if !status_is_one(body) {
        body
    } else {
        match (body, get_field(body, "data"@)) {
            (JsonView::Object(b), Some(JsonView::Array(items))) => {
                let ms = cloud_matches(items);
                JsonView::Object(
                    insert_entry(
                        insert_entry(b, "match_list"@, JsonView::Array(ms)),
                        "match"@,
                        if ms.len() > 0 {
                            ms[0]
                        } else {
                            JsonView::Null
                        },
                    ),
                )
            },
            _ => body,
        }
    }
}

fn truthy_value<'a>(o: &'a JsonObject, k: &str) -> (r: Option<&'a JsonValue>)
    ensures
        match r {
            Some(v) => truthy_field(o@, k@) == Some(v@),
            None => truthy_field(o@, k@) is None,
        },
{
    match o.get(k) {
        Some(v) => if truthy(v) {
            Some(v)
        } else {
            None
        },
        None => None,
    }
}

fn clone_or_empty(v: Option<&JsonValue>) -> (r: JsonValue)
    ensures
        r@ == or_empty(match v {
            Some(x) => Some(x@),
            None => None,
        }),
{
    match v {
        Some(x) => x.deep_clone(),
        None => JsonValue::Str(String::new()),
    }
}

fn clone_or_null(v: Option<&JsonValue>) -> (r: JsonValue)
    ensures
        r@ == or_null(match v {
            Some(x) => Some(x@),
            None => None,
        }),
{
    match v {
        Some(x) => x.deep_clone(),
        None => JsonValue::Null,
    }
}

fn build_match(c: &JsonObject) -> (r: Option<JsonValue>)
    ensures
        match r {
            Some(m) => match_entry(c@) == Some(m@),
            None => match_entry(c@) is None,
        },
{
    let info = match c.get("audio_info") {
        Some(JsonValue::Object(i)) => Some(i),
        _ => None,
    };
    let album_audio_id = number_value(clone_or_null(c.get("album_audio_id")));
    let from_info = match info {
        Some(i) => i.get("audio_id"),
        None => None,
    };
    let audio_source = match from_info {
        Some(v) => v.deep_clone(),
        None => clone_or_null(c.get("audio_id")),
    };
    let audio_id = number_value(audio_source);
    let hash_info = match info {
        Some(i) => truthy_value(i, "hash"),
        None => None,
    };
    let hash = match hash_info {
        Some(v) => v.deep_clone(),
        None => clone_or_empty(truthy_value(c, "hash")),
    };
    if number_is_zero(Some(&album_audio_id)) && number_is_zero(Some(&audio_id)) && !truthy(&hash) {
        return None;
    }
    let name = match truthy_value(c, "ori_audio_name") {
        Some(v) => v.deep_clone(),
        None => match truthy_value(c, "audio_name") {
            Some(v) => v.deep_clone(),
            None => clone_or_empty(truthy_value(c, "songname")),
        },
    };
    let mut m = JsonObject::new();
    m.insert("album_audio_id".to_owned(), album_audio_id);
    m.insert("audio_id".to_owned(), audio_id);
    m.insert("hash_std".to_owned(), hash.deep_clone());
    m.insert("hash".to_owned(), hash);
    m.insert("author_name".to_owned(), clone_or_empty(truthy_value(c, "author_name")));
    m.insert("audio_name".to_owned(), name);
    m.insert("suffix_audio_name".to_owned(), clone_or_empty(truthy_value(c, "suffix_audio_name")));
    m.insert("album_info".to_owned(), clone_or_null(c.get("album_info")));
    m.insert("raw".to_owned(), JsonValue::Object(c.deep_clone()));
    Some(JsonValue::Object(m))
}

fn candidate<'a>(item: &'a JsonValue) -> (r: Option<&'a JsonObject>)
    ensures
        match r {
            Some(o) => candidate_of(item@) == Some(o@),
            None => candidate_of(item@) is None,
        },
{
    proof {
        if let JsonValue::Array(xs) = item {
            crate::json::lemma_items_view(xs@);
        }
    }
    let c = match item {
        JsonValue::Array(xs) => if xs.len() > 0 {
            &xs[0]
        } else {
            item
        },
        _ => item,
    };
    match c {
        JsonValue::Object(o) => Some(o),
        _ => None,
    }
}

fn collect_matches(items: &Vec<JsonValue>) -> (r: Vec<JsonValue>)
    ensures
        r@.map_values(|v: JsonValue| v@) == cloud_matches(items@.map_values(|v: JsonValue| v@)),
{
    let ghost views = items@.map_values(|v: JsonValue| v@);
    let mut out: Vec<JsonValue> = Vec::new();
    let mut i: usize = 0;
    while i < items.len()
        invariant
            views == items@.map_values(|v: JsonValue| v@),
            i <= items@.len(),
            out@.map_values(|v: JsonValue| v@) == cloud_matches(views.take(i as int)),
        decreases items@.len() - i,
    {
        proof {
            assert(views.take(i + 1).drop_last() =~= views.take(i as int));
            assert(views.take(i + 1).last() == items@[i as int]@);
        }
        match candidate(&items[i]) {
            Some(c) => match build_match(c) {
                Some(m) => {
                    let ghost before = out@;
                    out.push(m);
                    assert(out@.map_values(|v: JsonValue| v@) =~= before.map_values(
                        |v: JsonValue| v@,
                    ).push(m@));
                },
                None => {},
            },
            None => {},
        }
        i = i + 1;
    }
    assert(views.take(i as int) =~= views);
    out
}

/// Adds `match_list` and `match` to a cloud match reply (see
/// [`enriched_cloud_match`]).
pub fn enrich_cloud_match(body: &mut JsonValue)
    ensures
        final(body)@ == enriched_cloud_match(old(body)@),
{
    if !status_one(body) {
        return;
    }
    let matches = match body.get("data") {
        Some(JsonValue::Array(items)) => {
            proof {
                crate::json::lemma_items_view(items@);
                assert(crate::json::items_view(items@) =~= items@.map_values(|v: JsonValue| v@));
            }
            collect_matches(items)
        },
        _ => {
            return;
        },
    };
    let first = if matches.len() > 0 {
        matches[0].deep_clone()
    } else {
        JsonValue::Null
    };
    let ghost ms = matches@.map_values(|v: JsonValue| v@);
    proof {
        if ms.len() > 0 {
            assert(ms[0] == matches@[0]@);
        }
    }
    let list = array_of(matches);
    match body {
        JsonValue::Object(b) => {
            b.insert("match_list".to_owned(), list);
            b.insert("match".to_owned(), first);
        },
        _ => {},
    }
}

} // verus!
