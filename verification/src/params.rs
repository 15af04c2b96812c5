//! Reading request parameters: plain values, values with defaults, cookies,
//! and comma-separated lists turned into arrays of small objects.
use crate::js::{is_truthy, js_number, js_string, js_text, number_value, truthy};
use crate::json::{
    get_field, insert_entry, lemma_items_view, lookup, JsonObject, JsonValue, JsonView,
    NumberView,
};
use crate::text::{chars_of, lemma_split_nonempty, split, split_str, string_of, trim, trim_chars};
use vstd::prelude::*;

verus! {

/// The key under which a request carries its cookies.
pub open spec fn cookie_key() -> Seq<char> {
    seq!['c', 'o', 'o', 'k', 'i', 'e']
}

/// `params[name]`, or null when absent.
pub open spec fn param(params: JsonView, name: Seq<char>) -> JsonView {
    match get_field(params, name) {
        Some(v) => v,
        None => JsonView::Null,
    }
}

/// `params[name]` when it is truthy, else `default`.
pub open spec fn param_or(params: JsonView, name: Seq<char>, default: JsonView) -> JsonView {
    match get_field(params, name) {
        Some(v) => if is_truthy(v) {
            v
        } else {
            default
        },
        None => default,
    }
}

/// `params[name]` when it is present and not null, else `default`.
pub open spec fn param_nullish(params: JsonView, name: Seq<char>, default: JsonView) -> JsonView {
    match get_field(params, name) {
        Some(v) => if v is Null {
            default
        } else {
            v
        },
        None => default,
    }
}

/// The truthy cookie `name` among `params.cookie`, if any.
pub open spec fn cookie(params: JsonView, name: Seq<char>) -> Option<JsonView> {
    match get_field(params, cookie_key()) {
        Some(JsonView::Object(es)) => match lookup(es, name) {
            Some(v) => if is_truthy(v) {
                Some(v)
            } else {
                None
            },
            None => None,
        },
        _ => None,
    }
}

/// The truthy parameter `name`, else the truthy cookie `name`, else `default`.
pub open spec fn param_then_cookie(params: JsonView, name: Seq<char>, default: JsonView) -> JsonView {
    match get_field(params, name) {
        Some(v) if is_truthy(v) => v,
        _ => match cookie(params, name) {
            Some(c) => c,
            None => default,
        },
    }
}

/// The truthy cookie `name`, else the truthy parameter `name`, else `default`.
pub open spec fn cookie_then_param(params: JsonView, name: Seq<char>, default: JsonView) -> JsonView {
    match cookie(params, name) {
        Some(c) => c,
        None => param_or(params, name, default),
    }
}

/// `params[name]`, or null when absent.
pub fn value(params: &JsonValue, name: &str) -> (r: JsonValue)
    ensures
        r@ == param(params@, name@),
{
    match params.get(name) {
        Some(v) => v.deep_clone(),
        None => JsonValue::Null,
    }
}

/// `params[name]` when it is truthy, else `default`.
pub fn value_or(params: &JsonValue, name: &str, default: JsonValue) -> (r: JsonValue)
    ensures
        r@ == param_or(params@, name@, default@),
{
    match params.get(name) {
        Some(v) => if truthy(v) {
            v.deep_clone()
        } else {
            default
        },
        None => default,
    }
}

/// `params[name]` when it is present and not null, else `default`.
pub fn value_nullish(params: &JsonValue, name: &str, default: JsonValue) -> (r: JsonValue)
    ensures
        r@ == param_nullish(params@, name@, default@),
{
    match params.get(name) {
        Some(v) => match v {
            JsonValue::Null => default,
            _ => v.deep_clone(),
        },
        None => default,
    }
}

pub(crate) fn cookie_name() -> (r: &'static str)
    ensures
        r@ == cookie_key(),
{
    proof {
        reveal_strlit("cookie");
    }
    "cookie"
}

/// The truthy cookie `name` among `params.cookie`, if any.
pub fn cookie_value(params: &JsonValue, name: &str) -> (r: Option<JsonValue>)
    ensures
        match r {
            Some(v) => cookie(params@, name@) == Some(v@),
            None => cookie(params@, name@) is None,
        },
{
    match params.get(cookie_name()) {
        Some(JsonValue::Object(jar)) => match jar.get(name) {
            Some(v) => if truthy(v) {
                Some(v.deep_clone())
            } else {
                None
            },
            None => None,
        },
        _ => None,
    }
}

/// The truthy parameter `name`, else the truthy cookie `name`, else `default`.
pub fn param_or_cookie(params: &JsonValue, name: &str, default: JsonValue) -> (r: JsonValue)
    ensures
        r@ == param_then_cookie(params@, name@, default@),
{
    match params.get(name) {
        Some(v) => {
            if truthy(v) {
                return v.deep_clone();
            }
        },
        None => {},
    }
    match cookie_value(params, name) {
        Some(c) => c,
        None => default,
    }
}

/// The truthy cookie `name`, else the truthy parameter `name`, else `default`.
pub fn cookie_or_param(params: &JsonValue, name: &str, default: JsonValue) -> (r: JsonValue)
    ensures
        r@ == cookie_then_param(params@, name@, default@),
{
    match cookie_value(params, name) {
        Some(c) => c,
        None => value_or(params, name, default),
    }
}

// ---------------------------------------------------------------------------
// Comma-separated lists.
// ---------------------------------------------------------------------------

/// The text of the truthy parameter `name`, or the empty text.
pub open spec fn csv_text(params: JsonView, name: Seq<char>) -> Seq<char> {
    match get_field(params, name) {
        Some(v) => if is_truthy(v) {
            js_text(v)
        } else {
            Seq::empty()
        },
        None => Seq::empty(),
    }
}

/// A one-entry object `{ field: v }`.
pub open spec fn single(field: Seq<char>, v: JsonView) -> JsonView {
    JsonView::Object(seq![(field, v)])
}

/// `[{ field: piece }, ...]` for the comma-separated pieces of `params[name]`.
pub open spec fn csv_objects_view(params: JsonView, name: Seq<char>, field: Seq<char>) -> JsonView {
    let pieces = split(csv_text(params, name), ',');
    JsonView::Array(Seq::new(pieces.len(), |i: int| single(field, JsonView::Str(pieces[i]))))
}

/// `[{ field: Number(piece) }, ...]` for the comma-separated pieces of `params[name]`.
pub open spec fn csv_number_objects_view(params: JsonView, name: Seq<char>, field: Seq<char>) -> JsonView {
    let pieces = split(csv_text(params, name), ',');
    JsonView::Array(
        Seq::new(pieces.len(), |i: int| single(field, js_number(JsonView::Str(pieces[i])))),
    )
}

fn single_object(field: &str, v: JsonValue) -> (r: JsonValue)
    ensures
        r@ == single(field@, v@),
{
    let mut o = JsonObject::new();
    o.insert(field.to_owned(), v);
    JsonValue::Object(o)
}

fn csv_source(params: &JsonValue, name: &str) -> (r: String)
    ensures
        r@ == csv_text(params@, name@),
{
    match params.get(name) {
        Some(v) => if truthy(v) {
            js_string(v)
        } else {
            String::new()
        },
        None => String::new(),
    }
}

/// `[{ field: piece }, ...]` for the comma-separated pieces of `params[name]`.
pub fn csv_objects(params: &JsonValue, name: &str, field: &str) -> (r: JsonValue)
    ensures
        r@ == csv_objects_view(params@, name@, field@),
{
    let source = csv_source(params, name);
    let pieces = split_str(source.as_str(), ',');
    let ghost want = split(csv_text(params@, name@), ',');
    let mut out: Vec<JsonValue> = Vec::new();
    let mut i: usize = 0;
    while i < pieces.len()
        invariant
            want == split(csv_text(params@, name@), ','),
            pieces@.len() == want.len(),
            forall|k: int| 0 <= k < pieces@.len() ==> (#[trigger] pieces@[k])@ == want[k],
            i <= pieces@.len(),
            out@.len() == i,
            forall|k: int| 0 <= k < i ==> (#[trigger] out@[k])@ == single(field@, JsonView::Str(want[k])),
        decreases pieces@.len() - i,
    {
        let item = single_object(field, JsonValue::Str(pieces[i].clone()));
        out.push(item);
        i = i + 1;
    }
    proof {
        lemma_items_view(out@);
    }
    let ghost outs = out@;
    let r = JsonValue::Array(out);
    assert(r@ == csv_objects_view(params@, name@, field@)) by {
        assert(crate::json::items_view(outs) =~= Seq::new(want.len(), |k: int| single(field@, JsonView::Str(want[k]))));
    }
    r
}

/// `[{ field: Number(piece) }, ...]` for the comma-separated pieces of `params[name]`.
pub fn csv_number_objects(params: &JsonValue, name: &str, field: &str) -> (r: JsonValue)
    ensures
        r@ == csv_number_objects_view(params@, name@, field@),
{
    let source = csv_source(params, name);
    let pieces = split_str(source.as_str(), ',');
    let ghost want = split(csv_text(params@, name@), ',');
    let mut out: Vec<JsonValue> = Vec::new();
    let mut i: usize = 0;
    while i < pieces.len()
        invariant
            want == split(csv_text(params@, name@), ','),
            pieces@.len() == want.len(),
            forall|k: int| 0 <= k < pieces@.len() ==> (#[trigger] pieces@[k])@ == want[k],
            i <= pieces@.len(),
            out@.len() == i,
            forall|k: int|
                0 <= k < i ==> (#[trigger] out@[k])@ == single(
                    field@,
                    js_number(JsonView::Str(want[k])),
                ),
        decreases pieces@.len() - i,
    {
        let n = number_value(JsonValue::Str(pieces[i].clone()));
        let item = single_object(field, n);
        out.push(item);
        i = i + 1;
    }
    proof {
        lemma_items_view(out@);
    }
    let ghost outs = out@;
    let r = JsonValue::Array(out);
    assert(r@ == csv_number_objects_view(params@, name@, field@)) by {
        assert(crate::json::items_view(outs) =~= Seq::new(
            want.len(),
            |k: int| single(field@, js_number(JsonView::Str(want[k]))),
        ));
    }
    r
}

/// The text of `params[name]` when truthy, or the empty text: the source that
/// the list-building helpers split on commas.
pub open spec fn list_text(params: JsonView, name: Seq<char>) -> Seq<char> {
    js_text(param_or(params, name, JsonView::Str(Seq::empty())))
}

pub open spec fn hash_key() -> Seq<char> {
    seq!['h', 'a', 's', 'h']
}

pub open spec fn audio_id_key() -> Seq<char> {
    seq!['a', 'u', 'd', 'i', 'o', '_', 'i', 'd']
}

/// `{ "audio_id": 0, "hash": piece }`.
pub open spec fn hash_audio_item(piece: Seq<char>) -> JsonView {
    JsonView::Object(
        seq![
            (audio_id_key(), JsonView::Number(NumberView::PosInt(0))),
            (hash_key(), JsonView::Str(piece)),
        ],
    )
}

/// `[{ "audio_id": 0, "hash": piece }, ...]` for the comma-separated hashes.
pub open spec fn csv_hash_audio_view(params: JsonView) -> JsonView {
    let pieces = split(list_text(params, hash_key()), ',');
    JsonView::Array(
        Seq::new(
            pieces.len(),
            |i: int| hash_audio_item(pieces[i]),
        ),
    )
}

fn hash_name() -> (r: &'static str)
    ensures
        r@ == hash_key(),
{
    proof {
        reveal_strlit("hash");
    }
    "hash"
}

fn audio_id_name() -> (r: &'static str)
    ensures
        r@ == audio_id_key(),
{
    proof {
        reveal_strlit("audio_id");
    }
    "audio_id"
}

fn list_source(params: &JsonValue, name: &str) -> (r: String)
    ensures
        r@ == list_text(params@, name@),
{
    let v = value_or(params, name, JsonValue::Str(String::new()));
    js_string(&v)
}

/// `[{ "audio_id": 0, "hash": piece }, ...]` for the comma-separated hashes.
pub fn csv_hash_audio(params: &JsonValue) -> (r: JsonValue)
    ensures
        r@ == csv_hash_audio_view(params@),
{
    let source = list_source(params, hash_name());
    let pieces = split_str(source.as_str(), ',');
    let ghost want = split(list_text(params@, hash_key()), ',');
    let mut out: Vec<JsonValue> = Vec::new();
    let mut i: usize = 0;
    while i < pieces.len()
        invariant
            want == split(list_text(params@, hash_key()), ','),
            pieces@.len() == want.len(),
            forall|k: int| 0 <= k < pieces@.len() ==> (#[trigger] pieces@[k])@ == want[k],
            i <= pieces@.len(),
            out@.len() == i,
            forall|k: int| 0 <= k < i ==> (#[trigger] out@[k])@ == hash_audio_item(want[k]),
        decreases pieces@.len() - i,
    {
        let mut o = JsonObject::new();
        o.insert(hash_name().to_owned(), JsonValue::Str(pieces[i].clone()));
        let ghost one = o@;
        proof {
            assert(crate::text::seq_lt(audio_id_key(), hash_key()));
            assert(one == seq![(hash_key(), JsonView::Str(want[i as int]))]);
        }
        o.insert(audio_id_name().to_owned(), JsonValue::unsigned(0));
        proof {
            assert(o@ =~= seq![
                (audio_id_key(), JsonView::Number(NumberView::PosInt(0))),
                (hash_key(), JsonView::Str(want[i as int])),
            ]);
        }
        out.push(JsonValue::Object(o));
        i = i + 1;
    }
    proof {
        lemma_items_view(out@);
    }
    let ghost outs = out@;
    let r = JsonValue::Array(out);
    assert(r@ == csv_hash_audio_view(params@)) by {
        assert(crate::json::items_view(outs) =~= Seq::new(want.len(), |k: int| hash_audio_item(want[k])));
    }
    r
}

/// `base` (an object, or an empty one otherwise) with `field` set to one
/// comma-separated piece of `params[name]`, for each piece.
pub open spec fn csv_hash_resource_view(
    params: JsonView,
    name: Seq<char>,
    field: Seq<char>,
    base: JsonView,
) -> Seq<JsonView> {
    let pieces = split(list_text(params, name), ',');
    let entries = match base {
        JsonView::Object(es) => es,
        _ => Seq::empty(),
    };
    Seq::new(
        pieces.len(),
        |i: int| JsonView::Object(insert_entry(entries, field, JsonView::Str(pieces[i]))),
    )
}

/// `base` with `field` set to each comma-separated piece of `params[name]`.
pub fn csv_hash_resource(params: &JsonValue, name: &str, field: &str, base: JsonValue) -> (r: Vec<
    JsonValue,
>)
    ensures
        r@.len() == csv_hash_resource_view(params@, name@, field@, base@).len(),
        forall|i: int|
            0 <= i < r@.len() ==> (#[trigger] r@[i])@ == csv_hash_resource_view(
                params@,
                name@,
                field@,
                base@,
            )[i],
{
    let source = list_source(params, name);
    let pieces = split_str(source.as_str(), ',');
    let ghost want = split(list_text(params@, name@), ',');
    let ghost entries = match base@ {
        JsonView::Object(es) => es,
        _ => Seq::<(Seq<char>, JsonView)>::empty(),
    };
    let mut out: Vec<JsonValue> = Vec::new();
    let mut i: usize = 0;
    while i < pieces.len()
        invariant
            want == split(list_text(params@, name@), ','),
            entries == match base@ {
                JsonView::Object(es) => es,
                _ => Seq::<(Seq<char>, JsonView)>::empty(),
            },
            pieces@.len() == want.len(),
            forall|k: int| 0 <= k < pieces@.len() ==> (#[trigger] pieces@[k])@ == want[k],
            i <= pieces@.len(),
            out@.len() == i,
            forall|k: int|
                0 <= k < i ==> (#[trigger] out@[k])@ == JsonView::Object(
                    insert_entry(entries, field@, JsonView::Str(want[k])),
                ),
        decreases pieces@.len() - i,
    {
        let mut o = match base.as_object() {
            Some(b) => b.deep_clone(),
            None => JsonObject::new(),
        };
        o.insert(field.to_owned(), JsonValue::Str(pieces[i].clone()));
        out.push(JsonValue::Object(o));
        i = i + 1;
    }
    out
}

/// The items after setting `field` of the `i`-th item, when it is an object,
/// to `make(piece_i)` for the `i`-th comma-separated piece; other items stay.
pub open spec fn applied_field(
    items: Seq<JsonView>,
    pieces: Seq<Seq<char>>,
    field: Seq<char>,
    zero_when_empty: bool,
) -> Seq<JsonView> {
    Seq::new(
        items.len(),
        |i: int|
            if i < pieces.len() && items[i] is Object {
                JsonView::Object(
                    insert_entry(
                        items[i]->Object_0,
                        field,
                        if zero_when_empty && pieces[i].len() == 0 {
                            JsonView::Number(NumberView::PosInt(0))
                        } else {
                            JsonView::Str(pieces[i])
                        },
                    ),
                )
            } else {
                items[i]
            },
    )
}

fn apply_pieces(items: &mut Vec<JsonValue>, pieces: &Vec<String>, field: &str, zero_when_empty: bool)
    ensures
        final(items)@.len() == old(items)@.len(),
        forall|i: int|
            0 <= i < final(items)@.len() ==> (#[trigger] final(items)@[i])@ == applied_field(
                old(items)@.map_values(|v: JsonValue| v@),
                pieces@.map_values(|s: String| s@),
                field@,
                zero_when_empty,
            )[i],
{
    let ghost before = old(items)@.map_values(|v: JsonValue| v@);
    let ghost texts = pieces@.map_values(|s: String| s@);
    let mut i: usize = 0;
    while i < items.len()
        invariant
            before == old(items)@.map_values(|v: JsonValue| v@),
            texts == pieces@.map_values(|s: String| s@),
            items@.len() == old(items)@.len(),
            i <= items@.len(),
            forall|k: int|
                0 <= k < i ==> (#[trigger] items@[k])@ == applied_field(
                    before,
                    texts,
                    field@,
                    zero_when_empty,
                )[k],
            forall|k: int| i <= k < items@.len() ==> (#[trigger] items@[k]) == old(items)@[k],
        decreases items@.len() - i,
    {
        if i < pieces.len() {
            let mut slot = JsonValue::Null;
            std::mem::swap(&mut slot, &mut items[i]);
            let updated = match slot {
                JsonValue::Object(mut o) => {
                    let piece = &pieces[i];
                    let v = if zero_when_empty && piece.as_str().is_empty() {
                        JsonValue::unsigned(0)
                    } else {
                        JsonValue::Str(piece.clone())
                    };
                    o.insert(field.to_owned(), v);
                    JsonValue::Object(o)
                },
                other => other,
            };
            items.set(i, updated);
        }
        i = i + 1;
    }
}

/// Sets `field` of the `i`-th object item to the `i`-th comma-separated piece
/// of `params[name]`.
pub fn apply_csv_field(items: &mut Vec<JsonValue>, params: &JsonValue, name: &str, field: &str)
    ensures
        final(items)@.len() == old(items)@.len(),
        forall|i: int|
            0 <= i < final(items)@.len() ==> (#[trigger] final(items)@[i])@ == applied_field(
                old(items)@.map_values(|v: JsonValue| v@),
                split(list_text(params@, name@), ','),
                field@,
                false,
            )[i],
{
    let source = list_source(params, name);
    let pieces = split_str(source.as_str(), ',');
    proof {
        assert(pieces@.map_values(|s: String| s@) =~= split(list_text(params@, name@), ','));
    }
    apply_pieces(items, &pieces, field, false);
}

/// As [`apply_csv_field`], but an empty piece sets the number 0.
pub fn apply_csv_field_or_zero(items: &mut Vec<JsonValue>, params: &JsonValue, name: &str, field: &str)
    ensures
        final(items)@.len() == old(items)@.len(),
        forall|i: int|
            0 <= i < final(items)@.len() ==> (#[trigger] final(items)@[i])@ == applied_field(
                old(items)@.map_values(|v: JsonValue| v@),
                split(list_text(params@, name@), ','),
                field@,
                true,
            )[i],
{
    let source = list_source(params, name);
    let pieces = split_str(source.as_str(), ',');
    proof {
        assert(pieces@.map_values(|s: String| s@) =~= split(list_text(params@, name@), ','));
    }
    apply_pieces(items, &pieces, field, true);
}

// ---------------------------------------------------------------------------
// Lists of identifiers.
// ---------------------------------------------------------------------------

/// The trimmed pieces that are not empty, in order.
pub open spec fn kept_pieces(pieces: Seq<Seq<char>>) -> Seq<Seq<char>>
    decreases pieces.len(),
{
    if pieces.len() == 0 {
        Seq::empty()
    } else {
        let rest = kept_pieces(pieces.drop_last());
        let t = trim(pieces.last());
        if t.len() > 0 {
            rest.push(t)
        } else {
            rest
        }
    }
}

/// The identifiers in a value: the trimmed, non-empty comma-separated pieces
/// of its text, or of each item's text for an array; none for null.
pub open spec fn split_values_view(v: JsonView) -> Seq<Seq<char>> {
    match v {
        JsonView::Null => Seq::empty(),
        JsonView::Array(items) => items_pieces(items),
        _ => kept_pieces(split(js_text(v), ',')),
    }
}

pub open spec fn items_pieces(items: Seq<JsonView>) -> Seq<Seq<char>>
    decreases items.len(),
{
    if items.len() == 0 {
        Seq::empty()
    } else {
        items_pieces(items.drop_last()) + kept_pieces(split(js_text(items.last()), ','))
    }
}

fn push_kept(out: &mut Vec<String>, text: &str)
    ensures
        final(out)@.map_values(|s: String| s@) == old(out)@.map_values(|s: String| s@)
            + kept_pieces(split(text@, ',')),
{
    let cs = chars_of(text);
    let pieces = crate::text::split_chars(cs.as_slice(), ',');
    let ghost want = split(text@, ',');
    let ghost start = old(out)@.map_values(|s: String| s@);
    let mut i: usize = 0;
    assert(want.take(0) =~= Seq::<Seq<char>>::empty());
    while i < pieces.len()
        invariant
            want == split(text@, ','),
            start == old(out)@.map_values(|s: String| s@),
            pieces@.len() == want.len(),
            forall|k: int| 0 <= k < pieces@.len() ==> (#[trigger] pieces@[k])@ == want[k],
            i <= pieces@.len(),
            out@.map_values(|s: String| s@) == start + kept_pieces(want.take(i as int)),
        decreases pieces@.len() - i,
    {
        let t = trim_chars(pieces[i].as_slice());
        proof {
            assert(want.take(i + 1).drop_last() =~= want.take(i as int));
            assert(want.take(i + 1).last() == want[i as int]);
        }
        let ghost before = out@.map_values(|s: String| s@);
        if t.len() > 0 {
            out.push(string_of(t.as_slice()));
            proof {
                assert(out@.map_values(|s: String| s@) =~= before.push(t@));
            }
        }
        i = i + 1;
    }
    assert(want.take(pieces@.len() as int) =~= want);
}

/// The identifiers in a value (see [`split_values_view`]).
pub fn split_values(value: JsonValue) -> (r: Vec<String>)
    ensures
        r@.map_values(|s: String| s@) == split_values_view(value@),
{
    let mut out: Vec<String> = Vec::new();
    assert(out@.map_values(|s: String| s@) =~= Seq::<Seq<char>>::empty());
    match value {
        JsonValue::Null => {},
        JsonValue::Array(items) => {
            proof {
                lemma_items_view(items@);
            }
            let ghost views = items@.map_values(|v: JsonValue| v@);
            let mut i: usize = 0;
            while i < items.len()
                invariant
                    i <= items@.len(),
                    crate::json::items_view(items@).len() == items@.len(),
                    forall|k: int|
                        0 <= k < items@.len() ==> #[trigger] crate::json::items_view(items@)[k]
                            == items@[k]@,
                    out@.map_values(|s: String| s@) == items_pieces(
                        crate::json::items_view(items@).take(i as int),
                    ),
                decreases items@.len() - i,
            {
                let text = js_string(&items[i]);
                push_kept(&mut out, text.as_str());
                proof {
                    let all = crate::json::items_view(items@);
                    assert(all.take(i + 1).drop_last() =~= all.take(i as int));
                    assert(all.take(i + 1).last() == items@[i as int]@);
                }
                i = i + 1;
            }
            proof {
                let all = crate::json::items_view(items@);
                assert(all.take(items@.len() as int) =~= all);
            }
        },
        other => {
            let text = js_string(&other);
            push_kept(&mut out, text.as_str());
        },
    }
    out
}

} // verus!
