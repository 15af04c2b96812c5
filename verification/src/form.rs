//! URL-encoded forms and URLs (the `url` crate), and the grouping of
//! repeated form fields into arrays.
use crate::js::{js_string, js_text};
use crate::json::{insert_entry, lookup, JsonObject, JsonValue, JsonView};
use vstd::prelude::*;
use vstd::utf8::encode_utf8;

verus! {

/// The name/value pairs that `url::form_urlencoded::parse` decodes from the
/// bytes (`+` and percent escapes decoded, invalid UTF-8 replaced).
pub uninterp spec fn form_pairs(input: Seq<u8>) -> Seq<(Seq<char>, Seq<char>)>;

/// A byte `url::form_urlencoded` writes as it is: an ASCII letter or digit,
/// or one of `*-._`.
pub open spec fn form_kept(b: u8) -> bool {
    ||| b == 0x2a || b == 0x2d || b == 0x2e || b == 0x5f
    ||| 0x30 <= b && b <= 0x39
    ||| 0x41 <= b && b <= 0x5a
    ||| 0x61 <= b && b <= 0x7a
}

/// An upper-case hexadecimal digit.
pub open spec fn hex_upper(d: u8) -> char {
    if d < 10 {
        ((0x30 + d) as u8) as char
    } else {
        ((0x37 + d) as u8) as char
    }
}

/// How one byte is written: kept, a space as `+`, anything else as `%XX`.
pub open spec fn form_byte(b: u8) -> Seq<char> {
    if form_kept(b) {
        seq![b as char]
    } else if b == 0x20 {
        seq!['+']
    } else {
        seq!['%', hex_upper(b / 16), hex_upper(b % 16)]
    }
}

/// The bytes written one by one.
pub open spec fn form_bytes(bs: Seq<u8>) -> Seq<char>
    decreases bs.len(),
{
    if bs.len() == 0 {
        Seq::empty()
    } else {
        form_bytes(bs.drop_last()) + form_byte(bs.last())
    }
}

/// A name or value as written: its UTF-8 bytes, each written as above.
pub open spec fn form_component(s: Seq<char>) -> Seq<char> {
    form_bytes(encode_utf8(s))
}

/// The `application/x-www-form-urlencoded` text that
/// `url::form_urlencoded::Serializer` writes for the pairs, in order: each pair
/// as `name=value`, joined by `&`.
pub open spec fn form_text(pairs: Seq<(Seq<char>, Seq<char>)>) -> Seq<char>
    decreases pairs.len(),
{
    if pairs.len() == 0 {
        Seq::empty()
    } else {
        let last = form_component(pairs.last().0) + seq!['='] + form_component(pairs.last().1);
        if pairs.len() == 1 {
            last
        } else {
            form_text(pairs.drop_last()) + seq!['&'] + last
        }
    }
}

/// The URL that `url::Url::parse(base)` and `join(path)` give, with the pairs
/// appended to its query by `query_pairs_mut().append_pair` (which starts a
/// query even for no pairs), or the error message of a failed parse or join.
pub uninterp spec fn joined_url(
    base: Seq<char>,
    path: Seq<char>,
    pairs: Seq<(Seq<char>, Seq<char>)>,
) -> Result<Seq<char>, Seq<char>>;

pub open spec fn pairs_view(pairs: Seq<(String, String)>) -> Seq<(Seq<char>, Seq<char>)> {
    Seq::new(pairs.len(), |i: int| (pairs[i].0@, pairs[i].1@))
}

/// `url::form_urlencoded::parse`, collected into owned pairs.
///
/// Trusted: the decoding is named (`form_pairs`), not stated.
#[verifier::external_body]
pub(crate) fn decode_form(input: &[u8]) -> (r: Vec<(String, String)>)
    ensures
        pairs_view(r@) == form_pairs(input@),
{
    url::form_urlencoded::parse(input).map(|(k, v)| (k.into_owned(), v.into_owned())).collect()
}

/// `url::form_urlencoded::Serializer`: the pairs appended in order
/// (`extend_pairs`), then `finish`.
///
/// Trusted: the encoding is stated (`form_text`) as form_urlencoded's source
/// writes it: `byte_serialize` over each name's and value's UTF-8 bytes, `=`
/// between them and `&` before every pair but the first.
#[verifier::external_body]
pub(crate) fn encode_form(pairs: &Vec<(String, String)>) -> (r: String)
    ensures
        r@ == form_text(pairs_view(pairs@)),
{
    url::form_urlencoded::Serializer::new(String::new()).extend_pairs(pairs).finish()
}

/// `Url::parse(base)?.join(path)?`, then each pair appended to the query;
/// the URL's text, or the parse error's text.
///
/// Trusted: the URL is named (`joined_url`), not stated.
#[verifier::external_body]
pub(crate) fn build_url(base: &str, path: &str, pairs: &Vec<(String, String)>) -> (r: Result<
    String,
    String,
>)
    ensures
        match r {
            Ok(u) => joined_url(base@, path@, pairs_view(pairs@)) == Ok::<Seq<char>, Seq<char>>(u@),
            Err(e) => joined_url(base@, path@, pairs_view(pairs@)) == Err::<Seq<char>, Seq<char>>(e@),
        },
{
    let mut url = url::Url::parse(base).and_then(|u| u.join(path)).map_err(|e| e.to_string())?;
    url.query_pairs_mut().extend_pairs(pairs);
    Ok(url.to_string())
}

// ---------------------------------------------------------------------------
// Repeated fields become arrays.
// ---------------------------------------------------------------------------

/// The entries after recording one more `name=value` pair: a first value is
/// stored as a string, a second turns the entry into an array of both, and
/// later ones are appended to the array.
pub open spec fn add_pair(es: Seq<(Seq<char>, JsonView)>, name: Seq<char>, value: Seq<char>) -> Seq<
    (Seq<char>, JsonView),
> {
    match lookup(es, name) {
        Some(JsonView::Array(items)) => insert_entry(
            es,
            name,
            JsonView::Array(items.push(JsonView::Str(value))),
        ),
        Some(old) => insert_entry(es, name, JsonView::Array(seq![old, JsonView::Str(value)])),
        None => insert_entry(es, name, JsonView::Str(value)),
    }
}

/// The object built from the pairs in order (see [`add_pair`]).
pub open spec fn grouped_pairs(pairs: Seq<(Seq<char>, Seq<char>)>) -> Seq<(Seq<char>, JsonView)>
    decreases pairs.len(),
{
    if pairs.len() == 0 {
        Seq::empty()
    } else {
        let es = grouped_pairs(pairs.drop_last());
        add_pair(es, pairs.last().0, pairs.last().1)
    }
}

/// Records one pair in the object (see [`add_pair`]).
pub fn add_form_pair(result: &mut JsonObject, name: String, value: String)
    ensures
        final(result)@ == add_pair(old(result)@, name@, value@),
{
    let ghost before = result@;
    let current = result.remove(name.as_str());
    let v = JsonValue::Str(value);
    match current {
        Some(JsonValue::Array(mut items)) => {
            let ghost old_items = items@;
            items.push(v);
            proof {
                crate::json::lemma_items_view(items@);
                crate::json::lemma_items_view(old_items);
                assert(crate::json::items_view(items@) =~= crate::json::items_view(old_items).push(
                    JsonView::Str(value@),
                ));
            }
            let nv = JsonValue::Array(items);
            proof {
                crate::json::lemma_insert_after_remove(before, name@, nv@);
            }
            result.insert(name, nv);
        },
        Some(previous) => {
            let ghost p = previous@;
            let mut items: Vec<JsonValue> = Vec::new();
            items.push(previous);
            items.push(v);
            proof {
                crate::json::lemma_items_view(items@);
                assert(crate::json::items_view(items@) =~= seq![p, JsonView::Str(value@)]);
            }
            let nv = JsonValue::Array(items);
            proof {
                crate::json::lemma_insert_after_remove(before, name@, nv@);
            }
            result.insert(name, nv);
        },
        None => {
            proof {
                crate::json::lemma_insert_after_remove(before, name@, v@);
            }
            result.insert(name, v);
        },
    }
}


/// Decodes a form and groups repeated fields into arrays.
pub fn parse_pairs(input: &[u8]) -> (r: JsonObject)
    ensures
        r@ == grouped_pairs(form_pairs(input@)),
{
    let pairs = decode_form(input);
    let ghost want = form_pairs(input@);
    let mut result = JsonObject::new();
    let mut i: usize = 0;
    assert(want.take(0) =~= Seq::<(Seq<char>, Seq<char>)>::empty());
    while i < pairs.len()
        invariant
            want == form_pairs(input@),
            pairs_view(pairs@) == want,
            i <= pairs@.len(),
            result@ == grouped_pairs(want.take(i as int)),
        decreases pairs@.len() - i,
    {
        let name = pairs[i].0.clone();
        let value = pairs[i].1.clone();
        proof {
            assert(want[i as int] == (pairs@[i as int].0@, pairs@[i as int].1@));
            assert(want.take(i + 1).drop_last() =~= want.take(i as int));
            assert(want.take(i + 1).last() == want[i as int]);
        }
        add_form_pair(&mut result, name, value);
        i = i + 1;
    }
    assert(want.take(pairs@.len() as int) =~= want);
    result
}

// ---------------------------------------------------------------------------
// Paths with a query.
// ---------------------------------------------------------------------------

/// The entries as name/text pairs, each value as JavaScript text.
pub open spec fn text_pairs(es: Seq<(Seq<char>, JsonView)>) -> Seq<(Seq<char>, Seq<char>)> {
    Seq::new(es.len(), |i: int| (es[i].0, js_text(es[i].1)))
}

/// The path, `?`, and the entries (in key order, values as text) encoded as
/// a form.
pub fn path_with_query(path: &str, params: &JsonObject) -> (r: String)
    ensures
        r@ == path@ + "?"@ + form_text(text_pairs(params@)),
{
    let n = params.len();
    let mut pairs: Vec<(String, String)> = Vec::new();
    let mut i: usize = 0;
    while i < n
        invariant
            n == params@.len(),
            i <= n,
            pairs@.len() == i,
            forall|k: int|
                0 <= k < i ==> (#[trigger] pairs@[k]).0@ == params@[k].0 && pairs@[k].1@ == js_text(
                    params@[k].1,
                ),
        decreases n - i,
    {
        let (k, v) = params.entry_at(i);
        pairs.push((k.clone(), js_string(v)));
        i = i + 1;
    }
    assert(pairs_view(pairs@) =~= text_pairs(params@));
    let query = encode_form(&pairs);
    let mut r = path.to_owned();
    r.append("?");
    r.append(query.as_str());
    r
}

/// The URL `url::Url::parse(input)` gives, as text, or its error's text.
pub uninterp spec fn parsed_url(input: Seq<char>) -> Result<Seq<char>, Seq<char>>;

/// The URL `url::Url::parse(input)` gives with the pairs appended by
/// `query_pairs_mut().extend_pairs`, as text, or the parse error's text.
pub uninterp spec fn parsed_url_with(input: Seq<char>, pairs: Seq<(Seq<char>, Seq<char>)>) -> Result<
    Seq<char>,
    Seq<char>,
>;

/// The URL `url::Url::parse(base)` and `join(input)` give, as text, or the
/// error's text.
pub uninterp spec fn based_url(base: Seq<char>, input: Seq<char>) -> Result<Seq<char>, Seq<char>>;

/// `Url::parse(input)`, as text.
///
/// Trusted: the URL is named (`parsed_url`).
#[verifier::external_body]
fn parse_url(input: &str) -> (r: Result<String, String>)
    ensures
        match r {
            Ok(u) => parsed_url(input@) == Ok::<Seq<char>, Seq<char>>(u@),
            Err(e) => parsed_url(input@) == Err::<Seq<char>, Seq<char>>(e@),
        },
{
    url::Url::parse(input).map(|u| u.to_string()).map_err(|e| e.to_string())
}

/// `Url::parse(input)`, then the pairs appended with
/// `query_pairs_mut().extend_pairs`; as text.
///
/// Trusted: the URL is named (`parsed_url_with`).
#[verifier::external_body]
fn parse_url_with(input: &str, pairs: &Vec<(String, String)>) -> (r: Result<String, String>)
    ensures
        match r {
            Ok(u) => parsed_url_with(input@, pairs_view(pairs@)) == Ok::<Seq<char>, Seq<char>>(u@),
            Err(e) => parsed_url_with(input@, pairs_view(pairs@)) == Err::<Seq<char>, Seq<char>>(e@),
        },
{
    let mut url = url::Url::parse(input).map_err(|e| e.to_string())?;
    url.query_pairs_mut().extend_pairs(pairs);
    Ok(url.to_string())
}

/// `Url::parse(base)?.join(input)`, as text.
///
/// Trusted: the URL is named (`based_url`).
#[verifier::external_body]
fn join_url(base: &str, input: &str) -> (r: Result<String, String>)
    ensures
        match r {
            Ok(u) => based_url(base@, input@) == Ok::<Seq<char>, Seq<char>>(u@),
            Err(e) => based_url(base@, input@) == Err::<Seq<char>, Seq<char>>(e@),
        },
{
    url::Url::parse(base).and_then(|u| u.join(input)).map(|u| u.to_string()).map_err(|e| e.to_string())
}

/// The URL a request option names: `input` itself when `url::Url::parse`
/// accepts it, else `input` joined to the parsed `base`; with the pairs, when
/// given, appended to its query; or the error message of the failed parse or
/// join.
pub open spec fn resolved_url(
    base: Seq<char>,
    input: Seq<char>,
    pairs: Option<Seq<(Seq<char>, Seq<char>)>>,
) -> Result<Seq<char>, Seq<char>> {
    match parsed_url(input) {
        Ok(u) => match pairs {
            Some(ps) => parsed_url_with(input, ps),
            None => Ok(u),
        },
        Err(_) => match pairs {
            Some(ps) => joined_url(base, input, ps),
            None => based_url(base, input),
        },
    }
}

/// The URL a request option names (see [`resolved_url`]).
pub(crate) fn resolve_url(base: &str, input: &str, pairs: Option<&Vec<(String, String)>>) -> (r:
    Result<String, String>)
    ensures
        match r {
            Ok(u) => resolved_url(
                base@,
                input@,
                match pairs {
                    Some(ps) => Some(pairs_view(ps@)),
                    None => None,
                },
            ) == Ok::<Seq<char>, Seq<char>>(u@),
            Err(e) => resolved_url(
                base@,
                input@,
                match pairs {
                    Some(ps) => Some(pairs_view(ps@)),
                    None => None,
                },
            ) == Err::<Seq<char>, Seq<char>>(e@),
        },
{
    match parse_url(input) {
        Ok(u) => match pairs {
            Some(ps) => parse_url_with(input, ps),
            None => Ok(u),
        },
        Err(_) => match pairs {
            Some(ps) => build_url(base, input, ps),
            None => join_url(base, input),
        },
    }
}

} // verus!
