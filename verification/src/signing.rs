//! Request signatures and keys: MD5 digests of salted parameter texts.
use crate::js::{js_string, js_text};
use crate::json::{JsonObject, JsonView};
use crate::text::{chars_of, seq_lt, str_lt, string_of, u128_text, decimal};
use vstd::prelude::*;
use vstd::utf8::encode_utf8;

verus! {

// ---------------------------------------------------------------------------
// MD5.
// ---------------------------------------------------------------------------

/// The MD5 digest of a byte sequence (16 bytes), as the `md5` crate computes it.
pub uninterp spec fn md5_digest(data: Seq<u8>) -> Seq<u8>;

/// `md5::compute`: the digest of the bytes.
///
/// Trusted: the digest is named, not stated; the crate returns `Digest([u8; 16])`,
/// so the result has 16 bytes.
#[verifier::external_body]
pub(crate) fn md5_compute(data: &[u8]) -> (r: Vec<u8>)
    ensures
        r@ == md5_digest(data@),
        r@.len() == 16,
{
    md5::compute(data).0.to_vec()
}

pub open spec fn hex_digit(d: u8) -> char
    recommends
        d < 16,
{
    if d < 10 {
        (('0' as u8) + d) as char
    } else {
        (('a' as u8) + d - 10) as char
    }
}

/// Two lower-case hex digits per byte, as the digest's `{:x}` format writes it.
pub open spec fn lower_hex(bytes: Seq<u8>) -> Seq<char>
    decreases bytes.len(),
{
    if bytes.len() == 0 {
        Seq::empty()
    } else {
        lower_hex(bytes.drop_last()) + seq![hex_digit(bytes.last() / 16), hex_digit(bytes.last() % 16)]
    }
}

fn hex_char(d: u8) -> (c: char)
    requires
        d < 16,
    ensures
        c == hex_digit(d),
{
    match d {
        0 => '0',
        1 => '1',
        2 => '2',
        3 => '3',
        4 => '4',
        5 => '5',
        6 => '6',
        7 => '7',
        8 => '8',
        9 => '9',
        10 => 'a',
        11 => 'b',
        12 => 'c',
        13 => 'd',
        14 => 'e',
        _ => 'f',
    }
}

/// The lower-case hex text of the bytes.
pub fn to_lower_hex(bytes: &[u8]) -> (r: String)
    ensures
        r@ == lower_hex(bytes@),
        r@.len() == 2 * bytes@.len(),
{
    let mut cs: Vec<char> = Vec::new();
    let mut i: usize = 0;
    while i < bytes.len()
        invariant
            i <= bytes@.len(),
            cs@ == lower_hex(bytes@.take(i as int)),
            cs@.len() == 2 * i,
        decreases bytes@.len() - i,
    {
        let b = bytes[i];
        cs.push(hex_char(b / 16));
        cs.push(hex_char(b % 16));
        proof {
            assert(bytes@.take(i + 1).drop_last() =~= bytes@.take(i as int));
            assert(bytes@.take(i + 1).last() == b);
        }
        i = i + 1;
        assert(cs@ =~= lower_hex(bytes@.take(i as int)));
    }
    assert(bytes@.take(bytes@.len() as int) =~= bytes@);
    string_of(cs.as_slice())
}

/// The hex MD5 digest of the UTF-8 bytes of `text`.
pub open spec fn md5_hex(text: Seq<char>) -> Seq<char> {
    lower_hex(md5_digest(encode_utf8(text)))
}

/// `format!("{:x}", md5::compute(text))`.
pub fn md5_hex_of(text: &str) -> (r: String)
    ensures
        r@ == md5_hex(text@),
        r@.len() == 32,
{
    let digest = md5_compute(text.as_bytes());
    to_lower_hex(digest.as_slice())
}

// ---------------------------------------------------------------------------
// Salts and platform constants.
// ---------------------------------------------------------------------------

pub open spec fn android_salt(lite: bool) -> Seq<char> {
    if lite {
        "LnT6xpN3khm36zse0QzvmgTZ3waWdRSA"@
    } else {
        "OIlwieks28dk2k092lksi2UIkp"@
    }
}

fn android_salt_text(lite: bool) -> (r: &'static str)
    ensures
        r@ == android_salt(lite),
{
    if lite {
        "LnT6xpN3khm36zse0QzvmgTZ3waWdRSA"
    } else {
        "OIlwieks28dk2k092lksi2UIkp"
    }
}

pub open spec fn web_salt() -> Seq<char> {
    "NVPh5oo715z5DIWAeQlhMDsWXXQV4hwt"@
}

pub open spec fn key_salt(lite: bool) -> Seq<char> {
    if lite {
        "185672dd44712f60bb1736df5a377e82"@
    } else {
        "57ae12eb6890223e355ccfcb74edf70d"@
    }
}

/// The app id of the platform (lite or standard).
pub open spec fn platform_appid(lite: bool) -> u64 {
    if lite {
        3116
    } else {
        1005
    }
}

/// The client version of the platform (lite or standard).
pub open spec fn platform_clientver(lite: bool) -> u64 {
    if lite {
        11440
    } else {
        20489
    }
}

/// The app id and client version of the platform.
pub fn platform_numbers(lite: bool) -> (r: (u64, u64))
    ensures
        r == (platform_appid(lite), platform_clientver(lite)),
{
    if lite {
        (3116, 11440)
    } else {
        (1005, 20489)
    }
}

// ---------------------------------------------------------------------------
// Parameter texts.
// ---------------------------------------------------------------------------

/// `key=value` for one entry, the value as JavaScript text.
pub open spec fn pair_text(e: (Seq<char>, JsonView)) -> Seq<char> {
    e.0 + seq!['='] + js_text(e.1)
}

/// The `key=value` texts of the entries, joined by `sep`.
pub open spec fn joined_pairs(es: Seq<(Seq<char>, JsonView)>, sep: Seq<char>) -> Seq<char>
    decreases es.len(),
{
    if es.len() == 0 {
        Seq::empty()
    } else if es.len() == 1 {
        pair_text(es[0])
    } else {
        joined_pairs(es.drop_last(), sep) + sep + pair_text(es.last())
    }
}

fn pair_string(key: &String, value: &crate::json::JsonValue) -> (r: String)
    ensures
        r@ == pair_text((key@, value@)),
{
    let mut s = key.clone();
    crate::text::push_char(&mut s, '=');
    let v = js_string(value);
    s.append(v.as_str());
    s
}

/// The `key=value` texts of an object's entries in key order, joined by `separator`.
pub fn sorted_pairs(params: &JsonObject, separator: &str) -> (r: String)
    ensures
        r@ == joined_pairs(params@, separator@),
{
    let n = params.len();
    let mut out = String::new();
    let mut i: usize = 0;
    while i < n
        invariant
            n == params@.len(),
            i <= n,
            out@ == joined_pairs(params@.take(i as int), separator@),
        decreases n - i,
    {
        let (k, v) = params.entry_at(i);
        let piece = pair_string(k, v);
        if i > 0 {
            out.append(separator);
        }
        out.append(piece.as_str());
        proof {
            let t = params@.take(i + 1);
            assert(t.drop_last() =~= params@.take(i as int));
            assert(t.last() == params@[i as int]);
            if i == 0 {
                assert(t.len() == 1);
                assert(out@ =~= pair_text(t[0]));
            }
        }
        i = i + 1;
    }
    assert(params@.take(n as int) =~= params@);
    out
}

// ---------------------------------------------------------------------------
// Signatures.
// ---------------------------------------------------------------------------

/// The Android signature: the hex MD5 of salt, the sorted `key=value` pairs
/// (no separator), the request body text, and the salt again.
pub open spec fn android_signature(es: Seq<(Seq<char>, JsonView)>, data: Seq<char>, lite: bool) -> Seq<char> {
    md5_hex(android_salt(lite) + joined_pairs(es, Seq::empty()) + data + android_salt(lite))
}

/// The Android signature of a request's query and body text.
pub fn signature_android(params: &JsonObject, data: &str, is_lite: bool) -> (r: String)
    ensures
        r@ == android_signature(params@, data@, is_lite),
{
    let salt = android_salt_text(is_lite);
    let pairs = sorted_pairs(params, "");
    proof {
        reveal_strlit("");
    }
    let mut text = salt.to_owned();
    text.append(pairs.as_str());
    text.append(data);
    text.append(salt);
    proof {
        assert(""@ =~= Seq::<char>::empty());
    }
    md5_hex_of(text.as_str())
}

/// `x` inserted before the first element it sorts strictly before.
pub open spec fn insert_sorted(s: Seq<Seq<char>>, x: Seq<char>) -> Seq<Seq<char>>
    decreases s.len(),
{
    if s.len() == 0 {
        seq![x]
    } else if seq_lt(x, s[0]) {
        seq![x] + s
    } else {
        seq![s[0]] + insert_sorted(s.drop_first(), x)
    }
}

/// The texts in ascending order (an insertion sort, stable for equal texts).
pub open spec fn sort_texts(s: Seq<Seq<char>>) -> Seq<Seq<char>>
    decreases s.len(),
{
    if s.len() == 0 {
        s
    } else {
        insert_sorted(sort_texts(s.drop_last()), s.last())
    }
}

/// The concatenation of the texts.
pub open spec fn concat_texts(s: Seq<Seq<char>>) -> Seq<char>
    decreases s.len(),
{
    if s.len() == 0 {
        Seq::empty()
    } else {
        concat_texts(s.drop_last()) + s.last()
    }
}

proof fn lemma_insert_sorted_split(s: Seq<Seq<char>>, x: Seq<char>, p: int)
    requires
        0 <= p <= s.len(),
        forall|i: int| 0 <= i < p ==> !seq_lt(x, #[trigger] s[i]),
    ensures
        insert_sorted(s, x) == s.take(p) + insert_sorted(s.skip(p), x),
    decreases p,
{
    if p == 0 {
        assert(s.skip(0) =~= s);
        assert(s.take(0) + insert_sorted(s, x) =~= insert_sorted(s, x));
    } else {
        let rest = s.drop_first();
        assert forall|i: int| 0 <= i < p - 1 implies !seq_lt(x, #[trigger] rest[i]) by {
            assert(rest[i] == s[i + 1]);
        }
        lemma_insert_sorted_split(rest, x, p - 1);
        assert(rest.skip(p - 1) =~= s.skip(p));
        assert(s.take(p) =~= seq![s[0]] + rest.take(p - 1));
        assert(seq![s[0]] + (rest.take(p - 1) + insert_sorted(s.skip(p), x)) =~= s.take(p)
            + insert_sorted(s.skip(p), x));
    }
}

/// Sorts texts in ascending order (see [`sort_texts`]).
fn sort_strings(items: Vec<String>) -> (r: Vec<String>)
    ensures
        r@.map_values(|s: String| s@) == sort_texts(items@.map_values(|s: String| s@)),
{
    let ghost src = items@.map_values(|s: String| s@);
    let mut out: Vec<String> = Vec::new();
    let mut i: usize = 0;
    assert(src.take(0) =~= Seq::<Seq<char>>::empty());
    assert(out@.map_values(|s: String| s@) =~= Seq::<Seq<char>>::empty());
    while i < items.len()
        invariant
            src == items@.map_values(|s: String| s@),
            i <= items@.len(),
            out@.map_values(|s: String| s@) == sort_texts(src.take(i as int)),
        decreases items@.len() - i,
    {
        let x = items[i].clone();
        let ghost before = out@.map_values(|s: String| s@);
        let mut p: usize = 0;
        while p < out.len() && !str_lt(x.as_str(), out[p].as_str())
            invariant
                p <= out@.len(),
                before == out@.map_values(|s: String| s@),
                forall|k: int| 0 <= k < p ==> !seq_lt(x@, #[trigger] before[k]),
            decreases out@.len() - p,
        {
            p = p + 1;
        }
        proof {
            lemma_insert_sorted_split(before, x@, p as int);
            let rest = before.skip(p as int);
            if p < before.len() {
                assert(rest[0] == before[p as int]);
            }
            assert(insert_sorted(rest, x@) =~= seq![x@] + rest);
            assert(src.take(i + 1).drop_last() =~= src.take(i as int));
            assert(src.take(i + 1).last() == x@);
        }
        out.insert(p, x);
        proof {
            assert(out@.map_values(|s: String| s@) =~= before.take(p as int) + (seq![x@]
                + before.skip(p as int)));
        }
        i = i + 1;
    }
    assert(src.take(items@.len() as int) =~= src);
    out
}

/// The web signature: the hex MD5 of salt, the `key=value` texts sorted as
/// texts and concatenated, and the salt again.
pub open spec fn web_signature(es: Seq<(Seq<char>, JsonView)>) -> Seq<char> {
    md5_hex(
        web_salt() + concat_texts(sort_texts(Seq::new(es.len(), |i: int| pair_text(es[i]))))
            + web_salt(),
    )
}

fn web_salt_text() -> (r: &'static str)
    ensures
        r@ == web_salt(),
{
    "NVPh5oo715z5DIWAeQlhMDsWXXQV4hwt"
}

/// The web signature of a request's query.
pub fn signature_web(params: &JsonObject) -> (r: String)
    ensures
        r@ == web_signature(params@),
{
    let n = params.len();
    let mut pieces: Vec<String> = Vec::new();
    let mut i: usize = 0;
    while i < n
        invariant
            n == params@.len(),
            i <= n,
            pieces@.len() == i,
            forall|k: int| 0 <= k < i ==> (#[trigger] pieces@[k])@ == pair_text(params@[k]),
        decreases n - i,
    {
        let (k, v) = params.entry_at(i);
        pieces.push(pair_string(k, v));
        i = i + 1;
    }
    let ghost texts = Seq::new(params@.len(), |k: int| pair_text(params@[k]));
    assert(pieces@.map_values(|s: String| s@) =~= texts);
    let sorted = sort_strings(pieces);
    let salt = web_salt_text();
    let mut text = salt.to_owned();
    let mut j: usize = 0;
    let ghost ordered = sort_texts(texts);
    assert(ordered.take(0) =~= Seq::<Seq<char>>::empty());
    while j < sorted.len()
        invariant
            sorted@.map_values(|s: String| s@) == ordered,
            j <= sorted@.len(),
            text@ == salt@ + concat_texts(ordered.take(j as int)),
        decreases sorted@.len() - j,
    {
        text.append(sorted[j].as_str());
        proof {
            assert(ordered.take(j + 1).drop_last() =~= ordered.take(j as int));
            assert(ordered.take(j + 1).last() == sorted@[j as int]@);
        }
        j = j + 1;
    }
    assert(ordered.take(sorted@.len() as int) =~= ordered);
    text.append(salt);
    md5_hex_of(text.as_str())
}

/// The track key: hex MD5 of hash, salt, app id, mid and user id, in that order.
pub open spec fn track_key(
    hash: Seq<char>,
    mid: Seq<char>,
    userid: Seq<char>,
    appid: Seq<char>,
    lite: bool,
) -> Seq<char> {
    md5_hex(hash + key_salt(lite) + appid + mid + userid)
}

fn key_salt_text(lite: bool) -> (r: &'static str)
    ensures
        r@ == key_salt(lite),
{
    if lite {
        "185672dd44712f60bb1736df5a377e82"
    } else {
        "57ae12eb6890223e355ccfcb74edf70d"
    }
}

/// The track key of a song for a device and user.
pub fn sign_key(hash: &str, mid: &str, userid: &str, appid: &str, is_lite: bool) -> (r: String)
    ensures
        r@ == track_key(hash@, mid@, userid@, appid@, is_lite),
{
    let mut text = hash.to_owned();
    text.append(key_salt_text(is_lite));
    text.append(appid);
    text.append(mid);
    text.append(userid);
    md5_hex_of(text.as_str())
}

/// The parameter key: hex MD5 of app id, salt, client version and the given
/// text (a client time), in that order.
pub open spec fn params_key(data: Seq<char>, lite: bool) -> Seq<char> {
    md5_hex(
        decimal(platform_appid(lite) as nat) + android_salt(lite) + decimal(
            platform_clientver(lite) as nat,
        ) + data,
    )
}

/// The parameter key for a client time.
pub fn sign_params_key(data: u64, is_lite: bool) -> (r: String)
    ensures
        r@ == params_key(decimal(data as nat), is_lite),
{
    let (appid, clientver) = platform_numbers(is_lite);
    let mut text = u128_text(appid as u128);
    text.append(android_salt_text(is_lite));
    let ver = u128_text(clientver as u128);
    text.append(ver.as_str());
    let d = u128_text(data as u128);
    text.append(d.as_str());
    md5_hex_of(text.as_str())
}

} // verus!
