//! Cookies and the assembly of a request's parameters from its query, body,
//! cookie header, authorization header and the device identity.
use crate::form::{decode_form, form_pairs, grouped_pairs, pairs_view, parse_pairs};
use crate::json::{
    insert_entry, lookup, remove_entry, JsonObject, JsonValue, JsonView,
};
use crate::params::cookie_key;
use crate::text::{chars_of, decimal, split, split_chars, split_str, string_of, string_range, trim, trim_chars, u128_text};
use vstd::prelude::*;
use vstd::utf8::encode_utf8;

verus! {

// ---------------------------------------------------------------------------
// Loose cookies: `a=1;b=2`, split on `;` and `=`, nothing trimmed.
// ---------------------------------------------------------------------------

/// The name of a loose cookie piece: the text before its first `=`.
pub open spec fn loose_name(piece: Seq<char>) -> Seq<char> {
    split(piece, '=')[0]
}

/// The value of a loose cookie piece: the text between its first and second
/// `=`, or the empty text.
pub open spec fn loose_value(piece: Seq<char>) -> Seq<char> {
    let parts = split(piece, '=');
    if parts.len() > 1 {
        parts[1]
    } else {
        Seq::empty()
    }
}

pub open spec fn loose_entries(pieces: Seq<Seq<char>>) -> Seq<(Seq<char>, JsonView)>
    decreases pieces.len(),
{
    if pieces.len() == 0 {
        Seq::empty()
    } else {
        insert_entry(
            loose_entries(pieces.drop_last()),
            loose_name(pieces.last()),
            JsonView::Str(loose_value(pieces.last())),
        )
    }
}

/// The cookies of a loose cookie text; a later name overrides an earlier one.
pub open spec fn loose_cookie(text: Seq<char>) -> Seq<(Seq<char>, JsonView)> {
    loose_entries(split(text, ';'))
}

/// Reads a loose cookie text such as `token=abc;userid=123`.
pub fn parse_loose_cookie(value: &str) -> (r: JsonObject)
    ensures
        r@ == loose_cookie(value@),
{
    let pieces = split_str(value, ';');
    let ghost want = split(value@, ';');
    let mut result = JsonObject::new();
    let mut i: usize = 0;
    assert(want.take(0) =~= Seq::<Seq<char>>::empty());
    while i < pieces.len()
        invariant
            want == split(value@, ';'),
            pieces@.len() == want.len(),
            forall|k: int| 0 <= k < pieces@.len() ==> (#[trigger] pieces@[k])@ == want[k],
            i <= pieces@.len(),
            result@ == loose_entries(want.take(i as int)),
        decreases pieces@.len() - i,
    {
        let cs = chars_of(pieces[i].as_str());
        let parts = split_chars(cs.as_slice(), '=');
        proof {
            crate::text::lemma_split_nonempty(cs@, '=');
        }
        let name = string_of(parts[0].as_slice());
        let v = if parts.len() > 1 {
            string_of(parts[1].as_slice())
        } else {
            String::new()
        };
        result.insert(name, JsonValue::Str(v));
        proof {
            assert(want.take(i + 1).drop_last() =~= want.take(i as int));
            assert(want.take(i + 1).last() == want[i as int]);
        }
        i = i + 1;
    }
    assert(want.take(pieces@.len() as int) =~= want);
    result
}

// ---------------------------------------------------------------------------
// The Cookie header: `a=1; b=%20`, pieces trimmed, empty names or values
// dropped, values percent-decoded.
// ---------------------------------------------------------------------------

/// The position of the first `c` in `s`, if any.
pub open spec fn find_char(s: Seq<char>, c: char) -> Option<int>
    decreases s.len(),
{
    if s.len() == 0 {
        None
    } else if s[0] == c {
        Some(0)
    } else {
        match find_char(s.drop_first(), c) {
            Some(i) => Some(i + 1),
            None => None,
        }
    }
}

proof fn lemma_find_char(s: Seq<char>, c: char, p: int)
    requires
        0 <= p <= s.len(),
        forall|k: int| 0 <= k < p ==> s[k] != c,
    ensures
        p < s.len() && s[p] == c ==> find_char(s, c) == Some(p),
        p == s.len() ==> find_char(s, c) is None,
    decreases p,
{
    if p > 0 {
        lemma_find_char(s.drop_first(), c, p - 1);
    }
}

/// The position of the first `c` in `s`, if any.
pub fn find(s: &[char], c: char) -> (r: Option<usize>)
    ensures
        match r {
            Some(i) => find_char(s@, c) == Some(i as int) && i < s@.len(),
            None => find_char(s@, c) is None,
        },
{
    let mut i: usize = 0;
    while i < s.len()
        invariant
            i <= s@.len(),
            forall|k: int| 0 <= k < i ==> s@[k] != c,
        decreases s@.len() - i,
    {
        if s[i] == c {
            proof {
                lemma_find_char(s@, c, i as int);
            }
            return Some(i);
        }
        i = i + 1;
    }
    proof {
        lemma_find_char(s@, c, i as int);
    }
    None
}

/// The decoding of one percent-encoded value (as the value of a one-field form `v=...`).
pub open spec fn percent_text(value: Seq<char>) -> Seq<char> {
    let ps = form_pairs(encode_utf8(seq!['v', '='] + value));
    if ps.len() > 0 {
        ps[0].1
    } else {
        Seq::empty()
    }
}

/// Percent-decodes a cookie value.
pub fn percent_decode(value: &str) -> (r: String)
    ensures
        r@ == percent_text(value@),
{
    let mut text = string_of(&['v', '=']);
    text.append(value);
    let pairs = decode_form(text.as_str().as_bytes());
    proof {
        assert(text@ =~= seq!['v', '='] + value@);
    }
    if pairs.len() > 0 {
        pairs[0].1.clone()
    } else {
        String::new()
    }
}

/// The name and raw value of one trimmed Cookie-header piece, when it has an
/// `=` and both sides are non-empty.
pub open spec fn header_pair(piece: Seq<char>) -> Option<(Seq<char>, Seq<char>)> {
    let t = trim(piece);
    match find_char(t, '=') {
        Some(p) => if p > 0 && p + 1 < t.len() {
            Some((t.take(p), t.skip(p + 1)))
        } else {
            None
        },
        None => None,
    }
}

pub open spec fn header_entries(pieces: Seq<Seq<char>>) -> Seq<(Seq<char>, JsonView)>
    decreases pieces.len(),
{
    if pieces.len() == 0 {
        Seq::empty()
    } else {
        let es = header_entries(pieces.drop_last());
        match header_pair(pieces.last()) {
            Some((n, v)) => insert_entry(es, n, JsonView::Str(percent_text(v))),
            None => es,
        }
    }
}

/// The cookies of a Cookie header (none without one).
pub open spec fn header_cookie(value: Option<Seq<char>>) -> Seq<(Seq<char>, JsonView)> {
    match value {
        Some(v) => header_entries(split(v, ';')),
        None => Seq::empty(),
    }
}

/// Reads the Cookie header.
pub fn parse_cookie_header(value: Option<&str>) -> (r: JsonObject)
    ensures
        r@ == header_cookie(match value {
            Some(v) => Some(v@),
            None => None,
        }),
{
    let mut result = JsonObject::new();
    let text = match value {
        Some(v) => v,
        None => {
            return result;
        },
    };
    let pieces = split_str(text, ';');
    let ghost want = split(text@, ';');
    let mut i: usize = 0;
    assert(want.take(0) =~= Seq::<Seq<char>>::empty());
    while i < pieces.len()
        invariant
            want == split(text@, ';'),
            pieces@.len() == want.len(),
            forall|k: int| 0 <= k < pieces@.len() ==> (#[trigger] pieces@[k])@ == want[k],
            i <= pieces@.len(),
            result@ == header_entries(want.take(i as int)),
        decreases pieces@.len() - i,
    {
        let cs = chars_of(pieces[i].as_str());
        let t = trim_chars(cs.as_slice());
        proof {
            assert(want.take(i + 1).drop_last() =~= want.take(i as int));
            assert(want.take(i + 1).last() == want[i as int]);
        }
        match find(t.as_slice(), '=') {
            Some(p) => {
                if p > 0 && t.len() - p > 1 {
                    let name = string_range(t.as_slice(), 0, p);
                    let raw = string_range(t.as_slice(), p + 1, t.len());
                    proof {
                        assert(t@.subrange(0, p as int) =~= t@.take(p as int));
                        assert(t@.subrange(p + 1, t@.len() as int) =~= t@.skip(p + 1));
                    }
                    let decoded = percent_decode(raw.as_str());
                    result.insert(name, JsonValue::Str(decoded));
                }
            },
            None => {},
        }
        i = i + 1;
    }
    assert(want.take(pieces@.len() as int) =~= want);
    result
}

// ---------------------------------------------------------------------------
// Merging.
// ---------------------------------------------------------------------------

/// `target` with each entry of `source` stored in turn (later ones win).
pub open spec fn extend_entries(
    target: Seq<(Seq<char>, JsonView)>,
    source: Seq<(Seq<char>, JsonView)>,
) -> Seq<(Seq<char>, JsonView)>
    decreases source.len(),
{
    if source.len() == 0 {
        target
    } else {
        let es = extend_entries(target, source.drop_last());
        insert_entry(es, source.last().0, source.last().1)
    }
}

/// Stores each entry of `source` into `target`.
pub fn extend_object(target: &mut JsonObject, source: &JsonObject)
    ensures
        final(target)@ == extend_entries(old(target)@, source@),
{
    let n = source.len();
    let mut i: usize = 0;
    assert(source@.take(0) =~= Seq::<(Seq<char>, JsonView)>::empty());
    while i < n
        invariant
            n == source@.len(),
            i <= n,
            target@ == extend_entries(old(target)@, source@.take(i as int)),
        decreases n - i,
    {
        let (k, v) = source.entry_at(i);
        target.insert(k.clone(), v.deep_clone());
        proof {
            assert(source@.take(i + 1).drop_last() =~= source@.take(i as int));
            assert(source@.take(i + 1).last() == source@[i as int]);
        }
        i = i + 1;
    }
    assert(source@.take(n as int) =~= source@);
}

/// `target` extended by `value` when it is an object.
pub open spec fn merged(target: Seq<(Seq<char>, JsonView)>, value: JsonView) -> Seq<(Seq<char>, JsonView)> {
    match value {
        JsonView::Object(es) => extend_entries(target, es),
        _ => target,
    }
}

/// Merges `value` into `target` when it is an object.
pub fn merge_cookie_value(target: &mut JsonObject, value: JsonValue)
    ensures
        final(target)@ == merged(old(target)@, value@),
{
    match value {
        JsonValue::Object(o) => extend_object(target, &o),
        _ => {},
    }
}

/// `object` with a string `cookie` entry read as a loose cookie text.
pub open spec fn cookie_field_parsed(es: Seq<(Seq<char>, JsonView)>) -> Seq<(Seq<char>, JsonView)> {
    match lookup(es, cookie_key()) {
        Some(JsonView::Str(s)) => insert_entry(es, cookie_key(), JsonView::Object(loose_cookie(s))),
        _ => es,
    }
}

fn cookie_text() -> (r: &'static str)
    ensures
        r@ == cookie_key(),
{
    proof {
        reveal_strlit("cookie");
    }
    "cookie"
}

/// Reads a string `cookie` field as a loose cookie text.
pub fn parse_cookie_field(object: &mut JsonObject)
    ensures
        final(object)@ == cookie_field_parsed(old(object)@),
{
    let parsed = match object.get(cookie_text()) {
        Some(JsonValue::Str(s)) => Some(parse_loose_cookie(s.as_str())),
        _ => None,
    };
    match parsed {
        Some(p) => {
            object.insert(cookie_text().to_owned(), JsonValue::Object(p));
        },
        None => {},
    }
}

// ---------------------------------------------------------------------------
// Request parameters.
// ---------------------------------------------------------------------------

/// The identity this server presents upstream when a client sends none.
pub struct DeviceIdentity {
    pub platform: String,
    pub guid: String,
    pub mid: String,
    pub dev: String,
    pub mac: String,
    pub webgl: Option<String>,
}

pub open spec fn platform_cookie() -> Seq<char> {
    "KUGOU_API_PLATFORM"@
}

pub open spec fn mid_cookie() -> Seq<char> {
    "KUGOU_API_MID"@
}

pub open spec fn guid_cookie() -> Seq<char> {
    "KUGOU_API_GUID"@
}

pub open spec fn dev_cookie() -> Seq<char> {
    "KUGOU_API_DEV"@
}

pub open spec fn mac_cookie() -> Seq<char> {
    "KUGOU_API_MAC"@
}

pub open spec fn webgl_cookie() -> Seq<char> {
    "KUGOU_API_WEBGL"@
}

/// Cookies and the Set-Cookie texts that add a default cookie when absent.
pub open spec fn default_cookie(
    state: (Seq<(Seq<char>, JsonView)>, Seq<Seq<char>>),
    name: Seq<char>,
    value: Seq<char>,
) -> (Seq<(Seq<char>, JsonView)>, Seq<Seq<char>>) {
    if lookup(state.0, name) is Some {
        state
    } else {
        (insert_entry(state.0, name, JsonView::Str(value)), state.1.push(name + seq!['='] + value))
    }
}

/// The WebGL fingerprint: the configured one, or the decimal text of a random number.
pub open spec fn webgl_value(webgl: Option<Seq<char>>, random: u64) -> Seq<char> {
    match webgl {
        Some(w) => w,
        None => decimal(random as nat),
    }
}

/// The request's cookies after the device defaults, with the Set-Cookie
/// texts for the defaults that were added.
pub open spec fn device_cookies(
    header: Seq<(Seq<char>, JsonView)>,
    platform: Seq<char>,
    mid: Seq<char>,
    guid: Seq<char>,
    dev: Seq<char>,
    mac: Seq<char>,
    webgl: Seq<char>,
) -> (Seq<(Seq<char>, JsonView)>, Seq<Seq<char>>) {
    let s0 = (header, Seq::<Seq<char>>::empty());
    let s1 = default_cookie(s0, platform_cookie(), platform);
    let s2 = default_cookie(s1, mid_cookie(), mid);
    let s3 = default_cookie(s2, guid_cookie(), guid);
    let s4 = default_cookie(s3, dev_cookie(), dev);
    let s5 = default_cookie(s4, mac_cookie(), mac);
    default_cookie(s5, webgl_cookie(), webgl)
}

/// The parameters of a request: the query fields (repeated ones as arrays),
/// a `cookie` object made of the Cookie header, the device defaults and any
/// `cookie` query field, then the body fields (which win over the query),
/// and finally the Authorization header read as loose cookies into the
/// `cookie` object. Also the Set-Cookie texts of the defaults that were added.
pub open spec fn request_params(
    query: Seq<u8>,
    body: Seq<(Seq<char>, JsonView)>,
    cookie_header: Option<Seq<char>>,
    authorization: Option<Seq<char>>,
    platform: Seq<char>,
    mid: Seq<char>,
    guid: Seq<char>,
    dev: Seq<char>,
    mac: Seq<char>,
    webgl: Seq<char>,
) -> (JsonView, Seq<Seq<char>>) {
    let q = cookie_field_parsed(grouped_pairs(form_pairs(query)));
    let b = cookie_field_parsed(body);
    let (jar, set) = device_cookies(header_cookie(cookie_header), platform, mid, guid, dev, mac, webgl);
    let jar2 = match lookup(q, cookie_key()) {
        Some(v) => merged(jar, v),
        None => jar,
    };
    let q2 = remove_entry(q, cookie_key());
    let p = extend_entries(insert_entry(q2, cookie_key(), JsonView::Object(jar2)), b);
    let p2 = match authorization {
        Some(a) => match lookup(p, cookie_key()) {
            Some(JsonView::Object(c)) => insert_entry(
                p,
                cookie_key(),
                JsonView::Object(extend_entries(c, loose_cookie(a))),
            ),
            _ => p,
        },
        None => p,
    };
    (JsonView::Object(p2), set)
}

fn add_default(jar: &mut JsonObject, set: &mut Vec<String>, name: &str, value: &str)
    ensures
        (final(jar)@, final(set)@.map_values(|s: String| s@)) == default_cookie(
            (old(jar)@, old(set)@.map_values(|s: String| s@)),
            name@,
            value@,
        ),
{
    if !jar.contains_key(name) {
        jar.insert(name.to_owned(), JsonValue::Str(value.to_owned()));
        let mut line = name.to_owned();
        crate::text::push_char(&mut line, '=');
        line.append(value);
        assert(line@ =~= name@ + seq!['='] + value@);
        let ghost before = set@.map_values(|s: String| s@);
        set.push(line);
        assert(set@.map_values(|s: String| s@) =~= before.push(name@ + seq!['='] + value@));
    }
}

fn platform_name() -> (r: &'static str)
    ensures
        r@ == platform_cookie(),
{
    "KUGOU_API_PLATFORM"
}

fn mid_name() -> (r: &'static str)
    ensures
        r@ == mid_cookie(),
{
    "KUGOU_API_MID"
}

fn guid_name() -> (r: &'static str)
    ensures
        r@ == guid_cookie(),
{
    "KUGOU_API_GUID"
}

fn dev_name() -> (r: &'static str)
    ensures
        r@ == dev_cookie(),
{
    "KUGOU_API_DEV"
}

fn mac_name() -> (r: &'static str)
    ensures
        r@ == mac_cookie(),
{
    "KUGOU_API_MAC"
}

fn webgl_name() -> (r: &'static str)
    ensures
        r@ == webgl_cookie(),
{
    "KUGOU_API_WEBGL"
}

/// Assembles a request's parameters (see [`request_params`]); `random` is the
/// number whose text stands for the WebGL fingerprint when none is configured.
pub fn build_params(
    query: &[u8],
    body: JsonObject,
    cookie_header: Option<&str>,
    authorization: Option<&str>,
    device: &DeviceIdentity,
    random: u64,
) -> (r: (JsonValue, Vec<String>))
    ensures
        (r.0@, r.1@.map_values(|s: String| s@)) == request_params(
            query@,
            body@,
            match cookie_header {
                Some(v) => Some(v@),
                None => None,
            },
            match authorization {
                Some(v) => Some(v@),
                None => None,
            },
            device.platform@,
            device.mid@,
            device.guid@,
            device.dev@,
            device.mac@,
            webgl_value(
                match device.webgl {
                    Some(w) => Some(w@),
                    None => None,
                },
                random,
            ),
        ),
{
    let mut q = parse_pairs(query);
    let mut b = body;
    parse_cookie_field(&mut q);
    parse_cookie_field(&mut b);
    let mut jar = parse_cookie_header(cookie_header);
    let mut set: Vec<String> = Vec::new();
    assert(set@.map_values(|s: String| s@) =~= Seq::<Seq<char>>::empty());
    add_default(&mut jar, &mut set, platform_name(), device.platform.as_str());
    add_default(&mut jar, &mut set, mid_name(), device.mid.as_str());
    add_default(&mut jar, &mut set, guid_name(), device.guid.as_str());
    add_default(&mut jar, &mut set, dev_name(), device.dev.as_str());
    add_default(&mut jar, &mut set, mac_name(), device.mac.as_str());
    let webgl = match &device.webgl {
        Some(w) => w.clone(),
        None => u128_text(random as u128),
    };
    add_default(&mut jar, &mut set, webgl_name(), webgl.as_str());
    match q.remove(cookie_text()) {
        Some(v) => merge_cookie_value(&mut jar, v),
        None => {},
    }
    q.insert(cookie_text().to_owned(), JsonValue::Object(jar));
    extend_object(&mut q, &b);
    match authorization {
        Some(a) => {
            let updated = match q.get(cookie_text()) {
                Some(JsonValue::Object(c)) => {
                    let mut c2 = c.deep_clone();
                    let loose = parse_loose_cookie(a);
                    extend_object(&mut c2, &loose);
                    Some(c2)
                },
                _ => None,
            };
            match updated {
                Some(c2) => q.insert(cookie_text().to_owned(), JsonValue::Object(c2)),
                None => {},
            }
        },
        None => {},
    }
    (JsonValue::Object(q), set)
}

} // verus!
