//! Module responses: what an upstream reply becomes, upstream failures,
//! cleaned Set-Cookie values, and the enrichment some handlers add.
use crate::form::{decode_form, form_pairs, pairs_view};
use crate::js::{body_value, is_truthy, is_zero_value, js_number, js_string, js_text, number_is_zero, number_value, read_body, truthy};
use crate::json::{
    get_field, insert_entry, lookup, view_as_i64, JsonObject, JsonValue, JsonView, NumberView,
};
use crate::text::{
    ascii_lower, ascii_lower_chars, chars_of, decimal, split, split_str, starts_with, string_of,
    trim, trim_chars, u128_text,
};
use vstd::prelude::*;
use vstd::utf8::encode_utf8;

verus! {

/// What a module answers: an HTTP status, a JSON body, cookies to set and
/// extra headers.
pub struct ModuleResponse {
    pub status: u16,
    pub body: JsonValue,
    pub cookie: Vec<String>,
    pub headers: JsonObject,
}

/// What a [`ModuleResponse`] holds.
pub struct ResponseView {
    pub status: u16,
    pub body: JsonView,
    pub cookie: Seq<Seq<char>>,
    pub headers: Seq<(Seq<char>, JsonView)>,
}

impl View for ModuleResponse {
    type V = ResponseView;

    open spec fn view(&self) -> ResponseView {
        ResponseView {
            status: self.status,
            body: self.body@,
            cookie: self.cookie@.map_values(|c: String| c@),
            headers: self.headers@,
        }
    }
}

/// The body of a failure: `{ "msg": message, "status": 0 }`.
pub open spec fn failure_body(message: Seq<char>) -> JsonView {
    JsonView::Object(
        insert_entry(
            insert_entry(Seq::empty(), "status"@, JsonView::Number(NumberView::PosInt(0))),
            "msg"@,
            JsonView::Str(message),
        ),
    )
}

fn failure(status: u16, message: String) -> (r: ModuleResponse)
    ensures
        r.status == status,
        r.body@ == failure_body(message@),
        r.cookie@.len() == 0,
        r.headers@.len() == 0,
{
    let mut body = JsonObject::new();
    body.insert("status".to_owned(), JsonValue::unsigned(0));
    body.insert("msg".to_owned(), JsonValue::Str(message));
    ModuleResponse { status, body: JsonValue::Object(body), cookie: Vec::new(), headers: JsonObject::new() }
}

/// The response for a failed upstream exchange: status 502 and the message.
pub fn upstream_error(message: String) -> (r: ModuleResponse)
    ensures
        r.status == 502,
        r.body@ == failure_body(message@),
        r.cookie@.len() == 0,
        r.headers@.len() == 0,
{
    failure(502, message)
}

// ---------------------------------------------------------------------------
// Set-Cookie values.
// ---------------------------------------------------------------------------

/// The texts joined by `sep`.
pub open spec fn join_texts(s: Seq<Seq<char>>, sep: Seq<char>) -> Seq<char>
    decreases s.len(),
{
    if s.len() == 0 {
        Seq::empty()
    } else if s.len() == 1 {
        s[0]
    } else {
        join_texts(s.drop_last(), sep) + sep + s.last()
    }
}

/// A cookie attribute the server drops (domain, path, expiry, HttpOnly).
pub open spec fn dropped_attribute(part: Seq<char>) -> bool {
    let lower = ascii_lower(part);
    ||| (lower.len() >= 7 && lower.take(7) == "domain="@)
    ||| (lower.len() >= 5 && lower.take(5) == "path="@)
    ||| (lower.len() >= 8 && lower.take(8) == "expires="@)
    ||| lower == "httponly"@
}

/// The trimmed attributes that are kept, in order.
pub open spec fn kept_attributes(parts: Seq<Seq<char>>) -> Seq<Seq<char>>
    decreases parts.len(),
{
    if parts.len() == 0 {
        Seq::empty()
    } else {
        let rest = kept_attributes(parts.drop_last());
        let t = trim(parts.last());
        if dropped_attribute(t) {
            rest
        } else {
            rest.push(t)
        }
    }
}

/// A Set-Cookie value without its domain, path, expiry and HttpOnly
/// attributes, the rest trimmed and joined by `;`.
pub open spec fn cleaned_cookie(value: Seq<char>) -> Seq<char> {
    join_texts(kept_attributes(split(value, ';')), ";"@)
}

fn prefix_is(lower: &[char], prefix: &str) -> (r: bool)
    ensures
        r == (prefix@.len() <= lower@.len() && lower@.take(prefix@.len() as int) == prefix@),
{
    let p = chars_of(prefix);
    starts_with(lower, p.as_slice())
}

fn is_dropped(t: &[char]) -> (r: bool)
    ensures
        r == dropped_attribute(t@),
{
    let lower = ascii_lower_chars(t);
    let httponly = chars_of("httponly");
    let same = starts_with(lower.as_slice(), httponly.as_slice()) && lower.len() == httponly.len();
    proof {
        if lower@.len() == httponly@.len() {
            assert(lower@.take(httponly@.len() as int) =~= lower@);
        }
        reveal_strlit("domain=");
        reveal_strlit("path=");
        reveal_strlit("expires=");
    }
    prefix_is(lower.as_slice(), "domain=") || prefix_is(lower.as_slice(), "path=") || prefix_is(
        lower.as_slice(),
        "expires=",
    ) || same
}

/// Removes the attributes the server does not pass on from a Set-Cookie value.
pub fn clean_set_cookie(value: &str) -> (r: String)
    ensures
        r@ == cleaned_cookie(value@),
{
    let pieces = split_str(value, ';');
    let ghost want = split(value@, ';');
    let mut kept: Vec<Vec<char>> = Vec::new();
    let mut i: usize = 0;
    assert(want.take(0) =~= Seq::<Seq<char>>::empty());
    assert(kept@.map_values(|v: Vec<char>| v@) =~= Seq::<Seq<char>>::empty());
    while i < pieces.len()
        invariant
            want == split(value@, ';'),
            pieces@.len() == want.len(),
            forall|k: int| 0 <= k < pieces@.len() ==> (#[trigger] pieces@[k])@ == want[k],
            i <= pieces@.len(),
            kept@.map_values(|v: Vec<char>| v@) == kept_attributes(want.take(i as int)),
        decreases pieces@.len() - i,
    {
        let cs = chars_of(pieces[i].as_str());
        let t = trim_chars(cs.as_slice());
        proof {
            assert(want.take(i + 1).drop_last() =~= want.take(i as int));
            assert(want.take(i + 1).last() == want[i as int]);
        }
        let ghost before = kept@.map_values(|v: Vec<char>| v@);
        if !is_dropped(t.as_slice()) {
            kept.push(t);
            assert(kept@.map_values(|v: Vec<char>| v@) =~= before.push(kept@.last()@));
        }
        i = i + 1;
    }
    assert(want.take(pieces@.len() as int) =~= want);
    let ghost parts = kept@.map_values(|v: Vec<char>| v@);
    let mut out: Vec<char> = Vec::new();
    let mut j: usize = 0;
    assert(parts.take(0) =~= Seq::<Seq<char>>::empty());
    while j < kept.len()
        invariant
            parts == kept@.map_values(|v: Vec<char>| v@),
            j <= kept@.len(),
            out@ == join_texts(parts.take(j as int), ";"@),
        decreases kept@.len() - j,
    {
        proof {
            reveal_strlit(";");
            assert(parts.take(j + 1).drop_last() =~= parts.take(j as int));
            assert(parts.take(j + 1).last() == kept@[j as int]@);
        }
        let ghost prev = out@;
        if j > 0 {
            out.push(';');
        }
        let part = &kept[j];
        let mut k: usize = 0;
        let ghost base = out@;
        while k < part.len()
            invariant
                j < kept@.len(),
                *part == kept@[j as int],
                k <= part@.len(),
                out@ == base + part@.take(k as int),
            decreases part@.len() - k,
        {
            out.push(part[k]);
            k = k + 1;
            assert(out@ =~= base + part@.take(k as int));
        }
        assert(part@.take(part@.len() as int) =~= part@);
        proof {
            if j == 0 {
                assert(out@ =~= parts.take(1)[0]);
            } else {
                assert(out@ =~= prev + ";"@ + part@);
            }
        }
        j = j + 1;
    }
    assert(parts.take(kept@.len() as int) =~= parts);
    string_of(out.as_slice())
}

// ---------------------------------------------------------------------------
// Upstream replies.
// ---------------------------------------------------------------------------

/// The upstream body reports a failure: `status` is 0, or an `error_code`
/// is present, truthy and not 0.
pub open spec fn reports_failure(body: JsonView) -> bool {
    ||| match get_field(body, "status"@) {
        Some(v) => view_as_i64(v) == Some(0i64),
        None => false,
    }
    ||| match get_field(body, "error_code"@) {
        Some(v) => is_truthy(v) && view_as_i64(v) != Some(0i64),
        None => false,
    }
}

/// The message for an upstream HTTP status outside 200..=299.
pub open spec fn http_failure_message(status: u16) -> Seq<char> {
    "upstream returned HTTP "@ + decimal(status as nat)
}

/// The body with the upstream SSA code copied in when it is an object.
pub open spec fn with_ssa(body: JsonView, ssa: Option<Seq<char>>) -> JsonView {
    match (ssa, body) {
        (Some(code), JsonView::Object(es)) => JsonView::Object(insert_entry(es, "ssaCode"@, JsonView::Str(code))),
        _ => body,
    }
}

/// The message of an upstream HTTP failure.
pub fn http_failure(status: u16) -> (r: String)
    ensures
        r@ == http_failure_message(status),
{
    let mut m = "upstream returned HTTP ".to_owned();
    let d = u128_text(status as u128);
    m.append(d.as_str());
    m
}

/// What an upstream reply becomes: an HTTP failure for a status outside
/// 200..=299; otherwise the body (JSON, or its text), with status 502 when the
/// body reports a failure and 200 otherwise, the Set-Cookie values cleaned,
/// and the SSA code passed on as a header and inside an object body.
pub fn interpret_reply(status: u16, bytes: &[u8], set_cookies: &Vec<String>, ssa_code: Option<&str>) -> (r:
    ModuleResponse)
    ensures
        !(200 <= status <= 299) ==> r.status == 502 && r.body@ == failure_body(
            http_failure_message(status),
        ) && r.cookie@.len() == 0 && r.headers@.len() == 0,
        200 <= status <= 299 ==> {
            &&& r.status == (if reports_failure(body_value(bytes@)) {
                502u16
            } else {
                200u16
            })
            &&& r.body@ == with_ssa(
                body_value(bytes@),
                match ssa_code {
                    Some(c) => Some(c@),
                    None => None,
                },
            )
            &&& r.cookie@.len() == set_cookies@.len()
            &&& forall|i: int|
                0 <= i < r.cookie@.len() ==> (#[trigger] r.cookie@[i])@ == cleaned_cookie(
                    set_cookies@[i]@,
                )
            &&& r.headers@ == match ssa_code {
                Some(c) => insert_entry(Seq::empty(), "ssa-code"@, JsonView::Str(c@)),
                None => Seq::empty(),
            }
        },
{
    if status < 200 || status > 299 {
        return upstream_error(http_failure(status));
    }
    let mut body = read_body(bytes);
    let failed = match body.get("status") {
        Some(v) => v.as_i64() == Some(0i64),
        None => false,
    } || match body.get("error_code") {
        Some(v) => truthy(v) && v.as_i64() != Some(0i64),
        None => false,
    };
    let mut cookie: Vec<String> = Vec::new();
    let mut i: usize = 0;
    while i < set_cookies.len()
        invariant
            i <= set_cookies@.len(),
            cookie@.len() == i,
            forall|k: int| 0 <= k < i ==> (#[trigger] cookie@[k])@ == cleaned_cookie(set_cookies@[k]@),
        decreases set_cookies@.len() - i,
    {
        cookie.push(clean_set_cookie(set_cookies[i].as_str()));
        i = i + 1;
    }
    let mut headers = JsonObject::new();
    match ssa_code {
        Some(code) => {
            headers.insert("ssa-code".to_owned(), JsonValue::text(code));
            body = match body {
                JsonValue::Object(mut o) => {
                    o.insert("ssaCode".to_owned(), JsonValue::text(code));
                    JsonValue::Object(o)
                },
                other => other,
            };
        },
        None => {},
    }
    ModuleResponse { status: if failed {
        502
    } else {
        200
    }, body, cookie, headers }
}

} // verus!
