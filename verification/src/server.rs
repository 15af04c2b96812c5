//! The gateway's own decisions around a module: how a request body is read,
//! which client address is reported, how large a body may be, and how a
//! module's response becomes the HTTP reply (status, body, headers, cookies,
//! CORS) and whether it is cached.
use crate::encoding::{base64, base64_bytes, base64_decode, base64_encode};
use crate::form::{form_pairs, grouped_pairs, parse_pairs};
use crate::js::{compact_json, is_truthy, js_string, js_text, json_document, json_text, parse_json, truthy};
use crate::json::{get_field, insert_entry, JsonObject, JsonValue, JsonView, NumberView};
use crate::response::{ModuleResponse, ResponseView};
use crate::routes::{native_modules, supports};
use crate::text::{chars_of, split, split_chars, starts_with, string_of, trim, trim_chars};
use vstd::prelude::*;

verus! {

/// `s` starts with `p`.
pub open spec fn has_prefix(s: Seq<char>, p: Seq<char>) -> bool {
    p.len() <= s.len() && s.take(p.len() as int) == p
}

fn prefix_is(s: &str, p: &str) -> (r: bool)
    ensures
        r == has_prefix(s@, p@),
{
    let a = chars_of(s);
    let b = chars_of(p);
    starts_with(a.as_slice(), b.as_slice())
}

/// The content type of raw bytes.
pub open spec fn octet_stream() -> Seq<char> {
    "application/octet-stream"@
}

/// The content type of URL-encoded forms.
pub open spec fn form_type() -> Seq<char> {
    "application/x-www-form-urlencoded"@
}

// ---------------------------------------------------------------------------
// Request bodies.
// ---------------------------------------------------------------------------

/// The largest body read for a content type: 100 MiB of raw bytes, 5 MiB of
/// form, 16 MiB otherwise.
pub open spec fn body_limit_for(content_type: Seq<char>) -> nat {
    if has_prefix(content_type, octet_stream()) {
        104857600
    } else if has_prefix(content_type, form_type()) {
        5242880
    } else {
        16777216
    }
}

/// The largest body read for a content type (see [`body_limit_for`]).
pub fn body_limit(content_type: &str) -> (r: usize)
    ensures
        r == body_limit_for(content_type@),
{
    if prefix_is(content_type, "application/octet-stream") {
        104857600
    } else if prefix_is(content_type, "application/x-www-form-urlencoded") {
        5242880
    } else {
        16777216
    }
}

/// How raw bytes travel inside JSON: `{ "__kugou_buffer__": base64 }`.
pub open spec fn buffer_value(bytes: Seq<u8>) -> JsonView {
    JsonView::Object(insert_entry(Seq::empty(), "__kugou_buffer__"@, JsonView::Str(base64(bytes))))
}

/// The message for a JSON body that is not an object.
pub open spec fn not_object_message() -> Seq<char> {
    "JSON request body must be an object"@
}

/// The parameters a request body carries: none for an empty body; raw bytes
/// under `data` as a buffer; a form's fields (repeated ones as arrays); or a
/// JSON object's entries, with the parse error or [`not_object_message`]
/// otherwise.
pub open spec fn body_params(content_type: Seq<char>, bytes: Seq<u8>) -> Result<
    Seq<(Seq<char>, JsonView)>,
    Seq<char>,
> {
    if bytes.len() == 0 {
        Ok(Seq::empty())
    } else if has_prefix(content_type, octet_stream()) {
        Ok(insert_entry(Seq::empty(), "data"@, buffer_value(bytes)))
    } else if has_prefix(content_type, form_type()) {
        Ok(grouped_pairs(form_pairs(bytes)))
    } else {
        match json_document(bytes) {
            Err(e) => Err(e),
            Ok(JsonView::Object(es)) => Ok(es),
            Ok(_) => Err(not_object_message()),
        }
    }
}

/// Reads a request body (see [`body_params`]).
pub fn parse_body(content_type: &str, bytes: &[u8]) -> (r: Result<JsonObject, String>)
    ensures
        match r {
            Ok(o) => body_params(content_type@, bytes@) == Ok::<
                Seq<(Seq<char>, JsonView)>,
                Seq<char>,
            >(o@),
            Err(e) => body_params(content_type@, bytes@) == Err::<
                Seq<(Seq<char>, JsonView)>,
                Seq<char>,
            >(e@),
        },
{
    if bytes.len() == 0 {
        return Ok(JsonObject::new());
    }
    if prefix_is(content_type, "application/octet-stream") {
        let mut buffer = JsonObject::new();
        buffer.insert("__kugou_buffer__".to_owned(), JsonValue::Str(base64_encode(bytes)));
        let mut o = JsonObject::new();
        o.insert("data".to_owned(), JsonValue::Object(buffer));
        return Ok(o);
    }
    if prefix_is(content_type, "application/x-www-form-urlencoded") {
        return Ok(parse_pairs(bytes));
    }
    match parse_json(bytes) {
        Err(e) => Err(e),
        Ok(JsonValue::Object(o)) => Ok(o),
        Ok(_) => Err("JSON request body must be an object".to_owned()),
    }
}

// ---------------------------------------------------------------------------
// The client's address.
// ---------------------------------------------------------------------------

/// The address an `X-Forwarded-For` value names: its first comma-separated
/// entry, trimmed, when that is not empty.
pub open spec fn forwarded_for(header: Option<Seq<char>>) -> Option<Seq<char>> {
    match header {
        Some(v) => {
            let first = trim(split(v, ',')[0]);
            if first.len() > 0 {
                Some(first)
            } else {
                None
            }
        },
        None => None,
    }
}

/// The address an `X-Forwarded-For` value names (see [`forwarded_for`]).
pub fn forwarded_ip(header: Option<&str>) -> (r: Option<String>)
    ensures
        match r {
            Some(a) => forwarded_for(
                match header {
                    Some(h) => Some(h@),
                    None => None,
                },
            ) == Some(a@),
            None => forwarded_for(
                match header {
                    Some(h) => Some(h@),
                    None => None,
                },
            ) is None,
        },
{
    match header {
        None => None,
        Some(h) => {
            let cs = chars_of(h);
            let pieces = split_chars(cs.as_slice(), ',');
            proof {
                crate::text::lemma_split_nonempty(h@, ',');
            }
            let first = trim_chars(pieces[0].as_slice());
            if first.len() > 0 {
                Some(string_of(first.as_slice()))
            } else {
                None
            }
        },
    }
}

// ---------------------------------------------------------------------------
// Replies.
// ---------------------------------------------------------------------------

/// The HTTP status of a module's status: itself when it is a valid code
/// (100 to 999), else 500.
pub open spec fn http_status(s: u16) -> u16 {
    if 100 <= s <= 999 {
        s
    } else {
        500
    }
}

/// The HTTP status of a module's status (see [`http_status`]).
pub fn reply_status(s: u16) -> (r: u16)
    ensures
        r == http_status(s),
{
    if 100 <= s && s <= 999 {
        s
    } else {
        500
    }
}

/// What an HTTP reply carries: raw bytes, or JSON text (sent with a JSON
/// content type).
pub enum ReplyBody {
    Bytes(Vec<u8>),
    Json(String),
}

pub enum ReplyBodyView {
    Bytes(Seq<u8>),
    Json(Seq<char>),
}

impl View for ReplyBody {
    type V = ReplyBodyView;

    open spec fn view(&self) -> ReplyBodyView {
        match self {
            ReplyBody::Bytes(b) => ReplyBodyView::Bytes(b@),
            ReplyBody::Json(t) => ReplyBodyView::Json(t@),
        }
    }
}

/// The reply body for a module body: the decoded bytes of a buffer (none
/// when they do not decode), a string as it is, anything else as JSON text.
pub open spec fn reply_body_of(body: JsonView) -> ReplyBodyView {
    match get_field(body, "__kugou_buffer__"@) {
        Some(JsonView::Str(t)) => ReplyBodyView::Bytes(
            match base64_bytes(t) {
                Ok(b) => b,
                Err(_) => Seq::empty(),
            },
        ),
        _ => ReplyBodyView::Json(
            match body {
                JsonView::Str(t) => t,
                _ => compact_json(body),
            },
        ),
    }
}

/// The reply body for a module body (see [`reply_body_of`]); a buffer that
/// holds the encoding of some bytes is answered with exactly those bytes.
pub fn reply_body(body: &JsonValue) -> (r: ReplyBody)
    ensures
        r@ == reply_body_of(body@),
        forall|x: Seq<u8>|
            get_field(body@, "__kugou_buffer__"@) == Some(JsonView::Str(#[trigger] base64(x)))
                ==> r@ == ReplyBodyView::Bytes(x),
{
    match body.get("__kugou_buffer__") {
        Some(JsonValue::Str(t)) => ReplyBody::Bytes(
            match base64_decode(t.as_str()) {
                Ok(b) => b,
                Err(_) => Vec::new(),
            },
        ),
        _ => ReplyBody::Json(
            match body {
                JsonValue::Str(t) => t.clone(),
                _ => json_text(body),
            },
        ),
    }
}

/// The headers a module asks for, each value as text.
pub open spec fn header_texts(es: Seq<(Seq<char>, JsonView)>) -> Seq<(Seq<char>, Seq<char>)> {
    Seq::new(es.len(), |i: int| (es[i].0, js_text(es[i].1)))
}

/// The headers a module asks for, each value as text (see [`header_texts`]).
pub fn header_pairs(headers: &JsonObject) -> (r: Vec<(String, String)>)
    ensures
        r@.map_values(|h: (String, String)| (h.0@, h.1@)) == header_texts(headers@),
{
    let n = headers.len();
    let mut out: Vec<(String, String)> = Vec::new();
    let mut i: usize = 0;
    while i < n
        invariant
            n == headers@.len(),
            i <= n,
            out@.len() == i,
            forall|k: int|
                0 <= k < i ==> (#[trigger] out@[k]).0@ == headers@[k].0 && out@[k].1@ == js_text(
                    headers@[k].1,
                ),
        decreases n - i,
    {
        let (k, v) = headers.entry_at(i);
        out.push((k.clone(), js_string(v)));
        i = i + 1;
    }
    assert(out@.map_values(|h: (String, String)| (h.0@, h.1@)) =~= header_texts(headers@));
    out
}

/// The request came over HTTPS: its `X-Forwarded-Proto` is `https` in any
/// ASCII case.
pub open spec fn is_https(proto: Option<Seq<char>>) -> bool {
    match proto {
        Some(p) => crate::text::ascii_lower(p) == "https"@,
        None => false,
    }
}

/// Whether the request came over HTTPS (see [`is_https`]).
pub fn forwarded_https(proto: Option<&str>) -> (r: bool)
    ensures
        r == is_https(
            match proto {
                Some(p) => Some(p@),
                None => None,
            },
        ),
{
    match proto {
        Some(p) => {
            let cs = chars_of(p);
            let lowered = crate::text::ascii_lower_chars(cs.as_slice());
            let t = string_of(lowered.as_slice());
            crate::text::str_eq(t.as_str(), "https")
        },
        None => false,
    }
}

/// The attributes appended to every cookie set: a root path, and for HTTPS
/// cross-site use over a secure channel.
pub open spec fn cookie_suffix(https: bool) -> Seq<char> {
    if https {
        "; PATH=/; SameSite=None; Secure"@
    } else {
        "; PATH=/"@
    }
}

/// The cookies a reply sets: the device cookies, then (unless the caller
/// asked for none) the module's cookies, each with the suffix.
pub open spec fn reply_cookies(
    device: Seq<Seq<char>>,
    module: Seq<Seq<char>>,
    no_cookie: bool,
    https: bool,
) -> Seq<Seq<char>> {
    let sfx = cookie_suffix(https);
    device.map_values(|c: Seq<char>| c + sfx) + if no_cookie {
        Seq::empty()
    } else {
        module.map_values(|c: Seq<char>| c + sfx)
    }
}

fn add_suffixed(out: &mut Vec<String>, cookies: &Vec<String>, suffix: &str)
    ensures
        final(out)@.map_values(|s: String| s@) == old(out)@.map_values(|s: String| s@) + cookies@.map_values(
            |s: String| s@,
        ).map_values(|c: Seq<char>| c + suffix@),
{
    let ghost start = out@.map_values(|s: String| s@);
    let ghost want = cookies@.map_values(|s: String| s@).map_values(|c: Seq<char>| c + suffix@);
    let mut i: usize = 0;
    while i < cookies.len()
        invariant
            start == old(out)@.map_values(|s: String| s@),
            want == cookies@.map_values(|s: String| s@).map_values(|c: Seq<char>| c + suffix@),
            i <= cookies@.len(),
            out@.map_values(|s: String| s@) == start + want.take(i as int),
        decreases cookies@.len() - i,
    {
        let mut c = cookies[i].clone();
        c.append(suffix);
        let ghost before = out@.map_values(|s: String| s@);
        out.push(c);
        assert(out@.map_values(|s: String| s@) =~= before.push(want[i as int]));
        assert(want.take(i + 1) =~= want.take(i as int).push(want[i as int]));
        i = i + 1;
    }
    assert(want.take(i as int) =~= want);
}

/// The cookies a reply sets (see [`reply_cookies`]).
pub fn cookies_to_set(device: &Vec<String>, module: &Vec<String>, no_cookie: bool, https: bool) -> (r:
    Vec<String>)
    ensures
        r@.map_values(|s: String| s@) == reply_cookies(
            device@.map_values(|s: String| s@),
            module@.map_values(|s: String| s@),
            no_cookie,
            https,
        ),
{
    let suffix = if https {
        "; PATH=/; SameSite=None; Secure"
    } else {
        "; PATH=/"
    };
    let mut out: Vec<String> = Vec::new();
    assert(out@.map_values(|s: String| s@) =~= Seq::<Seq<char>>::empty());
    add_suffixed(&mut out, device, suffix);
    if !no_cookie {
        add_suffixed(&mut out, module, suffix);
    }
    assert(out@.map_values(|s: String| s@) =~= reply_cookies(
        device@.map_values(|s: String| s@),
        module@.map_values(|s: String| s@),
        no_cookie,
        https,
    ));
    out
}

/// The caller asked that the module's cookies not be set: `noCookie` is
/// truthy.
pub open spec fn asks_no_cookie(p: JsonView) -> bool {
    match get_field(p, "noCookie"@) {
        Some(v) => is_truthy(v),
        None => false,
    }
}

/// Whether the caller asked that the module's cookies not be set.
pub fn no_cookie(params: &JsonValue) -> (r: bool)
    ensures
        r == asks_no_cookie(params@),
{
    match params.get("noCookie") {
        Some(v) => truthy(v),
        None => false,
    }
}

/// The origin a reply allows: the configured one, else the request's, else
/// any.
pub open spec fn allowed_origin(configured: Option<Seq<char>>, origin: Option<Seq<char>>) -> Seq<char> {
    match configured {
        Some(c) => c,
        None => match origin {
            Some(o) => o,
            None => "*"@,
        },
    }
}

/// The CORS headers of every reply, in order.
pub open spec fn cors_header_list(configured: Option<Seq<char>>, origin: Option<Seq<char>>) -> Seq<
    (Seq<char>, Seq<char>),
> {
    seq![
        ("access-control-allow-credentials"@, "true"@),
        ("access-control-allow-origin"@, allowed_origin(configured, origin)),
        ("access-control-allow-headers"@, "Authorization,X-Requested-With,Content-Type,Cache-Control"@),
        ("access-control-allow-methods"@, "PUT,POST,GET,DELETE,OPTIONS"@),
    ]
}

/// The CORS headers of every reply (see [`cors_header_list`]).
pub fn cors_headers(configured: Option<&str>, origin: Option<&str>) -> (r: Vec<(String, String)>)
    ensures
        r@.map_values(|h: (String, String)| (h.0@, h.1@)) == cors_header_list(
            match configured {
                Some(c) => Some(c@),
                None => None,
            },
            match origin {
                Some(o) => Some(o@),
                None => None,
            },
        ),
{
    let allow = match configured {
        Some(c) => c.to_owned(),
        None => match origin {
            Some(o) => o.to_owned(),
            None => "*".to_owned(),
        },
    };
    let mut r: Vec<(String, String)> = Vec::new();
    r.push(("access-control-allow-credentials".to_owned(), "true".to_owned()));
    r.push(("access-control-allow-origin".to_owned(), allow));
    r.push(
        (
            "access-control-allow-headers".to_owned(),
            "Authorization,X-Requested-With,Content-Type,Cache-Control".to_owned(),
        ),
    );
    r.push(("access-control-allow-methods".to_owned(), "PUT,POST,GET,DELETE,OPTIONS".to_owned()));
    assert(r@.map_values(|h: (String, String)| (h.0@, h.1@)) =~= cors_header_list(
        match configured {
            Some(c) => Some(c@),
            None => None,
        },
        match origin {
            Some(o) => Some(o@),
            None => None,
        },
    ));
    r
}

// ---------------------------------------------------------------------------
// Failures and the cache.
// ---------------------------------------------------------------------------

/// The body of an unknown or failed module:
/// `{ "code": 404, "data": null, "msg": "Not Found", "error": message }`.
pub open spec fn not_found_body(message: Seq<char>) -> JsonView {
    let o = insert_entry(Seq::empty(), "code"@, JsonView::Number(NumberView::PosInt(404)));
    let o = insert_entry(o, "data"@, JsonView::Null);
    let o = insert_entry(o, "msg"@, JsonView::Str("Not Found"@));
    JsonView::Object(insert_entry(o, "error"@, JsonView::Str(message)))
}

/// The response for a module that could not run: status 404 and the message.
pub fn not_found(message: String) -> (r: ModuleResponse)
    ensures
        r@ == (ResponseView {
            status: 404,
            body: not_found_body(message@),
            cookie: Seq::empty(),
            headers: Seq::empty(),
        }),
{
    let mut o = JsonObject::new();
    o.insert("code".to_owned(), JsonValue::unsigned(404));
    o.insert("data".to_owned(), JsonValue::Null);
    o.insert("msg".to_owned(), JsonValue::text("Not Found"));
    o.insert("error".to_owned(), JsonValue::Str(message));
    let r = ModuleResponse {
        status: 404,
        body: JsonValue::Object(o),
        cookie: Vec::new(),
        headers: JsonObject::new(),
    };
    assert(r@.cookie =~= Seq::<Seq<char>>::empty());
    r
}

/// The JSON text of a rejected request's body: `{"msg":message,"status":0}`.
pub open spec fn rejection_text(message: Seq<char>) -> Seq<char> {
    compact_json(crate::response::failure_body(message))
}

/// The JSON text of a rejected request's body (see [`rejection_text`]).
pub fn rejection(message: String) -> (r: String)
    ensures
        r@ == rejection_text(message@),
{
    let mut o = JsonObject::new();
    o.insert("status".to_owned(), JsonValue::unsigned(0));
    o.insert("msg".to_owned(), JsonValue::Str(message));
    json_text(&JsonValue::Object(o))
}

/// How long a cached response is served: two minutes.
pub open spec fn cache_lifetime_ms() -> nat {
    120000
}

/// A cached response is served while younger than its lifetime.
pub fn cache_fresh(age_ms: u128) -> (r: bool)
    ensures
        r == (age_ms < cache_lifetime_ms()),
{
    age_ms < 120000
}

/// Only successful responses are cached.
pub fn cacheable(status: u16) -> (r: bool)
    ensures
        r == (status == 200),
{
    status == 200
}

// ---------------------------------------------------------------------------
// The steps of handling a request.
// ---------------------------------------------------------------------------

/// A preflight request (`OPTIONS`) is answered at once with 204 and the CORS
/// headers; any other method goes on.
pub fn preflight_status(method: &str) -> (r: Option<u16>)
    ensures
        r == (if method@ == "OPTIONS"@ {
            Some(204u16)
        } else {
            None::<u16>
        }),
{
    if crate::text::str_eq(method, "OPTIONS") {
        Some(204)
    } else {
        None
    }
}

/// A request's body once read: a body that could not be read within its
/// limit is refused with 413, one that does not parse with 400 (each with the
/// rejection text of the message); otherwise its parameters.
pub fn admit_body(content_type: &str, read: Result<Vec<u8>, String>) -> (r: Result<
    JsonObject,
    (u16, String),
>)
    ensures
        match read {
            Err(m) => r matches Err((s, t)) && s == 413 && t@ == rejection_text(m@),
            Ok(bytes) => match body_params(content_type@, bytes@) {
                Ok(es) => r matches Ok(o) && o@ == es,
                Err(e) => r matches Err((s, t)) && s == 400 && t@ == rejection_text(e),
            },
        },
{
    match read {
        Err(m) => Err((413, rejection(m))),
        Ok(bytes) => match parse_body(content_type, bytes.as_slice()) {
            Ok(o) => Ok(o),
            Err(e) => Err((400, rejection(e))),
        },
    }
}

/// What is done with the cache for a request.
pub enum CacheStep {
    /// Answer with the stored response.
    Serve,
    /// Remove the stale entry and run the module.
    Evict,
    /// Run the module.
    Miss,
}

/// The cache step for the age of the entry stored under the request's key,
/// if any: a fresh entry is served, a stale one evicted.
pub fn cache_step(age_ms: Option<u128>) -> (r: CacheStep)
    ensures
        match age_ms {
            Some(a) => if a < cache_lifetime_ms() {
                r is Serve
            } else {
                r is Evict
            },
            None => r is Miss,
        },
{
    match age_ms {
        Some(a) => if cache_fresh(a) {
            CacheStep::Serve
        } else {
            CacheStep::Evict
        },
        None => CacheStep::Miss,
    }
}

/// Which engine runs a module.
pub enum Engine {
    /// This library's plans.
    Native,
    /// The script modules.
    Script,
}

/// The engine for a module: the native one for a module this library lists,
/// the script engine for any other.
pub fn engine_for(module: &str) -> (r: Engine)
    ensures
        r is Native <==> native_modules().contains(module@),
{
    if supports(module) {
        Engine::Native
    } else {
        Engine::Script
    }
}

/// A module's outcome as answered: its response, or for a failure the 404
/// answer naming the message; and whether the answer is stored in the cache
/// (only a 200 is).
pub fn module_outcome(result: Result<ModuleResponse, String>) -> (r: (ModuleResponse, bool))
    ensures
        match result {
            Ok(m) => r.0@ == m@,
            Err(e) => r.0@ == (ResponseView {
                status: 404,
                body: not_found_body(e@),
                cookie: Seq::empty(),
                headers: Seq::empty(),
            }),
        },
        r.1 == (r.0.status == 200),
{
    let answer = match result {
        Ok(m) => m,
        Err(e) => not_found(e),
    };
    let store = cacheable(answer.status);
    (answer, store)
}

} // verus!
