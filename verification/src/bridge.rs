//! The HTTP bridge the script modules call: request options (JSON text)
//! read into a request, and the upstream reply written back as JSON text.
use crate::encoding::{base64, base64_bytes, base64_decode, base64_encode};
use crate::form::{pairs_view, resolve_url, resolved_url};
use crate::js::{body_value, compact_json, js_string, js_text, json_document, json_text, parse_json, read_body};
use crate::json::{get_field, insert_entry, lookup, JsonObject, JsonValue, JsonView};
use crate::response::{http_failure, http_failure_message, join_texts};
use crate::text::{str_eq, upper_case, uppercase};
use crate::upstream::{has_content_type, has_content_type_header, object_query_pairs, query_pairs};
use vstd::prelude::*;
use vstd::utf8::encode_utf8;

verus! {

/// A character the `http` crate allows in a method: an ASCII letter or digit,
/// or one of `` !#$%&'*+-.^_`|~ ``.
pub open spec fn token_char(c: char) -> bool {
    ||| 'a' <= c && c <= 'z'
    ||| 'A' <= c && c <= 'Z'
    ||| '0' <= c && c <= '9'
    ||| c == '!' || c == '#' || c == '$' || c == '%' || c == '&' || c == '\'' || c == '*'
    ||| c == '+' || c == '-' || c == '.' || c == '^' || c == '_' || c == '`' || c == '|' || c == '~'
}

/// What `reqwest::Method::from_bytes` makes of a method text: the same text
/// when it is not empty and made of token characters, else the error
/// "invalid HTTP method".
pub open spec fn http_method(text: Seq<char>) -> Result<Seq<char>, Seq<char>> {
    if text.len() > 0 && forall|i: int| 0 <= i < text.len() ==> token_char(#[trigger] text[i]) {
        Ok(text)
    } else {
        Err("invalid HTTP method"@)
    }
}

/// `reqwest::Method::from_bytes`, as the method's text.
///
/// Trusted: `from_bytes` refuses an empty text and any byte outside its
/// table of token characters (which maps each allowed byte to itself), and
/// `as_str` gives the bytes back; the error prints "invalid HTTP method".
#[verifier::external_body]
fn check_method(text: &str) -> (r: Result<String, String>)
    ensures
        match r {
            Ok(m) => http_method(text@) == Ok::<Seq<char>, Seq<char>>(m@),
            Err(e) => http_method(text@) == Err::<Seq<char>, Seq<char>>(e@),
        },
{
    reqwest::Method::from_bytes(text.as_bytes()).map(|m| m.as_str().to_owned()).map_err(|e| e.to_string())
}

/// What a bridged request sends as its body.
pub enum RawBody {
    Empty,
    Bytes(Vec<u8>),
    Json(JsonValue),
    Text(String),
}

pub enum RawBodyView {
    Empty,
    Bytes(Seq<u8>),
    Json(JsonView),
    Text(Seq<char>),
}

impl View for RawBody {
    type V = RawBodyView;

    open spec fn view(&self) -> RawBodyView {
        match self {
            RawBody::Empty => RawBodyView::Empty,
            RawBody::Bytes(b) => RawBodyView::Bytes(b@),
            RawBody::Json(v) => RawBodyView::Json(v@),
            RawBody::Text(t) => RawBodyView::Text(t@),
        }
    }
}

/// A bridged request: method, URL, headers in order, body, and whether the
/// reply is wanted as raw bytes.
pub struct RawRequest {
    pub method: String,
    pub url: String,
    pub headers: Vec<(String, String)>,
    pub body: RawBody,
    pub array_buffer: bool,
}

pub struct RawView {
    pub method: Seq<char>,
    pub url: Seq<char>,
    pub headers: Seq<(Seq<char>, Seq<char>)>,
    pub body: RawBodyView,
    pub array_buffer: bool,
}

impl View for RawRequest {
    type V = RawView;

    open spec fn view(&self) -> RawView {
        RawView {
            method: self.method@,
            url: self.url@,
            headers: pairs_view(self.headers@),
            body: self.body@,
            array_buffer: self.array_buffer,
        }
    }
}

/// The text of an option that is present and not null.
pub open spec fn string_field(es: Seq<(Seq<char>, JsonView)>, name: Seq<char>) -> Option<Seq<char>> {
    match lookup(es, name) {
        Some(v) => if v is Null {
            None
        } else {
            Some(js_text(v))
        },
        None => None,
    }
}

fn string_option(o: &JsonObject, name: &str) -> (r: Option<String>)
    ensures
        match r {
            Some(t) => string_field(o@, name@) == Some(t@),
            None => string_field(o@, name@) is None,
        },
{
    match o.get(name) {
        Some(JsonValue::Null) => None,
        Some(v) => Some(js_string(v)),
        None => None,
    }
}

/// The query pairs of the `params` option, when it is an object.
pub open spec fn option_pairs(es: Seq<(Seq<char>, JsonView)>) -> Option<Seq<(Seq<char>, Seq<char>)>> {
    match lookup(es, "params"@) {
        Some(JsonView::Object(ps)) => Some(query_pairs(ps)),
        _ => None,
    }
}

/// The headers of the `headers` option: its entries that are not null, each
/// value as text.
pub open spec fn option_headers(hs: Seq<(Seq<char>, JsonView)>) -> Seq<(Seq<char>, Seq<char>)>
    decreases hs.len(),
{
    if hs.len() == 0 {
        Seq::empty()
    } else {
        let rest = option_headers(hs.drop_last());
        if hs.last().1 is Null {
            rest
        } else {
            rest.push((hs.last().0, js_text(hs.last().1)))
        }
    }
}

/// The headers of the options (none unless `headers` is an object).
pub open spec fn headers_of(es: Seq<(Seq<char>, JsonView)>) -> Seq<(Seq<char>, Seq<char>)> {
    match lookup(es, "headers"@) {
        Some(JsonView::Object(hs)) => option_headers(hs),
        _ => Seq::empty(),
    }
}

/// The body of the options: none for an absent or null `data`; the decoded
/// bytes of a buffer (or the decoding error); JSON for objects and arrays;
/// text otherwise.
pub open spec fn body_of(es: Seq<(Seq<char>, JsonView)>) -> Result<RawBodyView, Seq<char>> {
    match lookup(es, "data"@) {
        None => Ok(RawBodyView::Empty),
        Some(JsonView::Null) => Ok(RawBodyView::Empty),
        Some(d) => match get_field(d, "__kugou_buffer__"@) {
            Some(JsonView::Str(t)) => match base64_bytes(t) {
                Ok(b) => Ok(RawBodyView::Bytes(b)),
                Err(e) => Err(e),
            },
            _ => match d {
                JsonView::Object(_) => Ok(RawBodyView::Json(d)),
                JsonView::Array(_) => Ok(RawBodyView::Json(d)),
                JsonView::Str(t) => Ok(RawBodyView::Text(t)),
                _ => Ok(RawBodyView::Text(js_text(d))),
            },
        },
    }
}

/// The message for options that are not an object.
pub open spec fn not_options_message() -> Seq<char> {
    "request options must be an object"@
}

/// The request the options describe: the URL from `url` (joined to
/// `baseURL`, by default the gateway, when not absolute) with the `params`
/// appended; the upper-cased `method` (GET by default); the headers (with a
/// JSON content type added for a JSON body that names none, see
/// [`sent_headers`]); the body; and whether `responseType` asks for raw bytes. Each step's error
/// ends it.
pub open spec fn raw_plan(input: Seq<char>) -> Result<RawView, Seq<char>> {
    match json_document(encode_utf8(input)) {
        Err(e) => Err(e),
        Ok(JsonView::Object(es)) => {
            let raw = match string_field(es, "url"@) {
                Some(u) => u,
                None => Seq::empty(),
            };
            let base = match string_field(es, "baseURL"@) {
                Some(b) => b,
                None => "https://gateway.kugou.com"@,
            };
            let method = uppercase(
                match string_field(es, "method"@) {
                    Some(m) => m,
                    None => "GET"@,
                },
            );
            match resolved_url(base, raw, option_pairs(es)) {
                Err(e) => Err(e),
                Ok(url) => match http_method(method) {
                    Err(e) => Err(e),
                    Ok(m) => match body_of(es) {
                        Err(e) => Err(e),
                        Ok(b) => Ok(
                            RawView {
                                method: m,
                                url,
                                headers: sent_headers(headers_of(es), b),
                                body: b,
                                array_buffer: string_field(es, "responseType"@) == Some(
                                    "arraybuffer"@,
                                ),
                            },
                        ),
                    },
                },
            }
        },
        Ok(_) => Err(not_options_message()),
    }
}

fn option_header_list(o: &JsonObject) -> (r: Vec<(String, String)>)
    ensures
        pairs_view(r@) == headers_of(o@),
{
    match o.get("headers") {
        Some(JsonValue::Object(hs)) => {
            let n = hs.len();
            let mut out: Vec<(String, String)> = Vec::new();
            let mut i: usize = 0;
            assert(hs@.take(0) =~= Seq::<(Seq<char>, JsonView)>::empty());
            assert(pairs_view(out@) =~= Seq::<(Seq<char>, Seq<char>)>::empty());
            while i < n
                invariant
                    n == hs@.len(),
                    i <= n,
                    pairs_view(out@) == option_headers(hs@.take(i as int)),
                decreases n - i,
            {
                let (k, v) = hs.entry_at(i);
                proof {
                    assert(hs@.take(i + 1).drop_last() =~= hs@.take(i as int));
                    assert(hs@.take(i + 1).last() == hs@[i as int]);
                }
                match v {
                    JsonValue::Null => {},
                    _ => {
                        let ghost before = pairs_view(out@);
                        out.push((k.clone(), js_string(v)));
                        assert(pairs_view(out@) =~= before.push((k@, js_text(v@))));
                    },
                }
                i = i + 1;
            }
            assert(hs@.take(n as int) =~= hs@);
            out
        },
        _ => {
            let out: Vec<(String, String)> = Vec::new();
            assert(pairs_view(out@) =~= Seq::<(Seq<char>, Seq<char>)>::empty());
            out
        },
    }
}

fn option_body(o: &JsonObject) -> (r: Result<RawBody, String>)
    ensures
        match r {
            Ok(b) => body_of(o@) == Ok::<RawBodyView, Seq<char>>(b@),
            Err(e) => body_of(o@) == Err::<RawBodyView, Seq<char>>(e@),
        },
{
    match o.get("data") {
        None => Ok(RawBody::Empty),
        Some(JsonValue::Null) => Ok(RawBody::Empty),
        Some(d) => match d.get("__kugou_buffer__") {
            Some(JsonValue::Str(t)) => match base64_decode(t.as_str()) {
                Ok(b) => Ok(RawBody::Bytes(b)),
                Err(e) => Err(e),
            },
            _ => match d {
                JsonValue::Object(_) => Ok(RawBody::Json(d.deep_clone())),
                JsonValue::Array(_) => Ok(RawBody::Json(d.deep_clone())),
                JsonValue::Str(t) => Ok(RawBody::Text(t.clone())),
                _ => Ok(RawBody::Text(js_string(d))),
            },
        },
    }
}

/// The headers sent: the option headers, and for a JSON body without a
/// Content-Type header (names compare without case) `content-type:
/// application/json` after them, as `reqwest`'s `json` adds it.
pub open spec fn sent_headers(hs: Seq<(Seq<char>, Seq<char>)>, body: RawBodyView) -> Seq<
    (Seq<char>, Seq<char>),
> {
    if body is Json && !has_content_type(hs) {
        hs.push(("content-type"@, "application/json"@))
    } else {
        hs
    }
}

/// Reads the options of a bridged request (see [`raw_plan`]).
pub fn raw_request(input: &str) -> (r: Result<RawRequest, String>)
    ensures
        match r {
            Ok(q) => raw_plan(input@) == Ok::<RawView, Seq<char>>(q@),
            Err(e) => raw_plan(input@) == Err::<RawView, Seq<char>>(e@),
        },
{
    let options = match parse_json(input.as_bytes()) {
        Err(e) => {
            return Err(e);
        },
        Ok(v) => v,
    };
    let o = match options {
        JsonValue::Object(o) => o,
        _ => {
            return Err("request options must be an object".to_owned());
        },
    };
    let raw = match string_option(&o, "url") {
        Some(u) => u,
        None => String::new(),
    };
    let base = match string_option(&o, "baseURL") {
        Some(b) => b,
        None => "https://gateway.kugou.com".to_owned(),
    };
    let method_text = match string_option(&o, "method") {
        Some(m) => m,
        None => "GET".to_owned(),
    };
    let pairs = match o.get("params") {
        Some(JsonValue::Object(ps)) => Some(object_query_pairs(ps)),
        _ => None,
    };
    let url = match resolve_url(
        base.as_str(),
        raw.as_str(),
        match &pairs {
            Some(ps) => Some(ps),
            None => None,
        },
    ) {
        Ok(u) => u,
        Err(e) => {
            return Err(e);
        },
    };
    let upper = upper_case(method_text.as_str());
    let method = match check_method(upper.as_str()) {
        Ok(m) => m,
        Err(e) => {
            return Err(e);
        },
    };
    let mut headers = option_header_list(&o);
    let body = match option_body(&o) {
        Ok(b) => b,
        Err(e) => {
            return Err(e);
        },
    };
    let is_json = match &body {
        RawBody::Json(_) => true,
        _ => false,
    };
    if is_json && !has_content_type_header(&headers) {
        let ghost before = pairs_view(headers@);
        headers.push(("content-type".to_owned(), "application/json".to_owned()));
        assert(pairs_view(headers@) =~= before.push(("content-type"@, "application/json"@)));
    }
    let array_buffer = match string_option(&o, "responseType") {
        Some(t) => str_eq(t.as_str(), "arraybuffer"),
        None => false,
    };
    Ok(RawRequest { method, url, headers, body, array_buffer })
}

// ---------------------------------------------------------------------------
// The reply.
// ---------------------------------------------------------------------------

/// The reply headers as an object: `set-cookie` keeps each value, other
/// names join theirs with `, `.
pub open spec fn reply_headers(hs: Seq<(Seq<char>, Seq<Seq<char>>)>) -> Seq<(Seq<char>, JsonView)>
    decreases hs.len(),
{
    if hs.len() == 0 {
        Seq::empty()
    } else {
        let (name, values) = hs.last();
        insert_entry(
            reply_headers(hs.drop_last()),
            name,
            if name == "set-cookie"@ {
                JsonView::Array(values.map_values(|v: Seq<char>| JsonView::Str(v)))
            } else {
                JsonView::Str(join_texts(values, ", "@))
            },
        )
    }
}

/// What the bridge hands back for a reply: `data` (raw bytes as a buffer, or
/// the body as JSON or text), `headers` and `status`; wrapped as an error
/// with its message when the status is not a success.
pub open spec fn raw_reply_value(
    status: u16,
    headers: Seq<(Seq<char>, Seq<Seq<char>>)>,
    bytes: Seq<u8>,
    array_buffer: bool,
) -> JsonView {
    let data = if array_buffer {
        JsonView::Object(insert_entry(Seq::empty(), "__kugou_buffer__"@, JsonView::Str(base64(bytes))))
    } else {
        body_value(bytes)
    };
    let r = insert_entry(Seq::empty(), "data"@, data);
    let r = insert_entry(r, "headers"@, JsonView::Object(reply_headers(headers)));
    let r = insert_entry(r, "status"@, JsonView::Number(crate::json::NumberView::PosInt(status as u64)));
    if 200 <= status <= 299 {
        JsonView::Object(r)
    } else {
        let e = insert_entry(Seq::empty(), "__error__"@, JsonView::Bool(true));
        let e = insert_entry(e, "message"@, JsonView::Str(http_failure_message(status)));
        JsonView::Object(insert_entry(e, "response"@, JsonView::Object(r)))
    }
}

fn join_values(values: &Vec<String>) -> (r: String)
    ensures
        r@ == join_texts(values@.map_values(|s: String| s@), ", "@),
{
    let ghost vs = values@.map_values(|s: String| s@);
    let mut out = String::new();
    let mut i: usize = 0;
    while i < values.len()
        invariant
            vs == values@.map_values(|s: String| s@),
            i <= values@.len(),
            out@ == join_texts(vs.take(i as int), ", "@),
        decreases values@.len() - i,
    {
        if i > 0 {
            out.append(", ");
        }
        out.append(values[i].as_str());
        proof {
            assert(vs.take(i + 1).drop_last() =~= vs.take(i as int));
            if i == 0 {
                assert(vs.take(1).len() == 1);
                assert(out@ =~= vs.take(1)[0]);
            }
        }
        i = i + 1;
    }
    assert(vs.take(i as int) =~= vs);
    out
}

fn header_value(name: &String, values: &Vec<String>) -> (r: JsonValue)
    ensures
        r@ == (if name@ == "set-cookie"@ {
            JsonView::Array(values@.map_values(|s: String| s@).map_values(|v: Seq<char>| JsonView::Str(v)))
        } else {
            JsonView::Str(join_texts(values@.map_values(|s: String| s@), ", "@))
        }),
{
    if str_eq(name.as_str(), "set-cookie") {
        let mut items: Vec<JsonValue> = Vec::new();
        let mut i: usize = 0;
        while i < values.len()
            invariant
                i <= values@.len(),
                items@.len() == i,
                forall|k: int| 0 <= k < i ==> (#[trigger] items@[k])@ == JsonView::Str(values@[k]@),
            decreases values@.len() - i,
        {
            items.push(JsonValue::Str(values[i].clone()));
            i = i + 1;
        }
        proof {
            crate::json::lemma_items_view(items@);
            assert(crate::json::items_view(items@) =~= values@.map_values(|s: String| s@).map_values(
                |v: Seq<char>| JsonView::Str(v),
            ));
        }
        JsonValue::Array(items)
    } else {
        JsonValue::Str(join_values(values))
    }
}

/// What the bridge hands back for a reply (see [`raw_reply_value`]).
pub fn raw_reply(status: u16, headers: &Vec<(String, Vec<String>)>, bytes: &[u8], array_buffer: bool) -> (r:
    JsonValue)
    ensures
        r@ == raw_reply_value(
            status,
            headers@.map_values(|h: (String, Vec<String>)| (h.0@, h.1@.map_values(|s: String| s@))),
            bytes@,
            array_buffer,
        ),
{
    let ghost hv = headers@.map_values(
        |h: (String, Vec<String>)| (h.0@, h.1@.map_values(|s: String| s@)),
    );
    let data = if array_buffer {
        let mut b = JsonObject::new();
        b.insert("__kugou_buffer__".to_owned(), JsonValue::Str(base64_encode(bytes)));
        JsonValue::Object(b)
    } else {
        read_body(bytes)
    };
    let mut ho = JsonObject::new();
    let mut i: usize = 0;
    while i < headers.len()
        invariant
            hv == headers@.map_values(
                |h: (String, Vec<String>)| (h.0@, h.1@.map_values(|s: String| s@)),
            ),
            i <= headers@.len(),
            ho@ == reply_headers(hv.take(i as int)),
        decreases headers@.len() - i,
    {
        let v = header_value(&headers[i].0, &headers[i].1);
        ho.insert(headers[i].0.clone(), v);
        proof {
            assert(hv.take(i + 1).drop_last() =~= hv.take(i as int));
            assert(hv.take(i + 1).last() == hv[i as int]);
        }
        i = i + 1;
    }
    assert(hv.take(i as int) =~= hv);
    let mut r = JsonObject::new();
    r.insert("data".to_owned(), data);
    r.insert("headers".to_owned(), JsonValue::Object(ho));
    r.insert("status".to_owned(), JsonValue::unsigned(status as u64));
    if 200 <= status && status <= 299 {
        JsonValue::Object(r)
    } else {
        let mut e = JsonObject::new();
        e.insert("__error__".to_owned(), JsonValue::Bool(true));
        e.insert("message".to_owned(), JsonValue::Str(http_failure(status)));
        e.insert("response".to_owned(), JsonValue::Object(r));
        JsonValue::Object(e)
    }
}

/// The text the bridge answers: the reply's JSON, or an error object with
/// the message.
pub open spec fn bridge_answer(outcome: Result<JsonView, Seq<char>>) -> Seq<char> {
    match outcome {
        Ok(v) => compact_json(v),
        Err(m) => compact_json(
            JsonView::Object(
                insert_entry(
                    insert_entry(Seq::empty(), "__error__"@, JsonView::Bool(true)),
                    "message"@,
                    JsonView::Str(m),
                ),
            ),
        ),
    }
}

/// The text the bridge answers (see [`bridge_answer`]).
pub fn bridge_text(outcome: Result<JsonValue, String>) -> (r: String)
    ensures
        r@ == bridge_answer(
            match outcome {
                Ok(v) => Ok::<JsonView, Seq<char>>(v@),
                Err(m) => Err::<JsonView, Seq<char>>(m@),
            },
        ),
{
    match outcome {
        Ok(v) => json_text(&v),
        Err(m) => {
            let mut e = JsonObject::new();
            e.insert("__error__".to_owned(), JsonValue::Bool(true));
            e.insert("message".to_owned(), JsonValue::Str(m));
            json_text(&JsonValue::Object(e))
        },
    }
}

} // verus!
