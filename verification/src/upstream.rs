//! Upstream requests: how a handler describes one, how it becomes a signed
//! URL with headers and body, and how the upstream reply becomes the
//! module's response.
use crate::form::{build_url, joined_url, pairs_view};
use crate::js::{body_value, is_truthy, js_string, js_text, read_body, truthy};
use crate::json::{get_field, insert_entry, lookup, JsonObject, JsonValue, JsonView, NumberView};
use crate::params::cookie_key;
use crate::signing::{
    android_signature, platform_appid, platform_clientver, platform_numbers, signature_android,
    signature_web, sign_key, track_key, web_signature,
};
use crate::text::{
    chars_of, decimal, split, split_str, string_of, trim, trim_chars, u128_text,
};
use vstd::prelude::*;

verus! {

/// An HTTP method a handler uses.
pub enum Method {
    Get,
    Post,
    Delete,
}

/// How a request's query is signed.
pub enum SignatureKind {
    Android,
    Web,
    Unsigned,
}

/// A handler's description of one upstream request.
pub struct NativeRequest {
    pub url: String,
    pub method: Method,
    pub params: JsonObject,
    pub data: Option<JsonValue>,
    pub headers: JsonObject,
    pub base_url: String,
    pub signature: SignatureKind,
    pub encrypt_key: bool,
    pub use_input_cookie: bool,
    pub clear_default_params: bool,
}

/// The default upstream gateway.
pub open spec fn gateway() -> Seq<char> {
    "https://gateway.kugou.com"@
}

/// What a [`NativeRequest`] describes.
pub struct RequestView {
    pub url: Seq<char>,
    pub method: Method,
    pub params: Seq<(Seq<char>, JsonView)>,
    pub data: Option<JsonView>,
    pub headers: Seq<(Seq<char>, JsonView)>,
    pub base_url: Seq<char>,
    pub signature: SignatureKind,
    pub encrypt_key: bool,
    pub use_input_cookie: bool,
    pub clear_default_params: bool,
}

impl View for NativeRequest {
    type V = RequestView;

    open spec fn view(&self) -> RequestView {
        RequestView {
            url: self.url@,
            method: self.method,
            params: self.params@,
            data: match self.data {
                Some(d) => Some(d@),
                None => None,
            },
            headers: self.headers@,
            base_url: self.base_url@,
            signature: self.signature,
            encrypt_key: self.encrypt_key,
            use_input_cookie: self.use_input_cookie,
            clear_default_params: self.clear_default_params,
        }
    }
}

/// A request with the given path and method, the default gateway, Android
/// signing, the caller's cookies and the default query parameters.
pub open spec fn request(url: Seq<char>, method: Method) -> RequestView {
    RequestView {
        url,
        method,
        params: Seq::empty(),
        data: None,
        headers: Seq::empty(),
        base_url: gateway(),
        signature: SignatureKind::Android,
        encrypt_key: false,
        use_input_cookie: true,
        clear_default_params: false,
    }
}

impl RequestView {
    /// The query parameters set to the entries of `params` (none unless it is
    /// an object).
    pub open spec fn with_params(self, params: JsonView) -> RequestView {
        RequestView {
            params: match params {
                JsonView::Object(es) => es,
                _ => Seq::empty(),
            },
            ..self
        }
    }

    /// The body set.
    pub open spec fn with_data(self, data: JsonView) -> RequestView {
        RequestView { data: Some(data), ..self }
    }

    /// A header stored (replacing one of the same name).
    pub open spec fn with_header(self, name: Seq<char>, value: Seq<char>) -> RequestView {
        RequestView { headers: insert_entry(self.headers, name, JsonView::Str(value)), ..self }
    }

    /// The base URL set.
    pub open spec fn with_base_url(self, base_url: Seq<char>) -> RequestView {
        RequestView { base_url, ..self }
    }

    /// The signature kind set.
    pub open spec fn signed(self, signature: SignatureKind) -> RequestView {
        RequestView { signature, ..self }
    }

    /// The track key requested.
    pub open spec fn keyed(self) -> RequestView {
        RequestView { encrypt_key: true, ..self }
    }

    /// The caller's cookies left out.
    pub open spec fn cookieless(self) -> RequestView {
        RequestView { use_input_cookie: false, ..self }
    }

    /// The default query parameters left out.
    pub open spec fn cleared(self) -> RequestView {
        RequestView { clear_default_params: true, ..self }
    }
}

impl NativeRequest {
    /// A request with the given path and method (see [`request`]).
    pub fn new(url: &str, method: Method) -> (r: NativeRequest)
        ensures
            r@ == request(url@, method),
    {
        NativeRequest {
            url: url.to_owned(),
            method,
            params: JsonObject::new(),
            data: None,
            headers: JsonObject::new(),
            base_url: "https://gateway.kugou.com".to_owned(),
            signature: SignatureKind::Android,
            encrypt_key: false,
            use_input_cookie: true,
            clear_default_params: false,
        }
    }

    /// A GET request (see [`request`]).
    pub fn get(url: &str) -> (r: NativeRequest)
        ensures
            r@ == request(url@, Method::Get),
    {
        Self::new(url, Method::Get)
    }

    /// A POST request (see [`request`]).
    pub fn post(url: &str) -> (r: NativeRequest)
        ensures
            r@ == request(url@, Method::Post),
    {
        Self::new(url, Method::Post)
    }

    /// A DELETE request (see [`request`]).
    pub fn delete(url: &str) -> (r: NativeRequest)
        ensures
            r@ == request(url@, Method::Delete),
    {
        Self::new(url, Method::Delete)
    }

    /// Sets the query parameters: the entries of `params` when it is an
    /// object, none otherwise.
    pub fn params(self, params: JsonValue) -> (r: NativeRequest)
        ensures
            r@ == self@.with_params(params@),
    {
        let mut r = self;
        r.params = match params {
            JsonValue::Object(o) => o,
            _ => JsonObject::new(),
        };
        r
    }

    /// Sets the request body.
    pub fn data(self, data: JsonValue) -> (r: NativeRequest)
        ensures
            r@ == self@.with_data(data@),
    {
        let mut r = self;
        r.data = Some(data);
        r
    }

    /// Adds a header (replacing one of the same name).
    pub fn header(self, name: &str, value: &str) -> (r: NativeRequest)
        ensures
            r@ == self@.with_header(name@, value@),
    {
        let mut r = self;
        r.headers.insert(name.to_owned(), JsonValue::Str(value.to_owned()));
        r
    }

    /// Sets the base URL the path is joined to.
    pub fn base_url(self, base_url: &str) -> (r: NativeRequest)
        ensures
            r@ == self@.with_base_url(base_url@),
    {
        let mut r = self;
        r.base_url = base_url.to_owned();
        r
    }

    /// Signs the query with the web signature.
    pub fn web(self) -> (r: NativeRequest)
        ensures
            r@ == self@.signed(SignatureKind::Web),
    {
        let mut r = self;
        r.signature = SignatureKind::Web;
        r
    }

    /// Leaves the query unsigned.
    pub fn unsigned(self) -> (r: NativeRequest)
        ensures
            r@ == self@.signed(SignatureKind::Unsigned),
    {
        let mut r = self;
        r.signature = SignatureKind::Unsigned;
        r
    }

    /// Adds the track key to the query.
    pub fn encrypt_key(self) -> (r: NativeRequest)
        ensures
            r@ == self@.keyed(),
    {
        let mut r = self;
        r.encrypt_key = true;
        r
    }

    /// Ignores the caller's cookies.
    pub fn without_cookie(self) -> (r: NativeRequest)
        ensures
            r@ == self@.cookieless(),
    {
        let mut r = self;
        r.use_input_cookie = false;
        r
    }

    /// Leaves out the default query parameters.
    pub fn clear_default_params(self) -> (r: NativeRequest)
        ensures
            r@ == self@.cleared(),
    {
        let mut r = self;
        r.clear_default_params = true;
        r
    }
}

// ---------------------------------------------------------------------------
// From description to signed request.
// ---------------------------------------------------------------------------

/// A request ready to send: method, full URL, headers in order and body text
/// (`json_body` when the body is JSON).
pub struct PreparedRequest {
    pub method: Method,
    pub url: String,
    pub headers: Vec<(String, String)>,
    pub body: Option<String>,
    pub json_body: bool,
}

/// The caller's cookies the request uses.
pub open spec fn jar_of(input: JsonView, use_cookie: bool) -> Seq<(Seq<char>, JsonView)> {
    if use_cookie {
        match get_field(input, cookie_key()) {
            Some(JsonView::Object(es)) => es,
            _ => Seq::empty(),
        }
    } else {
        Seq::empty()
    }
}

/// The text of the truthy entry `name`, else `default`.
pub open spec fn truthy_text(es: Seq<(Seq<char>, JsonView)>, name: Seq<char>, default: Seq<char>) -> Seq<char> {
    match lookup(es, name) {
        Some(v) => if is_truthy(v) {
            js_text(v)
        } else {
            default
        },
        None => default,
    }
}

/// The text of the entry `name`, else `default`.
pub open spec fn entry_text(es: Seq<(Seq<char>, JsonView)>, name: Seq<char>, default: Seq<char>) -> Seq<char> {
    match lookup(es, name) {
        Some(v) => js_text(v),
        None => default,
    }
}

pub open spec fn jar_dfid(jar: Seq<(Seq<char>, JsonView)>) -> Seq<char> {
    truthy_text(jar, "dfid"@, "-"@)
}

pub open spec fn jar_mid(jar: Seq<(Seq<char>, JsonView)>) -> Seq<char> {
    entry_text(jar, "KUGOU_API_MID"@, "undefined"@)
}

pub open spec fn jar_userid(jar: Seq<(Seq<char>, JsonView)>) -> JsonView {
    match lookup(jar, "userid"@) {
        Some(v) => if is_truthy(v) {
            v
        } else {
            JsonView::Number(NumberView::PosInt(0))
        },
        None => JsonView::Number(NumberView::PosInt(0)),
    }
}

/// The default query: device, app and time, then the token and user when known.
pub open spec fn default_query(jar: Seq<(Seq<char>, JsonView)>, clienttime: u64, lite: bool) -> Seq<
    (Seq<char>, JsonView),
> {
    let d0 = insert_entry(Seq::empty(), "dfid"@, JsonView::Str(jar_dfid(jar)));
    let d1 = insert_entry(d0, "mid"@, JsonView::Str(jar_mid(jar)));
    let d2 = insert_entry(d1, "uuid"@, JsonView::Str("-"@));
    let d3 = insert_entry(d2, "appid"@, JsonView::Number(NumberView::PosInt(platform_appid(lite))));
    let d4 = insert_entry(
        d3,
        "clientver"@,
        JsonView::Number(NumberView::PosInt(platform_clientver(lite))),
    );
    let d5 = insert_entry(d4, "clienttime"@, JsonView::Number(NumberView::PosInt(clienttime)));
    let token = truthy_text(jar, "token"@, Seq::empty());
    let d6 = if token.len() > 0 {
        insert_entry(d5, "token"@, JsonView::Str(token))
    } else {
        d5
    };
    if is_truthy(jar_userid(jar)) {
        insert_entry(d6, "userid"@, jar_userid(jar))
    } else {
        d6
    }
}

/// The query before signing: defaults (unless cleared), the handler's
/// parameters over them, and the track key when asked for.
pub open spec fn unsigned_query(req: NativeRequest, input: JsonView, clienttime: u64, lite: bool) -> Seq<
    (Seq<char>, JsonView),
> {
    let jar = jar_of(input, req.use_input_cookie);
    let start = if req.clear_default_params {
        Seq::empty()
    } else {
        default_query(jar, clienttime, lite)
    };
    let q = crate::cookies::extend_entries(start, req.params@);
    if req.encrypt_key {
        insert_entry(
            q,
            "key"@,
            JsonView::Str(
                track_key(
                    entry_text(q, "hash"@, "undefined"@),
                    jar_mid(jar),
                    truthy_text(q, "userid"@, "0"@),
                    truthy_text(q, "appid"@, "1005"@),
                    lite,
                ),
            ),
        )
    } else {
        q
    }
}

/// The body text: JSON text for arrays and objects, JavaScript text otherwise.
pub open spec fn data_text(data: Option<JsonView>) -> Seq<char> {
    match data {
        Some(d) => js_text(d),
        None => Seq::empty(),
    }
}

/// The query after signing (a `signature` the handler set is kept).
pub open spec fn signed_query(req: NativeRequest, input: JsonView, clienttime: u64, lite: bool) -> Seq<
    (Seq<char>, JsonView),
> {
    let q = unsigned_query(req, input, clienttime, lite);
    let body = data_text(
        match req.data {
            Some(d) => Some(d@),
            None => None,
        },
    );
    if lookup(q, "signature"@) is Some {
        q
    } else {
        match req.signature {
            SignatureKind::Android => insert_entry(
                q,
                "signature"@,
                JsonView::Str(android_signature(q, body, lite)),
            ),
            SignatureKind::Web => insert_entry(q, "signature"@, JsonView::Str(web_signature(q))),
            SignatureKind::Unsigned => q,
        }
    }
}

/// The query pairs of one entry: one per item for arrays (`name[]`), none
/// for null, one otherwise.
pub open spec fn entry_pairs(e: (Seq<char>, JsonView)) -> Seq<(Seq<char>, Seq<char>)> {
    match e.1 {
        JsonView::Array(items) => Seq::new(
            items.len(),
            |i: int| (e.0 + seq!['[', ']'], js_text(items[i])),
        ),
        JsonView::Null => Seq::empty(),
        v => seq![(e.0, js_text(v))],
    }
}

/// The query pairs of all entries, in key order.
pub open spec fn query_pairs(es: Seq<(Seq<char>, JsonView)>) -> Seq<(Seq<char>, Seq<char>)>
    decreases es.len(),
{
    if es.len() == 0 {
        Seq::empty()
    } else {
        query_pairs(es.drop_last()) + entry_pairs(es.last())
    }
}

/// The headers every request carries after the handler's own.
pub open spec fn fixed_headers(jar: Seq<(Seq<char>, JsonView)>, clienttime: u64, ip: Seq<char>) -> Seq<
    (Seq<char>, Seq<char>),
> {
    seq![
        ("user-agent"@, "Android15-1070-11083-46-0-DiscoveryDRADProtocol-wifi"@),
        ("dfid"@, jar_dfid(jar)),
        ("clienttime"@, decimal(clienttime as nat)),
        ("mid"@, jar_mid(jar)),
        ("kg-rc"@, "1"@),
        ("kg-thash"@, "5d816a0"@),
        ("kg-rec"@, "1"@),
        ("kg-rf"@, "B9EDA08A64250DEFFBCADDEE00F8F25F"@),
        ("X-Real-IP"@, ip),
        ("X-Forwarded-For"@, ip),
    ]
}

/// The body is sent as JSON.
pub open spec fn is_json_body(data: Option<JsonView>) -> bool {
    match data {
        Some(JsonView::Array(_)) => true,
        Some(JsonView::Object(_)) => true,
        _ => false,
    }
}

/// Some header is named Content-Type (names compare without case).
pub open spec fn has_content_type(headers: Seq<(Seq<char>, Seq<char>)>) -> bool {
    exists|i: int|
        0 <= i < headers.len() && crate::text::ascii_lower(#[trigger] headers[i].0) == "content-type"@
}

/// All headers in order; a JSON body without a Content-Type header gets one.
pub open spec fn request_headers(req: NativeRequest, input: JsonView, clienttime: u64, ip: Seq<char>) -> Seq<
    (Seq<char>, Seq<char>),
> {
    let own = Seq::new(req.headers@.len(), |i: int| (req.headers@[i].0, js_text(req.headers@[i].1)));
    let all = own + fixed_headers(jar_of(input, req.use_input_cookie), clienttime, ip);
    let data = match req.data {
        Some(d) => Some(d@),
        None => None,
    };
    if is_json_body(data) && !has_content_type(all) {
        all.push(("content-type"@, "application/json"@))
    } else {
        all
    }
}

fn lookup_text(es: &JsonObject, name: &str, default: &str, need_truthy: bool) -> (r: String)
    ensures
        r@ == (if need_truthy {
            truthy_text(es@, name@, default@)
        } else {
            entry_text(es@, name@, default@)
        }),
{
    match es.get(name) {
        Some(v) => {
            if need_truthy && !truthy(v) {
                default.to_owned()
            } else {
                js_string(v)
            }
        },
        None => default.to_owned(),
    }
}

fn text_pair(a: &str, b: &str) -> (r: (String, String))
    ensures
        r.0@ == a@,
        r.1@ == b@,
{
    (a.to_owned(), b.to_owned())
}

fn push_query_pairs(out: &mut Vec<(String, String)>, name: &String, value: &JsonValue)
    ensures
        pairs_view(final(out)@) == pairs_view(old(out)@) + entry_pairs((name@, value@)),
{
    let ghost before = pairs_view(out@);
    match value {
        JsonValue::Array(items) => {
            proof {
                crate::json::lemma_items_view(items@);
            }
            let mut key = name.clone();
            crate::text::push_char(&mut key, '[');
            crate::text::push_char(&mut key, ']');
            let ghost want = entry_pairs((name@, value@));
            let mut i: usize = 0;
            while i < items.len()
                invariant
                    *value == JsonValue::Array(*items),
                    key@ == name@ + seq!['[', ']'],
                    want == entry_pairs((name@, value@)),
                    crate::json::items_view(items@).len() == items@.len(),
                    forall|k: int| 0 <= k < items@.len() ==> #[trigger] crate::json::items_view(items@)[k] == items@[k]@,
                    i <= items@.len(),
                    pairs_view(out@) == before + want.take(i as int),
                decreases items@.len() - i,
            {
                let ghost prev = pairs_view(out@);
                let text = js_string(&items[i]);
                out.push((key.clone(), text));
                proof {
                    assert(want[i as int] == (name@ + seq!['[', ']'], js_text(items@[i as int]@)));
                    assert(pairs_view(out@) =~= prev.push(want[i as int]));
                    assert(want.take(i + 1) =~= want.take(i as int).push(want[i as int]));
                }
                i = i + 1;
            }
            assert(want.take(items@.len() as int) =~= want);
        },
        JsonValue::Null => {
            assert(pairs_view(out@) =~= before + entry_pairs((name@, value@)));
        },
        _ => {
            let text = js_string(value);
            out.push((name.clone(), text));
            assert(pairs_view(out@) =~= before + entry_pairs((name@, value@)));
        },
    }
}

/// The query pairs of an object's entries, in key order.
pub fn object_query_pairs(query: &JsonObject) -> (r: Vec<(String, String)>)
    ensures
        pairs_view(r@) == query_pairs(query@),
{
    let n = query.len();
    let mut out: Vec<(String, String)> = Vec::new();
    let mut i: usize = 0;
    assert(query@.take(0) =~= Seq::<(Seq<char>, JsonView)>::empty());
    assert(pairs_view(out@) =~= Seq::<(Seq<char>, Seq<char>)>::empty());
    while i < n
        invariant
            n == query@.len(),
            i <= n,
            pairs_view(out@) == query_pairs(query@.take(i as int)),
        decreases n - i,
    {
        let (k, v) = query.entry_at(i);
        push_query_pairs(&mut out, k, v);
        proof {
            assert(query@.take(i + 1).drop_last() =~= query@.take(i as int));
            assert(query@.take(i + 1).last() == query@[i as int]);
        }
        i = i + 1;
    }
    assert(query@.take(n as int) =~= query@);
    out
}

pub(crate) fn has_content_type_header(headers: &Vec<(String, String)>) -> (r: bool)
    ensures
        r == has_content_type(pairs_view(headers@)),
{
    let target = chars_of("content-type");
    let mut i: usize = 0;
    while i < headers.len()
        invariant
            target@ == "content-type"@,
            i <= headers@.len(),
            forall|k: int| 0 <= k < i ==> crate::text::ascii_lower(#[trigger] pairs_view(headers@)[k].0) != "content-type"@,
        decreases headers@.len() - i,
    {
        let cs = chars_of(headers[i].0.as_str());
        let lowered = crate::text::ascii_lower_chars(cs.as_slice());
        let same = crate::text::starts_with(lowered.as_slice(), target.as_slice()) && lowered.len()
            == target.len();
        proof {
            assert(pairs_view(headers@)[i as int].0 == headers@[i as int].0@);
            if lowered@.len() == target@.len() {
                assert(lowered@.take(target@.len() as int) =~= lowered@);
            }
        }
        if same {
            return true;
        }
        i = i + 1;
    }
    false
}

/// Turns a handler's request description into the request to send:
/// `clienttime` is the current Unix time in seconds, `ip` the caller's address.
/// Fails with the URL parser's message when the base URL and path do not make
/// a URL.
pub fn prepare_request(
    req: NativeRequest,
    input: &JsonValue,
    clienttime: u64,
    is_lite: bool,
    ip: &str,
) -> (r: Result<PreparedRequest, String>)
    ensures
        match joined_url(
            req.base_url@,
            req.url@,
            query_pairs(signed_query(req, input@, clienttime, is_lite)),
        ) {
            Ok(u) => r matches Ok(p) && p.url@ == u && p.method == req.method && pairs_view(
                p.headers@,
            ) == request_headers(req, input@, clienttime, ip@) && p.json_body == is_json_body(
                match req.data {
                    Some(d) => Some(d@),
                    None => None,
                },
            ) && match req.data {
                Some(d) => p.body matches Some(b) && b@ == js_text(d@),
                None => p.body is None,
            },
            Err(e) => r matches Err(m) && m@ == e,
        },
{
    let ghost req0 = req;
    // The caller's cookies.
    let jar = if req.use_input_cookie {
        match input.get(crate::params::cookie_name()) {
            Some(JsonValue::Object(c)) => c.deep_clone(),
            _ => JsonObject::new(),
        }
    } else {
        JsonObject::new()
    };
    assert(jar@ == jar_of(input@, req.use_input_cookie));
    let dfid = lookup_text(&jar, "dfid", "-", true);
    let mid = lookup_text(&jar, "KUGOU_API_MID", "undefined", false);
    let token = lookup_text(&jar, "token", "", true);
    let userid = match jar.get("userid") {
        Some(v) => if truthy(v) {
            v.deep_clone()
        } else {
            JsonValue::unsigned(0)
        },
        None => JsonValue::unsigned(0),
    };
    let (appid, clientver) = platform_numbers(is_lite);
    // The query.
    let mut query = JsonObject::new();
    if !req.clear_default_params {
        query.insert("dfid".to_owned(), JsonValue::Str(dfid.clone()));
        query.insert("mid".to_owned(), JsonValue::Str(mid.clone()));
        query.insert("uuid".to_owned(), JsonValue::text("-"));
        query.insert("appid".to_owned(), JsonValue::unsigned(appid));
        query.insert("clientver".to_owned(), JsonValue::unsigned(clientver));
        query.insert("clienttime".to_owned(), JsonValue::unsigned(clienttime));
        proof {
            reveal_strlit("");
        }
        if !token.as_str().is_empty() {
            query.insert("token".to_owned(), JsonValue::Str(token));
        }
        if truthy(&userid) {
            query.insert("userid".to_owned(), userid);
        }
    }
    crate::cookies::extend_object(&mut query, &req.params);
    if req.encrypt_key {
        let hash = lookup_text(&query, "hash", "undefined", false);
        let key_appid = lookup_text(&query, "appid", "1005", true);
        let key_userid = lookup_text(&query, "userid", "0", true);
        let key = sign_key(hash.as_str(), mid.as_str(), key_userid.as_str(), key_appid.as_str(), is_lite);
        query.insert("key".to_owned(), JsonValue::Str(key));
    }
    assert(query@ == unsigned_query(req0, input@, clienttime, is_lite));
    let body = match &req.data {
        Some(d) => js_string(d),
        None => String::new(),
    };
    if !query.contains_key("signature") {
        match req.signature {
            SignatureKind::Android => {
                let sig = signature_android(&query, body.as_str(), is_lite);
                query.insert("signature".to_owned(), JsonValue::Str(sig));
            },
            SignatureKind::Web => {
                let sig = signature_web(&query);
                query.insert("signature".to_owned(), JsonValue::Str(sig));
            },
            SignatureKind::Unsigned => {},
        }
    }
    assert(query@ == signed_query(req0, input@, clienttime, is_lite));
    // The URL.
    let pairs = object_query_pairs(&query);
    let url = build_url(req.base_url.as_str(), req.url.as_str(), &pairs)?;
    // The headers.
    let mut headers: Vec<(String, String)> = Vec::new();
    let hn = req.headers.len();
    let mut i: usize = 0;
    while i < hn
        invariant
            hn == req.headers@.len(),
            i <= hn,
            headers@.len() == i,
            forall|k: int|
                0 <= k < i ==> (#[trigger] headers@[k]).0@ == req.headers@[k].0 && headers@[k].1@
                    == js_text(req.headers@[k].1),
        decreases hn - i,
    {
        let (k, v) = req.headers.entry_at(i);
        headers.push((k.clone(), js_string(v)));
        i = i + 1;
    }
    let ghost own = pairs_view(headers@);
    headers.push(text_pair("user-agent", "Android15-1070-11083-46-0-DiscoveryDRADProtocol-wifi"));
    headers.push(("dfid".to_owned(), dfid));
    headers.push(("clienttime".to_owned(), u128_text(clienttime as u128)));
    headers.push(("mid".to_owned(), mid));
    headers.push(text_pair("kg-rc", "1"));
    headers.push(text_pair("kg-thash", "5d816a0"));
    headers.push(text_pair("kg-rec", "1"));
    headers.push(text_pair("kg-rf", "B9EDA08A64250DEFFBCADDEE00F8F25F"));
    headers.push(text_pair("X-Real-IP", ip));
    headers.push(text_pair("X-Forwarded-For", ip));
    let ghost all = pairs_view(headers@);
    proof {
        assert(all =~= Seq::new(
            req0.headers@.len(),
            |k: int| (req0.headers@[k].0, js_text(req0.headers@[k].1)),
        ) + fixed_headers(jar_of(input@, req0.use_input_cookie), clienttime, ip@));
    }
    let json_body = match &req.data {
        Some(JsonValue::Array(_)) => true,
        Some(JsonValue::Object(_)) => true,
        _ => false,
    };
    if json_body && !has_content_type_header(&headers) {
        headers.push(text_pair("content-type", "application/json"));
        assert(pairs_view(headers@) =~= all.push(("content-type"@, "application/json"@)));
    }
    let body = match req.data {
        Some(_) => Some(body),
        None => None,
    };
    Ok(PreparedRequest { method: req.method, url, headers, body, json_body })
}

} // verus!
