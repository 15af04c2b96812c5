//! What each native module asks of the upstream service: the request it
//! describes for given parameters, or the answer it gives at once.
use crate::js::{is_truthy, truthy};
use crate::json::{get_field, insert_entry, JsonObject, JsonValue, JsonView, NumberView};
use crate::params::{cookie, cookie_value, param};
use crate::text::{chars_of, str_eq, string_range};
use crate::response::{ModuleResponse, ResponseView};
use crate::signing::{platform_appid, platform_clientver, platform_numbers};
use crate::upstream::{NativeRequest, RequestView};
use crate::enrich::{
    enrich_cloud_match, enrich_ip_zone, enrich_top_ip, enriched_cloud_match, enriched_ip_zone,
    enriched_top_ip,
};
use vstd::prelude::*;

pub mod catalog;
pub mod listening;
pub mod discovery;
pub mod account;
pub mod choices;
pub mod signed;
pub mod bodies;
pub mod replies;

verus! {

/// The moment and platform a request is planned for: the Unix time in
/// milliseconds and whether the lite app is emulated.
#[derive(Clone, Copy)]
pub struct Clock {
    pub now_ms: u64,
    pub lite: bool,
}

/// A JSON string.
pub open spec fn txt(s: Seq<char>) -> JsonView {
    JsonView::Str(s)
}

/// A JSON number holding a non-negative integer.
pub open spec fn num(n: u64) -> JsonView {
    JsonView::Number(NumberView::PosInt(n))
}

/// An object with no entries.
pub open spec fn no_entries() -> Seq<(Seq<char>, JsonView)> {
    Seq::empty()
}

/// The value, or `default`.
pub open spec fn or_default(v: Option<JsonView>, default: JsonView) -> JsonView {
    match v {
        Some(x) => x,
        None => default,
    }
}

/// The views of the values.
pub open spec fn items_of(items: Seq<JsonValue>) -> Seq<JsonView> {
    items.map_values(|v: JsonValue| v@)
}

/// The platform's app id as a JSON number.
pub fn appid_value(c: Clock) -> (r: JsonValue)
    ensures
        r@ == num(platform_appid(c.lite)),
{
    JsonValue::unsigned(platform_numbers(c.lite).0)
}

/// The platform's client version as a JSON number.
pub fn clientver_value(c: Clock) -> (r: JsonValue)
    ensures
        r@ == num(platform_clientver(c.lite)),
{
    JsonValue::unsigned(platform_numbers(c.lite).1)
}

/// The truthy cookie `name`, else `default`.
pub fn cookie_or(params: &JsonValue, name: &str, default: JsonValue) -> (r: JsonValue)
    ensures
        r@ == or_default(cookie(params@, name@), default@),
{
    match cookie_value(params, name) {
        Some(v) => v,
        None => default,
    }
}

/// No items yet.
pub fn no_items() -> (r: Vec<JsonValue>)
    ensures
        items_of(r@) == Seq::<JsonView>::empty(),
{
    let r: Vec<JsonValue> = Vec::new();
    assert(items_of(r@) =~= Seq::<JsonView>::empty());
    r
}

/// Appends an item.
pub fn push_item(items: &mut Vec<JsonValue>, v: JsonValue)
    ensures
        items_of(final(items)@) == items_of(old(items)@).push(v@),
{
    let ghost before = items@;
    items.push(v);
    assert(items_of(items@) =~= items_of(before).push(v@));
}

/// The array of the items.
pub fn array(items: Vec<JsonValue>) -> (r: JsonValue)
    ensures
        r@ == JsonView::Array(items_of(items@)),
{
    proof {
        crate::json::lemma_items_view(items@);
        assert(crate::json::items_view(items@) =~= items_of(items@));
    }
    JsonValue::Array(items)
}

/// `params[name]` is the given text.
pub open spec fn param_is(p: JsonView, name: Seq<char>, t: Seq<char>) -> bool {
    get_field(p, name) == Some(JsonView::Str(t))
}

/// Whether `params[name]` is the given text.
pub fn param_text_is(params: &JsonValue, name: &str, t: &str) -> (r: bool)
    ensures
        r == param_is(params@, name@, t@),
{
    match params.get(name) {
        Some(JsonValue::Str(s)) => str_eq(s.as_str(), t),
        _ => false,
    }
}

/// `params[name]` when it is truthy.
pub open spec fn truthy_param(p: JsonView, name: Seq<char>) -> Option<JsonView> {
    match get_field(p, name) {
        Some(v) => if is_truthy(v) {
            Some(v)
        } else {
            None
        },
        None => None,
    }
}

/// `params[name]` when it is truthy.
pub fn truthy_value(params: &JsonValue, name: &str) -> (r: Option<JsonValue>)
    ensures
        match r {
            Some(v) => truthy_param(params@, name@) == Some(v@),
            None => truthy_param(params@, name@) is None,
        },
{
    match params.get(name) {
        Some(v) => if truthy(v) {
            Some(v.deep_clone())
        } else {
            None
        },
        None => None,
    }
}

/// 1 when `params[name]` is truthy, else 0.
pub open spec fn flag(p: JsonView, name: Seq<char>) -> JsonView {
    num(if is_truthy(param(p, name)) { 1 } else { 0 })
}

/// 1 when `params[name]` is truthy, else 0.
pub fn flag_value(params: &JsonValue, name: &str) -> (r: JsonValue)
    ensures
        r@ == flag(params@, name@),
{
    let on = match params.get(name) {
        Some(v) => truthy(v),
        None => false,
    };
    JsonValue::unsigned(if on { 1 } else { 0 })
}

/// The characters `from..to` of a text.
pub fn slice_text(s: &str, from: usize, to: usize) -> (r: String)
    requires
        from <= to <= s@.len(),
    ensures
        r@ == s@.subrange(from as int, to as int),
{
    let cs = chars_of(s);
    string_range(cs.as_slice(), from, to)
}

// ---------------------------------------------------------------------------
// Plans.
// ---------------------------------------------------------------------------

/// What is done with the reply to a module's upstream request.
#[derive(PartialEq, Eq, Structural)]
pub enum AfterReply {
    /// It is the module's answer.
    Plain,
    /// A confirmed QR login also sets the token and user id cookies.
    QrLogin,
    /// The zone items get their `ip_id`.
    IpZone,
    /// The daily items get their `extra.ip_id`.
    TopIp,
    /// The matches are collected.
    CloudMatch,
}

/// The modules whose requests carry floating-point values that the caller
/// computes.
#[derive(PartialEq, Eq, Structural)]
pub enum NumericArm {
    /// `playlist_track_all`: the index of the first track.
    TrackAll,
    /// `playlist_tracks_add`: each track's album and song id.
    TracksAdd,
}

/// What a module does.
pub enum ModulePlan {
    /// Send this request, then treat the reply as said.
    Upstream(NativeRequest, AfterReply),
    /// Answer at once.
    Reply(ModuleResponse),
    /// Ask WeChat about the login with this `uuid`.
    WxCheck(String),
    /// Compute the floating-point values, then describe the request.
    Numeric(NumericArm),
}

/// What a [`ModulePlan`] holds.
pub enum PlanView {
    Upstream(RequestView, AfterReply),
    Reply(ResponseView),
    WxCheck(Seq<char>),
    Numeric(NumericArm),
}

impl View for ModulePlan {
    type V = PlanView;

    open spec fn view(&self) -> PlanView {
        match self {
            ModulePlan::Upstream(q, a) => PlanView::Upstream(q@, *a),
            ModulePlan::Reply(r) => PlanView::Reply(r@),
            ModulePlan::WxCheck(u) => PlanView::WxCheck(u@),
            ModulePlan::Numeric(n) => PlanView::Numeric(*n),
        }
    }
}

/// The request of a module that describes one request and answers with its
/// reply.
#[verifier::opaque]
pub open spec fn plain_request(m: Seq<char>, p: JsonView, c: Clock) -> Option<RequestView> {
    match catalog::requested(m, p, c) {
        Some(r) => Some(r),
        None => match listening::requested(m, p, c) {
            Some(r) => Some(r),
            None => match discovery::requested(m, p, c) {
                Some(r) => Some(r),
                None => match account::requested(m, p, c) {
                    Some(r) => Some(r),
                    None => match choices::requested(m, p, c) {
                        Some(r) => Some(r),
                        None => match signed::requested(m, p, c) {
                            Some(r) => Some(r),
                            None => bodies::requested(m, p, c),
                        },
                    },
                },
            },
        },
    }
}

/// What module `m` does for the parameters at the given moment: none for a
/// module this library does not know, else the plan or the error that stops
/// it.
pub open spec fn module_plan(m: Seq<char>, p: JsonView, c: Clock) -> Option<Result<PlanView, Seq<char>>> {
    match plain_request(m, p, c) {
        Some(r) => Some(Ok(PlanView::Upstream(r, AfterReply::Plain))),
        None => if m == "login_qr_create"@ {
            Some(
                match replies::qr_create_reply(p) {
                    Ok(v) => Ok(PlanView::Reply(v)),
                    Err(e) => Err(e),
                },
            )
        } else if m == "login_qr_check"@ {
            Some(Ok(PlanView::Upstream(replies::login_qr_check_request(p, c), AfterReply::QrLogin)))
        } else if m == "login_wx_check"@ {
            Some(Ok(PlanView::WxCheck(replies::wx_uuid(p))))
        } else if m == "ip_zone"@ {
            Some(Ok(PlanView::Upstream(replies::ip_zone_request(p, c), AfterReply::IpZone)))
        } else if m == "top_ip"@ {
            Some(Ok(PlanView::Upstream(replies::top_ip_request(p, c), AfterReply::TopIp)))
        } else if m == "user_cloud_match"@ {
            Some(
                Ok(
                    match replies::cloud_match_plan(p, c) {
                        Ok(r) => PlanView::Upstream(r, AfterReply::CloudMatch),
                        Err(v) => PlanView::Reply(v),
                    },
                ),
            )
        } else if m == "comment_music_classify"@ {
            Some(
                Ok(
                    PlanView::Upstream(
                        replies::comment_music_classify_request(p, replies::sort_for(p)),
                        AfterReply::Plain,
                    ),
                ),
            )
        } else if m == "playlist_track_all"@ {
            Some(Ok(PlanView::Numeric(NumericArm::TrackAll)))
        } else if m == "playlist_tracks_add"@ {
            Some(Ok(PlanView::Numeric(NumericArm::TracksAdd)))
        } else {
            None
        },
    }
}

/// The modules planned without a plain request description.
pub open spec fn special_module(m: Seq<char>) -> bool {
    m == "login_qr_create"@
        || m == "login_qr_check"@
        || m == "login_wx_check"@
        || m == "ip_zone"@
        || m == "top_ip"@
        || m == "user_cloud_match"@
        || m == "comment_music_classify"@
        || m == "playlist_track_all"@
        || m == "playlist_tracks_add"@
}

/// Whether module `m` is one this library plans.
pub open spec fn known_module(m: Seq<char>) -> bool {
    catalog::handles(m) || listening::handles(m) || discovery::handles(m) || account::handles(m)
        || choices::handles(m) || signed::handles(m) || bodies::handles(m) || special_module(m)
}

/// A known module always has a plan.
pub proof fn lemma_known_planned(m: Seq<char>, p: JsonView, c: Clock)
    requires
        known_module(m),
    ensures
        module_plan(m, p, c) is Some,
{
    reveal(plain_request);
    if catalog::handles(m) {
        catalog::lemma_handled_requested(m, p, c);
    } else if listening::handles(m) {
        listening::lemma_handled_requested(m, p, c);
    } else if discovery::handles(m) {
        discovery::lemma_handled_requested(m, p, c);
    } else if account::handles(m) {
        account::lemma_handled_requested(m, p, c);
    } else if choices::handles(m) {
        choices::lemma_handled_requested(m, p, c);
    } else if signed::handles(m) {
        signed::lemma_handled_requested(m, p, c);
    } else if bodies::handles(m) {
        bodies::lemma_handled_requested(m, p, c);
    }
}

/// The error for a module this library does not know.
pub open spec fn unknown_module(m: Seq<char>) -> Seq<char> {
    "unknown native module: "@ + m
}

fn plain_request_for(module: &str, params: &JsonValue, c: Clock) -> (r: Option<NativeRequest>)
    ensures
        match r {
            Some(q) => plain_request(module@, params@, c) == Some(q@),
            None => plain_request(module@, params@, c) is None,
        },
{
    reveal(plain_request);
    match catalog::request_for(module, params, c) {
        Some(q) => Some(q),
        None => match listening::request_for(module, params, c) {
            Some(q) => Some(q),
            None => match discovery::request_for(module, params, c) {
                Some(q) => Some(q),
                None => match account::request_for(module, params, c) {
                    Some(q) => Some(q),
                    None => match choices::request_for(module, params, c) {
                        Some(q) => Some(q),
                        None => match signed::request_for(module, params, c) {
                            Some(q) => Some(q),
                            None => bodies::request_for(module, params, c),
                        },
                    },
                },
            },
        },
    }
}

/// Plans module `module` (see [`module_plan`]); a module this library does
/// not know is an error naming it.
pub fn plan_module(module: &str, params: &JsonValue, c: Clock) -> (r: Result<ModulePlan, String>)
    ensures
        match r {
            Ok(plan) => module_plan(module@, params@, c) == Some(Ok::<PlanView, Seq<char>>(plan@)),
            Err(e) => match module_plan(module@, params@, c) {
                Some(Err(x)) => e@ == x,
                None => e@ == unknown_module(module@),
                Some(Ok(_)) => false,
            },
        },
{
    match plain_request_for(module, params, c) {
        Some(q) => {
            return Ok(ModulePlan::Upstream(q, AfterReply::Plain));
        },
        None => {},
    }
    if str_eq(module, "login_qr_create") {
        match replies::login_qr_create(params) {
            Ok(v) => Ok(ModulePlan::Reply(v)),
            Err(e) => Err(e),
        }
    } else if str_eq(module, "login_qr_check") {
        Ok(ModulePlan::Upstream(replies::login_qr_check(params, c), AfterReply::QrLogin))
    } else if str_eq(module, "login_wx_check") {
        Ok(ModulePlan::WxCheck(replies::wx_check_uuid(params)))
    } else if str_eq(module, "ip_zone") {
        Ok(ModulePlan::Upstream(replies::ip_zone(params, c), AfterReply::IpZone))
    } else if str_eq(module, "top_ip") {
        Ok(ModulePlan::Upstream(replies::top_ip(params, c), AfterReply::TopIp))
    } else if str_eq(module, "user_cloud_match") {
        match replies::user_cloud_match(params, c) {
            Ok(q) => Ok(ModulePlan::Upstream(q, AfterReply::CloudMatch)),
            Err(v) => Ok(ModulePlan::Reply(v)),
        }
    } else if str_eq(module, "comment_music_classify") {
        let sort = replies::sort_method(params);
        Ok(ModulePlan::Upstream(replies::comment_music_classify(params, sort), AfterReply::Plain))
    } else if str_eq(module, "playlist_track_all") {
        Ok(ModulePlan::Numeric(NumericArm::TrackAll))
    } else if str_eq(module, "playlist_tracks_add") {
        Ok(ModulePlan::Numeric(NumericArm::TracksAdd))
    } else {
        let mut e = "unknown native module: ".to_owned();
        e.append(module);
        Err(e)
    }
}

/// The response with another body.
pub open spec fn with_body(r: ResponseView, body: JsonView) -> ResponseView {
    ResponseView { body, ..r }
}

/// The module's answer given the reply to its request (see [`AfterReply`]).
pub open spec fn finished(after: AfterReply, r: ResponseView) -> ResponseView {
    match after {
        AfterReply::Plain => r,
        AfterReply::QrLogin => replies::with_cookies(r, replies::qr_login_cookies(r.body)),
        AfterReply::IpZone => with_body(r, enriched_ip_zone(r.body)),
        AfterReply::TopIp => with_body(r, enriched_top_ip(r.body)),
        AfterReply::CloudMatch => with_body(r, enriched_cloud_match(r.body)),
    }
}

/// Turns the reply to a module's request into its answer (see [`finished`]).
pub fn finish_reply(after: AfterReply, response: ModuleResponse) -> (r: ModuleResponse)
    ensures
        r@ == finished(after, response@),
{
    let mut response = response;
    match after {
        AfterReply::Plain => {},
        AfterReply::QrLogin => replies::finish_qr_login(&mut response),
        AfterReply::IpZone => enrich_ip_zone(&mut response.body),
        AfterReply::TopIp => enrich_top_ip(&mut response.body),
        AfterReply::CloudMatch => enrich_cloud_match(&mut response.body),
    }
    response
}

} // verus!
