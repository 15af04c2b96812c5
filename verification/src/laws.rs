//! Properties that hold across the library's operations: what a read gives
//! back of a write, that the order in which parameters are set does not
//! matter, and what the list, cookie, encoding and image helpers guarantee
//! of every input.
use crate::cookies::{extend_entries, header_cookie, header_entries, header_pair, loose_cookie, loose_entries, request_params};
use crate::encoding::base64;
use crate::form::{form_pairs, grouped_pairs};
use crate::handlers::choices::search_request;
use crate::js::{is_truthy, js_text};
use crate::signing::{android_signature, joined_pairs, md5_hex};
use crate::text::{is_white_space, trim, trim_end, trim_start};
use crate::upstream::{signed_query, Method, NativeRequest};
use crate::handlers::{known_module, lemma_known_planned, module_plan, Clock};
use crate::enrich::{enriched_cloud_match, enriched_ip_zone, enriched_top_ip, status_is_one};
use crate::json::{insert_entry, lookup, remove_entry, sorted_keys, JsonView};
use crate::params::kept_pieces;
use crate::qr::{image_side, qr_pixel};
use crate::routes::native_modules;
use crate::response::{dropped_attribute, kept_attributes};
use crate::server::{cookie_suffix, reply_cookies};
use crate::text::{lemma_lt_irreflexive, lemma_lt_asymmetric, lemma_lt_total, lemma_lt_transitive, seq_lt};
use vstd::prelude::*;

verus! {

// ---------------------------------------------------------------------------
// Objects.
// ---------------------------------------------------------------------------

/// Reading a key just stored gives back the value stored.
pub proof fn law_read_after_write(es: Seq<(Seq<char>, JsonView)>, k: Seq<char>, v: JsonView)
    ensures
        lookup(insert_entry(es, k, v), k) == Some(v),
    decreases es.len(),
{
    if es.len() > 0 && es[0].0 != k && !seq_lt(k, es[0].0) {
        law_read_after_write(es.drop_first(), k, v);
        let r = seq![es[0]] + insert_entry(es.drop_first(), k, v);
        assert(r.drop_first() =~= insert_entry(es.drop_first(), k, v));
    }
}

/// Storing a key leaves what every other key reads unchanged.
pub proof fn law_write_keeps_other_keys(
    es: Seq<(Seq<char>, JsonView)>,
    k: Seq<char>,
    v: JsonView,
    other: Seq<char>,
)
    requires
        other != k,
    ensures
        lookup(insert_entry(es, k, v), other) == lookup(es, other),
    decreases es.len(),
{
    if es.len() > 0 {
        if es[0].0 == k {
            let r = es.update(0, (k, v));
            assert(r[0] == (k, v));
            assert(r.drop_first() =~= es.drop_first());
            assert(insert_entry(es, k, v) == r);
            assert(lookup(r, other) == lookup(r.drop_first(), other));
            assert(lookup(es, other) == lookup(es.drop_first(), other));
        } else if seq_lt(k, es[0].0) {
            let r = seq![(k, v)] + es;
            assert(r[0] == (k, v));
            assert(r.drop_first() =~= es);
            assert(insert_entry(es, k, v) == r);
            assert(lookup(r, other) == lookup(r.drop_first(), other));
        } else {
            let rest = insert_entry(es.drop_first(), k, v);
            let r = seq![es[0]] + rest;
            assert(r[0] == es[0]);
            assert(r.drop_first() =~= rest);
            assert(insert_entry(es, k, v) == r);
            law_write_keeps_other_keys(es.drop_first(), k, v, other);
            if es[0].0 != other {
                assert(lookup(r, other) == lookup(rest, other));
                assert(lookup(es, other) == lookup(es.drop_first(), other));
            }
        }
    } else {
        let r = seq![(k, v)];
        assert(r[0] == (k, v));
        assert(r.drop_first().len() == 0);
        assert(lookup(r, other) == lookup(r.drop_first(), other));
    }
}

proof fn lemma_absent_below_first(es: Seq<(Seq<char>, JsonView)>, k: Seq<char>)
    requires
        sorted_keys(es),
        es.len() > 0,
        seq_lt(k, es[0].0),
    ensures
        lookup(es, k) is None,
    decreases es.len(),
{
    lemma_lt_irreflexive(k);
    assert(es[0].0 != k);
    assert(lookup(es, k) == lookup(es.drop_first(), k));
    if es.len() > 1 {
        let rest = es.drop_first();
        assert(rest[0] == es[1]);
        assert(seq_lt(es[0].0, es[1].0));
        lemma_lt_transitive(k, es[0].0, es[1].0);
        assert(sorted_keys(rest)) by {
            assert forall|i: int, j: int| 0 <= i < j < rest.len() implies seq_lt(
                #[trigger] rest[i].0,
                #[trigger] rest[j].0,
            ) by {
                assert(rest[i] == es[i + 1] && rest[j] == es[j + 1]);
            }
        }
        lemma_absent_below_first(rest, k);
    }
}

proof fn lemma_sorted_tail(es: Seq<(Seq<char>, JsonView)>)
    requires
        sorted_keys(es),
        es.len() > 0,
    ensures
        sorted_keys(es.drop_first()),
        es.len() > 1 ==> seq_lt(es[0].0, es.drop_first()[0].0),
        lookup(es.drop_first(), es[0].0) is None,
{
    let rest = es.drop_first();
    assert forall|i: int, j: int| 0 <= i < j < rest.len() implies seq_lt(
        #[trigger] rest[i].0,
        #[trigger] rest[j].0,
    ) by {
        assert(rest[i] == es[i + 1] && rest[j] == es[j + 1]);
    }
    if rest.len() > 0 {
        assert(rest[0] == es[1]);
        lemma_absent_below_first(rest, es[0].0);
    }
}

/// After removing a key from an object, the key reads as absent.
pub proof fn law_removed_key_is_absent(es: Seq<(Seq<char>, JsonView)>, k: Seq<char>)
    requires
        sorted_keys(es),
    ensures
        lookup(remove_entry(es, k), k) is None,
    decreases es.len(),
{
    if es.len() > 0 {
        lemma_sorted_tail(es);
        if es[0].0 != k {
            law_removed_key_is_absent(es.drop_first(), k);
            let r = seq![es[0]] + remove_entry(es.drop_first(), k);
            assert(r.drop_first() =~= remove_entry(es.drop_first(), k));
        }
    }
}

/// Storing a key keeps an object's keys in strictly increasing order.
pub proof fn law_write_keeps_keys_sorted(es: Seq<(Seq<char>, JsonView)>, k: Seq<char>, v: JsonView)
    requires
        sorted_keys(es),
    ensures
        sorted_keys(insert_entry(es, k, v)),
    decreases es.len(),
{
    if es.len() == 0 {
    } else if es[0].0 == k {
        let r = es.update(0, (k, v));
        assert forall|i: int, j: int| 0 <= i < j < r.len() implies seq_lt(
            #[trigger] r[i].0,
            #[trigger] r[j].0,
        ) by {
            assert(r[i].0 == es[i].0 && r[j].0 == es[j].0);
        }
    } else if seq_lt(k, es[0].0) {
        let r = seq![(k, v)] + es;
        assert forall|i: int, j: int| 0 <= i < j < r.len() implies seq_lt(
            #[trigger] r[i].0,
            #[trigger] r[j].0,
        ) by {
            if i == 0 {
                assert(r[j] == es[j - 1]);
                if j - 1 > 0 {
                    assert(seq_lt(es[0].0, es[j - 1].0));
                    lemma_lt_transitive(k, es[0].0, es[j - 1].0);
                }
            } else {
                assert(r[i] == es[i - 1] && r[j] == es[j - 1]);
            }
        }
    } else {
        lemma_lt_total(k, es[0].0);
        lemma_sorted_tail(es);
        let rest = insert_entry(es.drop_first(), k, v);
        law_write_keeps_keys_sorted(es.drop_first(), k, v);
        crate::config::lemma_insert_keys(es.drop_first(), k, v);
        let r = seq![es[0]] + rest;
        assert forall|i: int, j: int| 0 <= i < j < r.len() implies seq_lt(
            #[trigger] r[i].0,
            #[trigger] r[j].0,
        ) by {
            if i == 0 {
                assert(r[j] == rest[j - 1]);
                let key = rest[j - 1].0;
                assert(crate::config::keys_of(rest)[j - 1] == key);
                assert(crate::config::keys_of(rest).to_set().contains(key));
                if key != k {
                    assert(crate::config::keys_of(es.drop_first()).to_set().contains(key));
                    let m = choose|m: int|
                        0 <= m < crate::config::keys_of(es.drop_first()).len()
                            && crate::config::keys_of(es.drop_first())[m] == key;
                    assert(es.drop_first()[m] == es[m + 1]);
                    assert(seq_lt(es[0].0, es[m + 1].0));
                }
            } else {
                assert(r[i] == rest[i - 1] && r[j] == rest[j - 1]);
            }
        }
    }
}

/// Two objects whose keys read the same are the same object: an object is
/// determined by what its keys read.
pub proof fn law_objects_equal_by_reads(a: Seq<(Seq<char>, JsonView)>, b: Seq<(Seq<char>, JsonView)>)
    requires
        sorted_keys(a),
        sorted_keys(b),
        forall|k: Seq<char>| lookup(a, k) == lookup(b, k),
    ensures
        a == b,
    decreases a.len() + b.len(),
{
    if a.len() == 0 && b.len() == 0 {
    } else if a.len() == 0 {
        assert(lookup(b, b[0].0) == Some(b[0].1));
        assert(lookup(a, b[0].0) is None);
    } else if b.len() == 0 {
        assert(lookup(a, a[0].0) == Some(a[0].1));
        assert(lookup(b, a[0].0) is None);
    } else {
        let ka = a[0].0;
        let kb = b[0].0;
        assert(lookup(a, ka) == Some(a[0].1));
        assert(lookup(b, kb) == Some(b[0].1));
        lemma_lt_total(ka, kb);
        if seq_lt(ka, kb) {
            lemma_absent_below_first(b, ka);
            assert(false);
        }
        if seq_lt(kb, ka) {
            lemma_absent_below_first(a, kb);
            assert(false);
        }
        assert(ka == kb);
        assert(a[0] == b[0]);
        lemma_sorted_tail(a);
        lemma_sorted_tail(b);
        assert forall|k: Seq<char>| lookup(a.drop_first(), k) == lookup(b.drop_first(), k) by {
            if k != ka {
                assert(lookup(a, k) == lookup(a.drop_first(), k));
                assert(lookup(b, k) == lookup(b.drop_first(), k));
            }
        }
        law_objects_equal_by_reads(a.drop_first(), b.drop_first());
        assert(a =~= seq![a[0]] + a.drop_first());
        assert(b =~= seq![b[0]] + b.drop_first());
    }
}

/// Setting two different keys gives the same object in either order; so a
/// request's parameters, and the signature computed from their sorted pairs,
/// do not depend on the order in which a handler set them.
pub proof fn law_writes_commute(
    es: Seq<(Seq<char>, JsonView)>,
    a: Seq<char>,
    x: JsonView,
    b: Seq<char>,
    y: JsonView,
)
    requires
        sorted_keys(es),
        a != b,
    ensures
        insert_entry(insert_entry(es, a, x), b, y) == insert_entry(insert_entry(es, b, y), a, x),
{
    let l = insert_entry(insert_entry(es, a, x), b, y);
    let r = insert_entry(insert_entry(es, b, y), a, x);
    law_write_keeps_keys_sorted(es, a, x);
    law_write_keeps_keys_sorted(insert_entry(es, a, x), b, y);
    law_write_keeps_keys_sorted(es, b, y);
    law_write_keeps_keys_sorted(insert_entry(es, b, y), a, x);
    assert forall|k: Seq<char>| lookup(l, k) == lookup(r, k) by {
        if k == a {
            law_write_keeps_other_keys(insert_entry(es, a, x), b, y, a);
            law_read_after_write(es, a, x);
            law_read_after_write(insert_entry(es, b, y), a, x);
        } else if k == b {
            law_read_after_write(insert_entry(es, a, x), b, y);
            law_write_keeps_other_keys(insert_entry(es, b, y), a, x, b);
            law_read_after_write(es, b, y);
        } else {
            law_write_keeps_other_keys(insert_entry(es, a, x), b, y, k);
            law_write_keeps_other_keys(es, a, x, k);
            law_write_keeps_other_keys(insert_entry(es, b, y), a, x, k);
            law_write_keeps_other_keys(es, b, y, k);
        }
    }
    law_objects_equal_by_reads(l, r);
}

// ---------------------------------------------------------------------------
// Lists, cookies, encodings, images and enrichment.
// ---------------------------------------------------------------------------

/// The identifiers read from a comma-separated list are never empty.
pub proof fn law_list_pieces_not_empty(pieces: Seq<Seq<char>>)
    ensures
        forall|i: int| 0 <= i < kept_pieces(pieces).len() ==> (#[trigger] kept_pieces(pieces)[i]).len() > 0,
    decreases pieces.len(),
{
    if pieces.len() > 0 {
        law_list_pieces_not_empty(pieces.drop_last());
        let rest = kept_pieces(pieces.drop_last());
        assert forall|i: int| 0 <= i < kept_pieces(pieces).len() implies (#[trigger] kept_pieces(
            pieces,
        )[i]).len() > 0 by {
            if i < rest.len() {
                assert(kept_pieces(pieces)[i] == rest[i]);
            }
        }
    }
}

/// A cleaned Set-Cookie value keeps none of the domain, path, expiry and
/// HttpOnly attributes.
pub proof fn law_cleaned_cookie_drops_scope(parts: Seq<Seq<char>>)
    ensures
        forall|i: int|
            0 <= i < kept_attributes(parts).len() ==> !dropped_attribute(
                #[trigger] kept_attributes(parts)[i],
            ),
    decreases parts.len(),
{
    if parts.len() > 0 {
        law_cleaned_cookie_drops_scope(parts.drop_last());
        let rest = kept_attributes(parts.drop_last());
        assert forall|i: int| 0 <= i < kept_attributes(parts).len() implies !dropped_attribute(
            #[trigger] kept_attributes(parts)[i],
        ) by {
            if i < rest.len() {
                assert(kept_attributes(parts)[i] == rest[i]);
            }
        }
    }
}

/// Every cookie a reply sets ends with the scope suffix; the device cookies
/// are always set, and the module's only when the caller did not ask for
/// none.
pub proof fn law_reply_cookies(
    device: Seq<Seq<char>>,
    module: Seq<Seq<char>>,
    no_cookie: bool,
    https: bool,
)
    ensures
        reply_cookies(device, module, no_cookie, https).len() == device.len() + if no_cookie {
            0
        } else {
            module.len()
        },
        forall|i: int|
            0 <= i < device.len() ==> #[trigger] reply_cookies(device, module, no_cookie, https)[i]
                == device[i] + cookie_suffix(https),
        !no_cookie ==> forall|i: int|
            0 <= i < module.len() ==> #[trigger] reply_cookies(device, module, no_cookie, https)[device.len()
                + i] == module[i] + cookie_suffix(https),
{
}

/// Base64 text has four characters for every three bytes or part of them.
pub proof fn law_base64_length(b: Seq<u8>)
    ensures
        base64(b).len() == 4 * ((b.len() + 2) / 3),
    decreases b.len(),
{
    if b.len() > 2 {
        law_base64_length(b.skip(3));
    }
}

/// The quiet zone around a QR code (four modules wide on each side) is
/// white.
pub proof fn law_qr_quiet_zone_white(w: int, dark: Seq<bool>, x: int, y: int)
    requires
        0 <= w,
        0 <= x < image_side(w),
        0 <= y < image_side(w),
        x < 16 || y < 16 || x >= 16 + 4 * w || y >= 16 + 4 * w,
    ensures
        qr_pixel(w, dark, x, y) == 255,
{
}

/// A reply that does not report success (its `status` is not 1) is passed
/// on unchanged by every enrichment.
pub proof fn law_enrichment_needs_success(body: JsonView)
    requires
        !status_is_one(body),
    ensures
        enriched_ip_zone(body) == body,
        enriched_top_ip(body) == body,
        enriched_cloud_match(body) == body,
{
}

// ---------------------------------------------------------------------------
// Native modules.
// ---------------------------------------------------------------------------

/// Every module the library lists as its own is planned: `plan_module`
/// never answers one of them as unknown.
pub proof fn law_listed_modules_planned(m: Seq<char>, p: JsonView, c: Clock)
    requires
        native_modules().contains(m),
    ensures
        module_plan(m, p, c) is Some,
{
    let i = choose|i: int| 0 <= i < native_modules().len() && native_modules()[i] == m;
    lemma_listed_known_0();
    lemma_listed_known_15();
    lemma_listed_known_30();
    lemma_listed_known_45();
    lemma_listed_known_60();
    lemma_listed_known_75();
    lemma_listed_known_90();
    lemma_listed_known_105();
    lemma_listed_known_120();
    lemma_listed_known_135();
    assert(native_modules().len() == 145);
    assert(known_module(native_modules()[i]));
    lemma_known_planned(m, p, c);
}

proof fn lemma_listed_known_0()
    ensures
        forall|i: int| 0 <= i < 15 ==> known_module(#[trigger] native_modules()[i]),
{
    assert forall|i: int| 0 <= i < 15 implies known_module(#[trigger] native_modules()[i]) by {
        if i == 0 {
            assert(native_modules()[i] == "ai_recommend"@);
        } else if i == 1 {
            assert(native_modules()[i] == "album"@);
        } else if i == 2 {
            assert(native_modules()[i] == "album_detail"@);
        } else if i == 3 {
            assert(native_modules()[i] == "album_shop"@);
        } else if i == 4 {
            assert(native_modules()[i] == "album_songs"@);
        } else if i == 5 {
            assert(native_modules()[i] == "artist_albums"@);
        } else if i == 6 {
            assert(native_modules()[i] == "artist_audios"@);
        } else if i == 7 {
            assert(native_modules()[i] == "artist_detail"@);
        } else if i == 8 {
            assert(native_modules()[i] == "artist_follow_newsongs"@);
        } else if i == 9 {
            assert(native_modules()[i] == "artist_honour"@);
        } else if i == 10 {
            assert(native_modules()[i] == "artist_lists"@);
        } else if i == 11 {
            assert(native_modules()[i] == "artist_videos"@);
        } else if i == 12 {
            assert(native_modules()[i] == "captcha_sent"@);
        } else if i == 13 {
            assert(native_modules()[i] == "audio"@);
        } else if i == 14 {
            assert(native_modules()[i] == "audio_accompany_matching"@);
        }
    }
}

proof fn lemma_listed_known_15()
    ensures
        forall|i: int| 15 <= i < 30 ==> known_module(#[trigger] native_modules()[i]),
{
    assert forall|i: int| 15 <= i < 30 implies known_module(#[trigger] native_modules()[i]) by {
        if i == 15 {
            assert(native_modules()[i] == "audio_ktv_total"@);
        } else if i == 16 {
            assert(native_modules()[i] == "audio_related"@);
        } else if i == 17 {
            assert(native_modules()[i] == "comment_album"@);
        } else if i == 18 {
            assert(native_modules()[i] == "comment_count"@);
        } else if i == 19 {
            assert(native_modules()[i] == "comment_music"@);
        } else if i == 20 {
            assert(native_modules()[i] == "comment_music_classify"@);
        } else if i == 21 {
            assert(native_modules()[i] == "comment_music_hotword"@);
        } else if i == 22 {
            assert(native_modules()[i] == "comment_playlist"@);
        } else if i == 23 {
            assert(native_modules()[i] == "everyday_history"@);
        } else if i == 24 {
            assert(native_modules()[i] == "everyday_recommend"@);
        } else if i == 25 {
            assert(native_modules()[i] == "everyday_style_recommend"@);
        } else if i == 26 {
            assert(native_modules()[i] == "favorite_count"@);
        } else if i == 27 {
            assert(native_modules()[i] == "get_model"@);
        } else if i == 28 {
            assert(native_modules()[i] == "get_mode_info"@);
        } else if i == 29 {
            assert(native_modules()[i] == "get_verify_info"@);
        }
    }
}

proof fn lemma_listed_known_30()
    ensures
        forall|i: int| 30 <= i < 45 ==> known_module(#[trigger] native_modules()[i]),
{
    assert forall|i: int| 30 <= i < 45 implies known_module(#[trigger] native_modules()[i]) by {
        if i == 30 {
            assert(native_modules()[i] == "ip_dateil"@);
        } else if i == 31 {
            assert(native_modules()[i] == "ip"@);
        } else if i == 32 {
            assert(native_modules()[i] == "ip_playlist"@);
        } else if i == 33 {
            assert(native_modules()[i] == "ip_zone_home"@);
        } else if i == 34 {
            assert(native_modules()[i] == "kmr_audio_mv"@);
        } else if i == 35 {
            assert(native_modules()[i] == "krm_audio"@);
        } else if i == 36 {
            assert(native_modules()[i] == "longaudio_album_audios"@);
        } else if i == 37 {
            assert(native_modules()[i] == "longaudio_album_detail"@);
        } else if i == 38 {
            assert(native_modules()[i] == "longaudio_daily_recommend"@);
        } else if i == 39 {
            assert(native_modules()[i] == "longaudio_rank_recommend"@);
        } else if i == 40 {
            assert(native_modules()[i] == "longaudio_vip_recommend"@);
        } else if i == 41 {
            assert(native_modules()[i] == "longaudio_week_recommend"@);
        } else if i == 42 {
            assert(native_modules()[i] == "login_qr_create"@);
        } else if i == 43 {
            assert(native_modules()[i] == "login_qr_key"@);
        } else if i == 44 {
            assert(native_modules()[i] == "login_qr_check"@);
        }
    }
}

proof fn lemma_listed_known_45()
    ensures
        forall|i: int| 45 <= i < 60 ==> known_module(#[trigger] native_modules()[i]),
{
    assert forall|i: int| 45 <= i < 60 implies known_module(#[trigger] native_modules()[i]) by {
        if i == 45 {
            assert(native_modules()[i] == "login_wx_check"@);
        } else if i == 46 {
            assert(native_modules()[i] == "lastest_songs_listen"@);
        } else if i == 47 {
            assert(native_modules()[i] == "pc_diantai"@);
        } else if i == 48 {
            assert(native_modules()[i] == "playlist_effect"@);
        } else if i == 49 {
            assert(native_modules()[i] == "playlist_detail"@);
        } else if i == 50 {
            assert(native_modules()[i] == "playlist_similar"@);
        } else if i == 51 {
            assert(native_modules()[i] == "playlist_tags"@);
        } else if i == 52 {
            assert(native_modules()[i] == "playlist_tracks_del"@);
        } else if i == 53 {
            assert(native_modules()[i] == "playhistory_upload"@);
        } else if i == 54 {
            assert(native_modules()[i] == "recommend_songs"@);
        } else if i == 55 {
            assert(native_modules()[i] == "rank_info"@);
        } else if i == 56 {
            assert(native_modules()[i] == "rank_audio"@);
        } else if i == 57 {
            assert(native_modules()[i] == "rank_list"@);
        } else if i == 58 {
            assert(native_modules()[i] == "rank_top"@);
        } else if i == 59 {
            assert(native_modules()[i] == "rank_vol"@);
        }
    }
}

proof fn lemma_listed_known_60()
    ensures
        forall|i: int| 60 <= i < 75 ==> known_module(#[trigger] native_modules()[i]),
{
    assert forall|i: int| 60 <= i < 75 implies known_module(#[trigger] native_modules()[i]) by {
        if i == 60 {
            assert(native_modules()[i] == "scene_lists"@);
        } else if i == 61 {
            assert(native_modules()[i] == "scene_audio_list"@);
        } else if i == 62 {
            assert(native_modules()[i] == "scene_collection_list"@);
        } else if i == 63 {
            assert(native_modules()[i] == "scene_music"@);
        } else if i == 64 {
            assert(native_modules()[i] == "scene_lists_v2"@);
        } else if i == 65 {
            assert(native_modules()[i] == "scene_video_list"@);
        } else if i == 66 {
            assert(native_modules()[i] == "scene_module"@);
        } else if i == 67 {
            assert(native_modules()[i] == "scene_module_info"@);
        } else if i == 68 {
            assert(native_modules()[i] == "search_hot"@);
        } else if i == 69 {
            assert(native_modules()[i] == "search_lyric"@);
        } else if i == 70 {
            assert(native_modules()[i] == "search_complex"@);
        } else if i == 71 {
            assert(native_modules()[i] == "search_suggest"@);
        } else if i == 72 {
            assert(native_modules()[i] == "server_now"@);
        } else if i == 73 {
            assert(native_modules()[i] == "sheet_collection"@);
        } else if i == 74 {
            assert(native_modules()[i] == "sheet_explore"@);
        }
    }
}

proof fn lemma_listed_known_75()
    ensures
        forall|i: int| 75 <= i < 90 ==> known_module(#[trigger] native_modules()[i]),
{
    assert forall|i: int| 75 <= i < 90 implies known_module(#[trigger] native_modules()[i]) by {
        if i == 75 {
            assert(native_modules()[i] == "sheet_rank"@);
        } else if i == 76 {
            assert(native_modules()[i] == "sheet_song"@);
        } else if i == 77 {
            assert(native_modules()[i] == "sheet_detail"@);
        } else if i == 78 {
            assert(native_modules()[i] == "sheet_tags"@);
        } else if i == 79 {
            assert(native_modules()[i] == "singer_list"@);
        } else if i == 80 {
            assert(native_modules()[i] == "song_climax"@);
        } else if i == 81 {
            assert(native_modules()[i] == "song_ranking"@);
        } else if i == 82 {
            assert(native_modules()[i] == "song_ranking_filter"@);
        } else if i == 83 {
            assert(native_modules()[i] == "song_url"@);
        } else if i == 84 {
            assert(native_modules()[i] == "song_url_new"@);
        } else if i == 85 {
            assert(native_modules()[i] == "theme_music"@);
        } else if i == 86 {
            assert(native_modules()[i] == "theme_music_detail"@);
        } else if i == 87 {
            assert(native_modules()[i] == "theme_playlist"@);
        } else if i == 88 {
            assert(native_modules()[i] == "theme_playlist_track"@);
        } else if i == 89 {
            assert(native_modules()[i] == "top_album"@);
        }
    }
}

proof fn lemma_listed_known_90()
    ensures
        forall|i: int| 90 <= i < 105 ==> known_module(#[trigger] native_modules()[i]),
{
    assert forall|i: int| 90 <= i < 105 implies known_module(#[trigger] native_modules()[i]) by {
        if i == 90 {
            assert(native_modules()[i] == "top_song"@);
        } else if i == 91 {
            assert(native_modules()[i] == "top_tag_card_youth"@);
        } else if i == 92 {
            assert(native_modules()[i] == "user_follow_message"@);
        } else if i == 93 {
            assert(native_modules()[i] == "user_history"@);
        } else if i == 94 {
            assert(native_modules()[i] == "user_playlist"@);
        } else if i == 95 {
            assert(native_modules()[i] == "user_purchased_albums"@);
        } else if i == 96 {
            assert(native_modules()[i] == "user_purchased_songs"@);
        } else if i == 97 {
            assert(native_modules()[i] == "user_video_collect"@);
        } else if i == 98 {
            assert(native_modules()[i] == "user_video_love"@);
        } else if i == 99 {
            assert(native_modules()[i] == "user_vip_detail"@);
        } else if i == 100 {
            assert(native_modules()[i] == "video_url"@);
        } else if i == 101 {
            assert(native_modules()[i] == "youth_channel_all"@);
        } else if i == 102 {
            assert(native_modules()[i] == "youth_channel_amway"@);
        } else if i == 103 {
            assert(native_modules()[i] == "youth_channel_detail"@);
        } else if i == 104 {
            assert(native_modules()[i] == "youth_channel_similar"@);
        }
    }
}

proof fn lemma_listed_known_105()
    ensures
        forall|i: int| 105 <= i < 120 ==> known_module(#[trigger] native_modules()[i]),
{
    assert forall|i: int| 105 <= i < 120 implies known_module(#[trigger] native_modules()[i]) by {
        if i == 105 {
            assert(native_modules()[i] == "youth_channel_song"@);
        } else if i == 106 {
            assert(native_modules()[i] == "youth_channel_song_detail"@);
        } else if i == 107 {
            assert(native_modules()[i] == "youth_channel_sub"@);
        } else if i == 108 {
            assert(native_modules()[i] == "youth_day_vip"@);
        } else if i == 109 {
            assert(native_modules()[i] == "youth_day_vip_upgrade"@);
        } else if i == 110 {
            assert(native_modules()[i] == "youth_dynamic"@);
        } else if i == 111 {
            assert(native_modules()[i] == "youth_dynamic_recent"@);
        } else if i == 112 {
            assert(native_modules()[i] == "youth_month_vip_record"@);
        } else if i == 113 {
            assert(native_modules()[i] == "youth_listen_song"@);
        } else if i == 114 {
            assert(native_modules()[i] == "youth_union_vip"@);
        } else if i == 115 {
            assert(native_modules()[i] == "youth_user_song"@);
        } else if i == 116 {
            assert(native_modules()[i] == "youth_vip"@);
        } else if i == 117 {
            assert(native_modules()[i] == "yueku"@);
        } else if i == 118 {
            assert(native_modules()[i] == "yueku_banner"@);
        } else if i == 119 {
            assert(native_modules()[i] == "yueku_fm"@);
        }
    }
}

proof fn lemma_listed_known_120()
    ensures
        forall|i: int| 120 <= i < 135 ==> known_module(#[trigger] native_modules()[i]),
{
    assert forall|i: int| 120 <= i < 135 implies known_module(#[trigger] native_modules()[i]) by {
        if i == 120 {
            assert(native_modules()[i] == "everyday_friend"@);
        } else if i == 121 {
            assert(native_modules()[i] == "fm_class"@);
        } else if i == 122 {
            assert(native_modules()[i] == "fm_image"@);
        } else if i == 123 {
            assert(native_modules()[i] == "fm_recommend"@);
        } else if i == 124 {
            assert(native_modules()[i] == "fm_songs"@);
        } else if i == 125 {
            assert(native_modules()[i] == "personal_fm"@);
        } else if i == 126 {
            assert(native_modules()[i] == "playlist_add"@);
        } else if i == 127 {
            assert(native_modules()[i] == "playlist_track_all"@);
        } else if i == 128 {
            assert(native_modules()[i] == "playlist_track_all_new"@);
        } else if i == 129 {
            assert(native_modules()[i] == "playlist_tracks_add"@);
        } else if i == 130 {
            assert(native_modules()[i] == "privilege_lite"@);
        } else if i == 131 {
            assert(native_modules()[i] == "search"@);
        } else if i == 132 {
            assert(native_modules()[i] == "search_default"@);
        } else if i == 133 {
            assert(native_modules()[i] == "search_mixed"@);
        } else if i == 134 {
            assert(native_modules()[i] == "top_card"@);
        }
    }
}

proof fn lemma_listed_known_135()
    ensures
        forall|i: int| 135 <= i < 145 ==> known_module(#[trigger] native_modules()[i]),
{
    assert forall|i: int| 135 <= i < 145 implies known_module(#[trigger] native_modules()[i]) by {
        if i == 135 {
            assert(native_modules()[i] == "top_card_youth"@);
        } else if i == 136 {
            assert(native_modules()[i] == "top_playlist"@);
        } else if i == 137 {
            assert(native_modules()[i] == "video_detail"@);
        } else if i == 138 {
            assert(native_modules()[i] == "video_privilege"@);
        } else if i == 139 {
            assert(native_modules()[i] == "brush"@);
        } else if i == 140 {
            assert(native_modules()[i] == "comment_floor"@);
        } else if i == 141 {
            assert(native_modules()[i] == "images"@);
        } else if i == 142 {
            assert(native_modules()[i] == "images_audio"@);
        } else if i == 143 {
            assert(native_modules()[i] == "ip_zone"@);
        } else if i == 144 {
            assert(native_modules()[i] == "top_ip"@);
        }
    }
}

// ---------------------------------------------------------------------------
// Requests: the caller's token, the signature, the search path, the cookie
// jar.
// ---------------------------------------------------------------------------

/// An entry stored by a later write of [`extend_entries`] wins: the value
/// `source` holds under `k` (its keys sorted) is what the result reads.
proof fn lemma_extend_reads_source(
    target: Seq<(Seq<char>, JsonView)>,
    source: Seq<(Seq<char>, JsonView)>,
    k: Seq<char>,
    v: JsonView,
)
    requires
        sorted_keys(source),
        lookup(source, k) == Some(v),
    ensures
        lookup(extend_entries(target, source), k) == Some(v),
    decreases source.len(),
{
    let last = source.last();
    if last.0 == k {
        lemma_sorted_last(source);
        law_read_after_write(extend_entries(target, source.drop_last()), k, last.1);
    } else {
        lemma_lookup_drop_last(source, k);
        assert(sorted_keys(source.drop_last()));
        lemma_extend_reads_source(target, source.drop_last(), k, v);
        law_write_keeps_other_keys(extend_entries(target, source.drop_last()), last.0, last.1, k);
    }
}

/// A key that `source` does not hold reads in [`extend_entries`] as in
/// `target`.
proof fn lemma_extend_keeps_target(
    target: Seq<(Seq<char>, JsonView)>,
    source: Seq<(Seq<char>, JsonView)>,
    k: Seq<char>,
)
    requires
        lookup(source, k) is None,
    ensures
        lookup(extend_entries(target, source), k) == lookup(target, k),
    decreases source.len(),
{
    if source.len() > 0 {
        lemma_lookup_last_present(source);
        lemma_lookup_drop_last(source, k);
        lemma_extend_keeps_target(target, source.drop_last(), k);
        law_write_keeps_other_keys(
            extend_entries(target, source.drop_last()),
            source.last().0,
            source.last().1,
            k,
        );
    }
}

/// Dropping the last entry does not change what another key reads.
proof fn lemma_lookup_drop_last(es: Seq<(Seq<char>, JsonView)>, k: Seq<char>)
    requires
        es.len() > 0,
        es.last().0 != k,
    ensures
        lookup(es, k) == lookup(es.drop_last(), k),
    decreases es.len(),
{
    if es.len() == 1 {
        assert(es.drop_last() =~= Seq::<(Seq<char>, JsonView)>::empty());
        assert(es[0] == es.last());
    } else {
        assert(es.drop_last()[0] == es[0]);
        if es[0].0 != k {
            assert(es.drop_first().drop_last() =~= es.drop_last().drop_first());
            assert(es.drop_first().last() == es.last());
            lemma_lookup_drop_last(es.drop_first(), k);
        }
    }
}

/// The last entry's key is found.
proof fn lemma_lookup_last_present(es: Seq<(Seq<char>, JsonView)>)
    requires
        es.len() > 0,
    ensures
        lookup(es, es.last().0) is Some,
    decreases es.len(),
{
    if es.len() > 1 && es[0].0 != es.last().0 {
        lemma_lookup_last_present(es.drop_first());
    }
}

/// In sorted entries the last key reads the last value.
proof fn lemma_sorted_last(es: Seq<(Seq<char>, JsonView)>)
    requires
        es.len() > 0,
        sorted_keys(es),
    ensures
        lookup(es, es.last().0) == Some(es.last().1),
    decreases es.len(),
{
    if es.len() > 1 {
        assert(seq_lt(es[0].0, es[es.len() - 1].0));
        lemma_lt_irreflexive(es[0].0);
        assert(es[0].0 != es.last().0);
        assert(sorted_keys(es.drop_first()));
        lemma_sorted_last(es.drop_first());
    }
}

/// Loose cookie entries are sorted by name.
proof fn lemma_loose_entries_sorted(pieces: Seq<Seq<char>>)
    ensures
        sorted_keys(loose_entries(pieces)),
    decreases pieces.len(),
{
    if pieces.len() > 0 {
        lemma_loose_entries_sorted(pieces.drop_last());
        law_write_keeps_keys_sorted(
            loose_entries(pieces.drop_last()),
            crate::cookies::loose_name(pieces.last()),
            JsonView::Str(crate::cookies::loose_value(pieces.last())),
        );
    }
}

/// A logged-in caller's token goes into the query: when the default query is
/// used with the caller's cookies, a truthy `token` cookie (with a non-empty
/// text) that the handler's own parameters do not set is sent as the `token`
/// parameter with that text, so the request is made as that user.
pub proof fn law_caller_token_in_query(
    req: NativeRequest,
    input: JsonView,
    clienttime: u64,
    lite: bool,
    jar: Seq<(Seq<char>, JsonView)>,
    token: JsonView,
)
    requires
        !req.clear_default_params,
        req.use_input_cookie,
        crate::json::get_field(input, seq!['c', 'o', 'o', 'k', 'i', 'e']) == Some(JsonView::Object(jar)),
        lookup(jar, "token"@) == Some(token),
        is_truthy(token),
        js_text(token).len() > 0,
        lookup(req.params@, "token"@) is None,
    ensures
        lookup(signed_query(req, input, clienttime, lite), "token"@) == Some(
            JsonView::Str(js_text(token)),
        ),
{
    reveal_strlit("token");
    reveal_strlit("userid");
    reveal_strlit("key");
    reveal_strlit("signature");
    let d5 = crate::upstream::default_query(jar, clienttime, lite);
    let t = JsonView::Str(js_text(token));
    let jar_user = crate::upstream::jar_userid(jar);
    let pre = insert_entry(
        insert_entry(
            insert_entry(
                insert_entry(
                    insert_entry(
                        insert_entry(Seq::empty(), "dfid"@, JsonView::Str(crate::upstream::jar_dfid(jar))),
                        "mid"@,
                        JsonView::Str(crate::upstream::jar_mid(jar)),
                    ),
                    "uuid"@,
                    JsonView::Str("-"@),
                ),
                "appid"@,
                JsonView::Number(crate::json::NumberView::PosInt(crate::signing::platform_appid(lite))),
            ),
            "clientver"@,
            JsonView::Number(crate::json::NumberView::PosInt(crate::signing::platform_clientver(lite))),
        ),
        "clienttime"@,
        JsonView::Number(crate::json::NumberView::PosInt(clienttime)),
    );
    let d6 = insert_entry(pre, "token"@, t);
    law_read_after_write(pre, "token"@, t);
    law_write_keeps_other_keys(d6, "userid"@, jar_user, "token"@);
    assert(lookup(d5, "token"@) == Some(t));
    lemma_extend_keeps_target(d5, req.params@, "token"@);
    let q = extend_entries(d5, req.params@);
    assert(lookup(q, "token"@) == Some(t));
    let u = crate::upstream::unsigned_query(req, input, clienttime, lite);
    if req.encrypt_key {
        let kv = JsonView::Str(
            crate::signing::track_key(
                crate::upstream::entry_text(q, "hash"@, "undefined"@),
                crate::upstream::jar_mid(jar),
                crate::upstream::truthy_text(q, "userid"@, "0"@),
                crate::upstream::truthy_text(q, "appid"@, "1005"@),
                lite,
            ),
        );
        law_write_keeps_other_keys(q, "key"@, kv, "token"@);
    }
    assert(lookup(u, "token"@) == Some(t));
    let body = crate::upstream::data_text(
        match req.data {
            Some(d) => Some(d@),
            None => None,
        },
    );
    law_write_keeps_other_keys(
        u,
        "signature"@,
        JsonView::Str(crate::signing::android_signature(u, body, lite)),
        "token"@,
    );
    law_write_keeps_other_keys(
        u,
        "signature"@,
        JsonView::Str(crate::signing::web_signature(u)),
        "token"@,
    );
}

/// The Android signature is the MD5 hex digest of the salt, the sorted
/// `key=value` pairs, the body text and the salt again, in that order; the
/// salt is `OIlwieks28dk2k092lksi2UIkp` for the standard app and
/// `LnT6xpN3khm36zse0QzvmgTZ3waWdRSA` for the lite one.
pub proof fn law_android_signature_text(es: Seq<(Seq<char>, JsonView)>, data: Seq<char>)
    ensures
        android_signature(es, data, false) == md5_hex(
            "OIlwieks28dk2k092lksi2UIkp"@ + joined_pairs(es, Seq::empty()) + data
                + "OIlwieks28dk2k092lksi2UIkp"@,
        ),
        android_signature(es, data, true) == md5_hex(
            "LnT6xpN3khm36zse0QzvmgTZ3waWdRSA"@ + joined_pairs(es, Seq::empty()) + data
                + "LnT6xpN3khm36zse0QzvmgTZ3waWdRSA"@,
        ),
{
}

/// Each search type asks for its own path: `special`, `lyric`, `album`,
/// `author` and `mv` under `/v1/search/`, and songs (any other type, or none)
/// at `/v3/search/song`; always with GET.
pub proof fn law_search_paths(p: JsonView, c: Clock)
    ensures
        search_request(p, c).method == Method::Get,
        crate::json::get_field(p, "type"@) == Some(JsonView::Str("special"@))
            ==> search_request(p, c).url == "/v1/search/special"@,
        crate::json::get_field(p, "type"@) == Some(JsonView::Str("lyric"@))
            ==> search_request(p, c).url == "/v1/search/lyric"@,
        crate::json::get_field(p, "type"@) == Some(JsonView::Str("album"@))
            ==> search_request(p, c).url == "/v1/search/album"@,
        crate::json::get_field(p, "type"@) == Some(JsonView::Str("author"@))
            ==> search_request(p, c).url == "/v1/search/author"@,
        crate::json::get_field(p, "type"@) == Some(JsonView::Str("mv"@))
            ==> search_request(p, c).url == "/v1/search/mv"@,
        crate::json::get_field(p, "type"@) is None ==> search_request(p, c).url == "/v3/search/song"@,
{
    reveal_strlit("special");
    reveal_strlit("lyric");
    reveal_strlit("album");
    reveal_strlit("author");
    reveal_strlit("mv");
    assert("special"@[0] != "lyric"@[0]);
    assert("special"@[0] != "album"@[0]);
    assert("special"@[0] != "author"@[0]);
    assert("special"@[0] != "mv"@[0]);
    assert("lyric"@[0] != "album"@[0]);
    assert("lyric"@[0] != "author"@[0]);
    assert("lyric"@[0] != "mv"@[0]);
    assert("album"@[0] != "mv"@[0]);
    assert("author"@[0] != "mv"@[0]);
    assert("album"@[1] != "author"@[1]);
}

/// The cookies a request passes in its query string's `cookie` field (a
/// `name=value;...` text) reach the cookie jar the handlers read: each name
/// reads back with its value, unless the body sets `cookie` itself or an
/// Authorization header is merged over it.
pub proof fn law_query_cookies_reach_the_jar(
    query: Seq<u8>,
    body: Seq<(Seq<char>, JsonView)>,
    cookie_header: Option<Seq<char>>,
    platform: Seq<char>,
    mid: Seq<char>,
    guid: Seq<char>,
    dev: Seq<char>,
    mac: Seq<char>,
    webgl: Seq<char>,
    text: Seq<char>,
    k: Seq<char>,
    v: JsonView,
)
    requires
        lookup(grouped_pairs(form_pairs(query)), seq!['c', 'o', 'o', 'k', 'i', 'e']) == Some(
            JsonView::Str(text),
        ),
        lookup(loose_cookie(text), k) == Some(v),
        lookup(body, seq!['c', 'o', 'o', 'k', 'i', 'e']) is None,
    ensures
        match request_params(query, body, cookie_header, None, platform, mid, guid, dev, mac, webgl).0 {
            JsonView::Object(p) => match lookup(p, seq!['c', 'o', 'o', 'k', 'i', 'e']) {
                Some(JsonView::Object(jar)) => lookup(jar, k) == Some(v),
                _ => false,
            },
            _ => false,
        },
{
    let ck = seq!['c', 'o', 'o', 'k', 'i', 'e'];
    assert(crate::params::cookie_key() == ck);
    let g = grouped_pairs(form_pairs(query));
    let q = crate::cookies::cookie_field_parsed(g);
    law_read_after_write(g, ck, JsonView::Object(loose_cookie(text)));
    assert(lookup(q, ck) == Some(JsonView::Object(loose_cookie(text))));
    let (jar, _set) = crate::cookies::device_cookies(
        header_cookie(cookie_header),
        platform,
        mid,
        guid,
        dev,
        mac,
        webgl,
    );
    lemma_loose_entries_sorted(crate::text::split(text, ';'));
    lemma_extend_reads_source(jar, loose_cookie(text), k, v);
    let jar2 = extend_entries(jar, loose_cookie(text));
    let q2 = remove_entry(q, ck);
    let base = insert_entry(q2, ck, JsonView::Object(jar2));
    law_read_after_write(q2, ck, JsonView::Object(jar2));
    assert(crate::cookies::cookie_field_parsed(body) == body);
    lemma_extend_keeps_target(base, body, ck);
}

/// The first character of a trimmed text is not white space.
proof fn lemma_trim_first(s: Seq<char>)
    requires
        trim(s).len() > 0,
    ensures
        !is_white_space(trim(s)[0]),
{
    lemma_trim_start_first(s);
    lemma_trim_end_prefix(trim_start(s));
}

proof fn lemma_trim_start_first(s: Seq<char>)
    ensures
        trim_start(s).len() > 0 ==> !is_white_space(trim_start(s)[0]),
    decreases s.len(),
{
    if s.len() > 0 && is_white_space(s[0]) {
        lemma_trim_start_first(s.drop_first());
    }
}

proof fn lemma_trim_end_prefix(s: Seq<char>)
    ensures
        trim_end(s).len() > 0 ==> trim_end(s)[0] == s[0],
    decreases s.len(),
{
    if s.len() > 0 && is_white_space(s.last()) {
        lemma_trim_end_prefix(s.drop_last());
        if trim_end(s.drop_last()).len() > 0 {
            assert(s.drop_last()[0] == s[0]);
        }
    }
}

/// A cookie name worth keeping: not empty, and not starting with white space.
pub open spec fn clean_name(n: Seq<char>) -> bool {
    n.len() > 0 && !is_white_space(n[0])
}

proof fn lemma_insert_clean(es: Seq<(Seq<char>, JsonView)>, k: Seq<char>, v: JsonView)
    requires
        forall|i: int| 0 <= i < es.len() ==> clean_name(#[trigger] es[i].0),
        clean_name(k),
    ensures
        forall|i: int|
            0 <= i < insert_entry(es, k, v).len() ==> clean_name(#[trigger] insert_entry(es, k, v)[i].0),
    decreases es.len(),
{
    if es.len() > 0 && es[0].0 != k && !seq_lt(k, es[0].0) {
        lemma_insert_clean(es.drop_first(), k, v);
        let r = seq![es[0]] + insert_entry(es.drop_first(), k, v);
        assert forall|i: int| 0 <= i < r.len() implies clean_name(#[trigger] r[i].0) by {
            if i > 0 {
                assert(r[i] == insert_entry(es.drop_first(), k, v)[i - 1]);
            }
        }
    } else if es.len() > 0 && es[0].0 != k {
        let r = seq![(k, v)] + es;
        assert forall|i: int| 0 <= i < r.len() implies clean_name(#[trigger] r[i].0) by {
            if i > 0 {
                assert(r[i] == es[i - 1]);
            }
        }
    }
}

proof fn lemma_header_entries_clean(pieces: Seq<Seq<char>>)
    ensures
        forall|i: int|
            0 <= i < header_entries(pieces).len() ==> clean_name(#[trigger] header_entries(pieces)[i].0),
    decreases pieces.len(),
{
    if pieces.len() > 0 {
        lemma_header_entries_clean(pieces.drop_last());
        match header_pair(pieces.last()) {
            Some((n, val)) => {
                let t = trim(pieces.last());
                let p = crate::cookies::find_char(t, '=').unwrap();
                assert(n == t.take(p));
                lemma_trim_first(pieces.last());
                assert(n[0] == t[0]);
                lemma_insert_clean(
                    header_entries(pieces.drop_last()),
                    n,
                    JsonView::Str(crate::cookies::percent_text(val)),
                );
            },
            None => {},
        }
    }
}

/// Cookie names read from a Cookie header are never empty and never start
/// with white space: each `name=value` piece is trimmed before it is split,
/// so in `a=1; b=2` the second cookie is named `b`, not ` b`.
pub proof fn law_header_cookie_names_trimmed(header: Seq<char>)
    ensures
        forall|i: int|
            0 <= i < header_cookie(Some(header)).len() ==> clean_name(
                #[trigger] header_cookie(Some(header))[i].0,
            ),
{
    lemma_header_entries_clean(crate::text::split(header, ';'));
}

} // verus!
