//! Routes: how URL paths map to handler modules, and which modules this
//! library answers itself.
use crate::text::{chars_of, str_eq, string_of};
use vstd::prelude::*;

verus! {

/// `s` without leading occurrences of `c`.
pub open spec fn strip_start(s: Seq<char>, c: char) -> Seq<char>
    decreases s.len(),
{
    if s.len() > 0 && s[0] == c {
        strip_start(s.drop_first(), c)
    } else {
        s
    }
}

/// `s` without trailing occurrences of `c`.
pub open spec fn strip_end(s: Seq<char>, c: char) -> Seq<char>
    decreases s.len(),
{
    if s.len() > 0 && s.last() == c {
        strip_end(s.drop_last(), c)
    } else {
        s
    }
}

/// `s` with every `from` replaced by `to`.
pub open spec fn replace_char(s: Seq<char>, from: char, to: char) -> Seq<char> {
    s.map_values(|x: char| if x == from { to } else { x })
}

/// The module a path names: the path without leading and trailing slashes,
/// its remaining slashes turned into underscores.
pub open spec fn module_of(path: Seq<char>) -> Seq<char> {
    replace_char(strip_end(strip_start(path, '/'), '/'), '/', '_')
}

/// The path of a module: a slash, then the module with underscores turned into slashes.
pub open spec fn route_of(module: Seq<char>) -> Seq<char> {
    seq!['/'] + replace_char(module, '_', '/')
}

fn replaced(cs: &[char], from: char, to: char) -> (r: Vec<char>)
    ensures
        r@ == replace_char(cs@, from, to),
{
    let mut r: Vec<char> = Vec::new();
    let mut i: usize = 0;
    while i < cs.len()
        invariant
            i <= cs@.len(),
            r@ == replace_char(cs@.take(i as int), from, to),
        decreases cs@.len() - i,
    {
        let c = cs[i];
        r.push(if c == from {
            to
        } else {
            c
        });
        i = i + 1;
        assert(r@ =~= replace_char(cs@.take(i as int), from, to));
    }
    assert(cs@.take(cs@.len() as int) =~= cs@);
    r
}

pub proof fn lemma_strip_start_skip(s: Seq<char>, c: char, i: int)
    requires
        0 <= i <= s.len(),
        forall|j: int| 0 <= j < i ==> s[j] == c,
    ensures
        strip_start(s, c) == strip_start(s.skip(i), c),
    decreases i,
{
    if i > 0 {
        assert(s.drop_first().skip(i - 1) =~= s.skip(i));
        lemma_strip_start_skip(s.drop_first(), c, i - 1);
    } else {
        assert(s.skip(0) =~= s);
    }
}

proof fn lemma_strip_end_take(s: Seq<char>, c: char, i: int)
    requires
        0 <= i <= s.len(),
        forall|j: int| i <= j < s.len() ==> s[j] == c,
    ensures
        strip_end(s, c) == strip_end(s.take(i), c),
    decreases s.len() - i,
{
    if i < s.len() {
        assert(s.drop_last().take(i) =~= s.take(i));
        lemma_strip_end_take(s.drop_last(), c, i);
    } else {
        assert(s.take(i) =~= s);
    }
}

/// The module a URL path names.
pub fn route_to_module(path: &str) -> (r: String)
    ensures
        r@ == module_of(path@),
{
    let cs = chars_of(path);
    let mut start: usize = 0;
    while start < cs.len() && cs[start] == '/'
        invariant
            start <= cs@.len(),
            forall|j: int| 0 <= j < start ==> cs@[j] == '/',
        decreases cs@.len() - start,
    {
        start = start + 1;
    }
    let ghost rest = cs@.skip(start as int);
    proof {
        lemma_strip_start_skip(cs@, '/', start as int);
        assert(rest.len() == 0 || rest[0] != '/');
    }
    let mut end: usize = cs.len();
    while end > start && cs[end - 1] == '/'
        invariant
            start <= end <= cs@.len(),
            rest == cs@.skip(start as int),
            forall|j: int| end - start <= j < rest.len() ==> rest[j] == '/',
        decreases end,
    {
        end = end - 1;
    }
    proof {
        lemma_strip_end_take(rest, '/', end - start);
    }
    let mut middle: Vec<char> = Vec::new();
    let mut i: usize = start;
    while i < end
        invariant
            start <= i <= end <= cs@.len(),
            middle@ == cs@.subrange(start as int, i as int),
        decreases end - i,
    {
        middle.push(cs[i]);
        i = i + 1;
        assert(middle@ =~= cs@.subrange(start as int, i as int));
    }
    let ghost kept = rest.take(end - start);
    assert(kept =~= middle@);
    assert(kept.len() == 0 || kept.last() != '/');
    let out = replaced(middle.as_slice(), '/', '_');
    string_of(out.as_slice())
}

/// The URL path of a module.
pub fn module_to_route(module: &str) -> (r: String)
    ensures
        r@ == route_of(module@),
{
    let cs = chars_of(module);
    let body = replaced(cs.as_slice(), '_', '/');
    let mut out: Vec<char> = Vec::new();
    out.push('/');
    let mut i: usize = 0;
    while i < body.len()
        invariant
            i <= body@.len(),
            out@ == seq!['/'] + body@.take(i as int),
        decreases body@.len() - i,
    {
        out.push(body[i]);
        i = i + 1;
        assert(out@ =~= seq!['/'] + body@.take(i as int));
    }
    assert(body@.take(body@.len() as int) =~= body@);
    string_of(out.as_slice())
}

/// A module's route leads back to the module, for a module name without
/// slashes that neither starts nor ends with an underscore.
pub proof fn law_route_round_trip(module: Seq<char>)
    requires
        forall|i: int| 0 <= i < module.len() ==> module[i] != '/',
        module.len() > 0 ==> module[0] != '_' && module.last() != '_',
    ensures
        module_of(route_of(module)) == module,
{
    let body = replace_char(module, '_', '/');
    let path = route_of(module);
    assert(path.drop_first() =~= body);
    assert(strip_start(path.drop_first(), '/') == body) by {
        if body.len() > 0 {
            assert(body[0] != '/');
        }
    }
    assert(strip_start(path, '/') == body);
    assert(strip_end(body, '/') == body) by {
        if body.len() > 0 {
            assert(body.last() == body[body.len() - 1]);
        }
    }
    assert(replace_char(body, '/', '_') =~= module);
}

/// A path's module leads back to the path, for a path made of a slash and a
/// text without underscores that neither starts nor ends with a slash.
pub proof fn law_module_round_trip(rest: Seq<char>)
    requires
        forall|i: int| 0 <= i < rest.len() ==> rest[i] != '_',
        rest.len() > 0 ==> rest[0] != '/' && rest.last() != '/',
    ensures
        route_of(module_of(seq!['/'] + rest)) == seq!['/'] + rest,
{
    let path = seq!['/'] + rest;
    assert(path.drop_first() =~= rest);
    assert(strip_start(rest, '/') == rest);
    assert(strip_start(path, '/') == rest);
    assert(strip_end(rest, '/') == rest);
    let m = replace_char(rest, '/', '_');
    assert(replace_char(m, '_', '/') =~= rest);
}

/// The modules this library answers itself.
pub open spec fn native_modules() -> Seq<Seq<char>> {
    seq![
        "ai_recommend"@,
        "album"@,
        "album_detail"@,
        "album_shop"@,
        "album_songs"@,
        "artist_albums"@,
        "artist_audios"@,
        "artist_detail"@,
        "artist_follow_newsongs"@,
        "artist_honour"@,
        "artist_lists"@,
        "artist_videos"@,
        "captcha_sent"@,
        "audio"@,
        "audio_accompany_matching"@,
        "audio_ktv_total"@,
        "audio_related"@,
        "comment_album"@,
        "comment_count"@,
        "comment_music"@,
        "comment_music_classify"@,
        "comment_music_hotword"@,
        "comment_playlist"@,
        "everyday_history"@,
        "everyday_recommend"@,
        "everyday_style_recommend"@,
        "favorite_count"@,
        "get_model"@,
        "get_mode_info"@,
        "get_verify_info"@,
        "ip_dateil"@,
        "ip"@,
        "ip_playlist"@,
        "ip_zone_home"@,
        "kmr_audio_mv"@,
        "krm_audio"@,
        "longaudio_album_audios"@,
        "longaudio_album_detail"@,
        "longaudio_daily_recommend"@,
        "longaudio_rank_recommend"@,
        "longaudio_vip_recommend"@,
        "longaudio_week_recommend"@,
        "login_qr_create"@,
        "login_qr_key"@,
        "login_qr_check"@,
        "login_wx_check"@,
        "lastest_songs_listen"@,
        "pc_diantai"@,
        "playlist_effect"@,
        "playlist_detail"@,
        "playlist_similar"@,
        "playlist_tags"@,
        "playlist_tracks_del"@,
        "playhistory_upload"@,
        "recommend_songs"@,
        "rank_info"@,
        "rank_audio"@,
        "rank_list"@,
        "rank_top"@,
        "rank_vol"@,
        "scene_lists"@,
        "scene_audio_list"@,
        "scene_collection_list"@,
        "scene_music"@,
        "scene_lists_v2"@,
        "scene_video_list"@,
        "scene_module"@,
        "scene_module_info"@,
        "search_hot"@,
        "search_lyric"@,
        "search_complex"@,
        "search_suggest"@,
        "server_now"@,
        "sheet_collection"@,
        "sheet_explore"@,
        "sheet_rank"@,
        "sheet_song"@,
        "sheet_detail"@,
        "sheet_tags"@,
        "singer_list"@,
        "song_climax"@,
        "song_ranking"@,
        "song_ranking_filter"@,
        "song_url"@,
        "song_url_new"@,
        "theme_music"@,
        "theme_music_detail"@,
        "theme_playlist"@,
        "theme_playlist_track"@,
        "top_album"@,
        "top_song"@,
        "top_tag_card_youth"@,
        "user_follow_message"@,
        "user_history"@,
        "user_playlist"@,
        "user_purchased_albums"@,
        "user_purchased_songs"@,
        "user_video_collect"@,
        "user_video_love"@,
        "user_vip_detail"@,
        "video_url"@,
        "youth_channel_all"@,
        "youth_channel_amway"@,
        "youth_channel_detail"@,
        "youth_channel_similar"@,
        "youth_channel_song"@,
        "youth_channel_song_detail"@,
        "youth_channel_sub"@,
        "youth_day_vip"@,
        "youth_day_vip_upgrade"@,
        "youth_dynamic"@,
        "youth_dynamic_recent"@,
        "youth_month_vip_record"@,
        "youth_listen_song"@,
        "youth_union_vip"@,
        "youth_user_song"@,
        "youth_vip"@,
        "yueku"@,
        "yueku_banner"@,
        "yueku_fm"@,
        "everyday_friend"@,
        "fm_class"@,
        "fm_image"@,
        "fm_recommend"@,
        "fm_songs"@,
        "personal_fm"@,
        "playlist_add"@,
        "playlist_track_all"@,
        "playlist_track_all_new"@,
        "playlist_tracks_add"@,
        "privilege_lite"@,
        "search"@,
        "search_default"@,
        "search_mixed"@,
        "top_card"@,
        "top_card_youth"@,
        "top_playlist"@,
        "video_detail"@,
        "video_privilege"@,
        "brush"@,
        "comment_floor"@,
        "images"@,
        "images_audio"@,
        "ip_zone"@,
        "top_ip"@
    ]
}

fn native_module_names() -> (r: Vec<&'static str>)
    ensures
        r@.map_values(|s: &str| s@) == native_modules(),
{
    let r = vec![
        "ai_recommend",
        "album",
        "album_detail",
        "album_shop",
        "album_songs",
        "artist_albums",
        "artist_audios",
        "artist_detail",
        "artist_follow_newsongs",
        "artist_honour",
        "artist_lists",
        "artist_videos",
        "captcha_sent",
        "audio",
        "audio_accompany_matching",
        "audio_ktv_total",
        "audio_related",
        "comment_album",
        "comment_count",
        "comment_music",
        "comment_music_classify",
        "comment_music_hotword",
        "comment_playlist",
        "everyday_history",
        "everyday_recommend",
        "everyday_style_recommend",
        "favorite_count",
        "get_model",
        "get_mode_info",
        "get_verify_info",
        "ip_dateil",
        "ip",
        "ip_playlist",
        "ip_zone_home",
        "kmr_audio_mv",
        "krm_audio",
        "longaudio_album_audios",
        "longaudio_album_detail",
        "longaudio_daily_recommend",
        "longaudio_rank_recommend",
        "longaudio_vip_recommend",
        "longaudio_week_recommend",
        "login_qr_create",
        "login_qr_key",
        "login_qr_check",
        "login_wx_check",
        "lastest_songs_listen",
        "pc_diantai",
        "playlist_effect",
        "playlist_detail",
        "playlist_similar",
        "playlist_tags",
        "playlist_tracks_del",
        "playhistory_upload",
        "recommend_songs",
        "rank_info",
        "rank_audio",
        "rank_list",
        "rank_top",
        "rank_vol",
        "scene_lists",
        "scene_audio_list",
        "scene_collection_list",
        "scene_music",
        "scene_lists_v2",
        "scene_video_list",
        "scene_module",
        "scene_module_info",
        "search_hot",
        "search_lyric",
        "search_complex",
        "search_suggest",
        "server_now",
        "sheet_collection",
        "sheet_explore",
        "sheet_rank",
        "sheet_song",
        "sheet_detail",
        "sheet_tags",
        "singer_list",
        "song_climax",
        "song_ranking",
        "song_ranking_filter",
        "song_url",
        "song_url_new",
        "theme_music",
        "theme_music_detail",
        "theme_playlist",
        "theme_playlist_track",
        "top_album",
        "top_song",
        "top_tag_card_youth",
        "user_follow_message",
        "user_history",
        "user_playlist",
        "user_purchased_albums",
        "user_purchased_songs",
        "user_video_collect",
        "user_video_love",
        "user_vip_detail",
        "video_url",
        "youth_channel_all",
        "youth_channel_amway",
        "youth_channel_detail",
        "youth_channel_similar",
        "youth_channel_song",
        "youth_channel_song_detail",
        "youth_channel_sub",
        "youth_day_vip",
        "youth_day_vip_upgrade",
        "youth_dynamic",
        "youth_dynamic_recent",
        "youth_month_vip_record",
        "youth_listen_song",
        "youth_union_vip",
        "youth_user_song",
        "youth_vip",
        "yueku",
        "yueku_banner",
        "yueku_fm",
        "everyday_friend",
        "fm_class",
        "fm_image",
        "fm_recommend",
        "fm_songs",
        "personal_fm",
        "playlist_add",
        "playlist_track_all",
        "playlist_track_all_new",
        "playlist_tracks_add",
        "privilege_lite",
        "search",
        "search_default",
        "search_mixed",
        "top_card",
        "top_card_youth",
        "top_playlist",
        "video_detail",
        "video_privilege",
        "brush",
        "comment_floor",
        "images",
        "images_audio",
        "ip_zone",
        "top_ip"
    ];
    assert(r@.map_values(|s: &str| s@) =~= native_modules());
    r
}

/// The modules this library answers itself.
pub fn modules() -> (r: Result<Vec<String>, String>)
    ensures
        r matches Ok(list) && list@.map_values(|s: String| s@) == native_modules(),
{
    let names = native_module_names();
    let mut out: Vec<String> = Vec::new();
    let mut i: usize = 0;
    while i < names.len()
        invariant
            names@.map_values(|s: &str| s@) == native_modules(),
            i <= names@.len(),
            out@.map_values(|s: String| s@) == native_modules().take(i as int),
        decreases names@.len() - i,
    {
        let ghost before = out@.map_values(|s: String| s@);
        let name = names[i].to_owned();
        out.push(name);
        proof {
            assert(names@.map_values(|s: &str| s@)[i as int] == names@[i as int]@);
            assert(out@.map_values(|s: String| s@) =~= before.push(names@[i as int]@));
            assert(native_modules().take(i + 1) =~= native_modules().take(i as int).push(
                native_modules()[i as int],
            ));
        }
        i = i + 1;
        assert(out@.map_values(|s: String| s@) =~= native_modules().take(i as int));
    }
    assert(native_modules().take(names@.len() as int) =~= native_modules());
    Ok(out)
}

/// Whether this library answers the module itself.
pub fn supports(module: &str) -> (r: bool)
    ensures
        r == native_modules().contains(module@),
{
    let names = native_module_names();
    let mut i: usize = 0;
    while i < names.len()
        invariant
            names@.map_values(|s: &str| s@) == native_modules(),
            i <= names@.len(),
            forall|k: int| 0 <= k < i ==> native_modules()[k] != module@,
        decreases names@.len() - i,
    {
        proof {
            assert(names@.map_values(|s: &str| s@)[i as int] == names@[i as int]@);
        }
        if str_eq(names[i], module) {
            return true;
        }
        i = i + 1;
    }
    false
}

/// The status a module response has when it names none.
pub fn default_status() -> (r: u16)
    ensures
        r == 500,
{
    500
}

} // verus!
