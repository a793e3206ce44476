//! Schema normalisation: the known upstream payload shapes mapped onto the profile
//! model. Each output field is resolved from an ordered list of candidate paths; the
//! first one present wins, and when none is the field is left unset.

use vstd::prelude::*;
use crate::json::{
    jat, jget, oarray, oarray_exec, oat, oat_exec, obool, obool_exec, oget,
    oget_exec, oi64, oi64_exec, ostr, ostr_exec, ou64, ou64_exec, deref_opt, get,
    JsonMember, JsonValue,
};
use crate::models::{
    opt_str_view, posts_view, reels_view, reel_of_post, video_reels, video_reels_upto,
    InstagramPost, InstagramReel, InstagramUser, InstagramUserStats, PostModel, ReelModel,
    UserModel,
};
use crate::text::{contains_seq, contains_str, decimal, decimal_string, chars_of};
use crate::json::{parse_json, parsed_json};

verus! {

/// Number of posts that one upstream page holds.
pub const PAGE_SIZE: u64 = 12;

/// Whether `ts` Unix seconds is a representable UTC instant.
pub uninterp spec fn utc_timestamp_ok(ts: i64) -> bool;

/// Relies on chrono's `Utc.timestamp_opt(ts, 0).single()`: whether the instant exists;
/// the answer depends on `ts` alone.
#[verifier::external_body]
fn utc_timestamp_valid(ts: i64) -> (r: bool)
    ensures
        r == utc_timestamp_ok(ts),
{
    chrono::TimeZone::timestamp_opt(&chrono::Utc, ts, 0).single().is_some()
}

pub open spec fn or_opt<T>(a: Option<T>, b: Option<T>) -> Option<T> {
    if a is Some { a } else { b }
}

pub open spec fn valid_ts(o: Option<i64>) -> Option<i64> {
    match o {
        Some(t) => if utc_timestamp_ok(t) { Some(t) } else { None },
        None => None,
    }
}

pub open spec fn sv(o: Option<String>) -> Option<Seq<char>> {
    opt_str_view(o)
}

pub open spec fn opt_post_view(o: Option<InstagramPost>) -> Option<PostModel> {
    match o {
        Some(p) => Some(p@),
        None => None,
    }
}

pub open spec fn opt_user_view(o: Option<InstagramUser>) -> Option<UserModel> {
    match o {
        Some(u) => Some(u@),
        None => None,
    }
}

pub open spec fn opt_posts_seq_view(o: Option<Vec<InstagramPost>>) -> Option<Seq<PostModel>> {
    match o {
        Some(v) => Some(posts_view(v@)),
        None => None,
    }
}

// ---------------------------------------------------------------------------
// Timeline (graph) shape: `{count, edges: [{node: {...}}]}`
// ---------------------------------------------------------------------------

/// A post from a timeline node; absent when its id, shortcode or display URL is.
pub open spec fn node_post(node: JsonValue) -> Option<PostModel> {
    let n = Some(node);
    let id = ostr(oget(n, "id"@));
    let sc = ostr(oget(n, "shortcode"@));
    let du = ostr(oget(n, "display_url"@));
    if id is Some && sc is Some && du is Some {
        let video = obool(oget(n, "is_video"@)) == Some(true);
        Some(PostModel {
            id: id->0@,
            shortcode: sc->0@,
            display_url: du->0@,
            thumbnail_url: sv(ostr(oget(n, "thumbnail_src"@))),
            caption: sv(ostr(oget(oget(oat(oget(oget(n, "edge_media_to_caption"@), "edges"@), 0), "node"@), "text"@))),
            likes_count: ou64(oget(oget(n, "edge_liked_by"@), "count"@)),
            comments_count: ou64(oget(oget(n, "edge_media_to_comment"@), "count"@)),
            timestamp: valid_ts(oi64(oget(n, "taken_at_timestamp"@))),
            is_video: video,
            video_url: if video { sv(ostr(oget(n, "video_url"@))) } else { None },
            video_view_count: if video { ou64(oget(n, "video_view_count"@)) } else { None },
        })
    } else {
        None
    }
}

pub open spec fn edge_post(e: JsonValue) -> Option<PostModel> {
    match jget(e, "node"@) {
        Some(n) => node_post(n),
        None => None,
    }
}

/// Posts of a timeline: every edge must yield a post, else there are none. An empty
/// edge list with a positive count yields an explicit empty sequence.
pub open spec fn timeline_posts(t: JsonValue) -> Option<Seq<PostModel>> {
    match oarray(jget(t, "edges"@)) {
        None => None,
        Some(edges) => if edges.len() == 0 {
            let c = ou64(jget(t, "count"@));
            if c is Some && c->0 > 0 { Some(Seq::empty()) } else { None }
        } else if forall|i: int| 0 <= i < edges.len() ==> (#[trigger] edge_post(edges[i])) is Some {
            Some(Seq::new(edges.len(), |i: int| edge_post(edges[i])->0))
        } else {
            None
        },
    }
}

// ---------------------------------------------------------------------------
// Item (feed) shape: flat media items with many alternative field names
// ---------------------------------------------------------------------------

/// A caption that is either a string or an object with a `text` string.
pub open spec fn str_or_text(o: Option<JsonValue>) -> Option<String> {
    match o {
        Some(JsonValue::Str(s)) => Some(s),
        Some(v) => ostr(jget(v, "text"@)),
        None => None,
    }
}

pub open spec fn item_id(it: Option<JsonValue>) -> Option<Seq<char>> {
    let s = or_opt(ostr(oget(it, "id"@)), or_opt(ostr(oget(it, "pk"@)), or_opt(ostr(oget(it, "media_id"@)), ostr(oget(it, "carousel_media_id"@)))));
    let n = or_opt(ou64(oget(it, "id"@)), ou64(oget(it, "pk"@)));
    if s is Some { Some(s->0@) } else if n is Some { Some(decimal(n->0 as nat)) } else { None }
}

pub open spec fn first_candidate_url(o: Option<JsonValue>) -> Option<String> {
    ostr(oget(oat(oget(oget(o, "image_versions2"@), "candidates"@), 0), "url"@))
}

pub open spec fn item_is_video(it: Option<JsonValue>) -> bool {
    ||| obool(oget(it, "is_video"@)) == Some(true)
    ||| ou64(oget(it, "media_type"@)) == Some(2u64)
    ||| ostr(oget(it, "product_type"@)) matches Some(s) && (s@ == "clips"@ || s@ == "igtv"@)
    ||| ou64(oget(oget(it, "media"@), "media_type"@)) == Some(2u64)
}

pub open spec fn item_display_url(it: Option<JsonValue>) -> Seq<char> {
    let media = oget(it, "media"@);
    let c = or_opt(ostr(oget(it, "display_url"@)), or_opt(first_candidate_url(it), or_opt(
        first_candidate_url(oat(oget(it, "carousel_media"@), 0)), or_opt(first_candidate_url(media),
        ostr(oget(media, "thumbnail_url"@))))));
    if c is Some { c->0@ } else { "https://example.com/placeholder.jpg"@ }
}

/// A post from a feed item; absent when neither an id nor a shortcode can be found.
pub open spec fn item_post(item: JsonValue) -> Option<PostModel> {
    let it = Some(item);
    let media = oget(it, "media"@);
    let id = item_id(it);
    let sc = or_opt(ostr(oget(it, "code"@)), or_opt(ostr(oget(it, "shortcode"@)), ostr(oget(media, "code"@))));
    if id is Some && sc is Some {
        let video = item_is_video(it);
        Some(PostModel {
            id: id->0,
            shortcode: sc->0@,
            display_url: item_display_url(it),
            thumbnail_url: sv(or_opt(ostr(oget(it, "thumbnail_src"@)), or_opt(ostr(oget(oat(oget(it, "thumbnail_resources"@), 0), "src"@)), or_opt(ostr(oget(it, "thumbnail_url"@)), ostr(oget(media, "thumbnail_url"@)))))),
            caption: sv(or_opt(str_or_text(oget(it, "caption"@)), str_or_text(oget(media, "caption"@)))),
            likes_count: or_opt(ou64(oget(it, "like_count"@)), or_opt(ou64(oget(oget(it, "likes"@), "count"@)), ou64(oget(media, "like_count"@)))),
            comments_count: or_opt(ou64(oget(it, "comment_count"@)), or_opt(ou64(oget(oget(it, "comments"@), "count"@)), or_opt(ou64(oget(it, "comments_count"@)), ou64(oget(media, "comment_count"@))))),
            timestamp: valid_ts(or_opt(oi64(oget(it, "taken_at"@)), or_opt(oi64(oget(it, "taken_at_timestamp"@)), or_opt(oi64(oget(it, "created_time"@)), oi64(oget(media, "taken_at"@)))))),
            is_video: video,
            video_url: if video { sv(or_opt(ostr(oget(it, "video_url"@)), ostr(oget(media, "video_url"@)))) } else { None },
            video_view_count: if video { or_opt(ou64(oget(it, "view_count"@)), or_opt(ou64(oget(it, "play_count"@)), or_opt(ou64(oget(it, "video_view_count"@)), ou64(oget(media, "view_count"@))))) } else { None },
        })
    } else {
        None
    }
}

/// Posts of the first `n` items, skipping items that yield none.
pub open spec fn item_posts_upto(items: Seq<JsonValue>, n: int) -> Seq<PostModel>
    decreases n,
{
    if n <= 0 || n > items.len() {
        Seq::empty()
    } else {
        let prev = item_posts_upto(items, n - 1);
        match item_post(items[n - 1]) {
            Some(p) => prev.push(p),
            None => prev,
        }
    }
}

/// Posts of a list of feed items; absent when no item yields one.
pub open spec fn items_posts(items: Seq<JsonValue>) -> Option<Seq<PostModel>> {
    let ps = item_posts_upto(items, items.len() as int);
    if ps.len() == 0 { None } else { Some(ps) }
}

pub open spec fn member_values(ms: Seq<JsonMember>) -> Seq<JsonValue> {
    ms.map_values(|m: JsonMember| m.value)
}

pub fn or_else_opt<T>(a: Option<T>, b: Option<T>) -> (r: Option<T>)
    ensures
        r == or_opt(a, b),
{
    match a {
        Some(x) => Some(x),
        None => b,
    }
}

pub fn or_ref<'a>(a: Option<&'a JsonValue>, b: Option<&'a JsonValue>) -> (r: Option<&'a JsonValue>)
    ensures
        deref_opt(r) == or_opt(deref_opt(a), deref_opt(b)),
{
    match a {
        Some(x) => Some(x),
        None => b,
    }
}

fn checked_ts(o: Option<i64>) -> (r: Option<i64>)
    ensures
        r == valid_ts(o),
{
    match o {
        Some(t) => if utc_timestamp_valid(t) { Some(t) } else { None },
        None => None,
    }
}

fn is_true(o: Option<bool>) -> (r: bool)
    ensures
        r == (o == Some(true)),
{
    match o {
        Some(b) => b,
        None => false,
    }
}

fn is_u64(o: Option<u64>, k: u64) -> (r: bool)
    ensures
        r == (o == Some(k)),
{
    match o {
        Some(x) => x == k,
        None => false,
    }
}

fn str_or_text_exec(o: Option<&JsonValue>) -> (r: Option<String>)
    ensures
        r == str_or_text(deref_opt(o)),
{
    match o {
        Some(JsonValue::Str(s)) => Some(s.clone()),
        Some(v) => ostr_exec(get(v, "text")),
        None => None,
    }
}

/// A post from a timeline node (see `node_post`).
pub fn node_to_post(node: &JsonValue) -> (r: Option<InstagramPost>)
    ensures
        opt_post_view(r) == node_post(*node),
{
    let n = Some(node);
    let id = ostr_exec(oget_exec(n, "id"));
    let sc = ostr_exec(oget_exec(n, "shortcode"));
    let du = ostr_exec(oget_exec(n, "display_url"));
    match (id, sc, du) {
        (Some(id), Some(sc), Some(du)) => {
            let video = is_true(obool_exec(oget_exec(n, "is_video")));
            let caption = ostr_exec(oget_exec(oget_exec(oat_exec(oget_exec(oget_exec(n, "edge_media_to_caption"), "edges"), 0), "node"), "text"));
            let video_url = if video { ostr_exec(oget_exec(n, "video_url")) } else { None };
            let views = if video { ou64_exec(oget_exec(n, "video_view_count")) } else { None };
            Some(InstagramPost {
                id,
                shortcode: sc,
                display_url: du,
                thumbnail_url: ostr_exec(oget_exec(n, "thumbnail_src")),
                caption,
                likes_count: ou64_exec(oget_exec(oget_exec(n, "edge_liked_by"), "count")),
                comments_count: ou64_exec(oget_exec(oget_exec(n, "edge_media_to_comment"), "count")),
                timestamp: checked_ts(oi64_exec(oget_exec(n, "taken_at_timestamp"))),
                is_video: video,
                video_url,
                video_view_count: views,
            })
        },
        _ => None,
    }
}

fn edge_to_post(e: &JsonValue) -> (r: Option<InstagramPost>)
    ensures
        opt_post_view(r) == edge_post(*e),
{
    match get(e, "node") {
        Some(n) => node_to_post(n),
        None => None,
    }
}

/// Posts of a timeline object (see `timeline_posts`).
pub fn extract_posts_from_json(timeline: &JsonValue) -> (r: Option<Vec<InstagramPost>>)
    ensures
        opt_posts_seq_view(r) == timeline_posts(*timeline),
{
    let edges = match oarray_exec(get(timeline, "edges")) {
        Some(e) => e,
        None => {
            return None;
        },
    };
    if edges.len() == 0 {
        let c = ou64_exec(get(timeline, "count"));
        match c {
            Some(c) => if c > 0 {
                return Some(Vec::new());
            },
            None => {},
        }
        return None;
    }
    let mut posts: Vec<InstagramPost> = Vec::new();
    let mut i: usize = 0;
    while i < edges.len()
        invariant
            oarray(jget(*timeline, "edges"@)) == Some(edges@),
            i <= edges@.len(),
            forall|j: int| 0 <= j < i ==> (#[trigger] edge_post(edges@[j])) is Some,
            posts_view(posts@) == Seq::new(i as nat, |j: int| edge_post(edges@[j])->0),
        decreases edges@.len() - i,
    {
        match edge_to_post(&edges[i]) {
            Some(p) => {
                let ghost before = posts@;
                posts.push(p);
                assert(posts_view(posts@) =~= Seq::new((i + 1) as nat, |j: int| edge_post(edges@[j])->0)) by {
                    assert(posts_view(posts@) =~= posts_view(before).push(p@));
                }
            },
            None => {
                assert(edge_post(edges@[i as int]) is None);
                return None;
            },
        }
        i = i + 1;
    }
    Some(posts)
}

fn first_candidate_url_exec(o: Option<&JsonValue>) -> (r: Option<String>)
    ensures
        r == first_candidate_url(deref_opt(o)),
{
    ostr_exec(oget_exec(oat_exec(oget_exec(oget_exec(o, "image_versions2"), "candidates"), 0), "url"))
}

fn item_id_exec(it: Option<&JsonValue>) -> (r: Option<String>)
    ensures
        opt_str_view(r) == item_id(deref_opt(it)),
{
    let s = or_else_opt(ostr_exec(oget_exec(it, "id")), or_else_opt(ostr_exec(oget_exec(it, "pk")), or_else_opt(ostr_exec(oget_exec(it, "media_id")), ostr_exec(oget_exec(it, "carousel_media_id")))));
    match s {
        Some(s) => Some(s),
        None => {
            let n = or_else_opt(ou64_exec(oget_exec(it, "id")), ou64_exec(oget_exec(it, "pk")));
            match n {
                Some(n) => Some(decimal_string(n)),
                None => None,
            }
        },
    }
}

fn item_is_video_exec(it: Option<&JsonValue>) -> (r: bool)
    ensures
        r == item_is_video(deref_opt(it)),
{
    if is_true(obool_exec(oget_exec(it, "is_video"))) {
        return true;
    }
    if is_u64(ou64_exec(oget_exec(it, "media_type")), 2) {
        return true;
    }
    match ostr_exec(oget_exec(it, "product_type")) {
        Some(s) => {
            let cs = chars_of(s.as_str());
            let clips = chars_of("clips");
            let igtv = chars_of("igtv");
            if crate::text::same_chars(&cs, &clips) || crate::text::same_chars(&cs, &igtv) {
                return true;
            }
        },
        None => {},
    }
    is_u64(ou64_exec(oget_exec(oget_exec(it, "media"), "media_type")), 2)
}

fn item_display_url_exec(it: Option<&JsonValue>) -> (r: String)
    ensures
        r@ == item_display_url(deref_opt(it)),
{
    let media = oget_exec(it, "media");
    let c = or_else_opt(ostr_exec(oget_exec(it, "display_url")), or_else_opt(first_candidate_url_exec(it), or_else_opt(
        first_candidate_url_exec(oat_exec(oget_exec(it, "carousel_media"), 0)), or_else_opt(first_candidate_url_exec(media),
        ostr_exec(oget_exec(media, "thumbnail_url"))))));
    match c {
        Some(s) => s,
        None => String::from_str("https://example.com/placeholder.jpg"),
    }
}

/// A post from a feed item (see `item_post`).
pub fn item_to_post(item: &JsonValue) -> (r: Option<InstagramPost>)
    ensures
        opt_post_view(r) == item_post(*item),
{
    let it = Some(item);
    let media = oget_exec(it, "media");
    let id = match item_id_exec(it) {
        Some(id) => id,
        None => {
            return None;
        },
    };
    let sc = match or_else_opt(ostr_exec(oget_exec(it, "code")), or_else_opt(ostr_exec(oget_exec(it, "shortcode")), ostr_exec(oget_exec(media, "code")))) {
        Some(sc) => sc,
        None => {
            return None;
        },
    };
    let video = item_is_video_exec(it);
    let display_url = item_display_url_exec(it);
    let thumbnail_url = or_else_opt(ostr_exec(oget_exec(it, "thumbnail_src")), or_else_opt(ostr_exec(oget_exec(oat_exec(oget_exec(it, "thumbnail_resources"), 0), "src")), or_else_opt(ostr_exec(oget_exec(it, "thumbnail_url")), ostr_exec(oget_exec(media, "thumbnail_url")))));
    let caption = or_else_opt(str_or_text_exec(oget_exec(it, "caption")), str_or_text_exec(oget_exec(media, "caption")));
    let likes = or_else_opt(ou64_exec(oget_exec(it, "like_count")), or_else_opt(ou64_exec(oget_exec(oget_exec(it, "likes"), "count")), ou64_exec(oget_exec(media, "like_count"))));
    let comments = or_else_opt(ou64_exec(oget_exec(it, "comment_count")), or_else_opt(ou64_exec(oget_exec(oget_exec(it, "comments"), "count")), or_else_opt(ou64_exec(oget_exec(it, "comments_count")), ou64_exec(oget_exec(media, "comment_count")))));
    let ts = checked_ts(or_else_opt(oi64_exec(oget_exec(it, "taken_at")), or_else_opt(oi64_exec(oget_exec(it, "taken_at_timestamp")), or_else_opt(oi64_exec(oget_exec(it, "created_time")), oi64_exec(oget_exec(media, "taken_at"))))));
    let video_url = if video { or_else_opt(ostr_exec(oget_exec(it, "video_url")), ostr_exec(oget_exec(media, "video_url"))) } else { None };
    let views = if video { or_else_opt(ou64_exec(oget_exec(it, "view_count")), or_else_opt(ou64_exec(oget_exec(it, "play_count")), or_else_opt(ou64_exec(oget_exec(it, "video_view_count")), ou64_exec(oget_exec(media, "view_count"))))) } else { None };
    Some(InstagramPost {
        id,
        shortcode: sc,
        display_url,
        thumbnail_url,
        caption,
        likes_count: likes,
        comments_count: comments,
        timestamp: ts,
        is_video: video,
        video_url,
        video_view_count: views,
    })
}

/// Posts of a list of feed items (see `items_posts`).
pub fn extract_posts_from_items(items: &Vec<JsonValue>) -> (r: Option<Vec<InstagramPost>>)
    ensures
        opt_posts_seq_view(r) == items_posts(items@),
{
    let mut posts: Vec<InstagramPost> = Vec::new();
    let mut i: usize = 0;
    while i < items.len()
        invariant
            i <= items@.len(),
            posts_view(posts@) == item_posts_upto(items@, i as int),
        decreases items@.len() - i,
    {
        let ghost before = posts@;
        match item_to_post(&items[i]) {
            Some(p) => {
                posts.push(p);
                assert(posts_view(posts@) =~= posts_view(before).push(p@));
            },
            None => {},
        }
        i = i + 1;
    }
    if posts.len() == 0 {
        None
    } else {
        Some(posts)
    }
}

/// Posts of the values of an object's members, taken as feed items.
pub fn extract_posts_from_member_values(ms: &Vec<JsonMember>) -> (r: Option<Vec<InstagramPost>>)
    ensures
        opt_posts_seq_view(r) == items_posts(member_values(ms@)),
{
    let ghost items = member_values(ms@);
    let mut posts: Vec<InstagramPost> = Vec::new();
    let mut i: usize = 0;
    while i < ms.len()
        invariant
            items == member_values(ms@),
            i <= ms@.len(),
            posts_view(posts@) == item_posts_upto(items, i as int),
        decreases ms@.len() - i,
    {
        let ghost before = posts@;
        assert(items[i as int] == ms@[i as int].value);
        match item_to_post(&ms[i].value) {
            Some(p) => {
                posts.push(p);
                assert(posts_view(posts@) =~= posts_view(before).push(p@));
            },
            None => {},
        }
        i = i + 1;
    }
    if posts.len() == 0 {
        None
    } else {
        Some(posts)
    }
}

// ---------------------------------------------------------------------------
// Profiles
// ---------------------------------------------------------------------------

pub open spec fn opt_video_reels(posts: Option<Seq<PostModel>>) -> Option<Seq<ReelModel>> {
    match posts {
        Some(p) => Some(video_reels(p)),
        None => None,
    }
}

/// The profile record built from a user object, once its statistics and content are known.
pub open spec fn profile_model(
    u: Option<JsonValue>,
    username: Seq<char>,
    now: i64,
    is_private: bool,
    stats: InstagramUserStats,
    posts: Option<Seq<PostModel>>,
    reels: Option<Seq<ReelModel>>,
    posts_limited: bool,
) -> UserModel {
    UserModel {
        username,
        full_name: sv(ostr(oget(u, "full_name"@))),
        biography: sv(ostr(oget(u, "biography"@))),
        profile_pic_url: sv(ostr(or_opt(oget(u, "profile_pic_url_hd"@), oget(u, "profile_pic_url"@)))),
        is_private,
        is_verified: obool(oget(u, "is_verified"@)) == Some(true),
        external_url: sv(ostr(oget(u, "external_url"@))),
        stats,
        posts,
        reels,
        scraped_at: now,
        posts_limited,
    }
}

pub open spec fn count_above_page(c: Option<u64>) -> bool {
    c is Some && c->0 > PAGE_SIZE
}

pub open spec fn count_positive(c: Option<u64>) -> bool {
    c is Some && c->0 > 0
}

/// The `graphql.user` shape. No posts while the count is positive gives an explicit empty
/// list marked as limited. Absent when the user object or its privacy flag is; each
/// counter whose object or `count` is missing is left unset.
pub open spec fn graphql_user(data: JsonValue, username: Seq<char>, now: i64) -> Option<UserModel> {
    let u = oget(oget(Some(data), "graphql"@), "user"@);
    let tl = oget(u, "edge_owner_to_timeline_media"@);
    if u is None || obool(oget(u, "is_private"@)) is None {
        None
    } else {
        let is_private = obool(oget(u, "is_private"@))->0;
        let stats = InstagramUserStats {
            posts_count: ou64(oget(tl, "count"@)),
            followers_count: ou64(oget(oget(u, "edge_followed_by"@), "count"@)),
            following_count: ou64(oget(oget(u, "edge_follow"@), "count"@)),
        };
        if is_private {
            Some(profile_model(u, username, now, true, stats, None, None, false))
        } else {
            let found = match tl {
                Some(t) => timeline_posts(t),
                None => None,
            };
            let gap = (found is None || found == Some(Seq::<PostModel>::empty())) && count_positive(stats.posts_count);
            let posts = if gap { Some(Seq::empty()) } else { found };
            let limited = count_above_page(stats.posts_count) || gap;
            Some(profile_model(u, username, now, false, stats, posts, opt_video_reels(posts), limited))
        }
    }
}

/// The first member at or after `i` whose key mentions media, posts or a timeline and
/// whose value is a non-empty array of items yielding posts.
pub open spec fn keyed_posts_from(ms: Seq<JsonMember>, i: int) -> Option<Seq<PostModel>>
    decreases ms.len() - i,
{
    if i < 0 || i >= ms.len() {
        None
    } else {
        let k = ms[i].key@;
        let arr = oarray(Some(ms[i].value));
        if (contains_seq(k, "media"@) || contains_seq(k, "post"@) || contains_seq(k, "timeline"@))
            && arr is Some && arr->0.len() > 0 && items_posts(arr->0) is Some {
            items_posts(arr->0)
        } else {
            keyed_posts_from(ms, i + 1)
        }
    }
}

/// Posts found at the known locations of the API user shape.
pub open spec fn api_listed_posts(d: Option<JsonValue>) -> Option<Seq<PostModel>> {
    let timeline = or_opt(oget(d, "edge_owner_to_timeline_media"@), or_opt(oget(d, "edge_felix_video_timeline"@), oget(d, "edge_felix_combined_timeline_media"@)));
    let feed = oget(d, "feed"@);
    if timeline is Some {
        timeline_posts(timeline->0)
    } else if oarray(oget(d, "items"@)) is Some {
        items_posts(oarray(oget(d, "items"@))->0)
    } else if feed is Some {
        if oarray(oget(feed, "items"@)) is Some {
            items_posts(oarray(oget(feed, "items"@))->0)
        } else {
            match oget(feed, "media"@) {
                Some(JsonValue::Object(ms)) => if ms@.len() > 0 { items_posts(member_values(ms@)) } else { None },
                _ => None,
            }
        }
    } else if oget(d, "recent_posts"@) is Some {
        let ri = oarray(oget(oget(d, "recent_posts"@), "items"@));
        if ri is Some { items_posts(ri->0) } else { None }
    } else {
        None
    }
}

/// Reels listed directly by the API user shape, keeping the video posts.
pub open spec fn api_direct_reels(d: Option<JsonValue>) -> Option<Seq<ReelModel>> {
    let src = or_opt(oget(d, "edge_felix_video_timeline"@), or_opt(oget(d, "edge_felix_combined_timeline_media"@), oget(d, "reels_media"@)));
    match src {
        Some(r) => opt_video_reels(timeline_posts(r)),
        None => None,
    }
}

/// The API user shape (mobile endpoint and embedded page data). No posts while the count
/// is positive gives an explicit empty list marked as limited. Absent only when no
/// posts are found at the known locations and the user value is not an object.
pub open spec fn api_user(data: JsonValue, username: Seq<char>, now: i64) -> Option<UserModel> {
    let d = Some(data);
    let is_private = obool(oget(d, "is_private"@)) == Some(true);
    let stats = InstagramUserStats {
        posts_count: or_opt(ou64(oget(d, "media_count"@)), ou64(oget(oget(d, "edge_owner_to_timeline_media"@), "count"@))),
        followers_count: or_opt(ou64(oget(d, "follower_count"@)), ou64(oget(oget(d, "edge_followed_by"@), "count"@))),
        following_count: or_opt(ou64(oget(d, "following_count"@)), ou64(oget(oget(d, "edge_follow"@), "count"@))),
    };
    if is_private {
        Some(profile_model(d, username, now, true, stats, None, None, false))
    } else {
        let listed = api_listed_posts(d);
        if listed is None && !(data is Object) {
            None
        } else {
            let found = if listed is Some { listed } else { keyed_posts_from(data->Object_0@, 0) };
            let gap = (found is None || found == Some(Seq::<PostModel>::empty())) && count_positive(stats.posts_count);
            let posts = if gap { Some(Seq::empty()) } else { found };
            let limited = count_above_page(stats.posts_count) || gap;
            let direct = api_direct_reels(d);
            let reels = if direct is Some { direct } else { opt_video_reels(posts) };
            Some(profile_model(d, username, now, false, stats, posts, reels, limited))
        }
    }
}

/// The reels that the video posts stand for, in order.
pub fn derive_reels(posts: &Vec<InstagramPost>) -> (r: Vec<InstagramReel>)
    ensures
        reels_view(r@) == video_reels(posts_view(posts@)),
{
    let ghost pv = posts_view(posts@);
    let mut out: Vec<InstagramReel> = Vec::new();
    let mut i: usize = 0;
    while i < posts.len()
        invariant
            pv == posts_view(posts@),
            i <= posts@.len(),
            reels_view(out@) == video_reels_upto(pv, i as int),
        decreases posts@.len() - i,
    {
        let p = &posts[i];
        assert(pv[i as int] == p@);
        if p.is_video {
            let ghost before = out@;
            out.push(InstagramReel {
                id: p.id.clone(),
                shortcode: p.shortcode.clone(),
                display_url: p.display_url.clone(),
                video_url: crate::models::copy_opt_string(&p.video_url),
                caption: crate::models::copy_opt_string(&p.caption),
                views_count: p.video_view_count,
                likes_count: p.likes_count,
                comments_count: p.comments_count,
                timestamp: p.timestamp,
            });
            assert(reels_view(out@) =~= reels_view(before).push(reel_of_post(pv[i as int])));
        }
        i = i + 1;
    }
    assert(pv.len() == posts@.len());
    out
}

fn opt_derive_reels(posts: &Option<Vec<InstagramPost>>) -> (r: Option<Vec<InstagramReel>>)
    ensures
        crate::models::opt_reels_view(r) == opt_video_reels(opt_posts_seq_view(*posts)),
{
    match posts {
        Some(p) => Some(derive_reels(p)),
        None => None,
    }
}

fn build_profile(
    u: &JsonValue,
    username: &str,
    now: i64,
    is_private: bool,
    stats: InstagramUserStats,
    posts: Option<Vec<InstagramPost>>,
    reels: Option<Vec<InstagramReel>>,
    posts_limited: bool,
) -> (r: InstagramUser)
    ensures
        r@ == profile_model(Some(*u), username@, now, is_private, stats, opt_posts_seq_view(posts),
            crate::models::opt_reels_view(reels), posts_limited),
{
    let n = Some(u);
    InstagramUser {
        username: String::from_str(username),
        full_name: ostr_exec(oget_exec(n, "full_name")),
        biography: ostr_exec(oget_exec(n, "biography")),
        profile_pic_url: ostr_exec(or_ref(oget_exec(n, "profile_pic_url_hd"), oget_exec(n, "profile_pic_url"))),
        is_private,
        is_verified: is_true(obool_exec(oget_exec(n, "is_verified"))),
        external_url: ostr_exec(oget_exec(n, "external_url")),
        stats,
        posts,
        reels,
        scraped_at: now,
        posts_limited,
    }
}

fn above_page(c: Option<u64>) -> (r: bool)
    ensures
        r == count_above_page(c),
{
    match c {
        Some(c) => c > PAGE_SIZE,
        None => false,
    }
}

fn positive(c: Option<u64>) -> (r: bool)
    ensures
        r == count_positive(c),
{
    match c {
        Some(c) => c > 0,
        None => false,
    }
}

/// The profile in the `graphql.user` shape (see `graphql_user`).
pub fn extract_user_data_from_json(data: &JsonValue, username: &str, now: i64) -> (r: Option<InstagramUser>)
    ensures
        opt_user_view(r) == graphql_user(*data, username@, now),
{
    let u = match oget_exec(get(data, "graphql"), "user") {
        Some(u) => u,
        None => {
            return None;
        },
    };
    let n = Some(u);
    let is_private = match obool_exec(oget_exec(n, "is_private")) {
        Some(b) => b,
        None => {
            return None;
        },
    };
    let tl = oget_exec(n, "edge_owner_to_timeline_media");
    let stats = InstagramUserStats {
        posts_count: ou64_exec(oget_exec(tl, "count")),
        followers_count: ou64_exec(oget_exec(oget_exec(n, "edge_followed_by"), "count")),
        following_count: ou64_exec(oget_exec(oget_exec(n, "edge_follow"), "count")),
    };
    if is_private {
        return Some(build_profile(u, username, now, true, stats, None, None, false));
    }
    let found = match tl {
        Some(t) => extract_posts_from_json(t),
        None => None,
    };
    let no_posts = match &found {
        Some(p) => p.len() == 0,
        None => true,
    };
    proof {
        if found is Some && found->0@.len() == 0 {
            assert(posts_view(found->0@) =~= Seq::<PostModel>::empty());
        }
        if found is Some && posts_view(found->0@) == Seq::<PostModel>::empty() {
            assert(posts_view(found->0@).len() == 0);
        }
    }
    let gap = no_posts && positive(stats.posts_count);
    let posts = if gap { Some(Vec::new()) } else { found };
    proof {
        if gap {
            assert(posts_view(posts->0@) =~= Seq::<PostModel>::empty());
        }
    }
    let limited = above_page(stats.posts_count) || gap;
    let reels = opt_derive_reels(&posts);
    Some(build_profile(u, username, now, false, stats, posts, reels, limited))
}

fn listed_posts(d: &JsonValue) -> (r: Option<Vec<InstagramPost>>)
    ensures
        opt_posts_seq_view(r) == api_listed_posts(Some(*d)),
{
    let n = Some(d);
    let timeline = or_ref(get(d, "edge_owner_to_timeline_media"), or_ref(get(d, "edge_felix_video_timeline"), get(d, "edge_felix_combined_timeline_media")));
    if let Some(t) = timeline {
        return extract_posts_from_json(t);
    }
    if let Some(items) = oarray_exec(get(d, "items")) {
        return extract_posts_from_items(items);
    }
    let feed = get(d, "feed");
    if feed.is_some() {
        if let Some(items) = oarray_exec(oget_exec(feed, "items")) {
            return extract_posts_from_items(items);
        }
        return match oget_exec(feed, "media") {
            Some(JsonValue::Object(ms)) => if ms.len() > 0 { extract_posts_from_member_values(ms) } else { None },
            _ => None,
        };
    }
    let recent = get(d, "recent_posts");
    if recent.is_some() {
        return match oarray_exec(oget_exec(recent, "items")) {
            Some(items) => extract_posts_from_items(items),
            None => None,
        };
    }
    None
}

fn keyed_posts(ms: &Vec<JsonMember>) -> (r: Option<Vec<InstagramPost>>)
    ensures
        opt_posts_seq_view(r) == keyed_posts_from(ms@, 0),
{
    let mut i: usize = 0;
    while i < ms.len()
        invariant
            i <= ms@.len(),
            keyed_posts_from(ms@, 0) == keyed_posts_from(ms@, i as int),
        decreases ms@.len() - i,
    {
        let k = chars_of(ms[i].key.as_str());
        if contains_str(&k, "media") || contains_str(&k, "post") || contains_str(&k, "timeline") {
            if let JsonValue::Array(items) = &ms[i].value {
                if items.len() > 0 {
                    let extracted = extract_posts_from_items(items);
                    if extracted.is_some() {
                        return extracted;
                    }
                }
            }
        }
        i = i + 1;
    }
    None
}

fn direct_reels(d: &JsonValue) -> (r: Option<Vec<InstagramReel>>)
    ensures
        crate::models::opt_reels_view(r) == api_direct_reels(Some(*d)),
{
    let src = or_ref(get(d, "edge_felix_video_timeline"), or_ref(get(d, "edge_felix_combined_timeline_media"), get(d, "reels_media")));
    match src {
        Some(t) => {
            let posts = extract_posts_from_json(t);
            opt_derive_reels(&posts)
        },
        None => None,
    }
}

/// The profile in the API user shape (see `api_user`).
pub fn extract_user_data_from_api_response(data: &JsonValue, username: &str, now: i64) -> (r: Option<InstagramUser>)
    ensures
        opt_user_view(r) == api_user(*data, username@, now),
{
    let n = Some(data);
    let is_private = is_true(obool_exec(get(data, "is_private")));
    let stats = InstagramUserStats {
        posts_count: or_else_opt(ou64_exec(get(data, "media_count")), ou64_exec(oget_exec(get(data, "edge_owner_to_timeline_media"), "count"))),
        followers_count: or_else_opt(ou64_exec(get(data, "follower_count")), ou64_exec(oget_exec(get(data, "edge_followed_by"), "count"))),
        following_count: or_else_opt(ou64_exec(get(data, "following_count")), ou64_exec(oget_exec(get(data, "edge_follow"), "count"))),
    };
    if is_private {
        return Some(build_profile(data, username, now, true, stats, None, None, false));
    }
    let listed = listed_posts(data);
    let found = match listed {
        Some(p) => Some(p),
        None => match data {
            JsonValue::Object(ms) => keyed_posts(ms),
            _ => {
                return None;
            },
        },
    };
    let no_posts = match &found {
        Some(p) => p.len() == 0,
        None => true,
    };
    proof {
        if found is Some && found->0@.len() == 0 {
            assert(posts_view(found->0@) =~= Seq::<PostModel>::empty());
        }
        if found is Some && posts_view(found->0@) == Seq::<PostModel>::empty() {
            assert(posts_view(found->0@).len() == 0);
        }
    }
    let gap = no_posts && positive(stats.posts_count);
    let posts = if gap { Some(Vec::new()) } else { found };
    proof {
        if gap {
            assert(posts_view(posts->0@) =~= Seq::<PostModel>::empty());
        }
    }
    let limited = above_page(stats.posts_count) || gap;
    let direct = direct_reels(data);
    let reels = match direct {
        Some(r) => Some(r),
        None => opt_derive_reels(&posts),
    };
    Some(build_profile(data, username, now, false, stats, posts, reels, limited))
}

// ---------------------------------------------------------------------------
// Profile data embedded in an HTML page
// ---------------------------------------------------------------------------

/// Pattern of the inline script that hands profile data to the page.
pub const ADDITIONAL_DATA_PATTERN: &'static str = r#"window\.__additionalDataLoaded\s*\(\s*['"].*?['"]\s*,\s*(.+?)\);"#;

/// Selector of the page's embedded JSON scripts.
pub const JSON_SCRIPT_SELECTOR: &'static str = "script[type='application/json']";

/// Group 1 of the leftmost match of `pattern` in `text`.
pub uninterp spec fn regex_group_one(pattern: Seq<char>, text: Seq<char>) -> Option<Seq<char>>;

/// For each element of the HTML document that matches the CSS selector, in document
/// order, its first text node if it has one.
pub uninterp spec fn selected_first_texts(html: Seq<char>, selector: Seq<char>) -> Seq<Option<Seq<char>>>;

/// Relies on regex: `Regex::new(pattern)` then `captures(text)` and group 1 of that
/// match; `None` when the pattern does not compile, nothing matches or group 1 is unset.
/// The outcome depends on the two texts alone.
#[verifier::external_body]
fn first_capture(pattern: &str, text: &str) -> (r: Option<String>)
    ensures
        opt_str_view(r) == regex_group_one(pattern@, text@),
{
    let re = regex::Regex::new(pattern).ok()?;
    re.captures(text).and_then(|c| c.get(1)).map(|m| m.as_str().to_string())
}

/// Relies on scraper: `Html::parse_document(html)`, `Selector::parse(selector)` and
/// `select`, taking `text().next()` of each selected element. Empty when the selector
/// does not parse. The outcome depends on the two texts alone.
#[verifier::external_body]
fn selected_texts(html: &str, selector: &str) -> (r: Vec<Option<String>>)
    ensures
        r@.map_values(|t: Option<String>| opt_str_view(t)) == selected_first_texts(html@, selector@),
{
    let doc = scraper::Html::parse_document(html);
    match scraper::Selector::parse(selector) {
        Ok(sel) => doc.select(&sel).map(|e| e.text().next().map(|t| t.to_string())).collect(),
        Err(_) => Vec::new(),
    }
}

/// In a `require` list, the `user` of element 3 of the first entry named
/// `ProfilePageContainer`.
pub open spec fn container_user_from(items: Seq<JsonValue>, i: int) -> Option<JsonValue>
    decreases items.len() - i,
{
    if i < 0 || i >= items.len() {
        None
    } else if sv(ostr(jat(items[i], 0))) == Some("ProfilePageContainer"@) {
        oget(jat(items[i], 3), "user"@)
    } else {
        container_user_from(items, i + 1)
    }
}

pub open spec fn container_user(j: JsonValue) -> Option<JsonValue> {
    match oarray(jget(j, "require"@)) {
        Some(items) => container_user_from(items, 0),
        None => None,
    }
}

/// The profile from the first embedded JSON script, at or after `i`, that names a
/// profile container.
pub open spec fn scripts_user_from(texts: Seq<Option<Seq<char>>>, i: int, username: Seq<char>, now: i64) -> Option<UserModel>
    decreases texts.len() - i,
{
    if i < 0 || i >= texts.len() {
        None
    } else {
        let j = match texts[i] {
            Some(t) => parsed_json(t),
            None => None,
        };
        if j is Some && container_user(j->0) is Some {
            api_user(container_user(j->0)->0, username, now)
        } else {
            scripts_user_from(texts, i + 1, username, now)
        }
    }
}

/// The profile embedded in an HTML page: from the additional-data script when it holds a
/// `user`, else from the first JSON script naming a profile container.
pub open spec fn html_user(html: Seq<char>, username: Seq<char>, now: i64) -> Option<UserModel> {
    let cap = regex_group_one(ADDITIONAL_DATA_PATTERN@, html);
    let j = match cap {
        Some(c) => parsed_json(c),
        None => None,
    };
    if j is Some && jget(j->0, "user"@) is Some {
        api_user(jget(j->0, "user"@)->0, username, now)
    } else {
        scripts_user_from(selected_first_texts(html, JSON_SCRIPT_SELECTOR@), 0, username, now)
    }
}

fn container_user_exec(j: &JsonValue) -> (r: Option<&JsonValue>)
    ensures
        deref_opt(r) == container_user(*j),
{
    let items = match oarray_exec(get(j, "require")) {
        Some(items) => items,
        None => {
            return None;
        },
    };
    let name = chars_of("ProfilePageContainer");
    let mut i: usize = 0;
    while i < items.len()
        invariant
            oarray(jget(*j, "require"@)) == Some(items@),
            name@ == "ProfilePageContainer"@,
            i <= items@.len(),
            container_user_from(items@, 0) == container_user_from(items@, i as int),
        decreases items@.len() - i,
    {
        let first = ostr_exec(oat_exec(Some(&items[i]), 0));
        if let Some(f) = first {
            let fc = chars_of(f.as_str());
            if crate::text::same_chars(&fc, &name) {
                return oget_exec(oat_exec(Some(&items[i]), 3), "user");
            }
        }
        i = i + 1;
    }
    None
}

/// The profile embedded in an HTML page (see `html_user`).
pub fn extract_from_additional_data_sources(html: &str, username: &str, now: i64) -> (r: Option<InstagramUser>)
    ensures
        opt_user_view(r) == html_user(html@, username@, now),
{
    if let Some(cap) = first_capture(ADDITIONAL_DATA_PATTERN, html) {
        if let Some(j) = parse_json(cap.as_str()) {
            if let Some(u) = get(&j, "user") {
                return extract_user_data_from_api_response(u, username, now);
            }
        }
    }
    let texts = selected_texts(html, JSON_SCRIPT_SELECTOR);
    let ghost tv = texts@.map_values(|t: Option<String>| opt_str_view(t));
    assert(html_user(html@, username@, now) == scripts_user_from(tv, 0, username@, now));
    let mut i: usize = 0;
    while i < texts.len()
        invariant
            html_user(html@, username@, now) == scripts_user_from(tv, 0, username@, now),
            tv == texts@.map_values(|t: Option<String>| opt_str_view(t)),
            i <= texts@.len(),
            scripts_user_from(tv, 0, username@, now) == scripts_user_from(tv, i as int, username@, now),
        decreases texts@.len() - i,
    {
        assert(tv[i as int] == opt_str_view(texts@[i as int]));
        if let Some(t) = &texts[i] {
            if let Some(j) = parse_json(t.as_str()) {
                if let Some(data) = container_user_exec(&j) {
                    return extract_user_data_from_api_response(data, username, now);
                }
            }
        }
        i = i + 1;
    }
    None
}

} // verus!
