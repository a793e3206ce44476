//! The canonical profile model and the content-ownership check.

use vstd::prelude::*;
use crate::text::{
    chars_of, contains_seq, contains_str, find_first, find_seq, replace_all, replace_str,
    rfind, rfind_char, same_chars, slice_chars,
};

verus! {

/// One post, as normalised from any upstream schema. `timestamp` is in Unix seconds.
#[derive(Debug, Clone, PartialEq, Eq)]
pub struct InstagramPost {
    pub id: String,
    pub shortcode: String,
    pub display_url: String,
    pub thumbnail_url: Option<String>,
    pub caption: Option<String>,
    pub likes_count: Option<u64>,
    pub comments_count: Option<u64>,
    pub timestamp: Option<i64>,
    pub is_video: bool,
    pub video_url: Option<String>,
    pub video_view_count: Option<u64>,
}

/// One reel (short video). `timestamp` is in Unix seconds.
#[derive(Debug, Clone, PartialEq, Eq)]
pub struct InstagramReel {
    pub id: String,
    pub shortcode: String,
    pub display_url: String,
    pub video_url: Option<String>,
    pub caption: Option<String>,
    pub views_count: Option<u64>,
    pub likes_count: Option<u64>,
    pub comments_count: Option<u64>,
    pub timestamp: Option<i64>,
}

#[derive(Debug, Clone, Copy, PartialEq, Eq)]
pub struct InstagramUserStats {
    pub posts_count: Option<u64>,
    pub followers_count: Option<u64>,
    pub following_count: Option<u64>,
}

/// A normalised profile. `scraped_at` is in Unix seconds; `posts_limited` means that
/// only the first page of posts could be retrieved.
#[derive(Debug, Clone, PartialEq, Eq)]
pub struct InstagramUser {
    pub username: String,
    pub full_name: Option<String>,
    pub biography: Option<String>,
    pub profile_pic_url: Option<String>,
    pub is_private: bool,
    pub is_verified: bool,
    pub external_url: Option<String>,
    pub stats: InstagramUserStats,
    pub posts: Option<Vec<InstagramPost>>,
    pub reels: Option<Vec<InstagramReel>>,
    pub scraped_at: i64,
    pub posts_limited: bool,
}

pub open spec fn opt_str_view(o: Option<String>) -> Option<Seq<char>> {
    match o {
        Some(s) => Some(s@),
        None => None,
    }
}

/// The mathematical value of a post.
pub struct PostModel {
    pub id: Seq<char>,
    pub shortcode: Seq<char>,
    pub display_url: Seq<char>,
    pub thumbnail_url: Option<Seq<char>>,
    pub caption: Option<Seq<char>>,
    pub likes_count: Option<u64>,
    pub comments_count: Option<u64>,
    pub timestamp: Option<i64>,
    pub is_video: bool,
    pub video_url: Option<Seq<char>>,
    pub video_view_count: Option<u64>,
}

/// The mathematical value of a reel.
pub struct ReelModel {
    pub id: Seq<char>,
    pub shortcode: Seq<char>,
    pub display_url: Seq<char>,
    pub video_url: Option<Seq<char>>,
    pub caption: Option<Seq<char>>,
    pub views_count: Option<u64>,
    pub likes_count: Option<u64>,
    pub comments_count: Option<u64>,
    pub timestamp: Option<i64>,
}

/// The mathematical value of a profile.
pub struct UserModel {
    pub username: Seq<char>,
    pub full_name: Option<Seq<char>>,
    pub biography: Option<Seq<char>>,
    pub profile_pic_url: Option<Seq<char>>,
    pub is_private: bool,
    pub is_verified: bool,
    pub external_url: Option<Seq<char>>,
    pub stats: InstagramUserStats,
    pub posts: Option<Seq<PostModel>>,
    pub reels: Option<Seq<ReelModel>>,
    pub scraped_at: i64,
    pub posts_limited: bool,
}

impl View for InstagramPost {
    type V = PostModel;

    open spec fn view(&self) -> PostModel {
        PostModel {
            id: self.id@,
            shortcode: self.shortcode@,
            display_url: self.display_url@,
            thumbnail_url: opt_str_view(self.thumbnail_url),
            caption: opt_str_view(self.caption),
            likes_count: self.likes_count,
            comments_count: self.comments_count,
            timestamp: self.timestamp,
            is_video: self.is_video,
            video_url: opt_str_view(self.video_url),
            video_view_count: self.video_view_count,
        }
    }
}

impl View for InstagramReel {
    type V = ReelModel;

    open spec fn view(&self) -> ReelModel {
        ReelModel {
            id: self.id@,
            shortcode: self.shortcode@,
            display_url: self.display_url@,
            video_url: opt_str_view(self.video_url),
            caption: opt_str_view(self.caption),
            views_count: self.views_count,
            likes_count: self.likes_count,
            comments_count: self.comments_count,
            timestamp: self.timestamp,
        }
    }
}

pub open spec fn posts_view(v: Seq<InstagramPost>) -> Seq<PostModel> {
    v.map_values(|p: InstagramPost| p@)
}

pub open spec fn reels_view(v: Seq<InstagramReel>) -> Seq<ReelModel> {
    v.map_values(|p: InstagramReel| p@)
}

pub open spec fn opt_posts_view(v: Option<Vec<InstagramPost>>) -> Option<Seq<PostModel>> {
    match v {
        Some(x) => Some(posts_view(x@)),
        None => None,
    }
}

pub open spec fn opt_reels_view(v: Option<Vec<InstagramReel>>) -> Option<Seq<ReelModel>> {
    match v {
        Some(x) => Some(reels_view(x@)),
        None => None,
    }
}

impl View for InstagramUser {
    type V = UserModel;

    open spec fn view(&self) -> UserModel {
        UserModel {
            username: self.username@,
            full_name: opt_str_view(self.full_name),
            biography: opt_str_view(self.biography),
            profile_pic_url: opt_str_view(self.profile_pic_url),
            is_private: self.is_private,
            is_verified: self.is_verified,
            external_url: opt_str_view(self.external_url),
            stats: self.stats,
            posts: opt_posts_view(self.posts),
            reels: opt_reels_view(self.reels),
            scraped_at: self.scraped_at,
            posts_limited: self.posts_limited,
        }
    }
}

/// The reel that a video post stands for.
pub open spec fn reel_of_post(p: PostModel) -> ReelModel {
    ReelModel {
        id: p.id,
        shortcode: p.shortcode,
        display_url: p.display_url,
        video_url: p.video_url,
        caption: p.caption,
        views_count: p.video_view_count,
        likes_count: p.likes_count,
        comments_count: p.comments_count,
        timestamp: p.timestamp,
    }
}

/// Reels derived from the first `n` posts: the video posts, in order.
pub open spec fn video_reels_upto(posts: Seq<PostModel>, n: int) -> Seq<ReelModel>
    decreases n,
{
    if n <= 0 || n > posts.len() {
        Seq::empty()
    } else if posts[n - 1].is_video {
        video_reels_upto(posts, n - 1).push(reel_of_post(posts[n - 1]))
    } else {
        video_reels_upto(posts, n - 1)
    }
}

/// Reels derived from posts: the video posts, in order.
pub open spec fn video_reels(posts: Seq<PostModel>) -> Seq<ReelModel> {
    video_reels_upto(posts, posts.len() as int)
}

/// Profile envelope handed to the API layer.
pub struct InstagramUserResponse {
    pub data: InstagramUser,
    pub from_cache: bool,
    pub cache_age: Option<u64>,
}

pub struct InstagramPostsResponse {
    pub data: Vec<InstagramPost>,
    pub from_cache: bool,
    pub cache_age: Option<u64>,
}

pub struct InstagramReelsResponse {
    pub data: Vec<InstagramReel>,
    pub from_cache: bool,
    pub cache_age: Option<u64>,
}

pub fn copy_opt_string(s: &Option<String>) -> (r: Option<String>)
    ensures
        r == *s,
{
    match s {
        Some(v) => Some(v.clone()),
        None => None,
    }
}

impl InstagramPost {
    /// A field-by-field copy.
    pub fn duplicate(&self) -> (r: Self)
        ensures
            r == *self,
            r@ == self@,
    {
        InstagramPost {
            id: self.id.clone(),
            shortcode: self.shortcode.clone(),
            display_url: self.display_url.clone(),
            thumbnail_url: copy_opt_string(&self.thumbnail_url),
            caption: copy_opt_string(&self.caption),
            likes_count: self.likes_count,
            comments_count: self.comments_count,
            timestamp: self.timestamp,
            is_video: self.is_video,
            video_url: copy_opt_string(&self.video_url),
            video_view_count: self.video_view_count,
        }
    }
}

impl InstagramReel {
    /// A field-by-field copy.
    pub fn duplicate(&self) -> (r: Self)
        ensures
            r == *self,
            r@ == self@,
    {
        InstagramReel {
            id: self.id.clone(),
            shortcode: self.shortcode.clone(),
            display_url: self.display_url.clone(),
            video_url: copy_opt_string(&self.video_url),
            caption: copy_opt_string(&self.caption),
            views_count: self.views_count,
            likes_count: self.likes_count,
            comments_count: self.comments_count,
            timestamp: self.timestamp,
        }
    }
}

pub fn copy_posts(v: &Vec<InstagramPost>) -> (r: Vec<InstagramPost>)
    ensures
        r@ == v@,
{
    let mut out: Vec<InstagramPost> = Vec::new();
    let mut i: usize = 0;
    while i < v.len()
        invariant
            i <= v@.len(),
            out@ == v@.subrange(0, i as int),
        decreases v@.len() - i,
    {
        out.push(v[i].duplicate());
        i = i + 1;
        assert(out@ =~= v@.subrange(0, i as int));
    }
    assert(out@ =~= v@);
    out
}

pub fn copy_reels(v: &Vec<InstagramReel>) -> (r: Vec<InstagramReel>)
    ensures
        r@ == v@,
{
    let mut out: Vec<InstagramReel> = Vec::new();
    let mut i: usize = 0;
    while i < v.len()
        invariant
            i <= v@.len(),
            out@ == v@.subrange(0, i as int),
        decreases v@.len() - i,
    {
        out.push(v[i].duplicate());
        i = i + 1;
        assert(out@ =~= v@.subrange(0, i as int));
    }
    assert(out@ =~= v@);
    out
}

impl InstagramUser {
    /// A field-by-field copy.
    pub fn duplicate(&self) -> (r: Self)
        ensures
            r@ == self@,
    {
        let posts = match &self.posts {
            Some(p) => Some(copy_posts(p)),
            None => None,
        };
        let reels = match &self.reels {
            Some(p) => Some(copy_reels(p)),
            None => None,
        };
        proof {
            if self.posts is Some {
                assert(posts_view(posts->0@) == posts_view(self.posts->0@));
            }
            if self.reels is Some {
                assert(reels_view(reels->0@) == reels_view(self.reels->0@));
            }
        }
        InstagramUser {
            username: self.username.clone(),
            full_name: copy_opt_string(&self.full_name),
            biography: copy_opt_string(&self.biography),
            profile_pic_url: copy_opt_string(&self.profile_pic_url),
            is_private: self.is_private,
            is_verified: self.is_verified,
            external_url: copy_opt_string(&self.external_url),
            stats: self.stats,
            posts,
            reels,
            scraped_at: self.scraped_at,
            posts_limited: self.posts_limited,
        }
    }
}

// ---------------------------------------------------------------------------
// Image identifiers inside content URLs
// ---------------------------------------------------------------------------

/// The file name of the path (between the last `/` and the first `?` after it), when it
/// holds an underscore and a `.jpg` or `.mp4` marker.
pub open spec fn id_from_filename(url: Seq<char>) -> Option<Seq<char>> {
    match rfind_char(url, '/') {
        Some(p) => {
            let part = url.skip(p + 1);
            match find_first(part, seq!['?']) {
                Some(q) => {
                    let name = part.take(q);
                    if contains_seq(name, seq!['_']) && (contains_seq(name, ".jpg"@)
                        || contains_seq(name, ".mp4"@)) {
                        Some(name)
                    } else {
                        None
                    }
                },
                None => None,
            }
        },
        None => None,
    }
}

/// The `ig_cache_key` query value, up to the next `&`.
pub open spec fn id_from_cache_key(url: Seq<char>) -> Option<Seq<char>> {
    match find_first(url, "ig_cache_key="@) {
        Some(k) => {
            let rest = url.skip(k + "ig_cache_key="@.len());
            match find_first(rest, seq!['&']) {
                Some(a) => Some(rest.take(a)),
                None => Some(rest),
            }
        },
        None => None,
    }
}

/// The first two underscore-separated tokens of the last path segment, when it holds
/// an underscore and `.jpg`.
pub open spec fn id_from_tokens(url: Seq<char>) -> Option<Seq<char>> {
    match rfind_char(url, '/') {
        Some(p) => {
            let path = url.skip(p + 1);
            if contains_seq(path, seq!['_']) && contains_seq(path, ".jpg"@) {
                let a = find_first(path, seq!['_'])->0;
                let rest = path.skip(a + 1);
                let second = match find_first(rest, seq!['_']) {
                    Some(b) => rest.take(b),
                    None => rest,
                };
                Some(path.take(a) + seq!['_'] + second)
            } else {
                None
            }
        },
        None => None,
    }
}

/// The identifier of an image URL: file name, else cache key, else leading tokens.
pub open spec fn image_id(url: Seq<char>) -> Option<Seq<char>> {
    if id_from_filename(url) is Some {
        id_from_filename(url)
    } else if id_from_cache_key(url) is Some {
        id_from_cache_key(url)
    } else {
        id_from_tokens(url)
    }
}

/// Undoes the common single and double percent-encodings of `=`, `%`, `:` and `?`.
pub open spec fn url_decoded(s: Seq<char>) -> Seq<char> {
    let s1 = replace_all(s, "%3D"@, "="@);
    let s2 = replace_all(s1, "%253D"@, "="@);
    let s3 = replace_all(s2, "%25"@, "%"@);
    let s4 = replace_all(s3, "%2525"@, "%"@);
    let s5 = replace_all(s4, "%3A"@, ":"@);
    let s6 = replace_all(s5, "%253A"@, ":"@);
    let s7 = replace_all(s6, "%3F"@, "?"@);
    replace_all(s7, "%253F"@, "?"@)
}

/// Position of the first `=` or `%` at or after `i`.
pub open spec fn marker_from(s: Seq<char>, i: int) -> Option<int>
    decreases s.len() - i,
{
    if i < 0 || i >= s.len() {
        None
    } else if s[i] == '=' || s[i] == '%' {
        Some(i)
    } else {
        marker_from(s, i + 1)
    }
}

/// The part of a cache key before any `=` or `%`.
pub open spec fn key_base(s: Seq<char>) -> Seq<char> {
    match marker_from(s, 0) {
        Some(i) => s.take(i),
        None => s,
    }
}

pub open spec fn has_padding_marker(s: Seq<char>) -> bool {
    contains_seq(s, "="@) || contains_seq(s, "%3D"@) || contains_seq(s, "%253D"@)
}

/// Two identifiers name the same image.
pub open spec fn ids_match(a: Seq<char>, b: Seq<char>) -> bool {
    a == b || url_decoded(a) == url_decoded(b) || ((has_padding_marker(a) || has_padding_marker(b))
        && key_base(a).len() > 0 && key_base(a) == key_base(b))
}

/// Two URLs name the same image: equal, or with matching identifiers.
pub open spec fn urls_match(u1: Seq<char>, u2: Seq<char>) -> bool {
    u1 == u2 || (image_id(u1) is Some && image_id(u2) is Some && ids_match(
        image_id(u1)->0,
        image_id(u2)->0,
    ))
}

pub open spec fn opt_matches(s: Option<Seq<char>>, url: Seq<char>) -> bool {
    s is Some && urls_match(s->0, url)
}

pub open spec fn post_owns(p: PostModel, url: Seq<char>) -> bool {
    urls_match(p.display_url, url) || opt_matches(p.thumbnail_url, url) || opt_matches(
        p.video_url,
        url,
    )
}

pub open spec fn reel_owns(r: ReelModel, url: Seq<char>) -> bool {
    urls_match(r.display_url, url) || opt_matches(r.video_url, url)
}

/// `url` is the profile picture, or a display, thumbnail or video URL of a post or reel.
pub open spec fn owns_url(u: UserModel, url: Seq<char>) -> bool {
    ||| opt_matches(u.profile_pic_url, url)
    ||| (u.posts is Some && exists|i: int|
        0 <= i < u.posts->0.len() && post_owns(#[trigger] u.posts->0[i], url))
    ||| (u.reels is Some && exists|i: int|
        0 <= i < u.reels->0.len() && reel_owns(#[trigger] u.reels->0[i], url))
}

fn filename_id(url: &Vec<char>) -> (r: Option<Vec<char>>)
    ensures
        r is Some == id_from_filename(url@) is Some,
        r is Some ==> r->0@ == id_from_filename(url@)->0,
{
    let n = url.len();
    match rfind(url, '/') {
        Some(p) => {
            let part = slice_chars(url, p + 1, n);
            assert(part@ =~= url@.skip(p + 1));
            let q_mark = vec!['?'];
            assert(q_mark@ =~= seq!['?']);
            match find_seq(&part, &q_mark) {
                Some(q) => {
                    let name = slice_chars(&part, 0, q);
                    assert(name@ =~= part@.take(q as int));
                    let under = vec!['_'];
                    assert(under@ =~= seq!['_']);
                    if contains_chars_seq(&name, &under) && (contains_str(&name, ".jpg")
                        || contains_str(&name, ".mp4")) {
                        Some(name)
                    } else {
                        None
                    }
                },
                None => None,
            }
        },
        None => None,
    }
}

fn contains_chars_seq(s: &Vec<char>, pat: &Vec<char>) -> (r: bool)
    ensures
        r == contains_seq(s@, pat@),
{
    find_seq(s, pat).is_some()
}

fn cache_key_id(url: &Vec<char>) -> (r: Option<Vec<char>>)
    ensures
        r is Some == id_from_cache_key(url@) is Some,
        r is Some ==> r->0@ == id_from_cache_key(url@)->0,
{
    let key = chars_of("ig_cache_key=");
    let n = url.len();
    let klen = key.len();
    match find_seq(url, &key) {
        Some(k) => {
            let rest = slice_chars(url, k + klen, n);
            assert(rest@ =~= url@.skip(k + "ig_cache_key="@.len()));
            let amp = vec!['&'];
            assert(amp@ =~= seq!['&']);
            match find_seq(&rest, &amp) {
                Some(a) => {
                    let v = slice_chars(&rest, 0, a);
                    assert(v@ =~= rest@.take(a as int));
                    Some(v)
                },
                None => Some(rest),
            }
        },
        None => None,
    }
}

fn token_id(url: &Vec<char>) -> (r: Option<Vec<char>>)
    ensures
        r is Some == id_from_tokens(url@) is Some,
        r is Some ==> r->0@ == id_from_tokens(url@)->0,
{
    let n = url.len();
    match rfind(url, '/') {
        Some(p) => {
            let path = slice_chars(url, p + 1, n);
            assert(path@ =~= url@.skip(p + 1));
            let under = vec!['_'];
            assert(under@ =~= seq!['_']);
            if contains_chars_seq(&path, &under) && contains_str(&path, ".jpg") {
                let a = match find_seq(&path, &under) {
                    Some(a) => a,
                    None => {
                        return None;
                    },
                };
                proof {
                    crate::text::lemma_find_in_bounds(path@, under@);
                }
                let mut id = slice_chars(&path, 0, a);
                assert(id@ =~= path@.take(a as int));
                let rest = slice_chars(&path, a + 1, path.len());
                assert(rest@ =~= path@.skip(a + 1));
                let second = match find_seq(&rest, &under) {
                    Some(b) => {
                        let v = slice_chars(&rest, 0, b);
                        assert(v@ =~= rest@.take(b as int));
                        v
                    },
                    None => rest,
                };
                let ghost first = id@;
                id.push('_');
                crate::text::append_chars(&mut id, &second);
                assert(id@ =~= first + seq!['_'] + second@);
                Some(id)
            } else {
                None
            }
        },
        None => None,
    }
}

/// The identifier of an image URL (see `image_id`).
pub fn extract_image_id(url: &Vec<char>) -> (r: Option<Vec<char>>)
    ensures
        r is Some == image_id(url@) is Some,
        r is Some ==> r->0@ == image_id(url@)->0,
{
    let f = filename_id(url);
    if f.is_some() {
        return f;
    }
    let c = cache_key_id(url);
    if c.is_some() {
        return c;
    }
    token_id(url)
}

/// Undoes common percent-encodings (see `url_decoded`).
pub fn url_decode(s: &Vec<char>) -> (r: Vec<char>)
    ensures
        r@ == url_decoded(s@),
{
    proof {
        reveal_strlit("%3D");
        reveal_strlit("%253D");
        reveal_strlit("%25");
        reveal_strlit("%2525");
        reveal_strlit("%3A");
        reveal_strlit("%253A");
        reveal_strlit("%3F");
        reveal_strlit("%253F");
    }
    let s1 = replace_str(s, "%3D", "=");
    let s2 = replace_str(&s1, "%253D", "=");
    let s3 = replace_str(&s2, "%25", "%");
    let s4 = replace_str(&s3, "%2525", "%");
    let s5 = replace_str(&s4, "%3A", ":");
    let s6 = replace_str(&s5, "%253A", ":");
    let s7 = replace_str(&s6, "%3F", "?");
    replace_str(&s7, "%253F", "?")
}

/// The part of a cache key before any `=` or `%` (see `key_base`).
pub fn cache_key_base(s: &Vec<char>) -> (r: Vec<char>)
    ensures
        r@ == key_base(s@),
{
    let mut i: usize = 0;
    while i < s.len()
        invariant
            i <= s@.len(),
            marker_from(s@, 0) == marker_from(s@, i as int),
        decreases s@.len() - i,
    {
        if s[i] == '=' || s[i] == '%' {
            return slice_chars(s, 0, i);
        }
        i = i + 1;
    }
    assert(s@.take(s@.len() as int) =~= s@);
    slice_chars(s, 0, s.len())
}

fn has_marker(s: &Vec<char>) -> (r: bool)
    ensures
        r == has_padding_marker(s@),
{
    contains_str(s, "=") || contains_str(s, "%3D") || contains_str(s, "%253D")
}

/// Whether two URLs name the same image (see `urls_match`).
pub fn image_urls_match(u1: &Vec<char>, u2: &Vec<char>) -> (r: bool)
    ensures
        r == urls_match(u1@, u2@),
{
    if same_chars(u1, u2) {
        return true;
    }
    let id1 = extract_image_id(u1);
    let id2 = extract_image_id(u2);
    match (id1, id2) {
        (Some(a), Some(b)) => {
            if same_chars(&a, &b) {
                return true;
            }
            let da = url_decode(&a);
            let db = url_decode(&b);
            if same_chars(&da, &db) {
                return true;
            }
            if has_marker(&a) || has_marker(&b) {
                let ba = cache_key_base(&a);
                let bb = cache_key_base(&b);
                ba.len() > 0 && same_chars(&ba, &bb)
            } else {
                false
            }
        },
        _ => false,
    }
}

fn opt_url_matches(s: &Option<String>, url: &Vec<char>) -> (r: bool)
    ensures
        r == opt_matches(opt_str_view(*s), url@),
{
    match s {
        Some(v) => {
            let cs = chars_of(v.as_str());
            image_urls_match(&cs, url)
        },
        None => false,
    }
}

impl InstagramUser {
    /// Whether `url` belongs to this profile's own content.
    pub fn is_content_url(&self, url: &str) -> (r: bool)
        ensures
            r == owns_url(self@, url@),
    {
        let u = chars_of(url);
        if opt_url_matches(&self.profile_pic_url, &u) {
            return true;
        }
        if let Some(posts) = &self.posts {
            let mut i: usize = 0;
            while i < posts.len()
                invariant
                    self.posts == Some(*posts),
                    u@ == url@,
                    i <= posts@.len(),
                    forall|j: int| 0 <= j < i ==> !post_owns(#[trigger] posts_view(posts@)[j], url@),
                decreases posts@.len() - i,
            {
                let p = &posts[i];
                let dc = chars_of(p.display_url.as_str());
                if image_urls_match(&dc, &u) || opt_url_matches(&p.thumbnail_url, &u)
                    || opt_url_matches(&p.video_url, &u) {
                    assert(post_owns(self@.posts->0[i as int], url@));
                    return true;
                }
                i = i + 1;
            }
        }
        if let Some(reels) = &self.reels {
            let mut i: usize = 0;
            while i < reels.len()
                invariant
                    self.reels == Some(*reels),
                    u@ == url@,
                    i <= reels@.len(),
                    forall|j: int| 0 <= j < i ==> !reel_owns(#[trigger] reels_view(reels@)[j], url@),
                decreases reels@.len() - i,
            {
                let p = &reels[i];
                let dc = chars_of(p.display_url.as_str());
                if image_urls_match(&dc, &u) || opt_url_matches(&p.video_url, &u) {
                    assert(reel_owns(self@.reels->0[i as int], url@));
                    return true;
                }
                i = i + 1;
            }
        }
        false
    }
}

} // verus!
