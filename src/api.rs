//! Decisions of the public operations: access control, cache-first reads with stale
//! fallback, the error taxonomy's HTTP mapping, cache headers, image query parsing and
//! entity tags.

use vstd::prelude::*;
use crate::cache::{ImageCache, InstagramCache, age_at, image_key, is_fresh};
use crate::images::{ImageConversionFormat, ImageConversionParams, ImageFit, ImageFocus};
use crate::models::{
    InstagramPostsResponse, InstagramReelsResponse, InstagramUser, InstagramUserResponse,
    posts_view, reels_view,
};
use crate::scraper::{Failure, ScraperError};
use crate::text::{chars_of, same_chars};
use crate::transform::{
    ImageProxyError, conversion, image_status_text, interpret_image_response, resolved_content_type,
    transform_fetched,
};
use crate::images::any_set;

verus! {

#[derive(Debug)]
pub enum ApiError {
    ScraperError(ScraperError),
    ImageError(ImageProxyError),
}

/// An error as the API layer sends it: status code, machine-readable code, message.
#[derive(Debug)]
pub struct ErrorResponse {
    pub status: u16,
    pub error: String,
    pub message: String,
}

/// HTTP status of an error: not found 404, private 403, rate limited 429, unauthorized
/// 401, proxy errors 502, proxy exhaustion and network errors 503, parsing 500,
/// image processing 500, conversion 400.
pub open spec fn status_of(e: ApiError) -> u16 {
    match e {
        ApiError::ScraperError(s) => match s@ {
            Failure::NotFound => 404,
            Failure::Private => 403,
            Failure::RateLimited => 429,
            Failure::Unauthorized(_) => 401,
            Failure::Proxy(_) => 502,
            Failure::ProxyConfigurationMissing => 502,
            Failure::AllProxiesFailed => 503,
            Failure::Network(_) => 503,
            Failure::Parsing(_) => 500,
        },
        ApiError::ImageError(i) => match i {
            ImageProxyError::NetworkError(_) => 503,
            ImageProxyError::ProxyError(_) => 502,
            ImageProxyError::ImageError(_) => 500,
            ImageProxyError::ConversionError(_) => 400,
        },
    }
}

pub open spec fn error_code_of(e: ApiError) -> Seq<char> {
    match e {
        ApiError::ScraperError(s) => match s@ {
            Failure::NotFound => "Profile not found"@,
            Failure::Private => "Profile is private"@,
            Failure::RateLimited => "Rate limited"@,
            Failure::Unauthorized(_) => "Unauthorized"@,
            Failure::Proxy(_) => "Proxy error"@,
            Failure::ProxyConfigurationMissing => "Proxy error"@,
            Failure::AllProxiesFailed => "All proxies failed"@,
            Failure::Network(_) => "Network error"@,
            Failure::Parsing(_) => "Parsing error"@,
        },
        ApiError::ImageError(i) => match i {
            ImageProxyError::NetworkError(_) => "Image network error"@,
            ImageProxyError::ProxyError(_) => "Image proxy error"@,
            ImageProxyError::ImageError(_) => "Image processing error"@,
            ImageProxyError::ConversionError(_) => "Image conversion error"@,
        },
    }
}

pub open spec fn error_message_of(e: ApiError) -> Seq<char> {
    match e {
        ApiError::ScraperError(s) => match s@ {
            Failure::NotFound => "The requested profile does not exist"@,
            Failure::Private => "The requested profile is private and cannot be accessed"@,
            Failure::RateLimited => "Too many requests, please try again later"@,
            Failure::Unauthorized(m) => m,
            Failure::Proxy(m) => m,
            Failure::ProxyConfigurationMissing => "No proxies configured"@,
            Failure::AllProxiesFailed => "All configured proxies failed to connect"@,
            Failure::Network(m) => m,
            Failure::Parsing(m) => "Error parsing Instagram page: "@ + m,
        },
        ApiError::ImageError(i) => match i {
            ImageProxyError::NetworkError(m) => m@,
            ImageProxyError::ProxyError(m) => m@,
            ImageProxyError::ImageError(m) => m@,
            ImageProxyError::ConversionError(m) => m@,
        },
    }
}

impl ApiError {
    /// The HTTP form of the error (see `status_of`, `error_code_of`, `error_message_of`).
    pub fn response(&self) -> (r: ErrorResponse)
        ensures
            r.status == status_of(*self),
            r.error@ == error_code_of(*self),
            r.message@ == error_message_of(*self),
    {
        match self {
            ApiError::ScraperError(s) => match s {
                ScraperError::ProfileNotFound => err(404, "Profile not found", String::from_str("The requested profile does not exist")),
                ScraperError::PrivateProfile => err(403, "Profile is private", String::from_str("The requested profile is private and cannot be accessed")),
                ScraperError::RateLimited => err(429, "Rate limited", String::from_str("Too many requests, please try again later")),
                ScraperError::UnauthorizedAccess(m) => err(401, "Unauthorized", m.clone()),
                ScraperError::ProxyError(m) => err(502, "Proxy error", m.clone()),
                ScraperError::ProxyConfigurationMissing => err(502, "Proxy error", String::from_str("No proxies configured")),
                ScraperError::AllProxiesFailed => err(503, "All proxies failed", String::from_str("All configured proxies failed to connect")),
                ScraperError::NetworkError(m) => err(503, "Network error", m.clone()),
                ScraperError::ParsingError(m) => err(500, "Parsing error", String::from_str("Error parsing Instagram page: ").concat(m.as_str())),
            },
            ApiError::ImageError(i) => match i {
                ImageProxyError::NetworkError(m) => err(503, "Image network error", m.clone()),
                ImageProxyError::ProxyError(m) => err(502, "Image proxy error", m.clone()),
                ImageProxyError::ImageError(m) => err(500, "Image processing error", m.clone()),
                ImageProxyError::ConversionError(m) => err(400, "Image conversion error", m.clone()),
            },
        }
    }
}

fn err(status: u16, code: &str, message: String) -> (r: ErrorResponse)
    ensures
        r.status == status,
        r.error@ == code@,
        r.message == message,
{
    ErrorResponse { status, error: String::from_str(code), message }
}

// ---------------------------------------------------------------------------
// Access control and cache-first reads
// ---------------------------------------------------------------------------

/// Without a whitelist every username is served; with one, only those it lists.
pub open spec fn allowed(whitelist: Option<Vec<String>>, username: Seq<char>) -> bool {
    match whitelist {
        None => true,
        Some(w) => exists|i: int| 0 <= i < w@.len() && (#[trigger] w@[i])@ == username,
    }
}

/// Whether `username` may be served (see `allowed`).
pub fn username_allowed(whitelist: &Option<Vec<String>>, username: &str) -> (r: bool)
    ensures
        r == allowed(*whitelist, username@),
{
    match whitelist {
        None => true,
        Some(w) => {
            let u = chars_of(username);
            let mut i: usize = 0;
            while i < w.len()
                invariant
                    *whitelist == Some(*w),
                    u@ == username@,
                    i <= w@.len(),
                    forall|j: int| 0 <= j < i ==> (#[trigger] w@[j])@ != username@,
                decreases w@.len() - i,
            {
                let c = chars_of(w[i].as_str());
                if same_chars(&c, &u) {
                    assert(w@[i as int]@ == username@);
                    assert(whitelist->0@[i as int]@ == username@);
                    assert(allowed(*whitelist, username@));
                    return true;
                }
                i = i + 1;
            }
            false
        },
    }
}

/// The refusal for a username that is not whitelisted.
pub fn not_allowed(username: &str) -> (r: ApiError)
    ensures
        r matches ApiError::ScraperError(ScraperError::UnauthorizedAccess(m)) && m@ == "Username '"@ + username@ + "' not allowed"@,
{
    let m = String::from_str("Username '").concat(username).concat("' not allowed");
    ApiError::ScraperError(ScraperError::UnauthorizedAccess(m))
}

/// The fresh cached profile, if any.
pub fn cached_user(cache: &InstagramCache, username: &str, now: u64) -> (r: Option<InstagramUserResponse>)
    requires
        cache.wf(),
    ensures
        r is Some <==> (cache.lookup(username@) is Some && is_fresh(cache.lookup(username@)->0, now)),
        r is Some ==> r->0.from_cache && r->0.data@ == cache.lookup(username@)->0.user
            && r->0.cache_age == Some(age_at(cache.lookup(username@)->0.inserted_at, now)),
{
    match cache.get_user(username, now) {
        Some((u, age)) => Some(InstagramUserResponse { data: u, from_cache: true, cache_age: Some(age) }),
        None => None,
    }
}

/// Settles a profile request once the live scrape has finished: a fresh result is stored
/// and served; after a failure any cached entry, expired or not, is served instead;
/// without one the scrape error is returned.
pub fn resolve_user(cache: &mut InstagramCache, username: &str, scraped: Result<InstagramUser, ScraperError>, now: u64) -> (r: Result<InstagramUserResponse, ApiError>)
    requires
        old(cache).wf(),
    ensures
        final(cache).wf(),
        scraped is Ok ==> r is Ok && !r->Ok_0.from_cache && r->Ok_0.cache_age is None
            && r->Ok_0.data@ == scraped->Ok_0@
            && final(cache).lookup(scraped->Ok_0.username@) is Some
            && final(cache).lookup(scraped->Ok_0.username@)->0.user == scraped->Ok_0@
            && final(cache).lookup(scraped->Ok_0.username@)->0.inserted_at == now,
        scraped is Err ==> *final(cache) == *old(cache),
        scraped is Err && old(cache).lookup(username@) is Some ==> r is Ok && r->Ok_0.from_cache
            && r->Ok_0.data@ == old(cache).lookup(username@)->0.user
            && r->Ok_0.cache_age == Some(age_at(old(cache).lookup(username@)->0.inserted_at, now)),
        scraped is Err && old(cache).lookup(username@) is None ==> (r matches Err(ApiError::ScraperError(e)) && e == scraped->Err_0),
{
    match scraped {
        Ok(user) => {
            let copy = user.duplicate();
            cache.store_user(user, now);
            Ok(InstagramUserResponse { data: copy, from_cache: false, cache_age: None })
        },
        Err(e) => match cache.get_user_even_expired(username, now) {
            Some((u, age)) => Ok(InstagramUserResponse { data: u, from_cache: true, cache_age: Some(age) }),
            None => Err(ApiError::ScraperError(e)),
        },
    }
}

/// The fresh cached posts, if any.
pub fn cached_posts(cache: &InstagramCache, username: &str, now: u64) -> (r: Option<InstagramPostsResponse>)
    requires
        cache.wf(),
    ensures
        r is Some <==> (cache.lookup(username@) is Some && is_fresh(cache.lookup(username@)->0, now)
            && cache.lookup(username@)->0.user.posts is Some),
        r is Some ==> r->0.from_cache && Some(posts_view(r->0.data@)) == cache.lookup(username@)->0.user.posts,
{
    match cache.get_posts(username, now) {
        Some((p, age)) => Some(InstagramPostsResponse { data: p, from_cache: true, cache_age: Some(age) }),
        None => None,
    }
}

/// Settles a posts request like `resolve_user`; a fresh profile without posts yields none.
pub fn resolve_posts(cache: &mut InstagramCache, username: &str, scraped: Result<InstagramUser, ScraperError>, now: u64) -> (r: Result<InstagramPostsResponse, ApiError>)
    requires
        old(cache).wf(),
    ensures
        final(cache).wf(),
        scraped is Ok ==> r is Ok && !r->Ok_0.from_cache && r->Ok_0.cache_age is None
            && (scraped->Ok_0.posts is Some ==> r->Ok_0.data@ == scraped->Ok_0.posts->0@)
            && (scraped->Ok_0.posts is None ==> r->Ok_0.data@.len() == 0),
        scraped is Err && old(cache).lookup(username@) is Some && old(cache).lookup(username@)->0.user.posts is Some
            ==> r is Ok && r->Ok_0.from_cache && Some(posts_view(r->Ok_0.data@)) == old(cache).lookup(username@)->0.user.posts
                && r->Ok_0.cache_age == Some(age_at(old(cache).lookup(username@)->0.inserted_at, now)),
        scraped is Err ==> *final(cache) == *old(cache),
        scraped is Ok ==> final(cache).lookup(scraped->Ok_0.username@) is Some
            && final(cache).lookup(scraped->Ok_0.username@)->0.user == scraped->Ok_0@,
        scraped is Err && !(old(cache).lookup(username@) is Some && old(cache).lookup(username@)->0.user.posts is Some)
            ==> (r matches Err(ApiError::ScraperError(e)) && e == scraped->Err_0),
{
    match scraped {
        Ok(user) => {
            let posts = match &user.posts {
                Some(p) => crate::models::copy_posts(p),
                None => Vec::new(),
            };
            cache.store_user(user, now);
            Ok(InstagramPostsResponse { data: posts, from_cache: false, cache_age: None })
        },
        Err(e) => match cache.get_posts_even_expired(username, now) {
            Some((p, age)) => Ok(InstagramPostsResponse { data: p, from_cache: true, cache_age: Some(age) }),
            None => Err(ApiError::ScraperError(e)),
        },
    }
}

/// The fresh cached reels, if any.
pub fn cached_reels(cache: &InstagramCache, username: &str, now: u64) -> (r: Option<InstagramReelsResponse>)
    requires
        cache.wf(),
    ensures
        r is Some <==> (cache.lookup(username@) is Some && is_fresh(cache.lookup(username@)->0, now)
            && cache.lookup(username@)->0.user.reels is Some),
        r is Some ==> r->0.from_cache && Some(reels_view(r->0.data@)) == cache.lookup(username@)->0.user.reels,
{
    match cache.get_reels(username, now) {
        Some((p, age)) => Some(InstagramReelsResponse { data: p, from_cache: true, cache_age: Some(age) }),
        None => None,
    }
}

/// Settles a reels request like `resolve_user`; a fresh profile without reels yields none.
pub fn resolve_reels(cache: &mut InstagramCache, username: &str, scraped: Result<InstagramUser, ScraperError>, now: u64) -> (r: Result<InstagramReelsResponse, ApiError>)
    requires
        old(cache).wf(),
    ensures
        final(cache).wf(),
        scraped is Ok ==> r is Ok && !r->Ok_0.from_cache && r->Ok_0.cache_age is None
            && (scraped->Ok_0.reels is Some ==> r->Ok_0.data@ == scraped->Ok_0.reels->0@)
            && (scraped->Ok_0.reels is None ==> r->Ok_0.data@.len() == 0),
        scraped is Err && old(cache).lookup(username@) is Some && old(cache).lookup(username@)->0.user.reels is Some
            ==> r is Ok && r->Ok_0.from_cache && Some(reels_view(r->Ok_0.data@)) == old(cache).lookup(username@)->0.user.reels
                && r->Ok_0.cache_age == Some(age_at(old(cache).lookup(username@)->0.inserted_at, now)),
        scraped is Err ==> *final(cache) == *old(cache),
        scraped is Ok ==> final(cache).lookup(scraped->Ok_0.username@) is Some
            && final(cache).lookup(scraped->Ok_0.username@)->0.user == scraped->Ok_0@,
        scraped is Err && !(old(cache).lookup(username@) is Some && old(cache).lookup(username@)->0.user.reels is Some)
            ==> (r matches Err(ApiError::ScraperError(e)) && e == scraped->Err_0),
{
    match scraped {
        Ok(user) => {
            let reels = match &user.reels {
                Some(p) => crate::models::copy_reels(p),
                None => Vec::new(),
            };
            cache.store_user(user, now);
            Ok(InstagramReelsResponse { data: reels, from_cache: false, cache_age: None })
        },
        Err(e) => match cache.get_reels_even_expired(username, now) {
            Some((p, age)) => Ok(InstagramReelsResponse { data: p, from_cache: true, cache_age: Some(age) }),
            None => Err(ApiError::ScraperError(e)),
        },
    }
}

/// Lets an image through only when it is the profile's own content.
pub fn image_access(user: &InstagramUser, url: &str, username: &str) -> (r: Result<(), ApiError>)
    ensures
        r is Ok <==> crate::models::owns_url(user@, url@),
        r is Err ==> (r matches Err(ApiError::ScraperError(ScraperError::UnauthorizedAccess(m)))
            && m@ == "URL '"@ + url@ + "' does not belong to user '"@ + username@ + "'"@),
{
    if user.is_content_url(url) {
        Ok(())
    } else {
        let m = String::from_str("URL '").concat(url).concat("' does not belong to user '").concat(username).concat("'");
        Err(ApiError::ScraperError(ScraperError::UnauthorizedAccess(m)))
    }
}

// ---------------------------------------------------------------------------
// Response envelopes
// ---------------------------------------------------------------------------

/// A JSON body with its cache information; `cache_duration` is the full time to live.
pub struct JsonWithCache<T> {
    pub inner: T,
    pub from_cache: bool,
    pub cache_age: Option<u64>,
    pub cache_duration: u64,
}

pub open spec fn max_age_for(from_cache: bool, cache_age: Option<u64>, duration: u64) -> u64 {
    if from_cache {
        match cache_age {
            Some(a) => if duration >= a { (duration - a) as u64 } else { 0 },
            None => duration,
        }
    } else {
        duration
    }
}

impl<T> JsonWithCache<T> {
    /// Seconds a client may keep the body: the full time to live when fresh, what is left
    /// of it (never below zero) when served from the cache.
    pub fn max_age(&self) -> (r: u64)
        ensures
            r == max_age_for(self.from_cache, self.cache_age, self.cache_duration),
    {
        if self.from_cache {
            match self.cache_age {
                Some(a) => if self.cache_duration >= a { self.cache_duration - a } else { 0 },
                None => self.cache_duration,
            }
        } else {
            self.cache_duration
        }
    }
}

/// Transformed or fetched image bytes with their content type.
pub struct ImageResponse {
    pub data: Vec<u8>,
    pub content_type: String,
}

/// Lower-case hexadecimal MD5 digest of the bytes.
pub uninterp spec fn md5_hex(data: Seq<u8>) -> Seq<char>;

/// Relies on `md5::compute` and its lower-hex formatting: the digest depends on the bytes
/// alone.
#[verifier::external_body]
fn md5_hex_of(data: &[u8]) -> (r: String)
    ensures
        r@ == md5_hex(data@),
{
    format!("{:x}", md5::compute(data))
}

pub open spec fn quoted(s: Seq<char>) -> Seq<char> {
    "\""@ + s + "\""@
}

/// The entity tag for a digest: the digest in double quotes.
pub fn etag_from_digest(hex: &str) -> (r: String)
    ensures
        r@ == quoted(hex@),
{
    String::from_str("\"").concat(hex).concat("\"")
}

/// Whether a conditional request's `If-None-Match` names this entity tag.
pub fn etag_matches(if_none_match: &Option<String>, etag: &str) -> (r: bool)
    ensures
        r == (if_none_match is Some && if_none_match->0@ == etag@),
{
    match if_none_match {
        Some(h) => {
            let a = chars_of(h.as_str());
            let b = chars_of(etag);
            same_chars(&a, &b)
        },
        None => false,
    }
}

pub open spec fn served_content_type(ct: Seq<char>) -> Seq<char> {
    if ct == "image/jpeg"@ || ct == "image/png"@ || ct == "image/gif"@ || ct == "image/webp"@
        || ct == "image/bmp"@ || ct == "image/tiff"@ || ct == "image/x-icon"@ {
        ct
    } else {
        "image/jpeg"@
    }
}

impl ImageResponse {
    /// The entity tag of the bytes: their MD5 digest in double quotes.
    pub fn etag(&self) -> (r: String)
        ensures
            r@ == quoted(md5_hex(self.data@)),
    {
        let hex = md5_hex_of(self.data.as_slice());
        etag_from_digest(hex.as_str())
    }

    /// Whether a conditional request can be answered with "not modified".
    pub fn not_modified(&self, if_none_match: &Option<String>) -> (r: bool)
        ensures
            r == (if_none_match is Some && if_none_match->0@ == quoted(md5_hex(self.data@))),
    {
        let tag = self.etag();
        etag_matches(if_none_match, tag.as_str())
    }

    /// The content type to announce: a known image type as it is, anything else as JPEG.
    pub fn served_content_type(&self) -> (r: String)
        ensures
            r@ == served_content_type(self.content_type@),
    {
        let c = chars_of(self.content_type.as_str());
        let known = ["image/jpeg", "image/png", "image/gif", "image/webp", "image/bmp", "image/tiff", "image/x-icon"];
        let mut i: usize = 0;
        while i < 7
            invariant
                c@ == self.content_type@,
                i <= 7,
                known@.len() == 7,
                known@[0]@ == "image/jpeg"@, known@[1]@ == "image/png"@, known@[2]@ == "image/gif"@,
                known@[3]@ == "image/webp"@, known@[4]@ == "image/bmp"@, known@[5]@ == "image/tiff"@,
                known@[6]@ == "image/x-icon"@,
                forall|j: int| 0 <= j < i ==> (#[trigger] known@[j])@ != self.content_type@,
            decreases 7 - i,
        {
            let k = chars_of(known[i]);
            if same_chars(&k, &c) {
                return self.content_type.clone();
            }
            i = i + 1;
        }
        String::from_str("image/jpeg")
    }
}

// ---------------------------------------------------------------------------
// Image query
// ---------------------------------------------------------------------------

/// The image endpoint's query: every transform field as sent by the client.
pub struct ImageProxyQuery {
    pub url: String,
    pub width: Option<u32>,
    pub height: Option<u32>,
    pub format: Option<String>,
    pub quality: Option<u8>,
    pub fit: Option<String>,
    pub focus: Option<String>,
}

pub open spec fn parse_format(s: Seq<char>) -> Option<ImageConversionFormat> {
    if s == "webp"@ { Some(ImageConversionFormat::Webp) }
    else if s == "jpg"@ || s == "jpeg"@ { Some(ImageConversionFormat::Jpg) }
    else if s == "png"@ { Some(ImageConversionFormat::Png) }
    else if s == "gif"@ { Some(ImageConversionFormat::Gif) }
    else if s == "avif"@ { Some(ImageConversionFormat::Avif) }
    else { None }
}

pub open spec fn parse_fit(s: Seq<char>) -> Option<ImageFit> {
    if s == "pad"@ { Some(ImageFit::Pad) }
    else if s == "fill"@ { Some(ImageFit::Fill) }
    else if s == "scale"@ { Some(ImageFit::Scale) }
    else if s == "crop"@ { Some(ImageFit::Crop) }
    else if s == "thumb"@ { Some(ImageFit::Thumb) }
    else { None }
}

pub open spec fn parse_focus(s: Seq<char>) -> Option<ImageFocus> {
    if s == "center"@ { Some(ImageFocus::Center) }
    else if s == "top"@ { Some(ImageFocus::Top) }
    else if s == "right"@ { Some(ImageFocus::Right) }
    else if s == "left"@ { Some(ImageFocus::Left) }
    else if s == "bottom"@ { Some(ImageFocus::Bottom) }
    else if s == "top_right"@ { Some(ImageFocus::TopRight) }
    else if s == "top_left"@ { Some(ImageFocus::TopLeft) }
    else if s == "bottom_right"@ { Some(ImageFocus::BottomRight) }
    else if s == "bottom_left"@ { Some(ImageFocus::BottomLeft) }
    else if s == "face"@ { Some(ImageFocus::Face) }
    else if s == "faces"@ { Some(ImageFocus::Faces) }
    else { None }
}

fn is_word(c: &Vec<char>, w: &str) -> (r: bool)
    ensures
        r == (c@ == w@),
{
    let k = chars_of(w);
    same_chars(c, &k)
}

fn format_from(s: &str) -> (r: Option<ImageConversionFormat>)
    ensures
        r == parse_format(s@),
{
    let c = chars_of(s);
    if is_word(&c, "webp") { Some(ImageConversionFormat::Webp) }
    else if is_word(&c, "jpg") || is_word(&c, "jpeg") { Some(ImageConversionFormat::Jpg) }
    else if is_word(&c, "png") { Some(ImageConversionFormat::Png) }
    else if is_word(&c, "gif") { Some(ImageConversionFormat::Gif) }
    else if is_word(&c, "avif") { Some(ImageConversionFormat::Avif) }
    else { None }
}

fn fit_from(s: &str) -> (r: Option<ImageFit>)
    ensures
        r == parse_fit(s@),
{
    let c = chars_of(s);
    if is_word(&c, "pad") { Some(ImageFit::Pad) }
    else if is_word(&c, "fill") { Some(ImageFit::Fill) }
    else if is_word(&c, "scale") { Some(ImageFit::Scale) }
    else if is_word(&c, "crop") { Some(ImageFit::Crop) }
    else if is_word(&c, "thumb") { Some(ImageFit::Thumb) }
    else { None }
}

fn focus_from(s: &str) -> (r: Option<ImageFocus>)
    ensures
        r == parse_focus(s@),
{
    let c = chars_of(s);
    if is_word(&c, "center") { Some(ImageFocus::Center) }
    else if is_word(&c, "top") { Some(ImageFocus::Top) }
    else if is_word(&c, "right") { Some(ImageFocus::Right) }
    else if is_word(&c, "left") { Some(ImageFocus::Left) }
    else if is_word(&c, "bottom") { Some(ImageFocus::Bottom) }
    else if is_word(&c, "top_right") { Some(ImageFocus::TopRight) }
    else if is_word(&c, "top_left") { Some(ImageFocus::TopLeft) }
    else if is_word(&c, "bottom_right") { Some(ImageFocus::BottomRight) }
    else if is_word(&c, "bottom_left") { Some(ImageFocus::BottomLeft) }
    else if is_word(&c, "face") { Some(ImageFocus::Face) }
    else if is_word(&c, "faces") { Some(ImageFocus::Faces) }
    else { None }
}

pub open spec fn unsupported(kind: Seq<char>, value: Seq<char>) -> Seq<char> {
    "Unsupported "@ + kind + ": "@ + value
}

fn rejected(kind: &str, value: &String) -> (r: ApiError)
    ensures
        r matches ApiError::ScraperError(ScraperError::ParsingError(m)) && m@ == unsupported(kind@, value@),
{
    let m = String::from_str("Unsupported ").concat(kind).concat(": ").concat(value.as_str());
    ApiError::ScraperError(ScraperError::ParsingError(m))
}

/// Every named value of the query is known.
pub open spec fn query_valid(q: ImageProxyQuery) -> bool {
    !(q.format is Some && parse_format(q.format->0@) is None)
        && !(q.fit is Some && parse_fit(q.fit->0@) is None)
        && !(q.focus is Some && parse_focus(q.focus->0@) is None)
}

/// The parameters that a valid query stands for.
pub open spec fn query_params(q: ImageProxyQuery) -> ImageConversionParams {
    ImageConversionParams {
        width: q.width,
        height: q.height,
        format: match q.format { Some(f) => parse_format(f@), None => None },
        quality: q.quality,
        fit: match q.fit { Some(f) => parse_fit(f@), None => None },
        focus: match q.focus { Some(f) => parse_focus(f@), None => None },
    }
}

impl ImageProxyQuery {
    /// The transform parameters: each named value read into its variant; an unknown
    /// name is a parsing error naming it (format checked first, then fit, then focus).
    pub fn to_conversion_params(&self) -> (r: Result<ImageConversionParams, ApiError>)
        ensures
            self.format is Some && parse_format(self.format->0@) is None ==>
                (r matches Err(ApiError::ScraperError(ScraperError::ParsingError(m))) && m@ == unsupported("format"@, self.format->0@)),
            !(self.format is Some && parse_format(self.format->0@) is None)
                && self.fit is Some && parse_fit(self.fit->0@) is None ==>
                (r matches Err(ApiError::ScraperError(ScraperError::ParsingError(m))) && m@ == unsupported("fit"@, self.fit->0@)),
            !(self.format is Some && parse_format(self.format->0@) is None)
                && !(self.fit is Some && parse_fit(self.fit->0@) is None)
                && self.focus is Some && parse_focus(self.focus->0@) is None ==>
                (r matches Err(ApiError::ScraperError(ScraperError::ParsingError(m))) && m@ == unsupported("focus"@, self.focus->0@)),
            r is Ok <==> !(self.format is Some && parse_format(self.format->0@) is None)
                && !(self.fit is Some && parse_fit(self.fit->0@) is None)
                && !(self.focus is Some && parse_focus(self.focus->0@) is None),
            r is Ok ==> r->Ok_0 == (ImageConversionParams {
                width: self.width,
                height: self.height,
                format: match self.format { Some(f) => parse_format(f@), None => None },
                quality: self.quality,
                fit: match self.fit { Some(f) => parse_fit(f@), None => None },
                focus: match self.focus { Some(f) => parse_focus(f@), None => None },
            }),
    {
        let format = match &self.format {
            Some(f) => match format_from(f.as_str()) {
                Some(v) => Some(v),
                None => {
                    return Err(rejected("format", f));
                },
            },
            None => None,
        };
        let fit = match &self.fit {
            Some(f) => match fit_from(f.as_str()) {
                Some(v) => Some(v),
                None => {
                    return Err(rejected("fit", f));
                },
            },
            None => None,
        };
        let focus = match &self.focus {
            Some(f) => match focus_from(f.as_str()) {
                Some(v) => Some(v),
                None => {
                    return Err(rejected("focus", f));
                },
            },
            None => None,
        };
        Ok(ImageConversionParams { width: self.width, height: self.height, format, quality: self.quality, fit, focus })
    }
}

// ---------------------------------------------------------------------------
// The image route
// ---------------------------------------------------------------------------

/// First step of an image request: the query must name known values, then the username
/// must be allowed.
pub fn prepare_image(whitelist: &Option<Vec<String>>, username: &str, query: &ImageProxyQuery) -> (r: Result<ImageConversionParams, ApiError>)
    ensures
        r is Ok <==> query_valid(*query) && allowed(*whitelist, username@),
        r is Ok ==> r->Ok_0 == query_params(*query),
        query_valid(*query) && !allowed(*whitelist, username@) ==> (r matches Err(ApiError::ScraperError(ScraperError::UnauthorizedAccess(m)))
            && m@ == "Username '"@ + username@ + "' not allowed"@),
{
    let params = query.to_conversion_params()?;
    if !username_allowed(whitelist, username) {
        return Err(not_allowed(username));
    }
    Ok(params)
}

/// Second step, once the profile is known: the URL must be the profile's own content; a
/// stored result for the URL and parameters is then served as it is.
pub fn cached_image(images: &ImageCache, user: &InstagramUser, username: &str, query: &ImageProxyQuery, params: &ImageConversionParams) -> (r: Result<Option<ImageResponse>, ApiError>)
    requires
        images.wf(),
    ensures
        !crate::models::owns_url(user@, query.url@) ==> (r matches Err(ApiError::ScraperError(ScraperError::UnauthorizedAccess(_)))),
        crate::models::owns_url(user@, query.url@) ==> r is Ok
            && (r->Ok_0 is Some <==> images.lookup(image_key(query.url@, *params)) is Some)
            && (r->Ok_0 is Some ==> images.lookup(image_key(query.url@, *params))
                == Some((r->Ok_0->0.data@, r->Ok_0->0.content_type@))),
{
    image_access(user, query.url.as_str(), username)?;
    match images.get_image(query.url.as_str(), params) {
        Some((data, content_type)) => Ok(Some(ImageResponse { data, content_type })),
        None => Ok(None),
    }
}

/// Last step, with what the fetch of the source image produced (status, declared content
/// type and body, or the network error): the bytes are transformed, stored and served.
/// Nothing is stored on failure.
pub fn finish_image(images: &mut ImageCache, url: &str, params: &ImageConversionParams,
    fetched: Result<(u16, Option<String>, Result<Vec<u8>, String>), String>) -> (r: Result<ImageResponse, ApiError>)
    requires
        old(images).wf(),
    ensures
        final(images).wf(),
        r is Err ==> *final(images) == *old(images),
        r is Ok ==> final(images).lookup(image_key(url@, *params)) == Some((r->Ok_0.data@, r->Ok_0.content_type@))
            && forall|k: Seq<char>| k != image_key(url@, *params) ==> #[trigger] final(images).lookup(k) == old(images).lookup(k),
        fetched is Err ==> (r matches Err(ApiError::ImageError(ImageProxyError::NetworkError(m))) && m == fetched->Err_0),
        fetched is Ok && !(200 <= (fetched->Ok_0).0 < 300) ==> (r matches Err(ApiError::ImageError(ImageProxyError::ImageError(m)))
            && m@ == image_status_text((fetched->Ok_0).0)),
        fetched is Ok && 200 <= (fetched->Ok_0).0 < 300 && (fetched->Ok_0).2 is Err
            ==> (r matches Err(ApiError::ImageError(ImageProxyError::NetworkError(m))) && m@ == ((fetched->Ok_0).2->Err_0)@),
        fetched is Ok && 200 <= (fetched->Ok_0).0 < 300 && (fetched->Ok_0).2 is Ok && !any_set(*params) ==> r is Ok
            && r->Ok_0.data == (fetched->Ok_0).2->Ok_0
            && r->Ok_0.content_type@ == resolved_content_type(crate::models::opt_str_view((fetched->Ok_0).1), (fetched->Ok_0).2->Ok_0@),
        fetched is Ok && 200 <= (fetched->Ok_0).0 < 300 && (fetched->Ok_0).2 is Ok && any_set(*params) ==>
            (r is Ok <==> conversion((fetched->Ok_0).2->Ok_0@, *params) is Some)
            && (r is Ok ==> (r->Ok_0.data@, r->Ok_0.content_type@) == conversion((fetched->Ok_0).2->Ok_0@, *params)->0),
{
    let (status, declared, body) = match fetched {
        Ok(f) => f,
        Err(e) => {
            return Err(ApiError::ImageError(ImageProxyError::NetworkError(e)));
        },
    };
    let (bytes, content_type) = match interpret_image_response(status, declared, body) {
        Ok(v) => v,
        Err(e) => {
            return Err(ApiError::ImageError(e));
        },
    };
    let (data, content_type) = match transform_fetched(bytes, content_type, params) {
        Ok(v) => v,
        Err(e) => {
            return Err(ApiError::ImageError(e));
        },
    };
    let stored = crate::cache::copy_image_bytes(&data);
    images.store_image(url, params, stored, content_type.clone());
    Ok(ImageResponse { data, content_type })
}

} // verus!
