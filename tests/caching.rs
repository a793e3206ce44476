use scrapn_core::api::{
    cached_image, finish_image, prepare_image,
    cached_user, image_access, etag_from_digest, etag_matches, not_allowed, resolve_posts, resolve_user,
    username_allowed, ApiError, ImageProxyQuery, ImageResponse, JsonWithCache,
};
use scrapn_core::cache::{CacheEntry, ImageCache, InstagramCache};
use scrapn_core::images::ImageConversionParams;
use scrapn_core::images::{ImageConversionFormat, ImageFit, ImageFocus};
use scrapn_core::models::{InstagramUser, InstagramUserStats};
use scrapn_core::scraper::ScraperError;
use scrapn_core::transform::ImageProxyError;

fn user(name: &str) -> InstagramUser {
    InstagramUser {
        username: name.to_string(),
        full_name: Some("Full".to_string()),
        biography: None,
        profile_pic_url: None,
        is_private: false,
        is_verified: false,
        external_url: None,
        stats: InstagramUserStats { posts_count: Some(0), followers_count: None, following_count: None },
        posts: Some(vec![]),
        reels: None,
        scraped_at: 1,
        posts_limited: false,
    }
}

#[test]
fn entry_is_fresh_until_its_ttl() {
    let e = CacheEntry::new(5u8, 86400, 1000);
    assert_eq!(e.expires_at, 1000 + 86400);
    assert!(!e.is_expired(1000 + 86399));
    assert!(e.is_expired(1000 + 86401));
    assert_eq!(e.age(1000 + 86401), 86401);
    assert_eq!(e.age(10), 0);
    let far = CacheEntry::new((), u64::MAX, 5);
    assert_eq!(far.expires_at, u64::MAX);
}

#[test]
fn fresh_and_stale_reads() {
    let mut c = InstagramCache::new(1);
    let d = c.cache_duration();
    assert_eq!(d, 86400);
    let t0 = 5000;
    c.store_user(user("alice"), t0);
    let (u, age) = c.get_user("alice", t0 + d - 1).unwrap();
    assert_eq!(u.username, "alice");
    assert_eq!(age, d - 1);
    assert!(c.get_user("alice", t0 + d + 1).is_none());
    let (_, age) = c.get_user_even_expired("alice", t0 + d + 1).unwrap();
    assert!(age >= d + 1);
    assert!(c.get_user_even_expired("bob", t0).is_none());
    assert_eq!(c.get_posts("alice", t0).map(|(p, _)| p.len()), Some(0));
    assert!(c.get_reels("alice", t0).is_none());
    assert!(c.get_reels_even_expired("alice", t0 + d + 5).is_none());
}

#[test]
fn store_overwrites_and_resets_time() {
    let mut c = InstagramCache::new(1);
    c.store_user(user("alice"), 0);
    let mut newer = user("alice");
    newer.full_name = Some("Newer".to_string());
    c.store_user(newer, 100_000);
    let (u, age) = c.get_user("alice", 100_010).unwrap();
    assert_eq!(u.full_name.as_deref(), Some("Newer"));
    assert_eq!(age, 10);
}

#[test]
fn failed_scrape_serves_stale_entry() {
    let mut c = InstagramCache::new(1);
    c.store_user(user("alice"), 0);
    let r = resolve_user(&mut c, "alice", Err(ScraperError::RateLimited), 10 * 86400).unwrap();
    assert!(r.from_cache);
    assert_eq!(r.cache_age, Some(10 * 86400));
    let e = resolve_user(&mut c, "bob", Err(ScraperError::RateLimited), 0);
    assert!(matches!(e, Err(ApiError::ScraperError(ScraperError::RateLimited))));
    let ok = resolve_user(&mut c, "carol", Ok(user("carol")), 50).unwrap();
    assert!(!ok.from_cache);
    assert!(cached_user(&c, "carol", 60).unwrap().from_cache);
    let p = resolve_posts(&mut c, "dave", Ok(user("dave")), 50).unwrap();
    assert_eq!(p.data.len(), 0);
}

#[test]
fn whitelist_and_refusal() {
    let w = Some(vec!["alice".to_string()]);
    assert!(username_allowed(&w, "alice"));
    assert!(!username_allowed(&w, "bob"));
    assert!(username_allowed(&None, "bob"));
    match not_allowed("bob") {
        ApiError::ScraperError(ScraperError::UnauthorizedAccess(m)) => assert_eq!(m, "Username 'bob' not allowed"),
        _ => panic!("expected unauthorized"),
    }
}

#[test]
fn error_statuses() {
    let s = |e: ApiError| e.response().status;
    assert_eq!(s(ApiError::ScraperError(ScraperError::ProfileNotFound)), 404);
    assert_eq!(s(ApiError::ScraperError(ScraperError::PrivateProfile)), 403);
    assert_eq!(s(ApiError::ScraperError(ScraperError::RateLimited)), 429);
    assert_eq!(s(ApiError::ScraperError(ScraperError::UnauthorizedAccess("u".to_string()))), 401);
    assert_eq!(s(ApiError::ScraperError(ScraperError::ProxyError("p".to_string()))), 502);
    assert_eq!(s(ApiError::ScraperError(ScraperError::AllProxiesFailed)), 503);
    assert_eq!(s(ApiError::ScraperError(ScraperError::NetworkError("n".to_string()))), 503);
    assert_eq!(s(ApiError::ScraperError(ScraperError::ParsingError("x".to_string()))), 500);
    assert_eq!(s(ApiError::ImageError(ImageProxyError::ConversionError("c".to_string()))), 400);
    assert_eq!(s(ApiError::ImageError(ImageProxyError::ProxyError("c".to_string()))), 502);
    assert_eq!(s(ApiError::ImageError(ImageProxyError::NetworkError("c".to_string()))), 503);
    assert_eq!(s(ApiError::ImageError(ImageProxyError::ImageError("c".to_string()))), 500);
    let r = ApiError::ScraperError(ScraperError::ParsingError("x".to_string())).response();
    assert_eq!(r.message, "Error parsing Instagram page: x");
}

#[test]
fn max_age_follows_remaining_ttl() {
    let fresh = JsonWithCache { inner: (), from_cache: false, cache_age: None, cache_duration: 100 };
    assert_eq!(fresh.max_age(), 100);
    let cached = JsonWithCache { inner: (), from_cache: true, cache_age: Some(30), cache_duration: 100 };
    assert_eq!(cached.max_age(), 70);
    let old = JsonWithCache { inner: (), from_cache: true, cache_age: Some(300), cache_duration: 100 };
    assert_eq!(old.max_age(), 0);
}

#[test]
fn etag_is_quoted_md5() {
    let r = ImageResponse { data: b"abc".to_vec(), content_type: "image/png".to_string() };
    assert_eq!(r.etag(), "\"900150983cd24fb0d6963f7d28e17f72\"");
    assert!(r.not_modified(&Some("\"900150983cd24fb0d6963f7d28e17f72\"".to_string())));
    assert!(!r.not_modified(&None));
    assert_eq!(etag_from_digest("ab"), "\"ab\"");
    assert!(!etag_matches(&Some("x".to_string()), "y"));
    assert_eq!(r.served_content_type(), "image/png");
    let other = ImageResponse { data: vec![], content_type: "text/plain".to_string() };
    assert_eq!(other.served_content_type(), "image/jpeg");
}

fn query(format: Option<&str>, fit: Option<&str>, focus: Option<&str>) -> ImageProxyQuery {
    ImageProxyQuery {
        url: "https://cdn/x.jpg".to_string(),
        width: Some(10),
        height: None,
        format: format.map(|s| s.to_string()),
        quality: Some(70),
        fit: fit.map(|s| s.to_string()),
        focus: focus.map(|s| s.to_string()),
    }
}

#[test]
fn query_parameters_are_validated() {
    let p = query(Some("jpeg"), Some("thumb"), Some("bottom_left")).to_conversion_params().ok().unwrap();
    assert_eq!(p.format, Some(ImageConversionFormat::Jpg));
    assert_eq!(p.fit, Some(ImageFit::Thumb));
    assert_eq!(p.focus, Some(ImageFocus::BottomLeft));
    assert_eq!(p.width, Some(10));
    assert_eq!(p.quality, Some(70));
    match query(Some("bmp"), None, None).to_conversion_params() {
        Err(ApiError::ScraperError(ScraperError::ParsingError(m))) => assert_eq!(m, "Unsupported format: bmp"),
        _ => panic!("expected a parsing error"),
    }
    match query(None, Some("stretch"), None).to_conversion_params() {
        Err(ApiError::ScraperError(ScraperError::ParsingError(m))) => assert_eq!(m, "Unsupported fit: stretch"),
        _ => panic!("expected a parsing error"),
    }
    match query(None, None, Some("middle")).to_conversion_params() {
        Err(ApiError::ScraperError(ScraperError::ParsingError(m))) => assert_eq!(m, "Unsupported focus: middle"),
        _ => panic!("expected a parsing error"),
    }
    assert_eq!(query(Some("avif"), None, None).to_conversion_params().ok().unwrap().format, Some(ImageConversionFormat::Avif));
}

#[test]
fn image_access_follows_ownership() {
    let mut u = user("alice");
    u.profile_pic_url = Some("https://cdn/pp.jpg".to_string());
    assert!(image_access(&u, "https://cdn/pp.jpg", "alice").is_ok());
    match image_access(&u, "https://elsewhere/x.jpg", "alice") {
        Err(ApiError::ScraperError(ScraperError::UnauthorizedAccess(m))) => {
            assert_eq!(m, "URL 'https://elsewhere/x.jpg' does not belong to user 'alice'")
        },
        _ => panic!("expected a refusal"),
    }
}

#[test]
fn stale_posts_keep_their_age_and_cache() {
    let mut c = InstagramCache::new(1);
    c.store_user(user("alice"), 0);
    let r = resolve_posts(&mut c, "alice", Err(ScraperError::RateLimited), 200_000).unwrap();
    assert!(r.from_cache);
    assert_eq!(r.cache_age, Some(200_000));
    let (_, age) = c.get_user_even_expired("alice", 200_000).unwrap();
    assert_eq!(age, 200_000);
}

#[test]
fn image_route_steps() {
    let q = query(Some("png"), None, None);
    assert!(prepare_image(&None, "alice", &q).is_ok());
    match prepare_image(&Some(vec!["bob".to_string()]), "alice", &q) {
        Err(ApiError::ScraperError(ScraperError::UnauthorizedAccess(m))) => assert_eq!(m, "Username 'alice' not allowed"),
        _ => panic!("expected a refusal"),
    }
    assert!(prepare_image(&None, "alice", &query(Some("bmp"), None, None)).is_err());
    let mut u = user("alice");
    u.profile_pic_url = Some(q.url.clone());
    let params = ImageConversionParams::new();
    let mut images = ImageCache::new();
    assert!(cached_image(&images, &u, "alice", &q, &params).unwrap().is_none());
    let other = user("alice");
    assert!(cached_image(&images, &other, "alice", &q, &params).is_err());
    let r = finish_image(&mut images, &q.url, &params, Ok((200, Some("image/gif".to_string()), Ok(vec![1, 2])))).unwrap();
    assert_eq!(r.data, vec![1, 2]);
    assert_eq!(r.content_type, "image/gif");
    let hit = cached_image(&images, &u, "alice", &q, &params).unwrap().unwrap();
    assert_eq!(hit.data, vec![1, 2]);
    assert!(matches!(finish_image(&mut images, "u2", &params, Err("down".to_string())), Err(ApiError::ImageError(ImageProxyError::NetworkError(_)))));
    assert!(matches!(finish_image(&mut images, "u2", &params, Ok((500, None, Ok(vec![])))), Err(ApiError::ImageError(ImageProxyError::ImageError(_)))));
    assert!(images.get_image("u2", &params).is_none());
}
