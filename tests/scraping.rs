use scrapn_core::config::AppConfig;
use scrapn_core::json::parse_json;
use scrapn_core::normalize::{
    extract_from_additional_data_sources, extract_posts_from_items, extract_posts_from_json,
    extract_user_data_from_api_response, extract_user_data_from_json,
};
use scrapn_core::proxy::{ProxyManager, ProxyProtocol};
use scrapn_core::scraper::{
    interpret_response, FetchOutcome, InstagramScraper, ProfileReply, RequestKind, ScrapeStep,
    ScraperError, Tier,
};

fn config(cookies: bool) -> AppConfig {
    AppConfig {
        port: 8000,
        address: "127.0.0.1".to_string(),
        instagram_cache_duration: 1,
        timeout: 10,
        max_retries: 1,
        user_agent: "agent".to_string(),
        instagram_username_whitelist: None,
        instagram_cookies: if cookies { Some("sessionid=1".to_string()) } else { None },
        proxies: None,
    }
}

const GRAPHQL: &str = r#"{"graphql":{"user":{"id":"42","is_private":false,"full_name":"Alice","biography":"bio",
"profile_pic_url_hd":"https://cdn/pp_hd.jpg","profile_pic_url":"https://cdn/pp.jpg","is_verified":true,
"edge_followed_by":{"count":10},"edge_follow":{"count":3},
"edge_owner_to_timeline_media":{"count":20,"edges":[
 {"node":{"id":"p1","shortcode":"s1","display_url":"https://cdn/1.jpg","is_video":false,
  "edge_liked_by":{"count":5},"edge_media_to_comment":{"count":2},"taken_at_timestamp":1700000000,
  "edge_media_to_caption":{"edges":[{"node":{"text":"hello"}}]}}},
 {"node":{"id":"p2","shortcode":"s2","display_url":"https://cdn/2.jpg","is_video":true,
  "video_url":"https://cdn/2.mp4","video_view_count":99}}]}}}}"#;

#[test]
fn graphql_profile_is_normalised() {
    let j = parse_json(GRAPHQL).unwrap();
    let u = extract_user_data_from_json(&j, "alice", 123).unwrap();
    assert_eq!(u.username, "alice");
    assert_eq!(u.full_name.as_deref(), Some("Alice"));
    assert_eq!(u.profile_pic_url.as_deref(), Some("https://cdn/pp_hd.jpg"));
    assert!(u.is_verified);
    assert_eq!(u.stats.posts_count, Some(20));
    assert_eq!(u.stats.followers_count, Some(10));
    assert_eq!(u.stats.following_count, Some(3));
    assert!(u.posts_limited);
    assert_eq!(u.scraped_at, 123);
    let posts = u.posts.unwrap();
    assert_eq!(posts.len(), 2);
    assert_eq!(posts[0].caption.as_deref(), Some("hello"));
    assert_eq!(posts[0].likes_count, Some(5));
    assert_eq!(posts[0].timestamp, Some(1700000000));
    assert_eq!(posts[0].video_url, None);
    assert_eq!(posts[1].video_url.as_deref(), Some("https://cdn/2.mp4"));
    let reels = u.reels.unwrap();
    assert_eq!(reels.len(), 1);
    assert_eq!(reels[0].id, "p2");
    assert_eq!(reels[0].views_count, Some(99));
}

#[test]
fn graphql_missing_counters_stay_unset() {
    let j = parse_json(r#"{"graphql":{"user":{"is_private":false,"edge_follow":{"count":1}}}}"#).unwrap();
    let u = extract_user_data_from_json(&j, "bob", 0).unwrap();
    assert_eq!(u.stats.posts_count, None);
    assert_eq!(u.stats.followers_count, None);
    assert_eq!(u.stats.following_count, Some(1));
    assert!(u.posts.is_none());
    let p = parse_json(r#"{"graphql":{"user":{"is_private":true}}}"#).unwrap();
    let u = extract_user_data_from_json(&p, "bob", 0).unwrap();
    assert!(u.is_private && u.posts.is_none() && u.reels.is_none());
    let none = parse_json(r#"{"graphql":{"user":{"full_name":"x"}}}"#).unwrap();
    assert!(extract_user_data_from_json(&none, "bob", 0).is_none());
}

#[test]
fn pagination_gap_gives_explicit_empty_posts() {
    let j = parse_json(r#"{"count":5,"edges":[]}"#).unwrap();
    assert_eq!(extract_posts_from_json(&j).map(|v| v.len()), Some(0));
    let j = parse_json(r#"{"count":0,"edges":[]}"#).unwrap();
    assert!(extract_posts_from_json(&j).is_none());
    let j = parse_json(r#"{"media_count":7,"is_private":false}"#).unwrap();
    let u = extract_user_data_from_api_response(&j, "carol", 0).unwrap();
    assert_eq!(u.posts.map(|v| v.len()), Some(0));
    assert!(u.posts_limited);
    assert_eq!(u.reels.map(|v| v.len()), Some(0));
}

#[test]
fn feed_items_with_alternative_fields() {
    let j = parse_json(r#"[{"pk":12345,"code":"c1","media_type":2,"like_count":4,"comment_count":1,
      "image_versions2":{"candidates":[{"url":"https://cdn/c1.jpg"}]},"caption":{"text":"cap"},
      "play_count":77,"video_url":"https://cdn/c1.mp4","taken_at":1600000000},
      {"id":"x","shortcode":"c2","product_type":"clips"},
      {"code":"no-id"}]"#).unwrap();
    let items = match &j { scrapn_core::json::JsonValue::Array(a) => a, _ => panic!("array") };
    let posts = extract_posts_from_items(items).unwrap();
    assert_eq!(posts.len(), 2);
    assert_eq!(posts[0].id, "12345");
    assert_eq!(posts[0].display_url, "https://cdn/c1.jpg");
    assert_eq!(posts[0].caption.as_deref(), Some("cap"));
    assert!(posts[0].is_video);
    assert_eq!(posts[0].video_view_count, Some(77));
    assert_eq!(posts[0].timestamp, Some(1600000000));
    assert!(posts[1].is_video);
    assert_eq!(posts[1].display_url, "https://example.com/placeholder.jpg");
}

#[test]
fn private_api_profile_has_no_content() {
    let j = parse_json(r#"{"is_private":true,"media_count":50,"items":[{"id":"1","code":"a"}]}"#).unwrap();
    let u = extract_user_data_from_api_response(&j, "dave", 0).unwrap();
    assert!(u.is_private);
    assert!(u.posts.is_none());
    assert!(u.reels.is_none());
    assert!(!u.posts_limited);
}

#[test]
fn embedded_page_data_is_found() {
    let filler = "x".repeat(1200);
    let html = format!(
        "<html><head><script type=\"application/json\">{{\"require\":[[\"Other\"],[\"ProfilePageContainer\",1,2,{{\"user\":{{\"full_name\":\"Eve\",\"media_count\":0}}}}]]}}</script></head><body>{}</body></html>",
        filler
    );
    let u = extract_from_additional_data_sources(&html, "eve", 5).unwrap();
    assert_eq!(u.full_name.as_deref(), Some("Eve"));
    let html2 = format!("<script>window.__additionalDataLoaded('/eve/',{{\"user\":{{\"full_name\":\"Eve2\"}}}});</script>{}", filler);
    let u2 = extract_from_additional_data_sources(&html2, "eve", 5).unwrap();
    assert_eq!(u2.full_name.as_deref(), Some("Eve2"));
    assert!(extract_from_additional_data_sources(&filler, "eve", 5).is_none());
}

#[test]
fn response_statuses_by_tier() {
    let none: Option<String> = None;
    assert!(matches!(interpret_response(Tier::WebApi, 404, &none, "a", false, 0), ProfileReply::Failed(ScraperError::ProfileNotFound)));
    assert!(matches!(interpret_response(Tier::WebApi, 429, &none, "a", false, 0), ProfileReply::Failed(ScraperError::RateLimited)));
    match interpret_response(Tier::MobileApi, 401, &Some("login".to_string()), "a", false, 0) {
        ProfileReply::Failed(ScraperError::UnauthorizedAccess(m)) => assert_eq!(m, "login"),
        _ => panic!("expected unauthorized"),
    }
    match interpret_response(Tier::Html, 500, &none, "a", false, 0) {
        ProfileReply::Failed(ScraperError::ParsingError(m)) => assert_eq!(m, "HTTP error status: 500"),
        _ => panic!("expected a status error"),
    }
    match interpret_response(Tier::WebApi, 200, &Some(String::new()), "a", false, 0) {
        ProfileReply::Failed(ScraperError::ParsingError(m)) => assert_eq!(m, "Empty response body"),
        _ => panic!("expected empty body"),
    }
    match interpret_response(Tier::Html, 200, &Some("<html>short</html>".to_string()), "a", false, 0) {
        ProfileReply::Failed(ScraperError::ParsingError(m)) => assert_eq!(m, "HTML response too short, likely blocked"),
        _ => panic!("expected too short"),
    }
    assert!(matches!(interpret_response(Tier::Html, 200, &none, "a", false, 0), ProfileReply::Failed(ScraperError::NetworkError(_))));
    let private = Some(r#"{"data":{"user":{"is_private":true}}}"#.to_string());
    assert!(matches!(interpret_response(Tier::MobileApi, 200, &private, "a", false, 0), ProfileReply::Failed(ScraperError::PrivateProfile)));
    assert!(matches!(interpret_response(Tier::WebApi, 200, &Some(GRAPHQL.to_string()), "alice", false, 0), ProfileReply::Found(_)));
}

#[test]
fn empty_first_page_with_session_asks_for_posts() {
    let body = Some(r#"{"graphql":{"user":{"id":"42","is_private":false,"edge_followed_by":{"count":1},"edge_follow":{"count":1},
      "edge_owner_to_timeline_media":{"count":3,"edges":[]}}}}"#.to_string());
    match interpret_response(Tier::WebApi, 200, &body, "a", true, 0) {
        ProfileReply::NeedsPosts(u, id) => {
            assert_eq!(id, "42");
            assert_eq!(u.posts.map(|v| v.len()), Some(0));
        },
        _ => panic!("expected a posts request"),
    }
    assert!(matches!(interpret_response(Tier::WebApi, 200, &body, "a", false, 0), ProfileReply::Found(_)));
}

#[test]
fn proxy_protocols_and_normalisation() {
    assert_eq!(ProxyManager::detect_proxy_protocol("socks5://h:1"), ProxyProtocol::SOCKS5);
    assert_eq!(ProxyManager::detect_proxy_protocol("h:1080"), ProxyProtocol::SOCKS5);
    assert_eq!(ProxyManager::detect_proxy_protocol("h:9050"), ProxyProtocol::SOCKS5);
    assert_eq!(ProxyManager::detect_proxy_protocol("h:3128"), ProxyProtocol::HTTP);
    assert_eq!(ProxyManager::detect_proxy_protocol("h:443"), ProxyProtocol::HTTPS);
    assert_eq!(ProxyManager::detect_proxy_protocol("https://h"), ProxyProtocol::HTTPS);
    assert_eq!(ProxyManager::detect_proxy_protocol("h:1234"), ProxyProtocol::HTTP);
    assert_eq!(ProxyManager::detect_proxy_protocol("h:4430"), ProxyProtocol::HTTP);
    assert_eq!(ProxyManager::detect_proxy_protocol("h:8081"), ProxyProtocol::HTTP);
    assert_eq!(ProxyManager::detect_proxy_protocol("h:80"), ProxyProtocol::HTTP);
    assert_eq!(ProxyManager::detect_proxy_protocol("h"), ProxyProtocol::HTTP);
    let pm = ProxyManager::new(Some(vec!["h:1080".to_string(), "h:443".to_string(), "http://x:1".to_string(), "h:1080".to_string()]), 4);
    assert_eq!(pm.get_proxy_count(), (3, 3));
    assert_eq!(pm.normalize_proxy_url("h:1080"), "socks5://h:1080");
    assert_eq!(pm.normalize_proxy_url("h:443"), "https://h:443");
    assert_eq!(pm.normalize_proxy_url("http://x:1"), "http://x:1");
    assert_eq!(pm.normalize_proxy_url("unknown:5"), "http://unknown:5");
    assert_eq!(pm.get_proxy_protocol("nope"), ProxyProtocol::Unknown);
    let report = pm.debug_proxy_list();
    assert_eq!(report.len(), 3);
    assert!(!report[0].has_scheme);
    assert_eq!(report[0].normalized, "socks5://h:1080");
}

#[test]
fn marked_endpoint_recovers_after_cooldown() {
    let mut pm = ProxyManager::new(Some(vec!["a:1".to_string()]), 1);
    pm.mark_proxy_unavailable("a:1", 1000);
    assert_eq!(pm.get_proxy_count(), (0, 1));
    assert_eq!(pm.get_random_proxy(1000 + 3599), None);
    assert_eq!(pm.get_random_proxy(1000 + 3600), Some("a:1".to_string()));
    assert_eq!(pm.get_proxy_count(), (1, 1));
    pm.mark_proxy_unavailable("a:1", 5);
    pm.reset_all_proxies();
    assert_eq!(pm.get_proxy_count(), (1, 1));
}

#[test]
fn transport_failures_exhaust_every_endpoint() {
    let pm = ProxyManager::new(Some(vec!["a:1".to_string(), "b:2".to_string(), "c:3".to_string()]), 4);
    let mut sc = InstagramScraper::new(config(false), pm);
    let (mut s, mut step) = sc.begin("alice", 100);
    let mut fetches = 0;
    let result = loop {
        match step {
            ScrapeStep::Fetch(req) => {
                assert!(req.proxy.is_some());
                fetches += 1;
                step = sc.advance(&mut s, FetchOutcome::Transport("connection refused".to_string()), 100, 0);
            },
            ScrapeStep::Done(r) => break r,
        }
    };
    assert_eq!(fetches, 3);
    assert_eq!(s.tier_failures.len(), 3);
    assert!(s.tier_failures.iter().all(|e| matches!(e, ScraperError::AllProxiesFailed)));
    match result {
        Err(ScraperError::ParsingError(m)) => assert_eq!(m, "Could not retrieve profile data for alice"),
        _ => panic!("expected the generic failure"),
    }
    let pool = sc.proxy_pool().as_ref().unwrap();
    assert_eq!(pool.get_proxy_count(), (0, 3));
    let mut pool = ProxyManager::new(Some(vec!["a:1".to_string(), "b:2".to_string(), "c:3".to_string()]), 4);
    for a in ["a:1", "b:2", "c:3"] {
        pool.mark_proxy_unavailable(a, 100);
    }
    assert!(pool.get_random_proxy(100 + 4 * 3600).is_some());
    assert_eq!(pool.get_proxy_count(), (3, 3));
}

#[test]
fn empty_pool_fails_every_tier_without_requests() {
    let mut sc = InstagramScraper::new(config(false), ProxyManager::new(None, 4));
    let (s, step) = sc.begin("zed", 0);
    assert!(matches!(step, ScrapeStep::Done(Err(ScraperError::ParsingError(_)))));
    assert_eq!(s.tier_failures.len(), 3);
    assert!(matches!(s.tier_failures[0], ScraperError::ProxyConfigurationMissing));
}

#[test]
fn direct_scrape_walks_tiers_then_succeeds() {
    let mut sc = InstagramScraper::without_proxies(config(false));
    let (mut s, step) = sc.begin("alice", 0);
    let req = match step { ScrapeStep::Fetch(r) => r, _ => panic!("fetch") };
    assert_eq!(req.kind, RequestKind::WebApi);
    assert_eq!(req.url, "https://www.instagram.com/alice/?__a=1&__d=dis");
    assert!(req.proxy.is_none());
    let step = sc.advance(&mut s, FetchOutcome::Response { status: 404, body: None }, 0, 0);
    let req = match step { ScrapeStep::Fetch(r) => r, _ => panic!("fetch") };
    assert_eq!(req.kind, RequestKind::MobileApi);
    assert_eq!(req.url, "https://i.instagram.com/api/v1/users/web_profile_info/?username=alice");
    assert!(matches!(s.tier_failures[0], ScraperError::ProfileNotFound));
    let body = Some(r#"{"data":{"user":{"full_name":"Alice","media_count":0}}}"#.to_string());
    let step = sc.advance(&mut s, FetchOutcome::Response { status: 200, body }, 0, 77);
    match step {
        ScrapeStep::Done(Ok(u)) => {
            assert_eq!(u.full_name.as_deref(), Some("Alice"));
            assert_eq!(u.scraped_at, 77);
        },
        _ => panic!("expected a profile"),
    }
}

#[test]
fn supplementary_pages_fill_posts() {
    let mut sc = InstagramScraper::without_proxies(config(true));
    let (mut s, _) = sc.begin("alice", 0);
    let body = Some(r#"{"graphql":{"user":{"id":"42","is_private":false,"edge_followed_by":{"count":1},"edge_follow":{"count":1},
      "edge_owner_to_timeline_media":{"count":3,"edges":[]}}}}"#.to_string());
    let step = sc.advance(&mut s, FetchOutcome::Response { status: 200, body }, 0, 0);
    let req = match step { ScrapeStep::Fetch(r) => r, _ => panic!("fetch") };
    assert_eq!(req.kind, RequestKind::PostsPage);
    assert!(req.url.contains("%22id%22%3A%2242%22"));
    assert!(req.send_cookies);
    let step = sc.advance(&mut s, FetchOutcome::Response { status: 500, body: None }, 0, 0);
    let req = match step { ScrapeStep::Fetch(r) => r, _ => panic!("fetch") };
    assert_eq!(req.kind, RequestKind::PostsFeed);
    assert_eq!(req.url, "https://i.instagram.com/api/v1/feed/user/42/?count=12");
    let feed = Some(r#"{"items":[{"id":"9","code":"k9"}]}"#.to_string());
    match sc.advance(&mut s, FetchOutcome::Response { status: 200, body: feed }, 0, 0) {
        ScrapeStep::Done(Ok(u)) => {
            assert_eq!(u.posts.map(|p| p.len()), Some(1));
            assert!(u.posts_limited);
        },
        _ => panic!("expected a profile"),
    }
}

#[test]
fn error_messages() {
    assert_eq!(ScraperError::AllProxiesFailed.message(), "All proxies failed");
    assert_eq!(ScraperError::ParsingError("x".to_string()).message(), "Parsing error: x");
    assert_eq!(ScraperError::ProxyConfigurationMissing.message(), "No proxies configured");
}

#[test]
fn unrepresentable_timestamp_is_dropped() {
    let j = parse_json(r#"{"count":1,"edges":[{"node":{"id":"1","shortcode":"s","display_url":"u","taken_at_timestamp":9223372036854775807}},
      {"node":{"id":"2","shortcode":"t","display_url":"v","taken_at_timestamp":0}}]}"#).unwrap();
    let posts = extract_posts_from_json(&j).unwrap();
    assert_eq!(posts[0].timestamp, None);
    assert_eq!(posts[1].timestamp, Some(0));
}

#[test]
fn edge_without_node_spoils_the_timeline() {
    let j = parse_json(r#"{"count":2,"edges":[{"node":{"id":"1","shortcode":"s","display_url":"u"}},{"other":1}]}"#).unwrap();
    assert!(extract_posts_from_json(&j).is_none());
    assert!(parse_json("{not json").is_none());
}

#[test]
fn empty_first_page_with_positive_count_is_limited() {
    let j = parse_json(r#"{"is_private":false,"edge_owner_to_timeline_media":{"count":5,"edges":[]}}"#).unwrap();
    let u = extract_user_data_from_api_response(&j, "fay", 0).unwrap();
    assert_eq!(u.stats.posts_count, Some(5));
    assert_eq!(u.posts.as_ref().map(|v| v.len()), Some(0));
    assert!(u.posts_limited);
    let g = parse_json(r#"{"graphql":{"user":{"is_private":false,"edge_owner_to_timeline_media":{"count":5,"edges":[]}}}}"#).unwrap();
    let u = extract_user_data_from_json(&g, "fay", 0).unwrap();
    assert_eq!(u.posts.as_ref().map(|v| v.len()), Some(0));
    assert!(u.posts_limited);
}

#[test]
fn content_answer_keeps_the_endpoint_available() {
    let pm = ProxyManager::new(Some(vec!["a:1".to_string(), "b:2".to_string()]), 4);
    let mut sc = InstagramScraper::new(config(false), pm);
    let (mut s, step) = sc.begin("alice", 10);
    assert!(matches!(step, ScrapeStep::Fetch(_)));
    let step = sc.advance(&mut s, FetchOutcome::Response { status: 404, body: None }, 10, 0);
    assert!(matches!(step, ScrapeStep::Fetch(_)));
    assert_eq!(sc.proxy_pool().as_ref().unwrap().get_proxy_count(), (2, 2));
}
