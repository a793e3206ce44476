use scrapn_core::models::{extract_image_id, url_decode, InstagramPost, InstagramUser, InstagramUserStats};

fn user_with(pic: Option<&str>, posts: Vec<InstagramPost>) -> InstagramUser {
    InstagramUser {
        username: "alice".to_string(),
        full_name: None,
        biography: None,
        profile_pic_url: pic.map(|s| s.to_string()),
        is_private: false,
        is_verified: false,
        external_url: None,
        stats: InstagramUserStats { posts_count: None, followers_count: None, following_count: None },
        posts: Some(posts),
        reels: None,
        scraped_at: 0,
        posts_limited: false,
    }
}

fn post(display: &str) -> InstagramPost {
    InstagramPost {
        id: "1".to_string(),
        shortcode: "abc".to_string(),
        display_url: display.to_string(),
        thumbnail_url: None,
        caption: None,
        likes_count: None,
        comments_count: None,
        timestamp: None,
        is_video: false,
        video_url: None,
        video_view_count: None,
    }
}

#[test]
fn encoded_cache_key_matches_plain_one() {
    let u = user_with(None, vec![post("https://cdn.example.com/v/t51/abc_123_n.jpg?ig_cache_key=Y%3D")]);
    assert!(u.is_content_url("https://cdn.example.com/v/t51/abc_123_n.jpg?ig_cache_key=Y="));
}

#[test]
fn unrelated_url_is_refused() {
    let u = user_with(None, vec![post("https://cdn.example.com/v/t51/abc_123_n.jpg?ig_cache_key=Y%3D")]);
    assert!(!u.is_content_url("https://evil.example.org/other/picture.png"));
}

#[test]
fn exact_profile_picture_matches() {
    let u = user_with(Some("https://cdn.example.com/pp.png"), vec![]);
    assert!(u.is_content_url("https://cdn.example.com/pp.png"));
    assert!(!u.is_content_url("https://cdn.example.com/other.png"));
}

#[test]
fn filename_identifier_ignores_host_and_query() {
    let u = user_with(None, vec![post("https://a.cdn.net/x/497961779_1803_2003_n.jpg?stp=1&oh=aa")]);
    assert!(u.is_content_url("https://b.cdn.net/y/497961779_1803_2003_n.jpg?stp=2&oh=bb"));
}

#[test]
fn image_identifier_forms() {
    let id = |s: &str| extract_image_id(&s.chars().collect()).map(|v| v.into_iter().collect::<String>());
    assert_eq!(id("https://h/p/ab_cd_n.jpg?x=1"), Some("ab_cd_n.jpg".to_string()));
    assert_eq!(id("https://h/p/img?ig_cache_key=KEY1&x=2"), Some("KEY1".to_string()));
    assert_eq!(id("https://h/p/ab_cd_ef.jpg"), Some("ab_cd".to_string()));
    assert_eq!(id("https://h/p/plain.png"), None);
}

#[test]
fn url_decode_handles_double_encoding() {
    let d = |s: &str| url_decode(&s.chars().collect()).into_iter().collect::<String>();
    assert_eq!(d("Y%3D"), "Y=");
    assert_eq!(d("a%253Ab"), "a:b");
    assert_eq!(d("q%3Fr%3A"), "q?r:");
}
