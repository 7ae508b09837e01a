//! Provider response documents mapped onto normalized records, with the
//! real JSON and HTML parsers linked in.

use foxbot::sites::e621::E621;
use foxbot::sites::furaffinity::FurAffinity;
use foxbot::sites::mastodon::Mastodon;
use foxbot::sites::weasyl::Weasyl;
use foxbot::sites::{FetchError, ProviderKind};

#[test]
fn e621_response_maps_to_one_record() {
    let e = E621::new();
    let resp = "{\"post\": {\"id\": 123456, \"file\": {\"ext\": \"png\", \"url\": \"https://static1.e621.net/data/ab/cd/f.png\"}, \"preview\": {\"url\": \"https://static1.e621.net/data/preview/ab/cd/f.png\"}}}";
    let posts = e.parse_response(resp).expect("well-formed response");
    assert_eq!(posts.len(), 1);
    assert_eq!(posts[0].file_type, "png".to_string());
    assert_eq!(posts[0].url, "https://static1.e621.net/data/ab/cd/f.png".to_string());
    assert_eq!(
        posts[0].thumb,
        Some("https://static1.e621.net/data/preview/ab/cd/f.png".to_string())
    );
    assert_eq!(posts[0].source_link, Some("https://e621.net/posts/123456".to_string()));
    assert_eq!(posts[0].site_name, "e621".to_string());
    assert!(!posts[0].personal);
}

#[test]
fn e621_malformed_response_is_a_parse_error() {
    let e = E621::new();
    assert!(matches!(
        e.parse_response("not json at all"),
        Err(FetchError::Parse { site: ProviderKind::E621 })
    ));
    assert!(matches!(
        e.parse_response("{\"post\": {\"id\": 1}}"),
        Err(FetchError::Parse { site: ProviderKind::E621 })
    ));
}

#[test]
fn weasyl_zips_submissions_with_thumbnails() {
    let w = Weasyl::new("k".to_string());
    let resp = "{\"media\": {\"submission\": [{\"url\": \"https://cdn.weasyl.com/a.png\"}, {\"url\": \"https://cdn.weasyl.com/b.png\"}], \"thumbnail\": [{\"url\": \"https://cdn.weasyl.com/a-thumb.png\"}, {\"url\": \"https://cdn.weasyl.com/b-thumb.png\"}]}}";
    let url = "https://www.weasyl.com/submission/1/t";
    let posts = w.parse_response(resp, url).expect("well-formed").expect("has media");
    assert_eq!(posts.len(), 2);
    assert_eq!(posts[0].url, "https://cdn.weasyl.com/a.png".to_string());
    assert_eq!(posts[0].thumb, Some("https://cdn.weasyl.com/a-thumb.png".to_string()));
    assert_eq!(posts[0].file_type, "png".to_string());
    assert_eq!(posts[0].source_link, Some(url.to_string()));
    assert_eq!(posts[1].url, "https://cdn.weasyl.com/b.png".to_string());
    assert_eq!(posts[1].source_link, Some(url.to_string()));
    assert_eq!(posts[1].site_name, "Weasyl".to_string());
}

#[test]
fn weasyl_zip_truncates_to_shorter_array() {
    let w = Weasyl::new("k".to_string());
    let resp = "{\"media\": {\"submission\": [{\"url\": \"https://cdn.weasyl.com/a.png\"}, {\"url\": \"https://cdn.weasyl.com/b.png\"}], \"thumbnail\": [{\"url\": \"https://cdn.weasyl.com/a-thumb.png\"}]}}";
    let posts = w.parse_response(resp, "u").expect("well-formed").expect("has media");
    assert_eq!(posts.len(), 1);
    assert_eq!(posts[0].url, "https://cdn.weasyl.com/a.png".to_string());
}

#[test]
fn weasyl_empty_submissions_is_no_content() {
    let w = Weasyl::new("k".to_string());
    let resp = "{\"media\": {\"submission\": [], \"thumbnail\": []}}";
    assert!(matches!(w.parse_response(resp, "u"), Ok(None)));
}

#[test]
fn weasyl_missing_field_is_a_schema_error() {
    let w = Weasyl::new("k".to_string());
    assert!(matches!(
        w.parse_response("{\"media\": {}}", "u"),
        Err(FetchError::MissingField { site: ProviderKind::Weasyl })
    ));
    assert!(matches!(
        w.parse_response("{}", "u"),
        Err(FetchError::MissingField { site: ProviderKind::Weasyl })
    ));
    assert!(matches!(
        w.parse_response("nope", "u"),
        Err(FetchError::Parse { site: ProviderKind::Weasyl })
    ));
}

#[test]
fn mastodon_attachments_share_status_url() {
    let m = Mastodon::new();
    let resp = "{\"url\": \"https://mastodon.example/@user/1\", \"media_attachments\": [{\"url\": \"https://files.example/a.png\", \"preview_url\": \"https://files.example/a-small.png\"}, {\"url\": \"https://files.example/b.jpg\", \"preview_url\": \"https://files.example/b-small.jpg\"}]}";
    let posts = m.parse_response(resp).expect("well-formed").expect("has media");
    assert_eq!(posts.len(), 2);
    assert_eq!(posts[0].url, "https://files.example/a.png".to_string());
    assert_eq!(posts[0].file_type, "png".to_string());
    assert_eq!(posts[0].thumb, Some("https://files.example/a-small.png".to_string()));
    assert_eq!(posts[0].source_link, Some("https://mastodon.example/@user/1".to_string()));
    assert_eq!(posts[1].source_link, Some("https://mastodon.example/@user/1".to_string()));
    assert_eq!(posts[1].file_type, "jpg".to_string());
    assert_eq!(posts[0].site_name, "Mastodon".to_string());
}

#[test]
fn mastodon_empty_attachments_is_no_content() {
    let m = Mastodon::new();
    let resp = "{\"url\": \"https://mastodon.example/@user/1\", \"media_attachments\": []}";
    assert!(matches!(m.parse_response(resp), Ok(None)));
}

#[test]
fn mastodon_malformed_response_is_a_parse_error() {
    let m = Mastodon::new();
    assert!(matches!(
        m.parse_response("{\"media_attachments\": []}"),
        Err(FetchError::Parse { site: ProviderKind::Mastodon })
    ));
}

#[test]
fn furaffinity_page_with_image() {
    let f = FurAffinity::new(("x".to_string(), "y".to_string()));
    let html = "<html><body><img id=\"submissionImg\" src=\"//d.facdn.net/art/someone/1/pic.png\"></body></html>";
    let url = "https://www.furaffinity.net/view/1/";
    let post = f.parse_submission_page(html, url).expect("parses").expect("has image");
    assert_eq!(post.url, "https://d.facdn.net/art/someone/1/pic.png".to_string());
    assert_eq!(post.file_type, "png".to_string());
    assert_eq!(post.source_link, Some(url.to_string()));
    assert_eq!(post.site_name, "FurAffinity".to_string());
}

#[test]
fn furaffinity_page_without_image_is_no_content() {
    let f = FurAffinity::new(("x".to_string(), "y".to_string()));
    let html = "<html><body><p>gone</p></body></html>";
    assert!(matches!(f.parse_submission_page(html, "u"), Ok(None)));
}

#[test]
fn furaffinity_image_without_src_is_a_schema_error() {
    let f = FurAffinity::new(("x".to_string(), "y".to_string()));
    let html = "<html><body><img id=\"submissionImg\"></body></html>";
    assert!(matches!(
        f.parse_submission_page(html, "u"),
        Err(FetchError::MissingField { site: ProviderKind::FurAffinity })
    ));
}

#[test]
fn furaffinity_cookie_header_round_trip() {
    let mut f = FurAffinity::new(("first".to_string(), "second".to_string()));
    assert_eq!(f.stringify_cookies(), "a=first; b=second".to_string());
    // A solved challenge replaces one cookie and adds another.
    f.merge_challenge_cookies("b=fresh; cf_clearance=token123").expect("well-formed cookies");
    assert_eq!(f.stringify_cookies(), "a=first; b=fresh; cf_clearance=token123".to_string());
    // A value is everything between a pair's first and second equals sign.
    f.merge_challenge_cookies("b=x=y").expect("well-formed cookies");
    assert_eq!(f.stringify_cookies(), "a=first; b=x; cf_clearance=token123".to_string());
}

#[test]
fn furaffinity_malformed_cookie_data_is_an_error() {
    let mut f = FurAffinity::new(("first".to_string(), "second".to_string()));
    assert!(matches!(
        f.merge_challenge_cookies("no-equals-sign"),
        Err(FetchError::MissingField { site: ProviderKind::FurAffinity })
    ));
    assert_eq!(f.stringify_cookies(), "a=first; b=second".to_string());
}

#[test]
fn furaffinity_challenge_statuses() {
    let f = FurAffinity::new(("x".to_string(), "y".to_string()));
    assert!(f.status_needs_challenge(429));
    assert!(f.status_needs_challenge(503));
    assert!(!f.status_needs_challenge(200));
    assert!(!f.status_needs_challenge(404));
}
