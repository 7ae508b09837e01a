//! The aggregation policy, the micro-blog media expansion, the submission
//! API session machine and the account-linking text flow.

use foxbot::handlers::group_source::{GroupSourceHandler, SourceMatch, SourceReply};
use foxbot::handlers::text::{TextAction, TextHandler};
use foxbot::sites::direct::{Direct, ReverseMatch};
use foxbot::sites::inkbunny::{Inkbunny, InkbunnyResponse, SubmissionsStep};
use foxbot::sites::twitter::{get_best_video, MediaEntity, TokenChoice, TweetData, Twitter, VideoVariant};
use foxbot::sites::FetchError;

fn m(url: &str, distance: u64) -> SourceMatch {
    SourceMatch { url: url.to_string(), distance }
}

#[test]
fn distance_filter_keeps_ranked_order() {
    let h = GroupSourceHandler;
    let matches = vec![m("https://a.example/1", 1), m("https://b.example/2", 5), m(
        "https://c.example/3",
        2,
    )];
    match h.handle(&matches, &Vec::new()) {
        SourceReply::Multiple { items } => {
            assert_eq!(items.len(), 2);
            assert_eq!(items[0], ("https://a.example/1".to_string(), 1));
            assert_eq!(items[1], ("https://c.example/3".to_string(), 2));
        },
        other => panic!("expected the multi-match template, got {:?}", other),
    }
}

#[test]
fn already_linked_match_suppresses_reply() {
    let h = GroupSourceHandler;
    let matches = vec![m("https://a.example/1", 1), m("https://c.example/3", 2)];
    let links = vec!["https://c.example/3".to_string()];
    assert!(matches!(h.handle(&matches, &links), SourceReply::NoReply));
}

#[test]
fn unrelated_links_do_not_suppress() {
    let h = GroupSourceHandler;
    let matches = vec![m("https://a.example/1", 1)];
    let links = vec!["https://unrelated.example/x".to_string()];
    match h.handle(&matches, &links) {
        SourceReply::Single { link } => assert_eq!(link, "https://a.example/1".to_string()),
        other => panic!("expected the single-match template, got {:?}", other),
    }
}

#[test]
fn empty_filter_result_means_no_reply() {
    let h = GroupSourceHandler;
    let matches = vec![m("https://a.example/1", 4), m("https://b.example/2", 9)];
    assert!(matches!(h.handle(&matches, &Vec::new()), SourceReply::NoReply));
    assert!(matches!(h.handle(&Vec::new(), &Vec::new()), SourceReply::NoReply));
}

#[test]
fn threshold_is_inclusive() {
    let h = GroupSourceHandler;
    let matches = vec![m("https://a.example/1", 3)];
    assert!(matches!(h.handle(&matches, &Vec::new()), SourceReply::Single { .. }));
}

fn photo(url: &str) -> MediaEntity {
    MediaEntity {
        media_url_https: url.to_string(),
        expanded_url: "https://twitter.com/a/status/1/photo/1".to_string(),
        video_variants: None,
    }
}

#[test]
fn best_video_picks_highest_bitrate() {
    let media = MediaEntity {
        media_url_https: "https://pbs.example/still.jpg".to_string(),
        expanded_url: "https://twitter.com/a/status/1/video/1".to_string(),
        video_variants: Some(vec![
            VideoVariant { bitrate: Some(300), url: "https://video.example/300.mp4".to_string() },
            VideoVariant { bitrate: Some(800), url: "https://video.example/800.mp4".to_string() },
            VideoVariant { bitrate: Some(150), url: "https://video.example/150.mp4".to_string() },
        ]),
    };
    assert_eq!(get_best_video(&media), Some("https://video.example/800.mp4".to_string()));
    assert_eq!(get_best_video(&photo("https://pbs.example/p.jpg")), None);
}

#[test]
fn tweet_media_expands_to_one_record_each() {
    let t = Twitter::new();
    let tweet = TweetData {
        screen_name: "artist".to_string(),
        protected: true,
        text: "look at this".to_string(),
        media: Some(vec![photo("https://pbs.example/one.jpg"), photo(
            "https://pbs.example/two.png",
        )]),
    };
    let posts = t.records_from_tweet(&tweet).expect("has media");
    assert_eq!(posts.len(), 2);
    for post in &posts {
        assert_eq!(post.source_link, Some("https://twitter.com/a/status/1/photo/1".to_string()));
        assert_eq!(post.title, Some("artist".to_string()));
        assert_eq!(post.extra_caption, Some("look at this".to_string()));
        assert!(post.personal);
        assert_eq!(post.site_name, "Twitter".to_string());
    }
    assert_eq!(posts[0].url, "https://pbs.example/one.jpg".to_string());
    assert_eq!(posts[0].file_type, "jpg".to_string());
    assert_eq!(posts[0].thumb, Some("https://pbs.example/one.jpg:thumb".to_string()));
    assert_eq!(posts[1].url, "https://pbs.example/two.png".to_string());
}

#[test]
fn tweet_video_record_carries_title_and_caption() {
    let t = Twitter::new();
    let tweet = TweetData {
        screen_name: "artist".to_string(),
        protected: false,
        text: "a video".to_string(),
        media: Some(vec![MediaEntity {
            media_url_https: "https://pbs.example/still.jpg".to_string(),
            expanded_url: "https://twitter.com/a/status/1/video/1".to_string(),
            video_variants: Some(vec![VideoVariant {
                bitrate: Some(400),
                url: "https://video.example/clip.mp4".to_string(),
            }]),
        }]),
    };
    let posts = t.records_from_tweet(&tweet).expect("has media");
    assert_eq!(posts.len(), 1);
    assert_eq!(posts[0].url, "https://video.example/clip.mp4".to_string());
    assert_eq!(posts[0].file_type, "mp4".to_string());
    assert_eq!(posts[0].title, Some("artist".to_string()));
    assert_eq!(posts[0].extra_caption, Some("a video".to_string()));
}

#[test]
fn tweet_without_media_is_no_content() {
    let t = Twitter::new();
    let tweet = TweetData {
        screen_name: "artist".to_string(),
        protected: false,
        text: "words only".to_string(),
        media: None,
    };
    assert!(t.records_from_tweet(&tweet).is_none());
}

#[test]
fn token_selection_prefers_linked_account() {
    let t = Twitter::new();
    let h = TextHandler;
    let account = h.account_from_access("key123", "secret456");
    match t.select_token(Some(&account)) {
        TokenChoice::Linked { key, secret } => {
            assert_eq!(key, "key123".to_string());
            assert_eq!(secret, "secret456".to_string());
        },
        TokenChoice::AppBearer => panic!("expected the linked credential"),
    }
    assert!(matches!(t.select_token(None), TokenChoice::AppBearer));
}

#[test]
fn inkbunny_login_success_stores_sid() {
    let mut i = Inkbunny::new("user".to_string(), "pass".to_string());
    let resp = "{\"sid\": \"session-token\", \"user_id\": 42, \"ratingsmask\": \"11111\"}";
    let parsed = i.parse_login_response(resp).expect("well-formed login");
    let sid = i.apply_login(&parsed).expect("open ratings");
    assert_eq!(sid, "session-token".to_string());
    assert_eq!(i.sid, Some("session-token".to_string()));
}

#[test]
fn inkbunny_restricted_ratings_is_fatal() {
    let mut i = Inkbunny::new("user".to_string(), "pass".to_string());
    let resp = "{\"sid\": \"session-token\", \"user_id\": 42, \"ratingsmask\": \"11100\"}";
    let parsed = i.parse_login_response(resp).expect("well-formed login");
    assert!(matches!(i.apply_login(&parsed), Err(FetchError::RestrictedAccount)));
    assert_eq!(i.sid, None);
}

#[test]
fn inkbunny_bad_credentials_is_fatal() {
    let mut i = Inkbunny::new("user".to_string(), "pass".to_string());
    let parsed = i.parse_login_response("{\"error_code\": 0}").expect("well-formed error");
    assert!(matches!(i.apply_login(&parsed), Err(FetchError::InvalidCredentials)));
    let parsed = i.parse_login_response("{\"error_code\": 7}").expect("well-formed error");
    assert!(matches!(i.apply_login(&parsed), Err(FetchError::UnhandledCode { code: 7 })));
}

#[test]
fn inkbunny_session_expiry_retries_exactly_once() {
    let mut i = Inkbunny::new("user".to_string(), "pass".to_string());
    i.sid = Some("stale".to_string());
    // First expired response: the session is dropped and one retry is asked.
    let step = i.process_submissions_response(InkbunnyResponse::Error { error_code: 2 }, false);
    assert!(matches!(step, SubmissionsStep::RetryAfterLogin));
    assert_eq!(i.sid, None);
    // A second expiry on the retried request is final.
    let step = i.process_submissions_response(InkbunnyResponse::Error { error_code: 2 }, true);
    assert!(matches!(step, SubmissionsStep::Failed(FetchError::SessionExpired)));
}

#[test]
fn inkbunny_other_error_codes_abort_without_retry() {
    let mut i = Inkbunny::new("user".to_string(), "pass".to_string());
    i.sid = Some("live".to_string());
    let step = i.process_submissions_response(InkbunnyResponse::Error { error_code: 3 }, false);
    assert!(matches!(step, SubmissionsStep::Failed(FetchError::UnhandledCode { code: 3 })));
    assert_eq!(i.sid, Some("live".to_string()));
}

#[test]
fn inkbunny_submissions_expand_per_file() {
    let i = Inkbunny::new("user".to_string(), "pass".to_string());
    let resp = "{\"results_count\": 1, \"submissions\": [{\"submission_id\": \"77\", \"files\": [{\"file_id\": \"1\", \"file_name\": \"a.png\", \"thumbnail_url_medium_noncustom\": \"https://ib.example/a-thumb.png\", \"file_url_screen\": \"https://ib.example/a.png\"}, {\"file_id\": \"2\", \"file_name\": \"b.jpg\", \"thumbnail_url_medium_noncustom\": \"https://ib.example/b-thumb.jpg\", \"file_url_screen\": \"https://ib.example/b.jpg\"}]}]}";
    let parsed = i.parse_submissions_response(resp).expect("well-formed");
    let subs = match parsed {
        InkbunnyResponse::Success(subs) => subs,
        InkbunnyResponse::Error { .. } => panic!("expected a success response"),
    };
    assert_eq!(subs.results_count, 1);
    let url = "https://inkbunny.net/s/77";
    let posts = i.records_from_submissions(&subs, url).expect("has files");
    assert_eq!(posts.len(), 2);
    assert_eq!(posts[0].url, "https://ib.example/a.png".to_string());
    assert_eq!(posts[0].file_type, "png".to_string());
    assert_eq!(posts[0].thumb, Some("https://ib.example/a-thumb.png".to_string()));
    assert_eq!(posts[0].source_link, Some(url.to_string()));
    assert_eq!(posts[1].url, "https://ib.example/b.jpg".to_string());
    assert_eq!(posts[1].site_name, "Inkbunny".to_string());
}

#[test]
fn inkbunny_no_files_is_no_content() {
    let i = Inkbunny::new("user".to_string(), "pass".to_string());
    let resp = "{\"results_count\": 0, \"submissions\": []}";
    let parsed = i.parse_submissions_response(resp).expect("well-formed");
    let subs = match parsed {
        InkbunnyResponse::Success(subs) => subs,
        InkbunnyResponse::Error { .. } => panic!("expected a success response"),
    };
    assert!(i.records_from_submissions(&subs, "https://inkbunny.net/s/1").is_none());
}

#[test]
fn direct_record_falls_back_without_enrichment() {
    let d = Direct::new();
    let posts = d.get_images("https://example.com/pic.png", None);
    assert_eq!(posts.len(), 1);
    assert_eq!(posts[0].url, "https://example.com/pic.png".to_string());
    assert_eq!(posts[0].file_type, "png".to_string());
    assert_eq!(posts[0].source_link, None);
    assert_eq!(posts[0].site_name, "direct link".to_string());
}

#[test]
fn direct_record_takes_enrichment_attribution() {
    let d = Direct::new();
    let hit = ReverseMatch {
        source_url: "https://www.furaffinity.net/view/99/".to_string(),
        site_name: "FurAffinity".to_string(),
    };
    let posts = d.get_images("https://example.com/pic.png", Some(&hit));
    assert_eq!(posts[0].source_link, Some("https://www.furaffinity.net/view/99/".to_string()));
    assert_eq!(posts[0].site_name, "FurAffinity".to_string());
}

#[test]
fn oob_codes_are_recognized() {
    let h = TextHandler;
    assert_eq!(h.parse_code("1234567"), Some(1234567));
    assert_eq!(h.parse_code("  1234567  "), Some(1234567));
    assert_eq!(h.parse_code("-45"), Some(-45));
    assert_eq!(h.parse_code("+45"), Some(45));
    assert_eq!(h.parse_code("2147483647"), Some(2147483647));
    assert_eq!(h.parse_code("-2147483648"), Some(-2147483648));
    assert_eq!(h.parse_code("2147483648"), None);
    assert_eq!(h.parse_code("12a"), None);
    assert_eq!(h.parse_code("hello"), None);
    assert_eq!(h.parse_code(""), None);
}

#[test]
fn text_flow_needs_code_and_pending_request() {
    let h = TextHandler;
    assert_eq!(h.handle("1234567", true), TextAction::CompleteLink { code: 1234567 });
    assert_eq!(h.handle("1234567", false), TextAction::Ignored);
    assert_eq!(h.handle("not a code", true), TextAction::Ignored);
}

#[test]
fn handler_names() {
    assert_eq!(GroupSourceHandler.name(), "group".to_string());
    assert_eq!(TextHandler.name(), "text".to_string());
}
