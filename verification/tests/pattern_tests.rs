//! URL recognition and endpoint construction across the providers.

use foxbot::sites::direct::{Direct, HeadProbe};
use foxbot::sites::e621::E621;
use foxbot::sites::furaffinity::FurAffinity;
use foxbot::sites::inkbunny::Inkbunny;
use foxbot::sites::mastodon::{Mastodon, MastodonCheck};
use foxbot::sites::twitter::Twitter;
use foxbot::sites::weasyl::Weasyl;
use foxbot::sites::{get_file_ext, ProbeRequest, ProviderKind, Resolution, SiteRegistry};

fn registry() -> SiteRegistry {
    SiteRegistry::new(
        FurAffinity::new(("cookie-a".to_string(), "cookie-b".to_string())),
        Weasyl::new("api-key".to_string()),
        Inkbunny::new("user".to_string(), "pass".to_string()),
    )
}

#[test]
fn file_ext_simple() {
    assert_eq!(get_file_ext("https://example.com/foo.png"), Some("png".to_string()));
}

#[test]
fn file_ext_strips_query() {
    assert_eq!(get_file_ext("https://example.com/foo.png?width=100"), Some("png".to_string()));
}

#[test]
fn file_ext_takes_last_dot() {
    assert_eq!(get_file_ext("a.b?c.d"), Some("d".to_string()));
}

#[test]
fn file_ext_without_dot() {
    assert_eq!(get_file_ext("abc"), Some("abc".to_string()));
}

#[test]
fn file_ext_is_lowercased() {
    assert_eq!(get_file_ext("https://example.com/foo.JPG"), Some("jpg".to_string()));
    assert_eq!(get_file_ext("https://example.com/foo.PnG?x=1"), Some("png".to_string()));
}

#[test]
fn file_ext_of_trailing_dot_is_empty() {
    // The degenerate derivation: a final dot yields an empty extension, as
    // the derivation has always produced; the record is still built.
    assert_eq!(get_file_ext("https://example.com/foo."), Some("".to_string()));
}

#[test]
fn e621_supports_post_urls() {
    let e = E621::new();
    assert!(e.url_supported("https://e621.net/posts/123456"));
    assert!(e.url_supported("https://e926.net/post/show/99"));
    assert!(!e.url_supported("https://example.com/posts/1"));
}

#[test]
fn patterns_match_anywhere_in_the_text() {
    // The applicability tests scan the whole text, as an unanchored pattern
    // does: a URL embedded in a message still matches.
    let e = E621::new();
    assert!(e.url_supported("look at https://e621.net/posts/123456 please"));
    let t = Twitter::new();
    assert!(t.url_supported("via https://twitter.com/a/status/42 earlier"));
}

#[test]
fn e621_show_endpoint() {
    let e = E621::new();
    assert_eq!(
        e.api_endpoint("https://e621.net/posts/123456"),
        Some("https://e621.net/posts/123456.json".to_string())
    );
}

#[test]
fn e621_data_endpoint() {
    let e = E621::new();
    let md5 = "0123456789abcdef0123456789abcdef";
    let url = format!("https://static1.e621.net/data/01/23/{}.png", md5);
    assert_eq!(
        e.api_endpoint(&url),
        Some(format!("https://e621.net/posts.json?md5={}", md5))
    );
}

#[test]
fn e621_data_endpoint_with_modifier() {
    let e = E621::new();
    let md5 = "aaaabbbbccccddddeeeeffff00001111";
    let url = format!("https://static1.e926.net/data/sample/aa/bb/{}.jpg", md5);
    assert_eq!(
        e.api_endpoint(&url),
        Some(format!("https://e621.net/posts.json?md5={}", md5))
    );
}

#[test]
fn e621_data_requires_full_hash() {
    let e = E621::new();
    assert_eq!(e.api_endpoint("https://static1.e621.net/data/01/23/0123.png"), None);
}

#[test]
fn twitter_supports_status_urls() {
    let t = Twitter::new();
    assert!(t.url_supported("https://twitter.com/someone/status/1234567890"));
    assert!(t.url_supported("https://mobile.twitter.com/someone/status/1234567890"));
    assert!(!t.url_supported("http://twitter.com/someone/status/1234567890"));
    assert!(!t.url_supported("https://twitter.com/someone/statuses"));
}

#[test]
fn twitter_extracts_id() {
    let t = Twitter::new();
    assert_eq!(t.status_id("https://twitter.com/someone/status/1234567890"), Some(1234567890));
    assert_eq!(t.status_id("https://example.com/x"), None);
    // Digits past the id type's range are not a panic, just no id.
    assert_eq!(t.status_id("https://twitter.com/a/status/99999999999999999999999999"), None);
}

#[test]
fn weasyl_supports_both_shapes() {
    let w = Weasyl::new("k".to_string());
    assert!(w.url_supported("https://www.weasyl.com/submission/12345/some-title"));
    assert!(w.url_supported("https://www.weasyl.com/~artist/submissions/12345/some-title"));
    assert!(!w.url_supported("https://www.weasyl.com/journal/12345/x"));
}

#[test]
fn weasyl_endpoint() {
    let w = Weasyl::new("k".to_string());
    assert_eq!(
        w.api_endpoint("https://www.weasyl.com/submission/12345/some-title"),
        Some("https://www.weasyl.com/api/submissions/12345/view".to_string())
    );
}

#[test]
fn inkbunny_supports_submission_urls() {
    let i = Inkbunny::new("u".to_string(), "p".to_string());
    assert!(i.url_supported("https://inkbunny.net/s/1234"));
    assert_eq!(i.submission_id("https://inkbunny.net/s/1234"), Some(1234));
    assert_eq!(i.submission_id("https://inkbunny.net/j/1234"), None);
    assert_eq!(i.submission_id("https://inkbunny.net/s/4294967296"), None);
}

#[test]
fn mastodon_endpoint_and_host() {
    let m = Mastodon::new();
    assert_eq!(
        m.api_endpoint("https://mastodon.example/@user/123456"),
        Some("https://mastodon.example/api/v1/statuses/123456".to_string())
    );
    assert_eq!(m.host_string("https://mastodon.example/@user/123456"), Some(
        "https://mastodon.example".to_string()
    ));
    assert_eq!(
        m.api_endpoint("https://pleroma.example/notice/98765"),
        Some("https://pleroma.example/api/v1/statuses/98765".to_string())
    );
    assert_eq!(
        m.api_endpoint("https://host.example/users/bob/statuses/42"),
        Some("https://host.example/api/v1/statuses/42".to_string())
    );
}

#[test]
fn furaffinity_supports_known_paths() {
    let f = FurAffinity::new(("x".to_string(), "y".to_string()));
    assert!(f.url_supported("https://www.furaffinity.net/view/12345/"));
    assert!(f.url_supported("https://www.furaffinity.net/full/12345/"));
    assert!(f.url_supported("https://d.facdn.net/art/artist/12345/foo.png"));
    assert!(!f.url_supported("https://www.furaffinity.net/user/someone/"));
    assert!(f.is_direct_url("https://d.facdn.net/art/artist/12345/foo.png"));
    assert!(!f.is_direct_url("https://www.furaffinity.net/view/12345/"));
}

#[test]
fn furaffinity_normalizes_scheme() {
    let f = FurAffinity::new(("x".to_string(), "y".to_string()));
    assert_eq!(
        f.normalize_https("http://d.facdn.net/art/a/1/f.png"),
        "https://d.facdn.net/art/a/1/f.png".to_string()
    );
    assert_eq!(
        f.normalize_https("https://d.facdn.net/art/a/1/f.png"),
        "https://d.facdn.net/art/a/1/f.png".to_string()
    );
}

#[test]
fn direct_extension_allow_list() {
    let d = Direct::new();
    assert!(d.ext_supported("https://example.com/a.png"));
    assert!(d.ext_supported("https://example.com/a.jpeg"));
    assert!(!d.ext_supported("https://example.com/a.webm"));
}

#[test]
fn direct_needs_matching_content_type() {
    let d = Direct::new();
    let ok = HeadProbe { success: true, content_type: Some("image/png".to_string()) };
    let wrong = HeadProbe { success: true, content_type: Some("text/html".to_string()) };
    let failed = HeadProbe { success: false, content_type: Some("image/png".to_string()) };
    assert!(d.url_supported("https://example.com/a.png", Some(&ok)));
    assert!(!d.url_supported("https://example.com/a.png", Some(&wrong)));
    assert!(!d.url_supported("https://example.com/a.png", Some(&failed)));
    assert!(!d.url_supported("https://example.com/a.png", None));
    assert!(!d.url_supported("https://example.com/a.html", Some(&ok)));
}

#[test]
fn registry_unmatched_url_is_unsupported() {
    let reg = registry();
    let r = reg.find_provider("https://example.com/some/page.html");
    assert!(matches!(r, Resolution::Unsupported));
}

#[test]
fn registry_finds_specific_providers() {
    let reg = registry();
    assert!(matches!(
        reg.find_provider("https://e621.net/posts/123"),
        Resolution::Found(ProviderKind::E621)
    ));
    assert!(matches!(
        reg.find_provider("https://twitter.com/a/status/1"),
        Resolution::Found(ProviderKind::Twitter)
    ));
    assert!(matches!(
        reg.find_provider("https://www.furaffinity.net/view/1/"),
        Resolution::Found(ProviderKind::FurAffinity)
    ));
    assert!(matches!(
        reg.find_provider("https://www.weasyl.com/submission/1/t"),
        Resolution::Found(ProviderKind::Weasyl)
    ));
    assert!(matches!(
        reg.find_provider("https://inkbunny.net/s/1"),
        Resolution::Found(ProviderKind::Inkbunny)
    ));
}

#[test]
fn registry_asks_for_probes() {
    let reg = registry();
    match reg.find_provider("https://mastodon.example/@user/555") {
        Resolution::Probe(ProbeRequest::MastodonInstance { host }) => {
            assert_eq!(host, "https://mastodon.example".to_string());
        },
        other => panic!("expected an instance probe, got {:?}", other),
    }
    match reg.find_provider("https://example.com/image.png") {
        Resolution::Probe(ProbeRequest::DirectHead { url }) => {
            assert_eq!(url, "https://example.com/image.png".to_string());
        },
        other => panic!("expected an existence probe, got {:?}", other),
    }
}

#[test]
fn registry_direct_probe_resolution() {
    let reg = registry();
    let probe = HeadProbe { success: true, content_type: Some("image/png".to_string()) };
    assert!(matches!(
        reg.resume_after_direct_probe("https://example.com/image.png", Some(&probe)),
        Resolution::Found(ProviderKind::Direct)
    ));
    assert!(matches!(
        reg.resume_after_direct_probe("https://example.com/image.png", None),
        Resolution::Unsupported
    ));
}

#[test]
fn negative_cache_skips_second_probe() {
    let mut reg = registry();
    let url = "https://down.example/@user/1";
    assert!(matches!(
        reg.find_provider(url),
        Resolution::Probe(ProbeRequest::MastodonInstance { .. })
    ));
    // The probe failed: the host joins the negative cache and the remaining
    // providers decline the URL.
    assert!(matches!(reg.resume_after_instance_probe(url, false), Resolution::Unsupported));
    // A second URL on the same host is answered from the cache alone: no
    // probe is requested again.
    assert!(matches!(
        reg.find_provider("https://down.example/@user/2"),
        Resolution::Unsupported
    ));
    assert!(matches!(
        reg.mastodon.check_url("https://down.example/@other/3"),
        MastodonCheck::KnownUnsupported
    ));
}

#[test]
fn successful_probe_is_not_cached() {
    let mut reg = registry();
    let url = "https://up.example/@user/1";
    assert!(matches!(
        reg.resume_after_instance_probe(url, true),
        Resolution::Found(ProviderKind::Mastodon)
    ));
    // Only negative results are remembered: the next URL probes again.
    assert!(matches!(
        reg.find_provider("https://up.example/@user/2"),
        Resolution::Probe(ProbeRequest::MastodonInstance { .. })
    ));
}
