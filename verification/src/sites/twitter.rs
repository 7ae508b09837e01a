//! The micro-blog resolver: recognizes status URLs (tolerating a mobile
//! subdomain), chooses between the requesting user's linked credential and
//! the shared app credential, and expands a post's media entities into one
//! normalized record per item, selecting the best bitrate variant for
//! videos.

use crate::handlers::text::TwitterAccount;
use crate::sites::{file_ext, get_file_ext, PostInfo};
use crate::strutil::{chars_of, check_at, contains_at, digits_val, find_run_end, parse_u64,
    run_end, CharClass};
use vstd::prelude::*;

verus! {

/// The id span of a status URL match at position `i`: `(-1, -1)` when the
/// pattern does not match there. The separator between the site name and its
/// domain suffix may be any character but a line break, as the original
/// pattern has it.
pub open spec fn span_at(s: Seq<char>, i: int) -> (int, int) {
    if !contains_at(s, "https://"@, i) {
        (-1, -1)
    } else {
        let j = i + 8;
        let m = if contains_at(s, "mobile."@, j) {
            j + 7
        } else {
            j
        };
        if contains_at(s, "twitter"@, m) && m + 7 < s.len() && s[m + 7] != '\n' && contains_at(
            s,
            "com/"@,
            m + 8,
        ) {
            let u = m + 12;
            let w = run_end(s, u, CharClass::Word);
            if w > u && contains_at(s, "/status/"@, w) {
                let d = w + 8;
                let e = run_end(s, d, CharClass::Digit);
                if e > d {
                    (d, e)
                } else {
                    (-1, -1)
                }
            } else {
                (-1, -1)
            }
        } else {
            (-1, -1)
        }
    }
}

/// The first position at or after `i` where the pattern matches; `-1` when
/// there is none.
pub open spec fn first_match(s: Seq<char>, i: int) -> int
    decreases s.len() - i,
{
    if i < 0 || i >= s.len() {
        -1
    } else if span_at(s, i).0 >= 0 {
        i
    } else {
        first_match(s, i + 1)
    }
}

pub open spec fn supported(s: Seq<char>) -> bool {
    first_match(s, 0) >= 0
}

/// The digits of the status id captured by the earliest match.
pub open spec fn status_id_digits(s: Seq<char>) -> Seq<char> {
    let i = first_match(s, 0);
    s.subrange(span_at(s, i).0, span_at(s, i).1)
}

/// Checks the pattern at one position.
fn check_span_at(v: &Vec<char>, i: usize) -> (r: Option<(usize, usize)>)
    requires
        i <= v@.len(),
    ensures
        match r {
            Some(p) => span_at(v@, i as int) == (p.0 as int, p.1 as int) && p.0 <= p.1 <= v@.len(),
            None => span_at(v@, i as int).0 < 0,
        },
{
    let https = chars_of("https://");
    proof {
        reveal_strlit("https://");
    }
    if !check_at(v, &https, i) {
        return None;
    }
    let j = i + 8;
    let mobile = chars_of("mobile.");
    proof {
        reveal_strlit("mobile.");
    }
    let m: usize = if check_at(v, &mobile, j) {
        j + 7
    } else {
        j
    };
    let site = chars_of("twitter");
    let dom = chars_of("com/");
    proof {
        reveal_strlit("twitter");
        reveal_strlit("com/");
    }
    if !check_at(v, &site, m) {
        return None;
    }
    if m + 7 >= v.len() || v[m + 7] == '\n' {
        return None;
    }
    if !check_at(v, &dom, m + 8) {
        return None;
    }
    let u = m + 12;
    let w = find_run_end(v, u, CharClass::Word);
    let status = chars_of("/status/");
    proof {
        reveal_strlit("/status/");
    }
    if !(w > u && check_at(v, &status, w)) {
        return None;
    }
    let d = w + 8;
    let e = find_run_end(v, d, CharClass::Digit);
    if e > d {
        Some((d, e))
    } else {
        None
    }
}

/// Scans for the earliest match.
fn scan(v: &Vec<char>) -> (r: Option<(usize, usize)>)
    ensures
        match r {
            Some(p) => {
                let i = first_match(v@, 0);
                i >= 0 && span_at(v@, i) == (p.0 as int, p.1 as int) && p.0 <= p.1 <= v@.len()
            },
            None => first_match(v@, 0) == -1,
        },
{
    let mut i: usize = 0;
    while i < v.len()
        invariant
            i <= v@.len(),
            first_match(v@, 0) == first_match(v@, i as int),
        decreases v@.len() - i,
    {
        match check_span_at(v, i) {
            Some(p) => {
                return Some(p);
            },
            None => {},
        }
        i = i + 1;
    }
    None
}

/// One bitrate variant of a video attachment.
#[derive(Clone, Debug)]
pub struct VideoVariant {
    /// The advertised bitrate; a variant without one counts as zero.
    pub bitrate: Option<u64>,
    pub url: String,
}

/// One media entity of a post: a still image, or a video with its variants.
#[derive(Clone, Debug)]
pub struct MediaEntity {
    pub media_url_https: String,
    pub expanded_url: String,
    /// Present exactly when the entity is a video.
    pub video_variants: Option<Vec<VideoVariant>>,
}

/// A fetched post, reduced to what the resolver reads.
#[derive(Clone, Debug)]
pub struct TweetData {
    pub screen_name: String,
    pub protected: bool,
    pub text: String,
    /// The extended media entities; absent when the post has no media.
    pub media: Option<Vec<MediaEntity>>,
}

/// The bitrate a variant counts as.
pub open spec fn rate(v: VideoVariant) -> u64 {
    match v.bitrate {
        Some(b) => b,
        None => 0,
    }
}

/// The index of the best variant: the highest bitrate, the earliest of
/// equally good ones.
pub open spec fn best_idx(vs: Seq<VideoVariant>) -> int
    decreases vs.len(),
{
    if vs.len() <= 1 {
        0
    } else {
        let rest = best_idx(vs.drop_last());
        if rate(vs.last()) > rate(vs[rest]) {
            vs.len() - 1
        } else {
            rest
        }
    }
}

/// The selected variant's bitrate is the highest on offer: no variant
/// exceeds the one at the best index.
pub proof fn lemma_best_idx(vs: Seq<VideoVariant>)
    requires
        vs.len() > 0,
    ensures
        0 <= best_idx(vs) < vs.len(),
        forall|k: int| 0 <= k < vs.len() ==> rate(#[trigger] vs[k]) <= rate(vs[best_idx(vs)]),
    decreases vs.len(),
{
    if vs.len() > 1 {
        lemma_best_idx(vs.drop_last());
        assert(forall|k: int| 0 <= k < vs.len() - 1 ==> vs[k] == vs.drop_last()[k]);
    }
}

/// Selects the URL of a video entity's best variant: the one with the
/// highest bitrate, ties broken by original order. A still image yields
/// `None`.
pub fn get_best_video(media: &MediaEntity) -> (r: Option<String>)
    requires
        media.video_variants matches Some(vs) ==> vs@.len() > 0,
    ensures
        match r {
            Some(u) => media.video_variants matches Some(vs) && u@ == vs@[best_idx(vs@)].url@,
            None => media.video_variants is None,
        },
{
    let vs = match &media.video_variants {
        Some(vs) => vs,
        None => {
            return None;
        },
    };
    let mut best: usize = 0;
    let mut i: usize = 1;
    while i < vs.len()
        invariant
            1 <= i <= vs@.len(),
            0 <= best < i,
            best as int == best_idx(vs@.take(i as int)),
        decreases vs@.len() - i,
    {
        proof {
            assert(vs@.take(i + 1).drop_last() =~= vs@.take(i as int));
            assert(vs@.take(i + 1).last() == vs@[i as int]);
        }
        let cur = match vs[i].bitrate {
            Some(b) => b,
            None => 0,
        };
        let so_far = match vs[best].bitrate {
            Some(b) => b,
            None => 0,
        };
        if cur > so_far {
            best = i;
        }
        i = i + 1;
    }
    proof {
        assert(vs@.take(vs@.len() as int) =~= vs@);
    }
    Some(vs[best].url.clone())
}

/// Which credential a fetch uses: the user's linked access credential when
/// one is stored, else the shared app-level bearer credential.
#[derive(Clone, Debug)]
pub enum TokenChoice {
    Linked { key: String, secret: String },
    AppBearer,
}

pub struct Twitter;

impl Twitter {
    pub fn new() -> (r: Self) {
        Twitter
    }

    /// The provider's human readable name.
    pub fn name(&self) -> (r: String)
        ensures
            r@ == "Twitter"@,
    {
        "Twitter".to_owned()
    }

    /// Whether the status URL shape occurs in the text.
    pub fn url_supported(&self, url: &str) -> (r: bool)
        ensures
            r == supported(url@),
    {
        let v = chars_of(url);
        scan(&v).is_some()
    }

    /// The numeric status id captured from a recognized URL; `None` when the
    /// shape does not occur or the digits do not fit the API's id type.
    pub fn status_id(&self, url: &str) -> (r: Option<u64>)
        ensures
            match r {
                Some(id) => supported(url@) && id == digits_val(status_id_digits(url@)),
                None => !supported(url@) || digits_val(status_id_digits(url@)) > u64::MAX,
            },
    {
        let v = chars_of(url);
        match scan(&v) {
            Some((d, e)) => {
                proof {
                    let i = first_match(v@, 0);
                    crate::strutil::lemma_run_end(v@, d as int, CharClass::Digit);
                }
                parse_u64(&v, d, e)
            },
            None => None,
        }
    }

    /// Picks the credential for a fetch on behalf of `account`.
    pub fn select_token(&self, account: Option<&TwitterAccount>) -> (r: TokenChoice)
        ensures
            match account {
                Some(acct) => r matches TokenChoice::Linked { key, secret } && key@
                    == acct.consumer_key@ && secret@ == acct.consumer_secret@,
                None => r is AppBearer,
            },
    {
        match account {
            Some(acct) => TokenChoice::Linked {
                key: acct.consumer_key.clone(),
                secret: acct.consumer_secret.clone(),
            },
            None => TokenChoice::AppBearer,
        }
    }

    /// Expands a fetched post into one record per media entity: a video
    /// entity contributes its best variant, a still image its direct URL.
    /// Every record of the post carries the author's handle as its title,
    /// the post text as its caption, and the post's one expanded URL as its
    /// source link. `None` when the post carries no media entities.
    pub fn records_from_tweet(&self, tweet: &TweetData) -> (r: Option<Vec<PostInfo>>)
        requires
            tweet.media matches Some(ms) ==> forall|k: int|
                0 <= k < ms@.len() ==> ((#[trigger] ms@[k]).video_variants matches Some(vs)
                    ==> vs@.len() > 0),
        ensures
            match r {
                Some(posts) => tweet.media matches Some(ms) && posts@.len() == ms@.len() && forall|
                    k: int,
                |
                    0 <= k < ms@.len() ==> {
                        let m = ms@[k];
                        let p = #[trigger] posts@[k];
                        &&& p.source_link matches Some(l) && l@ == ms@[0].expanded_url@
                        &&& p.title matches Some(t) && t@ == tweet.screen_name@
                        &&& p.extra_caption matches Some(c) && c@ == tweet.text@
                        &&& p.personal == tweet.protected
                        &&& p.thumb matches Some(t) && t@ == m.media_url_https@ + ":thumb"@
                        &&& p.site_name@ == "Twitter"@
                        &&& match m.video_variants {
                            Some(vs) => {
                                &&& p.url@ == vs@[best_idx(vs@)].url@
                                &&& p.file_type@ == file_ext(vs@[best_idx(vs@)].url@)
                            },
                            None => {
                                &&& p.url@ == m.media_url_https@
                                &&& p.file_type@ == file_ext(m.media_url_https@)
                            },
                        }
                    },
                None => tweet.media is None,
            },
    {
        let ms = match &tweet.media {
            Some(ms) => ms,
            None => {
                return None;
            },
        };
        let mut posts: Vec<PostInfo> = Vec::new();
        let mut k: usize = 0;
        while k < ms.len()
            invariant
                k <= ms@.len(),
                posts@.len() == k,
                forall|a: int|
                    0 <= a < ms@.len() ==> ((#[trigger] ms@[a]).video_variants matches Some(vs)
                        ==> vs@.len() > 0),
                forall|a: int|
                    0 <= a < k ==> {
                        let m = ms@[a];
                        let p = #[trigger] posts@[a];
                        &&& p.source_link matches Some(l) && l@ == ms@[0].expanded_url@
                        &&& p.title matches Some(t) && t@ == tweet.screen_name@
                        &&& p.extra_caption matches Some(c) && c@ == tweet.text@
                        &&& p.personal == tweet.protected
                        &&& p.thumb matches Some(t) && t@ == m.media_url_https@ + ":thumb"@
                        &&& p.site_name@ == "Twitter"@
                        &&& match m.video_variants {
                            Some(vs) => {
                                &&& p.url@ == vs@[best_idx(vs@)].url@
                                &&& p.file_type@ == file_ext(vs@[best_idx(vs@)].url@)
                            },
                            None => {
                                &&& p.url@ == m.media_url_https@
                                &&& p.file_type@ == file_ext(m.media_url_https@)
                            },
                        }
                    },
            decreases ms@.len() - k,
        {
            let mut thumb = ms[k].media_url_https.clone();
            thumb.push_str(":thumb");
            let (url, ext) = match get_best_video(&ms[k]) {
                Some(video_url) => {
                    let ext = match get_file_ext(video_url.as_str()) {
                        Some(ext) => ext,
                        None => {
                            proof {
                                assert(false);
                            }
                            vstd::pervasive::unreached()
                        },
                    };
                    (video_url, ext)
                },
                None => {
                    let ext = match get_file_ext(ms[k].media_url_https.as_str()) {
                        Some(ext) => ext,
                        None => {
                            proof {
                                assert(false);
                            }
                            vstd::pervasive::unreached()
                        },
                    };
                    (ms[k].media_url_https.clone(), ext)
                },
            };
            let post = PostInfo {
                file_type: ext,
                url,
                personal: tweet.protected,
                thumb: Some(thumb),
                source_link: Some(ms[0].expanded_url.clone()),
                extra_caption: Some(tweet.text.clone()),
                title: Some(tweet.screen_name.clone()),
                site_name: self.name(),
            };
            posts.push(post);
            k = k + 1;
        }
        Some(posts)
    }
}

/// Every record expanded from one post shares the post's source link, the
/// author's handle as its title, and the post text as its caption.
pub proof fn lemma_records_share(tweet: TweetData, posts: Seq<PostInfo>)
    requires
        tweet.media matches Some(ms) && {
            &&& posts.len() == ms@.len()
            &&& forall|k: int|
                0 <= k < ms@.len() ==> {
                    let p = #[trigger] posts[k];
                    &&& p.source_link matches Some(l) && l@ == ms@[0].expanded_url@
                    &&& p.title matches Some(t) && t@ == tweet.screen_name@
                    &&& p.extra_caption matches Some(c) && c@ == tweet.text@
                }
        },
    ensures
        forall|a: int, b: int|
            0 <= a < posts.len() && 0 <= b < posts.len() ==> {
                &&& view_opt((#[trigger] posts[a]).source_link) == view_opt(
                    (#[trigger] posts[b]).source_link,
                )
                &&& view_opt(posts[a].title) == view_opt(posts[b].title)
                &&& view_opt(posts[a].extra_caption) == view_opt(posts[b].extra_caption)
            },
{
}

/// An optional string, reduced to its characters.
pub open spec fn view_opt(s: Option<String>) -> Option<Seq<char>> {
    match s {
        Some(s) => Some(s@),
        None => None,
    }
}

} // verus!
