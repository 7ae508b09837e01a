//! The federated-instance resolver: extracts a host and a status id from
//! several status URL shapes, keeps a negative cache of hosts that failed
//! their capability probe, and maps a status document's media attachments
//! onto records. The probe itself and the status fetch are network calls the
//! caller performs.

use crate::json::{get_field, json_of, parse_json, JsonValue};
use crate::sites::{file_ext, get_file_ext, scheme_end, scheme_end_at, FetchError, PostInfo,
    ProviderKind};
use crate::strutil::{chars_of, check_at, contains_at, find_run_end, run_end, string_of_range,
    CharClass};
use vstd::prelude::*;

verus! {

/// The id span of a status path at position `t` (just past the host's
/// separator): one of `notice/`, `users/<name>/statuses/` or `@<name>/`,
/// then at least one digit. `(-1, -1)` when none of the shapes stands there.
pub open spec fn tail_span(s: Seq<char>, t: int) -> (int, int) {
    let d = if contains_at(s, "notice/"@, t) {
        t + 7
    } else if contains_at(s, "users/"@, t) && run_end(s, t + 6, CharClass::Word) > t + 6
        && contains_at(s, "/statuses/"@, run_end(s, t + 6, CharClass::Word)) {
        run_end(s, t + 6, CharClass::Word) + 10
    } else if contains_at(s, "@"@, t) && run_end(s, t + 1, CharClass::Word) > t + 1
        && contains_at(s, "/"@, run_end(s, t + 1, CharClass::Word)) {
        run_end(s, t + 1, CharClass::Word) + 1
    } else {
        -1
    };
    if d < 0 {
        (-1, -1)
    } else {
        let e = run_end(s, d, CharClass::Digit);
        if e > d {
            (d, e)
        } else {
            (-1, -1)
        }
    }
}

/// The position of the `/` that ends the host part: the largest candidate at
/// or below `h` whose tail matches, the host being greedy. `-1` when no
/// split works.
pub open spec fn host_end(s: Seq<char>, j: int, h: int) -> int
    decreases h - j,
{
    if h <= j {
        -1
    } else if h < s.len() && s[h] == '/' && tail_span(s, h + 1).0 >= 0 {
        h
    } else {
        host_end(s, j, h - 1)
    }
}

/// The spans of a status URL match at position `i`: the host span (scheme
/// included) and the id span; all `-1` when the pattern does not match
/// there.
pub open spec fn span_at(s: Seq<char>, i: int) -> (int, int, int, int) {
    let j = scheme_end(s, i);
    if j < 0 {
        (-1, -1, -1, -1)
    } else {
        let limit = run_end(s, j, CharClass::NonSpace);
        let h = host_end(s, j, limit);
        if h < 0 {
            (-1, -1, -1, -1)
        } else {
            let id = tail_span(s, h + 1);
            (i, h, id.0, id.1)
        }
    }
}

/// The first position at or after `i` where the pattern matches; `-1` when
/// there is none.
pub open spec fn first_match(s: Seq<char>, i: int) -> int
    decreases s.len() - i,
{
    if i < 0 || i >= s.len() {
        -1
    } else if span_at(s, i).0 >= 0 {
        i
    } else {
        first_match(s, i + 1)
    }
}

pub open spec fn matches(s: Seq<char>) -> bool {
    first_match(s, 0) >= 0
}

/// The host (scheme included) captured by the earliest match.
pub open spec fn host_of(s: Seq<char>) -> Seq<char> {
    let i = first_match(s, 0);
    s.subrange(span_at(s, i).0, span_at(s, i).1)
}

/// The status id captured by the earliest match.
pub open spec fn status_id_of(s: Seq<char>) -> Seq<char> {
    let i = first_match(s, 0);
    s.subrange(span_at(s, i).2, span_at(s, i).3)
}

/// Checks the status path at `t`.
fn tail_span_at(v: &Vec<char>, t: usize) -> (r: Option<(usize, usize)>)
    requires
        t <= v@.len(),
    ensures
        match r {
            Some(p) => tail_span(v@, t as int) == (p.0 as int, p.1 as int) && p.0 <= p.1
                <= v@.len(),
            None => tail_span(v@, t as int).0 < 0,
        },
{
    let notice = chars_of("notice/");
    let users = chars_of("users/");
    let statuses = chars_of("/statuses/");
    let at_sign = chars_of("@");
    let slash = chars_of("/");
    proof {
        reveal_strlit("notice/");
        reveal_strlit("users/");
        reveal_strlit("/statuses/");
        reveal_strlit("@");
        reveal_strlit("/");
    }
    let d_opt: Option<usize> = if check_at(v, &notice, t) {
        Some(t + 7)
    } else {
        let mut found: Option<usize> = None;
        if check_at(v, &users, t) {
            let w = find_run_end(v, t + 6, CharClass::Word);
            if w > t + 6 && check_at(v, &statuses, w) {
                found = Some(w + 10);
            }
        }
        if found.is_none() {
            if check_at(v, &at_sign, t) {
                let w = find_run_end(v, t + 1, CharClass::Word);
                if w > t + 1 && check_at(v, &slash, w) {
                    found = Some(w + 1);
                }
            }
        }
        found
    };
    let d = match d_opt {
        Some(d) => d,
        None => {
            return None;
        },
    };
    let e = find_run_end(v, d, CharClass::Digit);
    if e > d {
        Some((d, e))
    } else {
        None
    }
}

/// Checks the pattern at one position.
fn check_span_at(v: &Vec<char>, i: usize) -> (r: Option<(usize, usize, usize, usize)>)
    requires
        i <= v@.len(),
    ensures
        match r {
            Some(p) => span_at(v@, i as int) == (p.0 as int, p.1 as int, p.2 as int, p.3 as int)
                && p.0 <= p.1 <= v@.len() && p.2 <= p.3 <= v@.len(),
            None => span_at(v@, i as int).0 < 0,
        },
{
    let j = match scheme_end_at(v, i) {
        Some(j) => j,
        None => {
            return None;
        },
    };
    let limit = find_run_end(v, j, CharClass::NonSpace);
    let mut h: usize = limit;
    while h > j && !(h < v.len() && v[h] == '/' && tail_span_at(v, h + 1).is_some())
        invariant
            j <= h <= limit <= v@.len(),
            host_end(v@, j as int, limit as int) == host_end(v@, j as int, h as int),
        decreases h,
    {
        h = h - 1;
    }
    if h <= j {
        return None;
    }
    match tail_span_at(v, h + 1) {
        Some(id) => Some((i, h, id.0, id.1)),
        None => None,
    }
}

/// Scans for the earliest match.
fn scan(v: &Vec<char>) -> (r: Option<(usize, usize, usize, usize)>)
    ensures
        match r {
            Some(p) => {
                let i = first_match(v@, 0);
                &&& i >= 0
                &&& span_at(v@, i) == (p.0 as int, p.1 as int, p.2 as int, p.3 as int)
                &&& p.0 <= p.1 <= v@.len() && p.2 <= p.3 <= v@.len()
            },
            None => first_match(v@, 0) == -1,
        },
{
    let mut i: usize = 0;
    while i < v.len()
        invariant
            i <= v@.len(),
            first_match(v@, 0) == first_match(v@, i as int),
        decreases v@.len() - i,
    {
        match check_span_at(v, i) {
            Some(p) => {
                return Some(p);
            },
            None => {},
        }
        i = i + 1;
    }
    None
}

/// What the applicability test decides for a URL, given the negative cache.
#[derive(Clone, Debug)]
pub enum MastodonCheck {
    /// The URL does not carry the status shape: not supported, no probe.
    NoMatch,
    /// The host already failed a probe: not supported, and not probed again.
    KnownUnsupported,
    /// The shape matches and the host is unknown: the caller must probe the
    /// host's instance endpoint and report the outcome.
    NeedsProbe { host: String },
}

pub struct Mastodon {
    /// The hosts that failed their capability probe; only negative results
    /// are remembered, as the original has it.
    pub instance_cache: Vec<String>,
}

/// The host is remembered as unsupported.
pub open spec fn cached_unsupported(cache: Seq<String>, host: Seq<char>) -> bool {
    exists|k: int| 0 <= k < cache.len() && cache[k]@ == host
}

/// What `check_url` decides, as a predicate over the cache and the URL.
pub open spec fn check_spec(cache: Seq<String>, s: Seq<char>, r: MastodonCheck) -> bool {
    match r {
        MastodonCheck::NoMatch => !matches(s),
        MastodonCheck::KnownUnsupported => matches(s) && cached_unsupported(cache, host_of(s)),
        MastodonCheck::NeedsProbe { host } => matches(s) && !cached_unsupported(cache, host_of(s))
            && host@ == host_of(s),
    }
}

impl Mastodon {
    pub fn new() -> (r: Self)
        ensures
            r.instance_cache@.len() == 0,
    {
        Mastodon { instance_cache: Vec::new() }
    }

    /// The provider's human readable name.
    pub fn name(&self) -> (r: String)
        ensures
            r@ == "Mastodon"@,
    {
        "Mastodon".to_owned()
    }

    /// The applicability test up to its network probe: either a decision, or
    /// the host the caller must probe.
    pub fn check_url(&self, url: &str) -> (r: MastodonCheck)
        ensures
            check_spec(self.instance_cache@, url@, r),
    {
        let v = chars_of(url);
        let (a, h) = match scan(&v) {
            Some(p) => (p.0, p.1),
            None => {
                return MastodonCheck::NoMatch;
            },
        };
        let host = string_of_range(&v, a, h);
        let mut k: usize = 0;
        while k < self.instance_cache.len()
            invariant
                k <= self.instance_cache@.len(),
                matches(url@),
                host@ == host_of(url@),
                forall|a: int| 0 <= a < k ==> (#[trigger] self.instance_cache@[a])@ != host_of(
                    url@,
                ),
            decreases self.instance_cache@.len() - k,
        {
            if crate::json::str_eq(self.instance_cache[k].as_str(), host.as_str()) {
                proof {
                    assert(self.instance_cache@[k as int]@ == host_of(url@));
                }
                return MastodonCheck::KnownUnsupported;
            }
            k = k + 1;
        }
        MastodonCheck::NeedsProbe { host }
    }

    /// The host (scheme included) captured from a recognized URL; `None`
    /// when the shape does not occur.
    pub fn host_string(&self, url: &str) -> (r: Option<String>)
        ensures
            match r {
                Some(h) => matches(url@) && h@ == host_of(url@),
                None => !matches(url@),
            },
    {
        let v = chars_of(url);
        match scan(&v) {
            Some((a, h, _, _)) => Some(string_of_range(&v, a, h)),
            None => None,
        }
    }

    /// Records a failed capability probe: the host joins the negative cache
    /// and is never probed again.
    pub fn mark_unsupported(&mut self, host: String)
        ensures
            final(self).instance_cache@ == old(self).instance_cache@.push(host),
            cached_unsupported(final(self).instance_cache@, host@),
    {
        self.instance_cache.push(host);
        proof {
            assert(self.instance_cache@[self.instance_cache@.len() - 1]@ == host@);
        }
    }

    /// The status lookup to perform for a recognized URL; `None` when the
    /// shape does not occur.
    pub fn api_endpoint(&self, url: &str) -> (r: Option<String>)
        ensures
            match r {
                Some(e) => matches(url@) && e@ == host_of(url@) + "/api/v1/statuses/"@
                    + status_id_of(url@),
                None => !matches(url@),
            },
    {
        let v = chars_of(url);
        match scan(&v) {
            Some((a, h, d, e)) => {
                let mut out = string_of_range(&v, a, h);
                out.push_str("/api/v1/statuses/");
                let id = string_of_range(&v, d, e);
                out.push_str(id.as_str());
                proof {
                    assert(out@ =~= host_of(url@) + "/api/v1/statuses/"@ + status_id_of(url@));
                }
                Some(out)
            },
            None => None,
        }
    }

    /// Maps a status document onto records: one per media attachment, all
    /// sharing the status URL as their source link. An empty attachment list
    /// means the status holds no media.
    pub fn parse_response(&self, resp: &str) -> (r: Result<Option<Vec<PostInfo>>, FetchError>)
        ensures
            match r {
                Ok(None) => json_of(resp@) matches Some(doc) && status_fields(doc) matches Some(f)
                    && f.1.len() == 0,
                Ok(Some(posts)) => json_of(resp@) matches Some(doc) && status_fields(doc)
                    matches Some(f) && f.1.len() > 0 && posts@.len() == f.1.len() && forall|k: int|
                    0 <= k < f.1.len() ==> {
                        let p = #[trigger] posts@[k];
                        &&& attachment_fields(f.1[k]) is Some
                        &&& p.url@ == attachment_fields(f.1[k])->Some_0.0
                        &&& p.file_type@ == file_ext(attachment_fields(f.1[k])->Some_0.0)
                        &&& p.thumb matches Some(t) && t@ == attachment_fields(f.1[k])->Some_0.1
                        &&& p.source_link matches Some(l) && l@ == f.0
                        &&& p.site_name@ == "Mastodon"@
                        &&& p.personal == false
                        &&& p.extra_caption is None
                        &&& p.title is None
                    },
                Err(e) => e == (FetchError::Parse { site: ProviderKind::Mastodon }) && (json_of(
                    resp@,
                ) is None || status_fields(json_of(resp@)->Some_0) is None || exists|k: int|
                    0 <= k < status_fields(json_of(resp@)->Some_0)->Some_0.1.len()
                        && attachment_fields(
                        #[trigger] status_fields(json_of(resp@)->Some_0)->Some_0.1[k],
                    ) is None),
            },
    {
        let doc = match parse_json(resp) {
            Some(doc) => doc,
            None => {
                return Err(FetchError::Parse { site: ProviderKind::Mastodon });
            },
        };
        let status_url = match doc.get("url") {
            Some(v) => match v.as_str() {
                Some(s) => s.clone(),
                None => {
                    return Err(FetchError::Parse { site: ProviderKind::Mastodon });
                },
            },
            None => {
                return Err(FetchError::Parse { site: ProviderKind::Mastodon });
            },
        };
        let atts = match doc.get("media_attachments") {
            Some(v) => match v.as_array() {
                Some(xs) => xs,
                None => {
                    return Err(FetchError::Parse { site: ProviderKind::Mastodon });
                },
            },
            None => {
                return Err(FetchError::Parse { site: ProviderKind::Mastodon });
            },
        };
        if atts.len() == 0 {
            return Ok(None);
        }
        let mut posts: Vec<PostInfo> = Vec::new();
        let mut k: usize = 0;
        while k < atts.len()
            invariant
                k <= atts@.len(),
                json_of(resp@) matches Some(doc2) && status_fields(doc2) matches Some(f) && f.0
                    == status_url@ && f.1 == atts@,
                posts@.len() == k,
                forall|a: int|
                    0 <= a < k ==> {
                        let p = #[trigger] posts@[a];
                        &&& attachment_fields(atts@[a]) is Some
                        &&& p.url@ == attachment_fields(atts@[a])->Some_0.0
                        &&& p.file_type@ == file_ext(attachment_fields(atts@[a])->Some_0.0)
                        &&& p.thumb matches Some(t) && t@ == attachment_fields(atts@[a])->Some_0.1
                        &&& p.source_link matches Some(l) && l@ == status_url@
                        &&& p.site_name@ == "Mastodon"@
                        &&& p.personal == false
                        &&& p.extra_caption is None
                        &&& p.title is None
                    },
            decreases atts@.len() - k,
        {
            let att_url = match atts[k].get("url") {
                Some(v) => match v.as_str() {
                    Some(s) => s.clone(),
                    None => {
                        return Err(FetchError::Parse { site: ProviderKind::Mastodon });
                    },
                },
                None => {
                    return Err(FetchError::Parse { site: ProviderKind::Mastodon });
                },
            };
            let prev_url = match atts[k].get("preview_url") {
                Some(v) => match v.as_str() {
                    Some(s) => s.clone(),
                    None => {
                        return Err(FetchError::Parse { site: ProviderKind::Mastodon });
                    },
                },
                None => {
                    return Err(FetchError::Parse { site: ProviderKind::Mastodon });
                },
            };
            let ext = match get_file_ext(att_url.as_str()) {
                Some(ext) => ext,
                None => {
                    return Err(FetchError::Parse { site: ProviderKind::Mastodon });
                },
            };
            posts.push(
                PostInfo {
                    file_type: ext,
                    url: att_url,
                    personal: false,
                    thumb: Some(prev_url),
                    source_link: Some(status_url.clone()),
                    extra_caption: None,
                    title: None,
                    site_name: self.name(),
                },
            );
            k = k + 1;
        }
        Ok(Some(posts))
    }
}

/// The `url` and `media_attachments` fields of a status document.
pub open spec fn status_fields(doc: JsonValue) -> Option<(Seq<char>, Seq<JsonValue>)> {
    match (get_field(doc, "url"@), get_field(doc, "media_attachments"@)) {
        (Some(JsonValue::Str(u)), Some(JsonValue::Arr(xs))) => Some((u@, xs@)),
        _ => None,
    }
}

/// The `url` and `preview_url` fields of one attachment.
pub open spec fn attachment_fields(v: JsonValue) -> Option<(Seq<char>, Seq<char>)> {
    match (get_field(v, "url"@), get_field(v, "preview_url"@)) {
        (Some(JsonValue::Str(u)), Some(JsonValue::Str(p))) => Some((u@, p@)),
        _ => None,
    }
}

/// A host that failed its capability probe once is never probed again: once
/// it stands in the negative cache, every later applicability test on a URL
/// of that host is answered from the cache alone.
pub proof fn lemma_negative_cache(m: Mastodon, host: String, url: Seq<char>, r: MastodonCheck)
    requires
        matches(url),
        host_of(url) == host@,
        check_spec(m.instance_cache@.push(host), url, r),
    ensures
        r is KnownUnsupported,
{
    let cache = m.instance_cache@.push(host);
    assert(cache[cache.len() - 1]@ == host_of(url));
}

} // verus!
