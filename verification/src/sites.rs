//! Shared shapes of the provider resolvers: the normalized post record every
//! provider produces, the error taxonomy, the URL scheme helper, and the
//! file-extension helper.

pub mod direct;
pub mod e621;
pub mod furaffinity;
pub mod inkbunny;
pub mod mastodon;
pub mod twitter;
pub mod weasyl;

use crate::strutil::{chars_of, check_at, contains_at, string_of_range};
use vstd::prelude::*;

verus! {

/// The normalized post record: the one cross-provider result shape.
#[derive(Clone, Debug)]
pub struct PostInfo {
    /// File type, as a standard file extension (png, jpg, etc.)
    pub file_type: String,
    /// URL to full image
    pub url: String,
    /// If this result is personal
    pub personal: bool,
    /// URL to thumbnail, if available
    pub thumb: Option<String>,
    /// URL to original source of this image, if available
    pub source_link: Option<String>,
    /// Supplementary text, e.g. the original post's caption
    pub extra_caption: Option<String>,
    /// Display name, e.g. the author's handle
    pub title: Option<String>,
    /// Human readable name of the site
    pub site_name: String,
}

/// The providers, in the registry's priority order: the generic direct-link
/// resolver comes last.
#[derive(Clone, Copy, Debug, PartialEq, Eq, Structural)]
pub enum ProviderKind {
    E621,
    Twitter,
    FurAffinity,
    Mastodon,
    Weasyl,
    Inkbunny,
    Direct,
}

/// How a provider operation fails; "not supported" and "no content" are not
/// errors and never appear here.
#[derive(Clone, Debug, PartialEq, Eq, Structural)]
pub enum FetchError {
    /// The provider's response was not well-formed for its schema.
    Parse { site: ProviderKind },
    /// A required field was absent from the provider's response.
    MissingField { site: ProviderKind },
    /// Fatal configuration error: the long-lived login credentials were
    /// rejected at session establishment.
    InvalidCredentials,
    /// Fatal configuration error: the account's content-rating mask is not
    /// fully open.
    RestrictedAccount,
    /// Fatal: the API signalled an error code with no structured handling.
    UnhandledCode { code: i64 },
    /// The API signalled an expired session again on the one retried
    /// request.
    SessionExpired,
}

/// Where the text after a URL scheme begins when one stands at `i`:
/// `https://` is preferred over `http://`, as the patterns' optional `s`
/// demands; `-1` when neither scheme stands there.
pub open spec fn scheme_end(s: Seq<char>, i: int) -> int {
    if contains_at(s, "https://"@, i) {
        i + 8
    } else if contains_at(s, "http://"@, i) {
        i + 7
    } else {
        -1
    }
}

/// Checks for a URL scheme at position `i`.
pub fn scheme_end_at(v: &Vec<char>, i: usize) -> (r: Option<usize>)
    ensures
        match r {
            Some(j) => scheme_end(v@, i as int) == j as int && j <= v@.len(),
            None => scheme_end(v@, i as int) == -1,
        },
{
    let https = chars_of("https://");
    let http = chars_of("http://");
    proof {
        reveal_strlit("https://");
        reveal_strlit("http://");
    }
    if check_at(v, &https, i) {
        Some(i + 8)
    } else if check_at(v, &http, i) {
        Some(i + 7)
    } else {
        None
    }
}

/// What the registry asks its caller to do before it can finish deciding: a
/// network probe that only the surrounding process can make.
#[derive(Clone, Debug)]
pub enum ProbeRequest {
    /// Probe the host's instance-info endpoint and report success.
    MastodonInstance { host: String },
    /// Make the lightweight existence request and report its outcome.
    DirectHead { url: String },
}

/// The registry's answer for a URL.
#[derive(Clone, Debug)]
pub enum Resolution {
    Found(ProviderKind),
    Probe(ProbeRequest),
    Unsupported,
}

/// Some provider's pattern recognizes the URL: the pattern tests alone,
/// before any probe.
pub open spec fn any_pattern(s: Seq<char>) -> bool {
    ||| e621::supported(s)
    ||| twitter::supported(s)
    ||| furaffinity::supported(s)
    ||| mastodon::matches(s)
    ||| weasyl::supported(s)
    ||| inkbunny::supported(s)
    ||| direct::ext_allowed(s)
}

/// The registry's decision from the Weasyl provider down, shared by the
/// first pass and the pass after a failed instance probe.
pub open spec fn tail_resolution(s: Seq<char>, r: Resolution) -> bool {
    if weasyl::supported(s) {
        r == Resolution::Found(ProviderKind::Weasyl)
    } else if inkbunny::supported(s) {
        r == Resolution::Found(ProviderKind::Inkbunny)
    } else if direct::ext_allowed(s) {
        r matches Resolution::Probe(ProbeRequest::DirectHead { url }) && url@ == s
    } else {
        r == Resolution::Unsupported
    }
}

/// The registry's decision, in priority order: the specific matchers first,
/// the generic direct-link catch-all last.
pub open spec fn resolution_spec(cache: Seq<String>, s: Seq<char>, r: Resolution) -> bool {
    if e621::supported(s) {
        r == Resolution::Found(ProviderKind::E621)
    } else if twitter::supported(s) {
        r == Resolution::Found(ProviderKind::Twitter)
    } else if furaffinity::supported(s) {
        r == Resolution::Found(ProviderKind::FurAffinity)
    } else if mastodon::matches(s) && !mastodon::cached_unsupported(cache, mastodon::host_of(s)) {
        r matches Resolution::Probe(ProbeRequest::MastodonInstance { host }) && host@
            == mastodon::host_of(s)
    } else {
        tail_resolution(s, r)
    }
}

/// The ordered collection of providers, with each provider's session state.
pub struct SiteRegistry {
    pub e621: e621::E621,
    pub twitter: twitter::Twitter,
    pub furaffinity: furaffinity::FurAffinity,
    pub mastodon: mastodon::Mastodon,
    pub weasyl: weasyl::Weasyl,
    pub inkbunny: inkbunny::Inkbunny,
    pub direct: direct::Direct,
}

impl SiteRegistry {
    pub fn new(
        furaffinity: furaffinity::FurAffinity,
        weasyl: weasyl::Weasyl,
        inkbunny: inkbunny::Inkbunny,
    ) -> (r: Self)
        ensures
            r.mastodon.instance_cache@.len() == 0,
            r.furaffinity == furaffinity,
            r.weasyl == weasyl,
            r.inkbunny == inkbunny,
    {
        SiteRegistry {
            e621: e621::E621::new(),
            twitter: twitter::Twitter::new(),
            furaffinity,
            mastodon: mastodon::Mastodon::new(),
            weasyl,
            inkbunny,
            direct: direct::Direct::new(),
        }
    }

    fn resolve_tail(&self, url: &str) -> (r: Resolution)
        ensures
            tail_resolution(url@, r),
    {
        if self.weasyl.url_supported(url) {
            return Resolution::Found(ProviderKind::Weasyl);
        }
        if self.inkbunny.url_supported(url) {
            return Resolution::Found(ProviderKind::Inkbunny);
        }
        if self.direct.ext_supported(url) {
            return Resolution::Probe(ProbeRequest::DirectHead { url: url.to_owned() });
        }
        Resolution::Unsupported
    }

    /// Asks each provider in priority order whether it supports the URL. A
    /// URL no provider's pattern recognizes is unsupported, never an error;
    /// a provider whose test needs a network probe hands the probe back to
    /// the caller instead of making it.
    pub fn find_provider(&self, url: &str) -> (r: Resolution)
        ensures
            resolution_spec(self.mastodon.instance_cache@, url@, r),
            !any_pattern(url@) ==> r is Unsupported,
    {
        if self.e621.url_supported(url) {
            return Resolution::Found(ProviderKind::E621);
        }
        if self.twitter.url_supported(url) {
            return Resolution::Found(ProviderKind::Twitter);
        }
        if self.furaffinity.url_supported(url) {
            return Resolution::Found(ProviderKind::FurAffinity);
        }
        match self.mastodon.check_url(url) {
            mastodon::MastodonCheck::NeedsProbe { host } => {
                return Resolution::Probe(ProbeRequest::MastodonInstance { host });
            },
            mastodon::MastodonCheck::KnownUnsupported => {},
            mastodon::MastodonCheck::NoMatch => {},
        }
        self.resolve_tail(url)
    }

    /// Continues after the caller probed an instance host: a successful
    /// probe settles on the federated-instance provider; a failed one joins
    /// the negative cache and the remaining providers are tried.
    pub fn resume_after_instance_probe(&mut self, url: &str, probe_ok: bool) -> (r: Resolution)
        ensures
            probe_ok ==> r == Resolution::Found(ProviderKind::Mastodon) && final(self).mastodon
                == old(self).mastodon,
            !probe_ok ==> tail_resolution(url@, r),
            !probe_ok && !mastodon::matches(url@) ==> final(self).mastodon == old(self).mastodon,
            !probe_ok && mastodon::matches(url@) ==> ({
                let before = old(self).mastodon.instance_cache@;
                let after = final(self).mastodon.instance_cache@;
                &&& after.len() == before.len() + 1
                &&& (forall|k: int| 0 <= k < before.len() ==> after[k] == before[k])
                &&& after.last()@ == mastodon::host_of(url@)
            }),
    {
        if probe_ok {
            return Resolution::Found(ProviderKind::Mastodon);
        }
        match self.mastodon.host_string(url) {
            Some(host) => {
                self.mastodon.mark_unsupported(host);
            },
            None => {},
        }
        self.resolve_tail(url)
    }

    /// Continues after the caller made the direct-link existence probe.
    pub fn resume_after_direct_probe(&self, url: &str, probe: Option<&direct::HeadProbe>) -> (r:
        Resolution)
        ensures
            ({
                let pass = direct::ext_allowed(url@) && match probe {
                    Some(p) => p.success && (p.content_type matches Some(ct)
                        && direct::type_allowed(ct@)),
                    None => false,
                };
                if pass {
                    r == Resolution::Found(ProviderKind::Direct)
                } else {
                    r == Resolution::Unsupported
                }
            }),
    {
        if self.direct.url_supported(url, probe) {
            Resolution::Found(ProviderKind::Direct)
        } else {
            Resolution::Unsupported
        }
    }
}

/// The index of the last `.` in `s`, or `-1` when there is none.
pub open spec fn last_dot(s: Seq<char>) -> int
    decreases s.len(),
{
    if s.len() == 0 {
        -1
    } else if s.last() == '.' {
        s.len() - 1
    } else {
        last_dot(s.drop_last())
    }
}

pub proof fn lemma_last_dot(s: Seq<char>)
    ensures
        -1 <= last_dot(s) < s.len(),
        last_dot(s) >= 0 ==> s[last_dot(s)] == '.',
        forall|k: int| last_dot(s) < k < s.len() ==> s[k] != '.',
    decreases s.len(),
{
    if s.len() > 0 && s.last() != '.' {
        lemma_last_dot(s.drop_last());
        assert(forall|k: int| 0 <= k < s.len() - 1 ==> s[k] == s.drop_last()[k]);
    }
}

/// The first position at or after `i` holding the character `c`, or the end
/// of the sequence.
pub open spec fn first_at(s: Seq<char>, c: char, i: int) -> int
    decreases s.len() - i,
{
    if i < 0 || i >= s.len() {
        i
    } else if s[i] == c {
        i
    } else {
        first_at(s, c, i + 1)
    }
}

/// Scans forward from `i` for the character `c`.
pub fn find_char_at(v: &Vec<char>, c: char, i: usize) -> (r: usize)
    requires
        i <= v@.len(),
    ensures
        r as int == first_at(v@, c, i as int),
        i <= r <= v@.len(),
{
    let mut j: usize = i;
    while j < v.len() && v[j] != c
        invariant
            i <= j <= v@.len(),
            first_at(v@, c, i as int) == first_at(v@, c, j as int),
        decreases v@.len() - j,
    {
        j = j + 1;
    }
    j
}

/// An ASCII uppercase letter mapped to its lowercase counterpart; any other
/// character unchanged.
pub open spec fn lower_char(c: char) -> char {
    if 'A' <= c && c <= 'Z' {
        (((c as u32) + 32) as char)
    } else {
        c
    }
}

pub open spec fn lower_seq(s: Seq<char>) -> Seq<char> {
    s.map_values(|c: char| lower_char(c))
}

/// Relies on `char::to_ascii_lowercase`: maps an ASCII uppercase letter to
/// its lowercase counterpart and leaves every other character unchanged.
pub assume_specification[ char::to_ascii_lowercase ](c: &char) -> (r: char)
    ensures
        r == lower_char(*c),
;

/// The raw extension text of a resolved URL: everything after the last `.`,
/// truncated at the first `?` that follows it. When the URL has no `.`, the
/// whole URL (up to a `?`) stands in as the extension.
pub open spec fn raw_file_ext(s: Seq<char>) -> Seq<char> {
    s.subrange(last_dot(s) + 1, first_at(s, '?', last_dot(s) + 1))
}

/// The file type derived from a resolved URL: the raw extension text,
/// lowercased.
pub open spec fn file_ext(s: Seq<char>) -> Seq<char> {
    lower_seq(raw_file_ext(s))
}

/// Copies `v[from..to]` into a fresh string, lowercasing ASCII letters.
fn string_of_range_lower(v: &Vec<char>, from: usize, to: usize) -> (s: String)
    requires
        from <= to <= v@.len(),
    ensures
        s@ == lower_seq(v@.subrange(from as int, to as int)),
{
    let mut s = String::new();
    let mut j: usize = from;
    while j < to
        invariant
            from <= j <= to <= v@.len(),
            s@ == lower_seq(v@.subrange(from as int, j as int)),
        decreases to - j,
    {
        s.push(v[j].to_ascii_lowercase());
        proof {
            assert(s@ =~= lower_seq(v@.subrange(from as int, j + 1)));
        }
        j = j + 1;
    }
    s
}

/// Derives the file type from a URL, lowercased. Some extension text is
/// always derived, so the result is never `None`; it is empty exactly when
/// the URL's last `.` is followed by nothing but a query string, the same
/// degenerate text the derivation has always produced, and callers keep
/// such a record rather than inventing a failure.
pub fn get_file_ext(name: &str) -> (r: Option<String>)
    ensures
        match r {
            Some(ext) => ext@ == file_ext(name@),
            None => false,
        },
{
    let v = crate::strutil::chars_of(name);
    proof {
        lemma_last_dot(v@);
    }
    let mut i: usize = v.len();
    while i > 0
        invariant
            i <= v@.len(),
            v@ == name@,
            forall|k: int| i <= k < v@.len() ==> v@[k] != '.',
        decreases i,
    {
        if v[i - 1] == '.' {
            proof {
                lemma_last_dot(v@);
                assert(v@[i - 1] == '.');
                if last_dot(v@) > i - 1 {
                    assert(v@[last_dot(v@)] != '.');
                    assert(false);
                }
                assert(last_dot(v@) == i - 1);
            }
            let q = find_char_at(&v, '?', i);
            return Some(string_of_range_lower(&v, i, q));
        }
        i = i - 1;
    }
    proof {
        assert(last_dot(v@) == -1);
    }
    let q = find_char_at(&v, '?', 0);
    Some(string_of_range_lower(&v, 0, q))
}

} // verus!
