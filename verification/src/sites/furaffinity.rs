//! The FurAffinity gallery resolver: substring applicability tests, a
//! mutable cookie jar that absorbs the cookies a solved anti-bot challenge
//! yields, a page parse that reads the single submission image out of the
//! fetched HTML, and a direct-asset path answered from a URL lookup. The
//! page fetch, the challenge solve and the lookup are the caller's.

use crate::json::str_eq;
use crate::sites::{file_ext, first_at, get_file_ext, FetchError, PostInfo, ProviderKind};
use crate::sites::find_char_at;
use crate::strutil::{chars_of, check_at, contains_at, find_from, find_sub,
    first_contains, string_of_range};
use vstd::prelude::*;

verus! {

/// The URL carries the mirror domain's asset path.
pub open spec fn is_direct_asset(s: Seq<char>) -> bool {
    exists|i: int| contains_at(s, "facdn.net/art/"@, i)
}

/// The URL carries a submission page path.
pub open spec fn is_page(s: Seq<char>) -> bool {
    (exists|i: int| contains_at(s, "furaffinity.net/view/"@, i)) || (exists|i: int|
        contains_at(s, "furaffinity.net/full/"@, i))
}

pub open spec fn supported(s: Seq<char>) -> bool {
    is_page(s) || is_direct_asset(s)
}

/// The URL with a plain scheme upgraded in place.
pub open spec fn normalized(s: Seq<char>) -> Seq<char> {
    if contains_at(s, "http://"@, 0) {
        "https://"@ + s.skip(7)
    } else {
        s
    }
}

/// A response status that signals the anti-bot challenge.
pub open spec fn needs_challenge(status: u16) -> bool {
    status == 429 || status == 503
}

/// One `name=value` cookie pair per `; `-separated segment: the name runs to
/// the segment's first `=`, the value from there to its second `=` or the
/// segment's end. A segment without `=` is malformed.
pub open spec fn cookie_pairs(s: Seq<char>, p: int) -> Option<Seq<(Seq<char>, Seq<char>)>>
    decreases s.len() - p,
{
    if p < 0 || p > s.len() {
        None
    } else {
        let q = first_contains(s, "; "@, p);
        let e1 = first_at(s, '=', p);
        if e1 >= q {
            None
        } else {
            let e2 = first_at(s, '=', e1 + 1);
            let vend = if e2 < q {
                e2
            } else {
                q
            };
            let pair = (s.subrange(p, e1), s.subrange(e1 + 1, vend));
            if q >= s.len() {
                Some(seq![pair])
            } else if p <= q && q + 2 <= s.len() {
                match cookie_pairs(s, q + 2) {
                    Some(rest) => Some(seq![pair] + rest),
                    None => None,
                }
            } else {
                // A separator found before the end always leaves room for
                // itself; this branch only keeps the recursion well-founded.
                None
            }
        }
    }
}

/// The first jar entry with the given name, or `-1`.
pub open spec fn key_index(es: Seq<(Seq<char>, Seq<char>)>, k: Seq<char>) -> int
    decreases es.len(),
{
    if es.len() == 0 {
        -1
    } else if es[0].0 == k {
        0
    } else {
        let r = key_index(es.drop_first(), k);
        if r < 0 {
            -1
        } else {
            r + 1
        }
    }
}

pub proof fn lemma_key_index(es: Seq<(Seq<char>, Seq<char>)>, k: Seq<char>)
    ensures
        -1 <= key_index(es, k) < es.len(),
        key_index(es, k) >= 0 ==> es[key_index(es, k)].0 == k && forall|a: int|
            0 <= a < key_index(es, k) ==> (#[trigger] es[a]).0 != k,
        key_index(es, k) == -1 ==> forall|a: int| 0 <= a < es.len() ==> (#[trigger] es[a]).0 != k,
    decreases es.len(),
{
    if es.len() > 0 && es[0].0 != k {
        lemma_key_index(es.drop_first(), k);
        let d = es.drop_first();
        if key_index(es, k) >= 0 {
            assert forall|a: int| 0 <= a < key_index(es, k) implies (#[trigger] es[a]).0 != k by {
                if a > 0 {
                    assert(es[a] == d[a - 1]);
                }
            }
        } else {
            assert forall|a: int| 0 <= a < es.len() implies (#[trigger] es[a]).0 != k by {
                if a > 0 {
                    assert(es[a] == d[a - 1]);
                }
            }
        }
    }
}

/// Setting a cookie: the first entry with the name is replaced, a new name
/// is appended.
pub open spec fn jar_set(es: Seq<(Seq<char>, Seq<char>)>, k: Seq<char>, v: Seq<char>) -> Seq<
    (Seq<char>, Seq<char>),
> {
    if key_index(es, k) >= 0 {
        es.update(key_index(es, k), (k, v))
    } else {
        es.push((k, v))
    }
}

/// All pairs folded into the jar, first to last.
pub open spec fn merged(es: Seq<(Seq<char>, Seq<char>)>, ps: Seq<(Seq<char>, Seq<char>)>) -> Seq<
    (Seq<char>, Seq<char>),
>
    decreases ps.len(),
{
    if ps.len() == 0 {
        es
    } else {
        merged(jar_set(es, ps[0].0, ps[0].1), ps.drop_first())
    }
}

/// The jar's entries, reduced to their characters.
pub open spec fn jar_views(es: Seq<(String, String)>) -> Seq<(Seq<char>, Seq<char>)> {
    es.map_values(|p: (String, String)| (p.0@, p.1@))
}

/// Cookie names are unique.
pub open spec fn jar_wf(es: Seq<(String, String)>) -> bool {
    forall|a: int, b: int| 0 <= a < b < es.len() ==> (#[trigger] es[a]).0@ != (#[trigger] es[b]).0@
}

/// One `name=value` rendering of a pair.
pub open spec fn pair_str(p: (Seq<char>, Seq<char>)) -> Seq<char> {
    p.0 + "="@ + p.1
}

/// The `Cookie` header value: the pairs joined with `; `.
pub open spec fn cookie_string(es: Seq<(Seq<char>, Seq<char>)>) -> Seq<char>
    decreases es.len(),
{
    if es.len() == 0 {
        Seq::empty()
    } else if es.len() == 1 {
        pair_str(es[0])
    } else {
        cookie_string(es.drop_last()) + "; "@ + pair_str(es.last())
    }
}

/// What the `src` attribute of the page's submission image element holds:
/// the outer option is the element's presence, the inner the attribute's.
pub uninterp spec fn submission_img_src(html: Seq<char>) -> Option<Option<Seq<char>>>;

/// Relies on scraper's `Html::parse_document`, `Selector::parse` and
/// `ElementRef::attr`: parses the page and reads the `src` attribute of the
/// first element with id `submissionImg`; the result depends on the page
/// text alone.
#[verifier::external_body]
fn find_submission_img(html: &str) -> (r: Option<Option<String>>)
    ensures
        match r {
            Some(inner) => match inner {
                Some(s) => submission_img_src(html@) matches Some(o) && o matches Some(t) && t
                    == s@,
                None => submission_img_src(html@) matches Some(o) && o is None,
            },
            None => submission_img_src(html@) is None,
        },
{
    let sel = scraper::Selector::parse("#submissionImg").unwrap();
    let doc = scraper::Html::parse_document(html);
    match doc.select(&sel).next() {
        Some(el) => Some(el.value().attr("src").map(|s| s.to_string())),
        None => None,
    }
}

/// A hit from the URL lookup index, reduced to what the record needs.
#[derive(Clone, Debug)]
pub struct LookupFile {
    pub filename: String,
    pub url: String,
    pub source_url: String,
}

pub struct FurAffinity {
    /// The session cookie jar, seeded at construction and replaced pairwise
    /// when a solved challenge hands new cookies back.
    pub cookies: Vec<(String, String)>,
}

/// Parses a `; `-separated cookie header into pairs.
fn parse_pairs(v: &Vec<char>, p: usize) -> (r: Option<Vec<(String, String)>>)
    requires
        p <= v@.len(),
    ensures
        match r {
            Some(ps) => cookie_pairs(v@, p as int) == Some(jar_views(ps@)),
            None => cookie_pairs(v@, p as int) is None,
        },
    decreases v@.len() - p,
{
    let sep = chars_of("; ");
    proof {
        reveal_strlit("; ");
    }
    let q = find_from(v, &sep, p);
    let e1 = find_char_at(v, '=', p);
    if e1 >= q {
        return None;
    }
    let e2 = find_char_at(v, '=', e1 + 1);
    let vend: usize = if e2 < q {
        e2
    } else {
        q
    };
    let name = string_of_range(v, p, e1);
    let value = string_of_range(v, e1 + 1, vend);
    if q >= v.len() {
        let mut out: Vec<(String, String)> = Vec::new();
        out.push((name, value));
        proof {
            assert(jar_views(out@) =~= cookie_pairs(v@, p as int)->Some_0);
        }
        Some(out)
    } else {
        match parse_pairs(v, q + 2) {
            Some(mut rest) => {
                let mut out: Vec<(String, String)> = Vec::new();
                out.push((name, value));
                out.append(&mut rest);
                proof {
                    assert(jar_views(out@) =~= cookie_pairs(v@, p as int)->Some_0);
                }
                Some(out)
            },
            None => None,
        }
    }
}

/// Replaces or appends one cookie.
fn jar_insert(jar: &mut Vec<(String, String)>, key: String, value: String)
    requires
        jar_wf(old(jar)@),
    ensures
        jar_views(final(jar)@) == jar_set(jar_views(old(jar)@), key@, value@),
        jar_wf(final(jar)@),
{
    let ghost es = jar_views(jar@);
    proof {
        lemma_key_index(es, key@);
    }
    let mut i: usize = 0;
    while i < jar.len()
        invariant
            i <= jar@.len(),
            jar@ == old(jar)@,
            es == jar_views(jar@),
            jar_wf(jar@),
            forall|a: int| 0 <= a < i ==> (#[trigger] es[a]).0 != key@,
        decreases jar@.len() - i,
    {
        if str_eq(jar[i].0.as_str(), key.as_str()) {
            proof {
                lemma_key_index(es, key@);
                assert(es[i as int] == (jar@[i as int].0@, jar@[i as int].1@));
                assert(es[i as int].0 == key@);
                if key_index(es, key@) > i {
                    assert(false);
                }
                if key_index(es, key@) < i {
                    assert((es[key_index(es, key@)]).0 != key@);
                    assert(false);
                }
                assert(key_index(es, key@) == i);
            }
            let ghost before = jar@;
            jar.remove(i);
            jar.insert(i, (key, value));
            proof {
                assert forall|a: int| 0 <= a < jar@.len() implies #[trigger] jar@[a] == (
                    if a == i {
                        (key, value)
                    } else {
                        before[a]
                    }
                ) by {}
                assert(jar_views(jar@) =~= es.update(i as int, (key@, value@)));
                assert forall|a: int, b: int| 0 <= a < b < jar@.len() implies (
                    #[trigger] jar@[a]).0@ != (#[trigger] jar@[b]).0@ by {
                    assert(before[a].0@ == es[a].0);
                    assert(before[b].0@ == es[b].0);
                    assert(jar@[a].0@ == es[a].0);
                    assert(jar@[b].0@ == es[b].0);
                }
            }
            return ;
        }
        i = i + 1;
    }
    proof {
        lemma_key_index(es, key@);
        if key_index(es, key@) >= 0 {
            assert((es[key_index(es, key@)]).0 != key@);
            assert(false);
        }
    }
    let ghost before = jar@;
    jar.push((key, value));
    proof {
        assert(jar_views(jar@) =~= es.push((key@, value@)));
        assert forall|a: int, b: int| 0 <= a < b < jar@.len() implies (#[trigger] jar@[a]).0@ != (
        #[trigger] jar@[b]).0@ by {
            if b < jar@.len() - 1 {
                assert(jar@[a] == before[a]);
                assert(jar@[b] == before[b]);
            } else {
                assert(jar@[a] == before[a]);
                assert(before[a].0@ == es[a].0);
                assert(es[a].0 != key@);
                assert(jar@[b] == (key, value));
            }
        }
    }
}

impl FurAffinity {
    /// Seeds the session jar with the two long-lived login cookies.
    pub fn new(cookies: (String, String)) -> (r: Self)
        ensures
            jar_views(r.cookies@) == seq![("a"@, cookies.0@), ("b"@, cookies.1@)],
            jar_wf(r.cookies@),
    {
        let mut jar: Vec<(String, String)> = Vec::new();
        jar.push(("a".to_owned(), cookies.0));
        jar.push(("b".to_owned(), cookies.1));
        proof {
            reveal_strlit("a");
            reveal_strlit("b");
            assert(jar_views(jar@) =~= seq![("a"@, cookies.0@), ("b"@, cookies.1@)]);
            assert("a"@[0] == 'a' && "b"@[0] == 'b');
            assert(jar@[0].0@ != jar@[1].0@);
        }
        FurAffinity { cookies: jar }
    }

    /// The provider's human readable name.
    pub fn name(&self) -> (r: String)
        ensures
            r@ == "FurAffinity"@,
    {
        "FurAffinity".to_owned()
    }

    /// Whether one of the known path shapes occurs in the URL.
    pub fn url_supported(&self, url: &str) -> (r: bool)
        ensures
            r == supported(url@),
    {
        let v = chars_of(url);
        let view_path = chars_of("furaffinity.net/view/");
        let full_path = chars_of("furaffinity.net/full/");
        let art_path = chars_of("facdn.net/art/");
        proof {
            reveal_strlit("furaffinity.net/view/");
            reveal_strlit("furaffinity.net/full/");
            reveal_strlit("facdn.net/art/");
        }
        find_sub(&v, &view_path).is_some() || find_sub(&v, &full_path).is_some() || find_sub(
            &v,
            &art_path,
        ).is_some()
    }

    /// Whether the URL is the mirror domain's asset shape, which is served
    /// from the URL lookup index rather than the page fetch.
    pub fn is_direct_url(&self, url: &str) -> (r: bool)
        ensures
            r == is_direct_asset(url@),
    {
        let v = chars_of(url);
        let art_path = chars_of("facdn.net/art/");
        proof {
            reveal_strlit("facdn.net/art/");
        }
        find_sub(&v, &art_path).is_some()
    }

    /// Upgrades a plain scheme in place.
    pub fn normalize_https(&self, url: &str) -> (r: String)
        ensures
            r@ == normalized(url@),
    {
        let v = chars_of(url);
        let plain = chars_of("http://");
        proof {
            reveal_strlit("http://");
            reveal_strlit("https://");
        }
        if check_at(&v, &plain, 0) {
            let mut out = String::new();
            out.push_str("https://");
            let rest = string_of_range(&v, 7, v.len());
            out.push_str(rest.as_str());
            proof {
                assert(out@ =~= normalized(url@));
            }
            out
        } else {
            url.to_owned()
        }
    }

    /// Whether a page response's status demands the out-of-band challenge
    /// solve before the one retry.
    pub fn status_needs_challenge(&self, status: u16) -> (r: bool)
        ensures
            r == needs_challenge(status),
    {
        status == 429 || status == 503
    }

    /// The `Cookie` header value for a page request.
    pub fn stringify_cookies(&self) -> (r: String)
        ensures
            r@ == cookie_string(jar_views(self.cookies@)),
    {
        let ghost es = jar_views(self.cookies@);
        let mut out = String::new();
        let mut i: usize = 0;
        while i < self.cookies.len()
            invariant
                i <= self.cookies@.len(),
                es == jar_views(self.cookies@),
                out@ == cookie_string(es.take(i as int)),
            decreases self.cookies@.len() - i,
        {
            proof {
                reveal_strlit("; ");
                reveal_strlit("=");
                assert(es.take(i + 1).drop_last() =~= es.take(i as int));
                assert(es.take(i + 1).last() == es[i as int]);
            }
            if i > 0 {
                out.push_str("; ");
            }
            out.push_str(self.cookies[i].0.as_str());
            out.push_str("=");
            out.push_str(self.cookies[i].1.as_str());
            proof {
                assert(out@ =~= cookie_string(es.take(i + 1)));
            }
            i = i + 1;
        }
        proof {
            assert(es.take(es.len() as int) =~= es);
        }
        out
    }

    /// Absorbs the cookies a solved challenge handed back: each pair
    /// replaces its namesake or joins the jar. A malformed pair is the
    /// schema error the original reports for missing cookie data.
    pub fn merge_challenge_cookies(&mut self, cookie_header: &str) -> (r: Result<(), FetchError>)
        requires
            jar_wf(old(self).cookies@),
        ensures
            jar_wf(final(self).cookies@),
            match r {
                Ok(_) => cookie_pairs(cookie_header@, 0) matches Some(ps) && jar_views(
                    final(self).cookies@,
                ) == merged(jar_views(old(self).cookies@), ps),
                Err(e) => e == (FetchError::MissingField { site: ProviderKind::FurAffinity })
                    && cookie_pairs(cookie_header@, 0) is None && final(self).cookies
                    == old(self).cookies,
            },
    {
        let v = chars_of(cookie_header);
        let pairs = match parse_pairs(&v, 0) {
            Some(ps) => ps,
            None => {
                return Err(FetchError::MissingField { site: ProviderKind::FurAffinity });
            },
        };
        let ghost ps = jar_views(pairs@);
        let ghost jar0 = jar_views(self.cookies@);
        proof {
            assert(ps.skip(0) =~= ps);
        }
        let mut i: usize = 0;
        while i < pairs.len()
            invariant
                i <= pairs@.len(),
                ps == jar_views(pairs@),
                jar_wf(self.cookies@),
                merged(jar_views(self.cookies@), ps.skip(i as int)) == merged(jar0, ps),
            decreases pairs@.len() - i,
        {
            proof {
                assert(ps.skip(i as int)[0] == ps[i as int]);
                assert(ps.skip(i as int).drop_first() =~= ps.skip(i + 1));
            }
            jar_insert(&mut self.cookies, pairs[i].0.clone(), pairs[i].1.clone());
            i = i + 1;
        }
        proof {
            assert(ps.skip(ps.len() as int).len() == 0);
        }
        Ok(())
    }

    /// Reads the single submission image out of a fetched page: a page
    /// without the element holds no resolvable image; an element without a
    /// source is the schema error the original reports; otherwise the
    /// protocol-relative source becomes the record's absolute URL.
    pub fn parse_submission_page(&self, html: &str, url: &str) -> (r: Result<
        Option<PostInfo>,
        FetchError,
    >)
        ensures
            match r {
                Ok(None) => submission_img_src(html@) is None,
                Ok(Some(post)) => submission_img_src(html@) matches Some(o) && o matches Some(src)
                    && {
                    &&& post.url@ == "https:"@ + src
                    &&& post.file_type@ == file_ext("https:"@ + src)
                    &&& post.source_link matches Some(l) && l@ == url@
                    &&& post.site_name@ == "FurAffinity"@
                    &&& post.personal == false
                    &&& post.thumb is None
                    &&& post.extra_caption is None
                    &&& post.title is None
                },
                Err(e) => ({
                    &&& e == (FetchError::MissingField { site: ProviderKind::FurAffinity })
                    &&& submission_img_src(html@) matches Some(o) && o is None
                }),
            },
    {
        let src = match find_submission_img(html) {
            None => {
                return Ok(None);
            },
            Some(None) => {
                return Err(FetchError::MissingField { site: ProviderKind::FurAffinity });
            },
            Some(Some(src)) => src,
        };
        let mut image_url = String::new();
        image_url.push_str("https:");
        image_url.push_str(src.as_str());
        let ext = match get_file_ext(image_url.as_str()) {
            Some(ext) => ext,
            None => {
                proof {
                    assert(false);
                }
                vstd::pervasive::unreached()
            },
        };
        Ok(
            Some(
                PostInfo {
                    file_type: ext,
                    url: image_url,
                    personal: false,
                    thumb: None,
                    source_link: Some(url.to_owned()),
                    extra_caption: None,
                    title: None,
                    site_name: self.name(),
                },
            ),
        )
    }

    /// Builds the record for a mirror-domain asset: attribution from a
    /// lookup hit when the index knows the URL, else the bare normalized
    /// URL under the provider's own name.
    pub fn direct_record(&self, url: &str, lookup: Option<&LookupFile>) -> (r: PostInfo)
        ensures
            r.site_name@ == "FurAffinity"@,
            r.personal == false,
            r.thumb is None,
            r.extra_caption is None,
            r.title is None,
            match lookup {
                Some(f) => r.file_type@ == file_ext(f.filename@) && r.url@ == f.url@ && (
                r.source_link matches Some(l) && l@ == f.source_url@),
                None => r.file_type@ == file_ext(normalized(url@)) && r.url@ == normalized(url@)
                    && r.source_link is None,
            },
    {
        match lookup {
            Some(f) => {
                let ext = match get_file_ext(f.filename.as_str()) {
                    Some(ext) => ext,
                    None => {
                        proof {
                            assert(false);
                        }
                        vstd::pervasive::unreached()
                    },
                };
                PostInfo {
                    file_type: ext,
                    url: f.url.clone(),
                    personal: false,
                    thumb: None,
                    source_link: Some(f.source_url.clone()),
                    extra_caption: None,
                    title: None,
                    site_name: self.name(),
                }
            },
            None => {
                let nu = self.normalize_https(url);
                let ext = match get_file_ext(nu.as_str()) {
                    Some(ext) => ext,
                    None => {
                        proof {
                            assert(false);
                        }
                        vstd::pervasive::unreached()
                    },
                };
                PostInfo {
                    file_type: ext,
                    url: nu,
                    personal: false,
                    thumb: None,
                    source_link: None,
                    extra_caption: None,
                    title: None,
                    site_name: self.name(),
                }
            },
        }
    }
}

} // verus!
