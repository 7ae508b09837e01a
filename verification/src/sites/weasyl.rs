//! The Weasyl gallery resolver: one regex-shaped pattern over personal and
//! canonical submission URLs, one authenticated REST call, and a positional
//! zip of the response's parallel submission and thumbnail arrays.

use crate::json::{get_field, json_of, parse_json, JsonValue};
use crate::sites::{file_ext, get_file_ext, scheme_end, scheme_end_at, FetchError, PostInfo,
    ProviderKind};
use crate::strutil::{chars_of, check_at, contains_at, find_run_end, in_class, run_end,
    string_of_range, CharClass};
use vstd::prelude::*;

verus! {

/// A digit run starting at `d`, followed by a separator and at least one
/// non-whitespace character, as the pattern's trailing segment demands.
pub open spec fn id_span(s: Seq<char>, d: int) -> (int, int) {
    let e = run_end(s, d, CharClass::Digit);
    if e > d && e + 1 < s.len() && s[e] == '/' && in_class(s[e + 1], CharClass::NonSpace) {
        (d, e)
    } else {
        (-1, -1)
    }
}

/// The id span of a submission URL match at position `i`: `(-1, -1)` when
/// the pattern does not match there. Both the personal shape
/// (`~user/submissions/id/...`, with `%7` accepted for the tilde) and the
/// canonical shape (`submission/id/...`) are recognized.
pub open spec fn span_at(s: Seq<char>, i: int) -> (int, int) {
    let j = scheme_end(s, i);
    if j < 0 || !contains_at(s, "www.weasyl.com/"@, j) {
        (-1, -1)
    } else {
        let p = j + 15;
        if contains_at(s, "submission/"@, p) {
            id_span(s, p + 11)
        } else {
            let q = if contains_at(s, "~"@, p) {
                p + 1
            } else if contains_at(s, "%7"@, p) {
                p + 2
            } else {
                -1
            };
            if q < 0 {
                (-1, -1)
            } else {
                let w = run_end(s, q, CharClass::Word);
                if w > q && contains_at(s, "/submissions/"@, w) {
                    id_span(s, w + 13)
                } else {
                    (-1, -1)
                }
            }
        }
    }
}

/// The first position at or after `i` where the pattern matches; `-1` when
/// there is none.
pub open spec fn first_match(s: Seq<char>, i: int) -> int
    decreases s.len() - i,
{
    if i < 0 || i >= s.len() {
        -1
    } else if span_at(s, i).0 >= 0 {
        i
    } else {
        first_match(s, i + 1)
    }
}

pub open spec fn supported(s: Seq<char>) -> bool {
    first_match(s, 0) >= 0
}

/// The submission id captured by the earliest match.
pub open spec fn sub_id(s: Seq<char>) -> Seq<char> {
    let i = first_match(s, 0);
    s.subrange(span_at(s, i).0, span_at(s, i).1)
}

/// The REST lookup the resolver performs for a recognized URL.
pub open spec fn endpoint_spec(s: Seq<char>) -> Seq<char> {
    "https://www.weasyl.com/api/submissions/"@ + sub_id(s) + "/view"@
}

/// Checks the digit-run tail at `d`.
fn id_span_at(v: &Vec<char>, d: usize) -> (r: Option<(usize, usize)>)
    requires
        d <= v@.len(),
    ensures
        match r {
            Some(p) => id_span(v@, d as int) == (p.0 as int, p.1 as int) && p.0 <= p.1 <= v@.len(),
            None => id_span(v@, d as int).0 < 0,
        },
{
    let e = find_run_end(v, d, CharClass::Digit);
    if e > d && e < v.len() && v.len() - e > 1 && v[e] == '/' {
        let c = v[e + 1];
        if !(c == ' ' || c == '\t' || c == '\n' || c == '\r' || c == '\u{b}' || c == '\u{c}') {
            return Some((d, e));
        }
    }
    None
}

/// Checks the pattern at one position.
fn check_span_at(v: &Vec<char>, i: usize) -> (r: Option<(usize, usize)>)
    requires
        i <= v@.len(),
    ensures
        match r {
            Some(p) => span_at(v@, i as int) == (p.0 as int, p.1 as int) && p.0 <= p.1 <= v@.len(),
            None => span_at(v@, i as int).0 < 0,
        },
{
    let j = match scheme_end_at(v, i) {
        Some(j) => j,
        None => {
            return None;
        },
    };
    let host = chars_of("www.weasyl.com/");
    proof {
        reveal_strlit("www.weasyl.com/");
    }
    if !check_at(v, &host, j) {
        return None;
    }
    let p = j + 15;
    let canonical = chars_of("submission/");
    proof {
        reveal_strlit("submission/");
    }
    if check_at(v, &canonical, p) {
        return id_span_at(v, p + 11);
    }
    let tilde = chars_of("~");
    let escaped = chars_of("%7");
    proof {
        reveal_strlit("~");
        reveal_strlit("%7");
    }
    let q: usize = if check_at(v, &tilde, p) {
        p + 1
    } else if check_at(v, &escaped, p) {
        p + 2
    } else {
        return None;
    };
    let w = find_run_end(v, q, CharClass::Word);
    let subs = chars_of("/submissions/");
    proof {
        reveal_strlit("/submissions/");
    }
    if w > q && check_at(v, &subs, w) {
        id_span_at(v, w + 13)
    } else {
        None
    }
}

/// Scans for the earliest match.
fn scan(v: &Vec<char>) -> (r: Option<(usize, usize)>)
    ensures
        match r {
            Some(p) => {
                let i = first_match(v@, 0);
                i >= 0 && span_at(v@, i) == (p.0 as int, p.1 as int) && p.0 <= p.1 <= v@.len()
            },
            None => first_match(v@, 0) == -1,
        },
{
    let mut i: usize = 0;
    while i < v.len()
        invariant
            i <= v@.len(),
            first_match(v@, 0) == first_match(v@, i as int),
        decreases v@.len() - i,
    {
        match check_span_at(v, i) {
            Some(p) => {
                return Some(p);
            },
            None => {},
        }
        i = i + 1;
    }
    None
}

/// The `url` field of a JSON object, as a string.
pub open spec fn url_of(v: JsonValue) -> Option<Seq<char>> {
    match get_field(v, "url"@) {
        Some(JsonValue::Str(s)) => Some(s@),
        _ => None,
    }
}

/// One of the parallel `media` arrays of the response document.
pub open spec fn media_arr(doc: JsonValue, key: Seq<char>) -> Option<Seq<JsonValue>> {
    match get_field(doc, "media"@) {
        Some(media) => match get_field(media, key) {
            Some(JsonValue::Arr(xs)) => Some(xs@),
            _ => None,
        },
        None => None,
    }
}

/// The shorter of the two parallel arrays: how far the zip reaches.
pub open spec fn zip_len(subs: Seq<JsonValue>, thumbs: Seq<JsonValue>) -> int {
    if subs.len() <= thumbs.len() {
        subs.len() as int
    } else {
        thumbs.len() as int
    }
}

/// The document lacks or mistypes a field the mapping reads: the submission
/// array; or, once that array is nonempty, the thumbnail array; or a `url`
/// within the zipped prefix of the two arrays.
pub open spec fn bad_schema(doc: JsonValue) -> bool {
    match media_arr(doc, "submission"@) {
        None => true,
        Some(subs) => subs.len() > 0 && match media_arr(doc, "thumbnail"@) {
            None => true,
            Some(thumbs) => exists|k: int|
                0 <= k < zip_len(subs, thumbs) && (url_of(#[trigger] subs[k]) is None || url_of(
                    thumbs[k],
                ) is None),
        },
    }
}

pub struct Weasyl {
    /// The API key sent with every request; the call itself is the caller's.
    pub api_key: String,
}

impl Weasyl {
    pub fn new(api_key: String) -> (r: Self)
        ensures
            r.api_key == api_key,
    {
        Weasyl { api_key }
    }

    /// The provider's human readable name.
    pub fn name(&self) -> (r: String)
        ensures
            r@ == "Weasyl"@,
    {
        "Weasyl".to_owned()
    }

    /// Whether the submission URL shape occurs in the text.
    pub fn url_supported(&self, url: &str) -> (r: bool)
        ensures
            r == supported(url@),
    {
        let v = chars_of(url);
        scan(&v).is_some()
    }

    /// The REST lookup to perform for a recognized URL; `None` when the
    /// shape does not occur.
    pub fn api_endpoint(&self, url: &str) -> (r: Option<String>)
        ensures
            match r {
                Some(e) => supported(url@) && e@ == endpoint_spec(url@),
                None => !supported(url@),
            },
    {
        let v = chars_of(url);
        match scan(&v) {
            Some((d, e)) => {
                let mut out = String::new();
                out.push_str("https://www.weasyl.com/api/submissions/");
                let id = string_of_range(&v, d, e);
                out.push_str(id.as_str());
                out.push_str("/view");
                proof {
                    assert(out@ =~= endpoint_spec(url@));
                }
                Some(out)
            },
            None => None,
        }
    }

    /// Maps the response document onto records: the parallel submission and
    /// thumbnail arrays are zipped positionally, every record sharing the
    /// original query URL as its source link. An empty submission array
    /// means the post holds no media; a missing expected field is a schema
    /// error, never a silent skip.
    pub fn parse_response(&self, resp: &str, url: &str) -> (r: Result<
        Option<Vec<PostInfo>>,
        FetchError,
    >)
        ensures
            match r {
                Ok(None) => json_of(resp@) matches Some(doc) && media_arr(doc, "submission"@)
                    matches Some(subs) && subs.len() == 0,
                Ok(Some(posts)) => json_of(resp@) matches Some(doc) && media_arr(
                    doc,
                    "submission"@,
                ) matches Some(subs) && media_arr(doc, "thumbnail"@) matches Some(thumbs)
                    && subs.len() > 0 && {
                    let n = if subs.len() <= thumbs.len() {
                        subs.len()
                    } else {
                        thumbs.len()
                    };
                    &&& posts@.len() == n
                    &&& forall|k: int|
                        0 <= k < n ==> {
                            &&& url_of(subs[k]) is Some
                            &&& url_of(thumbs[k]) is Some
                            &&& (#[trigger] posts@[k]).url@ == url_of(subs[k])->Some_0
                            &&& posts@[k].file_type@ == file_ext(url_of(subs[k])->Some_0)
                            &&& posts@[k].thumb matches Some(t) && t@ == url_of(
                                thumbs[k],
                            )->Some_0
                            &&& posts@[k].source_link matches Some(l) && l@ == url@
                            &&& posts@[k].site_name@ == "Weasyl"@
                            &&& posts@[k].personal == false
                            &&& posts@[k].extra_caption is None
                            &&& posts@[k].title is None
                        }
                },
                Err(e) => ({
                    ||| (e == (FetchError::Parse { site: ProviderKind::Weasyl }) && json_of(
                        resp@,
                    ) is None)
                    ||| ({
                        &&& e == (FetchError::MissingField { site: ProviderKind::Weasyl })
                        &&& json_of(resp@) matches Some(doc) && bad_schema(doc)
                    })
                }),
            },
    {
        let doc = match parse_json(resp) {
            Some(doc) => doc,
            None => {
                return Err(FetchError::Parse { site: ProviderKind::Weasyl });
            },
        };
        let media = match doc.get("media") {
            Some(m) => m,
            None => {
                return Err(FetchError::MissingField { site: ProviderKind::Weasyl });
            },
        };
        let subs = match media.get("submission") {
            Some(v) => match v.as_array() {
                Some(xs) => xs,
                None => {
                    return Err(FetchError::MissingField { site: ProviderKind::Weasyl });
                },
            },
            None => {
                return Err(FetchError::MissingField { site: ProviderKind::Weasyl });
            },
        };
        if subs.len() == 0 {
            return Ok(None);
        }
        let thumbs = match media.get("thumbnail") {
            Some(v) => match v.as_array() {
                Some(xs) => xs,
                None => {
                    return Err(FetchError::MissingField { site: ProviderKind::Weasyl });
                },
            },
            None => {
                return Err(FetchError::MissingField { site: ProviderKind::Weasyl });
            },
        };
        let n = if subs.len() <= thumbs.len() {
            subs.len()
        } else {
            thumbs.len()
        };
        let mut posts: Vec<PostInfo> = Vec::new();
        let mut k: usize = 0;
        while k < n
            invariant
                k <= n,
                json_of(resp@) matches Some(doc2) && media_arr(doc2, "submission"@) == Some(subs@)
                    && media_arr(doc2, "thumbnail"@) == Some(thumbs@),
                subs@.len() > 0,
                n <= subs@.len() && n <= thumbs@.len(),
                n == if subs@.len() <= thumbs@.len() {
                    subs@.len()
                } else {
                    thumbs@.len()
                },
                posts@.len() == k,
                forall|a: int|
                    0 <= a < k ==> {
                        &&& url_of(subs@[a]) is Some
                        &&& url_of(thumbs@[a]) is Some
                        &&& (#[trigger] posts@[a]).url@ == url_of(subs@[a])->Some_0
                        &&& posts@[a].file_type@ == file_ext(url_of(subs@[a])->Some_0)
                        &&& posts@[a].thumb matches Some(t) && t@ == url_of(thumbs@[a])->Some_0
                        &&& posts@[a].source_link matches Some(l) && l@ == url@
                        &&& posts@[a].site_name@ == "Weasyl"@
                        &&& posts@[a].personal == false
                        &&& posts@[a].extra_caption is None
                        &&& posts@[a].title is None
                    },
            decreases n - k,
        {
            let sub_url = match subs[k].get("url") {
                Some(v) => match v.as_str() {
                    Some(s) => s.clone(),
                    None => {
                        proof {
                            assert(url_of(subs@[k as int]) is None);
                        }
                        return Err(FetchError::MissingField { site: ProviderKind::Weasyl });
                    },
                },
                None => {
                    proof {
                        assert(url_of(subs@[k as int]) is None);
                    }
                    return Err(FetchError::MissingField { site: ProviderKind::Weasyl });
                },
            };
            let thumb_url = match thumbs[k].get("url") {
                Some(v) => match v.as_str() {
                    Some(s) => s.clone(),
                    None => {
                        proof {
                            assert(url_of(thumbs@[k as int]) is None);
                        }
                        return Err(FetchError::MissingField { site: ProviderKind::Weasyl });
                    },
                },
                None => {
                    proof {
                        assert(url_of(thumbs@[k as int]) is None);
                    }
                    return Err(FetchError::MissingField { site: ProviderKind::Weasyl });
                },
            };
            let ext = match get_file_ext(sub_url.as_str()) {
                Some(ext) => ext,
                None => {
                    proof {
                        assert(false);
                    }
                    vstd::pervasive::unreached()
                },
            };
            posts.push(
                PostInfo {
                    file_type: ext,
                    url: sub_url,
                    personal: false,
                    thumb: Some(thumb_url),
                    source_link: Some(url.to_owned()),
                    extra_caption: None,
                    title: None,
                    site_name: self.name(),
                },
            );
            k = k + 1;
        }
        Ok(Some(posts))
    }
}

} // verus!
