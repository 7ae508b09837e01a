//! The board resolver: recognizes post-view URLs (capturing the numeric post
//! id) and CDN asset URLs (capturing the content hash), and maps the board's
//! REST response onto one normalized record.

use crate::json::{get_field, json_of, parse_json, JsonValue};
use crate::sites::{scheme_end, scheme_end_at, FetchError, PostInfo, ProviderKind};
use crate::strutil::{
    chars_of, check_at, contains_at, dec_int, find_run_end, in_class, push_dec_i64, run_end,
    string_of_range, CharClass,
};
use vstd::prelude::*;

verus! {

/// The id span of a post-view URL match at position `i`: `(-1, -1)` when the
/// pattern does not match there. The id is the maximal digit run after the
/// post path.
pub open spec fn show_span_at(s: Seq<char>, i: int) -> (int, int) {
    let j = scheme_end(s, i);
    if j < 0 {
        (-1, -1)
    } else {
        let h = if contains_at(s, "e621.net/"@, j) || contains_at(s, "e926.net/"@, j) {
            j + 9
        } else {
            -1
        };
        if h < 0 {
            (-1, -1)
        } else {
            let d = if contains_at(s, "post/show/"@, h) {
                h + 10
            } else if contains_at(s, "posts/"@, h) {
                h + 6
            } else {
                -1
            };
            if d < 0 {
                (-1, -1)
            } else {
                let e = run_end(s, d, CharClass::Digit);
                if e > d {
                    (d, e)
                } else {
                    (-1, -1)
                }
            }
        }
    }
}

/// The hash span of a CDN asset URL match at position `i`: `(-1, -1)` when
/// the pattern does not match there. The hash is exactly 32 lowercase hex
/// characters, preceded by two hex-pair path segments and followed by a dot
/// and a nonempty extension.
pub open spec fn data_span_at(s: Seq<char>, i: int) -> (int, int) {
    let j = scheme_end(s, i);
    if j < 0 || !contains_at(s, "static"@, j) {
        (-1, -1)
    } else {
        let k = run_end(s, j + 6, CharClass::Digit);
        if k == j + 6 {
            (-1, -1)
        } else {
            let h = if contains_at(s, ".e621.net/data/"@, k) || contains_at(
                s,
                ".e926.net/data/"@,
                k,
            ) {
                k + 15
            } else {
                -1
            };
            if h < 0 {
                (-1, -1)
            } else {
                let m = if contains_at(s, "sample/"@, h) {
                    h + 7
                } else if contains_at(s, "preview/"@, h) {
                    h + 8
                } else {
                    h
                };
                if hex_pair_slash(s, m) && hex_pair_slash(s, m + 3) && run_end(
                    s,
                    m + 6,
                    CharClass::Hex,
                ) == m + 38 && m + 39 < s.len() && s[m + 38] == '.' && s[m + 39] != '\n' {
                    (m + 6, m + 38)
                } else {
                    (-1, -1)
                }
            }
        }
    }
}

/// Two lowercase hex characters followed by a path separator.
pub open spec fn hex_pair_slash(s: Seq<char>, m: int) -> bool {
    m + 3 <= s.len() && in_class(s[m], CharClass::Hex) && in_class(s[m + 1], CharClass::Hex) && s[
        m + 2
    ] == '/'
}

/// The first position at or after `i` where the post-view pattern matches;
/// `-1` when there is none.
pub open spec fn first_show(s: Seq<char>, i: int) -> int
    decreases s.len() - i,
{
    if i < 0 || i >= s.len() {
        -1
    } else if show_span_at(s, i).0 >= 0 {
        i
    } else {
        first_show(s, i + 1)
    }
}

/// The first position at or after `i` where the asset pattern matches; `-1`
/// when there is none.
pub open spec fn first_data(s: Seq<char>, i: int) -> int
    decreases s.len() - i,
{
    if i < 0 || i >= s.len() {
        -1
    } else if data_span_at(s, i).0 >= 0 {
        i
    } else {
        first_data(s, i + 1)
    }
}

pub open spec fn show_matches(s: Seq<char>) -> bool {
    first_show(s, 0) >= 0
}

pub open spec fn data_matches(s: Seq<char>) -> bool {
    first_data(s, 0) >= 0
}

/// Either URL shape is recognized.
pub open spec fn supported(s: Seq<char>) -> bool {
    show_matches(s) || data_matches(s)
}

/// The id captured by the earliest post-view match.
pub open spec fn show_id(s: Seq<char>) -> Seq<char> {
    let i = first_show(s, 0);
    s.subrange(show_span_at(s, i).0, show_span_at(s, i).1)
}

/// The content hash captured by the earliest asset match.
pub open spec fn data_md5(s: Seq<char>) -> Seq<char> {
    let i = first_data(s, 0);
    s.subrange(data_span_at(s, i).0, data_span_at(s, i).1)
}

/// The REST lookup the resolver performs for a recognized URL: by id for a
/// post-view URL, by content hash otherwise.
pub open spec fn endpoint_spec(s: Seq<char>) -> Seq<char> {
    if show_matches(s) {
        "https://e621.net/posts/"@ + show_id(s) + ".json"@
    } else {
        "https://e621.net/posts.json?md5="@ + data_md5(s)
    }
}

/// Checks the post-view pattern at one position.
fn show_check_at(v: &Vec<char>, i: usize) -> (r: Option<(usize, usize)>)
    requires
        i <= v@.len(),
    ensures
        match r {
            Some(p) => show_span_at(v@, i as int) == (p.0 as int, p.1 as int) && p.0 <= p.1
                <= v@.len(),
            None => show_span_at(v@, i as int).0 < 0,
        },
{
    let j = match scheme_end_at(v, i) {
        Some(j) => j,
        None => {
            return None;
        },
    };
    let host1 = chars_of("e621.net/");
    let host2 = chars_of("e926.net/");
    proof {
        reveal_strlit("e621.net/");
        reveal_strlit("e926.net/");
    }
    if !(check_at(v, &host1, j) || check_at(v, &host2, j)) {
        return None;
    }
    let h = j + 9;
    let p1 = chars_of("post/show/");
    let p2 = chars_of("posts/");
    proof {
        reveal_strlit("post/show/");
        reveal_strlit("posts/");
    }
    let d: usize = if check_at(v, &p1, h) {
        h + 10
    } else if check_at(v, &p2, h) {
        h + 6
    } else {
        return None;
    };
    let e = find_run_end(v, d, CharClass::Digit);
    if e > d {
        Some((d, e))
    } else {
        None
    }
}

/// Checks the asset pattern at one position.
fn data_check_at(v: &Vec<char>, i: usize) -> (r: Option<(usize, usize)>)
    requires
        i <= v@.len(),
    ensures
        match r {
            Some(p) => data_span_at(v@, i as int) == (p.0 as int, p.1 as int) && p.0 <= p.1
                <= v@.len(),
            None => data_span_at(v@, i as int).0 < 0,
        },
{
    let j = match scheme_end_at(v, i) {
        Some(j) => j,
        None => {
            return None;
        },
    };
    let st = chars_of("static");
    proof {
        reveal_strlit("static");
    }
    if !check_at(v, &st, j) {
        return None;
    }
    let k = find_run_end(v, j + 6, CharClass::Digit);
    if k == j + 6 {
        return None;
    }
    let d1 = chars_of(".e621.net/data/");
    let d2 = chars_of(".e926.net/data/");
    proof {
        reveal_strlit(".e621.net/data/");
        reveal_strlit(".e926.net/data/");
    }
    if !(check_at(v, &d1, k) || check_at(v, &d2, k)) {
        return None;
    }
    let h = k + 15;
    let sm = chars_of("sample/");
    let pv = chars_of("preview/");
    proof {
        reveal_strlit("sample/");
        reveal_strlit("preview/");
    }
    let m: usize = if check_at(v, &sm, h) {
        h + 7
    } else if check_at(v, &pv, h) {
        h + 8
    } else {
        h
    };
    if v.len() < 40 || m > v.len() - 40 {
        return None;
    }
    if !(hex_pair_slash_at(v, m) && hex_pair_slash_at(v, m + 3)) {
        return None;
    }
    let he = find_run_end(v, m + 6, CharClass::Hex);
    if he != m + 38 {
        return None;
    }
    if m + 39 >= v.len() {
        return None;
    }
    if v[m + 38] == '.' && v[m + 39] != '\n' {
        Some((m + 6, m + 38))
    } else {
        None
    }
}

/// Checks for two hex characters and a separator at `m`.
fn hex_pair_slash_at(v: &Vec<char>, m: usize) -> (r: bool)
    ensures
        r == hex_pair_slash(v@, m as int),
{
    if m >= v.len() || v.len() - m < 3 {
        return false;
    }
    let a = v[m];
    let b = v[m + 1];
    (('0' <= a && a <= '9') || ('a' <= a && a <= 'f')) && (('0' <= b && b <= '9') || ('a' <= b
        && b <= 'f')) && v[m + 2] == '/'
}

/// Scans for the earliest post-view match.
fn show_scan(v: &Vec<char>) -> (r: Option<(usize, usize)>)
    ensures
        match r {
            Some(p) => {
                let i = first_show(v@, 0);
                i >= 0 && show_span_at(v@, i) == (p.0 as int, p.1 as int) && p.0 <= p.1 <= v@.len()
            },
            None => first_show(v@, 0) == -1,
        },
{
    let mut i: usize = 0;
    while i < v.len()
        invariant
            i <= v@.len(),
            first_show(v@, 0) == first_show(v@, i as int),
        decreases v@.len() - i,
    {
        match show_check_at(v, i) {
            Some(p) => {
                return Some(p);
            },
            None => {},
        }
        i = i + 1;
    }
    None
}

/// Scans for the earliest asset match.
fn data_scan(v: &Vec<char>) -> (r: Option<(usize, usize)>)
    ensures
        match r {
            Some(p) => {
                let i = first_data(v@, 0);
                i >= 0 && data_span_at(v@, i) == (p.0 as int, p.1 as int) && p.0 <= p.1 <= v@.len()
            },
            None => first_data(v@, 0) == -1,
        },
{
    let mut i: usize = 0;
    while i < v.len()
        invariant
            i <= v@.len(),
            first_data(v@, 0) == first_data(v@, i as int),
        decreases v@.len() - i,
    {
        match data_check_at(v, i) {
            Some(p) => {
                return Some(p);
            },
            None => {},
        }
        i = i + 1;
    }
    None
}

/// The fields the resolver reads out of the board's response document:
/// `post.file.ext`, `post.file.url`, `post.preview.url` and `post.id`.
pub open spec fn resp_fields(doc: JsonValue) -> Option<(Seq<char>, Seq<char>, Seq<char>, i64)> {
    match get_field(doc, "post"@) {
        Some(post) => match (get_field(post, "file"@), get_field(post, "preview"@), get_field(
            post,
            "id"@,
        )) {
            (Some(file), Some(preview), Some(JsonValue::Int(id))) => match (get_field(
                file,
                "ext"@,
            ), get_field(file, "url"@), get_field(preview, "url"@)) {
                (
                    Some(JsonValue::Str(ext)),
                    Some(JsonValue::Str(url)),
                    Some(JsonValue::Str(prev)),
                ) => Some((ext@, url@, prev@, id)),
                _ => None,
            },
            _ => None,
        },
        None => None,
    }
}

pub struct E621;

impl E621 {
    pub fn new() -> (r: Self) {
        E621
    }

    /// The provider's human readable name.
    pub fn name(&self) -> (r: String)
        ensures
            r@ == "e621"@,
    {
        "e621".to_owned()
    }

    /// Whether either recognized URL shape occurs in the text.
    pub fn url_supported(&self, url: &str) -> (r: bool)
        ensures
            r == supported(url@),
    {
        let v = chars_of(url);
        let show = show_scan(&v);
        if show.is_some() {
            return true;
        }
        let data = data_scan(&v);
        data.is_some()
    }

    /// The REST lookup to perform for a recognized URL; `None` when neither
    /// shape occurs.
    pub fn api_endpoint(&self, url: &str) -> (r: Option<String>)
        ensures
            match r {
                Some(e) => supported(url@) && e@ == endpoint_spec(url@),
                None => !supported(url@),
            },
    {
        let v = chars_of(url);
        match show_scan(&v) {
            Some((d, e)) => {
                let mut out = String::new();
                out.push_str("https://e621.net/posts/");
                let id = string_of_range(&v, d, e);
                out.push_str(id.as_str());
                out.push_str(".json");
                proof {
                    assert(out@ =~= endpoint_spec(url@));
                }
                Some(out)
            },
            None => {
                match data_scan(&v) {
                    Some((d, e)) => {
                        let mut out = String::new();
                        out.push_str("https://e621.net/posts.json?md5=");
                        let md5 = string_of_range(&v, d, e);
                        out.push_str(md5.as_str());
                        proof {
                            assert(out@ =~= endpoint_spec(url@));
                        }
                        Some(out)
                    },
                    None => None,
                }
            },
        }
    }

    /// Maps the board's response document onto one normalized record. A
    /// response that is not a JSON document with the expected fields is a
    /// parse error, as the original surfaces for a changed schema.
    pub fn parse_response(&self, resp: &str) -> (r: Result<Vec<PostInfo>, FetchError>)
        ensures
            match r {
                Ok(posts) => {
                    let doc = json_of(resp@);
                    &&& doc is Some
                    &&& resp_fields(doc->Some_0) is Some
                    &&& {
                        let f = resp_fields(doc->Some_0)->Some_0;
                        &&& posts@.len() == 1
                        &&& posts@[0].file_type@ == f.0
                        &&& posts@[0].url@ == f.1
                        &&& posts@[0].thumb matches Some(t) && t@ == f.2
                        &&& -0x8000_0000 <= f.3 <= 0x7fff_ffff
                        &&& posts@[0].source_link matches Some(l) && l@ == "https://e621.net/posts/"@
                            + dec_int(f.3 as int)
                        &&& posts@[0].personal == false
                        &&& posts@[0].extra_caption is None
                        &&& posts@[0].title is None
                        &&& posts@[0].site_name@ == "e621"@
                    }
                },
                Err(e) => e == (FetchError::Parse { site: ProviderKind::E621 }) && (json_of(resp@)
                    is None || resp_fields(json_of(resp@)->Some_0) is None || !(-0x8000_0000
                    <= resp_fields(json_of(resp@)->Some_0)->Some_0.3 <= 0x7fff_ffff)),
            },
    {
        let doc = match parse_json(resp) {
            Some(doc) => doc,
            None => {
                return Err(FetchError::Parse { site: ProviderKind::E621 });
            },
        };
        let post = match doc.get("post") {
            Some(p) => p,
            None => {
                return Err(FetchError::Parse { site: ProviderKind::E621 });
            },
        };
        let file = match post.get("file") {
            Some(f) => f,
            None => {
                return Err(FetchError::Parse { site: ProviderKind::E621 });
            },
        };
        let preview = match post.get("preview") {
            Some(p) => p,
            None => {
                return Err(FetchError::Parse { site: ProviderKind::E621 });
            },
        };
        let id = match post.get("id") {
            Some(v) => match v.as_i64() {
                Some(id) => id,
                None => {
                    return Err(FetchError::Parse { site: ProviderKind::E621 });
                },
            },
            None => {
                return Err(FetchError::Parse { site: ProviderKind::E621 });
            },
        };
        // The API's post id is a 32-bit integer; anything wider is a schema
        // violation, not a renderable id.
        if id > 0x7fff_ffffi64 || id < -0x8000_0000i64 {
            return Err(FetchError::Parse { site: ProviderKind::E621 });
        }
        let ext = match file.get("ext") {
            Some(v) => match v.as_str() {
                Some(s) => s.clone(),
                None => {
                    return Err(FetchError::Parse { site: ProviderKind::E621 });
                },
            },
            None => {
                return Err(FetchError::Parse { site: ProviderKind::E621 });
            },
        };
        let url = match file.get("url") {
            Some(v) => match v.as_str() {
                Some(s) => s.clone(),
                None => {
                    return Err(FetchError::Parse { site: ProviderKind::E621 });
                },
            },
            None => {
                return Err(FetchError::Parse { site: ProviderKind::E621 });
            },
        };
        let prev = match preview.get("url") {
            Some(v) => match v.as_str() {
                Some(s) => s.clone(),
                None => {
                    return Err(FetchError::Parse { site: ProviderKind::E621 });
                },
            },
            None => {
                return Err(FetchError::Parse { site: ProviderKind::E621 });
            },
        };
        let mut source = String::new();
        source.push_str("https://e621.net/posts/");
        push_dec_i64(id, &mut source);
        let mut posts: Vec<PostInfo> = Vec::new();
        posts.push(
            PostInfo {
                file_type: ext,
                url,
                personal: false,
                thumb: Some(prev),
                source_link: Some(source),
                extra_caption: None,
                title: None,
                site_name: self.name(),
            },
        );
        Ok(posts)
    }
}

} // verus!
