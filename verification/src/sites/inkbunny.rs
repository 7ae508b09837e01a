//! The submission-API resolver: a session state machine around the
//! submission API. A login yields a session id after validating the
//! account's content-rating mask; a submissions request that reports an
//! expired session drops the id and is retried exactly once; any other
//! error code is fatal. The HTTP posts themselves are the caller's.

use crate::json::{get_field, json_of, parse_json, JsonValue};
use crate::sites::{file_ext, get_file_ext, scheme_end, scheme_end_at, FetchError, PostInfo,
    ProviderKind};
use crate::strutil::{chars_of, check_at, contains_at, digits_val, find_run_end, parse_u64,
    run_end, CharClass};
use vstd::pervasive::unreached;
use vstd::prelude::*;

verus! {

/// The id span of a submission URL match at position `i`: `(-1, -1)` when
/// the pattern does not match there. The separator between the site name and
/// its domain suffix may be any character but a line break, as the original
/// pattern has it.
pub open spec fn span_at(s: Seq<char>, i: int) -> (int, int) {
    let j = scheme_end(s, i);
    if j >= 0 && contains_at(s, "inkbunny"@, j) && j + 8 < s.len() && s[j + 8] != '\n'
        && contains_at(s, "net/s/"@, j + 9) {
        let d = j + 15;
        let e = run_end(s, d, CharClass::Digit);
        if e > d {
            (d, e)
        } else {
            (-1, -1)
        }
    } else {
        (-1, -1)
    }
}

/// The first position at or after `i` where the pattern matches; `-1` when
/// there is none.
pub open spec fn first_match(s: Seq<char>, i: int) -> int
    decreases s.len() - i,
{
    if i < 0 || i >= s.len() {
        -1
    } else if span_at(s, i).0 >= 0 {
        i
    } else {
        first_match(s, i + 1)
    }
}

pub open spec fn supported(s: Seq<char>) -> bool {
    first_match(s, 0) >= 0
}

/// The digits of the submission id captured by the earliest match.
pub open spec fn sub_id_digits(s: Seq<char>) -> Seq<char> {
    let i = first_match(s, 0);
    s.subrange(span_at(s, i).0, span_at(s, i).1)
}

/// Checks the pattern at one position.
fn check_span_at(v: &Vec<char>, i: usize) -> (r: Option<(usize, usize)>)
    requires
        i <= v@.len(),
    ensures
        match r {
            Some(p) => span_at(v@, i as int) == (p.0 as int, p.1 as int) && p.0 <= p.1 <= v@.len(),
            None => span_at(v@, i as int).0 < 0,
        },
{
    let j = match scheme_end_at(v, i) {
        Some(j) => j,
        None => {
            return None;
        },
    };
    let site = chars_of("inkbunny");
    let dom = chars_of("net/s/");
    proof {
        reveal_strlit("inkbunny");
        reveal_strlit("net/s/");
    }
    if !check_at(v, &site, j) {
        return None;
    }
    if j + 8 >= v.len() || v[j + 8] == '\n' {
        return None;
    }
    if !check_at(v, &dom, j + 9) {
        return None;
    }
    let d = j + 15;
    let e = find_run_end(v, d, CharClass::Digit);
    if e > d {
        Some((d, e))
    } else {
        None
    }
}

/// Scans for the earliest match.
fn scan(v: &Vec<char>) -> (r: Option<(usize, usize)>)
    ensures
        match r {
            Some(p) => {
                let i = first_match(v@, 0);
                i >= 0 && span_at(v@, i) == (p.0 as int, p.1 as int) && p.0 <= p.1 <= v@.len()
            },
            None => first_match(v@, 0) == -1,
        },
{
    let mut i: usize = 0;
    while i < v.len()
        invariant
            i <= v@.len(),
            first_match(v@, 0) == first_match(v@, i as int),
        decreases v@.len() - i,
    {
        match check_span_at(v, i) {
            Some(p) => {
                return Some(p);
            },
            None => {},
        }
        i = i + 1;
    }
    None
}

/// A successful login response.
#[derive(Clone, Debug)]
pub struct InkbunnyLogin {
    pub sid: String,
    pub user_id: i32,
    pub ratingsmask: String,
}

/// One file attached to a submission.
#[derive(Clone, Debug)]
pub struct InkbunnyFile {
    pub file_id: String,
    pub file_name: String,
    pub thumbnail_url_medium_noncustom: String,
    pub file_url_screen: String,
}

/// One submission with its files.
#[derive(Clone, Debug)]
pub struct InkbunnySubmission {
    pub submission_id: String,
    pub files: Vec<InkbunnyFile>,
}

/// A successful submissions response.
#[derive(Clone, Debug)]
pub struct InkbunnySubmissions {
    pub results_count: i32,
    pub submissions: Vec<InkbunnySubmission>,
}

/// An API response: either an error code, or the expected document, as the
/// API's untagged responses have it.
#[derive(Clone, Debug)]
pub enum InkbunnyResponse<T> {
    Error { error_code: i32 },
    Success(T),
}

/// The `error_code` field of a response document.
pub open spec fn error_code_of(doc: JsonValue) -> Option<i64> {
    match get_field(doc, "error_code"@) {
        Some(JsonValue::Int(c)) => Some(c),
        _ => None,
    }
}

/// The fields of a login document: `sid`, `user_id` and `ratingsmask`.
pub open spec fn login_view(doc: JsonValue) -> Option<(Seq<char>, i64, Seq<char>)> {
    match (get_field(doc, "sid"@), get_field(doc, "user_id"@), get_field(doc, "ratingsmask"@)) {
        (Some(JsonValue::Str(sid)), Some(JsonValue::Int(uid)), Some(JsonValue::Str(mask))) => Some(
            (sid@, uid, mask@),
        ),
        _ => None,
    }
}

/// The fields of one file document.
pub open spec fn file_view(v: JsonValue) -> Option<(Seq<char>, Seq<char>, Seq<char>, Seq<char>)> {
    match (get_field(v, "file_id"@), get_field(v, "file_name"@), get_field(
        v,
        "thumbnail_url_medium_noncustom"@,
    ), get_field(v, "file_url_screen"@)) {
        (
            Some(JsonValue::Str(a)),
            Some(JsonValue::Str(b)),
            Some(JsonValue::Str(c)),
            Some(JsonValue::Str(d)),
        ) => Some((a@, b@, c@, d@)),
        _ => None,
    }
}

/// The views of a file array; `None` when any element is malformed.
pub open spec fn files_view(xs: Seq<JsonValue>) -> Option<
    Seq<(Seq<char>, Seq<char>, Seq<char>, Seq<char>)>,
>
    decreases xs.len(),
{
    if xs.len() == 0 {
        Some(Seq::empty())
    } else {
        match (files_view(xs.drop_last()), file_view(xs.last())) {
            (Some(fs), Some(f)) => Some(fs.push(f)),
            _ => None,
        }
    }
}

/// The fields of one submission document: its id and its files.
pub open spec fn submission_view(v: JsonValue) -> Option<
    (Seq<char>, Seq<(Seq<char>, Seq<char>, Seq<char>, Seq<char>)>),
> {
    match (get_field(v, "submission_id"@), get_field(v, "files"@)) {
        (Some(JsonValue::Str(sid)), Some(JsonValue::Arr(files))) => match files_view(files@) {
            Some(fs) => Some((sid@, fs)),
            None => None,
        },
        _ => None,
    }
}

/// The views of a submission array; `None` when any element is malformed.
pub open spec fn subs_view(xs: Seq<JsonValue>) -> Option<
    Seq<(Seq<char>, Seq<(Seq<char>, Seq<char>, Seq<char>, Seq<char>)>)>,
>
    decreases xs.len(),
{
    if xs.len() == 0 {
        Some(Seq::empty())
    } else {
        match (subs_view(xs.drop_last()), submission_view(xs.last())) {
            (Some(ss), Some(s)) => Some(ss.push(s)),
            _ => None,
        }
    }
}

/// The fields of a submissions document: `results_count` and `submissions`.
pub open spec fn submissions_view(doc: JsonValue) -> Option<
    (i64, Seq<(Seq<char>, Seq<(Seq<char>, Seq<char>, Seq<char>, Seq<char>)>)>),
> {
    match (get_field(doc, "results_count"@), get_field(doc, "submissions"@)) {
        (Some(JsonValue::Int(n)), Some(JsonValue::Arr(xs))) => match subs_view(xs@) {
            Some(ss) => Some((n, ss)),
            None => None,
        },
        _ => None,
    }
}

proof fn lemma_files_view_bad(xs: Seq<JsonValue>, k: int)
    requires
        0 <= k < xs.len(),
        file_view(xs[k]) is None,
    ensures
        files_view(xs) is None,
    decreases xs.len(),
{
    if k < xs.len() - 1 {
        lemma_files_view_bad(xs.drop_last(), k);
    }
}

proof fn lemma_subs_view_bad(xs: Seq<JsonValue>, k: int)
    requires
        0 <= k < xs.len(),
        submission_view(xs[k]) is None,
    ensures
        subs_view(xs) is None,
    decreases xs.len(),
{
    if k < xs.len() - 1 {
        lemma_subs_view_bad(xs.drop_last(), k);
    }
}

/// The view of a parsed file record.
pub open spec fn file_struct_view(f: InkbunnyFile) -> (Seq<char>, Seq<char>, Seq<char>, Seq<
    char,
>) {
    (f.file_id@, f.file_name@, f.thumbnail_url_medium_noncustom@, f.file_url_screen@)
}

pub open spec fn sub_struct_view(s: InkbunnySubmission) -> (
    Seq<char>,
    Seq<(Seq<char>, Seq<char>, Seq<char>, Seq<char>)>,
) {
    (s.submission_id@, s.files@.map_values(|f: InkbunnyFile| file_struct_view(f)))
}

/// Extracts the files of one submission document.
fn parse_files(xs: &Vec<JsonValue>) -> (r: Option<Vec<InkbunnyFile>>)
    ensures
        match r {
            Some(fs) => files_view(xs@) == Some(
                fs@.map_values(|f: InkbunnyFile| file_struct_view(f)),
            ),
            None => files_view(xs@) is None,
        },
{
    let mut fs: Vec<InkbunnyFile> = Vec::new();
    let mut k: usize = 0;
    while k < xs.len()
        invariant
            k <= xs@.len(),
            files_view(xs@.take(k as int)) == Some(
                fs@.map_values(|f: InkbunnyFile| file_struct_view(f)),
            ),
        decreases xs@.len() - k,
    {
        proof {
            assert(xs@.take(k + 1).drop_last() =~= xs@.take(k as int));
            assert(xs@.take(k + 1).last() == xs@[k as int]);
        }
        let file_id = match xs[k].get("file_id") {
            Some(v) => match v.as_str() {
                Some(s) => s.clone(),
                None => {
                    proof {
                        lemma_files_view_bad(xs@, k as int);
                    }
                    return None;
                },
            },
            None => {
                proof {
                    lemma_files_view_bad(xs@, k as int);
                }
                return None;
            },
        };
        let file_name = match xs[k].get("file_name") {
            Some(v) => match v.as_str() {
                Some(s) => s.clone(),
                None => {
                    proof {
                        lemma_files_view_bad(xs@, k as int);
                    }
                    return None;
                },
            },
            None => {
                proof {
                    lemma_files_view_bad(xs@, k as int);
                }
                return None;
            },
        };
        let thumb = match xs[k].get("thumbnail_url_medium_noncustom") {
            Some(v) => match v.as_str() {
                Some(s) => s.clone(),
                None => {
                    proof {
                        lemma_files_view_bad(xs@, k as int);
                    }
                    return None;
                },
            },
            None => {
                proof {
                    lemma_files_view_bad(xs@, k as int);
                }
                return None;
            },
        };
        let screen = match xs[k].get("file_url_screen") {
            Some(v) => match v.as_str() {
                Some(s) => s.clone(),
                None => {
                    proof {
                        lemma_files_view_bad(xs@, k as int);
                    }
                    return None;
                },
            },
            None => {
                proof {
                    lemma_files_view_bad(xs@, k as int);
                }
                return None;
            },
        };
        fs.push(
            InkbunnyFile {
                file_id,
                file_name,
                thumbnail_url_medium_noncustom: thumb,
                file_url_screen: screen,
            },
        );
        proof {
            assert(fs@.map_values(|f: InkbunnyFile| file_struct_view(f)) =~= files_view(
                xs@.take(k + 1),
            )->Some_0);
        }
        k = k + 1;
    }
    proof {
        assert(xs@.take(xs@.len() as int) =~= xs@);
    }
    Some(fs)
}

/// Extracts a submissions document.
fn parse_submissions_doc(doc: &JsonValue) -> (r: Option<InkbunnySubmissions>)
    ensures
        match r {
            Some(subs) => submissions_view(*doc) matches Some(sv) && sv.0 == subs.results_count
                as i64 && sv.1 == subs.submissions@.map_values(
                |s: InkbunnySubmission| sub_struct_view(s),
            ),
            None => submissions_view(*doc) is None || !fits_i32(
                submissions_view(*doc)->Some_0.0,
            ),
        },
{
    let count = match doc.get("results_count") {
        Some(v) => match v.as_i64() {
            Some(n) => n,
            None => {
                return None;
            },
        },
        None => {
            return None;
        },
    };
    if count > 0x7fff_ffffi64 || count < -0x8000_0000i64 {
        return None;
    }
    let xs = match doc.get("submissions") {
        Some(v) => match v.as_array() {
            Some(xs) => xs,
            None => {
                return None;
            },
        },
        None => {
            return None;
        },
    };
    let mut subs: Vec<InkbunnySubmission> = Vec::new();
    let mut k: usize = 0;
    while k < xs.len()
        invariant
            k <= xs@.len(),
            get_field(*doc, "submissions"@) == Some(JsonValue::Arr(*xs)),
            get_field(*doc, "results_count"@) == Some(JsonValue::Int(count)),
            subs_view(xs@.take(k as int)) == Some(
                subs@.map_values(|s: InkbunnySubmission| sub_struct_view(s)),
            ),
        decreases xs@.len() - k,
    {
        proof {
            assert(xs@.take(k + 1).drop_last() =~= xs@.take(k as int));
            assert(xs@.take(k + 1).last() == xs@[k as int]);
        }
        let sid = match xs[k].get("submission_id") {
            Some(v) => match v.as_str() {
                Some(s) => s.clone(),
                None => {
                    proof {
                        lemma_subs_view_bad(xs@, k as int);
                    }
                    return None;
                },
            },
            None => {
                proof {
                    lemma_subs_view_bad(xs@, k as int);
                }
                return None;
            },
        };
        let files = match xs[k].get("files") {
            Some(v) => match v.as_array() {
                Some(fs) => fs,
                None => {
                    proof {
                        lemma_subs_view_bad(xs@, k as int);
                    }
                    return None;
                },
            },
            None => {
                proof {
                    lemma_subs_view_bad(xs@, k as int);
                }
                return None;
            },
        };
        let parsed = match parse_files(files) {
            Some(fs) => fs,
            None => {
                proof {
                    lemma_subs_view_bad(xs@, k as int);
                }
                return None;
            },
        };
        subs.push(InkbunnySubmission { submission_id: sid, files: parsed });
        proof {
            assert(subs@.map_values(|s: InkbunnySubmission| sub_struct_view(s)) =~= subs_view(
                xs@.take(k + 1),
            )->Some_0);
        }
        k = k + 1;
    }
    proof {
        assert(xs@.take(xs@.len() as int) =~= xs@);
    }
    Some(InkbunnySubmissions { results_count: count as i32, submissions: subs })
}

/// The value fits the API's 32-bit integer fields.
pub open spec fn fits_i32(n: i64) -> bool {
    -0x8000_0000 <= n <= 0x7fff_ffff
}

/// What one submissions-API step decides.
#[derive(Clone, Debug)]
pub enum SubmissionsStep {
    /// The request succeeded: the documents are in hand.
    Done(InkbunnySubmissions),
    /// The session had expired: the caller logs in again and repeats the
    /// request once.
    RetryAfterLogin,
    /// The request failed for good.
    Failed(FetchError),
}

/// The step a submissions response demands: a session-expired code asks for
/// the one retry when none has happened yet, a second expiry or any other
/// nonzero code is final.
pub open spec fn submissions_step_spec(
    r: InkbunnyResponse<InkbunnySubmissions>,
    already_retried: bool,
) -> SubmissionsStep {
    match r {
        InkbunnyResponse::Success(subs) => SubmissionsStep::Done(subs),
        InkbunnyResponse::Error { error_code } => if error_code == 2 && !already_retried {
            SubmissionsStep::RetryAfterLogin
        } else if error_code == 2 {
            SubmissionsStep::Failed(FetchError::SessionExpired)
        } else {
            SubmissionsStep::Failed(FetchError::UnhandledCode { code: error_code as i64 })
        },
    }
}

/// What the caller must do next to serve a submissions request.
#[derive(Clone, Debug)]
pub enum ApiAction {
    /// No session is held: post the login form first.
    Login,
    /// A session is held: post the submissions form with this id.
    FetchSubmissions { sid: String },
}

pub struct Inkbunny {
    pub username: String,
    pub password: String,
    /// The cached session id; absent before the first login and after an
    /// expiry signal.
    pub sid: Option<String>,
}

impl Inkbunny {
    pub fn new(username: String, password: String) -> (r: Self)
        ensures
            r.username == username,
            r.password == password,
            r.sid is None,
    {
        Inkbunny { username, password, sid: None }
    }

    /// The provider's human readable name.
    pub fn name(&self) -> (r: String)
        ensures
            r@ == "Inkbunny"@,
    {
        "Inkbunny".to_owned()
    }

    /// Whether the submission URL shape occurs in the text.
    pub fn url_supported(&self, url: &str) -> (r: bool)
        ensures
            r == supported(url@),
    {
        let v = chars_of(url);
        scan(&v).is_some()
    }

    /// The numeric submission id captured from a recognized URL; `None`
    /// when the shape does not occur or the digits do not fit the API's id
    /// type.
    pub fn submission_id(&self, url: &str) -> (r: Option<i32>)
        ensures
            match r {
                Some(id) => supported(url@) && id == digits_val(sub_id_digits(url@)),
                None => !supported(url@) || digits_val(sub_id_digits(url@)) > 0x7fff_ffff,
            },
    {
        let v = chars_of(url);
        match scan(&v) {
            Some((d, e)) => {
                proof {
                    crate::strutil::lemma_run_end(v@, d as int, CharClass::Digit);
                }
                match parse_u64(&v, d, e) {
                    Some(n) => {
                        if n <= 0x7fff_ffff {
                            Some(n as i32)
                        } else {
                            None
                        }
                    },
                    None => None,
                }
            },
            None => None,
        }
    }

    /// What to post next for a submissions request.
    pub fn next_action(&self) -> (r: ApiAction)
        ensures
            match r {
                ApiAction::Login => self.sid is None,
                ApiAction::FetchSubmissions { sid } => self.sid matches Some(s) && sid@ == s@,
            },
    {
        match &self.sid {
            None => ApiAction::Login,
            Some(s) => ApiAction::FetchSubmissions { sid: s.clone() },
        }
    }

    /// Parses a login response: a document with an `error_code` is the
    /// API's error answer, anything else must carry the login fields.
    pub fn parse_login_response(&self, resp: &str) -> (r: Result<
        InkbunnyResponse<InkbunnyLogin>,
        FetchError,
    >)
        ensures
            match r {
                Ok(InkbunnyResponse::Error { error_code }) => json_of(resp@) matches Some(doc)
                    && error_code_of(doc) matches Some(c) && fits_i32(c) && error_code as i64 == c,
                Ok(InkbunnyResponse::Success(login)) => ({
                    &&& json_of(resp@) matches Some(doc)
                    &&& error_code_of(doc) is None
                    &&& login_view(doc) matches Some(f)
                    &&& login.sid@ == f.0
                    &&& login.user_id as i64 == f.1
                    &&& fits_i32(f.1)
                    &&& login.ratingsmask@ == f.2
                }),
                Err(e) => e == (FetchError::Parse { site: ProviderKind::Inkbunny }) && (json_of(
                    resp@,
                ) is None || (error_code_of(json_of(resp@)->Some_0) matches Some(c) && !fits_i32(
                    c,
                )) || (error_code_of(json_of(resp@)->Some_0) is None && (login_view(
                    json_of(resp@)->Some_0,
                ) is None || !fits_i32(login_view(json_of(resp@)->Some_0)->Some_0.1)))),
            },
    {
        let doc = match parse_json(resp) {
            Some(doc) => doc,
            None => {
                return Err(FetchError::Parse { site: ProviderKind::Inkbunny });
            },
        };
        match doc.get("error_code") {
            Some(v) => match v.as_i64() {
                Some(c) => {
                    if -0x8000_0000i64 <= c && c <= 0x7fff_ffffi64 {
                        return Ok(InkbunnyResponse::Error { error_code: c as i32 });
                    } else {
                        return Err(FetchError::Parse { site: ProviderKind::Inkbunny });
                    }
                },
                None => {},
            },
            None => {},
        }
        let sid = match doc.get("sid") {
            Some(v) => match v.as_str() {
                Some(s) => s.clone(),
                None => {
                    return Err(FetchError::Parse { site: ProviderKind::Inkbunny });
                },
            },
            None => {
                return Err(FetchError::Parse { site: ProviderKind::Inkbunny });
            },
        };
        let uid = match doc.get("user_id") {
            Some(v) => match v.as_i64() {
                Some(n) => n,
                None => {
                    return Err(FetchError::Parse { site: ProviderKind::Inkbunny });
                },
            },
            None => {
                return Err(FetchError::Parse { site: ProviderKind::Inkbunny });
            },
        };
        if uid > 0x7fff_ffffi64 || uid < -0x8000_0000i64 {
            return Err(FetchError::Parse { site: ProviderKind::Inkbunny });
        }
        let mask = match doc.get("ratingsmask") {
            Some(v) => match v.as_str() {
                Some(s) => s.clone(),
                None => {
                    return Err(FetchError::Parse { site: ProviderKind::Inkbunny });
                },
            },
            None => {
                return Err(FetchError::Parse { site: ProviderKind::Inkbunny });
            },
        };
        Ok(
            InkbunnyResponse::Success(
                InkbunnyLogin { sid, user_id: uid as i32, ratingsmask: mask },
            ),
        )
    }

    /// Applies a parsed login response to the session state: a fully open
    /// rating mask stores the session id; a restricted mask, rejected
    /// credentials (code zero) and any other code are fatal configuration
    /// errors.
    pub fn apply_login(&mut self, r: &InkbunnyResponse<InkbunnyLogin>) -> (out: Result<
        String,
        FetchError,
    >)
        ensures
            final(self).username == old(self).username,
            final(self).password == old(self).password,
            match out {
                Ok(sid) => ({
                    &&& r matches InkbunnyResponse::Success(login)
                    &&& login.ratingsmask@ == "11111"@
                    &&& sid@ == login.sid@
                    &&& final(self).sid matches Some(s) && s@ == login.sid@
                }),
                Err(e) => final(self).sid == old(self).sid && match r {
                    InkbunnyResponse::Success(login) => login.ratingsmask@ != "11111"@ && e
                        == FetchError::RestrictedAccount,
                    InkbunnyResponse::Error { error_code } => if error_code == 0 {
                        e == FetchError::InvalidCredentials
                    } else {
                        e == (FetchError::UnhandledCode { code: *error_code as i64 })
                    },
                },
            },
    {
        match r {
            InkbunnyResponse::Error { error_code } => {
                if *error_code == 0 {
                    Err(FetchError::InvalidCredentials)
                } else {
                    Err(FetchError::UnhandledCode { code: *error_code as i64 })
                }
            },
            InkbunnyResponse::Success(login) => {
                let open_mask = chars_of("11111");
                let mask = chars_of(login.ratingsmask.as_str());
                proof {
                    reveal_strlit("11111");
                }
                if !crate::json::eq_chars(&mask, &open_mask) {
                    return Err(FetchError::RestrictedAccount);
                }
                self.sid = Some(login.sid.clone());
                Ok(login.sid.clone())
            },
        }
    }

    /// Parses a submissions response into the API's untagged shape.
    pub fn parse_submissions_response(&self, resp: &str) -> (r: Result<
        InkbunnyResponse<InkbunnySubmissions>,
        FetchError,
    >)
        ensures
            match r {
                Ok(InkbunnyResponse::Error { error_code }) => json_of(resp@) matches Some(doc)
                    && error_code_of(doc) matches Some(c) && fits_i32(c) && error_code as i64 == c,
                Ok(InkbunnyResponse::Success(subs)) => ({
                    &&& json_of(resp@) matches Some(doc)
                    &&& error_code_of(doc) is None
                    &&& submissions_view(doc) matches Some(sv)
                    &&& sv.0 == subs.results_count as i64
                    &&& sv.1 == subs.submissions@.map_values(
                        |s: InkbunnySubmission| sub_struct_view(s),
                    )
                }),
                Err(e) => e == (FetchError::Parse { site: ProviderKind::Inkbunny }) && (json_of(
                    resp@,
                ) is None || (error_code_of(json_of(resp@)->Some_0) matches Some(c) && !fits_i32(
                    c,
                )) || (error_code_of(json_of(resp@)->Some_0) is None && (submissions_view(
                    json_of(resp@)->Some_0,
                ) is None || !fits_i32(submissions_view(json_of(resp@)->Some_0)->Some_0.0)))),
            },
    {
        let doc = match parse_json(resp) {
            Some(doc) => doc,
            None => {
                return Err(FetchError::Parse { site: ProviderKind::Inkbunny });
            },
        };
        match doc.get("error_code") {
            Some(v) => match v.as_i64() {
                Some(c) => {
                    if -0x8000_0000i64 <= c && c <= 0x7fff_ffffi64 {
                        return Ok(InkbunnyResponse::Error { error_code: c as i32 });
                    } else {
                        return Err(FetchError::Parse { site: ProviderKind::Inkbunny });
                    }
                },
                None => {},
            },
            None => {},
        }
        match parse_submissions_doc(&doc) {
            Some(subs) => Ok(InkbunnyResponse::Success(subs)),
            None => Err(FetchError::Parse { site: ProviderKind::Inkbunny }),
        }
    }

    /// Applies a parsed submissions response: success hands the documents
    /// over; the session-expired code drops the session id and asks for the
    /// one retry, unless one already happened.
    pub fn process_submissions_response(
        &mut self,
        r: InkbunnyResponse<InkbunnySubmissions>,
        already_retried: bool,
    ) -> (out: SubmissionsStep)
        ensures
            final(self).username == old(self).username,
            final(self).password == old(self).password,
            out == submissions_step_spec(r, already_retried),
            out is RetryAfterLogin ==> final(self).sid is None,
            !(out is RetryAfterLogin) ==> final(self).sid == old(self).sid,
    {
        match r {
            InkbunnyResponse::Success(subs) => SubmissionsStep::Done(subs),
            InkbunnyResponse::Error { error_code } => {
                if error_code == 2 {
                    if already_retried {
                        SubmissionsStep::Failed(FetchError::SessionExpired)
                    } else {
                        self.sid = None;
                        SubmissionsStep::RetryAfterLogin
                    }
                } else {
                    SubmissionsStep::Failed(FetchError::UnhandledCode { code: error_code as i64 })
                }
            },
        }
    }

    /// Expands fetched submissions into one record per attached file, every
    /// record sharing the query URL as its source link. Submissions with no
    /// files at all mean the location holds no media: `None`, not an empty
    /// list.
    pub fn records_from_submissions(&self, subs: &InkbunnySubmissions, url: &str) -> (r: Option<
        Vec<PostInfo>,
    >)
        ensures
            ({
                let flat = flat_files(subs.submissions@);
                match r {
                    None => flat.len() == 0,
                    Some(posts) => flat.len() > 0 && record_match(posts@, flat, url@),
                }
            }),
    {
        let mut out: Vec<PostInfo> = Vec::new();
        let mut i: usize = 0;
        while i < subs.submissions.len()
            invariant
                i <= subs.submissions@.len(),
                record_match(out@, flat_files(subs.submissions@.take(i as int)), url@),
            decreases subs.submissions@.len() - i,
        {
            let files = &subs.submissions[i].files;
            let mut j: usize = 0;
            while j < files.len()
                invariant
                    j <= files@.len(),
                    i < subs.submissions@.len(),
                    files == subs.submissions@[i as int].files,
                    record_match(
                        out@,
                        flat_files(subs.submissions@.take(i as int)) + files@.take(j as int),
                        url@,
                    ),
                decreases files@.len() - j,
            {
                let ext = match get_file_ext(files[j].file_url_screen.as_str()) {
                    Some(ext) => ext,
                    None => {
                        proof {
                            assert(false);
                        }
                        unreached()
                    },
                };
                out.push(
                    PostInfo {
                        file_type: ext,
                        url: files[j].file_url_screen.clone(),
                        personal: false,
                        thumb: Some(files[j].thumbnail_url_medium_noncustom.clone()),
                        source_link: Some(url.to_owned()),
                        extra_caption: None,
                        title: None,
                        site_name: self.name(),
                    },
                );
                proof {
                    assert(files@.take(j + 1) =~= files@.take(j as int).push(files@[j as int]));
                }
                j = j + 1;
            }
            proof {
                assert(subs.submissions@.take(i + 1).drop_last() =~= subs.submissions@.take(
                    i as int,
                ));
                assert(flat_files(subs.submissions@.take(i + 1)) =~= flat_files(
                    subs.submissions@.take(i as int),
                ) + subs.submissions@[i as int].files@);
                assert(files@.take(files@.len() as int) =~= files@);
            }
            i = i + 1;
        }
        proof {
            assert(subs.submissions@.take(subs.submissions@.len() as int) =~= subs.submissions@);
        }
        if out.len() == 0 {
            None
        } else {
            Some(out)
        }
    }
}

/// All files of all submissions, in order.
pub open spec fn flat_files(ss: Seq<InkbunnySubmission>) -> Seq<InkbunnyFile>
    decreases ss.len(),
{
    if ss.len() == 0 {
        Seq::empty()
    } else {
        flat_files(ss.drop_last()) + ss.last().files@
    }
}

/// The built records correspond to the flattened files one for one.
pub open spec fn record_match(out: Seq<PostInfo>, flat: Seq<InkbunnyFile>, url: Seq<char>) -> bool {
    &&& out.len() == flat.len()
    &&& forall|k: int|
        0 <= k < flat.len() ==> {
            let p = #[trigger] out[k];
            &&& p.url@ == flat[k].file_url_screen@
            &&& p.file_type@ == file_ext(flat[k].file_url_screen@)
            &&& p.thumb matches Some(t) && t@ == flat[k].thumbnail_url_medium_noncustom@
            &&& p.source_link matches Some(l) && l@ == url
            &&& p.site_name@ == "Inkbunny"@
            &&& p.personal == false
            &&& p.extra_caption is None
            &&& p.title is None
        }
}

/// A session-expired response is retried exactly once: the first expiry
/// asks for a re-login and one repeated request, and a repeated request is
/// never asked to retry again, whatever the second response holds.
pub proof fn lemma_single_retry(
    r1: InkbunnyResponse<InkbunnySubmissions>,
    r2: InkbunnyResponse<InkbunnySubmissions>,
)
    requires
        r1 == (InkbunnyResponse::<InkbunnySubmissions>::Error { error_code: 2 }),
    ensures
        submissions_step_spec(r1, false) is RetryAfterLogin,
        !(submissions_step_spec(r2, true) is RetryAfterLogin),
{
}

} // verus!
