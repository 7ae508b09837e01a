//! The account-linking text flow: a plain text message is recognized as an
//! out-of-band verifier code, and a confirmed access credential becomes the
//! stored account record. The credential lookup, the OAuth exchange and the
//! welcome message belong to the surrounding process.

use crate::strutil::{
    chars_of, digits_val, find_run_end, in_class, parse_u64, run_end, CharClass,
};
use vstd::prelude::*;

verus! {

/// A linked OAuth access credential, as the credential store keeps it.
#[derive(Clone, Debug)]
pub struct TwitterAccount {
    pub consumer_key: String,
    pub consumer_secret: String,
}

/// Where the trimmed text begins: past the leading whitespace.
pub open spec fn trim_start(s: Seq<char>) -> int {
    run_end(s, 0, CharClass::Space)
}

/// Where the trimmed text ends: before the trailing whitespace.
pub open spec fn trim_end(s: Seq<char>) -> int
    decreases s.len(),
{
    if s.len() == 0 {
        0
    } else if !in_class(s.last(), CharClass::Space) {
        s.len() as int
    } else {
        trim_end(s.drop_last())
    }
}

/// The text with whitespace removed from both ends.
pub open spec fn trimmed(s: Seq<char>) -> Seq<char> {
    if trim_start(s) >= trim_end(s) {
        Seq::empty()
    } else {
        s.subrange(trim_start(s), trim_end(s))
    }
}

/// The digit part of a signed decimal numeral: everything after an optional
/// leading `+` or `-`.
pub open spec fn numeral_digits(t: Seq<char>) -> Seq<char> {
    if t.len() > 0 && (t[0] == '+' || t[0] == '-') {
        t.subrange(1, t.len() as int)
    } else {
        t
    }
}

pub open spec fn numeral_negative(t: Seq<char>) -> bool {
    t.len() > 0 && t[0] == '-'
}

/// The trimmed text is a well-formed signed decimal numeral whose value fits
/// a 32-bit integer: an optional sign, then at least one digit and nothing
/// else.
pub open spec fn is_oob_code(s: Seq<char>) -> bool {
    let t = trimmed(s);
    let d = numeral_digits(t);
    &&& d.len() > 0
    &&& (forall|k: int| 0 <= k < d.len() ==> in_class(d[k], CharClass::Digit))
    &&& (if numeral_negative(t) {
        digits_val(d) <= 0x8000_0000
    } else {
        digits_val(d) <= 0x7fff_ffff
    })
}

/// The value the numeral denotes.
pub open spec fn oob_code_value(s: Seq<char>) -> int {
    let t = trimmed(s);
    if numeral_negative(t) {
        -(digits_val(numeral_digits(t)) as int)
    } else {
        digits_val(numeral_digits(t)) as int
    }
}

/// What the text flow decides for one incoming message.
#[derive(Clone, Debug, PartialEq, Eq, Structural)]
pub enum TextAction {
    /// The message is not a verifier code, or no exchange is pending for the
    /// sender: the message is left to other handlers.
    Ignored,
    /// The message is the sender's verifier code: the caller completes the
    /// OAuth exchange with it and stores the resulting credential.
    CompleteLink { code: i32 },
}

pub struct TextHandler;

impl TextHandler {
    /// The handler's registry name.
    pub fn name(&self) -> (r: String)
        ensures
            r@ == "text"@,
    {
        "text".to_owned()
    }

    /// Parses the message text as an out-of-band verifier code.
    pub fn parse_code(&self, text: &str) -> (r: Option<i32>)
        ensures
            match r {
                Some(code) => is_oob_code(text@) && code as int == oob_code_value(text@),
                None => !is_oob_code(text@),
            },
    {
        let v = chars_of(text);
        let a = find_run_end(&v, 0, CharClass::Space);
        proof {
            lemma_trim_end(v@);
            assert(v@.take(v@.len() as int) =~= v@);
        }
        let mut b: usize = v.len();
        while b > 0 && crate::strutil::char_in_class(v[b - 1], CharClass::Space)
            invariant
                b <= v@.len(),
                trim_end(v@) == trim_end(v@.take(b as int)),
            decreases b,
        {
            proof {
                assert(v@.take(b as int).drop_last() =~= v@.take(b - 1));
            }
            b = b - 1;
        }
        proof {
            assert(v@.take(b as int).len() == b);
            if b > 0 {
                assert(trim_end(v@.take(b as int)) == b);
            }
            assert(trim_end(v@) == b);
        }
        if a >= b {
            proof {
                assert(trimmed(text@).len() == 0);
            }
            return None;
        }
        // The trimmed region is v[a..b].
        proof {
            assert(trimmed(text@) =~= v@.subrange(a as int, b as int));
        }
        let ghost t = trimmed(text@);
        let first = v[a];
        let neg = first == '-';
        let from: usize = if first == '-' || first == '+' {
            a + 1
        } else {
            a
        };
        proof {
            assert(numeral_digits(t) =~= v@.subrange(from as int, b as int));
        }
        if from == b {
            return None;
        }
        let e = find_run_end(&v, from, CharClass::Digit);
        proof {
            crate::strutil::lemma_run_end(v@, from as int, CharClass::Digit);
        }
        if e < b {
            proof {
                assert(numeral_digits(t)[e - from] == v@[e as int]);
            }
            return None;
        }
        proof {
            assert(forall|k: int|
                from <= k < b ==> in_class(#[trigger] v@[k], CharClass::Digit));
            assert(forall|k: int|
                0 <= k < numeral_digits(t).len() ==> in_class(
                    #[trigger] numeral_digits(t)[k],
                    CharClass::Digit,
                ));
        }
        match parse_u64(&v, from, b) {
            None => {
                proof {
                    assert(digits_val(numeral_digits(t)) > u64::MAX);
                }
                None
            },
            Some(mag) => {
                if neg {
                    if mag <= 0x8000_0000 {
                        let code: i32 = (0i64 - (mag as i64)) as i32;
                        Some(code)
                    } else {
                        None
                    }
                } else {
                    if mag <= 0x7fff_ffff {
                        Some(mag as i32)
                    } else {
                        None
                    }
                }
            },
        }
    }

    /// Decides the flow for one text message: only a verifier code from a
    /// sender with a pending exchange is acted on.
    pub fn handle(&self, text: &str, has_pending_request: bool) -> (r: TextAction)
        ensures
            match r {
                TextAction::Ignored => !is_oob_code(text@) || !has_pending_request,
                TextAction::CompleteLink { code } => has_pending_request && is_oob_code(text@)
                    && code as int == oob_code_value(text@),
            },
    {
        match self.parse_code(text) {
            None => TextAction::Ignored,
            Some(code) => {
                if has_pending_request {
                    TextAction::CompleteLink { code }
                } else {
                    TextAction::Ignored
                }
            },
        }
    }

    /// Builds the account record the credential store keeps from a confirmed
    /// access credential.
    pub fn account_from_access(&self, key: &str, secret: &str) -> (r: TwitterAccount)
        ensures
            r.consumer_key@ == key@,
            r.consumer_secret@ == secret@,
    {
        TwitterAccount { consumer_key: key.to_owned(), consumer_secret: secret.to_owned() }
    }
}

proof fn lemma_trim_end(s: Seq<char>)
    ensures
        0 <= trim_end(s) <= s.len(),
        forall|k: int| trim_end(s) <= k < s.len() ==> in_class(s[k], CharClass::Space),
        trim_end(s) > 0 ==> !in_class(s[trim_end(s) - 1], CharClass::Space),
    decreases s.len(),
{
    if s.len() > 0 && in_class(s.last(), CharClass::Space) {
        lemma_trim_end(s.drop_last());
        assert(forall|k: int| 0 <= k < s.len() - 1 ==> s[k] == s.drop_last()[k]);
    }
}

} // verus!
