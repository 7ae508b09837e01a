//! A plain model of JSON documents. The text of a provider response is
//! parsed by an outside JSON parser; everything the resolvers read out of the
//! document afterwards is verified against this model.

use crate::strutil::chars_of;
use vstd::prelude::*;

verus! {

/// A JSON document as plain values. Object entries keep the order the parser
/// hands them out in; a number that is not a 64-bit integer carries no value,
/// since no provider schema reads one.
#[derive(Debug)]
pub enum JsonValue {
    Null,
    Bool(bool),
    Int(i64),
    NonInteger,
    Str(String),
    Arr(Vec<JsonValue>),
    Obj(Vec<(String, JsonValue)>),
}

#[verifier::external_type_specification]
#[verifier::external_body]
pub struct ExSerdeValue(serde_json::Value);

/// What parsing a text as JSON yields: `None` when the text is not a valid
/// document.
pub uninterp spec fn json_of(s: Seq<char>) -> Option<JsonValue>;

/// The plain contents of a parsed outside JSON value.
pub uninterp spec fn value_model(v: serde_json::Value) -> JsonValue;

/// Relies on `serde_json::from_str`: parses the text as one JSON document,
/// deterministically in the text alone.
#[verifier::external_body]
fn parse_raw(s: &str) -> (r: Option<serde_json::Value>)
    ensures
        match r {
            Some(v) => json_of(s@) == Some(value_model(v)),
            None => json_of(s@) is None,
        },
{
    serde_json::from_str::<serde_json::Value>(s).ok()
}

/// Relies on `serde_json::Value`: maps each variant of the parsed document to
/// its plain counterpart, one arm each, recursing into children.
#[verifier::external_body]
fn model_of(v: &serde_json::Value) -> (r: JsonValue)
    ensures
        r == value_model(*v),
{
    match v {
        serde_json::Value::Null => JsonValue::Null,
        serde_json::Value::Bool(b) => JsonValue::Bool(*b),
        serde_json::Value::Number(n) => n.as_i64().map_or(JsonValue::NonInteger, JsonValue::Int),
        serde_json::Value::String(s) => JsonValue::Str(s.clone()),
        serde_json::Value::Array(xs) => JsonValue::Arr(xs.iter().map(model_of).collect()),
        serde_json::Value::Object(m) => JsonValue::Obj(
            m.iter().map(|(k, x)| (k.clone(), model_of(x))).collect(),
        ),
    }
}

/// Parses a provider response as a JSON document.
pub fn parse_json(s: &str) -> (r: Option<JsonValue>)
    ensures
        match r {
            Some(v) => json_of(s@) == Some(v),
            None => json_of(s@) is None,
        },
{
    match parse_raw(s) {
        Some(v) => Some(model_of(&v)),
        None => None,
    }
}

/// Whether two character vectors hold the same characters.
pub fn eq_chars(a: &Vec<char>, b: &Vec<char>) -> (r: bool)
    ensures
        r == (a@ == b@),
{
    if a.len() != b.len() {
        return false;
    }
    let mut i: usize = 0;
    while i < a.len()
        invariant
            i <= a@.len(),
            a@.len() == b@.len(),
            forall|k: int| 0 <= k < i ==> a@[k] == b@[k],
        decreases a@.len() - i,
    {
        if a[i] != b[i] {
            return false;
        }
        i = i + 1;
    }
    proof {
        assert(a@ =~= b@);
    }
    true
}

/// Whether two string slices hold the same characters.
pub fn str_eq(a: &str, b: &str) -> (r: bool)
    ensures
        r == (a@ == b@),
{
    let va = chars_of(a);
    let vb = chars_of(b);
    eq_chars(&va, &vb)
}

/// The value under `key` when `v` is an object with such an entry: the first
/// entry with that key counts.
pub open spec fn obj_lookup(entries: Seq<(String, JsonValue)>, key: Seq<char>) -> Option<
    JsonValue,
>
    decreases entries.len(),
{
    if entries.len() == 0 {
        None
    } else if entries[0].0@ == key {
        Some(entries[0].1)
    } else {
        obj_lookup(entries.drop_first(), key)
    }
}

pub open spec fn get_field(v: JsonValue, key: Seq<char>) -> Option<JsonValue> {
    match v {
        JsonValue::Obj(entries) => obj_lookup(entries@, key),
        _ => None,
    }
}

impl JsonValue {
    /// Looks up a field of a JSON object.
    pub fn get<'a>(&'a self, key: &str) -> (r: Option<&'a JsonValue>)
        ensures
            match r {
                Some(x) => get_field(*self, key@) == Some(*x),
                None => get_field(*self, key@) is None,
            },
    {
        let entries: &Vec<(String, JsonValue)> = match self {
            JsonValue::Obj(entries) => entries,
            _ => {
                return None;
            },
        };
        proof {
            assert(entries@.skip(0) =~= entries@);
        }
        let mut i: usize = 0;
        while i < entries.len()
            invariant
                i <= entries@.len(),
                get_field(*self, key@) == obj_lookup(entries@.skip(i as int), key@),
                entries == self->Obj_0,
            decreases entries@.len() - i,
        {
            proof {
                assert(entries@.skip(i as int)[0] == entries@[i as int]);
                assert(entries@.skip(i as int).drop_first() =~= entries@.skip(i + 1));
            }
            if str_eq(entries[i].0.as_str(), key) {
                return Some(&entries[i].1);
            }
            i = i + 1;
        }
        proof {
            assert(entries@.skip(entries@.len() as int).len() == 0);
        }
        None
    }

    /// The string contents when `self` is a JSON string.
    pub fn as_str<'a>(&'a self) -> (r: Option<&'a String>)
        ensures
            match r {
                Some(s) => self is Str && s == self->Str_0,
                None => !(self is Str),
            },
    {
        match self {
            JsonValue::Str(s) => Some(s),
            _ => None,
        }
    }

    /// The elements when `self` is a JSON array.
    pub fn as_array<'a>(&'a self) -> (r: Option<&'a Vec<JsonValue>>)
        ensures
            match r {
                Some(xs) => self is Arr && xs == self->Arr_0,
                None => !(self is Arr),
            },
    {
        match self {
            JsonValue::Arr(xs) => Some(xs),
            _ => None,
        }
    }

    /// The value when `self` is an integer JSON number.
    pub fn as_i64(&self) -> (r: Option<i64>)
        ensures
            match r {
                Some(n) => self is Int && n == self->Int_0,
                None => !(self is Int),
            },
    {
        match self {
            JsonValue::Int(n) => Some(*n),
            _ => None,
        }
    }
}

} // verus!
