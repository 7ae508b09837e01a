//! Character-level string utilities shared by the provider matchers: URL text
//! is handled as a vector of characters so that every test and capture is
//! stated over the string's view.

use vstd::prelude::*;

verus! {

/// Relies on `alloc::string::String::push`: appends one character at the end.
pub assume_specification[ String::push ](s: &mut String, ch: char)
    ensures
        final(s)@ == old(s)@.push(ch),
;

/// Relies on `alloc::string::String::push_str`: appends the characters of the
/// given slice at the end.
pub assume_specification[ String::push_str ](s: &mut String, other: &str)
    ensures
        final(s)@ == old(s)@ + other@,
;

/// The characters of a string slice, as an indexable vector.
pub fn chars_of(s: &str) -> (v: Vec<char>)
    ensures
        v@ == s@,
{
    let mut v: Vec<char> = Vec::new();
    for c in it: s.chars()
        invariant
            it.seq() == s@,
            v@ == s@.take(it.index() as int),
    {
        v.push(c);
    }
    proof {
        assert(v@ =~= s@);
    }
    v
}

/// Character classes used by the URL matchers: decimal digits, word
/// characters, lowercase hexadecimal digits, whitespace and its complement.
/// Each class is the ASCII subset of the class the patterns name; a URL
/// whose captured part uses letters outside ASCII is not recognized.
#[derive(Clone, Copy, PartialEq, Eq, Structural)]
pub enum CharClass {
    Digit,
    Word,
    Hex,
    NonSpace,
    Space,
}

/// Whitespace, as the URL matchers understand it.
pub open spec fn is_space_char(c: char) -> bool {
    c == ' ' || c == '\t' || c == '\n' || c == '\r' || c == '\u{b}' || c == '\u{c}'
}

pub open spec fn in_class(c: char, cls: CharClass) -> bool {
    match cls {
        CharClass::Digit => '0' <= c && c <= '9',
        CharClass::Word => ('0' <= c && c <= '9') || ('a' <= c && c <= 'z') || ('A' <= c
            && c <= 'Z') || c == '_',
        CharClass::Hex => ('0' <= c && c <= '9') || ('a' <= c && c <= 'f'),
        CharClass::NonSpace => !is_space_char(c),
        CharClass::Space => is_space_char(c),
    }
}

/// Whether `c` belongs to the class `cls`.
pub fn char_in_class(c: char, cls: CharClass) -> (r: bool)
    ensures
        r == in_class(c, cls),
{
    match cls {
        CharClass::Digit => '0' <= c && c <= '9',
        CharClass::Word => ('0' <= c && c <= '9') || ('a' <= c && c <= 'z') || ('A' <= c
            && c <= 'Z') || c == '_',
        CharClass::Hex => ('0' <= c && c <= '9') || ('a' <= c && c <= 'f'),
        CharClass::NonSpace => !(c == ' ' || c == '\t' || c == '\n' || c == '\r' || c == '\u{b}'
            || c == '\u{c}'),
        CharClass::Space => c == ' ' || c == '\t' || c == '\n' || c == '\r' || c == '\u{b}' || c
            == '\u{c}',
    }
}

/// The end of the run of characters of class `cls` that starts at `i`: the
/// first position at or after `i` holding a character outside the class.
pub open spec fn run_end(s: Seq<char>, i: int, cls: CharClass) -> int
    decreases s.len() - i,
{
    if i < 0 || i >= s.len() {
        i
    } else if !in_class(s[i], cls) {
        i
    } else {
        run_end(s, i + 1, cls)
    }
}

pub proof fn lemma_run_end(s: Seq<char>, i: int, cls: CharClass)
    requires
        0 <= i <= s.len(),
    ensures
        i <= run_end(s, i, cls) <= s.len(),
        forall|k: int| i <= k < run_end(s, i, cls) ==> in_class(s[k], cls),
        run_end(s, i, cls) < s.len() ==> !in_class(s[run_end(s, i, cls)], cls),
    decreases s.len() - i,
{
    if i < s.len() && in_class(s[i], cls) {
        lemma_run_end(s, i + 1, cls);
    }
}

/// Scans forward from `i` to the end of the run of class `cls`.
pub fn find_run_end(v: &Vec<char>, i: usize, cls: CharClass) -> (r: usize)
    requires
        i <= v@.len(),
    ensures
        r as int == run_end(v@, i as int, cls),
        i <= r <= v@.len(),
{
    let mut j: usize = i;
    while j < v.len() && char_in_class(v[j], cls)
        invariant
            i <= j <= v@.len(),
            run_end(v@, i as int, cls) == run_end(v@, j as int, cls),
        decreases v@.len() - j,
    {
        j = j + 1;
    }
    proof {
        lemma_run_end(v@, j as int, cls);
    }
    j
}

/// The needle occurs in the haystack starting at position `i`.
pub open spec fn contains_at(hay: Seq<char>, needle: Seq<char>, i: int) -> bool {
    0 <= i && i + needle.len() <= hay.len() && hay.subrange(i, i + needle.len()) == needle
}

/// Checks whether `needle` occurs in `hay` at position `i`. The length bound
/// is a machine limit the callers' index arithmetic leans on.
pub fn check_at(hay: &Vec<char>, needle: &Vec<char>, i: usize) -> (r: bool)
    ensures
        r == contains_at(hay@, needle@, i as int),
        hay@.len() <= usize::MAX,
{
    if i > hay.len() || needle.len() > hay.len() - i {
        proof {
            assert(!contains_at(hay@, needle@, i as int));
        }
        return false;
    }
    let mut k: usize = 0;
    while k < needle.len()
        invariant
            0 <= k <= needle@.len(),
            i + needle@.len() <= hay@.len() <= usize::MAX,
            forall|m: int| 0 <= m < k ==> hay@[i + m] == needle@[m],
        decreases needle@.len() - k,
    {
        if hay[i + k] != needle[k] {
            proof {
                assert(hay@.subrange(i as int, i + needle@.len())[k as int] != needle@[k as int]);
            }
            return false;
        }
        k = k + 1;
    }
    proof {
        assert(hay@.subrange(i as int, i + needle@.len()) =~= needle@);
    }
    true
}

/// Finds the first occurrence of `needle` in `hay`.
pub fn find_sub(hay: &Vec<char>, needle: &Vec<char>) -> (r: Option<usize>)
    ensures
        match r {
            Some(i) => contains_at(hay@, needle@, i as int) && forall|j: int|
                0 <= j < i ==> !contains_at(hay@, needle@, j),
            None => forall|j: int| !contains_at(hay@, needle@, j),
        },
{
    if needle.len() == 0 {
        proof {
            assert(hay@.subrange(0, 0) =~= needle@);
        }
        return Some(0);
    }
    let mut i: usize = 0;
    while i < hay.len()
        invariant
            i <= hay@.len(),
            forall|j: int| 0 <= j < i ==> !contains_at(hay@, needle@, j),
        decreases hay@.len() - i,
    {
        if check_at(hay, needle, i) {
            return Some(i);
        }
        i = i + 1;
    }
    None
}

/// The first position at or after `i` where the needle occurs; the length of
/// the haystack when it does not.
pub open spec fn first_contains(s: Seq<char>, needle: Seq<char>, i: int) -> int
    decreases s.len() - i,
{
    if i < 0 || i >= s.len() {
        s.len() as int
    } else if contains_at(s, needle, i) {
        i
    } else {
        first_contains(s, needle, i + 1)
    }
}

pub proof fn lemma_first_contains(s: Seq<char>, needle: Seq<char>, i: int)
    requires
        0 <= i <= s.len(),
        needle.len() > 0,
    ensures
        i <= first_contains(s, needle, i) <= s.len(),
        first_contains(s, needle, i) < s.len() ==> contains_at(s, needle, first_contains(s, needle, i)),
    decreases s.len() - i,
{
    if i < s.len() && !contains_at(s, needle, i) {
        lemma_first_contains(s, needle, i + 1);
    }
}

/// Scans forward from `from` for the first occurrence of the needle.
pub fn find_from(v: &Vec<char>, needle: &Vec<char>, from: usize) -> (r: usize)
    requires
        from <= v@.len(),
        needle@.len() > 0,
    ensures
        r as int == first_contains(v@, needle@, from as int),
        from <= r <= v@.len(),
        r < v@.len() ==> contains_at(v@, needle@, r as int),
{
    let mut i: usize = from;
    while i < v.len() && !check_at(v, needle, i)
        invariant
            from <= i <= v@.len(),
            first_contains(v@, needle@, from as int) == first_contains(v@, needle@, i as int),
        decreases v@.len() - i,
    {
        i = i + 1;
    }
    proof {
        lemma_first_contains(v@, needle@, i as int);
    }
    i
}

/// The haystack ends with the needle.
pub open spec fn ends_with(hay: Seq<char>, suffix: Seq<char>) -> bool {
    contains_at(hay, suffix, hay.len() - suffix.len())
}

/// Checks whether `hay` ends with `suffix`.
pub fn check_ends_with(hay: &Vec<char>, suffix: &Vec<char>) -> (r: bool)
    ensures
        r == ends_with(hay@, suffix@),
{
    if suffix.len() > hay.len() {
        return false;
    }
    check_at(hay, suffix, hay.len() - suffix.len())
}

/// The numeric value of a decimal digit character.
pub open spec fn digit_val(c: char) -> nat {
    ((c as u32) - 48) as nat
}

/// The value of a sequence of decimal digit characters.
pub open spec fn digits_val(s: Seq<char>) -> nat
    decreases s.len(),
{
    if s.len() == 0 {
        0
    } else {
        digits_val(s.drop_last()) * 10 + digit_val(s.last())
    }
}

proof fn lemma_digits_val_prefix_le(s: Seq<char>, m: int)
    requires
        0 <= m <= s.len(),
    ensures
        digits_val(s.take(m)) <= digits_val(s),
    decreases s.len() - m,
{
    if m < s.len() {
        lemma_digits_val_prefix_le(s, m + 1);
        assert(s.take(m + 1).drop_last() =~= s.take(m));
        assert(digits_val(s.take(m + 1)) == digits_val(s.take(m)) * 10 + digit_val(
            s.take(m + 1).last(),
        ));
    } else {
        assert(s.take(m) =~= s);
    }
}

/// Parses the decimal digits `v[from..to]` as a `u64`; `None` when the value
/// does not fit.
pub fn parse_u64(v: &Vec<char>, from: usize, to: usize) -> (r: Option<u64>)
    requires
        from <= to <= v@.len(),
        forall|k: int| from <= k < to ==> in_class(v@[k], CharClass::Digit),
    ensures
        match r {
            Some(n) => n == digits_val(v@.subrange(from as int, to as int)),
            None => digits_val(v@.subrange(from as int, to as int)) > u64::MAX,
        },
{
    let ghost whole: Seq<char> = v@.subrange(from as int, to as int);
    let mut val: u64 = 0;
    let mut j: usize = from;
    while j < to
        invariant
            from <= j <= to <= v@.len(),
            forall|k: int| from <= k < to ==> in_class(v@[k], CharClass::Digit),
            whole == v@.subrange(from as int, to as int),
            val == digits_val(whole.take(j - from)),
        decreases to - j,
    {
        let c = v[j];
        let d: u64 = (c as u32 as u64) - 48;
        proof {
            assert(in_class(v@[j as int], CharClass::Digit));
            assert(whole.take(j + 1 - from).drop_last() =~= whole.take(j - from));
            assert(whole.take(j + 1 - from).last() == v@[j as int]);
        }
        let stepped = match val.checked_mul(10) {
            Some(t) => t.checked_add(d),
            None => None,
        };
        match stepped {
            Some(n) => {
                val = n;
            },
            None => {
                proof {
                    assert(digits_val(whole.take(j + 1 - from)) > u64::MAX);
                    lemma_digits_val_prefix_le(whole, j + 1 - from);
                }
                return None;
            },
        }
        j = j + 1;
    }
    proof {
        assert(whole.take(to - from) =~= whole);
    }
    Some(val)
}

/// The decimal digit character for a value below ten.
pub open spec fn dec_digit_char(d: nat) -> char {
    if d == 0 {
        '0'
    } else if d == 1 {
        '1'
    } else if d == 2 {
        '2'
    } else if d == 3 {
        '3'
    } else if d == 4 {
        '4'
    } else if d == 5 {
        '5'
    } else if d == 6 {
        '6'
    } else if d == 7 {
        '7'
    } else if d == 8 {
        '8'
    } else {
        '9'
    }
}

/// The decimal digit characters of `n`, most significant first.
pub open spec fn dec_digits(n: nat) -> Seq<char>
    decreases n,
{
    if n < 10 {
        seq![dec_digit_char(n)]
    } else {
        dec_digits(n / 10).push(dec_digit_char(n % 10))
    }
}

/// The decimal rendering of a signed value.
pub open spec fn dec_int(n: int) -> Seq<char> {
    if n < 0 {
        seq!['-'] + dec_digits((-n) as nat)
    } else {
        dec_digits(n as nat)
    }
}

fn push_dec_digits(n: u64, out: &mut String)
    ensures
        final(out)@ == old(out)@ + dec_digits(n as nat),
    decreases n,
{
    if n >= 10 {
        push_dec_digits(n / 10, out);
    }
    let d = n % 10;
    let c: char = if d == 0 {
        '0'
    } else if d == 1 {
        '1'
    } else if d == 2 {
        '2'
    } else if d == 3 {
        '3'
    } else if d == 4 {
        '4'
    } else if d == 5 {
        '5'
    } else if d == 6 {
        '6'
    } else if d == 7 {
        '7'
    } else if d == 8 {
        '8'
    } else {
        '9'
    };
    out.push(c);
    proof {
        if n < 10 {
            assert(out@ =~= old(out)@ + dec_digits(n as nat));
        } else {
            assert(out@ =~= old(out)@ + dec_digits(n as nat));
        }
    }
}

/// Appends the decimal rendering of `n` to `out`.
pub fn push_dec_i64(n: i64, out: &mut String)
    ensures
        final(out)@ == old(out)@ + dec_int(n as int),
{
    if n < 0 {
        out.push('-');
        let mag: u64 = if n == i64::MIN {
            0x8000_0000_0000_0000u64
        } else {
            (-n) as u64
        };
        push_dec_digits(mag, out);
        proof {
            assert(out@ =~= old(out)@ + dec_int(n as int));
        }
    } else {
        push_dec_digits(n as u64, out);
    }
}

/// Copies `v[from..to]` into a fresh string.
pub fn string_of_range(v: &Vec<char>, from: usize, to: usize) -> (s: String)
    requires
        from <= to <= v@.len(),
    ensures
        s@ == v@.subrange(from as int, to as int),
{
    let mut s = String::new();
    let mut j: usize = from;
    while j < to
        invariant
            from <= j <= to <= v@.len(),
            s@ == v@.subrange(from as int, j as int),
        decreases to - j,
    {
        proof {
            assert(v@.subrange(from as int, j + 1) =~= v@.subrange(from as int, j as int).push(
                v@[j as int],
            ));
        }
        s.push(v[j]);
        j = j + 1;
    }
    s
}

/// Rebuilds a string from a vector of characters.
pub fn string_from_chars(v: &Vec<char>) -> (s: String)
    ensures
        s@ == v@,
{
    let mut s = String::new();
    let mut i: usize = 0;
    while i < v.len()
        invariant
            i <= v.len(),
            s@ == v@.take(i as int),
        decreases v.len() - i,
    {
        s.push(v[i]);
        i = i + 1;
    }
    proof {
        assert(s@ =~= v@);
    }
    s
}

} // verus!
