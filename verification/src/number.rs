//! The `StringToNumber` front end.
//!
//! Converting a string to a number starts with trimming ECMAScript
//! whitespace and dispatching on the trimmed text: empty text is zero, the
//! `Infinity` spellings are infinite, and any text whose first characters
//! case-insensitively spell an abbreviated `inf` or `nan` is rejected as
//! `NaN` before it can reach a permissive float parser that would accept
//! those tokens. Everything else is handed to the host's IEEE-754 parser as
//! it stands. The dispatch is decided here, with contracts; producing the
//! actual floating-point value is the host's final step.

use vstd::prelude::*;
use vstd::string::StrSliceExecFns;

use crate::string::str_eq;
use crate::string::JsString;

verus! {

/// Whitespace trimmed by `String.prototype.trim` and `StringToNumber`:
/// space, tab and the newline families, no-break space, BOM, the Unicode
/// space separators, and the line/paragraph separators.
pub open spec fn is_trimmable_whitespace_spec(c: char) -> bool {
    let v = c as u32;
    ||| v == 0x9
    ||| v == 0xB
    ||| v == 0xC
    ||| v == 0x20
    ||| v == 0xA0
    ||| v == 0xFEFF
    ||| v == 0x1680
    ||| (0x2000 <= v && v <= 0x200A)
    ||| v == 0x202F
    ||| v == 0x205F
    ||| v == 0x3000
    ||| v == 0xA
    ||| v == 0xD
    ||| v == 0x2028
    ||| v == 0x2029
}

/// Whether `c` is whitespace in the sense of `String.prototype.trim`.
#[verifier::when_used_as_spec(is_trimmable_whitespace_spec)]
pub fn is_trimmable_whitespace(c: char) -> (r: bool)
    ensures
        r == is_trimmable_whitespace_spec(c),
{
    let v = c as u32;
    v == 0x9 || v == 0xB || v == 0xC || v == 0x20 || v == 0xA0 || v == 0xFEFF || v == 0x1680 || (
    0x2000 <= v && v <= 0x200A) || v == 0x202F || v == 0x205F || v == 0x3000 || v == 0xA || v == 0xD
        || v == 0x2028 || v == 0x2029
}

/// `s` with leading trimmable whitespace removed.
pub open spec fn trim_left(s: Seq<char>) -> Seq<char>
    decreases s.len(),
{
    if s.len() > 0 && is_trimmable_whitespace_spec(s[0]) {
        trim_left(s.skip(1))
    } else {
        s
    }
}

/// `s` with trailing trimmable whitespace removed.
pub open spec fn trim_right(s: Seq<char>) -> Seq<char>
    decreases s.len(),
{
    if s.len() > 0 && is_trimmable_whitespace_spec(s.last()) {
        trim_right(s.drop_last())
    } else {
        s
    }
}

/// `s` with trimmable whitespace removed from both ends.
pub open spec fn trimmed(s: Seq<char>) -> Seq<char> {
    trim_right(trim_left(s))
}

proof fn lemma_trim_left_skip(s: Seq<char>, i: int)
    requires
        0 <= i <= s.len(),
        forall|k: int| 0 <= k < i ==> is_trimmable_whitespace_spec(s[k]),
        i < s.len() ==> !is_trimmable_whitespace_spec(s[i]),
    ensures
        trim_left(s) == s.skip(i),
    decreases i,
{
    if i == 0 {
        assert(s.skip(0) =~= s);
    } else {
        lemma_trim_left_skip(s.skip(1), i - 1);
        assert(s.skip(1).skip(i - 1) =~= s.skip(i));
    }
}

proof fn lemma_trim_right_take(s: Seq<char>, m: int)
    requires
        0 <= m <= s.len(),
        forall|k: int| m <= k < s.len() ==> is_trimmable_whitespace_spec(s[k]),
        m > 0 ==> !is_trimmable_whitespace_spec(s[m - 1]),
    ensures
        trim_right(s) == s.take(m),
    decreases s.len() - m,
{
    if m == s.len() {
        assert(s.take(m) =~= s);
    } else {
        lemma_trim_right_take(s.drop_last(), m);
        assert(s.drop_last().take(m) =~= s.take(m));
    }
}

/// Remove trimmable whitespace from both ends of `s`.
pub fn trim_whitespace(s: &str) -> (r: &str)
    ensures
        r@ == trimmed(s@),
{
    let len = s.unicode_len();
    let mut start: usize = 0;
    while start < len && is_trimmable_whitespace(s.get_char(start))
        invariant
            start <= len,
            len == s@.len(),
            forall|k: int| 0 <= k < start ==> is_trimmable_whitespace_spec(s@[k]),
        decreases len - start,
    {
        start += 1;
    }
    proof {
        lemma_trim_left_skip(s@, start as int);
    }
    if start == len {
        let r = s.substring_char(len, len);
        proof {
            assert(r@ =~= trimmed(s@));
        }
        return r;
    }
    let mut end: usize = len;
    while end > start && is_trimmable_whitespace(s.get_char(end - 1))
        invariant
            start <= end <= len,
            len == s@.len(),
            start < len,
            !is_trimmable_whitespace_spec(s@[start as int]),
            forall|k: int| end <= k < len ==> is_trimmable_whitespace_spec(s@[k]),
        decreases end,
    {
        end -= 1;
    }
    proof {
        lemma_trim_right_take(s@.skip(start as int), end - start);
    }
    let r = s.substring_char(start, end);
    proof {
        assert(r@ =~= s@.skip(start as int).take(end - start));
    }
    r
}

/// `c` with an ASCII capital letter folded to its small form; any other
/// character is unchanged.
pub open spec fn ascii_lower_char(c: char) -> char {
    let v = c as u32;
    if 0x41 <= v && v <= 0x5A {
        ((v + 0x20) as u8) as char
    } else {
        c
    }
}

/// `s` with every ASCII capital letter folded to its small form.
pub open spec fn ascii_lowercase(s: Seq<char>) -> Seq<char> {
    s.map_values(|c: char| ascii_lower_char(c))
}

/// The first four characters of `s` (or all of them, when shorter),
/// ASCII-lowercased.
pub open spec fn abbreviation_prefix(s: Seq<char>) -> Seq<char> {
    ascii_lowercase(
        s.take(
            if s.len() < 4 {
                s.len() as int
            } else {
                4
            },
        ),
    )
}

/// True iff `s` begins with a case-insensitive abbreviation of infinity or
/// NaN: one of `inf`, `+inf`, `-inf`, `nan`, `+nan`, `-nan`. Such text must
/// become NaN rather than reach a float parser that accepts those tokens.
pub open spec fn is_guarded_abbreviation(s: Seq<char>) -> bool {
    let p = abbreviation_prefix(s);
    ||| p == "inf"@
    ||| p == "+inf"@
    ||| p == "-inf"@
    ||| p == "nan"@
    ||| p == "+nan"@
    ||| p == "-nan"@
}

/// A hexadecimal digit.
pub open spec fn is_hex_digit_spec(c: char) -> bool {
    let v = c as u32;
    ||| (0x30 <= v && v <= 0x39)
    ||| (0x41 <= v && v <= 0x46)
    ||| (0x61 <= v && v <= 0x66)
}

/// A hexadecimal integer literal: `0x` or `0X`, then one or more
/// hexadecimal digits and nothing else.
pub open spec fn is_hex_literal(s: Seq<char>) -> bool {
    &&& s.len() > 2
    &&& s[0] == '0'
    &&& (s[1] == 'x' || s[1] == 'X')
    &&& forall|i: int| 2 <= i < s.len() ==> is_hex_digit_spec(s[i])
}

/// The digits of a hexadecimal integer literal, when `t` is one.
fn hex_literal_digits(t: &str) -> (r: Option<String>)
    ensures
        match r {
            Some(d) => is_hex_literal(t@) && d@ == t@.skip(2),
            None => !is_hex_literal(t@),
        },
{
    let len = t.unicode_len();
    if len <= 2 {
        return None;
    }
    if t.get_char(0) != '0' {
        return None;
    }
    let marker = t.get_char(1);
    if marker != 'x' && marker != 'X' {
        return None;
    }
    let mut i: usize = 2;
    while i < len
        invariant
            2 <= i <= len,
            len == t@.len(),
            forall|k: int| 2 <= k < i ==> is_hex_digit_spec(t@[k]),
        decreases len - i,
    {
        let c = t.get_char(i);
        let v = c as u32;
        if !((0x30 <= v && v <= 0x39) || (0x41 <= v && v <= 0x46) || (0x61 <= v && v <= 0x66)) {
            return None;
        }
        i += 1;
    }
    let digits = t.substring_char(2, len);
    proof {
        assert(digits@ =~= t@.skip(2));
    }
    Some(digits.to_owned())
}

/// How a trimmed string converts to a number: directly to zero or an
/// infinity, directly to NaN, by reading a hexadecimal integer literal's
/// digits, or by handing the text to the host's IEEE-754 parser (which
/// yields NaN when it fails).
#[derive(Debug)]
pub enum NumberClass {
    /// Empty after trimming: the number is `0.0`.
    Zero,
    /// `Infinity` or `+Infinity`: positive infinity.
    PosInfinity,
    /// `-Infinity`: negative infinity.
    NegInfinity,
    /// A guarded abbreviation: the number is NaN without consulting the
    /// parser.
    Nan,
    /// A hexadecimal integer literal: the digits after the `0x` marker.
    /// The number is their place-value sum, rendered as a double by the
    /// host.
    Hex(String),
    /// Parse the held text as an IEEE-754 double; NaN on failure.
    Parse(String),
}

/// Compare the characters of `v` against the characters of `lit`.
fn chars_eq_str(v: &Vec<char>, lit: &str) -> (r: bool)
    ensures
        r == (v@ == lit@),
{
    let n = lit.unicode_len();
    if v.len() != n {
        assert(v@ != lit@);
        return false;
    }
    let mut i: usize = 0;
    while i < n
        invariant
            i <= n,
            n == lit@.len(),
            n == v@.len(),
            forall|k: int| 0 <= k < i ==> v@[k] == lit@[k],
        decreases n - i,
    {
        if v[i] != lit.get_char(i) {
            return false;
        }
        i += 1;
    }
    proof {
        assert(v@ =~= lit@);
    }
    true
}

/// The ASCII-lowercased first four (or fewer) characters of `s`.
fn abbreviation_prefix_exec(s: &str) -> (r: Vec<char>)
    ensures
        r@ == abbreviation_prefix(s@),
{
    let len = s.unicode_len();
    let take = if len < 4 {
        len
    } else {
        4
    };
    let mut out: Vec<char> = Vec::new();
    let mut i: usize = 0;
    while i < take
        invariant
            i <= take,
            take <= len,
            len == s@.len(),
            out@.len() == i,
            forall|k: int| 0 <= k < i ==> out@[k] == ascii_lower_char(s@[k]),
        decreases take - i,
    {
        let c = s.get_char(i);
        let v = c as u32;
        if 0x41 <= v && v <= 0x5A {
            out.push(((v + 0x20) as u8) as char);
            proof {
                assert(out@.last() == ascii_lower_char(c));
            }
        } else {
            out.push(c);
        }
        i += 1;
    }
    proof {
        assert(out@ =~= abbreviation_prefix(s@));
    }
    out
}

/// True iff trimmed text `t` is a guarded abbreviation of infinity or NaN.
fn is_guarded_abbreviation_exec(t: &str) -> (r: bool)
    ensures
        r == is_guarded_abbreviation(t@),
{
    let p = abbreviation_prefix_exec(t);
    chars_eq_str(&p, "inf") || chars_eq_str(&p, "+inf") || chars_eq_str(&p, "-inf") || chars_eq_str(
        &p,
        "nan",
    ) || chars_eq_str(&p, "+nan") || chars_eq_str(&p, "-nan")
}

impl JsString {
    /// Classify this string for `StringToNumber`.
    ///
    /// After trimming: empty text is zero; the `Infinity` spellings are the
    /// infinities; a guarded `inf`/`nan` abbreviation is NaN; a hexadecimal
    /// integer literal carries its digits; any other text is handed onward,
    /// exactly as trimmed, for IEEE-754 parsing.
    pub fn string_to_number_class(&self) -> (r: NumberClass)
        ensures
            ({
                let t = trimmed(self@);
                match r {
                    NumberClass::Zero => t.len() == 0,
                    NumberClass::PosInfinity => t == "Infinity"@ || t == "+Infinity"@,
                    NumberClass::NegInfinity => t == "-Infinity"@,
                    NumberClass::Nan => t.len() > 0 && is_guarded_abbreviation(t) && t
                        != "Infinity"@ && t != "+Infinity"@ && t != "-Infinity"@,
                    NumberClass::Hex(d) => is_hex_literal(t) && d@ == t.skip(2),
                    NumberClass::Parse(p) => p@ == t && t.len() > 0 && !is_guarded_abbreviation(t)
                        && !is_hex_literal(t) && t != "Infinity"@ && t != "+Infinity"@ && t
                        != "-Infinity"@,
                }
            }),
    {
        let t = trim_whitespace(self.as_str());
        if t.is_empty() {
            return NumberClass::Zero;
        }
        if str_eq(t, "Infinity") || str_eq(t, "+Infinity") {
            return NumberClass::PosInfinity;
        }
        if str_eq(t, "-Infinity") {
            return NumberClass::NegInfinity;
        }
        if is_guarded_abbreviation_exec(t) {
            return NumberClass::Nan;
        }
        let hex = hex_literal_digits(t);
        match hex {
            Some(digits) => NumberClass::Hex(digits),
            None => NumberClass::Parse(t.to_owned()),
        }
    }
}

} // verus!
