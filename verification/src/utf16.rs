//! UTF-16 views of strings.
//!
//! ECMAScript measures string indices in UTF-16 code units, not in UTF-8
//! bytes or in characters. This module defines the UTF-16 encoding of a
//! character sequence and the code-unit substring search that
//! `String.prototype.indexOf` is built on.

use vstd::prelude::*;
use vstd::string::StrSliceExecFns;

verus! {

/// The UTF-16 encoding of one character: one code unit for scalars below
/// `0x10000`, else a surrogate pair.
pub open spec fn utf16_units_of_char(c: char) -> Seq<u16> {
    let v = c as u32;
    if v < 0x10000 {
        seq![v as u16]
    } else {
        seq![
            (0xD800 + ((v - 0x10000) / 0x400)) as u16,
            (0xDC00 + ((v - 0x10000) % 0x400)) as u16,
        ]
    }
}

/// The UTF-16 encoding of a character sequence.
pub open spec fn utf16_units(s: Seq<char>) -> Seq<u16>
    decreases s.len(),
{
    if s.len() == 0 {
        Seq::empty()
    } else {
        utf16_units_of_char(s[0]) + utf16_units(s.skip(1))
    }
}

proof fn lemma_utf16_units_snoc(s: Seq<char>, c: char)
    ensures
        utf16_units(s.push(c)) == utf16_units(s) + utf16_units_of_char(c),
    decreases s.len(),
{
    if s.len() == 0 {
        assert(s.push(c)[0] == c);
        assert(s.push(c).skip(1) =~= Seq::<char>::empty());
        assert(utf16_units(s.push(c)) == utf16_units_of_char(c) + utf16_units(
            Seq::<char>::empty(),
        ));
        assert(utf16_units_of_char(c) + Seq::<u16>::empty() =~= utf16_units_of_char(c));
        assert(utf16_units(s) + utf16_units_of_char(c) =~= utf16_units_of_char(c));
    } else {
        assert(s.push(c).skip(1) =~= s.skip(1).push(c));
        lemma_utf16_units_snoc(s.skip(1), c);
        assert(utf16_units(s.push(c)) == utf16_units_of_char(s[0]) + (utf16_units(s.skip(1))
            + utf16_units_of_char(c)));
        assert(utf16_units_of_char(s[0]) + (utf16_units(s.skip(1)) + utf16_units_of_char(c))
            =~= (utf16_units_of_char(s[0]) + utf16_units(s.skip(1))) + utf16_units_of_char(c));
    }
}

/// Encode a string slice as a vector of UTF-16 code units.
pub fn encode_utf16(s: &str) -> (r: Vec<u16>)
    ensures
        r@ == utf16_units(s@),
{
    let len = s.unicode_len();
    let mut out: Vec<u16> = Vec::new();
    let mut i: usize = 0;
    proof {
        assert(s@.take(0) =~= Seq::<char>::empty());
    }
    while i < len
        invariant
            i <= len,
            len == s@.len(),
            out@ == utf16_units(s@.take(i as int)),
        decreases len - i,
    {
        let c = s.get_char(i);
        let v = c as u32;
        proof {
            vstd::utf8::char_is_scalar(c);
        }
        if v < 0x10000 {
            out.push(v as u16);
        } else {
            out.push((0xD800 + ((v - 0x10000) / 0x400)) as u16);
            out.push((0xDC00 + ((v - 0x10000) % 0x400)) as u16);
        }
        proof {
            lemma_utf16_units_snoc(s@.take(i as int), c);
            assert(s@.take(i + 1) =~= s@.take(i as int).push(c));
        }
        i += 1;
    }
    proof {
        assert(s@.take(len as int) =~= s@);
    }
    out
}

/// The first index `i >= from` at which `n` occurs as a code-unit substring
/// of `h`, or none. An empty `n` matches at any index up to and including
/// `h.len()`.
pub open spec fn search_from(h: Seq<u16>, n: Seq<u16>, from: nat) -> Option<nat>
    decreases h.len() - from,
{
    if n.len() == 0 {
        if from <= h.len() {
            Some(from)
        } else {
            None
        }
    } else if from + n.len() > h.len() {
        None
    } else if h.subrange(from as int, from + n.len() as int) == n {
        Some(from)
    } else {
        search_from(h, n, from + 1)
    }
}

/// `StringIndexOf ( string, searchValue, fromIndex )` over code-unit
/// sequences: if the needle is empty and `from` does not exceed the length,
/// the answer is `from` itself; otherwise the first match at or after
/// `from`.
pub open spec fn index_of_units(h: Seq<u16>, n: Seq<u16>, from: nat) -> Option<nat> {
    search_from(h, n, from)
}

/// Law: what the code-unit search means. A hit is the first index at or
/// after `from` where the needle's units occur as a substring (an empty
/// needle occurs anywhere up to the length); a miss means no such index
/// exists.
pub proof fn lemma_index_of_units_characterized(h: Seq<u16>, n: Seq<u16>, from: nat)
    ensures
        match index_of_units(h, n, from) {
            Some(i) => {
                &&& from <= i
                &&& i + n.len() <= h.len()
                &&& h.subrange(i as int, i + n.len() as int) == n
                &&& forall|j: int|
                    from <= j < i ==> #[trigger] h.subrange(j, j + n.len() as int) != n
            },
            None => forall|j: int|
                from <= j && j + n.len() <= h.len() ==> #[trigger] h.subrange(
                    j,
                    j + n.len() as int,
                ) != n,
        },
    decreases h.len() - from,
{
    if n.len() == 0 {
        if from <= h.len() {
            assert(h.subrange(from as int, from as int) =~= n);
        }
    } else if from + n.len() > h.len() {
    } else if h.subrange(from as int, from + n.len() as int) == n {
    } else {
        lemma_index_of_units_characterized(h, n, from + 1);
        match index_of_units(h, n, from + 1) {
            Some(i) => {
                assert forall|j: int| from <= j < i implies #[trigger] h.subrange(
                    j,
                    j + n.len() as int,
                ) != n by {
                    if j > from {
                        assert(h.subrange(j, j + n.len() as int) != n);
                    }
                }
            },
            None => {
                assert forall|j: int| from <= j && j + n.len() <= h.len() implies #[trigger] h.subrange(
                    j,
                    j + n.len() as int,
                ) != n by {
                    if j > from {
                        assert(h.subrange(j, j + n.len() as int) != n);
                    }
                }
            },
        }
    }
}

/// Compare `n` against the code units of `h` starting at `i`.
fn units_match_at(h: &Vec<u16>, i: usize, n: &Vec<u16>) -> (r: bool)
    requires
        i + n@.len() <= h@.len(),
    ensures
        r == (h@.subrange(i as int, i + n@.len()) == n@),
{
    let h_len = h.len();
    let n_len = n.len();
    let mut k: usize = 0;
    while k < n_len
        invariant
            k <= n_len,
            n_len == n@.len(),
            h_len == h@.len(),
            i + n@.len() <= h@.len(),
            forall|j: int| 0 <= j < k ==> h@[i + j] == n@[j],
        decreases n_len - k,
    {
        if h[i + k] != n[k] {
            proof {
                assert(h@.subrange(i as int, i + n@.len())[k as int] == h@[i + k]);
            }
            return false;
        }
        k += 1;
    }
    proof {
        assert(h@.subrange(i as int, i + n@.len()) =~= n@);
    }
    true
}

/// Search `haystack` for `needle` at or after `from_index`, all measured in
/// UTF-16 code units.
pub fn units_index_of(haystack: &Vec<u16>, needle: &Vec<u16>, from_index: usize) -> (r: Option<
    usize,
>)
    ensures
        match r {
            Some(i) => index_of_units(haystack@, needle@, from_index as nat) == Some(i as nat),
            None => index_of_units(haystack@, needle@, from_index as nat) is None,
        },
{
    let h_len = haystack.len();
    let n_len = needle.len();
    if n_len == 0 {
        if from_index <= h_len {
            return Some(from_index);
        } else {
            return None;
        }
    }
    if n_len > h_len || from_index > h_len - n_len {
        return None;
    }
    let mut i: usize = from_index;
    while i <= h_len - n_len
        invariant
            from_index <= i,
            n_len == needle@.len(),
            h_len == haystack@.len(),
            1 <= n_len <= h_len,
            i <= h_len - n_len + 1,
            search_from(haystack@, needle@, from_index as nat) == search_from(
                haystack@,
                needle@,
                i as nat,
            ),
        decreases h_len - i,
    {
        if units_match_at(haystack, i, needle) {
            proof {
                assert(search_from(haystack@, needle@, i as nat) == Some(i as nat));
            }
            return Some(i);
        }
        proof {
            assert(search_from(haystack@, needle@, i as nat) == search_from(
                haystack@,
                needle@,
                (i + 1) as nat,
            ));
        }
        i += 1;
    }
    proof {
        assert(search_from(haystack@, needle@, i as nat) is None);
    }
    None
}

} // verus!
