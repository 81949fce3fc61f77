//! The JavaScript primitive string type.
//!
//! A `JsString` is an immutable, reference-counted, heap-allocated UTF-8
//! string. The handle is a single pointer: the length, the reference count
//! and the character data all live in one shared heap allocation. Copying a
//! handle only bumps the reference count; dropping the last handle frees the
//! allocation.

use std::rc::Rc;

use vstd::prelude::*;
use vstd::string::StrSliceExecFns;
use vstd::string::StringExecFns;
use vstd::string::StringSliceAdditionalSpecFns;

verus! {

/// A JavaScript primitive string: a pointer-sized handle to a shared,
/// immutable heap allocation.
///
/// The view of a `JsString` is the sequence of characters it holds.
///
/// Hashing a `JsString` hashes the characters, exactly as hashing the
/// borrowed `&str` would.
#[derive(Debug, Hash)]
pub struct JsString {
    inner: Rc<String>,
}

impl View for JsString {
    type V = Seq<char>;

    closed spec fn view(&self) -> Seq<char> {
        self.inner@
    }
}

impl JsString {
    /// Create a new JavaScript string holding a copy of `s`.
    ///
    /// The new handle is the only reference to its allocation.
    pub fn new(s: &str) -> (r: Self)
        ensures
            r@ == s@,
    {
        JsString { inner: Rc::new(s.to_owned()) }
    }

    /// Return the string as a borrowed `&str`.
    pub fn as_str(&self) -> (r: &str)
        ensures
            r@ == self@,
    {
        self.inner.as_str()
    }

    /// Concatenate two string views into a fresh string.
    ///
    /// The result is a new allocation holding the characters of `x` followed
    /// by the characters of `y`; its handle is the only reference to it.
    pub fn concat(x: &str, y: &str) -> (r: JsString)
        ensures
            r@ == x@ + y@,
    {
        let joined = x.to_owned().concat(y);
        JsString { inner: Rc::new(joined) }
    }

    /// The length of the string in UTF-8 bytes.
    pub fn len(&self) -> (r: usize)
        ensures
            r == vstd::utf8::encode_utf8(self@).len() as usize,
    {
        let s = self.inner.as_str();
        assert(s.spec_bytes() == vstd::utf8::encode_utf8(self@));
        s.len()
    }

    /// True iff the string holds no characters.
    pub fn is_empty(&self) -> (r: bool)
        ensures
            r == (self@.len() == 0),
    {
        self.inner.as_str().is_empty()
    }

    /// The number of handles that share this string's allocation.
    ///
    /// Diagnostic only: the count is a property of the run-time heap, so the
    /// contract promises no more than that at least this handle exists.
    /// Relies on `Rc::strong_count`: the number of strong references.
    #[verifier::external_body]
    pub fn refcount(this: &Self) -> (r: usize)
        ensures
            r >= 1,
    {
        Rc::strong_count(&this.inner)
    }

    /// True iff the two handles share one allocation.
    ///
    /// Relies on `Rc::ptr_eq`: handles to the same allocation see the same
    /// string, so pointer equality implies view equality.
    #[verifier::external_body]
    pub fn ptr_eq(x: &Self, y: &Self) -> (r: bool)
        ensures
            r ==> x@ == y@,
    {
        Rc::ptr_eq(&x.inner, &y.inner)
    }

    /// `6.1.4.1 StringIndexOf ( string, searchValue, fromIndex )`
    ///
    /// The first index at or after `from_index` where `search_value` occurs
    /// in this string, or none. Indices are measured in UTF-16 code units,
    /// as the ECMAScript specification requires, not in UTF-8 bytes.
    pub fn index_of(&self, search_value: &Self, from_index: usize) -> (r: Option<usize>)
        ensures
            match r {
                Some(i) => crate::utf16::index_of_units(
                    crate::utf16::utf16_units(self@),
                    crate::utf16::utf16_units(search_value@),
                    from_index as nat,
                ) == Some(i as nat),
                None => crate::utf16::index_of_units(
                    crate::utf16::utf16_units(self@),
                    crate::utf16::utf16_units(search_value@),
                    from_index as nat,
                ) is None,
            },
    {
        let haystack = crate::utf16::encode_utf16(self.as_str());
        let needle = crate::utf16::encode_utf16(search_value.as_str());
        crate::utf16::units_index_of(&haystack, &needle, from_index)
    }

    /// True iff the two strings hold the same characters.
    ///
    /// Short-circuits on pointer equality, then compares character by
    /// character.
    pub fn equals(x: &Self, y: &Self) -> (r: bool)
        ensures
            r == (x@ == y@),
    {
        if Self::ptr_eq(x, y) {
            return true;
        }
        str_eq(x.as_str(), y.as_str())
    }
}

impl Clone for JsString {
    /// Copy the handle: the clone shares the allocation, whose reference
    /// count grows by one.
    fn clone(&self) -> (r: Self)
        ensures
            r == *self,
    {
        JsString { inner: self.inner.clone() }
    }
}

impl PartialEq for JsString {
    /// Structural string equality: true iff the characters agree.
    fn eq(&self, other: &Self) -> (r: bool)
        ensures
            r == (self@ == other@),
    {
        JsString::equals(self, other)
    }
}

impl vstd::std_specs::cmp::PartialEqSpecImpl for JsString {
    open spec fn obeys_eq_spec() -> bool {
        true
    }

    open spec fn eq_spec(&self, other: &Self) -> bool {
        self@ == other@
    }
}

impl Default for JsString {
    /// The empty string, in a fresh allocation.
    fn default() -> (r: Self)
        ensures
            r@ == Seq::<char>::empty(),
    {
        proof {
            reveal_strlit("");
        }
        JsString::new("")
    }
}

/// Compare two string slices character by character.
pub fn str_eq(a: &str, b: &str) -> (r: bool)
    ensures
        r == (a@ == b@),
{
    let a_len = a.unicode_len();
    let b_len = b.unicode_len();
    if a_len != b_len {
        assert(a@ != b@);
        return false;
    }
    let mut i: usize = 0;
    while i < a_len
        invariant
            i <= a_len,
            a_len == a@.len(),
            a_len == b@.len(),
            forall|k: int| 0 <= k < i ==> a@[k] == b@[k],
        decreases a_len - i,
    {
        if a.get_char(i) != b.get_char(i) {
            return false;
        }
        i += 1;
    }
    proof {
        assert(a@ =~= b@);
    }
    true
}

} // verus!
