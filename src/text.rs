//! `InlineStr`: a UTF-8 text held in an `InlineArray`.
use vstd::prelude::*;
use vstd::string::*;
use vstd::utf8::*;

use core::cmp::Ordering;
use std::borrow::Cow;

use crate::buffer::{
    array_as_slice, array_bytes, array_clone, array_eq, array_from_slice, hash_text,
    text_from_utf8, ByteBuffer, MAX_LEN,
};
use crate::order::{bytes_equal, compare_bytes, lex_cmp};

verus! {

/// Immutable string that stores short texts inline and can be cloned cheaply.
///
/// `Ord` is derived: it orders the buffers by their bytes, as `partial_cmp`
/// does.
#[derive(Debug, Eq, Ord)]
pub struct InlineStr {
    inner: ByteBuffer,
}

impl View for InlineStr {
    type V = Seq<char>;

    /// The characters that the stored bytes encode.
    closed spec fn view(&self) -> Seq<char> {
        decode_utf8(array_bytes(self.inner))
    }
}

impl InlineStr {
    /// The UTF-8 encoding of the text, as a `str` has it.
    pub open spec fn spec_bytes(&self) -> Seq<u8> {
        encode_utf8(self@)
    }

    #[verifier::type_invariant]
    spec fn well_formed(&self) -> bool {
        valid_utf8(array_bytes(self.inner))
    }

    /// On a well-formed value, the buffer holds the encoding of the text.
    proof fn lemma_buffer_encodes_view(&self)
        requires
            self.well_formed(),
        ensures
            array_bytes(self.inner) == self.spec_bytes(),
    {
        decode_utf8_encode_utf8(array_bytes(self.inner));
    }

    /// Builds an `InlineStr` holding a copy of `s`.
    pub fn new(s: &str) -> (r: InlineStr)
        requires
            s.spec_bytes().len() < MAX_LEN,
        ensures
            r@ == s@,
    {
        let b = s.as_bytes();
        let inner = array_from_slice(b);
        proof {
            encode_utf8_valid_utf8(s@);
            encode_utf8_decode_utf8(s@);
        }
        InlineStr { inner }
    }

    /// Builds an `InlineStr` holding a copy of `s`, or `None` where `s` is
    /// too long for the buffer.
    pub fn try_new(s: &str) -> (r: Option<InlineStr>)
        ensures
            r is Some <==> s.spec_bytes().len() < MAX_LEN,
            r matches Some(v) ==> v@ == s@,
    {
        let n = s.as_bytes().len();
        if (n as u64) < MAX_LEN {
            Some(InlineStr::new(s))
        } else {
            None
        }
    }

    /// Builds an `InlineStr` holding a copy of `s`. A text of `MAX_LEN` bytes
    /// or more cannot be held by the buffer; it gives the empty string.
    fn from_text(s: &str) -> (r: InlineStr)
        ensures
            s.spec_bytes().len() < MAX_LEN ==> r@ == s@,
            s.spec_bytes().len() >= MAX_LEN ==> r@.len() == 0,
    {
        match InlineStr::try_new(s) {
            Some(r) => r,
            None => {
                proof {
                    reveal_strlit("");
                }
                InlineStr::new("")
            },
        }
    }

    /// Extracts a string slice containing the entire `InlineStr`.
    ///
    /// The bytes go through `str::from_utf8`; the invariant makes them valid
    /// UTF-8, so the check always succeeds.
    pub fn as_str(&self) -> (r: &str)
        ensures
            r@ == self@,
    {
        proof {
            use_type_invariant(self);
            self.lemma_buffer_encodes_view();
        }
        let b = array_as_slice(&self.inner);
        match text_from_utf8(b) {
            Some(s) => {
                proof {
                    encode_utf8_decode_utf8(s@);
                }
                s
            },
            None => {
                proof {
                    assert(false);
                }
                ""
            },
        }
    }

    /// Returns the length of the `InlineStr` in bytes.
    pub fn len(&self) -> (r: usize)
        ensures
            r == self.spec_bytes().len(),
    {
        proof {
            use_type_invariant(self);
            self.lemma_buffer_encodes_view();
        }
        array_as_slice(&self.inner).len()
    }

    /// Returns `true` if this `InlineStr` has a length of 0 bytes.
    pub fn is_empty(&self) -> (r: bool)
        ensures
            r == (self.spec_bytes().len() == 0),
            r == (self@.len() == 0),
    {
        let n = self.len();
        proof {
            lemma_encode_utf8_empty(self@);
        }
        n == 0
    }
}

/// Tells whether two texts are the same, by comparing their encodings.
pub fn text_equal(a: &str, b: &str) -> (r: bool)
    ensures
        r == (a@ == b@),
{
    proof {
        encode_utf8_decode_utf8(a@);
        encode_utf8_decode_utf8(b@);
    }
    bytes_equal(a.as_bytes(), b.as_bytes())
}

/// Compares two texts by the byte-lexicographic order of their encodings.
pub fn text_compare(a: &str, b: &str) -> (r: Ordering)
    ensures
        r == lex_cmp(a.spec_bytes(), b.spec_bytes()),
{
    compare_bytes(a.as_bytes(), b.as_bytes())
}

impl Clone for InlineStr {
    /// Copies the inline bytes, or shares the heap block; the text is the same.
    fn clone(&self) -> (r: Self)
        ensures
            r@ == self@,
    {
        proof {
            use_type_invariant(self);
        }
        InlineStr { inner: array_clone(&self.inner) }
    }
}

impl PartialEq for InlineStr {
    fn eq(&self, other: &InlineStr) -> (r: bool) {
        proof {
            use_type_invariant(self);
            use_type_invariant(other);
            self.lemma_buffer_encodes_view();
            other.lemma_buffer_encodes_view();
            encode_utf8_decode_utf8(self@);
            encode_utf8_decode_utf8(other@);
        }
        array_eq(&self.inner, &other.inner)
    }
}

impl vstd::std_specs::cmp::PartialEqSpecImpl for InlineStr {
    open spec fn obeys_eq_spec() -> bool {
        true
    }

    open spec fn eq_spec(&self, other: &InlineStr) -> bool {
        self@ == other@
    }
}

impl PartialOrd for InlineStr {
    fn partial_cmp(&self, other: &InlineStr) -> (r: Option<Ordering>) {
        Some(text_compare(self.as_str(), other.as_str()))
    }
}

impl vstd::std_specs::cmp::PartialOrdSpecImpl for InlineStr {
    open spec fn obeys_partial_cmp_spec() -> bool {
        true
    }

    open spec fn partial_cmp_spec(&self, other: &InlineStr) -> Option<Ordering> {
        Some(lex_cmp(self.spec_bytes(), other.spec_bytes()))
    }
}

impl From<&str> for InlineStr {
    /// Copies the text into a new buffer. A text of `MAX_LEN` bytes or more
    /// cannot be held by the buffer; it gives the empty string.
    fn from(s: &str) -> (r: InlineStr)
        ensures
            s.spec_bytes().len() < MAX_LEN ==> r@ == s@,
            s.spec_bytes().len() >= MAX_LEN ==> r@.len() == 0,
    {
        InlineStr::from_text(s)
    }
}

impl vstd::std_specs::convert::FromSpecImpl<&str> for InlineStr {
    open spec fn obeys_from_spec() -> bool {
        false
    }

    open spec fn from_spec(s: &str) -> InlineStr {
        arbitrary()
    }
}

impl From<String> for InlineStr {
    /// Copies the text into a new buffer. A text of `MAX_LEN` bytes or more
    /// cannot be held by the buffer; it gives the empty string.
    fn from(s: String) -> (r: InlineStr)
        ensures
            encode_utf8(s@).len() < MAX_LEN ==> r@ == s@,
            encode_utf8(s@).len() >= MAX_LEN ==> r@.len() == 0,
    {
        InlineStr::from_text(s.as_str())
    }
}

impl vstd::std_specs::convert::FromSpecImpl<String> for InlineStr {
    open spec fn obeys_from_spec() -> bool {
        false
    }

    open spec fn from_spec(s: String) -> InlineStr {
        arbitrary()
    }
}

impl From<&String> for InlineStr {
    /// Copies the text into a new buffer. A text of `MAX_LEN` bytes or more
    /// cannot be held by the buffer; it gives the empty string.
    fn from(s: &String) -> (r: InlineStr)
        ensures
            encode_utf8(s@).len() < MAX_LEN ==> r@ == s@,
            encode_utf8(s@).len() >= MAX_LEN ==> r@.len() == 0,
    {
        InlineStr::from_text(s.as_str())
    }
}

impl vstd::std_specs::convert::FromSpecImpl<&String> for InlineStr {
    open spec fn obeys_from_spec() -> bool {
        false
    }

    open spec fn from_spec(s: &String) -> InlineStr {
        arbitrary()
    }
}

impl PartialEq<String> for InlineStr {
    fn eq(&self, other: &String) -> (r: bool) {
        text_equal(self.as_str(), other.as_str())
    }
}

impl vstd::std_specs::cmp::PartialEqSpecImpl<String> for InlineStr {
    open spec fn obeys_eq_spec() -> bool {
        true
    }

    open spec fn eq_spec(&self, other: &String) -> bool {
        self@ == other@
    }
}

impl PartialEq<InlineStr> for String {
    fn eq(&self, other: &InlineStr) -> (r: bool) {
        text_equal(self.as_str(), other.as_str())
    }
}

impl vstd::std_specs::cmp::PartialEqSpecImpl<InlineStr> for String {
    open spec fn obeys_eq_spec() -> bool {
        true
    }

    open spec fn eq_spec(&self, other: &InlineStr) -> bool {
        self@ == other@
    }
}

impl PartialEq<&str> for InlineStr {
    fn eq(&self, other: &&str) -> (r: bool) {
        text_equal(self.as_str(), *other)
    }
}

impl vstd::std_specs::cmp::PartialEqSpecImpl<&str> for InlineStr {
    open spec fn obeys_eq_spec() -> bool {
        true
    }

    open spec fn eq_spec(&self, other: &&str) -> bool {
        self@ == (*other)@
    }
}

impl PartialEq<InlineStr> for &str {
    fn eq(&self, other: &InlineStr) -> (r: bool) {
        text_equal(*self, other.as_str())
    }
}

impl vstd::std_specs::cmp::PartialEqSpecImpl<InlineStr> for &str {
    open spec fn obeys_eq_spec() -> bool {
        true
    }

    open spec fn eq_spec(&self, other: &InlineStr) -> bool {
        (*self)@ == other@
    }
}

impl PartialEq<&InlineStr> for &str {
    fn eq(&self, other: &&InlineStr) -> (r: bool) {
        text_equal(*self, other.as_str())
    }
}

impl vstd::std_specs::cmp::PartialEqSpecImpl<&InlineStr> for &str {
    open spec fn obeys_eq_spec() -> bool {
        true
    }

    open spec fn eq_spec(&self, other: &&InlineStr) -> bool {
        (*self)@ == (*other)@
    }
}

impl PartialEq<Cow<'_, str>> for InlineStr {
    fn eq(&self, other: &Cow<'_, str>) -> (r: bool) {
        match other {
            Cow::Borrowed(t) => text_equal(self.as_str(), t),
            Cow::Owned(t) => text_equal(self.as_str(), t.as_str()),
        }
    }
}

impl vstd::std_specs::cmp::PartialEqSpecImpl<Cow<'_, str>> for InlineStr {
    open spec fn obeys_eq_spec() -> bool {
        true
    }

    open spec fn eq_spec(&self, other: &Cow<'_, str>) -> bool {
        self@ == other@
    }
}

impl PartialEq<InlineStr> for Cow<'_, str> {
    fn eq(&self, other: &InlineStr) -> (r: bool) {
        match self {
            Cow::Borrowed(t) => text_equal(t, other.as_str()),
            Cow::Owned(t) => text_equal(t.as_str(), other.as_str()),
        }
    }
}

impl vstd::std_specs::cmp::PartialEqSpecImpl<InlineStr> for Cow<'_, str> {
    open spec fn obeys_eq_spec() -> bool {
        true
    }

    open spec fn eq_spec(&self, other: &InlineStr) -> bool {
        self@ == other@
    }
}

impl PartialEq<InlineStr> for &InlineStr {
    fn eq(&self, other: &InlineStr) -> (r: bool) {
        text_equal(self.as_str(), other.as_str())
    }
}

impl vstd::std_specs::cmp::PartialEqSpecImpl<InlineStr> for &InlineStr {
    open spec fn obeys_eq_spec() -> bool {
        true
    }

    open spec fn eq_spec(&self, other: &InlineStr) -> bool {
        (*self)@ == other@
    }
}

impl core::hash::Hash for InlineStr {
    /// Hashes the text, so that a value hashes as its `as_str` does.
    fn hash<H: core::hash::Hasher>(&self, state: &mut H) {
        hash_text(self.as_str(), state)
    }
}

impl core::ops::Deref for InlineStr {
    type Target = str;

    fn deref(&self) -> (r: &str)
        ensures
            r@ == self@,
    {
        self.as_str()
    }
}

impl AsRef<str> for InlineStr {
    fn as_ref(&self) -> (r: &str)
        ensures
            view_of_str(r) == self@,
    {
        self.as_str()
    }
}

impl AsRef<[u8]> for InlineStr {
    fn as_ref(&self) -> (r: &[u8])
        ensures
            view_of_slice(r) == self.spec_bytes(),
    {
        proof {
            use_type_invariant(self);
            self.lemma_buffer_encodes_view();
        }
        array_as_slice(&self.inner)
    }
}

impl core::borrow::Borrow<str> for InlineStr {
    fn borrow(&self) -> (r: &str)
        ensures
            view_of_str(r) == self@,
    {
        self.as_str()
    }
}

/// The characters of a text slice.
pub open spec fn view_of_str(s: &str) -> Seq<char> {
    s@
}

/// The bytes of a byte slice.
pub open spec fn view_of_slice(b: &[u8]) -> Seq<u8> {
    b@
}

/// A text is empty exactly when its encoding is.
pub proof fn lemma_encode_utf8_empty(t: Seq<char>)
    ensures
        (encode_utf8(t).len() == 0) == (t.len() == 0),
{
    encode_utf8_decode_utf8(t);
}

} // verus!
