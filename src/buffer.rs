//! The byte buffer that backs every `InlineStr`: `inline_array::InlineArray`,
//! declared to Verus as an opaque type whose contents are a sequence of bytes.
use vstd::prelude::*;
use vstd::string::*;
use vstd::utf8::*;

use inline_array::InlineArray;

verus! {

/// Exclusive upper bound on the number of bytes an `InlineArray` can hold:
/// its constructor keeps a 48-bit length and panics on anything longer.
pub const MAX_LEN: u64 = 0x1_0000_0000_0000;

/// Holds an `InlineArray` out of Verus's sight. Declaring the array type
/// itself is refused: its generic `PartialEq<T>` impl trips Verus's check of
/// the `PartialOrd` impls that `InlineStr` takes part in.
#[verifier::external_body]
#[derive(Debug, PartialEq, Eq, PartialOrd, Ord)]
pub struct ByteBuffer {
    array: InlineArray,
}

/// The bytes held by a buffer, whether stored inline or on the heap.
pub uninterp spec fn array_bytes(a: ByteBuffer) -> Seq<u8>;

/// Relies on `InlineArray::from(&[u8])`: the new array holds a copy of the
/// slice. It panics on slices of `MAX_LEN` bytes or more (and, like any
/// allocation, when memory runs out).
#[verifier::external_body]
pub(crate) fn array_from_slice(b: &[u8]) -> (r: ByteBuffer)
    requires
        b@.len() < MAX_LEN,
    ensures
        array_bytes(r) == b@,
{
    ByteBuffer { array: InlineArray::from(b) }
}

/// Relies on `<InlineArray as Deref>::deref`: the slice is the stored bytes.
#[verifier::external_body]
pub(crate) fn array_as_slice(a: &ByteBuffer) -> (r: &[u8])
    ensures
        r@ == array_bytes(*a),
{
    &a.array
}

/// Relies on `<InlineArray as Clone>::clone`: the copy holds the same bytes,
/// either by sharing the heap block or by copying the inline storage.
#[verifier::external_body]
pub(crate) fn array_clone(a: &ByteBuffer) -> (r: ByteBuffer)
    ensures
        array_bytes(r) == array_bytes(*a),
{
    ByteBuffer { array: a.array.clone() }
}

/// Relies on `<InlineArray as PartialEq>::eq`, which compares the stored bytes.
#[verifier::external_body]
pub(crate) fn array_eq(a: &ByteBuffer, b: &ByteBuffer) -> (r: bool)
    ensures
        r == (array_bytes(*a) == array_bytes(*b)),
{
    a.array == b.array
}

/// Relies on `std::str::from_utf8`: it succeeds exactly on valid UTF-8, and
/// the text it returns is made of the same bytes.
#[verifier::external_body]
pub(crate) fn text_from_utf8(b: &[u8]) -> (r: Option<&str>)
    ensures
        valid_utf8(b@) ==> r is Some,
        r matches Some(s) ==> s.spec_bytes() == b@,
{
    std::str::from_utf8(b).ok()
}

/// Relies on `<str as Hash>::hash`: feeds the text to the hasher, as any
/// `str` key is fed.
#[verifier::external_body]
pub(crate) fn hash_text<H: core::hash::Hasher>(s: &str, state: &mut H) {
    core::hash::Hash::hash(s, state)
}

} // verus!
