//! Laws that relate the operations of `InlineStr` to one another and to the
//! plain text types.
use vstd::prelude::*;
use vstd::std_specs::cmp::{PartialEqSpec, PartialOrdSpec};
use vstd::string::*;
use vstd::utf8::*;

use core::cmp::Ordering;
use std::borrow::Cow;

use crate::buffer::MAX_LEN;
use crate::order::{lemma_lex_cmp_antisymmetric, lemma_lex_cmp_equal, lemma_lex_cmp_transitive};
use crate::text::InlineStr;

verus! {

/// Building an `InlineStr` from a text and viewing it as a `str` again gives
/// back the same characters and the same bytes.
pub proof fn law_round_trip(s: &str, w: InlineStr, t: &str)
    requires
        call_ensures(InlineStr::new, (s,), w),
        call_ensures(InlineStr::as_str, (&w,), t),
    ensures
        t@ == s@,
        t.spec_bytes() == s.spec_bytes(),
{
}

/// The same holds through `From<&str>`, for every text the buffer can hold.
pub proof fn law_round_trip_from(s: &str, w: InlineStr, t: &str)
    requires
        s.spec_bytes().len() < MAX_LEN,
        call_ensures(<InlineStr as From<&str>>::from, (s,), w),
        call_ensures(InlineStr::as_str, (&w,), t),
    ensures
        t@ == s@,
        t.spec_bytes() == s.spec_bytes(),
{
}

/// Equality between an `InlineStr` and a `&str` gives the same answer in
/// both directions, and it is equality of the texts.
pub proof fn law_eq_symmetric_str(a: InlineStr, b: &str)
    ensures
        <InlineStr as PartialEqSpec<&str>>::eq_spec(&a, &b) == <&str as PartialEqSpec<
            InlineStr,
        >>::eq_spec(&b, &a),
        <InlineStr as PartialEqSpec<&str>>::eq_spec(&a, &b) == (a@ == b@),
{
}

/// Equality between an `InlineStr` and a `String` gives the same answer in
/// both directions, and it is equality of the texts.
pub proof fn law_eq_symmetric_string(a: InlineStr, b: String)
    ensures
        <InlineStr as PartialEqSpec<String>>::eq_spec(&a, &b) == <String as PartialEqSpec<
            InlineStr,
        >>::eq_spec(&b, &a),
        <InlineStr as PartialEqSpec<String>>::eq_spec(&a, &b) == (a@ == b@),
{
}

/// Equality between an `InlineStr` and a `Cow<str>` gives the same answer in
/// both directions, and it is equality of the texts.
pub proof fn law_eq_symmetric_cow(a: InlineStr, b: Cow<str>)
    ensures
        <InlineStr as PartialEqSpec<Cow<str>>>::eq_spec(&a, &b) == <Cow<str> as PartialEqSpec<
            InlineStr,
        >>::eq_spec(&b, &a),
        <InlineStr as PartialEqSpec<Cow<str>>>::eq_spec(&a, &b) == (a@ == b@),
{
}

/// Equality between a `&str` and a `&InlineStr` is equality of the texts,
/// as is equality between a `&InlineStr` and an `InlineStr`.
pub proof fn law_eq_references(a: InlineStr, b: &str, c: InlineStr)
    ensures
        <&str as PartialEqSpec<&InlineStr>>::eq_spec(&b, &&a) == (b@ == a@),
        <&InlineStr as PartialEqSpec<InlineStr>>::eq_spec(&&a, &c) == (a@ == c@),
        <&InlineStr as PartialEqSpec<InlineStr>>::eq_spec(&&a, &c) == <InlineStr as PartialEqSpec<
            InlineStr,
        >>::eq_spec(&c, &a),
{
}

/// The order of `InlineStr` is the byte-lexicographic order of the texts'
/// encodings, and exactly one of `a < b`, `a == b`, `b < a` holds.
pub proof fn law_order_trichotomy(a: InlineStr, b: InlineStr)
    ensures
        a.partial_cmp_spec(&b) == Some(lex_cmp_of(a, b)),
        a.partial_cmp_spec(&b) == Some(Ordering::Less) || a.partial_cmp_spec(&b) == Some(
            Ordering::Equal,
        ) || a.partial_cmp_spec(&b) == Some(Ordering::Greater),
        (a.partial_cmp_spec(&b) == Some(Ordering::Equal)) == (a@ == b@),
        (a.partial_cmp_spec(&b) == Some(Ordering::Less)) == (b.partial_cmp_spec(&a) == Some(
            Ordering::Greater,
        )),
{
    lemma_lex_cmp_equal(a.spec_bytes(), b.spec_bytes());
    lemma_lex_cmp_antisymmetric(a.spec_bytes(), b.spec_bytes());
    encode_utf8_decode_utf8(a@);
    encode_utf8_decode_utf8(b@);
}

/// `a < b` and `b < c` give `a < c`.
pub proof fn law_order_transitive(a: InlineStr, b: InlineStr, c: InlineStr)
    requires
        a.partial_cmp_spec(&b) == Some(Ordering::Less),
        b.partial_cmp_spec(&c) == Some(Ordering::Less),
    ensures
        a.partial_cmp_spec(&c) == Some(Ordering::Less),
{
    lemma_lex_cmp_transitive(a.spec_bytes(), b.spec_bytes(), c.spec_bytes());
}

/// The byte-lexicographic comparison of the encodings of two texts.
pub open spec fn lex_cmp_of(a: InlineStr, b: InlineStr) -> Ordering {
    crate::order::lex_cmp(a.spec_bytes(), b.spec_bytes())
}

} // verus!
