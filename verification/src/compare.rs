//! Equality and order of `Str`, between strings of any two lengths.

use crate::fixed::Str;
use crate::lex::{
    compare_bytes, is_proper_prefix, lemma_lex_less_irreflexive,
    lemma_lex_less_transitive, lemma_lex_less_total, lemma_prefix_is_less,
    lex_less, Rank,
};
use core::cmp::Ordering;
use vstd::prelude::*;
use vstd::std_specs::cmp::{PartialEqSpec, PartialEqSpecImpl, PartialOrdSpec, PartialOrdSpecImpl};
use vstd::utf8::*;

verus! {

/// How `a` orders against `b`, byte by byte: equal, less or greater.
pub open spec fn order_of(a: Seq<u8>, b: Seq<u8>) -> Option<Ordering> {
    if a == b {
        Some(Ordering::Equal)
    } else if lex_less(a, b) {
        Some(Ordering::Less)
    } else {
        Some(Ordering::Greater)
    }
}

/// Orders two byte slices lexicographically.
pub fn order_bytes(a: &[u8], b: &[u8]) -> (r: Option<Ordering>)
    ensures
        r == order_of(a@, b@),
{
    match compare_bytes(a, b) {
        Rank::Before => Some(Ordering::Less),
        Rank::Same => Some(Ordering::Equal),
        Rank::After => Some(Ordering::Greater),
    }
}

/// Whether a string and a string slice hold the same text.
pub fn same_text<const N: usize>(a: &Str<N>, b: &str) -> (r: bool)
    ensures
        r <==> a@ == b@,
{
    proof {
        use_type_invariant(a);
        a.lemma_view_encodes();
        encode_utf8_decode_utf8(b@);
    }
    match compare_bytes(a.as_bytes(), b.as_bytes()) {
        Rank::Same => true,
        _ => false,
    }
}

/// How a string orders against a string slice.
pub fn order_with<const N: usize>(a: &Str<N>, b: &str) -> (r: Option<Ordering>)
    ensures
        r == order_of(a.bytes(), encode_utf8(b@)),
{
    order_bytes(a.as_bytes(), b.as_bytes())
}

/// How a string slice orders against a string.
pub fn order_against<const N: usize>(a: &str, b: &Str<N>) -> (r: Option<Ordering>)
    ensures
        r == order_of(encode_utf8(a@), b.bytes()),
{
    order_bytes(a.as_bytes(), b.as_bytes())
}

/// Two valid strings hold the same text exactly when they hold the same bytes.
pub proof fn lemma_same_text_same_bytes<const N: usize, const M: usize>(a: Str<N>, b: Str<M>)
    requires
        a.wf(),
        b.wf(),
    ensures
        a@ == b@ <==> a.bytes() == b.bytes(),
{
    a.lemma_view_encodes();
    b.lemma_view_encodes();
}

impl<const N: usize, const M: usize> PartialEq<Str<M>> for Str<N> {
    /// Strings of different lengths are never equal; strings of one length
    /// are equal when their text is.
    fn eq(&self, other: &Str<M>) -> (r: bool) {
        proof {
            use_type_invariant(self);
            use_type_invariant(other);
            lemma_same_text_same_bytes(*self, *other);
        }
        if N != M {
            return false;
        }
        match compare_bytes(self.as_bytes(), other.as_bytes()) {
            Rank::Same => true,
            _ => false,
        }
    }
}

impl<const N: usize, const M: usize> PartialEqSpecImpl<Str<M>> for Str<N> {
    open spec fn obeys_eq_spec() -> bool {
        true
    }

    open spec fn eq_spec(&self, other: &Str<M>) -> bool {
        N == M && self@ == other@
    }
}

impl<const N: usize> Eq for Str<N> {

}

impl<const N: usize, const M: usize> PartialOrd<Str<M>> for Str<N> {
    /// Strings order as their text does, byte by byte, whatever their lengths.
    fn partial_cmp(&self, other: &Str<M>) -> (r: Option<Ordering>) {
        order_bytes(self.as_bytes(), other.as_bytes())
    }
}

impl<const N: usize, const M: usize> PartialOrdSpecImpl<Str<M>> for Str<N> {
    open spec fn obeys_partial_cmp_spec() -> bool {
        true
    }

    open spec fn partial_cmp_spec(&self, other: &Str<M>) -> Option<Ordering> {
        order_of(self.bytes(), other.bytes())
    }
}

/// Strings of different lengths are never equal, and neither their bytes nor
/// their text are the same: they compare as less or as greater.
pub proof fn lemma_different_lengths_differ<const N: usize, const M: usize>(a: Str<N>, b: Str<M>)
    requires
        a.wf(),
        b.wf(),
        N != M,
    ensures
        !PartialEqSpec::eq_spec(&a, &b),
        a.bytes() != b.bytes(),
        a@ != b@,
        PartialOrdSpec::partial_cmp_spec(&a, &b) != Some(Ordering::Equal),
{
    a.lemma_bytes_len();
    b.lemma_bytes_len();
    lemma_same_text_same_bytes(a, b);
}

/// Between strings of one length, `==` holds exactly of the same value, and
/// exactly where the order says equal.
pub proof fn lemma_eq_is_identity<const N: usize>(a: Str<N>, b: Str<N>)
    requires
        a.wf(),
        b.wf(),
    ensures
        PartialEqSpec::eq_spec(&a, &b) <==> a == b,
        PartialEqSpec::eq_spec(&a, &b) <==> PartialOrdSpec::partial_cmp_spec(&a, &b) == Some(Ordering::Equal),
{
    lemma_same_text_same_bytes(a, b);
    if a.bytes() == b.bytes() {
        a.lemma_bytes_determine(&b);
    }
}

/// The order is that of the bytes, whatever the two lengths: a string that
/// another one starts with comes first, and turning the two around turns
/// the answer around.
pub proof fn lemma_order_is_lexicographic<const N: usize, const M: usize>(a: Str<N>, b: Str<M>)
    ensures
        PartialOrdSpec::partial_cmp_spec(&a, &b) == Some(Ordering::Less) <==> lex_less(a.bytes(), b.bytes()),
        PartialOrdSpec::partial_cmp_spec(&a, &b) == Some(Ordering::Greater) <==> lex_less(b.bytes(), a.bytes()),
        is_proper_prefix(a.bytes(), b.bytes()) ==> PartialOrdSpec::partial_cmp_spec(&a, &b) == Some(Ordering::Less),
{
    lemma_lex_less_irreflexive(a.bytes());
    lemma_lex_less_total(a.bytes(), b.bytes());
    if is_proper_prefix(a.bytes(), b.bytes()) {
        lemma_prefix_is_less(a.bytes(), b.bytes());
    }
}

/// The order is transitive, whatever the three lengths.
pub proof fn lemma_order_is_transitive<const N: usize, const M: usize, const K: usize>(
    a: Str<N>,
    b: Str<M>,
    c: Str<K>,
)
    requires
        PartialOrdSpec::partial_cmp_spec(&a, &b) == Some(Ordering::Less),
        PartialOrdSpec::partial_cmp_spec(&b, &c) == Some(Ordering::Less),
    ensures
        PartialOrdSpec::partial_cmp_spec(&a, &c) == Some(Ordering::Less),
{
    lemma_lex_less_transitive(a.bytes(), b.bytes(), c.bytes());
    lemma_lex_less_irreflexive(a.bytes());
}

} // verus!
