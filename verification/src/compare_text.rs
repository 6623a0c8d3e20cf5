//! Equality and order between `Str` and the standard string types, in both
//! directions. Each compares the text, and orders it byte by byte.

use crate::compare::{order_against, order_of, order_with, same_text};
use crate::convert::cow_as_str;
use crate::fixed::Str;
use core::cmp::Ordering;
use std::borrow::Cow;
use vstd::prelude::*;
use vstd::std_specs::cmp::{PartialEqSpecImpl, PartialOrdSpecImpl};
use vstd::utf8::*;

verus! {

impl<const N: usize> PartialEq<str> for Str<N> {
    /// Whether the string holds the same text as a string slice.
    fn eq(&self, other: &str) -> (r: bool) {
        same_text(self, other)
    }
}

impl<const N: usize> PartialEqSpecImpl<str> for Str<N> {
    open spec fn obeys_eq_spec() -> bool {
        true
    }

    open spec fn eq_spec(&self, other: &str) -> bool {
        self@ == other@
    }
}

impl<const N: usize> PartialEq<Str<N>> for str {
    /// Whether a string slice holds the same text as the string.
    fn eq(&self, other: &Str<N>) -> (r: bool) {
        same_text(other, self)
    }
}

impl<const N: usize> PartialEqSpecImpl<Str<N>> for str {
    open spec fn obeys_eq_spec() -> bool {
        true
    }

    open spec fn eq_spec(&self, other: &Str<N>) -> bool {
        self@ == other@
    }
}

impl<const N: usize> PartialOrd<str> for Str<N> {
    /// How the string orders against a string slice.
    fn partial_cmp(&self, other: &str) -> (r: Option<Ordering>) {
        order_with(self, other)
    }
}

impl<const N: usize> PartialOrdSpecImpl<str> for Str<N> {
    open spec fn obeys_partial_cmp_spec() -> bool {
        true
    }

    open spec fn partial_cmp_spec(&self, other: &str) -> Option<Ordering> {
        order_of(self.bytes(), encode_utf8(other@))
    }
}

impl<const N: usize> PartialOrd<Str<N>> for str {
    /// How a string slice orders against the string.
    fn partial_cmp(&self, other: &Str<N>) -> (r: Option<Ordering>) {
        order_against(self, other)
    }
}

impl<const N: usize> PartialOrdSpecImpl<Str<N>> for str {
    open spec fn obeys_partial_cmp_spec() -> bool {
        true
    }

    open spec fn partial_cmp_spec(&self, other: &Str<N>) -> Option<Ordering> {
        order_of(encode_utf8(self@), other.bytes())
    }
}

impl<'a, const N: usize> PartialEq<&'a str> for Str<N> {
    /// Whether the string holds the same text as a borrowed string slice.
    fn eq(&self, other: &&'a str) -> (r: bool) {
        same_text(self, *other)
    }
}

impl<'a, const N: usize> PartialEqSpecImpl<&'a str> for Str<N> {
    open spec fn obeys_eq_spec() -> bool {
        true
    }

    open spec fn eq_spec(&self, other: &&'a str) -> bool {
        self@ == other@
    }
}

impl<'a, const N: usize> PartialEq<Str<N>> for &'a str {
    /// Whether a borrowed string slice holds the same text as the string.
    fn eq(&self, other: &Str<N>) -> (r: bool) {
        same_text(other, *self)
    }
}

impl<'a, const N: usize> PartialEqSpecImpl<Str<N>> for &'a str {
    open spec fn obeys_eq_spec() -> bool {
        true
    }

    open spec fn eq_spec(&self, other: &Str<N>) -> bool {
        self@ == other@
    }
}

impl<'a, const N: usize> PartialOrd<&'a str> for Str<N> {
    /// How the string orders against a borrowed string slice.
    fn partial_cmp(&self, other: &&'a str) -> (r: Option<Ordering>) {
        order_with(self, *other)
    }
}

impl<'a, const N: usize> PartialOrdSpecImpl<&'a str> for Str<N> {
    open spec fn obeys_partial_cmp_spec() -> bool {
        true
    }

    open spec fn partial_cmp_spec(&self, other: &&'a str) -> Option<Ordering> {
        order_of(self.bytes(), encode_utf8(other@))
    }
}

impl<'a, const N: usize> PartialOrd<Str<N>> for &'a str {
    /// How a borrowed string slice orders against the string.
    fn partial_cmp(&self, other: &Str<N>) -> (r: Option<Ordering>) {
        order_against(*self, other)
    }
}

impl<'a, const N: usize> PartialOrdSpecImpl<Str<N>> for &'a str {
    open spec fn obeys_partial_cmp_spec() -> bool {
        true
    }

    open spec fn partial_cmp_spec(&self, other: &Str<N>) -> Option<Ordering> {
        order_of(encode_utf8(self@), other.bytes())
    }
}

impl<const N: usize> PartialEq<String> for Str<N> {
    /// Whether the string holds the same text as an owned string.
    fn eq(&self, other: &String) -> (r: bool) {
        same_text(self, other.as_str())
    }
}

impl<const N: usize> PartialEqSpecImpl<String> for Str<N> {
    open spec fn obeys_eq_spec() -> bool {
        true
    }

    open spec fn eq_spec(&self, other: &String) -> bool {
        self@ == other@
    }
}

impl<const N: usize> PartialEq<Str<N>> for String {
    /// Whether an owned string holds the same text as the string.
    fn eq(&self, other: &Str<N>) -> (r: bool) {
        same_text(other, self.as_str())
    }
}

impl<const N: usize> PartialEqSpecImpl<Str<N>> for String {
    open spec fn obeys_eq_spec() -> bool {
        true
    }

    open spec fn eq_spec(&self, other: &Str<N>) -> bool {
        self@ == other@
    }
}

impl<const N: usize> PartialOrd<String> for Str<N> {
    /// How the string orders against an owned string.
    fn partial_cmp(&self, other: &String) -> (r: Option<Ordering>) {
        order_with(self, other.as_str())
    }
}

impl<const N: usize> PartialOrdSpecImpl<String> for Str<N> {
    open spec fn obeys_partial_cmp_spec() -> bool {
        true
    }

    open spec fn partial_cmp_spec(&self, other: &String) -> Option<Ordering> {
        order_of(self.bytes(), encode_utf8(other@))
    }
}

impl<const N: usize> PartialOrd<Str<N>> for String {
    /// How an owned string orders against the string.
    fn partial_cmp(&self, other: &Str<N>) -> (r: Option<Ordering>) {
        order_against(self.as_str(), other)
    }
}

impl<const N: usize> PartialOrdSpecImpl<Str<N>> for String {
    open spec fn obeys_partial_cmp_spec() -> bool {
        true
    }

    open spec fn partial_cmp_spec(&self, other: &Str<N>) -> Option<Ordering> {
        order_of(encode_utf8(self@), other.bytes())
    }
}

impl<'a, const N: usize> PartialEq<&'a String> for Str<N> {
    /// Whether the string holds the same text as a borrowed owned string.
    fn eq(&self, other: &&'a String) -> (r: bool) {
        same_text(self, other.as_str())
    }
}

impl<'a, const N: usize> PartialEqSpecImpl<&'a String> for Str<N> {
    open spec fn obeys_eq_spec() -> bool {
        true
    }

    open spec fn eq_spec(&self, other: &&'a String) -> bool {
        self@ == other@
    }
}

impl<'a, const N: usize> PartialEq<Str<N>> for &'a String {
    /// Whether a borrowed owned string holds the same text as the string.
    fn eq(&self, other: &Str<N>) -> (r: bool) {
        same_text(other, self.as_str())
    }
}

impl<'a, const N: usize> PartialEqSpecImpl<Str<N>> for &'a String {
    open spec fn obeys_eq_spec() -> bool {
        true
    }

    open spec fn eq_spec(&self, other: &Str<N>) -> bool {
        self@ == other@
    }
}

impl<'a, const N: usize> PartialOrd<&'a String> for Str<N> {
    /// How the string orders against a borrowed owned string.
    fn partial_cmp(&self, other: &&'a String) -> (r: Option<Ordering>) {
        order_with(self, other.as_str())
    }
}

impl<'a, const N: usize> PartialOrdSpecImpl<&'a String> for Str<N> {
    open spec fn obeys_partial_cmp_spec() -> bool {
        true
    }

    open spec fn partial_cmp_spec(&self, other: &&'a String) -> Option<Ordering> {
        order_of(self.bytes(), encode_utf8(other@))
    }
}

impl<'a, const N: usize> PartialOrd<Str<N>> for &'a String {
    /// How a borrowed owned string orders against the string.
    fn partial_cmp(&self, other: &Str<N>) -> (r: Option<Ordering>) {
        order_against(self.as_str(), other)
    }
}

impl<'a, const N: usize> PartialOrdSpecImpl<Str<N>> for &'a String {
    open spec fn obeys_partial_cmp_spec() -> bool {
        true
    }

    open spec fn partial_cmp_spec(&self, other: &Str<N>) -> Option<Ordering> {
        order_of(encode_utf8(self@), other.bytes())
    }
}

impl<const N: usize> PartialEq<Box<str>> for Str<N> {
    /// Whether the string holds the same text as a boxed string.
    fn eq(&self, other: &Box<str>) -> (r: bool) {
        same_text(self, &**other)
    }
}

impl<const N: usize> PartialEqSpecImpl<Box<str>> for Str<N> {
    open spec fn obeys_eq_spec() -> bool {
        true
    }

    open spec fn eq_spec(&self, other: &Box<str>) -> bool {
        self@ == other@
    }
}

impl<const N: usize> PartialEq<Str<N>> for Box<str> {
    /// Whether a boxed string holds the same text as the string.
    fn eq(&self, other: &Str<N>) -> (r: bool) {
        same_text(other, &**self)
    }
}

impl<const N: usize> PartialEqSpecImpl<Str<N>> for Box<str> {
    open spec fn obeys_eq_spec() -> bool {
        true
    }

    open spec fn eq_spec(&self, other: &Str<N>) -> bool {
        self@ == other@
    }
}

impl<const N: usize> PartialOrd<Box<str>> for Str<N> {
    /// How the string orders against a boxed string.
    fn partial_cmp(&self, other: &Box<str>) -> (r: Option<Ordering>) {
        order_with(self, &**other)
    }
}

impl<const N: usize> PartialOrdSpecImpl<Box<str>> for Str<N> {
    open spec fn obeys_partial_cmp_spec() -> bool {
        true
    }

    open spec fn partial_cmp_spec(&self, other: &Box<str>) -> Option<Ordering> {
        order_of(self.bytes(), encode_utf8(other@))
    }
}

impl<const N: usize> PartialOrd<Str<N>> for Box<str> {
    /// How a boxed string orders against the string.
    fn partial_cmp(&self, other: &Str<N>) -> (r: Option<Ordering>) {
        order_against(&**self, other)
    }
}

impl<const N: usize> PartialOrdSpecImpl<Str<N>> for Box<str> {
    open spec fn obeys_partial_cmp_spec() -> bool {
        true
    }

    open spec fn partial_cmp_spec(&self, other: &Str<N>) -> Option<Ordering> {
        order_of(encode_utf8(self@), other.bytes())
    }
}

impl<'a, const N: usize> PartialEq<Cow<'a, str>> for Str<N> {
    /// Whether the string holds the same text as a copy-on-write string.
    fn eq(&self, other: &Cow<'a, str>) -> (r: bool) {
        same_text(self, cow_as_str(other))
    }
}

impl<'a, const N: usize> PartialEqSpecImpl<Cow<'a, str>> for Str<N> {
    open spec fn obeys_eq_spec() -> bool {
        true
    }

    open spec fn eq_spec(&self, other: &Cow<'a, str>) -> bool {
        self@ == other@
    }
}

impl<'a, const N: usize> PartialEq<Str<N>> for Cow<'a, str> {
    /// Whether a copy-on-write string holds the same text as the string.
    fn eq(&self, other: &Str<N>) -> (r: bool) {
        same_text(other, cow_as_str(self))
    }
}

impl<'a, const N: usize> PartialEqSpecImpl<Str<N>> for Cow<'a, str> {
    open spec fn obeys_eq_spec() -> bool {
        true
    }

    open spec fn eq_spec(&self, other: &Str<N>) -> bool {
        self@ == other@
    }
}

impl<'a, const N: usize> PartialOrd<Cow<'a, str>> for Str<N> {
    /// How the string orders against a copy-on-write string.
    fn partial_cmp(&self, other: &Cow<'a, str>) -> (r: Option<Ordering>) {
        order_with(self, cow_as_str(other))
    }
}

impl<'a, const N: usize> PartialOrdSpecImpl<Cow<'a, str>> for Str<N> {
    open spec fn obeys_partial_cmp_spec() -> bool {
        true
    }

    open spec fn partial_cmp_spec(&self, other: &Cow<'a, str>) -> Option<Ordering> {
        order_of(self.bytes(), encode_utf8(other@))
    }
}

impl<'a, const N: usize> PartialOrd<Str<N>> for Cow<'a, str> {
    /// How a copy-on-write string orders against the string.
    fn partial_cmp(&self, other: &Str<N>) -> (r: Option<Ordering>) {
        order_against(cow_as_str(self), other)
    }
}

impl<'a, const N: usize> PartialOrdSpecImpl<Str<N>> for Cow<'a, str> {
    open spec fn obeys_partial_cmp_spec() -> bool {
        true
    }

    open spec fn partial_cmp_spec(&self, other: &Str<N>) -> Option<Ordering> {
        order_of(encode_utf8(self@), other.bytes())
    }
}

} // verus!
