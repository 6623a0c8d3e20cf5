//! Error values returned by the constructors.

use crate::text::{decimal, decimal_string};
use vstd::prelude::*;
use vstd::string::StringExecFns;

verus! {

/// The input did not have the byte length that the target type requires.
#[derive(Copy, Clone, Debug, PartialEq, Eq, Structural)]
pub struct InvalidLength {
    expected: usize,
    actual: usize,
}

impl InvalidLength {
    /// Builds the error for an input of `actual` bytes where `expected` were required.
    pub fn new(expected: usize, actual: usize) -> (e: Self)
        ensures
            e.expected() == expected,
            e.actual() == actual,
    {
        InvalidLength { expected, actual }
    }

    /// The byte length that the target type requires.
    pub closed spec fn spec_expected(&self) -> usize {
        self.expected
    }

    /// The byte length that the input had.
    pub closed spec fn spec_actual(&self) -> usize {
        self.actual
    }

    /// The byte length that the target type requires.
    #[verifier::when_used_as_spec(spec_expected)]
    pub fn expected(&self) -> (n: usize)
        ensures
            n == self.expected(),
    {
        self.expected
    }

    /// The byte length that the input had, or `usize::MAX` where it could not
    /// be counted.
    #[verifier::when_used_as_spec(spec_actual)]
    pub fn actual(&self) -> (n: usize)
        ensures
            n == self.actual(),
    {
        self.actual
    }

    /// The text of the message for the given lengths.
    pub open spec fn message(expected: usize, actual: usize) -> Seq<char> {
        "Expected string with "@ + decimal(expected as nat) + " bytes, but got "@ + decimal(
            actual as nat,
        )
    }

    /// The error as a message for people.
    pub fn to_string(&self) -> (s: String)
        ensures
            s@ == Self::message(self.expected(), self.actual()),
    {
        let mut s = String::from_str("Expected string with ");
        s.append(decimal_string(self.expected).as_str());
        s.append(" bytes, but got ");
        s.append(decimal_string(self.actual).as_str());
        s
    }
}

/// The input was not UTF-8: where the valid part ends, and how long the
/// offending byte sequence is.
#[derive(Copy, Clone, Debug, PartialEq, Eq, Structural)]
pub struct Utf8Error {
    valid_up_to: usize,
    error_len: Option<usize>,
}

impl Utf8Error {
    /// Builds the error for an input that is valid up to `valid_up_to` and
    /// whose offending sequence has the given length.
    pub fn new(valid_up_to: usize, error_len: Option<usize>) -> (e: Self)
        ensures
            e.valid_up_to() == valid_up_to,
            e.error_len() == error_len,
    {
        Utf8Error { valid_up_to, error_len }
    }

    /// Length of the longest prefix of the input that is valid UTF-8.
    pub closed spec fn spec_valid_up_to(&self) -> usize {
        self.valid_up_to
    }

    /// Length of the offending byte sequence; `None` where the input ends in
    /// the middle of a character.
    pub closed spec fn spec_error_len(&self) -> Option<usize> {
        self.error_len
    }

    /// Length of the longest prefix of the input that is valid UTF-8.
    #[verifier::when_used_as_spec(spec_valid_up_to)]
    pub fn valid_up_to(&self) -> (n: usize)
        ensures
            n == self.valid_up_to(),
    {
        self.valid_up_to
    }

    /// Length of the offending byte sequence; `None` where the input ends in
    /// the middle of a character.
    #[verifier::when_used_as_spec(spec_error_len)]
    pub fn error_len(&self) -> (n: Option<usize>)
        ensures
            n == self.error_len(),
    {
        self.error_len
    }
}

} // verus!
