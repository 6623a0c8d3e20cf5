//! The standard library's UTF-8 primitives, with the contracts that the rest
//! of the crate relies on.

use crate::error::Utf8Error;
use vstd::prelude::*;
use vstd::string::StringSliceAdditionalSpecFns;
use vstd::utf8::*;

verus! {

/// Number of bytes in the UTF-8 encoding of `c`.
pub open spec fn utf8_len(c: char) -> nat {
    encode_scalar(c as u32).len()
}

/// `at` is the length of the longest prefix of `bytes` that is valid UTF-8,
/// and that prefix is not all of `bytes`.
pub open spec fn valid_up_to(bytes: Seq<u8>, at: int) -> bool {
    &&& 0 <= at < bytes.len()
    &&& valid_utf8(bytes.subrange(0, at))
    &&& forall|j: int| at < j <= bytes.len() ==> !valid_utf8(#[trigger] bytes.subrange(0, j))
}

/// The length that the standard library's validator reports for the first
/// byte sequence of `bytes` that is not UTF-8.
pub uninterp spec fn invalid_sequence_len(bytes: Seq<u8>) -> Option<usize>;

/// `e` is the error that validation reports for `bytes`.
pub open spec fn describes(e: Utf8Error, bytes: Seq<u8>) -> bool {
    &&& valid_up_to(bytes, e.valid_up_to() as int)
    &&& e.error_len() == invalid_sequence_len(bytes)
    &&& match e.error_len() {
        None => 1 <= bytes.len() - e.valid_up_to() <= 3,
        Some(n) => 1 <= n && e.valid_up_to() + n <= bytes.len(),
    }
}

/// `char::len_utf8` returns the number of bytes that the character takes when
/// encoded as UTF-8.
pub assume_specification[ char::len_utf8 ](c: char) -> (n: usize)
    ensures
        n == utf8_len(c),
;

/// `Box<str>::from` on a string slice copies the slice into a new box: the
/// box holds the same text.
pub assume_specification<'a>[ <Box<str> as From<&str>>::from ](s: &str) -> (b: Box<str>)
    ensures
        b@ == s@,
;

/// Calls `char::encode_utf8` on a four-byte buffer, which is large enough for
/// any character. The standard library writes the encoding of `c` at the
/// start of the buffer and returns that part; the wrapper hands back its
/// length.
#[verifier::external_body]
pub(crate) fn encode_char(c: char, buf: &mut [u8; 4]) -> (n: usize)
    ensures
        n == utf8_len(c),
        final(buf)@.subrange(0, n as int) == encode_scalar(c as u32),
{
    c.encode_utf8(buf).len()
}

/// Calls `core::str::from_utf8`. It succeeds exactly on valid UTF-8, and the
/// string it returns is made of the bytes it was given. On failure the error's
/// `valid_up_to` is the greatest index up to which the input is valid, and
/// its `error_len` is `None` where the input ends one to three bytes into a
/// character, else the length of the offending sequence, which lies inside
/// the input.
#[verifier::external_body]
pub(crate) fn str_from_utf8<'a>(v: &'a [u8]) -> (r: Result<&'a str, Utf8Error>)
    ensures
        r is Ok <==> valid_utf8(v@),
        r matches Ok(s) ==> s.spec_bytes() == v@,
        r matches Err(e) ==> e.error_len() == invalid_sequence_len(v@),
        r matches Err(e) ==> describes(e, v@),
{
    match core::str::from_utf8(v) {
        Ok(s) => Ok(s),
        Err(e) => Err(Utf8Error::new(e.valid_up_to(), e.error_len())),
    }
}

/// Checks that `v` is valid UTF-8.
pub fn run_utf8_validation(v: &[u8]) -> (r: Result<(), Utf8Error>)
    ensures
        r is Ok <==> valid_utf8(v@),
        r matches Err(e) ==> describes(e, v@),
{
    match str_from_utf8(v) {
        Ok(_) => Ok(()),
        Err(e) => Err(e),
    }
}

} // verus!
