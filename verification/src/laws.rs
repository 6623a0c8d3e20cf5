//! What holds of the constructors taken together.

use crate::error::Utf8Error;
use crate::fixed::Str;
use vstd::prelude::*;
use vstd::utf8::*;

verus! {

/// Bytes round trip: what `into_bytes` gives of a string is accepted by
/// `from_utf8`, and the string that `from_utf8` makes of it, which holds those
/// bytes, is the string that was given up.
pub proof fn lemma_bytes_round_trip<const N: usize>(s: Str<N>, bytes: [u8; N], again: Str<N>)
    requires
        s.wf(),
        bytes@ == s.bytes(),
        again.bytes() == bytes@,
    ensures
        valid_utf8(bytes@),
        again == s,
        again@ == s@,
{
    again.lemma_bytes_determine(&s);
}

/// On bytes that are valid UTF-8, `from_utf8_unchecked` returns what
/// `from_utf8` returns: `checked` stands for any result that meets the
/// contract of `from_utf8` on `v`, `unchecked` for any that meets that of
/// `from_utf8_unchecked`.
pub proof fn lemma_unchecked_agrees_with_checked<const N: usize>(
    v: [u8; N],
    checked: Result<Str<N>, Utf8Error>,
    unchecked: Str<N>,
)
    requires
        valid_utf8(v@),
        checked is Ok <==> valid_utf8(v@),
        checked matches Ok(s) ==> s.bytes() == v@,
        unchecked.bytes() == v@,
    ensures
        checked == Ok::<Str<N>, Utf8Error>(unchecked),
{
    checked->Ok_0.lemma_bytes_determine(&unchecked);
}

/// Text round trip: a valid string's bytes are the encoding of its text, and
/// its text is what those bytes decode to.
pub proof fn lemma_text_round_trip<const N: usize>(s: Str<N>)
    requires
        s.wf(),
    ensures
        encode_utf8(s@) == s.bytes(),
        decode_utf8(encode_utf8(s@)) == s@,
        valid_utf8(encode_utf8(s@)),
{
    s.lemma_view_encodes();
}

} // verus!
