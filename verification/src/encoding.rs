//! Facts about the UTF-8 encoding of character sequences.

use crate::codec::utf8_len;
use vstd::prelude::*;
use vstd::utf8::*;

verus! {

/// Number of bytes in the UTF-8 encoding of `chars`.
pub open spec fn encoded_len(chars: Seq<char>) -> nat {
    encode_utf8(chars).len()
}

/// A character takes one to four bytes.
pub proof fn lemma_utf8_len_bounds(c: char)
    ensures
        1 <= utf8_len(c) <= 4,
{
}

/// A character below U+0080 is encoded as the one byte of the same value.
pub proof fn lemma_encode_ascii(c: char)
    requires
        utf8_len(c) == 1,
    ensures
        (c as u32) < 0x80,
        encode_scalar(c as u32) == seq![c as u8],
{
    let s = c as u32;
    assert(has_width_1_encoding(s));
    assert(s as u8 == leading_byte_width_1(s)) by (bit_vector)
        requires
            has_width_1_encoding(s),
    ;
}

/// A single character encodes to its scalar's encoding.
pub proof fn lemma_encode_one(c: char)
    ensures
        encode_utf8(seq![c]) == encode_scalar(c as u32),
{
    reveal_with_fuel(encode_utf8, 2);
    assert(seq![c].drop_first() =~= Seq::<char>::empty());
    assert(encode_scalar(c as u32) + Seq::<u8>::empty() =~= encode_scalar(c as u32));
}

/// Encoding distributes over concatenation.
pub proof fn lemma_encode_concat(a: Seq<char>, b: Seq<char>)
    ensures
        encode_utf8(a + b) == encode_utf8(a) + encode_utf8(b),
    decreases a.len(),
{
    if a.len() == 0 {
        assert(a + b =~= b);
        assert(encode_utf8(a) + encode_utf8(b) =~= encode_utf8(b));
    } else {
        assert((a + b).drop_first() =~= a.drop_first() + b);
        lemma_encode_concat(a.drop_first(), b);
        assert(encode_utf8(a + b) =~= encode_utf8(a) + encode_utf8(b));
    }
}

/// Appending a character appends its encoding.
pub proof fn lemma_encode_push(s: Seq<char>, c: char)
    ensures
        encode_utf8(s.push(c)) == encode_utf8(s) + encode_scalar(c as u32),
        encoded_len(s.push(c)) == encoded_len(s) + utf8_len(c),
{
    lemma_encode_concat(s, seq![c]);
    lemma_encode_one(c);
    assert(s.push(c) =~= s + seq![c]);
}

/// A prefix never encodes to more bytes than the whole.
pub proof fn lemma_encoded_len_prefix(a: Seq<char>, b: Seq<char>)
    ensures
        encoded_len(a + b) == encoded_len(a) + encoded_len(b),
        encoded_len(a) <= encoded_len(a + b),
{
    lemma_encode_concat(a, b);
}

/// Appending a character's encoding to valid UTF-8 gives valid UTF-8 that
/// decodes to the old text followed by that character.
pub proof fn lemma_decode_push(bytes: Seq<u8>, c: char)
    requires
        valid_utf8(bytes),
    ensures
        valid_utf8(bytes + encode_scalar(c as u32)),
        decode_utf8(bytes + encode_scalar(c as u32)) == decode_utf8(bytes).push(c),
{
    let s = decode_utf8(bytes);
    decode_utf8_encode_utf8(bytes);
    lemma_encode_push(s, c);
    encode_utf8_valid_utf8(s.push(c));
    encode_utf8_decode_utf8(s.push(c));
}

} // verus!
