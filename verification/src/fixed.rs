//! `Str<N>`: exactly `N` bytes of valid UTF-8, stored inline.

use crate::codec::{describes, run_utf8_validation, str_from_utf8};
use crate::error::{InvalidLength, Utf8Error};
use vstd::prelude::*;
use vstd::string::StringSliceAdditionalSpecFns;
use vstd::utf8::*;

verus! {

/// A string of exactly `N` bytes. Every value holds valid UTF-8.
///
/// The derived `Debug` and `Hash` go over the stored bytes: `Debug` shows the
/// byte array, and the hash is that of `[u8; N]`, not that of the text. For
/// either of the text, take `as_str()` and format or hash the string slice.
/// The derived `Ord` orders the byte arrays, which is the order of the text.
#[derive(Copy, Clone, Debug, Ord, Hash)]
pub struct Str<const N: usize> {
    v: [u8; N],
}

impl<const N: usize> View for Str<N> {
    type V = Seq<char>;

    /// The text: the characters that the bytes encode.
    open spec fn view(&self) -> Seq<char> {
        decode_utf8(self.bytes())
    }
}

impl<const N: usize> Str<N> {
    /// The stored bytes.
    pub closed spec fn bytes(&self) -> Seq<u8> {
        self.v@
    }

    /// The bytes are valid UTF-8. Holds of every value that executable code
    /// can reach.
    #[verifier::type_invariant]
    pub open spec fn wf(&self) -> bool {
        valid_utf8(self.bytes())
    }

    /// There are always `N` bytes.
    pub proof fn lemma_bytes_len(&self)
        ensures
            self.bytes().len() == N,
    {
    }

    /// Two strings of one length with the same bytes are the same value.
    pub proof fn lemma_bytes_determine(&self, other: &Self)
        requires
            self.bytes() == other.bytes(),
        ensures
            *self == *other,
    {
        assert(self.v =~= other.v);
    }

    /// The text encodes to the stored bytes.
    pub proof fn lemma_view_encodes(&self)
        requires
            self.wf(),
        ensures
            encode_utf8(self@) == self.bytes(),
    {
        decode_utf8_encode_utf8(self.bytes());
    }

    /// The whole string as a string slice. The standard library's validation
    /// runs over the stored bytes and, by the invariant, succeeds.
    pub fn as_str(&self) -> (s: &str)
        ensures
            s@ == self@,
            s.spec_bytes() == self.bytes(),
    {
        proof {
            use_type_invariant(self);
        }
        match str_from_utf8(&self.v) {
            Ok(s) => {
                proof {
                    encode_utf8_decode_utf8(s@);
                }
                s
            },
            Err(_) => "",
        }
    }

    /// The whole string as a mutable string slice. Calls
    /// `core::str::from_utf8_mut` on the stored bytes, which are valid, so the
    /// slice it returns is made of them. Whatever the caller writes through
    /// the slice is the string's text afterwards: a string slice holds valid
    /// UTF-8 and cannot change its length.
    #[verifier::external_body]
    pub fn as_mut_str(&mut self) -> (s: &mut str)
        ensures
            s@ == old(self)@,
            final(self).bytes() == final(s).spec_bytes(),
            final(self)@ == final(s)@,
    {
        core::str::from_utf8_mut(&mut self.v).unwrap_or_default()
    }

    /// Gives up the string for its bytes.
    pub fn into_bytes(self) -> (b: [u8; N])
        ensures
            b@ == self.bytes(),
            valid_utf8(b@),
    {
        proof {
            use_type_invariant(&self);
        }
        self.v
    }

    /// The bytes of the string.
    pub fn as_bytes(&self) -> (b: &[u8])
        ensures
            b@ == self.bytes(),
            valid_utf8(b@),
    {
        proof {
            use_type_invariant(self);
        }
        &self.v
    }

    /// Length in bytes: always `N`.
    pub fn len(&self) -> (n: usize)
        ensures
            n == N,
            n == self.bytes().len(),
    {
        N
    }

    /// Whether the string has no bytes, that is whether `N` is zero.
    pub fn is_empty(&self) -> (b: bool)
        ensures
            b <==> N == 0,
            b <==> self@.len() == 0,
    {
        proof {
            use_type_invariant(self);
            self.lemma_view_encodes();
            if self@.len() != 0 {
                encode_utf8_first_scalar(self@);
            }
        }
        self.len() == 0
    }

    /// Makes a string of bytes that must be UTF-8. Fails exactly when they are
    /// not, with the position of the first offending sequence.
    pub fn from_utf8(v: [u8; N]) -> (r: Result<Self, Utf8Error>)
        ensures
            r is Ok <==> valid_utf8(v@),
            r matches Ok(s) ==> s.bytes() == v@,
            r matches Err(e) ==> describes(e, v@),
    {
        match run_utf8_validation(&v) {
            Ok(()) => Ok(Str { v }),
            Err(e) => Err(e),
        }
    }

    /// Makes a string of bytes that the caller knows to be UTF-8, without
    /// scanning them.
    pub fn from_utf8_unchecked(v: [u8; N]) -> (s: Self)
        requires
            valid_utf8(v@),
        ensures
            s.bytes() == v@,
    {
        Str { v }
    }

    /// Copies a string slice of exactly `N` bytes. Fails exactly when the
    /// slice has another length, reporting `N` and the length it has.
    pub fn try_new(text: &str) -> (r: Result<Self, InvalidLength>)
        ensures
            r is Ok <==> text.spec_bytes().len() == N,
            r matches Ok(s) ==> s.bytes() == text.spec_bytes() && s@ == text@,
            r matches Err(e) ==> e.expected() == N && e.actual() == text.spec_bytes().len(),
    {
        let bytes = text.as_bytes();
        if bytes.len() != N {
            return Err(InvalidLength::new(N, bytes.len()));
        }
        let mut array = [0u8; N];
        let mut i: usize = 0;
        while i < N
            invariant
                i <= N,
                bytes@.len() == N,
                forall|j: int| 0 <= j < i ==> array@[j] == bytes@[j],
            decreases N - i,
        {
            array[i] = bytes[i];
            i += 1;
        }
        proof {
            assert(array@ =~= bytes@);
            encode_utf8_valid_utf8(text@);
            encode_utf8_decode_utf8(text@);
        }
        Ok(Self::from_utf8_unchecked(array))
    }
}

} // verus!
