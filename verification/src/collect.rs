//! Collecting characters into a `Str<N>`: the text must encode to exactly `N`
//! bytes.

use crate::codec::{encode_char, utf8_len};
use crate::encoding::{
    encoded_len, lemma_decode_push, lemma_encode_ascii, lemma_encode_push,
    lemma_encoded_len_prefix, lemma_utf8_len_bounds,
};
use crate::error::InvalidLength;
use crate::fixed::Str;
use vstd::prelude::*;
use vstd::std_specs::iter::IteratorSpec;
use vstd::utf8::*;

verus! {

/// The outcome of collecting characters into a `Str<N>`.
#[derive(Debug, Clone, Copy, PartialEq, Eq, PartialOrd, Ord, Hash)]
pub enum TryStr<const N: usize> {
    /// The characters encoded to exactly `N` bytes.
    Valid(Str<N>),
    /// They encoded to fewer or to more.
    InvalidLength,
}

impl<const N: usize> TryStr<N> {
    /// The string, where there is one.
    pub fn unwrap(self) -> (s: Str<N>)
        requires
            self is Valid,
        ensures
            self == TryStr::Valid(s),
    {
        match self {
            TryStr::Valid(t) => t,
            TryStr::InvalidLength => unreached(),
        }
    }

    /// Whether the collection succeeded.
    pub fn is_ok(&self) -> (b: bool)
        ensures
            b <==> self is Valid,
    {
        matches!(*self, TryStr::Valid(_))
    }

    /// Whether the collection failed.
    pub fn is_err(&self) -> (b: bool)
        ensures
            b <==> self is InvalidLength,
    {
        matches!(*self, TryStr::InvalidLength)
    }

    /// The outcome as a `Result`. How many bytes the characters would have
    /// taken is not known, so the error carries `usize::MAX` for it.
    pub fn into_result(self) -> (r: Result<Str<N>, InvalidLength>)
        ensures
            self matches TryStr::Valid(s) ==> r == Ok::<Str<N>, InvalidLength>(s),
            self is InvalidLength ==> r is Err,
            r matches Err(e) ==> e.expected() == N && e.actual() == usize::MAX,
    {
        match self {
            TryStr::Valid(t) => Ok(t),
            TryStr::InvalidLength => Err(InvalidLength::new(N, usize::MAX)),
        }
    }

    /// Collects the characters that `iter` yields, in one pass and without
    /// allocating. The outcome is a string exactly when all of them together
    /// encode to `N` bytes; the string then holds that text. The pass stops at
    /// the first character that no longer fits, so it ends on an iterator that
    /// never does.
    ///
    /// What is said of the whole sequence holds for iterators that keep the
    /// iterator laws; of any iterator it holds that a string that comes out
    /// is valid UTF-8.
    pub fn from_iter<I: Iterator<Item = char>>(iter: I) -> (r: Self)
        ensures
            r matches TryStr::Valid(s) ==> s.wf(),
            iter.obeys_prophetic_iter_laws() ==> (r is Valid <==> encoded_len(iter.remaining())
                == N),
            iter.obeys_prophetic_iter_laws() ==> (r matches TryStr::Valid(s) ==> s@
                == iter.remaining() && s.bytes() == encode_utf8(iter.remaining())),
    {
        let mut it = iter;
        let mut c = Collector::<N>::new();
        loop
            invariant
                c.cursor() <= N,
                it.obeys_prophetic_iter_laws() == iter.obeys_prophetic_iter_laws(),
                iter.obeys_prophetic_iter_laws() ==> c@ + it.remaining() == iter.remaining(),
            decreases N - c.cursor(),
        {
            proof {
                use_type_invariant(&c);
                c.lemma_wf();
            }
            let ghost rest = it.remaining();
            match it.next() {
                None => {
                    proof {
                        if iter.obeys_prophetic_iter_laws() {
                            assert(c@ + rest =~= c@);
                        }
                    }
                    return c.finish();
                },
                Some(ch) => {
                    let ghost taken = c@;
                    if !c.push(ch) {
                        proof {
                            if iter.obeys_prophetic_iter_laws() {
                                lemma_encode_push(taken, ch);
                                assert(taken + rest =~= taken.push(ch) + rest.drop_first());
                                lemma_encoded_len_prefix(taken.push(ch), rest.drop_first());
                            }
                        }
                        return TryStr::InvalidLength;
                    }
                    proof {
                        if iter.obeys_prophetic_iter_laws() {
                            assert(taken + rest =~= taken.push(ch) + rest.drop_first());
                        }
                    }
                },
            }
        }
    }

    /// Collects the characters of a slice: a string exactly when they encode
    /// to `N` bytes, and then the string holds that text.
    pub fn from_chars(chars: &[char]) -> (r: Self)
        ensures
            r is Valid <==> encoded_len(chars@) == N,
            r matches TryStr::Valid(s) ==> s@ == chars@ && s.bytes() == encode_utf8(chars@),
            r matches TryStr::Valid(s) ==> s.wf(),
    {
        let mut c = Collector::<N>::new();
        let mut i: usize = 0;
        while i < chars.len()
            invariant
                i <= chars@.len(),
                c@ == chars@.take(i as int),
            decreases chars@.len() - i,
        {
            proof {
                use_type_invariant(&c);
                c.lemma_wf();
                assert(chars@.take(i + 1) =~= chars@.take(i as int).push(chars@[i as int]));
            }
            if !c.push(chars[i]) {
                proof {
                    lemma_encode_push(chars@.take(i as int), chars@[i as int]);
                    assert(chars@ =~= chars@.take(i + 1) + chars@.skip(i + 1));
                    lemma_encoded_len_prefix(chars@.take(i + 1), chars@.skip(i + 1));
                }
                return TryStr::InvalidLength;
            }
            i += 1;
        }
        proof {
            use_type_invariant(&c);
            c.lemma_wf();
            assert(chars@.take(i as int) =~= chars@);
        }
        c.finish()
    }
}

/// The state of a collection under way: a buffer of `N` bytes and how many of
/// them have been written. What has been written is always whole characters.
pub struct Collector<const N: usize> {
    buf: [u8; N],
    len: usize,
}

impl<const N: usize> View for Collector<N> {
    type V = Seq<char>;

    /// The characters taken so far.
    open spec fn view(&self) -> Seq<char> {
        decode_utf8(self.written())
    }
}

impl<const N: usize> Collector<N> {
    /// The bytes written so far.
    pub closed spec fn written(&self) -> Seq<u8> {
        self.buf@.subrange(0, self.len as int)
    }

    /// How many bytes have been written.
    pub open spec fn cursor(&self) -> nat {
        self.written().len()
    }

    /// The cursor is within the buffer and what has been written is valid
    /// UTF-8. Holds of every value that executable code can reach.
    #[verifier::type_invariant]
    pub closed spec fn wf(&self) -> bool {
        &&& self.len <= N
        &&& valid_utf8(self.written())
    }

    /// What well-formedness says of the bytes written.
    pub proof fn lemma_wf(&self)
        requires
            self.wf(),
        ensures
            self.cursor() <= N,
            valid_utf8(self.written()),
            encode_utf8(self@) == self.written(),
            encoded_len(self@) == self.cursor(),
    {
        decode_utf8_encode_utf8(self.written());
    }

    /// A collection that has taken nothing yet.
    pub fn new() -> (c: Self)
        ensures
            c.written() == Seq::<u8>::empty(),
            c@ == Seq::<char>::empty(),
            c.cursor() == 0,
    {
        let c = Collector { buf: [0u8; N], len: 0 };
        proof {
            assert(c.written() =~= Seq::<u8>::empty());
        }
        c
    }

    /// Takes one more character if its whole encoding fits in what is left of
    /// the buffer. Otherwise nothing is written and the answer is `false`.
    pub fn push(&mut self, ch: char) -> (ok: bool)
        ensures
            ok <==> old(self).cursor() + utf8_len(ch) <= N,
            ok ==> final(self).written() == old(self).written() + encode_scalar(ch as u32),
            ok ==> final(self)@ == old(self)@.push(ch),
            ok ==> final(self).cursor() == old(self).cursor() + utf8_len(ch),
            !ok ==> *final(self) == *old(self),
    {
        proof {
            use_type_invariant(&*self);
        }
        let i = self.len;
        if i == N {
            return false;
        }
        let len = ch.len_utf8();
        proof {
            lemma_utf8_len_bounds(ch);
        }
        if len > N - i {
            return false;
        }
        let ghost before = self.written();
        if len == 1 {
            proof {
                lemma_encode_ascii(ch);
                lemma_decode_push(before, ch);
                let next = self.buf@.update(i as int, ch as u8);
                assert(next.subrange(0, i as int) =~= before);
                assert(next.subrange(0, i + 1) =~= before + seq![ch as u8]);
            }
            self.buf[i] = ch as u8;
        } else {
            let mut enc = [0u8; 4];
            let n = encode_char(ch, &mut enc);
            let mut k: usize = 0;
            while k < len
                invariant
                    k <= len,
                    len == n,
                    len <= 4,
                    i + len <= N,
                    self.len == i,
                    enc@.subrange(0, n as int) == encode_scalar(ch as u32),
                    self.buf@.subrange(0, i as int) == before,
                    valid_utf8(before),
                    self.buf@.subrange(i as int, i + k) == enc@.subrange(0, k as int),
                decreases len - k,
            {
                proof {
                    let next = self.buf@.update(i + k, enc@[k as int]);
                    assert(next.subrange(0, i as int) =~= before);
                    assert(next.subrange(i as int, i + k + 1) =~= enc@.subrange(0, k + 1));
                }
                self.buf[i + k] = enc[k];
                k += 1;
            }
            proof {
                lemma_decode_push(before, ch);
                assert(self.buf@.subrange(0, i + len) =~= before + encode_scalar(ch as u32));
            }
        }
        self.len = i + len;
        true
    }

    /// Ends the collection: a string where exactly `N` bytes were written,
    /// else the failure.
    pub fn finish(self) -> (r: TryStr<N>)
        ensures
            r is Valid <==> self.cursor() == N,
            r matches TryStr::Valid(s) ==> s.bytes() == self.written() && s@ == self@,
            r matches TryStr::Valid(s) ==> s.wf(),
    {
        proof {
            use_type_invariant(&self);
        }
        if self.len != N {
            return TryStr::InvalidLength;
        }
        proof {
            assert(self.buf@ =~= self.written());
        }
        TryStr::Valid(Str::from_utf8_unchecked(self.buf))
    }
}

} // verus!
