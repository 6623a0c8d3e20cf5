//! Conversions between `Str` and the standard string and byte types. Each
//! goes through one of the constructors or accessors of `Str` and has its
//! contract.

use crate::codec::describes;
use crate::error::{InvalidLength, Utf8Error};
use crate::fixed::Str;
use std::borrow::Cow;
use vstd::prelude::*;
use vstd::std_specs::convert::{FromSpecImpl, TryFromSpecImpl};
use vstd::string::StringSliceAdditionalSpecFns;
use vstd::utf8::*;

verus! {

impl<'a, const N: usize> TryFrom<&'a str> for Str<N> {
    type Error = InvalidLength;

    /// Copies a string slice of exactly `N` bytes, as `Str::try_new` does.
    fn try_from(text: &'a str) -> (r: Result<Self, InvalidLength>)
        ensures
            r is Ok <==> text.spec_bytes().len() == N,
            r matches Ok(s) ==> s.bytes() == text.spec_bytes() && s@ == text@,
            r matches Err(e) ==> e.expected() == N && e.actual() == text.spec_bytes().len(),
    {
        Str::try_new(text)
    }
}

impl<'a, const N: usize> TryFromSpecImpl<&'a str> for Str<N> {
    /// The contract stands on `try_from` itself.
    open spec fn obeys_try_from_spec() -> bool {
        false
    }

    open spec fn try_from_spec(text: &'a str) -> Result<Self, InvalidLength> {
        Err(arbitrary())
    }
}

impl<const N: usize> TryFrom<String> for Str<N> {
    type Error = InvalidLength;

    /// Copies a string of exactly `N` bytes, as `Str::try_new` does.
    fn try_from(text: String) -> (r: Result<Self, InvalidLength>)
        ensures
            r is Ok <==> encode_utf8(text@).len() == N,
            r matches Ok(s) ==> s.bytes() == encode_utf8(text@) && s@ == text@,
            r matches Err(e) ==> e.expected() == N && e.actual() == encode_utf8(text@).len(),
    {
        Str::try_new(text.as_str())
    }
}

impl<const N: usize> TryFromSpecImpl<String> for Str<N> {
    /// The contract stands on `try_from` itself.
    open spec fn obeys_try_from_spec() -> bool {
        false
    }

    open spec fn try_from_spec(text: String) -> Result<Self, InvalidLength> {
        Err(arbitrary())
    }
}

impl<'a, const N: usize> TryFrom<&'a String> for Str<N> {
    type Error = InvalidLength;

    /// Copies a string of exactly `N` bytes, as `Str::try_new` does.
    fn try_from(text: &'a String) -> (r: Result<Self, InvalidLength>)
        ensures
            r is Ok <==> encode_utf8(text@).len() == N,
            r matches Ok(s) ==> s.bytes() == encode_utf8(text@) && s@ == text@,
            r matches Err(e) ==> e.expected() == N && e.actual() == encode_utf8(text@).len(),
    {
        Str::try_new(text.as_str())
    }
}

impl<'a, const N: usize> TryFromSpecImpl<&'a String> for Str<N> {
    /// The contract stands on `try_from` itself.
    open spec fn obeys_try_from_spec() -> bool {
        false
    }

    open spec fn try_from_spec(text: &'a String) -> Result<Self, InvalidLength> {
        Err(arbitrary())
    }
}

impl<const N: usize> TryFrom<[u8; N]> for Str<N> {
    type Error = Utf8Error;

    /// Makes a string of bytes that must be UTF-8, as `Str::from_utf8` does.
    fn try_from(v: [u8; N]) -> (r: Result<Self, Utf8Error>)
        ensures
            r is Ok <==> valid_utf8(v@),
            r matches Ok(s) ==> s.bytes() == v@,
            r matches Err(e) ==> describes(e, v@),
    {
        Str::from_utf8(v)
    }
}

impl<const N: usize> TryFromSpecImpl<[u8; N]> for Str<N> {
    /// The contract stands on `try_from` itself.
    open spec fn obeys_try_from_spec() -> bool {
        false
    }

    open spec fn try_from_spec(v: [u8; N]) -> Result<Self, Utf8Error> {
        Err(arbitrary())
    }
}

impl<'a, const N: usize> TryFrom<&'a [u8; N]> for Str<N> {
    type Error = Utf8Error;

    /// Copies bytes that must be UTF-8, as `Str::from_utf8` does.
    fn try_from(v: &'a [u8; N]) -> (r: Result<Self, Utf8Error>)
        ensures
            r is Ok <==> valid_utf8(v@),
            r matches Ok(s) ==> s.bytes() == v@,
            r matches Err(e) ==> describes(e, v@),
    {
        Str::from_utf8(*v)
    }
}

impl<'a, const N: usize> TryFromSpecImpl<&'a [u8; N]> for Str<N> {
    /// The contract stands on `try_from` itself.
    open spec fn obeys_try_from_spec() -> bool {
        false
    }

    open spec fn try_from_spec(v: &'a [u8; N]) -> Result<Self, Utf8Error> {
        Err(arbitrary())
    }
}

impl<const N: usize> From<Str<N>> for String {
    /// An owned copy of the text.
    fn from(s: Str<N>) -> (r: String)
        ensures
            r@ == s@,
    {
        s.as_str().to_owned()
    }
}

impl<const N: usize> FromSpecImpl<Str<N>> for String {
    /// The contract stands on `from` itself.
    open spec fn obeys_from_spec() -> bool {
        false
    }

    open spec fn from_spec(s: Str<N>) -> String {
        arbitrary()
    }
}

impl<'a, const N: usize> TryFrom<&'a mut str> for Str<N> {
    type Error = InvalidLength;

    /// Copies a string slice of exactly `N` bytes, as `Str::try_new` does.
    fn try_from(text: &'a mut str) -> (r: Result<Self, InvalidLength>)
        ensures
            r is Ok <==> encode_utf8(old(text)@).len() == N,
            r matches Ok(s) ==> s.bytes() == encode_utf8(old(text)@) && s@ == old(text)@,
            r matches Err(e) ==> e.expected() == N && e.actual() == encode_utf8(old(text)@).len(),
            final(text)@ == old(text)@,
    {
        Str::try_new(text)
    }
}

impl<'a, const N: usize> TryFromSpecImpl<&'a mut str> for Str<N> {
    /// The contract stands on `try_from` itself.
    open spec fn obeys_try_from_spec() -> bool {
        false
    }

    open spec fn try_from_spec(text: &'a mut str) -> Result<Self, InvalidLength> {
        Err(arbitrary())
    }
}

impl<'a, const N: usize> TryFrom<&'a mut String> for Str<N> {
    type Error = InvalidLength;

    /// Copies a string of exactly `N` bytes, as `Str::try_new` does.
    fn try_from(text: &'a mut String) -> (r: Result<Self, InvalidLength>)
        ensures
            r is Ok <==> encode_utf8(old(text)@).len() == N,
            r matches Ok(s) ==> s.bytes() == encode_utf8(old(text)@) && s@ == old(text)@,
            r matches Err(e) ==> e.expected() == N && e.actual() == encode_utf8(old(text)@).len(),
            final(text)@ == old(text)@,
    {
        Str::try_new(text.as_str())
    }
}

impl<'a, const N: usize> TryFromSpecImpl<&'a mut String> for Str<N> {
    /// The contract stands on `try_from` itself.
    open spec fn obeys_try_from_spec() -> bool {
        false
    }

    open spec fn try_from_spec(text: &'a mut String) -> Result<Self, InvalidLength> {
        Err(arbitrary())
    }
}

impl<const N: usize> TryFrom<Box<str>> for Str<N> {
    type Error = InvalidLength;

    /// Copies a boxed string of exactly `N` bytes, as `Str::try_new` does.
    fn try_from(text: Box<str>) -> (r: Result<Self, InvalidLength>)
        ensures
            r is Ok <==> encode_utf8(text@).len() == N,
            r matches Ok(s) ==> s.bytes() == encode_utf8(text@) && s@ == text@,
            r matches Err(e) ==> e.expected() == N && e.actual() == encode_utf8(text@).len(),
    {
        Str::try_new(&*text)
    }
}

impl<const N: usize> TryFromSpecImpl<Box<str>> for Str<N> {
    /// The contract stands on `try_from` itself.
    open spec fn obeys_try_from_spec() -> bool {
        false
    }

    open spec fn try_from_spec(text: Box<str>) -> Result<Self, InvalidLength> {
        Err(arbitrary())
    }
}

/// The string slice that a copy-on-write string holds, borrowed or owned.
pub fn cow_as_str<'a>(text: &'a Cow<'_, str>) -> (s: &'a str)
    ensures
        s@ == text@,
{
    match text {
        Cow::Borrowed(t) => t,
        Cow::Owned(t) => t.as_str(),
    }
}

impl<'a, const N: usize> TryFrom<Cow<'a, str>> for Str<N> {
    type Error = InvalidLength;

    /// Copies a copy-on-write string of exactly `N` bytes, as `Str::try_new`
    /// does.
    fn try_from(text: Cow<'a, str>) -> (r: Result<Self, InvalidLength>)
        ensures
            r is Ok <==> encode_utf8(text@).len() == N,
            r matches Ok(s) ==> s.bytes() == encode_utf8(text@) && s@ == text@,
            r matches Err(e) ==> e.expected() == N && e.actual() == encode_utf8(text@).len(),
    {
        Str::try_new(cow_as_str(&text))
    }
}

impl<'a, const N: usize> TryFromSpecImpl<Cow<'a, str>> for Str<N> {
    /// The contract stands on `try_from` itself.
    open spec fn obeys_try_from_spec() -> bool {
        false
    }

    open spec fn try_from_spec(text: Cow<'a, str>) -> Result<Self, InvalidLength> {
        Err(arbitrary())
    }
}

impl<'a, const N: usize> From<&'a Str<N>> for Cow<'a, str> {
    /// The text, borrowed.
    fn from(s: &'a Str<N>) -> (r: Cow<'a, str>)
        ensures
            r@ == s@,
            r is Borrowed,
    {
        Cow::Borrowed(s.as_str())
    }
}

impl<'a, const N: usize> FromSpecImpl<&'a Str<N>> for Cow<'a, str> {
    /// The contract stands on `from` itself.
    open spec fn obeys_from_spec() -> bool {
        false
    }

    open spec fn from_spec(s: &'a Str<N>) -> Cow<'a, str> {
        arbitrary()
    }
}

impl<const N: usize> From<Str<N>> for Box<str> {
    /// An owned copy of the text.
    fn from(s: Str<N>) -> (r: Box<str>)
        ensures
            r@ == s@,
    {
        Box::from(s.as_str())
    }
}

impl<const N: usize> FromSpecImpl<Str<N>> for Box<str> {
    /// The contract stands on `from` itself.
    open spec fn obeys_from_spec() -> bool {
        false
    }

    open spec fn from_spec(s: Str<N>) -> Box<str> {
        arbitrary()
    }
}

impl<const N: usize> AsRef<str> for Str<N> {
    /// The whole string as a string slice.
    fn as_ref(&self) -> (s: &str)
        ensures
            ({
                let text: &str = s;
                text@ == self@ && text.spec_bytes() == self.bytes()
            }),
    {
        self.as_str()
    }
}

impl<const N: usize> AsRef<[u8]> for Str<N> {
    /// The bytes of the string.
    fn as_ref(&self) -> (b: &[u8])
        ensures
            ({
                let bytes: &[u8] = b;
                bytes@ == self.bytes()
            }),
    {
        self.as_bytes()
    }
}

impl<const N: usize> AsMut<str> for Str<N> {
    /// The whole string as a mutable string slice.
    fn as_mut(&mut self) -> (s: &mut str)
        ensures
            s@ == old(self)@,
            final(self)@ == final(s)@,
    {
        self.as_mut_str()
    }
}


impl<const N: usize> core::ops::Deref for Str<N> {
    type Target = str;

    fn deref(&self) -> (s: &str)
        ensures
            s@ == self@,
            s.spec_bytes() == self.bytes(),
    {
        self.as_str()
    }
}

impl<const N: usize> core::ops::DerefMut for Str<N> {
    fn deref_mut(&mut self) -> (s: &mut str)
        ensures
            s@ == old(self)@,
            final(self)@ == final(s)@,
    {
        self.as_mut_str()
    }
}

} // verus!
