use vstd::prelude::*;
use vstd::utf8::*;

use core::convert::Infallible;
use core::marker::PhantomData;

use crate::capability::{
    Capability, FromOwnedText, FromPath, FromPlatformStr, FromText, ParseText, TryFromPlatformStr,
    TryFromText,
};
use crate::error::Error;
use crate::path::PlatformPath;
use crate::text::decode;

verus! {

/// A platform string waiting to be converted to `T`.
///
/// Each capability is offered by a trait implemented on `Wrap` behind a
/// different number of references, the highest-ranked behind the most. Method
/// lookup on `(&&&&&&&Wrap::<T>::new(s))` strips one reference at a time, so
/// `.specialized()` reaches the highest-ranked capability that `T` provides,
/// and `.capability()` names it; a type with none of them does not compile.
pub struct Wrap<'a, T> {
    bytes: &'a [u8],
    target: PhantomData<T>,
}

impl<'a, T> View for Wrap<'a, T> {
    type V = Seq<u8>;

    closed spec fn view(&self) -> Seq<u8> {
        self.bytes@
    }
}

impl<'a, T> Wrap<'a, T> {
    pub fn new(s: &'a [u8]) -> (r: Self)
        ensures
            r@ == s@,
    {
        Wrap { bytes: s, target: PhantomData }
    }
}

/// Capability 1: construction from the platform bytes.
pub trait Specialize1 {
    type Return;

    fn capability(&self) -> Capability;

    fn specialized(&self) -> Self::Return;
}

impl<'a, T: FromPlatformStr<'a>> Specialize1 for &&&&&&Wrap<'a, T> {
    type Return = Result<T, Error<Infallible>>;

    fn capability(&self) -> (r: Capability)
        ensures
            r == Capability::PlatformBytes,
    {
        Capability::PlatformBytes
    }

    fn specialized(&self) -> (r: Self::Return)
        ensures
            r matches Err(Error::Utf8) <==> !Capability::PlatformBytes.admits(self@),
            r matches Ok(v) && T::from_platform_str_ensures(self@, v),
    {
        Ok(T::from_platform_str(self.bytes))
    }
}

/// Capability 2: construction from a path over the platform bytes.
pub trait Specialize2 {
    type Return;

    fn capability(&self) -> Capability;

    fn specialized(&self) -> Self::Return;
}

impl<'a, T: FromPath<'a>> Specialize2 for &&&&&Wrap<'a, T> {
    type Return = Result<T, Error<Infallible>>;

    fn capability(&self) -> (r: Capability)
        ensures
            r == Capability::Path,
    {
        Capability::Path
    }

    fn specialized(&self) -> (r: Self::Return)
        ensures
            r matches Err(Error::Utf8) <==> !Capability::Path.admits(self@),
            r matches Ok(v) && T::from_path_ensures(self@, v),
    {
        Ok(T::from_path(PlatformPath::new(self.bytes)))
    }
}

/// Capability 3: construction from borrowed text.
pub trait Specialize3 {
    type Return;

    fn capability(&self) -> Capability;

    fn specialized(&self) -> Self::Return;
}

impl<'a, T: FromText<'a>> Specialize3 for &&&&Wrap<'a, T> {
    type Return = Result<T, Error<Infallible>>;

    fn capability(&self) -> (r: Capability)
        ensures
            r == Capability::TextSlice,
    {
        Capability::TextSlice
    }

    fn specialized(&self) -> (r: Self::Return)
        ensures
            r matches Err(Error::Utf8) <==> !Capability::TextSlice.admits(self@),
            !valid_utf8(self@) ==> r == Err::<T, Error<Infallible>>(Error::Utf8),
            valid_utf8(self@) ==> (r matches Ok(v) && T::from_text_ensures(
                decode_utf8(self@),
                v,
            )),
    {
        match decode(self.bytes) {
            None => Err(Error::Utf8),
            Some(s) => Ok(T::from_text(s)),
        }
    }
}

/// Capability 4: construction from owned text.
pub trait Specialize4 {
    type Return;

    fn capability(&self) -> Capability;

    fn specialized(&self) -> Self::Return;
}

impl<'a, T: FromOwnedText> Specialize4 for &&&Wrap<'a, T> {
    type Return = Result<T, Error<Infallible>>;

    fn capability(&self) -> (r: Capability)
        ensures
            r == Capability::OwnedText,
    {
        Capability::OwnedText
    }

    fn specialized(&self) -> (r: Self::Return)
        ensures
            r matches Err(Error::Utf8) <==> !Capability::OwnedText.admits(self@),
            !valid_utf8(self@) ==> r == Err::<T, Error<Infallible>>(Error::Utf8),
            valid_utf8(self@) ==> (r matches Ok(v) && T::from_owned_text_ensures(
                decode_utf8(self@),
                v,
            )),
    {
        match decode(self.bytes) {
            None => Err(Error::Utf8),
            Some(s) => Ok(T::from_owned_text(s.to_owned())),
        }
    }
}

/// Capability 5: conversion from borrowed text that may refuse it.
pub trait Specialize5 {
    type Return;

    fn capability(&self) -> Capability;

    fn specialized(&self) -> Self::Return;
}

impl<'a, T: TryFromText<'a>> Specialize5 for &&Wrap<'a, T> {
    type Return = Result<T, Error<T::Error>>;

    fn capability(&self) -> (r: Capability)
        ensures
            r == Capability::FallibleText,
    {
        Capability::FallibleText
    }

    fn specialized(&self) -> (r: Self::Return)
        ensures
            r matches Err(Error::Utf8) <==> !Capability::FallibleText.admits(self@),
            !valid_utf8(self@) ==> r == Err::<T, Error<T::Error>>(Error::Utf8),
            valid_utf8(self@) ==> match r {
                Ok(v) => T::try_from_text_ensures(decode_utf8(self@), Ok(v)),
                Err(Error::ParseErr(e)) => T::try_from_text_ensures(decode_utf8(self@), Err(e)),
                Err(Error::Utf8) => false,
            },
    {
        match decode(self.bytes) {
            None => Err(Error::Utf8),
            Some(s) => match T::try_from_text(s) {
                Ok(v) => Ok(v),
                Err(e) => Err(Error::ParseErr(e)),
            },
        }
    }
}

/// Capability 6: conversion from the platform bytes that may refuse them.
pub trait Specialize6 {
    type Return;

    fn capability(&self) -> Capability;

    fn specialized(&self) -> Self::Return;
}

impl<'a, T: TryFromPlatformStr<'a>> Specialize6 for &Wrap<'a, T> {
    type Return = Result<T, Error<T::Error>>;

    fn capability(&self) -> (r: Capability)
        ensures
            r == Capability::FalliblePlatformBytes,
    {
        Capability::FalliblePlatformBytes
    }

    fn specialized(&self) -> (r: Self::Return)
        ensures
            r matches Err(Error::Utf8) <==> !Capability::FalliblePlatformBytes.admits(self@),
            match r {
                Ok(v) => T::try_from_platform_str_ensures(self@, Ok(v)),
                Err(Error::ParseErr(e)) => T::try_from_platform_str_ensures(self@, Err(e)),
                Err(Error::Utf8) => false,
            },
    {
        match T::try_from_platform_str(self.bytes) {
            Ok(v) => Ok(v),
            Err(e) => Err(Error::ParseErr(e)),
        }
    }
}

/// Capability 7: parsing from text, which may refuse it.
pub trait Specialize7 {
    type Return;

    fn capability(&self) -> Capability;

    fn specialized(&self) -> Self::Return;
}

impl<'a, T: ParseText> Specialize7 for Wrap<'a, T> {
    type Return = Result<T, Error<T::Err>>;

    fn capability(&self) -> (r: Capability)
        ensures
            r == Capability::Parse,
    {
        Capability::Parse
    }

    fn specialized(&self) -> (r: Self::Return)
        ensures
            r matches Err(Error::Utf8) <==> !Capability::Parse.admits(self@),
            !valid_utf8(self@) ==> r == Err::<T, Error<T::Err>>(Error::Utf8),
            valid_utf8(self@) ==> match r {
                Ok(v) => T::parse_text_ensures(decode_utf8(self@), Ok(v)),
                Err(Error::ParseErr(e)) => T::parse_text_ensures(decode_utf8(self@), Err(e)),
                Err(Error::Utf8) => false,
            },
    {
        match decode(self.bytes) {
            None => Err(Error::Utf8),
            Some(s) => match T::parse_text(s) {
                Ok(v) => Ok(v),
                Err(e) => Err(Error::ParseErr(e)),
            },
        }
    }
}

} // verus!
