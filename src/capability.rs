use vstd::prelude::*;
use vstd::utf8::*;

use crate::path::PlatformPath;

verus! {

/// The ways a target type may be built from a platform string, listed from
/// the highest priority to the lowest. Where a type provides several, the
/// first one in this order is used.
#[derive(Debug, Clone, Copy, PartialEq, Eq)]
pub enum Capability {
    /// Built from the platform bytes as they are; never fails.
    PlatformBytes,
    /// Built from a path over the platform bytes as they are; never fails.
    Path,
    /// Built from borrowed text; needs UTF-8.
    TextSlice,
    /// Built from owned text; needs UTF-8.
    OwnedText,
    /// Built from borrowed text by a conversion that may refuse it; needs UTF-8.
    FallibleText,
    /// Built from the platform bytes as they are by a conversion that may refuse them.
    FalliblePlatformBytes,
    /// Parsed from text by a parser that may refuse it; needs UTF-8.
    Parse,
}

impl Capability {
    /// Position in the priority order: 1 is tried first, 7 last.
    pub open spec fn spec_rank(self) -> nat {
        match self {
            Capability::PlatformBytes => 1,
            Capability::Path => 2,
            Capability::TextSlice => 3,
            Capability::OwnedText => 4,
            Capability::FallibleText => 5,
            Capability::FalliblePlatformBytes => 6,
            Capability::Parse => 7,
        }
    }

    /// Whether the capability works on text, so that the bytes must be valid UTF-8 first.
    pub open spec fn spec_needs_text(self) -> bool {
        match self {
            Capability::TextSlice | Capability::OwnedText | Capability::FallibleText
            | Capability::Parse => true,
            _ => false,
        }
    }

    /// Whether the bytes pass the check made before the capability is invoked:
    /// a capability that works on text admits only valid UTF-8.
    pub open spec fn admits(self, b: Seq<u8>) -> bool {
        !self.spec_needs_text() || valid_utf8(b)
    }

    pub fn rank(&self) -> (r: u8)
        ensures
            r == self.spec_rank(),
    {
        match self {
            Capability::PlatformBytes => 1,
            Capability::Path => 2,
            Capability::TextSlice => 3,
            Capability::OwnedText => 4,
            Capability::FallibleText => 5,
            Capability::FalliblePlatformBytes => 6,
            Capability::Parse => 7,
        }
    }

    pub fn needs_text(&self) -> (r: bool)
        ensures
            r == self.spec_needs_text(),
    {
        match self {
            Capability::TextSlice | Capability::OwnedText | Capability::FallibleText
            | Capability::Parse => true,
            _ => false,
        }
    }
}

/// Construction from the platform bytes as they are.
pub trait FromPlatformStr<'a>: Sized {
    /// What an implementation promises of its result; nothing, unless it says more.
    open spec fn from_platform_str_ensures(s: Seq<u8>, r: Self) -> bool {
        true
    }

    fn from_platform_str(s: &'a [u8]) -> (r: Self)
        ensures
            Self::from_platform_str_ensures(s@, r),
    ;
}

/// Construction from a filesystem path over the platform bytes as they are.
pub trait FromPath<'a>: Sized {
    /// What an implementation promises of its result, given the path's bytes.
    open spec fn from_path_ensures(p: Seq<u8>, r: Self) -> bool {
        true
    }

    fn from_path(p: PlatformPath<'a>) -> (r: Self)
        ensures
            Self::from_path_ensures(p@, r),
    ;
}

/// Construction from borrowed text.
pub trait FromText<'a>: Sized {
    /// What an implementation promises of its result, given the characters.
    open spec fn from_text_ensures(s: Seq<char>, r: Self) -> bool {
        true
    }

    fn from_text(s: &'a str) -> (r: Self)
        ensures
            Self::from_text_ensures(s@, r),
    ;
}

/// Construction from owned text.
pub trait FromOwnedText: Sized {
    /// What an implementation promises of its result, given the characters.
    open spec fn from_owned_text_ensures(s: Seq<char>, r: Self) -> bool {
        true
    }

    fn from_owned_text(s: String) -> (r: Self)
        ensures
            Self::from_owned_text_ensures(s@, r),
    ;
}

/// Conversion from borrowed text that may refuse it.
pub trait TryFromText<'a>: Sized {
    type Error;

    /// What an implementation promises of its result, given the characters.
    open spec fn try_from_text_ensures(s: Seq<char>, r: Result<Self, Self::Error>) -> bool {
        true
    }

    fn try_from_text(s: &'a str) -> (r: Result<Self, Self::Error>)
        ensures
            Self::try_from_text_ensures(s@, r),
    ;
}

/// Conversion from the platform bytes as they are that may refuse them.
pub trait TryFromPlatformStr<'a>: Sized {
    type Error;

    /// What an implementation promises of its result, given the bytes.
    open spec fn try_from_platform_str_ensures(s: Seq<u8>, r: Result<Self, Self::Error>) -> bool {
        true
    }

    fn try_from_platform_str(s: &'a [u8]) -> (r: Result<Self, Self::Error>)
        ensures
            Self::try_from_platform_str_ensures(s@, r),
    ;
}

/// Parsing from text, which may refuse it.
pub trait ParseText: Sized {
    type Err;

    /// What an implementation promises of its result, given the characters.
    open spec fn parse_text_ensures(s: Seq<char>, r: Result<Self, Self::Err>) -> bool {
        true
    }

    fn parse_text(s: &str) -> (r: Result<Self, Self::Err>)
        ensures
            Self::parse_text_ensures(s@, r),
    ;
}

/// The platform string itself: the same view.
impl<'a> FromPlatformStr<'a> for &'a [u8] {
    open spec fn from_platform_str_ensures(s: Seq<u8>, r: Self) -> bool {
        r@ == s
    }

    fn from_platform_str(s: &'a [u8]) -> (r: Self) {
        s
    }
}

/// An owned copy of the platform bytes.
impl<'a> FromPlatformStr<'a> for Vec<u8> {
    open spec fn from_platform_str_ensures(s: Seq<u8>, r: Self) -> bool {
        r@ == s
    }

    fn from_platform_str(s: &'a [u8]) -> (r: Self) {
        vstd::slice::slice_to_vec(s)
    }
}

/// The text itself: the same view.
impl<'a> FromText<'a> for &'a str {
    open spec fn from_text_ensures(s: Seq<char>, r: Self) -> bool {
        r@ == s
    }

    fn from_text(s: &'a str) -> (r: Self) {
        s
    }
}

/// An owned copy of the text.
impl<'a> FromText<'a> for String {
    open spec fn from_text_ensures(s: Seq<char>, r: Self) -> bool {
        r@ == s
    }

    fn from_text(s: &'a str) -> (r: Self) {
        s.to_owned()
    }
}

} // verus!
