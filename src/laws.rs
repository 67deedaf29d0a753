use vstd::prelude::*;
use vstd::utf8::*;

use crate::capability::{Capability, FromPath, FromPlatformStr, FromText, ParseText};
use crate::number::IntError;
use crate::path::{PlatformPath, PlatformPathBuf};

verus! {

broadcast use vstd::slice::axiom_slice_ext_equal;

/// The two highest-ranked capabilities, construction from the platform bytes and
/// from a path over them, admit every byte sequence, UTF-8 or not, and the
/// library's types built that way hold exactly the bytes they were given.
pub proof fn platform_capabilities_keep_bytes<'a>(
    b: Seq<u8>,
    view: &'a [u8],
    owned: Vec<u8>,
    buf: PlatformPathBuf,
    path: PlatformPath<'a>,
)
    requires
        <&'a [u8] as FromPlatformStr<'a>>::from_platform_str_ensures(b, view),
        <Vec<u8> as FromPlatformStr<'a>>::from_platform_str_ensures(b, owned),
        <PlatformPathBuf as FromPlatformStr<'a>>::from_platform_str_ensures(b, buf),
        <PlatformPath<'a> as FromPath<'a>>::from_path_ensures(b, path),
    ensures
        Capability::PlatformBytes.admits(b),
        Capability::Path.admits(b),
        view@ == b,
        owned@ == b,
        buf@ == b,
        path@ == b,
{
}

/// A capability that needs text admits exactly the byte sequences that are valid
/// UTF-8, so bytes that are not are refused as invalid text before the target
/// type sees them; a capability that works on the platform bytes admits all.
pub proof fn text_capabilities_refuse_invalid_bytes(c: Capability, b: Seq<u8>)
    ensures
        c.spec_needs_text() ==> (c.admits(b) <==> valid_utf8(b)),
        !c.spec_needs_text() ==> c.admits(b),
        c.spec_rank() <= 2 ==> !c.spec_needs_text(),
{
}

/// Converting the same platform string twice to one of the library's types gives
/// the same value: what each conversion returns is a function of its input alone.
pub proof fn repeated_conversions_agree<'a>(
    b: Seq<u8>,
    s: Seq<char>,
    view: (&'a [u8], &'a [u8]),
    path: (PlatformPath<'a>, PlatformPath<'a>),
    text: (&'a str, &'a str),
    owned: (String, String),
    number: (Result<u64, IntError>, Result<u64, IntError>),
)
    requires
        <&'a [u8] as FromPlatformStr<'a>>::from_platform_str_ensures(b, view.0),
        <&'a [u8] as FromPlatformStr<'a>>::from_platform_str_ensures(b, view.1),
        <PlatformPath<'a> as FromPath<'a>>::from_path_ensures(b, path.0),
        <PlatformPath<'a> as FromPath<'a>>::from_path_ensures(b, path.1),
        <&'a str as FromText<'a>>::from_text_ensures(s, text.0),
        <&'a str as FromText<'a>>::from_text_ensures(s, text.1),
        <String as FromText<'a>>::from_text_ensures(s, owned.0),
        <String as FromText<'a>>::from_text_ensures(s, owned.1),
        <u64 as ParseText>::parse_text_ensures(s, number.0),
        <u64 as ParseText>::parse_text_ensures(s, number.1),
    ensures
        view.0 == view.1,
        path.0@ == path.1@,
        text.0@ == text.1@,
        owned.0@ == owned.1@,
        number.0 == number.1,
{
}

} // verus!
