use vstd::prelude::*;

use crate::capability::{FromPath, FromPlatformStr};

verus! {

/// A borrowed filesystem path, made of the platform bytes as they are, so
/// that bytes that are not UTF-8 are kept.
#[derive(Debug, Clone, Copy, PartialEq, Eq)]
pub struct PlatformPath<'a> {
    bytes: &'a [u8],
}

impl<'a> View for PlatformPath<'a> {
    type V = Seq<u8>;

    closed spec fn view(&self) -> Seq<u8> {
        self.bytes@
    }
}

impl<'a> PlatformPath<'a> {
    pub fn new(bytes: &'a [u8]) -> (r: Self)
        ensures
            r@ == bytes@,
    {
        PlatformPath { bytes }
    }

    /// The path's bytes.
    pub fn as_bytes(&self) -> (r: &'a [u8])
        ensures
            r@ == self@,
    {
        self.bytes
    }

    /// An owned path with the same bytes.
    pub fn to_path_buf(&self) -> (r: PlatformPathBuf)
        ensures
            r@ == self@,
    {
        PlatformPathBuf { bytes: vstd::slice::slice_to_vec(self.bytes) }
    }
}

/// An owned filesystem path, made of platform bytes as they are.
#[derive(Debug, Clone, PartialEq, Eq)]
pub struct PlatformPathBuf {
    bytes: Vec<u8>,
}

impl View for PlatformPathBuf {
    type V = Seq<u8>;

    closed spec fn view(&self) -> Seq<u8> {
        self.bytes@
    }
}

impl PlatformPathBuf {
    pub fn new(bytes: Vec<u8>) -> (r: Self)
        ensures
            r@ == bytes@,
    {
        PlatformPathBuf { bytes }
    }

    /// The path's bytes.
    pub fn as_bytes(&self) -> (r: &[u8])
        ensures
            r@ == self@,
    {
        self.bytes.as_slice()
    }

    /// A borrowed path over the same bytes.
    pub fn as_path(&self) -> (r: PlatformPath<'_>)
        ensures
            r@ == self@,
    {
        PlatformPath { bytes: self.bytes.as_slice() }
    }
}

/// The path itself.
impl<'a> FromPath<'a> for PlatformPath<'a> {
    open spec fn from_path_ensures(p: Seq<u8>, r: Self) -> bool {
        r@ == p
    }

    fn from_path(p: PlatformPath<'a>) -> (r: Self) {
        p
    }
}

/// An owned path over a copy of the platform bytes.
impl<'a> FromPlatformStr<'a> for PlatformPathBuf {
    open spec fn from_platform_str_ensures(s: Seq<u8>, r: Self) -> bool {
        r@ == s
    }

    fn from_platform_str(s: &'a [u8]) -> (r: Self) {
        PlatformPathBuf { bytes: vstd::slice::slice_to_vec(s) }
    }
}

} // verus!
