use vstd::prelude::*;

verus! {

/// An error that can occur when converting a platform string to another type:
/// either the bytes were not valid UTF-8 where the chosen conversion needed
/// text, or the target type's own conversion rejected the input.
#[derive(Debug, Clone, PartialEq, Eq)]
pub enum Error<T> {
    /// The platform string holds bytes that are not valid UTF-8.
    Utf8,
    /// The target type's own conversion failed.
    ParseErr(T),
}

impl<T> Error<T> {
    /// The error of the target type's conversion, if that is what this error carries.
    pub fn source(&self) -> (r: Option<&T>)
        ensures
            match self {
                Error::Utf8 => r is None,
                Error::ParseErr(e) => r == Some(e),
            },
    {
        match self {
            Error::Utf8 => None,
            Error::ParseErr(e) => Some(e),
        }
    }
}

} // verus!
