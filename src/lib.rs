//! Converts a platform string, a byte sequence that need not be UTF-8, into a
//! value of a type chosen by the caller, through the highest-ranked conversion
//! capability that the type provides.
//!
//! A caller writes `(&&&&&&&Wrap::<T>::new(bytes)).specialized()` with the
//! seven `Specialize` traits in scope. Capabilities that keep the bytes as they
//! are rank above those that need text, so a path built from bytes that are
//! not UTF-8 is never refused.
pub mod capability;
pub mod convert;
pub mod error;
pub mod laws;
pub mod number;
pub mod path;
pub mod text;

pub use capability::{
    Capability, FromOwnedText, FromPath, FromPlatformStr, FromText, ParseText, TryFromPlatformStr,
    TryFromText,
};
pub use convert::{
    Specialize1, Specialize2, Specialize3, Specialize4, Specialize5, Specialize6, Specialize7, Wrap,
};
pub use error::Error;
pub use number::IntError;
pub use path::{PlatformPath, PlatformPathBuf};
