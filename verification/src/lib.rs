//! Interning cache for null-terminated strings handed to foreign functions.
//!
//! A [`RawCStrs`] cache owns one null-terminated buffer per distinct text and
//! hands out [`RawCStr`] pointers to them; converting equal text twice yields
//! the same pointer. The [`AsRawCstr`] capability converts the supported text
//! representations, going through the cache only where the representation does
//! not already address a terminated buffer of static lifetime.

pub mod cache;
pub mod convert;
pub mod encoding;
pub mod error;
pub mod laws;
pub mod pointer;

pub use cache::{raw_cstr, RawCStrs};
pub use convert::{AsRawCstr, CStrBytes, StaticCStr};
pub use error::ConversionError;
pub use pointer::RawCStr;
