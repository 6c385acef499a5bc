//! The ways in which a conversion can fail.

use vstd::prelude::*;

verus! {

/// Why a text value could not be converted to a null-terminated pointer.
#[derive(Clone, Copy, Debug, PartialEq, Eq, Structural)]
pub enum ConversionError {
    /// The text holds a null byte, which would end the encoding early.
    EncodingError,
    /// The bytes of the representation are not valid UTF-8 text.
    InvalidUtf8,
    /// A buffer said to be terminated is empty or does not end in a null byte.
    NotNullTerminated,
}

impl ConversionError {
    /// A short description of the error, for reports.
    pub fn message(&self) -> (text: &'static str)
        ensures
            text@ == match *self {
                ConversionError::EncodingError => "text contains an interior null byte"@,
                ConversionError::InvalidUtf8 => "bytes are not valid UTF-8 text"@,
                ConversionError::NotNullTerminated => "empty slice or last element is nonzero"@,
            },
    {
        match self {
            ConversionError::EncodingError => "text contains an interior null byte",
            ConversionError::InvalidUtf8 => "bytes are not valid UTF-8 text",
            ConversionError::NotNullTerminated => "empty slice or last element is nonzero",
        }
    }
}

} // verus!
