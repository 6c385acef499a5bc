//! The conversion capability and the text representations that have it.

use crate::cache::{interned, RawCStrs};
use crate::encoding::{check_c_string, ends_with_nul, is_c_string, nul_terminated, text_of};
use crate::error::ConversionError;
use crate::pointer::RawCStr;
use vstd::prelude::*;
use vstd::utf8::{decode_utf8, valid_utf8};

verus! {

/// A value that can be handed to foreign code as a null-terminated string.
pub trait AsRawCstr {
    /// What the conversion answers in a cache that holds `keys`, and what the
    /// cache holds afterwards.
    spec fn converted(&self, keys: Seq<Seq<char>>) -> (
        Seq<Seq<char>>,
        Result<RawCStr, ConversionError>,
    );

    /// The pointer for this value. Representations without a terminated buffer
    /// of static lifetime get theirs from `cache`; the others leave it alone.
    fn as_raw_cstr(&self, cache: &mut RawCStrs) -> (r: Result<RawCStr, ConversionError>)
        ensures
            (final(cache)@, r) == self.converted(old(cache)@),
    ;
}

/// A static buffer that is taken to be terminated already: its address is
/// handed out as it is. Only the last byte is looked at, so null bytes before
/// it are let through.
impl AsRawCstr for &'static [u8] {
    open spec fn converted(&self, keys: Seq<Seq<char>>) -> (
        Seq<Seq<char>>,
        Result<RawCStr, ConversionError>,
    ) {
        if nul_terminated(self@) {
            (keys, Ok(RawCStr::Static(*self)))
        } else {
            (keys, Err(ConversionError::NotNullTerminated))
        }
    }

    fn as_raw_cstr(&self, cache: &mut RawCStrs) -> (r: Result<RawCStr, ConversionError>)
        ensures
            *final(cache) == *old(cache),
    {
        if ends_with_nul(*self) {
            Ok(RawCStr::Static(*self))
        } else {
            Err(ConversionError::NotNullTerminated)
        }
    }
}

/// A pointer converts to itself.
impl AsRawCstr for RawCStr {
    open spec fn converted(&self, keys: Seq<Seq<char>>) -> (
        Seq<Seq<char>>,
        Result<RawCStr, ConversionError>,
    ) {
        (keys, Ok(*self))
    }

    fn as_raw_cstr(&self, cache: &mut RawCStrs) -> (r: Result<RawCStr, ConversionError>)
        ensures
            *final(cache) == *old(cache),
    {
        Ok(*self)
    }
}

/// Borrowed text is interned.
impl AsRawCstr for &str {
    open spec fn converted(&self, keys: Seq<Seq<char>>) -> (
        Seq<Seq<char>>,
        Result<RawCStr, ConversionError>,
    ) {
        interned(keys, self@)
    }

    fn as_raw_cstr(&self, cache: &mut RawCStrs) -> (r: Result<RawCStr, ConversionError>) {
        cache.get_or_create(*self)
    }
}

/// Owned text is interned.
impl AsRawCstr for String {
    open spec fn converted(&self, keys: Seq<Seq<char>>) -> (
        Seq<Seq<char>>,
        Result<RawCStr, ConversionError>,
    ) {
        interned(keys, self@)
    }

    fn as_raw_cstr(&self, cache: &mut RawCStrs) -> (r: Result<RawCStr, ConversionError>) {
        cache.get_or_create(self.as_str())
    }
}

/// The bytes of a C string of bounded lifetime, without the terminator. They
/// need not be valid text.
#[derive(Clone, Copy, Debug)]
pub struct CStrBytes<'a> {
    pub bytes: &'a [u8],
}

/// A C string of bounded lifetime is read as text and interned, so that the
/// pointer outlives it.
impl<'a> AsRawCstr for CStrBytes<'a> {
    open spec fn converted(&self, keys: Seq<Seq<char>>) -> (
        Seq<Seq<char>>,
        Result<RawCStr, ConversionError>,
    ) {
        if valid_utf8(self.bytes@) {
            interned(keys, decode_utf8(self.bytes@))
        } else {
            (keys, Err(ConversionError::InvalidUtf8))
        }
    }

    fn as_raw_cstr(&self, cache: &mut RawCStrs) -> (r: Result<RawCStr, ConversionError>) {
        match text_of(self.bytes) {
            Some(text) => {
                proof {
                    vstd::utf8::encode_utf8_decode_utf8(text@);
                }
                cache.get_or_create(text)
            },
            None => Err(ConversionError::InvalidUtf8),
        }
    }
}

/// A C string of static lifetime: a buffer whose only null byte is its last.
#[derive(Clone, Copy, Debug)]
pub struct StaticCStr {
    bytes: &'static [u8],
}

impl StaticCStr {
    #[verifier::type_invariant]
    spec fn terminated(&self) -> bool {
        is_c_string(self.bytes@)
    }

    /// The buffer, terminator included.
    pub closed spec fn buffer(&self) -> &'static [u8] {
        self.bytes
    }

    /// Takes `bytes` as a C string, where it is one.
    pub fn from_bytes_with_nul(bytes: &'static [u8]) -> (r: Option<StaticCStr>)
        ensures
            r is Some <==> is_c_string(bytes@),
            r is Some ==> r.unwrap().buffer() == bytes,
    {
        if check_c_string(bytes) {
            Some(StaticCStr { bytes })
        } else {
            None
        }
    }

    /// The buffer, terminator included.
    pub fn to_bytes_with_nul(&self) -> (bytes: &'static [u8])
        ensures
            bytes == self.buffer(),
            is_c_string(bytes@),
    {
        proof {
            use_type_invariant(self);
        }
        self.bytes
    }
}

/// A static C string hands out its own address: no cache is involved.
impl AsRawCstr for StaticCStr {
    open spec fn converted(&self, keys: Seq<Seq<char>>) -> (
        Seq<Seq<char>>,
        Result<RawCStr, ConversionError>,
    ) {
        (keys, Ok(RawCStr::Static(self.buffer())))
    }

    fn as_raw_cstr(&self, cache: &mut RawCStrs) -> (r: Result<RawCStr, ConversionError>)
        ensures
            *final(cache) == *old(cache),
    {
        Ok(RawCStr::Static(self.bytes))
    }
}

} // verus!
