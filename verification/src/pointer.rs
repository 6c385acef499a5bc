//! The pointer type that conversions hand out.

use vstd::prelude::*;

verus! {

/// The address of a null-terminated byte buffer, as handed to foreign code.
///
/// A pointer never owns what it addresses: it can be copied freely and
/// dropping it releases nothing. A cached pointer means something only to the
/// cache that handed it out. Two cached pointers are equal when they address
/// the same buffer of that cache; two static pointers are equal when their
/// buffers hold the same bytes.
#[derive(Clone, Copy, Debug, PartialEq, Eq)]
pub enum RawCStr {
    /// Addresses a buffer owned by a cache, by the position at which the cache
    /// allocated it. Valid until that cache is torn down.
    Cached(usize),
    /// Addresses a buffer of static lifetime. Valid for the whole process.
    Static(&'static [u8]),
}

impl RawCStr {
    /// Whether a cache owns the addressed buffer.
    pub fn is_cached(&self) -> (r: bool)
        ensures
            r == (*self is Cached),
    {
        match self {
            RawCStr::Cached(_) => true,
            RawCStr::Static(_) => false,
        }
    }
}

} // verus!
