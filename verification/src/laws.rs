//! What holds of the cache over several conversions.

use crate::cache::{interned, target, valid_keys};
use crate::convert::{AsRawCstr, StaticCStr};
use crate::encoding::{c_encoding, encodable, is_c_string};
use crate::error::ConversionError;
use crate::pointer::RawCStr;
use vstd::prelude::*;

verus! {

/// Converting the same text a second time answers as the first time did and
/// leaves the cache as the first conversion left it.
pub proof fn law_deduplication(keys: Seq<Seq<char>>, text: Seq<char>)
    ensures
        interned(interned(keys, text).0, text) == (
            interned(keys, text).0,
            interned(keys, text).1,
        ),
{
    let after = interned(keys, text).0;
    if keys.contains(text) {
    } else if encodable(text) {
        assert(after[keys.len() as int] == text);
        assert(after.contains(text));
        assert(after.index_of(text) == keys.len());
    }
}

/// The pointer of a text that the cache holds does not change when any other
/// text is converted in between.
pub proof fn law_pointer_stability(keys: Seq<Seq<char>>, text: Seq<char>, other: Seq<char>)
    requires
        valid_keys(keys),
        keys.contains(text),
    ensures
        interned(interned(keys, other).0, text).1 == interned(keys, text).1,
{
    let after = interned(keys, other).0;
    let slot = keys.index_of(text);
    assert(after[slot] == text);
    assert(after.contains(text));
    let again = after.index_of(text);
    if again != slot {
        if again < keys.len() {
            assert(keys[again] == keys[slot]);
        } else {
            assert(after[again] == other);
        }
    }
}

/// Two different texts converted one after the other never get the same
/// pointer.
pub proof fn law_isolation(keys: Seq<Seq<char>>, first: Seq<char>, second: Seq<char>)
    requires
        valid_keys(keys),
        valid_keys(interned(keys, first).0),
        first != second,
    ensures
        interned(keys, first).1 is Ok && interned(interned(keys, first).0, second).1 is Ok
            ==> interned(keys, first).1 != interned(interned(keys, first).0, second).1,
{
    let middle = interned(keys, first).0;
    if encodable(first) && encodable(second) {
        law_deduplication(keys, first);
        assert(middle.contains(first));
        let a = middle.index_of(first);
        assert(interned(middle, first).1 == Ok::<RawCStr, ConversionError>(RawCStr::Cached(a as usize)));
        if middle.contains(second) {
            let b = middle.index_of(second);
            assert(middle[a] != middle[b]);
        }
    }
}

/// In a cache, the texts stored at different positions differ: no two entries
/// share a pointer, and no text has two.
pub proof fn law_one_pointer_per_text(keys: Seq<Seq<char>>, first: Seq<char>, second: Seq<char>)
    requires
        valid_keys(keys),
        keys.contains(first),
        keys.contains(second),
    ensures
        (first == second) <==> (interned(keys, first).1 == interned(keys, second).1),
{
    let a = keys.index_of(first);
    let b = keys.index_of(second);
    if first != second {
        assert(keys[a] != keys[b]);
    }
}

/// A text with a null byte is refused, and the cache stays as it was.
pub proof fn law_rejection(keys: Seq<Seq<char>>, text: Seq<char>)
    requires
        valid_keys(keys),
        !encodable(text),
    ensures
        interned(keys, text) == (keys, Err::<RawCStr, ConversionError>(ConversionError::EncodingError)),
{
    if keys.contains(text) {
        let slot = keys.index_of(text);
        assert(encodable(keys[slot]));
    }
}

/// The pointer of an encodable text addresses the bytes of the text followed
/// by one null byte, and no null byte comes before that one.
pub proof fn law_content_fidelity(keys: Seq<Seq<char>>, text: Seq<char>)
    requires
        valid_keys(keys),
        valid_keys(interned(keys, text).0),
        encodable(text),
    ensures
        interned(keys, text).1 is Ok,
        target(interned(keys, text).0, interned(keys, text).1.unwrap()) == Some(c_encoding(text)),
        is_c_string(c_encoding(text)),
{
    let after = interned(keys, text).0;
    if keys.contains(text) {
        let slot = keys.index_of(text);
        assert(keys[slot] == text);
    } else {
        assert(after[keys.len() as int] == text);
    }
    assert(c_encoding(text).drop_last() =~= vstd::utf8::encode_utf8(text));
}

/// What a pointer addresses does not change when a text is converted: the
/// cache only grows, and only behind the buffers it already owns.
pub proof fn law_targets_preserved(keys: Seq<Seq<char>>, text: Seq<char>, ptr: RawCStr)
    requires
        target(keys, ptr) is Some,
    ensures
        target(interned(keys, text).0, ptr) == target(keys, ptr),
{
}

/// Every buffer that a cache owns is a C string: it ends in a null byte and
/// holds no other.
pub proof fn law_cached_targets_are_c_strings(keys: Seq<Seq<char>>, slot: usize)
    requires
        valid_keys(keys),
        slot < keys.len(),
    ensures
        target(keys, RawCStr::Cached(slot)) == Some(c_encoding(keys[slot as int])),
        is_c_string(c_encoding(keys[slot as int])),
{
    let text = keys[slot as int];
    assert(encodable(text));
    assert(c_encoding(text).drop_last() =~= vstd::utf8::encode_utf8(text));
}

/// A static C string converts to the address of its own buffer every time,
/// whatever the cache holds, and the cache holds the same afterwards.
pub proof fn law_static_passthrough(
    handle: StaticCStr,
    keys: Seq<Seq<char>>,
    other_keys: Seq<Seq<char>>,
)
    ensures
        handle.converted(keys) == (
            keys,
            Ok::<RawCStr, ConversionError>(RawCStr::Static(handle.buffer())),
        ),
        handle.converted(handle.converted(keys).0) == handle.converted(keys),
        handle.converted(other_keys).1 == handle.converted(keys).1,
{
}

} // verus!
