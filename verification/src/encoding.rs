//! Null-terminated encoding of text, and the checks on byte buffers.

use vstd::prelude::*;
use vstd::utf8::{encode_scalar, encode_utf8, is_scalar, valid_utf8};

verus! {

/// Whether a byte sequence holds a null byte anywhere.
pub open spec fn has_nul(bytes: Seq<u8>) -> bool {
    exists|i: int| 0 <= i < bytes.len() && bytes[i] == 0u8
}

/// Whether a text can be encoded: its UTF-8 bytes hold no null byte.
pub open spec fn encodable(text: Seq<char>) -> bool {
    !has_nul(encode_utf8(text))
}

/// The null-terminated encoding of a text: its UTF-8 bytes, then one null byte.
pub open spec fn c_encoding(text: Seq<char>) -> Seq<u8> {
    encode_utf8(text).push(0u8)
}

/// Whether a buffer is non-empty and ends in a null byte.
pub open spec fn nul_terminated(bytes: Seq<u8>) -> bool {
    bytes.len() > 0 && bytes[bytes.len() - 1] == 0u8
}

/// Whether a buffer is a C string: null bytes occur at its end and nowhere else.
pub open spec fn is_c_string(bytes: Seq<u8>) -> bool {
    nul_terminated(bytes) && !has_nul(bytes.drop_last())
}

/// The encoding of a scalar value holds a null byte exactly when the value is
/// zero.
pub proof fn lemma_scalar_nul(scalar: u32)
    requires
        is_scalar(scalar),
    ensures
        has_nul(encode_scalar(scalar)) <==> scalar == 0,
{
    let bytes = encode_scalar(scalar);
    assert(scalar <= 0x7F ==> (((scalar & 0x7F) as u8 == 0u8) <==> scalar == 0)) by (bit_vector);
    assert(0xC0u8 | ((scalar >> 6) & 0x1F) as u8 != 0u8) by (bit_vector);
    assert(0xE0u8 | ((scalar >> 12) & 0x0F) as u8 != 0u8) by (bit_vector);
    assert(0xF0u8 | ((scalar >> 18) & 0x7) as u8 != 0u8) by (bit_vector);
    assert(0x80u8 | (scalar & 0x3F) as u8 != 0u8) by (bit_vector);
    assert(0x80u8 | ((scalar >> 6) & 0x3F) as u8 != 0u8) by (bit_vector);
    assert(0x80u8 | ((scalar >> 12) & 0x3F) as u8 != 0u8) by (bit_vector);
    if scalar == 0 {
        assert(bytes[0] == 0u8);
    }
}

/// A null byte occurs in two sequences put together exactly when it occurs in
/// one of them.
pub proof fn lemma_has_nul_concat(front: Seq<u8>, back: Seq<u8>)
    ensures
        has_nul(front + back) <==> has_nul(front) || has_nul(back),
{
    let whole = front + back;
    if has_nul(front) {
        let i = choose|i: int| 0 <= i < front.len() && front[i] == 0u8;
        assert(whole[i] == 0u8);
    }
    if has_nul(back) {
        let i = choose|i: int| 0 <= i < back.len() && back[i] == 0u8;
        assert(whole[front.len() + i] == 0u8);
    }
    if has_nul(whole) {
        let i = choose|i: int| 0 <= i < whole.len() && whole[i] == 0u8;
        if i < front.len() {
            assert(front[i] == 0u8);
        } else {
            assert(back[i - front.len()] == 0u8);
        }
    }
}

/// A text is encodable exactly when the null character does not occur in it.
pub proof fn lemma_encodable_chars(text: Seq<char>)
    ensures
        encodable(text) <==> !text.contains('\0'),
    decreases text.len(),
{
    if text.len() == 0 {
        assert(encode_utf8(text) =~= Seq::<u8>::empty());
    } else {
        let rest = text.drop_first();
        vstd::utf8::char_is_scalar(text[0]);
        lemma_scalar_nul(text[0] as u32);
        lemma_has_nul_concat(encode_scalar(text[0] as u32), encode_utf8(rest));
        lemma_encodable_chars(rest);
        assert((text[0] as u32 == 0) <==> text[0] == '\0') by {
            if text[0] as u32 == 0 {
                vstd::utf8::char_u32_cast(text[0], 0u32);
                vstd::utf8::char_u32_cast('\0', 0u32);
            }
        }
        if rest.contains('\0') {
            let i = choose|i: int| 0 <= i < rest.len() && rest[i] == '\0';
            assert(text[i + 1] == '\0');
        }
        if text.contains('\0') {
            let i = choose|i: int| 0 <= i < text.len() && text[i] == '\0';
            if i > 0 {
                assert(rest[i - 1] == '\0');
            }
        }
    }
}

/// Copies `bytes` into a fresh buffer and appends the terminator, unless a
/// null byte occurs in `bytes`.
pub fn terminated_copy(bytes: &[u8]) -> (r: Option<Vec<u8>>)
    ensures
        r is None <==> has_nul(bytes@),
        r is Some ==> r.unwrap()@ == bytes@.push(0u8),
{
    let mut buffer: Vec<u8> = Vec::new();
    let mut i: usize = 0;
    while i < bytes.len()
        invariant
            i <= bytes.len(),
            buffer@ == bytes@.take(i as int),
            !has_nul(bytes@.take(i as int)),
        decreases bytes.len() - i,
    {
        let byte: u8 = bytes[i];
        if byte == 0 {
            return None;
        }
        buffer.push(byte);
        proof {
            assert(bytes@.take(i + 1) =~= bytes@.take(i as int).push(byte));
        }
        i += 1;
    }
    proof {
        assert(bytes@.take(i as int) =~= bytes@);
    }
    buffer.push(0);
    Some(buffer)
}

/// Whether `bytes` is non-empty and its last byte is the terminator.
pub fn ends_with_nul(bytes: &[u8]) -> (r: bool)
    ensures
        r == nul_terminated(bytes@),
{
    bytes.len() > 0 && bytes[bytes.len() - 1] == 0
}

/// Whether `bytes` is a C string: terminated, with no null byte before the end.
pub fn check_c_string(bytes: &[u8]) -> (r: bool)
    ensures
        r == is_c_string(bytes@),
{
    if !ends_with_nul(bytes) {
        return false;
    }
    let last: usize = bytes.len() - 1;
    let mut i: usize = 0;
    while i < last
        invariant
            i <= last,
            last == bytes.len() - 1,
            !has_nul(bytes@.drop_last().take(i as int)),
        decreases last - i,
    {
        if bytes[i] == 0 {
            assert(bytes@.drop_last()[i as int] == 0u8);
            return false;
        }
        proof {
            assert(bytes@.drop_last().take(i + 1) =~= bytes@.drop_last().take(i as int).push(
                bytes@[i as int],
            ));
        }
        i += 1;
    }
    proof {
        assert(bytes@.drop_last().take(i as int) =~= bytes@.drop_last());
    }
    true
}

/// Reads `bytes` as text through `core::str::from_utf8`.
///
/// Not proved: that the call succeeds exactly on well-formed UTF-8, and that
/// the text it returns is the one whose UTF-8 encoding is `bytes`.
#[verifier::external_body]
pub(crate) fn text_of<'a>(bytes: &'a [u8]) -> (r: Option<&'a str>)
    ensures
        r is Some <==> valid_utf8(bytes@),
        r is Some ==> encode_utf8(r.unwrap()@) == bytes@,
{
    core::str::from_utf8(bytes).ok()
}

} // verus!
