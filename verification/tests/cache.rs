use raw_cstr::{raw_cstr, ConversionError, RawCStr, RawCStrs};

#[test]
fn new_cache_is_empty() {
    let cache = RawCStrs::new();
    assert_eq!(cache.len(), 0);
    assert!(cache.is_empty());
    assert!(!cache.contains("hello"));
}

#[test]
fn scenario_hello_world_bad_value() {
    let mut cache = RawCStrs::new();
    let p1 = cache.get_or_create("hello").unwrap();
    let again = cache.get_or_create("hello").unwrap();
    assert_eq!(again, p1);
    let p2 = cache.get_or_create("world").unwrap();
    assert_ne!(p2, p1);
    assert_eq!(
        cache.get_or_create("bad\0value"),
        Err(ConversionError::EncodingError)
    );
    assert_eq!(cache.len(), 2);
    assert!(cache.contains("hello"));
    assert!(cache.contains("world"));
    assert!(!cache.contains("bad\0value"));
}

#[test]
fn equal_text_gets_the_same_pointer() {
    let mut cache = RawCStrs::new();
    let first = cache.get_or_create("interned").unwrap();
    let owned = String::from("inter") + "ned";
    let second = cache.get_or_create(&owned).unwrap();
    assert_eq!(first, second);
    assert_eq!(cache.len(), 1);
}

#[test]
fn pointers_are_positions_in_order_of_first_use() {
    let mut cache = RawCStrs::new();
    assert_eq!(cache.get_or_create("a"), Ok(RawCStr::Cached(0)));
    assert_eq!(cache.get_or_create("b"), Ok(RawCStr::Cached(1)));
    assert_eq!(cache.get_or_create("a"), Ok(RawCStr::Cached(0)));
    assert_eq!(cache.get_or_create("c"), Ok(RawCStr::Cached(2)));
    assert_eq!(cache.get_or_create("b"), Ok(RawCStr::Cached(1)));
    assert_eq!(cache.len(), 3);
}

#[test]
fn pointer_stays_the_same_while_the_cache_grows() {
    let mut cache = RawCStrs::new();
    let early = cache.get_or_create("early").unwrap();
    for i in 0..200 {
        let text = format!("filler-{}", i);
        cache.get_or_create(&text).unwrap();
    }
    assert_eq!(cache.get_or_create("early"), Ok(early));
    assert_eq!(cache.bytes_at(early), Some(&b"early\0"[..]));
    assert_eq!(cache.len(), 201);
}

#[test]
fn pointer_addresses_the_text_and_one_terminator() {
    let mut cache = RawCStrs::new();
    let ptr = cache.get_or_create("hello").unwrap();
    assert_eq!(cache.bytes_at(ptr), Some(&b"hello\0"[..]));
}

#[test]
fn empty_text_is_only_the_terminator() {
    let mut cache = RawCStrs::new();
    let ptr = cache.get_or_create("").unwrap();
    assert_eq!(cache.bytes_at(ptr), Some(&[0u8][..]));
    assert_eq!(cache.len(), 1);
}

#[test]
fn multibyte_text_is_encoded_as_utf8() {
    let mut cache = RawCStrs::new();
    let ptr = cache.get_or_create("h\u{e9}\u{20ac}").unwrap();
    assert_eq!(
        cache.bytes_at(ptr),
        Some(&[b'h', 0xc3, 0xa9, 0xe2, 0x82, 0xac, 0][..])
    );
}

#[test]
fn distinct_texts_get_distinct_pointers() {
    let mut cache = RawCStrs::new();
    let a = cache.get_or_create("alpha").unwrap();
    let b = cache.get_or_create("beta").unwrap();
    let c = cache.get_or_create("alph").unwrap();
    assert_ne!(a, b);
    assert_ne!(a, c);
    assert_ne!(b, c);
    assert_eq!(cache.bytes_at(a), Some(&b"alpha\0"[..]));
    assert_eq!(cache.bytes_at(b), Some(&b"beta\0"[..]));
    assert_eq!(cache.bytes_at(c), Some(&b"alph\0"[..]));
}

#[test]
fn interior_null_is_rejected_and_nothing_is_stored() {
    let mut cache = RawCStrs::new();
    cache.get_or_create("kept").unwrap();
    assert_eq!(
        cache.get_or_create("bad\0value"),
        Err(ConversionError::EncodingError)
    );
    assert_eq!(cache.get_or_create("\0"), Err(ConversionError::EncodingError));
    assert_eq!(
        cache.get_or_create("trailing\0"),
        Err(ConversionError::EncodingError)
    );
    assert_eq!(cache.len(), 1);
    assert_eq!(cache.bytes_at(RawCStr::Cached(1)), None);
}

#[test]
fn teardown_empties_the_cache() {
    let mut cache = RawCStrs::new();
    let ptr = cache.get_or_create("one").unwrap();
    cache.get_or_create("two").unwrap();
    cache.get_or_create("one").unwrap();
    assert_eq!(cache.get_or_create("no\0"), Err(ConversionError::EncodingError));
    assert_eq!(cache.len(), 2);
    assert_eq!(cache.teardown(), 2);
    assert_eq!(cache.len(), 0);
    assert!(cache.is_empty());
    assert!(!cache.contains("one"));
    assert_eq!(cache.bytes_at(ptr), None);
}

#[test]
fn teardown_of_an_empty_cache_is_harmless() {
    let mut cache = RawCStrs::new();
    assert_eq!(cache.teardown(), 0);
    cache.get_or_create("once").unwrap();
    assert_eq!(cache.teardown(), 1);
    assert_eq!(cache.teardown(), 0);
    assert_eq!(cache.len(), 0);
}

#[test]
fn cache_after_teardown_is_as_new() {
    let mut cache = RawCStrs::new();
    cache.get_or_create("one").unwrap();
    cache.get_or_create("two").unwrap();
    cache.teardown();
    assert_eq!(cache.get_or_create("two"), Ok(RawCStr::Cached(0)));
    assert_eq!(cache.bytes_at(RawCStr::Cached(0)), Some(&b"two\0"[..]));
    assert_eq!(cache.len(), 1);
}

#[test]
fn caches_are_independent() {
    let mut left = RawCStrs::new();
    let mut right = RawCStrs::new();
    left.get_or_create("only-left").unwrap();
    assert_eq!(left.len(), 1);
    assert_eq!(right.len(), 0);
    assert!(!right.contains("only-left"));
    right.get_or_create("only-right").unwrap();
    assert!(!left.contains("only-right"));
}

#[test]
fn bytes_at_unknown_position_is_none() {
    let mut cache = RawCStrs::new();
    cache.get_or_create("x").unwrap();
    assert_eq!(cache.bytes_at(RawCStr::Cached(1)), None);
    assert_eq!(cache.bytes_at(RawCStr::Cached(usize::MAX)), None);
}

#[test]
fn bytes_at_static_pointer_is_its_buffer() {
    let cache = RawCStrs::new();
    let ptr = RawCStr::Static(b"fixed\0");
    assert_eq!(cache.bytes_at(ptr), Some(&b"fixed\0"[..]));
    assert!(!ptr.is_cached());
    assert!(RawCStr::Cached(0).is_cached());
}

#[test]
fn raw_cstr_goes_through_the_cache() {
    let mut cache = RawCStrs::new();
    let a = raw_cstr(&mut cache, "hello").unwrap();
    let b = cache.get_or_create("hello").unwrap();
    assert_eq!(a, b);
    assert_eq!(
        raw_cstr(&mut cache, "nul\0"),
        Err(ConversionError::EncodingError)
    );
    assert_eq!(cache.len(), 1);
}

#[test]
fn error_messages() {
    assert_eq!(
        ConversionError::EncodingError.message(),
        "text contains an interior null byte"
    );
    assert_eq!(
        ConversionError::InvalidUtf8.message(),
        "bytes are not valid UTF-8 text"
    );
    assert_eq!(
        ConversionError::NotNullTerminated.message(),
        "empty slice or last element is nonzero"
    );
}

#[test]
fn buffer_address_is_stable_while_the_cache_grows() {
    let mut cache = RawCStrs::new();
    let early = cache.get_or_create("early").unwrap();
    let other = cache.get_or_create("other").unwrap();
    let before = cache.bytes_at(early).unwrap().as_ptr() as usize;
    assert_ne!(before, cache.bytes_at(other).unwrap().as_ptr() as usize);
    for i in 0..500 {
        let text = format!("filler-{}", i);
        cache.get_or_create(&text).unwrap();
    }
    let again = cache.get_or_create("early").unwrap();
    let after = cache.bytes_at(again).unwrap().as_ptr() as usize;
    assert_eq!(before, after);
}
