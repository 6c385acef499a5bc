//! The interning cache: one owned, null-terminated buffer per distinct text.

use crate::encoding::{c_encoding, encodable, lemma_encodable_chars, terminated_copy};
use crate::error::ConversionError;
use crate::pointer::RawCStr;
use vstd::hash_map::StringHashMap;
use vstd::prelude::*;

verus! {

/// Whether a sequence of texts can be the contents of a cache: no text occurs
/// twice, every text is encodable, and every position fits a pointer.
pub open spec fn valid_keys(keys: Seq<Seq<char>>) -> bool {
    &&& keys.len() <= usize::MAX
    &&& forall|i: int, j: int| 0 <= i < j < keys.len() ==> keys[i] != keys[j]
    &&& forall|i: int| 0 <= i < keys.len() ==> encodable(#[trigger] keys[i])
}

/// What a cache holding `keys` becomes, and what it answers, when asked for the
/// pointer of `text`: a known text gets the pointer it got before, an
/// unencodable one is refused, and a new one is stored behind the others.
pub open spec fn interned(keys: Seq<Seq<char>>, text: Seq<char>) -> (
    Seq<Seq<char>>,
    Result<RawCStr, ConversionError>,
) {
    if keys.contains(text) {
        (keys, Ok(RawCStr::Cached(keys.index_of(text) as usize)))
    } else if !encodable(text) {
        (keys, Err(ConversionError::EncodingError))
    } else {
        (keys.push(text), Ok(RawCStr::Cached(keys.len() as usize)))
    }
}

/// The buffer that `ptr` addresses while a cache holds `keys`, if it addresses
/// any: a cached pointer addresses the encoding of the text stored at its
/// position, a static pointer the buffer it was made from.
pub open spec fn target(keys: Seq<Seq<char>>, ptr: RawCStr) -> Option<Seq<u8>> {
    match ptr {
        RawCStr::Cached(slot) => if slot < keys.len() {
            Some(c_encoding(keys[slot as int]))
        } else {
            None
        },
        RawCStr::Static(bytes) => Some(bytes@),
    }
}

/// The cache of one execution context.
///
/// Its view is the sequence of the texts it holds, in the order in which they
/// were first converted. The pointer of a text is its position in that
/// sequence and never changes while the cache lives.
pub struct RawCStrs {
    slots: StringHashMap<usize>,
    buffers: Vec<Vec<u8>>,
    keys: Ghost<Seq<Seq<char>>>,
}

impl View for RawCStrs {
    type V = Seq<Seq<char>>;

    closed spec fn view(&self) -> Seq<Seq<char>> {
        self.keys@
    }
}

impl RawCStrs {
    /// The invariant of the cache: the lookup table and the owned buffers
    /// agree with the sequence of texts, entry by entry.
    #[verifier::type_invariant]
    spec fn wf(&self) -> bool {
        &&& valid_keys(self.keys@)
        &&& self.buffers@.len() == self.keys@.len()
        &&& forall|text: Seq<char>| #[trigger]
            self.slots@.contains_key(text) ==> self.slots@[text] < self.keys@.len()
                && self.keys@[self.slots@[text] as int] == text
        &&& forall|i: int|
            0 <= i < self.keys@.len() ==> self.slots@.contains_key(#[trigger] self.keys@[i])
        &&& forall|i: int|
            0 <= i < self.keys@.len() ==> (#[trigger] self.buffers@[i])@ == c_encoding(
                self.keys@[i],
            )
    }

    /// The number of buffers that the cache owns.
    pub closed spec fn owned_buffers(&self) -> nat {
        self.buffers@.len()
    }

    /// An empty cache.
    pub fn new() -> (cache: Self)
        ensures
            cache@ == Seq::<Seq<char>>::empty(),
            cache.owned_buffers() == 0,
    {
        RawCStrs { slots: StringHashMap::new(), buffers: Vec::new(), keys: Ghost(Seq::empty()) }
    }

    /// The number of entries, each of which owns one buffer.
    pub fn len(&self) -> (n: usize)
        ensures
            n == self@.len(),
            n == self.owned_buffers(),
            valid_keys(self@),
    {
        proof {
            use_type_invariant(self);
        }
        self.buffers.len()
    }

    /// Whether the cache holds no entry.
    pub fn is_empty(&self) -> (r: bool)
        ensures
            r == (self@.len() == 0),
    {
        proof {
            use_type_invariant(self);
        }
        self.buffers.len() == 0
    }

    /// Whether the cache holds an entry for `key`.
    pub fn contains(&self, key: &str) -> (r: bool)
        ensures
            r == self@.contains(key@),
    {
        let found: bool = self.slots.contains_key(key);
        proof {
            use_type_invariant(self);
            if found {
                assert(self@[self.slots@[key@] as int] == key@);
            }
        }
        found
    }

    /// The pointer for `key`: the one stored for it, or else that of a buffer
    /// allocated now, which the cache owns from then on. Fails, and stores
    /// nothing, where `key` holds a null byte.
    pub fn get_or_create(&mut self, key: &str) -> (r: Result<RawCStr, ConversionError>)
        ensures
            (final(self)@, r) == interned(old(self)@, key@),
            r is Err <==> key@.contains('\0'),
            r is Ok ==> target(final(self)@, r.unwrap()) == Some(c_encoding(key@)),
            valid_keys(old(self)@),
            valid_keys(final(self)@),
    {
        proof {
            use_type_invariant(&*self);
            lemma_encodable_chars(key@);
        }
        let found: Option<usize> = match self.slots.get(key) {
            Some(slot) => Some(*slot),
            None => None,
        };
        match found {
            Some(slot) => {
                proof {
                    assert(self@[slot as int] == key@);
                    assert(self@.index_of(key@) == slot);
                }
                Ok(RawCStr::Cached(slot))
            },
            None => {
                proof {
                    assert(!self@.contains(key@));
                }
                match terminated_copy(key.as_bytes()) {
                    None => Err(ConversionError::EncodingError),
                    Some(buffer) => Ok(self.store(key, buffer)),
                }
            },
        }
    }

    /// Takes ownership of `buffer` as the encoding of `key`, which the cache
    /// does not hold yet, and hands out its pointer.
    fn store(&mut self, key: &str, buffer: Vec<u8>) -> (ptr: RawCStr)
        requires
            !old(self)@.contains(key@),
            encodable(key@),
            buffer@ == c_encoding(key@),
        ensures
            final(self)@ == old(self)@.push(key@),
            ptr == RawCStr::Cached(old(self)@.len() as usize),
            valid_keys(final(self)@),
    {
        proof {
            use_type_invariant(&*self);
        }
        let mut taken = RawCStrs::new();
        std::mem::swap(self, &mut taken);
        let RawCStrs { slots: mut slots, buffers: mut buffers, keys: Ghost(keys) } = taken;
        let slot: usize = buffers.len();
        let ghost old_slots = slots@;
        let ghost old_buffers = buffers@;
        buffers.push(buffer);
        slots.insert(key.to_owned(), slot);
        proof {
            let grown = keys.push(key@);
            assert(buffers@.len() == buffers.len());
            assert forall|text: Seq<char>| #[trigger]
                slots@.contains_key(text) implies slots@[text] < grown.len() && grown[slots@[text] as int]
                == text by {
                if text != key@ {
                    assert(old_slots.contains_key(text));
                }
            }
            assert forall|i: int| 0 <= i < grown.len() implies slots@.contains_key(
            #[trigger] grown[i]) by {
                if i < slot {
                    assert(old_slots.contains_key(keys[i]));
                }
            }
            assert forall|i: int| 0 <= i < grown.len() implies (#[trigger] buffers@[i])@
                == c_encoding(grown[i]) by {
                if i < slot {
                    assert(buffers@[i] == old_buffers[i]);
                }
            }
            assert forall|i: int, j: int| 0 <= i < j < grown.len() implies grown[i]
                != grown[j] by {
                if j == slot {
                    assert(keys[i] != key@);
                }
            }
        }
        *self = RawCStrs { slots, buffers, keys: Ghost(keys.push(key@)) };
        RawCStr::Cached(slot)
    }

    /// The buffer that `ptr` addresses, terminator included, or `None` for a
    /// cached pointer that this cache did not hand out.
    pub fn bytes_at<'a>(&'a self, ptr: RawCStr) -> (r: Option<&'a [u8]>)
        ensures
            match r {
                Some(bytes) => target(self@, ptr) == Some(bytes@),
                None => target(self@, ptr) is None,
            },
    {
        proof {
            use_type_invariant(self);
        }
        match ptr {
            RawCStr::Cached(slot) => {
                if slot < self.buffers.len() {
                    Some(self.buffers[slot].as_slice())
                } else {
                    None
                }
            },
            RawCStr::Static(bytes) => Some(bytes),
        }
    }

    /// Releases every buffer that the cache owns, each of them once, and
    /// forgets every entry: the cache is then as a new one. Answers how many
    /// buffers were released.
    pub fn teardown(&mut self) -> (released: usize)
        ensures
            final(self)@ == Seq::<Seq<char>>::empty(),
            final(self).owned_buffers() == 0,
            released == old(self).owned_buffers(),
            released == old(self)@.len(),
    {
        proof {
            use_type_invariant(&*self);
        }
        let mut taken = RawCStrs::new();
        std::mem::swap(self, &mut taken);
        let RawCStrs { slots: mut slots, buffers: mut buffers, keys: _ } = taken;
        let ghost total = buffers@.len();
        let mut released: usize = 0;
        while buffers.len() > 0
            invariant
                released + buffers@.len() == total,
                total <= usize::MAX,
            decreases buffers@.len(),
        {
            buffers.pop();
            released += 1;
        }
        slots.clear();
        released
    }
}

/// The pointer for `text` in `cache`: see [`RawCStrs::get_or_create`].
pub fn raw_cstr(cache: &mut RawCStrs, text: &str) -> (r: Result<RawCStr, ConversionError>)
    ensures
        (final(cache)@, r) == interned(old(cache)@, text@),
        r is Err <==> text@.contains('\0'),
        r is Ok ==> target(final(cache)@, r.unwrap()) == Some(c_encoding(text@)),
        valid_keys(old(cache)@),
        valid_keys(final(cache)@),
{
    cache.get_or_create(text)
}

} // verus!
