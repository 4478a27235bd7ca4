//! The store: a mapping from string keys to byte-sequence values.
//!
//! A key is either absent or mapped to exactly one value; insertion order
//! is irrelevant and values are opaque byte sequences. The store is the
//! only stateful entity of the service.

use vstd::prelude::*;
use vstd::hash_map::StringHashMap;

verus! {

/// In-memory mapping from string keys to byte-sequence values.
pub struct Store {
    map: StringHashMap<Vec<u8>>,
}

impl View for Store {
    type V = Map<Seq<char>, Seq<u8>>;

    /// The mathematical contents of the store: each present key is mapped
    /// to exactly one byte sequence.
    closed spec fn view(&self) -> Map<Seq<char>, Seq<u8>> {
        Map::new(
            |k: Seq<char>| self.map@.contains_key(k),
            |k: Seq<char>| self.map@[k]@,
        )
    }
}

impl Store {
    /// Creates an empty store.
    pub fn new() -> (result: Self)
        ensures
            result@ == Map::<Seq<char>, Seq<u8>>::empty(),
    {
        let s = Store { map: StringHashMap::new() };
        proof {
            assert(s@ =~= Map::<Seq<char>, Seq<u8>>::empty());
        }
        s
    }

    /// Returns the current value for `key`, or `None` if the key is absent.
    pub fn get(&self, key: &str) -> (result: Option<&Vec<u8>>)
        ensures
            match result {
                Some(v) => self@.contains_key(key@) && v@ == self@[key@],
                None => !self@.contains_key(key@),
            },
    {
        self.map.get(key)
    }

    /// Unconditional upsert: overwrites any existing value for `key`.
    pub fn put(&mut self, key: String, value: Vec<u8>)
        ensures
            final(self)@ == old(self)@.insert(key@, value@),
    {
        let ghost prev = self@;
        let ghost k = key@;
        let ghost v = value@;
        self.map.insert(key, value);
        proof {
            assert(self@ =~= prev.insert(k, v));
        }
    }

    /// Returns true if `key` is present in the store.
    pub fn contains_key(&self, key: &str) -> (result: bool)
        ensures
            result == self@.contains_key(key@),
    {
        self.map.contains_key(key)
    }

    /// Returns the number of keys currently present.
    pub fn len(&self) -> (result: usize)
        ensures
            result == self@.len(),
    {
        proof {
            assert(self@.dom() =~= self.map@.dom());
        }
        self.map.len()
    }
}

} // verus!
