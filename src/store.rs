use std::collections::HashMap;
use vstd::prelude::*;

use crate::key::{lemma_encode_injective, StoreKey};

verus! {

broadcast use vstd::std_specs::hash::group_hash_axioms;

/// A value held in the store: the counter, a principal or a string token.
pub enum StoreValue<P, T> {
    Count(u32),
    Principal(P),
    Token(T),
}

/// A key/value store with last-writer-wins writes and no deletion, addressed
/// by `StoreKey` through its flat encoding.
pub struct KvStore<P, T> {
    entries: HashMap<u64, StoreValue<P, T>>,
}

impl<P, T> View for KvStore<P, T> {
    type V = Map<StoreKey, StoreValue<P, T>>;

    closed spec fn view(&self) -> Map<StoreKey, StoreValue<P, T>> {
        Map::new(
            |k: StoreKey| self.entries@.contains_key(k.spec_encode() as u64),
            |k: StoreKey| self.entries@[k.spec_encode() as u64],
        )
    }
}

impl<P, T> KvStore<P, T> {
    /// An empty store.
    pub fn new() -> (r: Self)
        ensures
            r@ == Map::<StoreKey, StoreValue<P, T>>::empty(),
    {
        let r = KvStore { entries: HashMap::new() };
        assert(r@ =~= Map::<StoreKey, StoreValue<P, T>>::empty());
        r
    }

    /// The value under `key`, if one was ever written.
    pub fn get(&self, key: &StoreKey) -> (r: Option<&StoreValue<P, T>>)
        ensures
            match r {
                Some(v) => self@.contains_key(*key) && *v == self@[*key],
                None => !self@.contains_key(*key),
            },
    {
        let k: u64 = key.encode();
        self.entries.get(&k)
    }

    /// Writes `value` under `key`, replacing what was there.
    pub fn set(&mut self, key: StoreKey, value: StoreValue<P, T>)
        ensures
            final(self)@ == old(self)@.insert(key, value),
    {
        let k: u64 = key.encode();
        self.entries.insert(k, value);
        proof {
            assert forall|j: StoreKey| #![auto] j.spec_encode() as u64 == k implies j == key by {
                lemma_encode_injective(j, key);
            }
            assert(self@ =~= old(self)@.insert(key, value));
        }
    }
}

} // verus!
