//! The funding cache: a mapping from channel identifier to funding amount in
//! satoshis, written on every successful extraction and read for fast-path
//! amount queries. Insertion-only: nothing is ever removed or expired.

use std::collections::HashMap;

use vstd::prelude::*;

verus! {

broadcast use vstd::std_specs::hash::group_hash_axioms;

/// The cache of funding amounts, keyed by channel identifier.
pub struct FundingCache {
    map: HashMap<u64, u64>,
}

impl View for FundingCache {
    type V = Map<u64, u64>;

    closed spec fn view(&self) -> Map<u64, u64> {
        self.map@
    }
}

impl FundingCache {
    /// An empty cache.
    pub fn new() -> (c: Self)
        ensures
            c@ == Map::<u64, u64>::empty(),
    {
        FundingCache { map: HashMap::new() }
    }

    /// The cached amount for an identifier, if one was ever recorded.
    pub fn get(&self, scid: u64) -> (r: Option<u64>)
        ensures
            r == if self@.contains_key(scid) {
                Some(self@[scid])
            } else {
                None::<u64>
            },
    {
        match self.map.get(&scid) {
            Some(v) => Some(*v),
            None => None,
        }
    }

    /// Record an amount for an identifier: an unconditional overwrite. The
    /// chain data behind a given identifier is immutable, so concurrent
    /// writers for one key are idempotent and last-write-wins is safe.
    pub fn put(&mut self, scid: u64, amount: u64)
        ensures
            final(self)@ == old(self)@.insert(scid, amount),
    {
        self.map.insert(scid, amount);
    }
}

} // verus!
