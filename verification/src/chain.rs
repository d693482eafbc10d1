//! The chain verifier: owns the funding cache and the knowledge of whether a
//! peer-event pump has been bound yet, exposes the synchronous cache probe,
//! the pieces of the composite retrieve, and the asynchronous lookup
//! capability. The composite runs decode, the two fetches, extraction, and
//! on success the cache write; the asynchronous path additionally resolves a
//! pending handle exactly once and says, in order, what to notify.

use vstd::prelude::*;

use crate::block::{Block, FundingOutput};
use crate::cache::FundingCache;
use crate::codec::spec_height;
use crate::error::LookupError;
use crate::lookup::{begin, on_block, spec_outcome, FetchAction, Lookup, Phase};
use crate::pending::{spec_resolve, PendingLookup};

verus! {

#[verifier::external_type_specification]
#[verifier::external_body]
pub struct ExChainHash(bitcoin::blockdata::constants::ChainHash);

/// A follow-up duty after a lookup resolves, for the task that drove it.
#[derive(Clone, Copy, Debug, PartialEq, Eq, Structural)]
pub enum ResolveAction {
    /// Feed the result into the network graph's channel-acceptance
    /// continuation (and forward the validated gossip onwards).
    FeedGraph,
    /// Wake the peer-event pump once, to drain gossip processing the
    /// resolution has unblocked.
    WakePump,
}

/// The duties one resolution attempt produces, in the order they must run:
/// on a first resolution the graph continuation comes first, then one pump
/// wake exactly when a pump was set; a repeated resolution produces nothing.
pub open spec fn spec_resolution_actions(
    slot_before: Option<Result<FundingOutput, LookupError>>,
    pump_set: bool,
) -> Seq<ResolveAction> {
    if slot_before is None {
        if pump_set {
            seq![ResolveAction::FeedGraph, ResolveAction::WakePump]
        } else {
            seq![ResolveAction::FeedGraph]
        }
    } else {
        Seq::<ResolveAction>::empty()
    }
}

/// What `get_utxo` hands its background task: the lookup to drive, the first
/// fetch to perform, and a snapshot of whether the peer-event pump was set
/// when the lookup began.
pub struct ScheduledLookup {
    /// The lookup, still waiting for its first response.
    pub lookup: Lookup,
    /// The first fetch to perform.
    pub first: FetchAction,
    /// Whether a peer-event pump was bound when the lookup began.
    pub pump_snapshot: bool,
}

/// The verifier: the funding cache and the late-bound pump's presence.
pub struct ChainVerifier {
    cache: FundingCache,
    pump_set: bool,
}

impl ChainVerifier {
    /// The funding amounts cached so far, by channel identifier.
    pub closed spec fn spec_cache(&self) -> Map<u64, u64> {
        self.cache@
    }

    /// Whether the peer-event pump has been bound yet.
    pub closed spec fn pump_is_set(&self) -> bool {
        self.pump_set
    }

    /// A fresh verifier: empty cache, no peer-event pump bound yet.
    pub fn new() -> (v: Self)
        ensures
            v.spec_cache() == Map::<u64, u64>::empty(),
            !v.pump_is_set(),
    {
        ChainVerifier { cache: FundingCache::new(), pump_set: false }
    }

    /// Late-bind the peer-event pump. The pump's owner is constructed after
    /// this verifier, so the binding happens once, after construction;
    /// until then its absence is a valid state, not an error.
    pub fn set_peer_event_pump(&mut self)
        requires
            !old(self).pump_is_set(),
        ensures
            final(self).pump_is_set(),
            final(self).spec_cache() == old(self).spec_cache(),
    {
        self.pump_set = true;
    }

    /// The synchronous cache probe: the amount recorded for an identifier,
    /// if any lookup for it has succeeded within this process's lifetime.
    pub fn get_cached_funding_value(&self, scid: u64) -> (r: Option<u64>)
        ensures
            r == if self.spec_cache().contains_key(scid) {
                Some(self.spec_cache()[scid])
            } else {
                None::<u64>
            },
    {
        self.cache.get(scid)
    }

    /// Finish the composite retrieve: resolve the lookup from the block
    /// response, and when the cache is attached and extraction succeeded,
    /// record the funding amount under the lookup's identifier. The cache is
    /// untouched on every failure and when it is not attached.
    pub fn complete_retrieve(&mut self, lk: Lookup, block: Option<Block>, attach_cache: bool) -> (r:
        (Lookup, FetchAction))
        requires
            lk.phase is FetchingBlock,
        ensures
            r.0.id == lk.id,
            r.0.phase matches Phase::Resolved { result } && result == spec_outcome(lk.id, block),
            r.1 is Done,
            final(self).pump_is_set() == old(self).pump_is_set(),
            attach_cache ==> (spec_outcome(lk.id, block) matches Ok(o) ==> final(self).spec_cache()
                == old(self).spec_cache().insert(lk.id, o.value)),
            !attach_cache ==> final(self).spec_cache() == old(self).spec_cache(),
            spec_outcome(lk.id, block) is Err ==> final(self).spec_cache() == old(
                self,
            ).spec_cache(),
    {
        let (done, act) = on_block(lk, block);
        if attach_cache {
            match &done.phase {
                Phase::Resolved { result: Ok(o) } => self.cache.put(done.id, o.value),
                _ => {},
            }
        }
        (done, act)
    }

    /// The asynchronous verification capability: return an unresolved
    /// pending handle at once, together with the work to schedule. Nothing
    /// has been fetched and nothing resolved when this returns, and the
    /// first fetch is requested whatever the cache already holds. The pump
    /// snapshot is taken here, so a race between binding the pump and
    /// beginning a lookup resolves to a plain yes or no.
    pub fn get_utxo(&self, _chain_id: &bitcoin::blockdata::constants::ChainHash, id: u64) -> (r: (
        PendingLookup,
        ScheduledLookup,
    ))
        ensures
            r.0@ is None,
            r.1.lookup.id == id,
            r.1.lookup.phase is FetchingHash,
            r.1.first matches FetchAction::FetchHash { height } && height == spec_height(id),
            r.1.pump_snapshot == self.pump_is_set(),
    {
        let (lookup, first) = begin(id);
        (
            PendingLookup::new(),
            ScheduledLookup { lookup, first, pump_snapshot: self.pump_set },
        )
    }
}

/// Resolve a finished lookup's pending handle and produce the follow-up
/// duties in order: feed the network graph's acceptance continuation first,
/// then wake the peer-event pump exactly once if the snapshot saw one set.
/// Only the first resolution fires; a repeated attempt leaves the first
/// result standing and produces no duties at all.
pub fn resolve_lookup(
    pending: &mut PendingLookup,
    result: Result<FundingOutput, LookupError>,
    pump_snapshot: bool,
) -> (acts: Vec<ResolveAction>)
    ensures
        final(pending)@ == spec_resolve(old(pending)@, result),
        acts@ == spec_resolution_actions(old(pending)@, pump_snapshot),
{
    let fired = pending.resolve(result);
    let mut acts: Vec<ResolveAction> = Vec::new();
    if fired {
        acts.push(ResolveAction::FeedGraph);
        if pump_snapshot {
            acts.push(ResolveAction::WakePump);
        }
    }
    proof {
        assert(acts@ =~= spec_resolution_actions(old(pending)@, pump_snapshot));
    }
    acts
}

/// What the direct value lookup returns: the extracted output's satoshi
/// amount, or the lookup's error unchanged.
pub open spec fn spec_funding_value(result: Result<FundingOutput, LookupError>) -> Result<
    u64,
    LookupError,
> {
    match result {
        Ok(o) => Ok(o.value),
        Err(e) => Err(e),
    }
}

/// Reduce a lookup's resolution to the funding amount alone.
pub fn funding_value(result: &Result<FundingOutput, LookupError>) -> (r: Result<u64, LookupError>)
    ensures
        r == spec_funding_value(*result),
{
    match result {
        Ok(o) => Ok(o.value),
        Err(e) => Err(*e),
    }
}

/// Cache consistency: a successful retrieve with the cache attached records
/// the extracted amount, so the cached probe for that identifier then
/// answers exactly that amount.
pub proof fn lemma_cache_consistency(cache: Map<u64, u64>, id: u64, amount: u64)
    ensures
        cache.insert(id, amount).contains_key(id),
        cache.insert(id, amount)[id] == amount,
{
}

/// Wake gating and single resolution, spelled out: a first resolution feeds
/// the graph first and wakes the pump exactly once when one is set, not at
/// all when none is; once a lookup is resolved, a further resolution
/// produces no duties whatever the prior result was.
pub proof fn lemma_wake_gating(prior: Result<FundingOutput, LookupError>)
    ensures
        spec_resolution_actions(None, false) =~= seq![ResolveAction::FeedGraph],
        spec_resolution_actions(None, true) =~= seq![
            ResolveAction::FeedGraph,
            ResolveAction::WakePump,
        ],
        spec_resolution_actions(Some(prior), false) =~= Seq::<ResolveAction>::empty(),
        spec_resolution_actions(Some(prior), true) =~= Seq::<ResolveAction>::empty(),
{
}

} // verus!
