use chain_verifier::block::{extract, Block, FundingOutput, Transaction};
use chain_verifier::cache::FundingCache;
use chain_verifier::chain::{funding_value, resolve_lookup, ChainVerifier, ResolveAction};
use chain_verifier::error::LookupError;
use chain_verifier::lookup::{begin, on_block, on_hash, FetchAction, Phase};
use chain_verifier::pending::PendingLookup;

fn output(value: u64) -> FundingOutput {
    FundingOutput { value, script_pubkey: vec![0x51] }
}

fn four_tx_block() -> Block {
    // Four transactions; transaction 3 has two outputs of known amounts.
    Block {
        txdata: vec![
            Transaction { output: vec![output(10)] },
            Transaction { output: vec![output(20)] },
            Transaction { output: vec![output(30)] },
            Transaction { output: vec![output(40), output(123_456)] },
        ],
    }
}

fn genesis_chain_id() -> bitcoin::blockdata::constants::ChainHash {
    bitcoin::blockdata::constants::ChainHash::BITCOIN
}

#[test]
fn extract_tx_index_out_of_range() {
    let block = four_tx_block();
    assert_eq!(extract(block, 4, 0), Err(LookupError::UnknownTx));
    let block = four_tx_block();
    assert_eq!(extract(block, 1000, 0), Err(LookupError::UnknownTx));
}

#[test]
fn extract_output_index_out_of_range() {
    let block = four_tx_block();
    assert_eq!(extract(block, 0, 1), Err(LookupError::UnknownTx));
    let block = four_tx_block();
    assert_eq!(extract(block, 3, 2), Err(LookupError::UnknownTx));
}

#[test]
fn extract_in_range() {
    let block = four_tx_block();
    assert_eq!(extract(block, 3, 1), Ok(output(123_456)));
}

#[test]
fn hash_step_accepts_only_32_byte_bodies() {
    let (lk, _) = begin(7);
    let (lk, act) = on_hash(lk, Some(vec![0xAB; 32]));
    assert!(matches!(lk.phase, Phase::FetchingBlock));
    assert!(matches!(act, FetchAction::FetchBlock { .. }));

    for bad in [Some(Vec::new()), Some(vec![0xAB; 31]), Some(vec![0xAB; 33]), None] {
        let (lk, _) = begin(7);
        let (lk, act) = on_hash(lk, bad);
        assert!(matches!(
            lk.phase,
            Phase::Resolved { result: Err(LookupError::UnknownChain) }
        ));
        assert!(matches!(act, FetchAction::Done));
    }
}

#[test]
fn block_fetch_failure_is_unknown_chain() {
    let (lk, _) = begin(7);
    let (lk, _) = on_hash(lk, Some(vec![0xAB; 32]));
    let (lk, act) = on_block(lk, None);
    assert!(matches!(
        lk.phase,
        Phase::Resolved { result: Err(LookupError::UnknownChain) }
    ));
    assert!(matches!(act, FetchAction::Done));
}

#[test]
fn end_to_end_success_populates_cache() {
    // A fake data source answers with a block of four transactions where
    // transaction 3 holds two outputs; the identifier points at output 1.
    let height: u64 = 800000;
    let id: u64 = (height << 40) | (3u64 << 16) | 1u64;
    let mut verifier = ChainVerifier::new();

    let (pending, scheduled) = verifier.get_utxo(&genesis_chain_id(), id);
    assert!(!pending.is_resolved());
    assert!(matches!(scheduled.first, FetchAction::FetchHash { height: 800000 }));

    let (lk, _) = on_hash(scheduled.lookup, Some(vec![0xAB; 32]));
    let (lk, _) = verifier.complete_retrieve(lk, Some(four_tx_block()), true);
    match &lk.phase {
        Phase::Resolved { result: Ok(o) } => assert_eq!(o.value, 123_456),
        _ => panic!("lookup did not resolve to the funding output"),
    }
    assert_eq!(verifier.get_cached_funding_value(id), Some(123_456));
}

#[test]
fn end_to_end_empty_hash_body_is_unknown_chain() {
    let id: u64 = (800000u64 << 40) | (3u64 << 16) | 1u64;
    let verifier = ChainVerifier::new();
    let (mut pending, scheduled) = verifier.get_utxo(&genesis_chain_id(), id);
    let (lk, _) = on_hash(scheduled.lookup, Some(Vec::new()));
    let result = match lk.phase {
        Phase::Resolved { result } => result,
        _ => panic!("lookup still in flight after a bad hash body"),
    };
    assert_eq!(result, Err(LookupError::UnknownChain));
    let acts = resolve_lookup(&mut pending, result, scheduled.pump_snapshot);
    assert_eq!(acts, vec![ResolveAction::FeedGraph]);
    assert_eq!(
        *pending.result(),
        Some(Err(LookupError::UnknownChain))
    );
}

#[test]
fn cache_failure_after_success_keeps_cached_value() {
    // First retrieve succeeds and fills the cache; a second retrieve against
    // a now-failing data source fails, but the cache probe still answers.
    let id: u64 = (800000u64 << 40) | (3u64 << 16) | 1u64;
    let mut verifier = ChainVerifier::new();

    let (lk, _) = begin(id);
    let (lk, _) = on_hash(lk, Some(vec![0xAB; 32]));
    let (_, _) = verifier.complete_retrieve(lk, Some(four_tx_block()), true);
    assert_eq!(verifier.get_cached_funding_value(id), Some(123_456));

    // The composite is non-memoizing by design: a fresh lookup fetches again.
    let (lk, act) = begin(id);
    assert!(matches!(act, FetchAction::FetchHash { height: 800000 }));
    let (lk, _) = on_hash(lk, Some(vec![0xAB; 32]));
    let (lk, _) = verifier.complete_retrieve(lk, None, true);
    assert!(matches!(
        lk.phase,
        Phase::Resolved { result: Err(LookupError::UnknownChain) }
    ));
    // The failed second lookup did not disturb the cached amount.
    assert_eq!(verifier.get_cached_funding_value(id), Some(123_456));
}

#[test]
fn cache_not_attached_records_nothing() {
    let id: u64 = (800000u64 << 40) | (3u64 << 16) | 1u64;
    let mut verifier = ChainVerifier::new();
    let (lk, _) = begin(id);
    let (lk, _) = on_hash(lk, Some(vec![0xAB; 32]));
    let (lk, _) = verifier.complete_retrieve(lk, Some(four_tx_block()), false);
    assert!(matches!(lk.phase, Phase::Resolved { result: Ok(_) }));
    assert_eq!(verifier.get_cached_funding_value(id), None);
}

#[test]
fn pending_handle_is_unresolved_before_any_network_work() {
    let verifier = ChainVerifier::new();
    let (pending, scheduled) = verifier.get_utxo(&genesis_chain_id(), 42);
    assert!(!pending.is_resolved());
    assert_eq!(*pending.result(), None);
    assert!(matches!(scheduled.lookup.phase, Phase::FetchingHash));
}

#[test]
fn resolution_fires_exactly_once() {
    let mut pending = PendingLookup::new();
    let first = Ok(output(5));
    let second = Err(LookupError::UnknownTx);
    assert!(pending.resolve(first.clone()));
    assert!(!pending.resolve(second));
    assert_eq!(*pending.result(), Some(first));
}

#[test]
fn wake_gating_without_pump() {
    let verifier = ChainVerifier::new();
    let (mut pending, scheduled) = verifier.get_utxo(&genesis_chain_id(), 42);
    let acts = resolve_lookup(&mut pending, Err(LookupError::UnknownChain), scheduled.pump_snapshot);
    // No pump set: the graph is fed, nothing is woken, and no error arises.
    assert_eq!(acts, vec![ResolveAction::FeedGraph]);
}

#[test]
fn wake_gating_with_pump() {
    let mut verifier = ChainVerifier::new();
    verifier.set_peer_event_pump();
    let (mut pending, scheduled) = verifier.get_utxo(&genesis_chain_id(), 42);
    let acts = resolve_lookup(&mut pending, Err(LookupError::UnknownChain), scheduled.pump_snapshot);
    // Exactly one wake, after the graph continuation.
    assert_eq!(acts, vec![ResolveAction::FeedGraph, ResolveAction::WakePump]);

    // A repeated resolution of the same lookup produces no duties at all.
    let acts = resolve_lookup(&mut pending, Err(LookupError::UnknownTx), scheduled.pump_snapshot);
    assert_eq!(acts, Vec::new());
}

#[test]
fn cache_put_get_and_overwrite() {
    let mut cache = FundingCache::new();
    assert_eq!(cache.get(9), None);
    cache.put(9, 1000);
    assert_eq!(cache.get(9), Some(1000));
    // Unconditional overwrite: a later writer for the same key wins.
    cache.put(9, 2000);
    assert_eq!(cache.get(9), Some(2000));
    assert_eq!(cache.get(10), None);
}

#[test]
fn funding_value_reduces_to_amount() {
    assert_eq!(funding_value(&Ok(output(99))), Ok(99));
    assert_eq!(
        funding_value(&Err(LookupError::UnknownTx)),
        Err(LookupError::UnknownTx)
    );
    assert_eq!(
        funding_value(&Err(LookupError::UnknownChain)),
        Err(LookupError::UnknownChain)
    );
}
