//! The per-lookup state machine. A lookup starts by fetching the hash of the
//! block at the decoded height, then fetches the full block by that hash,
//! then extracts the funding output. The two fetches are the caller's to
//! perform: each step here takes what the data source answered and says what
//! to do next, so every decision along the way is checked while the network
//! work stays outside. Any failed step jumps straight to the terminal
//! resolved state; there is no retry.

use vstd::prelude::*;

use crate::block::{spec_extract, Block, FundingOutput};
use crate::codec::{decode, spec_height, spec_output_index, spec_tx_index};
use crate::error::LookupError;

verus! {

#[verifier::external_type_specification]
#[verifier::external_body]
pub struct ExBlockHash(bitcoin::BlockHash);

#[verifier::external_type_specification]
#[verifier::external_body]
pub struct ExFromSliceError(bitcoin::hashes::FromSliceError);

/// Relies on `bitcoin::hashes::Hash::from_slice` for `BlockHash`: it returns
/// `Ok`, the hash made of the slice's bytes, exactly when the slice holds 32
/// bytes, and the invalid-length error otherwise.
#[verifier::external_body]
fn block_hash_from_slice(b: &[u8]) -> (r: Result<
    bitcoin::BlockHash,
    bitcoin::hashes::FromSliceError,
>)
    ensures
        r is Ok <==> b@.len() == 32,
{
    <bitcoin::BlockHash as bitcoin::hashes::Hash>::from_slice(b)
}

/// How far one lookup has got.
pub enum Phase {
    /// Waiting for the hash of the block at the decoded height.
    FetchingHash,
    /// Waiting for the full block behind the fetched hash.
    FetchingBlock,
    /// Terminal: the lookup finished with this result.
    Resolved { result: Result<FundingOutput, LookupError> },
}

/// One in-flight lookup: the identifier under verification and its phase.
pub struct Lookup {
    /// The channel identifier being verified.
    pub id: u64,
    /// How far the lookup has got.
    pub phase: Phase,
}

/// What the caller must do next to move a lookup along.
pub enum FetchAction {
    /// Ask the data source for the hash of the block at this height.
    FetchHash { height: u32 },
    /// Ask the data source for the full block with this hash.
    FetchBlock { hash: bitcoin::BlockHash },
    /// Nothing: the lookup is resolved.
    Done,
}

/// Whether a hash response is usable: a body arrived and it holds exactly
/// the 32 bytes of a block hash.
pub open spec fn valid_hash_body(body: Option<Vec<u8>>) -> bool {
    body matches Some(b) && b@.len() == 32
}

/// What a lookup resolves to once the block fetch has answered: extraction
/// on a full block, `UnknownChain` when the fetch failed.
pub open spec fn spec_outcome(id: u64, block: Option<Block>) -> Result<
    FundingOutput,
    LookupError,
> {
    match block {
        Some(b) => spec_extract(b, spec_tx_index(id), spec_output_index(id)),
        None => Err(LookupError::UnknownChain),
    }
}

/// Start a lookup: decode the identifier and ask for the hash of the block
/// at the decoded height. Pure bookkeeping: nothing is fetched here, and the
/// first fetch is requested whatever the cache may already hold (the
/// composite is non-memoizing by design).
pub fn begin(id: u64) -> (r: (Lookup, FetchAction))
    ensures
        r.0.id == id,
        r.0.phase is FetchingHash,
        r.1 matches FetchAction::FetchHash { height } && height == spec_height(id),
{
    let d = decode(id);
    (Lookup { id, phase: Phase::FetchingHash }, FetchAction::FetchHash { height: d.height })
}

/// Take the hash response. A usable 32-byte body moves the lookup on to the
/// block fetch; a missing or malformed body resolves it with `UnknownChain`
/// (the data source must expose a block-by-height capability).
pub fn on_hash(lk: Lookup, body: Option<Vec<u8>>) -> (r: (Lookup, FetchAction))
    requires
        lk.phase is FetchingHash,
    ensures
        r.0.id == lk.id,
        valid_hash_body(body) ==> r.0.phase is FetchingBlock && r.1 is FetchBlock,
        !valid_hash_body(body) ==> (r.0.phase matches Phase::Resolved { result } && result == Err::<
            FundingOutput,
            LookupError,
        >(LookupError::UnknownChain) && r.1 is Done),
{
    let id = lk.id;
    match body {
        Some(bytes) => match block_hash_from_slice(bytes.as_slice()) {
            Ok(hash) => (
                Lookup { id, phase: Phase::FetchingBlock },
                FetchAction::FetchBlock { hash },
            ),
            Err(_) => (
                Lookup { id, phase: Phase::Resolved { result: Err(LookupError::UnknownChain) } },
                FetchAction::Done,
            ),
        },
        None => (
            Lookup { id, phase: Phase::Resolved { result: Err(LookupError::UnknownChain) } },
            FetchAction::Done,
        ),
    }
}

/// Take the block response and resolve the lookup: a full block goes through
/// extraction at the decoded indices; a failed fetch, or a response that was
/// not a full block, resolves with `UnknownChain`.
pub fn on_block(lk: Lookup, block: Option<Block>) -> (r: (Lookup, FetchAction))
    requires
        lk.phase is FetchingBlock,
    ensures
        r.0.id == lk.id,
        r.0.phase matches Phase::Resolved { result } && result == spec_outcome(lk.id, block),
        r.1 is Done,
{
    let id = lk.id;
    let result = match block {
        Some(b) => {
            let d = decode(id);
            crate::block::extract(b, d.tx_index, d.output_index)
        },
        None => Err(LookupError::UnknownChain),
    };
    (Lookup { id, phase: Phase::Resolved { result } }, FetchAction::Done)
}

} // verus!
