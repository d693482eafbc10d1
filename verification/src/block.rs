//! The on-chain data the extractor reads: a block is a list of transactions,
//! a transaction a list of outputs, an output an amount in satoshis with its
//! locking script. Extraction locates one output by its decoded indices,
//! rejecting any index that falls outside the block.

use vstd::prelude::*;

use crate::error::LookupError;

verus! {

/// An on-chain funding output: the satoshi amount and the locking script.
/// Obtained only by successful extraction, never constructed speculatively.
#[derive(Clone, Debug, PartialEq, Eq)]
pub struct FundingOutput {
    /// The amount in satoshis.
    pub value: u64,
    /// The output's locking script, as raw bytes.
    pub script_pubkey: Vec<u8>,
}

/// One transaction, reduced to what extraction reads: its outputs.
#[derive(Clone, Debug, PartialEq, Eq)]
pub struct Transaction {
    /// The transaction's outputs, in order.
    pub output: Vec<FundingOutput>,
}

/// One block, reduced to what extraction reads: its transactions.
#[derive(Clone, Debug, PartialEq, Eq)]
pub struct Block {
    /// The block's transactions, in order.
    pub txdata: Vec<Transaction>,
}

/// What `extract` returns: the output at the decoded position, or
/// `UnknownTx` as soon as either index falls outside the block.
pub open spec fn spec_extract(block: Block, tx_index: u32, output_index: u16) -> Result<
    FundingOutput,
    LookupError,
> {
    if tx_index as int >= block.txdata@.len() {
        Err(LookupError::UnknownTx)
    } else if output_index as int >= block.txdata@[tx_index as int].output@.len() {
        Err(LookupError::UnknownTx)
    } else {
        Ok(block.txdata@[tx_index as int].output@[output_index as int])
    }
}

/// Locate the funding output named by the decoded indices, taking it out of
/// the block. Fails with `UnknownTx` exactly when the transaction index is
/// out of range for the block, or the output index is out of range for that
/// transaction.
pub fn extract(block: Block, tx_index: u32, output_index: u16) -> (r: Result<
    FundingOutput,
    LookupError,
>)
    ensures
        r == spec_extract(block, tx_index, output_index),
{
    let mut block = block;
    if tx_index as usize >= block.txdata.len() {
        return Err(LookupError::UnknownTx);
    }
    let mut transaction = block.txdata.swap_remove(tx_index as usize);
    if output_index as usize >= transaction.output.len() {
        return Err(LookupError::UnknownTx);
    }
    Ok(transaction.output.swap_remove(output_index as usize))
}

} // verus!
