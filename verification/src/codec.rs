//! The channel identifier codec: a 64-bit identifier packs a block height
//! (24 bits), a transaction index (24 bits) and an output index (16 bits),
//! most significant first. Decoding is total and lossless.

use vstd::prelude::*;

verus! {

/// A decoded channel identifier: where on chain the funding output lives.
#[derive(Clone, Copy, Debug, PartialEq, Eq, Structural)]
pub struct DecodedId {
    /// Block height, from the top 24 bits.
    pub height: u32,
    /// Index of the transaction within the block, from the middle 24 bits.
    pub tx_index: u32,
    /// Index of the output within the transaction, from the low 16 bits.
    pub output_index: u16,
}

/// The block height packed into the identifier: its top three bytes.
pub open spec fn spec_height(id: u64) -> u32 {
    (id >> 40) as u32
}

/// The transaction index packed into the identifier: its middle three bytes.
pub open spec fn spec_tx_index(id: u64) -> u32 {
    ((id >> 16) & 0xffffff) as u32
}

/// The output index packed into the identifier: its low two bytes.
pub open spec fn spec_output_index(id: u64) -> u16 {
    (id & 0xffff) as u16
}

/// What `decode` returns on each identifier.
pub open spec fn spec_decode(id: u64) -> DecodedId {
    DecodedId {
        height: spec_height(id),
        tx_index: spec_tx_index(id),
        output_index: spec_output_index(id),
    }
}

/// What `encode` returns on each triple in range.
pub open spec fn spec_encode(d: DecodedId) -> u64 {
    ((d.height as u64) << 40) | ((d.tx_index as u64) << 16) | (d.output_index as u64)
}

/// Whether a triple fits the 24/24/16-bit layout without truncation.
pub open spec fn fits_layout(d: DecodedId) -> bool {
    d.height < 0x1000000 && d.tx_index < 0x1000000
}

/// Split an identifier into height, transaction index and output index.
/// Total: every 64-bit value decodes, and the pieces fit the layout.
pub fn decode(id: u64) -> (d: DecodedId)
    ensures
        d == spec_decode(id),
        fits_layout(d),
{
    let height: u32 = (id >> 40) as u32;
    let tx_index: u32 = ((id >> 16) & 0xffffff) as u32;
    let output_index: u16 = (id & 0xffff) as u16;
    proof {
        lemma_decode_fits(id);
    }
    DecodedId { height, tx_index, output_index }
}

/// Pack height, transaction index and output index back into an identifier.
pub fn encode(d: DecodedId) -> (id: u64)
    requires
        fits_layout(d),
    ensures
        id == spec_encode(d),
        spec_decode(id) == d,
{
    proof {
        lemma_encode_decode(d);
    }
    ((d.height as u64) << 40) | ((d.tx_index as u64) << 16) | (d.output_index as u64)
}

/// The decoded pieces always fit the 24/24/16-bit layout.
pub proof fn lemma_decode_fits(id: u64)
    ensures
        fits_layout(spec_decode(id)),
{
    assert(((id >> 40) as u32) < 0x1000000 && (((id >> 16) & 0xffffff) as u32) < 0x1000000)
        by (bit_vector);
}

/// Round trip one way: re-encoding a decoded identifier reproduces it
/// exactly, for every 64-bit identifier.
pub proof fn lemma_round_trip(id: u64)
    ensures
        spec_encode(spec_decode(id)) == id,
{
    assert((((id >> 40) as u32 as u64) << 40) | ((((id >> 16) & 0xffffff) as u32 as u64) << 16) | (
    (id & 0xffff) as u16 as u64) == id) by (bit_vector);
}

/// Round trip the other way: a triple that fits the layout is recovered
/// exactly from its encoding.
pub proof fn lemma_encode_decode(d: DecodedId)
    requires
        fits_layout(d),
    ensures
        spec_decode(spec_encode(d)) == d,
{
    let h = d.height;
    let t = d.tx_index;
    let o = d.output_index;
    let id = ((h as u64) << 40) | ((t as u64) << 16) | (o as u64);
    assert((id >> 40) as u32 == h && ((id >> 16) & 0xffffff) as u32 == t && (id & 0xffff) as u16
        == o) by (bit_vector)
        requires
            h < 0x1000000 && t < 0x1000000 && id == ((h as u64) << 40) | ((t as u64) << 16) | (
            o as u64),
    ;
}

} // verus!
