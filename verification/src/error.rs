//! The two ways a lookup can fail. Both are terminal for the lookup that hit
//! them: this layer never retries.

use vstd::prelude::*;

verus! {

/// Why a funding-output lookup failed.
#[derive(Clone, Copy, Debug, PartialEq, Eq, Structural)]
pub enum LookupError {
    /// The blockchain data source could not provide a hash or a block for
    /// the requested height: a configuration or network failure.
    UnknownChain,
    /// The decoded transaction or output index does not exist within the
    /// fetched block: a malformed or stale channel identifier.
    UnknownTx,
}

} // verus!
