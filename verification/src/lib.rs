//! Verification of gossiped channel announcements against on-chain funding
//! outputs. A channel identifier names a block height, a transaction index
//! and an output index; the library decodes the identifier, drives the
//! two-step block retrieval, extracts the funding output with bounds checks,
//! caches the funding amount, and resolves a single-assignment pending
//! lookup exactly once, feeding the network graph before waking the
//! peer-event pump.

pub mod block;
pub mod cache;
pub mod chain;
pub mod codec;
pub mod error;
pub mod lookup;
pub mod pending;
