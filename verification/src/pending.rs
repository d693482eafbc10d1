//! The single-assignment result slot for one asynchronous lookup. Created
//! empty and handed to the caller at once; resolved exactly once by the
//! background task; resolution is terminal, and a late attempt never
//! overwrites the first result.

use vstd::prelude::*;

use crate::block::FundingOutput;
use crate::error::LookupError;

verus! {

/// A pending asynchronous lookup: empty until its background task resolves
/// it with the funding output or the error.
pub struct PendingLookup {
    slot: Option<Result<FundingOutput, LookupError>>,
}

/// How one resolution attempt changes the slot: it fills an empty slot and
/// leaves a filled one untouched.
pub open spec fn spec_resolve(
    slot: Option<Result<FundingOutput, LookupError>>,
    result: Result<FundingOutput, LookupError>,
) -> Option<Result<FundingOutput, LookupError>> {
    if slot is None {
        Some(result)
    } else {
        slot
    }
}

impl View for PendingLookup {
    type V = Option<Result<FundingOutput, LookupError>>;

    closed spec fn view(&self) -> Option<Result<FundingOutput, LookupError>> {
        self.slot
    }
}

impl PendingLookup {
    /// A fresh, unresolved pending lookup.
    pub fn new() -> (p: Self)
        ensures
            p@ is None,
    {
        PendingLookup { slot: None }
    }

    /// Whether the background task has resolved this lookup yet.
    pub fn is_resolved(&self) -> (b: bool)
        ensures
            b == (self@ is Some),
    {
        self.slot.is_some()
    }

    /// The resolution, if one has arrived.
    pub fn result(&self) -> (r: &Option<Result<FundingOutput, LookupError>>)
        ensures
            *r == self@,
    {
        &self.slot
    }

    /// Resolve the lookup. Fires only on the first attempt: a second attempt
    /// is a programming-invariant violation and leaves the first result in
    /// place rather than silently overwriting it.
    pub fn resolve(&mut self, result: Result<FundingOutput, LookupError>) -> (fired: bool)
        ensures
            final(self)@ == spec_resolve(old(self)@, result),
            fired == (old(self)@ is None),
    {
        if self.slot.is_none() {
            self.slot = Some(result);
            true
        } else {
            false
        }
    }
}

/// A pending lookup resolves exactly once: the first attempt on a fresh slot
/// installs its result, and any further attempt leaves that first result in
/// place, whatever it carries.
pub proof fn lemma_single_resolution(
    first: Result<FundingOutput, LookupError>,
    second: Result<FundingOutput, LookupError>,
)
    ensures
        spec_resolve(None, first) == Some(first),
        spec_resolve(spec_resolve(None, first), second) == Some(first),
{
}

} // verus!
