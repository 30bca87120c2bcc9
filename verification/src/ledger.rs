//! Lifetimes of ledger entries, in ledgers.
use vstd::prelude::*;

verus! {

/// An entry whose remaining lifetime is below this is extended.
pub const TTL_THRESHOLD: u32 = 500_000;

/// The remaining lifetime that an extension leads to.
pub const TTL_EXTEND_TO: u32 = 2_000_000;

/// An extension leads to four times the lifetime below which it is due: two
/// million ledgers.
pub proof fn law_extension_outlasts_its_threshold()
    ensures
        TTL_EXTEND_TO == 4 * TTL_THRESHOLD,
        TTL_EXTEND_TO == 2_000_000,
{
}

} // verus!
