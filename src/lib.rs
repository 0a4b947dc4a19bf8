//! Validation of sweep transactions proposed to a threshold signer, and an
//! in-memory collection of ledger records for exercising it.

use vstd::prelude::*;

pub mod bitcoin_types;
pub mod generation;
pub mod model;
pub mod sweep;
pub mod test_data;
pub mod validation;

verus! {

/// A deposit is only swept while its depositor cannot reclaim it within
/// this many blocks.
pub const DEPOSIT_LOCKTIME_BLOCK_BUFFER: u16 = 3;

} // verus!
