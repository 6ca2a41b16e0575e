//! Per-validator, per-epoch reward/penalty scratch record.

use vstd::prelude::*;

verus! {

/// One validator's reward/penalty breakdown for one epoch.  Created fresh
/// per validator, consumed by delta application, then discarded; only its
/// aggregate reaches the epoch report.
#[derive(Clone, Copy, PartialEq, Eq, Structural, Debug)]
pub struct Deltas {
    pub head_ffg_reward: u64,
    pub head_ffg_penalty: u64,
    pub proposer_reward: u64,
    pub attester_reward: u64,
}

/// The all-zero breakdown every validator starts an epoch with.
pub open spec fn zero_deltas() -> Deltas {
    Deltas { head_ffg_reward: 0, head_ffg_penalty: 0, proposer_reward: 0, attester_reward: 0 }
}

impl Deltas {
    /// A fresh, all-zero breakdown.
    pub fn new() -> (d: Deltas)
        ensures
            d == zero_deltas(),
    {
        Deltas { head_ffg_reward: 0, head_ffg_penalty: 0, proposer_reward: 0, attester_reward: 0 }
    }
}

} // verus!
