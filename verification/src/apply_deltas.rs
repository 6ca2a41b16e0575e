//! Applying one epoch's deltas to a validator's balance.

use vstd::prelude::*;
use crate::deltas::Deltas;
use crate::validator::Validator;

verus! {

/// The balance after one epoch's deltas land: the FFG reward in, the FFG
/// penalty out, then the proposer and attester incentives in, in that order.
pub open spec fn applied_balance(balance: u64, d: Deltas) -> int {
    balance + d.head_ffg_reward - d.head_ffg_penalty + d.proposer_reward + d.attester_reward
}

/// The validator as it stands after its epoch deltas land on its balance;
/// every other field is copied.
///
/// A penalty larger than the balance plus the FFG reward, or a sum beyond
/// `u64::MAX`, has no result here: the epoch transition checks first and
/// aborts the run.  Balance underflow on a penalty is treated as fatal, not
/// saturated.
pub fn apply_deltas(old_validator: &Validator, deltas: &Deltas) -> (v: Validator)
    requires
        old_validator.balance + deltas.head_ffg_reward <= u64::MAX,
        deltas.head_ffg_penalty <= old_validator.balance + deltas.head_ffg_reward,
        applied_balance(old_validator.balance, *deltas) <= u64::MAX,
    ensures
        v.balance == applied_balance(old_validator.balance, *deltas),
        v.effective_balance == old_validator.effective_balance,
        v.is_active == old_validator.is_active,
        v.is_slashed == old_validator.is_slashed,
        v.has_matched_source == old_validator.has_matched_source,
        v.has_matched_target == old_validator.has_matched_target,
        v.has_matched_head == old_validator.has_matched_head,
        v.is_proposer == old_validator.is_proposer,
{
    Validator {
        balance: old_validator.balance + deltas.head_ffg_reward - deltas.head_ffg_penalty
            + deltas.proposer_reward + deltas.attester_reward,
        effective_balance: old_validator.effective_balance,
        is_active: old_validator.is_active,
        is_slashed: old_validator.is_slashed,
        has_matched_source: old_validator.has_matched_source,
        has_matched_head: old_validator.has_matched_head,
        has_matched_target: old_validator.has_matched_target,
        is_proposer: old_validator.is_proposer,
    }
}

} // verus!
