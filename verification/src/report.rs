//! The per-epoch report row: aggregated deltas and post-epoch totals.

use vstd::prelude::*;
use crate::deltas::Deltas;
use crate::state::count_active;
use crate::state::max_balance_of;
use crate::state::min_balance_of;
use crate::state::total_active_balance;
use crate::state::total_staked_balance;
use crate::state::State;

verus! {

/// One epoch's report: the epoch index, the four delta fields summed over
/// every validator, and the totals of the set after the transition.  The
/// driver appends one row per epoch; a reporting layer outside the
/// simulation consumes the sequence.
#[derive(Clone, Copy, PartialEq, Eq, Structural, Debug)]
pub struct EpochReportRow {
    pub epoch_id: u64,
    pub head_ffg_reward: u64,
    pub head_ffg_penalty: u64,
    pub proposer_reward: u64,
    pub attester_reward: u64,
    pub staked_balance: u64,
    pub active_balance: u64,
    pub max_balance: u64,
    pub min_balance: u64,
    pub validator_count: u64,
    pub active_validators: u64,
}

impl EpochReportRow {
    /// A fresh row for the given epoch, with nothing aggregated yet.
    pub fn new(epoch_id: u64) -> (row: EpochReportRow)
        ensures
            row.epoch_id == epoch_id,
            row.head_ffg_reward == 0,
            row.head_ffg_penalty == 0,
            row.proposer_reward == 0,
            row.attester_reward == 0,
            row.staked_balance == 0,
            row.active_balance == 0,
            row.max_balance == 0,
            row.min_balance == 0,
            row.validator_count == 0,
            row.active_validators == 0,
    {
        EpochReportRow {
            epoch_id,
            head_ffg_reward: 0,
            head_ffg_penalty: 0,
            proposer_reward: 0,
            attester_reward: 0,
            staked_balance: 0,
            active_balance: 0,
            max_balance: 0,
            min_balance: 0,
            validator_count: 0,
            active_validators: 0,
        }
    }

    /// Folds one validator's breakdown into the row's running delta sums.
    pub fn aggregate(&mut self, deltas: &Deltas)
        requires
            old(self).head_ffg_reward + deltas.head_ffg_reward <= u64::MAX,
            old(self).head_ffg_penalty + deltas.head_ffg_penalty <= u64::MAX,
            old(self).proposer_reward + deltas.proposer_reward <= u64::MAX,
            old(self).attester_reward + deltas.attester_reward <= u64::MAX,
        ensures
            final(self).head_ffg_reward == old(self).head_ffg_reward + deltas.head_ffg_reward,
            final(self).head_ffg_penalty == old(self).head_ffg_penalty + deltas.head_ffg_penalty,
            final(self).proposer_reward == old(self).proposer_reward + deltas.proposer_reward,
            final(self).attester_reward == old(self).attester_reward + deltas.attester_reward,
            final(self).epoch_id == old(self).epoch_id,
            final(self).staked_balance == old(self).staked_balance,
            final(self).active_balance == old(self).active_balance,
            final(self).max_balance == old(self).max_balance,
            final(self).min_balance == old(self).min_balance,
            final(self).validator_count == old(self).validator_count,
            final(self).active_validators == old(self).active_validators,
    {
        self.head_ffg_reward = self.head_ffg_reward + deltas.head_ffg_reward;
        self.head_ffg_penalty = self.head_ffg_penalty + deltas.head_ffg_penalty;
        self.proposer_reward = self.proposer_reward + deltas.proposer_reward;
        self.attester_reward = self.attester_reward + deltas.attester_reward;
    }

    /// Closes the row against the post-transition state: records its staked
    /// and active totals, balance extremes, and validator counts.
    pub fn close(&mut self, post_state: &State)
        requires
            total_staked_balance(post_state.validators@) <= u64::MAX,
            total_active_balance(post_state.validators@) <= u64::MAX,
        ensures
            final(self).staked_balance == total_staked_balance(post_state.validators@),
            final(self).active_balance == total_active_balance(post_state.validators@),
            final(self).max_balance == max_balance_of(post_state.validators@),
            final(self).min_balance == min_balance_of(post_state.validators@),
            final(self).validator_count == post_state.validators@.len(),
            final(self).active_validators == count_active(post_state.validators@),
            final(self).epoch_id == old(self).epoch_id,
            final(self).head_ffg_reward == old(self).head_ffg_reward,
            final(self).head_ffg_penalty == old(self).head_ffg_penalty,
            final(self).proposer_reward == old(self).proposer_reward,
            final(self).attester_reward == old(self).attester_reward,
    {
        self.staked_balance = post_state.get_total_staked_balance();
        self.active_balance = post_state.get_total_active_balance();
        self.max_balance = post_state.get_max_balance();
        self.min_balance = post_state.get_min_balance();
        self.validator_count = post_state.validators.len() as u64;
        self.active_validators = post_state.get_total_active_validators();
    }
}

} // verus!
