//! A single validator: its balances, status flags, and the per-validator
//! formulas (base reward, effective-balance hysteresis, epoch activity).

use vstd::prelude::*;
use crate::config::Config;
use crate::config::BASE_REWARDS_PER_EPOCH;
use crate::config::BASE_REWARD_FACTOR;
use crate::config::EFFECTIVE_BALANCE_INCREMENT;
use crate::config::MAX_EFFECTIVE_BALANCE;
use crate::config::PROBABILITY_SCALE;
use crate::random::random_below;
use crate::state::contains_index;
use crate::state::State;

verus! {

/// One validator's record.  `balance` and `effective_balance` persist across
/// epochs; the `has_matched_*` and `is_proposer` flags are scratch for one
/// epoch's delta computation and are recomputed every epoch.
#[derive(Clone, Copy, PartialEq, Eq, Structural, Debug)]
pub struct Validator {
    /// Current stake, in base units.
    pub balance: u64,
    /// Capped, hysteresis-smoothed stake used by the reward formulas.
    pub effective_balance: u64,
    pub is_active: bool,
    pub is_slashed: bool,
    pub has_matched_source: bool,
    pub has_matched_target: bool,
    pub has_matched_head: bool,
    pub is_proposer: bool,
}

/// A freshly staked validator: balance at the cap, active, with no history.
pub open spec fn initial_validator() -> Validator {
    Validator {
        balance: MAX_EFFECTIVE_BALANCE,
        effective_balance: MAX_EFFECTIVE_BALANCE,
        is_active: true,
        is_slashed: false,
        has_matched_source: false,
        has_matched_target: false,
        has_matched_head: false,
        is_proposer: false,
    }
}

/// A validator that may attest and propose: active and not slashed.
pub open spec fn eligible(v: Validator) -> bool {
    v.is_active && !v.is_slashed
}

/// The per-epoch unit reward:
/// `effective_balance * BASE_REWARD_FACTOR / sqrt_active_balance / BASE_REWARDS_PER_EPOCH`,
/// with truncating division throughout.
pub open spec fn base_reward_of(effective_balance: u64, sqrt_active_balance: u64) -> int {
    effective_balance * BASE_REWARD_FACTOR / (sqrt_active_balance as int) / (
    BASE_REWARDS_PER_EPOCH as int)
}

/// The effective balance after hysteresis: it moves only when the actual
/// balance has fallen below it, or has risen more than one and a half
/// increments above it; when it moves it snaps down to the increment grid,
/// capped at `MAX_EFFECTIVE_BALANCE`.
pub open spec fn hysteresis_effective_balance(balance: u64, effective_balance: u64) -> int {
    let half_increment = EFFECTIVE_BALANCE_INCREMENT / 2;
    if balance < effective_balance || effective_balance + 3 * half_increment < balance {
        let snapped = balance - balance % EFFECTIVE_BALANCE_INCREMENT;
        if snapped < MAX_EFFECTIVE_BALANCE {
            snapped
        } else {
            MAX_EFFECTIVE_BALANCE as int
        }
    } else {
        effective_balance as int
    }
}

impl Validator {
    /// The base reward against the given square root of the total active
    /// balance.
    pub fn get_base_reward(&self, sqrt_total_active_balance: u64) -> (r: u64)
        requires
            sqrt_total_active_balance >= 1,
            self.effective_balance <= MAX_EFFECTIVE_BALANCE,
        ensures
            r == base_reward_of(self.effective_balance, sqrt_total_active_balance),
    {
        self.effective_balance * BASE_REWARD_FACTOR / sqrt_total_active_balance
            / BASE_REWARDS_PER_EPOCH
    }

    /// The epoch's activity flags, decided by two uniform draws: the
    /// validator was online if `draw_online` fell below the online
    /// probability, honest if `draw_honest` fell below the honest
    /// probability, and matched source (and with it target and head) exactly
    /// when it is not slashed, was online and was honest.
    pub fn apply_epoch_activity(
        &self,
        config: &Config,
        draw_online: u64,
        draw_honest: u64,
        is_proposer: bool,
    ) -> (v: Validator)
        ensures
            v.balance == self.balance,
            v.effective_balance == self.effective_balance,
            v.is_active == self.is_active,
            v.is_slashed == self.is_slashed,
            v.has_matched_source == (!self.is_slashed && draw_online < config.probability_online
                && draw_honest < config.probability_honest),
            v.has_matched_target == v.has_matched_source,
            v.has_matched_head == v.has_matched_source,
            v.is_proposer == is_proposer,
    {
        let has_been_online = config.probability_online > draw_online;
        let has_been_honest = config.probability_honest > draw_honest;
        let has_matched_source = !self.is_slashed && has_been_online && has_been_honest;
        Validator {
            balance: self.balance,
            effective_balance: self.effective_balance,
            is_active: self.is_active,
            is_slashed: self.is_slashed,
            has_matched_source,
            has_matched_target: has_matched_source,
            has_matched_head: has_matched_source,
            is_proposer,
        }
    }

    /// Refreshes the epoch scratch flags from two fresh uniform draws and
    /// membership in this epoch's proposer set.  The draws are random, so the
    /// contract states only what holds of every outcome: a slashed validator
    /// never matches, certain probabilities decide the flag outright, and
    /// everything else is copied.
    pub fn update_previous_epoch_activity(
        &self,
        state: &State,
        proposer_indices: &Vec<usize>,
        validator_index: usize,
    ) -> (v: Validator)
        ensures
            v.balance == self.balance,
            v.effective_balance == self.effective_balance,
            v.is_active == self.is_active,
            v.is_slashed == self.is_slashed,
            v.has_matched_target == v.has_matched_source,
            v.has_matched_head == v.has_matched_source,
            v.is_proposer == proposer_indices@.contains(validator_index),
            self.is_slashed ==> !v.has_matched_source,
            !self.is_slashed && state.config.probability_online == PROBABILITY_SCALE
                && state.config.probability_honest == PROBABILITY_SCALE
                ==> v.has_matched_source,
            state.config.probability_online == 0 || state.config.probability_honest == 0
                ==> !v.has_matched_source,
    {
        let draw_online = random_below(PROBABILITY_SCALE);
        let draw_honest = random_below(PROBABILITY_SCALE);
        let is_proposer = contains_index(proposer_indices, validator_index);
        self.apply_epoch_activity(&state.config, draw_online, draw_honest, is_proposer)
    }

    /// Applies effective-balance hysteresis after an epoch's deltas have
    /// landed on `balance`.
    pub fn update_effective_balance(&mut self)
        requires
            old(self).effective_balance <= MAX_EFFECTIVE_BALANCE,
        ensures
            final(self).balance == old(self).balance,
            final(self).is_active == old(self).is_active,
            final(self).is_slashed == old(self).is_slashed,
            final(self).has_matched_source == old(self).has_matched_source,
            final(self).has_matched_target == old(self).has_matched_target,
            final(self).has_matched_head == old(self).has_matched_head,
            final(self).is_proposer == old(self).is_proposer,
            final(self).effective_balance == hysteresis_effective_balance(
                old(self).balance,
                old(self).effective_balance,
            ),
            final(self).effective_balance <= MAX_EFFECTIVE_BALANCE,
    {
        let half_increment = EFFECTIVE_BALANCE_INCREMENT / 2;
        if self.balance < self.effective_balance
            || self.effective_balance + 3 * half_increment < self.balance {
            let snapped = self.balance - self.balance % EFFECTIVE_BALANCE_INCREMENT;
            self.effective_balance = if snapped < MAX_EFFECTIVE_BALANCE {
                snapped
            } else {
                MAX_EFFECTIVE_BALANCE
            };
        }
    }
}

} // verus!
