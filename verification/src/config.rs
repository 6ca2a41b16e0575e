//! Simulation parameters and protocol constants.

use vstd::prelude::*;

verus! {

/// Largest effective balance a validator can carry, in base units.
pub const MAX_EFFECTIVE_BALANCE: u64 = 32_000_000_000;

/// Scaling factor of the per-epoch base reward.
pub const BASE_REWARD_FACTOR: u64 = 64;

/// How many base-reward shares make up one epoch's full reward.
pub const BASE_REWARDS_PER_EPOCH: u64 = 4;

/// The proposer's share of a base reward is `base_reward / PROPOSER_REWARD_QUOTIENT`.
pub const PROPOSER_REWARD_QUOTIENT: u64 = 8;

/// Grid to which effective balances snap under hysteresis.
pub const EFFECTIVE_BALANCE_INCREMENT: u64 = 1_000_000_000;

/// How many distinct proposers are drawn for each epoch.
pub const PROPOSERS_PER_EPOCH: usize = 32;

/// Both balances in the FFG reward formula are divided by this factor before
/// the multiply-divide, so that three base rewards times a balance stay
/// within 64 bits.  Changing it changes computed reward magnitudes.
pub const BALANCE_SCALE_DOWN: u64 = 32;

/// Probabilities are fixed-point fractions with this denominator (parts per
/// million); a value of `PROBABILITY_SCALE` means a probability of exactly 1.
pub const PROBABILITY_SCALE: u64 = 1_000_000;

/// Default initial stake: 500,000 stake units of one billion base units each.
pub const DEFAULT_TOTAL_AT_STAKE: u64 = 500_000_000_000_000;

/// Default number of epochs to simulate.
pub const DEFAULT_EPOCHS: u64 = 10;

/// Default probability that a validator is online in an epoch (0.99).
pub const DEFAULT_PROBABILITY_ONLINE: u64 = 990_000;

/// Default probability that a validator is honest in an epoch (1.0).
pub const DEFAULT_PROBABILITY_HONEST: u64 = 1_000_000;

/// `p * ln(p) / (p - 1)` at `p = 0.99`, the default online probability,
/// rounded down to parts per million.
pub const DEFAULT_EXP_VALUE_INCLUSION_PROB: u64 = 994_983;

/// Immutable simulation parameters, fixed for the whole run.
///
/// Probabilities are carried in fixed point, as parts per
/// `PROBABILITY_SCALE`; the caller that derives them from real-valued
/// inputs rounds them once, before the simulation starts.
#[derive(Clone, Copy, PartialEq, Eq, Structural, Debug)]
pub struct Config {
    /// How many epochs the simulation runs.
    pub epochs: u64,
    /// Total stake at simulation start, in base units.
    pub total_at_stake_initial: u64,
    /// Probability that any validator is online in an epoch.
    pub probability_online: u64,
    /// Probability that any validator is honest in an epoch.
    pub probability_honest: u64,
    /// `p * ln(p) / (p - 1)` for `p = probability_online`, precomputed by the
    /// caller on the same fixed-point scale (1 at `p = 1`, by continuity).
    pub exp_value_inclusion_prob: u64,
}

/// Rejection cause for simulation parameters.
#[derive(Clone, Copy, PartialEq, Eq, Structural, Debug)]
pub enum ConfigError {
    /// A simulation of zero epochs was requested.
    ZeroEpochs,
    /// A probability exceeds `PROBABILITY_SCALE`, that is, lies outside [0, 1].
    ProbabilityOutOfRange,
}

/// The default parameter set, as a value.
pub open spec fn default_config() -> Config {
    Config {
        epochs: DEFAULT_EPOCHS,
        total_at_stake_initial: DEFAULT_TOTAL_AT_STAKE,
        probability_online: DEFAULT_PROBABILITY_ONLINE,
        probability_honest: DEFAULT_PROBABILITY_HONEST,
        exp_value_inclusion_prob: DEFAULT_EXP_VALUE_INCLUSION_PROB,
    }
}

impl Config {
    /// A parameter set the simulation accepts: at least one epoch, and both
    /// probabilities within [0, 1].
    pub open spec fn is_valid(self) -> bool {
        &&& self.epochs >= 1
        &&& self.probability_online <= PROBABILITY_SCALE
        &&& self.probability_honest <= PROBABILITY_SCALE
    }

    /// The default parameter set.
    pub fn new() -> (c: Config)
        ensures
            c == default_config(),
            c.is_valid(),
    {
        Config {
            epochs: DEFAULT_EPOCHS,
            total_at_stake_initial: DEFAULT_TOTAL_AT_STAKE,
            probability_online: DEFAULT_PROBABILITY_ONLINE,
            probability_honest: DEFAULT_PROBABILITY_HONEST,
            exp_value_inclusion_prob: DEFAULT_EXP_VALUE_INCLUSION_PROB,
        }
    }

    /// Validates a parameter set once, at construction; rejected values never
    /// reach the simulation.
    pub fn try_new(
        epochs: u64,
        total_at_stake_initial: u64,
        probability_online: u64,
        probability_honest: u64,
        exp_value_inclusion_prob: u64,
    ) -> (r: Result<Config, ConfigError>)
        ensures
            epochs == 0 ==> r == Result::<Config, ConfigError>::Err(ConfigError::ZeroEpochs),
            epochs >= 1 && (probability_online > PROBABILITY_SCALE
                || probability_honest > PROBABILITY_SCALE)
                ==> r == Result::<Config, ConfigError>::Err(ConfigError::ProbabilityOutOfRange),
            epochs >= 1 && probability_online <= PROBABILITY_SCALE
                && probability_honest <= PROBABILITY_SCALE
                ==> r == Result::<Config, ConfigError>::Ok(Config {
                    epochs,
                    total_at_stake_initial,
                    probability_online,
                    probability_honest,
                    exp_value_inclusion_prob,
                }),
            r is Ok ==> r->Ok_0.is_valid(),
    {
        if epochs == 0 {
            return Err(ConfigError::ZeroEpochs);
        }
        if probability_online > PROBABILITY_SCALE || probability_honest > PROBABILITY_SCALE {
            return Err(ConfigError::ProbabilityOutOfRange);
        }
        Ok(Config {
            epochs,
            total_at_stake_initial,
            probability_online,
            probability_honest,
            exp_value_inclusion_prob,
        })
    }
}

} // verus!
