//! The per-validator delta formulas: FFG reward and penalty, proposer and
//! attester incentives, and the dispatcher that fills one validator's
//! breakdown from its flags and the epoch's totals.

use vstd::prelude::*;
use crate::config::BALANCE_SCALE_DOWN;
use crate::config::MAX_EFFECTIVE_BALANCE;
use crate::config::PROBABILITY_SCALE;
use crate::config::PROPOSERS_PER_EPOCH;
use crate::config::PROPOSER_REWARD_QUOTIENT;
use crate::deltas::zero_deltas;
use crate::deltas::Deltas;
use crate::state::State;
use crate::state::StateTotals;
use crate::validator::Validator;
use crate::config::Config;
use crate::error::SimError;
use vstd::arithmetic::div_mod::lemma_div_is_ordered;
use vstd::arithmetic::div_mod::lemma_div_multiples_vanish;
use vstd::arithmetic::div_mod::lemma_div_nonincreasing;
use vstd::arithmetic::div_mod::lemma_div_pos_is_pos;

verus! {

/// A balance as it enters the FFG reward formula: divided once by the fixed
/// scale-down factor.
pub open spec fn scaled_balance(x: u64) -> int {
    x as int / BALANCE_SCALE_DOWN as int
}

/// The FFG reward of an active validator that matched source: three base
/// rewards, weighted by the scaled matching balance over the scaled active
/// balance.
pub open spec fn ffg_reward_amount(
    base_reward: u64,
    matching_balance: u64,
    active_balance: u64,
) -> int {
    3 * base_reward * scaled_balance(matching_balance) / scaled_balance(active_balance)
}

/// The FFG penalty of an active validator that is slashed or failed to match
/// source: three full base rewards.
pub open spec fn ffg_penalty_amount(base_reward: u64) -> int {
    3 * base_reward
}

/// The expected number of attestations a proposer includes: the attester
/// cohort (active validators per slot), scaled by both probabilities and
/// floored.
pub open spec fn number_of_attestations(
    active_validators: u64,
    probability_online: u64,
    probability_honest: u64,
) -> int {
    (active_validators as int / PROPOSERS_PER_EPOCH as int) * probability_online
        * probability_honest / (PROBABILITY_SCALE as int * PROBABILITY_SCALE as int)
}

/// The proposer's incentive: its share of the base reward, once per expected
/// included attestation.
pub open spec fn proposer_reward_amount(
    base_reward: u64,
    active_validators: u64,
    probability_online: u64,
    probability_honest: u64,
) -> int {
    (base_reward as int / PROPOSER_REWARD_QUOTIENT as int) * number_of_attestations(
        active_validators,
        probability_online,
        probability_honest,
    )
}

/// The attester's incentive: what remains of the base reward after the
/// proposer's share, scaled by the expected inclusion-probability value and
/// floored.
pub open spec fn attester_reward_amount(base_reward: u64, exp_value_inclusion_prob: u64) -> int {
    (base_reward as int - base_reward as int / PROPOSER_REWARD_QUOTIENT as int)
        * exp_value_inclusion_prob / PROBABILITY_SCALE as int
}

/// The expected attestation count is never negative, never exceeds the
/// attester cohort, and its intermediate products stay well inside 128 bits.
pub proof fn lemma_number_of_attestations_bounds(
    active_validators: u64,
    probability_online: u64,
    probability_honest: u64,
)
    requires
        probability_online <= PROBABILITY_SCALE,
        probability_honest <= PROBABILITY_SCALE,
    ensures
        0 <= number_of_attestations(active_validators, probability_online, probability_honest),
        number_of_attestations(active_validators, probability_online, probability_honest)
            <= active_validators as int / PROPOSERS_PER_EPOCH as int,
        (active_validators as int / PROPOSERS_PER_EPOCH as int) * (probability_online as int) <= (
        u64::MAX as int) * (PROBABILITY_SCALE as int),
        (active_validators as int / PROPOSERS_PER_EPOCH as int) * (probability_online as int) * (
        probability_honest as int) <= (u64::MAX as int) * (PROBABILITY_SCALE as int) * (
        PROBABILITY_SCALE as int),
{
    let na = active_validators as int / (PROPOSERS_PER_EPOCH as int);
    let p1 = probability_online as int;
    let p2 = probability_honest as int;
    let s = PROBABILITY_SCALE as int;
    lemma_div_pos_is_pos(active_validators as int, PROPOSERS_PER_EPOCH as int);
    lemma_div_nonincreasing(active_validators as int, PROPOSERS_PER_EPOCH as int);
    assert(na * p1 <= (u64::MAX as int) * s) by (nonlinear_arith)
        requires
            0 <= na <= u64::MAX as int,
            0 <= p1 <= s,
    ;
    assert(p1 * p2 <= s * s) by (nonlinear_arith)
        requires
            0 <= p1 <= s,
            0 <= p2 <= s,
    ;
    assert(na * p1 * p2 == na * (p1 * p2)) by (nonlinear_arith);
    assert(na * p1 * p2 <= (u64::MAX as int) * s * s) by (nonlinear_arith)
        requires
            0 <= na <= u64::MAX as int,
            0 <= p1 <= s,
            0 <= p2 <= s,
    ;
    assert(na * (p1 * p2) <= na * (s * s)) by (nonlinear_arith)
        requires
            na >= 0,
            p1 * p2 <= s * s,
    ;
    assert(na * p1 * p2 >= 0) by (nonlinear_arith)
        requires
            na >= 0,
            p1 >= 0,
            p2 >= 0,
    ;
    lemma_div_pos_is_pos(na * p1 * p2, s * s);
    lemma_div_is_ordered(na * p1 * p2, na * (s * s), s * s);
    lemma_div_multiples_vanish(na, s * s);
    assert(na * (s * s) == (s * s) * na) by (nonlinear_arith);
}

/// Writes the FFG reward of a validator that matched source; the other
/// fields stay as they were.
pub fn assign_ffg_reward(
    deltas: &mut Deltas,
    matching_balance: u64,
    active_balance: u64,
    base_reward: u64,
)
    requires
        scaled_balance(active_balance) >= 1,
        3 * base_reward <= u64::MAX,
        3 * base_reward * scaled_balance(matching_balance) <= u64::MAX,
    ensures
        final(deltas).head_ffg_reward == ffg_reward_amount(
            base_reward,
            matching_balance,
            active_balance,
        ),
        final(deltas).head_ffg_penalty == old(deltas).head_ffg_penalty,
        final(deltas).proposer_reward == old(deltas).proposer_reward,
        final(deltas).attester_reward == old(deltas).attester_reward,
{
    // both balances are scaled down once, so that three base rewards times a
    // balance stay within 64 bits
    let adjusted_matching_balance = matching_balance / BALANCE_SCALE_DOWN;
    let adjusted_active_balance = active_balance / BALANCE_SCALE_DOWN;
    deltas.head_ffg_reward = 3 * base_reward * adjusted_matching_balance
        / adjusted_active_balance;
}

/// Writes the FFG penalty; the other fields stay as they were.
pub fn assign_ffg_penalty(deltas: &mut Deltas, base_reward: u64)
    requires
        3 * base_reward <= u64::MAX,
    ensures
        final(deltas).head_ffg_penalty == ffg_penalty_amount(base_reward),
        final(deltas).head_ffg_reward == old(deltas).head_ffg_reward,
        final(deltas).proposer_reward == old(deltas).proposer_reward,
        final(deltas).attester_reward == old(deltas).attester_reward,
{
    deltas.head_ffg_penalty = 3 * base_reward;
}

/// Writes the proposer's incentive; the other fields stay as they were.
pub fn assign_proposer_incentive(
    deltas: &mut Deltas,
    active_validators: u64,
    probability_online: u64,
    probability_honest: u64,
    base_reward: u64,
)
    requires
        probability_online <= PROBABILITY_SCALE,
        probability_honest <= PROBABILITY_SCALE,
        proposer_reward_amount(base_reward, active_validators, probability_online,
        probability_honest) <= u64::MAX,
    ensures
        final(deltas).proposer_reward == proposer_reward_amount(
            base_reward,
            active_validators,
            probability_online,
            probability_honest,
        ),
        final(deltas).head_ffg_reward == old(deltas).head_ffg_reward,
        final(deltas).head_ffg_penalty == old(deltas).head_ffg_penalty,
        final(deltas).attester_reward == old(deltas).attester_reward,
{
    let proposer_share = base_reward / PROPOSER_REWARD_QUOTIENT;
    let number_of_attesters = active_validators / (PROPOSERS_PER_EPOCH as u64);
    proof {
        lemma_number_of_attestations_bounds(
            active_validators,
            probability_online,
            probability_honest,
        );
    }
    let wide: u128 = (number_of_attesters as u128) * (probability_online as u128) * (
    probability_honest as u128) / ((PROBABILITY_SCALE as u128) * (PROBABILITY_SCALE as u128));
    let attestation_count = wide as u64;
    deltas.proposer_reward = proposer_share * attestation_count;
}

/// Writes the attester's incentive; the other fields stay as they were.
pub fn assign_attester_incentive(deltas: &mut Deltas, exp_value_inclusion_prob: u64, base_reward: u64)
    requires
        attester_reward_amount(base_reward, exp_value_inclusion_prob) <= u64::MAX,
    ensures
        final(deltas).attester_reward == attester_reward_amount(
            base_reward,
            exp_value_inclusion_prob,
        ),
        final(deltas).head_ffg_reward == old(deltas).head_ffg_reward,
        final(deltas).head_ffg_penalty == old(deltas).head_ffg_penalty,
        final(deltas).proposer_reward == old(deltas).proposer_reward,
{
    let proposer_share = base_reward / PROPOSER_REWARD_QUOTIENT;
    let maximum_attester_reward = base_reward - proposer_share;
    proof {
        assert((maximum_attester_reward as int) * (exp_value_inclusion_prob as int) <= (
        u64::MAX as int) * (u64::MAX as int)) by (nonlinear_arith)
            requires
                maximum_attester_reward <= u64::MAX,
                exp_value_inclusion_prob <= u64::MAX,
        ;
    }
    let wide: u128 = (maximum_attester_reward as u128) * (exp_value_inclusion_prob as u128) / (
    PROBABILITY_SCALE as u128);
    deltas.attester_reward = wide as u64;
}

/// The breakdown `get_attestation_deltas` leaves behind, as one value: an
/// inactive validator's prior breakdown untouched; the full penalty over
/// the prior for an active validator that is slashed or missed source; the
/// three earned amounts otherwise, with the proposer's only when it
/// proposes.
pub open spec fn attestation_deltas(
    v: Validator,
    base_reward: u64,
    t: StateTotals,
    c: Config,
    prior: Deltas,
) -> Deltas {
    if !v.is_active {
        prior
    } else if v.is_slashed || !v.has_matched_source {
        Deltas {
            head_ffg_reward: prior.head_ffg_reward,
            head_ffg_penalty: ffg_penalty_amount(base_reward) as u64,
            proposer_reward: prior.proposer_reward,
            attester_reward: prior.attester_reward,
        }
    } else {
        Deltas {
            head_ffg_reward: ffg_reward_amount(
                base_reward,
                t.matching_balance,
                t.active_balance,
            ) as u64,
            head_ffg_penalty: prior.head_ffg_penalty,
            proposer_reward: if v.is_proposer {
                proposer_reward_amount(
                    base_reward,
                    t.active_validators,
                    c.probability_online,
                    c.probability_honest,
                ) as u64
            } else {
                prior.proposer_reward
            },
            attester_reward: attester_reward_amount(base_reward, c.exp_value_inclusion_prob) as u64,
        }
    }
}

/// None of the three earned amounts is negative, and the FFG reward never
/// exceeds its scaled product.
pub proof fn lemma_amounts_nonneg(base_reward: u64, t: StateTotals, c: Config)
    requires
        c.probability_online <= PROBABILITY_SCALE,
        c.probability_honest <= PROBABILITY_SCALE,
        scaled_balance(t.active_balance) >= 1,
    ensures
        0 <= ffg_reward_amount(base_reward, t.matching_balance, t.active_balance) <= 3
            * base_reward * scaled_balance(t.matching_balance),
        0 <= proposer_reward_amount(
            base_reward,
            t.active_validators,
            c.probability_online,
            c.probability_honest,
        ),
        0 <= attester_reward_amount(base_reward, c.exp_value_inclusion_prob),
{
    let s = PROBABILITY_SCALE as int;
    let e = c.exp_value_inclusion_prob as int;
    lemma_div_pos_is_pos(t.matching_balance as int, BALANCE_SCALE_DOWN as int);
    assert(3 * base_reward * scaled_balance(t.matching_balance) >= 0) by (nonlinear_arith)
        requires
            base_reward >= 0,
            scaled_balance(t.matching_balance) >= 0,
    ;
    lemma_div_pos_is_pos(
        3 * base_reward * scaled_balance(t.matching_balance),
        scaled_balance(t.active_balance),
    );
    lemma_div_nonincreasing(
        3 * base_reward * scaled_balance(t.matching_balance),
        scaled_balance(t.active_balance),
    );
    lemma_number_of_attestations_bounds(
        t.active_validators,
        c.probability_online,
        c.probability_honest,
    );
    lemma_div_pos_is_pos(base_reward as int, PROPOSER_REWARD_QUOTIENT as int);
    assert((base_reward as int / PROPOSER_REWARD_QUOTIENT as int) * number_of_attestations(
        t.active_validators,
        c.probability_online,
        c.probability_honest,
    ) >= 0) by (nonlinear_arith)
        requires
            base_reward as int / PROPOSER_REWARD_QUOTIENT as int >= 0,
            number_of_attestations(t.active_validators, c.probability_online, c.probability_honest)
                >= 0,
    ;
    lemma_div_nonincreasing(base_reward as int, PROPOSER_REWARD_QUOTIENT as int);
    let mar = base_reward as int - base_reward as int / PROPOSER_REWARD_QUOTIENT as int;
    assert(mar * e >= 0) by (nonlinear_arith)
        requires
            mar >= 0,
            e >= 0,
    ;
    lemma_div_pos_is_pos(mar * e, s);
}

/// Fills one validator's delta breakdown for this epoch.
///
/// An inactive validator's breakdown is left untouched; an active validator
/// that is slashed or failed to match source is charged the full FFG
/// penalty; an active matching validator earns the FFG reward, the attester
/// incentive, and, when it proposes, the proposer incentive.  Over a fresh
/// all-zero breakdown this pins every field exactly.
pub fn get_attestation_deltas(
    validator: &Validator,
    base_reward: u64,
    state: &State,
    state_totals: &StateTotals,
    deltas: &mut Deltas,
)
    requires
        state.config.probability_online <= PROBABILITY_SCALE,
        state.config.probability_honest <= PROBABILITY_SCALE,
        validator.is_active ==> 3 * base_reward <= u64::MAX,
        validator.is_active && !validator.is_slashed && validator.has_matched_source ==> {
            &&& scaled_balance(state_totals.active_balance) >= 1
            &&& 3 * base_reward * scaled_balance(state_totals.matching_balance) <= u64::MAX
            &&& attester_reward_amount(base_reward, state.config.exp_value_inclusion_prob)
                <= u64::MAX
            &&& (validator.is_proposer ==> proposer_reward_amount(
                base_reward,
                state_totals.active_validators,
                state.config.probability_online,
                state.config.probability_honest,
            ) <= u64::MAX)
        },
    ensures
        !validator.is_active ==> *final(deltas) == *old(deltas),
        validator.is_active && (validator.is_slashed || !validator.has_matched_source) ==> {
            &&& final(deltas).head_ffg_penalty == ffg_penalty_amount(base_reward)
            &&& final(deltas).head_ffg_reward == old(deltas).head_ffg_reward
            &&& final(deltas).proposer_reward == old(deltas).proposer_reward
            &&& final(deltas).attester_reward == old(deltas).attester_reward
        },
        validator.is_active && !validator.is_slashed && validator.has_matched_source ==> {
            &&& final(deltas).head_ffg_reward == ffg_reward_amount(
                base_reward,
                state_totals.matching_balance,
                state_totals.active_balance,
            )
            &&& final(deltas).head_ffg_penalty == old(deltas).head_ffg_penalty
            &&& final(deltas).attester_reward == attester_reward_amount(
                base_reward,
                state.config.exp_value_inclusion_prob,
            )
            &&& (validator.is_proposer ==> final(deltas).proposer_reward
                == proposer_reward_amount(
                base_reward,
                state_totals.active_validators,
                state.config.probability_online,
                state.config.probability_honest,
            ))
            &&& (!validator.is_proposer ==> final(deltas).proposer_reward
                == old(deltas).proposer_reward)
        },
        *final(deltas) == attestation_deltas(
            *validator,
            base_reward,
            *state_totals,
            state.config,
            *old(deltas),
        ),
{
    if !validator.is_active {
        return ;
    }
    if validator.is_slashed || !validator.has_matched_source {
        assign_ffg_penalty(deltas, base_reward);
    } else {
        proof {
            lemma_amounts_nonneg(base_reward, *state_totals, state.config);
        }
        assign_ffg_reward(
            deltas,
            state_totals.matching_balance,
            state_totals.active_balance,
            base_reward,
        );
        if validator.is_proposer {
            assign_proposer_incentive(
                deltas,
                state_totals.active_validators,
                state.config.probability_online,
                state.config.probability_honest,
                base_reward,
            );
        }
        assign_attester_incentive(deltas, state.config.exp_value_inclusion_prob, base_reward);
    }
}

/// Whether every reward this validator is owed fits in 64 bits, so that
/// `get_attestation_deltas` has a defined result for it.
pub open spec fn deltas_fit(
    v: Validator,
    base_reward: u64,
    t: StateTotals,
    c: Config,
) -> bool {
    v.is_active ==> {
        &&& 3 * base_reward <= u64::MAX
        &&& (!v.is_slashed && v.has_matched_source ==> {
            &&& scaled_balance(t.active_balance) >= 1
            &&& 3 * base_reward * scaled_balance(t.matching_balance) <= u64::MAX
            &&& attester_reward_amount(base_reward, c.exp_value_inclusion_prob) <= u64::MAX
            &&& (v.is_proposer ==> proposer_reward_amount(
                base_reward,
                t.active_validators,
                c.probability_online,
                c.probability_honest,
            ) <= u64::MAX)
        })
    }
}

/// Fills one validator's breakdown after checking, at run time, that every
/// amount it is owed fits in 64 bits; a set and configuration whose rewards
/// would not fit yields an error instead of a wrapped value, and the
/// breakdown is left untouched.  On success the breakdown is exactly what
/// `get_attestation_deltas` states.
pub fn try_get_attestation_deltas(
    validator: &Validator,
    base_reward: u64,
    state: &State,
    state_totals: &StateTotals,
    deltas: &mut Deltas,
) -> (r: Result<(), SimError>)
    requires
        state.config.probability_online <= PROBABILITY_SCALE,
        state.config.probability_honest <= PROBABILITY_SCALE,
    ensures
        r is Ok <==> deltas_fit(*validator, base_reward, *state_totals, state.config),
        r is Err ==> r == Result::<(), SimError>::Err(SimError::ArithmeticOverflow)
            && *final(deltas) == *old(deltas),
        r is Ok ==> {
            &&& (!validator.is_active ==> *final(deltas) == *old(deltas))
            &&& (validator.is_active && (validator.is_slashed || !validator.has_matched_source)
                ==> {
                &&& final(deltas).head_ffg_penalty == ffg_penalty_amount(base_reward)
                &&& final(deltas).head_ffg_reward == old(deltas).head_ffg_reward
                &&& final(deltas).proposer_reward == old(deltas).proposer_reward
                &&& final(deltas).attester_reward == old(deltas).attester_reward
            })
            &&& (validator.is_active && !validator.is_slashed && validator.has_matched_source
                ==> {
                &&& final(deltas).head_ffg_reward == ffg_reward_amount(
                    base_reward,
                    state_totals.matching_balance,
                    state_totals.active_balance,
                )
                &&& final(deltas).head_ffg_penalty == old(deltas).head_ffg_penalty
                &&& final(deltas).attester_reward == attester_reward_amount(
                    base_reward,
                    state.config.exp_value_inclusion_prob,
                )
                &&& (validator.is_proposer ==> final(deltas).proposer_reward
                    == proposer_reward_amount(
                    base_reward,
                    state_totals.active_validators,
                    state.config.probability_online,
                    state.config.probability_honest,
                ))
                &&& (!validator.is_proposer ==> final(deltas).proposer_reward
                    == old(deltas).proposer_reward)
            })
        },
{
    if validator.is_active {
        if base_reward > u64::MAX / 3 {
            return Err(SimError::ArithmeticOverflow);
        }
        if !validator.is_slashed && validator.has_matched_source {
            if state_totals.active_balance / BALANCE_SCALE_DOWN == 0 {
                return Err(SimError::ArithmeticOverflow);
            }
            let adjusted_matching_balance = state_totals.matching_balance / BALANCE_SCALE_DOWN;
            proof {
                assert((3 * (base_reward as int)) * (adjusted_matching_balance as int) <= (3 * (
                u64::MAX as int)) * ((u64::MAX as int) / 32)) by (nonlinear_arith)
                    requires
                        0 <= base_reward <= u64::MAX,
                        0 <= adjusted_matching_balance <= (u64::MAX as int) / 32,
                ;
            }
            let ffg_wide: u128 = 3 * (base_reward as u128) * (adjusted_matching_balance as u128);
            if ffg_wide > u64::MAX as u128 {
                return Err(SimError::ArithmeticOverflow);
            }
            let proposer_share = base_reward / PROPOSER_REWARD_QUOTIENT;
            let maximum_attester_reward = base_reward - proposer_share;
            proof {
                assert((maximum_attester_reward as int) * (
                state.config.exp_value_inclusion_prob as int) <= (u64::MAX as int) * (
                u64::MAX as int)) by (nonlinear_arith)
                    requires
                        maximum_attester_reward <= u64::MAX,
                        state.config.exp_value_inclusion_prob <= u64::MAX,
                ;
            }
            let attester_wide: u128 = (maximum_attester_reward as u128) * (
            state.config.exp_value_inclusion_prob as u128) / (PROBABILITY_SCALE as u128);
            if attester_wide > u64::MAX as u128 {
                return Err(SimError::ArithmeticOverflow);
            }
            if validator.is_proposer {
                let number_of_attesters = state_totals.active_validators / (
                PROPOSERS_PER_EPOCH as u64);
                proof {
                    lemma_number_of_attestations_bounds(
                        state_totals.active_validators,
                        state.config.probability_online,
                        state.config.probability_honest,
                    );
                }
                let attestations_wide: u128 = (number_of_attesters as u128) * (
                state.config.probability_online as u128) * (
                state.config.probability_honest as u128) / ((PROBABILITY_SCALE as u128) * (
                PROBABILITY_SCALE as u128));
                proof {
                    assert((proposer_share as int) * (attestations_wide as int) <= (
                    u64::MAX as int) * (u64::MAX as int)) by (nonlinear_arith)
                        requires
                            0 <= proposer_share <= u64::MAX,
                            0 <= attestations_wide <= u64::MAX,
                    ;
                }
                let proposer_wide: u128 = (proposer_share as u128) * attestations_wide;
                if proposer_wide > u64::MAX as u128 {
                    return Err(SimError::ArithmeticOverflow);
                }
            }
        }
    }
    get_attestation_deltas(validator, base_reward, state, state_totals, deltas);
    Ok(())
}

/// A uniform bound on the three rewards any one validator can earn in one
/// epoch: three FFG rewards at the base-reward cap of a fully staked
/// validator, one proposer share per cohort member, and one scaled attester
/// share.
pub open spec fn per_validator_reward_cap(n: int, sqrt_active_balance: u64, c: Config) -> int {
    let cap = crate::validator::base_reward_of(MAX_EFFECTIVE_BALANCE, sqrt_active_balance);
    3 * cap + cap * (n / PROPOSERS_PER_EPOCH as int) + cap * c.exp_value_inclusion_prob
        / PROBABILITY_SCALE as int
}

/// A capped effective balance keeps the base reward at or below the cap's
/// base reward, and never negative.
pub proof fn lemma_base_reward_le_cap(effective_balance: u64, sqrt_active_balance: u64)
    requires
        effective_balance <= MAX_EFFECTIVE_BALANCE,
        sqrt_active_balance >= 1,
    ensures
        0 <= crate::validator::base_reward_of(effective_balance, sqrt_active_balance),
        crate::validator::base_reward_of(effective_balance, sqrt_active_balance)
            <= crate::validator::base_reward_of(MAX_EFFECTIVE_BALANCE, sqrt_active_balance),
{
    let sq = sqrt_active_balance as int;
    lemma_div_is_ordered(
        effective_balance * crate::config::BASE_REWARD_FACTOR,
        MAX_EFFECTIVE_BALANCE * crate::config::BASE_REWARD_FACTOR,
        sq,
    );
    lemma_div_is_ordered(
        effective_balance * crate::config::BASE_REWARD_FACTOR / sq,
        MAX_EFFECTIVE_BALANCE * crate::config::BASE_REWARD_FACTOR / sq,
        crate::config::BASE_REWARDS_PER_EPOCH as int,
    );
    lemma_div_pos_is_pos(effective_balance * crate::config::BASE_REWARD_FACTOR, sq);
    lemma_div_pos_is_pos(
        effective_balance * crate::config::BASE_REWARD_FACTOR / sq,
        crate::config::BASE_REWARDS_PER_EPOCH as int,
    );
}

/// Under certain probabilities, each reward amount stays within its piece of
/// `per_validator_reward_cap`, and none is negative.
pub proof fn lemma_amounts_within_cap(base_reward: u64, t: StateTotals, c: Config, n: int)
    requires
        c.probability_online == PROBABILITY_SCALE,
        c.probability_honest == PROBABILITY_SCALE,
        t.sqrt_active_balance >= 1,
        base_reward <= crate::validator::base_reward_of(
            MAX_EFFECTIVE_BALANCE,
            t.sqrt_active_balance,
        ),
        t.active_validators <= n,
        scaled_balance(t.active_balance) >= 1,
        t.matching_balance <= t.active_balance,
    ensures
        0 <= ffg_reward_amount(base_reward, t.matching_balance, t.active_balance) <= 3
            * base_reward,
        3 * base_reward <= 3 * crate::validator::base_reward_of(
            MAX_EFFECTIVE_BALANCE,
            t.sqrt_active_balance,
        ),
        0 <= proposer_reward_amount(
            base_reward,
            t.active_validators,
            c.probability_online,
            c.probability_honest,
        ) <= crate::validator::base_reward_of(MAX_EFFECTIVE_BALANCE, t.sqrt_active_balance) * (n
            / PROPOSERS_PER_EPOCH as int),
        0 <= attester_reward_amount(base_reward, c.exp_value_inclusion_prob)
            <= crate::validator::base_reward_of(MAX_EFFECTIVE_BALANCE, t.sqrt_active_balance) * (
        c.exp_value_inclusion_prob as int) / (PROBABILITY_SCALE as int),
{
    let brmax = crate::validator::base_reward_of(MAX_EFFECTIVE_BALANCE, t.sqrt_active_balance);
    let s = PROBABILITY_SCALE as int;
    let e = c.exp_value_inclusion_prob as int;
    // the FFG reward: bounded by three base rewards, never negative
    lemma_ffg_reward_full_match(base_reward, t.matching_balance, t.active_balance);
    lemma_div_pos_is_pos(t.matching_balance as int, BALANCE_SCALE_DOWN as int);
    assert(3 * base_reward * scaled_balance(t.matching_balance) >= 0) by (nonlinear_arith)
        requires
            base_reward >= 0,
            scaled_balance(t.matching_balance) >= 0,
    ;
    lemma_div_pos_is_pos(
        3 * base_reward * scaled_balance(t.matching_balance),
        scaled_balance(t.active_balance),
    );
    // the proposer incentive: with both probabilities certain, the expected
    // attestation count is exactly the cohort size
    let av = t.active_validators as int;
    let na = av / (PROPOSERS_PER_EPOCH as int);
    assert(na * s * s == (s * s) * na) by (nonlinear_arith);
    lemma_div_multiples_vanish(na, s * s);
    assert(number_of_attestations(t.active_validators, c.probability_online, c.probability_honest)
        == na);
    lemma_div_pos_is_pos(av, PROPOSERS_PER_EPOCH as int);
    lemma_div_pos_is_pos(base_reward as int, PROPOSER_REWARD_QUOTIENT as int);
    lemma_div_nonincreasing(base_reward as int, PROPOSER_REWARD_QUOTIENT as int);
    lemma_div_is_ordered(av, n, PROPOSERS_PER_EPOCH as int);
    assert((base_reward as int / PROPOSER_REWARD_QUOTIENT as int) * na >= 0) by (nonlinear_arith)
        requires
            base_reward as int / PROPOSER_REWARD_QUOTIENT as int >= 0,
            na >= 0,
    ;
    assert((base_reward as int / PROPOSER_REWARD_QUOTIENT as int) * na <= brmax * (n
        / PROPOSERS_PER_EPOCH as int)) by (nonlinear_arith)
        requires
            0 <= base_reward as int / PROPOSER_REWARD_QUOTIENT as int <= brmax,
            0 <= na <= n / PROPOSERS_PER_EPOCH as int,
    ;
    // the attester incentive: its base share is at most the base reward
    let mar = base_reward as int - base_reward as int / PROPOSER_REWARD_QUOTIENT as int;
    assert(mar * e >= 0) by (nonlinear_arith)
        requires
            mar >= 0,
            e >= 0,
    ;
    assert(mar * e <= brmax * e) by (nonlinear_arith)
        requires
            0 <= mar <= brmax,
            e >= 0,
    ;
    lemma_div_pos_is_pos(mar * e, s);
    lemma_div_is_ordered(mar * e, brmax * e, s);
}

/// Each piece of the per-validator reward cap is nonnegative and at most the
/// whole cap.
pub proof fn lemma_reward_cap_pieces(n: int, sqrt_active_balance: u64, c: Config)
    requires
        n >= 0,
        sqrt_active_balance >= 1,
    ensures
        0 <= 3 * crate::validator::base_reward_of(MAX_EFFECTIVE_BALANCE, sqrt_active_balance)
            <= per_validator_reward_cap(n, sqrt_active_balance, c),
        0 <= crate::validator::base_reward_of(MAX_EFFECTIVE_BALANCE, sqrt_active_balance) * (n
            / PROPOSERS_PER_EPOCH as int) <= per_validator_reward_cap(n, sqrt_active_balance, c),
        0 <= crate::validator::base_reward_of(MAX_EFFECTIVE_BALANCE, sqrt_active_balance) * (
        c.exp_value_inclusion_prob as int) / (PROBABILITY_SCALE as int)
            <= per_validator_reward_cap(n, sqrt_active_balance, c),
        per_validator_reward_cap(n, sqrt_active_balance, c) >= 0,
{
    let cap = crate::validator::base_reward_of(MAX_EFFECTIVE_BALANCE, sqrt_active_balance);
    lemma_base_reward_le_cap(MAX_EFFECTIVE_BALANCE, sqrt_active_balance);
    lemma_div_pos_is_pos(n, PROPOSERS_PER_EPOCH as int);
    assert(cap * (n / PROPOSERS_PER_EPOCH as int) >= 0) by (nonlinear_arith)
        requires
            cap >= 0,
            n / PROPOSERS_PER_EPOCH as int >= 0,
    ;
    assert(cap * (c.exp_value_inclusion_prob as int) >= 0) by (nonlinear_arith)
        requires
            cap >= 0,
            c.exp_value_inclusion_prob >= 0,
    ;
    lemma_div_pos_is_pos(cap * (c.exp_value_inclusion_prob as int), PROBABILITY_SCALE as int);
}

/// A matching validator's FFG reward never exceeds three base rewards while
/// the matching balance is within the active balance, and equals three base
/// rewards exactly when every active stake also matched; truncation in the
/// scale-down accounts for the rest.
pub proof fn lemma_ffg_reward_full_match(
    base_reward: u64,
    matching_balance: u64,
    active_balance: u64,
)
    requires
        scaled_balance(active_balance) >= 1,
    ensures
        matching_balance == active_balance ==> ffg_reward_amount(
            base_reward,
            matching_balance,
            active_balance,
        ) == 3 * base_reward,
        matching_balance <= active_balance ==> ffg_reward_amount(
            base_reward,
            matching_balance,
            active_balance,
        ) <= 3 * base_reward,
{
    let t = 3 * (base_reward as int);
    let a1 = scaled_balance(active_balance);
    assert(t * a1 == a1 * t) by (nonlinear_arith);
    lemma_div_multiples_vanish(t, a1);
    if matching_balance <= active_balance {
        lemma_div_is_ordered(
            matching_balance as int,
            active_balance as int,
            BALANCE_SCALE_DOWN as int,
        );
        assert(t * scaled_balance(matching_balance) <= t * a1) by (nonlinear_arith)
            requires
                t >= 0,
                scaled_balance(matching_balance) <= a1,
        ;
        lemma_div_is_ordered(t * scaled_balance(matching_balance), t * a1, a1);
    }
}

/// An inactive validator's breakdown is whatever it already was: all four
/// deltas of a fresh breakdown stay zero, whatever its other fields hold.
pub proof fn lemma_inactive_validator_deltas(
    v: Validator,
    base_reward: u64,
    t: StateTotals,
    c: Config,
    prior: Deltas,
)
    requires
        !v.is_active,
    ensures
        attestation_deltas(v, base_reward, t, c, prior) == prior,
{
}

/// An active, slashed validator is charged exactly three base rewards of
/// FFG penalty over a fresh breakdown, and earns nothing — whatever its
/// matching flags and the epoch's totals.  The one bound asked is the
/// machine limit that three base rewards fit in 64 bits, which the epoch
/// transition enforces as fatal.
pub proof fn lemma_slashed_validator_deltas(
    v: Validator,
    base_reward: u64,
    t: StateTotals,
    c: Config,
)
    requires
        v.is_active,
        v.is_slashed,
        3 * base_reward <= u64::MAX,
    ensures
        attestation_deltas(v, base_reward, t, c, zero_deltas()).head_ffg_penalty == 3
            * base_reward,
        attestation_deltas(v, base_reward, t, c, zero_deltas()).head_ffg_reward == 0,
        attestation_deltas(v, base_reward, t, c, zero_deltas()).proposer_reward == 0,
        attestation_deltas(v, base_reward, t, c, zero_deltas()).attester_reward == 0,
{
}

/// An active validator that matched source and does not propose, under
/// certain online and honest probabilities with the whole active balance
/// matching, earns exactly three base rewards of FFG reward over a fresh
/// breakdown, no proposer reward, and no penalty.  With a smaller matching
/// balance the reward only shrinks (see `lemma_ffg_reward_full_match`); the
/// fit bounds are the machine limits the epoch transition enforces as
/// fatal.
pub proof fn lemma_matched_non_proposer_deltas(
    v: Validator,
    base_reward: u64,
    t: StateTotals,
    c: Config,
)
    requires
        v.is_active,
        !v.is_slashed,
        v.has_matched_source,
        !v.is_proposer,
        c.probability_online == PROBABILITY_SCALE,
        c.probability_honest == PROBABILITY_SCALE,
        t.matching_balance == t.active_balance,
        scaled_balance(t.active_balance) >= 1,
        3 * base_reward * scaled_balance(t.matching_balance) <= u64::MAX,
    ensures
        attestation_deltas(v, base_reward, t, c, zero_deltas()).head_ffg_reward == 3
            * base_reward,
        attestation_deltas(v, base_reward, t, c, zero_deltas()).proposer_reward == 0,
        attestation_deltas(v, base_reward, t, c, zero_deltas()).head_ffg_penalty == 0,
{
    lemma_ffg_reward_full_match(base_reward, t.matching_balance, t.active_balance);
    lemma_amounts_nonneg(base_reward, t, c);
}

} // verus!
