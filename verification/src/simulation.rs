//! The multi-epoch driver: folds the epoch transition over the validator
//! set, collecting one report row per epoch.

use vstd::prelude::*;
use crate::config::BALANCE_SCALE_DOWN;
use crate::config::MAX_EFFECTIVE_BALANCE;
use crate::config::PROBABILITY_SCALE;
use crate::config::PROPOSERS_PER_EPOCH;
use crate::error::SimError;
use crate::math::isqrt_spec;
use crate::math::lemma_isqrt_monotone;
use crate::math::lemma_isqrt_spec_bounds;
use crate::process_epoch::epoch_headroom;
use crate::process_epoch::process_epoch;
use crate::report::EpochReportRow;
use crate::rewards::lemma_base_reward_le_cap;
use crate::rewards::per_validator_reward_cap;
use crate::state::active_balances_seq;
use crate::state::balances_seq;
use crate::state::count_eligible;
use crate::state::eligible_flags_seq;
use crate::state::lemma_active_balance_le_len_cap;
use crate::state::lemma_matching_eq_active_when_unslashed;
use crate::state::total_active_balance;
use crate::state::total_staked_balance;
use crate::state::State;
use crate::sums::lemma_sum_u64s_nonneg;
use crate::sums::lemma_sum_u64s_pointwise_le;
use crate::validator::base_reward_of;
use crate::validator::Validator;
use vstd::arithmetic::div_mod::lemma_div_is_ordered;
use vstd::arithmetic::div_mod::lemma_div_is_ordered_by_denominator;
use vstd::arithmetic::div_mod::lemma_div_pos_is_pos;
use vstd::arithmetic::div_mod::lemma_fundamental_div_mod;

verus! {

/// Room for a whole run's arithmetic: certain probabilities, nobody
/// slashed, enough eligible validators, every balance covering its
/// effective balance, a positive scaled active balance, and numeric slack
/// measured against the initial square root: the worst FFG product fits,
/// and the staked total leaves one per-validator reward cap of slack for
/// every validator in every epoch.  Under these the active balance can only
/// grow, so the initial square root bounds every epoch's rewards, and every
/// epoch of the run succeeds.
pub open spec fn simulation_headroom(initial: State) -> bool {
    let s = initial.validators@;
    let c = initial.config;
    let n = s.len() as int;
    let sq0 = isqrt_spec(total_active_balance(s)) as u64;
    let d0 = per_validator_reward_cap(n, sq0, c);
    &&& c.probability_online == PROBABILITY_SCALE
    &&& c.probability_honest == PROBABILITY_SCALE
    &&& (forall|j: int| 0 <= j < n ==> !s[j].is_slashed)
    &&& (forall|j: int| 0 <= j < n ==> s[j].balance >= s[j].effective_balance)
    &&& count_eligible(s) >= PROPOSERS_PER_EPOCH as int
    &&& total_active_balance(s) / (BALANCE_SCALE_DOWN as int) >= 1
    &&& 3 * base_reward_of(MAX_EFFECTIVE_BALANCE, sq0) * ((n * MAX_EFFECTIVE_BALANCE) / (
    BALANCE_SCALE_DOWN as int)) <= u64::MAX
    &&& total_staked_balance(s) + c.epochs * (n * d0) <= u64::MAX
    &&& n * MAX_EFFECTIVE_BALANCE <= u64::MAX
}

/// One epoch of a run with sustained headroom: a state whose flags match
/// the initial set, whose effective balances have only grown, and whose
/// staked total has grown by at most one reward-cap block per epoch, still
/// has epoch headroom, enough eligible validators, and a reward-cap block
/// no larger than the initial one.
proof fn lemma_sustained_step(initial: State, s: Seq<Validator>, epoch_id: u64)
    requires
        simulation_headroom(initial),
        s.len() == initial.validators@.len(),
        forall|j: int|
            0 <= j < s.len() ==> s[j].is_active == initial.validators@[j].is_active
                && s[j].is_slashed == initial.validators@[j].is_slashed,
        forall|j: int| 0 <= j < s.len() ==> s[j].effective_balance <= MAX_EFFECTIVE_BALANCE,
        forall|j: int|
            0 <= j < s.len() ==> s[j].effective_balance
                >= initial.validators@[j].effective_balance,
        epoch_id < initial.config.epochs,
        total_staked_balance(s) <= total_staked_balance(initial.validators@) + epoch_id * (
        s.len() as int * per_validator_reward_cap(
            s.len() as int,
            isqrt_spec(total_active_balance(initial.validators@)) as u64,
            initial.config,
        )),
    ensures
        count_eligible(s) >= PROPOSERS_PER_EPOCH as int,
        epoch_headroom(s, initial.config),
        0 <= s.len() as int * per_validator_reward_cap(
            s.len() as int,
            isqrt_spec(total_active_balance(s)) as u64,
            initial.config,
        ) <= s.len() as int * per_validator_reward_cap(
            s.len() as int,
            isqrt_spec(total_active_balance(initial.validators@)) as u64,
            initial.config,
        ),
{
    let s0 = initial.validators@;
    let c = initial.config;
    let n = s.len() as int;
    let a0 = total_active_balance(s0);
    let ak = total_active_balance(s);
    // the eligible set is unchanged
    assert(eligible_flags_seq(s) =~= eligible_flags_seq(s0));
    // the active balance has only grown, and stays within the capped range
    lemma_sum_u64s_nonneg(active_balances_seq(s0));
    lemma_sum_u64s_nonneg(active_balances_seq(s));
    lemma_sum_u64s_nonneg(balances_seq(s0));
    assert(forall|j: int|
        0 <= j < s.len() ==> active_balances_seq(s0)[j] <= active_balances_seq(s)[j]);
    lemma_sum_u64s_pointwise_le(active_balances_seq(s0), active_balances_seq(s));
    lemma_active_balance_le_len_cap(s);
    lemma_fundamental_div_mod(a0, BALANCE_SCALE_DOWN as int);
    assert(a0 >= 32);
    lemma_div_is_ordered(32, ak, BALANCE_SCALE_DOWN as int);
    // the square root has only grown, so the initial one bounds the rewards
    let q0 = isqrt_spec(a0);
    let qk = isqrt_spec(ak);
    lemma_isqrt_spec_bounds(a0);
    lemma_isqrt_spec_bounds(ak);
    lemma_isqrt_monotone(a0, ak);
    if q0 == 0 {
        assert((q0 + 1) * (q0 + 1) == 1) by (nonlinear_arith)
            requires
                q0 == 0,
        ;
    }
    assert(q0 <= q0 * q0) by (nonlinear_arith)
        requires
            q0 >= 1,
    ;
    assert(qk <= qk * qk) by (nonlinear_arith)
        requires
            qk >= 1,
    ;
    let cap0 = base_reward_of(MAX_EFFECTIVE_BALANCE, q0 as u64);
    let capk = base_reward_of(MAX_EFFECTIVE_BALANCE, qk as u64);
    lemma_base_reward_le_cap(MAX_EFFECTIVE_BALANCE, q0 as u64);
    lemma_base_reward_le_cap(MAX_EFFECTIVE_BALANCE, qk as u64);
    lemma_div_is_ordered_by_denominator(
        MAX_EFFECTIVE_BALANCE * crate::config::BASE_REWARD_FACTOR,
        q0,
        qk,
    );
    lemma_div_is_ordered(
        MAX_EFFECTIVE_BALANCE * crate::config::BASE_REWARD_FACTOR / qk,
        MAX_EFFECTIVE_BALANCE * crate::config::BASE_REWARD_FACTOR / q0,
        crate::config::BASE_REWARDS_PER_EPOCH as int,
    );
    assert(capk <= cap0);
    // the whole per-validator cap has only shrunk
    let d0 = per_validator_reward_cap(n, q0 as u64, c);
    let dk = per_validator_reward_cap(n, qk as u64, c);
    lemma_div_pos_is_pos(n, PROPOSERS_PER_EPOCH as int);
    assert(capk * (n / PROPOSERS_PER_EPOCH as int) <= cap0 * (n / PROPOSERS_PER_EPOCH as int))
        by (nonlinear_arith)
        requires
            0 <= capk <= cap0,
            n / PROPOSERS_PER_EPOCH as int >= 0,
    ;
    assert(capk * (c.exp_value_inclusion_prob as int) <= cap0 * (c.exp_value_inclusion_prob as int))
        by (nonlinear_arith)
        requires
            0 <= capk <= cap0,
            c.exp_value_inclusion_prob >= 0,
    ;
    lemma_div_is_ordered(
        capk * (c.exp_value_inclusion_prob as int),
        cap0 * (c.exp_value_inclusion_prob as int),
        PROBABILITY_SCALE as int,
    );
    crate::rewards::lemma_reward_cap_pieces(n, qk as u64, c);
    crate::rewards::lemma_reward_cap_pieces(n, q0 as u64, c);
    assert(dk <= d0);
    assert(0 <= n * dk <= n * d0) by (nonlinear_arith)
        requires
            0 <= dk <= d0,
            n >= 0,
    ;
    // the staked total still leaves one cap block of room for this epoch
    assert(epoch_id * (n * d0) + (n * d0) == (epoch_id + 1) * (n * d0)) by (nonlinear_arith);
    assert((epoch_id + 1) * (n * d0) <= (c.epochs as int) * (n * d0)) by (nonlinear_arith)
        requires
            epoch_id as int + 1 <= c.epochs as int,
            n * d0 >= 0,
    ;
    assert(epoch_id * (n * d0) <= (c.epochs as int) * (n * d0)) by (nonlinear_arith)
        requires
            0 <= epoch_id as int <= c.epochs as int,
            n * d0 >= 0,
    ;
    // nobody is slashed, so the matching balance is the active balance
    assert(forall|j: int| 0 <= j < s.len() ==> !s[j].is_slashed);
    lemma_matching_eq_active_when_unslashed(s);
    // every validator's FFG product fits under the initial cap
    lemma_div_is_ordered(ak, n * MAX_EFFECTIVE_BALANCE, BALANCE_SCALE_DOWN as int);
    assert forall|j: int| 0 <= j < s.len() implies 3 * base_reward_of(
        s[j].effective_balance,
        qk as u64,
    ) * (crate::state::total_matching_balance(s) / (BALANCE_SCALE_DOWN as int)) <= u64::MAX by {
        lemma_base_reward_le_cap(s[j].effective_balance, qk as u64);
        let br = base_reward_of(s[j].effective_balance, qk as u64);
        lemma_div_pos_is_pos(crate::state::total_matching_balance(s), BALANCE_SCALE_DOWN as int);
        assert(3 * br * (crate::state::total_matching_balance(s) / (BALANCE_SCALE_DOWN as int)) <= 3 * cap0 * (
        (n * MAX_EFFECTIVE_BALANCE) / (BALANCE_SCALE_DOWN as int))) by (nonlinear_arith)
            requires
                0 <= 3 * br <= 3 * cap0,
                0 <= crate::state::total_matching_balance(s) / (BALANCE_SCALE_DOWN as int) <= (n
                    * MAX_EFFECTIVE_BALANCE) / (BALANCE_SCALE_DOWN as int),
        ;
    }
}

/// Runs `config.epochs` epoch transitions from `initial`, threading the
/// evolving validator set and appending one report row per epoch.
///
/// Zero epochs return the initial state unchanged with an empty report.  On
/// success the report holds exactly one row per epoch; the set keeps its
/// size, its configuration, and every validator's activation and slashing
/// status; each row carries its epoch's index and a staked total that is
/// the previous total plus the row's aggregated rewards, minus its
/// aggregated penalties; and when both probabilities are certain and nobody
/// is slashed, no validator's balance ever shrinks.  The first failing
/// epoch aborts the run with its error and no result; under
/// `simulation_headroom` no epoch fails, and the whole run is promised to
/// succeed.
pub fn run_simulation(initial: State) -> (r: Result<(State, Vec<EpochReportRow>), SimError>)
    requires
        initial.config.probability_online <= PROBABILITY_SCALE,
        initial.config.probability_honest <= PROBABILITY_SCALE,
        forall|j: int|
            0 <= j < initial.validators@.len() ==> initial.validators@[j].effective_balance
                <= MAX_EFFECTIVE_BALANCE,
    ensures
        initial.config.epochs == 0 ==> r is Ok && r->Ok_0.0.validators@ == initial.validators@
            && r->Ok_0.0.config == initial.config && r->Ok_0.1@.len() == 0,
        r is Ok ==> {
            &&& r->Ok_0.0.config == initial.config
            &&& r->Ok_0.0.validators@.len() == initial.validators@.len()
            &&& r->Ok_0.1@.len() == initial.config.epochs
            &&& (forall|j: int|
                0 <= j < initial.validators@.len() ==> {
                    &&& r->Ok_0.0.validators@[j].is_active == initial.validators@[j].is_active
                    &&& r->Ok_0.0.validators@[j].is_slashed == initial.validators@[j].is_slashed
                })
        },
        r is Ok ==> {
            let rows = r->Ok_0.1@;
            &&& (forall|k: int| 0 <= k < rows.len() ==> rows[k].epoch_id == k)
            &&& (rows.len() >= 1 ==> rows[0].staked_balance == total_staked_balance(
                initial.validators@,
            ) + rows[0].head_ffg_reward + rows[0].proposer_reward + rows[0].attester_reward
                - rows[0].head_ffg_penalty)
            &&& (forall|k: int|
                1 <= k < rows.len() ==> rows[k].staked_balance == rows[k - 1].staked_balance
                    + rows[k].head_ffg_reward + rows[k].proposer_reward + rows[k].attester_reward
                    - rows[k].head_ffg_penalty)
        },
        r is Ok && initial.config.probability_online == PROBABILITY_SCALE
            && initial.config.probability_honest == PROBABILITY_SCALE && (forall|j: int|
            0 <= j < initial.validators@.len()
                ==> !initial.validators@[j].is_slashed) ==> (forall|j: int|
            0 <= j < initial.validators@.len() ==> r->Ok_0.0.validators@[j].balance
                >= initial.validators@[j].balance),
        simulation_headroom(initial) ==> r is Ok,
{
    let mut state = initial;
    let mut output: Vec<EpochReportRow> = Vec::new();
    let mut epoch_id: u64 = 0;
    let epochs = state.config.epochs;
    let ghost sustained = simulation_headroom(initial);
    let ghost cap_block = initial.validators@.len() as int * per_validator_reward_cap(
        initial.validators@.len() as int,
        isqrt_spec(total_active_balance(initial.validators@)) as u64,
        initial.config,
    );
    while epoch_id < epochs
        invariant
            epoch_id <= epochs,
            epochs == initial.config.epochs,
            initial.config.probability_online <= PROBABILITY_SCALE,
            initial.config.probability_honest <= PROBABILITY_SCALE,
            state.config == initial.config,
            state.validators@.len() == initial.validators@.len(),
            output@.len() == epoch_id,
            epoch_id == 0 ==> state.validators@ == initial.validators@,
            forall|j: int|
                0 <= j < state.validators@.len() ==> state.validators@[j].effective_balance
                    <= MAX_EFFECTIVE_BALANCE,
            forall|j: int|
                0 <= j < state.validators@.len() ==> {
                    &&& state.validators@[j].is_active == initial.validators@[j].is_active
                    &&& state.validators@[j].is_slashed == initial.validators@[j].is_slashed
                },
            initial.config.probability_online == PROBABILITY_SCALE
                && initial.config.probability_honest == PROBABILITY_SCALE && (forall|j: int|
                0 <= j < initial.validators@.len()
                    ==> !initial.validators@[j].is_slashed) ==> (forall|j: int|
                0 <= j < initial.validators@.len() ==> state.validators@[j].balance
                    >= initial.validators@[j].balance),
            forall|k: int| 0 <= k < epoch_id as int ==> output@[k].epoch_id == k,
            epoch_id >= 1 ==> total_staked_balance(state.validators@) == output@[epoch_id as int
                - 1].staked_balance,
            epoch_id >= 1 ==> output@[0].staked_balance == total_staked_balance(
                initial.validators@,
            ) + output@[0].head_ffg_reward + output@[0].proposer_reward
                + output@[0].attester_reward - output@[0].head_ffg_penalty,
            forall|k: int|
                1 <= k < epoch_id as int ==> output@[k].staked_balance == output@[k
                    - 1].staked_balance + output@[k].head_ffg_reward + output@[k].proposer_reward
                    + output@[k].attester_reward - output@[k].head_ffg_penalty,
            sustained == simulation_headroom(initial),
            cap_block == initial.validators@.len() as int * per_validator_reward_cap(
                initial.validators@.len() as int,
                isqrt_spec(total_active_balance(initial.validators@)) as u64,
                initial.config,
            ),
            sustained ==> (forall|j: int|
                0 <= j < state.validators@.len() ==> state.validators@[j].effective_balance
                    >= initial.validators@[j].effective_balance && state.validators@[j].balance
                    >= state.validators@[j].effective_balance),
            sustained ==> total_staked_balance(state.validators@) <= total_staked_balance(
                initial.validators@,
            ) + epoch_id * cap_block,
        decreases epochs - epoch_id,
    {
        let ghost prev = state.validators@;
        proof {
            if sustained {
                lemma_sustained_step(initial, prev, epoch_id);
            }
        }
        state =
        match process_epoch(state, epoch_id, &mut output) {
            Ok(next) => next,
            Err(e) => {
                return Err(e);
            },
        };
        proof {
            if sustained {
                assert(epoch_id * cap_block + cap_block == (epoch_id + 1) * cap_block)
                    by (nonlinear_arith);
            }
        }
        epoch_id = epoch_id + 1;
    }
    Ok((state, output))
}

} // verus!
