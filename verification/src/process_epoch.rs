//! One epoch's transition: take the totals of the pre-state, draw proposers,
//! refresh every validator's activity, compute and apply its deltas, run
//! hysteresis, and close one report row.

use vstd::prelude::*;
use crate::apply_deltas::apply_deltas;
use crate::config::MAX_EFFECTIVE_BALANCE;
use crate::config::PROBABILITY_SCALE;
use crate::config::PROPOSERS_PER_EPOCH;
use crate::deltas::Deltas;
use crate::error::SimError;
use crate::report::EpochReportRow;
use crate::math::isqrt_spec;
use crate::rewards::attester_reward_amount;
use crate::rewards::ffg_reward_amount;
use crate::rewards::lemma_amounts_within_cap;
use crate::rewards::lemma_base_reward_le_cap;
use crate::rewards::lemma_reward_cap_pieces;
use crate::rewards::per_validator_reward_cap;
use crate::rewards::proposer_reward_amount;
use crate::rewards::scaled_balance;
use crate::rewards::try_get_attestation_deltas;
use crate::config::BALANCE_SCALE_DOWN;
use crate::config::Config;
use crate::state::lemma_active_balance_le_len_cap;
use crate::state::lemma_balance_le_staked;
use crate::state::lemma_count_active_le_len;
use crate::state::lemma_count_eligible_le_len;
use crate::state::lemma_matching_eq_active_when_unslashed;
use crate::state::lemma_matching_le_active;
use crate::state::spec_state_totals;
use crate::sums::lemma_sum_u64s_nonneg;
use crate::validator::base_reward_of;
use crate::state::count_active;
use crate::state::count_eligible;
use crate::state::lemma_total_staked_push;
use crate::state::lemma_total_staked_take_step;
use crate::state::max_balance_of;
use crate::state::min_balance_of;
use crate::state::total_active_balance;
use crate::state::total_matching_balance;
use crate::state::total_staked_balance;
use crate::state::State;
use crate::state::StateTotals;
use crate::validator::Validator;

verus! {

/// Room for one epoch's arithmetic over this validator set: its three
/// balance totals fit in 64 bits, the scaled active balance is positive,
/// every validator's FFG product fits, and the staked total leaves one
/// reward cap of slack per validator, with the set small enough that the
/// capped effective balances also fit.  Under certain probabilities with
/// nobody slashed, this is what a successful epoch needs.
pub open spec fn epoch_headroom(s: Seq<Validator>, c: Config) -> bool {
    let sq = isqrt_spec(total_active_balance(s)) as u64;
    let n = s.len() as int;
    &&& total_staked_balance(s) <= u64::MAX
    &&& total_active_balance(s) <= u64::MAX
    &&& total_matching_balance(s) <= u64::MAX
    &&& total_active_balance(s) / (BALANCE_SCALE_DOWN as int) >= 1
    &&& (forall|j: int|
        0 <= j < s.len() ==> 3 * base_reward_of(s[j].effective_balance, sq) * (
        total_matching_balance(s) / (BALANCE_SCALE_DOWN as int)) <= u64::MAX)
    &&& total_staked_balance(s) + n * per_validator_reward_cap(n, sq, c) <= u64::MAX
    &&& n * MAX_EFFECTIVE_BALANCE <= u64::MAX
}

/// What the headroom buys for one validator of an unslashed set under
/// certain probabilities: its amounts are defined, nonnegative, and leave
/// its balance and the row sums within 64 bits.
proof fn lemma_headroom_validator(
    pre: Seq<Validator>,
    c: Config,
    t: StateTotals,
    i: int,
    base_reward: u64,
)
    requires
        t == spec_state_totals(pre),
        epoch_headroom(pre, c),
        c.probability_online == PROBABILITY_SCALE,
        c.probability_honest == PROBABILITY_SCALE,
        forall|j: int| 0 <= j < pre.len() ==> !pre[j].is_slashed,
        forall|j: int| 0 <= j < pre.len() ==> pre[j].effective_balance <= MAX_EFFECTIVE_BALANCE,
        count_eligible(pre) >= PROPOSERS_PER_EPOCH as int,
        0 <= i < pre.len(),
        t.sqrt_active_balance >= 1,
        base_reward == base_reward_of(pre[i].effective_balance, t.sqrt_active_balance),
    ensures
        scaled_balance(t.active_balance) >= 1,
        t.matching_balance == t.active_balance,
        3 * base_reward <= u64::MAX,
        3 * base_reward * scaled_balance(t.matching_balance) <= u64::MAX,
        0 <= ffg_reward_amount(base_reward, t.matching_balance, t.active_balance),
        0 <= proposer_reward_amount(
            base_reward,
            t.active_validators,
            c.probability_online,
            c.probability_honest,
        ) <= u64::MAX,
        0 <= attester_reward_amount(base_reward, c.exp_value_inclusion_prob) <= u64::MAX,
        ffg_reward_amount(base_reward, t.matching_balance, t.active_balance)
            + proposer_reward_amount(
            base_reward,
            t.active_validators,
            c.probability_online,
            c.probability_honest,
        ) + attester_reward_amount(base_reward, c.exp_value_inclusion_prob)
            <= per_validator_reward_cap(pre.len() as int, t.sqrt_active_balance, c),
        per_validator_reward_cap(pre.len() as int, t.sqrt_active_balance, c) <= u64::MAX
            - total_staked_balance(pre),
        pre[i].balance <= total_staked_balance(pre),
        0 <= total_staked_balance(pre),
        1 <= pre.len(),
{
    let n = pre.len() as int;
    let sq = t.sqrt_active_balance;
    let d = per_validator_reward_cap(n, sq, c);
    lemma_sum_u64s_nonneg(crate::state::balances_seq(pre));
    lemma_sum_u64s_nonneg(crate::state::active_balances_seq(pre));
    lemma_sum_u64s_nonneg(crate::state::matching_balances_seq(pre));
    lemma_matching_eq_active_when_unslashed(pre);
    lemma_count_eligible_le_len(pre);
    lemma_count_active_le_len(pre);
    lemma_balance_le_staked(pre, i);
    lemma_base_reward_le_cap(pre[i].effective_balance, sq);
    lemma_amounts_within_cap(base_reward, t, c, n);
    lemma_reward_cap_pieces(n, sq, c);
    assert(3 * base_reward <= 3 * base_reward * scaled_balance(t.matching_balance))
        by (nonlinear_arith)
        requires
            3 * base_reward >= 0,
            scaled_balance(t.matching_balance) >= 1,
    ;
    assert(d <= n * d) by (nonlinear_arith)
        requires
            d >= 0,
            n >= 1,
    ;
}

/// Runs one epoch over `pre_state` and returns the post-state, appending one
/// closed report row to `output`.
///
/// The totals are taken once, from the set as it stands before the epoch, and
/// every per-validator computation reads only them, so no validator's fresh
/// state leaks into a sibling's formulas.  Activity flags are drawn anew for
/// every validator, so which deltas land is random; the contract states what
/// holds of every outcome: the set keeps its size, every validator keeps its
/// activation and slashing status, its effective balance stays capped, an
/// inactive validator's balance is untouched, and under certain online and
/// honest probabilities with nobody slashed no balance ever shrinks.  The run
/// aborts, with the output untouched, when too few validators are eligible
/// for proposer selection, when a reward or total would exceed 64 bits, or
/// when a penalty would drive a balance below zero.  The deterministic
/// failures are pinned: unfitting totals and an empty active balance abort
/// before any draw, too few eligible validators is an error in both
/// directions, and a balance underflow can only arise when a penalty can,
/// that is, when some probability falls short of certainty or someone is
/// slashed.  Conversely, under certain probabilities with nobody slashed
/// and `epoch_headroom`, the epoch is promised to succeed, with a penalty-
/// free row bounded by one reward cap per validator.  Stake is conserved up
/// to the recorded deltas: the closed row's staked total is the pre-epoch
/// staked total plus its aggregated rewards, minus its aggregated penalties.
pub fn process_epoch(pre_state: State, epoch_id: u64, output: &mut Vec<EpochReportRow>) -> (r:
    Result<State, SimError>)
    requires
        pre_state.config.probability_online <= PROBABILITY_SCALE,
        pre_state.config.probability_honest <= PROBABILITY_SCALE,
        forall|j: int|
            0 <= j < pre_state.validators@.len() ==> pre_state.validators@[j].effective_balance
                <= MAX_EFFECTIVE_BALANCE,
    ensures
        r == Result::<State, SimError>::Err(SimError::NotEnoughEligible) ==> count_eligible(
            pre_state.validators@,
        ) < PROPOSERS_PER_EPOCH as int,
        total_staked_balance(pre_state.validators@) <= u64::MAX && total_active_balance(
            pre_state.validators@,
        ) <= u64::MAX && total_matching_balance(pre_state.validators@) <= u64::MAX
            && count_eligible(pre_state.validators@) < PROPOSERS_PER_EPOCH as int ==> r
            == Result::<State, SimError>::Err(SimError::NotEnoughEligible),
        !(total_staked_balance(pre_state.validators@) <= u64::MAX && total_active_balance(
            pre_state.validators@,
        ) <= u64::MAX && total_matching_balance(pre_state.validators@) <= u64::MAX) ==> r
            == Result::<State, SimError>::Err(SimError::ArithmeticOverflow),
        total_staked_balance(pre_state.validators@) <= u64::MAX && total_active_balance(
            pre_state.validators@,
        ) <= u64::MAX && total_matching_balance(pre_state.validators@) <= u64::MAX
            && count_eligible(pre_state.validators@) >= PROPOSERS_PER_EPOCH as int
            && total_active_balance(pre_state.validators@) == 0 ==> r
            == Result::<State, SimError>::Err(SimError::ArithmeticOverflow),
        r == Result::<State, SimError>::Err(SimError::BalanceUnderflow) ==> !(
        pre_state.config.probability_online == PROBABILITY_SCALE
            && pre_state.config.probability_honest == PROBABILITY_SCALE && (forall|j: int|
            0 <= j < pre_state.validators@.len() ==> !pre_state.validators@[j].is_slashed)),
        pre_state.config.probability_online == PROBABILITY_SCALE
            && pre_state.config.probability_honest == PROBABILITY_SCALE && (forall|j: int|
            0 <= j < pre_state.validators@.len() ==> !pre_state.validators@[j].is_slashed)
            && count_eligible(pre_state.validators@) >= PROPOSERS_PER_EPOCH as int
            && epoch_headroom(pre_state.validators@, pre_state.config) ==> r is Ok,
        r is Ok && pre_state.config.probability_online == PROBABILITY_SCALE
            && pre_state.config.probability_honest == PROBABILITY_SCALE && (forall|j: int|
            0 <= j < pre_state.validators@.len() ==> !pre_state.validators@[j].is_slashed)
            && count_eligible(pre_state.validators@) >= PROPOSERS_PER_EPOCH as int
            && epoch_headroom(pre_state.validators@, pre_state.config) ==> {
            let row = final(output)@.last();
            &&& row.head_ffg_penalty == 0
            &&& row.head_ffg_reward + row.proposer_reward + row.attester_reward
                <= pre_state.validators@.len() * per_validator_reward_cap(
                    pre_state.validators@.len() as int,
                    spec_state_totals(pre_state.validators@).sqrt_active_balance,
                    pre_state.config,
                )
        },
        r is Ok && pre_state.config.probability_online == PROBABILITY_SCALE
            && pre_state.config.probability_honest == PROBABILITY_SCALE && (forall|j: int|
            0 <= j < pre_state.validators@.len() ==> !pre_state.validators@[j].is_slashed) && (
        forall|j: int|
            0 <= j < pre_state.validators@.len() ==> pre_state.validators@[j].balance
                >= pre_state.validators@[j].effective_balance) ==> (forall|j: int|
            0 <= j < pre_state.validators@.len() ==> r->Ok_0.validators@[j].effective_balance
                >= pre_state.validators@[j].effective_balance && r->Ok_0.validators@[j].balance
                >= r->Ok_0.validators@[j].effective_balance),
        r is Err ==> final(output)@ == old(output)@,
        r is Ok ==> {
            let post = r->Ok_0;
            &&& post.config == pre_state.config
            &&& post.validators@.len() == pre_state.validators@.len()
            &&& (forall|j: int|
                0 <= j < post.validators@.len() ==> {
                    &&& post.validators@[j].is_active == pre_state.validators@[j].is_active
                    &&& post.validators@[j].is_slashed == pre_state.validators@[j].is_slashed
                    &&& post.validators@[j].effective_balance <= MAX_EFFECTIVE_BALANCE
                    &&& (!pre_state.validators@[j].is_active ==> post.validators@[j].balance
                        == pre_state.validators@[j].balance)
                })
        },
        r is Ok && pre_state.config.probability_online == PROBABILITY_SCALE
            && pre_state.config.probability_honest == PROBABILITY_SCALE && (forall|j: int|
            0 <= j < pre_state.validators@.len()
                ==> !pre_state.validators@[j].is_slashed) ==> (forall|j: int|
            0 <= j < pre_state.validators@.len() ==> r->Ok_0.validators@[j].balance
                >= pre_state.validators@[j].balance),
        r is Ok ==> {
            let post = r->Ok_0;
            let row = final(output)@.last();
            &&& final(output)@.len() == old(output)@.len() + 1
            &&& (forall|j: int| 0 <= j < old(output)@.len() ==> final(output)@[j] == old(output)@[j])
            &&& row.epoch_id == epoch_id
            &&& row.staked_balance == total_staked_balance(post.validators@)
            &&& row.active_balance == total_active_balance(post.validators@)
            &&& row.max_balance == max_balance_of(post.validators@)
            &&& row.min_balance == min_balance_of(post.validators@)
            &&& row.validator_count == post.validators@.len()
            &&& row.active_validators == count_active(post.validators@)
            &&& row.staked_balance == total_staked_balance(pre_state.validators@)
                + row.head_ffg_reward + row.proposer_reward + row.attester_reward
                - row.head_ffg_penalty
        },
{
    // the totals must exist before any per-validator work can be priced
    if !pre_state.totals_fit() {
        return Err(SimError::ArithmeticOverflow);
    }
    let state_totals = StateTotals::new(&pre_state);
    let proposer_indices = match pre_state.pick_epoch_proposers() {
        Ok(indices) => indices,
        Err(e) => {
            return Err(e);
        },
    };
    if state_totals.sqrt_active_balance == 0 {
        proof {
            if epoch_headroom(pre_state.validators@, pre_state.config) {
                // a scaled active balance of at least one means at least one
                // full scale-down unit of active balance
                lemma_sum_u64s_nonneg(crate::state::active_balances_seq(pre_state.validators@));
                vstd::arithmetic::div_mod::lemma_fundamental_div_mod(
                    total_active_balance(pre_state.validators@),
                    BALANCE_SCALE_DOWN as int,
                );
                assert(state_totals.active_balance >= 32);
                // yet a zero square root puts the active balance below one:
                // headroom rules this exit out
                assert((state_totals.sqrt_active_balance + 1) * (state_totals.sqrt_active_balance
                    + 1) == 1) by (nonlinear_arith)
                    requires
                        state_totals.sqrt_active_balance == 0,
                ;
            }
        }
        // an empty active balance leaves the base reward undefined
        return Err(SimError::ArithmeticOverflow);
    }
    let mut epoch_report_row = EpochReportRow::new(epoch_id);
    let mut post_state_validators: Vec<Validator> = Vec::new();
    let mut validator_index: usize = 0;
    let ghost pre = pre_state.validators@;
    proof {
        assert(crate::state::balances_seq(post_state_validators@).len() == 0);
        assert(crate::state::balances_seq(pre.take(0)).len() == 0);
        assert((state_totals.sqrt_active_balance as int) * (state_totals.sqrt_active_balance as int)
            >= 1) by (nonlinear_arith)
            requires
                state_totals.sqrt_active_balance >= 1,
        ;
    }
    let ghost monotone = pre_state.config.probability_online == PROBABILITY_SCALE
        && pre_state.config.probability_honest == PROBABILITY_SCALE && (forall|j: int|
        0 <= j < pre.len() ==> !pre[j].is_slashed);
    let ghost certain_headroom = monotone && count_eligible(pre) >= PROPOSERS_PER_EPOCH as int
        && epoch_headroom(pre, pre_state.config);
    let ghost balances_cover = monotone && (forall|j: int|
        0 <= j < pre.len() ==> pre[j].balance >= pre[j].effective_balance);
    while validator_index < pre_state.validators.len()
        invariant
            validator_index <= pre.len(),
            pre == pre_state.validators@,
            count_eligible(pre) >= PROPOSERS_PER_EPOCH as int,
            total_staked_balance(pre) <= u64::MAX,
            total_active_balance(pre) <= u64::MAX,
            total_matching_balance(pre) <= u64::MAX,
            total_active_balance(pre) >= 1,
            epoch_report_row.epoch_id == epoch_id,
            pre_state.config.probability_online <= PROBABILITY_SCALE,
            pre_state.config.probability_honest <= PROBABILITY_SCALE,
            forall|j: int| 0 <= j < pre.len() ==> pre[j].effective_balance <= MAX_EFFECTIVE_BALANCE,
            state_totals.sqrt_active_balance >= 1,
            monotone == (pre_state.config.probability_online == PROBABILITY_SCALE
                && pre_state.config.probability_honest == PROBABILITY_SCALE && (forall|j: int|
                0 <= j < pre.len() ==> !pre[j].is_slashed)),
            certain_headroom == (monotone && count_eligible(pre) >= PROPOSERS_PER_EPOCH as int
                && epoch_headroom(pre, pre_state.config)),
            balances_cover == (monotone && (forall|j: int|
                0 <= j < pre.len() ==> pre[j].balance >= pre[j].effective_balance)),
            state_totals == spec_state_totals(pre),
            certain_headroom ==> epoch_report_row.head_ffg_penalty == 0
                && epoch_report_row.head_ffg_reward + epoch_report_row.proposer_reward
                + epoch_report_row.attester_reward <= validator_index as int
                * per_validator_reward_cap(
                pre.len() as int,
                state_totals.sqrt_active_balance,
                pre_state.config,
            ),
            balances_cover ==> (forall|j: int|
                0 <= j < validator_index as int ==> post_state_validators@[j].effective_balance
                    >= pre[j].effective_balance && post_state_validators@[j].balance
                    >= post_state_validators@[j].effective_balance),
            post_state_validators@.len() == validator_index,
            forall|j: int|
                0 <= j < validator_index as int ==> {
                    &&& post_state_validators@[j].is_active == pre[j].is_active
                    &&& post_state_validators@[j].is_slashed == pre[j].is_slashed
                    &&& post_state_validators@[j].effective_balance <= MAX_EFFECTIVE_BALANCE
                    &&& (!pre[j].is_active ==> post_state_validators@[j].balance == pre[j].balance)
                },
            monotone ==> (forall|j: int|
                0 <= j < validator_index as int ==> post_state_validators@[j].balance
                    >= pre[j].balance),
            forall|j: int|
                0 <= j < validator_index as int ==> post_state_validators@[j].effective_balance
                    <= MAX_EFFECTIVE_BALANCE,
            total_staked_balance(post_state_validators@) == total_staked_balance(
                pre.take(validator_index as int),
            ) + epoch_report_row.head_ffg_reward + epoch_report_row.proposer_reward
                + epoch_report_row.attester_reward - epoch_report_row.head_ffg_penalty,
        decreases pre.len() - validator_index,
    {
        let pre_validator = pre_state.validators[validator_index];
        let mut deltas = Deltas::new();
        let validator = pre_validator.update_previous_epoch_activity(
            &pre_state,
            &proposer_indices,
            validator_index,
        );
        let base_reward = validator.get_base_reward(state_totals.sqrt_active_balance);
        proof {
            if certain_headroom {
                lemma_headroom_validator(
                    pre,
                    pre_state.config,
                    state_totals,
                    validator_index as int,
                    base_reward,
                );
                let d = per_validator_reward_cap(
                    pre.len() as int,
                    state_totals.sqrt_active_balance,
                    pre_state.config,
                );
                assert((validator_index as int + 1) * d == validator_index as int * d + d)
                    by (nonlinear_arith);
                assert((validator_index as int + 1) * d <= pre.len() * d) by (nonlinear_arith)
                    requires
                        validator_index as int + 1 <= pre.len(),
                        d >= 0,
                ;
            }
        }
        match try_get_attestation_deltas(
            &validator,
            base_reward,
            &pre_state,
            &state_totals,
            &mut deltas,
        ) {
            Ok(_) => (),
            Err(e) => {
                return Err(e);
            },
        }
        // price the balance update before it is applied; a sum past 64 bits
        // or a penalty past the balance aborts the run
        if deltas.head_ffg_reward > u64::MAX - validator.balance {
            return Err(SimError::ArithmeticOverflow);
        }
        let credited = validator.balance + deltas.head_ffg_reward;
        if deltas.head_ffg_penalty > credited {
            return Err(SimError::BalanceUnderflow);
        }
        let debited = credited - deltas.head_ffg_penalty;
        if deltas.proposer_reward > u64::MAX - debited {
            return Err(SimError::ArithmeticOverflow);
        }
        let with_proposer = debited + deltas.proposer_reward;
        if deltas.attester_reward > u64::MAX - with_proposer {
            return Err(SimError::ArithmeticOverflow);
        }
        let mut new_validator = apply_deltas(&validator, &deltas);
        new_validator.update_effective_balance();
        // the row's running sums are priced the same way
        if deltas.head_ffg_reward > u64::MAX - epoch_report_row.head_ffg_reward {
            return Err(SimError::ArithmeticOverflow);
        }
        if deltas.head_ffg_penalty > u64::MAX - epoch_report_row.head_ffg_penalty {
            return Err(SimError::ArithmeticOverflow);
        }
        if deltas.proposer_reward > u64::MAX - epoch_report_row.proposer_reward {
            return Err(SimError::ArithmeticOverflow);
        }
        if deltas.attester_reward > u64::MAX - epoch_report_row.attester_reward {
            return Err(SimError::ArithmeticOverflow);
        }
        proof {
            lemma_total_staked_push(post_state_validators@, new_validator);
            lemma_total_staked_take_step(pre, validator_index as int);
        }
        epoch_report_row.aggregate(&deltas);
        post_state_validators.push(new_validator);
        validator_index = validator_index + 1;
    }
    proof {
        assert(pre.take(pre.len() as int) =~= pre);
        if certain_headroom {
            assert forall|j: int| 0 <= j < post_state_validators@.len()
                implies post_state_validators@[j].effective_balance
                <= MAX_EFFECTIVE_BALANCE by {
                assert(0 <= j < validator_index as int);
            }
            lemma_active_balance_le_len_cap(post_state_validators@);
            lemma_matching_le_active(post_state_validators@);
            lemma_sum_u64s_nonneg(crate::state::balances_seq(pre));
        }
    }
    let post_state = State { config: pre_state.config, validators: post_state_validators };
    if !post_state.totals_fit() {
        return Err(SimError::ArithmeticOverflow);
    }
    epoch_report_row.close(&post_state);
    output.push(epoch_report_row);
    Ok(post_state)
}

} // verus!
