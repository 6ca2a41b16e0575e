//! The simulation state: the validator set and its configuration, with the
//! aggregate totals recomputed once per epoch.

use vstd::prelude::*;
use crate::config::default_config;
use crate::math::isqrt_spec;
use crate::math::lemma_isqrt_unique;
use crate::config::Config;
use crate::config::MAX_EFFECTIVE_BALANCE;
use crate::math::isqrt_u64;
use crate::sums::lemma_sum_u64s_element_le;
use crate::sums::lemma_sum_u64s_pointwise_le;
use crate::sums::lemma_sum_u64s_prefix_le;
use crate::sums::lemma_sum_u64s_take_step;
use crate::sums::lemma_sum_u64s_upper;
use crate::sums::sum_u64s;
use crate::validator::eligible;
use crate::validator::Validator;

verus! {

/// The balance of each validator, in order.
pub open spec fn balances_seq(s: Seq<Validator>) -> Seq<u64> {
    s.map_values(|v: Validator| v.balance)
}

/// The effective balance of each active validator, zero for the rest.
pub open spec fn active_balances_seq(s: Seq<Validator>) -> Seq<u64> {
    s.map_values(
        |v: Validator|
            if v.is_active {
                v.effective_balance
            } else {
                0u64
            },
    )
}

/// The effective balance of each eligible (active, non-slashed) validator,
/// zero for the rest.
pub open spec fn matching_balances_seq(s: Seq<Validator>) -> Seq<u64> {
    s.map_values(
        |v: Validator|
            if v.is_active && !v.is_slashed {
                v.effective_balance
            } else {
                0u64
            },
    )
}

/// One for each active validator, zero for the rest.
pub open spec fn active_flags_seq(s: Seq<Validator>) -> Seq<u64> {
    s.map_values(
        |v: Validator|
            if v.is_active {
                1u64
            } else {
                0u64
            },
    )
}

/// One for each eligible (active, non-slashed) validator, zero for the rest.
pub open spec fn eligible_flags_seq(s: Seq<Validator>) -> Seq<u64> {
    s.map_values(
        |v: Validator|
            if v.is_active && !v.is_slashed {
                1u64
            } else {
                0u64
            },
    )
}

/// The sum of all balances.
pub open spec fn total_staked_balance(s: Seq<Validator>) -> int {
    sum_u64s(balances_seq(s))
}

/// The sum of effective balances over active validators.
pub open spec fn total_active_balance(s: Seq<Validator>) -> int {
    sum_u64s(active_balances_seq(s))
}

/// The sum of effective balances over eligible validators.
pub open spec fn total_matching_balance(s: Seq<Validator>) -> int {
    sum_u64s(matching_balances_seq(s))
}

/// How many validators are active.
pub open spec fn count_active(s: Seq<Validator>) -> int {
    sum_u64s(active_flags_seq(s))
}

/// How many validators are eligible (active and not slashed).
pub open spec fn count_eligible(s: Seq<Validator>) -> int {
    sum_u64s(eligible_flags_seq(s))
}

/// The largest balance, zero over an empty set.
pub open spec fn max_balance_of(s: Seq<Validator>) -> int
    decreases s.len(),
{
    if s.len() == 0 {
        0
    } else {
        let rest = max_balance_of(s.drop_last());
        if s.last().balance > rest {
            s.last().balance as int
        } else {
            rest
        }
    }
}

/// The smallest balance, `u64::MAX` over an empty set.
pub open spec fn min_balance_of(s: Seq<Validator>) -> int
    decreases s.len(),
{
    if s.len() == 0 {
        u64::MAX as int
    } else {
        let rest = min_balance_of(s.drop_last());
        if s.last().balance < rest {
            s.last().balance as int
        } else {
            rest
        }
    }
}

/// When nobody is slashed, the matching balance is the active balance.
pub proof fn lemma_matching_eq_active_when_unslashed(s: Seq<Validator>)
    requires
        forall|j: int| 0 <= j < s.len() ==> !s[j].is_slashed,
    ensures
        total_matching_balance(s) == total_active_balance(s),
{
    assert(matching_balances_seq(s) =~= active_balances_seq(s));
}

/// The matching balance never exceeds the active balance.
pub proof fn lemma_matching_le_active(s: Seq<Validator>)
    ensures
        total_matching_balance(s) <= total_active_balance(s),
{
    lemma_sum_u64s_pointwise_le(matching_balances_seq(s), active_balances_seq(s));
}

/// With every effective balance capped, the active balance is at most the
/// cap per validator.
pub proof fn lemma_active_balance_le_len_cap(s: Seq<Validator>)
    requires
        forall|j: int| 0 <= j < s.len() ==> s[j].effective_balance <= MAX_EFFECTIVE_BALANCE,
    ensures
        total_active_balance(s) <= s.len() * MAX_EFFECTIVE_BALANCE,
{
    lemma_sum_u64s_upper(active_balances_seq(s), MAX_EFFECTIVE_BALANCE);
}

/// No validator's balance exceeds the staked total.
pub proof fn lemma_balance_le_staked(s: Seq<Validator>, j: int)
    requires
        0 <= j < s.len(),
    ensures
        s[j].balance <= total_staked_balance(s),
{
    lemma_sum_u64s_element_le(balances_seq(s), j);
}

/// There are no more active validators than validators.
pub proof fn lemma_count_active_le_len(s: Seq<Validator>)
    ensures
        0 <= count_active(s) <= s.len(),
{
    lemma_sum_u64s_upper(active_flags_seq(s), 1);
    crate::sums::lemma_sum_u64s_nonneg(active_flags_seq(s));
}

/// There are no more eligible validators than validators.
pub proof fn lemma_count_eligible_le_len(s: Seq<Validator>)
    ensures
        0 <= count_eligible(s) <= s.len(),
{
    lemma_sum_u64s_upper(eligible_flags_seq(s), 1);
    crate::sums::lemma_sum_u64s_nonneg(eligible_flags_seq(s));
}

/// Every eligible validator is active, so the active count is at least the
/// eligible count.
pub proof fn lemma_count_eligible_le_active(s: Seq<Validator>)
    ensures
        count_eligible(s) <= count_active(s),
{
    lemma_sum_u64s_pointwise_le(eligible_flags_seq(s), active_flags_seq(s));
}

/// Appending a validator grows the staked total by exactly its balance.
pub proof fn lemma_total_staked_push(vs: Seq<Validator>, v: Validator)
    ensures
        total_staked_balance(vs.push(v)) == total_staked_balance(vs) + v.balance,
{
    assert(balances_seq(vs.push(v)).drop_last() =~= balances_seq(vs));
    assert(balances_seq(vs.push(v)).last() == v.balance);
}

/// Extending a prefix by one validator adds exactly its balance to the
/// prefix's staked total.
pub proof fn lemma_total_staked_take_step(vs: Seq<Validator>, i: int)
    requires
        0 <= i < vs.len(),
    ensures
        total_staked_balance(vs.take(i + 1)) == total_staked_balance(vs.take(i)) + vs[i].balance,
{
    assert(balances_seq(vs.take(i + 1)).drop_last() =~= balances_seq(vs.take(i)));
    assert(balances_seq(vs.take(i + 1)).last() == vs[i].balance);
}

/// Whether `target` occurs in `indices`.
pub fn contains_index(indices: &Vec<usize>, target: usize) -> (b: bool)
    ensures
        b == indices@.contains(target),
{
    let mut i: usize = 0;
    while i < indices.len()
        invariant
            i <= indices@.len(),
            forall|j: int| 0 <= j < i ==> indices@[j] != target,
        decreases indices@.len() - i,
    {
        if indices[i] == target {
            return true;
        }
        i = i + 1;
    }
    false
}

/// The whole simulation state: the immutable configuration and the evolving
/// validator set.
pub struct State {
    pub config: Config,
    pub validators: Vec<Validator>,
}

impl State {
    /// The initial state under the default configuration: one validator per
    /// full `MAX_EFFECTIVE_BALANCE` of the initial stake, each starting at
    /// the cap, active, and unslashed.
    pub fn new() -> (s: State)
        ensures
            s.config == default_config(),
            s.validators@.len() == default_config().total_at_stake_initial as int
                / MAX_EFFECTIVE_BALANCE as int,
            forall|j: int|
                0 <= j < s.validators@.len() ==> s.validators@[j]
                    == crate::validator::initial_validator(),
    {
        let config = Config::new();
        let number_of_validators = config.total_at_stake_initial / MAX_EFFECTIVE_BALANCE;
        let mut validators: Vec<Validator> = Vec::new();
        let mut i: u64 = 0;
        while i < number_of_validators
            invariant
                i <= number_of_validators,
                validators@.len() == i,
                forall|j: int|
                    0 <= j < i ==> validators@[j] == crate::validator::initial_validator(),
            decreases number_of_validators - i,
        {
            validators.push(
                Validator {
                    balance: MAX_EFFECTIVE_BALANCE,
                    effective_balance: MAX_EFFECTIVE_BALANCE,
                    is_active: true,
                    is_slashed: false,
                    has_matched_source: false,
                    has_matched_head: false,
                    has_matched_target: false,
                    is_proposer: false,
                },
            );
            i = i + 1;
        }
        State { config, validators }
    }

    /// The sum of all balances.
    pub fn get_total_staked_balance(&self) -> (r: u64)
        requires
            total_staked_balance(self.validators@) <= u64::MAX,
        ensures
            r == total_staked_balance(self.validators@),
    {
        let ghost bs = balances_seq(self.validators@);
        let mut total: u64 = 0;
        let mut i: usize = 0;
        while i < self.validators.len()
            invariant
                i <= self.validators@.len(),
                bs == balances_seq(self.validators@),
                total == sum_u64s(bs.take(i as int)),
                sum_u64s(bs) <= u64::MAX,
            decreases self.validators@.len() - i,
        {
            proof {
                lemma_sum_u64s_take_step(bs, i as int);
                lemma_sum_u64s_prefix_le(bs, i as int + 1);
            }
            total = total + self.validators[i].balance;
            i = i + 1;
        }
        proof {
            assert(bs.take(self.validators@.len() as int) =~= bs);
        }
        total
    }

    /// The sum of effective balances over active validators.
    pub fn get_total_active_balance(&self) -> (r: u64)
        requires
            total_active_balance(self.validators@) <= u64::MAX,
        ensures
            r == total_active_balance(self.validators@),
    {
        let ghost bs = active_balances_seq(self.validators@);
        let mut total: u64 = 0;
        let mut i: usize = 0;
        while i < self.validators.len()
            invariant
                i <= self.validators@.len(),
                bs == active_balances_seq(self.validators@),
                total == sum_u64s(bs.take(i as int)),
                sum_u64s(bs) <= u64::MAX,
            decreases self.validators@.len() - i,
        {
            proof {
                lemma_sum_u64s_take_step(bs, i as int);
                lemma_sum_u64s_prefix_le(bs, i as int + 1);
            }
            let term = if self.validators[i].is_active {
                self.validators[i].effective_balance
            } else {
                0
            };
            total = total + term;
            i = i + 1;
        }
        proof {
            assert(bs.take(self.validators@.len() as int) =~= bs);
        }
        total
    }

    /// The sum of effective balances over eligible validators.
    pub fn get_matching_balance(&self) -> (r: u64)
        requires
            total_matching_balance(self.validators@) <= u64::MAX,
        ensures
            r == total_matching_balance(self.validators@),
    {
        let ghost bs = matching_balances_seq(self.validators@);
        let mut total: u64 = 0;
        let mut i: usize = 0;
        while i < self.validators.len()
            invariant
                i <= self.validators@.len(),
                bs == matching_balances_seq(self.validators@),
                total == sum_u64s(bs.take(i as int)),
                sum_u64s(bs) <= u64::MAX,
            decreases self.validators@.len() - i,
        {
            proof {
                lemma_sum_u64s_take_step(bs, i as int);
                lemma_sum_u64s_prefix_le(bs, i as int + 1);
            }
            let term = if self.validators[i].is_active && !self.validators[i].is_slashed {
                self.validators[i].effective_balance
            } else {
                0
            };
            total = total + term;
            i = i + 1;
        }
        proof {
            assert(bs.take(self.validators@.len() as int) =~= bs);
        }
        total
    }

    /// How many validators are active.
    pub fn get_total_active_validators(&self) -> (r: u64)
        ensures
            r == count_active(self.validators@),
    {
        let ghost fs = active_flags_seq(self.validators@);
        let mut total: u64 = 0;
        let mut i: usize = 0;
        while i < self.validators.len()
            invariant
                i <= self.validators@.len(),
                fs == active_flags_seq(self.validators@),
                total == sum_u64s(fs.take(i as int)),
                total <= i,
            decreases self.validators@.len() - i,
        {
            proof {
                lemma_sum_u64s_take_step(fs, i as int);
            }
            let term: u64 = if self.validators[i].is_active {
                1
            } else {
                0
            };
            total = total + term;
            i = i + 1;
        }
        proof {
            assert(fs.take(self.validators@.len() as int) =~= fs);
        }
        total
    }

    /// How many validators are eligible: active and not slashed.
    pub fn get_total_eligible_validators(&self) -> (r: u64)
        ensures
            r == count_eligible(self.validators@),
    {
        let ghost fs = eligible_flags_seq(self.validators@);
        let mut total: u64 = 0;
        let mut i: usize = 0;
        while i < self.validators.len()
            invariant
                i <= self.validators@.len(),
                fs == eligible_flags_seq(self.validators@),
                total == sum_u64s(fs.take(i as int)),
                total <= i,
            decreases self.validators@.len() - i,
        {
            proof {
                lemma_sum_u64s_take_step(fs, i as int);
            }
            let term: u64 = if self.validators[i].is_active && !self.validators[i].is_slashed {
                1
            } else {
                0
            };
            total = total + term;
            i = i + 1;
        }
        proof {
            assert(fs.take(self.validators@.len() as int) =~= fs);
        }
        total
    }

    /// The largest balance in the set, zero when the set is empty.
    pub fn get_max_balance(&self) -> (r: u64)
        ensures
            r == max_balance_of(self.validators@),
    {
        let mut best: u64 = 0;
        let mut i: usize = 0;
        while i < self.validators.len()
            invariant
                i <= self.validators@.len(),
                best == max_balance_of(self.validators@.take(i as int)),
            decreases self.validators@.len() - i,
        {
            proof {
                assert(self.validators@.take(i as int + 1).drop_last() =~= self.validators@.take(
                    i as int,
                ));
            }
            if self.validators[i].balance > best {
                best = self.validators[i].balance;
            }
            i = i + 1;
        }
        proof {
            assert(self.validators@.take(self.validators@.len() as int) =~= self.validators@);
        }
        best
    }

    /// The smallest balance in the set, `u64::MAX` when the set is empty.
    pub fn get_min_balance(&self) -> (r: u64)
        ensures
            r == min_balance_of(self.validators@),
    {
        let mut best: u64 = u64::MAX;
        let mut i: usize = 0;
        while i < self.validators.len()
            invariant
                i <= self.validators@.len(),
                best == min_balance_of(self.validators@.take(i as int)),
            decreases self.validators@.len() - i,
        {
            proof {
                assert(self.validators@.take(i as int + 1).drop_last() =~= self.validators@.take(
                    i as int,
                ));
            }
            if self.validators[i].balance < best {
                best = self.validators[i].balance;
            }
            i = i + 1;
        }
        proof {
            assert(self.validators@.take(self.validators@.len() as int) =~= self.validators@);
        }
        best
    }

    /// Whether the three balance totals all fit in a `u64`, checked before an
    /// epoch's totals are taken; a set that does not fit aborts the run
    /// rather than wrap.
    pub fn totals_fit(&self) -> (b: bool)
        ensures
            b == (total_staked_balance(self.validators@) <= u64::MAX && total_active_balance(
                self.validators@,
            ) <= u64::MAX && total_matching_balance(self.validators@) <= u64::MAX),
    {
        let ghost staked = balances_seq(self.validators@);
        let ghost active = active_balances_seq(self.validators@);
        let ghost matching = matching_balances_seq(self.validators@);
        let mut staked_total: u64 = 0;
        let mut active_total: u64 = 0;
        let mut matching_total: u64 = 0;
        let mut i: usize = 0;
        while i < self.validators.len()
            invariant
                i <= self.validators@.len(),
                staked == balances_seq(self.validators@),
                active == active_balances_seq(self.validators@),
                matching == matching_balances_seq(self.validators@),
                staked_total == sum_u64s(staked.take(i as int)),
                active_total == sum_u64s(active.take(i as int)),
                matching_total == sum_u64s(matching.take(i as int)),
            decreases self.validators@.len() - i,
        {
            proof {
                lemma_sum_u64s_take_step(staked, i as int);
                lemma_sum_u64s_prefix_le(staked, i as int + 1);
                lemma_sum_u64s_take_step(active, i as int);
                lemma_sum_u64s_prefix_le(active, i as int + 1);
                lemma_sum_u64s_take_step(matching, i as int);
                lemma_sum_u64s_prefix_le(matching, i as int + 1);
            }
            let v = self.validators[i];
            if v.balance > u64::MAX - staked_total {
                return false;
            }
            staked_total = staked_total + v.balance;
            let active_term = if v.is_active {
                v.effective_balance
            } else {
                0
            };
            if active_term > u64::MAX - active_total {
                return false;
            }
            active_total = active_total + active_term;
            let matching_term = if v.is_active && !v.is_slashed {
                v.effective_balance
            } else {
                0
            };
            if matching_term > u64::MAX - matching_total {
                return false;
            }
            matching_total = matching_total + matching_term;
            i = i + 1;
        }
        proof {
            assert(staked.take(self.validators@.len() as int) =~= staked);
            assert(active.take(self.validators@.len() as int) =~= active);
            assert(matching.take(self.validators@.len() as int) =~= matching);
        }
        true
    }
}

/// The totals of a validator set, as one mathematical value; what
/// `StateTotals::new` returns when the three sums fit in 64 bits.
pub open spec fn spec_state_totals(s: Seq<Validator>) -> StateTotals {
    StateTotals {
        staked_balance: total_staked_balance(s) as u64,
        active_balance: total_active_balance(s) as u64,
        sqrt_active_balance: isqrt_spec(total_active_balance(s)) as u64,
        matching_balance: total_matching_balance(s) as u64,
        max_balance: max_balance_of(s) as u64,
        min_balance: min_balance_of(s) as u64,
        active_validators: count_active(s) as u64,
    }
}

/// Aggregate statistics over the validator set, taken before an epoch's
/// transition and shared read-only by every per-validator computation in
/// that epoch.
#[derive(Clone, Copy, PartialEq, Eq, Structural, Debug)]
pub struct StateTotals {
    pub staked_balance: u64,
    pub active_balance: u64,
    pub sqrt_active_balance: u64,
    pub matching_balance: u64,
    pub max_balance: u64,
    pub min_balance: u64,
    pub active_validators: u64,
}

impl StateTotals {
    /// Takes the totals of the set as it stands, before any of this epoch's
    /// deltas are applied.
    pub fn new(state: &State) -> (t: StateTotals)
        requires
            total_staked_balance(state.validators@) <= u64::MAX,
            total_active_balance(state.validators@) <= u64::MAX,
            total_matching_balance(state.validators@) <= u64::MAX,
        ensures
            t.staked_balance == total_staked_balance(state.validators@),
            t.active_balance == total_active_balance(state.validators@),
            t.matching_balance == total_matching_balance(state.validators@),
            t.active_validators == count_active(state.validators@),
            t.max_balance == max_balance_of(state.validators@),
            t.min_balance == min_balance_of(state.validators@),
            t.sqrt_active_balance * t.sqrt_active_balance <= t.active_balance,
            t.active_balance < (t.sqrt_active_balance + 1) * (t.sqrt_active_balance + 1),
            t == spec_state_totals(state.validators@),
    {
        let total_active_balance = state.get_total_active_balance();
        let sqrt_active_balance = isqrt_u64(total_active_balance);
        proof {
            lemma_isqrt_unique(total_active_balance as int, sqrt_active_balance as int);
        }
        StateTotals {
            staked_balance: state.get_total_staked_balance(),
            active_balance: total_active_balance,
            sqrt_active_balance,
            active_validators: state.get_total_active_validators(),
            matching_balance: state.get_matching_balance(),
            max_balance: state.get_max_balance(),
            min_balance: state.get_min_balance(),
        }
    }
}

} // verus!
