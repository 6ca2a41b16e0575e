//! Weighted-random proposer selection: rejection sampling biased toward
//! higher effective balance.

use vstd::prelude::*;
use crate::config::MAX_EFFECTIVE_BALANCE;
use crate::config::PROPOSERS_PER_EPOCH;
use crate::error::SimError;
use crate::random::random_below;
use crate::state::contains_index;
use crate::state::count_eligible;
use crate::state::eligible_flags_seq;
use crate::state::State;
use crate::sums::lemma_sum_u64s_take_step;
use crate::validator::eligible;

verus! {

/// How many random draws the sampler makes before it falls back to a
/// deterministic completion.  With any healthy validator set the budget is
/// never exhausted; it exists so that selection provably terminates.
const PROPOSER_SAMPLING_ATTEMPTS: u64 = 1_048_576;

impl State {
    /// Draws `PROPOSERS_PER_EPOCH` distinct indices of eligible (active,
    /// non-slashed) validators, biased toward higher effective balance: a
    /// uniformly drawn candidate is kept only when its effective balance,
    /// against a uniform byte, clears `effective_balance * 255 >=
    /// random_byte * MAX_EFFECTIVE_BALANCE`.  Fails, and the simulation
    /// aborts, exactly when fewer than `PROPOSERS_PER_EPOCH` validators are
    /// eligible.  Which indices come back depends on the randomness; the
    /// contract promises membership, distinctness and the count, which is
    /// all that matters downstream.
    pub fn pick_epoch_proposers(&self) -> (r: Result<Vec<usize>, SimError>)
        requires
            forall|j: int|
                0 <= j < self.validators@.len() ==> self.validators@[j].effective_balance
                    <= MAX_EFFECTIVE_BALANCE,
        ensures
            r is Err <==> count_eligible(self.validators@) < PROPOSERS_PER_EPOCH as int,
            r is Err ==> r == Result::<Vec<usize>, SimError>::Err(SimError::NotEnoughEligible),
            r is Ok ==> r->Ok_0@.len() == PROPOSERS_PER_EPOCH,
            r is Ok ==> forall|a: int|
                0 <= a < r->Ok_0@.len() ==> r->Ok_0@[a] < self.validators@.len() && eligible(
                    self.validators@[r->Ok_0@[a] as int],
                ),
            r is Ok ==> forall|a: int, b: int|
                0 <= a < b < r->Ok_0@.len() ==> r->Ok_0@[a] != r->Ok_0@[b],
    {
        let n = self.validators.len();
        let ghost fs = eligible_flags_seq(self.validators@);

        // index every eligible validator, in ascending order
        let mut eligible_indices: Vec<usize> = Vec::new();
        let mut i: usize = 0;
        while i < n
            invariant
                i <= n,
                n == self.validators@.len(),
                fs == eligible_flags_seq(self.validators@),
                eligible_indices@.len() == crate::sums::sum_u64s(fs.take(i as int)),
                forall|a: int|
                    0 <= a < eligible_indices@.len() ==> eligible_indices@[a] < i && eligible(
                        self.validators@[eligible_indices@[a] as int],
                    ),
                forall|a: int, b: int|
                    0 <= a < b < eligible_indices@.len() ==> eligible_indices@[a]
                        < eligible_indices@[b],
            decreases n - i,
        {
            proof {
                lemma_sum_u64s_take_step(fs, i as int);
            }
            if self.validators[i].is_active && !self.validators[i].is_slashed {
                eligible_indices.push(i);
            }
            i = i + 1;
        }
        proof {
            assert(fs.take(self.validators@.len() as int) =~= fs);
        }

        if eligible_indices.len() < PROPOSERS_PER_EPOCH {
            return Err(SimError::NotEnoughEligible);
        }

        let mut proposer_indices: Vec<usize> = Vec::new();
        let mut attempts: u64 = PROPOSER_SAMPLING_ATTEMPTS;
        assert(eligible_indices@[0] < n);
        while proposer_indices.len() < PROPOSERS_PER_EPOCH && attempts > 0
            invariant
                n == self.validators@.len(),
                n >= 1,
                forall|j: int|
                    0 <= j < self.validators@.len() ==> self.validators@[j].effective_balance
                        <= MAX_EFFECTIVE_BALANCE,
                proposer_indices@.len() <= PROPOSERS_PER_EPOCH,
                forall|a: int|
                    0 <= a < proposer_indices@.len() ==> proposer_indices@[a] < n && eligible(
                        self.validators@[proposer_indices@[a] as int],
                    ),
                forall|a: int, b: int|
                    0 <= a < b < proposer_indices@.len() ==> proposer_indices@[a]
                        != proposer_indices@[b],
            decreases attempts,
        {
            attempts = attempts - 1;
            let candidate_index = random_below(n as u64) as usize;
            if self.validators[candidate_index].is_slashed
                || !self.validators[candidate_index].is_active
                || contains_index(&proposer_indices, candidate_index) {
                continue;
            }
            // effective balance bias on proposer election
            let random_byte = random_below(255);
            if self.validators[candidate_index].effective_balance * 255 >= random_byte
                * MAX_EFFECTIVE_BALANCE {
                proposer_indices.push(candidate_index);
            }
        }

        if proposer_indices.len() == PROPOSERS_PER_EPOCH {
            return Ok(proposer_indices);
        }

        // The randomness budget ran out, which a healthy set never reaches.
        // Complete deterministically with the lowest-indexed eligible
        // validators, so that selection terminates and still returns a full,
        // distinct, eligible set.
        let mut fallback: Vec<usize> = Vec::new();
        let mut k: usize = 0;
        while k < PROPOSERS_PER_EPOCH
            invariant
                k <= PROPOSERS_PER_EPOCH,
                PROPOSERS_PER_EPOCH <= eligible_indices@.len(),
                n == self.validators@.len(),
                fallback@.len() == k,
                forall|a: int| 0 <= a < k ==> fallback@[a] == eligible_indices@[a],
                forall|a: int|
                    0 <= a < eligible_indices@.len() ==> eligible_indices@[a] < n && eligible(
                        self.validators@[eligible_indices@[a] as int],
                    ),
                forall|a: int, b: int|
                    0 <= a < b < eligible_indices@.len() ==> eligible_indices@[a]
                        < eligible_indices@[b],
            decreases PROPOSERS_PER_EPOCH - k,
        {
            fallback.push(eligible_indices[k]);
            k = k + 1;
        }
        Ok(fallback)
    }
}

} // verus!
