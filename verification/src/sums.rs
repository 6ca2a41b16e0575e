//! Sums of `u64` sequences, and the small facts the aggregate loops need.

use vstd::prelude::*;

verus! {

/// The mathematical sum of a sequence of balances or counters.
pub open spec fn sum_u64s(s: Seq<u64>) -> int
    decreases s.len(),
{
    if s.len() == 0 {
        0
    } else {
        sum_u64s(s.drop_last()) + s.last()
    }
}

/// A sum of unsigned values is never negative.
pub proof fn lemma_sum_u64s_nonneg(s: Seq<u64>)
    ensures
        sum_u64s(s) >= 0,
    decreases s.len(),
{
    if s.len() > 0 {
        lemma_sum_u64s_nonneg(s.drop_last());
    }
}

/// A sum of values that are each at most `b` is at most `b` per element.
pub proof fn lemma_sum_u64s_upper(s: Seq<u64>, b: u64)
    requires
        forall|j: int| 0 <= j < s.len() ==> s[j] <= b,
    ensures
        sum_u64s(s) <= s.len() * b,
    decreases s.len(),
{
    if s.len() > 0 {
        lemma_sum_u64s_upper(s.drop_last(), b);
        assert(s.last() <= b);
        assert((s.len() - 1) * b + b == s.len() * b) by (nonlinear_arith);
    }
}

/// If every element of one sequence is bounded by the matching element of
/// another, the sums are ordered the same way.
pub proof fn lemma_sum_u64s_pointwise_le(a: Seq<u64>, b: Seq<u64>)
    requires
        a.len() == b.len(),
        forall|j: int| 0 <= j < a.len() ==> a[j] <= b[j],
    ensures
        sum_u64s(a) <= sum_u64s(b),
    decreases a.len(),
{
    if a.len() > 0 {
        lemma_sum_u64s_pointwise_le(a.drop_last(), b.drop_last());
    }
}

/// No element exceeds the sum of the whole sequence.
pub proof fn lemma_sum_u64s_element_le(s: Seq<u64>, j: int)
    requires
        0 <= j < s.len(),
    ensures
        s[j] <= sum_u64s(s),
{
    lemma_sum_u64s_nonneg(s.take(j));
    lemma_sum_u64s_take_step(s, j);
    lemma_sum_u64s_prefix_le(s, j + 1);
}

/// Extending a prefix by one element adds exactly that element to its sum.
pub proof fn lemma_sum_u64s_take_step(s: Seq<u64>, i: int)
    requires
        0 <= i < s.len(),
    ensures
        sum_u64s(s.take(i + 1)) == sum_u64s(s.take(i)) + s[i],
{
    assert(s.take(i + 1).drop_last() =~= s.take(i));
    assert(s.take(i + 1).last() == s[i]);
}

/// A prefix never sums to more than the whole sequence.
pub proof fn lemma_sum_u64s_prefix_le(s: Seq<u64>, i: int)
    requires
        0 <= i <= s.len(),
    ensures
        sum_u64s(s.take(i)) <= sum_u64s(s),
    decreases s.len() - i,
{
    if i == s.len() {
        assert(s.take(i) =~= s);
    } else {
        lemma_sum_u64s_take_step(s, i);
        lemma_sum_u64s_prefix_le(s, i + 1);
    }
}

} // verus!
