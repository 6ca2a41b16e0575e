//! Fatal conditions that abort an epoch transition.

use vstd::prelude::*;

verus! {

/// A condition under which the simulation cannot continue.  None of these is
/// recovered from: the caller aborts the run.
#[derive(Clone, Copy, PartialEq, Eq, Structural, Debug)]
pub enum SimError {
    /// Fewer than `PROPOSERS_PER_EPOCH` validators are active and not
    /// slashed, so no proposer set can be drawn.
    NotEnoughEligible,
    /// A reward computation or a balance total would exceed `u64::MAX`, or a
    /// reward formula has no defined value (an active balance too small to
    /// scale, or an empty active set).  The configured stake is outside what
    /// the fixed scale-down factor covers.
    ArithmeticOverflow,
    /// A penalty exceeds the balance it is charged against.
    BalanceUnderflow,
}

} // verus!
