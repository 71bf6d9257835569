//! Decision logic of the gradient-descent training loop.
//!
//! Fitting runs for a bounded number of iterations and stops early once the
//! loss gradient has become negligible. The arithmetic of an iteration is
//! floating point and stays outside the verified code; the caller reduces
//! each gradient component to the one fact the policy needs — whether its
//! magnitude is below the tolerance — and asks this module for the decision.

use vstd::prelude::*;

verus! {

/// Convergence policy of the training loop: training stops as soon as every
/// component of the loss gradient is below the tolerance in magnitude.
///
/// `below_tolerance` holds that comparison for each gradient component; the
/// result is true exactly when all components passed it.
pub fn converged(below_tolerance: &Vec<bool>) -> (r: bool)
    ensures
        r <==> (forall|i: int| 0 <= i < below_tolerance@.len() ==> below_tolerance@[i]),
{
    let mut i: usize = 0;
    while i < below_tolerance.len()
        invariant
            0 <= i <= below_tolerance@.len(),
            forall|k: int| 0 <= k < i ==> below_tolerance@[k],
        decreases below_tolerance@.len() - i,
    {
        if !below_tolerance[i] {
            return false;
        }
        i += 1;
    }
    true
}

} // verus!
