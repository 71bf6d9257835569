//! Verified core of a small supervised-learning toolkit: a linear regression
//! model trained by batch gradient descent, a mean-squared-error loss, and a
//! min-max feature scaler.
//!
//! The toolkit's numeric routines run on floating-point data, which the
//! verifier does not accept, so what is verified here is everything the
//! toolkit decides exactly, without floating-point arithmetic: the validation
//! boundary that guards every entry point (non-emptiness, matching lengths,
//! uniform matrix rows) and the convergence policy of the training loop.

use vstd::prelude::*;

pub mod training;
pub mod util;
pub mod validation;

verus! {

/// Failure of a boundary validation check.
#[derive(Clone, Copy, Debug, PartialEq, Eq, Structural)]
pub enum Error {
    /// Two sequences that were required to have equal length did not,
    /// or the rows of a matrix were ragged.
    DimensionMismatch,
    /// An input sequence that was required to be non-empty was empty.
    EmptyVector,
}

} // verus!
