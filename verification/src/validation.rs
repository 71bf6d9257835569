//! The validation boundary of the toolkit.
//!
//! Every public numeric entry point (loss, gradient, fitting, prediction,
//! scaling) first checks its inputs here, in the same order as the checks of
//! the routine it guards, and only then computes. The contracts pin down
//! exactly which inputs pass and which error each rejected input produces.

use vstd::prelude::*;

use crate::Error;
use crate::util::validate_not_empty;
use crate::util::validate_same_length;

verus! {

/// Every row of `x` has length `width`.
pub open spec fn rows_have_width<T>(x: Seq<Vec<T>>, width: nat) -> bool {
    forall|i: int| 0 <= i < x.len() ==> (#[trigger] x[i])@.len() == width
}

/// Validates the inputs of the mean-squared-error loss and of its gradient:
/// `y_hat` (predicted values) and `y` (actual values) must both be non-empty
/// and of equal length.
pub fn validate_loss_inputs<T1, T2>(y_hat: &Vec<T1>, y: &Vec<T2>) -> (r: Result<(), Error>)
    ensures
        y_hat@.len() == 0 ==> r == Err::<(), Error>(Error::EmptyVector),
        y_hat@.len() > 0 && y@.len() == 0 ==> r == Err::<(), Error>(Error::EmptyVector),
        y_hat@.len() > 0 && y@.len() > 0 && y_hat@.len() != y@.len() ==> r == Err::<(), Error>(
            Error::DimensionMismatch,
        ),
        y_hat@.len() > 0 && y_hat@.len() == y@.len() ==> r == Ok::<(), Error>(()),
{
    match validate_not_empty(y_hat) {
        Err(e) => Err(e),
        Ok(()) => match validate_not_empty(y) {
            Err(e) => Err(e),
            Ok(()) => validate_same_length(y_hat.as_slice(), y.as_slice()),
        },
    }
}

/// Validates the inputs of model fitting: the feature matrix `x` and the
/// target vector `y` must be non-empty, with one target per row, and every
/// row of `x` must have the same length as the first row.
pub fn validate_fit_inputs<T1, T2>(x: &Vec<Vec<T1>>, y: &Vec<T2>) -> (r: Result<(), Error>)
    ensures
        x@.len() == 0 ==> r == Err::<(), Error>(Error::EmptyVector),
        x@.len() > 0 && y@.len() == 0 ==> r == Err::<(), Error>(Error::EmptyVector),
        x@.len() > 0 && y@.len() > 0 && x@.len() != y@.len() ==> r == Err::<(), Error>(
            Error::DimensionMismatch,
        ),
        x@.len() > 0 && x@.len() == y@.len() && !rows_have_width(x@, x@[0]@.len()) ==> r
            == Err::<(), Error>(Error::DimensionMismatch),
        x@.len() > 0 && x@.len() == y@.len() && rows_have_width(x@, x@[0]@.len()) ==> r
            == Ok::<(), Error>(()),
{
    match validate_not_empty(x) {
        Err(e) => Err(e),
        Ok(()) => match validate_not_empty(y) {
            Err(e) => Err(e),
            Ok(()) => match validate_same_length(x.as_slice(), y.as_slice()) {
                Err(e) => Err(e),
                Ok(()) => validate_uniform_rows(x),
            },
        },
    }
}

/// Validates the input of min-max scaling: the feature matrix `x` must be
/// non-empty and every row must have the same length as the first row.
pub fn validate_scale_inputs<T>(x: &Vec<Vec<T>>) -> (r: Result<(), Error>)
    ensures
        x@.len() == 0 ==> r == Err::<(), Error>(Error::EmptyVector),
        x@.len() > 0 && !rows_have_width(x@, x@[0]@.len()) ==> r == Err::<(), Error>(
            Error::DimensionMismatch,
        ),
        x@.len() > 0 && rows_have_width(x@, x@[0]@.len()) ==> r == Ok::<(), Error>(()),
{
    match validate_not_empty(x) {
        Err(e) => Err(e),
        Ok(()) => validate_uniform_rows(x),
    }
}

/// Validates the input of prediction: the feature matrix `x` must be
/// non-empty and every row must have one value per model coefficient.
pub fn validate_predict_inputs<T>(x: &Vec<Vec<T>>, n_coefficients: usize) -> (r: Result<
    (),
    Error,
>)
    ensures
        x@.len() == 0 ==> r == Err::<(), Error>(Error::EmptyVector),
        x@.len() > 0 && !rows_have_width(x@, n_coefficients as nat) ==> r == Err::<(), Error>(
            Error::DimensionMismatch,
        ),
        x@.len() > 0 && rows_have_width(x@, n_coefficients as nat) ==> r == Ok::<(), Error>(()),
{
    match validate_not_empty(x) {
        Err(e) => Err(e),
        Ok(()) => {
            let mut i: usize = 0;
            while i < x.len()
                invariant
                    0 <= i <= x@.len(),
                    forall|k: int| 0 <= k < i ==> (#[trigger] x@[k])@.len() == n_coefficients,
                decreases x@.len() - i,
            {
                if x[i].len() != n_coefficients {
                    return Err(Error::DimensionMismatch);
                }
                i += 1;
            }
            Ok(())
        },
    }
}

/// Checks that every row of the non-empty matrix `x` has the same length as
/// its first row, as the fitting and scaling boundaries require.
fn validate_uniform_rows<T>(x: &Vec<Vec<T>>) -> (r: Result<(), Error>)
    requires
        x@.len() > 0,
    ensures
        rows_have_width(x@, x@[0]@.len()) ==> r == Ok::<(), Error>(()),
        !rows_have_width(x@, x@[0]@.len()) ==> r == Err::<(), Error>(Error::DimensionMismatch),
{
    let first_len = x[0].len();
    let mut i: usize = 1;
    while i < x.len()
        invariant
            1 <= i <= x@.len(),
            first_len == x@[0]@.len(),
            forall|k: int| 0 <= k < i ==> (#[trigger] x@[k])@.len() == first_len,
        decreases x@.len() - i,
    {
        if x[i].len() != first_len {
            return Err(Error::DimensionMismatch);
        }
        i += 1;
    }
    Ok(())
}

} // verus!
