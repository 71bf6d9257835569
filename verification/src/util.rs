//! Elementary validation checks shared by every entry point of the toolkit.

use vstd::prelude::*;

use crate::Error;

verus! {

/// Checks that a vector is not empty.
///
/// Returns `Ok(())` if the vector holds at least one element and
/// `Err(Error::EmptyVector)` otherwise.
pub fn validate_not_empty<T>(x: &Vec<T>) -> (r: Result<(), Error>)
    ensures
        x@.len() == 0 ==> r == Err::<(), Error>(Error::EmptyVector),
        x@.len() > 0 ==> r == Ok::<(), Error>(()),
{
    if x.len() == 0 {
        Err(Error::EmptyVector)
    } else {
        Ok(())
    }
}

/// Checks that two slices have the same length.
///
/// Returns `Ok(())` if the lengths agree and
/// `Err(Error::DimensionMismatch)` otherwise.
pub fn validate_same_length<T1, T2>(x: &[T1], y: &[T2]) -> (r: Result<(), Error>)
    ensures
        x@.len() == y@.len() ==> r == Ok::<(), Error>(()),
        x@.len() != y@.len() ==> r == Err::<(), Error>(Error::DimensionMismatch),
{
    if x.len() != y.len() {
        Err(Error::DimensionMismatch)
    } else {
        Ok(())
    }
}

} // verus!
