//! The errors that an operation on the switch can end in.

use vstd::prelude::*;

verus! {

/// All possible errors in this crate
#[derive(Debug)]
pub enum Error<E> {
    /// I²C bus error
    I2C(E),
    /// Could not acquire device. Maybe it is already acquired.
    CouldNotAcquireDevice,
}

/// What the caller is told of a bus transaction that ended in `outcome`:
/// success as it is, failure as [`Error::I2C`] around the transport's own
/// error.
pub open spec fn forwarded<R, E>(outcome: Result<R, E>) -> Result<R, Error<E>> {
    match outcome {
        Ok(value) => Ok(value),
        Err(e) => Err(Error::I2C(e)),
    }
}

/// Forwarding loses nothing: the transport's error can be read back out of
/// what the caller is told, a success stays the success it was, and two
/// outcomes that are told alike were alike. No outcome of the bus is told
/// as [`Error::CouldNotAcquireDevice`].
pub proof fn lemma_forwarded_keeps_outcome<R, E>(outcome: Result<R, E>, other: Result<R, E>)
    ensures
        outcome matches Err(e) ==> (forwarded(outcome) matches Err(Error::I2C(inner)) && inner == e),
        outcome matches Ok(value) ==> forwarded(outcome) == Ok::<R, Error<E>>(value),
        !(forwarded(outcome) matches Err(Error::CouldNotAcquireDevice)),
        forwarded(outcome) == forwarded(other) ==> outcome == other,
{
}

} // verus!
