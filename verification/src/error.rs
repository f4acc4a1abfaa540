//! What can go wrong: the bus reports a failure, or an argument is out of
//! range.

use vstd::prelude::*;

verus! {

/// The error of a driver operation.
#[derive(Clone, Copy, Debug)]
pub enum Error<I2cError> {
    /// The bus reported a failure; the value is the bus's own.
    I2cError(I2cError),
    /// A coordinate, LED index or frame number outside its range; the value
    /// is the offending one.
    InvalidLocation(u8),
    /// Kept for frame-specific violations; no operation of this crate returns it.
    InvalidFrame(u8),
}

/// What the bus answered, behind the result of an operation that got as far
/// as the bus.
pub open spec fn bus_result<E>(r: Result<(), Error<E>>) -> Result<(), E> {
    match r {
        Err(Error::I2cError(e)) => Err(e),
        _ => Ok(()),
    }
}

/// True when `r` is a result that the bus decided: success, or the failure
/// that the bus reported.
pub open spec fn from_bus<E>(r: Result<(), Error<E>>) -> bool {
    r is Err ==> r->Err_0 is I2cError
}

/// There is one success.
pub proof fn lemma_one_success<E>(outcome: Result<(), E>)
    requires
        outcome is Ok,
    ensures
        outcome == Ok::<(), E>(()),
{
    assert(outcome->Ok_0 == ());
}

/// The result of an operation whose work on the bus ended with `outcome`.
pub fn lift<E>(outcome: Result<(), E>) -> (r: Result<(), Error<E>>)
    ensures
        from_bus(r),
        bus_result(r) == outcome,
{
    match outcome {
        Ok(_) => {
            proof {
                lemma_one_success(outcome);
            }
            Ok(())
        },
        Err(e) => Err(Error::I2cError(e)),
    }
}

impl<E> From<E> for Error<E> {
    fn from(error: E) -> (out: Self) {
        Error::I2cError(error)
    }
}

impl<E> vstd::std_specs::convert::FromSpecImpl<E> for Error<E> {
    open spec fn obeys_from_spec() -> bool {
        true
    }

    open spec fn from_spec(error: E) -> Self {
        Error::I2cError(error)
    }
}

} // verus!
