//! The one failure a session reports: a fault of the transport beneath it.
use vstd::prelude::*;

verus! {

/// A failed bus transaction, carrying the transport's own error unchanged.
#[derive(Debug)]
pub enum MPU6050Error<E> {
    I2CError(E),
}

impl<E> From<E> for MPU6050Error<E> {
    fn from(e: E) -> (r: Self)
        ensures
            r == MPU6050Error::I2CError(e),
    {
        MPU6050Error::I2CError(e)
    }
}

impl<E> vstd::std_specs::convert::FromSpecImpl<E> for MPU6050Error<E> {
    open spec fn obeys_from_spec() -> bool {
        true
    }

    open spec fn from_spec(e: E) -> Self {
        MPU6050Error::I2CError(e)
    }
}

} // verus!
