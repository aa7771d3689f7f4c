//! The error type of the driver.

use vstd::prelude::*;
use vstd::std_specs::convert::FromSpecImpl;

verus! {

/// What can go wrong in a driver operation. `E` is the error type of the
/// bus.
#[derive(Debug, PartialEq, Eq)]
pub enum Error<E> {
    /// The bus reported an error; it is passed on unchanged.
    I2c(E),
    /// A configuration value was rejected. No operation of the driver
    /// rejects one: counts and thresholds that are out of range are clamped
    /// or masked instead.
    InvalidConfig,
    /// The part ID register did not hold the identity of the expected
    /// device.
    DeviceNotFound,
    /// An operation timed out. No operation of the driver waits, so none
    /// raises this itself.
    Timeout,
}

impl<E> From<E> for Error<E> {
    fn from(error: E) -> (r: Error<E>)
        ensures
            r == Error::I2c(error),
    {
        Error::I2c(error)
    }
}

impl<E> FromSpecImpl<E> for Error<E> {
    open spec fn obeys_from_spec() -> bool {
        true
    }

    open spec fn from_spec(error: E) -> Error<E> {
        Error::I2c(error)
    }
}

} // verus!
