//! The outcome of a failed driver operation.
use vstd::prelude::*;

verus! {

/// Why a driver operation failed.
///
/// `I2c` carries the bus's own error; `InvalidData` means the transfer
/// succeeded but the sensor returned its "no valid measurement" value.
#[derive(Debug)]
pub enum SensorError<E> {
    I2c(E),
    InvalidData,
}

impl<E> SensorError<E> {
    /// A short human-readable description of the kind of failure.
    pub fn message(&self) -> (r: &'static str)
        ensures
            r@.len() > 0,
            self is I2c ==> r@ == "I2C bus error"@,
            self is InvalidData ==> r@ == "invalid data received from the sensor"@,
    {
        proof {
            reveal_strlit("I2C bus error");
            reveal_strlit("invalid data received from the sensor");
        }
        match self {
            SensorError::I2c(_) => "I2C bus error",
            SensorError::InvalidData => "invalid data received from the sensor",
        }
    }
}

/// Any bus error converts into the bus-failure variant.
impl<E> From<E> for SensorError<E> {
    fn from(e: E) -> (r: Self)
        ensures
            r == SensorError::<E>::I2c(e),
    {
        SensorError::I2c(e)
    }
}

impl<E> vstd::std_specs::convert::FromSpecImpl<E> for SensorError<E> {
    open spec fn obeys_from_spec() -> bool {
        true
    }

    open spec fn from_spec(v: E) -> Self {
        SensorError::I2c(v)
    }
}

} // verus!
