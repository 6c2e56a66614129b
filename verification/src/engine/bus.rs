//! Messages that travel on the engine's internal bus.
use crate::sensors::I2cSensor;
use vstd::prelude::*;

verus! {

/// Errors raised by the engine's tasks.
#[derive(Clone, Copy, Debug, PartialEq, Eq, Structural)]
pub enum SystemError {
    /// I2C bus error, or sensor not responding.
    SensorError(I2cSensor),
}

} // verus!
