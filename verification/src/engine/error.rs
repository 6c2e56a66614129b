//! Handling of the engine's internal errors.
use crate::engine::bus::SystemError;
use crate::sensors::I2cSensor;
use vstd::prelude::*;

verus! {

/// What the error task does with an error.
#[derive(Clone, Copy, Debug, PartialEq, Eq, Structural)]
pub enum ErrorAction {
    /// Trigger an emergency stop.
    EmergencyStop,
    /// Log the error; the system keeps running.
    Log,
}

/// How each internal error is handled.
pub open spec fn spec_error_action(err: SystemError) -> ErrorAction {
    match err {
        SystemError::SensorError(I2cSensor::Cliff) => ErrorAction::EmergencyStop,
        SystemError::SensorError(_) => ErrorAction::Log,
    }
}

/// Decides how an internal error is handled: a failing cliff sensor stops
/// the robot; distance and IMU errors are only logged.
pub fn error_action(err: SystemError) -> (action: ErrorAction)
    ensures
        action == spec_error_action(err),
{
    match err {
        SystemError::SensorError(I2cSensor::Cliff) => ErrorAction::EmergencyStop,
        SystemError::SensorError(I2cSensor::Distance) => ErrorAction::Log,
        SystemError::SensorError(I2cSensor::Imu) => ErrorAction::Log,
    }
}

/// An error stops the robot exactly when it comes from the cliff sensor:
/// distance and IMU errors never stop it.
pub proof fn law_stop_only_on_cliff(sensor: I2cSensor)
    ensures
        (spec_error_action(SystemError::SensorError(sensor)) == ErrorAction::EmergencyStop)
            <==> sensor == I2cSensor::Cliff,
        sensor != I2cSensor::Cliff ==> spec_error_action(SystemError::SensorError(sensor))
            == ErrorAction::Log,
{
}

} // verus!
