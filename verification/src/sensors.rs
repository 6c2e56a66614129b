use vstd::prelude::*;

verus! {

/// Subscription commands for the I2C sensors.
/// After subscription, a sensor starts sending [`Data`] at the given interval.
#[derive(Clone, Copy, Debug, PartialEq, Eq, Structural)]
pub enum I2cSensorCmd {
    SubscribeTo { sensor: I2cSensor, poll_interval_ms: u32 },
}

/// Distance measurement result.
#[derive(Clone, Copy, Debug, PartialEq, Eq, Structural)]
pub enum Distance {
    /// Exact distance in millimeters (reliable range).
    Mm(u16),
    /// Beyond the sensor's reliable range, no obstacle detected.
    Far,
}

/// Telemetry data from the sensors.
///
/// The wheel odometry values are IEEE-754 single precision numbers; they are
/// carried here by their bit patterns, exactly as they travel on the wire.
#[derive(Clone, Copy, Debug, PartialEq, Eq, Structural)]
pub enum Data {
    DistanceFront(Distance),
    DistanceBack(Distance),
    /// Wheel encoder odometry, sent continuously without subscription.
    Encoder {
        /// Distance traveled by the left wheels, mm (bits of an `f32`).
        left_mm_bits: u32,
        /// Distance traveled by the right wheels, mm (bits of an `f32`).
        right_mm_bits: u32,
        /// Left wheels speed, mm/s (bits of an `f32`).
        left_speed_bits: u32,
        /// Right wheels speed, mm/s (bits of an `f32`).
        right_speed_bits: u32,
    },
}

/// The sensors on the I2C bus.
#[derive(Clone, Copy, Debug, PartialEq, Eq, Structural)]
pub enum I2cSensor {
    /// Measures distance, detects obstacles.
    Distance,
    /// Detects missing ground under the robot (cliffs, stairs).
    Cliff,
    /// Inertial measurement unit, measures acceleration and rotation.
    Imu,
}

} // verus!
