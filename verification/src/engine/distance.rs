//! Distance sensor (VL53L0X) readings: what a range measurement means.
use crate::sensors::Distance;
use vstd::prelude::*;

verus! {

/// Reliable range limit of the sensor, in mm.
pub const MAX_RANGE_MM: u16 = 1200;

/// A sensor failure, with a short description.
#[derive(Clone, Copy, Debug)]
pub struct SensorError(pub &'static str);

/// The failures a range measurement can report.
#[derive(Clone, Copy, Debug, PartialEq, Eq, Structural)]
pub enum RangeError {
    /// The device did not identify as the expected sensor.
    InvalidDevice,
    /// The device did not accept its address.
    InvalidAddress,
    /// The I2C bus failed.
    BusError,
    /// The measurement did not complete in time.
    Timeout,
}

/// The distance a range of `mm` millimeters stands for: beyond the reliable
/// range it means that no obstacle was detected.
pub open spec fn spec_distance(mm: u16) -> Distance {
    if mm > MAX_RANGE_MM {
        Distance::Far
    } else {
        Distance::Mm(mm)
    }
}

/// The description of a sensor that is not connected.
pub open spec fn spec_not_connected() -> Seq<char> {
    "sensor not connected"@
}

/// The description of each measurement failure.
pub open spec fn spec_failure(err: RangeError) -> Seq<char> {
    match err {
        RangeError::InvalidDevice | RangeError::InvalidAddress => "invalid device or address"@,
        RangeError::BusError | RangeError::Timeout => "sensor is unavailable"@,
    }
}

/// Describes a measurement failure.
pub fn map_err(err: RangeError) -> (e: SensorError)
    ensures
        e.0@ == spec_failure(err),
{
    match err {
        RangeError::InvalidDevice | RangeError::InvalidAddress => {
            SensorError("invalid device or address")
        },
        RangeError::BusError | RangeError::Timeout => SensorError("sensor is unavailable"),
    }
}

/// Interprets a range measurement: `None` when the sensor is not
/// connected, else what the sensor answered (in mm, or a failure).
pub fn read_distance(measurement: Option<Result<u16, RangeError>>) -> (res: Result<
    Distance,
    SensorError,
>)
    ensures
        match measurement {
            None => res matches Err(e) && e.0@ == spec_not_connected(),
            Some(Ok(mm)) => res == Ok::<Distance, SensorError>(spec_distance(mm)),
            Some(Err(err)) => res matches Err(e) && e.0@ == spec_failure(err),
        },
{
    match measurement {
        Some(Ok(mm)) => {
            if mm > MAX_RANGE_MM {
                Ok(Distance::Far)
            } else {
                Ok(Distance::Mm(mm))
            }
        },
        Some(Err(err)) => Err(map_err(err)),
        None => Err(SensorError("sensor not connected")),
    }
}

/// What a range means, for every range: a range of at most 1200 mm is that
/// exact distance in mm, and the reading means "nothing in range" exactly
/// when the range is beyond 1200 mm.
pub proof fn law_distance(mm: u16)
    ensures
        MAX_RANGE_MM == 1200,
        (spec_distance(mm) == Distance::Far) <==> mm > 1200,
        mm <= 1200 ==> spec_distance(mm) == Distance::Mm(mm),
        spec_distance(mm) matches Distance::Mm(x) ==> x == mm,
{
}

/// How each measurement failure is described: a device that does not
/// identify or accept its address is "invalid device or address"; a bus
/// failure or a timeout means the sensor is unavailable.
pub proof fn law_failure_messages()
    ensures
        spec_failure(RangeError::InvalidDevice) == "invalid device or address"@,
        spec_failure(RangeError::InvalidAddress) == "invalid device or address"@,
        spec_failure(RangeError::BusError) == "sensor is unavailable"@,
        spec_failure(RangeError::Timeout) == "sensor is unavailable"@,
        spec_not_connected() == "sensor not connected"@,
{
}

} // verus!
