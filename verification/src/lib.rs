//! Communication between the engine (STM32 MCU) and the main system (Jetson),
//! together with the decision logic of both sides.
//!
//! Messages are framed on the wire with COBS and a `0x00` sentinel. The
//! library frames and validates bytes; turning a value into its payload bytes
//! and back is done by the serialization layer around it.
use vstd::prelude::*;

pub mod movements;
pub mod sensors;
pub mod system;
pub mod codec;
pub mod engine;
pub mod control;

verus! {

/// Commands sent from the main system to the engine.
/// There is no direct response to commands (fire and forget); instead the
/// engine sends [`Report`] messages back instantly or periodically.
#[derive(Clone, Copy, Debug, PartialEq, Eq, Structural)]
pub enum Command {
    Move(movements::MoveCmd),
    Sensor(sensors::I2cSensorCmd),
    System(system::SystemCmd),
}

/// Messages sent from the engine to the main system.
#[derive(Clone, Copy, Debug, PartialEq, Eq, Structural)]
pub enum Report {
    /// Periodic updates from various sensors.
    Telemetry(sensors::Data),
    /// Immediate engine events.
    Event(EngineEvent),
    /// Response to a ping command with the same nonce.
    Pong(u32),
    // Engine error reports carry an engine error code; no code is defined
    // yet, so no such report can be built and the type has no variant for it.
}

/// Events raised by the engine.
#[derive(Clone, Copy, Debug, PartialEq, Eq, Structural)]
pub enum EngineEvent {
    Ready,
    EmergencyStop,
    LowBattery,
    Unavailable(sensors::I2cSensor),
}

} // verus!
