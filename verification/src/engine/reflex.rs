//! Emergency stop: the only control logic of the engine itself (reflexes).
//! Planning and higher level control belong to the main system.
use crate::engine::bus::SystemError;
use crate::engine::led::LedCmd;
use crate::movements::MoveCmd;
use vstd::prelude::*;

verus! {

/// How long each phase of the emergency blink lasts, in ms.
pub const EMERGENCY_BLINK_MS: u64 = 10;

/// The signals an emergency stop raises on the engine's bus.
#[derive(Clone, Copy, Debug, PartialEq, Eq, Structural)]
pub struct StopSignals {
    /// The movement command: stop instantly.
    pub movement: MoveCmd,
    /// The LED command: fast blinking.
    pub led: LedCmd,
}

/// The signals of an emergency stop.
pub open spec fn spec_emergency_stop() -> StopSignals {
    StopSignals { movement: MoveCmd::spec_stop(), led: LedCmd::Blink(EMERGENCY_BLINK_MS) }
}

/// Triggers an emergency stop due to the given cause: the robot stops
/// instantly and the LED blinks fast, whatever the cause.
pub fn emergency_stop(cause: SystemError) -> (signals: StopSignals)
    ensures
        signals == spec_emergency_stop(),
{
    StopSignals { movement: MoveCmd::stop(), led: LedCmd::Blink(EMERGENCY_BLINK_MS) }
}

/// An emergency stop stops both sides instantly (speeds and acceleration
/// time all `+0.0`) and blinks the LED with 10 ms phases.
pub proof fn law_emergency_stop()
    ensures
        spec_emergency_stop().movement.left_bits == 0,
        spec_emergency_stop().movement.right_bits == 0,
        spec_emergency_stop().movement.accel_secs_bits == 0,
        spec_emergency_stop().led == LedCmd::Blink(10),
{
}

} // verus!
