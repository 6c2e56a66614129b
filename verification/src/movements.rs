use vstd::prelude::*;

verus! {

/// Command to control the movement of the robot.
/// New commands override previous ones; the engine accelerates smoothly to
/// the new target.
///
/// The three values are IEEE-754 single precision numbers, carried by their
/// bit patterns exactly as they travel on the wire:
/// - `left`, `right`: side speeds from -1.0 (full backward) to 1.0 (full forward);
/// - `accel_secs`: seconds to reach the target speed from standstill
///   (`0.0` is instant).
#[derive(Clone, Copy, Debug, PartialEq, Eq, Structural)]
pub struct MoveCmd {
    pub left_bits: u32,
    pub right_bits: u32,
    pub accel_secs_bits: u32,
}

/// Bit pattern of the single precision number `+0.0`.
pub const ZERO_BITS: u32 = 0;

impl MoveCmd {
    /// The command that stops the robot instantly: both speeds `0.0` and no
    /// acceleration time.
    pub open spec fn spec_stop() -> MoveCmd {
        MoveCmd { left_bits: ZERO_BITS, right_bits: ZERO_BITS, accel_secs_bits: ZERO_BITS }
    }

    /// Stops the robot instantly.
    pub fn stop() -> (cmd: MoveCmd)
        ensures
            cmd == Self::spec_stop(),
    {
        MoveCmd { left_bits: ZERO_BITS, right_bits: ZERO_BITS, accel_secs_bits: ZERO_BITS }
    }
}

/// The stop command is instant and has both speeds `+0.0`: every value's
/// bit pattern is zero.
pub proof fn law_stop_is_zero()
    ensures
        MoveCmd::spec_stop().left_bits == 0,
        MoveCmd::spec_stop().right_bits == 0,
        MoveCmd::spec_stop().accel_secs_bits == 0,
{
}

} // verus!
