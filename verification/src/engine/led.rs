//! The status LED: its commands and the behavior of the LED task.
use vstd::prelude::*;

verus! {

/// Command to control the LED.
#[derive(Clone, Copy, Debug, PartialEq, Eq, Structural)]
pub enum LedCmd {
    On,
    Off,
    /// Blink, holding each of the lit and dark phases for this many ms.
    Blink(u64),
}

/// What the LED task does next: it lights the LED or darkens it, then waits
/// for the next command, for at most `timeout_ms` when that is given.
#[derive(Clone, Copy, Debug, PartialEq, Eq, Structural)]
pub struct LedStep {
    /// The command being carried out.
    pub mode: LedCmd,
    /// Whether the LED is lit in this phase.
    pub lit: bool,
    /// How long to wait for the next command before the next phase; `None`
    /// waits until a command arrives.
    pub timeout_ms: Option<u64>,
}

/// The first phase of a command: `On` lights the LED and `Off` darkens it,
/// both until the next command; `Blink(ms)` lights it for `ms`.
pub open spec fn spec_led_start(cmd: LedCmd) -> LedStep {
    match cmd {
        LedCmd::On => LedStep { mode: cmd, lit: true, timeout_ms: None },
        LedCmd::Off => LedStep { mode: cmd, lit: false, timeout_ms: None },
        LedCmd::Blink(ms) => LedStep { mode: cmd, lit: true, timeout_ms: Some(ms) },
    }
}

/// The phase a task starts when a command arrives, whatever it was doing.
pub fn led_start(cmd: LedCmd) -> (step: LedStep)
    ensures
        step == spec_led_start(cmd),
{
    match cmd {
        LedCmd::On => LedStep { mode: cmd, lit: true, timeout_ms: None },
        LedCmd::Off => LedStep { mode: cmd, lit: false, timeout_ms: None },
        LedCmd::Blink(ms) => LedStep { mode: cmd, lit: true, timeout_ms: Some(ms) },
    }
}

/// The phase that follows when the wait of `step` ran out without a new
/// command: a blinking LED switches between lit and dark, for the same time.
/// A steady LED waits without a timeout, so its phase stays as it is.
pub fn led_timeout(step: LedStep) -> (next: LedStep)
    ensures
        next == if step.timeout_ms is Some {
            LedStep { mode: step.mode, lit: !step.lit, timeout_ms: step.timeout_ms }
        } else {
            step
        },
{
    if step.timeout_ms.is_some() {
        LedStep { mode: step.mode, lit: !step.lit, timeout_ms: step.timeout_ms }
    } else {
        step
    }
}

/// A blinking LED alternates lit and dark phases of the given length: two
/// timeouts bring it back to the phase it started from, lit first.
pub proof fn law_blink_period(ms: u64)
    ensures
        ({
            let first = spec_led_start(LedCmd::Blink(ms));
            let second = LedStep { mode: first.mode, lit: !first.lit, timeout_ms: first.timeout_ms };
            let third = LedStep { mode: second.mode, lit: !second.lit, timeout_ms: second.timeout_ms };
            &&& first.lit && first.timeout_ms == Some(ms)
            &&& !second.lit && second.timeout_ms == Some(ms)
            &&& third == first
        }),
{
}

/// A steady command drives the LED as named and waits for the next command
/// without timeout: `On` lights it, `Off` darkens it; a blink starts lit.
pub proof fn law_led_commands(ms: u64)
    ensures
        spec_led_start(LedCmd::On).lit && spec_led_start(LedCmd::On).timeout_ms is None,
        !spec_led_start(LedCmd::Off).lit && spec_led_start(LedCmd::Off).timeout_ms is None,
        spec_led_start(LedCmd::Blink(ms)).lit,
        spec_led_start(LedCmd::Blink(ms)).timeout_ms == Some(ms),
{
}

} // verus!
