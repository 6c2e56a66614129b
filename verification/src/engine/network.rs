//! Routing of the commands that arrive from the main system.
use crate::movements::MoveCmd;
use crate::sensors::I2cSensorCmd;
use crate::system::SystemCmd;
use crate::{Command, Report};
use vstd::prelude::*;

verus! {

/// Where a received command goes on the engine's bus.
#[derive(Clone, Copy, Debug, PartialEq, Eq, Structural)]
pub enum Route {
    /// To the movement task (the latest command wins).
    Move(MoveCmd),
    /// To the sensor task's subscription queue.
    Sensor(I2cSensorCmd),
    /// Straight back to the main system as a report.
    Reply(Report),
}

/// Where each command goes.
pub open spec fn spec_dispatch(cmd: Command) -> Route {
    match cmd {
        Command::Move(m) => Route::Move(m),
        Command::Sensor(s) => Route::Sensor(s),
        Command::System(SystemCmd::Ping(n)) => Route::Reply(Report::Pong(n)),
    }
}

/// Routes a decoded command: movement and sensor commands go to their tasks;
/// a ping is answered with a pong that carries the same nonce.
pub fn dispatch(cmd: Command) -> (route: Route)
    ensures
        route == spec_dispatch(cmd),
{
    match cmd {
        Command::Move(m) => Route::Move(m),
        Command::Sensor(s) => Route::Sensor(s),
        Command::System(SystemCmd::Ping(n)) => Route::Reply(Report::Pong(n)),
    }
}

/// Every command is delivered unchanged to the one place it is for: a
/// movement command to the movement task, a sensor command to the sensor
/// task, and a ping of nonce `n` is answered with a pong of the same nonce
/// `n`, for every nonce. Only pings are answered.
pub proof fn law_routing(m: MoveCmd, s: I2cSensorCmd, n: u32, cmd: Command)
    ensures
        spec_dispatch(Command::Move(m)) == Route::Move(m),
        spec_dispatch(Command::Sensor(s)) == Route::Sensor(s),
        spec_dispatch(Command::System(SystemCmd::Ping(n))) == Route::Reply(Report::Pong(n)),
        spec_dispatch(cmd) is Reply <==> cmd is System,
{
}

} // verus!
