//! Keyboard teleoperation: W/S forward/back, A/D turn, Space stop, Q quit.
use crate::Command;
use vstd::prelude::*;

verus! {

/// The ways the keyboard drives the robot.
#[derive(Clone, Copy, Debug, PartialEq, Eq, Structural)]
pub enum Steer {
    Forward,
    Backward,
    /// Turn left in place: left side backward, right side forward.
    Left,
    /// Turn right in place: left side forward, right side backward.
    Right,
}

/// What a key press asks for.
#[derive(Clone, Copy, Debug, PartialEq, Eq, Structural)]
pub enum KeyAction {
    /// Drive at the teleoperation speed.
    Drive(Steer),
    /// Stop the robot instantly.
    Stop,
    /// Quit the program.
    Quit,
    /// Not a control key.
    Ignore,
}

/// The action of each key.
pub open spec fn spec_key_action(c: char) -> KeyAction {
    if c == 'w' {
        KeyAction::Drive(Steer::Forward)
    } else if c == 's' {
        KeyAction::Drive(Steer::Backward)
    } else if c == 'a' {
        KeyAction::Drive(Steer::Left)
    } else if c == 'd' {
        KeyAction::Drive(Steer::Right)
    } else if c == ' ' {
        KeyAction::Stop
    } else if c == 'q' {
        KeyAction::Quit
    } else {
        KeyAction::Ignore
    }
}

/// The action of the key that types `c`.
pub fn key_action(c: char) -> (action: KeyAction)
    ensures
        action == spec_key_action(c),
{
    if c == 'w' {
        KeyAction::Drive(Steer::Forward)
    } else if c == 's' {
        KeyAction::Drive(Steer::Backward)
    } else if c == 'a' {
        KeyAction::Drive(Steer::Left)
    } else if c == 'd' {
        KeyAction::Drive(Steer::Right)
    } else if c == ' ' {
        KeyAction::Stop
    } else if c == 'q' {
        KeyAction::Quit
    } else {
        KeyAction::Ignore
    }
}

/// The direction of each side for each way of driving.
pub open spec fn spec_side_directions(steer: Steer) -> (i8, i8) {
    match steer {
        Steer::Forward => (1i8, 1i8),
        Steer::Backward => (-1i8, -1i8),
        Steer::Left => (-1i8, 1i8),
        Steer::Right => (1i8, -1i8),
    }
}

/// The direction of each side for a way of driving, left then right:
/// `1` forward, `-1` backward.
pub fn side_directions(steer: Steer) -> (dirs: (i8, i8))
    ensures
        dirs == spec_side_directions(steer),
{
    match steer {
        Steer::Forward => (1, 1),
        Steer::Backward => (-1, -1),
        Steer::Left => (-1, 1),
        Steer::Right => (1, -1),
    }
}

/// The teleoperation state: the last command sent, which the heartbeat
/// repeats so that the engine keeps moving.
pub struct Teleop {
    last_cmd: Option<Command>,
}

impl Teleop {
    /// The last command sent, if any.
    pub closed spec fn last(&self) -> Option<Command> {
        self.last_cmd
    }

    /// Nothing sent yet.
    pub fn new() -> (t: Teleop)
        ensures
            t.last() is None,
    {
        Teleop { last_cmd: None }
    }

    /// Records that `cmd` was sent.
    pub fn sent(&mut self, cmd: Command)
        ensures
            final(self).last() == Some(cmd),
    {
        self.last_cmd = Some(cmd);
    }

    /// The command a heartbeat repeats: the last one sent, if any.
    pub fn heartbeat(&self) -> (cmd: Option<Command>)
        ensures
            cmd == self.last(),
    {
        self.last_cmd
    }
}

/// The keyboard map: W, S, A and D drive forward, backward, left and
/// right, Space stops, Q quits, and every other key is ignored; only Q
/// quits and only Space stops.
pub proof fn law_key_map(c: char)
    ensures
        spec_key_action('w') == KeyAction::Drive(Steer::Forward),
        spec_key_action('s') == KeyAction::Drive(Steer::Backward),
        spec_key_action('a') == KeyAction::Drive(Steer::Left),
        spec_key_action('d') == KeyAction::Drive(Steer::Right),
        (spec_key_action(c) == KeyAction::Quit) <==> c == 'q',
        (spec_key_action(c) == KeyAction::Stop) <==> c == ' ',
        (spec_key_action(c) == KeyAction::Ignore) <==> !(c == 'w' || c == 's' || c == 'a' || c
            == 'd' || c == ' ' || c == 'q'),
{
}

/// Driving forward moves both sides forward and backward both backward;
/// turning moves the sides in opposite directions, the inner side backward
/// (left turn: left side; right turn: right side); each way's opposite
/// reverses both sides.
pub proof fn law_steering(steer: Steer)
    ensures
        spec_side_directions(Steer::Forward) == (1i8, 1i8),
        spec_side_directions(Steer::Left) == (-1i8, 1i8),
        spec_side_directions(Steer::Backward).0 == -spec_side_directions(Steer::Forward).0,
        spec_side_directions(Steer::Backward).1 == -spec_side_directions(Steer::Forward).1,
        spec_side_directions(Steer::Right).0 == -spec_side_directions(Steer::Left).0,
        spec_side_directions(Steer::Right).1 == -spec_side_directions(Steer::Left).1,
        spec_side_directions(steer).0 == 1 || spec_side_directions(steer).0 == -1,
        spec_side_directions(steer).1 == 1 || spec_side_directions(steer).1 == -1,
{
}

} // verus!
