//! A session on the serial link: what the control program does with each
//! event, and how the session ends.
use crate::movements::MoveCmd;
use crate::{Command, Report};
use vstd::prelude::*;

verus! {

/// How a session ended.
#[derive(Clone, Copy, Debug, PartialEq, Eq, Structural)]
pub enum Shutdown {
    /// The user asked to quit: the program ends.
    Graceful,
    /// The link failed: the program connects again.
    Reconnect,
}

/// What happens during a session.
#[derive(Clone, Copy, Debug, PartialEq, Eq, Structural)]
pub enum LinkEvent {
    /// A report arrived from the engine.
    Report(Report),
    /// Bytes arrived that do not decode into a report.
    DecodeError,
    /// The link closed.
    StreamEnded,
    /// The keyboard task queued a command.
    Command(Command),
    /// The keyboard task ended (the user pressed Q).
    InputClosed,
    /// The user pressed Ctrl+C.
    Interrupt,
}

/// What the control program does about an event.
#[derive(Clone, Copy, Debug, PartialEq, Eq, Structural)]
pub enum LinkAction {
    /// Log the report and go on.
    Handle(Report),
    /// Send the command to the engine and go on.
    Send(Command),
    /// End the session, sending `last` first when there is one (a failure
    /// to send it is ignored).
    End { last: Option<Command>, outcome: Shutdown },
}

/// What the control program does about each event.
pub open spec fn spec_link_step(event: LinkEvent) -> LinkAction {
    match event {
        LinkEvent::Report(r) => LinkAction::Handle(r),
        LinkEvent::Command(c) => LinkAction::Send(c),
        LinkEvent::DecodeError | LinkEvent::StreamEnded => LinkAction::End {
            last: None,
            outcome: Shutdown::Reconnect,
        },
        LinkEvent::InputClosed | LinkEvent::Interrupt => LinkAction::End {
            last: Some(Command::Move(MoveCmd::spec_stop())),
            outcome: Shutdown::Graceful,
        },
    }
}

/// Decides what to do about an event. A session that ends on the user's
/// request first stops the motors; one that ends on a link failure is
/// reconnected.
pub fn link_step(event: LinkEvent) -> (action: LinkAction)
    ensures
        action == spec_link_step(event),
{
    match event {
        LinkEvent::Report(r) => LinkAction::Handle(r),
        LinkEvent::Command(c) => LinkAction::Send(c),
        LinkEvent::DecodeError | LinkEvent::StreamEnded => LinkAction::End {
            last: None,
            outcome: Shutdown::Reconnect,
        },
        LinkEvent::InputClosed | LinkEvent::Interrupt => LinkAction::End {
            last: Some(Command::Move(MoveCmd::stop())),
            outcome: Shutdown::Graceful,
        },
    }
}

/// A session never ends on the user's request without stopping the motors
/// first, and every link failure leads to a new connection.
pub proof fn law_session_end(event: LinkEvent)
    ensures
        spec_link_step(event) matches LinkAction::End { last, outcome: Shutdown::Graceful }
            ==> last == Some(Command::Move(MoveCmd::spec_stop())),
        spec_link_step(event) matches LinkAction::End { last, outcome: Shutdown::Reconnect }
            ==> (event is DecodeError || event is StreamEnded),
{
}

/// How long the control program waits before connecting again, in ms.
pub const RECONNECT_DELAY_MS: u64 = 1000;

/// What the control program does once a session is over.
#[derive(Clone, Copy, Debug, PartialEq, Eq, Structural)]
pub enum SessionNext {
    /// The program ends.
    Quit,
    /// Connect again after this many ms.
    RetryAfterMs(u64),
}

/// What follows each way a session can end.
pub open spec fn spec_after_session(outcome: Option<Shutdown>) -> SessionNext {
    match outcome {
        Some(Shutdown::Graceful) => SessionNext::Quit,
        _ => SessionNext::RetryAfterMs(RECONNECT_DELAY_MS),
    }
}

/// Decides what follows a session: `Some(outcome)` when the session ended
/// as [`link_step`] decided, `None` when connecting failed or the session
/// failed on an error. Only a graceful end quits; everything else connects
/// again after [`RECONNECT_DELAY_MS`].
pub fn after_session(outcome: Option<Shutdown>) -> (next: SessionNext)
    ensures
        next == spec_after_session(outcome),
{
    match outcome {
        Some(Shutdown::Graceful) => SessionNext::Quit,
        _ => SessionNext::RetryAfterMs(RECONNECT_DELAY_MS),
    }
}

/// The session forwards what it gets, unchanged: every command the keyboard
/// task queues is sent to the engine exactly as queued, and every report
/// that arrives is handled as it arrived; neither ends the session.
pub proof fn law_forwarded_unchanged(c: Command, r: Report)
    ensures
        spec_link_step(LinkEvent::Command(c)) == LinkAction::Send(c),
        spec_link_step(LinkEvent::Report(r)) == LinkAction::Handle(r),
{
}

/// The program ends exactly when the session ended gracefully; after any
/// other end, and when connecting failed, it connects again one second
/// later.
pub proof fn law_reconnect(outcome: Option<Shutdown>)
    ensures
        (spec_after_session(outcome) == SessionNext::Quit) <==> outcome == Some(
            Shutdown::Graceful,
        ),
        outcome != Some(Shutdown::Graceful) ==> spec_after_session(outcome)
            == SessionNext::RetryAfterMs(1000),
{
}

/// How each end event ends the session: when the keyboard task ends or the
/// user interrupts, the motors are stopped and the program quits; when the
/// link fails (undecodable bytes, closed stream) nothing more is sent and
/// the program connects again.
pub proof fn law_end_events()
    ensures
        spec_link_step(LinkEvent::InputClosed) == (LinkAction::End {
            last: Some(Command::Move(MoveCmd::spec_stop())),
            outcome: Shutdown::Graceful,
        }),
        spec_link_step(LinkEvent::Interrupt) == (LinkAction::End {
            last: Some(Command::Move(MoveCmd::spec_stop())),
            outcome: Shutdown::Graceful,
        }),
        spec_link_step(LinkEvent::DecodeError) == (LinkAction::End {
            last: None,
            outcome: Shutdown::Reconnect,
        }),
        spec_link_step(LinkEvent::StreamEnded) == (LinkAction::End {
            last: None,
            outcome: Shutdown::Reconnect,
        }),
{
}

} // verus!
