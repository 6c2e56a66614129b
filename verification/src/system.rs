use vstd::prelude::*;

verus! {

/// System-level commands.
#[derive(Clone, Copy, Debug, PartialEq, Eq, Structural)]
pub enum SystemCmd {
    /// Ping command with a nonce to test that the engine is responsive.
    /// The engine responds with the same nonce in a [`crate::Report::Pong`] report.
    Ping(u32),
}

} // verus!
