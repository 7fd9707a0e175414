//! Errors of a ping run.
use vstd::prelude::*;

verus! {

/// What can go wrong in a run. `TimedOut` and `MalformedPacket` are absorbed
/// into the statistics; the others end the run.
#[derive(Debug, Clone, Copy, PartialEq, Eq, Structural)]
pub enum PingError {
    /// The destination is not an IPv4 literal.
    AddressParseError,
    /// The raw socket could not be created; carries the platform error code.
    SocketInitError(i32),
    /// The receive timeout was refused; carries the platform error code.
    SocketConfigError(i32),
    /// A send failed; carries the platform error code.
    SendError(i32),
    /// A receive failed for a reason other than the timeout.
    ReceiveError(i32),
    /// No reply came within the receive timeout.
    TimedOut,
    /// A received buffer is too short to hold the headers it should hold.
    MalformedPacket,
}

impl PingError {
    /// Whether the error ends the run rather than counting as one failed probe.
    pub fn is_fatal(&self) -> (r: bool)
        ensures
            r == !(*self is TimedOut || *self is MalformedPacket),
    {
        match self {
            PingError::TimedOut | PingError::MalformedPacket => false,
            _ => true,
        }
    }
}

} // verus!
