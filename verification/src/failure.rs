use vstd::prelude::*;

verus! {

/// How a session operation can fail.
///
/// `Transport` and `Protocol` are fatal: they poison the whole session and
/// every later operation reports the same failure again. `BrokenPipe` is a
/// local-misuse report (writing after the write direction was closed); it
/// does not poison the session.
#[derive(Clone, Copy, Debug, PartialEq, Eq, Structural)]
pub enum Failure {
    /// The transport reported an I/O error.
    Transport,
    /// The security layer rejected the peer's data (malformed records,
    /// failed handshake, certificate rejection), or refused to take more.
    Protocol,
    /// The transport ended without the peer's closing notification: the
    /// stream may have been truncated by an attacker or a fault.
    Truncated,
    /// A write was attempted after the write direction was locally closed.
    BrokenPipe,
}

impl Failure {
    /// Fatal failures end the session for both directions.
    pub open spec fn is_fatal(self) -> bool {
        self == Failure::Transport || self == Failure::Protocol || self == Failure::Truncated
    }
}

/// Reuniting two split halves can be refused; this says why.
#[derive(Clone, Copy, Debug, PartialEq, Eq, Structural)]
pub enum ReuniteError {
    /// The two halves come from different splits.
    DifferentSplit,
}

} // verus!
