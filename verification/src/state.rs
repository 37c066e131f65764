use vstd::prelude::*;

verus! {

/// Lifecycle of the read direction of a session.
///
/// The states only ever advance: `Open` -> `PeerClosed` -> `TransportClosed`
/// (possibly skipping `PeerClosed` when the transport ends first). Once the
/// transport is closed for reading, no further read I/O is attempted.
#[derive(Clone, Copy, Debug, PartialEq, Eq, Structural)]
pub enum ReadState {
    /// The direction is fully usable.
    Open,
    /// The peer sent its closing notification; reads now report end of stream.
    PeerClosed,
    /// The transport delivered end of stream; terminal.
    TransportClosed,
}

/// Lifecycle of the write direction of a session.
///
/// The states only ever advance:
/// `Open` -> `NotifyQueued` -> `LocallyClosed` -> `TransportClosed`.
/// Once the transport is shut down for writing, no further write I/O is
/// attempted.
#[derive(Clone, Copy, Debug, PartialEq, Eq, Structural)]
pub enum WriteState {
    /// The direction is fully usable.
    Open,
    /// The closing notification has been handed to the security layer but
    /// has not yet been fully flushed to the transport.
    NotifyQueued,
    /// The closing notification reached the transport; writing plaintext is
    /// no longer allowed.
    LocallyClosed,
    /// The transport is shut down for writing; terminal.
    TransportClosed,
}

/// Position of a read state on its one-way track.
pub open spec fn rd_rank(s: ReadState) -> int {
    match s {
        ReadState::Open => 0,
        ReadState::PeerClosed => 1,
        ReadState::TransportClosed => 2,
    }
}

/// Position of a write state on its one-way track.
pub open spec fn wr_rank(s: WriteState) -> int {
    match s {
        WriteState::Open => 0,
        WriteState::NotifyQueued => 1,
        WriteState::LocallyClosed => 2,
        WriteState::TransportClosed => 3,
    }
}

} // verus!
