//! Splitting a stream into a read half and a write half, and reuniting
//! them.
//!
//! The two halves of one split share a coordinator that owns the exclusive
//! stream; each half carries the coordinator's token. The embedding program
//! places the coordinator behind a shared lock, gives every split a token
//! of its own, and fans wake notifications out to both halves; the rules of
//! reuniting — only the halves of the same split fit back together, and the
//! reunited stream is exactly the one that was split — are stated and
//! proved here.

use vstd::prelude::*;
use crate::failure::ReuniteError;
use crate::stream::TlsStream;

verus! {

/// Owns the exclusive stream on behalf of the two halves of one split.
pub struct Coordinator {
    /// The stream both halves operate on.
    pub stream: TlsStream,
    /// Identity of this split; both halves carry it.
    pub token: u64,
}

/// The read-capable half of a split stream.
pub struct ReadHalf {
    /// Identity of the split this half came from.
    pub token: u64,
}

/// The write-capable half of a split stream.
pub struct WriteHalf {
    /// Identity of the split this half came from.
    pub token: u64,
}

/// What splitting a stream under a given token produces.
pub open spec fn split_spec(s: TlsStream, token: u64) -> (Coordinator, ReadHalf, WriteHalf) {
    (
        Coordinator { stream: s, token },
        ReadHalf { token },
        WriteHalf { token },
    )
}

/// Reuniting succeeds exactly when both halves carry the coordinator's
/// token, and then returns the coordinator's stream unchanged.
pub open spec fn reunite_spec(c: Coordinator, rd: ReadHalf, wr: WriteHalf) -> Result<
    TlsStream,
    ReuniteError,
> {
    if rd.token == c.token && wr.token == c.token {
        Ok(c.stream)
    } else {
        Err(ReuniteError::DifferentSplit)
    }
}

impl TlsStream {
    /// Converts the stream into a coordinator and the two halves of one
    /// split. The caller must pick a token no other live split uses.
    pub fn into_split(self, token: u64) -> (r: (Coordinator, ReadHalf, WriteHalf))
        ensures
            r == split_spec(self, token),
    {
        (
            Coordinator { stream: self, token },
            ReadHalf { token },
            WriteHalf { token },
        )
    }
}

/// Puts the two halves of a split back together. Halves of different
/// splits are refused loudly; they never reunite silently.
pub fn reunite(c: Coordinator, rd: ReadHalf, wr: WriteHalf) -> (r: Result<
    TlsStream,
    ReuniteError,
>)
    ensures
        r == reunite_spec(c, rd, wr),
{
    if rd.token == c.token && wr.token == c.token {
        Ok(c.stream)
    } else {
        Err(ReuniteError::DifferentSplit)
    }
}

/// Law: reuniting the two halves produced by one split yields exactly the
/// stream that was split, whatever happened to the session in between.
pub proof fn lemma_split_reunite_round_trip(s: TlsStream, token: u64)
    ensures
        ({
            let (c, rd, wr) = split_spec(s, token);
            reunite_spec(c, rd, wr) == Ok::<TlsStream, ReuniteError>(s)
        }),
{
}

/// Law: a half taken from a different split never reunites silently; the
/// mismatch is reported as a contract violation.
pub proof fn lemma_reunite_checks_identity(
    s1: TlsStream,
    t1: u64,
    s2: TlsStream,
    t2: u64,
)
    requires
        t1 != t2,
    ensures
        ({
            let (c1, rd1, _wr1) = split_spec(s1, t1);
            let (_c2, _rd2, wr2) = split_spec(s2, t2);
            reunite_spec(c1, rd1, wr2) == Err::<TlsStream, ReuniteError>(
                ReuniteError::DifferentSplit,
            )
        }),
{
}

} // verus!
