//! The session state machine: one security-layer connection, the lifecycle
//! of both directions, and the pending-ciphertext buffers that sit between
//! the security layer and the transport.
//!
//! Every operation is poll-style and non-blocking. The caller performs the
//! transport I/O: an operation returns either a finished result, a failure,
//! or a request for one transport action (`Recv`, `Send`, `CloseTransport`),
//! and the caller reports the outcome of that action as the `Event` of its
//! next call. Suspending between calls is always safe: the machine is left
//! consistent after every return.

use vstd::prelude::*;
use std::sync::Arc;
use crate::failure::Failure;
use crate::state::{ReadState, WriteState, rd_rank, wr_rank};
use crate::tls;
use crate::tls::PlainRead;

verus! {

/// The outcome of the transport action that the caller performed since the
/// previous call, or `Wake` when there is nothing to report.
pub enum Event {
    /// Fresh poll; no transport outcome to deliver.
    Wake,
    /// The transport produced these ciphertext bytes.
    Received(Vec<u8>),
    /// The transport reported end of stream while reading.
    RecvEof,
    /// The transport accepted this many bytes of the ciphertext it was handed.
    Sent(usize),
    /// The transport's write side has been shut down.
    SendClosed,
    /// The transport reported an I/O error.
    TransportFailed,
}

/// What a poll-style operation asks of its caller next.
pub enum Step<T> {
    /// The operation finished with this result.
    Done(T),
    /// The operation failed; fatal failures repeat on every later call.
    Failed(Failure),
    /// Read from the transport and report `Received`, `RecvEof`, or
    /// `TransportFailed`.
    Recv,
    /// Write these bytes to the transport and report `Sent` or
    /// `TransportFailed`.
    Send(Vec<u8>),
    /// Shut the transport down for writing and report `SendClosed` or
    /// `TransportFailed`.
    CloseTransport,
}

impl<T> Step<T> {
    /// A step is pending when it still needs transport work.
    pub open spec fn pending(&self) -> bool {
        !(self matches Step::Done(_)) && !(self matches Step::Failed(_))
    }

    /// Whether the operation must be called again after transport work.
    pub fn is_pending(&self) -> (r: bool)
        ensures
            r == self.pending(),
    {
        match self {
            Step::Done(_) => false,
            Step::Failed(_) => false,
            _ => true,
        }
    }
}

/// What a discarded handle must still do for its session.
#[derive(Clone, Copy, Debug, PartialEq, Eq, Structural)]
pub enum DropPlan {
    /// Both directions already reached the transport; nothing is owed.
    NothingToDo,
    /// A close must still be attempted (and handed to a background driver
    /// if one non-blocking attempt does not finish it).
    AttemptClose,
}

/// One secure session: the security-layer connection, the two direction
/// states, the handshake flag, the sticky failure, and the byte buffers
/// between the security layer and the transport.
///
/// `accepted` and `delivered` are the session's plaintext history: every
/// byte taken in for encryption, and every decrypted byte drained out of
/// the security layer; both grow only through the trusted operations.
pub struct Session {
    /// The security-layer connection; opaque to the verifier.
    pub conn: rustls::Connection,
    /// Lifecycle of the read direction.
    pub rd: ReadState,
    /// Lifecycle of the write direction.
    pub wr: WriteState,
    /// Whether the handshake has been observed complete.
    pub hs_done: bool,
    /// A fatal failure, repeated by every later operation.
    pub failed: Option<Failure>,
    /// Ciphertext produced by the security layer, not yet taken by the
    /// transport.
    pub out: Vec<u8>,
    /// Ciphertext received from the transport, not yet consumed by the
    /// security layer.
    pub inbuf: Vec<u8>,
    /// All plaintext accepted for encryption so far; extended only by the
    /// trusted send operation.
    pub accepted: Ghost<Seq<u8>>,
    /// All decrypted plaintext drained out of the security layer so far —
    /// handed to the caller, or discarded while tearing down; extended only
    /// by the trusted pull operation.
    pub delivered: Ghost<Seq<u8>>,
    /// Record: some probe saw the security layer report its handshake
    /// finished. Set only by the trusted probe.
    pub hs_reported: Ghost<bool>,
    /// Record: the closing notification was produced by the security layer.
    /// Set only by the trusted close-notify operation.
    pub notify_queued: Ghost<bool>,
    /// Record: the send buffering limit was removed and never restored.
    /// Set only by the trusted limit-removal operation.
    pub no_send_limit: Ghost<bool>,
}

/// The session fields, apart from the connection and the ghost records,
/// that the trusted operations leave alone.
pub open spec fn same_visible(pre: Session, post: Session) -> bool {
    &&& post.rd == pre.rd
    &&& post.wr == pre.wr
    &&& post.hs_done == pre.hs_done
    &&& post.failed == pre.failed
    &&& post.out == pre.out
    &&& post.inbuf == pre.inbuf
}

/// `post` is `pre` with zero or more bytes appended: nothing already there
/// is dropped or changed.
pub open spec fn extends(post: Seq<u8>, pre: Seq<u8>) -> bool {
    &&& post.len() >= pre.len()
    &&& forall|i: int| 0 <= i < pre.len() ==> post[i] == pre[i]
}

/// Internal consistency: a recorded failure is one of the fatal kinds, the
/// handshake flag is set only after the security layer reported the
/// exchange finished, the write direction passes its closing states only
/// once the closing notification was produced, and the send buffering
/// limit is gone.
pub open spec fn session_wf(s: Session) -> bool {
    &&& (s.failed matches Some(f) ==> f.is_fatal())
    &&& (s.hs_done ==> s.hs_reported@)
    &&& ((s.wr == WriteState::NotifyQueued || s.wr == WriteState::LocallyClosed)
        ==> s.notify_queued@)
    &&& s.no_send_limit@
}

/// A session as a constructor returns it: both directions open, handshake
/// not yet complete, no failure, empty buffers, empty plaintext history.
pub open spec fn session_fresh(s: Session) -> bool {
    &&& s.rd == ReadState::Open
    &&& s.wr == WriteState::Open
    &&& !s.hs_done
    &&& s.failed is None
    &&& s.out@.len() == 0
    &&& s.inbuf@.len() == 0
    &&& s.accepted@.len() == 0
    &&& s.delivered@.len() == 0
    &&& !s.hs_reported@
    &&& !s.notify_queued@
    &&& s.no_send_limit@
}

/// What every operation preserves: direction states only advance, a
/// complete handshake stays complete, and a recorded failure never changes.
pub open spec fn evolves(pre: Session, post: Session) -> bool {
    &&& rd_rank(post.rd) >= rd_rank(pre.rd)
    &&& wr_rank(post.wr) >= wr_rank(pre.wr)
    &&& (pre.hs_done ==> post.hs_done)
    &&& (pre.failed is Some ==> post.failed == pre.failed)
}

/// Copies `v` without its first `n` elements.
fn skip_prefix(v: &Vec<u8>, n: usize) -> (r: Vec<u8>)
    requires
        n <= v@.len(),
    ensures
        r@ == v@.skip(n as int),
{
    let mut r: Vec<u8> = Vec::new();
    let mut i: usize = n;
    while i < v.len()
        invariant
            n <= i <= v@.len(),
            r@ == v@.subrange(n as int, i as int),
        decreases v@.len() - i,
    {
        r.push(v[i]);
        i = i + 1;
    }
    proof {
        assert(r@ =~= v@.skip(n as int));
    }
    r
}

/// Appends all of `src` to `dst`.
fn append_all(dst: &mut Vec<u8>, src: &Vec<u8>)
    ensures
        final(dst)@ == old(dst)@ + src@,
{
    let mut i: usize = 0;
    while i < src.len()
        invariant
            i <= src@.len(),
            dst@ == old(dst)@ + src@.subrange(0, i as int),
        decreases src@.len() - i,
    {
        dst.push(src[i]);
        i = i + 1;
    }
    proof {
        assert(dst@ =~= old(dst)@ + src@);
    }
}

/// Copies a byte vector.
fn copy_all(v: &Vec<u8>) -> (r: Vec<u8>)
    ensures
        r@ == v@,
{
    let r = skip_prefix(v, 0);
    proof {
        assert(v@.skip(0) =~= v@);
    }
    r
}

/// How far the handshake got in one visible step.
enum HsProgress {
    Complete,
    NeedSend,
    NeedRecv,
}

impl Session {
    fn assemble(conn: rustls::Connection) -> (r: Session)
        ensures
            session_fresh(r),
    {
        let mut s = Session {
            conn,
            rd: ReadState::Open,
            wr: WriteState::Open,
            hs_done: false,
            failed: None,
            out: Vec::new(),
            inbuf: Vec::new(),
            accepted: Ghost(Seq::empty()),
            delivered: Ghost(Seq::empty()),
            hs_reported: Ghost(false),
            notify_queued: Ghost(false),
            no_send_limit: Ghost(false),
        };
        tls::remove_send_limit(&mut s);
        s
    }

    /// Creates a client-role session; a rejected configuration is reported
    /// as a protocol failure.
    pub fn new_client(
        cfg: Arc<rustls::ClientConfig>,
        name: rustls::ServerName,
    ) -> (r: Result<Session, Failure>)
        ensures
            r matches Ok(s) ==> session_fresh(s),
            r matches Err(f) ==> f == Failure::Protocol,
    {
        match tls::new_client_connection(cfg, name) {
            Ok(conn) => Ok(Self::assemble(conn)),
            Err(_) => Err(Failure::Protocol),
        }
    }

    /// Creates a server-role session; a rejected configuration is reported
    /// as a protocol failure.
    pub fn new_server(cfg: Arc<rustls::ServerConfig>) -> (r: Result<Session, Failure>)
        ensures
            r matches Ok(s) ==> session_fresh(s),
            r matches Err(f) ==> f == Failure::Protocol,
    {
        match tls::new_server_connection(cfg) {
            Ok(conn) => Ok(Self::assemble(conn)),
            Err(_) => Err(Failure::Protocol),
        }
    }

    /// Adopts a pre-built client-role connection.
    pub fn from_client_connection(conn: rustls::ClientConnection) -> (r: Session)
        ensures
            session_fresh(r),
    {
        Self::assemble(tls::client_into_connection(conn))
    }

    /// Adopts a pre-built server-role connection.
    pub fn from_server_connection(conn: rustls::ServerConnection) -> (r: Session)
        ensures
            session_fresh(r),
    {
        Self::assemble(tls::server_into_connection(conn))
    }

    /// The application protocol agreed during the handshake, if any.
    pub fn alpn_protocol(&self) -> Option<Vec<u8>> {
        tls::alpn_protocol(&self.conn)
    }

    /// What a discarded owner still owes the peer: nothing once both
    /// directions reached the transport, otherwise one close attempt (to
    /// be handed to a background driver when it does not finish at once).
    pub fn drop_plan(&self) -> (r: DropPlan)
        ensures
            (r == DropPlan::NothingToDo) == (self.rd == ReadState::TransportClosed && self.wr
                == WriteState::TransportClosed),
    {
        if self.rd == ReadState::TransportClosed && self.wr == WriteState::TransportClosed {
            DropPlan::NothingToDo
        } else {
            DropPlan::AttemptClose
        }
    }

    /// Feeds buffered incoming ciphertext to the security layer and records
    /// what it reported: newly available plaintext, a peer close, or a
    /// protocol failure. Unless a failure is recorded, everything pending
    /// is consumed.
    fn ingest_pending(&mut self)
        requires
            session_wf(*old(self)),
        ensures
            session_wf(*final(self)),
            evolves(*old(self), *final(self)),
            final(self).hs_done == old(self).hs_done,
            final(self).accepted == old(self).accepted,
            final(self).delivered == old(self).delivered,
            final(self).out == old(self).out,
            final(self).wr == old(self).wr,
            final(self).hs_reported == old(self).hs_reported,
            final(self).notify_queued == old(self).notify_queued,
            final(self).no_send_limit == old(self).no_send_limit,
            old(self).failed is Some ==> *final(self) == *old(self),
            old(self).inbuf@.len() == 0 ==> *final(self) == *old(self),
            final(self).failed is None ==> final(self).inbuf@.len() == 0,
            final(self).rd == ReadState::TransportClosed ==> old(self).rd
                == ReadState::TransportClosed,
    {
        if self.failed.is_some() {
            return;
        }
        if self.inbuf.len() == 0 {
            return;
        }
        while self.inbuf.len() > 0
            invariant
                session_wf(*self),
                old(self).failed is None,
                old(self).inbuf@.len() > 0,
                self.failed is None,
                self.hs_done == old(self).hs_done,
                self.accepted == old(self).accepted,
                self.delivered == old(self).delivered,
                self.out == old(self).out,
                self.wr == old(self).wr,
                self.hs_reported == old(self).hs_reported,
                self.notify_queued == old(self).notify_queued,
                self.no_send_limit == old(self).no_send_limit,
                rd_rank(self.rd) >= rd_rank(old(self).rd),
                self.rd == ReadState::TransportClosed ==> old(self).rd
                    == ReadState::TransportClosed,
            decreases self.inbuf@.len(),
        {
            let taken = match tls::feed_ciphertext(&mut self.conn, self.inbuf.as_slice()) {
                Ok(n) => n,
                Err(_) => {
                    // The security layer refused more input (its buffers
                    // are full): fatal, reported as a protocol-level end.
                    self.failed = Some(Failure::Protocol);
                    return;
                }
            };
            self.inbuf = skip_prefix(&self.inbuf, taken);
            match tls::process_packets(&mut self.conn) {
                Ok(digest) => {
                    if digest.peer_closed && self.rd == ReadState::Open {
                        self.rd = ReadState::PeerClosed;
                    }
                }
                Err(_) => {
                    self.failed = Some(Failure::Protocol);
                    return;
                }
            }
        }
    }

    /// Applies the outcome of the caller's last transport action, then lets
    /// the security layer consume whatever ciphertext is pending. Repeating
    /// an operation with `Wake` never duplicates a side effect.
    fn apply_event(&mut self, ev: Event)
        requires
            session_wf(*old(self)),
        ensures
            session_wf(*final(self)),
            evolves(*old(self), *final(self)),
            final(self).hs_done == old(self).hs_done,
            final(self).accepted == old(self).accepted,
            final(self).delivered == old(self).delivered,
            old(self).failed is Some ==> *final(self) == *old(self),
            ev == Event::Wake && old(self).inbuf@.len() == 0 ==> *final(self) == *old(self),
            ev matches Event::Sent(n) ==> ((old(self).failed is None && n <= old(self).out@.len()
                && old(self).inbuf@.len() == 0)
                ==> final(self).out@ == old(self).out@.skip(n as int)),
            final(self).failed is None ==> final(self).inbuf@.len() == 0,
            final(self).hs_reported == old(self).hs_reported,
            final(self).notify_queued == old(self).notify_queued,
            final(self).no_send_limit == old(self).no_send_limit,
            !(ev matches Event::Sent(_)) ==> final(self).out == old(self).out,
            final(self).rd == ReadState::TransportClosed ==> old(self).rd
                == ReadState::TransportClosed || ev == Event::RecvEof,
            final(self).wr == WriteState::TransportClosed ==> old(self).wr
                == WriteState::TransportClosed || ev == Event::SendClosed,
    {
        if self.failed.is_some() {
            return;
        }
        match ev {
            Event::Wake => {}
            Event::Received(buf) => {
                append_all(&mut self.inbuf, &buf);
            }
            Event::RecvEof => {
                self.rd = ReadState::TransportClosed;
                // Let the security layer see the end of stream, so its
                // reader can tell a clean close from truncation.
                match tls::feed_transport_eof(&mut self.conn) {
                    Ok(_) => {}
                    Err(_) => {
                        self.failed = Some(Failure::Protocol);
                    }
                }
            }
            Event::Sent(n) => {
                let k = if n < self.out.len() { n } else { self.out.len() };
                self.out = skip_prefix(&self.out, k);
            }
            Event::SendClosed => {
                self.wr = WriteState::TransportClosed;
            }
            Event::TransportFailed => {
                self.failed = Some(Failure::Transport);
            }
        }
        self.ingest_pending();
    }

    /// Drives the handshake one visible step: pulls any handshake records
    /// the security layer wants sent, and reports whether the exchange is
    /// complete, needs a transport send, or needs more peer data.
    fn hs_step(&mut self) -> (r: HsProgress)
        requires
            session_wf(*old(self)),
            old(self).failed is None,
        ensures
            session_wf(*final(self)),
            evolves(*old(self), *final(self)),
            final(self).accepted == old(self).accepted,
            final(self).delivered == old(self).delivered,
            final(self).rd == old(self).rd,
            final(self).wr == old(self).wr,
            final(self).failed == old(self).failed,
            final(self).inbuf == old(self).inbuf,
            final(self).notify_queued == old(self).notify_queued,
            final(self).no_send_limit == old(self).no_send_limit,
            old(self).hs_reported@ ==> final(self).hs_reported@,
            (r == HsProgress::Complete) == final(self).hs_done,
            old(self).hs_done ==> *final(self) == *old(self),
            extends(final(self).out@, old(self).out@),
            r == HsProgress::NeedSend ==> final(self).out@.len() > 0,
    {
        if self.hs_done {
            return HsProgress::Complete;
        }
        if tls::wants_write(&self.conn) {
            let _pulled = tls::pull_ciphertext(&mut self.conn, &mut self.out);
        }
        if self.out.len() > 0 {
            // The exchange is not reported complete until its last records
            // have left for the transport.
            return HsProgress::NeedSend;
        }
        if !tls::probe_handshaking(self) {
            self.hs_done = true;
            return HsProgress::Complete;
        }
        HsProgress::NeedRecv
    }
}

/// Rules every transport-action step obeys: a send hands out exactly the
/// pending ciphertext, and no I/O is requested on a direction whose
/// transport side is already closed.
pub open spec fn step_io_ok<T>(s: Session, r: Step<T>) -> bool {
    &&& (r matches Step::Send(b) ==> b@ == s.out@ && s.out@.len() > 0 && s.wr
        != WriteState::TransportClosed)
    &&& (r matches Step::Recv ==> s.rd != ReadState::TransportClosed)
    &&& (r matches Step::CloseTransport ==> s.wr == WriteState::LocallyClosed)
    &&& (r matches Step::Failed(f) ==> if f.is_fatal() {
        s.failed == Some(f)
    } else {
        s.failed is None && s.wr != WriteState::Open
    })
}

impl Session {
    /// Drives the handshake and, when transport work or a failure
    /// interrupts it, produces the step to hand back to the caller.
    fn hs_interrupt<T>(&mut self) -> (r: Option<Step<T>>)
        requires
            session_wf(*old(self)),
            old(self).failed is None,
        ensures
            session_wf(*final(self)),
            evolves(*old(self), *final(self)),
            final(self).accepted == old(self).accepted,
            final(self).delivered == old(self).delivered,
            final(self).rd == old(self).rd,
            final(self).wr == old(self).wr,
            final(self).inbuf == old(self).inbuf,
            final(self).notify_queued == old(self).notify_queued,
            final(self).no_send_limit == old(self).no_send_limit,
            old(self).hs_reported@ ==> final(self).hs_reported@,
            extends(final(self).out@, old(self).out@),
            r is None ==> final(self).hs_done && final(self).failed is None,
            r matches Some(st) ==> step_io_ok(*final(self), st) && !(st matches Step::Done(_))
                && !(st matches Step::CloseTransport),
            // A failure arises here only when the direction the handshake
            // needs has already lost its transport.
            r matches Some(st) ==> ((st matches Step::Failed(_)) ==> (old(self).wr
                == WriteState::TransportClosed || old(self).rd == ReadState::TransportClosed)),
            old(self).hs_done ==> r is None && *final(self) == *old(self),
    {
        match self.hs_step() {
            HsProgress::Complete => None,
            HsProgress::NeedSend => {
                if self.wr == WriteState::TransportClosed {
                    self.failed = Some(Failure::Transport);
                    Some(Step::Failed(Failure::Transport))
                } else {
                    Some(Step::Send(copy_all(&self.out)))
                }
            }
            HsProgress::NeedRecv => {
                if self.rd == ReadState::TransportClosed {
                    self.failed = Some(Failure::Transport);
                    Some(Step::Failed(Failure::Transport))
                } else {
                    Some(Step::Recv)
                }
            }
        }
    }

    /// Drives the security layer's initial exchange until it is complete.
    /// Once complete, calling this again is a no-op success; it never
    /// becomes an error.
    pub fn poll_handshake(&mut self, ev: Event) -> (r: Step<()>)
        requires
            session_wf(*old(self)),
        ensures
            session_wf(*final(self)),
            evolves(*old(self), *final(self)),
            final(self).accepted == old(self).accepted,
            final(self).delivered == old(self).delivered,
            step_io_ok(*final(self), r),
            !(ev matches Event::Sent(_)) ==> extends(final(self).out@, old(self).out@),
            final(self).rd == ReadState::TransportClosed ==> old(self).rd
                == ReadState::TransportClosed || ev == Event::RecvEof,
            final(self).wr == WriteState::TransportClosed ==> old(self).wr
                == WriteState::TransportClosed || ev == Event::SendClosed,
            old(self).failed matches Some(f) ==> r == Step::<()>::Failed(f) && *final(self)
                == *old(self),
            r matches Step::Done(_) ==> final(self).hs_done && final(self).failed is None
                && final(self).hs_reported@,
            (old(self).hs_done && old(self).failed is None && ev == Event::Wake && old(self).inbuf@.len() == 0) ==> r == Step::<()>::Done(()) && *final(self) == *old(self),
            final(self).failed is None ==> final(self).inbuf@.len() == 0,
            (old(self).failed is None && ev == Event::Wake && old(self).inbuf@.len() == 0
                && old(self).rd != ReadState::TransportClosed
                && old(self).wr != WriteState::TransportClosed) ==> !(r matches Step::Failed(_)),
    {
        self.apply_event(ev);
        match self.failed {
            Some(f) => {
                return Step::Failed(f);
            }
            None => {}
        }
        match self.hs_interrupt() {
            Some(st) => st,
            None => Step::Done(()),
        }
    }

    /// Hands out decrypted bytes. Drives the handshake first when needed.
    /// A zero-length result is the end of the stream, reported only once
    /// the peer's close (or the transport's end) has been observed — it is
    /// never an error and never blocks forever.
    pub fn poll_read(&mut self, ev: Event, max: usize) -> (r: Step<Vec<u8>>)
        requires
            session_wf(*old(self)),
            max > 0,
        ensures
            session_wf(*final(self)),
            evolves(*old(self), *final(self)),
            final(self).accepted == old(self).accepted,
            step_io_ok(*final(self), r),
            !(ev matches Event::Sent(_)) ==> extends(final(self).out@, old(self).out@),
            final(self).rd == ReadState::TransportClosed ==> old(self).rd
                == ReadState::TransportClosed || ev == Event::RecvEof,
            final(self).wr == WriteState::TransportClosed ==> old(self).wr
                == WriteState::TransportClosed || ev == Event::SendClosed,
            old(self).failed matches Some(f) ==> r == Step::<Vec<u8>>::Failed(f) && *final(self)
                == *old(self),
            r matches Step::Done(d) ==> final(self).delivered@ == old(self).delivered@ + d@
                && d@.len() <= max && final(self).hs_done && final(self).failed is None,
            !(r matches Step::Done(_)) ==> final(self).delivered == old(self).delivered,
            r matches Step::Done(d) ==> (d@.len() == 0 ==> final(self).rd != ReadState::Open),
            final(self).failed is None ==> final(self).inbuf@.len() == 0,
            (old(self).failed is None && old(self).hs_done && ev == Event::Wake
                && old(self).inbuf@.len() == 0 && old(self).rd != ReadState::TransportClosed)
                ==> !(r matches Step::Failed(_)),
    {
        self.apply_event(ev);
        match self.failed {
            Some(f) => {
                return Step::Failed(f);
            }
            None => {}
        }
        if !self.hs_done {
            match self.hs_interrupt() {
                Some(st) => {
                    return st;
                }
                None => {}
            }
        }
        let pr = tls::pull_plaintext(self, max);
        let r = self.read_outcome(pr);
        proof {
            match &r {
                Step::Done(v) => {
                    if v@.len() == 0 {
                        assert(self.delivered@ + v@ =~= self.delivered@);
                    }
                }
                _ => {}
            }
        }
        r
    }

    /// Maps the security layer's read report to the caller's step, value by
    /// value: decrypted bytes are handed through unchanged; a clean close is
    /// the zero-length end of the stream; an end of the transport without
    /// the peer's notification is the truncation failure; and while nothing
    /// is decided, pending ciphertext is flushed or more peer data is asked
    /// for.
    pub fn read_outcome(&mut self, pr: PlainRead) -> (r: Step<Vec<u8>>)
        requires
            session_wf(*old(self)),
            old(self).failed is None,
        ensures
            session_wf(*final(self)),
            evolves(*old(self), *final(self)),
            step_io_ok(*final(self), r),
            final(self).accepted == old(self).accepted,
            final(self).delivered == old(self).delivered,
            final(self).out == old(self).out,
            final(self).inbuf == old(self).inbuf,
            final(self).wr == old(self).wr,
            final(self).hs_done == old(self).hs_done,
            final(self).hs_reported == old(self).hs_reported,
            final(self).notify_queued == old(self).notify_queued,
            final(self).no_send_limit == old(self).no_send_limit,
            final(self).rd == ReadState::TransportClosed ==> old(self).rd
                == ReadState::TransportClosed,
            pr matches PlainRead::Data(d) ==> r == Step::<Vec<u8>>::Done(d)
                && *final(self) == *old(self),
            pr is CleanEof ==> (r matches Step::Done(v) && v@.len() == 0) && final(self).rd
                != ReadState::Open,
            pr is UncleanEof ==> (if old(self).rd == ReadState::TransportClosed {
                r == Step::<Vec<u8>>::Failed(Failure::Truncated)
            } else {
                r == Step::<Vec<u8>>::Recv
            }),
            pr is NoData ==> (if old(self).out@.len() > 0 && old(self).wr
                != WriteState::TransportClosed {
                r matches Step::Send(b) && b@ == old(self).out@
            } else if old(self).rd == ReadState::TransportClosed {
                r == Step::<Vec<u8>>::Failed(Failure::Truncated)
            } else {
                r == Step::<Vec<u8>>::Recv
            }),
            r matches Step::Failed(f) ==> final(self).failed == Some(f),
            !(r matches Step::Failed(_)) ==> final(self).failed == old(self).failed,
    {
        match pr {
            PlainRead::Data(d) => Step::Done(d),
            PlainRead::CleanEof => {
                if self.rd == ReadState::Open {
                    self.rd = ReadState::PeerClosed;
                }
                Step::Done(Vec::new())
            }
            PlainRead::UncleanEof => {
                if self.rd == ReadState::TransportClosed {
                    // The transport ended and the peer never announced a
                    // close: the stream may have been cut short.
                    self.failed = Some(Failure::Truncated);
                    Step::Failed(Failure::Truncated)
                } else {
                    // The security layer cannot see an end of stream this
                    // session has not recorded; ask for more data.
                    Step::Recv
                }
            }
            PlainRead::NoData => {
                if self.out.len() > 0 && !(self.wr == WriteState::TransportClosed) {
                    Step::Send(copy_all(&self.out))
                } else if self.rd == ReadState::TransportClosed {
                    // No clean close was seen before the transport ended.
                    self.failed = Some(Failure::Truncated);
                    Step::Failed(Failure::Truncated)
                } else {
                    Step::Recv
                }
            }
        }
    }

    /// Accepts plaintext for encryption. Drives the handshake first when
    /// needed, and flushes earlier ciphertext before accepting more. With
    /// the buffering limit removed the security layer takes the whole
    /// payload, so a finished write accepts exactly what was offered.
    /// Writing after the write direction closed is refused with a
    /// broken-pipe failure, which does not poison the session.
    pub fn poll_write(&mut self, ev: Event, data: &[u8]) -> (r: Step<usize>)
        requires
            session_wf(*old(self)),
        ensures
            session_wf(*final(self)),
            evolves(*old(self), *final(self)),
            final(self).delivered == old(self).delivered,
            step_io_ok(*final(self), r),
            !(ev matches Event::Sent(_)) ==> extends(final(self).out@, old(self).out@),
            final(self).rd == ReadState::TransportClosed ==> old(self).rd
                == ReadState::TransportClosed || ev == Event::RecvEof,
            final(self).wr == WriteState::TransportClosed ==> old(self).wr
                == WriteState::TransportClosed || ev == Event::SendClosed,
            old(self).failed matches Some(f) ==> r == Step::<usize>::Failed(f) && *final(self)
                == *old(self),
            r matches Step::Done(n) ==> n == data@.len() && final(self).accepted@ == old(self).accepted@ + data@.subrange(0, n as int) && final(self).hs_done && final(self).failed is None && final(self).wr == WriteState::Open,
            !(r matches Step::Done(_)) ==> final(self).accepted == old(self).accepted,
            (old(self).failed is None && old(self).wr != WriteState::Open && ev == Event::Wake
                && old(self).inbuf@.len() == 0) ==> r == Step::<usize>::Failed(Failure::BrokenPipe),
            final(self).failed is None ==> final(self).inbuf@.len() == 0,
            (old(self).failed is None && old(self).wr == WriteState::Open && old(self).hs_done
                && ev == Event::Wake && old(self).inbuf@.len() == 0)
                ==> !(r matches Step::Failed(_)),
            (old(self).failed is None && old(self).wr == WriteState::Open && old(self).hs_done
                && ev == Event::Wake && old(self).inbuf@.len() == 0 && old(self).out@.len() == 0)
                ==> r matches Step::Done(_),
    {
        self.apply_event(ev);
        match self.failed {
            Some(f) => {
                return Step::Failed(f);
            }
            None => {}
        }
        if !(self.wr == WriteState::Open) {
            return Step::Failed(Failure::BrokenPipe);
        }
        if !self.hs_done {
            match self.hs_interrupt() {
                Some(st) => {
                    return st;
                }
                None => {}
            }
        }
        if self.out.len() > 0 {
            return Step::Send(copy_all(&self.out));
        }
        let n = tls::send_plaintext(self, data);
        proof {
            assert(data@.subrange(0, n as int) =~= data@);
        }
        let _pulled = tls::pull_ciphertext(&mut self.conn, &mut self.out);
        Step::Done(n)
    }

    /// Pushes ciphertext buffered in the security layer out towards the
    /// transport; done once nothing is left waiting.
    pub fn poll_flush(&mut self, ev: Event) -> (r: Step<()>)
        requires
            session_wf(*old(self)),
        ensures
            session_wf(*final(self)),
            evolves(*old(self), *final(self)),
            final(self).accepted == old(self).accepted,
            final(self).delivered == old(self).delivered,
            step_io_ok(*final(self), r),
            !(ev matches Event::Sent(_)) ==> extends(final(self).out@, old(self).out@),
            final(self).rd == ReadState::TransportClosed ==> old(self).rd
                == ReadState::TransportClosed || ev == Event::RecvEof,
            final(self).wr == WriteState::TransportClosed ==> old(self).wr
                == WriteState::TransportClosed || ev == Event::SendClosed,
            old(self).failed matches Some(f) ==> r == Step::<()>::Failed(f) && *final(self)
                == *old(self),
            r matches Step::Done(_) ==> final(self).out@.len() == 0 && final(self).failed is None,
            final(self).failed is None ==> final(self).inbuf@.len() == 0,
            // Flushing consumes no plaintext and moves neither direction.
            (ev == Event::Wake && old(self).inbuf@.len() == 0) ==> final(self).rd == old(self).rd
                && final(self).wr == old(self).wr,
            (old(self).failed is None && old(self).hs_done && ev == Event::Wake
                && old(self).inbuf@.len() == 0 && old(self).wr != WriteState::TransportClosed)
                ==> !(r matches Step::Failed(_)),
    {
        self.apply_event(ev);
        match self.failed {
            Some(f) => {
                return Step::Failed(f);
            }
            None => {}
        }
        if !self.hs_done {
            match self.hs_interrupt() {
                Some(st) => {
                    return st;
                }
                None => {}
            }
        }
        if tls::wants_write(&self.conn) {
            let _pulled = tls::pull_ciphertext(&mut self.conn, &mut self.out);
        }
        if self.out.len() > 0 {
            if self.wr == WriteState::TransportClosed {
                self.failed = Some(Failure::Transport);
                return Step::Failed(Failure::Transport);
            }
            return Step::Send(copy_all(&self.out));
        }
        Step::Done(())
    }

    /// Drives the write direction to its graceful end: handshake if still
    /// owed, then the security layer's closing notification, then a full
    /// flush. Done once the notification has reached the transport; calling
    /// it again afterwards is a no-op success and never queues a second
    /// notification.
    pub fn poll_shutdown(&mut self, ev: Event) -> (r: Step<()>)
        requires
            session_wf(*old(self)),
        ensures
            session_wf(*final(self)),
            evolves(*old(self), *final(self)),
            final(self).accepted == old(self).accepted,
            final(self).delivered == old(self).delivered,
            step_io_ok(*final(self), r),
            !(ev matches Event::Sent(_)) ==> extends(final(self).out@, old(self).out@),
            final(self).rd == ReadState::TransportClosed ==> old(self).rd
                == ReadState::TransportClosed || ev == Event::RecvEof,
            final(self).wr == WriteState::TransportClosed ==> old(self).wr
                == WriteState::TransportClosed || ev == Event::SendClosed,
            old(self).failed matches Some(f) ==> r == Step::<()>::Failed(f) && *final(self)
                == *old(self),
            r matches Step::Done(_) ==> wr_rank(final(self).wr) >= 2 && final(self).out@.len()
                == 0 && final(self).failed is None,
            (old(self).failed is None && wr_rank(old(self).wr) >= 2 && ev == Event::Wake && old(self).inbuf@.len() == 0 && old(self).out@.len() == 0) ==> r == Step::<()>::Done(())
                && *final(self) == *old(self),
            final(self).failed is None ==> final(self).inbuf@.len() == 0,
            // Shutting down never touches the transport itself and leaves
            // the read direction alone.
            !(r matches Step::CloseTransport),
            (ev == Event::Wake && old(self).inbuf@.len() == 0) ==> final(self).rd == old(self).rd,
            (old(self).failed is None && old(self).hs_done && old(self).wr == WriteState::Open
                && ev == Event::Wake && old(self).inbuf@.len() == 0)
                ==> !(r matches Step::Failed(_)),
            // The closing notification reaches the transport exactly when
            // this reports done; only a transport-shutdown event can take
            // the direction further.
            ((ev == Event::Wake && old(self).inbuf@.len() == 0
                && old(self).wr != WriteState::TransportClosed) && r matches Step::Done(_))
                ==> final(self).wr == WriteState::LocallyClosed,
            // A finished shutdown means the notification really was
            // produced, unless a transport-shutdown event had already ended
            // the direction.
            r matches Step::Done(_) ==> final(self).notify_queued@ || final(self).wr
                == WriteState::TransportClosed,
    {
        self.apply_event(ev);
        match self.failed {
            Some(f) => {
                return Step::Failed(f);
            }
            None => {}
        }
        if self.wr == WriteState::LocallyClosed || self.wr == WriteState::TransportClosed {
            // The closing notification already reached the transport; only
            // leftover ciphertext, if any, is still owed.
            if self.out.len() > 0 {
                if self.wr == WriteState::TransportClosed {
                    self.failed = Some(Failure::Transport);
                    return Step::Failed(Failure::Transport);
                }
                return Step::Send(copy_all(&self.out));
            }
            return Step::Done(());
        }
        if !self.hs_done {
            match self.hs_interrupt() {
                Some(st) => {
                    return st;
                }
                None => {}
            }
        }
        if self.wr == WriteState::Open {
            tls::queue_close_notify(self);
            self.wr = WriteState::NotifyQueued;
        }
        if tls::wants_write(&self.conn) {
            let _pulled = tls::pull_ciphertext(&mut self.conn, &mut self.out);
        }
        if self.out.len() > 0 {
            return Step::Send(copy_all(&self.out));
        }
        self.wr = WriteState::LocallyClosed;
        Step::Done(())
    }

    /// The unified teardown: advances the graceful shutdown, then closes
    /// the transport's write side, then drains the read direction, until
    /// both directions have reached the transport. Safe to call repeatedly;
    /// completed stages are never re-triggered.
    pub fn poll_close(&mut self, ev: Event) -> (r: Step<()>)
        requires
            session_wf(*old(self)),
        ensures
            session_wf(*final(self)),
            evolves(*old(self), *final(self)),
            final(self).accepted == old(self).accepted,
            // Draining during teardown may discard decrypted bytes; they
            // still extend the drained history, in order.
            extends(final(self).delivered@, old(self).delivered@),
            step_io_ok(*final(self), r),
            !(ev matches Event::Sent(_)) ==> extends(final(self).out@, old(self).out@),
            final(self).rd == ReadState::TransportClosed ==> old(self).rd
                == ReadState::TransportClosed || ev == Event::RecvEof,
            final(self).wr == WriteState::TransportClosed ==> old(self).wr
                == WriteState::TransportClosed || ev == Event::SendClosed,
            old(self).failed matches Some(f) ==> r == Step::<()>::Failed(f) && *final(self)
                == *old(self),
            r matches Step::Done(_) ==> final(self).rd == ReadState::TransportClosed && final(self).wr == WriteState::TransportClosed && final(self).failed is None,
            // The transport's write side is closed only after everything,
            // the closing notification included, was produced and flushed.
            r matches Step::CloseTransport ==> final(self).out@.len() == 0 && final(self).notify_queued@,
            (old(self).failed is None && old(self).rd == ReadState::TransportClosed && old(self).wr == WriteState::TransportClosed && ev == Event::Wake && old(self).inbuf@.len()
                == 0) ==> r == Step::<()>::Done(()) && *final(self) == *old(self),
            final(self).failed is None ==> final(self).inbuf@.len() == 0,
            (old(self).failed is None && old(self).hs_done && ev == Event::Wake
                && old(self).inbuf@.len() == 0) ==> !(r matches Step::Failed(_)),
            // Once the notification is flushed, the very next thing asked
            // for is the transport's write-side shutdown.
            (old(self).failed is None && old(self).wr == WriteState::LocallyClosed
                && ev == Event::Wake && old(self).inbuf@.len() == 0 && old(self).out@.len() == 0)
                ==> r == Step::<()>::CloseTransport,
    {
        self.apply_event(ev);
        match self.failed {
            Some(f) => {
                return Step::Failed(f);
            }
            None => {}
        }
        if self.rd == ReadState::TransportClosed && self.wr == WriteState::TransportClosed {
            return Step::Done(());
        }
        if self.wr == WriteState::Open || self.wr == WriteState::NotifyQueued {
            if !self.hs_done {
                match self.hs_interrupt() {
                    Some(st) => {
                        return st;
                    }
                    None => {}
                }
            }
            if self.wr == WriteState::Open {
                tls::queue_close_notify(self);
                self.wr = WriteState::NotifyQueued;
            }
            if tls::wants_write(&self.conn) {
                let _pulled = tls::pull_ciphertext(&mut self.conn, &mut self.out);
            }
            if self.out.len() > 0 {
                return Step::Send(copy_all(&self.out));
            }
            self.wr = WriteState::LocallyClosed;
        }
        if self.out.len() > 0 && !(self.wr == WriteState::TransportClosed) {
            return Step::Send(copy_all(&self.out));
        }
        if self.wr == WriteState::LocallyClosed {
            return Step::CloseTransport;
        }
        if !(self.rd == ReadState::TransportClosed) {
            // Discard whatever plaintext has piled up: nobody will read it,
            // and the security layer's receive buffer must not fill while
            // the drain waits for the peer's end of stream.
            let _discarded = tls::pull_plaintext(self, CLOSE_DRAIN_CHUNK);
            return Step::Recv;
        }
        Step::Done(())
    }
}

/// How much decrypted plaintext one teardown round discards at most; at
/// least the security layer's fixed receive-buffer capacity.
const CLOSE_DRAIN_CHUNK: usize = 16384;

/// Law: a write accepted for only part of a payload, followed by a write of
/// the remainder, extends the accepted plaintext stream by exactly the same
/// bytes as one write of the whole payload.
pub proof fn lemma_partial_write_retry(base: Seq<u8>, data: Seq<u8>, n: int)
    requires
        0 <= n <= data.len(),
    ensures
        base + data.subrange(0, n) + data.subrange(n, data.len() as int) == base + data,
{
    assert(base + data.subrange(0, n) + data.subrange(n, data.len() as int) =~= base + data);
}

} // verus!

