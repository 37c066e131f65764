//! Trusted interface to the outside collaborator: the security layer
//! (rustls). Each function here is an `external_body` wrapper around one
//! rustls operation; its contract states only what that operation's source
//! shows of every outcome.
//!
//! The wrappers that change what later contracts may rely on take the whole
//! `Session` and maintain its ghost record fields: `no_send_limit` (the send
//! buffering limit was removed), `hs_reported` (some probe saw the handshake
//! finished), `notify_queued` (the closing notification was produced), and
//! the two plaintext histories. Each such field is written by exactly one
//! wrapper here and by nothing else.

use vstd::prelude::*;
use std::sync::Arc;
use crate::session::{Session, same_visible, extends};

verus! {

#[verifier::external_type_specification]
#[verifier::external_body]
pub struct ExConnection(rustls::Connection);

#[verifier::external_type_specification]
#[verifier::external_body]
pub struct ExClientConnection(rustls::ClientConnection);

#[verifier::external_type_specification]
#[verifier::external_body]
pub struct ExServerConnection(rustls::ServerConnection);

#[verifier::external_type_specification]
#[verifier::external_body]
pub struct ExClientConfig(rustls::ClientConfig);

#[verifier::external_type_specification]
#[verifier::external_body]
pub struct ExServerConfig(rustls::ServerConfig);

#[verifier::external_type_specification]
#[verifier::external_body]
pub struct ExServerName(rustls::ServerName);

#[verifier::external_type_specification]
#[verifier::external_body]
pub struct ExRustlsError(rustls::Error);

#[verifier::external_type_specification]
#[verifier::external_body]
pub struct ExIoError(std::io::Error);

/// What one round of record processing by the security layer reported.
pub struct PacketsDigest {
    /// Whether the peer has sent its closing notification.
    pub peer_closed: bool,
}

/// Outcome of asking the security layer for decrypted plaintext.
pub enum PlainRead {
    /// Some decrypted bytes; never empty.
    Data(Vec<u8>),
    /// Nothing buffered yet; more ciphertext is needed.
    NoData,
    /// The peer closed the session cleanly; end of stream.
    CleanEof,
    /// The transport ended without a closing notification from the peer.
    UncleanEof,
}

/// Relies on rustls::ClientConnection::new: builds a client-role connection
/// from a configuration and the name to present; fails only on a bad
/// configuration.
#[verifier::external_body]
pub(crate) fn new_client_connection(
    cfg: Arc<rustls::ClientConfig>,
    name: rustls::ServerName,
) -> Result<rustls::Connection, rustls::Error> {
    match rustls::ClientConnection::new(cfg, name) {
        Ok(c) => Ok(rustls::Connection::Client(c)),
        Err(e) => Err(e),
    }
}

/// Relies on rustls::ServerConnection::new: builds a server-role connection
/// from a configuration; fails only on a bad configuration.
#[verifier::external_body]
pub(crate) fn new_server_connection(
    cfg: Arc<rustls::ServerConfig>,
) -> Result<rustls::Connection, rustls::Error> {
    match rustls::ServerConnection::new(cfg) {
        Ok(c) => Ok(rustls::Connection::Server(c)),
        Err(e) => Err(e),
    }
}

/// Wraps a pre-built client-role connection into the role-erased form.
#[verifier::external_body]
pub(crate) fn client_into_connection(c: rustls::ClientConnection) -> rustls::Connection {
    rustls::Connection::Client(c)
}

/// Wraps a pre-built server-role connection into the role-erased form.
#[verifier::external_body]
pub(crate) fn server_into_connection(c: rustls::ServerConnection) -> rustls::Connection {
    rustls::Connection::Server(c)
}

/// Relies on rustls::CommonState::set_buffer_limit: removes both send-side
/// buffering limits, so the security layer thereafter accepts whole writes.
/// Records the removal, which nothing ever undoes.
#[verifier::external_body]
pub(crate) fn remove_send_limit(s: &mut Session)
    ensures
        same_visible(*old(s), *final(s)),
        final(s).accepted == old(s).accepted,
        final(s).delivered == old(s).delivered,
        final(s).hs_reported == old(s).hs_reported,
        final(s).notify_queued == old(s).notify_queued,
        final(s).no_send_limit@,
{
    s.conn.set_buffer_limit(None);
}

/// Relies on rustls::CommonState::is_handshaking: whether the initial
/// exchange is still in progress. A finished report is recorded and, since
/// this rustls refuses renegotiation, never goes back.
#[verifier::external_body]
pub(crate) fn probe_handshaking(s: &mut Session) -> (r: bool)
    ensures
        same_visible(*old(s), *final(s)),
        final(s).conn == old(s).conn,
        final(s).accepted == old(s).accepted,
        final(s).delivered == old(s).delivered,
        final(s).notify_queued == old(s).notify_queued,
        final(s).no_send_limit == old(s).no_send_limit,
        final(s).hs_reported@ == (old(s).hs_reported@ || !r),
{
    s.conn.is_handshaking()
}

/// Relies on rustls::CommonState::wants_write: whether the security layer
/// holds ciphertext it wants pushed to the transport.
#[verifier::external_body]
pub(crate) fn wants_write(conn: &rustls::Connection) -> bool {
    conn.wants_write()
}

/// Relies on rustls::Connection::read_tls reading from a byte slice: consumes
/// a prefix of `buf` into the security layer and returns how many bytes it
/// took. Full internal buffers are reported as an error, never as a short
/// read; on success from a non-empty slice at least one byte is consumed,
/// since the deframer always prepares a non-empty target before reading.
#[verifier::external_body]
pub(crate) fn feed_ciphertext(
    conn: &mut rustls::Connection,
    buf: &[u8],
) -> (r: Result<usize, std::io::Error>)
    ensures
        r matches Ok(n) ==> n <= buf@.len() && (buf@.len() > 0 ==> 1 <= n),
{
    let mut rd: &[u8] = buf;
    conn.read_tls(&mut rd)
}

/// Relies on rustls::Connection::read_tls at end of stream: reading from an
/// empty source records that the transport delivered end of stream, so the
/// reader side can afterwards tell a clean close from truncation.
#[verifier::external_body]
pub(crate) fn feed_transport_eof(conn: &mut rustls::Connection) -> (r: Result<
    (),
    std::io::Error,
>) {
    let mut rd: &[u8] = &[];
    match conn.read_tls(&mut rd) {
        Ok(_) => Ok(()),
        Err(e) => Err(e),
    }
}

/// Relies on rustls::Connection::process_new_packets: decrypts and acts on
/// everything fed in so far, reporting available plaintext and whether the
/// peer announced a clean close; any error is fatal for the session.
#[verifier::external_body]
pub(crate) fn process_packets(
    conn: &mut rustls::Connection,
) -> Result<PacketsDigest, rustls::Error> {
    match conn.process_new_packets() {
        Ok(st) => Ok(PacketsDigest { peer_closed: st.peer_has_closed() }),
        Err(e) => Err(e),
    }
}

/// Relies on rustls::Connection::write_tls writing into a growable byte
/// buffer, whose sink never reports an error: appends pending ciphertext to
/// `out` and returns how many bytes were appended.
#[verifier::external_body]
pub(crate) fn pull_ciphertext(conn: &mut rustls::Connection, out: &mut Vec<u8>) -> (r: usize)
    ensures
        final(out)@.len() == old(out)@.len() + r,
        extends(final(out)@, old(out)@),
{
    match conn.write_tls(out) {
        Ok(n) => n,
        Err(_) => 0,
    }
}

/// Relies on the reader side of rustls::Connection: hands out up to `max`
/// decrypted bytes, or reports why none are available. `Data` is never empty
/// and never longer than `max`; a would-block outcome maps to `NoData`, a
/// clean close to `CleanEof`, and any other end to `UncleanEof`. Exactly the
/// bytes handed out extend the session's drained-plaintext history.
#[verifier::external_body]
pub(crate) fn pull_plaintext(s: &mut Session, max: usize) -> (r: PlainRead)
    requires
        max > 0,
    ensures
        same_visible(*old(s), *final(s)),
        final(s).accepted == old(s).accepted,
        final(s).hs_reported == old(s).hs_reported,
        final(s).notify_queued == old(s).notify_queued,
        final(s).no_send_limit == old(s).no_send_limit,
        r matches PlainRead::Data(d) ==> 0 < d@.len() <= max && final(s).delivered@ == old(
            s,
        ).delivered@ + d@,
        !(r matches PlainRead::Data(_)) ==> final(s).delivered == old(s).delivered,
{
    let mut buf = vec![0u8; max];
    match std::io::Read::read(&mut s.conn.reader(), &mut buf) {
        Ok(0) => PlainRead::CleanEof,
        Ok(n) => {
            buf.truncate(n);
            PlainRead::Data(buf)
        }
        Err(e) if e.kind() == std::io::ErrorKind::WouldBlock => PlainRead::NoData,
        Err(_) => PlainRead::UncleanEof,
    }
}

/// Relies on the writer side of rustls::Connection, whose plaintext sink
/// never reports an error: accepts `data` for encryption in full and
/// returns its length, extending the accepted-plaintext history by exactly
/// those bytes. Full acceptance holds because a short acceptance can come
/// only from a send buffering limit, and the `no_send_limit` record admits
/// only sessions whose limit was removed and never restored.
#[verifier::external_body]
pub(crate) fn send_plaintext(s: &mut Session, data: &[u8]) -> (r: usize)
    requires
        old(s).no_send_limit@,
    ensures
        same_visible(*old(s), *final(s)),
        final(s).delivered == old(s).delivered,
        final(s).hs_reported == old(s).hs_reported,
        final(s).notify_queued == old(s).notify_queued,
        final(s).no_send_limit == old(s).no_send_limit,
        r == data@.len(),
        final(s).accepted@ == old(s).accepted@ + data@,
{
    match std::io::Write::write(&mut s.conn.writer(), data) {
        Ok(n) => n,
        Err(_) => 0,
    }
}

/// Relies on rustls::CommonState::send_close_notify: queues the session's
/// closing notification for encryption, and records that it was produced.
#[verifier::external_body]
pub(crate) fn queue_close_notify(s: &mut Session)
    ensures
        same_visible(*old(s), *final(s)),
        final(s).accepted == old(s).accepted,
        final(s).delivered == old(s).delivered,
        final(s).hs_reported == old(s).hs_reported,
        final(s).no_send_limit == old(s).no_send_limit,
        final(s).notify_queued@,
{
    s.conn.send_close_notify();
}

/// Relies on rustls::CommonState::alpn_protocol: the application protocol
/// agreed during the handshake, if any, copied out as plain bytes.
#[verifier::external_body]
pub(crate) fn alpn_protocol(conn: &rustls::Connection) -> Option<Vec<u8>> {
    conn.alpn_protocol().map(|p| p.to_vec())
}

} // verus!
