//! The stream handle: a single-owner façade over one session.
//!
//! The handle stays poll-style and transport-free: the embedding program
//! owns the transport, drives the session through its `Event`/`Step`
//! interface, supplies wake notifications, and performs the close-on-drop
//! duty that `drop_plan` prescribes.

use vstd::prelude::*;
use std::sync::Arc;
use crate::failure::Failure;
use crate::session::{Session, DropPlan, session_fresh};

verus! {

/// A secured duplex stream: the verified session state machine, ready to
/// be driven over whatever transport its owner holds.
pub struct TlsStream {
    /// The verified session state machine.
    pub session: Session,
}

impl TlsStream {
    /// Client-role stream; a rejected configuration is reported as a
    /// protocol failure rather than a panic.
    pub fn new_client_side(
        tls_config: Arc<rustls::ClientConfig>,
        server_name: rustls::ServerName,
    ) -> (r: Result<TlsStream, Failure>)
        ensures
            r matches Ok(s) ==> session_fresh(s.session),
            r matches Err(f) ==> f == Failure::Protocol,
    {
        match Session::new_client(tls_config, server_name) {
            Ok(session) => Ok(TlsStream { session }),
            Err(f) => Err(f),
        }
    }

    /// Client-role stream from a connection the caller configured itself.
    pub fn new_client_side_from(connection: rustls::ClientConnection) -> (r: TlsStream)
        ensures
            session_fresh(r.session),
    {
        TlsStream { session: Session::from_client_connection(connection) }
    }

    /// Server-role stream.
    pub fn new_server_side(tls_config: Arc<rustls::ServerConfig>) -> (r: Result<
        TlsStream,
        Failure,
    >)
        ensures
            r matches Ok(s) ==> session_fresh(s.session),
            r matches Err(f) ==> f == Failure::Protocol,
    {
        match Session::new_server(tls_config) {
            Ok(session) => Ok(TlsStream { session }),
            Err(f) => Err(f),
        }
    }

    /// Server-role stream from a connection the caller configured itself.
    pub fn new_server_side_from(connection: rustls::ServerConnection) -> (r: TlsStream)
        ensures
            session_fresh(r.session),
    {
        TlsStream { session: Session::from_server_connection(connection) }
    }

    /// The security-layer connection, for inspection.
    pub fn get_ref(&self) -> &rustls::Connection {
        &self.session.conn
    }

    /// The application protocol agreed during the handshake, if any: a
    /// pure read that touches no session state.
    pub fn get_alpn_protocol(&self) -> Option<Vec<u8>> {
        self.session.alpn_protocol()
    }

    /// What a discarded handle still owes its peer: nothing once both
    /// directions reached the transport, otherwise a close attempt.
    pub fn drop_plan(&self) -> (r: DropPlan)
        ensures
            (r == DropPlan::NothingToDo) == (self.session.rd
                == crate::state::ReadState::TransportClosed && self.session.wr
                == crate::state::WriteState::TransportClosed),
    {
        self.session.drop_plan()
    }
}

} // verus!
