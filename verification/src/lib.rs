//! A duplex, encrypted byte stream: a reliable transport wrapped with a
//! negotiated security layer, driven by a non-blocking state machine.
//!
//! The session engine here is poll-style and event-driven: every operation
//! either completes, reports a failure, or asks its caller to perform one
//! transport action (receive, send, or shut down the write side) and to come
//! back with the outcome. The security layer itself is an outside
//! collaborator, reached through a small trusted interface; everything that
//! decides what happens next is verified.

pub mod failure;
pub mod state;
pub mod tls;
pub mod session;
pub mod stream;
pub mod split;
