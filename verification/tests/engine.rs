use tls_stream::failure::Failure;
use tls_stream::session::{Event, Session, Step, DropPlan};

fn certified_key() -> (Vec<u8>, Vec<u8>) {
    let ck = rcgen::generate_simple_self_signed(vec!["localhost".to_string()]).unwrap();
    let cert_der = ck.cert.der().as_ref().to_vec();
    let key_der = ck.key_pair.serialize_der();
    (cert_der, key_der)
}

fn make_pair(alpn: Option<Vec<Vec<u8>>>) -> (Session, Session) {
    let (cert_der, key_der) = certified_key();
    let mut server_config = rustls::ServerConfig::builder()
        .with_safe_defaults()
        .with_no_client_auth()
        .with_single_cert(
            vec![rustls::Certificate(cert_der.clone())],
            rustls::PrivateKey(key_der),
        )
        .unwrap();
    let mut roots = rustls::RootCertStore::empty();
    roots.add(&rustls::Certificate(cert_der)).unwrap();
    let mut client_config = rustls::ClientConfig::builder()
        .with_safe_defaults()
        .with_root_certificates(roots)
        .with_no_client_auth();
    if let Some(protos) = alpn {
        server_config.alpn_protocols = protos.clone();
        client_config.alpn_protocols = protos;
    }
    let server = Session::new_server(std::sync::Arc::new(server_config)).unwrap();
    let name: rustls::ServerName = "localhost".try_into().unwrap();
    let client = Session::new_client(std::sync::Arc::new(client_config), name).unwrap();
    (client, server)
}

enum Outcome<T> {
    Finished(T),
    Broke(Failure),
    Starved,
}

/// Runs one poll-style operation against in-memory transport queues until
/// it finishes, fails, or needs peer bytes that are not there yet.
fn run_op<T>(
    sess: &mut Session,
    inbox: &mut Vec<u8>,
    inbox_closed: bool,
    outbox: &mut Vec<u8>,
    outbox_shut: &mut bool,
    mut call: impl FnMut(&mut Session, Event) -> Step<T>,
) -> Outcome<T> {
    let mut ev = Event::Wake;
    for _ in 0..1000 {
        match call(sess, ev) {
            Step::Done(t) => return Outcome::Finished(t),
            Step::Failed(f) => return Outcome::Broke(f),
            Step::Recv => {
                if !inbox.is_empty() {
                    ev = Event::Received(std::mem::take(inbox));
                } else if inbox_closed {
                    ev = Event::RecvEof;
                } else {
                    return Outcome::Starved;
                }
            }
            Step::Send(bytes) => {
                let n = bytes.len();
                outbox.extend_from_slice(&bytes);
                ev = Event::Sent(n);
            }
            Step::CloseTransport => {
                *outbox_shut = true;
                ev = Event::SendClosed;
            }
        }
    }
    panic!("operation did not settle");
}

struct Net {
    c2s: Vec<u8>,
    s2c: Vec<u8>,
    c2s_shut: bool,
    s2c_shut: bool,
}

impl Net {
    fn new() -> Net {
        Net { c2s: Vec::new(), s2c: Vec::new(), c2s_shut: false, s2c_shut: false }
    }
}

fn handshake_both(client: &mut Session, server: &mut Session, net: &mut Net) {
    for _ in 0..100 {
        let c = run_op(client, &mut net.s2c, net.s2c_shut, &mut net.c2s, &mut net.c2s_shut, |s, e| {
            s.poll_handshake(e)
        });
        let s = run_op(server, &mut net.c2s, net.c2s_shut, &mut net.s2c, &mut net.s2c_shut, |s, e| {
            s.poll_handshake(e)
        });
        if matches!(c, Outcome::Finished(())) && matches!(s, Outcome::Finished(())) {
            return;
        }
        if let Outcome::Broke(f) = c {
            panic!("client handshake failed: {:?}", f);
        }
        if let Outcome::Broke(f) = s {
            panic!("server handshake failed: {:?}", f);
        }
    }
    panic!("handshake did not complete");
}

fn write_all(sess: &mut Session, inbox: &mut Vec<u8>, inbox_closed: bool, outbox: &mut Vec<u8>, outbox_shut: &mut bool, data: &[u8]) {
    let mut from = 0usize;
    while from < data.len() {
        let chunk = data[from..].to_vec();
        match run_op(sess, inbox, inbox_closed, outbox, outbox_shut, |s, e| s.poll_write(e, &chunk)) {
            Outcome::Finished(n) => {
                assert!(n > 0, "write made no progress");
                from += n;
            }
            _ => panic!("write failed"),
        }
    }
    match run_op(sess, inbox, inbox_closed, outbox, outbox_shut, |s, e| s.poll_flush(e)) {
        Outcome::Finished(()) => {}
        _ => panic!("flush failed"),
    }
}

fn read_exactly(sess: &mut Session, inbox: &mut Vec<u8>, inbox_closed: bool, outbox: &mut Vec<u8>, outbox_shut: &mut bool, want: usize) -> Vec<u8> {
    let mut got: Vec<u8> = Vec::new();
    for _ in 0..100 {
        if got.len() >= want {
            break;
        }
        match run_op(sess, inbox, inbox_closed, outbox, outbox_shut, |s, e| s.poll_read(e, 4096)) {
            Outcome::Finished(d) => {
                if d.is_empty() {
                    panic!("early eof");
                }
                got.extend_from_slice(&d);
            }
            Outcome::Broke(_) => panic!("read failed"),
            Outcome::Starved => panic!("no data arrived"),
        }
    }
    assert_eq!(got.len(), want);
    got
}

#[test]
fn test_client_server() {
    let (mut client, mut server) = make_pair(None);
    let mut net = Net::new();
    handshake_both(&mut client, &mut server, &mut net);

    write_all(&mut server, &mut net.c2s, false, &mut net.s2c, &mut net.s2c_shut, b"hello?");
    let got = read_exactly(&mut client, &mut net.s2c, false, &mut net.c2s, &mut net.c2s_shut, 6);
    assert_eq!(got.as_slice(), b"hello?");

    write_all(&mut client, &mut net.s2c, false, &mut net.c2s, &mut net.c2s_shut, b"hello!");
    let got = read_exactly(&mut server, &mut net.c2s, false, &mut net.s2c, &mut net.s2c_shut, 6);
    assert_eq!(got.as_slice(), b"hello!");
}

#[test]
fn test_server_shutdown_after_handshake() {
    let (mut client, mut server) = make_pair(None);
    let mut net = Net::new();
    handshake_both(&mut client, &mut server, &mut net);

    match run_op(&mut server, &mut net.c2s, false, &mut net.s2c, &mut net.s2c_shut, |s, e| {
        s.poll_shutdown(e)
    }) {
        Outcome::Finished(()) => {}
        _ => panic!("shutdown failed"),
    }

    // A write after the local close must be refused with a broken pipe.
    let res = run_op(&mut server, &mut net.c2s, false, &mut net.s2c, &mut net.s2c_shut, |s, e| {
        s.poll_write(e, b"hello?")
    });
    assert!(matches!(res, Outcome::Broke(Failure::BrokenPipe)), "should be shut down");

    // The client, reading past the close, sees a zero-length result — an
    // end of stream, not the bytes it hoped for ("early eof" for a caller
    // that expected six more bytes).
    let res = run_op(&mut client, &mut net.s2c, false, &mut net.c2s, &mut net.c2s_shut, |s, e| {
        s.poll_read(e, 4096)
    });
    match res {
        Outcome::Finished(d) => assert!(d.is_empty(), "expected end of stream"),
        _ => panic!("expected a clean end of stream"),
    }
}

#[test]
fn test_handshake_idempotent() {
    let (mut client, mut server) = make_pair(None);
    let mut net = Net::new();
    handshake_both(&mut client, &mut server, &mut net);

    // Handshake again: a no-op success on the very first poll.
    assert!(matches!(client.poll_handshake(Event::Wake), Step::Done(())));
    assert!(matches!(server.poll_handshake(Event::Wake), Step::Done(())));
}

#[test]
fn test_partial_write_equals_whole_write() {
    let (mut client, mut server) = make_pair(None);
    let mut net = Net::new();
    handshake_both(&mut client, &mut server, &mut net);

    // The payload delivered in two writes...
    write_all(&mut client, &mut net.s2c, false, &mut net.c2s, &mut net.c2s_shut, b"hel");
    write_all(&mut client, &mut net.s2c, false, &mut net.c2s, &mut net.c2s_shut, b"lo!");
    let got = read_exactly(&mut server, &mut net.c2s, false, &mut net.s2c, &mut net.s2c_shut, 6);
    // ...is what one write of the whole payload would have delivered.
    assert_eq!(got.as_slice(), b"hello!");
}

#[test]
fn test_linger_close_gives_peer_clean_end() {
    let (mut client, mut server) = make_pair(None);
    let mut net = Net::new();
    handshake_both(&mut client, &mut server, &mut net);

    // The client handle is being discarded with both directions open:
    // a close is owed.
    assert_eq!(client.drop_plan(), DropPlan::AttemptClose);

    // The background driver keeps the close moving until the transport is
    // done on both directions; here the peer half-closes in response.
    let mut ev = Event::Wake;
    let mut rounds = 0;
    loop {
        rounds += 1;
        assert!(rounds < 1000, "close did not settle");
        match client.poll_close(ev) {
            Step::Done(()) => break,
            Step::Failed(_) => panic!("close failed"),
            Step::Recv => {
                if !net.s2c.is_empty() {
                    ev = Event::Received(std::mem::take(&mut net.s2c));
                } else {
                    // The peer answers the close by half-closing in turn.
                    ev = Event::RecvEof;
                }
            }
            Step::Send(bytes) => {
                let n = bytes.len();
                net.c2s.extend_from_slice(&bytes);
                ev = Event::Sent(n);
            }
            Step::CloseTransport => {
                net.c2s_shut = true;
                ev = Event::SendClosed;
            }
        }
    }
    assert_eq!(client.drop_plan(), DropPlan::NothingToDo);

    // The peer observes a clean close notification, not an abrupt reset:
    // its read ends with a zero-length result instead of a failure.
    let res = run_op(&mut server, &mut net.c2s, net.c2s_shut, &mut net.s2c, &mut net.s2c_shut, |s, e| {
        s.poll_read(e, 4096)
    });
    match res {
        Outcome::Finished(d) => assert!(d.is_empty(), "expected a clean end of stream"),
        _ => panic!("peer saw an abrupt end"),
    }
}

/// Like `run_op`, but the transport takes at most five bytes per send and
/// hands over at most seven bytes per receive, so every partial-progress
/// path in the engine's buffering is exercised.
fn run_op_trickle<T>(
    sess: &mut Session,
    inbox: &mut Vec<u8>,
    outbox: &mut Vec<u8>,
    mut call: impl FnMut(&mut Session, Event) -> Step<T>,
) -> Outcome<T> {
    let mut ev = Event::Wake;
    for _ in 0..10000 {
        match call(sess, ev) {
            Step::Done(t) => return Outcome::Finished(t),
            Step::Failed(f) => return Outcome::Broke(f),
            Step::Recv => {
                if inbox.is_empty() {
                    return Outcome::Starved;
                }
                let k = inbox.len().min(7);
                let chunk: Vec<u8> = inbox.drain(..k).collect();
                ev = Event::Received(chunk);
            }
            Step::Send(bytes) => {
                let k = bytes.len().min(5);
                outbox.extend_from_slice(&bytes[..k]);
                ev = Event::Sent(k);
            }
            Step::CloseTransport => {
                ev = Event::SendClosed;
            }
        }
    }
    panic!("operation did not settle");
}

#[test]
fn test_trickling_transport_still_converges() {
    let (mut client, mut server) = make_pair(None);
    let mut c2s: Vec<u8> = Vec::new();
    let mut s2c: Vec<u8> = Vec::new();

    for _ in 0..1000 {
        let c = run_op_trickle(&mut client, &mut s2c, &mut c2s, |s, e| s.poll_handshake(e));
        let s = run_op_trickle(&mut server, &mut c2s, &mut s2c, |s, e| s.poll_handshake(e));
        if matches!(c, Outcome::Finished(())) && matches!(s, Outcome::Finished(())) {
            break;
        }
        if matches!(c, Outcome::Broke(_)) || matches!(s, Outcome::Broke(_)) {
            panic!("handshake failed over trickling transport");
        }
    }

    // One whole payload, squeezed through five-byte sends and seven-byte
    // receives, arrives intact.
    match run_op_trickle(&mut client, &mut s2c, &mut c2s, |s, e| s.poll_write(e, b"hello?")) {
        Outcome::Finished(n) => assert_eq!(n, 6),
        _ => panic!("write failed"),
    }
    match run_op_trickle(&mut client, &mut s2c, &mut c2s, |s, e| s.poll_flush(e)) {
        Outcome::Finished(()) => {}
        _ => panic!("flush failed"),
    }
    let mut got: Vec<u8> = Vec::new();
    while got.len() < 6 {
        match run_op_trickle(&mut server, &mut c2s, &mut s2c, |s, e| s.poll_read(e, 4)) {
            Outcome::Finished(d) => {
                assert!(!d.is_empty());
                assert!(d.len() <= 4);
                got.extend_from_slice(&d);
            }
            _ => panic!("read failed"),
        }
    }
    assert_eq!(got.as_slice(), b"hello?");
}

#[test]
fn test_eof_is_repeatable() {
    let (mut client, mut server) = make_pair(None);
    let mut net = Net::new();
    handshake_both(&mut client, &mut server, &mut net);

    match run_op(&mut server, &mut net.c2s, false, &mut net.s2c, &mut net.s2c_shut, |s, e| {
        s.poll_shutdown(e)
    }) {
        Outcome::Finished(()) => {}
        _ => panic!("shutdown failed"),
    }

    // Every read after the peer's close reports the same quiet end of
    // stream; none of them blocks or fails.
    for _ in 0..3 {
        match run_op(&mut client, &mut net.s2c, false, &mut net.c2s, &mut net.c2s_shut, |s, e| {
            s.poll_read(e, 64)
        }) {
            Outcome::Finished(d) => assert!(d.is_empty()),
            _ => panic!("expected a clean end of stream"),
        }
    }
}

#[test]
fn test_pre_built_connections_handshake() {
    let (cert_der, key_der) = certified_key();
    let server_config = rustls::ServerConfig::builder()
        .with_safe_defaults()
        .with_no_client_auth()
        .with_single_cert(
            vec![rustls::Certificate(cert_der.clone())],
            rustls::PrivateKey(key_der),
        )
        .unwrap();
    let mut roots = rustls::RootCertStore::empty();
    roots.add(&rustls::Certificate(cert_der)).unwrap();
    let client_config = rustls::ClientConfig::builder()
        .with_safe_defaults()
        .with_root_certificates(roots)
        .with_no_client_auth();

    // The caller configured the security-layer connections itself.
    let name: rustls::ServerName = "localhost".try_into().unwrap();
    let client_conn =
        rustls::ClientConnection::new(std::sync::Arc::new(client_config), name).unwrap();
    let server_conn = rustls::ServerConnection::new(std::sync::Arc::new(server_config)).unwrap();

    let mut client = Session::from_client_connection(client_conn);
    let mut server = Session::from_server_connection(server_conn);
    let mut net = Net::new();
    handshake_both(&mut client, &mut server, &mut net);

    write_all(&mut client, &mut net.s2c, false, &mut net.c2s, &mut net.c2s_shut, b"ready");
    let got = read_exactly(&mut server, &mut net.c2s, false, &mut net.s2c, &mut net.s2c_shut, 5);
    assert_eq!(got.as_slice(), b"ready");
}

#[test]
fn test_alpn_negotiation() {
    let (mut client, mut server) = make_pair(Some(vec![b"h2".to_vec()]));
    let mut net = Net::new();
    assert_eq!(client.alpn_protocol(), None);
    handshake_both(&mut client, &mut server, &mut net);
    assert_eq!(client.alpn_protocol(), Some(b"h2".to_vec()));
    assert_eq!(server.alpn_protocol(), Some(b"h2".to_vec()));
}

#[test]
fn test_unclean_end_is_a_truncation_failure() {
    let (mut client, mut server) = make_pair(None);
    let mut net = Net::new();
    handshake_both(&mut client, &mut server, &mut net);

    // The server sends data and then the transport just ends: no closing
    // notification. The data still arrives...
    write_all(&mut server, &mut net.c2s, false, &mut net.s2c, &mut net.s2c_shut, b"data!");
    let got = read_exactly(&mut client, &mut net.s2c, false, &mut net.c2s, &mut net.c2s_shut, 5);
    assert_eq!(got.as_slice(), b"data!");

    // ...but the cut-off end is an error, never a quiet end of stream.
    let res = run_op(&mut client, &mut net.s2c, true, &mut net.c2s, &mut net.c2s_shut, |s, e| {
        s.poll_read(e, 64)
    });
    assert!(matches!(res, Outcome::Broke(Failure::Truncated)));

    // And it poisons the session like any fatal failure.
    assert!(matches!(client.poll_write(Event::Wake, b"x"), Step::Failed(Failure::Truncated)));
}

#[test]
fn test_garbage_is_a_protocol_failure_and_sticks() {
    let (_, mut server) = make_pair(None);
    let junk = vec![0x17u8, 0x03, 0x03, 0x00, 0x04, 0xde, 0xad, 0xbe, 0xef];
    let res = server.poll_handshake(Event::Received(junk));
    assert!(matches!(res, Step::Failed(Failure::Protocol)));
    // The same failure is reported by every later operation.
    assert!(matches!(server.poll_read(Event::Wake, 16), Step::Failed(Failure::Protocol)));
    assert!(matches!(server.poll_write(Event::Wake, b"x"), Step::Failed(Failure::Protocol)));
    assert!(matches!(server.poll_close(Event::Wake), Step::Failed(Failure::Protocol)));
}

#[test]
fn test_transport_error_is_fatal_and_sticks() {
    let (mut client, _) = make_pair(None);
    let res = client.poll_handshake(Event::TransportFailed);
    assert!(matches!(res, Step::Failed(Failure::Transport)));
    assert!(matches!(client.poll_flush(Event::Wake), Step::Failed(Failure::Transport)));
    assert!(matches!(client.poll_shutdown(Event::Wake), Step::Failed(Failure::Transport)));
}

#[test]
fn test_shutdown_is_idempotent() {
    let (mut client, mut server) = make_pair(None);
    let mut net = Net::new();
    handshake_both(&mut client, &mut server, &mut net);

    match run_op(&mut server, &mut net.c2s, false, &mut net.s2c, &mut net.s2c_shut, |s, e| {
        s.poll_shutdown(e)
    }) {
        Outcome::Finished(()) => {}
        _ => panic!("shutdown failed"),
    }
    // Shutting down again finishes at once and queues nothing new.
    let before = net.s2c.len();
    assert!(matches!(server.poll_shutdown(Event::Wake), Step::Done(())));
    assert_eq!(net.s2c.len(), before);
}
