//! Socket validation, descriptor non-ownership, partial I/O, and the
//! handshake driver's decision table.

use jimmies::context::CaData;
use jimmies::context::SocketArg;
use jimmies::create_default_context;
use jimmies::errors::TlsError;
use jimmies::socket::next_action;
use jimmies::socket::peer_cert_decision;
use jimmies::socket::version_name;
use jimmies::socket::HsAction;
use jimmies::stream::BorrowedTcpListener;
use jimmies::stream::BorrowedTcpStream;
use jimmies::stream::Transport;

/// A scripted transport: accepts at most `cap` bytes per send, records
/// everything sent, and replays queued receive chunks.
struct Scripted {
    cap: usize,
    sent: Vec<u8>,
    send_calls: usize,
    recv_calls: usize,
    incoming: Vec<Vec<u8>>,
}

impl Scripted {
    fn new(cap: usize) -> Scripted {
        Scripted { cap, sent: Vec::new(), send_calls: 0, recv_calls: 0, incoming: Vec::new() }
    }
}

impl Transport for Scripted {
    fn send(&mut self, data: &[u8]) -> Result<usize, TlsError> {
        self.send_calls += 1;
        let n = if data.len() < self.cap { data.len() } else { self.cap };
        self.sent.extend_from_slice(&data[..n]);
        Ok(n)
    }

    fn recv(&mut self, buf: &mut Vec<u8>) -> Result<usize, TlsError> {
        self.recv_calls += 1;
        if self.incoming.is_empty() {
            return Ok(0);
        }
        let chunk = self.incoming.remove(0);
        let n = if chunk.len() < buf.len() { chunk.len() } else { buf.len() };
        buf[..n].copy_from_slice(&chunk[..n]);
        Ok(n)
    }

    fn flush(&mut self) -> Result<(), TlsError> {
        Ok(())
    }
}

const UDP_PROTO: i32 = 17;

#[test]
fn udp_stream_is_rejected() {
    let t = Scripted::new(64);
    match BorrowedTcpStream::from_external(UDP_PROTO, 5, t) {
        Err(TlsError::InvalidSocketKind) => {}
        _ => panic!("a UDP-family socket must be rejected"),
    }
}

#[test]
fn udp_listener_is_rejected_before_any_handshake() {
    let mut ctx = create_default_context(None, None, None).unwrap();
    let r = ctx.wrap_socket::<Scripted>(SocketArg::Listener, UDP_PROTO, 5, true, None, true);
    match r {
        Err(TlsError::InvalidSocketKind) => {}
        _ => panic!("a UDP-family listener must be rejected"),
    }
}

#[test]
fn hostname_required_for_client() {
    let mut ctx = create_default_context(None, None, None).unwrap();
    let t = Scripted::new(64);
    let r = ctx.wrap_socket(SocketArg::Stream(t), 6, 5, false, None, true);
    match r {
        Err(TlsError::InvalidArgument) => {}
        _ => panic!("a client without a server hostname must be rejected"),
    }
}

#[test]
fn invalid_hostname_is_rejected_before_io() {
    let mut ctx = create_default_context(None, None, None).unwrap();
    let t = Scripted::new(64);
    let r = ctx.wrap_socket(SocketArg::Stream(t), 6, 5, false, Some("not a hostname".to_string()), true);
    match r {
        Err(TlsError::InvalidArgument) => {}
        _ => panic!("an invalid DNS name must be rejected"),
    }
}

#[test]
fn descriptor_survives_release() {
    let t = Scripted::new(64);
    let stream = BorrowedTcpStream::from_external(6, 42, t).unwrap();
    assert_eq!(stream.fd(), 42);
    let (mut t, fd) = stream.release();
    assert_eq!(fd, 42);
    // The transport is untouched and still usable by the caller.
    assert_eq!(t.send(b"hi").unwrap(), 2);
    assert_eq!(t.sent.as_slice(), b"hi");
}

#[test]
fn listener_descriptor_and_accept_fd() {
    let listener = BorrowedTcpListener::from_external(6, 7).unwrap();
    assert_eq!(listener.fd(), 7);
    let t = Scripted::new(64);
    let conn = listener.accept(t, 13);
    // The accepted connection reports its own descriptor, not the
    // listener's.
    assert_eq!(conn.fd(), 13);
    assert_eq!(listener.release(), 7);
}

#[test]
fn short_write_returns_short_count() {
    let t = Scripted::new(3);
    let mut stream = BorrowedTcpStream::from_external(6, 9, t).unwrap();
    let n = stream.write(b"abcdefgh").unwrap();
    assert_eq!(n, 3);
}

#[test]
fn write_all_loops_until_done() {
    let t = Scripted::new(3);
    let mut stream = BorrowedTcpStream::from_external(6, 9, t).unwrap();
    let n = stream.write_all(b"abcdefgh").unwrap();
    assert_eq!(n, 8);
    let (t, _) = stream.release();
    assert_eq!(t.sent.as_slice(), b"abcdefgh");
    assert!(t.send_calls >= 3);
}

#[test]
fn write_priority_tie_break() {
    // Both wanted at once: the write wins.
    assert_eq!(next_action(true, true, true), HsAction::Write);
    assert_eq!(next_action(true, true, false), HsAction::Write);
    assert_eq!(next_action(true, false, true), HsAction::Read);
}

#[test]
fn driver_stops_exactly_on_completion() {
    assert_eq!(next_action(false, true, true), HsAction::Done);
    assert_eq!(next_action(false, false, false), HsAction::Done);
    assert_ne!(next_action(true, true, false), HsAction::Done);
    assert_ne!(next_action(true, false, true), HsAction::Done);
}

#[test]
fn peer_cert_query_rules() {
    match peer_cert_decision(true, None, true) {
        Err(TlsError::InvalidState) => {}
        _ => panic!("pre-handshake query must be invalid"),
    }
    assert_eq!(peer_cert_decision(false, None, true).unwrap(), None);
    assert_eq!(peer_cert_decision(false, Some(Vec::new()), true).unwrap(), None);
    let chain = vec![vec![1u8, 2, 3], vec![9u8]];
    assert_eq!(peer_cert_decision(false, Some(chain.clone()), true).unwrap(), Some(vec![1u8, 2, 3]));
    match peer_cert_decision(false, Some(chain), false) {
        Err(TlsError::NotImplemented) => {}
        _ => panic!("structured decoding is unimplemented"),
    }
}

#[test]
fn version_names_match_convention() {
    assert_eq!(version_name(0x0301), "TLSv1");
    assert_eq!(version_name(0x0302), "TLSv1.1");
    assert_eq!(version_name(0x0303), "TLSv1.2");
    assert_eq!(version_name(0x0304), "TLSv1.3");
    assert_eq!(version_name(0x0300), "SSLv3");
    assert_eq!(version_name(0x1234), "Unknown");
}

#[test]
fn engine_rejection_maps_to_protocol_error() {
    let e = rustls::TLSError::General("boom".to_string());
    assert_eq!(TlsError::new(e), TlsError::Protocol);
    assert!(!TlsError::Protocol.message().is_empty());
    assert!(!TlsError::InvalidSocketKind.message().is_empty());
}

#[test]
fn cadata_text_client_pre_handshake_introspection() {
    let ck = rcgen::generate_simple_self_signed(vec!["localhost".to_string()]).unwrap();
    let pem = ck.cert.pem();
    let mut ctx = create_default_context(None, None, Some(CaData::Text(pem))).unwrap();
    let t = Scripted::new(64);
    let r = ctx
        .wrap_socket(SocketArg::Stream(t), 6, 21, false, Some("localhost".to_string()), false)
        .unwrap();
    let sock = match r {
        jimmies::context::WrapOutcome::Socket(s) => s,
        _ => panic!("no CA file is configured, so no file fetch is needed"),
    };
    assert_eq!(sock.fileno(), 21);
    assert_eq!(sock.server_hostname(), Some(&"localhost".to_string()));
    // The handshake has not run: certificate queries are invalid, and no
    // version or suite has been negotiated.
    match sock.get_peer_cert(true) {
        Err(TlsError::InvalidState) => {}
        _ => panic!("peer-certificate query before the handshake must fail"),
    }
    assert_eq!(sock.version(), None);
    assert!(sock.cipher().is_none());
    assert_eq!(sock.selected_alpn_protocol(), None);
    assert_eq!(sock.selected_npn_protocol(), None);
    match sock.compression() {
        Err(TlsError::NotImplemented) => {}
        _ => panic!("compression introspection is unimplemented"),
    }
}

#[test]
fn recv_into_buffer_shape_is_validated() {
    let ck = rcgen::generate_simple_self_signed(vec!["localhost".to_string()]).unwrap();
    let mut ctx = create_default_context(None, None, Some(CaData::Text(ck.cert.pem()))).unwrap();
    let t = Scripted::new(64);
    let r = ctx
        .wrap_socket(SocketArg::Stream(t), 6, 21, false, Some("localhost".to_string()), false)
        .unwrap();
    let mut sock = match r {
        jimmies::context::WrapOutcome::Socket(s) => s,
        _ => panic!("no file fetch expected"),
    };
    let mut buf = vec![0u8; 16];
    match sock.recv_into(&mut buf, true, 1) {
        Err(TlsError::InvalidArgument) => {}
        _ => panic!("a readonly buffer must be rejected"),
    }
    match sock.recv_into(&mut buf, false, 2) {
        Err(TlsError::InvalidArgument) => {}
        _ => panic!("a multi-dimensional buffer must be rejected"),
    }
}
