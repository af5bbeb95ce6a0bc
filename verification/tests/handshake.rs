//! Full handshakes over in-memory transports: a library client against an
//! embedded rustls server, and a library server (taken from a listener's
//! accept) against an embedded rustls client.

use std::sync::Arc;

use jimmies::context::CaData;
use jimmies::context::SocketArg;
use jimmies::context::WrapOutcome;
use jimmies::create_default_context;
use jimmies::errors::TlsError;
use jimmies::stream::Transport;

use rustls::Session;

/// A CA certificate, and a leaf for "localhost" signed by it, with the
/// leaf's key — everything the embedded peers need.
struct TestPki {
    ca_pem: String,
    leaf_der: Vec<u8>,
    leaf_key_der: Vec<u8>,
}

fn make_pki() -> TestPki {
    let mut ca_params = rcgen::CertificateParams::new(Vec::<String>::new()).unwrap();
    ca_params.is_ca = rcgen::IsCa::Ca(rcgen::BasicConstraints::Unconstrained);
    let ca_key = rcgen::KeyPair::generate().unwrap();
    let ca = rcgen::CertifiedIssuer::self_signed(ca_params, ca_key).unwrap();

    let leaf_key = rcgen::KeyPair::generate().unwrap();
    let leaf_params = rcgen::CertificateParams::new(vec!["localhost".to_string()]).unwrap();
    let leaf = leaf_params.signed_by(&leaf_key, &ca).unwrap();

    TestPki {
        ca_pem: ca.pem(),
        leaf_der: leaf.der().as_ref().to_vec(),
        leaf_key_der: leaf_key.serialize_der(),
    }
}

fn server_config(pki: &TestPki) -> Arc<rustls::ServerConfig> {
    let mut cfg = rustls::ServerConfig::new(rustls::NoClientAuth::new());
    cfg.set_single_cert(
        vec![rustls::Certificate(pki.leaf_der.clone())],
        rustls::PrivateKey(pki.leaf_key_der.clone()),
    )
    .unwrap();
    Arc::new(cfg)
}

/// An in-memory transport with a whole rustls server behind it: bytes the
/// session sends are fed to the server, which echoes any plaintext back;
/// bytes the session reads come from the server's own output.
struct ServerPipe {
    server: rustls::ServerSession,
    to_client: Vec<u8>,
}

impl ServerPipe {
    fn new(pki: &TestPki) -> ServerPipe {
        ServerPipe { server: rustls::ServerSession::new(&server_config(pki)), to_client: Vec::new() }
    }

    fn pump(&mut self) {
        // Echo any plaintext the server has received.
        loop {
            let mut pbuf = [0u8; 1024];
            match std::io::Read::read(&mut self.server, &mut pbuf) {
                Ok(0) => break,
                Ok(n) => {
                    std::io::Write::write_all(&mut self.server, &pbuf[..n]).unwrap();
                }
                Err(_) => break,
            }
        }
        while self.server.wants_write() {
            self.server.write_tls(&mut self.to_client).unwrap();
        }
    }
}

impl Transport for ServerPipe {
    fn send(&mut self, data: &[u8]) -> Result<usize, TlsError> {
        let mut cur = data;
        while !cur.is_empty() {
            let n = self.server.read_tls(&mut cur).map_err(|_| TlsError::Io)?;
            if n == 0 {
                break;
            }
            self.server.process_new_packets().map_err(|_| TlsError::Protocol)?;
        }
        self.pump();
        Ok(data.len())
    }

    fn recv(&mut self, buf: &mut Vec<u8>) -> Result<usize, TlsError> {
        self.pump();
        let n = if self.to_client.len() < buf.len() { self.to_client.len() } else { buf.len() };
        buf[..n].copy_from_slice(&self.to_client[..n]);
        self.to_client.drain(..n);
        Ok(n)
    }

    fn flush(&mut self) -> Result<(), TlsError> {
        Ok(())
    }
}

/// The mirror image: an embedded rustls client behind the transport, for
/// driving a library server session produced by `accept`.
struct ClientPipe {
    client: rustls::ClientSession,
    to_server: Vec<u8>,
}

impl ClientPipe {
    fn new(pki: &TestPki) -> ClientPipe {
        let mut cfg = rustls::ClientConfig::new();
        cfg.root_store.add_pem_file(&mut pki.ca_pem.as_bytes()).unwrap();
        let dns = webpki::DNSNameRef::try_from_ascii_str("localhost").unwrap();
        ClientPipe {
            client: rustls::ClientSession::new(&Arc::new(cfg), dns),
            to_server: Vec::new(),
        }
    }

    fn pump(&mut self) {
        while self.client.wants_write() {
            self.client.write_tls(&mut self.to_server).unwrap();
        }
    }
}

impl Transport for ClientPipe {
    fn send(&mut self, data: &[u8]) -> Result<usize, TlsError> {
        let mut cur = data;
        while !cur.is_empty() {
            let n = self.client.read_tls(&mut cur).map_err(|_| TlsError::Io)?;
            if n == 0 {
                break;
            }
            self.client.process_new_packets().map_err(|_| TlsError::Protocol)?;
        }
        self.pump();
        Ok(data.len())
    }

    fn recv(&mut self, buf: &mut Vec<u8>) -> Result<usize, TlsError> {
        self.pump();
        let n = if self.to_server.len() < buf.len() { self.to_server.len() } else { buf.len() };
        buf[..n].copy_from_slice(&self.to_server[..n]);
        self.to_server.drain(..n);
        Ok(n)
    }

    fn flush(&mut self) -> Result<(), TlsError> {
        Ok(())
    }
}

#[test]
fn client_handshake_terminates_and_negotiates() {
    let pki = make_pki();
    let mut ctx = create_default_context(None, None, Some(CaData::Text(pki.ca_pem.clone()))).unwrap();
    let pipe = ServerPipe::new(&pki);
    let outcome = ctx
        .wrap_socket(SocketArg::Stream(pipe), 6, 31, false, Some("localhost".to_string()), true)
        .unwrap();
    let mut sock = match outcome {
        WrapOutcome::Socket(s) => s,
        WrapOutcome::NeedCaFile(_, _) => panic!("no CA file configured"),
    };

    // The handshake terminated; a version has been negotiated.
    assert_eq!(sock.version().as_deref(), Some("TLSv1.3"));
    let (suite, version, bits) = sock.cipher().unwrap();
    assert!(suite.starts_with("TLS13_"));
    assert_eq!(version, "TLSv1.3");
    assert!(bits == 128 || bits == 256);

    // The peer's leaf certificate is available in binary form, and only
    // in binary form.
    let leaf = sock.get_peer_cert(true).unwrap().unwrap();
    assert_eq!(leaf, pki.leaf_der);
    match sock.get_peer_cert(false) {
        Err(TlsError::NotImplemented) => {}
        _ => panic!("structured decoding is unimplemented"),
    }

    // No ALPN was configured on either side.
    assert_eq!(sock.selected_alpn_protocol(), None);

    // Plaintext round trip through the record layer.
    sock.sendall(b"ping over tls").unwrap();
    let echoed = sock.recv(64).unwrap();
    assert_eq!(echoed.as_slice(), b"ping over tls");

    // send reports the engine's accepted count.
    let n = sock.send(b"more").unwrap();
    assert_eq!(n, 4);
    let echoed = sock.recv(64).unwrap();
    assert_eq!(echoed.as_slice(), b"more");
}

#[test]
fn wrapping_a_listener_with_handshake_on_connect_is_invalid() {
    let mut ctx = create_default_context(None, None, None).unwrap();
    let r = ctx.wrap_socket::<ServerPipe>(SocketArg::Listener, 6, 8, true, None, true);
    match r {
        Err(TlsError::InvalidState) => {}
        _ => panic!("a fresh listening session cannot drive a handshake"),
    }
}

#[test]
fn accept_without_a_server_config_is_invalid() {
    let pki = make_pki();
    let mut ctx = create_default_context(None, None, None).unwrap();
    let outcome = ctx
        .wrap_socket::<ClientPipe>(SocketArg::Listener, 6, 8, true, None, false)
        .unwrap();
    let mut listener = match outcome {
        WrapOutcome::Socket(s) => s,
        WrapOutcome::NeedCaFile(_, _) => panic!("server side needs no CA file"),
    };
    // A listening session always carries the shared configuration; if it
    // is taken away, accept refuses rather than inventing a fresh one.
    listener.server_cfg = None;
    let pipe = ClientPipe::new(&pki);
    match listener.accept(pipe, 40) {
        Err(TlsError::InvalidState) => {}
        _ => panic!("accept without a shared server configuration must fail"),
    }
}

#[test]
fn listener_accepts_and_server_handshake_completes() {
    let pki = make_pki();
    let mut ctx = create_default_context(None, None, None).unwrap();
    let outcome = ctx
        .wrap_socket::<ClientPipe>(SocketArg::Listener, 6, 8, true, None, false)
        .unwrap();
    let mut listener = match outcome {
        WrapOutcome::Socket(s) => s,
        WrapOutcome::NeedCaFile(_, _) => panic!("server side needs no CA file"),
    };

    // Operations other than accept are invalid on the listener.
    match listener.recv(16) {
        Err(TlsError::InvalidState) => {}
        _ => panic!("recv on a listening session must fail"),
    }
    match listener.send(b"x") {
        Err(TlsError::InvalidState) => {}
        _ => panic!("send on a listening session must fail"),
    }

    // Replace the shared server configuration with one holding identity
    // material, accept a connection, and drive its handshake manually.
    listener.server_cfg = Some(server_config(&pki));
    let pipe = ClientPipe::new(&pki);
    let mut conn = listener.accept(pipe, 44).unwrap();
    assert_eq!(conn.fileno(), 44);

    // accept hands the session back still handshaking: certificate
    // queries are invalid until the caller drives the handshake.
    match conn.get_peer_cert(true) {
        Err(TlsError::InvalidState) => {}
        _ => panic!("the accepted session must still be handshaking"),
    }
    conn.do_handshake().unwrap();
    assert!(conn.version().is_some());
    // No client certificate was presented.
    assert_eq!(conn.get_peer_cert(true).unwrap(), None);

    // accept on a non-listening session is invalid.
    let pipe2 = ClientPipe::new(&pki);
    match conn.accept(pipe2, 45) {
        Err(TlsError::InvalidState) => {}
        _ => panic!("accept on a connected session must fail"),
    }
}
