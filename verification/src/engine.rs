//! Trusted boundary to the TLS protocol engine (rustls) and its helpers.
//!
//! Every item here either declares an engine type opaquely or wraps exactly
//! one outside call behind a contract.  The engine's internal handshake and
//! record state is not modelled: a wrapper states only what the engine's
//! source shows of every outcome, and the verified state machine in the
//! rest of the crate is proved against those contracts alone.

use vstd::prelude::*;

use std::sync::Arc;

verus! {

// ---------------------------------------------------------------------------
// Opaque declarations of the engine's types.
// ---------------------------------------------------------------------------

#[verifier::external_type_specification]
#[verifier::external_body]
pub struct ExClientSession(rustls::ClientSession);

#[verifier::external_type_specification]
#[verifier::external_body]
pub struct ExServerSession(rustls::ServerSession);

#[verifier::external_type_specification]
#[verifier::external_body]
pub struct ExClientConfig(rustls::ClientConfig);

#[verifier::external_type_specification]
#[verifier::external_body]
pub struct ExServerConfig(rustls::ServerConfig);

#[verifier::external_type_specification]
#[verifier::external_body]
pub struct ExRootCertStore(rustls::RootCertStore);

#[verifier::external_type_specification]
#[verifier::external_body]
pub struct ExEngineError(rustls::TLSError);

#[verifier::external_type_specification]
#[verifier::external_body]
pub struct ExIoError(std::io::Error);

// ---------------------------------------------------------------------------
// Names for results that depend on the arguments alone.
// ---------------------------------------------------------------------------

/// The trust roots a `RootCertStore` holds, each identified by the
/// DER-encoded certificate it was made from.
pub uninterp spec fn roots_of(s: rustls::RootCertStore) -> Seq<Seq<u8>>;

/// The trust roots held by the store inside a client configuration.
pub uninterp spec fn cfg_roots(c: rustls::ClientConfig) -> Seq<Seq<u8>>;

/// The root that a single DER-encoded certificate yields.
pub uninterp spec fn der_root(der: Seq<u8>) -> Seq<u8>;

/// Whether a single DER-encoded certificate parses as a trust anchor.
pub uninterp spec fn der_parses(der: Seq<u8>) -> bool;

/// The roots that PEM text yields, in order of appearance.
pub uninterp spec fn pem_roots(data: Seq<u8>) -> Seq<Seq<u8>>;

/// Whether PEM text is structurally well-formed (certificates inside it
/// that fail to parse are skipped, not errors).
pub uninterp spec fn pem_parses(data: Seq<u8>) -> bool;

/// Whether a string is a syntactically valid DNS name.
pub uninterp spec fn dns_valid(name: Seq<char>) -> bool;

/// The conventional name of the cipher suite with the given two-byte code.
pub uninterp spec fn suite_name(code: u16) -> Seq<char>;

/// The lossy UTF-8 decoding of a byte sequence.
pub uninterp spec fn utf8_lossy(bytes: Seq<u8>) -> Seq<char>;

/// The encryption key length, in bytes, of the cipher suite with the
/// given two-byte code, as the engine's static suite table fixes it.
pub uninterp spec fn suite_key_len(code: u16) -> usize;

// ---------------------------------------------------------------------------
// Names for the engine's observable state.  Each state query below is a
// pure read of the session value, so the value determines the answer;
// the queries' wrappers bind these names, and the session layer's
// contracts speak through them.
// ---------------------------------------------------------------------------

/// Whether a client-role session value is still inside the handshake.
pub uninterp spec fn client_hs(s: rustls::ClientSession) -> bool;

/// Whether a server-role session value is still inside the handshake.
pub uninterp spec fn server_hs(s: rustls::ServerSession) -> bool;

/// The protocol version code a client-role session has negotiated.
pub uninterp spec fn client_version_code(s: rustls::ClientSession) -> Option<u16>;

/// The protocol version code a server-role session has negotiated.
pub uninterp spec fn server_version_code(s: rustls::ServerSession) -> Option<u16>;

/// The cipher-suite code a client-role session has negotiated.
pub uninterp spec fn client_suite_code(s: rustls::ClientSession) -> Option<u16>;

/// The cipher-suite code a server-role session has negotiated.
pub uninterp spec fn server_suite_code(s: rustls::ServerSession) -> Option<u16>;

/// The ALPN protocol a client-role session has agreed on.
pub uninterp spec fn client_alpn_bytes(s: rustls::ClientSession) -> Option<Seq<u8>>;

/// The ALPN protocol a server-role session has agreed on.
pub uninterp spec fn server_alpn_bytes(s: rustls::ServerSession) -> Option<Seq<u8>>;

/// The peer certificate chain a client-role session holds, leaf first,
/// each certificate as its DER bytes.
pub uninterp spec fn client_peer_chain(s: rustls::ClientSession) -> Option<Seq<Seq<u8>>>;

/// The peer certificate chain a server-role session holds, leaf first,
/// each certificate as its DER bytes.
pub uninterp spec fn server_peer_chain(s: rustls::ServerSession) -> Option<Seq<Seq<u8>>>;

// ---------------------------------------------------------------------------
// Trust-root stores.
// ---------------------------------------------------------------------------

/// Relies on `rustls::RootCertStore::empty`: a new store holds no roots.
#[verifier::external_body]
pub(crate) fn root_store_empty() -> (r: rustls::RootCertStore)
    ensures
        roots_of(r) == Seq::<Seq<u8>>::empty(),
{
    rustls::RootCertStore::empty()
}

/// Relies on `rustls::RootCertStore::add`: parses one DER certificate as a
/// trust anchor and appends it; on a parse failure the store is unchanged.
#[verifier::external_body]
pub(crate) fn root_store_add_der(s: &mut rustls::RootCertStore, der: &[u8]) -> (r: Result<(), ()>)
    ensures
        r is Ok <==> der_parses(der@),
        r is Ok ==> roots_of(*final(s)) == roots_of(*old(s)).push(der_root(der@)),
        r is Err ==> roots_of(*final(s)) == roots_of(*old(s)),
{
    s.add(&rustls::Certificate(der.to_vec())).map_err(|_| ())
}

/// Relies on `rustls::RootCertStore::add_pem_file`: parses PEM text and
/// appends every certificate in it that yields a trust anchor, returning
/// how many were appended; if the PEM structure itself cannot be parsed,
/// the store is unchanged.
#[verifier::external_body]
pub(crate) fn root_store_add_pem(s: &mut rustls::RootCertStore, data: &[u8]) -> (r: Result<
    usize,
    (),
>)
    ensures
        r is Ok <==> pem_parses(data@),
        r matches Ok(n) ==> roots_of(*final(s)) == roots_of(*old(s)) + pem_roots(data@) && n == pem_roots(
            data@,
        ).len(),
        r is Err ==> roots_of(*final(s)) == roots_of(*old(s)),
{
    s.add_pem_file(&mut &data[..]).map(|(valid, _ignored)| valid).map_err(|_| ())
}

/// Relies on `rustls::RootCertStore::len`: the number of roots held.
#[verifier::external_body]
pub(crate) fn root_store_len(s: &rustls::RootCertStore) -> (r: usize)
    ensures
        r == roots_of(*s).len(),
{
    s.len()
}

/// Relies on `rustls_native_certs::load_native_certs`: loads the platform's
/// trust anchors.  What it returns depends on the machine, so nothing is
/// promised of the outcome; a partial load is reported as the error.
#[verifier::external_body]
pub(crate) fn load_native_roots() -> Result<rustls::RootCertStore, std::io::Error> {
    rustls_native_certs::load_native_certs().map_err(|(_partial, err)| err)
}

// ---------------------------------------------------------------------------
// Configurations.
// ---------------------------------------------------------------------------

/// Relies on `rustls::ClientConfig::new` and a field move: the fresh
/// configuration's trust store is exactly the one given.
#[verifier::external_body]
pub(crate) fn client_config_with_roots(roots: rustls::RootCertStore) -> (r: rustls::ClientConfig)
    ensures
        cfg_roots(r) == roots_of(roots),
{
    let mut cfg = rustls::ClientConfig::new();
    cfg.root_store = roots;
    cfg
}

/// Relies on `rustls::ServerConfig::new` with `rustls::NoClientAuth`: a
/// default server configuration that requires no client certificate.
#[verifier::external_body]
pub(crate) fn server_config_default() -> rustls::ServerConfig {
    rustls::ServerConfig::new(rustls::NoClientAuth::new())
}

/// Relies on `std::sync::Arc::clone`: returns a handle to the same value.
#[verifier::external_body]
pub(crate) fn arc_clone_client_cfg(c: &Arc<rustls::ClientConfig>) -> (r: Arc<rustls::ClientConfig>)
    ensures
        r == *c,
{
    Arc::clone(c)
}

/// Relies on `std::sync::Arc::clone`: returns a handle to the same value.
#[verifier::external_body]
pub(crate) fn arc_clone_server_cfg(c: &Arc<rustls::ServerConfig>) -> (r: Arc<rustls::ServerConfig>)
    ensures
        r == *c,
{
    Arc::clone(c)
}

// ---------------------------------------------------------------------------
// Session construction.
// ---------------------------------------------------------------------------

/// Relies on `webpki::DNSNameRef::try_from_ascii_str`: reports whether the
/// string is a syntactically valid DNS name; the answer depends on the
/// characters alone.
#[verifier::external_body]
pub(crate) fn dns_name_check(name: &str) -> (b: bool)
    ensures
        b == dns_valid(name@),
{
    webpki::DNSNameRef::try_from_ascii_str(name).is_ok()
}

/// Relies on `rustls::ClientSession::new`: builds a fresh client-role
/// engine for the given configuration and server name.  The name must be a
/// valid DNS name, which is the constructor's own precondition.  A fresh
/// session is still inside the handshake: the engine leaves that state
/// only once the handshake completes.
#[verifier::external_body]
pub(crate) fn client_session_new(cfg: &Arc<rustls::ClientConfig>, name: &str) -> (r:
    rustls::ClientSession)
    requires
        dns_valid(name@),
    ensures
        client_hs(r),
{
    let dns_ref = webpki::DNSNameRef::try_from_ascii_str(name).unwrap();
    rustls::ClientSession::new(cfg, dns_ref)
}

/// Relies on `rustls::ServerSession::new`: builds a fresh server-role
/// engine for the given configuration.  A fresh session is still inside
/// the handshake.
#[verifier::external_body]
pub(crate) fn server_session_new(cfg: &Arc<rustls::ServerConfig>) -> (r: rustls::ServerSession)
    ensures
        server_hs(r),
{
    rustls::ServerSession::new(cfg)
}

// ---------------------------------------------------------------------------
// Engine queries and record/plaintext transfer, client role.
//
// The handshake and record state lives inside the engine, so the boolean
// queries promise nothing of their result; the transfer calls promise only
// the buffer accounting their source shows of every outcome.
// ---------------------------------------------------------------------------

/// Relies on `rustls::ClientSession::is_handshaking`: a pure read of the
/// session's handshake state.
#[verifier::external_body]
pub(crate) fn client_is_handshaking(s: &rustls::ClientSession) -> (b: bool)
    ensures
        b == client_hs(*s),
{
    rustls::Session::is_handshaking(s)
}

/// Relies on `rustls::ClientSession::wants_write`.
#[verifier::external_body]
pub(crate) fn client_wants_write(s: &rustls::ClientSession) -> bool {
    rustls::Session::wants_write(s)
}

/// Relies on `rustls::ClientSession::wants_read`.
#[verifier::external_body]
pub(crate) fn client_wants_read(s: &rustls::ClientSession) -> bool {
    rustls::Session::wants_read(s)
}

/// Relies on `rustls::Session::write_tls` with a growable byte sink: moves
/// the engine's pending outgoing records onto the end of `out` and returns
/// how many bytes were appended.
#[verifier::external_body]
pub(crate) fn client_write_tls(s: &mut rustls::ClientSession, out: &mut Vec<u8>) -> (r: Result<
    usize,
    (),
>)
    ensures
        r matches Ok(n) ==> final(out)@.len() == old(out)@.len() + n && final(out)@.subrange(
            0,
            old(out)@.len() as int,
        ) == old(out)@,
        r is Err ==> final(out)@ == old(out)@,
{
    rustls::Session::write_tls(s, out).map_err(|_| ())
}

/// Relies on `rustls::Session::read_tls` reading from a byte slice: hands
/// the engine record bytes starting at `off` and returns how many it
/// consumed into its internal buffer.
#[verifier::external_body]
pub(crate) fn client_read_tls(s: &mut rustls::ClientSession, data: &[u8], off: usize) -> (r: Result<
    usize,
    (),
>)
    requires
        off <= data@.len(),
    ensures
        r matches Ok(n) ==> off + n <= data@.len(),
{
    rustls::Session::read_tls(s, &mut &data[off..]).map_err(|_| ())
}

/// Relies on `rustls::Session::process_new_packets`: decodes and acts on
/// the records read so far; a rejection is fatal to the session.
#[verifier::external_body]
pub(crate) fn client_process(s: &mut rustls::ClientSession) -> Result<(), rustls::TLSError> {
    rustls::Session::process_new_packets(s)
}

/// Relies on `std::io::Read::read` for `rustls::ClientSession`: copies
/// already-decrypted plaintext into the front of `buf`, writing only the
/// first n bytes and never changing the buffer's length.
#[verifier::external_body]
pub(crate) fn client_read_plain(s: &mut rustls::ClientSession, buf: &mut Vec<u8>) -> (r: Result<
    usize,
    std::io::Error,
>)
    ensures
        final(buf)@.len() == old(buf)@.len(),
        r matches Ok(n) ==> n <= final(buf)@.len(),
        r matches Ok(n) ==> final(buf)@.skip(n as int) == old(buf)@.skip(n as int),
{
    std::io::Read::read(s, buf.as_mut_slice())
}

/// Relies on `std::io::Write::write` for `rustls::ClientSession`: buffers
/// plaintext for encryption and returns how much it accepted.
#[verifier::external_body]
pub(crate) fn client_write_plain(s: &mut rustls::ClientSession, data: &[u8]) -> (r: Result<
    usize,
    std::io::Error,
>)
    ensures
        r matches Ok(n) ==> n <= data@.len(),
{
    std::io::Write::write(s, data)
}

/// Relies on `rustls::Session::get_protocol_version`, converted to the
/// protocol's two-byte version code — a pure read of the session value.
#[verifier::external_body]
pub(crate) fn client_version(s: &rustls::ClientSession) -> (r: Option<u16>)
    ensures
        r == client_version_code(*s),
{
    rustls::Session::get_protocol_version(s).map(|v| v.get_u16())
}

/// Relies on `rustls::Session::get_peer_certificates`, each certificate
/// converted to its raw DER bytes — a pure read of the session value.
#[verifier::external_body]
pub(crate) fn client_peer_certs(s: &rustls::ClientSession) -> (r: Option<Vec<Vec<u8>>>)
    ensures
        r is Some <==> client_peer_chain(*s) is Some,
        r matches Some(v) ==> client_peer_chain(*s) == Some(v.deep_view()),
{
    rustls::Session::get_peer_certificates(s).map(|v| v.into_iter().map(|c| c.0).collect())
}

/// Relies on `rustls::Session::get_negotiated_ciphersuite`: the suite's
/// conventional name, its two-byte code, and its bulk-encryption key
/// length.  The suite always comes from the engine's static table, whose
/// key lengths the code determines and bounds by 32 bytes.
#[verifier::external_body]
pub(crate) fn client_suite(s: &rustls::ClientSession) -> (r: Option<(String, u16, usize)>)
    ensures
        r is Some <==> client_suite_code(*s) is Some,
        r matches Some(t) ==> client_suite_code(*s) == Some(t.1) && t.0@ == suite_name(t.1) && t.2
            == suite_key_len(t.1) && t.2 <= 32,
{
    rustls::Session::get_negotiated_ciphersuite(s).map(
        |cs| (format!("{:?}", cs.suite), cs.suite.get_u16(), cs.enc_key_len),
    )
}

/// Relies on `rustls::Session::get_alpn_protocol`, copied to an owned
/// byte vector — a pure read of the session value.
#[verifier::external_body]
pub(crate) fn client_alpn(s: &rustls::ClientSession) -> (r: Option<Vec<u8>>)
    ensures
        r is Some <==> client_alpn_bytes(*s) is Some,
        r matches Some(v) ==> client_alpn_bytes(*s) == Some(v@),
{
    rustls::Session::get_alpn_protocol(s).map(|v| v.to_vec())
}

// ---------------------------------------------------------------------------
// The same queries and transfers, server role.
// ---------------------------------------------------------------------------

/// Relies on `rustls::ServerSession::is_handshaking`: a pure read of the
/// session's handshake state.
#[verifier::external_body]
pub(crate) fn server_is_handshaking(s: &rustls::ServerSession) -> (b: bool)
    ensures
        b == server_hs(*s),
{
    rustls::Session::is_handshaking(s)
}

/// Relies on `rustls::ServerSession::wants_write`.
#[verifier::external_body]
pub(crate) fn server_wants_write(s: &rustls::ServerSession) -> bool {
    rustls::Session::wants_write(s)
}

/// Relies on `rustls::ServerSession::wants_read`.
#[verifier::external_body]
pub(crate) fn server_wants_read(s: &rustls::ServerSession) -> bool {
    rustls::Session::wants_read(s)
}

/// Relies on `rustls::Session::write_tls` with a growable byte sink: moves
/// the engine's pending outgoing records onto the end of `out` and returns
/// how many bytes were appended.
#[verifier::external_body]
pub(crate) fn server_write_tls(s: &mut rustls::ServerSession, out: &mut Vec<u8>) -> (r: Result<
    usize,
    (),
>)
    ensures
        r matches Ok(n) ==> final(out)@.len() == old(out)@.len() + n && final(out)@.subrange(
            0,
            old(out)@.len() as int,
        ) == old(out)@,
        r is Err ==> final(out)@ == old(out)@,
{
    rustls::Session::write_tls(s, out).map_err(|_| ())
}

/// Relies on `rustls::Session::read_tls` reading from a byte slice: hands
/// the engine record bytes starting at `off` and returns how many it
/// consumed into its internal buffer.
#[verifier::external_body]
pub(crate) fn server_read_tls(s: &mut rustls::ServerSession, data: &[u8], off: usize) -> (r: Result<
    usize,
    (),
>)
    requires
        off <= data@.len(),
    ensures
        r matches Ok(n) ==> off + n <= data@.len(),
{
    rustls::Session::read_tls(s, &mut &data[off..]).map_err(|_| ())
}

/// Relies on `rustls::Session::process_new_packets`: decodes and acts on
/// the records read so far; a rejection is fatal to the session.
#[verifier::external_body]
pub(crate) fn server_process(s: &mut rustls::ServerSession) -> Result<(), rustls::TLSError> {
    rustls::Session::process_new_packets(s)
}

/// Relies on `std::io::Read::read` for `rustls::ServerSession`: copies
/// already-decrypted plaintext into the front of `buf`, writing only the
/// first n bytes and never changing the buffer's length.
#[verifier::external_body]
pub(crate) fn server_read_plain(s: &mut rustls::ServerSession, buf: &mut Vec<u8>) -> (r: Result<
    usize,
    std::io::Error,
>)
    ensures
        final(buf)@.len() == old(buf)@.len(),
        r matches Ok(n) ==> n <= final(buf)@.len(),
        r matches Ok(n) ==> final(buf)@.skip(n as int) == old(buf)@.skip(n as int),
{
    std::io::Read::read(s, buf.as_mut_slice())
}

/// Relies on `std::io::Write::write` for `rustls::ServerSession`: buffers
/// plaintext for encryption and returns how much it accepted.
#[verifier::external_body]
pub(crate) fn server_write_plain(s: &mut rustls::ServerSession, data: &[u8]) -> (r: Result<
    usize,
    std::io::Error,
>)
    ensures
        r matches Ok(n) ==> n <= data@.len(),
{
    std::io::Write::write(s, data)
}

/// Relies on `rustls::Session::get_protocol_version`, converted to the
/// protocol's two-byte version code — a pure read of the session value.
#[verifier::external_body]
pub(crate) fn server_version(s: &rustls::ServerSession) -> (r: Option<u16>)
    ensures
        r == server_version_code(*s),
{
    rustls::Session::get_protocol_version(s).map(|v| v.get_u16())
}

/// Relies on `rustls::Session::get_peer_certificates`, each certificate
/// converted to its raw DER bytes — a pure read of the session value.
#[verifier::external_body]
pub(crate) fn server_peer_certs(s: &rustls::ServerSession) -> (r: Option<Vec<Vec<u8>>>)
    ensures
        r is Some <==> server_peer_chain(*s) is Some,
        r matches Some(v) ==> server_peer_chain(*s) == Some(v.deep_view()),
{
    rustls::Session::get_peer_certificates(s).map(|v| v.into_iter().map(|c| c.0).collect())
}

/// Relies on `rustls::Session::get_negotiated_ciphersuite`: the suite's
/// conventional name, its two-byte code, and its bulk-encryption key
/// length.  The suite always comes from the engine's static table, whose
/// key lengths the code determines and bounds by 32 bytes.
#[verifier::external_body]
pub(crate) fn server_suite(s: &rustls::ServerSession) -> (r: Option<(String, u16, usize)>)
    ensures
        r is Some <==> server_suite_code(*s) is Some,
        r matches Some(t) ==> server_suite_code(*s) == Some(t.1) && t.0@ == suite_name(t.1) && t.2
            == suite_key_len(t.1) && t.2 <= 32,
{
    rustls::Session::get_negotiated_ciphersuite(s).map(
        |cs| (format!("{:?}", cs.suite), cs.suite.get_u16(), cs.enc_key_len),
    )
}

/// Relies on `rustls::Session::get_alpn_protocol`, copied to an owned
/// byte vector — a pure read of the session value.
#[verifier::external_body]
pub(crate) fn server_alpn(s: &rustls::ServerSession) -> (r: Option<Vec<u8>>)
    ensures
        r is Some <==> server_alpn_bytes(*s) is Some,
        r matches Some(v) ==> server_alpn_bytes(*s) == Some(v@),
{
    rustls::Session::get_alpn_protocol(s).map(|v| v.to_vec())
}

// ---------------------------------------------------------------------------
// One std helper the introspection path needs.
// ---------------------------------------------------------------------------

/// Relies on `String::from_utf8_lossy`: the result depends on the bytes
/// alone, and empty input gives an empty string.
#[verifier::external_body]
pub(crate) fn bytes_to_string_lossy(v: &Vec<u8>) -> (r: String)
    ensures
        r@ == utf8_lossy(v@),
        v@.len() == 0 ==> r@.len() == 0,
{
    String::from_utf8_lossy(v.as_slice()).into_owned()
}

// ---------------------------------------------------------------------------
// The engine, dispatched over its role.
// ---------------------------------------------------------------------------

/// A protocol engine of either role.  The session layer drives both roles
/// through the same primitives, so each query below dispatches once.
pub enum Engine {
    Client(rustls::ClientSession),
    Server(rustls::ServerSession),
}

/// Whether an engine value is still inside the handshake, by role.
pub open spec fn engine_hs(e: Engine) -> bool {
    match e {
        Engine::Client(s) => client_hs(s),
        Engine::Server(s) => server_hs(s),
    }
}

/// The protocol version code an engine value has negotiated, by role.
pub open spec fn engine_version_spec(e: Engine) -> Option<u16> {
    match e {
        Engine::Client(s) => client_version_code(s),
        Engine::Server(s) => server_version_code(s),
    }
}

/// The cipher-suite code an engine value has negotiated, by role.
pub open spec fn engine_suite_spec(e: Engine) -> Option<u16> {
    match e {
        Engine::Client(s) => client_suite_code(s),
        Engine::Server(s) => server_suite_code(s),
    }
}

/// The ALPN protocol an engine value has agreed on, by role.
pub open spec fn engine_alpn_spec(e: Engine) -> Option<Seq<u8>> {
    match e {
        Engine::Client(s) => client_alpn_bytes(s),
        Engine::Server(s) => server_alpn_bytes(s),
    }
}

/// The peer certificate chain an engine value holds, by role.
pub open spec fn engine_chain_spec(e: Engine) -> Option<Seq<Seq<u8>>> {
    match e {
        Engine::Client(s) => client_peer_chain(s),
        Engine::Server(s) => server_peer_chain(s),
    }
}

/// Whether the engine is still inside the handshake.
pub fn engine_is_handshaking(e: &Engine) -> (b: bool)
    ensures
        b == engine_hs(*e),
{
    match e {
        Engine::Client(s) => client_is_handshaking(s),
        Engine::Server(s) => server_is_handshaking(s),
    }
}

/// Whether the engine has records queued for the peer.
pub fn engine_wants_write(e: &Engine) -> bool {
    match e {
        Engine::Client(s) => client_wants_write(s),
        Engine::Server(s) => server_wants_write(s),
    }
}

/// Whether the engine needs more record bytes from the peer.
pub fn engine_wants_read(e: &Engine) -> bool {
    match e {
        Engine::Client(s) => client_wants_read(s),
        Engine::Server(s) => server_wants_read(s),
    }
}

/// Move the engine's pending outgoing records onto the end of `out`.
pub fn engine_write_tls(e: &mut Engine, out: &mut Vec<u8>) -> (r: Result<usize, ()>)
    ensures
        r matches Ok(n) ==> final(out)@.len() == old(out)@.len() + n && final(out)@.subrange(
            0,
            old(out)@.len() as int,
        ) == old(out)@,
        r is Err ==> final(out)@ == old(out)@,
{
    match e {
        Engine::Client(s) => client_write_tls(s, out),
        Engine::Server(s) => server_write_tls(s, out),
    }
}

/// Hand the engine record bytes starting at `off`; it consumes a prefix.
pub fn engine_read_tls(e: &mut Engine, data: &[u8], off: usize) -> (r: Result<usize, ()>)
    requires
        off <= data@.len(),
    ensures
        r matches Ok(n) ==> off + n <= data@.len(),
{
    match e {
        Engine::Client(s) => client_read_tls(s, data, off),
        Engine::Server(s) => server_read_tls(s, data, off),
    }
}

/// Let the engine act on the record bytes read so far.
pub fn engine_process(e: &mut Engine) -> Result<(), rustls::TLSError> {
    match e {
        Engine::Client(s) => client_process(s),
        Engine::Server(s) => server_process(s),
    }
}

/// Copy decrypted plaintext into the front of `buf`, leaving the bytes
/// beyond the returned count unchanged.
pub fn engine_read_plain(e: &mut Engine, buf: &mut Vec<u8>) -> (r: Result<usize, std::io::Error>)
    ensures
        final(buf)@.len() == old(buf)@.len(),
        r matches Ok(n) ==> n <= final(buf)@.len(),
        r matches Ok(n) ==> final(buf)@.skip(n as int) == old(buf)@.skip(n as int),
{
    match e {
        Engine::Client(s) => client_read_plain(s, buf),
        Engine::Server(s) => server_read_plain(s, buf),
    }
}

/// Buffer plaintext for encryption; the engine may accept only a prefix.
pub fn engine_write_plain(e: &mut Engine, data: &[u8]) -> (r: Result<usize, std::io::Error>)
    ensures
        r matches Ok(n) ==> n <= data@.len(),
{
    match e {
        Engine::Client(s) => client_write_plain(s, data),
        Engine::Server(s) => server_write_plain(s, data),
    }
}

/// The negotiated protocol version's two-byte code, if any yet.
pub fn engine_version(e: &Engine) -> (r: Option<u16>)
    ensures
        r == engine_version_spec(*e),
{
    match e {
        Engine::Client(s) => client_version(s),
        Engine::Server(s) => server_version(s),
    }
}

/// The peer's certificate chain as raw DER bytes, if presented.
pub fn engine_peer_certs(e: &Engine) -> (r: Option<Vec<Vec<u8>>>)
    ensures
        r is Some <==> engine_chain_spec(*e) is Some,
        r matches Some(v) ==> engine_chain_spec(*e) == Some(v.deep_view()),
{
    match e {
        Engine::Client(s) => client_peer_certs(s),
        Engine::Server(s) => server_peer_certs(s),
    }
}

/// The negotiated cipher suite's name, code and key length, if any yet.
pub fn engine_suite(e: &Engine) -> (r: Option<(String, u16, usize)>)
    ensures
        r is Some <==> engine_suite_spec(*e) is Some,
        r matches Some(t) ==> engine_suite_spec(*e) == Some(t.1) && t.0@ == suite_name(t.1) && t.2
            == suite_key_len(t.1) && t.2 <= 32,
{
    match e {
        Engine::Client(s) => client_suite(s),
        Engine::Server(s) => server_suite(s),
    }
}

/// The ALPN protocol the handshake agreed on, if any.
pub fn engine_alpn(e: &Engine) -> (r: Option<Vec<u8>>)
    ensures
        r is Some <==> engine_alpn_spec(*e) is Some,
        r matches Some(v) ==> engine_alpn_spec(*e) == Some(v@),
{
    match e {
        Engine::Client(s) => client_alpn(s),
        Engine::Server(s) => server_alpn(s),
    }
}

} // verus!
