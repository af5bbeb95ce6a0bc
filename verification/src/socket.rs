//! The handshake/record-multiplexing session.
//!
//! A session owns a protocol engine and a borrowed socket, drives the
//! two-party handshake to completion, and then shuttles plaintext through
//! the engine's record layer.  The engine's own state is opaque, so the
//! driver's decisions are factored into [`hs_step`], whose contract pins
//! down the write-priority tie-break and the termination condition; the
//! loops around it are verified for their buffer accounting and for the
//! preservation of everything the session promises not to touch.

use vstd::prelude::*;

use std::sync::Arc;

use crate::engine::Engine;
use crate::engine::arc_clone_server_cfg;
use crate::engine::bytes_to_string_lossy;
use crate::engine::engine_alpn;
use crate::engine::engine_alpn_spec;
use crate::engine::engine_chain_spec;
use crate::engine::engine_hs;
use crate::engine::engine_suite_spec;
use crate::engine::engine_version_spec;
use crate::engine::suite_key_len;
use crate::engine::engine_is_handshaking;
use crate::engine::engine_peer_certs;
use crate::engine::engine_process;
use crate::engine::engine_read_plain;
use crate::engine::engine_read_tls;
use crate::engine::engine_suite;
use crate::engine::engine_version;
use crate::engine::engine_wants_read;
use crate::engine::engine_wants_write;
use crate::engine::engine_write_plain;
use crate::engine::engine_write_tls;
use crate::engine::server_session_new;
use crate::engine::suite_name;
use crate::engine::utf8_lossy;
use crate::errors::TlsError;
use crate::stream::BorrowedTcpListener;
use crate::stream::BorrowedTcpStream;
use crate::stream::Transport;

verus! {

/// The protocol number of TCP, as socket objects report it.
pub const TCP_PROTO: i32 = 6;

/// How many bytes one transport read asks for at most.
pub const READ_CHUNK: usize = 4096;

/// The drivers' iteration budget.  Every iteration makes at least one
/// blocking transport call, so this budget cannot be spent in practice:
/// it only gives each driver loop a checkable bound.  Running it out is
/// reported as an I/O error.
pub const DRIVE_FUEL: u64 = u64::MAX;

/// The next step the handshake driver must take, given what the engine
/// reports of its state.
#[derive(Clone, Copy, Debug, PartialEq, Eq, Structural)]
pub enum HsAction {
    /// The engine has records queued: write them to the transport.
    Write,
    /// The engine needs record bytes: read from the transport, then let it
    /// process them.
    Read,
    /// The handshake is complete; the driver's loop ends.
    Done,
}

/// What the handshake driver does at one step, as a function of the
/// engine's three state queries.  Writes always take priority over reads
/// when both are wanted, so that two peers each waiting to read before
/// writing cannot deadlock; the driver succeeds exactly when the engine
/// reports the handshake complete.  (`Done` while still handshaking —
/// the engine wanting neither direction — is a stall the driver turns
/// into an error rather than spinning on.)
pub open spec fn hs_step(handshaking: bool, wants_write: bool, wants_read: bool) -> HsAction {
    if !handshaking {
        HsAction::Done
    } else if wants_write {
        HsAction::Write
    } else if wants_read {
        HsAction::Read
    } else {
        HsAction::Done
    }
}

/// The executable form of [`hs_step`].
pub fn next_action(handshaking: bool, wants_write: bool, wants_read: bool) -> (r: HsAction)
    ensures
        r == hs_step(handshaking, wants_write, wants_read),
{
    if !handshaking {
        HsAction::Done
    } else if wants_write {
        HsAction::Write
    } else if wants_read {
        HsAction::Read
    } else {
        HsAction::Done
    }
}

/// Write-priority tie-break: whenever the engine is still handshaking and
/// has records to write, the driver writes — even if the engine also wants
/// to read at the same step.
pub proof fn lemma_write_priority(handshaking: bool, wants_read: bool)
    ensures
        hs_step(handshaking, true, wants_read) == if handshaking {
            HsAction::Write
        } else {
            HsAction::Done
        },
{
}

/// Handshake termination: the driver's loop ends exactly when the engine
/// reports the handshake complete, never on an iteration count — `Done`
/// follows from `handshaking == false` alone, and while the engine still
/// reports handshaking and wants I/O, the step is that I/O, not `Done`.
pub proof fn lemma_terminates_on_completion(wants_write: bool, wants_read: bool)
    ensures
        hs_step(false, wants_write, wants_read) == HsAction::Done,
        wants_write || wants_read ==> hs_step(true, wants_write, wants_read) != HsAction::Done,
{
}

/// What one record-reading step obtained from the transport.
enum FeedOutcome {
    /// The transport reported a cleanly closed stream.
    Eof,
    /// This many record bytes were handed to the engine (possibly none,
    /// when the engine's buffers are momentarily full).
    Fed(usize),
}

/// Drain the engine's queued records and deliver every byte of them to
/// the transport.  One extraction into a growable sink empties the
/// engine's whole outgoing queue, so no repetition is needed.
fn flush_records<T: Transport>(e: &mut Engine, s: &mut BorrowedTcpStream<T>) -> (r: Result<
    (),
    TlsError,
>)
    ensures
        final(s).fd == old(s).fd,
{
    if engine_wants_write(e) {
        let mut out: Vec<u8> = Vec::new();
        match engine_write_tls(e, &mut out) {
            Ok(_) => {},
            Err(_) => {
                return Err(TlsError::Io);
            },
        }
        match s.write_all(out.as_slice()) {
            Ok(_) => {},
            Err(er) => {
                return Err(er);
            },
        }
    }
    Ok(())
}

/// One record-reading step: refill the leftover buffer from the transport
/// if it is spent, then feed the engine as much of it as it takes,
/// letting it process after each chunk.  Unconsumed bytes stay buffered
/// for the next step.
fn read_records<T: Transport>(
    e: &mut Engine,
    s: &mut BorrowedTcpStream<T>,
    in_buf: &mut Vec<u8>,
    in_off: &mut usize,
) -> (r: Result<FeedOutcome, TlsError>)
    requires
        *old(in_off) <= old(in_buf)@.len(),
    ensures
        *final(in_off) <= final(in_buf)@.len(),
        final(s).fd == old(s).fd,
{
    if *in_off >= in_buf.len() {
        let mut chunk: Vec<u8> = vec![0u8; READ_CHUNK];
        let got = match s.read(&mut chunk) {
            Ok(n) => n,
            Err(er) => {
                return Err(er);
            },
        };
        chunk.truncate(got);
        *in_buf = chunk;
        *in_off = 0;
        if got == 0 {
            return Ok(FeedOutcome::Eof);
        }
    }
    let mut fed: usize = 0;
    while *in_off < in_buf.len()
        invariant
            *in_off <= in_buf@.len(),
            fed <= *in_off,
            s.fd == old(s).fd,
        decreases in_buf@.len() - *in_off,
    {
        let taken = match engine_read_tls(e, in_buf.as_slice(), *in_off) {
            Ok(n) => n,
            Err(_) => {
                return Err(TlsError::Io);
            },
        };
        if taken == 0 {
            break ;
        }
        *in_off = *in_off + taken;
        fed = fed + taken;
        match engine_process(e) {
            Ok(_) => {},
            Err(_) => {
                return Err(TlsError::Protocol);
            },
        }
    }
    Ok(FeedOutcome::Fed(fed))
}

/// The handshake driver: one blocking I/O call per iteration, chosen by
/// [`hs_step`] from the engine's state, until the engine reports the
/// handshake complete — success means exactly that the engine no longer
/// reports handshaking.  On an already-completed engine nothing runs and
/// nothing changes.  A transport that closes mid-handshake, a transport
/// error, an engine rejection, and an engine that is handshaking yet
/// wants neither direction (a stall the engine never exhibits) each
/// abort the loop at once.
fn complete_handshake_io<T: Transport>(
    e: &mut Engine,
    s: &mut BorrowedTcpStream<T>,
    in_buf: &mut Vec<u8>,
    in_off: &mut usize,
) -> (r: Result<(), TlsError>)
    requires
        *old(in_off) <= old(in_buf)@.len(),
    ensures
        *final(in_off) <= final(in_buf)@.len(),
        final(s).fd == old(s).fd,
        r is Ok ==> !engine_hs(*final(e)),
        !engine_hs(*old(e)) ==> r is Ok && *final(e) == *old(e) && *final(s) == *old(s) && *final(in_buf) == *old(in_buf) && *final(in_off) == *old(in_off),
{
    let mut fuel: u64 = DRIVE_FUEL;
    while fuel > 0
        invariant
            *in_off <= in_buf@.len(),
            s.fd == old(s).fd,
            !engine_hs(*old(e)) ==> *e == *old(e) && *s == *old(s) && *in_buf == *old(in_buf)
                && *in_off == *old(in_off) && fuel == DRIVE_FUEL,
        decreases fuel,
    {
        fuel = fuel - 1;
        let hs = engine_is_handshaking(e);
        let ww = engine_wants_write(e);
        let wr = engine_wants_read(e);
        match next_action(hs, ww, wr) {
            HsAction::Done => {
                if hs {
                    // Handshaking, yet wanting neither to read nor to
                    // write: the engine has stalled.
                    return Err(TlsError::Io);
                }
                return Ok(());
            },
            HsAction::Write => {
                let mut out: Vec<u8> = Vec::new();
                match engine_write_tls(e, &mut out) {
                    Ok(_) => {},
                    Err(_) => {
                        return Err(TlsError::Io);
                    },
                }
                match s.write_all(out.as_slice()) {
                    Ok(_) => {},
                    Err(er) => {
                        return Err(er);
                    },
                }
            },
            HsAction::Read => {
                match read_records(e, s, in_buf, in_off) {
                    Ok(FeedOutcome::Eof) => {
                        return Err(TlsError::Io);
                    },
                    Ok(FeedOutcome::Fed(_)) => {},
                    Err(er) => {
                        return Err(er);
                    },
                }
            },
        }
    }
    Err(TlsError::Io)
}

/// One plaintext read through the engine's decrypted-stream adapter:
/// finish any handshake I/O, push pending records out, pull records in
/// until the engine stops asking, then copy plaintext into `buf`.
fn stream_read<T: Transport>(
    e: &mut Engine,
    s: &mut BorrowedTcpStream<T>,
    in_buf: &mut Vec<u8>,
    in_off: &mut usize,
    buf: &mut Vec<u8>,
) -> (r: Result<usize, TlsError>)
    requires
        *old(in_off) <= old(in_buf)@.len(),
    ensures
        *final(in_off) <= final(in_buf)@.len(),
        final(s).fd == old(s).fd,
        final(buf)@.len() == old(buf)@.len(),
        r matches Ok(n) ==> n <= final(buf)@.len(),
        r matches Ok(n) ==> final(buf)@.skip(n as int) == old(buf)@.skip(n as int),
{
    if engine_is_handshaking(e) {
        match complete_handshake_io(e, s, in_buf, in_off) {
            Ok(_) => {},
            Err(er) => {
                return Err(er);
            },
        }
    }
    if engine_wants_write(e) {
        match flush_records(e, s) {
            Ok(_) => {},
            Err(er) => {
                return Err(er);
            },
        }
    }
    let mut fuel: u64 = DRIVE_FUEL;
    while fuel > 0 && engine_wants_read(e)
        invariant
            *in_off <= in_buf@.len(),
            s.fd == old(s).fd,
        decreases fuel,
    {
        fuel = fuel - 1;
        match read_records(e, s, in_buf, in_off) {
            Ok(FeedOutcome::Eof) => {
                break ;
            },
            Ok(FeedOutcome::Fed(k)) => {
                if k == 0 {
                    break ;
                }
            },
            Err(er) => {
                return Err(er);
            },
        }
    }
    match engine_read_plain(e, buf) {
        Ok(n) => Ok(n),
        Err(_) => Err(TlsError::Io),
    }
}

/// One plaintext write: finish any handshake I/O, push pending records
/// out, hand the engine the plaintext (it may accept only a prefix), and
/// try to push the resulting records out — a failure there surfaces on
/// the next call, so the accepted count is not masked.
fn stream_write<T: Transport>(
    e: &mut Engine,
    s: &mut BorrowedTcpStream<T>,
    in_buf: &mut Vec<u8>,
    in_off: &mut usize,
    data: &[u8],
) -> (r: Result<usize, TlsError>)
    requires
        *old(in_off) <= old(in_buf)@.len(),
    ensures
        *final(in_off) <= final(in_buf)@.len(),
        final(s).fd == old(s).fd,
        r matches Ok(n) ==> n <= data@.len(),
{
    if engine_is_handshaking(e) {
        match complete_handshake_io(e, s, in_buf, in_off) {
            Ok(_) => {},
            Err(er) => {
                return Err(er);
            },
        }
    }
    if engine_wants_write(e) {
        match flush_records(e, s) {
            Ok(_) => {},
            Err(er) => {
                return Err(er);
            },
        }
    }
    let accepted = match engine_write_plain(e, data) {
        Ok(n) => n,
        Err(_) => {
            return Err(TlsError::Io);
        },
    };
    let _ = flush_records(e, s);
    Ok(accepted)
}

/// Write all of `data` through the engine, looping over short acceptances,
/// and push every resulting record out before returning; success means
/// the engine accepted every byte.
fn stream_write_all<T: Transport>(
    e: &mut Engine,
    s: &mut BorrowedTcpStream<T>,
    in_buf: &mut Vec<u8>,
    in_off: &mut usize,
    data: &[u8],
) -> (r: Result<usize, TlsError>)
    requires
        *old(in_off) <= old(in_buf)@.len(),
    ensures
        *final(in_off) <= final(in_buf)@.len(),
        final(s).fd == old(s).fd,
        r matches Ok(n) ==> n == data@.len(),
{
    let len: usize = data.len();
    let mut off: usize = 0;
    while off < len
        invariant
            len == data@.len(),
            off <= len,
            *in_off <= in_buf@.len(),
            s.fd == old(s).fd,
        decreases len - off,
    {
        let part = vstd::slice::slice_subrange(data, off, len);
        let accepted = match stream_write(e, s, in_buf, in_off, part) {
            Ok(n) => n,
            Err(er) => {
                return Err(er);
            },
        };
        if accepted == 0 {
            return Err(TlsError::Io);
        }
        off = off + accepted;
    }
    match flush_records(e, s) {
        Ok(_) => Ok(off),
        Err(er) => Err(er),
    }
}

/// The engine/socket pairing of a session, dispatched once per operation.
/// Each variant's invalid operations return a typed error.
pub enum StreamKind<T> {
    /// A client-role engine over a connected stream.
    ClientStream(Engine, BorrowedTcpStream<T>),
    /// A server-role engine over a connected stream, made by `accept`.
    ServerStream(Engine, BorrowedTcpStream<T>),
    /// A server-role engine held beside a borrowed listener; only
    /// `accept` is valid here.
    ServerListener(Engine, BorrowedTcpListener),
}

/// A secure session: the handshake/record state machine over a borrowed
/// socket, with byte-stream semantics once established.
pub struct SSLSocket<T> {
    /// The engine and the borrowed socket, by role.
    pub stream: StreamKind<T>,
    /// The raw descriptor value, kept for introspection even though this
    /// layer never owns it.
    pub fileno: i32,
    /// The server name a client session was built for.
    pub server_name: Option<String>,
    /// The shared client configuration this session keeps alive.
    pub client_cfg: Option<Arc<rustls::ClientConfig>>,
    /// The shared server configuration this session keeps alive; `accept`
    /// builds each per-connection session from it.
    pub server_cfg: Option<Arc<rustls::ServerConfig>>,
    /// Record bytes received from the transport and not yet consumed by
    /// the engine.
    pub in_buf: Vec<u8>,
    /// How much of `in_buf` the engine has consumed.
    pub in_off: usize,
}

impl<T> SSLSocket<T> {
    /// The structural validity of a session: the consumed prefix of the
    /// leftover record buffer never exceeds the buffer.
    pub open spec fn wf(&self) -> bool {
        self.in_off <= self.in_buf@.len()
    }

    /// Whether this session is the listening variant.
    pub open spec fn is_listener(&self) -> bool {
        self.stream is ServerListener
    }

    /// The protocol engine this session holds, whatever its role; the
    /// introspection contracts read the engine's state through it.
    pub open spec fn engine_spec(&self) -> Engine {
        match self.stream {
            StreamKind::ClientStream(e, _) => e,
            StreamKind::ServerStream(e, _) => e,
            StreamKind::ServerListener(e, _) => e,
        }
    }
}

impl<T: Transport> SSLSocket<T> {
    /// A fresh client-role session over a connected stream, in the
    /// handshaking state.
    pub fn new_client(
        cfg: Arc<rustls::ClientConfig>,
        fileno: i32,
        server_name: String,
        session: rustls::ClientSession,
        stream: BorrowedTcpStream<T>,
    ) -> (r: SSLSocket<T>)
        ensures
            r.wf(),
            !r.is_listener(),
            r.fileno == fileno,
            r.server_name == Some(server_name),
            r.client_cfg == Some(cfg),
            r.engine_spec() == Engine::Client(session),
            r.stream matches StreamKind::ClientStream(_, s) && s == stream,
    {
        SSLSocket {
            stream: StreamKind::ClientStream(Engine::Client(session), stream),
            fileno,
            server_name: Some(server_name),
            client_cfg: Some(cfg),
            server_cfg: None,
            in_buf: Vec::new(),
            in_off: 0,
        }
    }

    /// A fresh listening session: a borrowed listener beside a server
    /// configuration; connections are taken from it with `accept`.
    pub fn new_server(
        cfg: Arc<rustls::ServerConfig>,
        fileno: i32,
        session: rustls::ServerSession,
        listener: BorrowedTcpListener,
    ) -> (r: SSLSocket<T>)
        ensures
            r.wf(),
            r.is_listener(),
            r.fileno == fileno,
            r.server_name is None,
            r.server_cfg == Some(cfg),
            r.engine_spec() == Engine::Server(session),
    {
        SSLSocket {
            stream: StreamKind::ServerListener(Engine::Server(session), listener),
            fileno,
            server_name: None,
            client_cfg: None,
            server_cfg: Some(cfg),
            in_buf: Vec::new(),
            in_off: 0,
        }
    }

    /// A fresh server-role session over a stream `accept` produced, in
    /// the handshaking state.
    pub(crate) fn new_server_stream(
        cfg: Arc<rustls::ServerConfig>,
        fileno: i32,
        session: rustls::ServerSession,
        stream: BorrowedTcpStream<T>,
    ) -> (r: SSLSocket<T>)
        ensures
            r.wf(),
            !r.is_listener(),
            r.fileno == fileno,
            r.server_name is None,
            r.server_cfg == Some(cfg),
            r.engine_spec() == Engine::Server(session),
    {
        SSLSocket {
            stream: StreamKind::ServerStream(Engine::Server(session), stream),
            fileno,
            server_name: None,
            client_cfg: None,
            server_cfg: Some(cfg),
            in_buf: Vec::new(),
            in_off: 0,
        }
    }

    /// Drive the handshake to completion: one blocking I/O call per
    /// iteration, writes before reads when the engine wants both, until
    /// the engine reports the handshake complete — success means exactly
    /// that it no longer does.  On an already-completed session nothing
    /// runs and nothing changes.  A listening session whose engine is
    /// still handshaking cannot drive I/O: that is invalid.  Any
    /// transport or protocol error aborts at once, and the session must
    /// then be discarded.  (The loop carries an unspendable iteration
    /// budget purely so its termination is checkable; see `DRIVE_FUEL`.)
    pub fn do_handshake(&mut self) -> (r: Result<(), TlsError>)
        requires
            old(self).wf(),
        ensures
            final(self).wf(),
            final(self).fileno == old(self).fileno,
            final(self).server_name == old(self).server_name,
            final(self).client_cfg == old(self).client_cfg,
            final(self).server_cfg == old(self).server_cfg,
            final(self).is_listener() == old(self).is_listener(),
            r is Ok ==> !engine_hs(final(self).engine_spec()),
            !engine_hs(old(self).engine_spec()) ==> r is Ok && *final(self) == *old(self),
            old(self).is_listener() ==> *final(self) == *old(self) && (r is Ok <==> !engine_hs(old(self).engine_spec())) && (r is Err ==> r == Err::<(), TlsError>(TlsError::InvalidState)),
    {
        match &mut self.stream {
            StreamKind::ClientStream(e, s) => {
                complete_handshake_io(e, s, &mut self.in_buf, &mut self.in_off)
            },
            StreamKind::ServerStream(e, s) => {
                complete_handshake_io(e, s, &mut self.in_buf, &mut self.in_off)
            },
            StreamKind::ServerListener(e, _) => {
                if engine_is_handshaking(e) {
                    Err(TlsError::InvalidState)
                } else {
                    Ok(())
                }
            },
        }
    }

    /// Receive at most `bufsize` plaintext bytes; fewer may arrive, and
    /// zero signifies a cleanly closed stream.  Invalid on a listening
    /// session.
    pub fn recv(&mut self, bufsize: usize) -> (r: Result<Vec<u8>, TlsError>)
        requires
            old(self).wf(),
        ensures
            final(self).wf(),
            final(self).fileno == old(self).fileno,
            final(self).server_name == old(self).server_name,
            final(self).client_cfg == old(self).client_cfg,
            final(self).server_cfg == old(self).server_cfg,
            final(self).is_listener() == old(self).is_listener(),
            r matches Ok(v) ==> v@.len() <= bufsize,
            old(self).is_listener() ==> r == Err::<Vec<u8>, TlsError>(TlsError::InvalidState)
                && *final(self) == *old(self),
    {
        match &mut self.stream {
            StreamKind::ClientStream(e, s) => {
                let mut buf: Vec<u8> = vec![0u8; bufsize];
                let got = match stream_read(e, s, &mut self.in_buf, &mut self.in_off, &mut buf) {
                    Ok(n) => n,
                    Err(er) => {
                        return Err(er);
                    },
                };
                buf.truncate(got);
                Ok(buf)
            },
            StreamKind::ServerStream(e, s) => {
                let mut buf: Vec<u8> = vec![0u8; bufsize];
                let got = match stream_read(e, s, &mut self.in_buf, &mut self.in_off, &mut buf) {
                    Ok(n) => n,
                    Err(er) => {
                        return Err(er);
                    },
                };
                buf.truncate(got);
                Ok(buf)
            },
            StreamKind::ServerListener(_, _) => Err(TlsError::InvalidState),
        }
    }

    /// Receive into a caller-supplied buffer, whose shape the embedding
    /// layer reports: it must be writable and one-dimensional, else the
    /// call is rejected before any I/O.
    pub fn recv_into(&mut self, buf: &mut Vec<u8>, readonly: bool, dimensions: usize) -> (r: Result<
        usize,
        TlsError,
    >)
        requires
            old(self).wf(),
        ensures
            final(self).wf(),
            final(self).fileno == old(self).fileno,
            final(self).server_name == old(self).server_name,
            final(self).client_cfg == old(self).client_cfg,
            final(self).server_cfg == old(self).server_cfg,
            final(self).is_listener() == old(self).is_listener(),
            final(buf)@.len() == old(buf)@.len(),
            r matches Ok(n) ==> n <= final(buf)@.len(),
            r matches Ok(n) ==> final(buf)@.skip(n as int) == old(buf)@.skip(n as int),
            readonly ==> r == Err::<usize, TlsError>(TlsError::InvalidArgument) && *final(self) == *old(self) && *final(buf) == *old(buf),
            !readonly && dimensions != 1 ==> r == Err::<usize, TlsError>(TlsError::InvalidArgument)
                && *final(self) == *old(self) && *final(buf) == *old(buf),
            !readonly && dimensions == 1 && old(self).is_listener() ==> r == Err::<usize, TlsError>(
                TlsError::InvalidState,
            ) && *final(self) == *old(self) && *final(buf) == *old(buf),
    {
        if readonly {
            return Err(TlsError::InvalidArgument);
        }
        if dimensions != 1 {
            return Err(TlsError::InvalidArgument);
        }
        match &mut self.stream {
            StreamKind::ClientStream(e, s) => {
                stream_read(e, s, &mut self.in_buf, &mut self.in_off, buf)
            },
            StreamKind::ServerStream(e, s) => {
                stream_read(e, s, &mut self.in_buf, &mut self.in_off, buf)
            },
            StreamKind::ServerListener(_, _) => Err(TlsError::InvalidState),
        }
    }

    /// One plaintext write; the count actually accepted is returned and a
    /// short write is not retried here.  Invalid on a listening session.
    pub fn send(&mut self, bytes: &[u8]) -> (r: Result<usize, TlsError>)
        requires
            old(self).wf(),
        ensures
            final(self).wf(),
            final(self).fileno == old(self).fileno,
            final(self).server_name == old(self).server_name,
            final(self).client_cfg == old(self).client_cfg,
            final(self).server_cfg == old(self).server_cfg,
            final(self).is_listener() == old(self).is_listener(),
            r matches Ok(n) ==> n <= bytes@.len(),
            old(self).is_listener() ==> r == Err::<usize, TlsError>(TlsError::InvalidState)
                && *final(self) == *old(self),
    {
        match &mut self.stream {
            StreamKind::ClientStream(e, s) => {
                stream_write(e, s, &mut self.in_buf, &mut self.in_off, bytes)
            },
            StreamKind::ServerStream(e, s) => {
                stream_write(e, s, &mut self.in_buf, &mut self.in_off, bytes)
            },
            StreamKind::ServerListener(_, _) => Err(TlsError::InvalidState),
        }
    }

    /// Write every byte of `bytes`, looping over as many short writes as
    /// the engine needs, and only return once all of them have been
    /// accepted and the resulting records pushed out (the loop's count of
    /// accepted bytes is proved to reach the full length).  Invalid on a
    /// listening session.
    pub fn sendall(&mut self, bytes: &[u8]) -> (r: Result<(), TlsError>)
        requires
            old(self).wf(),
        ensures
            final(self).wf(),
            final(self).fileno == old(self).fileno,
            final(self).server_name == old(self).server_name,
            final(self).client_cfg == old(self).client_cfg,
            final(self).server_cfg == old(self).server_cfg,
            final(self).is_listener() == old(self).is_listener(),
            old(self).is_listener() ==> r == Err::<(), TlsError>(TlsError::InvalidState)
                && *final(self) == *old(self),
    {
        match &mut self.stream {
            StreamKind::ClientStream(e, s) => {
                match stream_write_all(e, s, &mut self.in_buf, &mut self.in_off, bytes) {
                    Ok(accepted) => {
                        proof {
                            assert(accepted == bytes@.len());
                        }
                        Ok(())
                    },
                    Err(er) => Err(er),
                }
            },
            StreamKind::ServerStream(e, s) => {
                match stream_write_all(e, s, &mut self.in_buf, &mut self.in_off, bytes) {
                    Ok(accepted) => {
                        proof {
                            assert(accepted == bytes@.len());
                        }
                        Ok(())
                    },
                    Err(er) => Err(er),
                }
            },
            StreamKind::ServerListener(_, _) => Err(TlsError::InvalidState),
        }
    }

    /// The no-buffer read form: like `recv`.  (With a caller-supplied
    /// buffer the embedding layer calls `recv_into` instead.)
    pub fn read(&mut self, len: usize) -> (r: Result<Vec<u8>, TlsError>)
        requires
            old(self).wf(),
        ensures
            final(self).wf(),
            final(self).fileno == old(self).fileno,
            final(self).is_listener() == old(self).is_listener(),
            r matches Ok(v) ==> v@.len() <= len,
            old(self).is_listener() ==> r == Err::<Vec<u8>, TlsError>(TlsError::InvalidState),
    {
        self.recv(len)
    }

    /// An alias of `send`.
    pub fn write(&mut self, bytes: &[u8]) -> (r: Result<usize, TlsError>)
        requires
            old(self).wf(),
        ensures
            final(self).wf(),
            final(self).fileno == old(self).fileno,
            final(self).is_listener() == old(self).is_listener(),
            r matches Ok(n) ==> n <= bytes@.len(),
            old(self).is_listener() ==> r == Err::<usize, TlsError>(TlsError::InvalidState),
    {
        self.send(bytes)
    }

    /// Take one connection the caller accepted on the borrowed listener:
    /// a fresh server-role session over it, sharing this session's server
    /// configuration, in the handshaking state — the caller drives its
    /// handshake separately.  Invalid on anything but a listening
    /// session, and on a listening session whose shared configuration has
    /// been taken away (constructors always install one).  The listener
    /// itself is untouched.
    pub fn accept(&mut self, transport: T, peer_fd: i32) -> (r: Result<SSLSocket<T>, TlsError>)
        requires
            old(self).wf(),
        ensures
            *final(self) == *old(self),
            !old(self).is_listener() ==> r == Err::<SSLSocket<T>, TlsError>(TlsError::InvalidState),
            old(self).is_listener() && old(self).server_cfg is None ==> r == Err::<
                SSLSocket<T>,
                TlsError,
            >(TlsError::InvalidState),
            old(self).is_listener() ==> (old(self).server_cfg matches Some(cfg) ==> (r matches Ok(c)
                && c.wf() && !c.is_listener() && c.fileno == peer_fd && c.server_name is None
                && c.server_cfg == Some(cfg) && engine_hs(c.engine_spec()))),
    {
        match &self.stream {
            StreamKind::ServerListener(_, listener) => {
                let cfg = match &self.server_cfg {
                    Some(c) => arc_clone_server_cfg(c),
                    None => {
                        return Err(TlsError::InvalidState);
                    },
                };
                let stream = listener.accept(transport, peer_fd);
                let sess = server_session_new(&cfg);
                Ok(SSLSocket::new_server_stream(cfg, peer_fd, sess, stream))
            },
            _ => Err(TlsError::InvalidState),
        }
    }

    /// The raw descriptor value this session reports for introspection.
    pub fn fileno(&self) -> (r: i32)
        ensures
            r == self.fileno,
    {
        self.fileno
    }

    /// The server name a client session was built for.
    pub fn server_hostname(&self) -> (r: Option<&String>)
        ensures
            r is Some <==> self.server_name is Some,
            r matches Some(n) ==> self.server_name == Some(*n),
    {
        self.server_name.as_ref()
    }

    /// The negotiated protocol version under its conventional short name,
    /// once the handshake has chosen one: exactly when the engine reports
    /// a version code, its name per [`version_name_spec`].
    pub fn version(&self) -> (r: Option<String>)
        ensures
            r is Some <==> engine_version_spec(self.engine_spec()) is Some,
            engine_version_spec(self.engine_spec()) matches Some(code) ==> (r matches Some(v) && v@
                == version_name_spec(code) && v@.len() > 0),
    {
        let e = match &self.stream {
            StreamKind::ClientStream(e, _) => e,
            StreamKind::ServerStream(e, _) => e,
            StreamKind::ServerListener(e, _) => e,
        };
        match engine_version(e) {
            Some(code) => Some(version_name(code)),
            None => None,
        }
    }

    /// The negotiated cipher suite as (name, protocol version, secret bit
    /// length): `Some` exactly when both a version and a suite have been
    /// negotiated; the name is the negotiated suite's, the version string
    /// is the one `version` reports, and the bit length is eight times
    /// the suite's key length.
    pub fn cipher(&self) -> (r: Option<(String, String, usize)>)
        ensures
            r is Some <==> (engine_version_spec(self.engine_spec()) is Some && engine_suite_spec(
                self.engine_spec(),
            ) is Some),
            r matches Some(t) ==> (engine_suite_spec(self.engine_spec()) matches Some(code) && t.0@
                == suite_name(code) && t.2 == 8 * suite_key_len(code) && t.2 <= 256),
            r matches Some(t) ==> (engine_version_spec(self.engine_spec()) matches Some(vc) && t.1@
                == version_name_spec(vc)),
    {
        let e = match &self.stream {
            StreamKind::ClientStream(e, _) => e,
            StreamKind::ServerStream(e, _) => e,
            StreamKind::ServerListener(e, _) => e,
        };
        let version = match self.version() {
            Some(v) => v,
            None => {
                return None;
            },
        };
        match engine_suite(e) {
            Some((name, code, key_len)) => {
                let bits: usize = key_len * 8;
                Some((name, version, bits))
            },
            None => None,
        }
    }

    /// Compression information, which the engine does not expose.
    pub fn compression(&self) -> (r: Result<(), TlsError>)
        ensures
            r == Err::<(), TlsError>(TlsError::NotImplemented),
    {
        Err(TlsError::NotImplemented)
    }

    /// The application protocol the handshake agreed on, if any: `Some`
    /// exactly when the engine holds one, as the lossy UTF-8 decoding of
    /// its bytes.
    pub fn selected_alpn_protocol(&self) -> (r: Option<String>)
        ensures
            r is Some <==> engine_alpn_spec(self.engine_spec()) is Some,
            engine_alpn_spec(self.engine_spec()) matches Some(b) ==> (r matches Some(v) && v@
                == utf8_lossy(b)),
    {
        let e = match &self.stream {
            StreamKind::ClientStream(e, _) => e,
            StreamKind::ServerStream(e, _) => e,
            StreamKind::ServerListener(e, _) => e,
        };
        match engine_alpn(e) {
            Some(bytes) => Some(bytes_to_string_lossy(&bytes)),
            None => None,
        }
    }

    /// The next-protocol value, which the engine does not support at all.
    pub fn selected_npn_protocol(&self) -> (r: Option<String>)
        ensures
            r is None,
    {
        None
    }

    /// The peer's leaf certificate query.  Before the handshake has
    /// completed this is invalid; afterwards the leaf's raw DER bytes are
    /// returned when the binary form is requested, structured decoding is
    /// not implemented, and an absent peer certificate is `None`.
    pub fn get_peer_cert(&self, binary_form: bool) -> (r: Result<Option<Vec<u8>>, TlsError>)
        ensures
            r is Err ==> r == Err::<Option<Vec<u8>>, TlsError>(TlsError::InvalidState) || r
                == Err::<Option<Vec<u8>>, TlsError>(TlsError::NotImplemented),
            binary_form ==> r != Err::<Option<Vec<u8>>, TlsError>(TlsError::NotImplemented),
            engine_hs(self.engine_spec()) ==> r == Err::<Option<Vec<u8>>, TlsError>(
                TlsError::InvalidState,
            ),
            !engine_hs(self.engine_spec()) && engine_chain_spec(self.engine_spec()) is None ==> r
                == Ok::<Option<Vec<u8>>, TlsError>(None),
            !engine_hs(self.engine_spec()) ==> (engine_chain_spec(self.engine_spec()) matches Some(
                c,
            ) ==> ((c.len() == 0 ==> r == Ok::<Option<Vec<u8>>, TlsError>(None)) && (c.len() > 0
                && binary_form ==> (r matches Ok(o) && o matches Some(leaf) && leaf@ == c[0])) && (
            c.len() > 0 && !binary_form ==> r == Err::<Option<Vec<u8>>, TlsError>(
                TlsError::NotImplemented,
            )))),
    {
        let e = match &self.stream {
            StreamKind::ClientStream(e, _) => e,
            StreamKind::ServerStream(e, _) => e,
            StreamKind::ServerListener(e, _) => e,
        };
        let hs = engine_is_handshaking(e);
        let certs = engine_peer_certs(e);
        proof {
            match &certs {
                Some(v) => {
                    if v@.len() > 0 {
                        lemma_deep_view_leaf(v);
                    }
                },
                None => {},
            }
        }
        peer_cert_decision(hs, certs, binary_form)
    }
}

/// The first element of a byte-vector list's deep view is the first
/// vector's own view.
proof fn lemma_deep_view_leaf(v: &Vec<Vec<u8>>)
    requires
        v@.len() > 0,
    ensures
        v.deep_view()[0] == v@[0]@,
{
    assert(v.deep_view()[0] =~= v@[0]@);
}

/// What the peer-certificate query answers, as a function of the engine's
/// reports: before handshake completion the query is invalid; afterwards
/// the leaf's raw bytes are returned when the binary form was requested,
/// structured decoding is unimplemented, and no certificate gives `None`.
pub fn peer_cert_decision(handshaking: bool, certs: Option<Vec<Vec<u8>>>, binary_form: bool) -> (r:
    Result<Option<Vec<u8>>, TlsError>)
    ensures
        handshaking ==> r == Err::<Option<Vec<u8>>, TlsError>(TlsError::InvalidState),
        !handshaking && certs is None ==> r == Ok::<Option<Vec<u8>>, TlsError>(None),
        !handshaking && (certs matches Some(v) && v@.len() == 0) ==> r == Ok::<
            Option<Vec<u8>>,
            TlsError,
        >(None),
        !handshaking && binary_form ==> (certs matches Some(v) ==> (v@.len() > 0 ==> (r matches Ok(
        o,
        ) && o matches Some(leaf) && leaf@ == v@[0]@))),
        !handshaking && (certs matches Some(v) && v@.len() > 0) && !binary_form ==> r == Err::<
            Option<Vec<u8>>,
            TlsError,
        >(TlsError::NotImplemented),
{
    if handshaking {
        return Err(TlsError::InvalidState);
    }
    match certs {
        None => Ok(None),
        Some(mut v) => {
            if v.len() == 0 {
                Ok(None)
            } else if binary_form {
                let leaf = v.remove(0);
                Ok(Some(leaf))
            } else {
                Err(TlsError::NotImplemented)
            }
        },
    }
}

/// The conventional short name of a protocol version code: the names the
/// embedding layer expects for the TLS versions, the customary ones for
/// the legacy SSL codes, and a fixed marker for anything else.
pub open spec fn version_name_spec(code: u16) -> Seq<char> {
    if code == 0x0301 {
        "TLSv1"@
    } else if code == 0x0302 {
        "TLSv1.1"@
    } else if code == 0x0303 {
        "TLSv1.2"@
    } else if code == 0x0304 {
        "TLSv1.3"@
    } else if code == 0x0300 {
        "SSLv3"@
    } else if code == 0x0200 {
        "SSLv2"@
    } else {
        "Unknown"@
    }
}

/// The executable form of [`version_name_spec`].
pub fn version_name(code: u16) -> (r: String)
    ensures
        r@ == version_name_spec(code),
        r@.len() > 0,
{
    proof {
        reveal_strlit("TLSv1");
        reveal_strlit("TLSv1.1");
        reveal_strlit("TLSv1.2");
        reveal_strlit("TLSv1.3");
        reveal_strlit("SSLv3");
        reveal_strlit("SSLv2");
        reveal_strlit("Unknown");
    }
    let name: &str = if code == 0x0301 {
        "TLSv1"
    } else if code == 0x0302 {
        "TLSv1.1"
    } else if code == 0x0303 {
        "TLSv1.2"
    } else if code == 0x0304 {
        "TLSv1.3"
    } else if code == 0x0300 {
        "SSLv3"
    } else if code == 0x0200 {
        "SSLv2"
    } else {
        "Unknown"
    };
    name.to_owned()
}

} // verus!
