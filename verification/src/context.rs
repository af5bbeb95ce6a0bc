//! Configuration: trust-root resolution and lazily cached protocol
//! configurations shared by every session spawned from them.

use vstd::prelude::*;
use vstd::utf8::encode_utf8;

use std::sync::Arc;

use crate::engine::arc_clone_client_cfg;
use crate::engine::arc_clone_server_cfg;
use crate::engine::cfg_roots;
use crate::engine::client_config_with_roots;
use crate::engine::der_parses;
use crate::engine::der_root;
use crate::engine::load_native_roots;
use crate::engine::pem_parses;
use crate::engine::pem_roots;
use crate::engine::root_store_add_der;
use crate::engine::root_store_add_pem;
use crate::engine::root_store_empty;
use crate::engine::root_store_len;
use crate::engine::roots_of;
use crate::engine::client_session_new;
use crate::engine::dns_name_check;
use crate::engine::dns_valid;
use crate::engine::engine_hs;
use crate::engine::server_config_default;
use crate::engine::server_session_new;
use crate::errors::TlsError;
use crate::socket::SSLSocket;
use crate::socket::TCP_PROTO;
use crate::stream::BorrowedTcpListener;
use crate::stream::BorrowedTcpStream;
use crate::stream::Transport;

verus! {

/// Inline trust-root material: either a single DER certificate or PEM
/// text that may hold several certificates.  The embedding layer decides
/// which interpretation the caller's value admits.
pub enum CaData {
    /// A single DER-encoded certificate.
    Bytes(Vec<u8>),
    /// PEM text, possibly holding several certificates.
    Text(String),
}

/// Whether inline trust-root material is structurally valid: a DER
/// certificate that parses as a trust anchor, or PEM text that parses.
pub open spec fn cadata_parses(d: CaData) -> bool {
    match d {
        CaData::Bytes(b) => der_parses(b@),
        CaData::Text(t) => pem_parses(encode_utf8(t@)),
    }
}

/// Which of the alternative trust-root sources a configuration selects.
#[derive(Clone, Copy, Debug, PartialEq, Eq, Structural)]
pub enum TrustSourceKind {
    /// A PEM file named by path.
    File,
    /// A directory of certificates (deliberately unimplemented).
    Dir,
    /// Inline CA data.
    Data,
    /// The platform's native trust store.
    Native,
}

/// A configuration object: the configured trust source, plus the two
/// protocol configurations, each built lazily on first use and then
/// shared by every session of that role.
pub struct Context {
    /// The client-side configuration, once built.
    pub client_cfg: Option<Arc<rustls::ClientConfig>>,
    /// The server-side configuration, once built.
    pub server_cfg: Option<Arc<rustls::ServerConfig>>,
    /// Path of a PEM file of trust roots.
    pub cafile: Option<String>,
    /// Path of a directory of trust roots; always rejected when used.
    pub capath: Option<String>,
    /// Inline trust-root material.
    pub cadata: Option<CaData>,
}

/// What `get_client_config` produced: either the shared configuration, or
/// a request that the caller fetch the configured CA file's bytes and
/// resume through `client_config_from_file`.
pub enum ConfigOutcome {
    /// The shared client configuration, ready to build sessions from.
    Ready(Arc<rustls::ClientConfig>),
    /// The named CA file must be read first; the configuration is not yet
    /// built and nothing has been cached.
    NeedFile(String),
}

impl Context {
    /// The trust source this configuration selects, with the fixed
    /// precedence: CA file over CA directory over inline CA data over the
    /// platform's native roots.
    pub open spec fn trust_source(&self) -> TrustSourceKind {
        if self.cafile is Some {
            TrustSourceKind::File
        } else if self.capath is Some {
            TrustSourceKind::Dir
        } else if self.cadata is Some {
            TrustSourceKind::Data
        } else {
            TrustSourceKind::Native
        }
    }

    /// Trust precedence: whenever a CA file is configured, it is the
    /// selected source, whatever else is also set; the other sources are
    /// selected only when everything of higher precedence is absent.
    pub proof fn lemma_trust_precedence(&self)
        ensures
            self.cafile is Some ==> self.trust_source() == TrustSourceKind::File,
            self.cafile is None && self.capath is Some ==> self.trust_source()
                == TrustSourceKind::Dir,
            self.cafile is None && self.capath is None && self.cadata is Some
                ==> self.trust_source() == TrustSourceKind::Data,
            self.cafile is None && self.capath is None && self.cadata is None
                ==> self.trust_source() == TrustSourceKind::Native,
    {
    }

    /// Make a configuration object with nothing built yet.
    pub fn new(cafile: Option<String>, capath: Option<String>, cadata: Option<CaData>) -> (r:
        Context)
        ensures
            r == (Context { client_cfg: None, server_cfg: None, cafile, capath, cadata }),
    {
        Context { client_cfg: None, server_cfg: None, cafile, capath, cadata }
    }

    /// Resolve the configured trust source into a root certificate store.
    ///
    /// `cafile_contents` are the bytes of the configured CA file, fetched
    /// by the caller beforehand (fetch failures are the caller's I/O
    /// errors); they must be supplied exactly when a CA file is
    /// configured, and are consulted only then — so a CA file always wins
    /// over inline CA data, which in turn is never consulted together
    /// with it.
    pub fn get_trust_root(&self, cafile_contents: Option<&Vec<u8>>) -> (r: Result<
        rustls::RootCertStore,
        TlsError,
    >)
        requires
            self.trust_source() == TrustSourceKind::File ==> cafile_contents is Some,
        ensures
            self.trust_source() == TrustSourceKind::File ==> (cafile_contents matches Some(data)
                ==> {
                &&& (r is Ok <==> pem_parses(data@))
                &&& (r matches Ok(s) ==> roots_of(s) == pem_roots(data@))
                &&& (r is Err ==> r == Err::<rustls::RootCertStore, TlsError>(
                    TlsError::TrustStoreError,
                ))
            }),
            self.trust_source() == TrustSourceKind::Dir ==> r == Err::<
                rustls::RootCertStore,
                TlsError,
            >(TlsError::NotImplemented),
            self.trust_source() == TrustSourceKind::Data ==> (self.cadata matches Some(d) ==> {
                &&& (d matches CaData::Bytes(b) ==> {
                    &&& (r is Ok <==> der_parses(b@))
                    &&& (r matches Ok(s) ==> roots_of(s) == seq![der_root(b@)])
                })
                &&& (d matches CaData::Text(t) ==> {
                    &&& (r is Ok <==> pem_parses(encode_utf8(t@)))
                    &&& (r matches Ok(s) ==> roots_of(s) == pem_roots(encode_utf8(t@)))
                })
                &&& (r is Err ==> r == Err::<rustls::RootCertStore, TlsError>(
                    TlsError::TrustStoreError,
                ))
            }),
            self.trust_source() == TrustSourceKind::Native ==> (r is Err ==> r == Err::<
                rustls::RootCertStore,
                TlsError,
            >(TlsError::Io)),
    {
        if self.cafile.is_some() {
            match cafile_contents {
                Some(data) => {
                    let mut store = root_store_empty();
                    match root_store_add_pem(&mut store, data.as_slice()) {
                        Ok(_) => Ok(store),
                        Err(_) => Err(TlsError::TrustStoreError),
                    }
                },
                None => {
                    proof {
                        assert(false);
                    }
                    Err(TlsError::Io)
                },
            }
        } else if self.capath.is_some() {
            Err(TlsError::NotImplemented)
        } else {
            match &self.cadata {
                Some(CaData::Bytes(b)) => {
                    let mut store = root_store_empty();
                    match root_store_add_der(&mut store, b.as_slice()) {
                        Ok(_) => Ok(store),
                        Err(_) => Err(TlsError::TrustStoreError),
                    }
                },
                Some(CaData::Text(t)) => {
                    let mut store = root_store_empty();
                    match root_store_add_pem(&mut store, t.as_str().as_bytes()) {
                        Ok(_) => Ok(store),
                        Err(_) => Err(TlsError::TrustStoreError),
                    }
                },
                None => {
                    match load_native_roots() {
                        Ok(store) => Ok(store),
                        Err(_) => Err(TlsError::Io),
                    }
                },
            }
        }
    }

    /// The client configuration, built on first use and memoized: once a
    /// build has succeeded, every later call returns the identical shared
    /// handle and performs no resolution again; a failed build caches
    /// nothing, so the next call retries.  When the trust source is a CA
    /// file and nothing is cached yet, the caller is asked for the file's
    /// bytes instead, and this object is left untouched.
    pub fn get_client_config(&mut self) -> (r: Result<ConfigOutcome, TlsError>)
        ensures
            final(self).server_cfg == old(self).server_cfg,
            final(self).cafile == old(self).cafile,
            final(self).capath == old(self).capath,
            final(self).cadata == old(self).cadata,
            old(self).client_cfg matches Some(c) ==> r == Ok::<ConfigOutcome, TlsError>(
                ConfigOutcome::Ready(c),
            ) && final(self).client_cfg == old(self).client_cfg,
            old(self).client_cfg is None && old(self).trust_source() == TrustSourceKind::File ==> (
            old(self).cafile matches Some(p) ==> r == Ok::<ConfigOutcome, TlsError>(
                ConfigOutcome::NeedFile(p),
            ) && final(self).client_cfg is None),
            old(self).client_cfg is None && old(self).trust_source() == TrustSourceKind::Dir ==> r
                == Err::<ConfigOutcome, TlsError>(TlsError::NotImplemented) && final(self).client_cfg is None,
            old(self).client_cfg is None && old(self).trust_source() == TrustSourceKind::Data ==> (
            old(self).cadata matches Some(d) ==> {
                &&& (r is Ok <==> (d matches CaData::Bytes(b) && der_parses(b@)) || (
                d matches CaData::Text(t) && pem_parses(encode_utf8(t@))))
                &&& (r matches Ok(o) ==> (o matches ConfigOutcome::Ready(c) && final(self).client_cfg == Some(c) && (d matches CaData::Bytes(b) ==> cfg_roots(*c)
                    == seq![der_root(b@)]) && (d matches CaData::Text(t) ==> cfg_roots(*c)
                    == pem_roots(encode_utf8(t@)))))
                &&& (r is Err ==> r == Err::<ConfigOutcome, TlsError>(TlsError::TrustStoreError)
                    && final(self).client_cfg is None)
            }),
            old(self).client_cfg is None && old(self).trust_source() == TrustSourceKind::Native
                ==> {
                &&& (r matches Ok(o) ==> (o matches ConfigOutcome::Ready(c) && final(self).client_cfg == Some(c)))
                &&& (r is Err ==> r == Err::<ConfigOutcome, TlsError>(TlsError::Io) && final(self).client_cfg is None)
            },
    {
        match &self.client_cfg {
            Some(c) => {
                return Ok(ConfigOutcome::Ready(arc_clone_client_cfg(c)));
            },
            None => {},
        }
        match &self.cafile {
            Some(p) => {
                return Ok(ConfigOutcome::NeedFile(p.clone()));
            },
            None => {},
        }
        match self.get_trust_root(None) {
            Ok(store) => {
                let cfg = client_config_with_roots(store);
                let shared = Arc::new(cfg);
                let ret = arc_clone_client_cfg(&shared);
                self.client_cfg = Some(shared);
                Ok(ConfigOutcome::Ready(ret))
            },
            Err(e) => Err(e),
        }
    }

    /// Build the client configuration from the configured CA file's bytes
    /// (fetched by the caller) and memoize it.  If a configuration is
    /// already cached, it is returned unchanged and the bytes are not
    /// consulted — the resolution side effect happens at most once.
    pub fn client_config_from_file(&mut self, contents: &Vec<u8>) -> (r: Result<
        Arc<rustls::ClientConfig>,
        TlsError,
    >)
        ensures
            final(self).server_cfg == old(self).server_cfg,
            final(self).cafile == old(self).cafile,
            final(self).capath == old(self).capath,
            final(self).cadata == old(self).cadata,
            old(self).client_cfg matches Some(c) ==> r == Ok::<Arc<rustls::ClientConfig>, TlsError>(
                c,
            ) && final(self).client_cfg == old(self).client_cfg,
            old(self).client_cfg is None ==> {
                &&& (r is Ok <==> pem_parses(contents@))
                &&& (r matches Ok(c) ==> cfg_roots(*c) == pem_roots(contents@) && final(self).client_cfg == Some(c))
                &&& (r is Err ==> r == Err::<Arc<rustls::ClientConfig>, TlsError>(
                    TlsError::TrustStoreError,
                ) && final(self).client_cfg is None)
            },
    {
        match &self.client_cfg {
            Some(c) => {
                return Ok(arc_clone_client_cfg(c));
            },
            None => {},
        }
        let mut store = root_store_empty();
        match root_store_add_pem(&mut store, contents.as_slice()) {
            Ok(_) => {
                let cfg = client_config_with_roots(store);
                let shared = Arc::new(cfg);
                let ret = arc_clone_client_cfg(&shared);
                self.client_cfg = Some(shared);
                Ok(ret)
            },
            Err(_) => Err(TlsError::TrustStoreError),
        }
    }

    /// The server configuration, built on first use (a default with no
    /// client-certificate requirement; this build never fails) and then
    /// memoized: every later call returns the identical shared handle.
    pub fn get_server_config(&mut self) -> (r: Arc<rustls::ServerConfig>)
        ensures
            final(self).client_cfg == old(self).client_cfg,
            final(self).cafile == old(self).cafile,
            final(self).capath == old(self).capath,
            final(self).cadata == old(self).cadata,
            old(self).server_cfg matches Some(c) ==> r == c && final(self).server_cfg == old(self).server_cfg,
            old(self).server_cfg is None ==> final(self).server_cfg == Some(r),
    {
        match &self.server_cfg {
            Some(c) => {
                return arc_clone_server_cfg(c);
            },
            None => {},
        }
        let cfg = server_config_default();
        let shared = Arc::new(cfg);
        let ret = arc_clone_server_cfg(&shared);
        self.server_cfg = Some(shared);
        ret
    }
}

/// How the caller hands a socket to `wrap_socket`: a connected stream
/// comes with its byte transport; a listening socket stays with the
/// caller, who will perform the blocking accepts itself.
pub enum SocketArg<T> {
    /// A connected stream's transport.
    Stream(T),
    /// A listening socket; only its descriptor is borrowed.
    Listener,
}

/// What `wrap_socket` produced: a session, or a request that the caller
/// fetch the configured CA file first (the transport is handed back so
/// the call can be retried after `client_config_from_file`).
pub enum WrapOutcome<T> {
    /// The wrapped session.
    Socket(SSLSocket<T>),
    /// The named CA file must be read before a client session can be
    /// built; nothing has been consumed but the call itself.
    NeedCaFile(String, T),
}

impl Context {
    /// Bind a caller socket to a fresh session.
    ///
    /// For the client side (`server_side == false`) a syntactically valid
    /// DNS `server_hostname` is required, the shared client configuration
    /// is built (or fetched from the cache), and the socket must be a
    /// TCP stream; the handshake is driven to completion before returning
    /// when `do_handshake_on_connect` is set.  For the server side the
    /// socket is taken as a TCP listener and the session only accepts.
    /// No session is ever built over a socket whose protocol family is
    /// not TCP.
    pub fn wrap_socket<T: Transport>(
        &mut self,
        socket: SocketArg<T>,
        proto: i32,
        fd: i32,
        server_side: bool,
        server_hostname: Option<String>,
        do_handshake_on_connect: bool,
    ) -> (r: Result<WrapOutcome<T>, TlsError>)
        ensures
            !server_side && server_hostname is None ==> r == Err::<WrapOutcome<T>, TlsError>(
                TlsError::InvalidArgument,
            ) && *final(self) == *old(self),
            !server_side ==> (server_hostname matches Some(n) ==> (!dns_valid(n@) ==> r == Err::<
                WrapOutcome<T>,
                TlsError,
            >(TlsError::InvalidArgument) && *final(self) == *old(self))),
            proto != TCP_PROTO ==> !(r matches Ok(WrapOutcome::Socket(_))),
            server_side && (socket matches SocketArg::Stream(_)) ==> r == Err::<
                WrapOutcome<T>,
                TlsError,
            >(TlsError::InvalidArgument) && *final(self) == *old(self),
            server_side && (socket matches SocketArg::Listener) && proto != TCP_PROTO ==> r
                == Err::<WrapOutcome<T>, TlsError>(TlsError::InvalidSocketKind),
            server_side && (socket matches SocketArg::Listener) && proto == TCP_PROTO
                && !do_handshake_on_connect ==> (r matches Ok(o) && o matches WrapOutcome::Socket(s)
                && s.wf() && s.is_listener() && s.fileno == fd && s.server_name is None
                && s.server_cfg == final(self).server_cfg && final(self).server_cfg is Some
                && engine_hs(s.engine_spec())),
            !server_side && old(self).client_cfg is None ==> (server_hostname matches Some(n) ==> (
            socket matches SocketArg::Stream(t) ==> (old(self).cafile matches Some(p) ==> (
            dns_valid(n@) ==> r == Ok::<WrapOutcome<T>, TlsError>(WrapOutcome::NeedCaFile(p, t))
                && *final(self) == *old(self))))),
            !server_side && proto == TCP_PROTO && !do_handshake_on_connect ==> (
            server_hostname matches Some(n) ==> (socket matches SocketArg::Stream(_) ==> (old(
                self,
            ).client_cfg matches Some(c) ==> (dns_valid(n@) ==> (r matches Ok(o)
                && o matches WrapOutcome::Socket(s) && s.wf() && !s.is_listener() && s.fileno == fd
                && s.server_name == Some(n) && s.client_cfg == Some(c) && engine_hs(
                s.engine_spec(),
            )))))),
            !server_side && proto != TCP_PROTO ==> (server_hostname matches Some(n) ==> (
            socket matches SocketArg::Stream(_) ==> (old(self).client_cfg is Some ==> (dns_valid(
                n@,
            ) ==> r == Err::<WrapOutcome<T>, TlsError>(TlsError::InvalidSocketKind))))),
            !server_side && old(self).client_cfg is None && old(self).trust_source()
                == TrustSourceKind::Data ==> (server_hostname matches Some(n) ==> (
            socket matches SocketArg::Stream(_) ==> (dns_valid(n@) ==> (old(
                self,
            ).cadata matches Some(d) ==> ((!cadata_parses(d) ==> r == Err::<
                WrapOutcome<T>,
                TlsError,
            >(TlsError::TrustStoreError)) && (cadata_parses(d) && proto != TCP_PROTO ==> r == Err::<
                WrapOutcome<T>,
                TlsError,
            >(TlsError::InvalidSocketKind)) && (cadata_parses(d) && proto == TCP_PROTO
                && !do_handshake_on_connect ==> (r matches Ok(o) && o matches WrapOutcome::Socket(s)
                && s.wf() && !s.is_listener() && s.fileno == fd && s.server_name == Some(n)
                && s.client_cfg == final(self).client_cfg && final(self).client_cfg is Some
                && engine_hs(s.engine_spec())))))))),
            do_handshake_on_connect ==> (r matches Ok(o) ==> (o matches WrapOutcome::Socket(s)
                ==> !engine_hs(s.engine_spec()))),
            !server_side ==> (r matches Ok(o) ==> (o matches WrapOutcome::Socket(s)
                ==> !s.is_listener())),
    {
        if server_side {
            match socket {
                SocketArg::Listener => {
                    let cfg = self.get_server_config();
                    let sess = server_session_new(&cfg);
                    let listener = match BorrowedTcpListener::from_external(proto, fd) {
                        Ok(l) => l,
                        Err(er) => {
                            return Err(er);
                        },
                    };
                    let mut sock = SSLSocket::new_server(cfg, fd, sess, listener);
                    if do_handshake_on_connect {
                        match sock.do_handshake() {
                            Ok(_) => {},
                            Err(er) => {
                                return Err(er);
                            },
                        }
                    }
                    Ok(WrapOutcome::Socket(sock))
                },
                SocketArg::Stream(_) => Err(TlsError::InvalidArgument),
            }
        } else {
            let name = match server_hostname {
                Some(n) => n,
                None => {
                    return Err(TlsError::InvalidArgument);
                },
            };
            if !dns_name_check(name.as_str()) {
                return Err(TlsError::InvalidArgument);
            }
            let transport = match socket {
                SocketArg::Stream(t) => t,
                SocketArg::Listener => {
                    return Err(TlsError::InvalidArgument);
                },
            };
            let outcome = match self.get_client_config() {
                Ok(o) => o,
                Err(er) => {
                    return Err(er);
                },
            };
            let cfg = match outcome {
                ConfigOutcome::Ready(c) => c,
                ConfigOutcome::NeedFile(p) => {
                    return Ok(WrapOutcome::NeedCaFile(p, transport));
                },
            };
            let stream = match BorrowedTcpStream::from_external(proto, fd, transport) {
                Ok(s) => s,
                Err(er) => {
                    return Err(er);
                },
            };
            let sess = client_session_new(&cfg, name.as_str());
            let mut sock = SSLSocket::new_client(cfg, fd, name, sess, stream);
            if do_handshake_on_connect {
                match sock.do_handshake() {
                    Ok(_) => {},
                    Err(er) => {
                        return Err(er);
                    },
                }
            }
            Ok(WrapOutcome::Socket(sock))
        }
    }
}

/// How many roots a resolved store holds — an executable window onto the
/// store's contents model, for callers that inspect a resolution.
pub fn trust_root_size(s: &rustls::RootCertStore) -> (n: usize)
    ensures
        n == roots_of(*s).len(),
{
    root_store_len(s)
}

} // verus!
