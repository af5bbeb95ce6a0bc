//! The failure taxonomy of the session layer.

use vstd::prelude::*;

verus! {

/// Every failure the session layer reports.
///
/// Validation errors are returned by the call that receives the bad input;
/// protocol errors are fatal to their session, which must be discarded.
#[derive(Clone, Copy, Debug, PartialEq, Eq, Structural)]
pub enum TlsError {
    /// A bad hostname, a bad buffer shape, or an unusable `cadata` value.
    InvalidArgument,
    /// The supplied socket does not report the TCP protocol family.
    InvalidSocketKind,
    /// A feature the layer deliberately does not provide (CA-directory
    /// trust sources, compression introspection, structured certificates).
    NotImplemented,
    /// Malformed PEM or DER trust-root material.
    TrustStoreError,
    /// The protocol engine rejected handshake or record data.
    Protocol,
    /// An operation invoked on a session role or phase that forbids it.
    InvalidState,
    /// An error of the underlying descriptor, propagated from the caller's
    /// transport.
    Io,
}

impl TlsError {
    /// Wrap a rejection of the protocol engine.  The engine's error value
    /// carries no data this layer interprets, so only the category is kept.
    pub fn new(_err: rustls::TLSError) -> (r: TlsError)
        ensures
            r == TlsError::Protocol,
    {
        TlsError::Protocol
    }

    /// A short human-readable description of the error.
    pub fn message(&self) -> (m: &'static str)
        ensures
            m@.len() > 0,
    {
        let m: &'static str = match self {
            TlsError::InvalidArgument => "invalid argument",
            TlsError::InvalidSocketKind => "expected a TCP socket",
            TlsError::NotImplemented => "not implemented",
            TlsError::TrustStoreError => "malformed trust-root material",
            TlsError::Protocol => "the TLS engine rejected the peer's data",
            TlsError::InvalidState => "operation not valid in this session state",
            TlsError::Io => "transport I/O error",
        };
        proof {
            reveal_strlit("invalid argument");
            reveal_strlit("expected a TCP socket");
            reveal_strlit("not implemented");
            reveal_strlit("malformed trust-root material");
            reveal_strlit("the TLS engine rejected the peer's data");
            reveal_strlit("operation not valid in this session state");
            reveal_strlit("transport I/O error");
        }
        m
    }
}

} // verus!
