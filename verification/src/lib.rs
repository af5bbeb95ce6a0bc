//! A secure-transport session layer over a caller-owned TCP socket.
//!
//! The crate multiplexes a TLS handshake/record protocol engine (rustls)
//! over a borrowed socket descriptor and gives the owning application
//! plain byte-stream semantics.  The protocol engine itself is treated as
//! an opaque collaborator behind a small set of trusted declarations; the
//! session state machine, trust-store precedence, validation and buffering
//! logic around it are verified.

pub mod context;
pub mod engine;
pub mod errors;
pub mod socket;
pub mod stream;

use vstd::prelude::*;

use crate::context::CaData;
use crate::context::Context;
use crate::errors::TlsError;

verus! {

/// Build a configuration object from the caller-supplied trust options.
///
/// Exactly zero or one of `cafile` / `capath` / `cadata` is expected to be
/// meaningful; when none is given, the platform's native trust roots are
/// used on first client-configuration build.
pub fn create_default_context(
    cafile: Option<String>,
    capath: Option<String>,
    cadata: Option<CaData>,
) -> (r: Result<Context, TlsError>)
    ensures
        r matches Ok(c) ==> c == (Context {
            client_cfg: None,
            server_cfg: None,
            cafile: cafile,
            capath: capath,
            cadata: cadata,
        }),
        r is Ok,
{
    Ok(Context::new(cafile, capath, cadata))
}

} // verus!
