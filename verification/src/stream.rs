//! Borrowed, non-owning wrappers around the caller's TCP descriptors.
//!
//! The OS socket itself stays with the embedding layer, which hands the
//! session a [`Transport`] implementation together with the descriptor's
//! protocol family and number.  The wrappers here validate the family,
//! carry the descriptor value for introspection, and give it back
//! untouched on release: no close is ever issued by this crate.

use vstd::prelude::*;

use crate::errors::TlsError;
use crate::socket::TCP_PROTO;

verus! {

/// The byte transport of a borrowed, connected TCP stream.
///
/// The embedding layer implements this for the real OS socket; tests may
/// implement it with scripted fakes.  Both `send` and `recv` follow
/// blocking-socket semantics: each performs one underlying call and may
/// report a short count; a count of zero from `recv` signifies a cleanly
/// closed stream.
pub trait Transport {
    /// Send a prefix of `data`, returning how many bytes were accepted.
    fn send(&mut self, data: &[u8]) -> (r: Result<usize, TlsError>)
        ensures
            r matches Ok(n) ==> n <= data@.len(),
    ;

    /// Receive into the front of `buf`, without changing its length,
    /// returning how many bytes were placed.
    fn recv(&mut self, buf: &mut Vec<u8>) -> (r: Result<usize, TlsError>)
        ensures
            final(buf)@.len() == old(buf)@.len(),
            r matches Ok(n) ==> n <= final(buf)@.len(),
    ;

    /// Flush whatever the transport itself buffers.
    fn flush(&mut self) -> Result<(), TlsError>;
}

/// A connected TCP stream borrowed from the caller: the transport plus the
/// caller's descriptor value, which this wrapper reports but never owns.
pub struct BorrowedTcpStream<T> {
    /// The caller's byte transport over the descriptor.
    pub transport: T,
    /// The caller's raw descriptor value, kept for introspection.
    pub fd: i32,
}

impl<T: Transport> BorrowedTcpStream<T> {
    /// Wrap an externally supplied socket.  The socket must report the TCP
    /// protocol family; anything else is rejected before any use.
    pub fn from_external(proto: i32, fd: i32, transport: T) -> (r: Result<
        BorrowedTcpStream<T>,
        TlsError,
    >)
        ensures
            proto == TCP_PROTO ==> (r matches Ok(s) && s.fd == fd && s.transport == transport),
            proto != TCP_PROTO ==> r == Err::<BorrowedTcpStream<T>, TlsError>(
                TlsError::InvalidSocketKind,
            ),
    {
        if proto != TCP_PROTO {
            Err(TlsError::InvalidSocketKind)
        } else {
            Ok(BorrowedTcpStream { transport, fd })
        }
    }

    /// The caller's raw descriptor value.
    pub fn fd(&self) -> (r: i32)
        ensures
            r == self.fd,
    {
        self.fd
    }

    /// Give the borrowed transport and descriptor back, both untouched.
    /// The wrapper owns no OS handle, so no close happens here or on drop:
    /// the descriptor remains the caller's to use.
    pub fn release(self) -> (r: (T, i32))
        ensures
            r.0 == self.transport,
            r.1 == self.fd,
    {
        (self.transport, self.fd)
    }

    /// One receive call on the transport; a short or empty read is a
    /// result, not an error.
    pub fn read(&mut self, buf: &mut Vec<u8>) -> (r: Result<usize, TlsError>)
        ensures
            final(self).fd == old(self).fd,
            final(buf)@.len() == old(buf)@.len(),
            r matches Ok(n) ==> n <= final(buf)@.len(),
    {
        self.transport.recv(buf)
    }

    /// One send call on the transport; a short write is a result, not an
    /// error and is not retried here.
    pub fn write(&mut self, data: &[u8]) -> (r: Result<usize, TlsError>)
        ensures
            final(self).fd == old(self).fd,
            r matches Ok(n) ==> n <= data@.len(),
    {
        self.transport.send(data)
    }

    /// Send all of `data`, looping over as many short writes as the
    /// transport needs; returns only once every byte has been accepted.
    /// A write that accepts nothing is reported as an I/O error.
    pub fn write_all(&mut self, data: &[u8]) -> (r: Result<usize, TlsError>)
        ensures
            final(self).fd == old(self).fd,
            r matches Ok(n) ==> n == data@.len(),
    {
        let len: usize = data.len();
        let mut off: usize = 0;
        while off < len
            invariant
                len == data@.len(),
                off <= len,
                self.fd == old(self).fd,
            decreases len - off,
        {
            let part = vstd::slice::slice_subrange(data, off, len);
            let sent = match self.transport.send(part) {
                Ok(n) => n,
                Err(e) => {
                    return Err(e);
                },
            };
            if sent == 0 {
                return Err(TlsError::Io);
            }
            off = off + sent;
        }
        Ok(off)
    }

    /// Flush the transport.
    pub fn flush(&mut self) -> (r: Result<(), TlsError>)
        ensures
            final(self).fd == old(self).fd,
    {
        self.transport.flush()
    }
}

/// A listening TCP socket borrowed from the caller.  Only its descriptor
/// is held here; the blocking OS-level accept stays with the caller, who
/// hands the freshly connected transport back through [`Self::accept`].
pub struct BorrowedTcpListener {
    /// The caller's raw descriptor value, kept for introspection.
    pub fd: i32,
}

impl BorrowedTcpListener {
    /// Wrap an externally supplied listening socket, validating that it
    /// reports the TCP protocol family.
    pub fn from_external(proto: i32, fd: i32) -> (r: Result<BorrowedTcpListener, TlsError>)
        ensures
            proto == TCP_PROTO ==> (r matches Ok(s) && s.fd == fd),
            proto != TCP_PROTO ==> r == Err::<BorrowedTcpListener, TlsError>(
                TlsError::InvalidSocketKind,
            ),
    {
        if proto != TCP_PROTO {
            Err(TlsError::InvalidSocketKind)
        } else {
            Ok(BorrowedTcpListener { fd })
        }
    }

    /// The caller's raw descriptor value.
    pub fn fd(&self) -> (r: i32)
        ensures
            r == self.fd,
    {
        self.fd
    }

    /// Wrap a connection the caller accepted on this listener.  The new
    /// stream carries the accepted connection's own descriptor value,
    /// which is the authoritative one for introspection.
    pub fn accept<T: Transport>(&self, transport: T, peer_fd: i32) -> (r: BorrowedTcpStream<T>)
        ensures
            r.fd == peer_fd,
            r.transport == transport,
    {
        BorrowedTcpStream { transport, fd: peer_fd }
    }

    /// Give the borrowed descriptor back untouched; no close happens here
    /// or on drop.
    pub fn release(self) -> (r: i32)
        ensures
            r == self.fd,
    {
        self.fd
    }
}

} // verus!
