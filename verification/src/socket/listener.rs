//! A listening socket and the acceptance of connections.

use std::marker::PhantomData;
use vstd::prelude::*;
use crate::addr::{ByteOrder, Domain, FromSockAddr};
use crate::error::SocketError;
use crate::socket::bound::BoundSocket;
use crate::socket::stream::ConnectedStream;
use crate::socket::{mode_change, mode_change_result, FlagUpdate, Outcome, Stream};
use crate::sys;

verus! {

/// A listening socket ready to accept connections. It exists for stream
/// sockets only.
pub struct Listener<D: Domain> {
    fd: i32,
    _marker: PhantomData<D>,
}

/// Result of a non-blocking accept attempt: what the attempt found, not a
/// stage of the listener, which stays a listener in every case.
pub enum AcceptResult<D: Domain> where D::Addr: FromSockAddr {
    /// A connection was accepted. The stream is connected; that it can be
    /// read or written without blocking is not implied.
    Connection(ConnectedStream<D>, D::Addr),
    /// No connection is pending. This is not an error: the caller waits for
    /// readiness or tries again.
    WouldBlock,
    /// A signal interrupted the call. The caller may try again at once.
    Interrupted,
}

/// The flags of an accepting call: the new descriptor is closed when the
/// process is replaced, and is non-blocking where the attempt is.
pub open spec fn accept_flags_of(nonblocking: bool) -> i32 {
    if nonblocking {
        2048 | 524288
    } else {
        524288
    }
}

impl<D: Domain> Listener<D> {
    /// The descriptor that the handle owns.
    pub closed spec fn descriptor(&self) -> i32 {
        self.fd
    }

    /// Creates the handle that owns `fd`.
    pub(crate) fn from_fd(fd: i32) -> (s: Self)
        ensures
            s.descriptor() == fd,
    {
        Self { fd, _marker: PhantomData }
    }

    /// Takes ownership of a descriptor that is listening.
    pub fn from_descriptor(fd: i32) -> (s: Self)
        ensures
            s.descriptor() == fd,
    {
        Self::from_fd(fd)
    }

    /// Returns the raw file descriptor. Does not transfer ownership.
    #[inline]
    pub fn as_raw_fd(&self) -> (fd: i32)
        ensures
            fd == self.descriptor(),
    {
        self.fd
    }

    /// Gives up the handle and returns the descriptor, which the caller now
    /// owns.
    pub fn into_raw_fd(self) -> (fd: i32)
        ensures
            fd == self.descriptor(),
    {
        self.fd
    }

    /// Starts setting the listener to non-blocking or blocking mode, from what
    /// reading the descriptor's status flags gave back. The stage of the
    /// handle does not change: the mode is a property of the descriptor.
    pub fn set_nonblocking(&self, nonblocking: bool, got: Outcome) -> (r: Result<
        FlagUpdate,
        SocketError,
    >)
        ensures
            r == mode_change_result(self.descriptor(), nonblocking, got),
    {
        mode_change(self.fd, nonblocking, got)
    }

    /// The flags to hand to the accepting call.
    pub fn accept_flags(nonblocking: bool) -> (flags: i32)
        ensures
            flags == accept_flags_of(nonblocking),
    {
        if nonblocking {
            sys::sock_nonblock() | sys::sock_cloexec()
        } else {
            sys::sock_cloexec()
        }
    }

    /// Accepts an incoming connection, blocking semantics: decides from what
    /// the accepting call gave back. Every failure of the call is an error
    /// here, that no connection is pending on a non-blocking listener
    /// included. On success the stream owns the new descriptor.
    pub fn accept(&self, done: Outcome) -> (r: Result<ConnectedStream<D>, SocketError>)
        ensures
            done.ret == -1 ==> r == Err::<ConnectedStream<D>, SocketError>(
                SocketError::Accept { errno: done.errno },
            ),
            done.ret != -1 ==> r is Ok && r->Ok_0.descriptor() == done.ret,
    {
        if done.ret == -1 {
            return Err(SocketError::Accept { errno: done.errno });
        }
        Ok(ConnectedStream::from_fd(done.ret))
    }
}

impl<D: Domain> Listener<D> where D::Addr: FromSockAddr {
    /// Accepts a connection, returning the client's address: decides from
    /// what the accepting call gave back, `raw` being the buffer that it
    /// filled with the client's address and `len` the length it reported.
    pub fn accept_with_addr(&self, done: Outcome, raw: &[u8], len: u32, order: ByteOrder) -> (r:
        Result<(ConnectedStream<D>, D::Addr), SocketError>)
        ensures
            done.ret == -1 ==> r == Err::<(ConnectedStream<D>, D::Addr), SocketError>(
                SocketError::Accept { errno: done.errno },
            ),
            done.ret != -1 ==> match D::Addr::parsed(raw@, len, order) {
                Some(a) => r matches Ok(got) && got.0.descriptor() == done.ret && got.1@ == a,
                None => r == Err::<(ConnectedStream<D>, D::Addr), SocketError>(
                    SocketError::InvalidAddress { reason: "invalid client address" },
                ),
            },
    {
        if done.ret == -1 {
            return Err(SocketError::Accept { errno: done.errno });
        }
        let stream = ConnectedStream::from_fd(done.ret);
        match D::Addr::from_sockaddr_with(raw, len, order) {
            Some(addr) => Ok((stream, addr)),
            None => Err(SocketError::InvalidAddress { reason: "invalid client address" }),
        }
    }

    /// Attempts to accept a connection without blocking: decides from what
    /// the accepting call gave back. That no connection is pending, and that
    /// a signal interrupted the call, are outcomes and no errors; every
    /// other failure of the call is an error.
    pub fn accept_nonblocking(&self, done: Outcome, raw: &[u8], len: u32, order: ByteOrder) -> (r:
        Result<AcceptResult<D>, SocketError>)
        ensures
            done.ret == -1 && done.errno == 11 ==> r matches Ok(AcceptResult::WouldBlock),
            done.ret == -1 && done.errno == 4 ==> r matches Ok(AcceptResult::Interrupted),
            done.ret == -1 && done.errno != 11 && done.errno != 4 ==> r == Err::<
                AcceptResult<D>,
                SocketError,
            >(SocketError::Accept { errno: done.errno }),
            done.ret != -1 ==> match D::Addr::parsed(raw@, len, order) {
                Some(a) => r matches Ok(AcceptResult::Connection(s, peer)) && s.descriptor()
                    == done.ret && peer@ == a,
                None => r == Err::<AcceptResult<D>, SocketError>(
                    SocketError::InvalidAddress { reason: "invalid client address" },
                ),
            },
    {
        if done.ret == -1 {
            if done.errno == sys::eagain() {
                return Ok(AcceptResult::WouldBlock);
            } else if done.errno == sys::eintr() {
                return Ok(AcceptResult::Interrupted);
            } else {
                return Err(SocketError::Accept { errno: done.errno });
            }
        }
        let stream = ConnectedStream::from_fd(done.ret);
        match D::Addr::from_sockaddr_with(raw, len, order) {
            Some(addr) => Ok(AcceptResult::Connection(stream, addr)),
            None => Err(SocketError::InvalidAddress { reason: "invalid client address" }),
        }
    }
}

impl<D: Domain> BoundSocket<D, Stream> {
    /// Transitions to a listening socket: decides from what the listening
    /// call gave back. `backlog` is the queue size that was asked for.
    /// Consumes self; on success the listener owns the descriptor.
    pub fn listen(self, backlog: i32, done: Outcome) -> (r: Result<Listener<D>, SocketError>)
        ensures
            done.ret == -1 ==> r == Err::<Listener<D>, SocketError>(
                SocketError::Listen { errno: done.errno, backlog },
            ),
            done.ret != -1 ==> r is Ok && r->Ok_0.descriptor() == self.descriptor(),
    {
        if done.ret == -1 {
            return Err(SocketError::Listen { errno: done.errno, backlog });
        }
        let fd = self.into_fd();
        Ok(Listener::from_fd(fd))
    }
}

} // verus!
