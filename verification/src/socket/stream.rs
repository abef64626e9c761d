//! A connected stream socket.

use std::marker::PhantomData;
use vstd::prelude::*;
use crate::addr::{ByteOrder, Domain, FromSockAddr};
use crate::error::{IoError, SocketError};
use crate::socket::{mode_change, mode_change_result, FlagUpdate, Outcome, Transfer};
use crate::sys;

verus! {

/// A connected stream socket: an established connection, ready for reading
/// and writing. It comes from accepting on a listener or from connecting.
pub struct ConnectedStream<D: Domain> {
    fd: i32,
    _marker: PhantomData<D>,
}

/// Which half of a connection to shut down.
#[derive(Debug, Clone, Copy, PartialEq, Eq, Structural)]
pub enum Shutdown {
    Read,
    Write,
    ReadWrite,
}

impl Shutdown {
    /// The constant of the operating system for the half.
    pub open spec fn how(self) -> i32 {
        match self {
            Shutdown::Read => 0,
            Shutdown::Write => 1,
            Shutdown::ReadWrite => 2,
        }
    }

    /// Returns the constant to hand to the shutdown call.
    pub fn raw(self) -> (r: i32)
        ensures
            r == self.how(),
    {
        match self {
            Shutdown::Read => sys::shut_rd(),
            Shutdown::Write => sys::shut_wr(),
            Shutdown::ReadWrite => sys::shut_rdwr(),
        }
    }
}

/// What asking the operating system for an address of a socket yields: the
/// failure with the name of the query where the call returned -1; else the
/// address that the form spells, or the failure of an invalid address where
/// it spells none.
pub open spec fn name_query_result<A: FromSockAddr>(
    done: Outcome,
    option: &'static str,
    raw: Seq<u8>,
    len: u32,
    order: ByteOrder,
    r: Result<A, SocketError>,
) -> bool {
    if done.ret == -1 {
        r == Err::<A, SocketError>(SocketError::GetOption { errno: done.errno, option })
    } else {
        match A::parsed(raw, len, order) {
            Some(a) => r is Ok && r->Ok_0@ == a,
            None => r == Err::<A, SocketError>(
                SocketError::InvalidAddress { reason: "invalid address" },
            ),
        }
    }
}

impl<D: Domain> ConnectedStream<D> {
    /// The descriptor that the handle owns.
    pub closed spec fn descriptor(&self) -> i32 {
        self.fd
    }

    /// Creates the handle that owns `fd`.
    pub(crate) fn from_fd(fd: i32) -> (s: Self)
        ensures
            s.descriptor() == fd,
    {
        Self { fd, _marker: PhantomData }
    }

    /// Takes ownership of a descriptor that is a connected stream.
    pub fn from_descriptor(fd: i32) -> (s: Self)
        ensures
            s.descriptor() == fd,
    {
        Self::from_fd(fd)
    }

    /// Returns the raw file descriptor. Does not transfer ownership.
    #[inline]
    pub fn as_raw_fd(&self) -> (fd: i32)
        ensures
            fd == self.descriptor(),
    {
        self.fd
    }

    /// Gives up the handle and returns the descriptor, which the caller now
    /// owns.
    pub fn into_raw_fd(self) -> (fd: i32)
        ensures
            fd == self.descriptor(),
    {
        self.fd
    }

    /// Starts setting the stream to non-blocking or blocking mode, from what
    /// reading the descriptor's status flags gave back. The stage of the
    /// handle does not change: the mode is a property of the descriptor.
    pub fn set_nonblocking(&self, nonblocking: bool, got: Outcome) -> (r: Result<
        FlagUpdate,
        SocketError,
    >)
        ensures
            r == mode_change_result(self.descriptor(), nonblocking, got),
    {
        mode_change(self.fd, nonblocking, got)
    }

    /// Reads the outcome of `read`: how many bytes were read.
    pub fn read(&self, done: Transfer) -> (r: Result<usize, IoError>)
        ensures
            r == done.read_result(),
    {
        done.into_read()
    }

    /// Reads the outcome of `write`: how many bytes were written.
    pub fn write(&self, done: Transfer) -> (r: Result<usize, IoError>)
        ensures
            r == done.write_result(),
    {
        done.into_write()
    }

    /// Reads the outcome of `send` with flags.
    pub fn send_with_flags(&self, done: Transfer) -> (r: Result<usize, IoError>)
        ensures
            r == done.write_result(),
    {
        done.into_write()
    }

    /// Reads the outcome of `recv` with flags.
    pub fn recv_with_flags(&self, done: Transfer) -> (r: Result<usize, IoError>)
        ensures
            r == done.read_result(),
    {
        done.into_read()
    }

    /// Reads the outcome of a vectored read.
    pub fn readv(&self, done: Transfer) -> (r: Result<usize, IoError>)
        ensures
            r == done.read_result(),
    {
        done.into_read()
    }

    /// Reads the outcome of a vectored write.
    pub fn writev(&self, done: Transfer) -> (r: Result<usize, IoError>)
        ensures
            r == done.write_result(),
    {
        done.into_write()
    }

    /// Reads the outcome of a file-to-socket transfer: how many bytes were
    /// sent.
    pub fn sendfile(&self, done: Transfer) -> (r: Result<usize, IoError>)
        ensures
            r == done.write_result(),
    {
        done.into_write()
    }

    /// Reads the outcome of shutting down a half of the connection.
    pub fn shutdown(&self, done: Outcome) -> (r: Result<(), SocketError>)
        ensures
            done.ret == -1 ==> r == Err::<(), SocketError>(
                SocketError::SetOption { errno: done.errno, option: "shutdown" },
            ),
            done.ret != -1 ==> r == Ok::<(), SocketError>(()),
    {
        if done.ret == -1 {
            Err(SocketError::SetOption { errno: done.errno, option: "shutdown" })
        } else {
            Ok(())
        }
    }
}

/// Decides what an address query yields. `raw` is the buffer that the call
/// filled and `len` the length it reported.
pub(crate) fn name_query<A: FromSockAddr>(
    done: Outcome,
    option: &'static str,
    raw: &[u8],
    len: u32,
    order: ByteOrder,
) -> (r: Result<A, SocketError>)
    ensures
        name_query_result(done, option, raw@, len, order, r),
{
    if done.ret == -1 {
        return Err(SocketError::GetOption { errno: done.errno, option });
    }
    match A::from_sockaddr_with(raw, len, order) {
        Some(a) => Ok(a),
        None => Err(SocketError::InvalidAddress { reason: "invalid address" }),
    }
}

impl<D: Domain> ConnectedStream<D> where D::Addr: FromSockAddr {
    /// Returns the remote address of this connection, from what asking for
    /// the peer's name gave back.
    pub fn peer_addr(&self, done: Outcome, raw: &[u8], len: u32, order: ByteOrder) -> (r: Result<
        D::Addr,
        SocketError,
    >)
        ensures
            name_query_result(done, "SO_PEERNAME", raw@, len, order, r),
    {
        name_query(done, "SO_PEERNAME", raw, len, order)
    }

    /// Returns the local address of this connection, from what asking for
    /// the socket's name gave back.
    pub fn local_addr(&self, done: Outcome, raw: &[u8], len: u32, order: ByteOrder) -> (r: Result<
        D::Addr,
        SocketError,
    >)
        ensures
            name_query_result(done, "SO_SOCKNAME", raw@, len, order, r),
    {
        name_query(done, "SO_SOCKNAME", raw, len, order)
    }
}

} // verus!
