//! A socket that has been created but not yet bound or connected.

use std::marker::PhantomData;
use vstd::prelude::*;
use crate::addr::{Domain, ToSockAddr};
use crate::error::SocketError;
use crate::socket::bound::BoundSocket;
use crate::socket::datagram::BoundDatagram;
use crate::socket::pending::PendingConnect;
use crate::socket::stream::ConnectedStream;
use crate::socket::{
    check_bind, check_connect, is_bind_failure, is_connect_failure, mode_change,
    mode_change_result, went_well, Datagram, FlagUpdate, Outcome, SockType, Stream,
};
use crate::sys;

verus! {

/// A raw socket that has been created but not yet bound or connected: the
/// starting point of every lifecycle.
pub struct RawSocket<D: Domain, T: SockType> {
    fd: i32,
    _marker: PhantomData<(D, T)>,
}

/// The arguments of socket creation.
#[derive(Debug, Clone, Copy, PartialEq, Eq, Structural)]
pub struct SocketArgs {
    pub domain: i32,
    pub ty: i32,
    pub protocol: i32,
}

impl<D: Domain, T: SockType> RawSocket<D, T> {
    /// The descriptor that the handle owns.
    pub closed spec fn descriptor(&self) -> i32 {
        self.fd
    }

    /// What to ask of the operating system to create the socket: the
    /// family's constant, the type's constant with the flag that closes the
    /// descriptor when the process is replaced, and protocol 0.
    pub fn creation_args() -> (a: SocketArgs)
        ensures
            a == (SocketArgs { domain: D::family(), ty: T::kind() | 524288, protocol: 0 }),
    {
        SocketArgs { domain: D::raw(), ty: T::raw() | sys::sock_cloexec(), protocol: 0 }
    }

    /// Creates a new raw socket from what the creating call gave back: the
    /// failure where it returned -1, else the handle that owns the new
    /// descriptor.
    pub fn new(created: Outcome) -> (r: Result<Self, SocketError>)
        ensures
            created.ret == -1 ==> r == Err::<Self, SocketError>(
                SocketError::Create { errno: created.errno },
            ),
            created.ret != -1 ==> r is Ok && r->Ok_0.descriptor() == created.ret,
    {
        if created.ret == -1 {
            return Err(SocketError::Create { errno: created.errno });
        }
        Ok(Self { fd: created.ret, _marker: PhantomData })
    }

    /// Takes ownership of a descriptor that is neither bound nor connected.
    pub fn from_descriptor(fd: i32) -> (s: Self)
        ensures
            s.descriptor() == fd,
    {
        Self { fd, _marker: PhantomData }
    }

    /// Returns the raw file descriptor. Does not transfer ownership.
    #[inline]
    pub fn as_raw_fd(&self) -> (fd: i32)
        ensures
            fd == self.descriptor(),
    {
        self.fd
    }

    /// Gives up the handle and returns the descriptor, which the caller now
    /// owns.
    pub fn into_raw_fd(self) -> (fd: i32)
        ensures
            fd == self.descriptor(),
    {
        self.fd
    }

    pub(crate) fn into_fd(self) -> (fd: i32)
        ensures
            fd == self.descriptor(),
    {
        self.fd
    }

    /// Starts setting the socket to non-blocking or blocking mode, from what
    /// reading the descriptor's status flags gave back.
    pub fn set_nonblocking(&self, nonblocking: bool, got: Outcome) -> (r: Result<
        FlagUpdate,
        SocketError,
    >)
        ensures
            r == mode_change_result(self.descriptor(), nonblocking, got),
    {
        mode_change(self.fd, nonblocking, got)
    }
}

impl<D: Domain, T: SockType> RawSocket<D, T> where D::Addr: ToSockAddr {
    /// Binds the socket to an address: decides the transition from what
    /// marshaling the address and calling gave back (`None` where the
    /// address had no form). Consumes self; on success the bound socket owns
    /// the descriptor.
    pub fn bind(self, addr: D::Addr, done: Option<Outcome>) -> (r: Result<
        BoundSocket<D, T>,
        SocketError,
    >)
        ensures
            match r {
                Ok(b) => went_well(done) && b.descriptor() == self.descriptor(),
                Err(e) => !went_well(done) && is_bind_failure(addr.text(), done, e),
            },
    {
        match check_bind(&addr, done) {
            Ok(_) => Ok(BoundSocket::from_fd(self.into_fd())),
            Err(e) => Err(e),
        }
    }
}

/// Whether a non-blocking connect is under way or done: the call was made
/// and returned 0, or returned -1 with the error number of an operation in
/// progress.
pub open spec fn connect_started(done: Option<Outcome>) -> bool {
    done matches Some(o) && (o.ret == 0 || (o.ret == -1 && o.errno == 115))
}

impl<D: Domain> RawSocket<D, Stream> where D::Addr: ToSockAddr {
    /// Connects to a remote address: decides the transition from what
    /// marshaling the address and calling gave back. Consumes self; on
    /// success the connected stream owns the descriptor.
    pub fn connect(self, addr: D::Addr, done: Option<Outcome>) -> (r: Result<
        ConnectedStream<D>,
        SocketError,
    >)
        ensures
            match r {
                Ok(s) => went_well(done) && s.descriptor() == self.descriptor(),
                Err(e) => !went_well(done) && is_connect_failure(addr.text(), done, e),
            },
    {
        match check_connect(&addr, done) {
            Ok(_) => Ok(ConnectedStream::from_fd(self.into_fd())),
            Err(e) => Err(e),
        }
    }

    /// Starts a non-blocking connection: decides the transition from what
    /// marshaling the address and calling gave back, the socket having been
    /// set non-blocking before the call. That the connection is in progress
    /// is the expected outcome and no failure; any other error number is
    /// reported at once. The call returns 0 or -1.
    pub fn connect_nonblocking(self, addr: D::Addr, done: Option<Outcome>) -> (r: Result<
        PendingConnect<D>,
        SocketError,
    >)
        requires
            done matches Some(o) ==> o.ret == 0 || o.ret == -1,
        ensures
            match r {
                Ok(p) => connect_started(done) && p.descriptor() == self.descriptor(),
                Err(e) => !connect_started(done) && is_connect_failure(addr.text(), done, e),
            },
    {
        match done {
            Some(o) => {
                if o.ret == 0 || o.errno == sys::einprogress() {
                    Ok(PendingConnect::from_fd(self.into_fd()))
                } else {
                    Err(SocketError::Connect { errno: o.errno, addr: addr.describe() })
                }
            },
            None => Err(SocketError::InvalidAddress { reason: "address too long" }),
        }
    }
}

impl<D: Domain> RawSocket<D, Datagram> where D::Addr: ToSockAddr {
    /// Binds a datagram socket to an address: decides the transition from
    /// what marshaling the address and calling gave back. Consumes self; on
    /// success the bound datagram socket owns the descriptor.
    pub fn bind_datagram(self, addr: D::Addr, done: Option<Outcome>) -> (r: Result<
        BoundDatagram<D>,
        SocketError,
    >)
        ensures
            match r {
                Ok(b) => went_well(done) && b.descriptor() == self.descriptor(),
                Err(e) => !went_well(done) && is_bind_failure(addr.text(), done, e),
            },
    {
        match check_bind(&addr, done) {
            Ok(_) => Ok(BoundDatagram::from_fd(self.into_fd())),
            Err(e) => Err(e),
        }
    }
}

} // verus!
