//! Datagram sockets, bound and connected, and the batched transfer of
//! datagrams.

use std::marker::PhantomData;
use vstd::prelude::*;
use crate::addr::{zeros, ByteOrder, Domain, FromSockAddr, ToSockAddr};
use crate::error::{Error, IoError, SocketError};
use crate::socket::stream::{name_query, name_query_result};
use crate::socket::{
    check_connect, is_connect_failure, mode_change, mode_change_result, went_well, FlagUpdate,
    Outcome, Transfer,
};
use crate::sys;

verus! {

/// A bound datagram socket ready for send/recv. Each send names a
/// destination, each receive can tell the source.
pub struct BoundDatagram<D: Domain> {
    fd: i32,
    _marker: PhantomData<D>,
}

/// A datagram socket connected to one peer: sending and receiving go to and
/// come from that peer.
pub struct ConnectedDatagram<D: Domain> {
    fd: i32,
    _marker: PhantomData<D>,
}

/// A single message to send in a batch.
pub struct SendMsg<'a, A> {
    pub buf: &'a [u8],
    pub addr: &'a A,
}

/// Result of a single message of a batch.
pub struct MsgResult {
    pub bytes: usize,
}

/// The destination of one entry of a batch to send: the marshaled address in
/// a buffer of the fixed size that every entry has, and the length of the
/// form in it.
pub struct NameBuf {
    pub storage: Vec<u8>,
    pub len: u32,
}

/// What to do with a batch to send.
pub enum SendPlan {
    /// The batch is empty: nothing is sent and no call is made.
    Nothing,
    /// Make one call with these destinations, one for each message in order.
    Submit(Vec<NameBuf>),
}

/// What to do with a batch of buffers to receive into.
#[derive(Debug, Clone, Copy, PartialEq, Eq, Structural)]
pub enum RecvPlan {
    /// No buffer is offered: nothing is received and no call is made.
    Nothing,
    /// Make one call that offers this many entries.
    Submit(usize),
}

/// What the operating system wrote into one entry of a batch to receive: the
/// number of bytes of the datagram, the buffer with the sender's address and
/// the length of the form in it.
pub struct RecvSlot {
    pub msg_len: u32,
    pub name: Vec<u8>,
    pub namelen: u32,
}

/// The size of the buffer that holds the address of a batch entry.
pub open spec fn name_capacity() -> nat {
    128
}

/// Whether the address has a form that fits the buffer of a batch entry.
pub open spec fn fits_entry<A: ToSockAddr>(addr: &A, order: ByteOrder) -> bool {
    addr.marshals() && addr.raw_form(order).len() <= name_capacity()
}

/// Whether `entry` holds the form of the address: the form at the start of
/// a buffer of the fixed size, null bytes behind it, and the form's length.
pub open spec fn holds_form<A: ToSockAddr>(entry: NameBuf, addr: &A, order: ByteOrder) -> bool {
    let form = addr.raw_form(order);
    &&& fits_entry(addr, order)
    &&& entry.storage@ == form + zeros((name_capacity() - form.len()) as nat)
    &&& entry.len == form.len()
}

/// What a sending call with an address yields: the failure of an invalid
/// address where the address had no form; the failure with its error number
/// where the call returned a negative number; else the count.
pub open spec fn send_to_result(done: Option<Transfer>) -> Result<usize, Error> {
    match done {
        None => Err(Error::Socket(SocketError::InvalidAddress { reason: "address too long" })),
        Some(t) => if t.count >= 0 {
            Ok(t.count as usize)
        } else {
            Err(Error::Io(IoError::Write { errno: t.errno }))
        },
    }
}

/// What a receiving call that reports the sender yields: the failure with
/// its error number where the call returned -1; the failure of an invalid
/// address where the form spells none; else the count and the sender.
pub open spec fn is_recv_from_result<A: FromSockAddr>(
    done: Transfer,
    raw: Seq<u8>,
    len: u32,
    order: ByteOrder,
    r: Result<(usize, A), Error>,
) -> bool {
    if done.count == -1 {
        r == Err::<(usize, A), Error>(Error::Io(IoError::Read { errno: done.errno }))
    } else {
        match A::parsed(raw, len, order) {
            Some(a) => r matches Ok(got) && got.0 == done.count as usize && got.1@ == a,
            None => r == Err::<(usize, A), Error>(
                Error::Socket(SocketError::InvalidAddress { reason: "invalid sender address" }),
            ),
        }
    }
}

/// Decides a sending call with an address.
fn decide_send_to(done: Option<Transfer>) -> (r: Result<usize, Error>)
    ensures
        r == send_to_result(done),
{
    match done {
        Some(t) => {
            if t.count >= 0 {
                Ok(t.count as usize)
            } else {
                Err(Error::Io(IoError::Write { errno: t.errno }))
            }
        },
        None => Err(Error::Socket(SocketError::InvalidAddress { reason: "address too long" })),
    }
}

/// Decides a receiving call that reports the sender. `raw` is the buffer
/// that the call filled with the sender's address and `len` the length it
/// reported.
fn decide_recv_from<A: FromSockAddr>(done: Transfer, raw: &[u8], len: u32, order: ByteOrder) -> (r:
    Result<(usize, A), Error>)
    ensures
        is_recv_from_result(done, raw@, len, order, r),
{
    if done.count == -1 {
        return Err(Error::Io(IoError::Read { errno: done.errno }));
    }
    match A::from_sockaddr_with(raw, len, order) {
        Some(a) => Ok((#[verifier::truncate] (done.count as usize), a)),
        None => Err(
            Error::Socket(SocketError::InvalidAddress { reason: "invalid sender address" }),
        ),
    }
}

impl<D: Domain> BoundDatagram<D> {
    /// The descriptor that the handle owns.
    pub closed spec fn descriptor(&self) -> i32 {
        self.fd
    }

    /// Creates the handle that owns `fd`.
    pub(crate) fn from_fd(fd: i32) -> (s: Self)
        ensures
            s.descriptor() == fd,
    {
        Self { fd, _marker: PhantomData }
    }

    /// Takes ownership of a descriptor that is a bound datagram socket.
    pub fn from_descriptor(fd: i32) -> (s: Self)
        ensures
            s.descriptor() == fd,
    {
        Self::from_fd(fd)
    }

    /// Returns the raw file descriptor. Does not transfer ownership.
    #[inline]
    pub fn as_raw_fd(&self) -> (fd: i32)
        ensures
            fd == self.descriptor(),
    {
        self.fd
    }

    /// Gives up the handle and returns the descriptor, which the caller now
    /// owns.
    pub fn into_raw_fd(self) -> (fd: i32)
        ensures
            fd == self.descriptor(),
    {
        self.fd
    }

    /// Starts setting the socket to non-blocking or blocking mode, from what
    /// reading the descriptor's status flags gave back. The stage of the
    /// handle does not change: the mode is a property of the descriptor.
    pub fn set_nonblocking(&self, nonblocking: bool, got: Outcome) -> (r: Result<
        FlagUpdate,
        SocketError,
    >)
        ensures
            r == mode_change_result(self.descriptor(), nonblocking, got),
    {
        mode_change(self.fd, nonblocking, got)
    }

    /// Reads the outcome of sending to an address: `None` where the address
    /// had no form and no call was made.
    pub fn send_to(&self, done: Option<Transfer>) -> (r: Result<usize, Error>)
        ensures
            r == send_to_result(done),
    {
        decide_send_to(done)
    }

    /// Reads the outcome of sending to an address with flags.
    pub fn send_to_with_flags(&self, done: Option<Transfer>) -> (r: Result<usize, Error>)
        ensures
            r == send_to_result(done),
    {
        decide_send_to(done)
    }

    /// Reads the outcome of receiving: how many bytes were received.
    pub fn recv(&self, done: Transfer) -> (r: Result<usize, IoError>)
        ensures
            r == done.read_result(),
    {
        done.into_read()
    }

    /// Reads the outcome of receiving with flags.
    pub fn recv_with_flags(&self, done: Transfer) -> (r: Result<usize, IoError>)
        ensures
            r == done.read_result(),
    {
        done.into_read()
    }

    /// Prepares a batched receive into `offered` buffers.
    pub fn recvmmsg_prepare(&self, offered: usize) -> (plan: RecvPlan)
        ensures
            offered == 0 ==> plan == RecvPlan::Nothing,
            offered > 0 ==> plan == RecvPlan::Submit(offered),
    {
        if offered == 0 {
            RecvPlan::Nothing
        } else {
            RecvPlan::Submit(offered)
        }
    }

    /// Reads the outcome of a batched send: the failure with its error
    /// number where the call returned -1, else how many messages were sent,
    /// which may be fewer than were handed over; the caller submits the rest
    /// again.
    pub fn sendmmsg(&self, done: Outcome) -> (r: Result<usize, IoError>)
        ensures
            done.ret == -1 ==> r == Err::<usize, IoError>(IoError::Write { errno: done.errno }),
            done.ret != -1 ==> r == Ok::<usize, IoError>(done.ret as usize),
    {
        if done.ret == -1 {
            return Err(IoError::Write { errno: done.errno });
        }
        Ok(#[verifier::truncate] (done.ret as usize))
    }
}

/// Copies a marshaled address into a buffer of the size of a batch entry.
fn into_name_buf(form: Vec<u8>) -> (entry: NameBuf)
    requires
        form@.len() <= name_capacity(),
    ensures
        entry.storage@ == form@ + zeros((name_capacity() - form@.len()) as nat),
        entry.len == form@.len(),
{
    let len = form.len() as u32;
    let ghost head = form@;
    let mut storage = form;
    while storage.len() < 128
        invariant
            head.len() <= storage.len() <= 128,
            storage@ =~= head + zeros((storage.len() - head.len()) as nat),
        decreases 128 - storage.len(),
    {
        storage.push(0);
    }
    NameBuf { storage, len }
}

impl<D: Domain> BoundDatagram<D> where D::Addr: ToSockAddr {
    /// Prepares a batched send: marshals each destination into the buffer of
    /// its entry, for a machine of the given byte order. An empty batch
    /// needs no call. Where a destination has no form, or a form longer
    /// than the buffer of an entry, the batch fails with an address error
    /// before any call is made.
    pub fn sendmmsg_prepare(&self, messages: &[SendMsg<D::Addr>], order: ByteOrder) -> (r: Result<
        SendPlan,
        SocketError,
    >)
        ensures
            match r {
                Ok(SendPlan::Nothing) => messages@.len() == 0,
                Ok(SendPlan::Submit(names)) => {
                    &&& messages@.len() > 0
                    &&& names@.len() == messages@.len()
                    &&& forall|i: int|
                        0 <= i < messages@.len() ==> holds_form(
                            #[trigger] names@[i],
                            messages@[i].addr,
                            order,
                        )
                },
                Err(e) => {
                    &&& e == (SocketError::InvalidAddress { reason: "address too long" })
                    &&& exists|i: int|
                        0 <= i < messages@.len() && !fits_entry(
                            (#[trigger] messages@[i]).addr,
                            order,
                        )
                },
            },
    {
        if messages.len() == 0 {
            return Ok(SendPlan::Nothing);
        }
        let capacity = sys::sockaddr_storage_len();
        let mut names: Vec<NameBuf> = Vec::with_capacity(messages.len());
        let mut i: usize = 0;
        while i < messages.len()
            invariant
                i <= messages@.len(),
                capacity == name_capacity(),
                names@.len() == i,
                forall|j: int|
                    0 <= j < i ==> holds_form(#[trigger] names@[j], messages@[j].addr, order),
            decreases messages@.len() - i,
        {
            match messages[i].addr.to_sockaddr(order) {
                None => {
                    assert(!fits_entry(messages@[i as int].addr, order));
                    return Err(SocketError::InvalidAddress { reason: "address too long" });
                },
                Some(form) => {
                    if form.len() > capacity {
                        assert(!fits_entry(messages@[i as int].addr, order));
                        return Err(SocketError::InvalidAddress { reason: "address too long" });
                    }
                    names.push(into_name_buf(form));
                },
            }
            i += 1;
        }
        Ok(SendPlan::Submit(names))
    }

    /// Connects the socket to one peer: decides the transition from what
    /// marshaling the address and calling gave back. Consumes self; on
    /// success the connected datagram socket owns the descriptor.
    pub fn connect(self, addr: D::Addr, done: Option<Outcome>) -> (r: Result<
        ConnectedDatagram<D>,
        SocketError,
    >)
        ensures
            match r {
                Ok(c) => went_well(done) && c.descriptor() == self.descriptor(),
                Err(e) => !went_well(done) && is_connect_failure(addr.text(), done, e),
            },
    {
        match check_connect(&addr, done) {
            Ok(_) => Ok(ConnectedDatagram::from_fd(self.fd)),
            Err(e) => Err(e),
        }
    }
}

/// Whether each of the first `n` entries holds the form of an address.
pub open spec fn senders_valid<A: FromSockAddr>(slots: Seq<RecvSlot>, n: int, order: ByteOrder) -> bool {
    forall|i: int|
        0 <= i < n ==> (#[trigger] A::parsed(slots[i].name@, slots[i].namelen, order)) is Some
}

impl<D: Domain> BoundDatagram<D> where D::Addr: FromSockAddr {
    /// Reads the outcome of receiving with the sender's address.
    pub fn recv_from(&self, done: Transfer, raw: &[u8], len: u32, order: ByteOrder) -> (r: Result<
        (usize, D::Addr),
        Error,
    >)
        ensures
            is_recv_from_result(done, raw@, len, order, r),
    {
        decide_recv_from(done, raw, len, order)
    }

    /// Reads the outcome of receiving with flags and the sender's address.
    pub fn recv_from_with_flags(
        &self,
        done: Transfer,
        raw: &[u8],
        len: u32,
        order: ByteOrder,
    ) -> (r: Result<(usize, D::Addr), Error>)
        ensures
            is_recv_from_result(done, raw@, len, order, r),
    {
        decide_recv_from(done, raw, len, order)
    }

    /// Reads the outcome of a batched receive. `slots` holds, for each
    /// buffer that was offered, what the operating system wrote into its
    /// entry; `done` is what the call gave back, the number of entries
    /// filled or -1. With no buffer offered no call is made and nothing is
    /// received. Fewer entries filled than offered is the normal case. The
    /// result holds, for each filled entry in order, the byte count and the
    /// sender rebuilt from the entry's address. The number of entries filled
    /// is at most the number offered.
    pub fn recvmmsg(&self, slots: &[RecvSlot], done: Outcome, order: ByteOrder) -> (r: Result<
        Vec<(usize, D::Addr)>,
        Error,
    >)
        requires
            slots@.len() == 0 || done.ret == -1 || 0 <= done.ret <= slots@.len(),
        ensures
            slots@.len() == 0 ==> r is Ok && r->Ok_0@.len() == 0,
            slots@.len() > 0 && done.ret == -1 ==> r == Err::<Vec<(usize, D::Addr)>, Error>(
                Error::Io(IoError::Read { errno: done.errno }),
            ),
            slots@.len() > 0 && done.ret != -1 ==> match r {
                Ok(got) => {
                    &&& senders_valid::<D::Addr>(slots@, done.ret as int, order)
                    &&& got@.len() == done.ret
                    &&& forall|i: int|
                        0 <= i < done.ret ==> (#[trigger] got@[i]).0 == slots@[i].msg_len
                            && D::Addr::parsed(slots@[i].name@, slots@[i].namelen, order) == Some(
                            got@[i].1@,
                        )
                },
                Err(e) => {
                    &&& !senders_valid::<D::Addr>(slots@, done.ret as int, order)
                    &&& e == Error::Socket(
                        SocketError::InvalidAddress { reason: "invalid sender address" },
                    )
                },
            },
    {
        if slots.len() == 0 {
            return Ok(Vec::new());
        }
        if done.ret == -1 {
            return Err(Error::Io(IoError::Read { errno: done.errno }));
        }
        let received = done.ret as usize;
        let mut results: Vec<(usize, D::Addr)> = Vec::with_capacity(received);
        let mut i: usize = 0;
        while i < received
            invariant
                i <= received <= slots@.len(),
                received == done.ret,
                results@.len() == i,
                senders_valid::<D::Addr>(slots@, i as int, order),
                forall|j: int|
                    0 <= j < i ==> (#[trigger] results@[j]).0 == slots@[j].msg_len
                        && D::Addr::parsed(slots@[j].name@, slots@[j].namelen, order) == Some(
                        results@[j].1@,
                    ),
            decreases received - i,
        {
            let slot = &slots[i];
            let bytes = slot.msg_len as usize;
            match D::Addr::from_sockaddr_with(slot.name.as_slice(), slot.namelen, order) {
                None => {
                    assert(D::Addr::parsed(
                        slots@[i as int].name@,
                        slots@[i as int].namelen,
                        order,
                    ) is None);
                    return Err(
                        Error::Socket(
                            SocketError::InvalidAddress { reason: "invalid sender address" },
                        ),
                    );
                },
                Some(addr) => {
                    results.push((bytes, addr));
                },
            }
            i += 1;
        }
        Ok(results)
    }
}

impl<D: Domain> ConnectedDatagram<D> {
    /// The descriptor that the handle owns.
    pub closed spec fn descriptor(&self) -> i32 {
        self.fd
    }

    /// Creates the handle that owns `fd`.
    pub(crate) fn from_fd(fd: i32) -> (s: Self)
        ensures
            s.descriptor() == fd,
    {
        Self { fd, _marker: PhantomData }
    }

    /// Takes ownership of a descriptor that is a connected datagram socket.
    pub fn from_descriptor(fd: i32) -> (s: Self)
        ensures
            s.descriptor() == fd,
    {
        Self::from_fd(fd)
    }

    /// Returns the raw file descriptor. Does not transfer ownership.
    #[inline]
    pub fn as_raw_fd(&self) -> (fd: i32)
        ensures
            fd == self.descriptor(),
    {
        self.fd
    }

    /// Gives up the handle and returns the descriptor, which the caller now
    /// owns.
    pub fn into_raw_fd(self) -> (fd: i32)
        ensures
            fd == self.descriptor(),
    {
        self.fd
    }

    /// Starts setting the socket to non-blocking or blocking mode, from what
    /// reading the descriptor's status flags gave back. The stage of the
    /// handle does not change: the mode is a property of the descriptor.
    pub fn set_nonblocking(&self, nonblocking: bool, got: Outcome) -> (r: Result<
        FlagUpdate,
        SocketError,
    >)
        ensures
            r == mode_change_result(self.descriptor(), nonblocking, got),
    {
        mode_change(self.fd, nonblocking, got)
    }

    /// Reads the outcome of sending to the peer.
    pub fn send(&self, done: Transfer) -> (r: Result<usize, IoError>)
        ensures
            r == done.write_result(),
    {
        done.into_write()
    }

    /// Reads the outcome of sending to the peer with flags.
    pub fn send_with_flags(&self, done: Transfer) -> (r: Result<usize, IoError>)
        ensures
            r == done.write_result(),
    {
        done.into_write()
    }

    /// Reads the outcome of receiving from the peer.
    pub fn recv(&self, done: Transfer) -> (r: Result<usize, IoError>)
        ensures
            r == done.read_result(),
    {
        done.into_read()
    }

    /// Reads the outcome of receiving from the peer with flags.
    pub fn recv_with_flags(&self, done: Transfer) -> (r: Result<usize, IoError>)
        ensures
            r == done.read_result(),
    {
        done.into_read()
    }

    /// Reads the outcome of sending to an address other than the peer's:
    /// `None` where the address had no form and no call was made. This is
    /// for probing another path to the peer, not for the traffic itself.
    pub fn send_to(&self, done: Option<Transfer>) -> (r: Result<usize, Error>)
        ensures
            r == send_to_result(done),
    {
        decide_send_to(done)
    }

    /// Reads the outcome of sending to an address other than the peer's,
    /// with flags.
    pub fn send_to_with_flags(&self, done: Option<Transfer>) -> (r: Result<usize, Error>)
        ensures
            r == send_to_result(done),
    {
        decide_send_to(done)
    }
}

impl<D: Domain> ConnectedDatagram<D> where D::Addr: FromSockAddr {
    /// Returns the address of the peer, from what asking for the peer's name
    /// gave back.
    pub fn peer_addr(&self, done: Outcome, raw: &[u8], len: u32, order: ByteOrder) -> (r: Result<
        D::Addr,
        SocketError,
    >)
        ensures
            name_query_result(done, "SO_PEERNAME", raw@, len, order, r),
    {
        name_query(done, "SO_PEERNAME", raw, len, order)
    }

    /// Reads the outcome of receiving with the sender's address.
    pub fn recv_from(&self, done: Transfer, raw: &[u8], len: u32, order: ByteOrder) -> (r: Result<
        (usize, D::Addr),
        Error,
    >)
        ensures
            is_recv_from_result(done, raw@, len, order, r),
    {
        decide_recv_from(done, raw, len, order)
    }

    /// Reads the outcome of receiving with flags and the sender's address.
    pub fn recv_from_with_flags(
        &self,
        done: Transfer,
        raw: &[u8],
        len: u32,
        order: ByteOrder,
    ) -> (r: Result<(usize, D::Addr), Error>)
        ensures
            is_recv_from_result(done, raw@, len, order, r),
    {
        decide_recv_from(done, raw, len, order)
    }
}

} // verus!
