//! The socket lifecycle: one handle type for each stage, each owning one
//! descriptor and offering only the operations of its stage.
//!
//! The library decides; the caller performs the system calls. A transition
//! takes what the call gave back and yields the handle of the next stage or
//! the failure.

use vstd::prelude::*;
use crate::addr::ToSockAddr;
use crate::error::{IoError, SocketError};
use crate::sys;

pub mod bound;
pub mod builder;
pub mod datagram;
pub mod listener;
pub mod options;
pub mod pending;
pub mod raw;
pub mod stream;

pub use self::bound::BoundSocket;
pub use self::builder::{
    BufferConfig, ConnectorBuilder, DatagramBuilder, KeepaliveConfig, ListenPlan, ListenerBuilder,
    ReuseConfig, TcpConfig,
};
pub use self::datagram::{
    BoundDatagram, ConnectedDatagram, MsgResult, NameBuf, RecvPlan, RecvSlot, SendMsg, SendPlan,
};
pub use self::listener::{AcceptResult, Listener};
pub use self::options::{
    get_tcp_info, recv_fd, send_fd, splice, ControlHeader, OptValue, SockOpt, TcpInfo,
};
pub use self::pending::PendingConnect;
pub use self::raw::RawSocket;
pub use self::stream::{ConnectedStream, Shutdown};

verus! {

/// A socket type marker: a tag without runtime data that selects the type
/// constant handed to the operating system.
pub trait SockType {
    /// The socket type constant of the operating system.
    spec fn kind() -> i32;

    /// Returns the socket type constant.
    fn raw() -> (r: i32)
        ensures
            r == Self::kind(),
    ;
}

/// Stream socket marker: reliable, ordered, two-way byte streams.
pub struct Stream;

/// Datagram socket marker: unreliable, unordered packets.
pub struct Datagram;

impl SockType for Stream {
    open spec fn kind() -> i32 {
        1
    }

    #[inline]
    fn raw() -> (r: i32) {
        sys::sock_stream()
    }
}

impl SockType for Datagram {
    open spec fn kind() -> i32 {
        2
    }

    #[inline]
    fn raw() -> (r: i32) {
        sys::sock_dgram()
    }
}

/// What a system call gave back: its return value, and the error number as
/// read right after the call. The error number means something only where
/// the return value reports a failure.
#[derive(Debug, Clone, Copy, PartialEq, Eq, Structural)]
pub struct Outcome {
    pub ret: i32,
    pub errno: i32,
}

/// What a transfer call gave back: the number of bytes moved or -1, and the
/// error number as read right after the call.
#[derive(Debug, Clone, Copy, PartialEq, Eq, Structural)]
pub struct Transfer {
    pub count: isize,
    pub errno: i32,
}

impl Outcome {
    /// Whether the call failed.
    pub open spec fn failed(self) -> bool {
        self.ret == -1
    }
}

impl Transfer {
    /// What a receiving call yields: the failure with its error number where
    /// the call returned -1, else the count as an unsigned number.
    pub open spec fn read_result(self) -> Result<usize, IoError> {
        if self.count == -1 {
            Err(IoError::Read { errno: self.errno })
        } else {
            Ok(self.count as usize)
        }
    }

    /// What a sending call yields: the failure with its error number where
    /// the call returned -1, else the count as an unsigned number.
    pub open spec fn write_result(self) -> Result<usize, IoError> {
        if self.count == -1 {
            Err(IoError::Write { errno: self.errno })
        } else {
            Ok(self.count as usize)
        }
    }

    /// Reads the outcome of a receiving call.
    pub fn into_read(self) -> (r: Result<usize, IoError>)
        ensures
            r == self.read_result(),
    {
        if self.count == -1 {
            Err(IoError::Read { errno: self.errno })
        } else {
            Ok(#[verifier::truncate] (self.count as usize))
        }
    }

    /// Reads the outcome of a sending call.
    pub fn into_write(self) -> (r: Result<usize, IoError>)
        ensures
            r == self.write_result(),
    {
        if self.count == -1 {
            Err(IoError::Write { errno: self.errno })
        } else {
            Ok(#[verifier::truncate] (self.count as usize))
        }
    }
}

/// The status flags to set so that a descriptor whose flags are `flags`
/// becomes non-blocking or blocking: the non-blocking flag set or cleared,
/// every other flag as it was.
pub open spec fn flags_with_mode(flags: i32, nonblocking: bool) -> i32 {
    if nonblocking {
        flags | 2048
    } else {
        flags & !2048
    }
}

/// The second step of changing the blocking mode: the status flags that the
/// caller now sets on the descriptor.
#[derive(Debug, PartialEq, Eq)]
pub struct FlagUpdate {
    /// The descriptor whose flags are set.
    pub fd: i32,
    /// The flags to set.
    pub flags: i32,
}

/// The first step of changing the blocking mode of `fd`, from what reading
/// its status flags gave back: the failure where the call returned -1, else
/// the flags to set.
pub open spec fn mode_change_result(fd: i32, nonblocking: bool, got: Outcome) -> Result<
    FlagUpdate,
    SocketError,
> {
    if got.ret == -1 {
        Err(SocketError::GetOption { errno: got.errno, option: "F_GETFL" })
    } else {
        Ok(FlagUpdate { fd, flags: flags_with_mode(got.ret, nonblocking) })
    }
}

/// Decides the first step of changing the blocking mode of `fd`.
pub fn mode_change(fd: i32, nonblocking: bool, got: Outcome) -> (r: Result<FlagUpdate, SocketError>)
    ensures
        r == mode_change_result(fd, nonblocking, got),
{
    if got.ret == -1 {
        return Err(SocketError::GetOption { errno: got.errno, option: "F_GETFL" });
    }
    let flags = if nonblocking {
        got.ret | sys::o_nonblock()
    } else {
        got.ret & !sys::o_nonblock()
    };
    Ok(FlagUpdate { fd, flags })
}

impl FlagUpdate {
    /// Decides the second step, from what setting the flags gave back.
    pub fn finish(self, set: Outcome) -> (r: Result<(), SocketError>)
        ensures
            set.ret == -1 ==> r == Err::<(), SocketError>(
                SocketError::SetOption { errno: set.errno, option: "O_NONBLOCK" },
            ),
            set.ret != -1 ==> r == Ok::<(), SocketError>(()),
    {
        if set.ret == -1 {
            Err(SocketError::SetOption { errno: set.errno, option: "O_NONBLOCK" })
        } else {
            Ok(())
        }
    }
}

/// Whether a call that was to be made with a marshaled address went well:
/// the address had a form, so the call was made, and it did not return -1.
pub open spec fn went_well(done: Option<Outcome>) -> bool {
    done matches Some(o) && o.ret != -1
}

/// The failure of a bind whose outcome is `done`, for an address whose text
/// is `text`: where the address had no form, the failure of an invalid
/// address, with no error number; else the failure of the call with its
/// error number and the address.
pub open spec fn is_bind_failure(text: Seq<char>, done: Option<Outcome>, e: SocketError) -> bool {
    match done {
        None => e == (SocketError::InvalidAddress { reason: "address too long" }),
        Some(o) => e matches SocketError::Bind { errno, addr } && errno == o.errno && addr@
            == text,
    }
}

/// The failure of a connect whose outcome is `done`, for an address whose
/// text is `text`.
pub open spec fn is_connect_failure(text: Seq<char>, done: Option<Outcome>, e: SocketError) -> bool {
    match done {
        None => e == (SocketError::InvalidAddress { reason: "address too long" }),
        Some(o) => e matches SocketError::Connect { errno, addr } && errno == o.errno && addr@
            == text,
    }
}

/// Decides a bind. `done` is what marshaling the address and calling gave
/// back: `None` where the address had no form and no call was made.
pub(crate) fn check_bind<A: ToSockAddr>(addr: &A, done: Option<Outcome>) -> (r: Result<
    (),
    SocketError,
>)
    ensures
        match r {
            Ok(_) => went_well(done),
            Err(e) => !went_well(done) && is_bind_failure(addr.text(), done, e),
        },
{
    match done {
        Some(o) => {
            if o.ret == -1 {
                Err(SocketError::Bind { errno: o.errno, addr: addr.describe() })
            } else {
                Ok(())
            }
        },
        None => Err(SocketError::InvalidAddress { reason: "address too long" }),
    }
}

/// Decides a connect. `done` is what marshaling the address and calling
/// gave back: `None` where the address had no form and no call was made.
pub(crate) fn check_connect<A: ToSockAddr>(addr: &A, done: Option<Outcome>) -> (r: Result<
    (),
    SocketError,
>)
    ensures
        match r {
            Ok(_) => went_well(done),
            Err(e) => !went_well(done) && is_connect_failure(addr.text(), done, e),
        },
{
    match done {
        Some(o) => {
            if o.ret == -1 {
                Err(SocketError::Connect { errno: o.errno, addr: addr.describe() })
            } else {
                Ok(())
            }
        },
        None => Err(SocketError::InvalidAddress { reason: "address too long" }),
    }
}

} // verus!
