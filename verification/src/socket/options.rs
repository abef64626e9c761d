//! Socket options, connection statistics, and the passing of descriptors
//! over Unix-domain sockets.

use vstd::prelude::*;
use crate::error::{Error, IoError, SocketError};
use crate::socket::{Outcome, Transfer};
use crate::sys;

verus! {

/// A socket option with the value to set.
#[derive(Debug, Clone, Copy, PartialEq, Eq, Structural)]
pub enum SockOpt {
    /// Allow binding to an address whose old connections still linger.
    ReuseAddr(bool),
    /// Allow several sockets to bind the same port.
    ReusePort(bool),
    /// Send small writes at once.
    TcpNodelay(bool),
    /// The receive buffer size in bytes.
    RecvBufferSize(usize),
    /// The send buffer size in bytes.
    SendBufferSize(usize),
    /// Probe idle connections.
    Keepalive(bool),
    /// Seconds of idle time before the first probe.
    KeepaliveIdle(u32),
    /// Seconds between probes.
    KeepaliveInterval(u32),
    /// Unanswered probes before the connection counts as dead.
    KeepaliveCount(u32),
    /// What closing does with unsent data: `None` leaves it to the
    /// operating system, `Some(n)` waits up to `n` seconds for it to be
    /// sent, `Some(0)` discards it and resets the connection.
    Linger(Option<u32>),
    /// Hold small writes back until the cork is taken off.
    TcpCork(bool),
    /// Acknowledge at once.
    TcpQuickack(bool),
    /// Let clients send data with the opening of a connection, with a queue
    /// of the given length.
    TcpFastopen(i32),
}

/// The value of an option as the operating system takes it.
#[derive(Debug, Clone, Copy, PartialEq, Eq, Structural)]
pub enum OptValue {
    /// A C integer.
    Int(i32),
    /// The pair of the linger option: whether it is on, and the seconds.
    Linger { onoff: i32, seconds: i32 },
}

/// A boolean as a C integer.
pub open spec fn flag(enable: bool) -> i32 {
    if enable {
        1
    } else {
        0
    }
}

impl SockOpt {
    /// The level at which the option lives: that of the socket, or that of
    /// TCP.
    pub open spec fn spec_level(self) -> i32 {
        match self {
            SockOpt::ReuseAddr(_)
            | SockOpt::ReusePort(_)
            | SockOpt::RecvBufferSize(_)
            | SockOpt::SendBufferSize(_)
            | SockOpt::Keepalive(_)
            | SockOpt::Linger(_) => 1,
            SockOpt::TcpNodelay(_)
            | SockOpt::KeepaliveIdle(_)
            | SockOpt::KeepaliveInterval(_)
            | SockOpt::KeepaliveCount(_)
            | SockOpt::TcpCork(_)
            | SockOpt::TcpQuickack(_)
            | SockOpt::TcpFastopen(_) => 6,
        }
    }

    /// The constant that names the option at its level.
    pub open spec fn spec_name(self) -> i32 {
        match self {
            SockOpt::ReuseAddr(_) => 2,
            SockOpt::ReusePort(_) => 15,
            SockOpt::TcpNodelay(_) => 1,
            SockOpt::RecvBufferSize(_) => 8,
            SockOpt::SendBufferSize(_) => 7,
            SockOpt::Keepalive(_) => 9,
            SockOpt::KeepaliveIdle(_) => 4,
            SockOpt::KeepaliveInterval(_) => 5,
            SockOpt::KeepaliveCount(_) => 6,
            SockOpt::Linger(_) => 13,
            SockOpt::TcpCork(_) => 3,
            SockOpt::TcpQuickack(_) => 12,
            SockOpt::TcpFastopen(_) => 23,
        }
    }

    /// The value handed over: a switch as 1 or 0, a size or a time cut to
    /// the width of a C integer, the linger pair.
    pub open spec fn spec_value(self) -> OptValue {
        match self {
            SockOpt::ReuseAddr(on) => OptValue::Int(flag(on)),
            SockOpt::ReusePort(on) => OptValue::Int(flag(on)),
            SockOpt::TcpNodelay(on) => OptValue::Int(flag(on)),
            SockOpt::RecvBufferSize(size) => OptValue::Int(size as i32),
            SockOpt::SendBufferSize(size) => OptValue::Int(size as i32),
            SockOpt::Keepalive(on) => OptValue::Int(flag(on)),
            SockOpt::KeepaliveIdle(seconds) => OptValue::Int(seconds as i32),
            SockOpt::KeepaliveInterval(seconds) => OptValue::Int(seconds as i32),
            SockOpt::KeepaliveCount(count) => OptValue::Int(count as i32),
            SockOpt::Linger(None) => OptValue::Linger { onoff: 0, seconds: 0 },
            SockOpt::Linger(Some(seconds)) => OptValue::Linger { onoff: 1, seconds: seconds as i32 },
            SockOpt::TcpCork(on) => OptValue::Int(flag(on)),
            SockOpt::TcpQuickack(on) => OptValue::Int(flag(on)),
            SockOpt::TcpFastopen(queue_len) => OptValue::Int(queue_len),
        }
    }

    /// Returns the level to hand to the option-setting call.
    pub fn level(&self) -> (r: i32)
        ensures
            r == self.spec_level(),
    {
        match self {
            SockOpt::ReuseAddr(_)
            | SockOpt::ReusePort(_)
            | SockOpt::RecvBufferSize(_)
            | SockOpt::SendBufferSize(_)
            | SockOpt::Keepalive(_)
            | SockOpt::Linger(_) => sys::sol_socket(),
            SockOpt::TcpNodelay(_)
            | SockOpt::KeepaliveIdle(_)
            | SockOpt::KeepaliveInterval(_)
            | SockOpt::KeepaliveCount(_)
            | SockOpt::TcpCork(_)
            | SockOpt::TcpQuickack(_)
            | SockOpt::TcpFastopen(_) => sys::ipproto_tcp(),
        }
    }

    /// Returns the option's constant to hand to the option-setting call.
    pub fn name(&self) -> (r: i32)
        ensures
            r == self.spec_name(),
    {
        match self {
            SockOpt::ReuseAddr(_) => sys::so_reuseaddr(),
            SockOpt::ReusePort(_) => sys::so_reuseport(),
            SockOpt::TcpNodelay(_) => sys::tcp_nodelay(),
            SockOpt::RecvBufferSize(_) => sys::so_rcvbuf(),
            SockOpt::SendBufferSize(_) => sys::so_sndbuf(),
            SockOpt::Keepalive(_) => sys::so_keepalive(),
            SockOpt::KeepaliveIdle(_) => sys::tcp_keepidle(),
            SockOpt::KeepaliveInterval(_) => sys::tcp_keepintvl(),
            SockOpt::KeepaliveCount(_) => sys::tcp_keepcnt(),
            SockOpt::Linger(_) => sys::so_linger(),
            SockOpt::TcpCork(_) => sys::tcp_cork(),
            SockOpt::TcpQuickack(_) => sys::tcp_quickack(),
            SockOpt::TcpFastopen(_) => sys::tcp_fastopen(),
        }
    }

    /// Returns the value to hand to the option-setting call.
    pub fn value(&self) -> (r: OptValue)
        ensures
            r == self.spec_value(),
    {
        match self {
            SockOpt::ReuseAddr(on) => OptValue::Int(as_flag(*on)),
            SockOpt::ReusePort(on) => OptValue::Int(as_flag(*on)),
            SockOpt::TcpNodelay(on) => OptValue::Int(as_flag(*on)),
            SockOpt::RecvBufferSize(size) => OptValue::Int(#[verifier::truncate] (*size as i32)),
            SockOpt::SendBufferSize(size) => OptValue::Int(#[verifier::truncate] (*size as i32)),
            SockOpt::Keepalive(on) => OptValue::Int(as_flag(*on)),
            SockOpt::KeepaliveIdle(seconds) => OptValue::Int(
                #[verifier::truncate] (*seconds as i32),
            ),
            SockOpt::KeepaliveInterval(seconds) => OptValue::Int(
                #[verifier::truncate] (*seconds as i32),
            ),
            SockOpt::KeepaliveCount(count) => OptValue::Int(#[verifier::truncate] (*count as i32)),
            SockOpt::Linger(None) => OptValue::Linger { onoff: 0, seconds: 0 },
            SockOpt::Linger(Some(seconds)) => OptValue::Linger {
                onoff: 1,
                seconds: #[verifier::truncate] (*seconds as i32),
            },
            SockOpt::TcpCork(on) => OptValue::Int(as_flag(*on)),
            SockOpt::TcpQuickack(on) => OptValue::Int(as_flag(*on)),
            SockOpt::TcpFastopen(queue_len) => OptValue::Int(*queue_len),
        }
    }

    /// Reads the outcome of setting the option: the failure with its error
    /// number where the call returned -1.
    pub fn finish(&self, done: Outcome) -> (r: Result<(), SocketError>)
        ensures
            done.ret == -1 ==> r == Err::<(), SocketError>(
                SocketError::SetOption { errno: done.errno, option: "socket option" },
            ),
            done.ret != -1 ==> r == Ok::<(), SocketError>(()),
    {
        if done.ret == -1 {
            Err(SocketError::SetOption { errno: done.errno, option: "socket option" })
        } else {
            Ok(())
        }
    }
}

/// A boolean as a C integer.
fn as_flag(enable: bool) -> (r: i32)
    ensures
        r == flag(enable),
{
    if enable {
        1
    } else {
        0
    }
}

/// TCP connection statistics.
#[derive(Debug, Clone, Copy)]
pub struct TcpInfo {
    pub state: u8,
    pub retransmits: u8,
    pub probes: u8,
    pub backoff: u8,
    /// Round-trip time in microseconds.
    pub rtt_us: u32,
    /// Variance of the round-trip time.
    pub rtt_var_us: u32,
    /// Congestion window in packets.
    pub snd_cwnd: u32,
    /// Round-trip time as the receiver sees it.
    pub rcv_rtt_us: u32,
    /// Total retransmissions.
    pub total_retrans: u32,
}

impl Default for TcpInfo {
    fn default() -> (r: Self)
        ensures
            r == (TcpInfo {
                state: 0,
                retransmits: 0,
                probes: 0,
                backoff: 0,
                rtt_us: 0,
                rtt_var_us: 0,
                snd_cwnd: 0,
                rcv_rtt_us: 0,
                total_retrans: 0,
            }),
    {
        TcpInfo {
            state: 0,
            retransmits: 0,
            probes: 0,
            backoff: 0,
            rtt_us: 0,
            rtt_var_us: 0,
            snd_cwnd: 0,
            rcv_rtt_us: 0,
            total_retrans: 0,
        }
    }
}

/// Reads the outcome of asking for the statistics of a connection: the
/// failure with its error number where the call returned -1, else the
/// statistics that the call stored.
pub fn get_tcp_info(done: Outcome, stored: TcpInfo) -> (r: Result<TcpInfo, SocketError>)
    ensures
        done.ret == -1 ==> r == Err::<TcpInfo, SocketError>(
            SocketError::GetOption { errno: done.errno, option: "TCP_INFO" },
        ),
        done.ret != -1 ==> r == Ok::<TcpInfo, SocketError>(stored),
{
    if done.ret == -1 {
        return Err(SocketError::GetOption { errno: done.errno, option: "TCP_INFO" });
    }
    Ok(stored)
}

/// Reads the outcome of moving data between two descriptors: how many bytes
/// were moved.
pub fn splice(done: Transfer) -> (r: Result<usize, IoError>)
    ensures
        r == done.write_result(),
{
    done.into_write()
}

/// The head of a control message: the level it belongs to and its type.
#[derive(Debug, Clone, Copy, PartialEq, Eq, Structural)]
pub struct ControlHeader {
    pub level: i32,
    pub kind: i32,
}

impl ControlHeader {
    /// Whether the message carries descriptors: its level is that of the
    /// socket and its type that of passed rights.
    pub open spec fn carries_descriptor(self) -> bool {
        self.level == 1 && self.kind == 1
    }

    /// The head of a message that carries a descriptor.
    pub fn for_descriptor() -> (h: ControlHeader)
        ensures
            h == (ControlHeader { level: 1, kind: 1 }),
            h.carries_descriptor(),
    {
        ControlHeader { level: sys::sol_socket(), kind: sys::scm_rights() }
    }
}

/// Reads the outcome of sending a descriptor over a Unix-domain socket.
pub fn send_fd(done: Transfer) -> (r: Result<(), IoError>)
    ensures
        done.count == -1 ==> r == Err::<(), IoError>(IoError::Write { errno: done.errno }),
        done.count != -1 ==> r == Ok::<(), IoError>(()),
{
    if done.count == -1 {
        Err(IoError::Write { errno: done.errno })
    } else {
        Ok(())
    }
}

/// What receiving a descriptor yields. A failure of the call is a read
/// failure with its error number. A message without control data, or with
/// control data of another level or type, is an invalid state and no read
/// failure. Else the result is the descriptor that the control message
/// carries, which the receiver now owns.
pub open spec fn recv_fd_result(done: Transfer, control: Option<(ControlHeader, i32)>) -> Result<
    i32,
    Error,
> {
    if done.count == -1 {
        Err(Error::Io(IoError::Read { errno: done.errno }))
    } else {
        match control {
            None => Err(
                Error::Socket(
                    SocketError::InvalidAddress { reason: "no control message received" },
                ),
            ),
            Some((head, fd)) => if head.carries_descriptor() {
                Ok(fd)
            } else {
                Err(
                    Error::Socket(
                        SocketError::InvalidAddress { reason: "unexpected control message type" },
                    ),
                )
            },
        }
    }
}

/// Reads the outcome of receiving a descriptor from a Unix-domain socket.
/// `control` is the first control message that came with the data, its head
/// and the descriptor in it, or `None` where none came.
pub fn recv_fd(done: Transfer, control: Option<(ControlHeader, i32)>) -> (r: Result<i32, Error>)
    ensures
        r == recv_fd_result(done, control),
{
    if done.count == -1 {
        return Err(Error::Io(IoError::Read { errno: done.errno }));
    }
    match control {
        None => Err(
            Error::Socket(SocketError::InvalidAddress { reason: "no control message received" }),
        ),
        Some((head, fd)) => {
            if head.level != sys::sol_socket() || head.kind != sys::scm_rights() {
                return Err(
                    Error::Socket(
                        SocketError::InvalidAddress { reason: "unexpected control message type" },
                    ),
                );
            }
            Ok(fd)
        },
    }
}

} // verus!
