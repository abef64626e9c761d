//! The constants and layout sizes of the operating system that the library's
//! rules refer to, taken from `libc`. The values stated are those of Linux on
//! x86-64 (the generic tables, shared by AArch64 and RISC-V).
//!
//! Nothing in this file is proved. Each function hands on one constant or
//! size, and its contract states the value, which the verifier believes.

use vstd::prelude::*;

verus! {

/// `libc::AF_UNIX`: the address family of Unix-domain sockets. Claimed: its
/// value is 1.
#[verifier::external_body]
pub(crate) fn af_unix() -> (r: i32)
    ensures
        r == 1,
{
    libc::AF_UNIX
}

/// `libc::AF_INET`: the address family of IPv4. Claimed: its value is 2.
#[verifier::external_body]
pub(crate) fn af_inet() -> (r: i32)
    ensures
        r == 2,
{
    libc::AF_INET
}

/// `libc::AF_INET6`: the address family of IPv6. Claimed: its value is 10.
#[verifier::external_body]
pub(crate) fn af_inet6() -> (r: i32)
    ensures
        r == 10,
{
    libc::AF_INET6
}

/// `libc::SOCK_STREAM`: the socket type of a reliable byte stream. Claimed:
/// its value is 1.
#[verifier::external_body]
pub(crate) fn sock_stream() -> (r: i32)
    ensures
        r == 1,
{
    libc::SOCK_STREAM
}

/// `libc::SOCK_DGRAM`: the socket type of datagrams. Claimed: its value is 2.
#[verifier::external_body]
pub(crate) fn sock_dgram() -> (r: i32)
    ensures
        r == 2,
{
    libc::SOCK_DGRAM
}

/// `libc::SOCK_NONBLOCK`: the creation flag for a non-blocking descriptor.
/// Claimed: its value is 2048.
#[verifier::external_body]
pub(crate) fn sock_nonblock() -> (r: i32)
    ensures
        r == 2048,
{
    libc::SOCK_NONBLOCK
}

/// `libc::SOCK_CLOEXEC`: the creation flag that closes the descriptor when
/// the process is replaced. Claimed: its value is 524288.
#[verifier::external_body]
pub(crate) fn sock_cloexec() -> (r: i32)
    ensures
        r == 524288,
{
    libc::SOCK_CLOEXEC
}

/// `libc::O_NONBLOCK`: the status flag of a non-blocking descriptor. Claimed:
/// its value is 2048.
#[verifier::external_body]
pub(crate) fn o_nonblock() -> (r: i32)
    ensures
        r == 2048,
{
    libc::O_NONBLOCK
}

/// `libc::SOL_SOCKET`: the level of socket-wide options and control messages.
/// Claimed: its value is 1.
#[verifier::external_body]
pub(crate) fn sol_socket() -> (r: i32)
    ensures
        r == 1,
{
    libc::SOL_SOCKET
}

/// `libc::SCM_RIGHTS`: the control-message type that carries descriptors.
/// Claimed: its value is 1.
#[verifier::external_body]
pub(crate) fn scm_rights() -> (r: i32)
    ensures
        r == 1,
{
    libc::SCM_RIGHTS
}

/// `libc::IPPROTO_TCP`: the level of TCP options. Claimed: its value is 6.
#[verifier::external_body]
pub(crate) fn ipproto_tcp() -> (r: i32)
    ensures
        r == 6,
{
    libc::IPPROTO_TCP
}

/// `libc::SO_REUSEADDR`: the option that lets an address be bound again while
/// old connections linger. Claimed: its value is 2.
#[verifier::external_body]
pub(crate) fn so_reuseaddr() -> (r: i32)
    ensures
        r == 2,
{
    libc::SO_REUSEADDR
}

/// `libc::SO_SNDBUF`: the option of the send buffer size. Claimed: its value
/// is 7.
#[verifier::external_body]
pub(crate) fn so_sndbuf() -> (r: i32)
    ensures
        r == 7,
{
    libc::SO_SNDBUF
}

/// `libc::SO_RCVBUF`: the option of the receive buffer size. Claimed: its
/// value is 8.
#[verifier::external_body]
pub(crate) fn so_rcvbuf() -> (r: i32)
    ensures
        r == 8,
{
    libc::SO_RCVBUF
}

/// `libc::SO_KEEPALIVE`: the option that turns keep-alive probes on. Claimed:
/// its value is 9.
#[verifier::external_body]
pub(crate) fn so_keepalive() -> (r: i32)
    ensures
        r == 9,
{
    libc::SO_KEEPALIVE
}

/// `libc::SO_LINGER`: the option of what closing does with unsent data.
/// Claimed: its value is 13.
#[verifier::external_body]
pub(crate) fn so_linger() -> (r: i32)
    ensures
        r == 13,
{
    libc::SO_LINGER
}

/// `libc::SO_REUSEPORT`: the option that lets several sockets bind one port.
/// Claimed: its value is 15.
#[verifier::external_body]
pub(crate) fn so_reuseport() -> (r: i32)
    ensures
        r == 15,
{
    libc::SO_REUSEPORT
}

/// `libc::TCP_NODELAY`: the option that sends small writes at once. Claimed:
/// its value is 1.
#[verifier::external_body]
pub(crate) fn tcp_nodelay() -> (r: i32)
    ensures
        r == 1,
{
    libc::TCP_NODELAY
}

/// `libc::TCP_CORK`: the option that holds small writes back. Claimed: its
/// value is 3.
#[verifier::external_body]
pub(crate) fn tcp_cork() -> (r: i32)
    ensures
        r == 3,
{
    libc::TCP_CORK
}

/// `libc::TCP_KEEPIDLE`: the option of the idle time before the first keep-
/// alive probe. Claimed: its value is 4.
#[verifier::external_body]
pub(crate) fn tcp_keepidle() -> (r: i32)
    ensures
        r == 4,
{
    libc::TCP_KEEPIDLE
}

/// `libc::TCP_KEEPINTVL`: the option of the time between keep-alive probes.
/// Claimed: its value is 5.
#[verifier::external_body]
pub(crate) fn tcp_keepintvl() -> (r: i32)
    ensures
        r == 5,
{
    libc::TCP_KEEPINTVL
}

/// `libc::TCP_KEEPCNT`: the option of the number of unanswered probes before
/// the connection counts as dead. Claimed: its value is 6.
#[verifier::external_body]
pub(crate) fn tcp_keepcnt() -> (r: i32)
    ensures
        r == 6,
{
    libc::TCP_KEEPCNT
}

/// `libc::TCP_QUICKACK`: the option that acknowledges at once. Claimed: its
/// value is 12.
#[verifier::external_body]
pub(crate) fn tcp_quickack() -> (r: i32)
    ensures
        r == 12,
{
    libc::TCP_QUICKACK
}

/// `libc::TCP_FASTOPEN`: the option that lets data travel with the opening of
/// a connection. Claimed: its value is 23.
#[verifier::external_body]
pub(crate) fn tcp_fastopen() -> (r: i32)
    ensures
        r == 23,
{
    libc::TCP_FASTOPEN
}

/// `libc::SHUT_RD`: closes the reading half. Claimed: its value is 0.
#[verifier::external_body]
pub(crate) fn shut_rd() -> (r: i32)
    ensures
        r == 0,
{
    libc::SHUT_RD
}

/// `libc::SHUT_WR`: closes the writing half. Claimed: its value is 1.
#[verifier::external_body]
pub(crate) fn shut_wr() -> (r: i32)
    ensures
        r == 1,
{
    libc::SHUT_WR
}

/// `libc::SHUT_RDWR`: closes both halves. Claimed: its value is 2.
#[verifier::external_body]
pub(crate) fn shut_rdwr() -> (r: i32)
    ensures
        r == 2,
{
    libc::SHUT_RDWR
}

/// `libc::EPERM`: operation not permitted. Claimed: its value is 1.
#[verifier::external_body]
pub(crate) fn eperm() -> (r: i32)
    ensures
        r == 1,
{
    libc::EPERM
}

/// `libc::EINTR`: interrupted by a signal. Claimed: its value is 4.
#[verifier::external_body]
pub(crate) fn eintr() -> (r: i32)
    ensures
        r == 4,
{
    libc::EINTR
}

/// `libc::EBADF`: bad descriptor. Claimed: its value is 9.
#[verifier::external_body]
pub(crate) fn ebadf() -> (r: i32)
    ensures
        r == 9,
{
    libc::EBADF
}

/// `libc::EAGAIN`: resource temporarily unavailable. Claimed: its value is
/// 11.
#[verifier::external_body]
pub(crate) fn eagain() -> (r: i32)
    ensures
        r == 11,
{
    libc::EAGAIN
}

/// `libc::EWOULDBLOCK`: the operation would block; the same number as
/// `EAGAIN`. Claimed: its value is 11.
#[verifier::external_body]
pub(crate) fn ewouldblock() -> (r: i32)
    ensures
        r == 11,
{
    libc::EWOULDBLOCK
}

/// `libc::EACCES`: permission denied. Claimed: its value is 13.
#[verifier::external_body]
pub(crate) fn eacces() -> (r: i32)
    ensures
        r == 13,
{
    libc::EACCES
}

/// `libc::EINVAL`: invalid argument. Claimed: its value is 22.
#[verifier::external_body]
pub(crate) fn einval() -> (r: i32)
    ensures
        r == 22,
{
    libc::EINVAL
}

/// `libc::EMFILE`: too many open descriptors. Claimed: its value is 24.
#[verifier::external_body]
pub(crate) fn emfile() -> (r: i32)
    ensures
        r == 24,
{
    libc::EMFILE
}

/// `libc::EPIPE`: broken pipe. Claimed: its value is 32.
#[verifier::external_body]
pub(crate) fn epipe() -> (r: i32)
    ensures
        r == 32,
{
    libc::EPIPE
}

/// `libc::EAFNOSUPPORT`: address family not supported. Claimed: its value is
/// 97.
#[verifier::external_body]
pub(crate) fn eafnosupport() -> (r: i32)
    ensures
        r == 97,
{
    libc::EAFNOSUPPORT
}

/// `libc::EADDRINUSE`: address already in use. Claimed: its value is 98.
#[verifier::external_body]
pub(crate) fn eaddrinuse() -> (r: i32)
    ensures
        r == 98,
{
    libc::EADDRINUSE
}

/// `libc::EADDRNOTAVAIL`: address not available. Claimed: its value is 99.
#[verifier::external_body]
pub(crate) fn eaddrnotavail() -> (r: i32)
    ensures
        r == 99,
{
    libc::EADDRNOTAVAIL
}

/// `libc::ENETUNREACH`: network unreachable. Claimed: its value is 101.
#[verifier::external_body]
pub(crate) fn enetunreach() -> (r: i32)
    ensures
        r == 101,
{
    libc::ENETUNREACH
}

/// `libc::ECONNRESET`: connection reset by the peer. Claimed: its value is
/// 104.
#[verifier::external_body]
pub(crate) fn econnreset() -> (r: i32)
    ensures
        r == 104,
{
    libc::ECONNRESET
}

/// `libc::ENOBUFS`: no buffer space. Claimed: its value is 105.
#[verifier::external_body]
pub(crate) fn enobufs() -> (r: i32)
    ensures
        r == 105,
{
    libc::ENOBUFS
}

/// `libc::ENOTCONN`: not connected. Claimed: its value is 107.
#[verifier::external_body]
pub(crate) fn enotconn() -> (r: i32)
    ensures
        r == 107,
{
    libc::ENOTCONN
}

/// `libc::ETIMEDOUT`: timed out. Claimed: its value is 110.
#[verifier::external_body]
pub(crate) fn etimedout() -> (r: i32)
    ensures
        r == 110,
{
    libc::ETIMEDOUT
}

/// `libc::ECONNREFUSED`: connection refused. Claimed: its value is 111.
#[verifier::external_body]
pub(crate) fn econnrefused() -> (r: i32)
    ensures
        r == 111,
{
    libc::ECONNREFUSED
}

/// `libc::EINPROGRESS`: operation in progress. Claimed: its value is 115.
#[verifier::external_body]
pub(crate) fn einprogress() -> (r: i32)
    ensures
        r == 115,
{
    libc::EINPROGRESS
}

/// `std::mem::size_of::<libc::sa_family_t>()`: the size in bytes of the
/// family field that every address form starts with. Claimed: it is 2.
#[verifier::external_body]
pub(crate) fn family_field_len() -> (r: usize)
    ensures
        r == 2,
{
    std::mem::size_of::<libc::sa_family_t>()
}

/// `std::mem::size_of::<libc::sockaddr_in>()`: the size in bytes of the IPv4
/// address form. Claimed: it is 16.
#[verifier::external_body]
pub(crate) fn sockaddr_in_len() -> (r: usize)
    ensures
        r == 16,
{
    std::mem::size_of::<libc::sockaddr_in>()
}

/// `std::mem::size_of::<libc::sockaddr_in6>()`: the size in bytes of the IPv6
/// address form. Claimed: it is 28.
#[verifier::external_body]
pub(crate) fn sockaddr_in6_len() -> (r: usize)
    ensures
        r == 28,
{
    std::mem::size_of::<libc::sockaddr_in6>()
}

/// `std::mem::size_of::<libc::sockaddr_un>()`: the size in bytes of the Unix-
/// domain address form. Claimed: it is 110.
#[verifier::external_body]
pub(crate) fn sockaddr_un_len() -> (r: usize)
    ensures
        r == 110,
{
    std::mem::size_of::<libc::sockaddr_un>()
}

/// `std::mem::size_of::<libc::sockaddr_storage>()`: the size in bytes of the
/// buffer that holds an address form of any family. Claimed: it is 128.
#[verifier::external_body]
pub(crate) fn sockaddr_storage_len() -> (r: usize)
    ensures
        r == 128,
{
    std::mem::size_of::<libc::sockaddr_storage>()
}

/// `u16::to_ne_bytes`: the two bytes of `x` as they lie in memory. Claimed:
/// they are `x` written low byte first or high byte first, whichever the
/// machine uses.
#[verifier::external_body]
pub(crate) fn native_bytes(x: u16) -> (r: [u8; 2])
    ensures
        (r[0] == x % 256 && r[1] == x / 256) || (r[0] == x / 256 && r[1] == x % 256),
{
    x.to_ne_bytes()
}

} // verus!
