//! The failures of socket operations and the mapping of the operating
//! system's error numbers.

use vstd::prelude::*;
use crate::sys;

verus! {

/// Socket creation/configuration errors.
#[derive(Debug)]
pub enum SocketError {
    /// Creating the socket failed.
    Create { errno: i32 },
    /// Binding to `addr` failed.
    Bind { errno: i32, addr: String },
    /// Listening with the given backlog failed.
    Listen { errno: i32, backlog: i32 },
    /// Connecting to `addr` failed.
    Connect { errno: i32, addr: String },
    /// Accepting a connection failed.
    Accept { errno: i32 },
    /// Setting the named option failed.
    SetOption { errno: i32, option: &'static str },
    /// Reading the named option failed.
    GetOption { errno: i32, option: &'static str },
    /// The address is not valid; found before any system call, so there is
    /// no error number.
    InvalidAddress { reason: &'static str },
}

/// I/O operation errors.
#[derive(Debug)]
pub enum IoError {
    /// Reading failed.
    Read { errno: i32 },
    /// Writing failed.
    Write { errno: i32 },
    /// The peer closed the connection.
    ConnectionClosed,
    /// The operation would block.
    WouldBlock,
    /// A signal interrupted the operation.
    Interrupted,
}

/// The classes into which failures fall, so that a caller can tell them apart
/// without reading an error text.
#[derive(Debug, Clone, Copy, PartialEq, Eq, Structural)]
pub enum ErrorKind {
    PermissionDenied,
    AddrInUse,
    AddrNotAvailable,
    WouldBlock,
    ConnectionRefused,
    ConnectionReset,
    Interrupted,
    InvalidInput,
    NotConnected,
    BrokenPipe,
    TimedOut,
    Other,
}

/// A failure of any operation of the library.
#[derive(Debug)]
pub enum Error {
    Socket(SocketError),
    Io(IoError),
}

/// The class of an error number.
pub open spec fn kind_of_errno(errno: i32) -> ErrorKind {
    match errno {
        // permission denied, operation not permitted
        13 | 1 => ErrorKind::PermissionDenied,
        // address already in use
        98 => ErrorKind::AddrInUse,
        // address not available
        99 => ErrorKind::AddrNotAvailable,
        // resource temporarily unavailable, operation would block
        11 => ErrorKind::WouldBlock,
        // connection refused
        111 => ErrorKind::ConnectionRefused,
        // connection reset by the peer
        104 => ErrorKind::ConnectionReset,
        // interrupted by a signal
        4 => ErrorKind::Interrupted,
        // invalid argument
        22 => ErrorKind::InvalidInput,
        // not connected
        107 => ErrorKind::NotConnected,
        // broken pipe
        32 => ErrorKind::BrokenPipe,
        // timed out
        110 => ErrorKind::TimedOut,
        _ => ErrorKind::Other,
    }
}

/// Maps errno to its class.
pub fn errno_to_kind(errno: i32) -> (k: ErrorKind)
    ensures
        k == kind_of_errno(errno),
{
    if errno == sys::eacces() || errno == sys::eperm() {
        ErrorKind::PermissionDenied
    } else if errno == sys::eaddrinuse() {
        ErrorKind::AddrInUse
    } else if errno == sys::eaddrnotavail() {
        ErrorKind::AddrNotAvailable
    } else if errno == sys::eagain() || errno == sys::ewouldblock() {
        ErrorKind::WouldBlock
    } else if errno == sys::econnrefused() {
        ErrorKind::ConnectionRefused
    } else if errno == sys::econnreset() {
        ErrorKind::ConnectionReset
    } else if errno == sys::eintr() {
        ErrorKind::Interrupted
    } else if errno == sys::einval() {
        ErrorKind::InvalidInput
    } else if errno == sys::enotconn() {
        ErrorKind::NotConnected
    } else if errno == sys::epipe() {
        ErrorKind::BrokenPipe
    } else if errno == sys::etimedout() {
        ErrorKind::TimedOut
    } else {
        ErrorKind::Other
    }
}

/// What is printed for an error number that has no text of its own.
pub uninterp spec fn unknown_errno_text(errno: i32) -> Seq<char>;

/// `format!` with `errno {}` on the number: the word and the number in
/// decimal, which depend on the number alone.
#[verifier::external_body]
fn unknown_errno(errno: i32) -> (s: String)
    ensures
        s@ == unknown_errno_text(errno),
{
    format!("errno {}", errno)
}

/// The text of an error number.
pub open spec fn text_of_errno(errno: i32) -> Seq<char> {
    match errno {
        13 => "permission denied"@,
        98 => "address already in use"@,
        99 => "address not available"@,
        97 => "address family not supported"@,
        11 => "resource temporarily unavailable"@,
        9 => "bad file descriptor"@,
        111 => "connection refused"@,
        104 => "connection reset by peer"@,
        115 => "operation in progress"@,
        4 => "interrupted by signal"@,
        22 => "invalid argument"@,
        24 => "too many open files"@,
        101 => "network unreachable"@,
        105 => "no buffer space available"@,
        107 => "not connected"@,
        32 => "broken pipe"@,
        110 => "connection timed out"@,
        _ => unknown_errno_text(errno),
    }
}

/// Converts errno to human-readable string.
pub fn errno_to_str(errno: i32) -> (s: String)
    ensures
        s@ == text_of_errno(errno),
{
    if errno == sys::eacces() {
        "permission denied".to_owned()
    } else if errno == sys::eaddrinuse() {
        "address already in use".to_owned()
    } else if errno == sys::eaddrnotavail() {
        "address not available".to_owned()
    } else if errno == sys::eafnosupport() {
        "address family not supported".to_owned()
    } else if errno == sys::eagain() {
        "resource temporarily unavailable".to_owned()
    } else if errno == sys::ebadf() {
        "bad file descriptor".to_owned()
    } else if errno == sys::econnrefused() {
        "connection refused".to_owned()
    } else if errno == sys::econnreset() {
        "connection reset by peer".to_owned()
    } else if errno == sys::einprogress() {
        "operation in progress".to_owned()
    } else if errno == sys::eintr() {
        "interrupted by signal".to_owned()
    } else if errno == sys::einval() {
        "invalid argument".to_owned()
    } else if errno == sys::emfile() {
        "too many open files".to_owned()
    } else if errno == sys::enetunreach() {
        "network unreachable".to_owned()
    } else if errno == sys::enobufs() {
        "no buffer space available".to_owned()
    } else if errno == sys::enotconn() {
        "not connected".to_owned()
    } else if errno == sys::epipe() {
        "broken pipe".to_owned()
    } else if errno == sys::etimedout() {
        "connection timed out".to_owned()
    } else {
        unknown_errno(errno)
    }
}

impl SocketError {
    /// The error number that the failure stands for: the one the operating
    /// system gave, or that of an invalid argument where the failure was
    /// found before any system call.
    pub open spec fn spec_errno(&self) -> i32 {
        match self {
            SocketError::Create { errno } => *errno,
            SocketError::Bind { errno, .. } => *errno,
            SocketError::Listen { errno, .. } => *errno,
            SocketError::Connect { errno, .. } => *errno,
            SocketError::Accept { errno } => *errno,
            SocketError::SetOption { errno, .. } => *errno,
            SocketError::GetOption { errno, .. } => *errno,
            SocketError::InvalidAddress { .. } => 22,
        }
    }

    /// Returns the error number that the failure stands for.
    pub fn errno(&self) -> (e: i32)
        ensures
            e == self.spec_errno(),
    {
        match self {
            SocketError::Create { errno } => *errno,
            SocketError::Bind { errno, .. } => *errno,
            SocketError::Listen { errno, .. } => *errno,
            SocketError::Connect { errno, .. } => *errno,
            SocketError::Accept { errno } => *errno,
            SocketError::SetOption { errno, .. } => *errno,
            SocketError::GetOption { errno, .. } => *errno,
            SocketError::InvalidAddress { .. } => sys::einval(),
        }
    }

    /// The class of the failure.
    pub open spec fn spec_kind(&self) -> ErrorKind {
        kind_of_errno(self.spec_errno())
    }

    /// Returns the class of the failure.
    pub fn kind(&self) -> (k: ErrorKind)
        ensures
            k == self.spec_kind(),
    {
        errno_to_kind(self.errno())
    }
}

impl IoError {
    /// The class of the failure.
    pub open spec fn spec_kind(&self) -> ErrorKind {
        match self {
            IoError::Read { errno } => kind_of_errno(*errno),
            IoError::Write { errno } => kind_of_errno(*errno),
            IoError::ConnectionClosed => ErrorKind::ConnectionReset,
            IoError::WouldBlock => ErrorKind::WouldBlock,
            IoError::Interrupted => ErrorKind::Interrupted,
        }
    }

    /// Returns the class of the failure.
    pub fn kind(&self) -> (k: ErrorKind)
        ensures
            k == self.spec_kind(),
    {
        match self {
            IoError::Read { errno } => errno_to_kind(*errno),
            IoError::Write { errno } => errno_to_kind(*errno),
            IoError::ConnectionClosed => ErrorKind::ConnectionReset,
            IoError::WouldBlock => ErrorKind::WouldBlock,
            IoError::Interrupted => ErrorKind::Interrupted,
        }
    }
}

impl Error {
    /// The class of the failure.
    pub open spec fn spec_kind(&self) -> ErrorKind {
        match self {
            Error::Socket(e) => e.spec_kind(),
            Error::Io(e) => e.spec_kind(),
        }
    }

    /// Returns the class of the failure.
    pub fn kind(&self) -> (k: ErrorKind)
        ensures
            k == self.spec_kind(),
    {
        match self {
            Error::Socket(e) => e.kind(),
            Error::Io(e) => e.kind(),
        }
    }
}

impl From<SocketError> for Error {
    fn from(err: SocketError) -> (e: Error) {
        Error::Socket(err)
    }
}

impl vstd::std_specs::convert::FromSpecImpl<SocketError> for Error {
    open spec fn obeys_from_spec() -> bool {
        true
    }

    open spec fn from_spec(err: SocketError) -> Error {
        Error::Socket(err)
    }
}

impl From<IoError> for Error {
    fn from(err: IoError) -> (e: Error) {
        Error::Io(err)
    }
}

impl vstd::std_specs::convert::FromSpecImpl<IoError> for Error {
    open spec fn obeys_from_spec() -> bool {
        true
    }

    open spec fn from_spec(err: IoError) -> Error {
        Error::Io(err)
    }
}

} // verus!
