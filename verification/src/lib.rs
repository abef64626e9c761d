//! The decision core of a typestate socket layer.
//!
//! The library holds the address model with its byte-exact marshaling, the
//! lifecycle handles and their transitions, the batched and out-of-band
//! transfer rules, and the error taxonomy. The caller performs the system
//! calls and hands their results back as plain values.

pub mod addr;
pub mod error;
pub mod socket;
mod sys;

pub use self::addr::{
    ByteOrder, Domain, FromSockAddr, Ipv4, Ipv6, SocketAddrV4, SocketAddrV6, ToSockAddr, Unix,
    UnixAddr,
};
pub use self::error::{errno_to_kind, errno_to_str, Error, ErrorKind, IoError, SocketError};
pub use self::socket::{
    get_tcp_info, recv_fd, send_fd, splice, AcceptResult, BoundDatagram, BoundSocket, BufferConfig,
    ConnectedDatagram, ConnectedStream, ConnectorBuilder, ControlHeader, Datagram, DatagramBuilder,
    FlagUpdate, KeepaliveConfig, Listener, ListenerBuilder, MsgResult, NameBuf, OptValue, Outcome,
    PendingConnect, RawSocket, RecvPlan, RecvSlot, ReuseConfig, SendMsg, SendPlan, Shutdown, SockOpt,
    SockType, Stream, TcpConfig, TcpInfo, Transfer,
};
