use wirelane::addr::{Ipv4, Unix};
use wirelane::error::{Error, IoError, SocketError};
use wirelane::socket::builder::ListenPlan;
use wirelane::socket::{
    get_tcp_info, recv_fd, send_fd, splice, BufferConfig, ConnectorBuilder, ControlHeader,
    DatagramBuilder, KeepaliveConfig, ListenerBuilder, OptValue, Outcome, ReuseConfig, SockOpt,
    TcpConfig, TcpInfo, Transfer,
};

fn ok(ret: i32) -> Outcome {
    Outcome { ret, errno: 0 }
}

#[test]
fn options_live_at_their_levels_under_their_names() {
    let table = [
        (SockOpt::ReuseAddr(true), libc::SOL_SOCKET, libc::SO_REUSEADDR),
        (SockOpt::ReusePort(true), libc::SOL_SOCKET, libc::SO_REUSEPORT),
        (SockOpt::TcpNodelay(true), libc::IPPROTO_TCP, libc::TCP_NODELAY),
        (SockOpt::RecvBufferSize(1), libc::SOL_SOCKET, libc::SO_RCVBUF),
        (SockOpt::SendBufferSize(1), libc::SOL_SOCKET, libc::SO_SNDBUF),
        (SockOpt::Keepalive(true), libc::SOL_SOCKET, libc::SO_KEEPALIVE),
        (SockOpt::KeepaliveIdle(1), libc::IPPROTO_TCP, libc::TCP_KEEPIDLE),
        (SockOpt::KeepaliveInterval(1), libc::IPPROTO_TCP, libc::TCP_KEEPINTVL),
        (SockOpt::KeepaliveCount(1), libc::IPPROTO_TCP, libc::TCP_KEEPCNT),
        (SockOpt::Linger(None), libc::SOL_SOCKET, libc::SO_LINGER),
        (SockOpt::TcpCork(true), libc::IPPROTO_TCP, libc::TCP_CORK),
        (SockOpt::TcpQuickack(true), libc::IPPROTO_TCP, libc::TCP_QUICKACK),
        (SockOpt::TcpFastopen(5), libc::IPPROTO_TCP, libc::TCP_FASTOPEN),
    ];
    for (opt, level, name) in table {
        assert_eq!(opt.level(), level);
        assert_eq!(opt.name(), name);
    }
}

#[test]
fn option_values() {
    assert_eq!(SockOpt::ReuseAddr(true).value(), OptValue::Int(1));
    assert_eq!(SockOpt::ReuseAddr(false).value(), OptValue::Int(0));
    assert_eq!(SockOpt::ReusePort(true).value(), OptValue::Int(1));
    assert_eq!(SockOpt::TcpNodelay(false).value(), OptValue::Int(0));
    assert_eq!(SockOpt::RecvBufferSize(65536).value(), OptValue::Int(65536));
    assert_eq!(SockOpt::SendBufferSize(8192).value(), OptValue::Int(8192));
    assert_eq!(SockOpt::Keepalive(true).value(), OptValue::Int(1));
    assert_eq!(SockOpt::KeepaliveIdle(60).value(), OptValue::Int(60));
    assert_eq!(SockOpt::KeepaliveInterval(10).value(), OptValue::Int(10));
    assert_eq!(SockOpt::KeepaliveCount(5).value(), OptValue::Int(5));
    assert_eq!(SockOpt::TcpCork(true).value(), OptValue::Int(1));
    assert_eq!(SockOpt::TcpQuickack(true).value(), OptValue::Int(1));
    assert_eq!(SockOpt::TcpFastopen(7).value(), OptValue::Int(7));
}

#[test]
fn option_values_are_cut_to_a_c_integer() {
    assert_eq!(SockOpt::KeepaliveIdle(u32::MAX).value(), OptValue::Int(-1));
    assert_eq!(SockOpt::RecvBufferSize(0x1_0000_0001usize).value(), OptValue::Int(1));
    assert_eq!(SockOpt::SendBufferSize(0x8000_0000usize).value(), OptValue::Int(i32::MIN));
}

#[test]
fn linger_values() {
    assert_eq!(SockOpt::Linger(None).value(), OptValue::Linger { onoff: 0, seconds: 0 });
    assert_eq!(SockOpt::Linger(Some(0)).value(), OptValue::Linger { onoff: 1, seconds: 0 });
    assert_eq!(SockOpt::Linger(Some(30)).value(), OptValue::Linger { onoff: 1, seconds: 30 });
}

#[test]
fn setting_an_option_fails_with_the_error_number() {
    let opt = SockOpt::TcpNodelay(true);
    assert_eq!(opt.finish(ok(0)).ok(), Some(()));
    let r = opt.finish(Outcome { ret: -1, errno: libc::EINVAL });
    assert!(matches!(r, Err(SocketError::SetOption { errno: 22, option: "socket option" })));
}

#[test]
fn statistics_are_handed_on() {
    let stored = TcpInfo { state: 1, rtt_us: 250, snd_cwnd: 10, total_retrans: 3, ..TcpInfo::default() };
    let got = get_tcp_info(ok(0), stored).unwrap();
    assert_eq!(got.state, 1);
    assert_eq!(got.rtt_us, 250);
    assert_eq!(got.snd_cwnd, 10);
    assert_eq!(got.total_retrans, 3);
    assert_eq!(got.retransmits, 0);
    let r = get_tcp_info(Outcome { ret: -1, errno: libc::ENOTCONN }, stored);
    assert!(matches!(r, Err(SocketError::GetOption { errno: 107, option: "TCP_INFO" })));
}

#[test]
fn default_statistics_are_zero() {
    let d = TcpInfo::default();
    assert_eq!(
        (d.state, d.retransmits, d.probes, d.backoff, d.rtt_us, d.rtt_var_us, d.snd_cwnd, d.rcv_rtt_us, d.total_retrans),
        (0, 0, 0, 0, 0, 0, 0, 0, 0)
    );
}

#[test]
fn splice_reports_the_count() {
    assert_eq!(splice(Transfer { count: 4096, errno: 0 }).ok(), Some(4096));
    assert!(matches!(splice(Transfer { count: -1, errno: 22 }), Err(IoError::Write { errno: 22 })));
}

#[test]
fn a_descriptor_travels_in_a_rights_message() {
    let head = ControlHeader::for_descriptor();
    assert_eq!(head, ControlHeader { level: libc::SOL_SOCKET, kind: libc::SCM_RIGHTS });
    assert_eq!(send_fd(Transfer { count: 1, errno: 0 }).ok(), Some(()));
    assert!(matches!(send_fd(Transfer { count: -1, errno: 32 }), Err(IoError::Write { errno: 32 })));
    assert_eq!(recv_fd(Transfer { count: 1, errno: 0 }, Some((head, 17))).ok(), Some(17));
}

#[test]
fn receiving_without_a_rights_message_is_an_invalid_state() {
    let done = Transfer { count: 1, errno: 0 };
    let r = recv_fd(done, None);
    assert!(matches!(r, Err(Error::Socket(SocketError::InvalidAddress { reason: "no control message received" }))));
    let r = recv_fd(done, Some((ControlHeader { level: libc::SOL_SOCKET, kind: 2 }, 17)));
    assert!(matches!(r, Err(Error::Socket(SocketError::InvalidAddress { reason: "unexpected control message type" }))));
    let r = recv_fd(done, Some((ControlHeader { level: libc::IPPROTO_TCP, kind: libc::SCM_RIGHTS }, 17)));
    assert!(matches!(r, Err(Error::Socket(SocketError::InvalidAddress { reason: "unexpected control message type" }))));
    let r = recv_fd(Transfer { count: -1, errno: 11 }, Some((ControlHeader::for_descriptor(), 17)));
    assert!(matches!(r, Err(Error::Io(IoError::Read { errno: 11 }))));
}

#[test]
fn buffer_config() {
    let c = BufferConfig::new();
    assert_eq!((c.recv, c.send), (None, None));
    let c = BufferConfig::new().recv(10);
    assert_eq!((c.recv, c.send), (Some(10), None));
    let c = BufferConfig::new().send(20);
    assert_eq!((c.recv, c.send), (None, Some(20)));
    let c = BufferConfig::new().recv(1).both(30);
    assert_eq!((c.recv, c.send), (Some(30), Some(30)));
    let d = BufferConfig::default();
    assert_eq!((d.recv, d.send), (None, None));
    let mut out = vec![SockOpt::Keepalive(true)];
    BufferConfig::new().recv(10).send(20).apply(&mut out);
    assert_eq!(out, vec![SockOpt::Keepalive(true), SockOpt::RecvBufferSize(10), SockOpt::SendBufferSize(20)]);
}

#[test]
fn reuse_config() {
    let c = ReuseConfig::new();
    assert_eq!((c.addr, c.port), (true, false));
    let c = ReuseConfig::new().addr(false);
    assert_eq!((c.addr, c.port), (false, false));
    let c = ReuseConfig::new().port(true);
    assert_eq!((c.addr, c.port), (true, true));
    let c = ReuseConfig::new().addr(false).both();
    assert_eq!((c.addr, c.port), (true, true));
    let d = ReuseConfig::default();
    assert_eq!((d.addr, d.port), (true, false));
    let mut out = Vec::new();
    ReuseConfig::new().both().apply(&mut out);
    assert_eq!(out, vec![SockOpt::ReuseAddr(true), SockOpt::ReusePort(true)]);
    let mut out = Vec::new();
    ReuseConfig::new().addr(false).apply(&mut out);
    assert!(out.is_empty());
}

#[test]
fn keepalive_config() {
    let c = KeepaliveConfig::new();
    assert_eq!((c.idle_secs, c.interval_secs, c.count), (60, 10, 5));
    let c = KeepaliveConfig::new().idle(120).interval(30).count(3);
    assert_eq!((c.idle_secs, c.interval_secs, c.count), (120, 30, 3));
    let d = KeepaliveConfig::default();
    assert_eq!((d.idle_secs, d.interval_secs, d.count), (60, 10, 5));
}

#[test]
fn tcp_config() {
    let c = TcpConfig::new();
    assert!(c.nodelay);
    assert!(c.keepalive.is_none());
    assert!(c.linger.is_none());
    let c = TcpConfig::new().nodelay(false).keepalive(KeepaliveConfig::new().idle(7)).linger(Some(5));
    assert!(!c.nodelay);
    assert_eq!(c.keepalive.map(|k| k.idle_secs), Some(7));
    assert_eq!(c.linger, Some(Some(5)));
    let c = TcpConfig::new().linger(None);
    assert_eq!(c.linger, Some(None));
}

#[test]
fn tcp_options_in_order() {
    let c = TcpConfig::new().keepalive(KeepaliveConfig::new()).linger(Some(0));
    let mut out = Vec::new();
    c.apply(&mut out, false);
    assert_eq!(
        out,
        vec![
            SockOpt::TcpNodelay(true),
            SockOpt::Keepalive(true),
            SockOpt::KeepaliveIdle(60),
            SockOpt::KeepaliveInterval(10),
            SockOpt::KeepaliveCount(5),
            SockOpt::Linger(Some(0)),
        ]
    );
    let mut out = Vec::new();
    c.apply(&mut out, true);
    assert_eq!(out, vec![SockOpt::Linger(Some(0))]);
    let mut out = Vec::new();
    TcpConfig::new().nodelay(false).apply(&mut out, false);
    assert!(out.is_empty());
}

#[test]
fn listener_builder_plans_with_defaults() {
    let ListenPlan { options, nonblocking, backlog } = ListenerBuilder::<Ipv4>::new().bind();
    assert_eq!(options, vec![SockOpt::ReuseAddr(true), SockOpt::TcpNodelay(true)]);
    assert!(!nonblocking);
    assert_eq!(backlog, 128);
    let plan = ListenerBuilder::<Ipv4>::default().bind();
    assert_eq!(plan.options, vec![SockOpt::ReuseAddr(true), SockOpt::TcpNodelay(true)]);
    assert_eq!(plan.backlog, 128);
}

#[test]
fn listener_builder_plans_what_was_asked() {
    let plan = ListenerBuilder::<Ipv4>::new()
        .reuse(ReuseConfig::new().both())
        .tcp(TcpConfig::new().nodelay(true).keepalive(KeepaliveConfig::new().idle(60).interval(10).count(5)))
        .buffers(BufferConfig::new().both(65536))
        .backlog(4096)
        .nonblocking(true)
        .bind();
    assert_eq!(
        plan.options,
        vec![
            SockOpt::ReuseAddr(true),
            SockOpt::ReusePort(true),
            SockOpt::TcpNodelay(true),
            SockOpt::Keepalive(true),
            SockOpt::KeepaliveIdle(60),
            SockOpt::KeepaliveInterval(10),
            SockOpt::KeepaliveCount(5),
            SockOpt::RecvBufferSize(65536),
            SockOpt::SendBufferSize(65536),
        ]
    );
    assert!(plan.nonblocking);
    assert_eq!(plan.backlog, 4096);
}

#[test]
fn listener_builder_single_switches() {
    let plan = ListenerBuilder::<Ipv4>::new().reuse_addr(false).reuse_port(true).tcp_nodelay(false).bind();
    assert_eq!(plan.options, vec![SockOpt::ReusePort(true)]);
}

#[test]
fn unix_listener_gets_no_tcp_options() {
    let plan = ListenerBuilder::<Unix>::new()
        .tcp(TcpConfig::new().keepalive(KeepaliveConfig::new()).linger(Some(3)))
        .bind();
    assert_eq!(plan.options, vec![SockOpt::ReuseAddr(true), SockOpt::Linger(Some(3))]);
}

#[test]
fn connector_builder_plans() {
    let options = ConnectorBuilder::<Ipv4>::new().connect();
    assert_eq!(options, vec![SockOpt::TcpNodelay(true)]);
    let options = ConnectorBuilder::<Ipv4>::default()
        .tcp(TcpConfig::new().nodelay(true).linger(Some(5)))
        .buffers(BufferConfig::new().both(65536))
        .connect();
    assert_eq!(
        options,
        vec![
            SockOpt::TcpNodelay(true),
            SockOpt::Linger(Some(5)),
            SockOpt::RecvBufferSize(65536),
            SockOpt::SendBufferSize(65536),
        ]
    );
    let options = ConnectorBuilder::<Ipv4>::new().tcp_nodelay(false).connect();
    assert!(options.is_empty());
    let options = ConnectorBuilder::<Unix>::new().connect();
    assert!(options.is_empty());
}

#[test]
fn datagram_builder_plans() {
    let options = DatagramBuilder::<Ipv4>::new().bind();
    assert!(options.is_empty());
    let options = DatagramBuilder::<Ipv4>::default().bind();
    assert!(options.is_empty());
    let options = DatagramBuilder::<Ipv4>::new()
        .reuse(ReuseConfig::new().addr(true))
        .buffers(BufferConfig::new().recv(1048576))
        .bind();
    assert_eq!(options, vec![SockOpt::ReuseAddr(true), SockOpt::RecvBufferSize(1048576)]);
    let options = DatagramBuilder::<Ipv4>::new().reuse_addr(true).reuse_port(true).bind();
    assert_eq!(options, vec![SockOpt::ReuseAddr(true), SockOpt::ReusePort(true)]);
}
