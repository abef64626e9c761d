use wirelane::addr::{ByteOrder, Ipv4, Ipv6, SocketAddrV4, SocketAddrV6, ToSockAddr, Unix, UnixAddr};
use wirelane::error::{Error, IoError, SocketError};
use wirelane::socket::{
    BoundDatagram, ConnectedDatagram, MsgResult, Outcome, RecvPlan, RecvSlot, SendMsg, SendPlan,
    Transfer,
};

fn ok(ret: i32) -> Outcome {
    Outcome { ret, errno: 0 }
}

fn failed(errno: i32) -> Outcome {
    Outcome { ret: -1, errno }
}

fn moved(count: isize) -> Transfer {
    Transfer { count, errno: 0 }
}

fn slot_of(addr: &SocketAddrV4, msg_len: u32) -> RecvSlot {
    let mut name = addr.to_raw(ByteOrder::native());
    name.resize(128, 0);
    RecvSlot { msg_len, name, namelen: 16 }
}

#[test]
fn send_to_reports_the_count() {
    let d = BoundDatagram::<Ipv4>::from_descriptor(5);
    assert_eq!(d.send_to(Some(moved(12))).ok(), Some(12));
    assert_eq!(d.send_to(Some(moved(0))).ok(), Some(0));
    assert_eq!(d.send_to_with_flags(Some(moved(7))).ok(), Some(7));
}

#[test]
fn send_to_failures() {
    let d = BoundDatagram::<Unix>::from_descriptor(5);
    let r = d.send_to(Some(Transfer { count: -1, errno: libc::ENOBUFS }));
    assert!(matches!(r, Err(Error::Io(IoError::Write { errno: 105 }))));
    let r = d.send_to(Some(Transfer { count: -3, errno: 1 }));
    assert!(matches!(r, Err(Error::Io(IoError::Write { errno: 1 }))));
    let addr = UnixAddr::new(&vec![b'q'; 108]);
    let done = addr.with_raw(|_, _| moved(1));
    let r = d.send_to(done);
    assert!(matches!(r, Err(Error::Socket(SocketError::InvalidAddress { reason: "address too long" }))));
    let r = d.send_to_with_flags(None);
    assert!(matches!(r, Err(Error::Socket(SocketError::InvalidAddress { reason: "address too long" }))));
}

#[test]
fn recv_reports_the_count() {
    let d = BoundDatagram::<Ipv4>::from_descriptor(5);
    assert_eq!(d.recv(moved(1500)).ok(), Some(1500));
    assert!(matches!(d.recv(Transfer { count: -1, errno: 11 }), Err(IoError::Read { errno: 11 })));
    assert_eq!(d.recv_with_flags(moved(2)).ok(), Some(2));
    assert!(matches!(d.recv_with_flags(Transfer { count: -1, errno: 4 }), Err(IoError::Read { errno: 4 })));
}

#[test]
fn recv_from_rebuilds_the_sender() {
    let d = BoundDatagram::<Ipv4>::from_descriptor(5);
    let sender = SocketAddrV4::new([203, 0, 113, 9], 6000);
    let slot = slot_of(&sender, 0);
    let (n, from) = d.recv_from(moved(64), &slot.name, 16, ByteOrder::native()).unwrap();
    assert_eq!(n, 64);
    assert_eq!(from, sender);
    let (n, from) = d.recv_from_with_flags(moved(1), &slot.name, 16, ByteOrder::native()).unwrap();
    assert_eq!((n, from), (1, sender));
}

#[test]
fn recv_from_failures() {
    let d = BoundDatagram::<Ipv4>::from_descriptor(5);
    let name = vec![0u8; 128];
    let r = d.recv_from(Transfer { count: -1, errno: 11 }, &name, 16, ByteOrder::native());
    assert!(matches!(r, Err(Error::Io(IoError::Read { errno: 11 }))));
    let r = d.recv_from(moved(10), &name, 0, ByteOrder::native());
    assert!(matches!(r, Err(Error::Socket(SocketError::InvalidAddress { reason: "invalid sender address" }))));
    let r = d.recv_from_with_flags(moved(10), &name[..8], 16, ByteOrder::native());
    assert!(matches!(r, Err(Error::Socket(SocketError::InvalidAddress { reason: "invalid sender address" }))));
}

#[test]
fn datagram_connect_moves_the_descriptor() {
    let d = BoundDatagram::<Ipv4>::from_descriptor(5);
    let c: ConnectedDatagram<Ipv4> = d.connect(SocketAddrV4::new([10, 1, 1, 1], 53), Some(ok(0))).unwrap();
    assert_eq!(c.as_raw_fd(), 5);
    let d = BoundDatagram::<Ipv4>::from_descriptor(5);
    let addr = SocketAddrV4::new([10, 1, 1, 1], 53);
    match d.connect(addr, Some(failed(libc::ENETUNREACH))) {
        Err(SocketError::Connect { errno, addr: text }) => {
            assert_eq!(errno, 101);
            assert_eq!(text, format!("{:?}", addr));
        }
        _ => panic!("expected a connect failure"),
    }
    let d = BoundDatagram::<Unix>::from_descriptor(5);
    let r = d.connect(UnixAddr::new(&vec![b'x'; 108]), None);
    assert!(matches!(r, Err(SocketError::InvalidAddress { reason: "address too long" })));
}

#[test]
fn connected_datagram_transfers() {
    let c = ConnectedDatagram::<Ipv6>::from_descriptor(6);
    assert_eq!(c.send(moved(9)).ok(), Some(9));
    assert!(matches!(c.send(Transfer { count: -1, errno: 111 }), Err(IoError::Write { errno: 111 })));
    assert_eq!(c.send_with_flags(moved(9)).ok(), Some(9));
    assert_eq!(c.recv(moved(9)).ok(), Some(9));
    assert!(matches!(c.recv(Transfer { count: -1, errno: 111 }), Err(IoError::Read { errno: 111 })));
    assert_eq!(c.recv_with_flags(moved(0)).ok(), Some(0));
    assert_eq!(c.send_to(Some(moved(5))).ok(), Some(5));
    assert_eq!(c.send_to_with_flags(Some(moved(5))).ok(), Some(5));
    assert!(matches!(c.send_to(None), Err(Error::Socket(SocketError::InvalidAddress { .. }))));
    assert!(matches!(
        c.send_to_with_flags(Some(Transfer { count: -1, errno: 22 })),
        Err(Error::Io(IoError::Write { errno: 22 }))
    ));
}

#[test]
fn connected_datagram_addresses() {
    let c = ConnectedDatagram::<Ipv6>::from_descriptor(6);
    let peer = SocketAddrV6::with_scope([9; 16], 4433, 2);
    let mut name = peer.to_raw(ByteOrder::native());
    name.resize(128, 0);
    assert_eq!(c.peer_addr(ok(0), &name, 28, ByteOrder::native()).ok(), Some(peer));
    let r = c.peer_addr(failed(libc::ENOTCONN), &name, 28, ByteOrder::native());
    assert!(matches!(r, Err(SocketError::GetOption { errno: 107, option: "SO_PEERNAME" })));
    let (n, from) = c.recv_from(moved(100), &name, 28, ByteOrder::native()).unwrap();
    assert_eq!((n, from), (100, peer));
    let (n, from) = c.recv_from_with_flags(moved(100), &name, 28, ByteOrder::native()).unwrap();
    assert_eq!((n, from), (100, peer));
    let r = c.recv_from(moved(100), &name, 27, ByteOrder::native());
    assert!(matches!(r, Err(Error::Socket(SocketError::InvalidAddress { reason: "invalid sender address" }))));
    let r = c.recv_from_with_flags(Transfer { count: -1, errno: 4 }, &name, 28, ByteOrder::native());
    assert!(matches!(r, Err(Error::Io(IoError::Read { errno: 4 }))));
}

#[test]
fn an_empty_batch_needs_no_call() {
    let d = BoundDatagram::<Ipv4>::from_descriptor(5);
    let plan = d.sendmmsg_prepare(&[], ByteOrder::native()).unwrap();
    assert!(matches!(plan, SendPlan::Nothing));
    assert_eq!(d.recvmmsg_prepare(0), RecvPlan::Nothing);
    assert_eq!(d.recvmmsg_prepare(10), RecvPlan::Submit(10));
    let got = d.recvmmsg(&[], failed(libc::EBADF), ByteOrder::native()).unwrap();
    assert!(got.is_empty());
}

#[test]
fn a_batch_of_ten_is_marshaled_entry_by_entry() {
    let d = BoundDatagram::<Ipv4>::from_descriptor(5);
    let addrs: Vec<SocketAddrV4> = (0..10u8).map(|i| SocketAddrV4::new([127, 0, 0, 1 + i], 9000 + i as u16)).collect();
    let payloads: Vec<Vec<u8>> = (0..10u8).map(|i| vec![i; 1 + i as usize]).collect();
    let messages: Vec<SendMsg<SocketAddrV4>> =
        (0..10).map(|i| SendMsg { buf: &payloads[i], addr: &addrs[i] }).collect();
    let order = ByteOrder::native();
    match d.sendmmsg_prepare(&messages, order).unwrap() {
        SendPlan::Submit(names) => {
            assert_eq!(names.len(), 10);
            for (i, name) in names.iter().enumerate() {
                assert_eq!(name.len, 16);
                assert_eq!(name.storage.len(), 128);
                assert_eq!(&name.storage[..16], &addrs[i].to_raw(order)[..]);
                assert!(name.storage[16..].iter().all(|&b| b == 0));
            }
        }
        SendPlan::Nothing => panic!("ten messages are to be sent"),
    }
}

#[test]
fn a_batch_with_a_destination_that_does_not_fit_fails_before_the_call() {
    let d = BoundDatagram::<Unix>::from_descriptor(5);
    let good = UnixAddr::new(b"/tmp/a");
    let bad = UnixAddr::new(&vec![b'b'; 108]);
    let payload = [1u8, 2, 3];
    let messages = [
        SendMsg { buf: &payload, addr: &good },
        SendMsg { buf: &payload, addr: &bad },
        SendMsg { buf: &payload, addr: &good },
    ];
    let r = d.sendmmsg_prepare(&messages, ByteOrder::native());
    assert!(matches!(r, Err(SocketError::InvalidAddress { reason: "address too long" })));
    let messages = [SendMsg { buf: &payload, addr: &good }];
    match d.sendmmsg_prepare(&messages, ByteOrder::Little).unwrap() {
        SendPlan::Submit(names) => {
            assert_eq!(names.len(), 1);
            assert_eq!(names[0].len, 110);
            assert_eq!(&names[0].storage[..110], &good.to_raw(ByteOrder::Little).unwrap()[..]);
            assert_eq!(&names[0].storage[110..], &[0u8; 18]);
        }
        SendPlan::Nothing => panic!("one message is to be sent"),
    }
}

#[test]
fn a_batched_send_reports_how_many_went_out() {
    let d = BoundDatagram::<Ipv4>::from_descriptor(5);
    assert_eq!(d.sendmmsg(ok(10)).ok(), Some(10));
    assert_eq!(d.sendmmsg(ok(3)).ok(), Some(3));
    assert_eq!(d.sendmmsg(ok(0)).ok(), Some(0));
    assert!(matches!(d.sendmmsg(failed(libc::EAGAIN)), Err(IoError::Write { errno: 11 })));
}

#[test]
fn a_batched_receive_pairs_counts_with_senders() {
    let d = BoundDatagram::<Ipv4>::from_descriptor(5);
    let senders: Vec<SocketAddrV4> = (0..10u8).map(|i| SocketAddrV4::new([10, 0, 0, i], 7000 + i as u16)).collect();
    let slots: Vec<RecvSlot> = senders.iter().enumerate().map(|(i, a)| slot_of(a, 100 + i as u32)).collect();
    let got = d.recvmmsg(&slots, ok(10), ByteOrder::native()).unwrap();
    assert_eq!(got.len(), 10);
    for (i, (n, from)) in got.iter().enumerate() {
        assert_eq!(*n, 100 + i);
        assert_eq!(*from, senders[i]);
    }
}

#[test]
fn a_batched_receive_may_fill_fewer_entries_than_were_offered() {
    let d = BoundDatagram::<Ipv4>::from_descriptor(5);
    let a = SocketAddrV4::new([10, 0, 0, 1], 1);
    let b = SocketAddrV4::new([10, 0, 0, 2], 2);
    let slots = vec![slot_of(&a, 11), slot_of(&b, 22), RecvSlot { msg_len: 0, name: vec![0; 128], namelen: 128 }];
    let got = d.recvmmsg(&slots, ok(2), ByteOrder::native()).unwrap();
    assert_eq!(got, vec![(11, a), (22, b)]);
    let got = d.recvmmsg(&slots, ok(0), ByteOrder::native()).unwrap();
    assert!(got.is_empty());
}

#[test]
fn a_batched_receive_failures() {
    let d = BoundDatagram::<Ipv4>::from_descriptor(5);
    let a = SocketAddrV4::new([10, 0, 0, 1], 1);
    let mut slots = vec![slot_of(&a, 11), slot_of(&a, 22)];
    let r = d.recvmmsg(&slots, failed(libc::EAGAIN), ByteOrder::native());
    assert!(matches!(r, Err(Error::Io(IoError::Read { errno: 11 }))));
    slots[1].namelen = 4;
    let r = d.recvmmsg(&slots, ok(2), ByteOrder::native());
    assert!(matches!(r, Err(Error::Socket(SocketError::InvalidAddress { reason: "invalid sender address" }))));
    let got = d.recvmmsg(&slots, ok(1), ByteOrder::native()).unwrap();
    assert_eq!(got, vec![(11, a)]);
}

#[test]
fn a_message_result_holds_a_byte_count() {
    let m = MsgResult { bytes: 42 };
    assert_eq!(m.bytes, 42);
}

#[test]
fn mode_change_on_datagram_sockets() {
    let d = BoundDatagram::<Ipv4>::from_descriptor(5);
    let up = d.set_nonblocking(true, ok(0)).unwrap();
    assert_eq!((up.fd, up.flags), (5, libc::O_NONBLOCK));
    let c = ConnectedDatagram::<Ipv4>::from_descriptor(6);
    let up = c.set_nonblocking(false, ok(libc::O_NONBLOCK | 1)).unwrap();
    assert_eq!((up.fd, up.flags), (6, 1));
    assert!(matches!(c.set_nonblocking(true, failed(9)), Err(SocketError::GetOption { errno: 9, option: "F_GETFL" })));
}

#[test]
fn ten_messages_sent_in_a_batch_come_back_with_their_senders() {
    let order = ByteOrder::native();
    let sockets: Vec<SocketAddrV4> = (0..10u8).map(|i| SocketAddrV4::new([127, 0, 0, 1], 6000 + i as u16)).collect();
    let payloads: Vec<Vec<u8>> = (0..10u8).map(|i| vec![b'a' + i; 10 + i as usize]).collect();
    let messages: Vec<SendMsg<SocketAddrV4>> =
        (0..10).map(|i| SendMsg { buf: &payloads[i], addr: &sockets[i] }).collect();
    let sender = BoundDatagram::<Ipv4>::from_descriptor(3);
    let names = match sender.sendmmsg_prepare(&messages, order).unwrap() {
        SendPlan::Submit(names) => names,
        SendPlan::Nothing => panic!("ten messages are to be sent"),
    };
    assert_eq!(sender.sendmmsg(ok(10)).ok(), Some(10));

    let slots: Vec<RecvSlot> = names
        .iter()
        .zip(payloads.iter())
        .map(|(name, payload)| RecvSlot { msg_len: payload.len() as u32, name: name.storage.clone(), namelen: name.len })
        .collect();
    let receiver = BoundDatagram::<Ipv4>::from_descriptor(4);
    let mut got = receiver.recvmmsg(&slots, ok(7), order).unwrap();
    assert_eq!(got.len(), 7);
    got.extend(receiver.recvmmsg(&slots[7..], ok(3), order).unwrap());
    assert_eq!(got.len(), 10);
    for (i, (bytes, from)) in got.iter().enumerate() {
        assert_eq!(*bytes, payloads[i].len());
        assert_eq!(*from, sockets[i]);
    }
}
