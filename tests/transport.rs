use quic_rpc::transport::combined::{
    accepted_a, accepted_b, opened_a, opened_b, AcceptBiError, CombinedConnection,
    CombinedServerEndpoint, OpenBiError, RecvStream, SendSink, Side,
};
use quic_rpc::transport::frame::{FrameError, Framing};
use quic_rpc::transport::mem::{MemQueue, TryRecv, TrySendError};
use quic_rpc::transport::LocalAddr;

#[test]
fn open_empty_channel() {
    let channel = CombinedConnection::<(), ()>::new(None, None);
    let res = channel.open::<(), ()>();
    assert!(matches!(res, Err(OpenBiError::NoChannel)));
}

#[test]
fn open_prefers_first_backend() {
    let both = CombinedConnection::new(Some(1u8), Some(2u8));
    assert_eq!(both.open::<(), ()>(), Ok(Side::A));
    let only_b = CombinedConnection::<u8, u8>::new(None, Some(2));
    assert_eq!(only_b.open::<(), ()>(), Ok(Side::B));
    let r = opened_a::<u8, u8, &str, u16, u16, &str>(Ok((1, 2)));
    assert!(matches!(r, Ok((SendSink::A(1), RecvStream::A(2)))));
    let r = opened_b::<u8, u8, &str, u16, u16, &str>(Err("refused"));
    assert!(matches!(r, Err(OpenBiError::B("refused"))));
}

#[test]
fn combined_listener_addresses_and_branches() {
    let a_addr = vec![LocalAddr::Socket { ip: vec![127, 0, 0, 1], port: 4000 }];
    let b_addr = vec![LocalAddr::Mem, LocalAddr::Node(vec![1, 2])];
    let ep = CombinedServerEndpoint::new(Some('a'), a_addr.clone(), Some('b'), b_addr.clone());
    assert_eq!(ep.local_addr().len(), 3);
    assert_eq!(ep.local_addr()[0], a_addr[0]);
    assert_eq!(ep.local_addr()[1], LocalAddr::Mem);
    assert_eq!(ep.listens(), (true, true));
    let ep2 = CombinedServerEndpoint::<char, char>::new(None, a_addr, Some('b'), b_addr);
    assert_eq!(ep2.local_addr(), &[LocalAddr::Mem, LocalAddr::Node(vec![1, 2])][..]);
    assert_eq!(ep2.listens(), (false, true));
    assert_eq!(ep2.into_inner(), (None, Some('b')));
    // over many accepts, both sides are handed on
    let mut sides = Vec::new();
    for i in 0..10u8 {
        let r = if i % 2 == 0 {
            accepted_a::<u8, u8, (), u8, u8, ()>(Ok((i, i)))
        } else {
            accepted_b::<u8, u8, (), u8, u8, ()>(Ok((i, i)))
        };
        let (send, recv) = r.unwrap();
        assert_eq!(send.side(), recv.side());
        sides.push(send.side());
    }
    assert!(sides.contains(&Side::A) && sides.contains(&Side::B));
    assert!(matches!(accepted_b::<u8, u8, (), u8, u8, &str>(Err("x")), Err(AcceptBiError::B("x"))));
}

#[test]
fn frame_too_long_is_refused() {
    let f = Framing::new(1024);
    let big = vec![7u8; 1025];
    assert_eq!(f.encode(&big), Err(FrameError::TooLong));
    let ok = vec![7u8; 1024];
    let frame = f.encode(&ok).unwrap();
    assert_eq!(frame.len(), 1028);
    assert_eq!(&frame[..4], &[0, 0, 4, 0]);
}

#[test]
fn frame_round_trip() {
    let f = Framing::new(16);
    let frame = f.encode(b"hello").unwrap();
    assert_eq!(frame, vec![0, 0, 0, 5, b'h', b'e', b'l', b'l', b'o']);
    assert_eq!(f.decode(&frame), Ok(Some((b"hello".to_vec(), 9))));
    assert_eq!(f.decode(&frame[..6]), Ok(None));
    assert_eq!(f.decode(&frame[..2]), Ok(None));
    assert_eq!(f.decode(&[0, 0, 0, 17, 1]), Err(FrameError::TooLong));
}

#[test]
fn frames_split_in_order() {
    let f = Framing::new(100);
    let mut buf = Vec::new();
    for p in [&b"ab"[..], &b""[..], &b"xyz"[..]] {
        buf.extend(f.encode(p).unwrap());
    }
    buf.extend([0, 0]);
    let (frames, used) = f.decode_all(&buf).unwrap();
    assert_eq!(frames, vec![b"ab".to_vec(), vec![], b"xyz".to_vec()]);
    assert_eq!(used, buf.len() - 2);
    assert_eq!(Framing::new(1).decode_all(&buf), Err(FrameError::TooLong));
}

#[test]
fn mem_queue_is_bounded_fifo_and_propagates_close() {
    let mut q = MemQueue::new(2);
    assert_eq!(q.try_recv(), TryRecv::Empty);
    assert_eq!(q.try_send(1), Ok(()));
    assert_eq!(q.try_send(2), Ok(()));
    assert_eq!(q.try_send(3), Err(TrySendError::Full(3)));
    assert_eq!(q.len(), 2);
    assert_eq!(q.try_recv(), TryRecv::Item(1));
    assert_eq!(q.try_send(3), Ok(()));
    q.close();
    assert!(q.is_closed());
    assert_eq!(q.try_send(4), Err(TrySendError::Closed(4)));
    assert_eq!(q.try_recv(), TryRecv::Item(2));
    assert_eq!(q.try_recv(), TryRecv::Item(3));
    assert_eq!(q.try_recv(), TryRecv::Ended);
}
