use udp_framed::{
    ByteCodec, CodecError, FlushStep, LineCodec, RecvStep, SendError, SockAddr, UdpFramed,
    UdpFramedRecv, UdpFramedSend,
};

fn addr_a() -> SockAddr {
    SockAddr::v4(127, 0, 0, 1, 9000)
}

fn addr_b() -> SockAddr {
    SockAddr::v4(10, 0, 0, 2, 4242)
}

#[test]
fn line_codec_three_items_one_datagram() {
    let mut recv = UdpFramedRecv::new((), LineCodec);
    let sender = addr_a();
    recv.datagram_received(b"1\n2\n3\n", sender);

    match recv.decode_step() {
        RecvStep::Item(item, a) => {
            assert_eq!(item, b"1".to_vec());
            assert_eq!(a, sender);
        }
        _ => panic!("expected an item"),
    }
    match recv.decode_step() {
        RecvStep::Item(item, a) => {
            assert_eq!(item, b"2".to_vec());
            assert_eq!(a, sender);
        }
        _ => panic!("expected an item"),
    }
    match recv.decode_step() {
        RecvStep::Item(item, a) => {
            assert_eq!(item, b"3".to_vec());
            assert_eq!(a, sender);
        }
        _ => panic!("expected an item"),
    }
    assert!(matches!(recv.decode_step(), RecvStep::NeedDatagram));
    assert_eq!(recv.read_buffer().len(), 0);
}

#[test]
fn byte_codec_sends_five_bytes() {
    let mut send = UdpFramedSend::new((), ByteCodec);
    let dest = addr_a();

    assert!(send.start_send(b"hello".to_vec(), dest).is_ok());
    assert!(!send.is_flushed());
    assert_eq!(send.flush_step(), FlushStep::Send(dest));
    assert_eq!(send.pending_buffer().len(), 5);
    assert_eq!(&send.pending_buffer()[..], b"hello");

    let r: Result<(), SendError<CodecError>> = send.complete_send(5);
    assert!(r.is_ok());
    assert!(send.is_flushed());
}

#[test]
fn submit_rejected_while_pending() {
    let mut send = UdpFramedSend::new((), ByteCodec);
    let dest = addr_a();

    assert!(send.start_send(b"one".to_vec(), dest).is_ok());
    assert_eq!(
        send.start_send(b"two".to_vec(), dest),
        Err(SendError::NotReady)
    );
    assert_eq!(send.pending_buffer().len(), 3);

    let r: Result<(), SendError<CodecError>> = send.complete_send(3);
    assert!(r.is_ok());
    assert!(send.start_send(b"two".to_vec(), dest).is_ok());
    assert_eq!(&send.pending_buffer()[..], b"two");
}

#[test]
fn flush_when_flushed_is_immediate() {
    let mut send = UdpFramedSend::new((), ByteCodec);
    assert!(send.is_flushed());
    assert_eq!(send.flush_step(), FlushStep::Done);

    let dest = addr_b();
    assert!(send.start_send(b"x".to_vec(), dest).is_ok());
    let r: Result<(), SendError<CodecError>> = send.complete_send(1);
    assert!(r.is_ok());
    assert_eq!(send.flush_step(), FlushStep::Done);
}

#[test]
fn truncated_send_is_fatal_and_clears_buffer() {
    let mut send = UdpFramedSend::new((), ByteCodec);
    let dest = addr_a();

    assert!(send.start_send(b"hello".to_vec(), dest).is_ok());
    let r: Result<(), SendError<CodecError>> = send.complete_send(3);
    assert_eq!(r, Err(SendError::Truncated));
    assert!(send.is_flushed());
    assert_eq!(send.pending_buffer().len(), 0);

    // the engine accepts a fresh message afterwards
    assert!(send.start_send(b"again".to_vec(), dest).is_ok());
    assert_eq!(&send.pending_buffer()[..], b"again");
}

#[test]
fn trailing_bytes_never_reach_next_datagram() {
    let mut recv = UdpFramedRecv::new((), LineCodec);
    recv.datagram_received(b"ab", addr_a());

    // no terminator: the datagram yields nothing and its bytes are discarded
    assert!(matches!(recv.decode_step(), RecvStep::NeedDatagram));
    assert_eq!(recv.read_buffer().len(), 0);

    recv.datagram_received(b"x\n", addr_b());
    match recv.decode_step() {
        RecvStep::Item(item, a) => {
            assert_eq!(item, b"x".to_vec());
            assert_eq!(a, addr_b());
        }
        _ => panic!("expected an item"),
    }
}

#[test]
fn round_trip_through_byte_codec() {
    let mut send = UdpFramedSend::new((), ByteCodec);
    let sender = addr_b();
    let dest = addr_a();

    assert!(send.start_send(b"hello".to_vec(), dest).is_ok());
    assert_eq!(send.flush_step(), FlushStep::Send(dest));
    let wire = send.pending_buffer().to_vec();
    let r: Result<(), SendError<CodecError>> = send.complete_send(wire.len());
    assert!(r.is_ok());

    let mut recv = UdpFramedRecv::new((), ByteCodec);
    recv.datagram_received(&wire, sender);
    match recv.decode_step() {
        RecvStep::Item(item, a) => {
            assert_eq!(item, b"hello".to_vec());
            assert_eq!(a, sender);
        }
        _ => panic!("expected an item"),
    }
}

#[test]
fn round_trip_through_line_codec() {
    let mut send = UdpFramedSend::new((), LineCodec);
    let sender = addr_a();
    let dest = addr_b();

    assert!(send.start_send(b"greetings".to_vec(), dest).is_ok());
    let wire = send.pending_buffer().to_vec();
    assert_eq!(wire, b"greetings\n".to_vec());
    let r: Result<(), SendError<CodecError>> = send.complete_send(wire.len());
    assert!(r.is_ok());

    let mut recv = UdpFramedRecv::new((), LineCodec);
    recv.datagram_received(&wire, sender);
    match recv.decode_step() {
        RecvStep::Item(item, a) => {
            assert_eq!(item, b"greetings".to_vec());
            assert_eq!(a, sender);
        }
        _ => panic!("expected an item"),
    }
    assert!(matches!(recv.decode_step(), RecvStep::NeedDatagram));
}

#[test]
fn line_codec_rejects_item_with_terminator() {
    let mut send = UdpFramedSend::new((), LineCodec);
    let r = send.start_send(b"a\nb".to_vec(), addr_a());
    assert_eq!(r, Err(SendError::Codec(CodecError::NewlineInItem)));
    // the engine stays flushed: nothing became pending
    assert!(send.is_flushed());
}

#[test]
fn empty_datagram_yields_no_item() {
    let mut recv = UdpFramedRecv::new((), ByteCodec);
    recv.datagram_received(b"", addr_a());
    assert!(matches!(recv.decode_step(), RecvStep::NeedDatagram));
    assert_eq!(recv.read_buffer().len(), 0);
}

#[test]
fn bidirectional_engine_does_both() {
    let mut framed = UdpFramed::new(7u32, ByteCodec);
    let sender = addr_a();
    let dest = addr_b();

    framed.datagram_received(b"ping", sender);
    match framed.decode_step() {
        RecvStep::Item(item, a) => {
            assert_eq!(item, b"ping".to_vec());
            assert_eq!(a, sender);
        }
        _ => panic!("expected an item"),
    }

    assert!(framed.start_send(b"pong".to_vec(), dest).is_ok());
    assert_eq!(framed.flush_step(), FlushStep::Send(dest));
    assert_eq!(&framed.pending_buffer()[..], b"pong");
    let r: Result<(), SendError<CodecError>> = framed.complete_send(4);
    assert!(r.is_ok());
    assert!(framed.is_flushed());
    assert_eq!(*framed.get_ref(), 7u32);
    assert_eq!(framed.into_inner(), 7u32);
}

#[test]
fn accessors_reach_handle_and_codec() {
    let mut recv = UdpFramedRecv::new(3u64, LineCodec);
    assert_eq!(*recv.get_ref(), 3u64);
    *recv.get_mut() = 8u64;
    let _codec: &LineCodec = recv.codec();
    let _codec_mut: &mut LineCodec = recv.codec_mut();
    assert_eq!(recv.read_buffer().len(), 0);
    assert_eq!(recv.read_buffer_mut().len(), 0);
    assert_eq!(recv.into_inner(), 8u64);

    let mut send = UdpFramedSend::new(5i32, ByteCodec);
    assert_eq!(*send.get_ref(), 5i32);
    let _enc: &ByteCodec = send.encoder();
    let _enc_mut: &mut ByteCodec = send.encoder_mut();
    assert_eq!(send.into_inner(), 5i32);
}

#[test]
fn v4_address_packs_octets_big_endian() {
    assert_eq!(
        SockAddr::v4(127, 0, 0, 1, 9000),
        SockAddr::V4 {
            ip: 0x7F00_0001,
            port: 9000
        }
    );
    assert_eq!(SockAddr::v4(0, 0, 0, 0, 0), SockAddr::V4 { ip: 0, port: 0 });
}
