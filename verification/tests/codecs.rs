use bytes::BytesMut;
use udp_framed::{ByteCodec, Decoder, Encoder, LineCodec, ReadFrame, WriteFrame};

#[test]
fn line_decode_consumes_one_line_and_terminator() {
    let mut codec = LineCodec;
    let mut buf = BytesMut::from(&b"first\nsecond\n"[..]);

    let r = codec.decode(&mut buf);
    assert_eq!(r, Ok(Some(b"first".to_vec())));
    assert_eq!(&buf[..], b"second\n");

    let r = codec.decode(&mut buf);
    assert_eq!(r, Ok(Some(b"second".to_vec())));
    assert_eq!(buf.len(), 0);

    let r = codec.decode(&mut buf);
    assert_eq!(r, Ok(None));
}

#[test]
fn line_decode_without_terminator_needs_more() {
    let mut codec = LineCodec;
    let mut buf = BytesMut::from(&b"unterminated"[..]);
    let r = codec.decode(&mut buf);
    assert_eq!(r, Ok(None));
    // the bytes stay for a later attempt within the same datagram
    assert_eq!(&buf[..], b"unterminated");
}

#[test]
fn line_decode_empty_line() {
    let mut codec = LineCodec;
    let mut buf = BytesMut::from(&b"\nrest"[..]);
    let r = codec.decode_eof(&mut buf);
    assert_eq!(r, Ok(Some(Vec::new())));
    assert_eq!(&buf[..], b"rest");
}

#[test]
fn line_encode_appends_terminator() {
    let mut codec = LineCodec;
    let mut buf = BytesMut::new();
    assert_eq!(codec.encode(b"abc".to_vec(), &mut buf), Ok(()));
    assert_eq!(&buf[..], b"abc\n");
    assert_eq!(codec.encode(b"de".to_vec(), &mut buf), Ok(()));
    assert_eq!(&buf[..], b"abc\nde\n");
}

#[test]
fn byte_decode_takes_whole_buffer() {
    let mut codec = ByteCodec;
    let mut buf = BytesMut::from(&b"payload"[..]);
    let r = codec.decode(&mut buf);
    assert_eq!(r, Ok(Some(b"payload".to_vec())));
    assert_eq!(buf.len(), 0);
    assert_eq!(codec.decode_eof(&mut buf), Ok(None));
}

#[test]
fn byte_encode_appends_bytes_unframed() {
    let mut codec = ByteCodec;
    let mut buf = BytesMut::new();
    assert_eq!(codec.encode(b"ab".to_vec(), &mut buf), Ok(()));
    assert_eq!(codec.encode(b"cd".to_vec(), &mut buf), Ok(()));
    assert_eq!(&buf[..], b"abcd");
}

#[test]
fn read_frame_from_buffer_with_bytes_starts_readable() {
    let frame = ReadFrame::from_buffer(BytesMut::from(&b"left"[..]));
    assert!(frame.is_readable);
    assert!(!frame.eof);
    assert_eq!(&frame.buffer[..], b"left");
}

#[test]
fn read_frame_from_empty_buffer_starts_unreadable() {
    let frame = ReadFrame::from_buffer(BytesMut::new());
    assert!(!frame.is_readable);
    assert_eq!(frame.buffer.len(), 0);

    let frame = ReadFrame::default();
    assert!(!frame.is_readable);
    assert_eq!(frame.buffer.len(), 0);
}

#[test]
fn write_frame_from_buffer_keeps_bytes() {
    let frame = WriteFrame::from_buffer(BytesMut::from(&b"pend"[..]));
    assert_eq!(&frame.buffer[..], b"pend");

    let frame = WriteFrame::default();
    assert_eq!(frame.buffer.len(), 0);
}

#[test]
fn rw_frames_default_is_empty_both_ways() {
    let frames = udp_framed::RWFrames::default();
    assert!(!frames.read.is_readable);
    assert_eq!(frames.read.buffer.len(), 0);
    assert_eq!(frames.write.buffer.len(), 0);
}
