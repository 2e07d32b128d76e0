//! A datagram framing engine.
//!
//! The engine turns independently delivered, address-tagged byte blocks
//! (datagrams) into typed values through a pluggable codec, and serializes
//! typed values into datagrams addressed to a destination.  It manages the
//! reusable receive and transmit buffers, the partial-operation protocol
//! (submit, flush, suspend) and the backpressure between submission and
//! transmission.
//!
//! The engine itself performs no I/O.  Each operation is a step that either
//! completes or reports that the caller must perform one transport call
//! (a `recv_from` or a `send_to`) and hand the outcome back; an external
//! event-driven executor drives the loop.

pub mod addr;
pub mod buffer;
pub mod codec;
pub mod frame;
pub mod framed_impl;
pub mod framed_recv;
pub mod framed_send;

pub use addr::SockAddr;
pub use buffer::buf_view;
pub use codec::{ByteCodec, CodecError, Decoder, Encoder, LineCodec};
pub use frame::UdpFramed;
pub use framed_impl::{FlushStep, RWFrames, ReadFrame, RecvStep, SendError, WriteFrame};
pub use framed_recv::UdpFramedRecv;
pub use framed_send::UdpFramedSend;
