//! The framing engine's state and its core steps.
//!
//! `ReadFrame` and `WriteFrame` hold the reusable receive and transmit
//! buffers; the step functions below hold the decisions of the decode loop
//! and of the encode/flush protocol.  Each step either completes or tells
//! the caller which single transport call to perform; the caller hands the
//! outcome back through `recv_datagram` or `complete_send`.

use vstd::prelude::*;

use crate::addr::SockAddr;
use crate::buffer::{
    buf_clear, buf_len, buf_reserve, buf_view, buf_with_capacity,
};
use crate::codec::{Decoder, Encoder};

verus! {

/// High-water capacity that a buffer built from leftover bytes is
/// normalized up to.
pub const INITIAL_CAPACITY: usize = 8 * 1024;

/// Initial capacity of the receive buffer; it bounds the size of an
/// acceptable datagram, larger ones being truncated by the transport.
pub const INITIAL_RD_CAPACITY: usize = 64 * 1024;

/// Initial capacity of the transmit buffer.
pub const INITIAL_WR_CAPACITY: usize = 8 * 1024;

/// The receive-side buffer and its state.
///
/// While `is_readable` is set, `buffer` holds the not yet consumed bytes
/// of exactly one datagram; otherwise the buffer is empty.  `eof` is an
/// end-of-input marker reserved for stream-like transports; a datagram
/// socket never sets it.
#[derive(Debug)]
pub struct ReadFrame {
    pub eof: bool,
    pub is_readable: bool,
    pub buffer: bytes::BytesMut,
}

/// The transmit-side buffer, holding at most one pending encoded message.
#[derive(Debug)]
pub struct WriteFrame {
    pub buffer: bytes::BytesMut,
}

/// Both buffer states, carried by the bidirectional facade.
#[derive(Debug)]
pub struct RWFrames {
    pub read: ReadFrame,
    pub write: WriteFrame,
}

impl ReadFrame {
    /// The buffered bytes.
    pub open spec fn bytes(&self) -> Seq<u8> {
        buf_view(self.buffer)
    }

    /// The buffer holds bytes only while marked readable.
    pub open spec fn wf(&self) -> bool {
        !self.is_readable ==> buf_view(self.buffer).len() == 0
    }

    /// An empty frame whose buffer starts with the given capacity.
    pub fn with_capacity(capacity: usize) -> (r: ReadFrame)
        ensures
            r.bytes() == Seq::<u8>::empty(),
            !r.is_readable,
            !r.eof,
            r.wf(),
    {
        ReadFrame { eof: false, is_readable: false, buffer: buf_with_capacity(capacity) }
    }

    /// A frame resuming from externally supplied leftover bytes.  The
    /// buffer's capacity is normalized up to `INITIAL_CAPACITY`, and if
    /// bytes are present the frame starts readable.
    pub fn from_buffer(buffer: bytes::BytesMut) -> (r: ReadFrame)
        ensures
            r.bytes() == buf_view(buffer),
            r.is_readable == (buf_view(buffer).len() > 0),
            !r.eof,
            r.wf(),
    {
        let mut buffer = buffer;
        let len = buf_len(&buffer);
        if len < INITIAL_CAPACITY {
            buf_reserve(&mut buffer, INITIAL_CAPACITY);
        }
        ReadFrame { is_readable: len > 0, eof: false, buffer }
    }
}

impl Default for ReadFrame {
    /// An empty, not readable frame with the default initial capacity.
    fn default() -> (r: ReadFrame)
        ensures
            r.bytes() == Seq::<u8>::empty(),
            !r.is_readable,
            !r.eof,
            r.wf(),
    {
        ReadFrame::with_capacity(INITIAL_CAPACITY)
    }
}

impl WriteFrame {
    /// The pending bytes awaiting transmission.
    pub open spec fn bytes(&self) -> Seq<u8> {
        buf_view(self.buffer)
    }

    /// An empty frame whose buffer starts with the given capacity.
    pub fn with_capacity(capacity: usize) -> (r: WriteFrame)
        ensures
            r.bytes() == Seq::<u8>::empty(),
    {
        WriteFrame { buffer: buf_with_capacity(capacity) }
    }

    /// A frame resuming from an externally supplied buffer, its capacity
    /// normalized up to `INITIAL_CAPACITY`.
    pub fn from_buffer(buffer: bytes::BytesMut) -> (r: WriteFrame)
        ensures
            r.bytes() == buf_view(buffer),
    {
        let mut buffer = buffer;
        let len = buf_len(&buffer);
        if len < INITIAL_CAPACITY {
            buf_reserve(&mut buffer, INITIAL_CAPACITY);
        }
        WriteFrame { buffer }
    }
}

impl Default for WriteFrame {
    /// An empty frame with the default initial capacity.
    fn default() -> (r: WriteFrame)
        ensures
            r.bytes() == Seq::<u8>::empty(),
    {
        WriteFrame::with_capacity(INITIAL_CAPACITY)
    }
}

impl Default for RWFrames {
    /// Both frames empty, with their default initial capacities.
    fn default() -> (r: RWFrames)
        ensures
            r.read.bytes() == Seq::<u8>::empty(),
            !r.read.is_readable,
            !r.read.eof,
            r.read.wf(),
            r.write.bytes() == Seq::<u8>::empty(),
    {
        RWFrames { read: ReadFrame::default(), write: WriteFrame::default() }
    }
}

/// The outcome of one decode step.
#[derive(Debug)]
pub enum RecvStep<I, E> {
    /// One decoded item, paired with the sender address of the datagram
    /// it came from.
    Item(I, SockAddr),
    /// The buffered datagram is exhausted: the caller must receive the
    /// next datagram and hand it back through `recv_datagram`.
    NeedDatagram,
    /// The codec rejected the buffered bytes; fatal for the sequence.
    Failed(E),
}

/// What a flush must do next.
#[derive(Clone, Copy, Debug, PartialEq, Eq, Structural)]
pub enum FlushStep {
    /// Nothing is pending: flushing is already complete, and no transport
    /// call is to be made.
    Done,
    /// The caller must transmit the whole pending buffer to this
    /// destination in one send, and report the count sent through
    /// `complete_send`.
    Send(SockAddr),
}

/// An error of the transmit path.
#[derive(Debug, PartialEq, Eq)]
pub enum SendError<E> {
    /// An item was submitted while a previous message was still pending;
    /// the caller must flush first.
    NotReady,
    /// The codec could not serialize the submitted item.
    Codec(E),
    /// The transport sent fewer bytes than the pending message holds.  A
    /// truncated datagram cannot be completed by a second send, so the
    /// pending buffer was discarded.
    Truncated,
}

/// One step of the decode loop: if the frame is readable, try to decode
/// one item from the buffered datagram; yield the item paired with the
/// datagram's sender, or clear the exhausted buffer and ask for the next
/// datagram.  Undecoded trailing bytes never survive into the next
/// datagram: whenever `NeedDatagram` is returned the buffer is empty.
pub fn decode_step<C: Decoder>(
    codec: &mut C,
    frame: &mut ReadFrame,
    current_addr: Option<SockAddr>,
) -> (r: RecvStep<C::Item, C::Error>)
    requires
        old(frame).wf(),
        old(frame).is_readable ==> current_addr is Some,
    ensures
        final(frame).wf(),
        final(frame).eof == old(frame).eof,
        !old(frame).is_readable ==> r is NeedDatagram && *final(frame) == *old(frame)
            && *final(codec) == *old(codec),
        old(frame).is_readable ==> match old(codec).deof_result(old(frame).bytes()) {
            Ok(Some(v)) => r matches RecvStep::Item(item, a) && item@ == v
                && Some(a) == current_addr && final(frame).is_readable
                && final(frame).bytes() == old(codec).deof_rest(old(frame).bytes()),
            Ok(None) => r is NeedDatagram && !final(frame).is_readable
                && final(frame).bytes() == Seq::<u8>::empty(),
            Err(e) => r matches RecvStep::Failed(e2) && e2 == e && final(frame).is_readable
                && final(frame).bytes() == old(codec).deof_rest(old(frame).bytes()),
        },
{
    if frame.is_readable {
        match codec.decode_eof(&mut frame.buffer) {
            Ok(Some(item)) => RecvStep::Item(item, current_addr.unwrap()),
            Ok(None) => {
                frame.is_readable = false;
                buf_clear(&mut frame.buffer);
                RecvStep::NeedDatagram
            },
            Err(e) => RecvStep::Failed(e),
        }
    } else {
        RecvStep::NeedDatagram
    }
}

/// Hand one received datagram to the engine.  The frame must not be
/// readable (the previous datagram is exhausted and was cleared), so the
/// buffer afterwards holds the new datagram's bytes and nothing else.
pub fn recv_datagram(frame: &mut ReadFrame, data: &[u8])
    requires
        old(frame).wf(),
        !old(frame).is_readable,
    ensures
        final(frame).wf(),
        final(frame).is_readable,
        final(frame).eof == old(frame).eof,
        final(frame).bytes() == data@,
{
    proof {
        vstd::slice::axiom_spec_len(data);
    }
    buf_reserve(&mut frame.buffer, INITIAL_RD_CAPACITY);
    crate::buffer::buf_extend(&mut frame.buffer, data);
    frame.is_readable = true;
}

/// Submit one item for transmission to `dest`.  Rejected while a previous
/// message is still pending; otherwise the codec's serialization is
/// appended to the pending buffer, the destination recorded, and the
/// engine leaves the flushed state.  When the codec rejects the item the
/// buffer is left in whatever partial form encoding produced and the
/// engine stays flushed.
pub fn start_send<I, C: Encoder<I>>(
    codec: &mut C,
    frame: &mut WriteFrame,
    out_addr: &mut SockAddr,
    flushed: &mut bool,
    item: I,
    dest: SockAddr,
) -> (r: Result<(), SendError<C::Error>>)
    requires
        *old(flushed) ==> old(codec).enc_req(item, old(frame).bytes()),
    ensures
        !*old(flushed) ==> r == Err::<(), SendError<C::Error>>(SendError::NotReady)
            && *final(frame) == *old(frame) && *final(out_addr) == *old(out_addr)
            && !*final(flushed) && *final(codec) == *old(codec),
        *old(flushed) ==> final(frame).bytes() == old(codec).enc_bytes(item, old(frame).bytes())
            && match old(codec).enc_result(item, old(frame).bytes()) {
            Ok(()) => r is Ok && !*final(flushed) && *final(out_addr) == dest,
            Err(e) => r == Err::<(), SendError<C::Error>>(SendError::Codec(e)) && *final(flushed)
                && *final(out_addr) == *old(out_addr),
        },
{
    if !*flushed {
        return Err(SendError::NotReady);
    }
    match codec.encode(item, &mut frame.buffer) {
        Ok(()) => {
            *out_addr = dest;
            *flushed = false;
            Ok(())
        },
        Err(e) => Err(SendError::Codec(e)),
    }
}

/// What a flush must do next: nothing when the engine is flushed (success
/// is immediate, with no transport call), else one send of the whole
/// pending buffer to the recorded destination.
pub fn flush_step(out_addr: SockAddr, flushed: bool) -> (r: FlushStep)
    ensures
        flushed ==> r is Done,
        !flushed ==> r == FlushStep::Send(out_addr),
{
    if flushed {
        FlushStep::Done
    } else {
        FlushStep::Send(out_addr)
    }
}

/// Complete a flush with the byte count the transport reported.  The
/// pending buffer is cleared and the engine returns to the flushed state
/// either way; a count short of the whole message is a fatal truncated
/// send, since a partial datagram cannot be completed by a second send.
pub fn complete_send<E>(frame: &mut WriteFrame, flushed: &mut bool, n: usize) -> (r: Result<
    (),
    SendError<E>,
>)
    requires
        !*old(flushed),
    ensures
        final(frame).bytes() == Seq::<u8>::empty(),
        *final(flushed),
        n == old(frame).bytes().len() ==> r is Ok,
        n != old(frame).bytes().len() ==> r == Err::<(), SendError<E>>(SendError::Truncated),
{
    let wrote_all = n == buf_len(&frame.buffer);
    buf_clear(&mut frame.buffer);
    *flushed = true;
    if wrote_all {
        Ok(())
    } else {
        Err(SendError::Truncated)
    }
}

} // verus!
