//! The send-only facade: a sink of items addressed to destinations.
//!
//! `UdpFramedSend` composes the encode/flush engine over a socket handle
//! and a codec, carrying only the transmit-side buffer state.  The engine
//! is ready for a new item only while flushed; the caller performs the
//! actual send named by `flush_step` and reports the count transmitted
//! through `complete_send`.

use vstd::prelude::*;

use crate::addr::SockAddr;
use crate::buffer::buf_view;
use crate::codec::Encoder;
use crate::framed_impl::{
    complete_send, flush_step, start_send, FlushStep, SendError, WriteFrame, INITIAL_WR_CAPACITY,
};

verus! {

/// A send-only framing engine over a datagram socket handle.
#[derive(Debug)]
pub struct UdpFramedSend<T, C> {
    pub inner: T,
    pub codec: C,
    pub state: WriteFrame,
    pub out_addr: SockAddr,
    pub flushed: bool,
}

impl<T, C> UdpFramedSend<T, C> {
    /// Create a new engine backed by the given socket handle and codec.
    /// It starts flushed, with an empty pending buffer.
    pub fn new(socket: T, codec: C) -> (r: UdpFramedSend<T, C>)
        ensures
            r.inner == socket,
            r.codec == codec,
            r.state.bytes() == Seq::<u8>::empty(),
            r.out_addr == (SockAddr::V4 { ip: 0u32, port: 0u16 }),
            r.flushed,
    {
        UdpFramedSend {
            inner: socket,
            codec,
            state: WriteFrame::with_capacity(INITIAL_WR_CAPACITY),
            out_addr: SockAddr::unspecified(),
            flushed: true,
        }
    }

    /// Returns a reference to the underlying I/O handle.
    pub fn get_ref(&self) -> (r: &T)
        ensures
            *r == self.inner,
    {
        &self.inner
    }

    /// Returns a reference to the underlying codec.
    pub fn encoder(&self) -> (r: &C)
        ensures
            *r == self.codec,
    {
        &self.codec
    }

    /// Returns a mutable reference to the underlying codec.
    pub fn encoder_mut(&mut self) -> (r: &mut C)
        ensures
            *r == old(self).codec,
            final(self).codec == *final(r),
            final(self).inner == old(self).inner,
            final(self).state == old(self).state,
            final(self).out_addr == old(self).out_addr,
            final(self).flushed == old(self).flushed,
    {
        &mut self.codec
    }

    /// Consumes the engine, returning its underlying I/O handle.
    pub fn into_inner(self) -> (r: T)
        ensures
            r == self.inner,
    {
        self.inner
    }

    /// Whether no bytes are pending transmission.  The engine accepts a
    /// new item only in this state.
    pub fn is_flushed(&self) -> (r: bool)
        ensures
            r == self.flushed,
    {
        self.flushed
    }

    /// Returns a reference to the pending transmit buffer.
    pub fn pending_buffer(&self) -> (r: &bytes::BytesMut)
        ensures
            buf_view(*r) == self.state.bytes(),
    {
        &self.state.buffer
    }

    /// What a flush must do next: nothing while flushed (success is
    /// immediate, with no transport call), else one send of the whole
    /// pending buffer to the recorded destination.
    pub fn flush_step(&self) -> (r: FlushStep)
        ensures
            self.flushed ==> r is Done,
            !self.flushed ==> r == FlushStep::Send(self.out_addr),
    {
        flush_step(self.out_addr, self.flushed)
    }

    /// Complete a flush with the byte count the transport reported.  The
    /// buffer is cleared and the engine returns to the flushed state
    /// either way; a short count is a fatal truncated send.
    pub fn complete_send<E>(&mut self, n: usize) -> (r: Result<(), SendError<E>>)
        requires
            !old(self).flushed,
        ensures
            final(self).flushed,
            final(self).state.bytes() == Seq::<u8>::empty(),
            final(self).inner == old(self).inner,
            final(self).codec == old(self).codec,
            final(self).out_addr == old(self).out_addr,
            n == old(self).state.bytes().len() ==> r is Ok,
            n != old(self).state.bytes().len() ==> r == Err::<(), SendError<E>>(
                SendError::Truncated,
            ),
    {
        complete_send(&mut self.state, &mut self.flushed, n)
    }
}

impl<T, C> UdpFramedSend<T, C> {
    /// Submit one item for transmission to `dest`.  Rejected with
    /// `SendError::NotReady`, leaving the engine unchanged, while a
    /// previous message is still pending; otherwise the item's
    /// serialization becomes the pending message and the destination is
    /// recorded.  After a successful flush, submission succeeds whenever
    /// the codec accepts the item.
    pub fn start_send<I>(&mut self, item: I, dest: SockAddr) -> (r: Result<(), SendError<
        <C as Encoder<I>>::Error,
    >>) where C: Encoder<I>
        requires
            old(self).flushed ==> old(self).codec.enc_req(item, old(self).state.bytes()),
        ensures
            final(self).inner == old(self).inner,
            !old(self).flushed ==> r == Err::<(), SendError<<C as Encoder<I>>::Error>>(
                SendError::NotReady,
            ) && *final(self) == *old(self),
            old(self).flushed ==> final(self).state.bytes() == old(self).codec.enc_bytes(
                item,
                old(self).state.bytes(),
            ) && match old(self).codec.enc_result(item, old(self).state.bytes()) {
                Ok(()) => r is Ok && !final(self).flushed && final(self).out_addr == dest,
                Err(e) => r == Err::<(), SendError<<C as Encoder<I>>::Error>>(SendError::Codec(e))
                    && final(self).flushed && final(self).out_addr == old(self).out_addr,
            },
    {
        start_send(
            &mut self.codec,
            &mut self.state,
            &mut self.out_addr,
            &mut self.flushed,
            item,
            dest,
        )
    }
}

} // verus!
