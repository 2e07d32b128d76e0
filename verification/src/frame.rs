//! The bidirectional facade: decode and encode/flush over one handle.
//!
//! `UdpFramed` owns both buffer states and one codec, and exposes both the
//! decode engine and the encode/flush engine.  A datagram transport
//! supports independent concurrent send and receive, so the same shared
//! handle may also back one receive-only and one send-only engine instead.

use vstd::prelude::*;

use crate::addr::SockAddr;
use crate::buffer::buf_view;
use crate::codec::{Decoder, Encoder};
use crate::framed_impl::{
    complete_send, decode_step, flush_step, recv_datagram, start_send, FlushStep, RWFrames,
    ReadFrame, RecvStep, SendError, WriteFrame, INITIAL_RD_CAPACITY, INITIAL_WR_CAPACITY,
};

verus! {

/// A bidirectional framing engine over a datagram socket handle.
#[derive(Debug)]
pub struct UdpFramed<T, C> {
    pub inner: T,
    pub codec: C,
    pub state: RWFrames,
    pub current_addr: Option<SockAddr>,
    pub out_addr: SockAddr,
    pub flushed: bool,
}

impl<T, C> UdpFramed<T, C> {
    /// Well-formed: the read buffer holds bytes only while readable, and
    /// a readable buffer has the sender address of its datagram recorded.
    pub open spec fn wf(&self) -> bool {
        self.state.read.wf() && (self.state.read.is_readable ==> self.current_addr is Some)
    }

    /// Create a new engine backed by the given socket handle and codec.
    pub fn new(socket: T, codec: C) -> (r: UdpFramed<T, C>)
        ensures
            r.wf(),
            r.inner == socket,
            r.codec == codec,
            !r.state.read.is_readable,
            !r.state.read.eof,
            r.state.read.bytes() == Seq::<u8>::empty(),
            r.state.write.bytes() == Seq::<u8>::empty(),
            r.current_addr is None,
            r.out_addr == (SockAddr::V4 { ip: 0u32, port: 0u16 }),
            r.flushed,
    {
        UdpFramed {
            inner: socket,
            codec,
            state: RWFrames {
                read: ReadFrame::with_capacity(INITIAL_RD_CAPACITY),
                write: WriteFrame::with_capacity(INITIAL_WR_CAPACITY),
            },
            current_addr: None,
            out_addr: SockAddr::unspecified(),
            flushed: true,
        }
    }

    /// Returns a reference to the underlying I/O handle.
    pub fn get_ref(&self) -> (r: &T)
        ensures
            *r == self.inner,
    {
        &self.inner
    }

    /// Returns a mutable reference to the underlying I/O handle.
    pub fn get_mut(&mut self) -> (r: &mut T)
        ensures
            *r == old(self).inner,
            final(self).inner == *final(r),
            final(self).codec == old(self).codec,
            final(self).state == old(self).state,
            final(self).current_addr == old(self).current_addr,
            final(self).out_addr == old(self).out_addr,
            final(self).flushed == old(self).flushed,
    {
        &mut self.inner
    }

    /// Returns a reference to the underlying codec.
    pub fn codec(&self) -> (r: &C)
        ensures
            *r == self.codec,
    {
        &self.codec
    }

    /// Returns a mutable reference to the underlying codec.
    pub fn codec_mut(&mut self) -> (r: &mut C)
        ensures
            *r == old(self).codec,
            final(self).codec == *final(r),
            final(self).inner == old(self).inner,
            final(self).state == old(self).state,
            final(self).current_addr == old(self).current_addr,
            final(self).out_addr == old(self).out_addr,
            final(self).flushed == old(self).flushed,
    {
        &mut self.codec
    }

    /// Returns a reference to the read buffer.
    pub fn read_buffer(&self) -> (r: &bytes::BytesMut)
        ensures
            buf_view(*r) == self.state.read.bytes(),
    {
        &self.state.read.buffer
    }

    /// Consumes the engine, returning its underlying I/O handle.
    pub fn into_inner(self) -> (r: T)
        ensures
            r == self.inner,
    {
        self.inner
    }

    /// Whether no bytes are pending transmission.
    pub fn is_flushed(&self) -> (r: bool)
        ensures
            r == self.flushed,
    {
        self.flushed
    }

    /// Returns a reference to the pending transmit buffer.
    pub fn pending_buffer(&self) -> (r: &bytes::BytesMut)
        ensures
            buf_view(*r) == self.state.write.bytes(),
    {
        &self.state.write.buffer
    }

    /// What a flush must do next: nothing while flushed, else one send of
    /// the whole pending buffer to the recorded destination.
    pub fn flush_step(&self) -> (r: FlushStep)
        ensures
            self.flushed ==> r is Done,
            !self.flushed ==> r == FlushStep::Send(self.out_addr),
    {
        flush_step(self.out_addr, self.flushed)
    }

    /// Complete a flush with the byte count the transport reported.
    pub fn complete_send<E>(&mut self, n: usize) -> (r: Result<(), SendError<E>>)
        requires
            !old(self).flushed,
        ensures
            final(self).flushed,
            final(self).state.write.bytes() == Seq::<u8>::empty(),
            final(self).state.read == old(self).state.read,
            final(self).inner == old(self).inner,
            final(self).codec == old(self).codec,
            final(self).current_addr == old(self).current_addr,
            final(self).out_addr == old(self).out_addr,
            n == old(self).state.write.bytes().len() ==> r is Ok,
            n != old(self).state.write.bytes().len() ==> r == Err::<(), SendError<E>>(
                SendError::Truncated,
            ),
    {
        complete_send(&mut self.state.write, &mut self.flushed, n)
    }

    /// Submit one item for transmission to `dest`; see the send-only
    /// facade for the protocol.
    pub fn start_send<I>(&mut self, item: I, dest: SockAddr) -> (r: Result<(), SendError<
        <C as Encoder<I>>::Error,
    >>) where C: Encoder<I>
        requires
            old(self).flushed ==> old(self).codec.enc_req(item, old(self).state.write.bytes()),
        ensures
            final(self).inner == old(self).inner,
            final(self).state.read == old(self).state.read,
            final(self).current_addr == old(self).current_addr,
            !old(self).flushed ==> r == Err::<(), SendError<<C as Encoder<I>>::Error>>(
                SendError::NotReady,
            ) && *final(self) == *old(self),
            old(self).flushed ==> final(self).state.write.bytes() == old(self).codec.enc_bytes(
                item,
                old(self).state.write.bytes(),
            ) && match old(self).codec.enc_result(item, old(self).state.write.bytes()) {
                Ok(()) => r is Ok && !final(self).flushed && final(self).out_addr == dest,
                Err(e) => r == Err::<(), SendError<<C as Encoder<I>>::Error>>(SendError::Codec(e))
                    && final(self).flushed && final(self).out_addr == old(self).out_addr,
            },
    {
        start_send(
            &mut self.codec,
            &mut self.state.write,
            &mut self.out_addr,
            &mut self.flushed,
            item,
            dest,
        )
    }
}

impl<T, C: Decoder> UdpFramed<T, C> {
    /// One step of the decode loop; see the receive-only facade.
    pub fn decode_step(&mut self) -> (r: RecvStep<C::Item, C::Error>)
        requires
            old(self).wf(),
        ensures
            final(self).wf(),
            final(self).inner == old(self).inner,
            final(self).current_addr == old(self).current_addr,
            final(self).state.read.eof == old(self).state.read.eof,
            final(self).state.write == old(self).state.write,
            final(self).out_addr == old(self).out_addr,
            final(self).flushed == old(self).flushed,
            !old(self).state.read.is_readable ==> r is NeedDatagram && *final(self) == *old(self),
            old(self).state.read.is_readable ==> match old(self).codec.deof_result(
                old(self).state.read.bytes(),
            ) {
                Ok(Some(v)) => r matches RecvStep::Item(item, a) && item@ == v
                    && Some(a) == old(self).current_addr && final(self).state.read.is_readable
                    && final(self).state.read.bytes() == old(self).codec.deof_rest(
                    old(self).state.read.bytes(),
                ),
                Ok(None) => r is NeedDatagram && !final(self).state.read.is_readable
                    && final(self).state.read.bytes() == Seq::<u8>::empty(),
                Err(e) => r matches RecvStep::Failed(e2) && e2 == e
                    && final(self).state.read.is_readable && final(self).state.read.bytes()
                    == old(self).codec.deof_rest(old(self).state.read.bytes()),
            },
    {
        decode_step(&mut self.codec, &mut self.state.read, self.current_addr)
    }

    /// Hand one received datagram and its sender address to the engine.
    pub fn datagram_received(&mut self, data: &[u8], addr: SockAddr)
        requires
            old(self).wf(),
            !old(self).state.read.is_readable,
        ensures
            final(self).wf(),
            final(self).state.read.is_readable,
            final(self).state.read.bytes() == data@,
            final(self).state.read.eof == old(self).state.read.eof,
            final(self).state.write == old(self).state.write,
            final(self).current_addr == Some(addr),
            final(self).inner == old(self).inner,
            final(self).codec == old(self).codec,
            final(self).out_addr == old(self).out_addr,
            final(self).flushed == old(self).flushed,
    {
        recv_datagram(&mut self.state.read, data);
        self.current_addr = Some(addr);
    }
}

} // verus!
