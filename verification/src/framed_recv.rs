//! The receive-only facade: a consumable sequence of decoded items.
//!
//! `UdpFramedRecv` composes the decode engine over a socket handle and a
//! codec, carrying only the receive-side buffer state.  The handle is an
//! opaque capability (exclusively owned, shared, or borrowed — chosen at
//! construction); the caller performs the actual receives and hands each
//! datagram back through `datagram_received`.

use vstd::prelude::*;

use crate::addr::SockAddr;
use crate::buffer::buf_view;
use crate::codec::Decoder;
use crate::framed_impl::{
    decode_step, recv_datagram, ReadFrame, RecvStep, INITIAL_RD_CAPACITY,
};

verus! {

/// A receive-only framing engine over a datagram socket handle.
#[derive(Debug)]
pub struct UdpFramedRecv<T, C> {
    pub inner: T,
    pub codec: C,
    pub state: ReadFrame,
    pub current_addr: Option<SockAddr>,
}

impl<T, C> UdpFramedRecv<T, C> {
    /// Well-formed: the buffer holds bytes only while readable, and a
    /// readable buffer has the sender address of its datagram recorded.
    pub open spec fn wf(&self) -> bool {
        self.state.wf() && (self.state.is_readable ==> self.current_addr is Some)
    }

    /// Create a new engine backed by the given socket handle and codec.
    pub fn new(socket: T, codec: C) -> (r: UdpFramedRecv<T, C>)
        ensures
            r.wf(),
            r.inner == socket,
            r.codec == codec,
            !r.state.is_readable,
            !r.state.eof,
            r.state.bytes() == Seq::<u8>::empty(),
            r.current_addr is None,
    {
        UdpFramedRecv {
            inner: socket,
            codec,
            state: ReadFrame::with_capacity(INITIAL_RD_CAPACITY),
            current_addr: None,
        }
    }

    /// Returns a reference to the underlying I/O handle.
    pub fn get_ref(&self) -> (r: &T)
        ensures
            *r == self.inner,
    {
        &self.inner
    }

    /// Returns a mutable reference to the underlying I/O handle.
    pub fn get_mut(&mut self) -> (r: &mut T)
        ensures
            *r == old(self).inner,
            final(self).inner == *final(r),
            final(self).codec == old(self).codec,
            final(self).state == old(self).state,
            final(self).current_addr == old(self).current_addr,
    {
        &mut self.inner
    }

    /// Returns a reference to the underlying codec.
    pub fn codec(&self) -> (r: &C)
        ensures
            *r == self.codec,
    {
        &self.codec
    }

    /// Returns a mutable reference to the underlying codec.
    pub fn codec_mut(&mut self) -> (r: &mut C)
        ensures
            *r == old(self).codec,
            final(self).codec == *final(r),
            final(self).inner == old(self).inner,
            final(self).state == old(self).state,
            final(self).current_addr == old(self).current_addr,
    {
        &mut self.codec
    }

    /// Returns a reference to the read buffer.
    pub fn read_buffer(&self) -> (r: &bytes::BytesMut)
        ensures
            buf_view(*r) == self.state.bytes(),
    {
        &self.state.buffer
    }

    /// Returns a mutable reference to the read buffer.
    pub fn read_buffer_mut(&mut self) -> (r: &mut bytes::BytesMut)
        ensures
            buf_view(*r) == old(self).state.bytes(),
            final(self).state.buffer == *final(r),
            final(self).state.is_readable == old(self).state.is_readable,
            final(self).state.eof == old(self).state.eof,
            final(self).inner == old(self).inner,
            final(self).codec == old(self).codec,
            final(self).current_addr == old(self).current_addr,
    {
        &mut self.state.buffer
    }

    /// Consumes the engine, returning its underlying I/O handle.
    pub fn into_inner(self) -> (r: T)
        ensures
            r == self.inner,
    {
        self.inner
    }
}

impl<T, C: Decoder> UdpFramedRecv<T, C> {
    /// One step of the decode loop: decode one item out of the buffered
    /// datagram, pairing it with that datagram's sender address, or clear
    /// the exhausted buffer and ask the caller for the next datagram.
    pub fn decode_step(&mut self) -> (r: RecvStep<C::Item, C::Error>)
        requires
            old(self).wf(),
        ensures
            final(self).wf(),
            final(self).inner == old(self).inner,
            final(self).current_addr == old(self).current_addr,
            final(self).state.eof == old(self).state.eof,
            !old(self).state.is_readable ==> r is NeedDatagram && *final(self) == *old(self),
            old(self).state.is_readable ==> match old(self).codec.deof_result(
                old(self).state.bytes(),
            ) {
                Ok(Some(v)) => r matches RecvStep::Item(item, a) && item@ == v
                    && Some(a) == old(self).current_addr && final(self).state.is_readable
                    && final(self).state.bytes() == old(self).codec.deof_rest(
                    old(self).state.bytes(),
                ),
                Ok(None) => r is NeedDatagram && !final(self).state.is_readable
                    && final(self).state.bytes() == Seq::<u8>::empty(),
                Err(e) => r matches RecvStep::Failed(e2) && e2 == e
                    && final(self).state.is_readable && final(self).state.bytes() == old(
                    self,
                ).codec.deof_rest(old(self).state.bytes()),
            },
    {
        decode_step(&mut self.codec, &mut self.state, self.current_addr)
    }

    /// Hand one received datagram and its sender address to the engine.
    /// Afterwards the buffer holds exactly the new datagram's bytes, so
    /// nothing of an earlier datagram can reach later output.
    pub fn datagram_received(&mut self, data: &[u8], addr: SockAddr)
        requires
            old(self).wf(),
            !old(self).state.is_readable,
        ensures
            final(self).wf(),
            final(self).state.is_readable,
            final(self).state.bytes() == data@,
            final(self).state.eof == old(self).state.eof,
            final(self).current_addr == Some(addr),
            final(self).inner == old(self).inner,
            final(self).codec == old(self).codec,
    {
        recv_datagram(&mut self.state, data);
        self.current_addr = Some(addr);
    }
}

} // verus!
