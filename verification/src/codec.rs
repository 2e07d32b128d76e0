//! The codec contract, and two codecs that honour it.
//!
//! A codec is the pluggable transform between raw datagram bytes and typed
//! values: `decode` reads zero or one item from the front of a buffer, and
//! `encode` appends the serialization of an item.  The engine is written
//! against the trait alone; each implementation states its behaviour as a
//! function of the codec state and the buffered bytes.

use vstd::prelude::*;

use crate::buffer::{
    buf_byte_at, buf_clear, buf_extend, buf_len, buf_split_to, buf_to_vec, buf_view,
};

verus! {

/// Whether an executable decode outcome agrees with its specification:
/// the same case, the same error, and an item equal at the level of views.
pub open spec fn item_result_matches<I: View, E>(
    r: Result<Option<I>, E>,
    m: Result<Option<<I as View>::V>, E>,
) -> bool {
    match (r, m) {
        (Ok(Some(item)), Ok(Some(v))) => item@ == v,
        (Ok(None), Ok(None)) => true,
        (Err(e), Err(m_e)) => e == m_e,
        _ => false,
    }
}

/// Decoding half of a codec.
///
/// `dec_result` and `dec_rest` say, as a function of the codec state and
/// the buffered bytes, what `decode` returns and what it leaves in the
/// buffer; `deof_result` and `deof_rest` say the same of `decode_eof`, the
/// variant invoked with the knowledge that no further bytes will arrive
/// for the current datagram.
pub trait Decoder: Sized {
    type Item: View;

    type Error;

    /// What `decode` returns, at the level of views.
    spec fn dec_result(&self, src: Seq<u8>) -> Result<
        Option<<Self::Item as View>::V>,
        Self::Error,
    >;

    /// What `decode` leaves in the buffer.
    spec fn dec_rest(&self, src: Seq<u8>) -> Seq<u8>;

    /// What `decode_eof` returns, at the level of views.
    spec fn deof_result(&self, src: Seq<u8>) -> Result<
        Option<<Self::Item as View>::V>,
        Self::Error,
    >;

    /// What `decode_eof` leaves in the buffer.
    spec fn deof_rest(&self, src: Seq<u8>) -> Seq<u8>;

    /// Read zero or one item from the front of `src`, on bytes available
    /// so far.  `Ok(None)` means more data is needed.
    fn decode(&mut self, src: &mut bytes::BytesMut) -> (r: Result<Option<Self::Item>, Self::Error>)
        ensures
            item_result_matches(r, old(self).dec_result(buf_view(*old(src)))),
            buf_view(*final(src)) == old(self).dec_rest(buf_view(*old(src))),
    ;

    /// Read zero or one item from the front of `src`, knowing that no
    /// further bytes will arrive for this datagram.
    fn decode_eof(&mut self, src: &mut bytes::BytesMut) -> (r: Result<
        Option<Self::Item>,
        Self::Error,
    >)
        ensures
            item_result_matches(r, old(self).deof_result(buf_view(*old(src)))),
            buf_view(*final(src)) == old(self).deof_rest(buf_view(*old(src))),
    ;
}

/// Encoding half of a codec.
///
/// `enc_result` says whether the item is accepted and `enc_bytes` what the
/// buffer holds afterwards, both as a function of the codec state, the
/// item and the bytes already buffered.  `enc_req` holds the machine
/// limits under which `encode` may be called (the grown buffer must fit in
/// `usize`).
pub trait Encoder<I>: Sized {
    type Error;

    /// The machine limits under which `encode` may be called.
    spec fn enc_req(&self, item: I, dst: Seq<u8>) -> bool;

    /// Whether `encode` accepts the item.
    spec fn enc_result(&self, item: I, dst: Seq<u8>) -> Result<(), Self::Error>;

    /// What the buffer holds after `encode`.
    spec fn enc_bytes(&self, item: I, dst: Seq<u8>) -> Seq<u8>;

    /// Append the serialization of `item` to `dst`.
    fn encode(&mut self, item: I, dst: &mut bytes::BytesMut) -> (r: Result<(), Self::Error>)
        requires
            old(self).enc_req(item, buf_view(*old(dst))),
        ensures
            r == old(self).enc_result(item, buf_view(*old(dst))),
            buf_view(*final(dst)) == old(self).enc_bytes(item, buf_view(*old(dst))),
    ;
}

/// An error a codec of this crate reports.
#[derive(Clone, Copy, Debug, PartialEq, Eq, Structural)]
pub enum CodecError {
    /// A submitted item holds a line terminator, which the line codec
    /// cannot frame unambiguously.
    NewlineInItem,
}

/// A byte-passthrough codec: a nonempty datagram is one item holding the
/// datagram's bytes, and an item is sent as its bytes, unframed.
#[derive(Clone, Copy, Debug, PartialEq, Eq, Structural)]
pub struct ByteCodec;

impl Decoder for ByteCodec {
    type Item = Vec<u8>;

    type Error = CodecError;

    open spec fn dec_result(&self, src: Seq<u8>) -> Result<Option<Seq<u8>>, CodecError> {
        if src.len() > 0 {
            Ok(Some(src))
        } else {
            Ok(None)
        }
    }

    open spec fn dec_rest(&self, src: Seq<u8>) -> Seq<u8> {
        Seq::empty()
    }

    open spec fn deof_result(&self, src: Seq<u8>) -> Result<Option<Seq<u8>>, CodecError> {
        self.dec_result(src)
    }

    open spec fn deof_rest(&self, src: Seq<u8>) -> Seq<u8> {
        self.dec_rest(src)
    }

    fn decode(&mut self, src: &mut bytes::BytesMut) -> (r: Result<Option<Vec<u8>>, CodecError>) {
        if buf_len(src) > 0 {
            let item = buf_to_vec(src);
            buf_clear(src);
            Ok(Some(item))
        } else {
            Ok(None)
        }
    }

    fn decode_eof(&mut self, src: &mut bytes::BytesMut) -> (r: Result<
        Option<Vec<u8>>,
        CodecError,
    >) {
        self.decode(src)
    }
}

impl Encoder<Vec<u8>> for ByteCodec {
    type Error = CodecError;

    open spec fn enc_req(&self, item: Vec<u8>, dst: Seq<u8>) -> bool {
        dst.len() + item@.len() <= usize::MAX
    }

    open spec fn enc_result(&self, item: Vec<u8>, dst: Seq<u8>) -> Result<(), CodecError> {
        Ok(())
    }

    open spec fn enc_bytes(&self, item: Vec<u8>, dst: Seq<u8>) -> Seq<u8> {
        dst + item@
    }

    fn encode(&mut self, item: Vec<u8>, dst: &mut bytes::BytesMut) -> (r: Result<(), CodecError>) {
        buf_extend(dst, item.as_slice());
        Ok(())
    }
}

/// The index of the first line terminator (`b'\n'`) in `s`, or `s.len()`
/// if there is none.
pub open spec fn first_nl(s: Seq<u8>) -> int
    decreases s.len(),
{
    if s.len() == 0 {
        0
    } else if s[0] == 10u8 {
        0
    } else {
        1 + first_nl(s.skip(1))
    }
}

/// `first_nl(s)` is an index of `s` or `s.len()`, points at a terminator
/// when in range, and nothing before it is a terminator.
pub proof fn lemma_first_nl(s: Seq<u8>)
    ensures
        0 <= first_nl(s) <= s.len(),
        first_nl(s) < s.len() ==> s[first_nl(s)] == 10u8,
        forall|j: int| 0 <= j < first_nl(s) ==> s[j] != 10u8,
    decreases s.len(),
{
    if s.len() == 0 {
    } else if s[0] == 10u8 {
    } else {
        lemma_first_nl(s.skip(1));
        if first_nl(s.skip(1)) < s.skip(1).len() {
            assert(s.skip(1)[first_nl(s.skip(1))] == s[first_nl(s)]);
        }
        assert forall|j: int| 0 <= j < first_nl(s) implies s[j] != 10u8 by {
            if j > 0 {
                assert(s.skip(1)[j - 1] == s[j]);
                assert(s.skip(1)[j - 1] != 10u8);
            }
        }
    }
}

/// Any index with no terminator before it that either points at a
/// terminator or is the end of `s` is `first_nl(s)`.
pub proof fn lemma_first_nl_unique(s: Seq<u8>, i: int)
    requires
        0 <= i <= s.len(),
        forall|j: int| 0 <= j < i ==> s[j] != 10u8,
        i < s.len() ==> s[i] == 10u8,
    ensures
        first_nl(s) == i,
{
    lemma_first_nl(s);
    if first_nl(s) < i {
        assert(s[first_nl(s)] == 10u8);
        assert(s[first_nl(s)] != 10u8);
    }
    if first_nl(s) > i {
        assert(i < s.len());
        assert(s[i] != 10u8);
    }
}

/// A line-oriented codec: items are byte lines terminated by `b'\n'`.
///
/// Decoding reads the bytes up to the first terminator as one item and
/// consumes the terminator with them; bytes after the last terminator are
/// left for the next call, and are discarded with the datagram if no
/// further terminator arrives.  Encoding appends the item's bytes and one
/// terminator, and rejects an item that itself holds a terminator.
#[derive(Clone, Copy, Debug, PartialEq, Eq, Structural)]
pub struct LineCodec;

impl Decoder for LineCodec {
    type Item = Vec<u8>;

    type Error = CodecError;

    open spec fn dec_result(&self, src: Seq<u8>) -> Result<Option<Seq<u8>>, CodecError> {
        if first_nl(src) < src.len() {
            Ok(Some(src.take(first_nl(src))))
        } else {
            Ok(None)
        }
    }

    open spec fn dec_rest(&self, src: Seq<u8>) -> Seq<u8> {
        if first_nl(src) < src.len() {
            src.skip(first_nl(src) + 1)
        } else {
            src
        }
    }

    open spec fn deof_result(&self, src: Seq<u8>) -> Result<Option<Seq<u8>>, CodecError> {
        self.dec_result(src)
    }

    open spec fn deof_rest(&self, src: Seq<u8>) -> Seq<u8> {
        self.dec_rest(src)
    }

    fn decode(&mut self, src: &mut bytes::BytesMut) -> (r: Result<Option<Vec<u8>>, CodecError>) {
        let ghost s = buf_view(*src);
        let n = buf_len(src);
        let mut i: usize = 0;
        let mut found: bool = false;
        while !found && i < n
            invariant
                i <= n,
                n == s.len(),
                buf_view(*src) == s,
                forall|j: int| 0 <= j < i ==> s[j] != 10u8,
                found ==> i < n && s[i as int] == 10u8,
            decreases n - i + (if found { 0int } else { 1int }),
        {
            if buf_byte_at(src, i) == 10 {
                found = true;
            } else {
                i = i + 1;
            }
        }
        if found {
            proof {
                lemma_first_nl_unique(s, i as int);
            }
            let line = buf_split_to(src, i);
            let _terminator = buf_split_to(src, 1);
            let item = buf_to_vec(&line);
            proof {
                assert(s.skip(i as int).skip(1) =~= s.skip(i as int + 1));
            }
            Ok(Some(item))
        } else {
            proof {
                lemma_first_nl_unique(s, n as int);
            }
            Ok(None)
        }
    }

    fn decode_eof(&mut self, src: &mut bytes::BytesMut) -> (r: Result<
        Option<Vec<u8>>,
        CodecError,
    >) {
        self.decode(src)
    }
}

impl Encoder<Vec<u8>> for LineCodec {
    type Error = CodecError;

    open spec fn enc_req(&self, item: Vec<u8>, dst: Seq<u8>) -> bool {
        dst.len() + item@.len() + 1 <= usize::MAX
    }

    open spec fn enc_result(&self, item: Vec<u8>, dst: Seq<u8>) -> Result<(), CodecError> {
        if first_nl(item@) < item@.len() {
            Err(CodecError::NewlineInItem)
        } else {
            Ok(())
        }
    }

    open spec fn enc_bytes(&self, item: Vec<u8>, dst: Seq<u8>) -> Seq<u8> {
        if first_nl(item@) < item@.len() {
            dst
        } else {
            dst + item@ + seq![10u8]
        }
    }

    fn encode(&mut self, item: Vec<u8>, dst: &mut bytes::BytesMut) -> (r: Result<(), CodecError>) {
        let n = item.len();
        let mut i: usize = 0;
        let mut found: bool = false;
        while !found && i < n
            invariant
                i <= n,
                n == item@.len(),
                forall|j: int| 0 <= j < i ==> item@[j] != 10u8,
                found ==> i < n && item@[i as int] == 10u8,
            decreases n - i + (if found { 0int } else { 1int }),
        {
            if item[i] == 10 {
                found = true;
            } else {
                i = i + 1;
            }
        }
        if found {
            proof {
                lemma_first_nl_unique(item@, i as int);
            }
            Err(CodecError::NewlineInItem)
        } else {
            proof {
                lemma_first_nl_unique(item@, n as int);
            }
            buf_extend(dst, item.as_slice());
            let terminator: Vec<u8> = vec![10u8];
            buf_extend(dst, terminator.as_slice());
            Ok(())
        }
    }
}

/// Round-trip law of the byte-passthrough codec: a nonempty item sent
/// whole as one datagram decodes back to an equal item, with nothing left
/// in the buffer.  An empty item is excluded: its datagram carries no
/// bytes, so a peer reads no item from it.
pub proof fn lemma_byte_round_trip(enc: ByteCodec, dec: ByteCodec, item: Vec<u8>)
    requires
        item@.len() > 0,
    ensures
        dec.deof_result(enc.enc_bytes(item, Seq::empty())) == Ok::<
            Option<Seq<u8>>,
            CodecError,
        >(Some(item@)),
        dec.deof_rest(enc.enc_bytes(item, Seq::empty())) == Seq::<u8>::empty(),
{
    assert(enc.enc_bytes(item, Seq::empty()) =~= item@);
}

/// Round-trip law of the line codec: an item the encoder accepts (one
/// without a line terminator), sent as one datagram, decodes back to an
/// equal item, with nothing left in the buffer.
pub proof fn lemma_line_round_trip(enc: LineCodec, dec: LineCodec, item: Vec<u8>)
    requires
        forall|j: int| 0 <= j < item@.len() ==> item@[j] != 10u8,
    ensures
        enc.enc_result(item, Seq::empty()) == Ok::<(), CodecError>(()),
        dec.deof_result(enc.enc_bytes(item, Seq::empty())) == Ok::<
            Option<Seq<u8>>,
            CodecError,
        >(Some(item@)),
        dec.deof_rest(enc.enc_bytes(item, Seq::empty())) == Seq::<u8>::empty(),
{
    lemma_first_nl_unique(item@, item@.len() as int);
    let wire = Seq::<u8>::empty() + item@ + seq![10u8];
    assert(wire.len() == item@.len() + 1);
    assert(forall|j: int| 0 <= j < item@.len() ==> wire[j] == item@[j]);
    assert(wire[item@.len() as int] == 10u8);
    lemma_first_nl_unique(wire, item@.len() as int);
    assert(wire.take(item@.len() as int) =~= item@);
    assert(wire.skip(item@.len() as int + 1) =~= Seq::<u8>::empty());
}

} // verus!
