//! The byte buffers of the engine, held in `bytes::BytesMut`.
//!
//! The engine reads and fills its buffers only through the wrappers below.
//! `buf_view` names the bytes a buffer holds, and each wrapper states over
//! that name what the corresponding `bytes` method does, as the crate's
//! source and documentation show it.

use vstd::prelude::*;

verus! {

#[verifier::external_type_specification]
#[verifier::external_body]
pub struct ExBytesMut(bytes::BytesMut);

/// The bytes that a `BytesMut` holds, first to last.
pub uninterp spec fn buf_view(b: bytes::BytesMut) -> Seq<u8>;

/// Relies on `BytesMut::with_capacity`: the new buffer contains no data.
#[verifier::external_body]
pub(crate) fn buf_with_capacity(capacity: usize) -> (r: bytes::BytesMut)
    ensures
        buf_view(r) == Seq::<u8>::empty(),
{
    bytes::BytesMut::with_capacity(capacity)
}

/// Relies on `BytesMut::len`: the number of bytes contained in the buffer.
#[verifier::external_body]
pub(crate) fn buf_len(b: &bytes::BytesMut) -> (r: usize)
    ensures
        r == buf_view(*b).len(),
{
    b.len()
}

/// Relies on `BytesMut::clear`: removes all data, keeping the allocation.
#[verifier::external_body]
pub(crate) fn buf_clear(b: &mut bytes::BytesMut)
    ensures
        buf_view(*final(b)) == Seq::<u8>::empty(),
{
    b.clear()
}

/// Relies on `BytesMut::reserve`: makes room for `additional` more bytes
/// without changing the contents.  `reserve` panics when the grown capacity
/// would overflow `usize`, so that case is excluded.
#[verifier::external_body]
pub(crate) fn buf_reserve(b: &mut bytes::BytesMut, additional: usize)
    requires
        buf_view(*old(b)).len() + additional <= usize::MAX,
    ensures
        buf_view(*final(b)) == buf_view(*old(b)),
{
    b.reserve(additional)
}

/// Relies on `BytesMut::extend_from_slice`: appends the slice, growing the
/// buffer as needed.  Growth panics when the capacity would overflow
/// `usize`, so that case is excluded.
#[verifier::external_body]
pub(crate) fn buf_extend(b: &mut bytes::BytesMut, src: &[u8])
    requires
        buf_view(*old(b)).len() + src@.len() <= usize::MAX,
    ensures
        buf_view(*final(b)) == buf_view(*old(b)) + src@,
{
    b.extend_from_slice(src)
}

/// Relies on `BytesMut::split_to`: afterwards the returned buffer holds the
/// bytes `[0, at)` and `b` holds the bytes `[at, len)`.  `split_to` panics
/// when `at > len`, so that case is excluded.
#[verifier::external_body]
pub(crate) fn buf_split_to(b: &mut bytes::BytesMut, at: usize) -> (r: bytes::BytesMut)
    requires
        at <= buf_view(*old(b)).len(),
    ensures
        buf_view(r) == buf_view(*old(b)).take(at as int),
        buf_view(*final(b)) == buf_view(*old(b)).skip(at as int),
{
    b.split_to(at)
}

/// Relies on `BytesMut`'s `Deref<Target = [u8]>`: the byte at index `i`.
/// Indexing panics out of bounds, so that case is excluded.
#[verifier::external_body]
pub(crate) fn buf_byte_at(b: &bytes::BytesMut, i: usize) -> (r: u8)
    requires
        i < buf_view(*b).len(),
    ensures
        r == buf_view(*b)[i as int],
{
    b[i]
}

/// Relies on `BytesMut`'s `Deref<Target = [u8]>`: a copy of the contents,
/// first to last.
#[verifier::external_body]
pub(crate) fn buf_to_vec(b: &bytes::BytesMut) -> (r: Vec<u8>)
    ensures
        r@ == buf_view(*b),
{
    b.as_ref().to_vec()
}

} // verus!
