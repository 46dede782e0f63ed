//! Byte buffers of the crate `bytes`.

use bytes::{Buf, BufMut, Bytes, BytesMut};
use vstd::prelude::*;

verus! {

/// The immutable buffer `bytes::Bytes`.
#[verifier::external_type_specification]
#[verifier::external_body]
pub struct ExBytes(bytes::Bytes);

/// The growing buffer `bytes::BytesMut`.
#[verifier::external_type_specification]
#[verifier::external_body]
pub struct ExBytesMut(bytes::BytesMut);

/// The bytes that a `Bytes` holds.
pub uninterp spec fn bytes_held(b: Bytes) -> Seq<u8>;

/// The bytes that a `BytesMut` holds.
pub uninterp spec fn bytes_written(b: BytesMut) -> Seq<u8>;

/// `Bytes::from(Vec<u8>)`: a buffer that holds the bytes of the vector.
#[verifier::external_body]
pub(crate) fn buffer_of(v: Vec<u8>) -> (r: Bytes)
    ensures
        bytes_held(r) == v@,
{
    Bytes::from(v)
}

/// `Bytes::new`: a buffer that holds nothing.
#[verifier::external_body]
pub(crate) fn empty_buffer() -> (r: Bytes)
    ensures
        bytes_held(r) == Seq::<u8>::empty(),
{
    Bytes::new()
}

/// `Bytes::deref`: the bytes held, as a slice.
#[verifier::external_body]
pub(crate) fn buffer_slice(b: &Bytes) -> (r: &[u8])
    ensures
        r@ == bytes_held(*b),
{
    b
}

/// `Bytes::advance`: drops the first `n` bytes. It panics past the end, so there must be that
/// many.
#[verifier::external_body]
pub(crate) fn buffer_advance(b: &mut Bytes, n: usize)
    requires
        n <= bytes_held(*old(b)).len(),
    ensures
        bytes_held(*final(b)) == bytes_held(*old(b)).skip(n as int),
{
    b.advance(n)
}

/// `Bytes::clone`: a buffer that holds the same bytes.
pub assume_specification[ <bytes::Bytes as Clone>::clone ](b: &bytes::Bytes) -> (r: bytes::Bytes)
    ensures
        bytes_held(r) == bytes_held(*b),
;

/// `BytesMut::with_capacity`: an empty growing buffer. It panics above `isize::MAX`.
#[verifier::external_body]
pub(crate) fn growing_buffer(capacity: usize) -> (r: BytesMut)
    requires
        capacity <= isize::MAX,
    ensures
        bytes_written(r) == Seq::<u8>::empty(),
{
    BytesMut::with_capacity(capacity)
}

/// `BytesMut::put_u8`: appends one byte. No buffer holds more than `isize::MAX` bytes.
#[verifier::external_body]
pub(crate) fn put_byte(b: &mut BytesMut, n: u8)
    requires
        bytes_written(*old(b)).len() + 1 <= isize::MAX,
    ensures
        bytes_written(*final(b)) == bytes_written(*old(b)).push(n),
{
    b.put_u8(n)
}

/// `BytesMut::put_slice`: appends bytes. No buffer holds more than `isize::MAX` bytes.
#[verifier::external_body]
pub(crate) fn put_bytes(b: &mut BytesMut, src: &[u8])
    requires
        bytes_written(*old(b)).len() + src@.len() <= isize::MAX,
    ensures
        bytes_written(*final(b)) == bytes_written(*old(b)) + src@,
{
    b.put_slice(src)
}

/// `BytesMut::freeze`: the same bytes, no longer growing.
#[verifier::external_body]
pub(crate) fn freeze(b: BytesMut) -> (r: Bytes)
    ensures
        bytes_held(r) == bytes_written(b),
{
    b.freeze()
}

} // verus!
