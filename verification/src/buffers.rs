//! The byte buffers of the `bytes` crate, as the protocol code uses them.
//!
//! `BytesMut` and `Bytes` are opaque to Verus; what each holds is named by
//! `bytes_mut_contents` and `bytes_contents`, and every method that the
//! library calls has a wrapper whose contract says, over those names, what
//! the crate's source does to the contents.

use vstd::prelude::*;
use vstd::bytes::*;
use crate::le::spec_i32_to_le_bytes;
use crate::le::spec_i32_from_le_bytes;
use bytes::{Buf, BufMut};

verus! {

/// `bytes::BytesMut`, a growable byte buffer, known to Verus only by name.
#[verifier::external_type_specification]
#[verifier::external_body]
pub struct ExBytesMut(bytes::BytesMut);

/// `bytes::Bytes`, a frozen byte buffer, known to Verus only by name.
#[verifier::external_type_specification]
#[verifier::external_body]
pub struct ExBytes(bytes::Bytes);

/// The bytes that a `BytesMut` holds, from its read position to its end.
pub uninterp spec fn bytes_mut_contents(b: bytes::BytesMut) -> Seq<u8>;

/// The bytes that a `Bytes` holds.
pub uninterp spec fn bytes_contents(b: bytes::Bytes) -> Seq<u8>;

/// Largest length a `BytesMut` can reach before `BufMut` panics
/// (`remaining_mut` is `isize::MAX - len`).
pub open spec fn buf_limit() -> int {
    isize::MAX as int
}

/// `BytesMut::with_capacity`: a buffer that holds no bytes.
#[verifier::external_body]
pub(crate) fn new_buffer(capacity: usize) -> (b: bytes::BytesMut)
    requires
        capacity <= isize::MAX,
    ensures
        bytes_mut_contents(b) == Seq::<u8>::empty(),
{
    bytes::BytesMut::with_capacity(capacity)
}

/// `BytesMut::len`: the number of bytes held.
#[verifier::external_body]
pub(crate) fn buffer_len(b: &bytes::BytesMut) -> (n: usize)
    ensures
        n == bytes_mut_contents(*b).len(),
{
    b.len()
}

/// `<BytesMut as Deref>::deref`: the held bytes as a slice.
#[verifier::external_body]
pub(crate) fn buffer_slice(b: &bytes::BytesMut) -> (s: &[u8])
    ensures
        s@ == bytes_mut_contents(*b),
{
    b
}

/// `<BytesMut as BufMut>::put_u8`: appends one byte.
#[verifier::external_body]
pub(crate) fn put_u8(b: &mut bytes::BytesMut, n: u8)
    requires
        bytes_mut_contents(*old(b)).len() + 1 <= buf_limit(),
    ensures
        bytes_mut_contents(*final(b)) == bytes_mut_contents(*old(b)).push(n),
{
    b.put_u8(n)
}

/// `<BytesMut as BufMut>::put_u16_le`: appends `n.to_le_bytes()`.
#[verifier::external_body]
pub(crate) fn put_u16_le(b: &mut bytes::BytesMut, n: u16)
    requires
        bytes_mut_contents(*old(b)).len() + 2 <= buf_limit(),
    ensures
        bytes_mut_contents(*final(b)) == bytes_mut_contents(*old(b)) + spec_u16_to_le_bytes(n),
{
    b.put_u16_le(n)
}

/// `<BytesMut as BufMut>::put_u32_le`: appends `n.to_le_bytes()`.
#[verifier::external_body]
pub(crate) fn put_u32_le(b: &mut bytes::BytesMut, n: u32)
    requires
        bytes_mut_contents(*old(b)).len() + 4 <= buf_limit(),
    ensures
        bytes_mut_contents(*final(b)) == bytes_mut_contents(*old(b)) + spec_u32_to_le_bytes(n),
{
    b.put_u32_le(n)
}

/// `<BytesMut as BufMut>::put_i32_le`: appends `n.to_le_bytes()`.
#[verifier::external_body]
pub(crate) fn put_i32_le(b: &mut bytes::BytesMut, n: i32)
    requires
        bytes_mut_contents(*old(b)).len() + 4 <= buf_limit(),
    ensures
        bytes_mut_contents(*final(b)) == bytes_mut_contents(*old(b)) + spec_i32_to_le_bytes(n),
{
    b.put_i32_le(n)
}

/// `<BytesMut as BufMut>::put_slice`: appends the bytes of `src`.
#[verifier::external_body]
pub(crate) fn put_slice(b: &mut bytes::BytesMut, src: &[u8])
    requires
        bytes_mut_contents(*old(b)).len() + src@.len() <= buf_limit(),
    ensures
        bytes_mut_contents(*final(b)) == bytes_mut_contents(*old(b)) + src@,
{
    b.put_slice(src)
}

/// `BytesMut::freeze`: the same bytes, no longer mutable.
#[verifier::external_body]
pub(crate) fn freeze(b: bytes::BytesMut) -> (r: bytes::Bytes)
    ensures
        bytes_contents(r) == bytes_mut_contents(b),
{
    b.freeze()
}

/// `<&[u8] as Buf>::get_u8`: reads the first byte and moves past it.
#[verifier::external_body]
pub(crate) fn get_u8(buf: &mut &[u8]) -> (r: u8)
    requires
        old(buf)@.len() >= 1,
    ensures
        r == old(buf)@[0],
        final(buf)@ == old(buf)@.skip(1),
{
    buf.get_u8()
}

/// `<&[u8] as Buf>::get_u16_le`: reads two bytes as a little-endian `u16`.
#[verifier::external_body]
pub(crate) fn get_u16_le(buf: &mut &[u8]) -> (r: u16)
    requires
        old(buf)@.len() >= 2,
    ensures
        r == spec_u16_from_le_bytes(old(buf)@.take(2)),
        final(buf)@ == old(buf)@.skip(2),
{
    buf.get_u16_le()
}

/// `<&[u8] as Buf>::get_u32_le`: reads four bytes as a little-endian `u32`.
#[verifier::external_body]
pub(crate) fn get_u32_le(buf: &mut &[u8]) -> (r: u32)
    requires
        old(buf)@.len() >= 4,
    ensures
        r == spec_u32_from_le_bytes(old(buf)@.take(4)),
        final(buf)@ == old(buf)@.skip(4),
{
    buf.get_u32_le()
}

/// `<&[u8] as Buf>::get_i32_le`: reads four bytes as a little-endian `i32`.
#[verifier::external_body]
pub(crate) fn get_i32_le(buf: &mut &[u8]) -> (r: i32)
    requires
        old(buf)@.len() >= 4,
    ensures
        r == spec_i32_from_le_bytes(old(buf)@.take(4)),
        final(buf)@ == old(buf)@.skip(4),
{
    buf.get_i32_le()
}

/// `<&[u8] as Buf>::advance`: moves past `cnt` bytes.
#[verifier::external_body]
pub(crate) fn advance_slice(buf: &mut &[u8], cnt: usize)
    requires
        cnt <= old(buf)@.len(),
    ensures
        final(buf)@ == old(buf)@.skip(cnt as int),
{
    buf.advance(cnt)
}

/// `<BytesMut as Buf>::advance`: drops the first `cnt` bytes.
#[verifier::external_body]
pub(crate) fn advance_buffer(b: &mut bytes::BytesMut, cnt: usize)
    requires
        cnt <= bytes_mut_contents(*old(b)).len(),
    ensures
        bytes_mut_contents(*final(b)) == bytes_mut_contents(*old(b)).skip(cnt as int),
{
    b.advance(cnt)
}

/// `BytesMut::split_to`: takes the first `at` bytes out into a buffer of their own.
#[verifier::external_body]
pub(crate) fn split_to(b: &mut bytes::BytesMut, at: usize) -> (front: bytes::BytesMut)
    requires
        at <= bytes_mut_contents(*old(b)).len(),
    ensures
        bytes_mut_contents(front) == bytes_mut_contents(*old(b)).take(at as int),
        bytes_mut_contents(*final(b)) == bytes_mut_contents(*old(b)).skip(at as int),
{
    b.split_to(at)
}

} // verus!
