//! What this crate takes for granted of `bytes::BytesMut`, the growable byte
//! buffer that frames are read from and written to.
//!
//! Each function below makes one call into the `bytes` crate. Its contract is
//! stated over [`buffer_bytes`], the sequence of bytes that a buffer holds, and
//! is believed, not proved.

use bytes::{Buf, BufMut, BytesMut};
use vstd::prelude::*;

use crate::wire::{be128, be16, be16_at, be32, be32_at, le32, le32_at};

verus! {

/// `bytes::BytesMut`, known here only through [`buffer_bytes`].
#[verifier::external_type_specification]
#[verifier::external_body]
pub struct ExBytesMut(BytesMut);

/// The bytes that a buffer holds, first to last. Capacity is not part of it.
pub uninterp spec fn buffer_bytes(buf: BytesMut) -> Seq<u8>;

/// `BytesMut::with_capacity`: a buffer that holds nothing, whatever room it
/// was made with.
#[verifier::external_body]
pub(crate) fn buf_with_capacity(capacity: usize) -> (buf: BytesMut)
    requires
        capacity <= isize::MAX,
    ensures
        buffer_bytes(buf) == Seq::<u8>::empty(),
{
    BytesMut::with_capacity(capacity)
}

/// `BytesMut::from(&[u8])`: a buffer that holds a copy of the slice.
#[verifier::external_body]
pub(crate) fn buf_from_slice(data: &[u8]) -> (buf: BytesMut)
    ensures
        buffer_bytes(buf) == data@,
{
    BytesMut::from(data)
}

/// `BytesMut::len`: how many bytes the buffer holds.
#[verifier::external_body]
pub(crate) fn buf_len(buf: &BytesMut) -> (n: usize)
    ensures
        n == buffer_bytes(*buf).len(),
{
    buf.len()
}

/// The buffer read as a slice, through `Deref`: the bytes it holds.
#[verifier::external_body]
pub(crate) fn buf_as_slice(buf: &BytesMut) -> (s: &[u8])
    ensures
        s@ == buffer_bytes(*buf),
{
    &buf[..]
}

/// `BytesMut::reserve`: makes room, and leaves the bytes held as they were.
#[verifier::external_body]
pub(crate) fn buf_reserve(buf: &mut BytesMut, additional: usize)
    requires
        buffer_bytes(*old(buf)).len() + additional <= isize::MAX,
    ensures
        buffer_bytes(*final(buf)) == buffer_bytes(*old(buf)),
{
    buf.reserve(additional)
}

/// `Buf::advance`: drops the first `cnt` bytes.
#[verifier::external_body]
pub(crate) fn buf_advance(buf: &mut BytesMut, cnt: usize)
    requires
        cnt <= buffer_bytes(*old(buf)).len(),
    ensures
        buffer_bytes(*final(buf)) == buffer_bytes(*old(buf)).skip(cnt as int),
{
    buf.advance(cnt)
}

/// `Buf::get_u16`: takes two bytes off the front and reads them most
/// significant first.
#[verifier::external_body]
pub(crate) fn buf_get_u16(buf: &mut BytesMut) -> (v: u16)
    requires
        2 <= buffer_bytes(*old(buf)).len(),
    ensures
        v == be16_at(buffer_bytes(*old(buf)), 0),
        buffer_bytes(*final(buf)) == buffer_bytes(*old(buf)).skip(2),
{
    buf.get_u16()
}

/// `Buf::get_u32`: takes four bytes off the front and reads them most
/// significant first.
#[verifier::external_body]
pub(crate) fn buf_get_u32(buf: &mut BytesMut) -> (v: u32)
    requires
        4 <= buffer_bytes(*old(buf)).len(),
    ensures
        v == be32_at(buffer_bytes(*old(buf)), 0),
        buffer_bytes(*final(buf)) == buffer_bytes(*old(buf)).skip(4),
{
    buf.get_u32()
}

/// `Buf::get_u32_le`: takes four bytes off the front and reads them least
/// significant first.
#[verifier::external_body]
pub(crate) fn buf_get_u32_le(buf: &mut BytesMut) -> (v: u32)
    requires
        4 <= buffer_bytes(*old(buf)).len(),
    ensures
        v == le32_at(buffer_bytes(*old(buf)), 0),
        buffer_bytes(*final(buf)) == buffer_bytes(*old(buf)).skip(4),
{
    buf.get_u32_le()
}

/// `BytesMut::split_to`: hands out the first `at` bytes as a buffer of their
/// own and keeps the rest.
#[verifier::external_body]
pub(crate) fn buf_split_to(buf: &mut BytesMut, at: usize) -> (head: BytesMut)
    requires
        at <= buffer_bytes(*old(buf)).len(),
    ensures
        buffer_bytes(head) == buffer_bytes(*old(buf)).take(at as int),
        buffer_bytes(*final(buf)) == buffer_bytes(*old(buf)).skip(at as int),
{
    buf.split_to(at)
}

/// `BufMut::put_u16`: appends the two bytes of `n`, most significant first.
#[verifier::external_body]
pub(crate) fn buf_put_u16(buf: &mut BytesMut, n: u16)
    requires
        buffer_bytes(*old(buf)).len() + 2 <= isize::MAX,
    ensures
        buffer_bytes(*final(buf)) == buffer_bytes(*old(buf)) + be16(n),
{
    buf.put_u16(n)
}

/// `BufMut::put_u32`: appends the four bytes of `n`, most significant first.
#[verifier::external_body]
pub(crate) fn buf_put_u32(buf: &mut BytesMut, n: u32)
    requires
        buffer_bytes(*old(buf)).len() + 4 <= isize::MAX,
    ensures
        buffer_bytes(*final(buf)) == buffer_bytes(*old(buf)) + be32(n),
{
    buf.put_u32(n)
}

/// `BufMut::put_u32_le`: appends the four bytes of `n`, least significant
/// first.
#[verifier::external_body]
pub(crate) fn buf_put_u32_le(buf: &mut BytesMut, n: u32)
    requires
        buffer_bytes(*old(buf)).len() + 4 <= isize::MAX,
    ensures
        buffer_bytes(*final(buf)) == buffer_bytes(*old(buf)) + le32(n),
{
    buf.put_u32_le(n)
}

/// `BufMut::put_u128`: appends the sixteen bytes of `n`, most significant
/// first.
#[verifier::external_body]
pub(crate) fn buf_put_u128(buf: &mut BytesMut, n: u128)
    requires
        buffer_bytes(*old(buf)).len() + 16 <= isize::MAX,
    ensures
        buffer_bytes(*final(buf)) == buffer_bytes(*old(buf)) + be128(n),
{
    buf.put_u128(n)
}

/// `BufMut::put_slice`: appends a copy of the slice.
#[verifier::external_body]
pub(crate) fn buf_put_slice(buf: &mut BytesMut, src: &[u8])
    requires
        buffer_bytes(*old(buf)).len() + src@.len() <= isize::MAX,
    ensures
        buffer_bytes(*final(buf)) == buffer_bytes(*old(buf)) + src@,
{
    buf.put_slice(src)
}

/// `BytesMut::resize`: cuts the buffer down to `new_len` bytes, or fills it
/// up to that length with `value`.
#[verifier::external_body]
pub(crate) fn buf_resize(buf: &mut BytesMut, new_len: usize, value: u8)
    requires
        new_len <= isize::MAX,
    ensures
        buffer_bytes(*final(buf)).len() == new_len,
        forall|i: int|
            0 <= i < new_len ==> #[trigger] buffer_bytes(*final(buf))[i] == (if i < buffer_bytes(
                *old(buf),
            ).len() {
                buffer_bytes(*old(buf))[i]
            } else {
                value
            }),
{
    buf.resize(new_len, value)
}

/// `BytesMut::truncate`: keeps the first `len` bytes; a buffer that holds
/// fewer is left alone.
#[verifier::external_body]
pub(crate) fn buf_truncate(buf: &mut BytesMut, len: usize)
    ensures
        buffer_bytes(*final(buf)) == (if len <= buffer_bytes(*old(buf)).len() {
            buffer_bytes(*old(buf)).take(len as int)
        } else {
            buffer_bytes(*old(buf))
        }),
{
    buf.truncate(len)
}

} // verus!
