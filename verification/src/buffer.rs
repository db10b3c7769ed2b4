//! The growable byte buffer that frames are read from and written to.
//!
//! The buffer itself is [`bytes::BytesMut`]. Everything the library does with it
//! goes through the items of this module, which speak of one thing only: the
//! bytes that the buffer holds, first to last.
use bytes::{Buf, BufMut, BytesMut};
use vstd::prelude::*;

verus! {

/// The buffer of the `bytes` crate. Its inside is not looked at; what it holds is
/// [`buffered`].
#[verifier::external_type_specification]
#[verifier::external_body]
pub struct ExBytesMut(bytes::BytesMut);

/// The bytes that a buffer holds, in order: what `&buf[..]` shows.
pub uninterp spec fn buffered(buf: BytesMut) -> Seq<u8>;

/// The two bytes of a number, the more significant one first.
pub open spec fn be_bytes_u16(n: u16) -> Seq<u8> {
    seq![(n / 0x100) as u8, (n % 0x100) as u8]
}

/// The four bytes of a number, the most significant one first.
pub open spec fn be_bytes_u32(n: u32) -> Seq<u8> {
    seq![
        (n / 0x100_0000) as u8,
        (n / 0x1_0000 % 0x100) as u8,
        (n / 0x100 % 0x100) as u8,
        (n % 0x100) as u8,
    ]
}

/// [`BytesMut::with_capacity`]: a buffer with nothing in it. Its storage is a `Vec`
/// of that capacity, and a `Vec` of bytes never has more than `isize::MAX` of them.
pub assume_specification[ BytesMut::with_capacity ](capacity: usize) -> (buf: BytesMut)
    requires
        capacity <= isize::MAX,
    ensures
        buffered(buf) == Seq::<u8>::empty(),
;

/// [`BytesMut::len`]: the number of bytes in the buffer.
pub assume_specification[ BytesMut::len ](buf: &BytesMut) -> (len: usize)
    ensures
        len == buffered(*buf).len(),
;

/// [`BytesMut::reserve`]: makes room, and leaves the bytes in the buffer as they are.
pub assume_specification[ BytesMut::reserve ](buf: &mut BytesMut, additional: usize)
    requires
        buffered(*old(buf)).len() + additional <= isize::MAX,
    ensures
        buffered(*final(buf)) == buffered(*old(buf)),
;

/// [`BytesMut::extend_from_slice`]: appends the given bytes.
pub assume_specification[ BytesMut::extend_from_slice ](buf: &mut BytesMut, extend: &[u8])
    requires
        buffered(*old(buf)).len() + extend@.len() <= isize::MAX,
    ensures
        buffered(*final(buf)) == buffered(*old(buf)) + extend@,
;

/// [`BytesMut::split_to`]: takes the first `at` bytes out of the buffer and returns
/// them as a buffer of their own. It panics where the buffer holds fewer.
pub assume_specification[ BytesMut::split_to ](buf: &mut BytesMut, at: usize) -> (front: BytesMut)
    requires
        at <= buffered(*old(buf)).len(),
    ensures
        buffered(front) == buffered(*old(buf)).take(at as int),
        buffered(*final(buf)) == buffered(*old(buf)).skip(at as int),
;

/// `Deref` of [`BytesMut`]: the bytes in the buffer as a slice.
#[verifier::external_body]
pub(crate) fn as_slice(buf: &BytesMut) -> (bytes: &[u8])
    ensures
        bytes@ == buffered(*buf),
{
    buf
}

/// [`Buf::advance`] of [`BytesMut`]: drops the first `count` bytes. It panics where
/// the buffer holds fewer.
#[verifier::external_body]
pub(crate) fn advance(buf: &mut BytesMut, count: usize)
    requires
        count <= buffered(*old(buf)).len(),
    ensures
        buffered(*final(buf)) == buffered(*old(buf)).skip(count as int),
{
    buf.advance(count)
}

/// [`BufMut::put_slice`] of [`BytesMut`]: appends the given bytes.
#[verifier::external_body]
pub(crate) fn put_slice(buf: &mut BytesMut, src: &[u8])
    requires
        buffered(*old(buf)).len() + src@.len() <= isize::MAX,
    ensures
        buffered(*final(buf)) == buffered(*old(buf)) + src@,
{
    buf.put_slice(src)
}

/// [`BufMut::put_u8`] of [`BytesMut`]: appends one byte.
#[verifier::external_body]
pub(crate) fn put_u8(buf: &mut BytesMut, n: u8)
    requires
        buffered(*old(buf)).len() + 1 <= isize::MAX,
    ensures
        buffered(*final(buf)) == buffered(*old(buf)).push(n),
{
    buf.put_u8(n)
}

/// [`BufMut::put_u16`] of [`BytesMut`]: appends the number in big-endian order.
#[verifier::external_body]
pub(crate) fn put_u16(buf: &mut BytesMut, n: u16)
    requires
        buffered(*old(buf)).len() + 2 <= isize::MAX,
    ensures
        buffered(*final(buf)) == buffered(*old(buf)) + be_bytes_u16(n),
{
    buf.put_u16(n)
}

/// [`BufMut::put_u32`] of [`BytesMut`]: appends the number in big-endian order.
#[verifier::external_body]
pub(crate) fn put_u32(buf: &mut BytesMut, n: u32)
    requires
        buffered(*old(buf)).len() + 4 <= isize::MAX,
    ensures
        buffered(*final(buf)) == buffered(*old(buf)) + be_bytes_u32(n),
{
    buf.put_u32(n)
}

} // verus!
