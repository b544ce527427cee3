//! The growable byte buffer of the `bytes` crate, as the encoder sees it.
//!
//! Nothing in this module is proved. Each function makes one call into
//! `bytes` and states what that call does to the bytes the buffer holds.
//! A `BytesMut` takes bytes up to a length of `isize::MAX` and panics beyond
//! it, so every call that appends asks for that much room.

use bytes::BufMut;
use bytes::BytesMut;
use vstd::prelude::*;

use crate::xdr::{be32, be64, twos32, twos64};

verus! {

/// `bytes::BytesMut`, taken as it is: of what a buffer holds the contracts
/// know only `buf_contents`.
#[verifier::external_type_specification]
#[verifier::external_body]
pub struct ExBytesMut(BytesMut);

/// The bytes a buffer holds, first written first.
pub uninterp spec fn buf_contents(buf: BytesMut) -> Seq<u8>;

/// `BytesMut::with_capacity`: a buffer that holds no bytes. The call panics
/// for a capacity that no allocation can have.
#[verifier::external_body]
pub(crate) fn buf_with_capacity(capacity: usize) -> (buf: BytesMut)
    requires
        capacity <= isize::MAX,
    ensures
        buf_contents(buf) == Seq::<u8>::empty(),
{
    BytesMut::with_capacity(capacity)
}

/// `BufMut::put_u32` on a `BytesMut`: appends the four bytes of `value`,
/// most significant first.
#[verifier::external_body]
pub(crate) fn buf_put_u32(buf: &mut BytesMut, value: u32)
    requires
        buf_contents(*old(buf)).len() + 4 <= isize::MAX,
    ensures
        buf_contents(*final(buf)) == buf_contents(*old(buf)) + be32(value),
{
    buf.put_u32(value)
}

/// `BufMut::put_i32` on a `BytesMut`: appends the four bytes of `value` in
/// two's complement, most significant first.
#[verifier::external_body]
pub(crate) fn buf_put_i32(buf: &mut BytesMut, value: i32)
    requires
        buf_contents(*old(buf)).len() + 4 <= isize::MAX,
    ensures
        buf_contents(*final(buf)) == buf_contents(*old(buf)) + be32(twos32(value)),
{
    buf.put_i32(value)
}

/// `BufMut::put_u64` on a `BytesMut`: appends the eight bytes of `value`,
/// most significant first.
#[verifier::external_body]
pub(crate) fn buf_put_u64(buf: &mut BytesMut, value: u64)
    requires
        buf_contents(*old(buf)).len() + 8 <= isize::MAX,
    ensures
        buf_contents(*final(buf)) == buf_contents(*old(buf)) + be64(value),
{
    buf.put_u64(value)
}

/// `BufMut::put_i64` on a `BytesMut`: appends the eight bytes of `value` in
/// two's complement, most significant first.
#[verifier::external_body]
pub(crate) fn buf_put_i64(buf: &mut BytesMut, value: i64)
    requires
        buf_contents(*old(buf)).len() + 8 <= isize::MAX,
    ensures
        buf_contents(*final(buf)) == buf_contents(*old(buf)) + be64(twos64(value)),
{
    buf.put_i64(value)
}

/// `BufMut::put_u8` on a `BytesMut`: appends one byte.
#[verifier::external_body]
pub(crate) fn buf_put_u8(buf: &mut BytesMut, value: u8)
    requires
        buf_contents(*old(buf)).len() + 1 <= isize::MAX,
    ensures
        buf_contents(*final(buf)) == buf_contents(*old(buf)).push(value),
{
    buf.put_u8(value)
}

/// `BufMut::put_slice` on a `BytesMut`: appends the bytes of `src` as they are.
#[verifier::external_body]
pub(crate) fn buf_put_slice(buf: &mut BytesMut, src: &[u8])
    requires
        buf_contents(*old(buf)).len() + src@.len() <= isize::MAX,
    ensures
        buf_contents(*final(buf)) == buf_contents(*old(buf)) + src@,
{
    buf.put_slice(src)
}

/// `BytesMut::len`: the number of bytes held.
#[verifier::external_body]
pub(crate) fn buf_len(buf: &BytesMut) -> (n: usize)
    ensures
        n == buf_contents(*buf).len(),
{
    buf.len()
}

/// `BytesMut::is_empty`: whether no byte is held.
#[verifier::external_body]
pub(crate) fn buf_is_empty(buf: &BytesMut) -> (empty: bool)
    ensures
        empty <==> buf_contents(*buf).len() == 0,
{
    buf.is_empty()
}

/// `Deref::deref` on a `BytesMut`: the bytes held, as a slice.
#[verifier::external_body]
pub(crate) fn buf_as_slice(buf: &BytesMut) -> (s: &[u8])
    ensures
        s@ == buf_contents(*buf),
{
    std::ops::Deref::deref(buf)
}

/// `DerefMut::deref_mut` on a `BytesMut`: the bytes held, as a slice that
/// can be written in place. The buffer holds afterwards what the slice
/// holds when the borrow ends.
#[verifier::external_body]
pub(crate) fn buf_as_mut_slice(buf: &mut BytesMut) -> (s: &mut [u8])
    ensures
        s@ == buf_contents(*old(buf)),
        buf_contents(*final(buf)) == final(s)@,
{
    std::ops::DerefMut::deref_mut(buf)
}

} // verus!
