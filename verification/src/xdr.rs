//! XDR encoding primitives (RFC 4506): big-endian scalars, and opaque data
//! zero-padded to the next 4-byte boundary.

use bytes::BytesMut;
use vstd::prelude::*;
use vstd::string::StringSliceAdditionalSpecFns;

use crate::buf::{
    buf_as_mut_slice, buf_as_slice, buf_contents, buf_is_empty, buf_len, buf_put_i32, buf_put_i64,
    buf_put_slice, buf_put_u32, buf_put_u64, buf_put_u8, buf_with_capacity,
};

verus! {

/// Number of zero bytes that follow `n` bytes of opaque data to reach the
/// next multiple of four.
pub open spec fn pad(n: nat) -> nat {
    ((4 - n % 4) % 4) as nat
}

/// The four bytes of `v`, most significant first.
pub open spec fn be32(v: u32) -> Seq<u8> {
    seq![
        (v / 0x100_0000) as u8,
        (v / 0x1_0000 % 0x100) as u8,
        (v / 0x100 % 0x100) as u8,
        (v % 0x100) as u8,
    ]
}

/// The eight bytes of `v`, most significant first.
pub open spec fn be64(v: u64) -> Seq<u8> {
    be32((v / 0x1_0000_0000) as u32) + be32((v % 0x1_0000_0000) as u32)
}

/// The unsigned number with the same 32 bits as `v` in two's complement.
pub open spec fn twos32(v: i32) -> u32 {
    if v < 0 {
        (v + 0x1_0000_0000) as u32
    } else {
        v as u32
    }
}

/// The unsigned number with the same 64 bits as `v` in two's complement.
pub open spec fn twos64(v: i64) -> u64 {
    if v < 0 {
        (v + 0x1_0000_0000_0000_0000) as u64
    } else {
        v as u64
    }
}

/// A length as its 4-byte field holds it: the low 32 bits.
pub open spec fn low32(n: nat) -> u32 {
    (n % 0x1_0000_0000) as u32
}

/// `n` zero bytes.
pub open spec fn zeros(n: nat) -> Seq<u8> {
    Seq::new(n, |i: int| 0u8)
}

/// Fixed-length opaque data: the bytes, then zero bytes up to a multiple of
/// four. No length is written.
pub open spec fn opaque_fixed(data: Seq<u8>) -> Seq<u8> {
    data + zeros(pad(data.len()))
}

/// Variable-length opaque data: the length, then the padded bytes.
pub open spec fn opaque(data: Seq<u8>) -> Seq<u8> {
    be32(low32(data.len())) + opaque_fixed(data)
}

/// `s` with the four bytes from `offset` on replaced by those of `value`.
pub open spec fn patch32(s: Seq<u8>, offset: int, value: u32) -> Seq<u8> {
    s.subrange(0, offset) + be32(value) + s.subrange(offset + 4, s.len() as int)
}

/// Padding never exceeds three bytes and always completes a multiple of four.
pub proof fn lemma_pad(n: nat)
    ensures
        pad(n) == (4 - n % 4) % 4,
        pad(n) == 0 || pad(n) == 1 || pad(n) == 2 || pad(n) == 3,
        (n + pad(n)) % 4 == 0,
        n % 4 == 0 ==> pad(n) == 0,
{
}

/// Opaque data of `n` bytes takes `4 + n + pad(n)` bytes on the wire.
pub proof fn lemma_opaque_len(data: Seq<u8>)
    ensures
        opaque_fixed(data).len() == data.len() + pad(data.len()),
        opaque(data).len() == 4 + data.len() + pad(data.len()),
        opaque(data).len() % 4 == 0,
{
    lemma_pad(data.len());
}

/// Patching keeps the length, writes the value at the offset and leaves
/// every other byte as it was.
pub proof fn lemma_patch32(s: Seq<u8>, offset: int, value: u32)
    requires
        0 <= offset,
        offset + 4 <= s.len(),
    ensures
        patch32(s, offset, value).len() == s.len(),
        patch32(s, offset, value).subrange(offset, offset + 4) == be32(value),
        forall|i: int|
            0 <= i < s.len() && !(offset <= i < offset + 4) ==> #[trigger] patch32(
                s,
                offset,
                value,
            )[i] == s[i],
{
}

/// Padding needed to align `len` bytes to a 4-byte boundary.
pub fn xdr_pad_len(len: usize) -> (p: usize)
    ensures
        p == pad(len as nat),
        p == 0 || p == 1 || p == 2 || p == 3,
        (len + p) % 4 == 0,
{
    (4 - (len % 4)) % 4
}

/// The big-endian bytes of `value`.
fn be_bytes(value: u32) -> (b: [u8; 4])
    ensures
        b@ == be32(value),
{
    [
        (value / 0x100_0000) as u8,
        (value / 0x1_0000 % 0x100) as u8,
        (value / 0x100 % 0x100) as u8,
        (value % 0x100) as u8,
    ]
}

/// The low 32 bits of a length.
pub(crate) fn len_field(len: usize) -> (v: u32)
    ensures
        v == low32(len as nat),
{
    let wide: u64 = len as u64;
    assert(wide as u32 == wide % 0x1_0000_0000) by (bit_vector);
    #[verifier::truncate]
    (wide as u32)
}

/// Builds wire-format data by appending to a growable buffer. Bytes once
/// written change only through [`XdrEncoder::fill_u32`].
pub struct XdrEncoder {
    buf: BytesMut,
}

impl View for XdrEncoder {
    type V = Seq<u8>;

    /// The bytes written so far.
    closed spec fn view(&self) -> Seq<u8> {
        buf_contents(self.buf)
    }
}

impl XdrEncoder {
    /// An encoder that holds no bytes.
    pub fn new() -> (enc: Self)
        ensures
            enc@ == Seq::<u8>::empty(),
    {
        XdrEncoder { buf: buf_with_capacity(1024) }
    }

    /// An encoder that holds no bytes, with room set aside for `capacity`.
    pub fn with_capacity(capacity: usize) -> (enc: Self)
        requires
            capacity <= isize::MAX,
        ensures
            enc@ == Seq::<u8>::empty(),
    {
        XdrEncoder { buf: buf_with_capacity(capacity) }
    }

    /// Appends `value` as four big-endian bytes.
    pub fn put_u32(&mut self, value: u32)
        requires
            old(self)@.len() + 4 <= isize::MAX,
        ensures
            final(self)@ == old(self)@ + be32(value),
    {
        buf_put_u32(&mut self.buf, value);
    }

    /// Appends `value` as four big-endian bytes, in two's complement.
    pub fn put_i32(&mut self, value: i32)
        requires
            old(self)@.len() + 4 <= isize::MAX,
        ensures
            final(self)@ == old(self)@ + be32(twos32(value)),
    {
        buf_put_i32(&mut self.buf, value);
    }

    /// Appends `value` as eight big-endian bytes.
    pub fn put_u64(&mut self, value: u64)
        requires
            old(self)@.len() + 8 <= isize::MAX,
        ensures
            final(self)@ == old(self)@ + be64(value),
    {
        buf_put_u64(&mut self.buf, value);
    }

    /// Appends `value` as eight big-endian bytes, in two's complement.
    pub fn put_i64(&mut self, value: i64)
        requires
            old(self)@.len() + 8 <= isize::MAX,
        ensures
            final(self)@ == old(self)@ + be64(twos64(value)),
    {
        buf_put_i64(&mut self.buf, value);
    }

    /// Appends a boolean as the 4-byte value 0 or 1.
    pub fn put_bool(&mut self, value: bool)
        requires
            old(self)@.len() + 4 <= isize::MAX,
        ensures
            final(self)@ == old(self)@ + be32(if value { 1u32 } else { 0u32 }),
    {
        self.put_u32(if value { 1 } else { 0 });
    }

    /// Appends `data` and pads it with zero bytes to a multiple of four. No
    /// length is written.
    pub fn put_opaque_fixed(&mut self, data: &[u8])
        requires
            old(self)@.len() + data@.len() + pad(data@.len()) <= isize::MAX,
        ensures
            final(self)@ == old(self)@ + opaque_fixed(data@),
            final(self)@.len() == old(self)@.len() + data@.len() + pad(data@.len()),
    {
        buf_put_slice(&mut self.buf, data);
        let pad_len: usize = xdr_pad_len(data.len());
        let mut written: usize = 0;
        while written < pad_len
            invariant
                written <= pad_len,
                pad_len == pad(data@.len()),
                old(self)@.len() + data@.len() + pad_len <= isize::MAX,
                self@ == old(self)@ + data@ + zeros(written as nat),
            decreases pad_len - written,
        {
            buf_put_u8(&mut self.buf, 0);
            written += 1;
        }
    }

    /// Appends the length of `data` as a 4-byte field, then `data` padded to
    /// a multiple of four. The field holds the low 32 bits of the length.
    pub fn put_opaque(&mut self, data: &[u8])
        requires
            old(self)@.len() + 4 + data@.len() + pad(data@.len()) <= isize::MAX,
        ensures
            final(self)@ == old(self)@ + opaque(data@),
            final(self)@.len() == old(self)@.len() + 4 + data@.len() + pad(data@.len()),
    {
        self.put_u32(len_field(data.len()));
        self.put_opaque_fixed(data);
    }

    /// Appends a string as the variable-length opaque data of its UTF-8 bytes.
    pub fn put_string(&mut self, s: &str)
        requires
            old(self)@.len() + 4 + s.spec_bytes().len() + pad(s.spec_bytes().len())
                <= isize::MAX,
        ensures
            final(self)@ == old(self)@ + opaque(s.spec_bytes()),
    {
        self.put_opaque(s.as_bytes());
    }

    /// Appends bytes that are already encoded: no length, no padding.
    pub fn put_raw(&mut self, data: &[u8])
        requires
            old(self)@.len() + data@.len() <= isize::MAX,
        ensures
            final(self)@ == old(self)@ + data@,
    {
        buf_put_slice(&mut self.buf, data);
    }

    /// Appends a 4-byte zero field to be filled in later, and returns its offset.
    pub fn reserve_u32(&mut self) -> (offset: usize)
        requires
            old(self)@.len() + 4 <= isize::MAX,
        ensures
            offset == old(self)@.len(),
            final(self)@ == old(self)@ + be32(0),
    {
        let offset: usize = buf_len(&self.buf);
        self.put_u32(0);
        offset
    }

    /// Overwrites the four bytes at `offset` with `value`, big-endian.
    pub fn fill_u32(&mut self, offset: usize, value: u32)
        requires
            offset + 4 <= old(self)@.len(),
        ensures
            final(self)@ == patch32(old(self)@, offset as int, value),
    {
        let bytes = be_bytes(value);
        let written = buf_as_mut_slice(&mut self.buf);
        let (_, rest) = written.split_at_mut(offset);
        let (field, _) = rest.split_at_mut(4);
        field[0] = bytes[0];
        field[1] = bytes[1];
        field[2] = bytes[2];
        field[3] = bytes[3];
    }

    /// Number of bytes written so far.
    pub fn len(&self) -> (n: usize)
        ensures
            n == self@.len(),
    {
        buf_len(&self.buf)
    }

    /// Whether nothing has been written.
    pub fn is_empty(&self) -> (empty: bool)
        ensures
            empty <==> self@.len() == 0,
    {
        buf_is_empty(&self.buf)
    }

    /// Gives up the encoder for the buffer it filled.
    pub fn into_bytes(self) -> (buf: BytesMut)
        ensures
            buf_contents(buf) == self@,
    {
        self.buf
    }

    /// The bytes written so far.
    pub fn as_bytes(&self) -> (bytes: &[u8])
        ensures
            bytes@ == self@,
    {
        buf_as_slice(&self.buf)
    }
}

impl Default for XdrEncoder {
    fn default() -> (enc: Self)
        ensures
            enc@ == Seq::<u8>::empty(),
    {
        Self::new()
    }
}

} // verus!
