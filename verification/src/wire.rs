//! Big-endian (network order) integer encoding, as used on the USB/IP wire.
//!
//! Reading and writing goes through the `bytes` crate (`Buf` on byte slices,
//! `BufMut` on `Vec<u8>`); this module states what those calls do in terms of
//! the spec functions below and proves that decoding undoes encoding.
use vstd::prelude::*;
use bytes::{Buf, BufMut};

verus! {

/// The big-endian encoding of a 16-bit value: most significant byte first.
pub open spec fn be_u16_bytes(n: u16) -> Seq<u8> {
    seq![(n >> 8) as u8, n as u8]
}

/// The big-endian encoding of a 32-bit value: most significant byte first.
pub open spec fn be_u32_bytes(n: u32) -> Seq<u8> {
    seq![(n >> 24) as u8, (n >> 16) as u8, (n >> 8) as u8, n as u8]
}

/// The value of two bytes read in big-endian order.
pub open spec fn be_u16_value(b0: u8, b1: u8) -> u16 {
    ((b0 as u16) << 8) | (b1 as u16)
}

/// The value of four bytes read in big-endian order.
pub open spec fn be_u32_value(b0: u8, b1: u8, b2: u8, b3: u8) -> u32 {
    ((b0 as u32) << 24) | ((b1 as u32) << 16) | ((b2 as u32) << 8) | (b3 as u32)
}

/// The big-endian 16-bit value stored at `s[pos..pos + 2]`.
pub open spec fn be_u16_at(s: Seq<u8>, pos: int) -> u16 {
    be_u16_value(s[pos], s[pos + 1])
}

/// The big-endian 32-bit value stored at `s[pos..pos + 4]`.
pub open spec fn be_u32_at(s: Seq<u8>, pos: int) -> u32 {
    be_u32_value(s[pos], s[pos + 1], s[pos + 2], s[pos + 3])
}

/// Appends `n` in big-endian byte order: `bytes::BufMut::put_u16` on a `Vec<u8>`,
/// which appends `n.to_be_bytes()`.
#[verifier::external_body]
pub(crate) fn put_u16(buf: &mut Vec<u8>, n: u16)
    requires
        old(buf)@.len() + 2 <= isize::MAX,
    ensures
        final(buf)@ == old(buf)@ + be_u16_bytes(n),
{
    buf.put_u16(n)
}

/// Appends `n` in big-endian byte order: `bytes::BufMut::put_u32` on a `Vec<u8>`,
/// which appends `n.to_be_bytes()`.
#[verifier::external_body]
pub(crate) fn put_u32(buf: &mut Vec<u8>, n: u32)
    requires
        old(buf)@.len() + 4 <= isize::MAX,
    ensures
        final(buf)@ == old(buf)@ + be_u32_bytes(n),
{
    buf.put_u32(n)
}

/// Appends all of `src`: `bytes::BufMut::put` on a `Vec<u8>` with a byte slice as
/// the source, which extends the vector with the slice's bytes.
#[verifier::external_body]
pub(crate) fn put_bytes(buf: &mut Vec<u8>, src: &[u8])
    requires
        old(buf)@.len() + src@.len() <= isize::MAX,
    ensures
        final(buf)@ == old(buf)@ + src@,
{
    buf.put(src)
}

/// Reads the big-endian 16-bit value at `buf[pos..pos + 2]`: `bytes::Buf::get_u16`
/// on the slice `&buf[pos..]`, which reads `u16::from_be_bytes` of its first two bytes.
#[verifier::external_body]
pub(crate) fn get_u16(buf: &[u8], pos: usize) -> (n: u16)
    requires
        pos + 2 <= buf@.len(),
    ensures
        n == be_u16_at(buf@, pos as int),
{
    let mut rest = &buf[pos..];
    rest.get_u16()
}

/// Reads the big-endian 32-bit value at `buf[pos..pos + 4]`: `bytes::Buf::get_u32`
/// on the slice `&buf[pos..]`, which reads `u32::from_be_bytes` of its first four bytes.
#[verifier::external_body]
pub(crate) fn get_u32(buf: &[u8], pos: usize) -> (n: u32)
    requires
        pos + 4 <= buf@.len(),
    ensures
        n == be_u32_at(buf@, pos as int),
{
    let mut rest = &buf[pos..];
    rest.get_u32()
}

/// Decoding the big-endian encoding of a 16-bit value gives the value back.
pub proof fn lemma_u16_value_roundtrip(n: u16)
    ensures
        be_u16_value(be_u16_bytes(n)[0], be_u16_bytes(n)[1]) == n,
{
    let b0 = (n >> 8) as u8;
    let b1 = n as u8;
    assert(((b0 as u16) << 8) | (b1 as u16) == n) by (bit_vector)
        requires
            b0 == (n >> 8) as u8,
            b1 == n as u8,
    ;
}

/// Decoding the big-endian encoding of a 32-bit value gives the value back.
pub proof fn lemma_u32_value_roundtrip(n: u32)
    ensures
        be_u32_at(be_u32_bytes(n), 0) == n,
{
    let b0 = (n >> 24) as u8;
    let b1 = (n >> 16) as u8;
    let b2 = (n >> 8) as u8;
    let b3 = n as u8;
    assert(((b0 as u32) << 24) | ((b1 as u32) << 16) | ((b2 as u32) << 8) | (b3 as u32) == n)
        by (bit_vector)
        requires
            b0 == (n >> 24) as u8,
            b1 == (n >> 16) as u8,
            b2 == (n >> 8) as u8,
            b3 == n as u8,
    ;
}

/// Encoding the big-endian value of four bytes gives the same four bytes back.
pub proof fn lemma_u32_bytes_roundtrip(s: Seq<u8>, pos: int)
    requires
        0 <= pos,
        pos + 4 <= s.len(),
    ensures
        be_u32_bytes(be_u32_at(s, pos)) == s.subrange(pos, pos + 4),
{
    let b0 = s[pos];
    let b1 = s[pos + 1];
    let b2 = s[pos + 2];
    let b3 = s[pos + 3];
    let x = be_u32_value(b0, b1, b2, b3);
    assert((x >> 24) as u8 == b0 && (x >> 16) as u8 == b1 && (x >> 8) as u8 == b2 && x as u8 == b3)
        by (bit_vector)
        requires
            x == ((b0 as u32) << 24) | ((b1 as u32) << 16) | ((b2 as u32) << 8) | (b3 as u32),
    ;
    assert(be_u32_bytes(x) =~= s.subrange(pos, pos + 4));
}

/// Bytes read in big-endian order weigh 256 times more than the byte after
/// them: the value of two bytes is `256 * b0 + b1`, of four bytes
/// `2^24 * b0 + 2^16 * b1 + 256 * b2 + b3`.
pub proof fn lemma_be_values_weighted(b0: u8, b1: u8, b2: u8, b3: u8)
    ensures
        be_u16_value(b0, b1) == 0x100 * b0 + b1,
        be_u32_value(b0, b1, b2, b3) == 0x100_0000 * b0 + 0x1_0000 * b1 + 0x100 * b2 + b3,
{
    assert(((b0 as u16) << 8) | (b1 as u16) == 0x100 * b0 + b1) by (bit_vector);
    assert(((b0 as u32) << 24) | ((b1 as u32) << 16) | ((b2 as u32) << 8) | (b3 as u32)
        == 0x100_0000 * b0 + 0x1_0000 * b1 + 0x100 * b2 + b3) by (bit_vector);
}

/// The encodings put the most significant byte first: the bytes of a 16-bit
/// value `n` weigh 256 and 1 and add up to `n`, those of a 32-bit value weigh
/// 2^24, 2^16, 256 and 1 and add up to it; reading four bytes at `pos` gives
/// their weighted sum.
pub proof fn lemma_be_bytes_weighted(m: u16, n: u32, s: Seq<u8>, pos: int)
    ensures
        be_u16_bytes(m).len() == 2,
        0x100 * be_u16_bytes(m)[0] + be_u16_bytes(m)[1] == m,
        be_u32_bytes(n).len() == 4,
        0x100_0000 * be_u32_bytes(n)[0] + 0x1_0000 * be_u32_bytes(n)[1] + 0x100 * be_u32_bytes(n)[2]
            + be_u32_bytes(n)[3] == n,
        0 <= pos && pos + 4 <= s.len() ==> be_u32_at(s, pos) == 0x100_0000 * s[pos] + 0x1_0000 * s[pos
            + 1] + 0x100 * s[pos + 2] + s[pos + 3],
        0 <= pos && pos + 2 <= s.len() ==> be_u16_at(s, pos) == 0x100 * s[pos] + s[pos + 1],
{
    assert(0x100 * ((m >> 8) as u8) + (m as u8) == m) by (bit_vector);
    assert(0x100_0000 * ((n >> 24) as u8) + 0x1_0000 * ((n >> 16) as u8) + 0x100 * ((n >> 8) as u8)
        + (n as u8) == n) by (bit_vector);
    if 0 <= pos && pos + 4 <= s.len() {
        lemma_be_values_weighted(s[pos], s[pos + 1], s[pos + 2], s[pos + 3]);
    }
    if 0 <= pos && pos + 2 <= s.len() {
        lemma_be_values_weighted(s[pos], s[pos + 1], 0, 0);
    }
}

} // verus!
