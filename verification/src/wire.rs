//! Fixed-width integers as they stand on the wire.

use byteorder::{BigEndian, ByteOrder, LittleEndian};
use vstd::prelude::*;

verus! {

/// The value of the first two bytes of `b`, most significant byte first.
pub open spec fn be16(b: Seq<u8>) -> int {
    b[0] * 0x100 + b[1]
}

/// The value of the first three bytes of `b`, most significant byte first.
pub open spec fn be24(b: Seq<u8>) -> int {
    b[0] * 0x1_0000 + b[1] * 0x100 + b[2]
}

/// The value of the first four bytes of `b`, most significant byte first.
pub open spec fn be32(b: Seq<u8>) -> int {
    b[0] * 0x100_0000 + b[1] * 0x1_0000 + b[2] * 0x100 + b[3]
}

/// The value of the first four bytes of `b`, least significant byte first.
pub open spec fn le32(b: Seq<u8>) -> int {
    b[3] * 0x100_0000 + b[2] * 0x1_0000 + b[1] * 0x100 + b[0]
}

/// The two bytes of `v`, most significant first.
pub open spec fn be16_bytes(v: int) -> Seq<u8> {
    seq![(v / 0x100 % 0x100) as u8, (v % 0x100) as u8]
}

/// The three bytes of `v`, most significant first.
pub open spec fn be24_bytes(v: int) -> Seq<u8> {
    seq![(v / 0x1_0000 % 0x100) as u8, (v / 0x100 % 0x100) as u8, (v % 0x100) as u8]
}

/// The four bytes of `v`, most significant first.
pub open spec fn be32_bytes(v: int) -> Seq<u8> {
    seq![
        (v / 0x100_0000 % 0x100) as u8,
        (v / 0x1_0000 % 0x100) as u8,
        (v / 0x100 % 0x100) as u8,
        (v % 0x100) as u8,
    ]
}

/// The four bytes of `v`, least significant first.
pub open spec fn le32_bytes(v: int) -> Seq<u8> {
    seq![
        (v % 0x100) as u8,
        (v / 0x100 % 0x100) as u8,
        (v / 0x1_0000 % 0x100) as u8,
        (v / 0x100_0000 % 0x100) as u8,
    ]
}

/// Reading back what was written gives the value, for each width and order.
pub proof fn lemma_read_of_written(v: int)
    ensures
        0 <= v < 0x1_0000 ==> be16(be16_bytes(v)) == v,
        0 <= v < 0x100_0000 ==> be24(be24_bytes(v)) == v,
        0 <= v < 0x1_0000_0000 ==> be32(be32_bytes(v)) == v,
        0 <= v < 0x1_0000_0000 ==> le32(le32_bytes(v)) == v,
{
}

/// Writing what was read gives the bytes back, for each width and order.
pub proof fn lemma_written_of_read(b: Seq<u8>)
    ensures
        b.len() == 2 ==> be16_bytes(be16(b)) == b,
        b.len() == 3 ==> be24_bytes(be24(b)) == b,
        b.len() == 4 ==> be32_bytes(be32(b)) == b,
        b.len() == 4 ==> le32_bytes(le32(b)) == b,
{
    if b.len() == 2 {
        lemma_digits(0, 0, b[0] as int, b[1] as int);
        assert(be16_bytes(be16(b)) =~= b);
    }
    if b.len() == 3 {
        lemma_digits(0, b[0] as int, b[1] as int, b[2] as int);
        assert(be24_bytes(be24(b)) =~= b);
    }
    if b.len() == 4 {
        lemma_digits(b[0] as int, b[1] as int, b[2] as int, b[3] as int);
        assert(be32_bytes(be32(b)) =~= b);
        lemma_digits(b[3] as int, b[2] as int, b[1] as int, b[0] as int);
        assert(le32_bytes(le32(b)) =~= b);
    }
}

/// The base 256 digits of a number written with four digits are those digits.
proof fn lemma_digits(d3: int, d2: int, d1: int, d0: int)
    requires
        0 <= d3 < 0x100,
        0 <= d2 < 0x100,
        0 <= d1 < 0x100,
        0 <= d0 < 0x100,
    ensures
        ({
            let v = d3 * 0x100_0000 + d2 * 0x1_0000 + d1 * 0x100 + d0;
            &&& v % 0x100 == d0
            &&& v / 0x100 % 0x100 == d1
            &&& v / 0x1_0000 % 0x100 == d2
            &&& v / 0x100_0000 % 0x100 == d3
            &&& 0 <= v < 0x1_0000_0000
        }),
{
    let v = d3 * 0x100_0000 + d2 * 0x1_0000 + d1 * 0x100 + d0;
    assert(v / 0x100 == d3 * 0x1_0000 + d2 * 0x100 + d1);
    assert(v / 0x1_0000 == d3 * 0x100 + d2);
    assert(v / 0x100_0000 == d3);
}

/// Appends `bytes` to `out`.
pub fn append(out: &mut Vec<u8>, bytes: &[u8])
    ensures
        final(out)@ == old(out)@ + bytes@,
{
    out.extend_from_slice(bytes);
    assert(out@ =~= old(out)@ + bytes@);
}

/// The bytes of `data` from `start` on.
pub fn tail(data: &[u8], start: usize) -> (r: &[u8])
    requires
        start <= data@.len(),
    ensures
        r@ == data@.subrange(start as int, data@.len() as int),
{
    vstd::slice::slice_subrange(data, start, data.len())
}

/// `byteorder::BigEndian::read_u16`: the first two bytes of `buf` as a
/// big-endian integer. It panics on a shorter buffer, which `requires` excludes.
#[verifier::external_body]
pub(crate) fn read_be16(buf: &[u8]) -> (r: u16)
    requires
        buf@.len() >= 2,
    ensures
        r == be16(buf@),
{
    BigEndian::read_u16(buf)
}

/// `byteorder::BigEndian::read_u24`: the first three bytes of `buf` as a
/// big-endian integer. It panics on a shorter buffer, which `requires` excludes.
#[verifier::external_body]
pub(crate) fn read_be24(buf: &[u8]) -> (r: u32)
    requires
        buf@.len() >= 3,
    ensures
        r == be24(buf@),
{
    BigEndian::read_u24(buf)
}

/// `byteorder::BigEndian::read_u32`: the first four bytes of `buf` as a
/// big-endian integer. It panics on a shorter buffer, which `requires` excludes.
#[verifier::external_body]
pub(crate) fn read_be32(buf: &[u8]) -> (r: u32)
    requires
        buf@.len() >= 4,
    ensures
        r == be32(buf@),
{
    BigEndian::read_u32(buf)
}

/// `byteorder::LittleEndian::read_u32`: the first four bytes of `buf` as a
/// little-endian integer. It panics on a shorter buffer, which `requires` excludes.
#[verifier::external_body]
pub(crate) fn read_le32(buf: &[u8]) -> (r: u32)
    requires
        buf@.len() >= 4,
    ensures
        r == le32(buf@),
{
    LittleEndian::read_u32(buf)
}

/// `byteorder::BigEndian::write_u16` into a buffer of exactly two bytes.
#[verifier::external_body]
pub(crate) fn write_be16(n: u16) -> (r: [u8; 2])
    ensures
        r@ == be16_bytes(n as int),
{
    let mut buf = [0u8; 2];
    BigEndian::write_u16(&mut buf, n);
    buf
}

/// `byteorder::BigEndian::write_u24` into a buffer of exactly three bytes. It
/// panics on a value of more than 24 bits, which `requires` excludes.
#[verifier::external_body]
pub(crate) fn write_be24(n: u32) -> (r: [u8; 3])
    requires
        n < 0x100_0000,
    ensures
        r@ == be24_bytes(n as int),
{
    let mut buf = [0u8; 3];
    BigEndian::write_u24(&mut buf, n);
    buf
}

/// `byteorder::BigEndian::write_u32` into a buffer of exactly four bytes.
#[verifier::external_body]
pub(crate) fn write_be32(n: u32) -> (r: [u8; 4])
    ensures
        r@ == be32_bytes(n as int),
{
    let mut buf = [0u8; 4];
    BigEndian::write_u32(&mut buf, n);
    buf
}

/// `byteorder::LittleEndian::write_u32` into a buffer of exactly four bytes.
#[verifier::external_body]
pub(crate) fn write_le32(n: u32) -> (r: [u8; 4])
    ensures
        r@ == le32_bytes(n as int),
{
    let mut buf = [0u8; 4];
    LittleEndian::write_u32(&mut buf, n);
    buf
}

} // verus!
