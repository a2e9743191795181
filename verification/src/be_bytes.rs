//! Big-endian encoding of unsigned integers into byte buffers.

use vstd::prelude::*;

verus! {

/// The byte of `v` at the position whose weight is `divisor`.
pub open spec fn byte_at(v: int, divisor: int) -> u8 {
    ((v / divisor) % 256) as u8
}

pub open spec fn be16(v: int) -> Seq<u8> {
    seq![byte_at(v, 0x100), byte_at(v, 1)]
}

pub open spec fn be24(v: int) -> Seq<u8> {
    seq![byte_at(v, 0x1_0000), byte_at(v, 0x100), byte_at(v, 1)]
}

pub open spec fn be32(v: int) -> Seq<u8> {
    seq![byte_at(v, 0x100_0000), byte_at(v, 0x1_0000), byte_at(v, 0x100), byte_at(v, 1)]
}

pub open spec fn be48(v: int) -> Seq<u8> {
    seq![
        byte_at(v, 0x100_0000_0000),
        byte_at(v, 0x1_0000_0000),
        byte_at(v, 0x100_0000),
        byte_at(v, 0x1_0000),
        byte_at(v, 0x100),
        byte_at(v, 1),
    ]
}

pub open spec fn be64(v: int) -> Seq<u8> {
    seq![
        byte_at(v, 0x100_0000_0000_0000),
        byte_at(v, 0x1_0000_0000_0000),
        byte_at(v, 0x100_0000_0000),
        byte_at(v, 0x1_0000_0000),
        byte_at(v, 0x100_0000),
        byte_at(v, 0x1_0000),
        byte_at(v, 0x100),
        byte_at(v, 1),
    ]
}

/// The number that four big-endian bytes encode.
pub open spec fn be32_value(s: Seq<u8>) -> int {
    s[0] * 0x100_0000 + s[1] * 0x1_0000 + s[2] * 0x100 + s[3]
}

/// Law: four big-endian bytes decode back to the 32-bit value they encode.
pub proof fn lemma_be32_round_trip(v: u32)
    ensures
        be32(v as int).len() == 4,
        be32_value(be32(v as int)) == v,
{
    let x = v as int;
    let b0 = (x / 0x100_0000) % 256;
    let b1 = (x / 0x1_0000) % 256;
    let b2 = (x / 0x100) % 256;
    let b3 = x % 256;
    assert(b0 * 0x100_0000 + b1 * 0x1_0000 + b2 * 0x100 + b3 == x) by (nonlinear_arith)
        requires
            0 <= x < 0x1_0000_0000,
            b0 == (x / 0x100_0000) % 256,
            b1 == (x / 0x1_0000) % 256,
            b2 == (x / 0x100) % 256,
            b3 == x % 256,
    {
        assert(x / 0x100_0000 < 256);
    }
}

/// Appends `v`.
pub fn put_u8(buf: &mut Vec<u8>, v: u8)
    ensures
        final(buf)@ == old(buf)@.push(v),
{
    buf.push(v);
}

/// Appends `v` as two big-endian bytes.
pub fn put_u16(buf: &mut Vec<u8>, v: u16)
    ensures
        final(buf)@ == old(buf)@ + be16(v as int),
{
    buf.push((v / 0x100) as u8);
    buf.push((v % 0x100) as u8);
    assert(final(buf)@ =~= old(buf)@ + be16(v as int));
}

/// Appends the low 24 bits of `v` as three big-endian bytes.
pub fn put_u24(buf: &mut Vec<u8>, v: u32)
    ensures
        final(buf)@ == old(buf)@ + be24(v as int),
{
    buf.push((v / 0x1_0000 % 0x100) as u8);
    buf.push((v / 0x100 % 0x100) as u8);
    buf.push((v % 0x100) as u8);
    assert(final(buf)@ =~= old(buf)@ + be24(v as int));
}

/// Appends `v` as four big-endian bytes.
pub fn put_u32(buf: &mut Vec<u8>, v: u32)
    ensures
        final(buf)@ == old(buf)@ + be32(v as int),
{
    buf.push((v / 0x100_0000 % 0x100) as u8);
    buf.push((v / 0x1_0000 % 0x100) as u8);
    buf.push((v / 0x100 % 0x100) as u8);
    buf.push((v % 0x100) as u8);
    assert(final(buf)@ =~= old(buf)@ + be32(v as int));
}

/// Appends the low 32 bits of `v` as four big-endian bytes.
pub fn put_low_u32(buf: &mut Vec<u8>, v: u128)
    ensures
        final(buf)@ == old(buf)@ + be32(v as int),
{
    buf.push((v / 0x100_0000 % 0x100) as u8);
    buf.push((v / 0x1_0000 % 0x100) as u8);
    buf.push((v / 0x100 % 0x100) as u8);
    buf.push((v % 0x100) as u8);
    assert(final(buf)@ =~= old(buf)@ + be32(v as int));
}

/// Appends the low 48 bits of `v` as six big-endian bytes.
pub fn put_u48(buf: &mut Vec<u8>, v: u64)
    ensures
        final(buf)@ == old(buf)@ + be48(v as int),
{
    buf.push((v / 0x100_0000_0000 % 0x100) as u8);
    buf.push((v / 0x1_0000_0000 % 0x100) as u8);
    buf.push((v / 0x100_0000 % 0x100) as u8);
    buf.push((v / 0x1_0000 % 0x100) as u8);
    buf.push((v / 0x100 % 0x100) as u8);
    buf.push((v % 0x100) as u8);
    assert(final(buf)@ =~= old(buf)@ + be48(v as int));
}

/// Appends `v` as eight big-endian bytes.
pub fn put_u64(buf: &mut Vec<u8>, v: u64)
    ensures
        final(buf)@ == old(buf)@ + be64(v as int),
{
    buf.push((v / 0x100_0000_0000_0000 % 0x100) as u8);
    buf.push((v / 0x1_0000_0000_0000 % 0x100) as u8);
    buf.push((v / 0x100_0000_0000 % 0x100) as u8);
    buf.push((v / 0x1_0000_0000 % 0x100) as u8);
    buf.push((v / 0x100_0000 % 0x100) as u8);
    buf.push((v / 0x1_0000 % 0x100) as u8);
    buf.push((v / 0x100 % 0x100) as u8);
    buf.push((v % 0x100) as u8);
    assert(final(buf)@ =~= old(buf)@ + be64(v as int));
}

} // verus!
