//! Fixed-width big-endian integers as they travel on the wire.
use vstd::prelude::*;

verus! {

/// The four bytes of `x`, most significant first.
pub open spec fn u32_be(x: u32) -> Seq<u8> {
    seq![(x >> 24u32) as u8, (x >> 16u32) as u8, (x >> 8u32) as u8, x as u8]
}

/// The two bytes of `x`, most significant first.
pub open spec fn u16_be(x: u16) -> Seq<u8> {
    seq![(x >> 8u16) as u8, x as u8]
}

/// Wire form of a signed 32-bit integer: its two's-complement bits, big-endian.
pub open spec fn i32_be(v: i32) -> Seq<u8> {
    u32_be(v as u32)
}

/// Wire form of a signed 16-bit integer: its two's-complement bits, big-endian.
pub open spec fn i16_be(v: i16) -> Seq<u8> {
    u16_be(v as u16)
}

/// The unsigned value of four big-endian bytes.
pub open spec fn u32_from_be(b0: u8, b1: u8, b2: u8, b3: u8) -> u32 {
    ((b0 as u32) << 24u32) | ((b1 as u32) << 16u32) | ((b2 as u32) << 8u32) | (b3 as u32)
}

/// The unsigned value of two big-endian bytes.
pub open spec fn u16_from_be(b0: u8, b1: u8) -> u16 {
    ((b0 as u16) << 8u16) | (b1 as u16)
}

/// The signed 32-bit integer whose wire form starts at `b[at]`.
pub open spec fn i32_at(b: Seq<u8>, at: int) -> i32 {
    u32_from_be(b[at], b[at + 1], b[at + 2], b[at + 3]) as i32
}

/// The signed 16-bit integer whose wire form starts at `b[at]`.
pub open spec fn i16_at(b: Seq<u8>, at: int) -> i16 {
    u16_from_be(b[at], b[at + 1]) as i16
}

proof fn lemma_u32_bits(x: u32)
    ensures
        u32_from_be((x >> 24u32) as u8, (x >> 16u32) as u8, (x >> 8u32) as u8, x as u8) == x,
{
    assert(((((x >> 24u32) as u8) as u32) << 24u32) | ((((x >> 16u32) as u8) as u32) << 16u32)
        | ((((x >> 8u32) as u8) as u32) << 8u32) | ((x as u8) as u32) == x) by (bit_vector);
}

proof fn lemma_u16_bits(x: u16)
    ensures
        u16_from_be((x >> 8u16) as u8, x as u8) == x,
{
    assert(((((x >> 8u16) as u8) as u16) << 8u16) | ((x as u8) as u16) == x) by (bit_vector);
}

/// Reading back the wire form of a 32-bit integer gives the integer.
pub proof fn lemma_i32_round_trip(v: i32)
    ensures
        i32_be(v).len() == 4,
        i32_at(i32_be(v), 0) == v,
{
    lemma_u32_bits(v as u32);
    assert((v as u32) as i32 == v) by (bit_vector);
}

/// Reading back the wire form of a 16-bit integer gives the integer.
pub proof fn lemma_i16_round_trip(v: i16)
    ensures
        i16_be(v).len() == 2,
        i16_at(i16_be(v), 0) == v,
{
    lemma_u16_bits(v as u16);
    assert((v as u16) as i16 == v) by (bit_vector);
}

/// Writing back the integer read from four bytes gives those bytes.
pub proof fn lemma_i32_bytes_round_trip(b: Seq<u8>, at: int)
    requires
        0 <= at,
        at + 4 <= b.len(),
    ensures
        i32_be(i32_at(b, at)) == b.subrange(at, at + 4),
{
    let (b0, b1, b2, b3) = (b[at], b[at + 1], b[at + 2], b[at + 3]);
    let x = u32_from_be(b0, b1, b2, b3);
    assert((x as i32) as u32 == x) by (bit_vector);
    assert(((x >> 24u32) as u8) == b0 && ((x >> 16u32) as u8) == b1 && ((x >> 8u32) as u8) == b2
        && (x as u8) == b3) by (bit_vector)
        requires
            x == ((b0 as u32) << 24u32) | ((b1 as u32) << 16u32) | ((b2 as u32) << 8u32) | (
            b3 as u32),
    ;
    assert(i32_be(i32_at(b, at)) =~= b.subrange(at, at + 4));
}

/// Writing back the integer read from two bytes gives those bytes.
pub proof fn lemma_i16_bytes_round_trip(b: Seq<u8>, at: int)
    requires
        0 <= at,
        at + 2 <= b.len(),
    ensures
        i16_be(i16_at(b, at)) == b.subrange(at, at + 2),
{
    let (b0, b1) = (b[at], b[at + 1]);
    let x = u16_from_be(b0, b1);
    assert((x as i16) as u16 == x) by (bit_vector);
    assert(((x >> 8u16) as u8) == b0 && (x as u8) == b1) by (bit_vector)
        requires
            x == ((b0 as u16) << 8u16) | (b1 as u16),
    ;
    assert(i16_be(i16_at(b, at)) =~= b.subrange(at, at + 2));
}

/// Appends the wire form of `v` to `buf`.
pub fn push_i32(buf: &mut Vec<u8>, v: i32)
    ensures
        final(buf)@ == old(buf)@ + i32_be(v),
{
    let x = v as u32;
    buf.push((x >> 24u32) as u8);
    buf.push((x >> 16u32) as u8);
    buf.push((x >> 8u32) as u8);
    buf.push(x as u8);
    assert(final(buf)@ =~= old(buf)@ + i32_be(v));
}

/// Appends the wire form of `v` to `buf`.
pub fn push_i16(buf: &mut Vec<u8>, v: i16)
    ensures
        final(buf)@ == old(buf)@ + i16_be(v),
{
    let x = v as u16;
    buf.push((x >> 8u16) as u8);
    buf.push(x as u8);
    assert(final(buf)@ =~= old(buf)@ + i16_be(v));
}

/// Reads the signed 32-bit integer whose wire form starts at `b[at]`.
pub fn get_i32(b: &[u8], at: usize) -> (r: i32)
    requires
        at + 4 <= b@.len(),
    ensures
        r == i32_at(b@, at as int),
{
    let x = ((b[at] as u32) << 24u32) | ((b[at + 1] as u32) << 16u32) | ((b[at + 2] as u32)
        << 8u32) | (b[at + 3] as u32);
    x as i32
}

/// Reads the signed 16-bit integer whose wire form starts at `b[at]`.
pub fn get_i16(b: &[u8], at: usize) -> (r: i16)
    requires
        at + 2 <= b@.len(),
    ensures
        r == i16_at(b@, at as int),
{
    let x = ((b[at] as u16) << 8u16) | (b[at + 1] as u16);
    x as i16
}

} // verus!
