//! Readers and writers for the scalar fields of the OS wire structures.
//!
//! The kernel's socket structures store multi-byte scalars in the host's
//! byte order (little-endian on the platforms this library targets), while
//! ports and addresses inside socket addresses are big-endian (network
//! order). Each reader and writer states the bytes it touches as arithmetic
//! over the value, so that the codec's round trips can be proved exactly.
use vstd::prelude::*;

verus! {

/// The value of a little-endian 16-bit field with bytes `b0, b1`.
pub open spec fn le16(b0: u8, b1: u8) -> u16 {
    (b0 + b1 * 0x100) as u16
}

/// The value of a big-endian 16-bit field with bytes `b0, b1`.
pub open spec fn be16(b0: u8, b1: u8) -> u16 {
    (b0 * 0x100 + b1) as u16
}

/// The value of a little-endian 32-bit field with bytes `b0..b3`.
pub open spec fn le32(b0: u8, b1: u8, b2: u8, b3: u8) -> u32 {
    (b0 + b1 * 0x100 + b2 * 0x1_0000 + b3 * 0x100_0000) as u32
}

/// The value of a big-endian 32-bit field with bytes `b0..b3`.
pub open spec fn be32(b0: u8, b1: u8, b2: u8, b3: u8) -> u32 {
    (b0 * 0x100_0000 + b1 * 0x1_0000 + b2 * 0x100 + b3) as u32
}

/// The signed reading of a 32-bit field: two's complement of `le32`.
pub open spec fn le32_signed(b0: u8, b1: u8, b2: u8, b3: u8) -> i32 {
    if le32(b0, b1, b2, b3) <= i32::MAX as u32 {
        le32(b0, b1, b2, b3) as i32
    } else {
        (le32(b0, b1, b2, b3) - 0x1_0000_0000) as i32
    }
}

/// The little-endian 16-bit field at offset `off` of `b`.
pub open spec fn le16_at(b: Seq<u8>, off: int) -> u16 {
    le16(b[off], b[off + 1])
}

/// The big-endian 16-bit field at offset `off` of `b`.
pub open spec fn be16_at(b: Seq<u8>, off: int) -> u16 {
    be16(b[off], b[off + 1])
}

/// The little-endian 32-bit field at offset `off` of `b`.
pub open spec fn le32_at(b: Seq<u8>, off: int) -> u32 {
    le32(b[off], b[off + 1], b[off + 2], b[off + 3])
}

/// The big-endian 32-bit field at offset `off` of `b`.
pub open spec fn be32_at(b: Seq<u8>, off: int) -> u32 {
    be32(b[off], b[off + 1], b[off + 2], b[off + 3])
}

/// The signed 32-bit field at offset `off` of `b`.
pub open spec fn le32_signed_at(b: Seq<u8>, off: int) -> i32 {
    le32_signed(b[off], b[off + 1], b[off + 2], b[off + 3])
}

/// The big-endian 128-bit field at offset `off` of `b`.
pub open spec fn be128_at(b: Seq<u8>, off: int) -> u128 {
    (b[off] * 0x0100_0000_0000_0000_0000_0000_0000_0000u128
        + b[off + 1] * 0x0001_0000_0000_0000_0000_0000_0000_0000u128
        + b[off + 2] * 0x0100_0000_0000_0000_0000_0000_0000u128
        + b[off + 3] * 0x0001_0000_0000_0000_0000_0000_0000u128
        + b[off + 4] * 0x0100_0000_0000_0000_0000_0000u128
        + b[off + 5] * 0x0001_0000_0000_0000_0000_0000u128
        + b[off + 6] * 0x0100_0000_0000_0000_0000u128
        + b[off + 7] * 0x0001_0000_0000_0000_0000u128
        + b[off + 8] * 0x0100_0000_0000_0000u128
        + b[off + 9] * 0x0001_0000_0000_0000u128
        + b[off + 10] * 0x0100_0000_0000u128
        + b[off + 11] * 0x0001_0000_0000u128
        + b[off + 12] * 0x0100_0000u128
        + b[off + 13] * 0x0001_0000u128
        + b[off + 14] * 0x0100u128
        + b[off + 15]) as u128
}

/// The two big-endian bytes of `x`.
pub open spec fn be16_bytes(x: u16) -> Seq<u8> {
    seq![(x / 0x100) as u8, (x % 0x100) as u8]
}

/// The four little-endian bytes of `x`.
pub open spec fn le32_bytes(x: u32) -> Seq<u8> {
    seq![
        (x % 0x100) as u8,
        ((x / 0x100) % 0x100) as u8,
        ((x / 0x1_0000) % 0x100) as u8,
        ((x / 0x100_0000) % 0x100) as u8,
    ]
}

/// The four big-endian bytes of `x`.
pub open spec fn be32_bytes(x: u32) -> Seq<u8> {
    seq![
        ((x / 0x100_0000) % 0x100) as u8,
        ((x / 0x1_0000) % 0x100) as u8,
        ((x / 0x100) % 0x100) as u8,
        (x % 0x100) as u8,
    ]
}

/// The sixteen big-endian bytes of `x`.
pub open spec fn be128_bytes(x: u128) -> Seq<u8> {
    seq![
        ((x / 0x0100_0000_0000_0000_0000_0000_0000_0000u128) % 0x100) as u8,
        ((x / 0x0001_0000_0000_0000_0000_0000_0000_0000u128) % 0x100) as u8,
        ((x / 0x0100_0000_0000_0000_0000_0000_0000u128) % 0x100) as u8,
        ((x / 0x0001_0000_0000_0000_0000_0000_0000u128) % 0x100) as u8,
        ((x / 0x0100_0000_0000_0000_0000_0000u128) % 0x100) as u8,
        ((x / 0x0001_0000_0000_0000_0000_0000u128) % 0x100) as u8,
        ((x / 0x0100_0000_0000_0000_0000u128) % 0x100) as u8,
        ((x / 0x0001_0000_0000_0000_0000u128) % 0x100) as u8,
        ((x / 0x0100_0000_0000_0000u128) % 0x100) as u8,
        ((x / 0x0001_0000_0000_0000u128) % 0x100) as u8,
        ((x / 0x0100_0000_0000u128) % 0x100) as u8,
        ((x / 0x0001_0000_0000u128) % 0x100) as u8,
        ((x / 0x0100_0000u128) % 0x100) as u8,
        ((x / 0x0001_0000u128) % 0x100) as u8,
        ((x / 0x0100u128) % 0x100) as u8,
        (x % 0x100) as u8,
    ]
}

/// Reads the little-endian 16-bit field at `off`.
pub fn read_u16_le(buf: &[u8], off: usize) -> (r: u16)
    requires
        off + 2 <= buf@.len(),
    ensures
        r == le16_at(buf@, off as int),
{
    let b0 = buf[off] as u16;
    let b1 = buf[off + 1] as u16;
    b0 + b1 * 0x100
}

/// Reads the big-endian 16-bit field at `off`.
pub fn read_u16_be(buf: &[u8], off: usize) -> (r: u16)
    requires
        off + 2 <= buf@.len(),
    ensures
        r == be16_at(buf@, off as int),
{
    let b0 = buf[off] as u16;
    let b1 = buf[off + 1] as u16;
    b0 * 0x100 + b1
}

/// Reads the little-endian 32-bit field at `off`.
pub fn read_u32_le(buf: &[u8], off: usize) -> (r: u32)
    requires
        off + 4 <= buf@.len(),
    ensures
        r == le32_at(buf@, off as int),
{
    let b0 = buf[off] as u32;
    let b1 = buf[off + 1] as u32;
    let b2 = buf[off + 2] as u32;
    let b3 = buf[off + 3] as u32;
    b0 + b1 * 0x100 + b2 * 0x1_0000 + b3 * 0x100_0000
}

/// Reads the big-endian 32-bit field at `off`.
pub fn read_u32_be(buf: &[u8], off: usize) -> (r: u32)
    requires
        off + 4 <= buf@.len(),
    ensures
        r == be32_at(buf@, off as int),
{
    let b0 = buf[off] as u32;
    let b1 = buf[off + 1] as u32;
    let b2 = buf[off + 2] as u32;
    let b3 = buf[off + 3] as u32;
    b0 * 0x100_0000 + b1 * 0x1_0000 + b2 * 0x100 + b3
}

/// Reads the 32-bit field at `off` as a signed value.
pub fn read_i32_le(buf: &[u8], off: usize) -> (r: i32)
    requires
        off + 4 <= buf@.len(),
    ensures
        r == le32_signed_at(buf@, off as int),
{
    let u = read_u32_le(buf, off);
    if u <= 0x7fff_ffff {
        u as i32
    } else {
        -((0xffff_ffffu32 - u) as i32) - 1
    }
}

/// Reads the big-endian 128-bit field at `off`.
pub fn read_u128_be(buf: &[u8], off: usize) -> (r: u128)
    requires
        off + 16 <= buf@.len(),
    ensures
        r == be128_at(buf@, off as int),
{
    let b0 = buf[off] as u128;
    let b1 = buf[off + 1] as u128;
    let b2 = buf[off + 2] as u128;
    let b3 = buf[off + 3] as u128;
    let b4 = buf[off + 4] as u128;
    let b5 = buf[off + 5] as u128;
    let b6 = buf[off + 6] as u128;
    let b7 = buf[off + 7] as u128;
    let b8 = buf[off + 8] as u128;
    let b9 = buf[off + 9] as u128;
    let b10 = buf[off + 10] as u128;
    let b11 = buf[off + 11] as u128;
    let b12 = buf[off + 12] as u128;
    let b13 = buf[off + 13] as u128;
    let b14 = buf[off + 14] as u128;
    let b15 = buf[off + 15] as u128;
    b0 * 0x0100_0000_0000_0000_0000_0000_0000_0000u128
        + b1 * 0x0001_0000_0000_0000_0000_0000_0000_0000u128
        + b2 * 0x0100_0000_0000_0000_0000_0000_0000u128
        + b3 * 0x0001_0000_0000_0000_0000_0000_0000u128
        + b4 * 0x0100_0000_0000_0000_0000_0000u128
        + b5 * 0x0001_0000_0000_0000_0000_0000u128
        + b6 * 0x0100_0000_0000_0000_0000u128
        + b7 * 0x0001_0000_0000_0000_0000u128
        + b8 * 0x0100_0000_0000_0000u128
        + b9 * 0x0001_0000_0000_0000u128
        + b10 * 0x0100_0000_0000u128
        + b11 * 0x0001_0000_0000u128
        + b12 * 0x0100_0000u128
        + b13 * 0x0001_0000u128
        + b14 * 0x0100u128
        + b15
}

/// Appends the two little-endian bytes of `x` to `out`.
pub fn push_u16_le(out: &mut Vec<u8>, x: u16)
    ensures
        final(out)@ =~= old(out)@ + seq![(x % 0x100) as u8, (x / 0x100) as u8],
{
    out.push((x % 0x100) as u8);
    out.push((x / 0x100) as u8);
}

/// Appends the two big-endian bytes of `x` to `out`.
pub fn push_u16_be(out: &mut Vec<u8>, x: u16)
    ensures
        final(out)@ =~= old(out)@ + be16_bytes(x),
{
    out.push((x / 0x100) as u8);
    out.push((x % 0x100) as u8);
}

/// Appends the four little-endian bytes of `x` to `out`.
pub fn push_u32_le(out: &mut Vec<u8>, x: u32)
    ensures
        final(out)@ =~= old(out)@ + le32_bytes(x),
{
    out.push((x % 0x100) as u8);
    out.push(((x / 0x100) % 0x100) as u8);
    out.push(((x / 0x1_0000) % 0x100) as u8);
    out.push(((x / 0x100_0000) % 0x100) as u8);
}

/// Appends the four big-endian bytes of `x` to `out`.
pub fn push_u32_be(out: &mut Vec<u8>, x: u32)
    ensures
        final(out)@ =~= old(out)@ + be32_bytes(x),
{
    out.push(((x / 0x100_0000) % 0x100) as u8);
    out.push(((x / 0x1_0000) % 0x100) as u8);
    out.push(((x / 0x100) % 0x100) as u8);
    out.push((x % 0x100) as u8);
}

/// Appends the sixteen big-endian bytes of `x` to `out`.
pub fn push_u128_be(out: &mut Vec<u8>, x: u128)
    ensures
        final(out)@ =~= old(out)@ + be128_bytes(x),
{
    out.push(((x / 0x0100_0000_0000_0000_0000_0000_0000_0000u128) % 0x100) as u8);
    out.push(((x / 0x0001_0000_0000_0000_0000_0000_0000_0000u128) % 0x100) as u8);
    out.push(((x / 0x0100_0000_0000_0000_0000_0000_0000u128) % 0x100) as u8);
    out.push(((x / 0x0001_0000_0000_0000_0000_0000_0000u128) % 0x100) as u8);
    out.push(((x / 0x0100_0000_0000_0000_0000_0000u128) % 0x100) as u8);
    out.push(((x / 0x0001_0000_0000_0000_0000_0000u128) % 0x100) as u8);
    out.push(((x / 0x0100_0000_0000_0000_0000u128) % 0x100) as u8);
    out.push(((x / 0x0001_0000_0000_0000_0000u128) % 0x100) as u8);
    out.push(((x / 0x0100_0000_0000_0000u128) % 0x100) as u8);
    out.push(((x / 0x0001_0000_0000_0000u128) % 0x100) as u8);
    out.push(((x / 0x0100_0000_0000u128) % 0x100) as u8);
    out.push(((x / 0x0001_0000_0000u128) % 0x100) as u8);
    out.push(((x / 0x0100_0000u128) % 0x100) as u8);
    out.push(((x / 0x0001_0000u128) % 0x100) as u8);
    out.push(((x / 0x0100u128) % 0x100) as u8);
    out.push((x % 0x100) as u8);
}

/// Where a buffer holds the big-endian bytes of a 16-bit value, reading the
/// field at that offset gives the value back.
pub proof fn lemma_be16_bytes_at(x: u16, b: Seq<u8>, off: int)
    requires
        0 <= off,
        off + 2 <= b.len(),
        forall|i: int| 0 <= i < 2 ==> b[off + i] == be16_bytes(x)[i],
    ensures
        be16_at(b, off) == x,
{
    assert(b[off] == be16_bytes(x)[0]);
    assert(b[off + 1] == be16_bytes(x)[1]);
    lemma_be16_recompose(x);
    assert(((x / 0x100) as u8) == x / 0x100);
    assert(((x % 0x100) as u8) == x % 0x100);
}

/// Where a buffer holds the little-endian bytes of a 32-bit value, reading
/// the field at that offset gives the value back.
pub proof fn lemma_le32_bytes_at(x: u32, b: Seq<u8>, off: int)
    requires
        0 <= off,
        off + 4 <= b.len(),
        forall|i: int| 0 <= i < 4 ==> b[off + i] == le32_bytes(x)[i],
    ensures
        le32_at(b, off) == x,
{
    assert(b[off] == le32_bytes(x)[0]);
    assert(b[off + 1] == le32_bytes(x)[1]);
    assert(b[off + 2] == le32_bytes(x)[2]);
    assert(b[off + 3] == le32_bytes(x)[3]);
    lemma_le32_recompose(x);
}

/// Where a buffer holds the big-endian bytes of a 32-bit value, reading the
/// field at that offset gives the value back.
pub proof fn lemma_be32_bytes_at(x: u32, b: Seq<u8>, off: int)
    requires
        0 <= off,
        off + 4 <= b.len(),
        forall|i: int| 0 <= i < 4 ==> b[off + i] == be32_bytes(x)[i],
    ensures
        be32_at(b, off) == x,
{
    assert(b[off] == be32_bytes(x)[0]);
    assert(b[off + 1] == be32_bytes(x)[1]);
    assert(b[off + 2] == be32_bytes(x)[2]);
    assert(b[off + 3] == be32_bytes(x)[3]);
    lemma_be32_recompose(x);
}

/// Where a buffer holds the big-endian bytes of a 128-bit value, reading
/// the field at that offset gives the value back.
#[verifier::rlimit(60)]
pub proof fn lemma_be128_bytes_at(x: u128, b: Seq<u8>, off: int)
    requires
        0 <= off,
        off + 16 <= b.len(),
        forall|i: int| 0 <= i < 16 ==> b[off + i] == be128_bytes(x)[i],
    ensures
        be128_at(b, off) == x,
{
    assert(b[off] == be128_bytes(x)[0]);
    assert(b[off + 1] == be128_bytes(x)[1]);
    assert(b[off + 2] == be128_bytes(x)[2]);
    assert(b[off + 3] == be128_bytes(x)[3]);
    assert(b[off + 4] == be128_bytes(x)[4]);
    assert(b[off + 5] == be128_bytes(x)[5]);
    assert(b[off + 6] == be128_bytes(x)[6]);
    assert(b[off + 7] == be128_bytes(x)[7]);
    assert(b[off + 8] == be128_bytes(x)[8]);
    assert(b[off + 9] == be128_bytes(x)[9]);
    assert(b[off + 10] == be128_bytes(x)[10]);
    assert(b[off + 11] == be128_bytes(x)[11]);
    assert(b[off + 12] == be128_bytes(x)[12]);
    assert(b[off + 13] == be128_bytes(x)[13]);
    assert(b[off + 14] == be128_bytes(x)[14]);
    assert(b[off + 15] == be128_bytes(x)[15]);
    lemma_be128_recompose(x);
}

/// Recomposing the big-endian bytes of a 16-bit value gives it back.
pub proof fn lemma_be16_recompose(x: u16)
    by (bit_vector)
    ensures
        (x / 0x100) * 0x100 + x % 0x100 == x,
        x / 0x100 < 0x100,
{
}

/// Recomposing the little-endian bytes of a 32-bit value gives it back.
pub proof fn lemma_le32_recompose(x: u32)
    by (bit_vector)
    ensures
        x % 0x100 + ((x / 0x100) % 0x100) * 0x100 + ((x / 0x1_0000) % 0x100) * 0x1_0000 + ((x
            / 0x100_0000) % 0x100) * 0x100_0000 == x,
{
}

/// Recomposing the big-endian bytes of a 32-bit value gives it back.
pub proof fn lemma_be32_recompose(x: u32)
    by (bit_vector)
    ensures
        ((x / 0x100_0000) % 0x100) * 0x100_0000 + ((x / 0x1_0000) % 0x100) * 0x1_0000 + ((x
            / 0x100) % 0x100) * 0x100 + x % 0x100 == x,
{
}

/// Recomposing the big-endian bytes of a 128-bit value gives it back.
pub proof fn lemma_be128_recompose(x: u128)
    by (bit_vector)
    ensures
        ((x / 0x0100_0000_0000_0000_0000_0000_0000_0000u128) % 0x100)
            * 0x0100_0000_0000_0000_0000_0000_0000_0000u128 + ((x
            / 0x0001_0000_0000_0000_0000_0000_0000_0000u128) % 0x100)
            * 0x0001_0000_0000_0000_0000_0000_0000_0000u128 + ((x
            / 0x0100_0000_0000_0000_0000_0000_0000u128) % 0x100)
            * 0x0100_0000_0000_0000_0000_0000_0000u128 + ((x
            / 0x0001_0000_0000_0000_0000_0000_0000u128) % 0x100)
            * 0x0001_0000_0000_0000_0000_0000_0000u128 + ((x
            / 0x0100_0000_0000_0000_0000_0000u128) % 0x100) * 0x0100_0000_0000_0000_0000_0000u128
            + ((x / 0x0001_0000_0000_0000_0000_0000u128) % 0x100)
            * 0x0001_0000_0000_0000_0000_0000u128 + ((x / 0x0100_0000_0000_0000_0000u128) % 0x100)
            * 0x0100_0000_0000_0000_0000u128 + ((x / 0x0001_0000_0000_0000_0000u128) % 0x100)
            * 0x0001_0000_0000_0000_0000u128 + ((x / 0x0100_0000_0000_0000u128) % 0x100)
            * 0x0100_0000_0000_0000u128 + ((x / 0x0001_0000_0000_0000u128) % 0x100)
            * 0x0001_0000_0000_0000u128 + ((x / 0x0100_0000_0000u128) % 0x100)
            * 0x0100_0000_0000u128 + ((x / 0x0001_0000_0000u128) % 0x100) * 0x0001_0000_0000u128 + (
        (x / 0x0100_0000u128) % 0x100) * 0x0100_0000u128 + ((x / 0x0001_0000u128) % 0x100)
            * 0x0001_0000u128 + ((x / 0x0100u128) % 0x100) * 0x0100u128 + x % 0x100 == x,
{
}

} // verus!
