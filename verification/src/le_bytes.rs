//! Little-endian byte order of the integers that travel in packets.
//!
//! The byte sequences are stated arithmetically (quotients and remainders by
//! powers of 256); the executable routines use shifts and masks and are
//! proved to agree. Signed values travel in two's complement.

use vstd::prelude::*;

verus! {

/// The two bytes of `x`, low byte first.
pub open spec fn le16(x: u16) -> Seq<u8> {
    seq![(x % 256) as u8, (x / 256) as u8]
}

/// The four bytes of `x`, low byte first.
pub open spec fn le32(x: u32) -> Seq<u8> {
    seq![
        (x % 256) as u8,
        (x / 256 % 256) as u8,
        (x / 65536 % 256) as u8,
        (x / 16777216) as u8,
    ]
}

/// The value whose low byte is `lo` and whose high byte is `hi`.
pub open spec fn from_le16(lo: u8, hi: u8) -> u16 {
    (lo + 256 * hi) as u16
}

/// The value of four bytes, low byte first.
pub open spec fn from_le32(b0: u8, b1: u8, b2: u8, b3: u8) -> u32 {
    (b0 + 256 * b1 + 65536 * b2 + 16777216 * b3) as u32
}

/// Two's complement of a signed value, as the unsigned value of the same bits.
pub open spec fn twos_complement(x: i32) -> u32 {
    if x < 0 {
        (x + 0x1_0000_0000) as u32
    } else {
        x as u32
    }
}

/// The signed value that a two's complement bit pattern stands for.
pub open spec fn from_twos_complement(u: u32) -> i32 {
    if u >= 0x8000_0000 {
        (u - 0x1_0000_0000) as i32
    } else {
        u as i32
    }
}

/// The four bytes of a signed value, low byte first.
pub open spec fn le32_signed(x: i32) -> Seq<u8> {
    le32(twos_complement(x))
}

/// The signed value of four bytes, low byte first.
pub open spec fn from_le32_signed(b0: u8, b1: u8, b2: u8, b3: u8) -> i32 {
    from_twos_complement(from_le32(b0, b1, b2, b3))
}

proof fn lemma_split16(x: u16)
    by (bit_vector)
    ensures
        x & 0xFF == x % 256,
        x >> 8 == x / 256,
{
}

proof fn lemma_split32(x: u32)
    by (bit_vector)
    ensures
        x & 0xFF == x % 256,
        (x >> 8) & 0xFF == x / 256 % 256,
        (x >> 16) & 0xFF == x / 65536 % 256,
        x >> 24 == x / 16777216,
{
}

proof fn lemma_join16(lo: u8, hi: u8)
    by (bit_vector)
    ensures
        (lo as u16) | ((hi as u16) << 8) == (lo + 256 * hi) as u16,
{
}

proof fn lemma_join32(b0: u8, b1: u8, b2: u8, b3: u8)
    by (bit_vector)
    ensures
        (b0 as u32) | ((b1 as u32) << 8) | ((b2 as u32) << 16) | ((b3 as u32) << 24) == (b0 + 256
            * b1 + 65536 * b2 + 16777216 * b3) as u32,
{
}

proof fn lemma_signed_to_bits(x: i32)
    by (bit_vector)
    ensures
        x < 0 ==> x as u32 == (x + 0x1_0000_0000) as u32,
{
}

proof fn lemma_bits_to_signed(u: u32)
    by (bit_vector)
    ensures
        u >= 0x8000_0000 ==> u as i32 == (u - 0x1_0000_0000) as i32,
{
}

/// Splits `x` into its two bytes, low byte first.
pub fn u16_to_le(x: u16) -> (bytes: [u8; 2])
    ensures
        bytes@ == le16(x),
{
    proof {
        lemma_split16(x);
    }
    let bytes: [u8; 2] = [(x & 0xFF) as u8, (x >> 8) as u8];
    assert(bytes@ =~= le16(x));
    bytes
}

/// Splits `x` into its four bytes, low byte first.
pub fn u32_to_le(x: u32) -> (bytes: [u8; 4])
    ensures
        bytes@ == le32(x),
{
    proof {
        lemma_split32(x);
    }
    let bytes: [u8; 4] = [
        (x & 0xFF) as u8,
        ((x >> 8) & 0xFF) as u8,
        ((x >> 16) & 0xFF) as u8,
        (x >> 24) as u8,
    ];
    assert(bytes@ =~= le32(x));
    bytes
}

/// Splits a signed value into the four bytes of its two's complement.
pub fn i32_to_le(x: i32) -> (bytes: [u8; 4])
    ensures
        bytes@ == le32_signed(x),
{
    proof {
        lemma_signed_to_bits(x);
    }
    u32_to_le(x as u32)
}

/// Joins two bytes, low byte first.
pub fn u16_from_le(lo: u8, hi: u8) -> (x: u16)
    ensures
        x == from_le16(lo, hi),
{
    proof {
        lemma_join16(lo, hi);
    }
    (lo as u16) | ((hi as u16) << 8)
}

/// Joins four bytes, low byte first.
pub fn u32_from_le(b0: u8, b1: u8, b2: u8, b3: u8) -> (x: u32)
    ensures
        x == from_le32(b0, b1, b2, b3),
{
    proof {
        lemma_join32(b0, b1, b2, b3);
    }
    (b0 as u32) | ((b1 as u32) << 8) | ((b2 as u32) << 16) | ((b3 as u32) << 24)
}

/// Joins four bytes, low byte first, and reads them as two's complement.
pub fn i32_from_le(b0: u8, b1: u8, b2: u8, b3: u8) -> (x: i32)
    ensures
        x == from_le32_signed(b0, b1, b2, b3),
{
    let u: u32 = u32_from_le(b0, b1, b2, b3);
    proof {
        lemma_bits_to_signed(u);
    }
    u as i32
}

/// Splitting and joining are inverse to each other.
pub proof fn lemma_le16_roundtrip(x: u16, lo: u8, hi: u8)
    ensures
        le16(x).len() == 2,
        from_le16(le16(x)[0], le16(x)[1]) == x,
        le16(from_le16(lo, hi)) == seq![lo, hi],
{
    assert(le16(from_le16(lo, hi)) =~= seq![lo, hi]);
}

proof fn lemma_split_then_join32(x: u32)
    by (bit_vector)
    ensures
        x % 256 + 256 * (x / 256 % 256) + 65536 * (x / 65536 % 256) + 16777216 * (x / 16777216)
            == x,
{
}

proof fn lemma_join_then_split32(b0: u8, b1: u8, b2: u8, b3: u8, x: u32)
    by (bit_vector)
    requires
        x == b0 + 256 * b1 + 65536 * b2 + 16777216 * b3,
    ensures
        x % 256 == b0,
        x / 256 % 256 == b1,
        x / 65536 % 256 == b2,
        x / 16777216 == b3,
{
}

/// Splitting and joining are inverse to each other.
pub proof fn lemma_le32_roundtrip(x: u32, b0: u8, b1: u8, b2: u8, b3: u8)
    ensures
        le32(x).len() == 4,
        from_le32(le32(x)[0], le32(x)[1], le32(x)[2], le32(x)[3]) == x,
        le32(from_le32(b0, b1, b2, b3)) == seq![b0, b1, b2, b3],
{
    lemma_split_then_join32(x);
    lemma_join_then_split32(b0, b1, b2, b3, from_le32(b0, b1, b2, b3));
    assert(le32(from_le32(b0, b1, b2, b3)) =~= seq![b0, b1, b2, b3]);
}

/// Two's complement loses nothing.
pub proof fn lemma_twos_complement_roundtrip(x: i32, u: u32)
    ensures
        from_twos_complement(twos_complement(x)) == x,
        twos_complement(from_twos_complement(u)) == u,
{
}

} // verus!
