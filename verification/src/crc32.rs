//! CRC-32/IEEE, the checksum that closes every wire packet.
//!
//! The checksum is modelled as a 32-bit shift register: it starts with all
//! bits set, takes the input bytes low bit first, and is inverted at the end.
//! Beside the executable routine the module proves that the register never
//! forgets a difference: two inputs of equal length that differ in exactly
//! one byte have different checksums.

use vstd::prelude::*;

verus! {

/// Generator polynomial in reflected form.
pub const CRC32_POLY: u32 = 0xEDB8_8320;

/// Register contents before the first byte.
pub const CRC32_INIT: u32 = 0xFFFF_FFFF;

/// One shift of the register: the low bit leaves, and the polynomial is
/// folded in when that bit was set.
pub open spec fn crc_shift(c: u32) -> u32 {
    if c & 1 != 0 {
        (c >> 1) ^ CRC32_POLY
    } else {
        c >> 1
    }
}

/// `n` shifts in a row.
pub open spec fn crc_shifts(c: u32, n: nat) -> u32
    decreases n,
{
    if n == 0 {
        c
    } else {
        crc_shift(crc_shifts(c, (n - 1) as nat))
    }
}

/// The register after one more input byte.
pub open spec fn crc_feed(c: u32, byte: u8) -> u32 {
    crc_shifts(c ^ (byte as u32), 8)
}

/// The register after all of `data`, before the final inversion.
pub open spec fn crc_register(data: Seq<u8>) -> u32
    decreases data.len(),
{
    if data.len() == 0 {
        CRC32_INIT
    } else {
        crc_feed(crc_register(data.drop_last()), data.last())
    }
}

/// CRC-32/IEEE of `data`.
pub open spec fn spec_crc32(data: Seq<u8>) -> u32 {
    !crc_register(data)
}

/// Computes CRC-32/IEEE of `data`.
pub fn crc32_ieee(data: &[u8]) -> (crc: u32)
    ensures
        crc == spec_crc32(data@),
{
    let mut crc: u32 = CRC32_INIT;
    let mut i: usize = 0;
    while i < data.len()
        invariant
            i <= data.len(),
            crc == crc_register(data@.take(i as int)),
        decreases data.len() - i,
    {
        let byte: u8 = data[i];
        let ghost fed: u32 = crc ^ (byte as u32);
        crc = crc ^ (byte as u32);
        let mut k: u8 = 0;
        while k < 8
            invariant
                k <= 8,
                crc == crc_shifts(fed, k as nat),
            decreases 8 - k,
        {
            if (crc & 1) != 0 {
                crc = (crc >> 1) ^ CRC32_POLY;
            } else {
                crc = crc >> 1;
            }
            k += 1;
        }
        proof {
            let upto: Seq<u8> = data@.take(i + 1);
            assert(upto.drop_last() =~= data@.take(i as int));
            assert(upto.last() == byte);
        }
        i += 1;
    }
    proof {
        assert(data@.take(i as int) =~= data@);
    }
    !crc
}

/// A shift loses nothing: the bit that left can be read off the top bit of
/// the result.
pub proof fn lemma_crc_shift_injective(a: u32, b: u32)
    by (bit_vector)
    requires
        crc_shift(a) == crc_shift(b),
    ensures
        a == b,
{
}

/// Any number of shifts loses nothing.
pub proof fn lemma_crc_shifts_injective(a: u32, b: u32, n: nat)
    requires
        crc_shifts(a, n) == crc_shifts(b, n),
    ensures
        a == b,
    decreases n,
{
    if n > 0 {
        lemma_crc_shift_injective(crc_shifts(a, (n - 1) as nat), crc_shifts(b, (n - 1) as nat));
        lemma_crc_shifts_injective(a, b, (n - 1) as nat);
    }
}

proof fn lemma_xor_cancels(a: u32, b: u32, x: u8, y: u8)
    by (bit_vector)
    requires
        a ^ (x as u32) == b ^ (y as u32),
    ensures
        a == b ==> x == y,
        x == y ==> a == b,
{
}

/// Feeding the same byte to two different registers leaves them different,
/// and feeding two different bytes to the same register makes it differ.
pub proof fn lemma_crc_feed_injective(a: u32, b: u32, x: u8, y: u8)
    requires
        crc_feed(a, x) == crc_feed(b, y),
    ensures
        a == b ==> x == y,
        x == y ==> a == b,
{
    lemma_crc_shifts_injective(a ^ (x as u32), b ^ (y as u32), 8);
    lemma_xor_cancels(a, b, x, y);
}

/// Two inputs of equal length that differ in the byte at `at` and nowhere
/// else have different checksums.
pub proof fn lemma_crc32_detects_changed_byte(s: Seq<u8>, t: Seq<u8>, at: int)
    requires
        s.len() == t.len(),
        0 <= at < s.len(),
        s[at] != t[at],
        forall|j: int| 0 <= j < s.len() && j != at ==> s[j] == t[j],
    ensures
        spec_crc32(s) != spec_crc32(t),
{
    lemma_register_detects_changed_byte(s, t, at);
    lemma_not_injective(crc_register(s), crc_register(t));
}

proof fn lemma_not_injective(a: u32, b: u32)
    by (bit_vector)
    requires
        a != b,
    ensures
        !a != !b,
{
}

proof fn lemma_register_detects_changed_byte(s: Seq<u8>, t: Seq<u8>, at: int)
    requires
        s.len() == t.len(),
        0 <= at < s.len(),
        s[at] != t[at],
        forall|j: int| 0 <= j < s.len() && j != at ==> s[j] == t[j],
    ensures
        crc_register(s) != crc_register(t),
    decreases s.len(),
{
    let s0 = s.drop_last();
    let t0 = t.drop_last();
    if at == s.len() - 1 {
        assert(s0 =~= t0);
        if crc_register(s) == crc_register(t) {
            lemma_crc_feed_injective(crc_register(s0), crc_register(t0), s.last(), t.last());
        }
    } else {
        lemma_register_detects_changed_byte(s0, t0, at);
        if crc_register(s) == crc_register(t) {
            lemma_crc_feed_injective(crc_register(s0), crc_register(t0), s.last(), t.last());
        }
    }
}

} // verus!
