//! What holds of every frame: encoding loses nothing, and damage to the
//! bytes that the CRC covers never goes unnoticed.

use vstd::prelude::*;
use crate::bridge_proto::{
    decode_frame,
    header_error,
    view_result,
    DecodeError,
    Packet,
    PacketView,
    CRC_OFFSET,
    PACKET_SIZE,
};
use crate::crc32::{lemma_crc32_detects_changed_byte, spec_crc32};
use crate::le_bytes::{lemma_le16_roundtrip, lemma_le32_roundtrip};

verus! {

/// `raw` with the bits of `mask` flipped in the byte at `at`.
pub open spec fn flipped(raw: Seq<u8>, at: int, mask: u8) -> Seq<u8> {
    raw.update(at, raw[at] ^ mask)
}

proof fn lemma_mask_changes_byte(b: u8, mask: u8)
    by (bit_vector)
    requires
        mask != 0,
    ensures
        b ^ mask != b,
{
}

proof fn lemma_one_bit_is_a_mask(bit: u8)
    by (bit_vector)
    requires
        bit < 8,
    ensures
        1u8 << bit != 0,
{
}

/// Decoding the frame of a packet gives the packet back.
pub proof fn lemma_decode_encode(p: PacketView)
    requires
        p.wf(),
    ensures
        decode_frame(p.encode()) == Ok::<PacketView, DecodeError>(p),
{
    let head = p.frame_head();
    let raw = p.encode();
    assert(raw.take(CRC_OFFSET as int) =~= head);
    assert(raw.subrange(8, CRC_OFFSET as int) =~= p.payload);
    lemma_le32_roundtrip(spec_crc32(head), 0, 0, 0, 0);
    lemma_le16_roundtrip(p.seq, 0, 0);
    p.msg_type.lemma_code_roundtrip(0);
}

/// A packet is the same after a trip over the wire: whatever meets the
/// contract of `Packet::decode` on the frame that `Packet::encode` wrote is
/// the packet that was encoded.
pub proof fn lemma_packet_survives_wire(
    p: Packet,
    frame: [u8; PACKET_SIZE],
    got: Result<Packet, DecodeError>,
)
    requires
        p.wf(),
        frame@ == p@.encode(),
        view_result(got) == decode_frame(frame@),
    ensures
        got == Ok::<Packet, DecodeError>(p),
{
    lemma_decode_encode(p@);
    assert(got->Ok_0.payload =~= p.payload);
}

/// A frame in which one of the first 28 bytes was changed is never
/// accepted. Where the header checks still pass, the CRC check fails; a
/// change behind the first four bytes leaves the header checks passing.
pub proof fn lemma_changed_byte_is_rejected(p: PacketView, at: int, mask: u8)
    requires
        p.wf(),
        0 <= at < CRC_OFFSET,
        mask != 0,
    ensures
        decode_frame(flipped(p.encode(), at, mask)) is Err,
        header_error(flipped(p.encode(), at, mask)) is None ==> decode_frame(
            flipped(p.encode(), at, mask),
        ) == Err::<PacketView, DecodeError>(DecodeError::BadCrc),
        at >= 4 ==> header_error(flipped(p.encode(), at, mask)) is None,
{
    let head = p.frame_head();
    let raw = p.encode();
    let bad = flipped(raw, at, mask);
    lemma_mask_changes_byte(raw[at], mask);
    lemma_decode_encode(p);
    assert(raw.take(CRC_OFFSET as int) =~= head);
    lemma_crc32_detects_changed_byte(
        raw.take(CRC_OFFSET as int),
        bad.take(CRC_OFFSET as int),
        at,
    );
    lemma_le32_roundtrip(spec_crc32(head), 0, 0, 0, 0);
    p.msg_type.lemma_code_roundtrip(0);
}

/// A frame in which one bit of the first 28 bytes was flipped, and which
/// still passes the header checks, is rejected for its CRC.
pub proof fn lemma_single_bit_flip_is_bad_crc(p: PacketView, at: int, bit: u8)
    requires
        p.wf(),
        0 <= at < CRC_OFFSET,
        bit < 8,
        header_error(flipped(p.encode(), at, 1u8 << bit)) is None,
    ensures
        decode_frame(flipped(p.encode(), at, 1u8 << bit)) == Err::<PacketView, DecodeError>(
            DecodeError::BadCrc,
        ),
{
    lemma_one_bit_is_a_mask(bit);
    lemma_changed_byte_is_rejected(p, at, 1u8 << bit);
}

} // verus!
