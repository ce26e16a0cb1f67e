//! What the host reads out of the events it receives: the snapshot in a
//! telemetry packet, and the bus lines in a trace packet.

use vstd::prelude::*;
use crate::bridge_proto::{MsgType, Packet, PacketView};
use crate::dro_decode::DroSnapshot;
use crate::le_bytes::{
    from_le16,
    from_le32,
    from_le32_signed,
    i32_from_le,
    lemma_le16_roundtrip,
    lemma_le32_roundtrip,
    lemma_twos_complement_roundtrip,
    twos_complement,
    u16_from_le,
    u32_from_le,
};

verus! {

/// Number of payload bytes of a telemetry packet.
pub const TELEMETRY_PAYLOAD_LEN: u8 = 16;

/// Number of payload bytes of a trace packet.
pub const TRACE_PAYLOAD_LEN: u8 = 8;

/// The snapshot that `pkt` carries, if it is a telemetry packet with a
/// full payload: X counts in bytes 4..8, Z counts in bytes 8..12, both in
/// two's complement, and the speed in bytes 12..14.
pub open spec fn telemetry_snapshot_of(pkt: PacketView) -> Option<DroSnapshot> {
    if pkt.msg_type != MsgType::Telemetry || pkt.payload_len < TELEMETRY_PAYLOAD_LEN {
        None
    } else {
        let p = pkt.payload;
        Some(
            DroSnapshot {
                x_counts: from_le32_signed(p[4], p[5], p[6], p[7]),
                z_counts: from_le32_signed(p[8], p[9], p[10], p[11]),
                rpm: from_le16(p[12], p[13]),
            },
        )
    }
}

/// Reads the snapshot out of a telemetry packet. Returns `None` for a
/// packet of another type or with too short a payload.
pub fn telemetry_snapshot(pkt: &Packet) -> (snapshot: Option<DroSnapshot>)
    ensures
        snapshot == telemetry_snapshot_of(pkt@),
{
    if pkt.msg_type != MsgType::Telemetry || pkt.payload_len < TELEMETRY_PAYLOAD_LEN {
        return None;
    }
    let p: &[u8; 20] = &pkt.payload;
    Some(
        DroSnapshot {
            x_counts: i32_from_le(p[4], p[5], p[6], p[7]),
            z_counts: i32_from_le(p[8], p[9], p[10], p[11]),
            rpm: u16_from_le(p[12], p[13]),
        },
    )
}

/// One raw sample of the bus with the tick at which it was taken.
#[derive(Clone, Copy, Debug, PartialEq, Eq, Structural)]
pub struct TraceRecord {
    pub tick: u32,
    pub sample_bits: u32,
}

/// The record that `pkt` carries, if it is a trace packet with a full
/// payload: the tick in bytes 0..4, the sample in bytes 4..8.
pub open spec fn trace_record_of(pkt: PacketView) -> Option<TraceRecord> {
    if pkt.msg_type != MsgType::TraceSample || pkt.payload_len < TRACE_PAYLOAD_LEN {
        None
    } else {
        let p = pkt.payload;
        Some(
            TraceRecord {
                tick: from_le32(p[0], p[1], p[2], p[3]),
                sample_bits: from_le32(p[4], p[5], p[6], p[7]),
            },
        )
    }
}

/// Reads the record out of a trace packet. Returns `None` for a packet of
/// another type or with too short a payload.
pub fn trace_record(pkt: &Packet) -> (record: Option<TraceRecord>)
    ensures
        record == trace_record_of(pkt@),
{
    if pkt.msg_type != MsgType::TraceSample || pkt.payload_len < TRACE_PAYLOAD_LEN {
        return None;
    }
    let p: &[u8; 20] = &pkt.payload;
    Some(
        TraceRecord {
            tick: u32_from_le(p[0], p[1], p[2], p[3]),
            sample_bits: u32_from_le(p[4], p[5], p[6], p[7]),
        },
    )
}

/// The bus lines of one sample.
#[derive(Clone, Copy, Debug, PartialEq, Eq, Structural)]
pub struct BusSample {
    /// Data lines D0..D7.
    pub data: u8,
    /// Address lines A0..A7.
    pub addr: u8,
    /// Read-not-write line.
    pub rnw: bool,
    /// Bus clock.
    pub clk: bool,
    /// First auxiliary control line.
    pub c18: bool,
    /// Second auxiliary control line.
    pub c19: bool,
    /// Select line of the DRO registers, active low.
    pub fred_n: bool,
}

impl BusSample {
    /// The lines that the bits of `sample` stand for: data in bits 0..8,
    /// address in bits 8..16, then one bit each for read-not-write, clock,
    /// the two auxiliary lines and the select line.
    pub open spec fn of_bits(sample: u32) -> BusSample {
        BusSample {
            data: (sample % 256) as u8,
            addr: (sample / 256 % 256) as u8,
            rnw: sample / 0x1_0000 % 2 == 1,
            clk: sample / 0x2_0000 % 2 == 1,
            c18: sample / 0x4_0000 % 2 == 1,
            c19: sample / 0x8_0000 % 2 == 1,
            fred_n: sample / 0x10_0000 % 2 == 1,
        }
    }

    /// Takes a sample apart into its bus lines.
    pub fn from_bits(sample: u32) -> (lines: Self)
        ensures
            lines == Self::of_bits(sample),
    {
        proof {
            lemma_sample_bits(sample);
        }
        BusSample {
            data: (sample & 0xFF) as u8,
            addr: ((sample >> 8) & 0xFF) as u8,
            rnw: ((sample >> 16) & 1) != 0,
            clk: ((sample >> 17) & 1) != 0,
            c18: ((sample >> 18) & 1) != 0,
            c19: ((sample >> 19) & 1) != 0,
            fred_n: ((sample >> 20) & 1) != 0,
        }
    }
}

proof fn lemma_sample_bits(s: u32)
    by (bit_vector)
    ensures
        s & 0xFF == s % 256,
        (s >> 8) & 0xFF == s / 256 % 256,
        (s >> 16) & 1 == s / 0x1_0000 % 2,
        (s >> 17) & 1 == s / 0x2_0000 % 2,
        (s >> 18) & 1 == s / 0x4_0000 % 2,
        (s >> 19) & 1 == s / 0x8_0000 % 2,
        (s >> 20) & 1 == s / 0x10_0000 % 2,
{
}

/// The host reads out of a telemetry packet the snapshot that was put in.
pub proof fn lemma_telemetry_snapshot_roundtrip(
    seq: u16,
    tick: u32,
    x_counts: i32,
    z_counts: i32,
    rpm: u16,
    flags: u8,
)
    ensures
        telemetry_snapshot_of(PacketView::telemetry(seq, tick, x_counts, z_counts, rpm, flags))
            == Some(DroSnapshot { x_counts, z_counts, rpm }),
{
    lemma_le32_roundtrip(twos_complement(x_counts), 0, 0, 0, 0);
    lemma_le32_roundtrip(twos_complement(z_counts), 0, 0, 0, 0);
    lemma_twos_complement_roundtrip(x_counts, 0);
    lemma_twos_complement_roundtrip(z_counts, 0);
    lemma_le16_roundtrip(rpm, 0, 0);
}

/// The host reads out of a trace packet the tick and the sample that were
/// put in.
pub proof fn lemma_trace_record_roundtrip(seq: u16, tick: u32, sample_bits: u32)
    ensures
        trace_record_of(PacketView::trace_sample(seq, tick, sample_bits)) == Some(
            TraceRecord { tick, sample_bits },
        ),
{
    lemma_le32_roundtrip(tick, 0, 0, 0, 0);
    lemma_le32_roundtrip(sample_bits, 0, 0, 0, 0);
}

} // verus!
