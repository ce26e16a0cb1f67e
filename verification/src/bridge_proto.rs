//! The framed wire protocol: fixed 32-byte packets closed by a CRC.
//!
//! Layout of a frame, by byte offset:
//!
//! | offset | content                              |
//! |--------|--------------------------------------|
//! | 0      | magic `0xA5`                         |
//! | 1      | protocol version `1`                 |
//! | 2      | message type                         |
//! | 3      | payload length, at most 20           |
//! | 4..6   | sequence number, little-endian       |
//! | 6..8   | reserved, zero                       |
//! | 8..28  | payload area, unused suffix zero     |
//! | 28..32 | CRC-32/IEEE of bytes 0..28, LE       |
//!
//! [`PacketView`] is the mathematical model of a packet; the contracts of
//! [`Packet`] are stated over it.

use vstd::prelude::*;
use vstd::slice::slice_subrange;
use crate::crc32::spec_crc32;
use crate::le_bytes::{
    from_le16,
    from_le32,
    i32_to_le,
    le16,
    le32,
    le32_signed,
    u16_from_le,
    u16_to_le,
    u32_from_le,
    u32_to_le,
};

pub use crate::crc32::crc32_ieee;

verus! {

/// First byte of every frame.
pub const PACKET_MAGIC: u8 = 0xA5;

/// Second byte of every frame.
pub const PROTOCOL_VERSION: u8 = 1;

/// Length of a frame in bytes.
pub const PACKET_SIZE: usize = 32;

/// Length of the payload area in bytes.
pub const PAYLOAD_SIZE: usize = 20;

/// Number of leading frame bytes that the CRC covers.
pub const CRC_OFFSET: usize = 28;

/// Kind of a packet. The wire codes are fixed and given by [`MsgType::to_u8`].
#[derive(Clone, Copy, Debug, PartialEq, Eq, Structural)]
pub enum MsgType {
    Ping,
    TelemetrySet,
    UnitCfg,
    SnapshotReq,
    CaptureSet,
    Ack,
    Nack,
    Telemetry,
    Health,
    TraceSample,
}

impl MsgType {
    /// Wire code of a message type.
    pub open spec fn code(self) -> u8 {
        match self {
            MsgType::Ping => 0x01,
            MsgType::TelemetrySet => 0x10,
            MsgType::UnitCfg => 0x11,
            MsgType::SnapshotReq => 0x12,
            MsgType::CaptureSet => 0x13,
            MsgType::Ack => 0x80,
            MsgType::Nack => 0x81,
            MsgType::Telemetry => 0x90,
            MsgType::Health => 0x91,
            MsgType::TraceSample => 0x92,
        }
    }

    /// The message type with wire code `v`, if there is one.
    pub open spec fn of_code(v: u8) -> Option<MsgType> {
        if v == 0x01 {
            Some(MsgType::Ping)
        } else if v == 0x10 {
            Some(MsgType::TelemetrySet)
        } else if v == 0x11 {
            Some(MsgType::UnitCfg)
        } else if v == 0x12 {
            Some(MsgType::SnapshotReq)
        } else if v == 0x13 {
            Some(MsgType::CaptureSet)
        } else if v == 0x80 {
            Some(MsgType::Ack)
        } else if v == 0x81 {
            Some(MsgType::Nack)
        } else if v == 0x90 {
            Some(MsgType::Telemetry)
        } else if v == 0x91 {
            Some(MsgType::Health)
        } else if v == 0x92 {
            Some(MsgType::TraceSample)
        } else {
            None
        }
    }

    /// Returns the wire code.
    pub fn to_u8(self) -> (v: u8)
        ensures
            v == self.code(),
    {
        match self {
            MsgType::Ping => 0x01,
            MsgType::TelemetrySet => 0x10,
            MsgType::UnitCfg => 0x11,
            MsgType::SnapshotReq => 0x12,
            MsgType::CaptureSet => 0x13,
            MsgType::Ack => 0x80,
            MsgType::Nack => 0x81,
            MsgType::Telemetry => 0x90,
            MsgType::Health => 0x91,
            MsgType::TraceSample => 0x92,
        }
    }

    /// Reads a wire code; `None` for a code that no message type has.
    pub fn from_u8(v: u8) -> (r: Option<Self>)
        ensures
            r == Self::of_code(v),
    {
        match v {
            0x01 => Some(MsgType::Ping),
            0x10 => Some(MsgType::TelemetrySet),
            0x11 => Some(MsgType::UnitCfg),
            0x12 => Some(MsgType::SnapshotReq),
            0x13 => Some(MsgType::CaptureSet),
            0x80 => Some(MsgType::Ack),
            0x81 => Some(MsgType::Nack),
            0x90 => Some(MsgType::Telemetry),
            0x91 => Some(MsgType::Health),
            0x92 => Some(MsgType::TraceSample),
            _ => None,
        }
    }

    /// Every message type is found again from its wire code, and a code
    /// that is read gives that code back.
    pub proof fn lemma_code_roundtrip(self, v: u8)
        ensures
            Self::of_code(self.code()) == Some(self),
            Self::of_code(v) matches Some(t) ==> t.code() == v,
    {
    }
}

/// Why a frame was not accepted. The checks run in the order of the
/// variants, and the first that fails is reported.
#[derive(Clone, Copy, Debug, PartialEq, Eq, Structural)]
pub enum DecodeError {
    BadMagic,
    BadVersion,
    PayloadLen,
    UnknownMsgType,
    BadCrc,
}

/// A packet in memory. The payload area always has its full length;
/// `payload_len` says how much of it is in use.
#[derive(Clone, Copy, Debug, PartialEq, Eq)]
pub struct Packet {
    pub msg_type: MsgType,
    pub seq: u16,
    pub payload_len: u8,
    pub payload: [u8; PAYLOAD_SIZE],
}

/// Mathematical model of a [`Packet`].
pub struct PacketView {
    pub msg_type: MsgType,
    pub seq: u16,
    pub payload_len: u8,
    pub payload: Seq<u8>,
}

impl View for Packet {
    type V = PacketView;

    open spec fn view(&self) -> PacketView {
        PacketView {
            msg_type: self.msg_type,
            seq: self.seq,
            payload_len: self.payload_len,
            payload: self.payload@,
        }
    }
}

/// `payload` followed by zeros up to the length of the payload area.
pub open spec fn zero_padded(payload: Seq<u8>) -> Seq<u8> {
    Seq::new(PAYLOAD_SIZE as nat, |i: int| if i < payload.len() { payload[i] } else { 0u8 })
}

/// The first check that `raw` fails among magic, version, payload length
/// and message type, in this order.
pub open spec fn header_error(raw: Seq<u8>) -> Option<DecodeError> {
    if raw[0] != PACKET_MAGIC {
        Some(DecodeError::BadMagic)
    } else if raw[1] != PROTOCOL_VERSION {
        Some(DecodeError::BadVersion)
    } else if raw[3] > PAYLOAD_SIZE {
        Some(DecodeError::PayloadLen)
    } else if MsgType::of_code(raw[2]) is None {
        Some(DecodeError::UnknownMsgType)
    } else {
        None
    }
}

/// What a frame of 32 bytes decodes to.
pub open spec fn decode_frame(raw: Seq<u8>) -> Result<PacketView, DecodeError> {
    match header_error(raw) {
        Some(e) => Err(e),
        None => if from_le32(raw[28], raw[29], raw[30], raw[31]) != spec_crc32(
            raw.take(CRC_OFFSET as int),
        ) {
            Err(DecodeError::BadCrc)
        } else {
            Ok(
                PacketView {
                    msg_type: MsgType::of_code(raw[2])->0,
                    seq: from_le16(raw[4], raw[5]),
                    payload_len: raw[3],
                    payload: raw.subrange(8, CRC_OFFSET as int),
                },
            )
        },
    }
}

/// The model of an optional packet.
pub open spec fn view_option(r: Option<Packet>) -> Option<PacketView> {
    match r {
        Some(p) => Some(p@),
        None => None,
    }
}

/// The model of a decoding result.
pub open spec fn view_result(r: Result<Packet, DecodeError>) -> Result<PacketView, DecodeError> {
    match r {
        Ok(p) => Ok(p@),
        Err(e) => Err(e),
    }
}

impl PacketView {
    /// The payload area has its full length and the length in use fits in it.
    pub open spec fn wf(self) -> bool {
        &&& self.payload.len() == PAYLOAD_SIZE
        &&& self.payload_len <= PAYLOAD_SIZE
    }

    /// The part of the payload area that is in use.
    pub open spec fn payload_used(self) -> Seq<u8> {
        self.payload.take(self.payload_len as int)
    }

    /// The packet that carries `payload`, which must fit the payload area.
    pub open spec fn build(msg_type: MsgType, seq: u16, payload: Seq<u8>) -> PacketView {
        PacketView {
            msg_type,
            seq,
            payload_len: payload.len() as u8,
            payload: zero_padded(payload),
        }
    }

    /// The packet that carries `payload`, or `None` where it is too long.
    pub open spec fn new(msg_type: MsgType, seq: u16, payload: Seq<u8>) -> Option<PacketView> {
        if payload.len() > PAYLOAD_SIZE {
            None
        } else {
            Some(Self::build(msg_type, seq, payload))
        }
    }

    pub open spec fn ping(seq: u16) -> PacketView {
        Self::build(MsgType::Ping, seq, Seq::empty())
    }

    pub open spec fn telemetry_set(seq: u16, enable: bool, period_ms: u16) -> PacketView {
        Self::build(
            MsgType::TelemetrySet,
            seq,
            seq![if enable { 1u8 } else { 0u8 }] + le16(period_ms),
        )
    }

    pub open spec fn capture_set(seq: u16, enable: bool) -> PacketView {
        Self::build(MsgType::CaptureSet, seq, seq![if enable { 1u8 } else { 0u8 }])
    }

    pub open spec fn ack(seq: u16, acked_type: MsgType, status: u8) -> PacketView {
        Self::build(MsgType::Ack, seq, seq![acked_type.code(), status])
    }

    pub open spec fn nack(seq: u16, rejected_type: u8, reason: u8) -> PacketView {
        Self::build(MsgType::Nack, seq, seq![rejected_type, reason])
    }

    pub open spec fn telemetry(
        seq: u16,
        tick: u32,
        x_counts: i32,
        z_counts: i32,
        rpm: u16,
        flags: u8,
    ) -> PacketView {
        Self::build(
            MsgType::Telemetry,
            seq,
            le32(tick) + le32_signed(x_counts) + le32_signed(z_counts) + le16(rpm) + seq![
                flags,
                0u8,
            ],
        )
    }

    pub open spec fn health(
        seq: u16,
        tx_timeout_count: u32,
        rx_timeout_count: u32,
        bus_cycles: u32,
    ) -> PacketView {
        Self::build(
            MsgType::Health,
            seq,
            le32(tx_timeout_count) + le32(rx_timeout_count) + le32(bus_cycles),
        )
    }

    pub open spec fn trace_sample(seq: u16, tick: u32, sample_bits: u32) -> PacketView {
        Self::build(MsgType::TraceSample, seq, le32(tick) + le32(sample_bits))
    }

    /// The 28 frame bytes that the CRC covers.
    pub open spec fn frame_head(self) -> Seq<u8> {
        seq![PACKET_MAGIC, PROTOCOL_VERSION, self.msg_type.code(), self.payload_len] + le16(
            self.seq,
        ) + seq![0u8, 0u8] + self.payload
    }

    /// The frame of 32 bytes that stands for the packet on the wire.
    pub open spec fn encode(self) -> Seq<u8> {
        self.frame_head() + le32(spec_crc32(self.frame_head()))
    }
}

impl Packet {
    /// The length in use fits in the payload area.
    pub open spec fn wf(&self) -> bool {
        self.payload_len <= PAYLOAD_SIZE
    }

    /// Builds a packet around `payload`, zero-filling the rest of the payload
    /// area. Returns `None` exactly when `payload` is longer than the area.
    pub fn new(msg_type: MsgType, seq: u16, payload: &[u8]) -> (r: Option<Self>)
        ensures
            view_option(r) == PacketView::new(msg_type, seq, payload@),
    {
        if payload.len() > PAYLOAD_SIZE {
            return None;
        }
        let mut fixed: [u8; PAYLOAD_SIZE] = [0u8; PAYLOAD_SIZE];
        let mut i: usize = 0;
        while i < payload.len()
            invariant
                i <= payload.len() <= PAYLOAD_SIZE,
                forall|j: int| 0 <= j < i ==> fixed@[j] == payload@[j],
                forall|j: int| i <= j < PAYLOAD_SIZE ==> fixed@[j] == 0,
            decreases payload.len() - i,
        {
            fixed[i] = payload[i];
            i += 1;
        }
        let pkt = Packet { msg_type, seq, payload_len: payload.len() as u8, payload: fixed };
        assert(pkt@.payload =~= zero_padded(payload@));
        Some(pkt)
    }

    /// Writes the packet as a frame.
    pub fn encode(&self) -> (out: [u8; PACKET_SIZE])
        ensures
            out@ == self@.encode(),
    {
        let mut out: [u8; PACKET_SIZE] = [0u8; PACKET_SIZE];
        out[0] = PACKET_MAGIC;
        out[1] = PROTOCOL_VERSION;
        out[2] = self.msg_type.to_u8();
        out[3] = self.payload_len;
        let seq_bytes: [u8; 2] = u16_to_le(self.seq);
        out[4] = seq_bytes[0];
        out[5] = seq_bytes[1];
        let mut i: usize = 0;
        while i < PAYLOAD_SIZE
            invariant
                i <= PAYLOAD_SIZE,
                out@.take(8) == self@.frame_head().take(8),
                forall|j: int| 0 <= j < i ==> out@[8 + j] == self.payload@[j],
            decreases PAYLOAD_SIZE - i,
        {
            out[8 + i] = self.payload[i];
            i += 1;
        }
        let crc: u32 = crc32_ieee(slice_subrange(out.as_slice(), 0, CRC_OFFSET));
        let crc_bytes: [u8; 4] = u32_to_le(crc);
        assert(out@.take(CRC_OFFSET as int) =~= self@.frame_head());
        out[28] = crc_bytes[0];
        out[29] = crc_bytes[1];
        out[30] = crc_bytes[2];
        out[31] = crc_bytes[3];
        assert(out@ =~= self@.encode());
        out
    }

    /// Reads a frame. The header checks come first, in the order magic,
    /// version, payload length, message type; the CRC is checked last.
    pub fn decode(raw: &[u8; PACKET_SIZE]) -> (r: Result<Self, DecodeError>)
        ensures
            view_result(r) == decode_frame(raw@),
    {
        if raw[0] != PACKET_MAGIC {
            return Err(DecodeError::BadMagic);
        }
        if raw[1] != PROTOCOL_VERSION {
            return Err(DecodeError::BadVersion);
        }
        let payload_len: u8 = raw[3];
        if payload_len as usize > PAYLOAD_SIZE {
            return Err(DecodeError::PayloadLen);
        }
        let msg_type = match MsgType::from_u8(raw[2]) {
            Some(t) => t,
            None => {
                return Err(DecodeError::UnknownMsgType);
            },
        };
        let expected_crc: u32 = u32_from_le(raw[28], raw[29], raw[30], raw[31]);
        let actual_crc: u32 = crc32_ieee(slice_subrange(raw.as_slice(), 0, CRC_OFFSET));
        if expected_crc != actual_crc {
            return Err(DecodeError::BadCrc);
        }
        let seq: u16 = u16_from_le(raw[4], raw[5]);
        let mut payload: [u8; PAYLOAD_SIZE] = [0u8; PAYLOAD_SIZE];
        let mut i: usize = 0;
        while i < PAYLOAD_SIZE
            invariant
                i <= PAYLOAD_SIZE,
                forall|j: int| 0 <= j < i ==> payload@[j] == raw@[8 + j],
            decreases PAYLOAD_SIZE - i,
        {
            payload[i] = raw[8 + i];
            i += 1;
        }
        let pkt = Packet { msg_type, seq, payload_len, payload };
        assert(pkt@.payload =~= raw@.subrange(8, CRC_OFFSET as int));
        Ok(pkt)
    }

    /// The part of the payload area that is in use.
    pub fn payload_used(&self) -> (used: &[u8])
        requires
            self.wf(),
        ensures
            used@ == self@.payload_used(),
    {
        slice_subrange(self.payload.as_slice(), 0, self.payload_len as usize)
    }

    /// A ping request: no payload.
    pub fn ping(seq: u16) -> (pkt: Self)
        ensures
            pkt@ == PacketView::ping(seq),
    {
        let payload: [u8; 0] = [];
        assert(payload@ =~= Seq::<u8>::empty());
        Self::new(MsgType::Ping, seq, payload.as_slice()).expect("valid ping")
    }

    /// A request to switch telemetry: the enable byte, then the period.
    pub fn telemetry_set(seq: u16, enable: bool, period_ms: u16) -> (pkt: Self)
        ensures
            pkt@ == PacketView::telemetry_set(seq, enable, period_ms),
    {
        let period: [u8; 2] = u16_to_le(period_ms);
        let payload: [u8; 3] = [if enable { 1 } else { 0 }, period[0], period[1]];
        assert(payload@ =~= seq![if enable { 1u8 } else { 0u8 }] + le16(period_ms));
        Self::new(MsgType::TelemetrySet, seq, payload.as_slice()).expect("valid telemetry_set")
    }

    /// A request to switch passive capture: the enable byte.
    pub fn capture_set(seq: u16, enable: bool) -> (pkt: Self)
        ensures
            pkt@ == PacketView::capture_set(seq, enable),
    {
        let payload: [u8; 1] = [if enable { 1 } else { 0 }];
        assert(payload@ =~= seq![if enable { 1u8 } else { 0u8 }]);
        Self::new(MsgType::CaptureSet, seq, payload.as_slice()).expect("valid capture_set")
    }

    /// A positive reply: the type that is acknowledged, then a status.
    pub fn ack(seq: u16, acked_type: MsgType, status: u8) -> (pkt: Self)
        ensures
            pkt@ == PacketView::ack(seq, acked_type, status),
    {
        let payload: [u8; 2] = [acked_type.to_u8(), status];
        assert(payload@ =~= seq![acked_type.code(), status]);
        Self::new(MsgType::Ack, seq, payload.as_slice()).expect("valid ack")
    }

    /// A negative reply: the type code that is rejected, then the reason.
    pub fn nack(seq: u16, rejected_type: u8, reason: u8) -> (pkt: Self)
        ensures
            pkt@ == PacketView::nack(seq, rejected_type, reason),
    {
        let payload: [u8; 2] = [rejected_type, reason];
        assert(payload@ =~= seq![rejected_type, reason]);
        Self::new(MsgType::Nack, seq, payload.as_slice()).expect("valid nack")
    }

    /// A telemetry event: tick, X counts, Z counts, rpm, flags and one pad
    /// byte, sixteen bytes in all.
    pub fn telemetry(seq: u16, tick: u32, x_counts: i32, z_counts: i32, rpm: u16, flags: u8) -> (pkt:
        Self)
        ensures
            pkt@ == PacketView::telemetry(seq, tick, x_counts, z_counts, rpm, flags),
    {
        let t: [u8; 4] = u32_to_le(tick);
        let x: [u8; 4] = i32_to_le(x_counts);
        let z: [u8; 4] = i32_to_le(z_counts);
        let r: [u8; 2] = u16_to_le(rpm);
        let payload: [u8; 16] = [
            t[0],
            t[1],
            t[2],
            t[3],
            x[0],
            x[1],
            x[2],
            x[3],
            z[0],
            z[1],
            z[2],
            z[3],
            r[0],
            r[1],
            flags,
            0,
        ];
        assert(payload@ =~= le32(tick) + le32_signed(x_counts) + le32_signed(z_counts) + le16(rpm)
            + seq![flags, 0u8]);
        Self::new(MsgType::Telemetry, seq, payload.as_slice()).expect("valid telemetry")
    }

    /// A health report: the two timeout counters and the bus cycle counter.
    pub fn health(seq: u16, tx_timeout_count: u32, rx_timeout_count: u32, bus_cycles: u32) -> (pkt:
        Self)
        ensures
            pkt@ == PacketView::health(seq, tx_timeout_count, rx_timeout_count, bus_cycles),
    {
        let a: [u8; 4] = u32_to_le(tx_timeout_count);
        let b: [u8; 4] = u32_to_le(rx_timeout_count);
        let c: [u8; 4] = u32_to_le(bus_cycles);
        let payload: [u8; 12] = [
            a[0],
            a[1],
            a[2],
            a[3],
            b[0],
            b[1],
            b[2],
            b[3],
            c[0],
            c[1],
            c[2],
            c[3],
        ];
        assert(payload@ =~= le32(tx_timeout_count) + le32(rx_timeout_count) + le32(bus_cycles));
        Self::new(MsgType::Health, seq, payload.as_slice()).expect("valid health")
    }

    /// A raw bus sample: the tick, then the sampled bits.
    pub fn trace_sample(seq: u16, tick: u32, sample_bits: u32) -> (pkt: Self)
        ensures
            pkt@ == PacketView::trace_sample(seq, tick, sample_bits),
    {
        let t: [u8; 4] = u32_to_le(tick);
        let s: [u8; 4] = u32_to_le(sample_bits);
        let payload: [u8; 8] = [t[0], t[1], t[2], t[3], s[0], s[1], s[2], s[3]];
        assert(payload@ =~= le32(tick) + le32(sample_bits));
        Self::new(MsgType::TraceSample, seq, payload.as_slice()).expect("valid trace sample")
    }
}

} // verus!
