//! The decisions of the USB frame pump.
//!
//! The pump moves frames of up to 64 bytes between the USB pipe and a
//! transport. What it does with a frame that came in, and how long it
//! pauses after an event went out, is decided here; reading, writing and
//! sleeping are the caller's part.

use vstd::prelude::*;
use crate::bridge_proto::{decode_frame, Packet, PacketView, PACKET_SIZE};

verus! {

/// Largest length of a frame on the USB pipe.
pub const USB_FRAME_SIZE: usize = 64;

/// Type code in the refusal of a frame whose type could not be read.
pub const REJECTED_UNREADABLE: u8 = 0xFF;

/// Reason code: the frame did not decode.
pub const NACK_BAD_FRAME: u8 = 0x02;

/// What the pump does with a frame that came in.
#[derive(Clone, Copy, Debug, PartialEq, Eq)]
pub enum FrameVerdict {
    /// Fewer bytes than a packet has: nothing is done.
    TooShort,
    /// A request, to be handed to the transport.
    Request(Packet),
    /// The frame did not decode: this refusal is the only reply.
    Malformed(Packet),
}

/// Mathematical model of a [`FrameVerdict`].
pub enum FrameVerdictView {
    TooShort,
    Request(PacketView),
    Malformed(PacketView),
}

impl View for FrameVerdict {
    type V = FrameVerdictView;

    open spec fn view(&self) -> FrameVerdictView {
        match *self {
            FrameVerdict::TooShort => FrameVerdictView::TooShort,
            FrameVerdict::Request(p) => FrameVerdictView::Request(p@),
            FrameVerdict::Malformed(p) => FrameVerdictView::Malformed(p@),
        }
    }
}

/// The refusal of a frame that did not decode. It carries sequence number
/// zero, as the frame's own could not be trusted.
pub open spec fn bad_frame_refusal() -> PacketView {
    PacketView::nack(0, REJECTED_UNREADABLE, NACK_BAD_FRAME)
}

/// What the pump does with the `n` bytes at the start of `rx`. Only the
/// first 32 bytes are looked at.
pub open spec fn frame_verdict(rx: Seq<u8>, n: int) -> FrameVerdictView {
    if n < PACKET_SIZE {
        FrameVerdictView::TooShort
    } else {
        match decode_frame(rx.take(PACKET_SIZE as int)) {
            Ok(req) => FrameVerdictView::Request(req),
            Err(_) => FrameVerdictView::Malformed(bad_frame_refusal()),
        }
    }
}

/// Decides what to do with a frame of `n` bytes that was read into `rx_buf`.
pub fn classify_frame(rx_buf: &[u8; USB_FRAME_SIZE], n: usize) -> (verdict: FrameVerdict)
    ensures
        verdict@ == frame_verdict(rx_buf@, n as int),
{
    if n < PACKET_SIZE {
        return FrameVerdict::TooShort;
    }
    let mut raw: [u8; PACKET_SIZE] = [0u8; PACKET_SIZE];
    let mut i: usize = 0;
    while i < PACKET_SIZE
        invariant
            i <= PACKET_SIZE,
            forall|j: int| 0 <= j < i ==> raw@[j] == rx_buf@[j],
        decreases PACKET_SIZE - i,
    {
        raw[i] = rx_buf[i];
        i += 1;
    }
    assert(raw@ =~= rx_buf@.take(PACKET_SIZE as int));
    match Packet::decode(&raw) {
        Ok(req) => FrameVerdict::Request(req),
        Err(_) => FrameVerdict::Malformed(Packet::nack(0, REJECTED_UNREADABLE, NACK_BAD_FRAME)),
    }
}

/// The pause after a telemetry event: the period, but at least one
/// millisecond.
pub open spec fn pacing_delay_of(period_ms: u16) -> u64 {
    if period_ms < 1 {
        1
    } else {
        period_ms as u64
    }
}

/// Returns the pause after a telemetry event, in milliseconds.
pub fn pacing_delay_ms(period_ms: u16) -> (delay: u64)
    ensures
        delay == pacing_delay_of(period_ms),
{
    if period_ms < 1 {
        1
    } else {
        period_ms as u64
    }
}

} // verus!
