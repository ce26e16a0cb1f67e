//! The passive transport: the bus is only sampled, never driven.
//!
//! While capture is on, every raw sample of the bus becomes one trace
//! packet, and every request that would need the bus driven is refused.
//! Reading the sample FIFO is the caller's part; a sample comes in as an
//! argument.

use vstd::prelude::*;
use crate::bridge_proto::{view_option, MsgType, Packet, PacketView};
use crate::bridge_service::{replies_placed, NACK_SHORT_PAYLOAD, STATUS_OK};
use crate::wrap::{succ16, succ32};

verus! {

/// Reason code: the request would drive the bus, which is being sampled.
pub const NACK_PASSIVE: u8 = 0x10;

/// Reason code: the request is not served in this mode.
pub const NACK_MODE_DISABLED: u8 = 0x11;

/// The request is one that a passive transport answers itself.
pub open spec fn is_capture_control(req: PacketView) -> bool {
    req.msg_type == MsgType::Ping || req.msg_type == MsgType::CaptureSet
}

/// The reply to a request that a passive transport answers itself: a ping
/// is acknowledged, and so is a capture switch unless its payload is empty.
pub open spec fn capture_control_reply(req: PacketView) -> PacketView {
    if req.msg_type == MsgType::Ping {
        PacketView::ack(req.seq, MsgType::Ping, STATUS_OK)
    } else if req.payload_len < 1 {
        PacketView::nack(req.seq, MsgType::CaptureSet.code(), NACK_SHORT_PAYLOAD)
    } else {
        PacketView::ack(req.seq, MsgType::CaptureSet, STATUS_OK)
    }
}

/// The capture switch after `req`: the first payload byte of a capture
/// switch request sets it, and nothing else does.
pub open spec fn capture_after(req: PacketView, enabled: bool) -> bool {
    if req.msg_type == MsgType::CaptureSet && req.payload_len >= 1 {
        req.payload[0] != 0
    } else {
        enabled
    }
}

/// The refusal of a request that would drive the bus.
pub open spec fn passive_refusal(req: PacketView) -> PacketView {
    PacketView::nack(req.seq, req.msg_type.code(), NACK_PASSIVE)
}

/// Mathematical model of a [`BridgeTransport`].
pub struct SnifferState {
    pub capture_enabled: bool,
    pub trace_seq: u16,
    pub trace_tick: u32,
}

impl SnifferState {
    /// The transport after start-up: capture on, the first trace packet
    /// will carry sequence number one.
    pub open spec fn initial() -> SnifferState {
        SnifferState { capture_enabled: true, trace_seq: 1, trace_tick: 0 }
    }

    /// The reply to `req`.
    pub open spec fn reply(self, req: PacketView) -> PacketView {
        if is_capture_control(req) {
            capture_control_reply(req)
        } else if self.capture_enabled {
            passive_refusal(req)
        } else {
            PacketView::nack(req.seq, req.msg_type.code(), NACK_MODE_DISABLED)
        }
    }

    /// The transport after `req`.
    pub open spec fn after_request(self, req: PacketView) -> SnifferState {
        SnifferState { capture_enabled: capture_after(req, self.capture_enabled), ..self }
    }

    /// The trace packet for `sample`, if capture is on and there is one.
    pub open spec fn poll_event(self, sample: Option<u32>) -> Option<PacketView> {
        match sample {
            Some(bits) if self.capture_enabled => Some(
                PacketView::trace_sample(self.trace_seq, self.trace_tick, bits),
            ),
            _ => None,
        }
    }

    /// The transport after a poll: a trace packet uses up one sequence
    /// number and one tick.
    pub open spec fn after_poll(self, sample: Option<u32>) -> SnifferState {
        if self.poll_event(sample) is Some {
            SnifferState {
                trace_seq: succ16(self.trace_seq),
                trace_tick: succ32(self.trace_tick),
                ..self
            }
        } else {
            self
        }
    }
}

/// The passive transport.
pub struct BridgeTransport {
    capture_enabled: bool,
    trace_seq: u16,
    trace_tick: u32,
}

impl View for BridgeTransport {
    type V = SnifferState;

    closed spec fn view(&self) -> SnifferState {
        SnifferState {
            capture_enabled: self.capture_enabled,
            trace_seq: self.trace_seq,
            trace_tick: self.trace_tick,
        }
    }
}

impl BridgeTransport {
    /// A transport after start-up.
    pub fn new() -> (t: Self)
        ensures
            t@ == SnifferState::initial(),
    {
        BridgeTransport { capture_enabled: true, trace_seq: 1, trace_tick: 0 }
    }

    /// Answers `req` with one reply, written to the first place of `out`;
    /// the second place stays. While capture is on, every request but a
    /// ping and a capture switch is refused as one that would drive the bus.
    pub fn handle_request(&mut self, req: Packet, out: &mut [Packet; 2]) -> (n: usize)
        ensures
            n == 1,
            replies_placed(*old(out), *final(out), seq![old(self)@.reply(req@)]),
            final(self)@ == old(self)@.after_request(req@),
            old(self)@.capture_enabled && !is_capture_control(req@) ==> final(out)@[0]@
                == PacketView::nack(req.seq, req.msg_type.code(), NACK_PASSIVE),
    {
        match req.msg_type {
            MsgType::Ping => {
                out[0] = Packet::ack(req.seq, MsgType::Ping, STATUS_OK);
                1
            },
            MsgType::CaptureSet => {
                if req.payload_len < 1 {
                    out[0] = Packet::nack(req.seq, MsgType::CaptureSet.to_u8(), NACK_SHORT_PAYLOAD);
                } else {
                    self.capture_enabled = req.payload[0] != 0;
                    out[0] = Packet::ack(req.seq, MsgType::CaptureSet, STATUS_OK);
                }
                1
            },
            _ => {
                if self.capture_enabled {
                    out[0] = Packet::nack(req.seq, req.msg_type.to_u8(), NACK_PASSIVE);
                } else {
                    out[0] = Packet::nack(req.seq, req.msg_type.to_u8(), NACK_MODE_DISABLED);
                }
                1
            },
        }
    }

    /// Tells whether the sample FIFO is to be read before the next poll,
    /// which it is while capture is on.
    pub fn wants_sample(&self) -> (wanted: bool)
        ensures
            wanted == self@.capture_enabled,
    {
        self.capture_enabled
    }

    /// Wraps `sample`, if there is one and capture is on, into a trace
    /// packet. Never waits.
    pub fn poll_outgoing_packet(&mut self, sample: Option<u32>) -> (event: Option<Packet>)
        ensures
            view_option(event) == old(self)@.poll_event(sample),
            event is Some <==> old(self)@.capture_enabled && sample is Some,
            final(self)@ == old(self)@.after_poll(sample),
            event matches Some(pkt) ==> pkt.seq == old(self)@.trace_seq,
    {
        if !self.capture_enabled {
            return None;
        }
        let bits: u32 = match sample {
            Some(bits) => bits,
            None => {
                return None;
            },
        };
        let pkt = Packet::trace_sample(self.trace_seq, self.trace_tick, bits);
        self.trace_seq = self.trace_seq.wrapping_add(1);
        self.trace_tick = self.trace_tick.wrapping_add(1);
        Some(pkt)
    }

    /// The pause after `pkt` was sent: trace packets are never paced.
    pub fn post_send_delay_ms(&self, _pkt: &Packet) -> (delay: Option<u64>)
        ensures
            delay is None,
    {
        None
    }
}

/// While capture is on, the passive transport refuses every request but a
/// ping and a capture switch, giving as the reason that the bus is being
/// sampled, and stays as it is.
pub proof fn lemma_passive_refuses_active_requests(s: SnifferState, req: PacketView)
    requires
        s.capture_enabled,
        req.msg_type != MsgType::Ping,
        req.msg_type != MsgType::CaptureSet,
    ensures
        s.reply(req) == PacketView::nack(req.seq, req.msg_type.code(), NACK_PASSIVE),
        s.after_request(req) == s,
{
}

} // verus!
