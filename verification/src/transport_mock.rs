//! The transport that needs no bus: capture control in front of the
//! mock-backed service.
//!
//! It starts like the passive transport, with capture on, and refuses
//! requests that would drive the bus. Once capture is switched off it hands
//! requests and polls on to the service.

use vstd::prelude::*;
use crate::bridge_proto::{view_option, MsgType, Packet, PacketView};
use crate::bridge_service::{replies_placed, BridgeService, ServiceState, NACK_SHORT_PAYLOAD, STATUS_OK};
use crate::frame_pump::{pacing_delay_ms, pacing_delay_of};
use crate::transport_pio::{
    capture_after,
    capture_control_reply,
    is_capture_control,
    passive_refusal,
    NACK_PASSIVE,
};

verus! {

/// Mathematical model of a [`BridgeTransport`].
pub struct MockTransportState {
    pub bridge: ServiceState,
    pub capture_enabled: bool,
}

impl MockTransportState {
    /// The transport after start-up: capture on, a new service behind it.
    pub open spec fn initial() -> MockTransportState {
        MockTransportState { bridge: ServiceState::initial(), capture_enabled: true }
    }

    /// The request goes on to the service.
    pub open spec fn passes_on(self, req: PacketView) -> bool {
        !is_capture_control(req) && !self.capture_enabled
    }

    /// The replies to `req`, in the order in which they are sent.
    pub open spec fn replies(self, req: PacketView) -> Seq<PacketView> {
        if is_capture_control(req) {
            seq![capture_control_reply(req)]
        } else if self.capture_enabled {
            seq![passive_refusal(req)]
        } else {
            self.bridge.replies(req)
        }
    }

    /// The transport after `req`.
    pub open spec fn after_request(self, req: PacketView) -> MockTransportState {
        MockTransportState {
            bridge: if self.passes_on(req) {
                self.bridge.after_request(req)
            } else {
                self.bridge
            },
            capture_enabled: capture_after(req, self.capture_enabled),
        }
    }

    /// The event that a poll yields: none while capture is on, and the
    /// service's event otherwise.
    pub open spec fn poll_event(self) -> Option<PacketView> {
        if self.capture_enabled {
            None
        } else {
            self.bridge.poll_event()
        }
    }

    /// The transport after a poll.
    pub open spec fn after_poll(self) -> MockTransportState {
        if self.capture_enabled {
            self
        } else {
            MockTransportState { bridge: self.bridge.after_poll(), ..self }
        }
    }

    /// The pause after `pkt` was sent: the telemetry period, but at least
    /// one millisecond, after a telemetry packet while capture is off.
    pub open spec fn post_send_delay_ms(self, pkt: PacketView) -> Option<u64> {
        if self.capture_enabled || pkt.msg_type != MsgType::Telemetry {
            None
        } else {
            Some(pacing_delay_of(self.bridge.telemetry_period_ms))
        }
    }
}

/// The mock transport.
pub struct BridgeTransport {
    bridge: BridgeService,
    capture_enabled: bool,
}

impl View for BridgeTransport {
    type V = MockTransportState;

    closed spec fn view(&self) -> MockTransportState {
        MockTransportState { bridge: self.bridge@, capture_enabled: self.capture_enabled }
    }
}

impl BridgeTransport {
    /// A transport after start-up.
    pub fn new() -> (t: Self)
        ensures
            t@ == MockTransportState::initial(),
    {
        BridgeTransport { bridge: BridgeService::new(), capture_enabled: true }
    }

    /// Answers `req`. The replies are written to the first places of `out`,
    /// and their number, one or two, is returned; the rest of `out` stays.
    /// While capture is on, every request but a ping and a capture switch is
    /// refused as one that would drive the bus.
    pub fn handle_request(&mut self, req: Packet, out: &mut [Packet; 2]) -> (n: usize)
        ensures
            n == old(self)@.replies(req@).len(),
            1 <= n <= 2,
            replies_placed(*old(out), *final(out), old(self)@.replies(req@)),
            final(self)@ == old(self)@.after_request(req@),
            old(self)@.capture_enabled && !is_capture_control(req@) ==> n == 1 && final(out)@[0]@
                == PacketView::nack(req.seq, req.msg_type.code(), NACK_PASSIVE),
    {
        match req.msg_type {
            MsgType::Ping => {
                out[0] = Packet::ack(req.seq, MsgType::Ping, STATUS_OK);
                1
            },
            MsgType::CaptureSet => {
                if req.payload_len < 1 {
                    out[0] = Packet::nack(req.seq, MsgType::CaptureSet.to_u8(), NACK_SHORT_PAYLOAD);
                } else {
                    self.capture_enabled = req.payload[0] != 0;
                    out[0] = Packet::ack(req.seq, MsgType::CaptureSet, STATUS_OK);
                }
                1
            },
            _ => {
                if self.capture_enabled {
                    out[0] = Packet::nack(req.seq, req.msg_type.to_u8(), NACK_PASSIVE);
                    1
                } else {
                    self.bridge.handle_request(req, out)
                }
            },
        }
    }

    /// Returns the service's telemetry event, if capture is off and the
    /// service has one.
    pub fn poll_outgoing_packet(&mut self) -> (event: Option<Packet>)
        ensures
            view_option(event) == old(self)@.poll_event(),
            final(self)@ == old(self)@.after_poll(),
    {
        if self.capture_enabled {
            None
        } else {
            self.bridge.poll_telemetry_event()
        }
    }

    /// The pause after `pkt` was sent, in milliseconds, if one is due.
    pub fn post_send_delay_ms(&self, pkt: &Packet) -> (delay: Option<u64>)
        ensures
            delay == self@.post_send_delay_ms(pkt@),
    {
        if self.capture_enabled || pkt.msg_type != MsgType::Telemetry {
            None
        } else {
            Some(pacing_delay_ms(self.bridge.telemetry_period_ms()))
        }
    }
}

} // verus!
