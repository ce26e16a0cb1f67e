//! The dispatch state machine behind the wire protocol.
//!
//! The service answers requests with up to two reply packets and, while
//! telemetry is enabled, turns every full cadence of the mock bus into one
//! unsolicited telemetry event. Replies carry the sequence number of their
//! request; events carry the service's own counter.
//!
//! [`ServiceState`] is the mathematical model; every operation of
//! [`BridgeService`] is stated as a function on it.

use vstd::prelude::*;
use crate::bridge_proto::{view_option, MsgType, Packet, PacketView};
use crate::dro_decode::{AssemblerState, DroAssembler, DroSnapshot};
use crate::le_bytes::{from_le16, u16_from_le};
use crate::mock_bus::{MockBusRunner, RunnerState, CADENCE_TERMINATOR};
use crate::wrap::{succ16, succ32};

verus! {

/// Flag bit of a telemetry packet: telemetry is enabled.
pub const FLAG_ENABLED: u8 = 1;

/// Telemetry period after start-up, in milliseconds.
pub const DEFAULT_PERIOD_MS: u16 = 100;

/// Status byte of a positive reply.
pub const STATUS_OK: u8 = 0;

/// Reason code: the request's payload is too short.
pub const NACK_SHORT_PAYLOAD: u8 = 0x01;

/// Reason code: the request's type is not served.
pub const NACK_UNSUPPORTED: u8 = 0xFE;

/// `after` holds `replies` in its first places and is as `before` in the rest.
pub open spec fn replies_placed(before: [Packet; 2], after: [Packet; 2], replies: Seq<PacketView>) -> bool {
    &&& replies.len() <= 2
    &&& forall|i: int|
        0 <= i < 2 ==> if i < replies.len() {
            (#[trigger] after@[i])@ == replies[i]
        } else {
            after@[i] == before@[i]
        }
}

/// The replies to `req`, in the order in which they are sent, where
/// `snapshot` is the telemetry packet that answers a snapshot request.
///
/// | request                      | replies                      |
/// |------------------------------|------------------------------|
/// | ping                         | ack                          |
/// | telemetry switch, no payload | nack, payload too short      |
/// | telemetry switch             | ack                          |
/// | snapshot request             | `snapshot`, then ack         |
/// | any other                    | nack, type not served        |
pub open spec fn request_replies(req: PacketView, snapshot: PacketView) -> Seq<PacketView> {
    match req.msg_type {
        MsgType::Ping => seq![PacketView::ack(req.seq, MsgType::Ping, STATUS_OK)],
        MsgType::TelemetrySet => if req.payload_len < 1 {
            seq![PacketView::nack(req.seq, MsgType::TelemetrySet.code(), NACK_SHORT_PAYLOAD)]
        } else {
            seq![PacketView::ack(req.seq, MsgType::TelemetrySet, STATUS_OK)]
        },
        MsgType::SnapshotReq => seq![
            snapshot,
            PacketView::ack(req.seq, MsgType::SnapshotReq, STATUS_OK),
        ],
        _ => seq![PacketView::nack(req.seq, req.msg_type.code(), NACK_UNSUPPORTED)],
    }
}

/// The telemetry switch after `req`: the first payload byte of a telemetry
/// switch request sets it, and nothing else does.
pub open spec fn switch_after(req: PacketView, enabled: bool) -> bool {
    if req.msg_type == MsgType::TelemetrySet && req.payload_len >= 1 {
        req.payload[0] != 0
    } else {
        enabled
    }
}

/// The telemetry period after `req`: the second and third payload byte of
/// a telemetry switch request set it, and nothing else does.
pub open spec fn period_after(req: PacketView, period_ms: u16) -> u16 {
    if req.msg_type == MsgType::TelemetrySet && req.payload_len >= 3 {
        from_le16(req.payload[1], req.payload[2])
    } else {
        period_ms
    }
}

/// The flags byte of a telemetry packet.
pub open spec fn telemetry_flags(enabled: bool) -> u8 {
    if enabled {
        FLAG_ENABLED
    } else {
        0
    }
}

/// Mathematical model of a [`BridgeService`].
pub struct ServiceState {
    pub telemetry_enabled: bool,
    pub telemetry_period_ms: u16,
    pub tick: u32,
    pub telemetry_seq: u16,
    pub bus_cycles: u32,
    pub tx_timeout_count: u32,
    pub rx_timeout_count: u32,
    pub mock: RunnerState,
    pub dro: AssemblerState,
}

impl ServiceState {
    /// The service after start-up: telemetry off, the first event will carry
    /// sequence number one.
    pub open spec fn initial() -> ServiceState {
        ServiceState {
            telemetry_enabled: false,
            telemetry_period_ms: DEFAULT_PERIOD_MS,
            tick: 0,
            telemetry_seq: 1,
            bus_cycles: 0,
            tx_timeout_count: 0,
            rx_timeout_count: 0,
            mock: RunnerState::initial(),
            dro: AssemblerState::initial(),
        }
    }

    /// The mock bus stands at a place of the cadence.
    pub open spec fn wf(self) -> bool {
        self.mock.wf()
    }

    /// The flags byte of a telemetry packet.
    pub open spec fn flags(self) -> u8 {
        telemetry_flags(self.telemetry_enabled)
    }

    /// What the assembler holds.
    pub open spec fn snapshot(self) -> DroSnapshot {
        self.dro.snapshot()
    }

    /// The telemetry packet with sequence number `seq` for the current tick
    /// and snapshot.
    pub open spec fn telemetry_packet(self, seq: u16) -> PacketView {
        PacketView::telemetry(
            seq,
            self.tick,
            self.snapshot().x_counts,
            self.snapshot().z_counts,
            self.snapshot().rpm,
            self.flags(),
        )
    }

    /// The replies to `req`, in the order in which they are sent.
    pub open spec fn replies(self, req: PacketView) -> Seq<PacketView> {
        request_replies(req, self.telemetry_packet(req.seq))
    }

    /// The service after `req`: only the telemetry switch can change.
    pub open spec fn after_request(self, req: PacketView) -> ServiceState {
        ServiceState {
            telemetry_enabled: switch_after(req, self.telemetry_enabled),
            telemetry_period_ms: period_after(req, self.telemetry_period_ms),
            ..self
        }
    }

    /// The next poll consumes the sub-query that closes the cadence.
    pub open spec fn at_terminator(self) -> bool {
        self.mock.next_cmd() == CADENCE_TERMINATOR
    }

    /// The service after one bus dialogue: tick and cycle count have
    /// advanced and the assembler has heard the answer.
    pub open spec fn after_bus_step(self) -> ServiceState {
        ServiceState {
            tick: succ32(self.tick),
            bus_cycles: succ32(self.bus_cycles),
            mock: self.mock.step(),
            dro: self.dro.apply(self.mock.frame().cmd_fc80, self.mock.frame().response_fcf1),
            ..self
        }
    }

    /// The event that a poll yields: none while telemetry is off, none
    /// within the cadence, and the telemetry packet of the finished cadence
    /// at its end.
    pub open spec fn poll_event(self) -> Option<PacketView> {
        if self.telemetry_enabled && self.at_terminator() {
            Some(self.after_bus_step().telemetry_packet(self.telemetry_seq))
        } else {
            None
        }
    }

    /// The service after a poll. While telemetry is off nothing moves. An
    /// event uses up one sequence number.
    pub open spec fn after_poll(self) -> ServiceState {
        if !self.telemetry_enabled {
            self
        } else if self.at_terminator() {
            ServiceState { telemetry_seq: succ16(self.telemetry_seq), ..self.after_bus_step() }
        } else {
            self.after_bus_step()
        }
    }

    /// The health report of the service.
    pub open spec fn health_packet(self) -> PacketView {
        PacketView::health(
            self.telemetry_seq,
            self.tx_timeout_count,
            self.rx_timeout_count,
            self.bus_cycles,
        )
    }

    /// The service after a health report, which uses up one sequence number.
    pub open spec fn after_health(self) -> ServiceState {
        ServiceState { telemetry_seq: succ16(self.telemetry_seq), ..self }
    }
}

/// Answers requests and emits telemetry events from the mock bus.
pub struct BridgeService {
    telemetry_enabled: bool,
    telemetry_period_ms: u16,
    tick: u32,
    telemetry_seq: u16,
    bus_cycles: u32,
    tx_timeout_count: u32,
    rx_timeout_count: u32,
    mock: MockBusRunner,
    dro: DroAssembler,
}

impl View for BridgeService {
    type V = ServiceState;

    closed spec fn view(&self) -> ServiceState {
        ServiceState {
            telemetry_enabled: self.telemetry_enabled,
            telemetry_period_ms: self.telemetry_period_ms,
            tick: self.tick,
            telemetry_seq: self.telemetry_seq,
            bus_cycles: self.bus_cycles,
            tx_timeout_count: self.tx_timeout_count,
            rx_timeout_count: self.rx_timeout_count,
            mock: self.mock@,
            dro: self.dro@,
        }
    }
}

impl BridgeService {
    /// A service after start-up.
    pub fn new() -> (svc: Self)
        ensures
            svc@ == ServiceState::initial(),
    {
        BridgeService {
            telemetry_enabled: false,
            telemetry_period_ms: DEFAULT_PERIOD_MS,
            tick: 0,
            telemetry_seq: 1,
            bus_cycles: 0,
            tx_timeout_count: 0,
            rx_timeout_count: 0,
            mock: MockBusRunner::new(),
            dro: DroAssembler::new(),
        }
    }

    /// Answers `req`. The replies are written to the first places of `out`,
    /// and their number, one or two, is returned; the rest of `out` stays.
    pub fn handle_request(&mut self, req: Packet, out: &mut [Packet; 2]) -> (n: usize)
        ensures
            n == old(self)@.replies(req@).len(),
            1 <= n <= 2,
            replies_placed(*old(out), *final(out), old(self)@.replies(req@)),
            final(self)@ == old(self)@.after_request(req@),
    {
        match req.msg_type {
            MsgType::Ping => {
                out[0] = Packet::ack(req.seq, MsgType::Ping, STATUS_OK);
                1
            },
            MsgType::TelemetrySet => {
                if req.payload_len < 1 {
                    out[0] = Packet::nack(req.seq, MsgType::TelemetrySet.to_u8(), NACK_SHORT_PAYLOAD);
                    return 1;
                }
                self.telemetry_enabled = req.payload[0] != 0;
                if req.payload_len >= 3 {
                    self.telemetry_period_ms = u16_from_le(req.payload[1], req.payload[2]);
                }
                out[0] = Packet::ack(req.seq, MsgType::TelemetrySet, STATUS_OK);
                1
            },
            MsgType::SnapshotReq => {
                out[0] = Packet::telemetry(
                    req.seq,
                    self.tick,
                    self.snapshot().x_counts,
                    self.snapshot().z_counts,
                    self.snapshot().rpm,
                    self.flags(),
                );
                out[1] = Packet::ack(req.seq, MsgType::SnapshotReq, STATUS_OK);
                2
            },
            _ => {
                out[0] = Packet::nack(req.seq, req.msg_type.to_u8(), NACK_UNSUPPORTED);
                1
            },
        }
    }

    /// Performs one bus dialogue if telemetry is enabled, and returns the
    /// telemetry event of the cadence if the dialogue closed one.
    pub fn poll_telemetry_event(&mut self) -> (event: Option<Packet>)
        ensures
            view_option(event) == old(self)@.poll_event(),
            event is Some <==> old(self)@.telemetry_enabled && old(self)@.at_terminator(),
            final(self)@ == old(self)@.after_poll(),
            event matches Some(pkt) ==> pkt.seq == old(self)@.telemetry_seq,
            event is Some ==> final(self)@.telemetry_seq == succ16(old(self)@.telemetry_seq),
            event is None ==> final(self)@.telemetry_seq == old(self)@.telemetry_seq,
    {
        if !self.telemetry_enabled {
            return None;
        }
        let frame = self.mock.step();
        self.tick = self.tick.wrapping_add(1);
        self.bus_cycles = self.bus_cycles.wrapping_add(1);
        self.dro.on_fc80_fcf1(frame.cmd_fc80, frame.response_fcf1);

        // One telemetry packet per full cadence.
        if frame.cmd_fc80 != CADENCE_TERMINATOR {
            return None;
        }
        let s = self.snapshot();
        let pkt = Packet::telemetry(
            self.telemetry_seq,
            self.tick,
            s.x_counts,
            s.z_counts,
            s.rpm,
            self.flags(),
        );
        self.telemetry_seq = self.telemetry_seq.wrapping_add(1);
        Some(pkt)
    }

    /// Returns a health report with the next sequence number of the events.
    pub fn health_packet(&mut self) -> (pkt: Packet)
        ensures
            pkt@ == old(self)@.health_packet(),
            final(self)@ == old(self)@.after_health(),
    {
        let pkt = Packet::health(
            self.telemetry_seq,
            self.tx_timeout_count,
            self.rx_timeout_count,
            self.bus_cycles,
        );
        self.telemetry_seq = self.telemetry_seq.wrapping_add(1);
        pkt
    }

    /// The telemetry period in milliseconds.
    pub fn telemetry_period_ms(&self) -> (ms: u16)
        ensures
            ms == self@.telemetry_period_ms,
    {
        self.telemetry_period_ms
    }

    /// What the assembler holds.
    pub fn snapshot(&self) -> (s: DroSnapshot)
        ensures
            s == self@.snapshot(),
    {
        self.dro.snapshot()
    }

    /// The flags byte of a telemetry packet.
    pub fn flags(&self) -> (f: u8)
        ensures
            f == self@.flags(),
    {
        if self.telemetry_enabled {
            FLAG_ENABLED
        } else {
            0
        }
    }
}

} // verus!
