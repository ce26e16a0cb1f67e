//! The dispatch state machine of the active bus master.
//!
//! It answers requests as the mock-backed service does, but its telemetry
//! comes from real bus cycles: each poll poses the next sub-query of the
//! cadence, and the snapshot is taken when the cadence closes. The bus
//! cycles themselves are the caller's part; their outcomes come in as
//! arguments.

use vstd::prelude::*;
use crate::bridge_proto::{view_option, MsgType, Packet, PacketView};
use crate::bridge_service::{
    period_after,
    replies_placed,
    request_replies,
    switch_after,
    telemetry_flags,
    DEFAULT_PERIOD_MS,
    FLAG_ENABLED,
    NACK_SHORT_PAYLOAD,
    NACK_UNSUPPORTED,
    STATUS_OK,
};
use crate::dro_decode::{AssemblerState, DroAssembler, DroSnapshot};
use crate::le_bytes::u16_from_le;
use crate::mock_bus::{CadenceCursor, CADENCE_TERMINATOR, DRO_CADENCE};
use crate::pins::reg::{FCF0, FCF1};
use crate::transport::{ReadCycle, Rp2040FredTransport, TransportState};
use crate::wrap::{succ16, succ32};

verus! {

/// Mathematical model of a [`LiveBridge`].
pub struct LiveState {
    pub telemetry_enabled: bool,
    pub telemetry_period_ms: u16,
    pub tick: u32,
    pub telemetry_seq: u16,
    pub cadence_idx: int,
    pub dro: AssemblerState,
    pub last_snapshot: DroSnapshot,
}

impl LiveState {
    /// The bridge after start-up.
    pub open spec fn initial() -> LiveState {
        LiveState {
            telemetry_enabled: false,
            telemetry_period_ms: DEFAULT_PERIOD_MS,
            tick: 0,
            telemetry_seq: 1,
            cadence_idx: 0,
            dro: AssemblerState::initial(),
            last_snapshot: DroSnapshot { x_counts: 0, z_counts: 0, rpm: 0 },
        }
    }

    /// The telemetry packet with sequence number `seq` for the current tick
    /// and the snapshot of the last full cadence.
    pub open spec fn telemetry_packet(self, seq: u16) -> PacketView {
        PacketView::telemetry(
            seq,
            self.tick,
            self.last_snapshot.x_counts,
            self.last_snapshot.z_counts,
            self.last_snapshot.rpm,
            telemetry_flags(self.telemetry_enabled),
        )
    }

    /// The replies to `req`, in the order in which they are sent.
    pub open spec fn replies(self, req: PacketView) -> Seq<PacketView> {
        request_replies(req, self.telemetry_packet(req.seq))
    }

    /// The bridge after `req`: only the telemetry switch can change.
    pub open spec fn after_request(self, req: PacketView) -> LiveState {
        LiveState {
            telemetry_enabled: switch_after(req, self.telemetry_enabled),
            telemetry_period_ms: period_after(req, self.telemetry_period_ms),
            ..self
        }
    }

    /// The sub-query that the next poll poses, if telemetry is enabled.
    pub open spec fn pending_command(self) -> Option<u8> {
        if self.telemetry_enabled {
            Some(DRO_CADENCE@[self.cadence_idx])
        } else {
            None
        }
    }

    /// The next poll poses the sub-query that closes the cadence.
    pub open spec fn at_terminator(self) -> bool {
        DRO_CADENCE@[self.cadence_idx] == CADENCE_TERMINATOR
    }

    /// The bridge after the bus cycles of one poll, to which the bus
    /// answered `response`, before any event is made.
    pub open spec fn after_bus_step(self, response: u8) -> LiveState {
        LiveState {
            tick: succ32(self.tick),
            cadence_idx: (self.cadence_idx + 1) % 10,
            dro: self.dro.apply(DRO_CADENCE@[self.cadence_idx], response),
            ..self
        }
    }

    /// The bridge after a poll to which the bus answered `response`. At the
    /// end of the cadence the snapshot is taken and one sequence number is
    /// used up.
    pub open spec fn after_poll(self, response: u8) -> LiveState {
        if !self.telemetry_enabled {
            self
        } else if self.at_terminator() {
            LiveState {
                last_snapshot: self.after_bus_step(response).dro.snapshot(),
                telemetry_seq: succ16(self.telemetry_seq),
                ..self.after_bus_step(response)
            }
        } else {
            self.after_bus_step(response)
        }
    }

    /// The event of a poll to which the bus answered `response`.
    pub open spec fn poll_event(self, response: u8) -> Option<PacketView> {
        if self.telemetry_enabled && self.at_terminator() {
            Some(
                (LiveState {
                    telemetry_seq: self.telemetry_seq,
                    ..self.after_poll(response)
                }).telemetry_packet(self.telemetry_seq),
            )
        } else {
            None
        }
    }
}

/// The transport after the three bus cycles of one poll: the write of the
/// sub-query, the read of the status and the read of the data.
pub open spec fn after_poll_cycles(
    t: TransportState,
    cmd: u8,
    pushed: bool,
    status: ReadCycle,
    response: ReadCycle,
) -> TransportState {
    t.after_write(cmd, pushed).after_read(FCF0, status).after_read(FCF1, response)
}

/// Answers requests and emits telemetry events from the real bus.
pub struct LiveBridge {
    telemetry_enabled: bool,
    telemetry_period_ms: u16,
    tick: u32,
    telemetry_seq: u16,
    cadence: CadenceCursor,
    dro: DroAssembler,
    last_snapshot: DroSnapshot,
}

impl View for LiveBridge {
    type V = LiveState;

    closed spec fn view(&self) -> LiveState {
        LiveState {
            telemetry_enabled: self.telemetry_enabled,
            telemetry_period_ms: self.telemetry_period_ms,
            tick: self.tick,
            telemetry_seq: self.telemetry_seq,
            cadence_idx: self.cadence@,
            dro: self.dro@,
            last_snapshot: self.last_snapshot,
        }
    }
}

impl LiveBridge {
    /// A bridge after start-up.
    pub fn new() -> (bridge: Self)
        ensures
            bridge@ == LiveState::initial(),
    {
        LiveBridge {
            telemetry_enabled: false,
            telemetry_period_ms: DEFAULT_PERIOD_MS,
            tick: 0,
            telemetry_seq: 1,
            cadence: CadenceCursor::new(),
            dro: DroAssembler::new(),
            last_snapshot: DroSnapshot { x_counts: 0, z_counts: 0, rpm: 0 },
        }
    }

    /// Answers `req`. The replies are written to the first places of `out`,
    /// and their number, one or two, is returned; the rest of `out` stays.
    pub fn handle_request(&mut self, req: Packet, out: &mut [Packet; 2]) -> (n: usize)
        ensures
            n == old(self)@.replies(req@).len(),
            1 <= n <= 2,
            replies_placed(*old(out), *final(out), old(self)@.replies(req@)),
            final(self)@ == old(self)@.after_request(req@),
    {
        match req.msg_type {
            MsgType::Ping => {
                out[0] = Packet::ack(req.seq, MsgType::Ping, STATUS_OK);
                1
            },
            MsgType::TelemetrySet => {
                if req.payload_len < 1 {
                    out[0] = Packet::nack(req.seq, MsgType::TelemetrySet.to_u8(), NACK_SHORT_PAYLOAD);
                    return 1;
                }
                self.telemetry_enabled = req.payload[0] != 0;
                if req.payload_len >= 3 {
                    self.telemetry_period_ms = u16_from_le(req.payload[1], req.payload[2]);
                }
                out[0] = Packet::ack(req.seq, MsgType::TelemetrySet, STATUS_OK);
                1
            },
            MsgType::SnapshotReq => {
                let s = self.last_snapshot;
                out[0] = Packet::telemetry(
                    req.seq,
                    self.tick,
                    s.x_counts,
                    s.z_counts,
                    s.rpm,
                    self.flags(),
                );
                out[1] = Packet::ack(req.seq, MsgType::SnapshotReq, STATUS_OK);
                2
            },
            _ => {
                out[0] = Packet::nack(req.seq, req.msg_type.to_u8(), NACK_UNSUPPORTED);
                1
            },
        }
    }

    /// The sub-query whose bus cycles the next poll needs: none while
    /// telemetry is off.
    pub fn pending_command(&self) -> (cmd: Option<u8>)
        ensures
            cmd == self@.pending_command(),
    {
        if self.telemetry_enabled {
            Some(self.cadence.current())
        } else {
            None
        }
    }

    /// Takes in the bus cycles of the pending sub-query and returns the
    /// telemetry event of the cadence if they closed one.
    ///
    /// `pushed` tells whether the write word went out, `status` and
    /// `response` how the two reads ended. While telemetry is off the call
    /// does nothing.
    pub fn poll_telemetry_event(
        &mut self,
        transport: &mut Rp2040FredTransport,
        pushed: bool,
        status: ReadCycle,
        response: ReadCycle,
    ) -> (event: Option<Packet>)
        ensures
            old(self)@.pending_command() is None ==> {
                &&& event is None
                &&& final(self)@ == old(self)@
                &&& final(transport)@ == old(transport)@
            },
            old(self)@.pending_command() matches Some(cmd) ==> {
                let answer = TransportState::read_value(response, old(transport)@.response_fcf1);
                &&& final(transport)@ == after_poll_cycles(
                    old(transport)@,
                    cmd,
                    pushed,
                    status,
                    response,
                )
                &&& final(self)@ == old(self)@.after_poll(answer)
                &&& view_option(event) == old(self)@.poll_event(answer)
            },
            event is Some <==> old(self)@.telemetry_enabled && old(self)@.at_terminator(),
            event matches Some(pkt) ==> pkt.seq == old(self)@.telemetry_seq,
            event is Some ==> final(self)@.telemetry_seq == succ16(old(self)@.telemetry_seq),
            event is None ==> final(self)@.telemetry_seq == old(self)@.telemetry_seq,
    {
        if !self.telemetry_enabled {
            return None;
        }
        let cmd: u8 = self.cadence.advance();
        transport.write_fc80(cmd, pushed);
        let _status: u8 = transport.read_fcf0(status);
        let response: u8 = transport.read_fcf1(response);

        self.tick = self.tick.wrapping_add(1);
        self.dro.on_fc80_fcf1(cmd, response);
        if cmd != CADENCE_TERMINATOR {
            return None;
        }
        self.last_snapshot = self.dro.snapshot();
        let s = self.last_snapshot;
        let pkt = Packet::telemetry(
            self.telemetry_seq,
            self.tick,
            s.x_counts,
            s.z_counts,
            s.rpm,
            self.flags(),
        );
        self.telemetry_seq = self.telemetry_seq.wrapping_add(1);
        Some(pkt)
    }

    /// The telemetry period in milliseconds.
    pub fn telemetry_period_ms(&self) -> (ms: u16)
        ensures
            ms == self@.telemetry_period_ms,
    {
        self.telemetry_period_ms
    }

    /// The flags byte of a telemetry packet.
    pub fn flags(&self) -> (f: u8)
        ensures
            f == telemetry_flags(self@.telemetry_enabled),
    {
        if self.telemetry_enabled {
            FLAG_ENABLED
        } else {
            0
        }
    }
}

} // verus!
