//! A deterministic stand-in for the lathe controller's side of the DRO
//! dialogue.
//!
//! The engine holds synthetic telemetry that follows a fixed trajectory of
//! its tick counter, and answers DRO sub-queries from it byte by byte, as
//! the controller would: a sign byte and three magnitude bytes for each
//! axis, two bytes for the spindle speed.

use vstd::prelude::*;
use crate::le_bytes::{le16, u16_to_le};

verus! {

/// Axis positions in counts and spindle speed, as the engine holds them.
#[derive(Clone, Copy, Debug, PartialEq, Eq, Structural)]
pub struct DroTelemetry {
    pub x_counts: i32,
    pub z_counts: i32,
    pub rpm: u16,
}

impl DroTelemetry {
    /// The telemetry of an engine that has not stepped yet.
    pub open spec fn initial() -> DroTelemetry {
        DroTelemetry { x_counts: 0, z_counts: 0, rpm: 1200 }
    }

    /// The synthetic telemetry at `tick`. The phase advances once in sixteen
    /// ticks; X sweeps the window of 1024 counts around zero, Z sweeps it
    /// three times as fast, and the speed climbs from 800 in steps of 5.
    pub open spec fn at_tick(tick: u32) -> DroTelemetry {
        let phase = tick as int / 16;
        DroTelemetry {
            x_counts: (phase % 1024 - 512) as i32,
            z_counts: ((phase * 3) % 1024 - 512) as i32,
            rpm: (800 + 5 * (phase % 256)) as u16,
        }
    }

    /// Both positions fit the 24 bits of magnitude that the bus carries.
    pub open spec fn fits_bus(self) -> bool {
        &&& -0x100_0000 < self.x_counts < 0x100_0000
        &&& -0x100_0000 < self.z_counts < 0x100_0000
    }
}

impl Default for DroTelemetry {
    fn default() -> (t: Self)
        ensures
            t == DroTelemetry::initial(),
    {
        DroTelemetry { x_counts: 0, z_counts: 0, rpm: 1200 }
    }
}

/// What the controller answers to one sub-query.
#[derive(Clone, Copy, Debug, PartialEq, Eq, Structural)]
pub struct FredReply {
    pub status_fcf0: u8,
    pub response_fcf1: u8,
}

/// Status byte of a controller that is ready.
pub const STATUS_READY: u8 = 0x00;

/// The low 24 bits of the absolute value of `v`.
pub open spec fn abs24_of(v: i32) -> u32 {
    ((if v < 0 {
        -(v as int)
    } else {
        v as int
    }) % 0x100_0000) as u32
}

/// The sign byte of `v`: one for a negative value, zero otherwise.
pub open spec fn sign_byte_of(v: i32) -> u8 {
    if v < 0 {
        1
    } else {
        0
    }
}

/// The byte of `v` that counts multiples of 65536.
pub open spec fn byte2_of(v: u32) -> u8 {
    (v / 65536 % 256) as u8
}

/// The byte of `v` that counts multiples of 256.
pub open spec fn byte1_of(v: u32) -> u8 {
    (v / 256 % 256) as u8
}

/// The lowest byte of `v`.
pub open spec fn byte0_of(v: u32) -> u8 {
    (v % 256) as u8
}

/// Mathematical model of a [`DroProtocolEngine`].
pub struct EngineState {
    pub telemetry: DroTelemetry,
    pub tick: u32,
}

impl EngineState {
    /// The engine before its first step.
    pub open spec fn initial() -> EngineState {
        EngineState { telemetry: DroTelemetry::initial(), tick: 0 }
    }

    /// The positions fit the 24 bits of magnitude that the bus carries. It
    /// holds of a new engine and after every step.
    pub open spec fn wf(self) -> bool {
        self.telemetry.fits_bus()
    }

    /// The engine one tick later. The tick counter wraps.
    pub open spec fn step(self) -> EngineState {
        let tick = if self.tick == u32::MAX {
            0u32
        } else {
            (self.tick + 1) as u32
        };
        EngineState { telemetry: DroTelemetry::at_tick(tick), tick }
    }

    /// The data byte that answers the sub-query `cmd`.
    pub open spec fn response(self, cmd: u8) -> u8 {
        let t = self.telemetry;
        if cmd == 0x03 {
            sign_byte_of(t.x_counts)
        } else if cmd == 0x02 {
            byte2_of(abs24_of(t.x_counts))
        } else if cmd == 0x01 {
            byte1_of(abs24_of(t.x_counts))
        } else if cmd == 0x00 {
            byte0_of(abs24_of(t.x_counts))
        } else if cmd == 0x07 {
            sign_byte_of(t.z_counts)
        } else if cmd == 0x06 {
            byte2_of(abs24_of(t.z_counts))
        } else if cmd == 0x05 {
            byte1_of(abs24_of(t.z_counts))
        } else if cmd == 0x04 {
            byte0_of(abs24_of(t.z_counts))
        } else if cmd == 0x0D {
            le16(t.rpm)[1]
        } else if cmd == 0x0C {
            le16(t.rpm)[0]
        } else {
            0
        }
    }

    /// The whole answer to the sub-query `cmd`: the controller is always ready.
    pub open spec fn reply(self, cmd: u8) -> FredReply {
        FredReply { status_fcf0: STATUS_READY, response_fcf1: self.response(cmd) }
    }
}

/// Synthesises telemetry and answers DRO sub-queries from it.
pub struct DroProtocolEngine {
    telemetry: DroTelemetry,
    tick: u32,
}

impl View for DroProtocolEngine {
    type V = EngineState;

    closed spec fn view(&self) -> EngineState {
        EngineState { telemetry: self.telemetry, tick: self.tick }
    }
}

proof fn lemma_phase_bits(tick: u32)
    by (bit_vector)
    ensures
        tick >> 4 == tick / 16,
        tick >> 4 < 0x1000_0000,
{
}

proof fn lemma_window_bits(p: i32)
    by (bit_vector)
    requires
        0 <= p < 0x4000_0000,
    ensures
        p & 0x03FF == p % 1024,
{
}

proof fn lemma_speed_bits(p: i32)
    by (bit_vector)
    requires
        0 <= p,
    ensures
        (p as u16) & 0x00FF == (p % 256) as u16,
{
}

proof fn lemma_low24_bits(m: u32)
    by (bit_vector)
    ensures
        m & 0x00FF_FFFF == m % 0x100_0000,
{
}

proof fn lemma_byte_bits(v: u32)
    by (bit_vector)
    ensures
        (v >> 16) & 0xFF == v / 65536 % 256,
        (v >> 8) & 0xFF == v / 256 % 256,
        v & 0xFF == v % 256,
{
}

impl DroProtocolEngine {
    /// An engine before its first step.
    pub fn new() -> (e: Self)
        ensures
            e@ == EngineState::initial(),
            e@.wf(),
    {
        DroProtocolEngine { telemetry: DroTelemetry { x_counts: 0, z_counts: 0, rpm: 1200 }, tick: 0 }
    }

    /// The telemetry that the engine holds.
    pub fn telemetry(&self) -> (t: DroTelemetry)
        ensures
            t == self@.telemetry,
    {
        self.telemetry
    }

    /// Advances the tick by one and recomputes the telemetry from it.
    pub fn step_telemetry(&mut self)
        ensures
            final(self)@ == old(self)@.step(),
            final(self)@.wf(),
    {
        self.tick = self.tick.wrapping_add(1);
        let phase: i32 = (self.tick >> 4) as i32;
        proof {
            lemma_phase_bits(self.tick);
            lemma_window_bits(phase);
            lemma_window_bits((phase * 3) as i32);
            lemma_speed_bits(phase);
        }
        self.telemetry.x_counts = (phase & 0x03FF) - 0x0200;
        self.telemetry.z_counts = ((phase * 3) & 0x03FF) - 0x0200;
        self.telemetry.rpm = 800 + ((phase as u16) & 0x00FF) * 5;
    }

    /// Answers the sub-query `cmd_fc80`. The engine stays as it is.
    pub fn on_command(&mut self, cmd_fc80: u8) -> (reply: FredReply)
        ensures
            reply == old(self)@.reply(cmd_fc80),
            final(self)@ == old(self)@,
    {
        let status: u8 = STATUS_READY;
        let speed: [u8; 2] = u16_to_le(self.telemetry.rpm);
        let response: u8 = match cmd_fc80 {
            0x03 => sign_byte(self.telemetry.x_counts),
            0x02 => byte2(abs24(self.telemetry.x_counts)),
            0x01 => byte1(abs24(self.telemetry.x_counts)),
            0x00 => byte0(abs24(self.telemetry.x_counts)),
            0x07 => sign_byte(self.telemetry.z_counts),
            0x06 => byte2(abs24(self.telemetry.z_counts)),
            0x05 => byte1(abs24(self.telemetry.z_counts)),
            0x04 => byte0(abs24(self.telemetry.z_counts)),
            0x0D => speed[1],
            0x0C => speed[0],
            _ => 0x00,
        };
        FredReply { status_fcf0: status, response_fcf1: response }
    }
}

/// Returns the low 24 bits of the absolute value of `v`.
pub fn abs24(v: i32) -> (m: u32)
    ensures
        m == abs24_of(v),
{
    let mag: u32 = if v < 0 {
        (-(v as i64)) as u32
    } else {
        v as u32
    };
    proof {
        lemma_low24_bits(mag);
    }
    mag & 0x00FF_FFFF
}

/// Returns the sign byte of `v`.
pub fn sign_byte(v: i32) -> (b: u8)
    ensures
        b == sign_byte_of(v),
{
    if v < 0 {
        0x01
    } else {
        0x00
    }
}

/// Returns the byte of `v` that counts multiples of 65536.
pub fn byte2(v: u32) -> (b: u8)
    ensures
        b == byte2_of(v),
{
    proof {
        lemma_byte_bits(v);
    }
    ((v >> 16) & 0xFF) as u8
}

/// Returns the byte of `v` that counts multiples of 256.
pub fn byte1(v: u32) -> (b: u8)
    ensures
        b == byte1_of(v),
{
    proof {
        lemma_byte_bits(v);
    }
    ((v >> 8) & 0xFF) as u8
}

/// Returns the lowest byte of `v`.
pub fn byte0(v: u32) -> (b: u8)
    ensures
        b == byte0_of(v),
{
    proof {
        lemma_byte_bits(v);
    }
    (v & 0xFF) as u8
}

} // verus!
