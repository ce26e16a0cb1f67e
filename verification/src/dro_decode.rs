//! Reassembly of DRO values from single register reads.
//!
//! One cadence of ten reads carries, for each axis, a sign byte and three
//! magnitude bytes, and two bytes of spindle speed. The assembler keeps the
//! bytes seen last and puts a snapshot together on request.

use vstd::prelude::*;
use crate::le_bytes::{u16_from_le, u32_from_le};

verus! {

/// Axis positions in counts and spindle speed, as put together from the bus.
#[derive(Clone, Copy, Debug, PartialEq, Eq, Structural)]
pub struct DroSnapshot {
    pub x_counts: i32,
    pub z_counts: i32,
    pub rpm: u16,
}

impl Default for DroSnapshot {
    fn default() -> (s: Self)
        ensures
            s == (DroSnapshot { x_counts: 0, z_counts: 0, rpm: 0 }),
    {
        DroSnapshot { x_counts: 0, z_counts: 0, rpm: 0 }
    }
}

/// The bytes of one axis: a sign and a magnitude of three bytes.
#[derive(Clone, Copy, Debug, PartialEq, Eq, Structural)]
pub struct AxisScratch {
    pub sign_neg: bool,
    pub b2: u8,
    pub b1: u8,
    pub b0: u8,
}

impl Default for AxisScratch {
    fn default() -> (a: Self)
        ensures
            a == AxisScratch::zero(),
    {
        AxisScratch { sign_neg: false, b2: 0, b1: 0, b0: 0 }
    }
}

impl AxisScratch {
    /// An axis of which nothing was seen yet.
    pub open spec fn zero() -> AxisScratch {
        AxisScratch { sign_neg: false, b2: 0, b1: 0, b0: 0 }
    }

    /// The magnitude that the three bytes stand for, `b2` being the highest.
    pub open spec fn magnitude(self) -> int {
        65536 * self.b2 + 256 * self.b1 + self.b0
    }

    /// The signed position: the magnitude, negated where the sign is set.
    pub open spec fn value(self) -> int {
        if self.sign_neg {
            -self.magnitude()
        } else {
            self.magnitude()
        }
    }

    /// Returns the signed position in counts.
    pub fn counts(&self) -> (c: i32)
        ensures
            c == self.value(),
            -0x100_0000 < c < 0x100_0000,
    {
        let mag: u32 = u32_from_le(self.b0, self.b1, self.b2, 0);
        if self.sign_neg {
            -(mag as i32)
        } else {
            mag as i32
        }
    }
}

/// Mathematical model of a [`DroAssembler`]: the bytes seen last.
pub struct AssemblerState {
    pub x: AxisScratch,
    pub z: AxisScratch,
    pub rpm_hi: u8,
    pub rpm_lo: u8,
}

impl AssemblerState {
    /// The state in which nothing was seen yet.
    pub open spec fn initial() -> AssemblerState {
        AssemblerState { x: AxisScratch::zero(), z: AxisScratch::zero(), rpm_hi: 0, rpm_lo: 0 }
    }

    /// The state after the answer `response` to the sub-query `cmd`. Each of
    /// the ten sub-queries of the cadence sets one byte; any other leaves
    /// the state as it is.
    pub open spec fn apply(self, cmd: u8, response: u8) -> AssemblerState {
        if cmd == 0x03 {
            AssemblerState { x: AxisScratch { sign_neg: response != 0, ..self.x }, ..self }
        } else if cmd == 0x02 {
            AssemblerState { x: AxisScratch { b2: response, ..self.x }, ..self }
        } else if cmd == 0x01 {
            AssemblerState { x: AxisScratch { b1: response, ..self.x }, ..self }
        } else if cmd == 0x00 {
            AssemblerState { x: AxisScratch { b0: response, ..self.x }, ..self }
        } else if cmd == 0x07 {
            AssemblerState { z: AxisScratch { sign_neg: response != 0, ..self.z }, ..self }
        } else if cmd == 0x06 {
            AssemblerState { z: AxisScratch { b2: response, ..self.z }, ..self }
        } else if cmd == 0x05 {
            AssemblerState { z: AxisScratch { b1: response, ..self.z }, ..self }
        } else if cmd == 0x04 {
            AssemblerState { z: AxisScratch { b0: response, ..self.z }, ..self }
        } else if cmd == 0x0D {
            AssemblerState { rpm_hi: response, ..self }
        } else if cmd == 0x0C {
            AssemblerState { rpm_lo: response, ..self }
        } else {
            self
        }
    }

    /// The values that the bytes seen last stand for.
    pub open spec fn snapshot(self) -> DroSnapshot {
        DroSnapshot {
            x_counts: self.x.value() as i32,
            z_counts: self.z.value() as i32,
            rpm: (256 * self.rpm_hi + self.rpm_lo) as u16,
        }
    }
}

/// Collects the bytes of the DRO cadence.
pub struct DroAssembler {
    x: AxisScratch,
    z: AxisScratch,
    rpm_hi: u8,
    rpm_lo: u8,
}

impl View for DroAssembler {
    type V = AssemblerState;

    closed spec fn view(&self) -> AssemblerState {
        AssemblerState { x: self.x, z: self.z, rpm_hi: self.rpm_hi, rpm_lo: self.rpm_lo }
    }
}

impl DroAssembler {
    /// An assembler that has seen nothing yet.
    pub fn new() -> (a: Self)
        ensures
            a@ == AssemblerState::initial(),
    {
        DroAssembler {
            x: AxisScratch { sign_neg: false, b2: 0, b1: 0, b0: 0 },
            z: AxisScratch { sign_neg: false, b2: 0, b1: 0, b0: 0 },
            rpm_hi: 0,
            rpm_lo: 0,
        }
    }

    /// Takes in the answer `response` to the sub-query `cmd`.
    pub fn on_fc80_fcf1(&mut self, cmd: u8, response: u8)
        ensures
            final(self)@ == old(self)@.apply(cmd, response),
    {
        match cmd {
            0x03 => self.x.sign_neg = response != 0,
            0x02 => self.x.b2 = response,
            0x01 => self.x.b1 = response,
            0x00 => self.x.b0 = response,
            0x07 => self.z.sign_neg = response != 0,
            0x06 => self.z.b2 = response,
            0x05 => self.z.b1 = response,
            0x04 => self.z.b0 = response,
            0x0D => self.rpm_hi = response,
            0x0C => self.rpm_lo = response,
            _ => {},
        }
    }

    /// Puts together what the bytes seen last stand for. The bytes stay.
    pub fn snapshot(&self) -> (s: DroSnapshot)
        ensures
            s == self@.snapshot(),
    {
        DroSnapshot {
            x_counts: self.x.counts(),
            z_counts: self.z.counts(),
            rpm: u16_from_le(self.rpm_lo, self.rpm_hi),
        }
    }
}

} // verus!
