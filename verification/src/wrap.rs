//! Counters that start again at zero after their largest value.

use vstd::prelude::*;

verus! {

/// The 16-bit value after `x`, zero after the largest.
pub open spec fn succ16(x: u16) -> u16 {
    if x == u16::MAX {
        0
    } else {
        (x + 1) as u16
    }
}

/// The 32-bit value after `x`, zero after the largest.
pub open spec fn succ32(x: u32) -> u32 {
    if x == u32::MAX {
        0
    } else {
        (x + 1) as u32
    }
}

} // verus!
