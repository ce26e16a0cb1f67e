//! Low address bytes of the bus registers that carry the DRO dialogue.

use vstd::prelude::*;

verus! {

/// Register that takes a DRO sub-query.
pub const FC80: u8 = 0x80;

/// Register that holds the status byte.
pub const FCF0: u8 = 0xF0;

/// Register that holds the queried data byte.
pub const FCF1: u8 = 0xF1;

} // verus!
