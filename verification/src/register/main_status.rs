//! Bits of the MAIN_STATUS register.

use vstd::prelude::*;

verus! {

/// Power-on status bit
pub const POWER_ON_STATUS: u8 = 0x20;

/// Interrupt status bit
pub const INT_STATUS: u8 = 0x10;

/// Data status bit
pub const DATA_STATUS: u8 = 0x08;

} // verus!
