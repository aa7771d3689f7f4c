//! Fields of the INT_CFG register.

use vstd::prelude::*;

verus! {

/// Interrupt source selection bits
pub const INT_SEL_MASK: u8 = 0x30;

/// Interrupt source selection shift
pub const INT_SEL_SHIFT: u8 = 4;

/// Variation interrupt mode bit
pub const VAR_MODE: u8 = 0x08;

/// Variation interrupt mode shift
pub const VAR_MODE_SHIFT: u8 = 3;

/// Interrupt enable bit
pub const INT_EN: u8 = 0x04;

/// Interrupt enable shift
pub const INT_EN_SHIFT: u8 = 2;

} // verus!
