//! Bits of the MAIN_CTRL register.

use vstd::prelude::*;

verus! {

/// Software reset bit
pub const SW_RESET: u8 = 0x10;

/// Enable bit
pub const EN: u8 = 0x02;

} // verus!
