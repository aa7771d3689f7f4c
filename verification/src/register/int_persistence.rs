//! Fields of the INT_PERSISTENCE register.

use vstd::prelude::*;

verus! {

/// Persistence bits
pub const PERSIST_MASK: u8 = 0xF0;

/// Persistence shift
pub const PERSIST_SHIFT: u8 = 4;

/// The largest persistence count the field can hold
pub const PERSIST_MAX: u8 = 15;

} // verus!
