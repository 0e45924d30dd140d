//! Dedicated clocks configuration register fields of the reset and clock controller.

use vstd::prelude::*;

verus! {

/// Timer clock prescaler selection, bit 24.
pub const TIMPRE_MASK: u32 = 0b1u32 << 24;

/// Timer clocks at twice the bus clock.
pub const TIMPRE_X2: u32 = 0b1u32 << 24;

} // verus!
