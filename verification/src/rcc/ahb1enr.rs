//! AHB1 peripheral clock enable bits of the reset and clock controller.

use vstd::prelude::*;

verus! {

/// GPIO bank A clock enable.
pub const GPIOAEN: u32 = 0b1u32 << 0;

/// GPIO bank B clock enable.
pub const GPIOBEN: u32 = 0b1u32 << 1;

/// GPIO bank C clock enable.
pub const GPIOCEN: u32 = 0b1u32 << 2;

/// GPIO bank H clock enable.
pub const GPIOHEN: u32 = 0b1u32 << 7;

} // verus!
