//! APB1 peripheral clock enable bits of the reset and clock controller.

use vstd::prelude::*;

verus! {

/// SPI controller 2 clock enable.
pub const SPI2EN: u32 = 0b1u32 << 14;

/// SPI controller 3 clock enable.
pub const SPI3EN: u32 = 0b1u32 << 15;

} // verus!
