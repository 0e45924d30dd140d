//! Clock configuration register fields of the reset and clock controller.

use vstd::prelude::*;

verus! {

/// System clock source selection, bits 0..=1.
pub const SW_MASK: u32 = 0b11u32;

/// System clock from the PLL.
pub const SW_PLL: u32 = 0b10u32;

/// System clock source status, bits 2..=3.
pub const SWS_MASK: u32 = 0b11u32 << 2;

/// Status value: PLL selected.
pub const SWS_PLL: u32 = 0b10u32 << 2;

/// AHB prescaler, bits 4..=7.
pub const HPRE_MASK: u32 = 0xFu32 << 4;

/// AHB clock not divided.
pub const HPRE_DIV1: u32 = 0b0000u32 << 4;

/// APB1 prescaler, bits 10..=12.
pub const PPRE1_MASK: u32 = 0b111u32 << 10;

/// APB1 clock divided by two.
pub const PPRE1_DIV2: u32 = 0b100u32 << 10;

/// APB2 prescaler, bits 13..=15.
pub const PPRE2_MASK: u32 = 0b111u32 << 13;

/// APB2 clock not divided.
pub const PPRE2_DIV1: u32 = 0b000u32 << 13;

} // verus!
