//! Status register bits of the flash controller.

use vstd::prelude::*;

verus! {

/// Busy.
pub const BSY: u32 = 0b1u32 << 16;

/// Read protection error.
pub const RDERR: u32 = 0b1u32 << 8;

/// Programming sequence error.
pub const PGSERR: u32 = 0b1u32 << 7;

/// Programming parallelism error.
pub const PGPERR: u32 = 0b1u32 << 6;

/// Programming alignment error.
pub const PGAERR: u32 = 0b1u32 << 5;

/// Write protection error.
pub const WRPERR: u32 = 0b1u32 << 4;

/// Operation error.
pub const OPERR: u32 = 0b1u32 << 1;

/// End of operation.
pub const EOP: u32 = 0b1u32 << 0;

} // verus!
