//! The register primitive: read-modify-write access to bitfields of a
//! 32-bit hardware register value.
//!
//! A bitfield is described by its bit offset and bit width inside the
//! register.  Writing a bitfield preserves every bit outside its range
//! and replaces the bits inside the range by the (width-masked) new
//! value; this module states and proves exactly that.

use vstd::prelude::*;

verus! {

/// The low `width` bits set: `(1 << width) - 1`.
pub open spec fn low_mask(width: u32) -> u32
    recommends
        width < 32,
{
    ((1u32 << width) - 1) as u32
}

/// The in-place mask of a bitfield: `width` ones starting at bit `offset`.
pub open spec fn field_mask(offset: u32, width: u32) -> u32
    recommends
        width < 32,
        offset + width <= 32,
{
    low_mask(width) << offset
}

/// The register value after a read-modify-write of one bitfield:
/// bits outside the field keep their old value, bits inside the field
/// take the low `width` bits of `value`.
pub open spec fn spec_set_field(reg: u32, offset: u32, width: u32, value: u32) -> u32 {
    (reg & !field_mask(offset, width)) | ((value & low_mask(width)) << offset)
}

/// The current contents of one bitfield, shifted down to bit 0.
pub open spec fn spec_get_field(reg: u32, offset: u32, width: u32) -> u32 {
    (reg >> offset) & low_mask(width)
}

/// Bits outside the field are unchanged by a field write, and the bits
/// inside the field afterwards equal the written value masked to the
/// field's width.
pub proof fn lemma_set_field(reg: u32, offset: u32, width: u32, value: u32)
    by (bit_vector)
    requires
        0 < width < 32,
        offset + width <= 32,
    ensures
        spec_set_field(reg, offset, width, value) & !field_mask(offset, width) == reg & !field_mask(
            offset,
            width,
        ),
        spec_get_field(spec_set_field(reg, offset, width, value), offset, width) == value
            & low_mask(width),
{
}

/// A field write is idempotent: writing the same value twice leaves the
/// register exactly as the first write did.
pub proof fn lemma_set_field_idempotent(reg: u32, offset: u32, width: u32, value: u32)
    by (bit_vector)
    requires
        0 < width < 32,
        offset + width <= 32,
    ensures
        spec_set_field(spec_set_field(reg, offset, width, value), offset, width, value)
            == spec_set_field(reg, offset, width, value),
{
}

/// Setting bits with a mask: the masked bits read back as the mask and
/// every other bit is unchanged; clearing with a mask reads back zero.
pub proof fn lemma_mask_ops(x: u32, m: u32)
    by (bit_vector)
    ensures
        (x | m) & m == m,
        (x | m) & !m == x & !m,
        (x & !m) & m == 0,
        ((x | m) & !m) | m == x | m,
        x & m == m ==> (x | m) == x,
        x & m == 0 ==> (x & !m) == x,
        0u32 & m == 0,
        m & m == m,
        x | 0u32 == x,
{
}

/// A left shift of 1 by fewer than 32 bits never yields zero, so the
/// width mask of a field can be formed without underflow.
pub proof fn lemma_one_shl_pos(width: u32)
    by (bit_vector)
    requires
        width < 32,
    ensures
        1u32 << width >= 1,
{
}

/// Write the bitfield at `offset` of width `width` in `reg` to `value`,
/// preserving all bits outside the field.
pub fn set_field(reg: u32, offset: u32, width: u32, value: u32) -> (r: u32)
    requires
        0 < width < 32,
        offset + width <= 32,
    ensures
        r == spec_set_field(reg, offset, width, value),
        r & !field_mask(offset, width) == reg & !field_mask(offset, width),
        spec_get_field(r, offset, width) == value & low_mask(width),
{
    proof {
        lemma_one_shl_pos(width);
        lemma_set_field(reg, offset, width, value);
    }
    let wm: u32 = (1u32 << width) - 1;
    (reg & !(wm << offset)) | ((value & wm) << offset)
}

/// Read the bitfield at `offset` of width `width` out of `reg`.
pub fn get_field(reg: u32, offset: u32, width: u32) -> (r: u32)
    requires
        0 < width < 32,
        offset + width <= 32,
    ensures
        r == spec_get_field(reg, offset, width),
{
    proof {
        lemma_one_shl_pos(width);
    }
    let wm: u32 = (1u32 << width) - 1;
    (reg >> offset) & wm
}

} // verus!
