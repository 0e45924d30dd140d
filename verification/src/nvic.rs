//! Interrupt priority encoding and the priority registers of the core.
//!
//! The encoder combines a preempt/sub priority pair under the current
//! 3-bit priority grouping into a priority value; the top four bits of
//! that value, left-aligned in a byte, are what the hardware stores.
//! Core exceptions (negative interrupt numbers) land in the system
//! handler priority bytes, peripheral interrupts in the interrupt
//! priority bytes.

use vstd::prelude::*;

verus! {

/// Implemented priority bits of this core.
pub const NVIC_PRIO_BITS: u32 = 4;

/// Bits 8..=10 of the application interrupt and reset control register:
/// the priority grouping.
pub const PRIGROUP_MASK: u32 = 7u32 << 8;

/// Core exceptions with configurable priority, by their negative
/// interrupt number.
#[derive(Clone, Copy, PartialEq, Eq, Structural, Debug)]
pub enum Irq {
    MemoryManagement,
    BusFault,
    UsageFault,
    SVCall,
    DebugMonitor,
    PendSV,
    SysTick,
}

impl Irq {
    pub open spec fn spec_number(self) -> i32 {
        match self {
            Irq::MemoryManagement => -12i32,
            Irq::BusFault => -11i32,
            Irq::UsageFault => -10i32,
            Irq::SVCall => -5i32,
            Irq::DebugMonitor => -4i32,
            Irq::PendSV => -2i32,
            Irq::SysTick => -1i32,
        }
    }

    /// The exception's interrupt number.
    pub fn number(self) -> (r: i32)
        ensures
            r == self.spec_number(),
    {
        match self {
            Irq::MemoryManagement => -12,
            Irq::BusFault => -11,
            Irq::UsageFault => -10,
            Irq::SVCall => -5,
            Irq::DebugMonitor => -4,
            Irq::PendSV => -2,
            Irq::SysTick => -1,
        }
    }
}

/// The system control block state the priority layer touches: the
/// application interrupt and reset control register and the twelve
/// system handler priority bytes.
pub struct Scb {
    pub aircr: u32,
    pub shpr: Vec<u8>,
}

impl Scb {
    /// The priority byte table has its fixed hardware size.
    pub open spec fn wf(self) -> bool {
        self.shpr@.len() == 12
    }

    /// A control block whose registers all read zero.
    pub fn zeroed() -> (s: Scb)
        ensures
            s.wf(),
            s.aircr == 0,
            forall|i: int| 0 <= i < 12 ==> s.shpr@[i] == 0u8,
    {
        Scb { aircr: 0, shpr: zero_bytes(12) }
    }
}

/// The interrupt controller state the priority layer touches: the
/// per-interrupt priority bytes.
pub struct Nvic {
    pub ipr: Vec<u8>,
}

impl Nvic {
    /// The priority byte table has its fixed hardware size.
    pub open spec fn wf(self) -> bool {
        self.ipr@.len() == 240
    }

    /// An interrupt controller whose priority bytes all read zero.
    pub fn zeroed() -> (n: Nvic)
        ensures
            n.wf(),
            forall|i: int| 0 <= i < 240 ==> n.ipr@[i] == 0u8,
    {
        Nvic { ipr: zero_bytes(240) }
    }
}

/// A table of `n` zero bytes.
fn zero_bytes(n: usize) -> (v: Vec<u8>)
    ensures
        v@.len() == n,
        forall|i: int| 0 <= i < n ==> v@[i] == 0u8,
{
    let mut v: Vec<u8> = Vec::new();
    let mut k: usize = 0;
    while k < n
        invariant
            k <= n,
            v@.len() == k,
            forall|i: int| 0 <= i < k ==> v@[i] == 0u8,
        decreases n - k,
    {
        v.push(0u8);
        k = k + 1;
    }
    v
}

/// The 3-bit priority grouping held in the control register.
pub open spec fn spec_priority_grouping(aircr: u32) -> u32 {
    ((aircr & PRIGROUP_MASK) >> 8) as u32
}

/// Read the current priority grouping out of the control register value.
pub fn get_priority_grouping(aircr: u32) -> (r: u32)
    ensures
        r == spec_priority_grouping(aircr),
        r <= 7,
{
    proof {
        lemma_grouping_bounded(aircr);
    }
    (aircr & PRIGROUP_MASK) >> 8
}

proof fn lemma_grouping_bounded(aircr: u32)
    by (bit_vector)
    ensures
        ((aircr & (7u32 << 8)) >> 8) <= 7,
{
}

/// The combined priority value: the preempt priority masked to the
/// preempt bit width and shifted over the sub-priority bit width, or'd
/// with the masked sub-priority.  The bit widths follow from the
/// grouping: a group below 3 leaves all four implemented bits to the
/// preempt priority and none to the sub-priority.
pub open spec fn spec_encode_priority(priority_group: u32, preempt_priority: u32, sub_priority: u32) -> u32 {
    let pg = priority_group & 0x07;
    let ppb: u32 = if 7 - pg > NVIC_PRIO_BITS {
        NVIC_PRIO_BITS
    } else {
        (pg + NVIC_PRIO_BITS) as u32
    };
    let spb: u32 = if pg + NVIC_PRIO_BITS < 7 {
        0u32
    } else {
        (pg + NVIC_PRIO_BITS - 7) as u32
    };
    ((preempt_priority & ((1u32 << ppb) - 1) as u32) << spb) | (sub_priority & ((1u32 << spb) - 1) as u32)
}

/// Combine a (preempt, sub) priority pair under a priority grouping.
/// The result is a pure function of the three arguments.
pub fn encode_priority(priority_group: u32, preempt_priority: u32, sub_priority: u32) -> (r: u32)
    ensures
        r == spec_encode_priority(priority_group, preempt_priority, sub_priority),
{
    let pg: u32 = priority_group & 0x07;
    proof {
        lemma_and7_bounded(priority_group);
    }
    let ppb: u32 = if 7 - pg > NVIC_PRIO_BITS {
        NVIC_PRIO_BITS
    } else {
        pg + NVIC_PRIO_BITS
    };
    let spb: u32 = if pg + NVIC_PRIO_BITS < 7 {
        0
    } else {
        pg + NVIC_PRIO_BITS - 7
    };
    proof {
        crate::register::lemma_one_shl_pos(ppb);
        crate::register::lemma_one_shl_pos(spb);
    }
    ((preempt_priority & ((1u32 << ppb) - 1)) << spb) | (sub_priority & ((1u32 << spb) - 1))
}

proof fn lemma_and7_bounded(x: u32)
    by (bit_vector)
    ensures
        x & 0x07 <= 7,
{
}

/// The byte the hardware stores for a priority value: the value
/// left-aligned in the implemented priority bits of a byte.
pub open spec fn spec_priority_byte(priority: u32) -> u8 {
    (((priority << 8 - NVIC_PRIO_BITS) as u32) & 0xFF) as u8
}

/// With grouping 0 every implemented bit is a preempt bit: the encoded
/// value is the preempt priority masked to four bits, and the stored
/// byte is the preempt priority shifted into the top four bits.
pub proof fn lemma_encode_priority_group0(preempt_priority: u32, sub_priority: u32)
    by (bit_vector)
    ensures
        spec_encode_priority(0, preempt_priority, sub_priority) == preempt_priority & 0xF,
        preempt_priority <= 15 ==> spec_priority_byte(
            spec_encode_priority(0, preempt_priority, sub_priority),
        ) == ((preempt_priority << 4) as u8),
{
}

/// The system handler priority byte of a core exception: exceptions
/// number -12 up to -1, their bytes sit at indices 0 up to 11.
pub open spec fn spec_shpr_index(irqn: i32) -> int
    recommends
        -12 <= irqn <= -1,
{
    irqn + 12
}

/// A valid interrupt number: a core exception with configurable
/// priority, or an implemented peripheral interrupt.
pub open spec fn spec_irqn_valid(irqn: i32) -> bool {
    -12 <= irqn < 240
}

/// Store a priority value for one interrupt: the left-aligned priority
/// byte goes into the exception's system handler priority byte when the
/// number is negative, else into the interrupt's priority byte.
pub fn set_priority(scb: &mut Scb, nvic: &mut Nvic, irqn: i32, priority: u32)
    requires
        old(scb).wf(),
        old(nvic).wf(),
        spec_irqn_valid(irqn),
    ensures
        final(scb).wf(),
        final(nvic).wf(),
        final(scb).aircr == old(scb).aircr,
        irqn < 0 ==> final(scb).shpr@ == old(scb).shpr@.update(
            spec_shpr_index(irqn),
            spec_priority_byte(priority),
        ) && final(nvic).ipr@ == old(nvic).ipr@,
        irqn >= 0 ==> final(nvic).ipr@ == old(nvic).ipr@.update(
            irqn as int,
            spec_priority_byte(priority),
        ) && final(scb).shpr@ == old(scb).shpr@,
{
    proof {
        lemma_priority_byte_in_range(priority);
    }
    let byte: u8 = ((priority << 8 - NVIC_PRIO_BITS) & 0xFF) as u8;
    if irqn < 0 {
        proof {
            lemma_exception_index(irqn);
        }
        let idx: u32 = ((irqn as u32) & 0x0F) - 4;
        scb.shpr[idx as usize] = byte;
    } else {
        nvic.ipr[irqn as usize] = byte;
    }
}

/// The exception-table index computed from a negative interrupt number
/// by masking its low four bits is the number offset by twelve.
proof fn lemma_exception_index(irqn: i32)
    by (bit_vector)
    requires
        -12 <= irqn <= -1,
    ensures
        ((irqn as u32) & 0x0F) >= 4,
        ((irqn as u32) & 0x0F) - 4 == irqn + 12,
{
}

/// A byte-masked value fits in a byte.
proof fn lemma_priority_byte_in_range(priority: u32)
    by (bit_vector)
    ensures
        ((priority << 8 - NVIC_PRIO_BITS) & 0xFF) < 256,
{
}

/// Store a priority value for one interrupt, rejecting an interrupt
/// number outside the implemented range instead of faulting.
pub fn checked_set_priority(scb: &mut Scb, nvic: &mut Nvic, irqn: i32, priority: u32) -> (ok: bool)
    requires
        old(scb).wf(),
        old(nvic).wf(),
    ensures
        final(scb).wf(),
        final(nvic).wf(),
        ok == spec_irqn_valid(irqn),
        !ok ==> final(scb).shpr@ == old(scb).shpr@ && final(nvic).ipr@ == old(nvic).ipr@
            && final(scb).aircr == old(scb).aircr,
        ok && irqn < 0 ==> final(scb).shpr@ == old(scb).shpr@.update(
            spec_shpr_index(irqn),
            spec_priority_byte(priority),
        ) && final(nvic).ipr@ == old(nvic).ipr@ && final(scb).aircr == old(scb).aircr,
        ok && irqn >= 0 ==> final(nvic).ipr@ == old(nvic).ipr@.update(
            irqn as int,
            spec_priority_byte(priority),
        ) && final(scb).shpr@ == old(scb).shpr@ && final(scb).aircr == old(scb).aircr,
{
    if irqn < -12 || irqn >= 240 {
        return false;
    }
    set_priority(scb, nvic, irqn, priority);
    true
}

/// The priority grouping encoding that assigns no sub-priority bits.
pub const NVIC_PRIORITYGROUP_0: u32 = 0x0000_0007;

/// The register key that must accompany every write of the application
/// interrupt and reset control register.
pub const VECTKEY: u32 = 0x5FAu32 << 16;

/// The control register after the grouping write: the key in the top
/// half, the grouping field replaced, every other bit preserved.
pub open spec fn spec_aircr_init(v: u32) -> u32 {
    (v & !((0xFFFFu32 << 16) | (7u32 << 8))) | (0x5FAu32 << 16) | (NVIC_PRIORITYGROUP_0 << 8)
}

/// The value a grouping write stores: the computation behind the
/// write, for the shell that drives the real register.
pub fn aircr_init_value(v: u32) -> (r: u32)
    ensures
        r == spec_aircr_init(v),
{
    (v & !((0xFFFFu32 << 16) | (7u32 << 8))) | (0x5FAu32 << 16) | (NVIC_PRIORITYGROUP_0 << 8)
}

/// The grouping write leaves the grouping field reading back as its
/// written value.
proof fn lemma_aircr_init_grouping(v: u32)
    by (bit_vector)
    ensures
        spec_priority_grouping(spec_aircr_init(v)) == NVIC_PRIORITYGROUP_0,
{
}

/// Program the priority grouping and give every configurable core
/// exception the priority encoded from (0, 0) under that grouping.
pub fn ll_init(scb: &mut Scb, nvic: &mut Nvic)
    requires
        old(scb).wf(),
        old(nvic).wf(),
    ensures
        final(scb).wf(),
        final(nvic).wf(),
        final(scb).aircr == spec_aircr_init(old(scb).aircr),
        final(nvic).ipr@ == old(nvic).ipr@,
        final(scb).shpr@ == old(scb).shpr@.update(0, spec_priority_byte(spec_encode_priority(NVIC_PRIORITYGROUP_0, 0, 0))).update(
            1,
            spec_priority_byte(spec_encode_priority(NVIC_PRIORITYGROUP_0, 0, 0)),
        ).update(2, spec_priority_byte(spec_encode_priority(NVIC_PRIORITYGROUP_0, 0, 0))).update(
            7,
            spec_priority_byte(spec_encode_priority(NVIC_PRIORITYGROUP_0, 0, 0)),
        ).update(8, spec_priority_byte(spec_encode_priority(NVIC_PRIORITYGROUP_0, 0, 0))).update(
            10,
            spec_priority_byte(spec_encode_priority(NVIC_PRIORITYGROUP_0, 0, 0)),
        ).update(11, spec_priority_byte(spec_encode_priority(NVIC_PRIORITYGROUP_0, 0, 0))),
{
    scb.aircr = (scb.aircr & !((0xFFFFu32 << 16) | (7u32 << 8))) | (0x5FAu32 << 16) | (
    NVIC_PRIORITYGROUP_0 << 8);
    proof {
        lemma_aircr_init_grouping(old(scb).aircr);
    }
    let grouping = get_priority_grouping(scb.aircr);
    set_priority(scb, nvic, Irq::MemoryManagement.number(), encode_priority(grouping, 0, 0));
    let grouping = get_priority_grouping(scb.aircr);
    set_priority(scb, nvic, Irq::BusFault.number(), encode_priority(grouping, 0, 0));
    let grouping = get_priority_grouping(scb.aircr);
    set_priority(scb, nvic, Irq::UsageFault.number(), encode_priority(grouping, 0, 0));
    let grouping = get_priority_grouping(scb.aircr);
    set_priority(scb, nvic, Irq::SVCall.number(), encode_priority(grouping, 0, 0));
    let grouping = get_priority_grouping(scb.aircr);
    set_priority(scb, nvic, Irq::DebugMonitor.number(), encode_priority(grouping, 0, 0));
    let grouping = get_priority_grouping(scb.aircr);
    set_priority(scb, nvic, Irq::PendSV.number(), encode_priority(grouping, 0, 0));
    let grouping = get_priority_grouping(scb.aircr);
    set_priority(scb, nvic, Irq::SysTick.number(), encode_priority(grouping, 0, 0));
}

} // verus!
