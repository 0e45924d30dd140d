//! The interrupt priority encoder and the priority register tables.

use stm32f401re::nvic;
use stm32f401re::nvic::Irq;
use stm32f401re::nvic::Nvic;
use stm32f401re::nvic::Scb;

#[test]
fn encode_priority_is_deterministic() {
    for group in 0..8u32 {
        for preempt in 0..16u32 {
            let a = nvic::encode_priority(group, preempt, 3);
            let b = nvic::encode_priority(group, preempt, 3);
            assert_eq!(a, b);
        }
    }
}

#[test]
fn encode_priority_group0_keeps_preempt_bits() {
    // With grouping 0 every implemented bit is a preempt bit; the
    // stored byte left-aligns the value, so preempt ends up shifted by
    // four in the priority byte.
    for preempt in 0..16u32 {
        let encoded = nvic::encode_priority(0, preempt, 0);
        assert_eq!(encoded, preempt);
        let byte = ((encoded << 4) & 0xFF) as u8;
        assert_eq!(byte as u32, preempt << 4);
    }
}

#[test]
fn encode_priority_group7_splits_sub_bits() {
    // Grouping 7: eleven preempt bits shifted over four sub bits.
    assert_eq!(nvic::encode_priority(7, 2, 1), (2 << 4) | 1);
    assert_eq!(nvic::encode_priority(7, 0, 0xF), 0xF);
}

#[test]
fn encode_priority_masks_the_group() {
    // Only the low three bits of the grouping are read.
    assert_eq!(
        nvic::encode_priority(8, 5, 0),
        nvic::encode_priority(0, 5, 0)
    );
}

#[test]
fn get_priority_grouping_reads_bits_8_to_10() {
    assert_eq!(nvic::get_priority_grouping(0), 0);
    assert_eq!(nvic::get_priority_grouping(0x0000_0700), 7);
    assert_eq!(nvic::get_priority_grouping(0x0000_0300), 3);
    assert_eq!(nvic::get_priority_grouping(0xFFFF_F8FF), 0);
}

#[test]
fn set_priority_core_exception_goes_to_shpr() {
    let mut scb = Scb::zeroed();
    let mut nv = Nvic::zeroed();
    nvic::set_priority(&mut scb, &mut nv, Irq::SysTick.number(), 5);
    // Exception -1 sits at index 11; priority 5 is stored left-aligned.
    assert_eq!(scb.shpr[11], 5 << 4);
    assert!(nv.ipr.iter().all(|&b| b == 0));
    nvic::set_priority(&mut scb, &mut nv, Irq::MemoryManagement.number(), 1);
    assert_eq!(scb.shpr[0], 1 << 4);
}

#[test]
fn set_priority_peripheral_interrupt_goes_to_ipr() {
    let mut scb = Scb::zeroed();
    let mut nv = Nvic::zeroed();
    nvic::set_priority(&mut scb, &mut nv, 51, 9);
    assert_eq!(nv.ipr[51], (9 << 4) as u8);
    assert!(scb.shpr.iter().all(|&b| b == 0));
}

#[test]
fn checked_set_priority_rejects_invalid_numbers() {
    let mut scb = Scb::zeroed();
    let mut nv = Nvic::zeroed();
    assert!(!nvic::checked_set_priority(&mut scb, &mut nv, -13, 1));
    assert!(!nvic::checked_set_priority(&mut scb, &mut nv, 240, 1));
    assert!(scb.shpr.iter().all(|&b| b == 0));
    assert!(nv.ipr.iter().all(|&b| b == 0));
    assert!(nvic::checked_set_priority(&mut scb, &mut nv, -12, 1));
    assert_eq!(scb.shpr[0], 1 << 4);
}

#[test]
fn ll_init_programs_grouping_and_exception_priorities() {
    let mut scb = Scb::zeroed();
    let mut nv = Nvic::zeroed();
    scb.aircr = 0x1234_5678;
    nvic::ll_init(&mut scb, &mut nv);
    // The key sits in the top half, the grouping field holds 7, and
    // every low bit outside the grouping field keeps its old value.
    assert_eq!(scb.aircr, (0x5FA << 16) | (7 << 8) | 0x5078);
    assert_eq!(nvic::get_priority_grouping(scb.aircr), 7);
    // Grouping 7 encodes (0, 0) to zero, so every configured
    // exception byte stays zero.
    assert!(scb.shpr.iter().all(|&b| b == 0));
    assert!(nv.ipr.iter().all(|&b| b == 0));
}
