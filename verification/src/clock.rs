//! The clock bring-up sequencer: a strict linear procedure from the
//! reset clock tree to the locked 84 MHz operating point.
//!
//! The order is mandated by the hardware: flash wait states and
//! voltage scaling before any faster clock, oscillator enable before
//! the lock wait, PLL configuration before its enable, and the system
//! clock switch only after PLL lock.  Each hardware wait is bounded and
//! surfaces its own timeout fault instead of hanging; the modelled
//! hardware answers a wait after the poll latency its field carries.
//! Every completed step is appended to an event trace, so the order the
//! sequencer actually performed is part of its contract.

use vstd::prelude::*;

use crate::flash;
use crate::nvic::Irq;
use crate::nvic::Nvic;
use crate::nvic::Scb;
use crate::nvic::encode_priority;
use crate::nvic::get_priority_grouping;
use crate::nvic::set_priority;
use crate::nvic::spec_encode_priority;
use crate::nvic::spec_priority_byte;
use crate::nvic::spec_priority_grouping;
use crate::poll::spec_wait_ready;
use crate::poll::wait_field;
use crate::pwr;
use crate::rcc;
use crate::register::lemma_mask_ops;
use crate::register::set_field;
use crate::register::spec_set_field;
use crate::systick::CSR_CLKSOURCE;
use crate::systick::CSR_ENABLE;
use crate::systick::SysTick;

verus! {

/// Core clock frequency at the operating point this sequence programs.
pub const HCLK_HZ: u32 = 84_000_000;

/// Tick interrupts per second the tick timer is programmed for.
pub const TICK_HZ: u32 = 1_000;

/// Trimming value for the internal oscillator.
pub const HSI_TRIM: u32 = 16;

/// Division factor for the PLL input clock.
pub const PLL_M: u32 = 16;

/// Multiplication factor for the PLL.
pub const PLL_N: u32 = 336;

/// Flash wait states for the 84 MHz operating point.
pub const FLASH_LATENCY: u32 = 2;

/// One completed step of the bring-up sequence.
#[derive(Clone, Copy, PartialEq, Eq, Structural, Debug)]
pub enum Step {
    FlashLatency,
    VoltageScale,
    HsiEnable,
    HsiReady,
    PllConfigure,
    PllEnable,
    PllLocked,
    Prescalers,
    ClockSwitch,
    SwitchDone,
    TickTimer,
    TimerPrescale,
}

/// The sequencer's faults, one per bounded hardware wait.
#[derive(Clone, Copy, PartialEq, Eq, Structural, Debug)]
pub enum ClockError {
    OscillatorStartTimeout,
    PllLockTimeout,
    ClockSwitchTimeout,
}

/// The peripherals the bring-up sequence drives, the modelled hardware
/// latency of each polled flag, and the trace of completed steps.
pub struct ClockUnit {
    pub flash: flash::RegisterMap,
    pub pwr: pwr::RegisterMap,
    pub rcc: rcc::RegisterMap,
    pub syst: SysTick,
    pub hsi_ready_delay: u32,
    pub pll_lock_delay: u32,
    pub clock_switch_delay: u32,
    pub trace: Vec<Step>,
}

/// The flash access control register with the wait-state latency field
/// programmed.
pub open spec fn spec_acr_latency(v: u32) -> u32 {
    spec_set_field(v, 0, 4, FLASH_LATENCY)
}

/// The power control register with voltage scale 2 selected.
pub open spec fn spec_pwr_vos(v: u32) -> u32 {
    spec_set_field(v, 14, 2, 0b10)
}

/// The clock control register after trimming and enabling the internal
/// oscillator.
pub open spec fn spec_cr_hsi_on(v: u32) -> u32 {
    spec_set_field(v, rcc::cr::HSITRIM_SHIFT, 5, HSI_TRIM) | rcc::cr::HSION
}

/// The clock control register once the oscillator reads ready.
pub open spec fn spec_cr_hsi_ready(v: u32) -> u32 {
    (spec_cr_hsi_on(v) & !rcc::cr::HSIRDY) | rcc::cr::HSIRDY
}

/// The PLL configuration register with source, dividers and multiplier
/// programmed: fed from the internal oscillator, input divided by
/// sixteen, multiplied by 336, output divided by four.
pub open spec fn spec_pllcfgr_value(v: u32) -> u32 {
    (v & !(rcc::pllcfgr::PLLSRC_MASK | rcc::pllcfgr::PLLM_MASK | rcc::pllcfgr::PLLN_MASK)) | (
    rcc::pllcfgr::PLLSRC_HSI | PLL_M | (PLL_N << rcc::pllcfgr::PLLN_SHIFT)
        | rcc::pllcfgr::PLLP_DIV4)
}

/// The value the PLL configuration write stores: the computation
/// behind the write, for the shell that drives the real register.
pub fn pllcfgr_value(v: u32) -> (r: u32)
    ensures
        r == spec_pllcfgr_value(v),
{
    (v & !(rcc::pllcfgr::PLLSRC_MASK | rcc::pllcfgr::PLLM_MASK | rcc::pllcfgr::PLLN_MASK)) | (
    rcc::pllcfgr::PLLSRC_HSI | PLL_M | (PLL_N << rcc::pllcfgr::PLLN_SHIFT)
        | rcc::pllcfgr::PLLP_DIV4)
}

/// The clock control register with the PLL enabled.
pub open spec fn spec_cr_pll_on(v: u32) -> u32 {
    spec_cr_hsi_ready(v) | rcc::cr::PLLON
}

/// The clock control register once the PLL reads locked.
pub open spec fn spec_cr_pll_locked(v: u32) -> u32 {
    (spec_cr_pll_on(v) & !rcc::cr::PLLRDY) | rcc::cr::PLLRDY
}

/// The clock configuration register with the three bus prescalers
/// programmed: AHB undivided, APB1 halved, APB2 undivided.
pub open spec fn spec_cfgr_prescalers(v: u32) -> u32 {
    let h = (v & !rcc::cfgr::HPRE_MASK) | rcc::cfgr::HPRE_DIV1;
    let p1 = (h & !rcc::cfgr::PPRE1_MASK) | rcc::cfgr::PPRE1_DIV2;
    (p1 & !rcc::cfgr::PPRE2_MASK) | rcc::cfgr::PPRE2_DIV1
}

/// The clock configuration register with the system clock switched to
/// the PLL.
pub open spec fn spec_cfgr_switched(v: u32) -> u32 {
    (spec_cfgr_prescalers(v) & !rcc::cfgr::SW_MASK) | rcc::cfgr::SW_PLL
}

/// The clock configuration register once the switch status reads "PLL
/// selected".
pub open spec fn spec_cfgr_selected(v: u32) -> u32 {
    (spec_cfgr_switched(v) & !rcc::cfgr::SWS_MASK) | rcc::cfgr::SWS_PLL
}

/// The oscillator wait succeeds within the bound.
pub open spec fn spec_hsi_ok(u: ClockUnit, max_polls: u32) -> bool {
    spec_wait_ready(
        spec_cr_hsi_on(u.rcc.cr),
        rcc::cr::HSIRDY,
        rcc::cr::HSIRDY,
        u.hsi_ready_delay,
        max_polls,
    )
}

/// The PLL lock wait succeeds within the bound.
pub open spec fn spec_pll_ok(u: ClockUnit, max_polls: u32) -> bool {
    spec_wait_ready(
        spec_cr_pll_on(u.rcc.cr),
        rcc::cr::PLLRDY,
        rcc::cr::PLLRDY,
        u.pll_lock_delay,
        max_polls,
    )
}

/// The clock switch wait succeeds within the bound.
pub open spec fn spec_switch_ok(u: ClockUnit, max_polls: u32) -> bool {
    spec_wait_ready(
        spec_cfgr_switched(u.rcc.cfgr),
        rcc::cfgr::SWS_MASK,
        rcc::cfgr::SWS_PLL,
        u.clock_switch_delay,
        max_polls,
    )
}

/// The trace a completed run appends: every step in the mandated
/// order, each wait's completion strictly after the enable it waits on.
pub open spec fn spec_full_trace() -> Seq<Step> {
    seq![
        Step::FlashLatency,
        Step::VoltageScale,
        Step::HsiEnable,
        Step::HsiReady,
        Step::PllConfigure,
        Step::PllEnable,
        Step::PllLocked,
        Step::Prescalers,
        Step::ClockSwitch,
        Step::SwitchDone,
        Step::TickTimer,
        Step::TimerPrescale,
    ]
}

/// The switch status value sits inside the switch status field.
proof fn lemma_sws_expect()
    by (bit_vector)
    ensures
        rcc::cfgr::SWS_PLL & rcc::cfgr::SWS_MASK == rcc::cfgr::SWS_PLL,
{
}

/// Bring the clock tree from its reset state to the 84 MHz operating
/// point, in the mandated order, with every hardware wait bounded by
/// `max_polls` polls.  On success the tick timer runs at one tick per
/// millisecond of the 84 MHz core clock and the tick exception
/// priority is re-applied; on a timeout the sequence stops at the
/// failed wait and every later register is untouched.
pub fn system_clock_config(
    u: &mut ClockUnit,
    scb: &mut Scb,
    nvic: &mut Nvic,
    max_polls: u32,
) -> (r: Result<(), ClockError>)
    requires
        old(scb).wf(),
        old(nvic).wf(),
    ensures
        final(scb).wf(),
        final(nvic).wf(),
        final(nvic).ipr@ == old(nvic).ipr@,
        final(scb).aircr == old(scb).aircr,
        r is Ok <==> spec_hsi_ok(*old(u), max_polls) && spec_pll_ok(*old(u), max_polls)
            && spec_switch_ok(*old(u), max_polls),
        r == Err::<(), ClockError>(ClockError::OscillatorStartTimeout) <==> !spec_hsi_ok(
            *old(u),
            max_polls,
        ),
        r == Err::<(), ClockError>(ClockError::PllLockTimeout) <==> spec_hsi_ok(*old(u), max_polls)
            && !spec_pll_ok(*old(u), max_polls),
        r == Err::<(), ClockError>(ClockError::ClockSwitchTimeout) <==> spec_hsi_ok(
            *old(u),
            max_polls,
        ) && spec_pll_ok(*old(u), max_polls) && !spec_switch_ok(*old(u), max_polls),
        final(u).flash.acr == spec_acr_latency(old(u).flash.acr),
        final(u).flash == (flash::RegisterMap { acr: final(u).flash.acr, ..old(u).flash }),
        final(u).pwr.cr == spec_pwr_vos(old(u).pwr.cr),
        final(u).pwr == (pwr::RegisterMap { cr: final(u).pwr.cr, ..old(u).pwr }),
        final(u).rcc == (rcc::RegisterMap {
            cr: final(u).rcc.cr,
            pllcfgr: final(u).rcc.pllcfgr,
            cfgr: final(u).rcc.cfgr,
            dckcfgr: final(u).rcc.dckcfgr,
            ..old(u).rcc
        }),
        final(u).hsi_ready_delay <= old(u).hsi_ready_delay,
        final(u).pll_lock_delay <= old(u).pll_lock_delay,
        final(u).clock_switch_delay <= old(u).clock_switch_delay,
        r is Ok ==> final(u).rcc.cr == spec_cr_pll_locked(old(u).rcc.cr) && final(u).rcc.pllcfgr
            == spec_pllcfgr_value(old(u).rcc.pllcfgr) && final(u).rcc.cfgr == spec_cfgr_selected(
            old(u).rcc.cfgr,
        ) && final(u).rcc.dckcfgr == ((old(u).rcc.dckcfgr & !rcc::dckcfgr::TIMPRE_MASK)
            | rcc::dckcfgr::TIMPRE_X2) && final(u).syst == (SysTick {
            csr: (old(u).syst.csr | CSR_CLKSOURCE) | CSR_ENABLE,
            rvr: (HCLK_HZ / TICK_HZ - 1) as u32,
            cvr: 0u32,
        }) && final(scb).shpr@ == old(scb).shpr@.update(
            11,
            spec_priority_byte(
                spec_encode_priority(spec_priority_grouping(old(scb).aircr), 0, 0),
            ),
        ) && final(u).trace@ == old(u).trace@ + spec_full_trace(),
        r == Err::<(), ClockError>(ClockError::OscillatorStartTimeout) ==> final(u).rcc.cr
            == spec_cr_hsi_on(old(u).rcc.cr) && final(u).rcc.pllcfgr == old(u).rcc.pllcfgr && final(u).rcc.cfgr == old(u).rcc.cfgr && final(u).rcc.dckcfgr == old(u).rcc.dckcfgr && final(u).syst
            == old(u).syst && final(scb).shpr@ == old(scb).shpr@ && final(u).trace@ == old(u).trace@
            + spec_full_trace().take(3),
        r == Err::<(), ClockError>(ClockError::PllLockTimeout) ==> final(u).rcc.cr
            == spec_cr_pll_on(old(u).rcc.cr) && final(u).rcc.pllcfgr == spec_pllcfgr_value(
            old(u).rcc.pllcfgr,
        ) && final(u).rcc.cfgr == old(u).rcc.cfgr && final(u).rcc.dckcfgr == old(u).rcc.dckcfgr
            && final(u).syst == old(u).syst && final(scb).shpr@ == old(scb).shpr@ && final(u).trace@
            == old(u).trace@ + spec_full_trace().take(6),
        r == Err::<(), ClockError>(ClockError::ClockSwitchTimeout) ==> final(u).rcc.cr
            == spec_cr_pll_locked(old(u).rcc.cr) && final(u).rcc.pllcfgr == spec_pllcfgr_value(
            old(u).rcc.pllcfgr,
        ) && final(u).rcc.cfgr == spec_cfgr_switched(old(u).rcc.cfgr) && final(u).rcc.dckcfgr == old(u).rcc.dckcfgr && final(u).syst == old(u).syst && final(scb).shpr@ == old(scb).shpr@ && final(u).trace@ == old(u).trace@ + spec_full_trace().take(9),
{
    // Flash wait states first: the faster clock must not outrun the
    // flash.
    u.flash.acr = set_field(u.flash.acr, 0, 4, FLASH_LATENCY);
    u.trace.push(Step::FlashLatency);

    // Voltage scaling before any clock increase.
    u.pwr.cr = set_field(u.pwr.cr, 14, 2, 0b10);
    u.trace.push(Step::VoltageScale);

    // Trim, then enable the internal oscillator.
    u.rcc.cr = set_field(u.rcc.cr, rcc::cr::HSITRIM_SHIFT, 5, HSI_TRIM);
    u.rcc.cr = u.rcc.cr | rcc::cr::HSION;
    u.trace.push(Step::HsiEnable);

    // Wait until the oscillator reads ready.
    proof {
        lemma_mask_ops(u.rcc.cr, rcc::cr::HSIRDY);
    }
    let w = wait_field(u.rcc.cr, rcc::cr::HSIRDY, rcc::cr::HSIRDY, u.hsi_ready_delay, max_polls);
    u.rcc.cr = w.reg;
    u.hsi_ready_delay = w.delay;
    if !w.ready {
        proof {
            assert(u.trace@ =~= old(u).trace@ + spec_full_trace().take(3));
        }
        return Err(ClockError::OscillatorStartTimeout);
    }
    u.trace.push(Step::HsiReady);

    // Program the PLL before enabling it.
    u.rcc.pllcfgr = (u.rcc.pllcfgr & !(rcc::pllcfgr::PLLSRC_MASK | rcc::pllcfgr::PLLM_MASK
        | rcc::pllcfgr::PLLN_MASK)) | (rcc::pllcfgr::PLLSRC_HSI | PLL_M | (PLL_N
        << rcc::pllcfgr::PLLN_SHIFT) | rcc::pllcfgr::PLLP_DIV4);
    u.trace.push(Step::PllConfigure);
    u.rcc.cr = u.rcc.cr | rcc::cr::PLLON;
    u.trace.push(Step::PllEnable);

    // Wait until the PLL reads locked.
    proof {
        lemma_mask_ops(u.rcc.cr, rcc::cr::PLLRDY);
    }
    let w = wait_field(u.rcc.cr, rcc::cr::PLLRDY, rcc::cr::PLLRDY, u.pll_lock_delay, max_polls);
    u.rcc.cr = w.reg;
    u.pll_lock_delay = w.delay;
    if !w.ready {
        proof {
            assert(u.trace@ =~= old(u).trace@ + spec_full_trace().take(6));
        }
        return Err(ClockError::PllLockTimeout);
    }
    u.trace.push(Step::PllLocked);

    // Bus prescalers, then the system clock switch.
    u.rcc.cfgr = (u.rcc.cfgr & !rcc::cfgr::HPRE_MASK) | rcc::cfgr::HPRE_DIV1;
    u.rcc.cfgr = (u.rcc.cfgr & !rcc::cfgr::PPRE1_MASK) | rcc::cfgr::PPRE1_DIV2;
    u.rcc.cfgr = (u.rcc.cfgr & !rcc::cfgr::PPRE2_MASK) | rcc::cfgr::PPRE2_DIV1;
    u.trace.push(Step::Prescalers);
    u.rcc.cfgr = (u.rcc.cfgr & !rcc::cfgr::SW_MASK) | rcc::cfgr::SW_PLL;
    u.trace.push(Step::ClockSwitch);

    // Wait until the switch status reads "PLL selected".
    proof {
        lemma_sws_expect();
    }
    let w = wait_field(
        u.rcc.cfgr,
        rcc::cfgr::SWS_MASK,
        rcc::cfgr::SWS_PLL,
        u.clock_switch_delay,
        max_polls,
    );
    u.rcc.cfgr = w.reg;
    u.clock_switch_delay = w.delay;
    if !w.ready {
        proof {
            assert(u.trace@ =~= old(u).trace@ + spec_full_trace().take(9));
        }
        return Err(ClockError::ClockSwitchTimeout);
    }
    u.trace.push(Step::SwitchDone);

    // Program the tick timer: one tick per millisecond of core clock.
    u.syst.set_reload(HCLK_HZ / TICK_HZ - 1);
    u.syst.clear_current();
    u.syst.set_clock_source_core();
    u.syst.enable_counter();
    u.trace.push(Step::TickTimer);

    // Timer clock doubling prescaler.
    u.rcc.dckcfgr = (u.rcc.dckcfgr & !rcc::dckcfgr::TIMPRE_MASK) | rcc::dckcfgr::TIMPRE_X2;
    u.trace.push(Step::TimerPrescale);

    // Re-apply the tick exception priority under the current grouping.
    let grouping = get_priority_grouping(scb.aircr);
    let priority = encode_priority(grouping, 0, 0);
    set_priority(scb, nvic, Irq::SysTick.number(), priority);

    proof {
        assert(u.trace@ =~= old(u).trace@ + spec_full_trace());
    }
    Ok(())
}

} // verus!
