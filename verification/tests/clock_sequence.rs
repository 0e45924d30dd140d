//! Clock bring-up scenarios against the simulated device: flags that
//! become true after a fixed number of polls, and bounded waits that
//! time out.

use stm32f401re::clock;
use stm32f401re::clock::ClockError;
use stm32f401re::clock::ClockUnit;
use stm32f401re::clock::Step;
use stm32f401re::flash;
use stm32f401re::nvic::Nvic;
use stm32f401re::nvic::Scb;
use stm32f401re::pwr;
use stm32f401re::rcc;
use stm32f401re::systick::SysTick;

fn unit(hsi: u32, pll: u32, switch: u32) -> ClockUnit {
    ClockUnit {
        flash: flash::RegisterMap::zeroed(),
        pwr: pwr::RegisterMap::zeroed(),
        rcc: rcc::RegisterMap::zeroed(),
        syst: SysTick::zeroed(),
        hsi_ready_delay: hsi,
        pll_lock_delay: pll,
        clock_switch_delay: switch,
        trace: Vec::new(),
    }
}

#[test]
fn bring_up_succeeds_when_flags_answer_in_time() {
    let mut u = unit(2, 3, 1);
    let mut scb = Scb::zeroed();
    let mut nv = Nvic::zeroed();
    let r = clock::system_clock_config(&mut u, &mut scb, &mut nv, 10);
    assert_eq!(r, Ok(()));

    // Flash latency field holds two wait states.
    assert_eq!(u.flash.acr, 2);
    // Voltage scale 2 in the power control register.
    assert_eq!(u.pwr.cr, 0b10 << 14);
    // Oscillator trimmed and on, ready observed, PLL on and locked.
    assert_eq!(
        u.rcc.cr,
        (16 << 3) | (1 << 0) | (1 << 1) | (1 << 24) | (1 << 25)
    );
    // PLL: source HSI, input divided by 16, multiplied by 336, output
    // divided by four.
    assert_eq!(u.rcc.pllcfgr, 16 | (336 << 6) | (0b01 << 16));
    // Prescalers, switch request and switch status.
    assert_eq!(u.rcc.cfgr, (0b100 << 10) | 0b10 | (0b10 << 2));
    // Tick timer: one tick per millisecond at 84 MHz, counting the
    // core clock.
    assert_eq!(u.syst.rvr, 83_999);
    assert_eq!(u.syst.cvr, 0);
    assert_eq!(u.syst.csr, 0b101);
    // Timer clock doubling.
    assert_eq!(u.rcc.dckcfgr, 1 << 24);
}

#[test]
fn bring_up_performs_steps_in_the_mandated_order() {
    let mut u = unit(4, 4, 4);
    let mut scb = Scb::zeroed();
    let mut nv = Nvic::zeroed();
    let r = clock::system_clock_config(&mut u, &mut scb, &mut nv, 8);
    assert_eq!(r, Ok(()));
    assert_eq!(
        u.trace,
        vec![
            Step::FlashLatency,
            Step::VoltageScale,
            Step::HsiEnable,
            Step::HsiReady,
            Step::PllConfigure,
            Step::PllEnable,
            Step::PllLocked,
            Step::Prescalers,
            Step::ClockSwitch,
            Step::SwitchDone,
            Step::TickTimer,
            Step::TimerPrescale,
        ]
    );
}

#[test]
fn oscillator_timeout_stops_before_pll_configuration() {
    let mut u = unit(10, 0, 0);
    let mut scb = Scb::zeroed();
    let mut nv = Nvic::zeroed();
    let r = clock::system_clock_config(&mut u, &mut scb, &mut nv, 5);
    assert_eq!(r, Err(ClockError::OscillatorStartTimeout));
    // The sequence did not proceed past the failed wait.
    assert_eq!(
        u.trace,
        vec![Step::FlashLatency, Step::VoltageScale, Step::HsiEnable]
    );
    assert_eq!(u.rcc.pllcfgr, 0);
    assert_eq!(u.rcc.cfgr, 0);
    assert_eq!(u.syst, SysTick::zeroed());
    // The ready flag was never observed set.
    assert_eq!(u.rcc.cr & (1 << 1), 0);
}

#[test]
fn pll_lock_timeout_stops_before_prescalers() {
    let mut u = unit(0, 99, 0);
    let mut scb = Scb::zeroed();
    let mut nv = Nvic::zeroed();
    let r = clock::system_clock_config(&mut u, &mut scb, &mut nv, 5);
    assert_eq!(r, Err(ClockError::PllLockTimeout));
    assert_eq!(
        u.trace,
        vec![
            Step::FlashLatency,
            Step::VoltageScale,
            Step::HsiEnable,
            Step::HsiReady,
            Step::PllConfigure,
            Step::PllEnable,
        ]
    );
    // The PLL was configured and enabled but never observed locked.
    assert_eq!(u.rcc.pllcfgr, 16 | (336 << 6) | (0b01 << 16));
    assert_eq!(u.rcc.cr & (1 << 24), 1 << 24);
    assert_eq!(u.rcc.cr & (1 << 25), 0);
    assert_eq!(u.rcc.cfgr, 0);
    assert_eq!(u.syst, SysTick::zeroed());
}

#[test]
fn clock_switch_timeout_stops_before_tick_timer() {
    let mut u = unit(0, 0, 7);
    let mut scb = Scb::zeroed();
    let mut nv = Nvic::zeroed();
    let r = clock::system_clock_config(&mut u, &mut scb, &mut nv, 6);
    assert_eq!(r, Err(ClockError::ClockSwitchTimeout));
    assert_eq!(u.trace.len(), 9);
    assert_eq!(u.trace[8], Step::ClockSwitch);
    // Switch requested but the status field never read "PLL selected".
    assert_eq!(u.rcc.cfgr & 0b11, 0b10);
    assert_eq!(u.rcc.cfgr & (0b11 << 2), 0);
    assert_eq!(u.syst, SysTick::zeroed());
    assert_eq!(u.rcc.dckcfgr, 0);
}

#[test]
fn a_wait_spends_exactly_the_modelled_latency() {
    // A latency one below the bound still succeeds; at the bound the
    // wait times out.
    let mut ok = unit(4, 0, 0);
    let mut scb = Scb::zeroed();
    let mut nv = Nvic::zeroed();
    assert_eq!(
        clock::system_clock_config(&mut ok, &mut scb, &mut nv, 5),
        Ok(())
    );
    let mut late = unit(5, 0, 0);
    assert_eq!(
        clock::system_clock_config(&mut late, &mut scb, &mut nv, 5),
        Err(ClockError::OscillatorStartTimeout)
    );
}
