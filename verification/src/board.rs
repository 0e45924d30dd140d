//! The board: one process-wide hardware context holding every
//! peripheral model, and the bring-up procedure that takes it from
//! reset to a ready state — priorities, clock tree, LED pin, and the
//! SPI master with its loopback-wired pins.
//!
//! Board wiring: pin A5 drives the LED; the SPI master uses pins
//! A4 (slave select), C10 (clock), C11 (master in), and C12 (master
//! out), all on alternate function 6.

use vstd::prelude::*;

use crate::clock;
use crate::clock::ClockError;
use crate::clock::ClockUnit;
use crate::gpio;
use crate::gpio::PinConfig;
use crate::gpio::configure;
use crate::gpio::spec_configure;
use crate::nvic;
use crate::nvic::Nvic;
use crate::nvic::Scb;
use crate::rcc;
use crate::register::set_field;
use crate::register::spec_set_field;
use crate::spi;
use crate::spi::master::Transceiver;
use crate::spi::master::Wire;
use crate::spi::master::configure_master;
use crate::systick::SysTick;

verus! {

/// The LED output pin of bank A.
pub const PIN_LED: u32 = 5;

/// The SPI slave-select pin of bank A.
pub const PIN_SPI_NSS: u32 = 4;

/// The SPI clock pin of bank C.
pub const PIN_SPI_SCK: u32 = 10;

/// The SPI master-in pin of bank C.
pub const PIN_SPI_MISO: u32 = 11;

/// The SPI master-out pin of bank C.
pub const PIN_SPI_MOSI: u32 = 12;

/// The alternate function that routes the SPI controller to its pins.
pub const AF_SPI: u32 = 6;

/// The whole modelled device: clocking peripherals, core blocks, the
/// GPIO banks this board wires up, and the SPI master.
pub struct Board {
    pub clock: ClockUnit,
    pub scb: Scb,
    pub nvic: Nvic,
    pub gpioa: gpio::RegisterMap,
    pub gpiob: gpio::RegisterMap,
    pub gpioc: gpio::RegisterMap,
    pub gpioh: gpio::RegisterMap,
    pub spi3: Transceiver,
}

/// The pin configuration of every SPI signal on this board.
pub open spec fn spec_spi_pin_config() -> PinConfig {
    PinConfig {
        mode: gpio::Moder::Alternate,
        otype: gpio::Typer::PushPull,
        speed: gpio::Ospeedr::High,
        pull: gpio::Pupdr::NoPuPd,
        af: AF_SPI,
    }
}

impl Board {
    /// A board whose registers all read zero, with the given hardware
    /// behaviour: the wire the SPI data pins see, and the poll latency
    /// of each hardware flag the bring-up sequence or a transfer waits
    /// on.
    pub fn new(
        wire: Wire,
        hsi_ready_delay: u32,
        pll_lock_delay: u32,
        clock_switch_delay: u32,
        busy_delay: u32,
        txe_delay: u32,
        rxne_delay: u32,
    ) -> (b: Board)
        ensures
            b.scb.wf(),
            b.nvic.wf(),
            b.scb.aircr == 0,
            forall|i: int| 0 <= i < 12 ==> b.scb.shpr@[i] == 0u8,
            forall|i: int| 0 <= i < 240 ==> b.nvic.ipr@[i] == 0u8,
            b.clock.flash == crate::flash::RegisterMap::spec_zeroed(),
            b.clock.pwr == crate::pwr::RegisterMap::spec_zeroed(),
            b.clock.rcc == rcc::RegisterMap::spec_zeroed(),
            b.clock.syst == (SysTick { csr: 0u32, rvr: 0u32, cvr: 0u32 }),
            b.clock.hsi_ready_delay == hsi_ready_delay,
            b.clock.pll_lock_delay == pll_lock_delay,
            b.clock.clock_switch_delay == clock_switch_delay,
            b.clock.trace@ =~= Seq::<clock::Step>::empty(),
            b.gpioa == gpio::RegisterMap::spec_zeroed(),
            b.gpiob == gpio::RegisterMap::spec_zeroed(),
            b.gpioc == gpio::RegisterMap::spec_zeroed(),
            b.gpioh == gpio::RegisterMap::spec_zeroed(),
            b.spi3.regs == spi::RegisterMap::spec_zeroed(),
            b.spi3.wire == wire,
            b.spi3.busy_delay == busy_delay,
            b.spi3.txe_delay == txe_delay,
            b.spi3.rxne_delay == rxne_delay,
    {
        Board {
            clock: ClockUnit {
                flash: crate::flash::RegisterMap::zeroed(),
                pwr: crate::pwr::RegisterMap::zeroed(),
                rcc: rcc::RegisterMap::zeroed(),
                syst: SysTick::zeroed(),
                hsi_ready_delay,
                pll_lock_delay,
                clock_switch_delay,
                trace: Vec::new(),
            },
            scb: Scb::zeroed(),
            nvic: Nvic::zeroed(),
            gpioa: gpio::RegisterMap::zeroed(),
            gpiob: gpio::RegisterMap::zeroed(),
            gpioc: gpio::RegisterMap::zeroed(),
            gpioh: gpio::RegisterMap::zeroed(),
            spi3: Transceiver {
                regs: spi::RegisterMap::zeroed(),
                wire,
                busy_delay,
                txe_delay,
                rxne_delay,
            },
        }
    }
}

/// Enable the clocks of the GPIO banks this board uses and make the
/// LED pin a high-speed push-pull output with no pull resistors.
pub fn gpio_init(rcc: &mut rcc::RegisterMap, gpioa: &mut gpio::RegisterMap)
    ensures
        final(rcc).ahb1enr == old(rcc).ahb1enr | (rcc::ahb1enr::GPIOAEN | rcc::ahb1enr::GPIOBEN
            | rcc::ahb1enr::GPIOCEN | rcc::ahb1enr::GPIOHEN),
        *final(rcc) == (rcc::RegisterMap { ahb1enr: final(rcc).ahb1enr, ..*old(rcc) }),
        final(gpioa).moder == spec_set_field(
            old(gpioa).moder,
            10,
            2,
            gpio::Moder::Output.spec_bits(),
        ),
        final(gpioa).otyper == spec_set_field(
            old(gpioa).otyper,
            5,
            1,
            gpio::Typer::PushPull.spec_bits(),
        ),
        final(gpioa).ospeedr == spec_set_field(
            old(gpioa).ospeedr,
            10,
            2,
            gpio::Ospeedr::High.spec_bits(),
        ),
        final(gpioa).pupdr == spec_set_field(
            old(gpioa).pupdr,
            10,
            2,
            gpio::Pupdr::NoPuPd.spec_bits(),
        ),
        *final(gpioa) == (gpio::RegisterMap {
            moder: final(gpioa).moder,
            otyper: final(gpioa).otyper,
            ospeedr: final(gpioa).ospeedr,
            pupdr: final(gpioa).pupdr,
            ..*old(gpioa)
        }),
{
    rcc.ahb1enr = rcc.ahb1enr | (rcc::ahb1enr::GPIOAEN | rcc::ahb1enr::GPIOBEN
        | rcc::ahb1enr::GPIOCEN | rcc::ahb1enr::GPIOHEN);
    gpioa.moder = set_field(gpioa.moder, PIN_LED * 2, 2, gpio::Moder::Output.bits());
    gpioa.otyper = set_field(gpioa.otyper, PIN_LED, 1, gpio::Typer::PushPull.bits());
    gpioa.ospeedr = set_field(gpioa.ospeedr, PIN_LED * 2, 2, gpio::Ospeedr::High.bits());
    gpioa.pupdr = set_field(gpioa.pupdr, PIN_LED * 2, 2, gpio::Pupdr::NoPuPd.bits());
}

/// Enable the SPI controller's bus clock, route its four pins through
/// alternate function 6, and program the controller as a full-duplex
/// master.
pub fn spi_init(
    rcc: &mut rcc::RegisterMap,
    gpioa: &mut gpio::RegisterMap,
    gpioc: &mut gpio::RegisterMap,
    spi3: &mut spi::RegisterMap,
)
    ensures
        final(rcc).apb1enr == old(rcc).apb1enr | rcc::apb1enr::SPI3EN,
        *final(rcc) == (rcc::RegisterMap { apb1enr: final(rcc).apb1enr, ..*old(rcc) }),
        *final(gpioa) == spec_configure(*old(gpioa), PIN_SPI_NSS, spec_spi_pin_config()),
        *final(gpioc) == spec_configure(
            spec_configure(
                spec_configure(*old(gpioc), PIN_SPI_SCK, spec_spi_pin_config()),
                PIN_SPI_MISO,
                spec_spi_pin_config(),
            ),
            PIN_SPI_MOSI,
            spec_spi_pin_config(),
        ),
        final(spi3).cr1 == spi::master::spec_master_cr1(old(spi3).cr1),
        final(spi3).cr2 == spi::master::spec_master_cr2(old(spi3).cr2),
        final(spi3).i2scfgr == old(spi3).i2scfgr & !spi::i2scfgr::I2smod::I2sMode.spec_bits(),
        *final(spi3) == (spi::RegisterMap {
            cr1: final(spi3).cr1,
            cr2: final(spi3).cr2,
            i2scfgr: final(spi3).i2scfgr,
            ..*old(spi3)
        }),
{
    rcc.apb1enr = rcc.apb1enr | rcc::apb1enr::SPI3EN;
    let set = PinConfig {
        mode: gpio::Moder::Alternate,
        otype: gpio::Typer::PushPull,
        speed: gpio::Ospeedr::High,
        pull: gpio::Pupdr::NoPuPd,
        af: AF_SPI,
    };
    configure(gpioa, PIN_SPI_NSS, &set);
    configure(gpioc, PIN_SPI_SCK, &set);
    configure(gpioc, PIN_SPI_MISO, &set);
    configure(gpioc, PIN_SPI_MOSI, &set);
    configure_master(spi3);
}

/// Bring the whole board up: exception priorities, then the clock
/// tree, then the LED pin, then the SPI master and its pins.  A clock
/// timeout stops the bring-up there: the pins and the SPI controller
/// are then untouched.
pub fn init(b: &mut Board, max_polls: u32) -> (r: Result<(), ClockError>)
    requires
        old(b).scb.wf(),
        old(b).nvic.wf(),
    ensures
        final(b).scb.wf(),
        final(b).nvic.wf(),
        r is Ok <==> clock::spec_hsi_ok(old(b).clock, max_polls) && clock::spec_pll_ok(
            old(b).clock,
            max_polls,
        ) && clock::spec_switch_ok(old(b).clock, max_polls),
        final(b).scb.aircr == nvic::spec_aircr_init(old(b).scb.aircr),
        final(b).gpiob == old(b).gpiob,
        final(b).gpioh == old(b).gpioh,
        final(b).spi3.wire == old(b).spi3.wire,
        final(b).spi3.busy_delay == old(b).spi3.busy_delay,
        final(b).spi3.txe_delay == old(b).spi3.txe_delay,
        final(b).spi3.rxne_delay == old(b).spi3.rxne_delay,
        r is Ok ==> final(b).clock.trace@ == old(b).clock.trace@ + clock::spec_full_trace(),
        r is Err ==> *final(b) == (Board {
            clock: final(b).clock,
            scb: final(b).scb,
            nvic: final(b).nvic,
            ..*old(b)
        }),
        r is Ok ==> final(b).clock.rcc.cfgr == clock::spec_cfgr_selected(old(b).clock.rcc.cfgr)
            && final(b).clock.rcc.cr == clock::spec_cr_pll_locked(old(b).clock.rcc.cr) && final(b).clock.rcc.pllcfgr == clock::spec_pllcfgr_value(old(b).clock.rcc.pllcfgr) && final(b).clock.flash.acr == clock::spec_acr_latency(old(b).clock.flash.acr) && final(b).clock.pwr.cr == clock::spec_pwr_vos(old(b).clock.pwr.cr) && final(b).clock.syst.rvr
            == clock::HCLK_HZ / clock::TICK_HZ - 1,
        r is Ok ==> final(b).gpioa == spec_configure(
            gpio::RegisterMap {
                moder: spec_set_field(
                    old(b).gpioa.moder,
                    10,
                    2,
                    gpio::Moder::Output.spec_bits(),
                ),
                otyper: spec_set_field(
                    old(b).gpioa.otyper,
                    5,
                    1,
                    gpio::Typer::PushPull.spec_bits(),
                ),
                ospeedr: spec_set_field(
                    old(b).gpioa.ospeedr,
                    10,
                    2,
                    gpio::Ospeedr::High.spec_bits(),
                ),
                pupdr: spec_set_field(
                    old(b).gpioa.pupdr,
                    10,
                    2,
                    gpio::Pupdr::NoPuPd.spec_bits(),
                ),
                ..old(b).gpioa
            },
            PIN_SPI_NSS,
            spec_spi_pin_config(),
        ),
        r is Ok ==> final(b).gpioc == spec_configure(
            spec_configure(
                spec_configure(old(b).gpioc, PIN_SPI_SCK, spec_spi_pin_config()),
                PIN_SPI_MISO,
                spec_spi_pin_config(),
            ),
            PIN_SPI_MOSI,
            spec_spi_pin_config(),
        ),
        r is Ok ==> final(b).spi3.regs.cr1 == spi::master::spec_master_cr1(old(b).spi3.regs.cr1)
            && final(b).spi3.regs.cr2 == spi::master::spec_master_cr2(old(b).spi3.regs.cr2)
            && final(b).spi3.regs.i2scfgr == (old(b).spi3.regs.i2scfgr
            & !spi::i2scfgr::I2smod::I2sMode.spec_bits()),
{
    nvic::ll_init(&mut b.scb, &mut b.nvic);
    let res = clock::system_clock_config(&mut b.clock, &mut b.scb, &mut b.nvic, max_polls);
    if res.is_err() {
        return res;
    }
    gpio_init(&mut b.clock.rcc, &mut b.gpioa);
    spi_init(&mut b.clock.rcc, &mut b.gpioa, &mut b.gpioc, &mut b.spi3.regs);
    res
}

/// The transmit byte of the next exchange: the counter steps through
/// every byte value and wraps.
pub fn next_tx(tx: u8) -> (r: u8)
    ensures
        r == (((tx as u16 + 1) as u16 & 0xFF) as u8),
        tx < 255 ==> r == tx + 1,
        tx == 255 ==> r == 0,
{
    proof {
        lemma_next_tx(tx);
    }
    ((tx as u16 + 1) & 0xFF) as u8
}

/// Stepping a byte counter through a 16-bit add and a byte mask wraps
/// it around.
proof fn lemma_next_tx(tx: u8)
    by (bit_vector)
    ensures
        ((tx as u16 + 1) as u16 & 0xFF) < 256,
        tx < 255 ==> ((tx as u16 + 1) as u16 & 0xFF) as u8 == tx + 1,
        tx == 255 ==> ((tx as u16 + 1) as u16 & 0xFF) as u8 == 0,
{
}

/// Reflect one loopback exchange on the LED: lit exactly when the
/// received byte echoed the transmitted one.
pub fn loopback_led_update(gpioa: &mut gpio::RegisterMap, tx: u8, rx: u8)
    ensures
        tx == rx ==> final(gpioa).odr == old(gpioa).odr | (1u32 << PIN_LED),
        tx != rx ==> final(gpioa).odr == old(gpioa).odr & !(1u32 << PIN_LED),
        *final(gpioa) == (gpio::RegisterMap { odr: final(gpioa).odr, ..*old(gpioa) }),
{
    if tx == rx {
        gpio::set_pin(gpioa, PIN_LED);
    } else {
        gpio::clear_pin(gpioa, PIN_LED);
    }
}

} // verus!
