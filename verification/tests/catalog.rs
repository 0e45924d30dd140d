//! The bitfield catalog: enumerated register values encode to their
//! documented bit positions, and the base addresses match the memory
//! map.

use stm32f401re::exti;
use stm32f401re::flash;
use stm32f401re::gpio;
use stm32f401re::pwr;
use stm32f401re::rcc;
use stm32f401re::spi;
use stm32f401re::syscfg;

#[test]
fn base_addresses_match_the_memory_map() {
    assert_eq!(rcc::RCC_BASE, 0x4002_3800);
    assert_eq!(gpio::GPIOA_BASE, 0x4002_0000);
    assert_eq!(gpio::GPIOB_BASE, 0x4002_0400);
    assert_eq!(gpio::GPIOC_BASE, 0x4002_0800);
    assert_eq!(gpio::GPIOD_BASE, 0x4002_0C00);
    assert_eq!(gpio::GPIOE_BASE, 0x4002_1000);
    assert_eq!(gpio::GPIOH_BASE, 0x4002_1C00);
    assert_eq!(spi::SPI1_BASE, 0x4001_3000);
    assert_eq!(spi::SPI2_BASE, 0x4000_3800);
    assert_eq!(spi::SPI3_BASE, 0x4000_3C00);
    assert_eq!(spi::SPI4_BASE, 0x4001_3400);
    assert_eq!(flash::FLASH_BASE, 0x4002_3C00);
    assert_eq!(pwr::PWR_BASE, 0x4000_7000);
    assert_eq!(exti::EXTI_BASE, 0x4001_3C00);
    assert_eq!(syscfg::SYSCFG_BASE, 0x4001_3800);
}

#[test]
fn gpio_field_values() {
    assert_eq!(gpio::Moder::Input.bits(), 0b00);
    assert_eq!(gpio::Moder::Output.bits(), 0b01);
    assert_eq!(gpio::Moder::Alternate.bits(), 0b10);
    assert_eq!(gpio::Moder::Analog.bits(), 0b11);
    assert_eq!(gpio::Typer::PushPull.bits(), 0);
    assert_eq!(gpio::Typer::OpenDrain.bits(), 1);
    assert_eq!(gpio::Ospeedr::High.bits(), 0b11);
    assert_eq!(gpio::Pupdr::PullUp.bits(), 0b01);
    assert_eq!(gpio::Pupdr::PuuDown.bits(), 0b10);
}

#[test]
fn flash_field_values() {
    assert_eq!(flash::acr::LATENCY_MASK, 0xF);
    assert_eq!(flash::acr::Dcrst::Reset.bits(), 1 << 12);
    assert_eq!(flash::acr::Icen::Enable.bits(), 1 << 9);
    assert_eq!(flash::acr::Prften::Enable.bits(), 1 << 8);
    assert_eq!(flash::sr::BSY, 1 << 16);
    assert_eq!(flash::sr::EOP, 1);
    assert_eq!(flash::cr::LOCK, 1u32 << 31);
    assert_eq!(flash::cr::Psize::X32.bits(), 0b10 << 8);
    assert_eq!(flash::optcr::Rdp::Level0.bits(), 0xAA << 8);
    assert_eq!(flash::optcr::Rdp::Level1.bits(), 0xBB << 8);
    assert_eq!(flash::optcr::Bor::Off.bits(), 0b11 << 2);
    assert_eq!(flash::optcr::SPRMOD::Enable.bits(), 1u32 << 31);
}

#[test]
fn pwr_field_values() {
    assert_eq!(pwr::cr::VOS_MASK, 0b11 << 14);
    assert_eq!(pwr::cr::Vos::Scale2Mode.bits(), 0b10 << 14);
    assert_eq!(pwr::cr::Vos::Scale3Mode.bits(), 0b01 << 14);
    assert_eq!(pwr::cr::Pls::_2_2V.bits(), 0);
    assert_eq!(pwr::cr::Pls::_2_9V.bits(), 0b111 << 5);
    assert_eq!(pwr::cr::Pdds::StandbyMode.bits(), 1 << 1);
    assert_eq!(pwr::csr::Vosrdy::Ready.bits(), 1 << 14);
    assert_eq!(pwr::csr::Ewup::Enable.bits(), 1 << 8);
    assert_eq!(pwr::csr::WUF, 1);
}

#[test]
fn rcc_field_values() {
    assert_eq!(rcc::RCC_AHB1ENR_GPIOAEN, 1);
    assert_eq!(rcc::cr::HSION, 1);
    assert_eq!(rcc::cr::HSIRDY, 1 << 1);
    assert_eq!(rcc::cr::HSITRIM_MASK, 0x1F << 3);
    assert_eq!(rcc::cr::PLLON, 1 << 24);
    assert_eq!(rcc::cr::PLLRDY, 1 << 25);
    assert_eq!(rcc::pllcfgr::PLLN_MASK, 0x1FF << 6);
    assert_eq!(rcc::pllcfgr::PLLP_DIV4, 0b01 << 16);
    assert_eq!(rcc::cfgr::SW_PLL, 0b10);
    assert_eq!(rcc::cfgr::SWS_PLL, 0b10 << 2);
    assert_eq!(rcc::cfgr::PPRE1_DIV2, 0b100 << 10);
    assert_eq!(rcc::ahb1enr::GPIOHEN, 1 << 7);
    assert_eq!(rcc::apb1enr::SPI3EN, 1 << 15);
    assert_eq!(rcc::dckcfgr::TIMPRE_X2, 1 << 24);
}

#[test]
fn spi_field_values() {
    assert_eq!(spi::cr1::Spe::Enable.bits(), 1 << 6);
    assert_eq!(spi::cr1::Mstr::Master.bits(), 1 << 2);
    assert_eq!(spi::cr1::Ssi::Enable.bits(), 1 << 8);
    assert_eq!(spi::cr1::Br::DIV2.bits(), 0);
    assert_eq!(spi::cr1::Br::DIV32.bits(), 0b100 << 3);
    assert_eq!(spi::cr1::Br::DIV256.bits(), 0b111 << 3);
    assert_eq!(spi::cr1::Dff::Df16bit.bits(), 1 << 11);
    assert_eq!(spi::cr1::Bidimode::Bidir1Line.bits(), 1 << 15);
    assert_eq!(spi::cr2::Ssoe::Enable.bits(), 1 << 2);
    assert_eq!(spi::cr2::Frf::SpiTiMode.bits(), 1 << 4);
    assert_eq!(spi::sr::Bsy::Busy.bits(), 1 << 7);
    assert_eq!(spi::sr::Txe::Empty.bits(), 1 << 1);
    assert_eq!(spi::sr::Rxne::NotEmpty.bits(), 1);
    assert_eq!(spi::sr::Ovr::Overrun.bits(), 1 << 6);
    assert_eq!(spi::i2scfgr::I2smod::I2sMode.bits(), 1 << 11);
    assert_eq!(spi::i2scfgr::I2scfg::MasterReceive.bits(), 0b11 << 8);
    assert_eq!(spi::i2spr::Mckoe::Enable.bits(), 1 << 9);
    assert_eq!(spi::i2spr::I2S_DIV_MASK, 0xFF);
}

#[test]
fn exti_and_syscfg_field_values() {
    assert_eq!(exti::imr::Mrx::NotMask.bits(), 1);
    assert_eq!(exti::rtsr::Trx::Enable.bits(), 1);
    assert_eq!(exti::ftsr::Trx::Disable.bits(), 0);
    assert_eq!(exti::swier::Swierx::Allow.bits(), 1);
    assert_eq!(exti::pr::Prx::Requested.bits(), 1);
    assert_eq!(syscfg::memrmp::MemMode::EmbeddedSram.bits(), 0b11);
    assert_eq!(syscfg::pmc::Adc1Dc2::Effect.bits(), 1 << 16);
    assert_eq!(syscfg::exticrx::Extix::PCxPin.bits(), 0b0010);
    assert_eq!(syscfg::exticrx::Extix::PHxPin.bits(), 0b0111);
    assert_eq!(syscfg::cmpcr::Ready::Ready.bits(), 1 << 8);
    assert_eq!(syscfg::cmpcr::CmpPd::Enabled.bits(), 1);
}
