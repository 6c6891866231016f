//! Remap tokens and the flash access control register.

use f103_hal::afio::{Afio, AfioPeripherals, AfioRegs, RemapPeriph, RemapState};
use f103_hal::flash::Flash;
use f103_hal::rcc::Rcc;

fn afio_parts() -> (AfioRegs, AfioPeripherals) {
    let mut rcc = Rcc::new();
    let gate = rcc.peripherals.afio.enable(&mut rcc.regs);
    Afio::new(gate).get_peripherals()
}

#[test]
fn tokens_start_unconfigured_for_each_function() {
    let (regs, periphs) = afio_parts();
    assert_eq!(regs.mapr(), 0);
    assert_eq!(periphs.usart1.periph(), RemapPeriph::Usart1);
    assert_eq!(periphs.usart2.periph(), RemapPeriph::Usart2);
    assert_eq!(periphs.i2c1.periph(), RemapPeriph::I2c1);
    assert_eq!(periphs.spi1.periph(), RemapPeriph::Spi1);
    assert_eq!(periphs.usart1.state(), RemapState::NotConfigured);
    assert_eq!(periphs.spi1.state(), RemapState::NotConfigured);
}

#[test]
fn committing_to_the_normal_mapping_writes_nothing() {
    let (regs, periphs) = afio_parts();
    let tok = periphs.usart1.set_not_remapped();
    assert_eq!(tok.state(), RemapState::NotRemapped);
    assert_eq!(regs.mapr(), 0);
}

#[test]
fn committing_to_the_alternate_mapping_sets_only_its_bit() {
    let (mut regs, periphs) = afio_parts();
    let tok = periphs.i2c1.set_remapped(&mut regs);
    assert_eq!(tok.state(), RemapState::Remapped);
    assert_eq!(regs.mapr(), 1 << 1);
    assert!(regs.is_remapped(RemapPeriph::I2c1));
    assert!(!regs.is_remapped(RemapPeriph::Usart1));
    let tok2 = periphs.usart2.set_remapped(&mut regs);
    assert_eq!(tok2.state(), RemapState::Remapped);
    assert_eq!(regs.mapr(), (1 << 1) | (1 << 3));
}

#[test]
fn the_flash_block_starts_at_reset() {
    let flash = Flash::new();
    assert_eq!(flash.acr.read(), 0x30);
}
