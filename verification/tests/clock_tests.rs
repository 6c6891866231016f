//! Clock gating and clock-tree solver behaviour.

use f103_hal::flash::Flash;
use f103_hal::rcc::{PeripheralId, Rcc, RccWrite};

#[test]
fn every_token_starts_disabled_and_named() {
    let rcc = Rcc::new();
    assert_eq!(rcc.regs.cr(), 0x83);
    assert_eq!(rcc.regs.cfgr(), 0);
    assert!(rcc.regs.log().is_empty());
    assert!(!rcc.peripherals.usart1.is_enabled());
    assert!(!rcc.peripherals.i2c1.is_enabled());
    assert!(!rcc.peripherals.spi1.is_enabled());
    assert!(!rcc.peripherals.iopa.is_enabled());
    assert_eq!(rcc.peripherals.usart1.id(), PeripheralId::Usart1);
    assert_eq!(rcc.peripherals.usart2.id(), PeripheralId::Usart2);
    assert_eq!(rcc.peripherals.tim2.id(), PeripheralId::Tim2);
    assert_eq!(rcc.peripherals.i2c2.id(), PeripheralId::I2c2);
    assert_eq!(rcc.peripherals.afio.id(), PeripheralId::Afio);
    assert_eq!(rcc.peripherals.iopd.id(), PeripheralId::Iopd);
    assert_eq!(rcc.peripherals.spi2.id(), PeripheralId::Spi2);
}

#[test]
fn enable_sets_only_the_usart1_bit_on_apb2() {
    let mut rcc = Rcc::new();
    let tok = rcc.peripherals.usart1.enable(&mut rcc.regs);
    assert!(tok.is_enabled());
    assert_eq!(rcc.regs.apb2enr(), 1 << 14);
    assert_eq!(rcc.regs.apb1enr(), 0);
    assert_eq!(rcc.regs.log().len(), 1);
    assert_eq!(rcc.regs.log()[0], RccWrite::Apb2Enr(1 << 14));
}

#[test]
fn enable_sets_only_the_tim2_bit_on_apb1() {
    let mut rcc = Rcc::new();
    let tok = rcc.peripherals.tim2.enable(&mut rcc.regs);
    assert!(tok.is_enabled());
    assert_eq!(rcc.regs.apb1enr(), 1 << 0);
    assert_eq!(rcc.regs.apb2enr(), 0);
}

#[test]
fn enable_preserves_other_enable_bits() {
    let mut rcc = Rcc::new();
    let _a = rcc.peripherals.iopa.enable(&mut rcc.regs);
    let _b = rcc.peripherals.iopb.enable(&mut rcc.regs);
    let _s = rcc.peripherals.spi1.enable(&mut rcc.regs);
    assert_eq!(rcc.regs.apb2enr(), (1 << 2) | (1 << 3) | (1 << 12));
}

#[test]
fn reset_pulses_the_reset_bit() {
    let mut rcc = Rcc::new();
    let _t = rcc.peripherals.i2c1.reset(&mut rcc.regs);
    assert_eq!(rcc.regs.log().len(), 2);
    assert_eq!(rcc.regs.log()[0], RccWrite::Apb1Rstr(1 << 21));
    assert_eq!(rcc.regs.log()[1], RccWrite::Apb1Rstr(0));
    assert_eq!(rcc.regs.apb1enr(), 0);
}

#[test]
fn freeze_with_no_targets_uses_the_oscillator_directly() {
    let mut rcc = Rcc::new();
    let mut flash = Flash::new();
    let clocks = rcc.cfgr.freeze(&mut flash.acr, &mut rcc.regs);
    assert_eq!(clocks.sysclk(), 8_000_000);
    assert_eq!(clocks.hclk(), 8_000_000);
    assert_eq!(clocks.pclk1(), 8_000_000);
    assert_eq!(clocks.pclk2(), 8_000_000);
    assert_eq!(clocks.ppre1(), 1);
    assert_eq!(clocks.ppre2(), 1);
    // no wait states needed at 8 MHz
    assert_eq!(flash.acr.read(), 0x30);
    // one single register write, and no PLL enable sequence at all
    assert_eq!(rcc.regs.log().len(), 1);
    assert_eq!(
        rcc.regs.log()[0],
        RccWrite::Cfgr((0b0111 << 4) | (0b011 << 8) | (0b011 << 11))
    );
    assert_eq!(rcc.regs.cr(), 0x83);
}

#[test]
fn freeze_at_top_speed_programs_flash_before_the_switch() {
    let mut rcc = Rcc::new();
    let mut flash = Flash::new();
    // the APB1 bus may not exceed 36 MHz, so it needs its own target
    let clocks = rcc
        .cfgr
        .sysclk(64_000_000)
        .pclk1(32_000_000)
        .freeze(&mut flash.acr, &mut rcc.regs);
    assert_eq!(clocks.sysclk(), 64_000_000);
    assert_eq!(clocks.pclk1(), 32_000_000);
    // two wait states above 48 MHz
    assert_eq!(flash.acr.read(), 0x32);
    // multiplier word, PLL on, then prescalers together with the switch
    let pll_bits = 16 - 2;
    let final_word =
        0b10 | (0b0111 << 4) | (0b100 << 8) | (0b011 << 11) | (pll_bits << 18);
    assert_eq!(rcc.regs.log().len(), 3);
    assert_eq!(rcc.regs.log()[0], RccWrite::Cfgr(pll_bits << 18));
    assert_eq!(rcc.regs.log()[1], RccWrite::Cr(0x83 | (1 << 24)));
    assert_eq!(rcc.regs.log()[2], RccWrite::Cfgr(final_word));
    assert_eq!(rcc.regs.cfgr(), final_word);
    // the lock bit reads as set after the enable
    assert_eq!(rcc.regs.cr(), 0x83 | (1 << 24) | (1 << 25));
}

#[test]
fn freeze_derives_every_bus_from_its_targets() {
    let mut rcc = Rcc::new();
    let mut flash = Flash::new();
    let clocks = rcc
        .cfgr
        .sysclk(48_000_000)
        .hclk(24_000_000)
        .pclk1(12_000_000)
        .pclk2(24_000_000)
        .freeze(&mut flash.acr, &mut rcc.regs);
    assert_eq!(clocks.sysclk(), 48_000_000);
    assert_eq!(clocks.hclk(), 24_000_000);
    assert_eq!(clocks.pclk1(), 12_000_000);
    assert_eq!(clocks.pclk2(), 24_000_000);
    assert_eq!(clocks.ppre1(), 2);
    assert_eq!(clocks.ppre2(), 1);
    // one wait state between 24 and 48 MHz
    assert_eq!(flash.acr.read(), 0x31);
}

#[test]
fn freeze_rounds_the_requested_rate_to_the_nearest_multiple() {
    let mut rcc = Rcc::new();
    let mut flash = Flash::new();
    // 30 MHz rounds to the nearest multiple of 4 MHz, which is 32 MHz
    let clocks = rcc.cfgr.sysclk(30_000_000).freeze(&mut flash.acr, &mut rcc.regs);
    assert_eq!(clocks.sysclk(), 32_000_000);
    assert_eq!(flash.acr.read(), 0x31);
}
