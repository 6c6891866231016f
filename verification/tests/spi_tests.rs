//! SPI construction, probes and remap gating.

use f103_hal::afio::Afio;
use f103_hal::common::Probe;
use f103_hal::flash::Flash;
use f103_hal::gpio::{BankId, Gpio};
use f103_hal::rcc::{Clocks, Rcc};
use f103_hal::spi::{Error, Spi};

const SPI_RXNE: u32 = 0x01;
const SPI_CRCERR: u32 = 0x10;
const SPI_MODF: u32 = 0x20;
const SPI_OVR: u32 = 0x40;

/// A fully wired SPI1 on its normal pins, with the default 8 MHz
/// clock tree, at the given rate.
fn wired_spi(freq: u32) -> Spi {
    let mut rcc = Rcc::new();
    let mut flash = Flash::new();
    let clocks: Clocks = rcc.cfgr.freeze(&mut flash.acr, &mut rcc.regs);

    let iopa = rcc.peripherals.iopa.enable(&mut rcc.regs);
    let (mut bank_a, mut pins) = Gpio::new(BankId::A).get_pins(iopa);
    let pa7 = pins.remove(7);
    let pa6 = pins.remove(6);
    let pa5 = pins.remove(5);
    let pa4 = pins.remove(4);
    let pa4 = pa4.set_output_10MHz(&mut bank_a).set_alt_output_push_pull(&mut bank_a);
    let pa5 = pa5.set_output_10MHz(&mut bank_a).set_alt_output_push_pull(&mut bank_a);
    let pa6 = pa6.set_floating_input(&mut bank_a);
    let pa7 = pa7.set_output_10MHz(&mut bank_a).set_alt_output_push_pull(&mut bank_a);

    let afio_gate = rcc.peripherals.afio.enable(&mut rcc.regs);
    let (_afio_regs, afio_periphs) = Afio::new(afio_gate).get_peripherals();
    let spi1_map = afio_periphs.spi1.set_not_remapped();

    let ports = Spi::ports_normal(pa4, pa5, pa6, pa7, spi1_map);
    let gate = rcc.peripherals.spi1.enable(&mut rcc.regs);
    Spi::new(ports, gate, freq, clocks)
}

#[test]
fn construction_programs_master_mode_and_the_prescaler() {
    // ratio 8 MHz / 1 MHz = 8 picks the divide-by-16 encoding 0b010
    let spi = wired_spi(1_000_000);
    assert_eq!(spi.cr1(), 0x01 | 0x02 | 0x04 | (0b010 << 3));
    assert_eq!(spi.cr2(), 0x04);
    assert!(spi.sent().is_empty());
}

#[test]
fn the_prescaler_table_covers_every_breakpoint() {
    assert_eq!(wired_spi(8_000_000).cr1() >> 3 & 0x7, 0b000);
    assert_eq!(wired_spi(4_000_000).cr1() >> 3 & 0x7, 0b000);
    assert_eq!(wired_spi(2_000_000).cr1() >> 3 & 0x7, 0b001);
    assert_eq!(wired_spi(1_000_000).cr1() >> 3 & 0x7, 0b010);
    assert_eq!(wired_spi(500_000).cr1() >> 3 & 0x7, 0b011);
    assert_eq!(wired_spi(250_000).cr1() >> 3 & 0x7, 0b100);
    assert_eq!(wired_spi(125_000).cr1() >> 3 & 0x7, 0b101);
    assert_eq!(wired_spi(62_500).cr1() >> 3 & 0x7, 0b110);
    assert_eq!(wired_spi(31_250).cr1() >> 3 & 0x7, 0b111);
}

#[test]
fn enable_and_disable_toggle_the_peripheral_bit() {
    let mut spi = wired_spi(1_000_000);
    spi.enable();
    assert_eq!(spi.cr1() & 0x40, 0x40);
    spi.disable();
    assert_eq!(spi.cr1() & 0x40, 0);
}

#[test]
fn listen_drives_the_three_interrupt_enables() {
    let mut spi = wired_spi(1_000_000);
    spi.listen(true, false);
    assert_eq!(spi.cr2(), 0x04 | 0x80 | 0x20);
    spi.listen(false, true);
    assert_eq!(spi.cr2(), 0x04 | 0x40 | 0x20);
}

#[test]
fn spi_read_surfaces_each_fault_then_data() {
    let mut spi = wired_spi(1_000_000);
    spi.feed_status(SPI_OVR, 0);
    spi.feed_status(SPI_MODF, 0);
    spi.feed_status(SPI_CRCERR, 0);
    spi.feed_status(SPI_RXNE, 0x5A);
    spi.feed_status(0, 0);
    assert!(matches!(spi.read(), Probe::Fault(Error::Overrun)));
    assert!(matches!(spi.read(), Probe::Fault(Error::ModeFault)));
    assert!(matches!(spi.read(), Probe::Fault(Error::CrcError)));
    assert!(matches!(spi.read(), Probe::Complete(0x5A)));
    assert!(matches!(spi.read(), Probe::NotYet));
    // script exhausted: the hardware stays silent
    assert!(matches!(spi.read(), Probe::NotYet));
}

#[test]
fn spi_send_hands_the_byte_over_only_when_ready() {
    let mut spi = wired_spi(1_000_000);
    spi.feed_status(0, 0);
    spi.feed_status(SPI_RXNE, 0);
    assert!(matches!(spi.send(0x11), Probe::NotYet));
    assert!(spi.sent().is_empty());
    assert!(matches!(spi.send(0x22), Probe::Complete(())));
    assert_eq!(spi.sent(), &vec![0x22]);
}

#[test]
fn spi_send_surfaces_faults_without_writing() {
    let mut spi = wired_spi(1_000_000);
    spi.feed_status(SPI_OVR, 0);
    assert!(matches!(spi.send(0x33), Probe::Fault(Error::Overrun)));
    assert!(spi.sent().is_empty());
}

#[test]
fn the_second_instance_wires_on_its_fixed_pins() {
    let mut rcc = Rcc::new();
    let mut flash = Flash::new();
    let clocks: Clocks = rcc.cfgr.freeze(&mut flash.acr, &mut rcc.regs);

    let iopb = rcc.peripherals.iopb.enable(&mut rcc.regs);
    let (mut bank_b, mut pins_b) = Gpio::new(BankId::B).get_pins(iopb);
    let pb15 = pins_b.remove(15);
    let pb14 = pins_b.remove(14);
    let pb13 = pins_b.remove(13);
    let pb12 = pins_b.remove(12);
    let pb12 = pb12.set_output_10MHz(&mut bank_b).set_alt_output_push_pull(&mut bank_b);
    let pb13 = pb13.set_output_10MHz(&mut bank_b).set_alt_output_push_pull(&mut bank_b);
    let pb14 = pb14.set_floating_input(&mut bank_b);
    let pb15 = pb15.set_output_10MHz(&mut bank_b).set_alt_output_push_pull(&mut bank_b);

    let ports = Spi::ports_spi2(pb12, pb13, pb14, pb15);
    let gate = rcc.peripherals.spi2.enable(&mut rcc.regs);
    let spi = Spi::new(ports, gate, 1_000_000, clocks);
    assert_eq!(spi.cr2(), 0x04);
}

#[test]
fn remapped_ports_need_the_remapped_proof() {
    let mut rcc = Rcc::new();
    let mut flash = Flash::new();
    let clocks: Clocks = rcc.cfgr.freeze(&mut flash.acr, &mut rcc.regs);

    let iopa = rcc.peripherals.iopa.enable(&mut rcc.regs);
    let (mut bank_a, mut pins_a) = Gpio::new(BankId::A).get_pins(iopa);
    let pa15 = pins_a.remove(15);
    let pa15 = pa15.set_output_10MHz(&mut bank_a).set_alt_output_push_pull(&mut bank_a);

    let iopb = rcc.peripherals.iopb.enable(&mut rcc.regs);
    let (mut bank_b, mut pins_b) = Gpio::new(BankId::B).get_pins(iopb);
    let pb5 = pins_b.remove(5);
    let pb4 = pins_b.remove(4);
    let pb3 = pins_b.remove(3);
    let pb3 = pb3.set_output_10MHz(&mut bank_b).set_alt_output_push_pull(&mut bank_b);
    let pb4 = pb4.set_floating_input(&mut bank_b);
    let pb5 = pb5.set_output_10MHz(&mut bank_b).set_alt_output_push_pull(&mut bank_b);

    let afio_gate = rcc.peripherals.afio.enable(&mut rcc.regs);
    let (mut afio_regs, afio_periphs) = Afio::new(afio_gate).get_peripherals();
    // only a token committed to the remapped mapping is accepted here;
    // handing over one committed to the normal mapping is rejected at
    // verification time
    let spi1_map = afio_periphs.spi1.set_remapped(&mut afio_regs);
    assert_eq!(afio_regs.mapr(), 1 << 0);

    let ports = Spi::ports_remapped(pa15, pb3, pb4, pb5, spi1_map);
    let gate = rcc.peripherals.spi1.enable(&mut rcc.regs);
    let spi = Spi::new(ports, gate, 1_000_000, clocks);
    assert_eq!(spi.cr2(), 0x04);
}
