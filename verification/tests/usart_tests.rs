//! USART construction, the split halves and their probes.

use f103_hal::afio::Afio;
use f103_hal::common::Probe;
use f103_hal::flash::Flash;
use f103_hal::gpio::{BankId, Gpio};
use f103_hal::rcc::{Clocks, Rcc};
use f103_hal::usart::{Error, Event, Usart, UsartConfigWrite, UsartRx, UsartTx};

const SR_PE: u32 = 0x01;
const SR_FE: u32 = 0x02;
const SR_NE: u32 = 0x04;
const SR_ORE: u32 = 0x08;
const SR_RXNE: u32 = 0x20;
const SR_TXE: u32 = 0x80;

/// A fully wired USART1 on its normal pins, with the default 8 MHz
/// clock tree, at the given baud rate.
fn wired_usart(baud: u32) -> Usart {
    let mut rcc = Rcc::new();
    let mut flash = Flash::new();
    let clocks: Clocks = rcc.cfgr.freeze(&mut flash.acr, &mut rcc.regs);

    let iopa = rcc.peripherals.iopa.enable(&mut rcc.regs);
    let (mut bank_a, mut pins) = Gpio::new(BankId::A).get_pins(iopa);
    let pa10 = pins.remove(10);
    let pa9 = pins.remove(9);
    let pa9 = pa9.set_output_50MHz(&mut bank_a).set_alt_output_push_pull(&mut bank_a);
    let pa10 = pa10.set_floating_input(&mut bank_a);

    let afio_gate = rcc.peripherals.afio.enable(&mut rcc.regs);
    let (_afio_regs, afio_periphs) = Afio::new(afio_gate).get_peripherals();
    let usart1_map = afio_periphs.usart1.set_not_remapped();

    let ports = Usart::ports_normal(pa9, pa10, usart1_map);
    let gate = rcc.peripherals.usart1.enable(&mut rcc.regs);
    Usart::new(ports, gate, baud, clocks)
}

fn split_usart(baud: u32) -> (UsartTx, UsartRx) {
    wired_usart(baud).split()
}

#[test]
fn construction_programs_divider_dma_and_enables() {
    let usart = wired_usart(115_200);
    assert_eq!(usart.brr(), 8_000_000 / 115_200);
    assert_eq!(usart.cr3(), 0x80 | 0x40);
    assert_eq!(usart.cr1(), 0x2000 | 0x08 | 0x04);
    // DMA and timing are written first; the write that carries the
    // peripheral enable comes last
    assert_eq!(
        usart.config_log(),
        &vec![
            UsartConfigWrite::Cr3(0x80 | 0x40),
            UsartConfigWrite::Brr(8_000_000 / 115_200),
            UsartConfigWrite::Cr1(0x2000 | 0x08 | 0x04),
        ]
    );
}

#[test]
fn listen_and_unlisten_move_one_bit_each() {
    let mut usart = wired_usart(9_600);
    let base = usart.cr1();
    usart.listen(Event::Rxne);
    assert_eq!(usart.cr1(), base | 0x20);
    usart.listen(Event::Txe);
    assert_eq!(usart.cr1(), base | 0x20 | 0x80);
    usart.unlisten(Event::Rxne);
    assert_eq!(usart.cr1(), base | 0x80);
    usart.unlisten(Event::Txe);
    assert_eq!(usart.cr1(), base);
}

#[test]
fn the_transmitter_waits_for_an_empty_buffer() {
    let (mut tx, _rx) = split_usart(9_600);
    tx.feed_status(0);
    tx.feed_status(SR_TXE);
    assert!(matches!(tx.write(0x41), Probe::NotYet));
    assert!(tx.sent().is_empty());
    assert!(matches!(tx.write(0x42), Probe::Complete(())));
    assert_eq!(tx.sent(), &vec![0x42]);
    // script exhausted: the hardware stays silent
    assert!(matches!(tx.write(0x43), Probe::NotYet));
}

#[test]
fn flush_completes_once_the_buffer_drains() {
    let (mut tx, _rx) = split_usart(9_600);
    tx.feed_status(0);
    tx.feed_status(SR_TXE);
    assert!(matches!(tx.flush(), Probe::NotYet));
    assert!(matches!(tx.flush(), Probe::Complete(())));
}

#[test]
fn the_receiver_surfaces_each_fault_then_data() {
    let (_tx, mut rx) = split_usart(9_600);
    rx.feed_status(SR_PE, 0);
    rx.feed_status(SR_FE, 0);
    rx.feed_status(SR_NE, 0);
    rx.feed_status(SR_ORE, 0);
    rx.feed_status(SR_RXNE, 0x55);
    rx.feed_status(0, 0);
    assert!(matches!(rx.read(), Probe::Fault(Error::Parity)));
    assert!(matches!(rx.read(), Probe::Fault(Error::Framing)));
    assert!(matches!(rx.read(), Probe::Fault(Error::Noise)));
    assert!(matches!(rx.read(), Probe::Fault(Error::Overrun)));
    assert!(matches!(rx.read(), Probe::Complete(0x55)));
    assert!(matches!(rx.read(), Probe::NotYet));
    assert!(matches!(rx.read(), Probe::NotYet));
}

#[test]
fn the_remapped_wiring_takes_the_b_bank_pins() {
    let mut rcc = Rcc::new();
    let mut flash = Flash::new();
    let clocks: Clocks = rcc.cfgr.freeze(&mut flash.acr, &mut rcc.regs);

    let iopb = rcc.peripherals.iopb.enable(&mut rcc.regs);
    let (mut bank_b, mut pins) = Gpio::new(BankId::B).get_pins(iopb);
    let pb7 = pins.remove(7);
    let pb6 = pins.remove(6);
    let pb6 = pb6.set_output_50MHz(&mut bank_b).set_alt_output_push_pull(&mut bank_b);
    let pb7 = pb7.set_floating_input(&mut bank_b);

    let afio_gate = rcc.peripherals.afio.enable(&mut rcc.regs);
    let (mut afio_regs, afio_periphs) = Afio::new(afio_gate).get_peripherals();
    let usart1_map = afio_periphs.usart1.set_remapped(&mut afio_regs);
    assert_eq!(afio_regs.mapr(), 1 << 2);

    let ports = Usart::ports_remapped(pb6, pb7, usart1_map);
    let gate = rcc.peripherals.usart1.enable(&mut rcc.regs);
    let usart = Usart::new(ports, gate, 9_600, clocks);
    assert_eq!(usart.brr(), 8_000_000 / 9_600);
}

#[test]
fn the_parity_bit_outranks_the_other_faults() {
    let (_tx, mut rx) = split_usart(9_600);
    rx.feed_status(SR_PE | SR_ORE | SR_RXNE, 0x77);
    assert!(matches!(rx.read(), Probe::Fault(Error::Parity)));
}
