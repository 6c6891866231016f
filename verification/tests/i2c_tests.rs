//! I2C construction, probes and composite transactions.

use f103_hal::afio::Afio;
use f103_hal::common::Probe;
use f103_hal::flash::Flash;
use f103_hal::gpio::{BankId, Gpio};
use f103_hal::i2c::{Error, I2c, I2cConfigWrite, I2cDutyCycle, I2cOp};
use f103_hal::rcc::{Clocks, Rcc};

const SB: u32 = 0x0001;
const ADDR: u32 = 0x0002;
const RXNE: u32 = 0x0040;
const TXE: u32 = 0x0080;
const BERR: u32 = 0x0100;
const ARLO: u32 = 0x0200;
const AF: u32 = 0x0400;
const OVR: u32 = 0x0800;
const TIMEOUT: u32 = 0x4000;

/// A fully wired I2C1 on its normal pins, with the default 8 MHz
/// clock tree, at the given rate.
fn wired_i2c(freq: u32, duty: I2cDutyCycle) -> I2c {
    let mut rcc = Rcc::new();
    let mut flash = Flash::new();
    let clocks: Clocks = rcc.cfgr.freeze(&mut flash.acr, &mut rcc.regs);

    let iopb = rcc.peripherals.iopb.enable(&mut rcc.regs);
    let (mut bank_b, mut pins) = Gpio::new(BankId::B).get_pins(iopb);
    let pb7 = pins.remove(7);
    let pb6 = pins.remove(6);
    let pb6 = pb6.set_output_50MHz(&mut bank_b).set_alt_output_open_drain(&mut bank_b);
    let pb7 = pb7.set_output_50MHz(&mut bank_b).set_alt_output_open_drain(&mut bank_b);

    let afio_gate = rcc.peripherals.afio.enable(&mut rcc.regs);
    let (mut _afio_regs, afio_periphs) = Afio::new(afio_gate).get_peripherals();
    let i2c1_map = afio_periphs.i2c1.set_not_remapped();

    let ports = I2c::ports_normal(pb6, pb7, i2c1_map);
    let gate = rcc.peripherals.i2c1.enable(&mut rcc.regs);
    I2c::new(ports, gate, freq, clocks, duty)
}

#[test]
fn construction_programs_the_timing_registers() {
    // above 100 kHz: plain divider, clock in MHz, rise time one more
    let i2c = wired_i2c(400_000, I2cDutyCycle::Ratio1to1);
    assert_eq!(i2c.cr2(), 8);
    assert_eq!(i2c.trise(), 9);
    assert_eq!(i2c.ccr(), 8_000_000 / (400_000 * 2));
    assert_eq!(i2c.cr1(), 1);
    assert!(i2c.ops().is_empty());
    // the timing registers are written first; the peripheral enable
    // is the last configuration write
    assert_eq!(
        i2c.config_log(),
        &vec![
            I2cConfigWrite::Cr2(8),
            I2cConfigWrite::Trise(9),
            I2cConfigWrite::Ccr(10),
            I2cConfigWrite::Cr1(1),
        ]
    );
}

#[test]
fn construction_at_a_low_rate_sets_the_mode_and_duty_bits() {
    let i2c = wired_i2c(100_000, I2cDutyCycle::Ratio16to9);
    // divider 8 MHz / (100 kHz * 25), floored, and the two mode bits
    assert_eq!(i2c.ccr(), 0x8000 | 0x4000 | 3);
    assert_eq!(i2c.trise(), 8 * 300 / 1000 + 1);
}

#[test]
fn probes_report_each_fault_bit_in_priority_order() {
    let mut i2c = wired_i2c(400_000, I2cDutyCycle::Ratio1to1);
    i2c.feed_status(TIMEOUT);
    i2c.feed_status(AF);
    i2c.feed_status(ARLO);
    i2c.feed_status(OVR);
    i2c.feed_status(BERR);
    i2c.feed_status(TIMEOUT | BERR);
    assert!(matches!(i2c.start_complete(), Probe::Fault(Error::Timeout)));
    assert!(matches!(i2c.addr_complete(), Probe::Fault(Error::AF)));
    assert!(matches!(i2c.transmit_empty(), Probe::Fault(Error::ARLO)));
    assert!(matches!(i2c.receive_not_empty(), Probe::Fault(Error::OVR)));
    assert!(matches!(i2c.start_complete(), Probe::Fault(Error::BERR)));
    // the timeout bit outranks the bus-error bit
    assert!(matches!(i2c.start_complete(), Probe::Fault(Error::Timeout)));
}

#[test]
fn probes_wait_and_complete_on_their_own_flag() {
    let mut i2c = wired_i2c(400_000, I2cDutyCycle::Ratio1to1);
    assert!(matches!(i2c.start_complete(), Probe::NotYet));
    i2c.feed_status(0);
    i2c.feed_status(SB);
    i2c.feed_status(TXE);
    assert!(matches!(i2c.start_complete(), Probe::NotYet));
    assert!(matches!(i2c.start_complete(), Probe::Complete(())));
    // a transmit-empty word does not complete a receive wait
    assert!(matches!(i2c.receive_not_empty(), Probe::NotYet));
}

#[test]
fn start_and_stop_set_their_control_bits() {
    let mut i2c = wired_i2c(400_000, I2cDutyCycle::Ratio1to1);
    assert!(i2c.start().is_ok());
    assert_eq!(i2c.cr1(), 1 | 0x100);
    assert!(i2c.stop().is_ok());
    assert_eq!(i2c.cr1(), 1 | 0x100 | 0x200);
    assert_eq!(i2c.ops(), &vec![I2cOp::Start, I2cOp::Stop]);
}

#[test]
fn listen_enables_both_interrupt_sources() {
    let mut i2c = wired_i2c(400_000, I2cDutyCycle::Ratio1to1);
    i2c.listen();
    assert_eq!(i2c.cr2(), 8 | 0x100 | 0x200);
}

#[test]
fn write_issues_the_exact_register_sequence() {
    let mut i2c = wired_i2c(400_000, I2cDutyCycle::Ratio1to1);
    i2c.feed_status(SB);
    i2c.feed_status(ADDR);
    i2c.feed_status(TXE);
    i2c.feed_status(TXE);
    i2c.feed_status(TXE);
    i2c.feed_status(TXE);
    let r = i2c.write(0x43, &vec![0x10, 0x20, 0x30]);
    assert!(r.is_ok());
    assert_eq!(
        i2c.ops(),
        &vec![
            I2cOp::Start,
            I2cOp::Data(0x42),
            I2cOp::ClearAddr,
            I2cOp::Data(0x10),
            I2cOp::Data(0x20),
            I2cOp::Data(0x30),
            I2cOp::Stop,
        ]
    );
}

#[test]
fn write_retries_while_the_hardware_is_not_ready() {
    let mut i2c = wired_i2c(400_000, I2cDutyCycle::Ratio1to1);
    i2c.feed_status(0);
    i2c.feed_status(SB);
    i2c.feed_status(0);
    i2c.feed_status(0);
    i2c.feed_status(ADDR);
    i2c.feed_status(TXE);
    i2c.feed_status(TXE);
    let r = i2c.write(0x43, &vec![0x7F]);
    assert!(r.is_ok());
    assert_eq!(
        i2c.ops(),
        &vec![
            I2cOp::Start,
            I2cOp::Data(0x42),
            I2cOp::ClearAddr,
            I2cOp::Data(0x7F),
            I2cOp::Stop,
        ]
    );
}

#[test]
fn a_bus_error_during_the_payload_aborts_the_write() {
    let mut i2c = wired_i2c(400_000, I2cDutyCycle::Ratio1to1);
    i2c.feed_status(SB);
    i2c.feed_status(ADDR);
    i2c.feed_status(BERR);
    let r = i2c.write(0x43, &vec![0x10, 0x20, 0x30]);
    assert_eq!(r, Err(Error::BERR));
    // no payload byte and no stop went out after the fault
    assert_eq!(
        i2c.ops(),
        &vec![I2cOp::Start, I2cOp::Data(0x42), I2cOp::ClearAddr]
    );
}

#[test]
fn a_bus_error_during_the_start_aborts_at_once() {
    let mut i2c = wired_i2c(400_000, I2cDutyCycle::Ratio1to1);
    i2c.feed_status(BERR);
    let r = i2c.write(0x43, &vec![0x10]);
    assert_eq!(r, Err(Error::BERR));
    assert_eq!(i2c.ops(), &vec![I2cOp::Start]);
}

#[test]
fn an_acknowledge_failure_on_the_address_aborts_before_the_payload() {
    let mut i2c = wired_i2c(400_000, I2cDutyCycle::Ratio1to1);
    i2c.feed_status(SB);
    i2c.feed_status(AF);
    let r = i2c.write(0x43, &vec![0x10]);
    assert_eq!(r, Err(Error::AF));
    assert_eq!(i2c.ops(), &vec![I2cOp::Start, I2cOp::Data(0x42)]);
}

#[test]
fn a_fault_mid_payload_keeps_the_earlier_bytes_only() {
    let mut i2c = wired_i2c(400_000, I2cDutyCycle::Ratio1to1);
    i2c.feed_status(SB);
    i2c.feed_status(ADDR);
    i2c.feed_status(TXE);
    i2c.feed_status(TXE);
    i2c.feed_status(OVR);
    let r = i2c.write(0x43, &vec![0x10, 0x20, 0x30]);
    assert_eq!(r, Err(Error::OVR));
    assert_eq!(
        i2c.ops(),
        &vec![
            I2cOp::Start,
            I2cOp::Data(0x42),
            I2cOp::ClearAddr,
            I2cOp::Data(0x10),
            I2cOp::Data(0x20),
        ]
    );
}

#[test]
fn write_read_runs_both_phases_and_fills_the_buffer() {
    let mut i2c = wired_i2c(400_000, I2cDutyCycle::Ratio1to1);
    i2c.feed_status(SB);
    i2c.feed_status(ADDR);
    i2c.feed_status(TXE);
    i2c.feed_status(TXE);
    i2c.feed_status(SB);
    i2c.feed_status(ADDR);
    i2c.feed_status(RXNE);
    i2c.feed_status(RXNE);
    i2c.feed_data(0xAA);
    i2c.feed_data(0xBB);
    let mut buffer = vec![0u8, 0u8];
    let r = i2c.write_read(0x43, &vec![0x10], &mut buffer);
    assert!(r.is_ok());
    assert_eq!(buffer, vec![0xAA, 0xBB]);
    // the address goes out again with the read bit after the repeated
    // start, and the acknowledge is cleared before the final byte
    assert_eq!(
        i2c.ops(),
        &vec![
            I2cOp::Start,
            I2cOp::Data(0x42),
            I2cOp::ClearAddr,
            I2cOp::Data(0x10),
            I2cOp::Start,
            I2cOp::Data(0x43),
            I2cOp::ClearAddr,
            I2cOp::Read(0xAA),
            I2cOp::ClearAck,
            I2cOp::Read(0xBB),
            I2cOp::Stop,
        ]
    );
    // clearing the acknowledge is visible in the control register
    assert_eq!(i2c.cr1() & 0x400, 0);
}

#[test]
fn write_read_of_one_byte_clears_the_acknowledge_first() {
    let mut i2c = wired_i2c(400_000, I2cDutyCycle::Ratio1to1);
    i2c.feed_status(SB);
    i2c.feed_status(ADDR);
    i2c.feed_status(TXE);
    i2c.feed_status(SB);
    i2c.feed_status(ADDR);
    i2c.feed_status(RXNE);
    i2c.feed_data(0x7E);
    let mut buffer = vec![0u8];
    let r = i2c.write_read(0x43, &vec![], &mut buffer);
    assert!(r.is_ok());
    assert_eq!(buffer, vec![0x7E]);
    assert_eq!(
        i2c.ops(),
        &vec![
            I2cOp::Start,
            I2cOp::Data(0x42),
            I2cOp::ClearAddr,
            I2cOp::Start,
            I2cOp::Data(0x43),
            I2cOp::ClearAddr,
            I2cOp::ClearAck,
            I2cOp::Read(0x7E),
            I2cOp::Stop,
        ]
    );
}

#[test]
fn a_fault_during_the_read_phase_keeps_the_received_prefix() {
    let mut i2c = wired_i2c(400_000, I2cDutyCycle::Ratio1to1);
    i2c.feed_status(SB);
    i2c.feed_status(ADDR);
    i2c.feed_status(TXE);
    i2c.feed_status(TXE);
    i2c.feed_status(SB);
    i2c.feed_status(ADDR);
    i2c.feed_status(RXNE);
    i2c.feed_status(OVR);
    i2c.feed_data(0xAA);
    i2c.feed_data(0xBB);
    let mut buffer = vec![0u8, 0u8];
    let r = i2c.write_read(0x43, &vec![0x10], &mut buffer);
    assert_eq!(r, Err(Error::OVR));
    // the first byte arrived, the second slot is untouched, and no
    // stop was commanded after the fault
    assert_eq!(buffer, vec![0xAA, 0x00]);
    assert_eq!(i2c.cr1() & 0x200, 0);
}

#[test]
fn the_remapped_wiring_takes_the_alternate_pins() {
    let mut rcc = Rcc::new();
    let mut flash = Flash::new();
    let clocks: Clocks = rcc.cfgr.freeze(&mut flash.acr, &mut rcc.regs);

    let iopb = rcc.peripherals.iopb.enable(&mut rcc.regs);
    let (mut bank_b, mut pins) = Gpio::new(BankId::B).get_pins(iopb);
    let pb9 = pins.remove(9);
    let pb8 = pins.remove(8);
    let pb8 = pb8.set_output_50MHz(&mut bank_b).set_alt_output_open_drain(&mut bank_b);
    let pb9 = pb9.set_output_50MHz(&mut bank_b).set_alt_output_open_drain(&mut bank_b);

    let afio_gate = rcc.peripherals.afio.enable(&mut rcc.regs);
    let (mut afio_regs, afio_periphs) = Afio::new(afio_gate).get_peripherals();
    let i2c1_map = afio_periphs.i2c1.set_remapped(&mut afio_regs);
    assert_eq!(afio_regs.mapr(), 1 << 1);

    let ports = I2c::ports_remapped(pb8, pb9, i2c1_map);
    let gate = rcc.peripherals.i2c1.enable(&mut rcc.regs);
    let i2c = I2c::new(ports, gate, 400_000, clocks, I2cDutyCycle::Ratio1to1);
    assert_eq!(i2c.cr1(), 1);
}

#[test]
fn error_names_are_printable() {
    assert_eq!(Error::Timeout.describe(), "Timeout");
    assert_eq!(Error::AF.describe(), "AF");
    assert_eq!(Error::ARLO.describe(), "ARLO");
    assert_eq!(Error::OVR.describe(), "OVR");
    assert_eq!(Error::BERR.describe(), "BERR");
}
