//! Pin configuration: field placement, isolation and runtime access.

use f103_hal::gpio::{BankId, Gpio, GpioPin, PinCnf, PinMode};
use f103_hal::gpio::GpioBank;
use f103_hal::rcc::Rcc;

fn bank_a_pins() -> (GpioBank, Vec<GpioPin>) {
    let mut rcc = Rcc::new();
    let iopa = rcc.peripherals.iopa.enable(&mut rcc.regs);
    Gpio::new(BankId::A).get_pins(iopa)
}

#[test]
fn pins_start_at_the_reset_default() {
    let (bank, pins) = bank_a_pins();
    assert_eq!(bank.crl(), 0x4444_4444);
    assert_eq!(bank.crh(), 0x4444_4444);
    assert_eq!(pins.len(), 16);
    for (i, p) in pins.iter().enumerate() {
        assert_eq!(p.bank(), BankId::A);
        assert_eq!(p.nr(), i as u8);
        assert_eq!(p.mode(), PinMode::Input);
        assert_eq!(p.cnf(), PinCnf::PinCnf1);
    }
}

#[test]
fn configuring_a_low_pin_touches_only_its_nibble() {
    let (mut bank, mut pins) = bank_a_pins();
    let p3 = pins.remove(3);
    let p3 = p3.set_output_10MHz(&mut bank);
    // pin 3's nibble goes from 0b0100 to 0b0101; everything else stays
    assert_eq!(bank.crl(), 0x4444_5444);
    assert_eq!(bank.crh(), 0x4444_4444);
    let p3 = p3.set_alt_output_push_pull(&mut bank);
    // its CNF field becomes 0b10: nibble 0b1001
    assert_eq!(bank.crl(), 0x4444_9444);
    assert_eq!(bank.crh(), 0x4444_4444);
    assert_eq!(p3.mode(), PinMode::Output10);
    assert_eq!(p3.cnf(), PinCnf::PinCnf2);
}

#[test]
fn configuring_a_high_pin_touches_only_the_high_register() {
    let (mut bank, mut pins) = bank_a_pins();
    let p9 = pins.remove(9);
    let p9 = p9.set_output_50MHz(&mut bank);
    // pin 9 lives at nibble 1 of the high register: 0b0100 -> 0b0111
    assert_eq!(bank.crh(), 0x4444_4474);
    assert_eq!(bank.crl(), 0x4444_4444);
    let _p9 = p9.set_cnf_3(&mut bank);
    // CNF 0b11 on top: nibble 0b1111
    assert_eq!(bank.crh(), 0x4444_44F4);
    assert_eq!(bank.crl(), 0x4444_4444);
}

#[test]
fn the_four_bit_field_is_mode_plus_cnf_shifted() {
    let (mut bank, mut pins) = bank_a_pins();
    let p5 = pins.remove(5);
    let p5 = p5.set_output_2MHz(&mut bank);
    let _p5 = p5.set_alt_output_open_drain(&mut bank);
    // mode bits 0b10, cnf bits 0b11: field = 0b10 | (0b11 << 2)
    assert_eq!((bank.crl() >> 20) & 0xF, 0b10 | (0b11 << 2));
}

#[test]
fn every_input_configuration_writes_its_documented_code() {
    let (mut bank, mut pins) = bank_a_pins();
    let p7 = pins.remove(7);
    let p2 = pins.remove(2);
    let p1 = pins.remove(1);
    let p1 = p1.set_analog(&mut bank);
    assert_eq!((bank.crl() >> 4) & 0xF, 0b0000);
    assert_eq!(p1.cnf(), PinCnf::PinCnf0);
    let p2 = p2.set_floating_input(&mut bank);
    assert_eq!((bank.crl() >> 8) & 0xF, 0b0100);
    assert_eq!(p2.cnf(), PinCnf::PinCnf1);
    let p7 = p7.set_pull_up_down(&mut bank);
    assert_eq!((bank.crl() >> 28) & 0xF, 0b1000);
    assert_eq!(p7.cnf(), PinCnf::PinCnf2);
}

#[test]
fn pull_down_clears_only_its_own_latch() {
    let (mut bank, mut pins) = bank_a_pins();
    let p6 = pins.remove(6);
    let p1 = pins.remove(1);
    // another pin's output latch is already set
    let p1 = p1.set_output_10MHz(&mut bank).set_output_push_pull(&mut bank);
    p1.set(&mut bank, true);
    assert_eq!(bank.odr(), 1 << 1);
    let p6 = p6.set_pull_down(&mut bank);
    // pin 6's latch selects pull-down (low); pin 1's latch is untouched
    assert_eq!(bank.odr(), 1 << 1);
    assert_eq!(p6.cnf(), PinCnf::PinCnf2);
    // and with pin 6's latch previously set, pull-down clears only it
    let (mut bank2, mut pins2) = bank_a_pins();
    let q6 = pins2.remove(6);
    let q3 = pins2.remove(3);
    let q3 = q3.set_output_10MHz(&mut bank2).set_output_push_pull(&mut bank2);
    q3.set(&mut bank2, true);
    let q6 = q6.set_output_10MHz(&mut bank2).set_output_push_pull(&mut bank2);
    q6.set(&mut bank2, true);
    assert_eq!(bank2.odr(), (1 << 3) | (1 << 6));
    let q6 = q6.set_input(&mut bank2);
    let _q6 = q6.set_pull_down(&mut bank2);
    assert_eq!(bank2.odr(), 1 << 3);
}

#[test]
fn reading_an_input_pin_samples_the_input_register() {
    let (mut bank, mut pins) = bank_a_pins();
    let p5 = pins.remove(5);
    bank.drive_idr(1 << 5);
    assert!(p5.read(&bank));
    bank.drive_idr(!(1u32 << 5));
    assert!(!p5.read(&bank));
}

#[test]
fn every_mode_and_configuration_pair_encodes_as_documented() {
    for m in 0..4u32 {
        for c in 0..4u32 {
            let (mut bank, mut pins) = bank_a_pins();
            let p = pins.remove(12);
            let p = match m {
                0 => p.set_input(&mut bank),
                1 => p.set_output_10MHz(&mut bank),
                2 => p.set_output_2MHz(&mut bank),
                _ => p.set_output_50MHz(&mut bank),
            };
            let _p = match c {
                0 => p.set_cnf_0(&mut bank),
                1 => p.set_cnf_1(&mut bank),
                2 => p.set_cnf_2(&mut bank),
                _ => p.set_cnf_3(&mut bank),
            };
            // pin 12 lives at nibble 4 of the high control register
            assert_eq!((bank.crh() >> 16) & 0xF, m | (c << 2));
        }
    }
}

#[test]
fn each_of_the_sixteen_pins_changes_exactly_its_own_nibble() {
    for k in 0..16usize {
        let (mut bank, mut pins) = bank_a_pins();
        let p = pins.remove(k);
        let _p = p.set_output_2MHz(&mut bank);
        let (lo, hi) = (bank.crl(), bank.crh());
        let (written, untouched, pos) = if k < 8 { (lo, hi, k) } else { (hi, lo, k - 8) };
        assert_eq!(untouched, 0x4444_4444);
        for j in 0..8usize {
            let nibble = (written >> (4 * j)) & 0xF;
            if j == pos {
                // mode field now 0b10, configuration still 0b01
                assert_eq!(nibble, 0b0110);
            } else {
                assert_eq!(nibble, 0b0100);
            }
        }
    }
}

#[test]
fn driving_an_output_pin_moves_only_its_own_bit() {
    let (mut bank, mut pins) = bank_a_pins();
    let p4 = pins.remove(4);
    let p4 = p4.set_output_50MHz(&mut bank).set_output_push_pull(&mut bank);
    p4.set(&mut bank, true);
    assert_eq!(bank.odr(), 1 << 4);
    p4.set(&mut bank, false);
    assert_eq!(bank.odr(), 0);
}
