//! Pin configuration core: per-pin capability tokens over a model of a
//! GPIO bank's registers.
//!
//! A bank carries two control registers of eight four-bit fields each —
//! the low register for pins 0–7, the high one for pins 8–15; each field
//! is a two-bit electrical MODE at bit `4·(pin mod 8)` and a two-bit
//! signal CNF two bits above it.  Every transition consumes the pin's
//! token, performs one read-modify-write that touches only the two bits
//! belonging to that pin, and returns the token with its state advanced.

use vstd::prelude::*;
use crate::common::{bit_set, field2_of, lemma_with_field2, with_field2};
use crate::rcc::{PeripheralId, RccPeripheral};

verus! {

/// Reset value of both control registers: every pin a floating input.
pub const GPIO_CR_RESET: u32 = 0x4444_4444;

/// The GPIO banks this crate drives.
#[derive(Clone, Copy, PartialEq, Eq, Structural, Debug)]
pub enum BankId {
    A,
    B,
    C,
    D,
}

/// The clock gate that feeds a bank.
pub open spec fn spec_bank_gate(b: BankId) -> PeripheralId {
    match b {
        BankId::A => PeripheralId::Iopa,
        BankId::B => PeripheralId::Iopb,
        BankId::C => PeripheralId::Iopc,
        BankId::D => PeripheralId::Iopd,
    }
}

/// Electrical mode of a pin: input, or output at one of three speeds.
#[derive(Clone, Copy, PartialEq, Eq, Structural, Debug)]
pub enum PinMode {
    Input,
    Output10,
    Output2,
    Output50,
}

/// Signal configuration of a pin: the meaning of each encoding depends
/// on the electrical mode (for inputs: analog, floating, pull up/down;
/// for outputs: push-pull, open drain, and their alternate-function
/// variants).
#[derive(Clone, Copy, PartialEq, Eq, Structural, Debug)]
pub enum PinCnf {
    PinCnf0,
    PinCnf1,
    PinCnf2,
    PinCnf3,
}

/// The documented encoding of an electrical mode in the MODE field.
pub open spec fn spec_mode_bits(m: PinMode) -> u32 {
    match m {
        PinMode::Input => 0b00u32,
        PinMode::Output10 => 0b01u32,
        PinMode::Output2 => 0b10u32,
        PinMode::Output50 => 0b11u32,
    }
}

/// The documented encoding of a signal configuration in the CNF field.
pub open spec fn spec_cnf_bits(c: PinCnf) -> u32 {
    match c {
        PinCnf::PinCnf0 => 0b00u32,
        PinCnf::PinCnf1 => 0b01u32,
        PinCnf::PinCnf2 => 0b10u32,
        PinCnf::PinCnf3 => 0b11u32,
    }
}

/// Whether a mode is one of the three output speeds.
pub open spec fn spec_is_output(m: PinMode) -> bool {
    m != PinMode::Input
}

/// Least significant bit of pin `pin`'s four-bit field within its
/// control register: four bits per pin, eight pins per register.
pub open spec fn spec_pin_shift(pin: u8) -> u32 {
    ((pin % 8) * 4) as u32
}

/// Mathematical view of a GPIO bank's registers.
pub struct GpioBankView {
    pub id: BankId,
    pub crl: u32,
    pub crh: u32,
    pub odr: u32,
    pub idr: u32,
}

/// Model of one GPIO bank: the two control registers, the output data
/// register, and the input data register (driven by the outside world).
pub struct GpioBank {
    id: BankId,
    crl: u32,
    crh: u32,
    odr: u32,
    idr: u32,
}

impl View for GpioBank {
    type V = GpioBankView;

    closed spec fn view(&self) -> GpioBankView {
        GpioBankView { id: self.id, crl: self.crl, crh: self.crh, odr: self.odr, idr: self.idr }
    }
}

/// The bank after pin `pin`'s MODE field was written with `value`:
/// pins 0–7 live in the low control register, pins 8–15 in the high
/// one, and nothing else moves.
pub open spec fn spec_bank_with_mode(v: GpioBankView, pin: u8, value: u32) -> GpioBankView {
    if pin < 8 {
        GpioBankView { crl: with_field2(v.crl, spec_pin_shift(pin), value), ..v }
    } else {
        GpioBankView { crh: with_field2(v.crh, spec_pin_shift(pin), value), ..v }
    }
}

/// The bank after pin `pin`'s CNF field — two bits above the MODE
/// field — was written with `value`.
pub open spec fn spec_bank_with_cnf(v: GpioBankView, pin: u8, value: u32) -> GpioBankView {
    if pin < 8 {
        GpioBankView { crl: with_field2(v.crl, (spec_pin_shift(pin) + 2) as u32, value), ..v }
    } else {
        GpioBankView { crh: with_field2(v.crh, (spec_pin_shift(pin) + 2) as u32, value), ..v }
    }
}

impl GpioBank {
    /// The bank this model stands for.
    pub fn id(&self) -> (r: BankId)
        ensures
            r == self@.id,
    {
        self.id
    }

    /// Current value of the low control register (pins 0–7).
    pub fn crl(&self) -> (r: u32)
        ensures
            r == self@.crl,
    {
        self.crl
    }

    /// Current value of the high control register (pins 8–15).
    pub fn crh(&self) -> (r: u32)
        ensures
            r == self@.crh,
    {
        self.crh
    }

    /// Current value of the output data register.
    pub fn odr(&self) -> (r: u32)
        ensures
            r == self@.odr,
    {
        self.odr
    }

    /// Current value of the input data register.
    pub fn idr(&self) -> (r: u32)
        ensures
            r == self@.idr,
    {
        self.idr
    }

    /// Drive the input data register from outside: this stands for the
    /// signal levels the hardware would sample on the bank's pins.
    pub fn drive_idr(&mut self, value: u32)
        ensures
            final(self)@ == (GpioBankView { idr: value, ..old(self)@ }),
    {
        self.idr = value;
    }

    /// Read-modify-write of pin `pin`'s MODE field.
    fn set_mode_field(&mut self, pin: u8, value: u32)
        requires
            pin < 16,
            value <= 0b11,
        ensures
            final(self)@ == spec_bank_with_mode(old(self)@, pin, value),
    {
        let sh: u32 = ((pin % 8) as u32) * 4;
        if pin < 8 {
            self.crl = (self.crl & !(0b11u32 << sh)) | ((value & 0b11) << sh);
        } else {
            self.crh = (self.crh & !(0b11u32 << sh)) | ((value & 0b11) << sh);
        }
    }

    /// Read-modify-write of pin `pin`'s CNF field.
    fn set_cnf_field(&mut self, pin: u8, value: u32)
        requires
            pin < 16,
            value <= 0b11,
        ensures
            final(self)@ == spec_bank_with_cnf(old(self)@, pin, value),
    {
        let sh: u32 = ((pin % 8) as u32) * 4 + 2;
        if pin < 8 {
            self.crl = (self.crl & !(0b11u32 << sh)) | ((value & 0b11) << sh);
        } else {
            self.crh = (self.crh & !(0b11u32 << sh)) | ((value & 0b11) << sh);
        }
    }
}

/// Mathematical view of a pin token.
pub struct GpioPinView {
    pub bank: BankId,
    pub pin: u8,
    pub mode: PinMode,
    pub cnf: PinCnf,
}

/// A pin capability token: proof that one pin of one bank currently
/// holds the recorded electrical mode and signal configuration.  The
/// token is moved by every transition, so two conflicting descriptions
/// of the same pin can never be live at once.
pub struct GpioPin {
    bank: BankId,
    pin: u8,
    mode: PinMode,
    cnf: PinCnf,
}

impl View for GpioPin {
    type V = GpioPinView;

    closed spec fn view(&self) -> GpioPinView {
        GpioPinView { bank: self.bank, pin: self.pin, mode: self.mode, cnf: self.cnf }
    }
}

impl GpioPin {
    /// A token always names one of the sixteen pins of its bank.
    pub open spec fn wf(&self) -> bool {
        self@.pin < 16
    }

    /// The bank this pin belongs to.
    pub fn bank(&self) -> (r: BankId)
        ensures
            r == self@.bank,
    {
        self.bank
    }

    /// The pin's index within its bank, 0–15.
    pub fn nr(&self) -> (r: u8)
        ensures
            r == self@.pin,
    {
        self.pin
    }

    /// The pin's current electrical mode.
    pub fn mode(&self) -> (r: PinMode)
        ensures
            r == self@.mode,
    {
        self.mode
    }

    /// The pin's current signal configuration.
    pub fn cnf(&self) -> (r: PinCnf)
        ensures
            r == self@.cnf,
    {
        self.cnf
    }

    /// Make the pin a 10 MHz output: writes `0b01` into its MODE field.
    #[allow(non_snake_case)]
    pub fn set_output_10MHz(self, bank: &mut GpioBank) -> (p: GpioPin)
        requires
            self.wf(),
            self@.bank == old(bank)@.id,
        ensures
            p@ == (GpioPinView { mode: PinMode::Output10, ..self@ }),
            final(bank)@ == spec_bank_with_mode(old(bank)@, self@.pin, 0b01),
    {
        bank.set_mode_field(self.pin, 0b01);
        GpioPin { mode: PinMode::Output10, ..self }
    }

    /// Make the pin a 2 MHz output: writes `0b10` into its MODE field.
    #[allow(non_snake_case)]
    pub fn set_output_2MHz(self, bank: &mut GpioBank) -> (p: GpioPin)
        requires
            self.wf(),
            self@.bank == old(bank)@.id,
        ensures
            p@ == (GpioPinView { mode: PinMode::Output2, ..self@ }),
            final(bank)@ == spec_bank_with_mode(old(bank)@, self@.pin, 0b10),
    {
        bank.set_mode_field(self.pin, 0b10);
        GpioPin { mode: PinMode::Output2, ..self }
    }

    /// Make the pin a 50 MHz output: writes `0b11` into its MODE field.
    #[allow(non_snake_case)]
    pub fn set_output_50MHz(self, bank: &mut GpioBank) -> (p: GpioPin)
        requires
            self.wf(),
            self@.bank == old(bank)@.id,
        ensures
            p@ == (GpioPinView { mode: PinMode::Output50, ..self@ }),
            final(bank)@ == spec_bank_with_mode(old(bank)@, self@.pin, 0b11),
    {
        bank.set_mode_field(self.pin, 0b11);
        GpioPin { mode: PinMode::Output50, ..self }
    }

    /// Make the pin an input: writes `0b00` into its MODE field.
    pub fn set_input(self, bank: &mut GpioBank) -> (p: GpioPin)
        requires
            self.wf(),
            self@.bank == old(bank)@.id,
        ensures
            p@ == (GpioPinView { mode: PinMode::Input, ..self@ }),
            final(bank)@ == spec_bank_with_mode(old(bank)@, self@.pin, 0b00),
    {
        bank.set_mode_field(self.pin, 0b00);
        GpioPin { mode: PinMode::Input, ..self }
    }

    /// Write `0b00` into the pin's CNF field.
    pub fn set_cnf_0(self, bank: &mut GpioBank) -> (p: GpioPin)
        requires
            self.wf(),
            self@.bank == old(bank)@.id,
        ensures
            p@ == (GpioPinView { cnf: PinCnf::PinCnf0, ..self@ }),
            final(bank)@ == spec_bank_with_cnf(old(bank)@, self@.pin, 0b00),
    {
        bank.set_cnf_field(self.pin, 0b00);
        GpioPin { cnf: PinCnf::PinCnf0, ..self }
    }

    /// Write `0b01` into the pin's CNF field.
    pub fn set_cnf_1(self, bank: &mut GpioBank) -> (p: GpioPin)
        requires
            self.wf(),
            self@.bank == old(bank)@.id,
        ensures
            p@ == (GpioPinView { cnf: PinCnf::PinCnf1, ..self@ }),
            final(bank)@ == spec_bank_with_cnf(old(bank)@, self@.pin, 0b01),
    {
        bank.set_cnf_field(self.pin, 0b01);
        GpioPin { cnf: PinCnf::PinCnf1, ..self }
    }

    /// Write `0b10` into the pin's CNF field.
    pub fn set_cnf_2(self, bank: &mut GpioBank) -> (p: GpioPin)
        requires
            self.wf(),
            self@.bank == old(bank)@.id,
        ensures
            p@ == (GpioPinView { cnf: PinCnf::PinCnf2, ..self@ }),
            final(bank)@ == spec_bank_with_cnf(old(bank)@, self@.pin, 0b10),
    {
        bank.set_cnf_field(self.pin, 0b10);
        GpioPin { cnf: PinCnf::PinCnf2, ..self }
    }

    /// Write `0b11` into the pin's CNF field.
    pub fn set_cnf_3(self, bank: &mut GpioBank) -> (p: GpioPin)
        requires
            self.wf(),
            self@.bank == old(bank)@.id,
        ensures
            p@ == (GpioPinView { cnf: PinCnf::PinCnf3, ..self@ }),
            final(bank)@ == spec_bank_with_cnf(old(bank)@, self@.pin, 0b11),
    {
        bank.set_cnf_field(self.pin, 0b11);
        GpioPin { cnf: PinCnf::PinCnf3, ..self }
    }

    /// Make an input pin analog.
    pub fn set_analog(self, bank: &mut GpioBank) -> (p: GpioPin)
        requires
            self.wf(),
            self@.bank == old(bank)@.id,
            self@.mode == PinMode::Input,
        ensures
            p@ == (GpioPinView { cnf: PinCnf::PinCnf0, ..self@ }),
            final(bank)@ == spec_bank_with_cnf(old(bank)@, self@.pin, 0b00),
    {
        self.set_cnf_0(bank)
    }

    /// Make an input pin floating.
    pub fn set_floating_input(self, bank: &mut GpioBank) -> (p: GpioPin)
        requires
            self.wf(),
            self@.bank == old(bank)@.id,
            self@.mode == PinMode::Input,
        ensures
            p@ == (GpioPinView { cnf: PinCnf::PinCnf1, ..self@ }),
            final(bank)@ == spec_bank_with_cnf(old(bank)@, self@.pin, 0b01),
    {
        self.set_cnf_1(bank)
    }

    /// Give an input pin its pull resistor configuration.
    pub fn set_pull_up_down(self, bank: &mut GpioBank) -> (p: GpioPin)
        requires
            self.wf(),
            self@.bank == old(bank)@.id,
            self@.mode == PinMode::Input,
        ensures
            p@ == (GpioPinView { cnf: PinCnf::PinCnf2, ..self@ }),
            final(bank)@ == spec_bank_with_cnf(old(bank)@, self@.pin, 0b10),
    {
        self.set_cnf_2(bank)
    }

    /// Give an input pin its pull resistor configuration and select the
    /// pull-down direction: clearing the pin's own bit of the output
    /// data register picks the pull-down resistor, and — like every pin
    /// transition — no other pin's latch moves.
    pub fn set_pull_down(self, bank: &mut GpioBank) -> (p: GpioPin)
        requires
            self.wf(),
            self@.bank == old(bank)@.id,
            self@.mode == PinMode::Input,
        ensures
            p@ == (GpioPinView { cnf: PinCnf::PinCnf2, ..self@ }),
            final(bank)@ == (GpioBankView {
                odr: old(bank)@.odr & !(1u32 << (self@.pin as u32)),
                ..spec_bank_with_cnf(old(bank)@, self@.pin, 0b10)
            }),
    {
        let p = self.set_pull_up_down(bank);
        bank.odr = bank.odr & !(1u32 << ((p.pin as u32)));
        p
    }

    /// Sample the pin's level from the input data register.
    pub fn read(&self, bank: &GpioBank) -> (r: bool)
        requires
            self.wf(),
            self@.bank == bank@.id,
            self@.mode == PinMode::Input,
        ensures
            r == bit_set(bank@.idr, self@.pin as u32),
    {
        (bank.idr & (1u32 << ((self.pin as u32)))) != 0
    }

    /// Make an output pin an alternate-function open-drain output.
    pub fn set_alt_output_open_drain(self, bank: &mut GpioBank) -> (p: GpioPin)
        requires
            self.wf(),
            self@.bank == old(bank)@.id,
            spec_is_output(self@.mode),
        ensures
            p@ == (GpioPinView { cnf: PinCnf::PinCnf3, ..self@ }),
            final(bank)@ == spec_bank_with_cnf(old(bank)@, self@.pin, 0b11),
    {
        self.set_cnf_3(bank)
    }

    /// Make an output pin an alternate-function push-pull output.
    pub fn set_alt_output_push_pull(self, bank: &mut GpioBank) -> (p: GpioPin)
        requires
            self.wf(),
            self@.bank == old(bank)@.id,
            spec_is_output(self@.mode),
        ensures
            p@ == (GpioPinView { cnf: PinCnf::PinCnf2, ..self@ }),
            final(bank)@ == spec_bank_with_cnf(old(bank)@, self@.pin, 0b10),
    {
        self.set_cnf_2(bank)
    }

    /// Make an output pin a general-purpose open-drain output.
    pub fn set_output_open_drain(self, bank: &mut GpioBank) -> (p: GpioPin)
        requires
            self.wf(),
            self@.bank == old(bank)@.id,
            spec_is_output(self@.mode),
        ensures
            p@ == (GpioPinView { cnf: PinCnf::PinCnf1, ..self@ }),
            final(bank)@ == spec_bank_with_cnf(old(bank)@, self@.pin, 0b01),
    {
        self.set_cnf_1(bank)
    }

    /// Make an output pin a general-purpose push-pull output.
    pub fn set_output_push_pull(self, bank: &mut GpioBank) -> (p: GpioPin)
        requires
            self.wf(),
            self@.bank == old(bank)@.id,
            spec_is_output(self@.mode),
        ensures
            p@ == (GpioPinView { cnf: PinCnf::PinCnf0, ..self@ }),
            final(bank)@ == spec_bank_with_cnf(old(bank)@, self@.pin, 0b00),
    {
        self.set_cnf_0(bank)
    }

    /// Drive an output pin high or low through the bit set/reset
    /// register: only the pin's own bit of the output data register
    /// moves.
    pub fn set(&self, bank: &mut GpioBank, high: bool)
        requires
            self.wf(),
            self@.bank == old(bank)@.id,
            spec_is_output(self@.mode),
        ensures
            high ==> final(bank)@ == (GpioBankView {
                odr: old(bank)@.odr | (1u32 << (self@.pin as u32)),
                ..old(bank)@
            }),
            !high ==> final(bank)@ == (GpioBankView {
                odr: old(bank)@.odr & !(1u32 << (self@.pin as u32)),
                ..old(bank)@
            }),
    {
        if high {
            bank.odr = bank.odr | (1u32 << ((self.pin as u32)));
        } else {
            bank.odr = bank.odr & !(1u32 << ((self.pin as u32)));
        }
    }
}

/// Configuring a pin's electrical mode touches only that pin: the
/// written control register keeps every bit outside the pin's four-bit
/// field `[4·(pin mod 8), 4·(pin mod 8) + 4)`, the other control
/// register and both data registers are bitwise untouched, and the
/// pin's MODE field now holds `value`.
pub proof fn lemma_mode_write_isolated(v: GpioBankView, pin: u8, value: u32)
    requires
        pin < 16,
        value <= 0b11,
    ensures
        ({
            let w = spec_bank_with_mode(v, pin, value);
            let sh = spec_pin_shift(pin);
            &&& (pin < 8 ==> w.crh == v.crh)
            &&& (pin >= 8 ==> w.crl == v.crl)
            &&& w.odr == v.odr
            &&& w.idr == v.idr
            &&& w.id == v.id
            &&& (pin < 8 ==> field2_of(w.crl, sh) == value && forall|b: u32|
                b < 32 && !(sh <= b < sh + 4) ==> #[trigger] bit_set(w.crl, b) == bit_set(
                    v.crl,
                    b,
                ))
            &&& (pin >= 8 ==> field2_of(w.crh, sh) == value && forall|b: u32|
                b < 32 && !(sh <= b < sh + 4) ==> #[trigger] bit_set(w.crh, b) == bit_set(
                    v.crh,
                    b,
                ))
        }),
{
    if pin < 8 {
        lemma_with_field2(v.crl, spec_pin_shift(pin), value);
    } else {
        lemma_with_field2(v.crh, spec_pin_shift(pin), value);
    }
}

/// Configuring a pin's signal configuration touches only that pin: the
/// written control register keeps every bit outside the pin's four-bit
/// field, the other control register and both data registers are
/// bitwise untouched, and the pin's CNF field now holds `value`.
pub proof fn lemma_cnf_write_isolated(v: GpioBankView, pin: u8, value: u32)
    requires
        pin < 16,
        value <= 0b11,
    ensures
        ({
            let w = spec_bank_with_cnf(v, pin, value);
            let sh = spec_pin_shift(pin);
            &&& (pin < 8 ==> w.crh == v.crh)
            &&& (pin >= 8 ==> w.crl == v.crl)
            &&& w.odr == v.odr
            &&& w.idr == v.idr
            &&& w.id == v.id
            &&& (pin < 8 ==> field2_of(w.crl, (sh + 2) as u32) == value && forall|b: u32|
                b < 32 && !(sh <= b < sh + 4) ==> #[trigger] bit_set(w.crl, b) == bit_set(
                    v.crl,
                    b,
                ))
            &&& (pin >= 8 ==> field2_of(w.crh, (sh + 2) as u32) == value && forall|b: u32|
                b < 32 && !(sh <= b < sh + 4) ==> #[trigger] bit_set(w.crh, b) == bit_set(
                    v.crh,
                    b,
                ))
        }),
{
    if pin < 8 {
        lemma_with_field2(v.crl, (spec_pin_shift(pin) + 2) as u32, value);
    } else {
        lemma_with_field2(v.crh, (spec_pin_shift(pin) + 2) as u32, value);
    }
}

/// After a pin's MODE field is written with the encoding of `m` and its
/// CNF field with the encoding of `c`, the pin's four-bit control field
/// holds the documented word `mode_bits | (cnf_bits << 2)` — and the
/// two writes commute, so either transition order yields the same
/// register contents.
pub proof fn lemma_field_encoding(v: GpioBankView, pin: u8, m: PinMode, c: PinCnf)
    requires
        pin < 16,
    ensures
        ({
            let w = spec_bank_with_cnf(
                spec_bank_with_mode(v, pin, spec_mode_bits(m)),
                pin,
                spec_cnf_bits(c),
            );
            let sh = spec_pin_shift(pin);
            &&& (pin < 8 ==> (w.crl >> sh) & 0xF == spec_mode_bits(m) | (spec_cnf_bits(c)
                << 2u32))
            &&& (pin >= 8 ==> (w.crh >> sh) & 0xF == spec_mode_bits(m) | (spec_cnf_bits(c)
                << 2u32))
        }),
        spec_bank_with_cnf(spec_bank_with_mode(v, pin, spec_mode_bits(m)), pin, spec_cnf_bits(c))
            == spec_bank_with_mode(
            spec_bank_with_cnf(v, pin, spec_cnf_bits(c)),
            pin,
            spec_mode_bits(m),
        ),
{
    let sh = spec_pin_shift(pin);
    let sh2 = (sh + 2) as u32;
    let mv = spec_mode_bits(m);
    let cv = spec_cnf_bits(c);
    let cr = if pin < 8 {
        v.crl
    } else {
        v.crh
    };
    assert((with_field2(with_field2(cr, sh, mv), sh2, cv) >> sh) & 0xF == mv | (cv << 2u32))
        by (bit_vector)
        requires
            sh2 == sh + 2,
            sh <= 28,
            mv <= 3,
            cv <= 3,
    ;
    assert(with_field2(with_field2(cr, sh, mv), sh2, cv) == with_field2(
        with_field2(cr, sh2, cv),
        sh,
        mv,
    )) by (bit_vector)
        requires
            sh2 == sh + 2,
            sh <= 28,
            mv <= 3,
            cv <= 3,
    ;
}

/// Whether a pin token is an accurate description of the hardware: the
/// four control bits of its pin hold exactly the documented encoding of
/// the mode and configuration the token records.
pub open spec fn spec_pin_reflected(p: GpioPinView, b: GpioBankView) -> bool {
    let sh = spec_pin_shift(p.pin);
    let cr = if p.pin < 8 {
        b.crl
    } else {
        b.crh
    };
    &&& p.pin < 16
    &&& p.bank == b.id
    &&& (cr >> sh) & 0xF == spec_mode_bits(p.mode) | (spec_cnf_bits(p.cnf) << 2u32)
}

/// Every token handed out with a fresh bank accurately describes it:
/// each four-bit field of the reset word encodes a floating input,
/// which is exactly the state the fresh tokens record.
pub proof fn lemma_reset_tokens_accurate(b: GpioBankView, pin: u8)
    requires
        pin < 16,
        b.crl == GPIO_CR_RESET,
        b.crh == GPIO_CR_RESET,
    ensures
        spec_pin_reflected(
            GpioPinView { bank: b.id, pin, mode: PinMode::Input, cnf: PinCnf::PinCnf1 },
            b,
        ),
{
    let pp = (pin % 8) as u32;
    let sh = spec_pin_shift(pin);
    assert((GPIO_CR_RESET >> sh) & 0xF == 4) by (bit_vector)
        requires
            sh == 4 * pp,
            pp <= 7,
    ;
    assert(0b00u32 | (0b01u32 << 2u32) == 4) by (bit_vector);
}

/// The central invariant of the pin tokens: a token that accurately
/// describes its pin's control bits still does after any transition —
/// its own transitions re-establish accuracy with the new tag, because
/// a MODE write keeps the CNF field and a CNF write keeps the MODE
/// field, and a transition of any other pin never reaches its field.
pub proof fn lemma_pin_token_accurate(p: GpioPinView, b: GpioBankView, q: u8, m: PinMode, c: PinCnf)
    requires
        spec_pin_reflected(p, b),
        q < 16,
    ensures
        spec_pin_reflected(
            GpioPinView { mode: m, ..p },
            spec_bank_with_mode(b, p.pin, spec_mode_bits(m)),
        ),
        spec_pin_reflected(
            GpioPinView { cnf: c, ..p },
            spec_bank_with_cnf(b, p.pin, spec_cnf_bits(c)),
        ),
        q != p.pin ==> spec_pin_reflected(p, spec_bank_with_mode(b, q, spec_mode_bits(m)))
            && spec_pin_reflected(p, spec_bank_with_cnf(b, q, spec_cnf_bits(c))),
{
    let pp = (p.pin % 8) as u32;
    let sh = spec_pin_shift(p.pin);
    let cr = if p.pin < 8 {
        b.crl
    } else {
        b.crh
    };
    let mv = spec_mode_bits(m);
    let cv = spec_cnf_bits(c);
    let mv0 = spec_mode_bits(p.mode);
    let cv0 = spec_cnf_bits(p.cnf);
    // a MODE write keeps the CNF half of the field
    assert((with_field2(cr, sh, mv) >> sh) & 0xF == mv | (((cr >> sh) & 0xF) & 0xC))
        by (bit_vector)
        requires
            sh == 4 * pp,
            pp <= 7,
            mv <= 3,
    ;
    assert((mv0 | (cv0 << 2u32)) & 0xC == cv0 << 2u32) by (bit_vector)
        requires
            mv0 <= 3,
            cv0 <= 3,
    ;
    assert(mv | (cv0 << 2u32) == mv | (((cr >> sh) & 0xF) & 0xC));
    // a CNF write keeps the MODE half of the field
    assert((with_field2(cr, (sh + 2) as u32, cv) >> sh) & 0xF == (((cr >> sh) & 0xF) & 0x3) | (cv
        << 2u32)) by (bit_vector)
        requires
            sh == 4 * pp,
            pp <= 7,
            cv <= 3,
    ;
    assert((mv0 | (cv0 << 2u32)) & 0x3 == mv0) by (bit_vector)
        requires
            mv0 <= 3,
            cv0 <= 3,
    ;
    if q != p.pin {
        let qq = (q % 8) as u32;
        let shq = spec_pin_shift(q);
        if (q < 8) == (p.pin < 8) {
            // same register: the two four-bit fields never overlap
            assert((with_field2(cr, shq, mv) >> sh) & 0xF == (cr >> sh) & 0xF) by (bit_vector)
                requires
                    sh == 4 * pp,
                    shq == 4 * qq,
                    pp <= 7,
                    qq <= 7,
                    pp != qq,
                    mv <= 3,
            ;
            assert((with_field2(cr, (shq + 2) as u32, cv) >> sh) & 0xF == (cr >> sh) & 0xF)
                by (bit_vector)
                requires
                    sh == 4 * pp,
                    shq == 4 * qq,
                    pp <= 7,
                    qq <= 7,
                    pp != qq,
                    cv <= 3,
            ;
        }
        // with the pins in different registers, the write never touches
        // this token's register at all
    }
}

/// A claimed GPIO bank, not yet broken into pins.
pub struct Gpio {
    id: BankId,
}

impl Gpio {
    /// The bank this handle stands for.
    pub closed spec fn spec_id(&self) -> BankId {
        self.id
    }

    /// Claim a bank by name.  Each call starts a fresh model of that
    /// bank; on real hardware the one-time hand-off of the physical
    /// block is the binding layer's concern.
    pub fn new(id: BankId) -> (g: Gpio)
        ensures
            g.spec_id() == id,
    {
        Gpio { id }
    }

    /// Break the bank into its sixteen pin tokens, each at the hardware
    /// reset default (floating input), together with the bank's register
    /// model.  Demands the enabled clock gating token of this bank: an
    /// ungated bank's registers do not respond.
    pub fn get_pins(self, gate: RccPeripheral) -> (r: (GpioBank, Vec<GpioPin>))
        requires
            gate.spec_enabled(),
            gate.spec_id() == spec_bank_gate(self.spec_id()),
        ensures
            r.0@ == (GpioBankView {
                id: self.spec_id(),
                crl: GPIO_CR_RESET,
                crh: GPIO_CR_RESET,
                odr: 0,
                idr: 0,
            }),
            r.1@.len() == 16,
            forall|i: int|
                0 <= i < 16 ==> (#[trigger] r.1@[i])@ == (GpioPinView {
                    bank: self.spec_id(),
                    pin: i as u8,
                    mode: PinMode::Input,
                    cnf: PinCnf::PinCnf1,
                }),
    {
        let bank = GpioBank {
            id: self.id,
            crl: GPIO_CR_RESET,
            crh: GPIO_CR_RESET,
            odr: 0,
            idr: 0,
        };
        let mut pins: Vec<GpioPin> = Vec::new();
        let mut i: u8 = 0;
        while i < 16
            invariant
                i <= 16,
                pins@.len() == i as int,
                forall|j: int|
                    0 <= j < i as int ==> (#[trigger] pins@[j])@ == (GpioPinView {
                        bank: self.spec_id(),
                        pin: j as u8,
                        mode: PinMode::Input,
                        cnf: PinCnf::PinCnf1,
                    }),
            decreases 16 - i as int,
        {
            pins.push(
                GpioPin { bank: self.id, pin: i, mode: PinMode::Input, cnf: PinCnf::PinCnf1 },
            );
            i = i + 1;
        }
        (bank, pins)
    }
}

} // verus!
