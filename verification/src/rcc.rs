//! Clock control core: clock gating tokens for each peripheral, the
//! clock-tree solver, and the model of the clock-controller registers.
//!
//! A [`RccPeripheral`] token proves whether one peripheral's bus clock
//! has been enabled; enabling consumes the disabled token and performs
//! exactly one read-modify-write on the right bus enable register.  The
//! solver, [`CFGR::freeze`], turns requested bus frequencies into the
//! hardware prescaler encodings, programs the flash wait states first,
//! then the prescalers and the clock switch, and returns the one
//! [`Clocks`] snapshot that later peripheral constructors require.

use vstd::prelude::*;
use vstd::arithmetic::div_mod::{
    lemma_div_is_ordered, lemma_div_is_ordered_by_denominator, lemma_div_non_zero,
    lemma_div_nonincreasing, lemma_fundamental_div_mod, lemma_mod_bound,
};
use vstd::arithmetic::mul::lemma_mul_inequality;
use crate::flash::{ACR, LatencyWritten, ACR_RESET};

verus! {

/// Frequency of the internal oscillator, in Hz.
pub const HSI: u32 = 8_000_000;

/// Reset value of the clock-controller CR register (internal oscillator
/// on and ready, default trimming).
pub const RCC_CR_RESET: u32 = 0x83;

/// PLL-enable bit of the CR register.
pub const RCC_CR_PLLON: u32 = 0x0100_0000;

/// PLL-ready bit of the CR register.
pub const RCC_CR_PLLRDY: u32 = 0x0200_0000;

/// The peripherals whose bus clocks the clock gating core controls.
#[derive(Clone, Copy, PartialEq, Eq, Structural, Debug)]
pub enum PeripheralId {
    Usart1,
    Usart2,
    Tim2,
    I2c1,
    I2c2,
    Afio,
    Iopa,
    Iopb,
    Iopc,
    Iopd,
    Spi1,
    Spi2,
}

/// The two peripheral buses.
#[derive(Clone, Copy, PartialEq, Eq, Structural, Debug)]
pub enum ApbBus {
    Apb1,
    Apb2,
}

/// The bus whose enable register carries a peripheral's clock gate.
pub open spec fn spec_bus_of(p: PeripheralId) -> ApbBus {
    match p {
        PeripheralId::Usart2 => ApbBus::Apb1,
        PeripheralId::Tim2 => ApbBus::Apb1,
        PeripheralId::I2c1 => ApbBus::Apb1,
        PeripheralId::I2c2 => ApbBus::Apb1,
        PeripheralId::Spi2 => ApbBus::Apb1,
        _ => ApbBus::Apb2,
    }
}

/// Bit position of a peripheral's enable bit — and of its reset bit —
/// in the bus enable (respectively reset) register.
pub open spec fn spec_gate_bit(p: PeripheralId) -> u32 {
    match p {
        PeripheralId::Usart1 => 14u32,
        PeripheralId::Usart2 => 17u32,
        PeripheralId::Tim2 => 0u32,
        PeripheralId::I2c1 => 21u32,
        PeripheralId::I2c2 => 22u32,
        PeripheralId::Afio => 0u32,
        PeripheralId::Iopa => 2u32,
        PeripheralId::Iopb => 3u32,
        PeripheralId::Iopc => 4u32,
        PeripheralId::Iopd => 5u32,
        PeripheralId::Spi1 => 12u32,
        PeripheralId::Spi2 => 14u32,
    }
}

fn bus_of(p: PeripheralId) -> (r: ApbBus)
    ensures
        r == spec_bus_of(p),
{
    match p {
        PeripheralId::Usart2 => ApbBus::Apb1,
        PeripheralId::Tim2 => ApbBus::Apb1,
        PeripheralId::I2c1 => ApbBus::Apb1,
        PeripheralId::I2c2 => ApbBus::Apb1,
        PeripheralId::Spi2 => ApbBus::Apb1,
        _ => ApbBus::Apb2,
    }
}

fn gate_bit(p: PeripheralId) -> (r: u32)
    ensures
        r == spec_gate_bit(p),
        r < 32,
{
    match p {
        PeripheralId::Usart1 => 14,
        PeripheralId::Usart2 => 17,
        PeripheralId::Tim2 => 0,
        PeripheralId::I2c1 => 21,
        PeripheralId::I2c2 => 22,
        PeripheralId::Afio => 0,
        PeripheralId::Iopa => 2,
        PeripheralId::Iopb => 3,
        PeripheralId::Iopc => 4,
        PeripheralId::Iopd => 5,
        PeripheralId::Spi1 => 12,
        PeripheralId::Spi2 => 14,
    }
}

/// One write issued to a clock-controller register, with the value
/// written.  The log of these is what unverified glue replays onto the
/// real register block.
#[derive(Clone, Copy, PartialEq, Eq, Structural, Debug)]
pub enum RccWrite {
    Cr(u32),
    Cfgr(u32),
    Apb1Enr(u32),
    Apb2Enr(u32),
    Apb1Rstr(u32),
    Apb2Rstr(u32),
}

/// Mathematical view of the clock-controller register block.
pub struct RccRegsView {
    pub cr: u32,
    pub cfgr: u32,
    pub apb1enr: u32,
    pub apb2enr: u32,
    pub apb1rstr: u32,
    pub apb2rstr: u32,
    pub log: Seq<RccWrite>,
}

/// Model of the clock-controller register block: the current register
/// values and the ordered log of the writes issued so far.
pub struct RccRegs {
    cr: u32,
    cfgr: u32,
    apb1enr: u32,
    apb2enr: u32,
    apb1rstr: u32,
    apb2rstr: u32,
    log: Vec<RccWrite>,
}

impl View for RccRegs {
    type V = RccRegsView;

    closed spec fn view(&self) -> RccRegsView {
        RccRegsView {
            cr: self.cr,
            cfgr: self.cfgr,
            apb1enr: self.apb1enr,
            apb2enr: self.apb2enr,
            apb1rstr: self.apb1rstr,
            apb2rstr: self.apb2rstr,
            log: self.log@,
        }
    }
}

/// System clock, in Hz, that a CFGR register word selects: the PLL
/// output when the switch field selects the PLL, else the internal
/// oscillator.
pub open spec fn spec_cfgr_sysclk(word: u32) -> int {
    if word & 0b11 == 0b10 {
        (((word >> 18) & 0xF) + 2) * (HSI as int / 2)
    } else {
        HSI as int
    }
}

/// Flash wait states that a system clock needs: none up to 24 MHz, one
/// up to 48 MHz, two above.
pub open spec fn spec_latency(sysclk: int) -> u8 {
    if sysclk <= 24_000_000 {
        0u8
    } else if sysclk <= 48_000_000 {
        1u8
    } else {
        2u8
    }
}

impl RccRegs {
    /// Current value of the CR register.
    pub fn cr(&self) -> (r: u32)
        ensures
            r == self@.cr,
    {
        self.cr
    }

    /// Current value of the CFGR register.
    pub fn cfgr(&self) -> (r: u32)
        ensures
            r == self@.cfgr,
    {
        self.cfgr
    }

    /// Current value of the APB1 enable register.
    pub fn apb1enr(&self) -> (r: u32)
        ensures
            r == self@.apb1enr,
    {
        self.apb1enr
    }

    /// Current value of the APB2 enable register.
    pub fn apb2enr(&self) -> (r: u32)
        ensures
            r == self@.apb2enr,
    {
        self.apb2enr
    }

    /// The writes issued to the block so far, in order.
    pub fn log(&self) -> (r: &Vec<RccWrite>)
        ensures
            r@ == self@.log,
    {
        &self.log
    }

    /// Write the CFGR register.
    ///
    /// This is the write that selects the clock source, so it demands
    /// evidence that the flash wait states were already programmed for
    /// the speed the written word selects: switching to a faster clock
    /// before the flash can follow is undefined hardware behaviour.
    pub(crate) fn write_cfgr(&mut self, value: u32, lat: &LatencyWritten)
        requires
            spec_latency(spec_cfgr_sysclk(value)) <= lat.spec_latency(),
        ensures
            final(self)@.cfgr == value,
            final(self)@.log == old(self)@.log.push(RccWrite::Cfgr(value)),
            final(self)@.cr == old(self)@.cr,
            final(self)@.apb1enr == old(self)@.apb1enr,
            final(self)@.apb2enr == old(self)@.apb2enr,
            final(self)@.apb1rstr == old(self)@.apb1rstr,
            final(self)@.apb2rstr == old(self)@.apb2rstr,
    {
        self.cfgr = value;
        self.log.push(RccWrite::Cfgr(value));
    }

    /// Turn the PLL on and wait for it to lock: a plain write of the CR
    /// register with the PLL-enable bit set.  The model hardware locks
    /// immediately, so after the call the ready bit reads as set.
    pub(crate) fn enable_pll(&mut self)
        ensures
            final(self)@.cr == RCC_CR_RESET | RCC_CR_PLLON | RCC_CR_PLLRDY,
            final(self)@.log == old(self)@.log.push(RccWrite::Cr(RCC_CR_RESET | RCC_CR_PLLON)),
            final(self)@.cfgr == old(self)@.cfgr,
            final(self)@.apb1enr == old(self)@.apb1enr,
            final(self)@.apb2enr == old(self)@.apb2enr,
            final(self)@.apb1rstr == old(self)@.apb1rstr,
            final(self)@.apb2rstr == old(self)@.apb2rstr,
    {
        self.cr = RCC_CR_RESET | RCC_CR_PLLON | RCC_CR_PLLRDY;
        self.log.push(RccWrite::Cr(RCC_CR_RESET | RCC_CR_PLLON));
    }
}

/// A clock gating token: proof that one peripheral's bus clock is or is
/// not yet enabled.  Tokens are only handed out once, by [`Rcc::new`],
/// and are moved, never copied, so two live tokens can never disagree
/// about the same enable bit.
pub struct RccPeripheral {
    id: PeripheralId,
    enabled: bool,
}

impl RccPeripheral {
    /// The peripheral this token stands for.
    pub closed spec fn spec_id(&self) -> PeripheralId {
        self.id
    }

    /// Whether the peripheral's bus clock has been enabled.
    pub closed spec fn spec_enabled(&self) -> bool {
        self.enabled
    }

    /// The peripheral this token stands for.
    pub fn id(&self) -> (r: PeripheralId)
        ensures
            r == self.spec_id(),
    {
        self.id
    }

    /// Whether the peripheral's bus clock has been enabled.
    pub fn is_enabled(&self) -> (r: bool)
        ensures
            r == self.spec_enabled(),
    {
        self.enabled
    }

    /// Enable the peripheral's bus clock: one read-modify-write that
    /// sets its enable bit, leaving every other bit unchanged.  The
    /// disabled token is consumed, so the clock cannot be enabled twice.
    pub fn enable(self, regs: &mut RccRegs) -> (t: RccPeripheral)
        requires
            !self.spec_enabled(),
        ensures
            t.spec_id() == self.spec_id(),
            t.spec_enabled(),
            ({
                let b = spec_gate_bit(self.spec_id());
                let v = old(regs)@;
                &&& (spec_bus_of(self.spec_id()) == ApbBus::Apb2 ==> {
                    &&& final(regs)@.apb2enr == v.apb2enr | (1u32 << b)
                    &&& final(regs)@.apb1enr == v.apb1enr
                    &&& final(regs)@.log == v.log.push(RccWrite::Apb2Enr(v.apb2enr | (1u32 << b)))
                })
                &&& (spec_bus_of(self.spec_id()) == ApbBus::Apb1 ==> {
                    &&& final(regs)@.apb1enr == v.apb1enr | (1u32 << b)
                    &&& final(regs)@.apb2enr == v.apb2enr
                    &&& final(regs)@.log == v.log.push(RccWrite::Apb1Enr(v.apb1enr | (1u32 << b)))
                })
                &&& final(regs)@.cr == v.cr
                &&& final(regs)@.cfgr == v.cfgr
                &&& final(regs)@.apb1rstr == v.apb1rstr
                &&& final(regs)@.apb2rstr == v.apb2rstr
            }),
    {
        let b = gate_bit(self.id);
        match bus_of(self.id) {
            ApbBus::Apb2 => {
                let nv = regs.apb2enr | (1u32 << b);
                regs.apb2enr = nv;
                regs.log.push(RccWrite::Apb2Enr(nv));
            },
            ApbBus::Apb1 => {
                let nv = regs.apb1enr | (1u32 << b);
                regs.apb1enr = nv;
                regs.log.push(RccWrite::Apb1Enr(nv));
            },
        }
        RccPeripheral { id: self.id, enabled: true }
    }

    /// Pulse the peripheral's reset bit: one read-modify-write that sets
    /// it, then one that clears it again.  The token passes through
    /// unchanged in state.
    pub fn reset(self, regs: &mut RccRegs) -> (t: RccPeripheral)
        requires
            !self.spec_enabled(),
        ensures
            t.spec_id() == self.spec_id(),
            t.spec_enabled() == self.spec_enabled(),
            ({
                let b = spec_gate_bit(self.spec_id());
                let v = old(regs)@;
                &&& (spec_bus_of(self.spec_id()) == ApbBus::Apb2 ==> {
                    &&& final(regs)@.apb2rstr == (v.apb2rstr | (1u32 << b)) & !(1u32 << b)
                    &&& final(regs)@.apb1rstr == v.apb1rstr
                    &&& final(regs)@.log == v.log.push(
                        RccWrite::Apb2Rstr(v.apb2rstr | (1u32 << b)),
                    ).push(RccWrite::Apb2Rstr((v.apb2rstr | (1u32 << b)) & !(1u32 << b)))
                })
                &&& (spec_bus_of(self.spec_id()) == ApbBus::Apb1 ==> {
                    &&& final(regs)@.apb1rstr == (v.apb1rstr | (1u32 << b)) & !(1u32 << b)
                    &&& final(regs)@.apb2rstr == v.apb2rstr
                    &&& final(regs)@.log == v.log.push(
                        RccWrite::Apb1Rstr(v.apb1rstr | (1u32 << b)),
                    ).push(RccWrite::Apb1Rstr((v.apb1rstr | (1u32 << b)) & !(1u32 << b)))
                })
                &&& final(regs)@.cr == v.cr
                &&& final(regs)@.cfgr == v.cfgr
                &&& final(regs)@.apb1enr == v.apb1enr
                &&& final(regs)@.apb2enr == v.apb2enr
            }),
    {
        let b = gate_bit(self.id);
        match bus_of(self.id) {
            ApbBus::Apb2 => {
                let set = regs.apb2rstr | (1u32 << b);
                regs.apb2rstr = set;
                regs.log.push(RccWrite::Apb2Rstr(set));
                let clr = set & !(1u32 << b);
                regs.apb2rstr = clr;
                regs.log.push(RccWrite::Apb2Rstr(clr));
            },
            ApbBus::Apb1 => {
                let set = regs.apb1rstr | (1u32 << b);
                regs.apb1rstr = set;
                regs.log.push(RccWrite::Apb1Rstr(set));
                let clr = set & !(1u32 << b);
                regs.apb1rstr = clr;
                regs.log.push(RccWrite::Apb1Rstr(clr));
            },
        }
        self
    }
}

/// One disabled clock gating token per supported peripheral.
pub struct RccPeripherals {
    pub usart1: RccPeripheral,
    pub usart2: RccPeripheral,
    pub tim2: RccPeripheral,
    pub i2c1: RccPeripheral,
    pub i2c2: RccPeripheral,
    pub afio: RccPeripheral,
    pub iopa: RccPeripheral,
    pub iopb: RccPeripheral,
    pub iopc: RccPeripheral,
    pub iopd: RccPeripheral,
    pub spi1: RccPeripheral,
    pub spi2: RccPeripheral,
}

/// Requested target frequencies of the clock-tree solver, in Hz.
/// A field left `None` is derived from the defaults.
pub struct ClockTargets {
    pub hclk: Option<u32>,
    pub pclk1: Option<u32>,
    pub pclk2: Option<u32>,
    pub sysclk: Option<u32>,
}

/// Builder for the clock-tree solver: collects the requested target
/// frequencies, then [`CFGR::freeze`] programs the hardware.
pub struct CFGR {
    hclk: Option<u32>,
    pclk1: Option<u32>,
    pclk2: Option<u32>,
    sysclk: Option<u32>,
}

impl View for CFGR {
    type V = ClockTargets;

    closed spec fn view(&self) -> ClockTargets {
        ClockTargets {
            hclk: self.hclk,
            pclk1: self.pclk1,
            pclk2: self.pclk2,
            sysclk: self.sysclk,
        }
    }
}

/// The system clock target, with the internal oscillator as default.
pub open spec fn spec_target(sysclk: Option<u32>) -> u32 {
    match sysclk {
        Some(v) => v,
        None => HSI,
    }
}

/// The PLL multiplier that approximates a requested system clock,
/// before clamping: the requested frequency divided by half the
/// oscillator frequency, rounded to nearest.
pub open spec fn spec_pllmul_raw(target: u32) -> int {
    (4 * target + HSI) / (HSI as int) / 2
}

/// The PLL multiplier the solver settles on; 2 is the sentinel meaning
/// "use the oscillator directly, no PLL".
pub open spec fn spec_pllmul(c: ClockTargets) -> int {
    let raw = spec_pllmul_raw(spec_target(c.sysclk));
    if raw < 2 {
        2
    } else {
        raw
    }
}

/// The resulting system clock, in Hz.
pub open spec fn spec_sysclk(c: ClockTargets) -> int {
    spec_pllmul(c) * (HSI as int / 2)
}

/// AHB prescaler encoding for an integer division ratio.
pub open spec fn spec_hpre_bits_of_ratio(ratio: int) -> u32 {
    if ratio <= 1 {
        0b0111u32
    } else if ratio == 2 {
        0b1000u32
    } else if ratio <= 5 {
        0b1001u32
    } else if ratio <= 11 {
        0b1010u32
    } else if ratio <= 39 {
        0b1011u32
    } else if ratio <= 95 {
        0b1100u32
    } else if ratio <= 191 {
        0b1101u32
    } else if ratio <= 383 {
        0b1110u32
    } else {
        0b1111u32
    }
}

/// Division the solver applies for an AHB prescaler encoding.
pub open spec fn spec_hpre_divisor(bits: u32) -> int {
    if bits == 0b0111 {
        1
    } else if bits == 0b1000 {
        2
    } else if bits == 0b1001 {
        4
    } else if bits == 0b1010 {
        8
    } else if bits == 0b1011 {
        16
    } else if bits == 0b1100 {
        32
    } else if bits == 0b1101 {
        64
    } else if bits == 0b1110 {
        128
    } else {
        256
    }
}

/// APB prescaler encoding for an integer division ratio.
pub open spec fn spec_ppre_bits_of_ratio(ratio: int) -> u32 {
    if ratio <= 1 {
        0b011u32
    } else if ratio == 2 {
        0b100u32
    } else if ratio <= 5 {
        0b101u32
    } else if ratio <= 11 {
        0b110u32
    } else {
        0b111u32
    }
}

/// Division applied for an APB prescaler encoding.
pub open spec fn spec_ppre_divisor(bits: u32) -> int {
    if bits == 0b011 {
        1
    } else if bits == 0b100 {
        2
    } else if bits == 0b101 {
        4
    } else if bits == 0b110 {
        8
    } else {
        16
    }
}

/// AHB prescaler encoding the solver chooses.
pub open spec fn spec_hpre_bits(c: ClockTargets) -> u32 {
    match c.hclk {
        Some(h) => spec_hpre_bits_of_ratio(spec_sysclk(c) / (h as int)),
        None => 0b0111u32,
    }
}

/// The resulting AHB clock, in Hz.
pub open spec fn spec_hclk(c: ClockTargets) -> int {
    spec_sysclk(c) / spec_hpre_divisor(spec_hpre_bits(c))
}

/// APB1 prescaler encoding the solver chooses.
pub open spec fn spec_ppre1_bits(c: ClockTargets) -> u32 {
    match c.pclk1 {
        Some(p) => spec_ppre_bits_of_ratio(spec_hclk(c) / (p as int)),
        None => 0b011u32,
    }
}

/// The resulting APB1 clock, in Hz.
pub open spec fn spec_pclk1(c: ClockTargets) -> int {
    spec_hclk(c) / spec_ppre_divisor(spec_ppre1_bits(c))
}

/// APB2 prescaler encoding the solver chooses.
pub open spec fn spec_ppre2_bits(c: ClockTargets) -> u32 {
    match c.pclk2 {
        Some(p) => spec_ppre_bits_of_ratio(spec_hclk(c) / (p as int)),
        None => 0b011u32,
    }
}

/// The resulting APB2 clock, in Hz.
pub open spec fn spec_pclk2(c: ClockTargets) -> int {
    spec_hclk(c) / spec_ppre_divisor(spec_ppre2_bits(c))
}

/// The CFGR word that programs the PLL multiplier, before the switch.
pub open spec fn spec_pllmul_word(c: ClockTargets) -> u32 {
    (((spec_pllmul(c) - 2) as u32) << 18u32)
}

/// The CFGR word the solver finally writes: prescalers, PLL multiplier
/// and the clock-switch field, together in one write.
pub open spec fn spec_cfgr_final(c: ClockTargets) -> u32 {
    if spec_pllmul(c) == 2 {
        (spec_hpre_bits(c) << 4u32) | (spec_ppre1_bits(c) << 8u32) | (spec_ppre2_bits(c)
            << 11u32)
    } else {
        0b10u32 | (spec_hpre_bits(c) << 4u32) | (spec_ppre1_bits(c) << 8u32) | (spec_ppre2_bits(c)
            << 11u32) | (((spec_pllmul(c) - 2) as u32) << 18u32)
    }
}

fn hpre_bits_of_ratio(ratio: u32) -> (r: u32)
    ensures
        r == spec_hpre_bits_of_ratio(ratio as int),
        0b0111 <= r <= 0b1111,
{
    if ratio <= 1 {
        0b0111
    } else if ratio == 2 {
        0b1000
    } else if ratio <= 5 {
        0b1001
    } else if ratio <= 11 {
        0b1010
    } else if ratio <= 39 {
        0b1011
    } else if ratio <= 95 {
        0b1100
    } else if ratio <= 191 {
        0b1101
    } else if ratio <= 383 {
        0b1110
    } else {
        0b1111
    }
}

fn hpre_divisor(bits: u32) -> (r: u32)
    ensures
        r == spec_hpre_divisor(bits),
        1 <= r <= 256,
{
    if bits == 0b0111 {
        1
    } else if bits == 0b1000 {
        2
    } else if bits == 0b1001 {
        4
    } else if bits == 0b1010 {
        8
    } else if bits == 0b1011 {
        16
    } else if bits == 0b1100 {
        32
    } else if bits == 0b1101 {
        64
    } else if bits == 0b1110 {
        128
    } else {
        256
    }
}

fn ppre_bits_of_ratio(ratio: u32) -> (r: u32)
    ensures
        r == spec_ppre_bits_of_ratio(ratio as int),
        0b011 <= r <= 0b111,
{
    if ratio <= 1 {
        0b011
    } else if ratio == 2 {
        0b100
    } else if ratio <= 5 {
        0b101
    } else if ratio <= 11 {
        0b110
    } else {
        0b111
    }
}

fn ppre_divisor(bits: u32) -> (r: u32)
    ensures
        r == spec_ppre_divisor(bits),
        1 <= r <= 16,
{
    if bits == 0b011 {
        1
    } else if bits == 0b100 {
        2
    } else if bits == 0b101 {
        4
    } else if bits == 0b110 {
        8
    } else {
        16
    }
}

/// Range enforcement of the solver: a request whose multiplier would
/// exceed the hardware's range is refused by the solver's precondition
/// rather than clamped — on every admitted request the multiplier is
/// exactly the rounded one (never a substitute), it stays within 2..=16,
/// and the produced system clock is that multiplier times half the
/// oscillator.
pub proof fn lemma_no_clamping(c: ClockTargets)
    requires
        spec_pllmul_raw(spec_target(c.sysclk)) <= 16,
    ensures
        spec_pllmul_raw(spec_target(c.sysclk)) >= 2 ==> spec_pllmul(c) == spec_pllmul_raw(
            spec_target(c.sysclk),
        ),
        2 <= spec_pllmul(c) <= 16,
        spec_sysclk(c) == spec_pllmul(c) * (HSI as int / 2),
{
}

/// A requested system clock whose multiplier stays in range keeps the
/// quadrupled request representable: the bound every later step needs.
proof fn lemma_pllmul_raw_le_bound(t: u32)
    requires
        spec_pllmul_raw(t) <= 16,
    ensures
        t <= 65_999_999,
{
    let x = 4 * t + HSI as int;
    let q = x / (HSI as int);
    if q >= 34 {
        lemma_div_is_ordered(34, q, 2);
        assert(false);
    }
    lemma_fundamental_div_mod(x, HSI as int);
    lemma_mod_bound(x, HSI as int);
    lemma_mul_inequality(q, 33, HSI as int);
}

impl CFGR {
    /// Request an AHB clock of `freq` Hz.
    pub fn hclk(self, freq: u32) -> (r: CFGR)
        ensures
            r@ == (ClockTargets { hclk: Some(freq), ..self@ }),
    {
        CFGR { hclk: Some(freq), ..self }
    }

    /// Request an APB1 clock of `freq` Hz.
    pub fn pclk1(self, freq: u32) -> (r: CFGR)
        ensures
            r@ == (ClockTargets { pclk1: Some(freq), ..self@ }),
    {
        CFGR { pclk1: Some(freq), ..self }
    }

    /// Request an APB2 clock of `freq` Hz.
    pub fn pclk2(self, freq: u32) -> (r: CFGR)
        ensures
            r@ == (ClockTargets { pclk2: Some(freq), ..self@ }),
    {
        CFGR { pclk2: Some(freq), ..self }
    }

    /// Request a system clock of `freq` Hz.
    pub fn sysclk(self, freq: u32) -> (r: CFGR)
        ensures
            r@ == (ClockTargets { sysclk: Some(freq), ..self@ }),
    {
        CFGR { sysclk: Some(freq), ..self }
    }

    /// Solve the clock tree and program the hardware.
    ///
    /// The requested system clock picks a PLL multiplier in 2..=16 (2 is
    /// the sentinel for "oscillator direct, no PLL"); the other targets
    /// pick prescaler encodings by table on the integer division ratio.
    /// A request that would need a multiplier above 16 is refused by
    /// precondition rather than clamped to a wrong frequency, and so is
    /// one whose APB1 clock would come out above 36 MHz.
    ///
    /// Side effects, in order: the flash wait states for the new system
    /// clock are programmed first; then, when the PLL is used, the
    /// multiplier word, the PLL enable (with its lock wait), and one
    /// final word carrying all three prescalers together with the
    /// switch to the PLL; without the PLL, the final word alone.  The
    /// returned snapshot is the only proof later code has that the
    /// clocks were configured.
    pub fn freeze(self, acr: &mut ACR, regs: &mut RccRegs) -> (clocks: Clocks)
        requires
            spec_pllmul_raw(spec_target(self@.sysclk)) <= 16,
            self@.hclk matches Some(h) ==> 1 <= h <= spec_sysclk(self@),
            self@.pclk1 matches Some(p) ==> 1 <= p <= spec_hclk(self@),
            self@.pclk2 matches Some(p) ==> 1 <= p <= spec_hclk(self@),
            spec_pclk1(self@) <= 36_000_000,
        ensures
            clocks@.sysclk == spec_sysclk(self@),
            clocks@.hclk == spec_hclk(self@),
            clocks@.pclk1 == spec_pclk1(self@),
            clocks@.pclk2 == spec_pclk2(self@),
            clocks@.ppre1 == spec_ppre_divisor(spec_ppre1_bits(self@)),
            clocks@.ppre2 == spec_ppre_divisor(spec_ppre2_bits(self@)),
            clocks.wf(),
            final(acr).spec_acr() == ACR_RESET + spec_latency(spec_sysclk(self@)) as u32,
            final(regs)@.cfgr == spec_cfgr_final(self@),
            final(regs)@.apb1enr == old(regs)@.apb1enr,
            final(regs)@.apb2enr == old(regs)@.apb2enr,
            final(regs)@.apb1rstr == old(regs)@.apb1rstr,
            final(regs)@.apb2rstr == old(regs)@.apb2rstr,
            spec_pllmul(self@) != 2 ==> final(regs)@.cr == RCC_CR_RESET | RCC_CR_PLLON
                | RCC_CR_PLLRDY && final(regs)@.log == old(regs)@.log + seq![
                RccWrite::Cfgr(spec_pllmul_word(self@)),
                RccWrite::Cr(RCC_CR_RESET | RCC_CR_PLLON),
                RccWrite::Cfgr(spec_cfgr_final(self@)),
            ],
            spec_pllmul(self@) == 2 ==> final(regs)@.cr == old(regs)@.cr && final(regs)@.log == old(
                regs,
            )@.log + seq![RccWrite::Cfgr(spec_cfgr_final(self@))],
    {
        let t: u32 = match self.sysclk {
            Some(v) => v,
            None => HSI,
        };
        proof {
            lemma_pllmul_raw_le_bound(t);
        }
        let raw: u32 = (4 * t + HSI) / HSI / 2;
        let pllmul: u32 = if raw < 2 {
            2
        } else {
            raw
        };
        let sysclk: u32 = pllmul * (HSI / 2);
        assert(sysclk == spec_sysclk(self@));
        assert(8_000_000 <= sysclk <= 64_000_000);

        let hpre_bits: u32 = match self.hclk {
            Some(h) => {
                proof {
                    lemma_div_non_zero(sysclk as int, h as int);
                }
                hpre_bits_of_ratio(sysclk / h)
            },
            None => 0b0111,
        };
        let hdiv: u32 = hpre_divisor(hpre_bits);
        let hclk: u32 = sysclk / hdiv;
        proof {
            lemma_div_nonincreasing(sysclk as int, hdiv as int);
            lemma_div_is_ordered(8_000_000, sysclk as int, hdiv as int);
            lemma_div_is_ordered_by_denominator(8_000_000, hdiv as int, 256);
        }
        assert(31250 <= hclk <= 64_000_000);
        assert(hclk == spec_hclk(self@));

        let ppre1_bits: u32 = match self.pclk1 {
            Some(p) => {
                proof {
                    lemma_div_non_zero(hclk as int, p as int);
                }
                ppre_bits_of_ratio(hclk / p)
            },
            None => 0b011,
        };
        let p1div: u32 = ppre_divisor(ppre1_bits);
        let pclk1: u32 = hclk / p1div;
        proof {
            lemma_div_nonincreasing(hclk as int, p1div as int);
            lemma_div_is_ordered(31250, hclk as int, p1div as int);
            lemma_div_is_ordered_by_denominator(31250, p1div as int, 16);
        }
        assert(1 <= pclk1 <= 36_000_000);

        let ppre2_bits: u32 = match self.pclk2 {
            Some(p) => {
                proof {
                    lemma_div_non_zero(hclk as int, p as int);
                }
                ppre_bits_of_ratio(hclk / p)
            },
            None => 0b011,
        };
        let p2div: u32 = ppre_divisor(ppre2_bits);
        let pclk2: u32 = hclk / p2div;
        proof {
            lemma_div_nonincreasing(hclk as int, p2div as int);
            lemma_div_is_ordered(31250, hclk as int, p2div as int);
            lemma_div_is_ordered_by_denominator(31250, p2div as int, 16);
        }
        assert(1 <= pclk2 <= 64_000_000);

        let latency: u8 = if sysclk <= 24_000_000 {
            0
        } else if sysclk <= 48_000_000 {
            1
        } else {
            2
        };
        let lat = acr.set_latency(latency);

        let clocks = Clocks {
            hclk,
            pclk1,
            pclk2,
            ppre1: p1div as u8,
            ppre2: p2div as u8,
            sysclk,
        };

        if pllmul > 2 {
            let pllbits: u32 = pllmul - 2;
            let pw: u32 = pllbits << 18u32;
            proof {
                assert(pw & 0b11 == 0) by (bit_vector)
                    requires
                        pw == pllbits << 18u32,
                        pllbits <= 14,
                ;
            }
            regs.write_cfgr(pw, &lat);
            regs.enable_pll();
            let w: u32 = 0b10 | (hpre_bits << 4u32) | (ppre1_bits << 8u32) | (ppre2_bits
                << 11u32) | (pllbits << 18u32);
            proof {
                assert(w & 0b11 == 0b10 && (w >> 18u32) & 0xF == pllbits) by (bit_vector)
                    requires
                        w == 0b10 | (hpre_bits << 4u32) | (ppre1_bits << 8u32) | (ppre2_bits
                            << 11u32) | (pllbits << 18u32),
                        hpre_bits <= 15,
                        ppre1_bits <= 7,
                        ppre2_bits <= 7,
                        pllbits <= 14,
                ;
                assert(spec_cfgr_sysclk(w) == sysclk);
            }
            regs.write_cfgr(w, &lat);
            assert(final(regs)@.log =~= old(regs)@.log + seq![
                RccWrite::Cfgr(spec_pllmul_word(self@)),
                RccWrite::Cr(RCC_CR_RESET | RCC_CR_PLLON),
                RccWrite::Cfgr(spec_cfgr_final(self@)),
            ]);
        } else {
            let w: u32 = (hpre_bits << 4u32) | (ppre1_bits << 8u32) | (ppre2_bits << 11u32);
            proof {
                assert(w & 0b11 == 0) by (bit_vector)
                    requires
                        w == (hpre_bits << 4u32) | (ppre1_bits << 8u32) | (ppre2_bits << 11u32),
                        hpre_bits <= 15,
                        ppre1_bits <= 7,
                        ppre2_bits <= 7,
                ;
            }
            regs.write_cfgr(w, &lat);
            assert(final(regs)@.log =~= old(regs)@.log + seq![RccWrite::Cfgr(spec_cfgr_final(self@))]);
        }

        clocks
    }
}

/// Mathematical view of a frozen clock configuration.
pub struct ClocksView {
    pub hclk: u32,
    pub pclk1: u32,
    pub pclk2: u32,
    pub ppre1: u8,
    pub ppre2: u8,
    pub sysclk: u32,
}

/// Frozen clock frequencies.
///
/// The existence of this value indicates that the clock configuration
/// can no longer be changed: only [`CFGR::freeze`] constructs it.
#[derive(Clone, Copy)]
pub struct Clocks {
    hclk: u32,
    pclk1: u32,
    pclk2: u32,
    ppre1: u8,
    ppre2: u8,
    sysclk: u32,
}

impl View for Clocks {
    type V = ClocksView;

    closed spec fn view(&self) -> ClocksView {
        ClocksView {
            hclk: self.hclk,
            pclk1: self.pclk1,
            pclk2: self.pclk2,
            ppre1: self.ppre1,
            ppre2: self.ppre2,
            sysclk: self.sysclk,
        }
    }
}

impl Clocks {
    /// The ranges a frozen configuration always satisfies: every bus
    /// inside its physical limit and no bus faster than its source.
    pub open spec fn wf(&self) -> bool {
        &&& 1 <= self@.pclk1 <= 36_000_000
        &&& 1 <= self@.pclk2 < 72_000_000
        &&& 1 <= self@.hclk < 72_000_000
        &&& 8_000_000 <= self@.sysclk < 72_000_000
        &&& self@.pclk1 <= self@.hclk
        &&& self@.pclk2 <= self@.hclk
        &&& self@.hclk <= self@.sysclk
        &&& 1 <= self@.ppre1 <= 16
        &&& 1 <= self@.ppre2 <= 16
    }

    /// Returns the frequency of the AHB, in Hz.
    pub fn hclk(&self) -> (r: u32)
        ensures
            r == self@.hclk,
    {
        self.hclk
    }

    /// Returns the frequency of the APB1, in Hz.
    pub fn pclk1(&self) -> (r: u32)
        ensures
            r == self@.pclk1,
    {
        self.pclk1
    }

    /// Returns the frequency of the APB2, in Hz.
    pub fn pclk2(&self) -> (r: u32)
        ensures
            r == self@.pclk2,
    {
        self.pclk2
    }

    /// Returns the division the APB1 prescaler applies.
    pub fn ppre1(&self) -> (r: u8)
        ensures
            r == self@.ppre1,
    {
        self.ppre1
    }

    /// Returns the division the APB2 prescaler applies.
    pub fn ppre2(&self) -> (r: u8)
        ensures
            r == self@.ppre2,
    {
        self.ppre2
    }

    /// Returns the system (core) frequency, in Hz.
    pub fn sysclk(&self) -> (r: u32)
        ensures
            r == self@.sysclk,
    {
        self.sysclk
    }
}

/// Owner of the clock controller: the solver builder, the one set of
/// clock gating tokens, and the register model.
pub struct Rcc {
    pub cfgr: CFGR,
    pub peripherals: RccPeripherals,
    pub regs: RccRegs,
}

impl Rcc {
    /// Take the clock controller: no targets requested yet, every
    /// peripheral token disabled, every register at its reset value.
    ///
    /// Each call starts a fresh model of the block at reset.  When the
    /// model is bound to real hardware, handing out the one physical
    /// block at most once is the binding layer's concern, as it is for
    /// the device crate's own take-once singletons.
    pub fn new() -> (rcc: Rcc)
        ensures
            rcc.cfgr@ == (ClockTargets { hclk: None, pclk1: None, pclk2: None, sysclk: None }),
            rcc.regs@.cr == RCC_CR_RESET,
            rcc.regs@.cfgr == 0,
            rcc.regs@.apb1enr == 0,
            rcc.regs@.apb2enr == 0,
            rcc.regs@.apb1rstr == 0,
            rcc.regs@.apb2rstr == 0,
            rcc.regs@.log == Seq::<RccWrite>::empty(),
            rcc.peripherals.usart1.spec_id() == PeripheralId::Usart1,
            rcc.peripherals.usart2.spec_id() == PeripheralId::Usart2,
            rcc.peripherals.tim2.spec_id() == PeripheralId::Tim2,
            rcc.peripherals.i2c1.spec_id() == PeripheralId::I2c1,
            rcc.peripherals.i2c2.spec_id() == PeripheralId::I2c2,
            rcc.peripherals.afio.spec_id() == PeripheralId::Afio,
            rcc.peripherals.iopa.spec_id() == PeripheralId::Iopa,
            rcc.peripherals.iopb.spec_id() == PeripheralId::Iopb,
            rcc.peripherals.iopc.spec_id() == PeripheralId::Iopc,
            rcc.peripherals.iopd.spec_id() == PeripheralId::Iopd,
            rcc.peripherals.spi1.spec_id() == PeripheralId::Spi1,
            rcc.peripherals.spi2.spec_id() == PeripheralId::Spi2,
            !rcc.peripherals.usart1.spec_enabled(),
            !rcc.peripherals.usart2.spec_enabled(),
            !rcc.peripherals.tim2.spec_enabled(),
            !rcc.peripherals.i2c1.spec_enabled(),
            !rcc.peripherals.i2c2.spec_enabled(),
            !rcc.peripherals.afio.spec_enabled(),
            !rcc.peripherals.iopa.spec_enabled(),
            !rcc.peripherals.iopb.spec_enabled(),
            !rcc.peripherals.iopc.spec_enabled(),
            !rcc.peripherals.iopd.spec_enabled(),
            !rcc.peripherals.spi1.spec_enabled(),
            !rcc.peripherals.spi2.spec_enabled(),
    {
        Rcc {
            cfgr: CFGR { hclk: None, pclk1: None, pclk2: None, sysclk: None },
            peripherals: RccPeripherals {
                usart1: RccPeripheral { id: PeripheralId::Usart1, enabled: false },
                usart2: RccPeripheral { id: PeripheralId::Usart2, enabled: false },
                tim2: RccPeripheral { id: PeripheralId::Tim2, enabled: false },
                i2c1: RccPeripheral { id: PeripheralId::I2c1, enabled: false },
                i2c2: RccPeripheral { id: PeripheralId::I2c2, enabled: false },
                afio: RccPeripheral { id: PeripheralId::Afio, enabled: false },
                iopa: RccPeripheral { id: PeripheralId::Iopa, enabled: false },
                iopb: RccPeripheral { id: PeripheralId::Iopb, enabled: false },
                iopc: RccPeripheral { id: PeripheralId::Iopc, enabled: false },
                iopd: RccPeripheral { id: PeripheralId::Iopd, enabled: false },
                spi1: RccPeripheral { id: PeripheralId::Spi1, enabled: false },
                spi2: RccPeripheral { id: PeripheralId::Spi2, enabled: false },
            },
            regs: RccRegs {
                cr: RCC_CR_RESET,
                cfgr: 0,
                apb1enr: 0,
                apb2enr: 0,
                apb1rstr: 0,
                apb2rstr: 0,
                log: Vec::new(),
            },
        }
    }
}

} // verus!
