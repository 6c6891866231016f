//! Remap core: one-shot tokens recording which pin mapping each
//! remappable peripheral function uses.
//!
//! A remap token starts unconfigured; committing it one way or the other
//! is terminal, so downstream constructors can demand proof of an
//! explicit choice.  Only committing to the remapped mapping writes the
//! hardware: remap bits reset to zero, so the normal mapping needs no
//! write.

use vstd::prelude::*;
use crate::common::bit_set;
use crate::rcc::{PeripheralId, RccPeripheral};

verus! {

/// The remappable peripheral functions this crate controls.
#[derive(Clone, Copy, PartialEq, Eq, Structural, Debug)]
pub enum RemapPeriph {
    Usart1,
    Usart2,
    I2c1,
    Spi1,
}

/// Remap state of a peripheral function: a one-shot decision.
#[derive(Clone, Copy, PartialEq, Eq, Structural, Debug)]
pub enum RemapState {
    NotConfigured,
    NotRemapped,
    Remapped,
}

/// Bit position of a function's remap bit in the mapping register.
pub open spec fn spec_remap_bit(p: RemapPeriph) -> u32 {
    match p {
        RemapPeriph::Spi1 => 0u32,
        RemapPeriph::I2c1 => 1u32,
        RemapPeriph::Usart1 => 2u32,
        RemapPeriph::Usart2 => 3u32,
    }
}

fn remap_bit(p: RemapPeriph) -> (r: u32)
    ensures
        r == spec_remap_bit(p),
        r < 32,
{
    match p {
        RemapPeriph::Spi1 => 0,
        RemapPeriph::I2c1 => 1,
        RemapPeriph::Usart1 => 2,
        RemapPeriph::Usart2 => 3,
    }
}

/// Mathematical view of the alternate-function block's registers.
pub struct AfioRegsView {
    pub mapr: u32,
}

/// Model of the alternate-function block: only the mapping register is
/// driven by this crate.
pub struct AfioRegs {
    mapr: u32,
}

impl View for AfioRegs {
    type V = AfioRegsView;

    closed spec fn view(&self) -> AfioRegsView {
        AfioRegsView { mapr: self.mapr }
    }
}

impl AfioRegs {
    /// Current value of the mapping register.
    pub fn mapr(&self) -> (r: u32)
        ensures
            r == self@.mapr,
    {
        self.mapr
    }

    /// Whether a function's remap bit is set.
    pub fn is_remapped(&self, p: RemapPeriph) -> (r: bool)
        ensures
            r == bit_set(self@.mapr, spec_remap_bit(p)),
    {
        let b = remap_bit(p);
        (self.mapr & (1u32 << b)) != 0
    }
}

/// Mathematical view of a remap token.
pub struct AfioPeripheralView {
    pub periph: RemapPeriph,
    pub state: RemapState,
}

/// A remap capability token: proof of which of the mutually exclusive
/// pin mappings is active for one peripheral function.  Handed out once
/// per function by [`Afio::get_peripherals`]; committed tokens cannot be
/// transitioned again.
pub struct AfioPeripheral {
    periph: RemapPeriph,
    state: RemapState,
}

impl View for AfioPeripheral {
    type V = AfioPeripheralView;

    closed spec fn view(&self) -> AfioPeripheralView {
        AfioPeripheralView { periph: self.periph, state: self.state }
    }
}

impl AfioPeripheral {
    /// The peripheral function this token stands for.
    pub fn periph(&self) -> (r: RemapPeriph)
        ensures
            r == self@.periph,
    {
        self.periph
    }

    /// The token's current remap state.
    pub fn state(&self) -> (r: RemapState)
        ensures
            r == self@.state,
    {
        self.state
    }

    /// Commit to the normal pin mapping.  The remap bit resets to zero,
    /// so no register is written; the token still advances, recording
    /// that the choice was made.
    pub fn set_not_remapped(self) -> (t: AfioPeripheral)
        requires
            self@.state == RemapState::NotConfigured,
        ensures
            t@ == (AfioPeripheralView { state: RemapState::NotRemapped, ..self@ }),
    {
        AfioPeripheral { state: RemapState::NotRemapped, ..self }
    }

    /// Commit to the alternate pin mapping: one read-modify-write that
    /// sets the function's remap bit, leaving every other bit unchanged.
    pub fn set_remapped(self, regs: &mut AfioRegs) -> (t: AfioPeripheral)
        requires
            self@.state == RemapState::NotConfigured,
        ensures
            t@ == (AfioPeripheralView { state: RemapState::Remapped, ..self@ }),
            final(regs)@.mapr == old(regs)@.mapr | (1u32 << spec_remap_bit(self@.periph)),
    {
        let b = remap_bit(self.periph);
        regs.mapr = regs.mapr | (1u32 << b);
        AfioPeripheral { state: RemapState::Remapped, ..self }
    }
}

/// One unconfigured remap token per remappable function.
pub struct AfioPeripherals {
    pub usart1: AfioPeripheral,
    pub usart2: AfioPeripheral,
    pub i2c1: AfioPeripheral,
    pub spi1: AfioPeripheral,
}

/// A claimed alternate-function block, not yet broken into tokens.
/// The private field keeps the handle constructible only through
/// [`Afio::new`], which demands the block's enabled clock gate.
pub struct Afio {
    claimed: bool,
}

impl Afio {
    /// Claim the alternate-function block.  Demands its enabled clock
    /// gating token: an ungated block's registers do not respond.
    pub fn new(gate: RccPeripheral) -> (a: Afio)
        requires
            gate.spec_enabled(),
            gate.spec_id() == PeripheralId::Afio,
    {
        Afio { claimed: true }
    }

    /// Break the block into one unconfigured remap token per function,
    /// together with the register model at its reset value.
    pub fn get_peripherals(self) -> (r: (AfioRegs, AfioPeripherals))
        ensures
            r.0@.mapr == 0,
            r.1.usart1@ == (AfioPeripheralView {
                periph: RemapPeriph::Usart1,
                state: RemapState::NotConfigured,
            }),
            r.1.usart2@ == (AfioPeripheralView {
                periph: RemapPeriph::Usart2,
                state: RemapState::NotConfigured,
            }),
            r.1.i2c1@ == (AfioPeripheralView {
                periph: RemapPeriph::I2c1,
                state: RemapState::NotConfigured,
            }),
            r.1.spi1@ == (AfioPeripheralView {
                periph: RemapPeriph::Spi1,
                state: RemapState::NotConfigured,
            }),
    {
        (
            AfioRegs { mapr: 0 },
            AfioPeripherals {
                usart1: AfioPeripheral {
                    periph: RemapPeriph::Usart1,
                    state: RemapState::NotConfigured,
                },
                usart2: AfioPeripheral {
                    periph: RemapPeriph::Usart2,
                    state: RemapState::NotConfigured,
                },
                i2c1: AfioPeripheral {
                    periph: RemapPeriph::I2c1,
                    state: RemapState::NotConfigured,
                },
                spi1: AfioPeripheral {
                    periph: RemapPeriph::Spi1,
                    state: RemapState::NotConfigured,
                },
            },
        )
    }
}

} // verus!
