//! Serial peripheral interface core.
//!
//! The instance owns a model of one SPI register block: the two control
//! registers, a script of paired status/data readings standing for what
//! the hardware will report, and the log of bytes handed to the data
//! register.  `read` and `send` are single non-blocking probes: each
//! consumes one scripted reading and classifies it as completion, "not
//! yet", or one of the closed fault set.
//!
//! Pin assignment: SPI1 drives NSS/SCK/MISO/MOSI on A4–A7, or on
//! A15 and B3–B5 when remapped.

use vstd::prelude::*;
use crate::afio::{AfioPeripheral, RemapPeriph, RemapState};
use crate::common::Probe;
use crate::gpio::{BankId, GpioPin, PinCnf, PinMode};
use crate::rcc::{Clocks, PeripheralId, RccPeripheral};

verus! {

/// Receive-buffer-not-empty bit of the status register.
pub const SPI_SR_RXNE: u32 = 0x01;

/// Transmit-buffer-empty bit of the status register.
pub const SPI_SR_TXE: u32 = 0x02;

/// CRC-error bit of the status register.
pub const SPI_SR_CRCERR: u32 = 0x10;

/// Mode-fault bit of the status register.
pub const SPI_SR_MODF: u32 = 0x20;

/// Overrun bit of the status register.
pub const SPI_SR_OVR: u32 = 0x40;

/// Clock-phase bit of the first control register.
pub const SPI_CR1_CPHA: u32 = 0x01;

/// Clock-polarity bit of the first control register.
pub const SPI_CR1_CPOL: u32 = 0x02;

/// Master-mode bit of the first control register.
pub const SPI_CR1_MSTR: u32 = 0x04;

/// Peripheral-enable bit of the first control register.
pub const SPI_CR1_SPE: u32 = 0x40;

/// Slave-select-output-enable bit of the second control register.
pub const SPI_CR2_SSOE: u32 = 0x04;

/// Error-interrupt-enable bit of the second control register.
pub const SPI_CR2_ERRIE: u32 = 0x20;

/// Receive-interrupt-enable bit of the second control register.
pub const SPI_CR2_RXNEIE: u32 = 0x40;

/// Transmit-interrupt-enable bit of the second control register.
pub const SPI_CR2_TXEIE: u32 = 0x80;

/// The hardware fault conditions an SPI status probe can surface.
#[derive(Clone, Copy, PartialEq, Eq, Structural, Debug)]
pub enum Error {
    /// Overrun or underrun of the data register.
    Overrun,
    /// Mode fault: the master role was contested.
    ModeFault,
    /// Hardware cyclic-redundancy check failed.
    CrcError,
}

/// The two SPI instances.
#[derive(Clone, Copy, PartialEq, Eq, Structural, Debug)]
pub enum SpiId {
    Spi1,
    Spi2,
}

/// The clock gate that feeds an SPI instance.
pub open spec fn spec_spi_gate(id: SpiId) -> PeripheralId {
    match id {
        SpiId::Spi1 => PeripheralId::Spi1,
        SpiId::Spi2 => PeripheralId::Spi2,
    }
}

/// The frequency of the bus an SPI instance sits on: SPI1 is clocked
/// from APB2, SPI2 from APB1.
pub open spec fn spec_spi_busclk(id: SpiId, c: crate::rcc::ClocksView) -> u32 {
    match id {
        SpiId::Spi1 => c.pclk2,
        SpiId::Spi2 => c.pclk1,
    }
}

/// Baud-rate prescaler encoding for an integer bus-to-rate ratio.
pub open spec fn spec_spi_br_bits(ratio: int) -> u32 {
    if ratio <= 2 {
        0b000u32
    } else if ratio <= 5 {
        0b001u32
    } else if ratio <= 11 {
        0b010u32
    } else if ratio <= 23 {
        0b011u32
    } else if ratio <= 47 {
        0b100u32
    } else if ratio <= 95 {
        0b101u32
    } else if ratio <= 191 {
        0b110u32
    } else {
        0b111u32
    }
}

fn spi_br_bits(ratio: u32) -> (r: u32)
    ensures
        r == spec_spi_br_bits(ratio as int),
        r <= 0b111,
{
    if ratio <= 2 {
        0b000
    } else if ratio <= 5 {
        0b001
    } else if ratio <= 11 {
        0b010
    } else if ratio <= 23 {
        0b011
    } else if ratio <= 47 {
        0b100
    } else if ratio <= 95 {
        0b101
    } else if ratio <= 191 {
        0b110
    } else {
        0b111
    }
}

/// What one probe of a paired status/data reading yields on the read
/// side: the fault bits in priority order, then a received byte.
pub open spec fn spec_spi_read(sr: u32, dr: u8) -> Probe<u8, Error> {
    if sr & SPI_SR_OVR != 0 {
        Probe::Fault(Error::Overrun)
    } else if sr & SPI_SR_MODF != 0 {
        Probe::Fault(Error::ModeFault)
    } else if sr & SPI_SR_CRCERR != 0 {
        Probe::Fault(Error::CrcError)
    } else if sr & SPI_SR_RXNE != 0 {
        Probe::Complete(dr)
    } else {
        Probe::NotYet
    }
}

/// What one probe of a status reading yields on the send side: the
/// fault bits in priority order, then readiness to take a byte.
pub open spec fn spec_spi_send(sr: u32) -> Probe<(), Error> {
    if sr & SPI_SR_OVR != 0 {
        Probe::Fault(Error::Overrun)
    } else if sr & SPI_SR_MODF != 0 {
        Probe::Fault(Error::ModeFault)
    } else if sr & SPI_SR_CRCERR != 0 {
        Probe::Fault(Error::CrcError)
    } else if sr & SPI_SR_RXNE != 0 {
        Probe::Complete(())
    } else {
        Probe::NotYet
    }
}

/// Classify one status/data reading on the read side.
pub fn classify_read(sr: u32, dr: u8) -> (r: Probe<u8, Error>)
    ensures
        r == spec_spi_read(sr, dr),
{
    if sr & SPI_SR_OVR != 0 {
        Probe::Fault(Error::Overrun)
    } else if sr & SPI_SR_MODF != 0 {
        Probe::Fault(Error::ModeFault)
    } else if sr & SPI_SR_CRCERR != 0 {
        Probe::Fault(Error::CrcError)
    } else if sr & SPI_SR_RXNE != 0 {
        Probe::Complete(dr)
    } else {
        Probe::NotYet
    }
}

/// Classify one status reading on the send side.
pub fn classify_send(sr: u32) -> (r: Probe<(), Error>)
    ensures
        r == spec_spi_send(sr),
{
    if sr & SPI_SR_OVR != 0 {
        Probe::Fault(Error::Overrun)
    } else if sr & SPI_SR_MODF != 0 {
        Probe::Fault(Error::ModeFault)
    } else if sr & SPI_SR_CRCERR != 0 {
        Probe::Fault(Error::CrcError)
    } else if sr & SPI_SR_RXNE != 0 {
        Probe::Complete(())
    } else {
        Probe::NotYet
    }
}

/// Mathematical view of an SPI instance.
pub struct SpiView {
    pub id: SpiId,
    pub remapped: RemapState,
    pub cr1: u32,
    pub cr2: u32,
    pub sr_feed: Seq<(u32, u8)>,
    pub sr_pos: int,
    pub sent: Seq<u8>,
}

/// Evidence that a specific, fixed set of pins is wired as one SPI
/// instance needs, under a committed remap choice.
pub struct SpiBusPorts {
    spi: SpiId,
    remapped: RemapState,
}

impl SpiBusPorts {
    /// The instance these ports serve.
    pub closed spec fn spec_spi(&self) -> SpiId {
        self.spi
    }

    /// The committed remap choice they were wired under.
    pub closed spec fn spec_remapped(&self) -> RemapState {
        self.remapped
    }
}

/// An SPI peripheral instance: owns the register model of one instance,
/// wired and clocked by construction.
pub struct Spi {
    id: SpiId,
    remapped: RemapState,
    cr1: u32,
    cr2: u32,
    sr_feed: Vec<(u32, u8)>,
    sr_pos: usize,
    sent: Vec<u8>,
}

impl View for Spi {
    type V = SpiView;

    closed spec fn view(&self) -> SpiView {
        SpiView {
            id: self.id,
            remapped: self.remapped,
            cr1: self.cr1,
            cr2: self.cr2,
            sr_feed: self.sr_feed@,
            sr_pos: self.sr_pos as int,
            sent: self.sent@,
        }
    }
}

impl Spi {
    /// The script position stays inside the script.
    pub open spec fn wf(&self) -> bool {
        0 <= self@.sr_pos <= self@.sr_feed.len()
    }

    /// Wire SPI1 to its normal pins: NSS on A4, SCK on A5, MISO on A6
    /// as a floating input, MOSI on A7, all but the input as
    /// alternate-function push-pull, with proof that the remap choice
    /// fell on the normal mapping.
    pub fn ports_normal(
        pa4: GpioPin,
        pa5: GpioPin,
        pa6: GpioPin,
        pa7: GpioPin,
        afio_spi: AfioPeripheral,
    ) -> (p: SpiBusPorts)
        requires
            pa4@.bank == BankId::A,
            pa4@.pin == 4,
            pa4@.cnf == PinCnf::PinCnf2,
            pa5@.bank == BankId::A,
            pa5@.pin == 5,
            pa5@.cnf == PinCnf::PinCnf2,
            pa6@.bank == BankId::A,
            pa6@.pin == 6,
            pa6@.mode == PinMode::Input,
            pa6@.cnf == PinCnf::PinCnf1,
            pa7@.bank == BankId::A,
            pa7@.pin == 7,
            pa7@.cnf == PinCnf::PinCnf2,
            afio_spi@.periph == RemapPeriph::Spi1,
            afio_spi@.state == RemapState::NotRemapped,
        ensures
            p.spec_spi() == SpiId::Spi1,
            p.spec_remapped() == RemapState::NotRemapped,
    {
        SpiBusPorts { spi: SpiId::Spi1, remapped: RemapState::NotRemapped }
    }

    /// Wire SPI1 to its remapped pins: NSS on A15, SCK on B3, MISO on
    /// B4 as a floating input, MOSI on B5, with proof that the remap
    /// bit was set.  Without that proof — with a token committed to the
    /// normal mapping — this wiring cannot be expressed.
    pub fn ports_remapped(
        pa15: GpioPin,
        pb3: GpioPin,
        pb4: GpioPin,
        pb5: GpioPin,
        afio_spi: AfioPeripheral,
    ) -> (p: SpiBusPorts)
        requires
            pa15@.bank == BankId::A,
            pa15@.pin == 15,
            pa15@.cnf == PinCnf::PinCnf2,
            pb3@.bank == BankId::B,
            pb3@.pin == 3,
            pb3@.cnf == PinCnf::PinCnf2,
            pb4@.bank == BankId::B,
            pb4@.pin == 4,
            pb4@.mode == PinMode::Input,
            pb4@.cnf == PinCnf::PinCnf1,
            pb5@.bank == BankId::B,
            pb5@.pin == 5,
            pb5@.cnf == PinCnf::PinCnf2,
            afio_spi@.periph == RemapPeriph::Spi1,
            afio_spi@.state == RemapState::Remapped,
        ensures
            p.spec_spi() == SpiId::Spi1,
            p.spec_remapped() == RemapState::Remapped,
    {
        SpiBusPorts { spi: SpiId::Spi1, remapped: RemapState::Remapped }
    }

    /// Wire SPI2 to its fixed pins: NSS on B12, SCK on B13, MISO on
    /// B14 as a floating input, MOSI on B15.  SPI2 has no alternate
    /// mapping, so no remap token is involved and the ports count as
    /// wired under the normal mapping.
    pub fn ports_spi2(pb12: GpioPin, pb13: GpioPin, pb14: GpioPin, pb15: GpioPin) -> (p:
        SpiBusPorts)
        requires
            pb12@.bank == BankId::B,
            pb12@.pin == 12,
            pb12@.cnf == PinCnf::PinCnf2,
            pb13@.bank == BankId::B,
            pb13@.pin == 13,
            pb13@.cnf == PinCnf::PinCnf2,
            pb14@.bank == BankId::B,
            pb14@.pin == 14,
            pb14@.mode == PinMode::Input,
            pb14@.cnf == PinCnf::PinCnf1,
            pb15@.bank == BankId::B,
            pb15@.pin == 15,
            pb15@.cnf == PinCnf::PinCnf2,
        ensures
            p.spec_spi() == SpiId::Spi2,
            p.spec_remapped() == RemapState::NotRemapped,
    {
        SpiBusPorts { spi: SpiId::Spi2, remapped: RemapState::NotRemapped }
    }

    /// Initialize an SPI instance as master: enable the slave-select
    /// output, then program phase, polarity, master mode and the baud
    /// prescaler for the requested rate in one control-register write.
    /// The prescaler divides the instance's own bus clock: APB2 for
    /// SPI1, APB1 for SPI2.
    ///
    /// Demands the wired ports, the instance's enabled clock gate and
    /// the frozen clocks; a rate above the bus clock is refused by
    /// precondition.  The peripheral-enable bit stays clear until
    /// [`Spi::enable`].
    pub fn new(ports: SpiBusPorts, gate: RccPeripheral, freq: u32, clocks: Clocks) -> (spi: Spi)
        requires
            gate.spec_enabled(),
            gate.spec_id() == spec_spi_gate(ports.spec_spi()),
            clocks.wf(),
            1 <= freq <= spec_spi_busclk(ports.spec_spi(), clocks@),
        ensures
            spi.wf(),
            spi@.id == ports.spec_spi(),
            spi@.remapped == ports.spec_remapped(),
            spi@.cr1 == SPI_CR1_CPHA | SPI_CR1_CPOL | SPI_CR1_MSTR | (spec_spi_br_bits(
                spec_spi_busclk(ports.spec_spi(), clocks@) as int / freq as int,
            ) << 3u32),
            spi@.cr2 == SPI_CR2_SSOE,
            spi@.sr_feed == Seq::<(u32, u8)>::empty(),
            spi@.sr_pos == 0,
            spi@.sent == Seq::<u8>::empty(),
    {
        let cr2: u32 = SPI_CR2_SSOE;
        let busclk = match ports.spi {
            SpiId::Spi1 => clocks.pclk2(),
            SpiId::Spi2 => clocks.pclk1(),
        };
        let br = spi_br_bits(busclk / freq);
        let cr1: u32 = SPI_CR1_CPHA | SPI_CR1_CPOL | SPI_CR1_MSTR | (br << 3u32);
        Spi {
            id: ports.spi,
            remapped: ports.remapped,
            cr1,
            cr2,
            sr_feed: Vec::new(),
            sr_pos: 0,
            sent: Vec::new(),
        }
    }

    /// Select which interrupts fire: the transmit and receive interrupt
    /// enables follow the two flags, and the error interrupt is always
    /// enabled.
    pub fn listen(&mut self, tx: bool, rx: bool)
        ensures
            ({
                let w1 = if tx {
                    old(self)@.cr2 | SPI_CR2_TXEIE
                } else {
                    old(self)@.cr2 & !SPI_CR2_TXEIE
                };
                let w2 = if rx {
                    w1 | SPI_CR2_RXNEIE
                } else {
                    w1 & !SPI_CR2_RXNEIE
                };
                final(self)@ == (SpiView { cr2: w2 | SPI_CR2_ERRIE, ..old(self)@ })
            }),
    {
        let w1 = if tx {
            self.cr2 | SPI_CR2_TXEIE
        } else {
            self.cr2 & !SPI_CR2_TXEIE
        };
        let w2 = if rx {
            w1 | SPI_CR2_RXNEIE
        } else {
            w1 & !SPI_CR2_RXNEIE
        };
        self.cr2 = w2 | SPI_CR2_ERRIE;
    }

    /// Disable the bus: clears the peripheral-enable bit, driving the
    /// slave-select pin high.
    pub fn disable(&mut self)
        ensures
            final(self)@ == (SpiView { cr1: old(self)@.cr1 & !SPI_CR1_SPE, ..old(self)@ }),
    {
        self.cr1 = self.cr1 & !SPI_CR1_SPE;
    }

    /// Enable the bus: sets the peripheral-enable bit, driving the
    /// slave-select pin low.
    pub fn enable(&mut self)
        ensures
            final(self)@ == (SpiView { cr1: old(self)@.cr1 | SPI_CR1_SPE, ..old(self)@ }),
    {
        self.cr1 = self.cr1 | SPI_CR1_SPE;
    }

    /// Script the next paired status/data reading the hardware will
    /// report.
    pub fn feed_status(&mut self, sr: u32, dr: u8)
        ensures
            final(self)@ == (SpiView { sr_feed: old(self)@.sr_feed.push((sr, dr)), ..old(self)@ }),
    {
        self.sr_feed.push((sr, dr));
    }

    /// The bytes handed to the data register so far, in order.
    pub fn sent(&self) -> (r: &Vec<u8>)
        ensures
            r@ == self@.sent,
    {
        &self.sent
    }

    /// Current value of the first control register.
    pub fn cr1(&self) -> (r: u32)
        ensures
            r == self@.cr1,
    {
        self.cr1
    }

    /// Current value of the second control register.
    pub fn cr2(&self) -> (r: u32)
        ensures
            r == self@.cr2,
    {
        self.cr2
    }

    /// One non-blocking read probe: consume the next scripted reading
    /// and classify it; with the script exhausted the hardware is
    /// silent and the probe reports "not yet".
    pub fn read(&mut self) -> (r: Probe<u8, Error>)
        requires
            old(self).wf(),
        ensures
            final(self).wf(),
            ({
                let v = old(self)@;
                if v.sr_pos < v.sr_feed.len() {
                    &&& r == spec_spi_read(v.sr_feed[v.sr_pos].0, v.sr_feed[v.sr_pos].1)
                    &&& final(self)@ == (SpiView { sr_pos: v.sr_pos + 1, ..v })
                } else {
                    &&& r == Probe::<u8, Error>::NotYet
                    &&& final(self)@ == v
                }
            }),
    {
        if self.sr_pos < self.sr_feed.len() {
            let (sr, dr) = self.sr_feed[self.sr_pos];
            self.sr_pos = self.sr_pos + 1;
            classify_read(sr, dr)
        } else {
            Probe::NotYet
        }
    }

    /// One non-blocking send probe: consume the next scripted reading;
    /// when it reports readiness, hand `byte` to the data register.
    /// With the script exhausted the hardware is silent and the probe
    /// reports "not yet".
    pub fn send(&mut self, byte: u8) -> (r: Probe<(), Error>)
        requires
            old(self).wf(),
        ensures
            final(self).wf(),
            ({
                let v = old(self)@;
                if v.sr_pos < v.sr_feed.len() {
                    &&& r == spec_spi_send(v.sr_feed[v.sr_pos].0)
                    &&& (r is Complete ==> final(self)@ == (SpiView {
                        sr_pos: v.sr_pos + 1,
                        sent: v.sent.push(byte),
                        ..v
                    }))
                    &&& (!(r is Complete) ==> final(self)@ == (SpiView {
                        sr_pos: v.sr_pos + 1,
                        ..v
                    }))
                } else {
                    &&& r == Probe::<(), Error>::NotYet
                    &&& final(self)@ == v
                }
            }),
    {
        if self.sr_pos < self.sr_feed.len() {
            let (sr, _dr) = self.sr_feed[self.sr_pos];
            self.sr_pos = self.sr_pos + 1;
            match classify_send(sr) {
                Probe::Complete(_) => {
                    self.sent.push(byte);
                    Probe::Complete(())
                },
                Probe::Fault(e) => Probe::Fault(e),
                Probe::NotYet => Probe::NotYet,
            }
        } else {
            Probe::NotYet
        }
    }
}

} // verus!
