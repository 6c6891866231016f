//! Universal serial receiver/transmitter core.
//!
//! After construction the instance splits into independent transmit and
//! receive halves, so the two directions can be driven from different
//! execution contexts without shared mutable state.  Each half owns its
//! own script of status (and, for the receiver, data) readings and
//! exposes single non-blocking probes over them.
//!
//! Pin assignment: USART1 transmits on A9 and receives on A10, or on
//! B6 and B7 when remapped.

use vstd::prelude::*;
use crate::afio::{AfioPeripheral, RemapPeriph, RemapState};
use crate::common::Probe;
use crate::gpio::{spec_is_output, BankId, GpioPin, PinCnf, PinMode};
use crate::rcc::{Clocks, PeripheralId, RccPeripheral};

verus! {

/// Parity-error bit of the status register.
pub const USART_SR_PE: u32 = 0x01;

/// Framing-error bit of the status register.
pub const USART_SR_FE: u32 = 0x02;

/// Noise-error bit of the status register.
pub const USART_SR_NE: u32 = 0x04;

/// Overrun bit of the status register.
pub const USART_SR_ORE: u32 = 0x08;

/// Receive-buffer-not-empty bit of the status register.
pub const USART_SR_RXNE: u32 = 0x20;

/// Transmit-buffer-empty bit of the status register.
pub const USART_SR_TXE: u32 = 0x80;

/// Receiver-enable bit of the first control register.
pub const USART_CR1_RE: u32 = 0x04;

/// Transmitter-enable bit of the first control register.
pub const USART_CR1_TE: u32 = 0x08;

/// Receive-interrupt-enable bit of the first control register.
pub const USART_CR1_RXNEIE: u32 = 0x20;

/// Transmit-interrupt-enable bit of the first control register.
pub const USART_CR1_TXEIE: u32 = 0x80;

/// Peripheral-enable bit of the first control register.
pub const USART_CR1_UE: u32 = 0x2000;

/// Receive-DMA-enable bit of the third control register.
pub const USART_CR3_DMAR: u32 = 0x40;

/// Transmit-DMA-enable bit of the third control register.
pub const USART_CR3_DMAT: u32 = 0x80;

/// Interrupt events a caller can listen for.
#[derive(Clone, Copy, PartialEq, Eq, Structural, Debug)]
pub enum Event {
    /// New data has been received.
    Rxne,
    /// New data can be sent.
    Txe,
}

/// The hardware fault conditions a receive probe can surface.
#[derive(Clone, Copy, PartialEq, Eq, Structural, Debug)]
pub enum Error {
    /// Framing error.
    Framing,
    /// Noise error.
    Noise,
    /// Receive buffer overrun.
    Overrun,
    /// Parity check error.
    Parity,
}

/// The USART instances this crate clocks.
#[derive(Clone, Copy, PartialEq, Eq, Structural, Debug)]
pub enum UsartId {
    Usart1,
    Usart2,
}

/// The clock gate that feeds a USART instance.
pub open spec fn spec_usart_gate(id: UsartId) -> PeripheralId {
    match id {
        UsartId::Usart1 => PeripheralId::Usart1,
        UsartId::Usart2 => PeripheralId::Usart2,
    }
}

/// What one probe of a paired status/data reading yields on the
/// receive side: the fault bits in priority order, then a received
/// byte.
pub open spec fn spec_usart_read(sr: u32, dr: u8) -> Probe<u8, Error> {
    if sr & USART_SR_PE != 0 {
        Probe::Fault(Error::Parity)
    } else if sr & USART_SR_FE != 0 {
        Probe::Fault(Error::Framing)
    } else if sr & USART_SR_NE != 0 {
        Probe::Fault(Error::Noise)
    } else if sr & USART_SR_ORE != 0 {
        Probe::Fault(Error::Overrun)
    } else if sr & USART_SR_RXNE != 0 {
        Probe::Complete(dr)
    } else {
        Probe::NotYet
    }
}

/// Whether a status reading lets the transmitter take a byte.
pub open spec fn spec_usart_tx_ready(sr: u32) -> bool {
    sr & USART_SR_TXE != 0
}

/// Classify one status/data reading on the receive side.
pub fn classify_read(sr: u32, dr: u8) -> (r: Probe<u8, Error>)
    ensures
        r == spec_usart_read(sr, dr),
{
    if sr & USART_SR_PE != 0 {
        Probe::Fault(Error::Parity)
    } else if sr & USART_SR_FE != 0 {
        Probe::Fault(Error::Framing)
    } else if sr & USART_SR_NE != 0 {
        Probe::Fault(Error::Noise)
    } else if sr & USART_SR_ORE != 0 {
        Probe::Fault(Error::Overrun)
    } else if sr & USART_SR_RXNE != 0 {
        Probe::Complete(dr)
    } else {
        Probe::NotYet
    }
}

/// Whether the transmitter can take a byte now.
pub fn tx_ready(sr: u32) -> (r: bool)
    ensures
        r == spec_usart_tx_ready(sr),
{
    sr & USART_SR_TXE != 0
}

/// Evidence that a specific, fixed set of pins is wired as one USART
/// instance needs, under a committed remap choice.
pub struct UsartBusPorts {
    usart: UsartId,
    remapped: RemapState,
}

impl UsartBusPorts {
    /// The instance these ports serve.
    pub closed spec fn spec_usart(&self) -> UsartId {
        self.usart
    }

    /// The committed remap choice they were wired under.
    pub closed spec fn spec_remapped(&self) -> RemapState {
        self.remapped
    }
}

/// Mathematical view of the transmit half.
pub struct UsartTxView {
    pub id: UsartId,
    pub remapped: RemapState,
    pub sr_feed: Seq<u32>,
    pub sr_pos: int,
    pub sent: Seq<u8>,
}

/// The transmit half: its own status script and the log of bytes
/// handed to the data register.
pub struct UsartTx {
    id: UsartId,
    remapped: RemapState,
    sr_feed: Vec<u32>,
    sr_pos: usize,
    sent: Vec<u8>,
}

impl View for UsartTx {
    type V = UsartTxView;

    closed spec fn view(&self) -> UsartTxView {
        UsartTxView {
            id: self.id,
            remapped: self.remapped,
            sr_feed: self.sr_feed@,
            sr_pos: self.sr_pos as int,
            sent: self.sent@,
        }
    }
}

/// Mathematical view of the receive half.
pub struct UsartRxView {
    pub id: UsartId,
    pub remapped: RemapState,
    pub feed: Seq<(u32, u8)>,
    pub pos: int,
}

/// The receive half: its own script of paired status/data readings.
pub struct UsartRx {
    id: UsartId,
    remapped: RemapState,
    feed: Vec<(u32, u8)>,
    pos: usize,
}

impl View for UsartRx {
    type V = UsartRxView;

    closed spec fn view(&self) -> UsartRxView {
        UsartRxView {
            id: self.id,
            remapped: self.remapped,
            feed: self.feed@,
            pos: self.pos as int,
        }
    }
}

/// One write to a configuration register of the instance, with the
/// value written.  The constructor's contract pins the order of these:
/// DMA and timing first, the write that carries the peripheral enable
/// last.
#[derive(Clone, Copy, PartialEq, Eq, Structural, Debug)]
pub enum UsartConfigWrite {
    Cr3(u32),
    Brr(u32),
    Cr1(u32),
}

/// Mathematical view of a USART instance.
pub struct UsartView {
    pub id: UsartId,
    pub remapped: RemapState,
    pub cr1: u32,
    pub cr3: u32,
    pub brr: u32,
    pub cfg: Seq<UsartConfigWrite>,
}

/// A USART peripheral instance: owns the register model of one
/// instance, wired and clocked by construction.
pub struct Usart {
    id: UsartId,
    remapped: RemapState,
    cr1: u32,
    cr3: u32,
    brr: u32,
    cfg: Vec<UsartConfigWrite>,
}

impl View for Usart {
    type V = UsartView;

    closed spec fn view(&self) -> UsartView {
        UsartView {
            id: self.id,
            remapped: self.remapped,
            cr1: self.cr1,
            cr3: self.cr3,
            brr: self.brr,
            cfg: self.cfg@,
        }
    }
}

impl Usart {
    /// Wire USART1 to its normal pins: transmit on A9 as an
    /// alternate-function push-pull output, receive on A10 as a
    /// floating input, with proof that the remap choice fell on the
    /// normal mapping.
    pub fn ports_normal(pa9_tx: GpioPin, pa10_rx: GpioPin, afio: AfioPeripheral) -> (p:
        UsartBusPorts)
        requires
            pa9_tx@.bank == BankId::A,
            pa9_tx@.pin == 9,
            spec_is_output(pa9_tx@.mode),
            pa9_tx@.cnf == PinCnf::PinCnf2,
            pa10_rx@.bank == BankId::A,
            pa10_rx@.pin == 10,
            pa10_rx@.mode == PinMode::Input,
            pa10_rx@.cnf == PinCnf::PinCnf1,
            afio@.periph == RemapPeriph::Usart1,
            afio@.state == RemapState::NotRemapped,
        ensures
            p.spec_usart() == UsartId::Usart1,
            p.spec_remapped() == RemapState::NotRemapped,
    {
        UsartBusPorts { usart: UsartId::Usart1, remapped: RemapState::NotRemapped }
    }

    /// Wire USART1 to its remapped pins: transmit on B6, receive on
    /// B7, with proof that the remap bit was set.
    pub fn ports_remapped(pb6_tx: GpioPin, pb7_rx: GpioPin, afio: AfioPeripheral) -> (p:
        UsartBusPorts)
        requires
            pb6_tx@.bank == BankId::B,
            pb6_tx@.pin == 6,
            spec_is_output(pb6_tx@.mode),
            pb6_tx@.cnf == PinCnf::PinCnf2,
            pb7_rx@.bank == BankId::B,
            pb7_rx@.pin == 7,
            pb7_rx@.mode == PinMode::Input,
            pb7_rx@.cnf == PinCnf::PinCnf1,
            afio@.periph == RemapPeriph::Usart1,
            afio@.state == RemapState::Remapped,
        ensures
            p.spec_usart() == UsartId::Usart1,
            p.spec_remapped() == RemapState::Remapped,
    {
        UsartBusPorts { usart: UsartId::Usart1, remapped: RemapState::Remapped }
    }

    /// Initialize a USART instance: enable both DMA directions,
    /// program the baud-rate divider from the bus clock, then enable
    /// the peripheral with receiver and transmitter in one write.
    ///
    /// Demands the wired ports, the instance's enabled clock gate and
    /// the frozen clocks; a baud rate whose divider is not above 16 is
    /// impossible for the hardware and refused by precondition.
    pub fn new(ports: UsartBusPorts, gate: RccPeripheral, baud_rate: u32, clocks: Clocks) -> (u:
        Usart)
        requires
            gate.spec_enabled(),
            gate.spec_id() == spec_usart_gate(ports.spec_usart()),
            clocks.wf(),
            1 <= baud_rate,
            clocks@.pclk2 as int / baud_rate as int > 16,
        ensures
            u@.id == ports.spec_usart(),
            u@.remapped == ports.spec_remapped(),
            u@.cr3 == USART_CR3_DMAT | USART_CR3_DMAR,
            u@.brr == clocks@.pclk2 as int / baud_rate as int,
            u@.cr1 == USART_CR1_UE | USART_CR1_RE | USART_CR1_TE,
            u@.cfg == seq![
                UsartConfigWrite::Cr3(u@.cr3),
                UsartConfigWrite::Brr(u@.brr),
                UsartConfigWrite::Cr1(u@.cr1),
            ],
    {
        let cr3: u32 = USART_CR3_DMAT | USART_CR3_DMAR;
        let brr: u32 = clocks.pclk2() / baud_rate;
        let cr1: u32 = USART_CR1_UE | USART_CR1_RE | USART_CR1_TE;
        let mut cfg: Vec<UsartConfigWrite> = Vec::new();
        cfg.push(UsartConfigWrite::Cr3(cr3));
        cfg.push(UsartConfigWrite::Brr(brr));
        cfg.push(UsartConfigWrite::Cr1(cr1));
        proof {
            assert(cfg@ =~= seq![
                UsartConfigWrite::Cr3(cr3),
                UsartConfigWrite::Brr(brr),
                UsartConfigWrite::Cr1(cr1),
            ]);
        }
        Usart { id: ports.usart, remapped: ports.remapped, cr1, cr3, brr, cfg }
    }

    /// Enable the interrupt for one event: one read-modify-write of
    /// the first control register.
    pub fn listen(&mut self, event: Event)
        ensures
            event == Event::Rxne ==> ({
                let nv = old(self)@.cr1 | USART_CR1_RXNEIE;
                final(self)@ == (UsartView {
                    cr1: nv,
                    cfg: old(self)@.cfg.push(UsartConfigWrite::Cr1(nv)),
                    ..old(self)@
                })
            }),
            event == Event::Txe ==> ({
                let nv = old(self)@.cr1 | USART_CR1_TXEIE;
                final(self)@ == (UsartView {
                    cr1: nv,
                    cfg: old(self)@.cfg.push(UsartConfigWrite::Cr1(nv)),
                    ..old(self)@
                })
            }),
    {
        let nv = match event {
            Event::Rxne => self.cr1 | USART_CR1_RXNEIE,
            Event::Txe => self.cr1 | USART_CR1_TXEIE,
        };
        self.cr1 = nv;
        self.cfg.push(UsartConfigWrite::Cr1(nv));
    }

    /// Disable the interrupt for one event: one read-modify-write of
    /// the first control register.
    pub fn unlisten(&mut self, event: Event)
        ensures
            event == Event::Rxne ==> ({
                let nv = old(self)@.cr1 & !USART_CR1_RXNEIE;
                final(self)@ == (UsartView {
                    cr1: nv,
                    cfg: old(self)@.cfg.push(UsartConfigWrite::Cr1(nv)),
                    ..old(self)@
                })
            }),
            event == Event::Txe ==> ({
                let nv = old(self)@.cr1 & !USART_CR1_TXEIE;
                final(self)@ == (UsartView {
                    cr1: nv,
                    cfg: old(self)@.cfg.push(UsartConfigWrite::Cr1(nv)),
                    ..old(self)@
                })
            }),
    {
        let nv = match event {
            Event::Rxne => self.cr1 & !USART_CR1_RXNEIE,
            Event::Txe => self.cr1 & !USART_CR1_TXEIE,
        };
        self.cr1 = nv;
        self.cfg.push(UsartConfigWrite::Cr1(nv));
    }

    /// The configuration-register writes issued so far, in order.
    pub fn config_log(&self) -> (r: &Vec<UsartConfigWrite>)
        ensures
            r@ == self@.cfg,
    {
        &self.cfg
    }

    /// Split the instance into its independent transmit and receive
    /// halves, each starting with an empty script.
    pub fn split(self) -> (r: (UsartTx, UsartRx))
        ensures
            r.0@ == (UsartTxView {
                id: self@.id,
                remapped: self@.remapped,
                sr_feed: Seq::<u32>::empty(),
                sr_pos: 0,
                sent: Seq::<u8>::empty(),
            }),
            r.1@ == (UsartRxView {
                id: self@.id,
                remapped: self@.remapped,
                feed: Seq::<(u32, u8)>::empty(),
                pos: 0,
            }),
    {
        (
            UsartTx {
                id: self.id,
                remapped: self.remapped,
                sr_feed: Vec::new(),
                sr_pos: 0,
                sent: Vec::new(),
            },
            UsartRx { id: self.id, remapped: self.remapped, feed: Vec::new(), pos: 0 },
        )
    }

    /// Current value of the first control register.
    pub fn cr1(&self) -> (r: u32)
        ensures
            r == self@.cr1,
    {
        self.cr1
    }

    /// Current value of the third control register.
    pub fn cr3(&self) -> (r: u32)
        ensures
            r == self@.cr3,
    {
        self.cr3
    }

    /// Current value of the baud-rate register.
    pub fn brr(&self) -> (r: u32)
        ensures
            r == self@.brr,
    {
        self.brr
    }
}

impl UsartTx {
    /// The script position stays inside the script.
    pub open spec fn wf(&self) -> bool {
        0 <= self@.sr_pos <= self@.sr_feed.len()
    }

    /// Script the next status reading the hardware will report to the
    /// transmit half.
    pub fn feed_status(&mut self, sr: u32)
        ensures
            final(self)@ == (UsartTxView { sr_feed: old(self)@.sr_feed.push(sr), ..old(self)@ }),
    {
        self.sr_feed.push(sr);
    }

    /// The bytes handed to the data register so far, in order.
    pub fn sent(&self) -> (r: &Vec<u8>)
        ensures
            r@ == self@.sent,
    {
        &self.sent
    }

    /// One non-blocking probe for the transmitter being idle: consumes
    /// the next scripted reading.  Never faults: the transmit direction
    /// has no error condition.
    pub fn flush(&mut self) -> (r: Probe<(), Error>)
        requires
            old(self).wf(),
        ensures
            final(self).wf(),
            ({
                let v = old(self)@;
                if v.sr_pos < v.sr_feed.len() {
                    &&& final(self)@ == (UsartTxView { sr_pos: v.sr_pos + 1, ..v })
                    &&& (spec_usart_tx_ready(v.sr_feed[v.sr_pos]) ==> r == Probe::<
                        (),
                        Error,
                    >::Complete(()))
                    &&& (!spec_usart_tx_ready(v.sr_feed[v.sr_pos]) ==> r == Probe::<
                        (),
                        Error,
                    >::NotYet)
                } else {
                    &&& r == Probe::<(), Error>::NotYet
                    &&& final(self)@ == v
                }
            }),
    {
        if self.sr_pos < self.sr_feed.len() {
            let sr = self.sr_feed[self.sr_pos];
            self.sr_pos = self.sr_pos + 1;
            if tx_ready(sr) {
                Probe::Complete(())
            } else {
                Probe::NotYet
            }
        } else {
            Probe::NotYet
        }
    }

    /// One non-blocking send probe: consume the next scripted reading;
    /// when the transmit buffer is empty, hand `byte` to the data
    /// register.  Never faults.
    pub fn write(&mut self, byte: u8) -> (r: Probe<(), Error>)
        requires
            old(self).wf(),
        ensures
            final(self).wf(),
            ({
                let v = old(self)@;
                if v.sr_pos < v.sr_feed.len() {
                    &&& (spec_usart_tx_ready(v.sr_feed[v.sr_pos]) ==> r == Probe::<
                        (),
                        Error,
                    >::Complete(()) && final(self)@ == (UsartTxView {
                        sr_pos: v.sr_pos + 1,
                        sent: v.sent.push(byte),
                        ..v
                    }))
                    &&& (!spec_usart_tx_ready(v.sr_feed[v.sr_pos]) ==> r == Probe::<
                        (),
                        Error,
                    >::NotYet && final(self)@ == (UsartTxView { sr_pos: v.sr_pos + 1, ..v }))
                } else {
                    &&& r == Probe::<(), Error>::NotYet
                    &&& final(self)@ == v
                }
            }),
    {
        if self.sr_pos < self.sr_feed.len() {
            let sr = self.sr_feed[self.sr_pos];
            self.sr_pos = self.sr_pos + 1;
            if tx_ready(sr) {
                self.sent.push(byte);
                Probe::Complete(())
            } else {
                Probe::NotYet
            }
        } else {
            Probe::NotYet
        }
    }
}

impl UsartRx {
    /// The script position stays inside the script.
    pub open spec fn wf(&self) -> bool {
        0 <= self@.pos <= self@.feed.len()
    }

    /// Script the next paired status/data reading the hardware will
    /// report to the receive half.
    pub fn feed_status(&mut self, sr: u32, dr: u8)
        ensures
            final(self)@ == (UsartRxView { feed: old(self)@.feed.push((sr, dr)), ..old(self)@ }),
    {
        self.feed.push((sr, dr));
    }

    /// One non-blocking receive probe: consume the next scripted
    /// reading and classify it — the fault bits in priority order,
    /// then a received byte.  With the script exhausted the hardware
    /// is silent and the probe reports "not yet".
    pub fn read(&mut self) -> (r: Probe<u8, Error>)
        requires
            old(self).wf(),
        ensures
            final(self).wf(),
            ({
                let v = old(self)@;
                if v.pos < v.feed.len() {
                    &&& r == spec_usart_read(v.feed[v.pos].0, v.feed[v.pos].1)
                    &&& final(self)@ == (UsartRxView { pos: v.pos + 1, ..v })
                } else {
                    &&& r == Probe::<u8, Error>::NotYet
                    &&& final(self)@ == v
                }
            }),
    {
        if self.pos < self.feed.len() {
            let (sr, dr) = self.feed[self.pos];
            self.pos = self.pos + 1;
            classify_read(sr, dr)
        } else {
            Probe::NotYet
        }
    }
}

} // verus!
