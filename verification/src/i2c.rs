//! I2C bus core.
//!
//! The peripheral instance owns a model of the I2C register block: the
//! configuration registers, a script of status-register readings that
//! stands for what the hardware will report (fed by the caller), a
//! script of data-register bytes for the receive direction, and the
//! ordered log of bus operations issued.  The non-blocking status
//! probes consume one scripted reading each; the composite `write` and
//! `write_read` transactions are verified against a specification-level
//! interpreter of the same script, so the exact operation sequence they
//! issue — and the exact point at which a hardware fault aborts them —
//! is pinned down for every script.
//!
//! Pin assignment: I2C1 drives SCL on B6 and SDA on B7, or B8 and B9
//! when remapped.

use vstd::prelude::*;
use crate::afio::{AfioPeripheral, RemapPeriph, RemapState};
use crate::common::Probe;
use crate::gpio::{spec_is_output, BankId, GpioPin, PinCnf};
use crate::rcc::{Clocks, PeripheralId, RccPeripheral};

verus! {

/// Start-condition-sent bit of the first status register.
pub const I2C_SR1_SB: u32 = 0x0001;

/// Address-sent bit of the first status register.
pub const I2C_SR1_ADDR: u32 = 0x0002;

/// Receive-buffer-not-empty bit of the first status register.
pub const I2C_SR1_RXNE: u32 = 0x0040;

/// Transmit-buffer-empty bit of the first status register.
pub const I2C_SR1_TXE: u32 = 0x0080;

/// Bus-error bit of the first status register.
pub const I2C_SR1_BERR: u32 = 0x0100;

/// Arbitration-lost bit of the first status register.
pub const I2C_SR1_ARLO: u32 = 0x0200;

/// Acknowledge-failure bit of the first status register.
pub const I2C_SR1_AF: u32 = 0x0400;

/// Overrun bit of the first status register.
pub const I2C_SR1_OVR: u32 = 0x0800;

/// Timeout bit of the first status register.
pub const I2C_SR1_TIMEOUT: u32 = 0x4000;

/// Start bit of the first control register.
pub const I2C_CR1_START: u32 = 0x0100;

/// Stop bit of the first control register.
pub const I2C_CR1_STOP: u32 = 0x0200;

/// Acknowledge-enable bit of the first control register.
pub const I2C_CR1_ACK: u32 = 0x0400;

/// Peripheral-enable bit of the first control register.
pub const I2C_CR1_PE: u32 = 0x0001;

/// Error-interrupt-enable bit of the second control register.
pub const I2C_CR2_ITERREN: u32 = 0x0100;

/// Event-interrupt-enable bit of the second control register.
pub const I2C_CR2_ITEVTEN: u32 = 0x0200;

/// Fast-mode bit of the clock control register.
pub const I2C_CCR_FS: u32 = 0x8000;

/// Duty-cycle bit of the clock control register.
pub const I2C_CCR_DUTY: u32 = 0x4000;

/// The hardware fault conditions an I2C status probe can surface.
#[derive(Clone, Copy, PartialEq, Eq, Structural, Debug)]
pub enum Error {
    /// Timeout failure: a bus line was held low for too long.
    Timeout,
    /// Acknowledge failure: no acknowledge was returned.
    AF,
    /// Arbitration to the bus was lost to another master.
    ARLO,
    /// Overrun or underrun of the data register.
    OVR,
    /// Bus error: misplaced start or stop condition.
    BERR,
}

impl Error {
    /// A short name for the fault, for messages.
    pub fn describe(&self) -> (r: &'static str)
        ensures
            self == Error::Timeout ==> r@ == "Timeout"@,
            self == Error::AF ==> r@ == "AF"@,
            self == Error::ARLO ==> r@ == "ARLO"@,
            self == Error::OVR ==> r@ == "OVR"@,
            self == Error::BERR ==> r@ == "BERR"@,
    {
        match self {
            Error::Timeout => "Timeout",
            Error::AF => "AF",
            Error::ARLO => "ARLO",
            Error::OVR => "OVR",
            Error::BERR => "BERR",
        }
    }
}

/// The two I2C instances.
#[derive(Clone, Copy, PartialEq, Eq, Structural, Debug)]
pub enum I2cId {
    I2c1,
    I2c2,
}

/// The clock gate that feeds an I2C instance.
pub open spec fn spec_i2c_gate(id: I2cId) -> PeripheralId {
    match id {
        I2cId::I2c1 => PeripheralId::I2c1,
        I2cId::I2c2 => PeripheralId::I2c2,
    }
}

/// Duty cycle of the clock in fast mode.
#[derive(Clone, Copy, PartialEq, Eq, Structural, Debug)]
pub enum I2cDutyCycle {
    Ratio1to1,
    Ratio16to9,
}

/// One bus-level operation the peripheral was commanded to issue, in
/// the order the register writes happened.
#[derive(Clone, Copy, PartialEq, Eq, Structural, Debug)]
pub enum I2cOp {
    /// A start condition was commanded (START bit of CR1).
    Start,
    /// A stop condition was commanded (STOP bit of CR1).
    Stop,
    /// A byte was written to the data register.
    Data(u8),
    /// The second status register was read to clear the address latch.
    ClearAddr,
    /// The acknowledge-enable bit of CR1 was cleared, commanding a
    /// no-acknowledge for the next received byte.
    ClearAck,
    /// A byte was read from the data register.
    Read(u8),
}

// --- the specification-level interpreter of a status script ---

/// The fault a status word reports, if any, checked in the probe's
/// priority order.
pub open spec fn spec_sr1_error(sr1: u32) -> Option<Error> {
    if sr1 & I2C_SR1_TIMEOUT != 0 {
        Some(Error::Timeout)
    } else if sr1 & I2C_SR1_AF != 0 {
        Some(Error::AF)
    } else if sr1 & I2C_SR1_ARLO != 0 {
        Some(Error::ARLO)
    } else if sr1 & I2C_SR1_OVR != 0 {
        Some(Error::OVR)
    } else if sr1 & I2C_SR1_BERR != 0 {
        Some(Error::BERR)
    } else {
        None
    }
}

/// What one probe of a status word yields while waiting for `flag`.
pub open spec fn spec_probe(sr1: u32, flag: u32) -> Probe<(), Error> {
    match spec_sr1_error(sr1) {
        Some(e) => Probe::Fault(e),
        None => if sr1 & flag != 0 {
            Probe::Complete(())
        } else {
            Probe::NotYet
        },
    }
}

/// Whether a status word ends a wait for `flag`, by fault or by the
/// flag being set.
pub open spec fn spec_decisive(sr1: u32, flag: u32) -> bool {
    !(spec_probe(sr1, flag) is NotYet)
}

/// Index of the first scripted status word at or after `from` that
/// ends a wait for `flag`; `None` when the script runs out first.
pub open spec fn spec_scan(feed: Seq<u32>, from: int, flag: u32) -> Option<int>
    decreases feed.len() - from,
{
    if from < 0 || from >= feed.len() {
        None
    } else if spec_decisive(feed[from], flag) {
        Some(from)
    } else {
        spec_scan(feed, from + 1, flag)
    }
}

/// A successful scan lands inside the script, on a decisive word, and
/// skips only indecisive words.
pub proof fn lemma_scan_bounds(feed: Seq<u32>, from: int, flag: u32)
    requires
        spec_scan(feed, from, flag) is Some,
    ensures
        ({
            let i = spec_scan(feed, from, flag)->0;
            &&& from <= i < feed.len()
            &&& spec_decisive(feed[i], flag)
        }),
    decreases feed.len() - from,
{
    if from < 0 || from >= feed.len() {
        assert(false);
    } else if spec_decisive(feed[from], flag) {
    } else {
        lemma_scan_bounds(feed, from + 1, flag);
    }
}

/// Outcome of a modelled transaction phase: the result surfaced to the
/// caller, the bus operations issued, the position in the status script
/// after the phase, the number of bytes taken from the receive script,
/// and whether the acknowledge-enable bit was cleared along the way.
pub struct TxnOutcome {
    pub result: Result<(), Error>,
    pub ops: Seq<I2cOp>,
    pub pos: int,
    pub nread: int,
    pub ack_cleared: bool,
}

/// The addressing phase shared by both composite transactions: command
/// a start, wait for it, write the given address byte (the read/write
/// bit already folded in by the caller), wait for the address
/// acknowledge, then clear the address latch.  `None` when the status
/// script runs out mid-wait.
pub open spec fn spec_addr_phase(feed: Seq<u32>, from: int, abyte: u8) -> Option<TxnOutcome> {
    match spec_scan(feed, from, I2C_SR1_SB) {
        None => None,
        Some(i) => match spec_probe(feed[i], I2C_SR1_SB) {
            Probe::Fault(e) => Some(
                TxnOutcome {
                    result: Err(e),
                    ops: seq![I2cOp::Start],
                    pos: i + 1,
                    nread: 0,
                    ack_cleared: false,
                },
            ),
            _ => match spec_scan(feed, i + 1, I2C_SR1_ADDR) {
                None => None,
                Some(j) => match spec_probe(feed[j], I2C_SR1_ADDR) {
                    Probe::Fault(e) => Some(
                        TxnOutcome {
                            result: Err(e),
                            ops: seq![I2cOp::Start, I2cOp::Data(abyte)],
                            pos: j + 1,
                            nread: 0,
                            ack_cleared: false,
                        },
                    ),
                    _ => Some(
                        TxnOutcome {
                            result: Ok(()),
                            ops: seq![I2cOp::Start, I2cOp::Data(abyte), I2cOp::ClearAddr],
                            pos: j + 1,
                            nread: 0,
                            ack_cleared: false,
                        },
                    ),
                },
            },
        },
    }
}

/// The payload phase of a write: before each byte, wait for the
/// transmit buffer, then write the byte; after the last byte, wait for
/// the transmit buffer once more.  A fault during any wait aborts with
/// no further byte written.
pub open spec fn spec_send_phase(feed: Seq<u32>, from: int, bytes: Seq<u8>) -> Option<TxnOutcome>
    decreases bytes.len(),
{
    match spec_scan(feed, from, I2C_SR1_TXE) {
        None => None,
        Some(i) => match spec_probe(feed[i], I2C_SR1_TXE) {
            Probe::Fault(e) => Some(
                TxnOutcome {
                    result: Err(e),
                    ops: Seq::empty(),
                    pos: i + 1,
                    nread: 0,
                    ack_cleared: false,
                },
            ),
            _ => if bytes.len() == 0 {
                Some(
                    TxnOutcome {
                        result: Ok(()),
                        ops: Seq::empty(),
                        pos: i + 1,
                        nread: 0,
                        ack_cleared: false,
                    },
                )
            } else {
                match spec_send_phase(feed, i + 1, bytes.drop_first()) {
                    None => None,
                    Some(t) => Some(
                        TxnOutcome {
                            result: t.result,
                            ops: seq![I2cOp::Data(bytes[0])] + t.ops,
                            pos: t.pos,
                            nread: 0,
                            ack_cleared: false,
                        },
                    ),
                }
            },
        },
    }
}

/// The front of a read payload: before each of `m` bytes, wait for the
/// receive buffer, then take one byte from the receive script, with no
/// acknowledge handling.  A fault during any wait aborts with no
/// further byte read; `None` when either script runs out.
pub open spec fn spec_recv_front(feed: Seq<u32>, from: int, drs: Seq<u8>, m: int) -> Option<
    TxnOutcome,
>
    decreases m,
{
    if m <= 0 {
        Some(
            TxnOutcome {
                result: Ok(()),
                ops: Seq::empty(),
                pos: from,
                nread: 0,
                ack_cleared: false,
            },
        )
    } else {
        match spec_scan(feed, from, I2C_SR1_RXNE) {
            None => None,
            Some(i) => match spec_probe(feed[i], I2C_SR1_RXNE) {
                Probe::Fault(e) => Some(
                    TxnOutcome {
                        result: Err(e),
                        ops: Seq::empty(),
                        pos: i + 1,
                        nread: 0,
                        ack_cleared: false,
                    },
                ),
                _ => if drs.len() == 0 {
                    None
                } else {
                    match spec_recv_front(feed, i + 1, drs.drop_first(), m - 1) {
                        None => None,
                        Some(t) => Some(
                            TxnOutcome {
                                result: t.result,
                                ops: seq![I2cOp::Read(drs[0])] + t.ops,
                                pos: t.pos,
                                nread: t.nread + 1,
                                ack_cleared: false,
                            },
                        ),
                    }
                },
            },
        }
    }
}

/// The whole read payload of `n` bytes: the first `n - 1` bytes with
/// the acknowledge enabled, then — before the final byte is received —
/// the acknowledge-enable bit cleared so the peripheral signals a
/// no-acknowledge, then the final wait and read.
pub open spec fn spec_recv_phase(feed: Seq<u32>, from: int, drs: Seq<u8>, n: int) -> Option<
    TxnOutcome,
> {
    if n <= 0 {
        Some(
            TxnOutcome {
                result: Ok(()),
                ops: Seq::empty(),
                pos: from,
                nread: 0,
                ack_cleared: false,
            },
        )
    } else {
        match spec_recv_front(feed, from, drs, n - 1) {
            None => None,
            Some(f) => if f.result is Err {
                Some(f)
            } else {
                match spec_scan(feed, f.pos, I2C_SR1_RXNE) {
                    None => None,
                    Some(i) => match spec_probe(feed[i], I2C_SR1_RXNE) {
                        Probe::Fault(e) => Some(
                            TxnOutcome {
                                result: Err(e),
                                ops: f.ops + seq![I2cOp::ClearAck],
                                pos: i + 1,
                                nread: f.nread,
                                ack_cleared: true,
                            },
                        ),
                        _ => if drs.len() < n {
                            None
                        } else {
                            Some(
                                TxnOutcome {
                                    result: Ok(()),
                                    ops: f.ops + seq![I2cOp::ClearAck, I2cOp::Read(drs[n - 1])],
                                    pos: i + 1,
                                    nread: f.nread + 1,
                                    ack_cleared: true,
                                },
                            )
                        },
                    },
                }
            },
        }
    }
}

/// The whole `write` transaction: the addressing phase, the payload,
/// and — only when everything succeeded — the stop condition.
pub open spec fn spec_write_txn(feed: Seq<u32>, from: int, addr: u8, bytes: Seq<u8>) -> Option<
    TxnOutcome,
> {
    match spec_addr_phase(feed, from, addr & 0xFE) {
        None => None,
        Some(a) => if a.result is Err {
            Some(a)
        } else {
            match spec_send_phase(feed, a.pos, bytes) {
                None => None,
                Some(s) => if s.result is Err {
                    Some(
                        TxnOutcome {
                            result: s.result,
                            ops: a.ops + s.ops,
                            pos: s.pos,
                            nread: 0,
                            ack_cleared: false,
                        },
                    )
                } else {
                    Some(
                        TxnOutcome {
                            result: Ok(()),
                            ops: a.ops + s.ops + seq![I2cOp::Stop],
                            pos: s.pos,
                            nread: 0,
                            ack_cleared: false,
                        },
                    )
                },
            }
        },
    }
}

/// The whole `write_read` transaction: the addressing phase with the
/// read/write bit clear, the write payload, a second addressing phase
/// after a repeated start — this time with the read bit set — the read
/// payload with its acknowledge handling, and — only when everything
/// succeeded — the stop condition.
pub open spec fn spec_write_read_txn(
    feed: Seq<u32>,
    from: int,
    addr: u8,
    bytes: Seq<u8>,
    drs: Seq<u8>,
    n: int,
) -> Option<TxnOutcome> {
    match spec_addr_phase(feed, from, addr & 0xFE) {
        None => None,
        Some(a) => if a.result is Err {
            Some(a)
        } else {
            match spec_send_phase(feed, a.pos, bytes) {
                None => None,
                Some(s) => if s.result is Err {
                    Some(
                        TxnOutcome {
                            result: s.result,
                            ops: a.ops + s.ops,
                            pos: s.pos,
                            nread: 0,
                            ack_cleared: false,
                        },
                    )
                } else {
                    match spec_addr_phase(feed, s.pos, addr | 1) {
                        None => None,
                        Some(a2) => if a2.result is Err {
                            Some(
                                TxnOutcome {
                                    result: a2.result,
                                    ops: a.ops + s.ops + a2.ops,
                                    pos: a2.pos,
                                    nread: 0,
                                    ack_cleared: false,
                                },
                            )
                        } else {
                            match spec_recv_phase(feed, a2.pos, drs, n) {
                                None => None,
                                Some(t) => if t.result is Err {
                                    Some(
                                        TxnOutcome {
                                            result: t.result,
                                            ops: a.ops + s.ops + a2.ops + t.ops,
                                            pos: t.pos,
                                            nread: t.nread,
                                            ack_cleared: t.ack_cleared,
                                        },
                                    )
                                } else {
                                    Some(
                                        TxnOutcome {
                                            result: Ok(()),
                                            ops: a.ops + s.ops + a2.ops + t.ops + seq![
                                                I2cOp::Stop,
                                            ],
                                            pos: t.pos,
                                            nread: t.nread,
                                            ack_cleared: t.ack_cleared,
                                        },
                                    )
                                },
                            }
                        },
                    }
                },
            }
        },
    }
}

/// The data-register writes for a run of payload bytes.
pub open spec fn spec_data_ops(bytes: Seq<u8>) -> Seq<I2cOp> {
    bytes.map_values(|b: u8| I2cOp::Data(b))
}

/// The data-register reads for a run of received bytes.
pub open spec fn spec_read_ops(bytes: Seq<u8>) -> Seq<I2cOp> {
    bytes.map_values(|b: u8| I2cOp::Read(b))
}

/// The full operation sequence of a write transaction that meets no
/// fault: start, address byte, latch clear, every payload byte, stop.
pub open spec fn spec_write_ops_complete(addr: u8, bytes: Seq<u8>) -> Seq<I2cOp> {
    seq![I2cOp::Start, I2cOp::Data(addr & 0xFE), I2cOp::ClearAddr] + spec_data_ops(bytes) + seq![
        I2cOp::Stop,
    ]
}

/// Whatever the payload phase meets in the script, the bytes it issues
/// are the first so-many payload bytes, in order: all of them on
/// success, only those acknowledged before the fault otherwise.
proof fn lemma_send_phase_prefix(feed: Seq<u32>, from: int, bytes: Seq<u8>)
    requires
        spec_send_phase(feed, from, bytes) is Some,
    ensures
        ({
            let s = spec_send_phase(feed, from, bytes)->0;
            &&& (s.result is Ok ==> s.ops == spec_data_ops(bytes))
            &&& (s.result is Err ==> exists|k: int|
                0 <= k <= bytes.len() && s.ops == spec_data_ops(#[trigger] bytes.take(k)))
        }),
    decreases bytes.len(),
{
    let s = spec_send_phase(feed, from, bytes)->0;
    let i = spec_scan(feed, from, I2C_SR1_TXE)->0;
    if spec_probe(feed[i], I2C_SR1_TXE) is Fault {
        assert(s.ops =~= spec_data_ops(bytes.take(0)));
        assert(0 <= 0 <= bytes.len() && s.ops == spec_data_ops(bytes.take(0)));
    } else {
        if bytes.len() == 0 {
            assert(s.ops =~= spec_data_ops(bytes));
        } else {
            lemma_send_phase_prefix(feed, i + 1, bytes.drop_first());
            let inner = spec_send_phase(feed, i + 1, bytes.drop_first())->0;
            if inner.result is Ok {
                assert(seq![I2cOp::Data(bytes[0])] + spec_data_ops(bytes.drop_first())
                    =~= spec_data_ops(bytes));
            } else {
                let k0 = choose|k: int|
                    0 <= k <= bytes.drop_first().len() && inner.ops == spec_data_ops(
                        #[trigger] bytes.drop_first().take(k),
                    );
                assert(seq![I2cOp::Data(bytes[0])] + spec_data_ops(bytes.drop_first().take(k0))
                    =~= spec_data_ops(bytes.take(k0 + 1)));
                assert(0 <= k0 + 1 <= bytes.len() && s.ops == spec_data_ops(bytes.take(k0 + 1)));
            }
        }
    }
}

/// A write transaction never issues an operation beyond the fault-free
/// sequence, and a surfaced fault cuts it short there and then: the
/// operations issued are always a prefix of the fault-free sequence,
/// the whole of it appears exactly on success, and after a fault no
/// stop condition — and so no further payload byte — goes out.
pub proof fn lemma_write_fault_aborts(feed: Seq<u32>, from: int, addr: u8, bytes: Seq<u8>)
    requires
        spec_write_txn(feed, from, addr, bytes) is Some,
    ensures
        ({
            let t = spec_write_txn(feed, from, addr, bytes)->0;
            &&& t.ops.is_prefix_of(spec_write_ops_complete(addr, bytes))
            &&& (t.result is Ok <==> t.ops == spec_write_ops_complete(addr, bytes))
            &&& (t.result is Err ==> !t.ops.contains(I2cOp::Stop))
        }),
{
    let t = spec_write_txn(feed, from, addr, bytes)->0;
    let full = spec_write_ops_complete(addr, bytes);
    let a = spec_addr_phase(feed, from, addr & 0xFE)->0;
    assert(full.len() == 4 + bytes.len()) by {
        assert(spec_data_ops(bytes).len() == bytes.len());
    }
    if a.result is Err {
        let i = spec_scan(feed, from, I2C_SR1_SB)->0;
        if spec_probe(feed[i], I2C_SR1_SB) is Fault {
            assert(t.ops =~= full.subrange(0, 1));
            assert(forall|j: int| 0 <= j < t.ops.len() ==> t.ops[j] != I2cOp::Stop);
        } else {
            assert(t.ops =~= full.subrange(0, 2));
            assert(forall|j: int| 0 <= j < t.ops.len() ==> t.ops[j] != I2cOp::Stop);
        }
    } else {
        let s = spec_send_phase(feed, a.pos, bytes)->0;
        lemma_send_phase_prefix(feed, a.pos, bytes);
        if s.result is Ok {
            assert(t.ops =~= full);
            assert(full.subrange(0, full.len() as int) =~= full);
        } else {
            let k = choose|k: int|
                0 <= k <= bytes.len() && s.ops == spec_data_ops(#[trigger] bytes.take(k));
            assert(t.ops.len() == 3 + k) by {
                assert(spec_data_ops(bytes.take(k)).len() == k);
            }
            assert(t.ops =~= full.subrange(0, 3 + k)) by {
                assert forall|j: int| 0 <= j < 3 + k implies t.ops[j] == full[j] by {
                    if j >= 3 {
                        assert(t.ops[j] == spec_data_ops(bytes.take(k))[j - 3]);
                        assert(full[j] == spec_data_ops(bytes)[j - 3]);
                        assert(spec_data_ops(bytes.take(k))[j - 3] == I2cOp::Data(bytes[j - 3]));
                        assert(spec_data_ops(bytes)[j - 3] == I2cOp::Data(bytes[j - 3]));
                    }
                }
            }
            assert(t.ops.len() < full.len());
            assert(forall|j: int| 0 <= j < t.ops.len() ==> t.ops[j] != I2cOp::Stop);
        }
    }
}

/// Classify one status-register reading while waiting for `flag`: the
/// fault bits, in priority order, then the awaited flag.
pub fn classify_status(sr1: u32, flag: u32) -> (r: Probe<(), Error>)
    ensures
        r == spec_probe(sr1, flag),
{
    if sr1 & I2C_SR1_TIMEOUT != 0 {
        Probe::Fault(Error::Timeout)
    } else if sr1 & I2C_SR1_AF != 0 {
        Probe::Fault(Error::AF)
    } else if sr1 & I2C_SR1_ARLO != 0 {
        Probe::Fault(Error::ARLO)
    } else if sr1 & I2C_SR1_OVR != 0 {
        Probe::Fault(Error::OVR)
    } else if sr1 & I2C_SR1_BERR != 0 {
        Probe::Fault(Error::BERR)
    } else if sr1 & flag != 0 {
        Probe::Complete(())
    } else {
        Probe::NotYet
    }
}

// --- the peripheral instance ---

/// One write to a configuration register of the instance, with the
/// value written.  The constructor's contract pins the order of these:
/// the timing registers first, the peripheral-enable write last.
#[derive(Clone, Copy, PartialEq, Eq, Structural, Debug)]
pub enum I2cConfigWrite {
    Cr2(u32),
    Trise(u32),
    Ccr(u32),
    Cr1(u32),
}

/// Mathematical view of an I2C instance: configuration registers, the
/// ordered log of configuration writes, the two hardware scripts with
/// their read positions, and the bus operation log.
pub struct I2cView {
    pub id: I2cId,
    pub remapped: RemapState,
    pub cr1: u32,
    pub cr2: u32,
    pub ccr: u32,
    pub trise: u32,
    pub cfg: Seq<I2cConfigWrite>,
    pub sr1_feed: Seq<u32>,
    pub sr1_pos: int,
    pub dr_feed: Seq<u8>,
    pub dr_pos: int,
    pub ops: Seq<I2cOp>,
}

/// The parts of the model no transfer operation can change: identity,
/// configuration registers, their write log, and the scripts
/// themselves.
pub open spec fn spec_same_setup(a: I2cView, b: I2cView) -> bool {
    &&& a.id == b.id
    &&& a.remapped == b.remapped
    &&& a.cr2 == b.cr2
    &&& a.ccr == b.ccr
    &&& a.trise == b.trise
    &&& a.cfg == b.cfg
    &&& a.sr1_feed == b.sr1_feed
    &&& a.dr_feed == b.dr_feed
}

/// An I2C peripheral instance: owns the register model of one
/// instance, wired and clocked by construction.
pub struct I2c {
    id: I2cId,
    remapped: RemapState,
    cr1: u32,
    cr2: u32,
    ccr: u32,
    trise: u32,
    cfg: Vec<I2cConfigWrite>,
    sr1_feed: Vec<u32>,
    sr1_pos: usize,
    dr_feed: Vec<u8>,
    dr_pos: usize,
    ops: Vec<I2cOp>,
}

impl View for I2c {
    type V = I2cView;

    closed spec fn view(&self) -> I2cView {
        I2cView {
            id: self.id,
            remapped: self.remapped,
            cr1: self.cr1,
            cr2: self.cr2,
            ccr: self.ccr,
            trise: self.trise,
            cfg: self.cfg@,
            sr1_feed: self.sr1_feed@,
            sr1_pos: self.sr1_pos as int,
            dr_feed: self.dr_feed@,
            dr_pos: self.dr_pos as int,
            ops: self.ops@,
        }
    }
}

/// Evidence that a specific, fixed set of pins is wired as one I2C
/// instance needs, under a committed remap choice.  Purely evidentiary:
/// the pin writes already happened when the tokens were configured.
pub struct I2cBusPorts {
    i2c: I2cId,
    remapped: RemapState,
}

impl I2cBusPorts {
    /// The instance these ports serve.
    pub closed spec fn spec_i2c(&self) -> I2cId {
        self.i2c
    }

    /// The committed remap choice they were wired under.
    pub closed spec fn spec_remapped(&self) -> RemapState {
        self.remapped
    }
}

/// The clock-rate dependent frequency field of the second control
/// register: the bus clock in MHz.
pub open spec fn spec_i2c_freqrange(pclk1: u32) -> int {
    pclk1 as int / 1_000_000
}

/// The rise-time register value: one more than the bus clock in MHz in
/// standard mode, scaled by 300/1000 in fast mode.
pub open spec fn spec_i2c_trise(pclk1: u32, freq: u32) -> int {
    if freq > 100_000 {
        spec_i2c_freqrange(pclk1) + 1
    } else {
        spec_i2c_freqrange(pclk1) * 300 / 1000 + 1
    }
}

/// The clock divider programmed into the CCR field.
pub open spec fn spec_i2c_ccr(pclk1: u32, freq: u32, duty: I2cDutyCycle) -> int {
    if freq > 100_000 {
        pclk1 as int / (freq as int * 2)
    } else {
        let c = if duty == I2cDutyCycle::Ratio1to1 {
            pclk1 as int / (freq as int * 3)
        } else {
            pclk1 as int / (freq as int * 25)
        };
        if c < 1 {
            1
        } else {
            c
        }
    }
}

/// The whole clock control register word: the divider, and in fast mode
/// the mode and duty-cycle bits.
pub open spec fn spec_i2c_ccr_word(pclk1: u32, freq: u32, duty: I2cDutyCycle) -> int {
    if freq > 100_000 {
        spec_i2c_ccr(pclk1, freq, duty)
    } else {
        (I2C_CCR_FS | (if duty == I2cDutyCycle::Ratio16to9 {
            I2C_CCR_DUTY
        } else {
            0u32
        })) + spec_i2c_ccr(pclk1, freq, duty)
    }
}

impl I2c {
    /// Every script position stays inside its script.
    pub open spec fn wf(&self) -> bool {
        &&& 0 <= self@.sr1_pos <= self@.sr1_feed.len()
        &&& 0 <= self@.dr_pos <= self@.dr_feed.len()
    }

    /// Wire I2C1 to its normal pins: SCL on B6 and SDA on B7, both
    /// alternate-function open-drain outputs, with proof that the remap
    /// choice fell on the normal mapping.
    pub fn ports_normal(pb6: GpioPin, pb7: GpioPin, afio_i2c: AfioPeripheral) -> (p: I2cBusPorts)
        requires
            pb6@.bank == BankId::B,
            pb6@.pin == 6,
            spec_is_output(pb6@.mode),
            pb6@.cnf == PinCnf::PinCnf3,
            pb7@.bank == BankId::B,
            pb7@.pin == 7,
            spec_is_output(pb7@.mode),
            pb7@.cnf == PinCnf::PinCnf3,
            afio_i2c@.periph == RemapPeriph::I2c1,
            afio_i2c@.state == RemapState::NotRemapped,
        ensures
            p.spec_i2c() == I2cId::I2c1,
            p.spec_remapped() == RemapState::NotRemapped,
    {
        I2cBusPorts { i2c: I2cId::I2c1, remapped: RemapState::NotRemapped }
    }

    /// Wire I2C1 to its remapped pins: SCL on B8 and SDA on B9, both
    /// alternate-function open-drain outputs, with proof that the remap
    /// bit was set.
    pub fn ports_remapped(pb8: GpioPin, pb9: GpioPin, afio_i2c: AfioPeripheral) -> (p: I2cBusPorts)
        requires
            pb8@.bank == BankId::B,
            pb8@.pin == 8,
            spec_is_output(pb8@.mode),
            pb8@.cnf == PinCnf::PinCnf3,
            pb9@.bank == BankId::B,
            pb9@.pin == 9,
            spec_is_output(pb9@.mode),
            pb9@.cnf == PinCnf::PinCnf3,
            afio_i2c@.periph == RemapPeriph::I2c1,
            afio_i2c@.state == RemapState::Remapped,
        ensures
            p.spec_i2c() == I2cId::I2c1,
            p.spec_remapped() == RemapState::Remapped,
    {
        I2cBusPorts { i2c: I2cId::I2c1, remapped: RemapState::Remapped }
    }

    /// Initialize an I2C instance: program the bus-clock field, the
    /// rise-time register and the clock divider for the requested rate,
    /// then set the peripheral-enable bit last.
    ///
    /// Demands the wired ports, the instance's enabled clock gate and
    /// the frozen clocks; a rate the dividers cannot represent is
    /// refused by precondition.
    pub fn new(
        ports: I2cBusPorts,
        gate: RccPeripheral,
        freq: u32,
        clocks: Clocks,
        duty: I2cDutyCycle,
    ) -> (i2c: I2c)
        requires
            gate.spec_enabled(),
            gate.spec_id() == spec_i2c_gate(ports.spec_i2c()),
            clocks.wf(),
            1 <= freq <= 400_000,
            freq > 100_000 ==> duty == I2cDutyCycle::Ratio1to1,
            1 <= spec_i2c_ccr(clocks@.pclk1, freq, duty) <= 0xFFF,
        ensures
            i2c.wf(),
            i2c@.id == ports.spec_i2c(),
            i2c@.remapped == ports.spec_remapped(),
            i2c@.cr1 == I2C_CR1_PE,
            i2c@.cr2 == spec_i2c_freqrange(clocks@.pclk1),
            i2c@.trise == spec_i2c_trise(clocks@.pclk1, freq),
            i2c@.ccr == spec_i2c_ccr_word(clocks@.pclk1, freq, duty),
            i2c@.cfg == seq![
                I2cConfigWrite::Cr2(i2c@.cr2),
                I2cConfigWrite::Trise(i2c@.trise),
                I2cConfigWrite::Ccr(i2c@.ccr),
                I2cConfigWrite::Cr1(I2C_CR1_PE),
            ],
            i2c@.sr1_feed == Seq::<u32>::empty(),
            i2c@.sr1_pos == 0,
            i2c@.dr_feed == Seq::<u8>::empty(),
            i2c@.dr_pos == 0,
            i2c@.ops == Seq::<I2cOp>::empty(),
    {
        let i2cclk: u32 = clocks.pclk1();
        let freqrange: u32 = i2cclk / 1_000_000;
        let cr2: u32 = freqrange;

        let trise: u32;
        let ccr_word: u32;
        if freq > 100_000 {
            trise = freqrange + 1;
            ccr_word = i2cclk / (freq * 2);
        } else {
            let c = i2cclk / (if matches!(duty, I2cDutyCycle::Ratio1to1) {
                freq * 3
            } else {
                freq * 25
            });
            let ccr = if c < 1 {
                1
            } else {
                c
            };
            assert(ccr == spec_i2c_ccr(clocks@.pclk1, freq, duty));
            proof {
                assert(I2C_CCR_FS | I2C_CCR_DUTY <= 0xC000) by (bit_vector);
                assert(I2C_CCR_FS | 0u32 <= 0xC000) by (bit_vector);
            }
            trise = freqrange * 300 / 1000 + 1;
            ccr_word = (I2C_CCR_FS | (if matches!(duty, I2cDutyCycle::Ratio16to9) {
                I2C_CCR_DUTY
            } else {
                0u32
            })) + ccr;
        }

        let mut cfg: Vec<I2cConfigWrite> = Vec::new();
        cfg.push(I2cConfigWrite::Cr2(cr2));
        cfg.push(I2cConfigWrite::Trise(trise));
        cfg.push(I2cConfigWrite::Ccr(ccr_word));
        cfg.push(I2cConfigWrite::Cr1(I2C_CR1_PE));
        proof {
            assert(cfg@ =~= seq![
                I2cConfigWrite::Cr2(cr2),
                I2cConfigWrite::Trise(trise),
                I2cConfigWrite::Ccr(ccr_word),
                I2cConfigWrite::Cr1(I2C_CR1_PE),
            ]);
        }

        I2c {
            id: ports.i2c,
            remapped: ports.remapped,
            cr1: I2C_CR1_PE,
            cr2,
            ccr: ccr_word,
            trise,
            cfg,
            sr1_feed: Vec::new(),
            sr1_pos: 0,
            dr_feed: Vec::new(),
            dr_pos: 0,
            ops: Vec::new(),
        }
    }

    /// Enable the instance's event and error interrupts: one
    /// read-modify-write of the second control register.
    pub fn listen(&mut self)
        ensures
            ({
                let nv = old(self)@.cr2 | I2C_CR2_ITEVTEN | I2C_CR2_ITERREN;
                final(self)@ == (I2cView {
                    cr2: nv,
                    cfg: old(self)@.cfg.push(I2cConfigWrite::Cr2(nv)),
                    ..old(self)@
                })
            }),
    {
        let nv = self.cr2 | I2C_CR2_ITEVTEN | I2C_CR2_ITERREN;
        self.cr2 = nv;
        self.cfg.push(I2cConfigWrite::Cr2(nv));
    }

    /// The configuration-register writes issued so far, in order.
    pub fn config_log(&self) -> (r: &Vec<I2cConfigWrite>)
        ensures
            r@ == self@.cfg,
    {
        &self.cfg
    }

    /// Script the next status-register reading the hardware will report.
    pub fn feed_status(&mut self, sr1: u32)
        ensures
            final(self)@ == (I2cView {
                sr1_feed: old(self)@.sr1_feed.push(sr1),
                ..old(self)@
            }),
    {
        self.sr1_feed.push(sr1);
    }

    /// Script the next data-register byte the hardware will hand out.
    pub fn feed_data(&mut self, byte: u8)
        ensures
            final(self)@ == (I2cView { dr_feed: old(self)@.dr_feed.push(byte), ..old(self)@ }),
    {
        self.dr_feed.push(byte);
    }

    /// The bus operations issued so far, in order.
    pub fn ops(&self) -> (r: &Vec<I2cOp>)
        ensures
            r@ == self@.ops,
    {
        &self.ops
    }

    /// Current value of the first control register.
    pub fn cr1(&self) -> (r: u32)
        ensures
            r == self@.cr1,
    {
        self.cr1
    }

    /// Current value of the second control register.
    pub fn cr2(&self) -> (r: u32)
        ensures
            r == self@.cr2,
    {
        self.cr2
    }

    /// Current value of the clock control register.
    pub fn ccr(&self) -> (r: u32)
        ensures
            r == self@.ccr,
    {
        self.ccr
    }

    /// Current value of the rise-time register.
    pub fn trise(&self) -> (r: u32)
        ensures
            r == self@.trise,
    {
        self.trise
    }

    /// Try to generate a start condition: sets the START bit.  Complete
    /// the wait with `start_complete`.
    pub fn start(&mut self) -> (r: Result<(), Error>)
        ensures
            r == Ok::<(), Error>(()),
            spec_same_setup(old(self)@, final(self)@),
            final(self)@.cr1 == old(self)@.cr1 | I2C_CR1_START,
            final(self)@.ops == old(self)@.ops.push(I2cOp::Start),
            final(self)@.sr1_pos == old(self)@.sr1_pos,
            final(self)@.dr_pos == old(self)@.dr_pos,
    {
        self.cr1 = self.cr1 | I2C_CR1_START;
        self.ops.push(I2cOp::Start);
        Ok(())
    }

    /// Give up control over the bus: sets the STOP bit.
    pub fn stop(&mut self) -> (r: Result<(), Error>)
        ensures
            r == Ok::<(), Error>(()),
            spec_same_setup(old(self)@, final(self)@),
            final(self)@.cr1 == old(self)@.cr1 | I2C_CR1_STOP,
            final(self)@.ops == old(self)@.ops.push(I2cOp::Stop),
            final(self)@.sr1_pos == old(self)@.sr1_pos,
            final(self)@.dr_pos == old(self)@.dr_pos,
    {
        self.cr1 = self.cr1 | I2C_CR1_STOP;
        self.ops.push(I2cOp::Stop);
        Ok(())
    }

    /// Write a byte straight into the data register.  Composite
    /// transactions call this after waiting for the transmit buffer.
    pub fn write_unchecked(&mut self, dat: u8) -> (r: Result<(), Error>)
        ensures
            r == Ok::<(), Error>(()),
            spec_same_setup(old(self)@, final(self)@),
            final(self)@.cr1 == old(self)@.cr1,
            final(self)@.ops == old(self)@.ops.push(I2cOp::Data(dat)),
            final(self)@.sr1_pos == old(self)@.sr1_pos,
            final(self)@.dr_pos == old(self)@.dr_pos,
    {
        self.ops.push(I2cOp::Data(dat));
        Ok(())
    }

    /// Read a byte straight from the data register: takes the next
    /// scripted byte.  Composite transactions call this after waiting
    /// for the receive buffer.
    pub fn read_unchecked(&mut self) -> (r: Result<u8, Error>)
        requires
            old(self).wf(),
            old(self)@.dr_pos < old(self)@.dr_feed.len(),
        ensures
            final(self).wf(),
            r == Ok::<u8, Error>(old(self)@.dr_feed[old(self)@.dr_pos]),
            spec_same_setup(old(self)@, final(self)@),
            final(self)@.cr1 == old(self)@.cr1,
            final(self)@.ops == old(self)@.ops.push(
                I2cOp::Read(old(self)@.dr_feed[old(self)@.dr_pos]),
            ),
            final(self)@.sr1_pos == old(self)@.sr1_pos,
            final(self)@.dr_pos == old(self)@.dr_pos + 1,
    {
        let n = self.dr_feed.len();
        let b = self.dr_feed[self.dr_pos];
        assert(self.dr_pos < n);
        self.dr_pos = self.dr_pos + 1;
        self.ops.push(I2cOp::Read(b));
        Ok(b)
    }

    /// Read the second status register, clearing the address latch.
    fn read_sr2(&mut self) -> (r: Result<(), Error>)
        ensures
            r == Ok::<(), Error>(()),
            spec_same_setup(old(self)@, final(self)@),
            final(self)@.cr1 == old(self)@.cr1,
            final(self)@.ops == old(self)@.ops.push(I2cOp::ClearAddr),
            final(self)@.sr1_pos == old(self)@.sr1_pos,
            final(self)@.dr_pos == old(self)@.dr_pos,
    {
        self.ops.push(I2cOp::ClearAddr);
        Ok(())
    }

    /// One probe of the first status register while waiting for `flag`:
    /// consumes the next scripted reading; with the script exhausted the
    /// hardware is silent and the probe reports "not yet".
    fn probe_flag(&mut self, flag: u32) -> (r: Probe<(), Error>)
        requires
            old(self).wf(),
        ensures
            final(self).wf(),
            spec_same_setup(old(self)@, final(self)@),
            final(self)@.cr1 == old(self)@.cr1,
            final(self)@.ops == old(self)@.ops,
            final(self)@.dr_pos == old(self)@.dr_pos,
            old(self)@.sr1_pos < old(self)@.sr1_feed.len() ==> final(self)@.sr1_pos == old(
                self,
            )@.sr1_pos + 1 && r == spec_probe(old(self)@.sr1_feed[old(self)@.sr1_pos], flag),
            old(self)@.sr1_pos == old(self)@.sr1_feed.len() ==> final(self)@.sr1_pos == old(
                self,
            )@.sr1_pos && r == Probe::<(), Error>::NotYet,
    {
        if self.sr1_pos < self.sr1_feed.len() {
            let v = self.sr1_feed[self.sr1_pos];
            self.sr1_pos = self.sr1_pos + 1;
            classify_status(v, flag)
        } else {
            Probe::NotYet
        }
    }

    /// Probe for the start condition having been sent.
    pub fn start_complete(&mut self) -> (r: Probe<(), Error>)
        requires
            old(self).wf(),
        ensures
            final(self).wf(),
            spec_same_setup(old(self)@, final(self)@),
            final(self)@.cr1 == old(self)@.cr1,
            final(self)@.ops == old(self)@.ops,
            final(self)@.dr_pos == old(self)@.dr_pos,
            old(self)@.sr1_pos < old(self)@.sr1_feed.len() ==> final(self)@.sr1_pos == old(
                self,
            )@.sr1_pos + 1 && r == spec_probe(
                old(self)@.sr1_feed[old(self)@.sr1_pos],
                I2C_SR1_SB,
            ),
            old(self)@.sr1_pos == old(self)@.sr1_feed.len() ==> final(self)@.sr1_pos == old(
                self,
            )@.sr1_pos && r == Probe::<(), Error>::NotYet,
    {
        self.probe_flag(I2C_SR1_SB)
    }

    /// Probe for the address having been acknowledged.
    pub fn addr_complete(&mut self) -> (r: Probe<(), Error>)
        requires
            old(self).wf(),
        ensures
            final(self).wf(),
            spec_same_setup(old(self)@, final(self)@),
            final(self)@.cr1 == old(self)@.cr1,
            final(self)@.ops == old(self)@.ops,
            final(self)@.dr_pos == old(self)@.dr_pos,
            old(self)@.sr1_pos < old(self)@.sr1_feed.len() ==> final(self)@.sr1_pos == old(
                self,
            )@.sr1_pos + 1 && r == spec_probe(
                old(self)@.sr1_feed[old(self)@.sr1_pos],
                I2C_SR1_ADDR,
            ),
            old(self)@.sr1_pos == old(self)@.sr1_feed.len() ==> final(self)@.sr1_pos == old(
                self,
            )@.sr1_pos && r == Probe::<(), Error>::NotYet,
    {
        self.probe_flag(I2C_SR1_ADDR)
    }

    /// Probe for the transmit buffer being empty.
    pub fn transmit_empty(&mut self) -> (r: Probe<(), Error>)
        requires
            old(self).wf(),
        ensures
            final(self).wf(),
            spec_same_setup(old(self)@, final(self)@),
            final(self)@.cr1 == old(self)@.cr1,
            final(self)@.ops == old(self)@.ops,
            final(self)@.dr_pos == old(self)@.dr_pos,
            old(self)@.sr1_pos < old(self)@.sr1_feed.len() ==> final(self)@.sr1_pos == old(
                self,
            )@.sr1_pos + 1 && r == spec_probe(
                old(self)@.sr1_feed[old(self)@.sr1_pos],
                I2C_SR1_TXE,
            ),
            old(self)@.sr1_pos == old(self)@.sr1_feed.len() ==> final(self)@.sr1_pos == old(
                self,
            )@.sr1_pos && r == Probe::<(), Error>::NotYet,
    {
        self.probe_flag(I2C_SR1_TXE)
    }

    /// Probe for the receive buffer holding a byte.
    pub fn receive_not_empty(&mut self) -> (r: Probe<(), Error>)
        requires
            old(self).wf(),
        ensures
            final(self).wf(),
            spec_same_setup(old(self)@, final(self)@),
            final(self)@.cr1 == old(self)@.cr1,
            final(self)@.ops == old(self)@.ops,
            final(self)@.dr_pos == old(self)@.dr_pos,
            old(self)@.sr1_pos < old(self)@.sr1_feed.len() ==> final(self)@.sr1_pos == old(
                self,
            )@.sr1_pos + 1 && r == spec_probe(
                old(self)@.sr1_feed[old(self)@.sr1_pos],
                I2C_SR1_RXNE,
            ),
            old(self)@.sr1_pos == old(self)@.sr1_feed.len() ==> final(self)@.sr1_pos == old(
                self,
            )@.sr1_pos && r == Probe::<(), Error>::NotYet,
    {
        self.probe_flag(I2C_SR1_RXNE)
    }

    /// Block on one status flag by retrying the probe: returns at the
    /// first scripted word that is decisive for `flag`, with the fault
    /// it reports or with success.
    fn wait_flag(&mut self, flag: u32) -> (r: Result<(), Error>)
        requires
            old(self).wf(),
            spec_scan(old(self)@.sr1_feed, old(self)@.sr1_pos, flag) is Some,
        ensures
            final(self).wf(),
            spec_same_setup(old(self)@, final(self)@),
            final(self)@.cr1 == old(self)@.cr1,
            final(self)@.ops == old(self)@.ops,
            final(self)@.dr_pos == old(self)@.dr_pos,
            ({
                let i = spec_scan(old(self)@.sr1_feed, old(self)@.sr1_pos, flag)->0;
                &&& final(self)@.sr1_pos == i + 1
                &&& spec_decisive(old(self)@.sr1_feed[i], flag)
                &&& (spec_probe(old(self)@.sr1_feed[i], flag) matches Probe::Fault(e) ==> r
                    == Err::<(), Error>(e))
                &&& (!(spec_probe(old(self)@.sr1_feed[i], flag) is Fault) ==> r == Ok::<
                    (),
                    Error,
                >(()))
            }),
    {
        proof {
            lemma_scan_bounds(old(self)@.sr1_feed, old(self)@.sr1_pos, flag);
        }
        loop
            invariant
                self.wf(),
                spec_same_setup(old(self)@, self@),
                self@.cr1 == old(self)@.cr1,
                self@.ops == old(self)@.ops,
                self@.dr_pos == old(self)@.dr_pos,
                old(self)@.sr1_pos <= self@.sr1_pos,
                spec_scan(old(self)@.sr1_feed, old(self)@.sr1_pos, flag) is Some,
                spec_scan(self@.sr1_feed, self@.sr1_pos, flag) == spec_scan(
                    old(self)@.sr1_feed,
                    old(self)@.sr1_pos,
                    flag,
                ),
                self@.sr1_pos <= spec_scan(old(self)@.sr1_feed, old(self)@.sr1_pos, flag)->0,
            decreases self@.sr1_feed.len() - self@.sr1_pos,
        {
            let ghost pre = self@;
            let ghost i = spec_scan(old(self)@.sr1_feed, old(self)@.sr1_pos, flag)->0;
            proof {
                lemma_scan_bounds(pre.sr1_feed, pre.sr1_pos, flag);
            }
            let r = self.probe_flag(flag);
            match r {
                Probe::Fault(e) => {
                    proof {
                        if pre.sr1_pos < i {
                            assert(!spec_decisive(pre.sr1_feed[pre.sr1_pos], flag));
                            assert(false);
                        }
                    }
                    return Err(e);
                },
                Probe::Complete(_) => {
                    proof {
                        if pre.sr1_pos < i {
                            assert(!spec_decisive(pre.sr1_feed[pre.sr1_pos], flag));
                            assert(false);
                        }
                    }
                    return Ok(());
                },
                Probe::NotYet => {
                    proof {
                        assert(pre.sr1_pos < pre.sr1_feed.len());
                        assert(!spec_decisive(pre.sr1_feed[pre.sr1_pos], flag));
                        assert(spec_scan(pre.sr1_feed, pre.sr1_pos + 1, flag) == spec_scan(
                            pre.sr1_feed,
                            pre.sr1_pos,
                            flag,
                        ));
                        assert(pre.sr1_pos < i);
                    }
                },
            }
        }
    }

    /// The addressing phase shared by both composite transactions:
    /// start condition, wait, the given address byte (read/write bit
    /// folded in by the caller), wait for the acknowledge, clear the
    /// address latch.
    fn addr_phase(&mut self, abyte: u8) -> (r: Result<(), Error>)
        requires
            old(self).wf(),
            spec_addr_phase(old(self)@.sr1_feed, old(self)@.sr1_pos, abyte) is Some,
        ensures
            final(self).wf(),
            spec_same_setup(old(self)@, final(self)@),
            final(self)@.dr_pos == old(self)@.dr_pos,
            final(self)@.cr1 == old(self)@.cr1 | I2C_CR1_START,
            ({
                let t = spec_addr_phase(old(self)@.sr1_feed, old(self)@.sr1_pos, abyte)->0;
                &&& r == t.result
                &&& final(self)@.ops == old(self)@.ops + t.ops
                &&& final(self)@.sr1_pos == t.pos
            }),
    {
        let ghost t = spec_addr_phase(old(self)@.sr1_feed, old(self)@.sr1_pos, abyte)->0;
        let _ = self.start();
        match self.wait_flag(I2C_SR1_SB) {
            Err(e) => {
                proof {
                    assert(self@.ops =~= old(self)@.ops + t.ops);
                }
                return Err(e);
            },
            Ok(_) => {},
        }
        let _ = self.write_unchecked(abyte);
        match self.wait_flag(I2C_SR1_ADDR) {
            Err(e) => {
                proof {
                    assert(self@.ops =~= old(self)@.ops + t.ops);
                }
                return Err(e);
            },
            Ok(_) => {},
        }
        let _ = self.read_sr2();
        proof {
            assert(self@.ops =~= old(self)@.ops + t.ops);
        }
        Ok(())
    }

    /// Clear the acknowledge-enable bit: one read-modify-write of the
    /// first control register, commanding a no-acknowledge for the
    /// next received byte, as the reception of a final byte requires.
    fn clear_ack(&mut self)
        ensures
            spec_same_setup(old(self)@, final(self)@),
            final(self)@.cr1 == old(self)@.cr1 & !I2C_CR1_ACK,
            final(self)@.ops == old(self)@.ops.push(I2cOp::ClearAck),
            final(self)@.sr1_pos == old(self)@.sr1_pos,
            final(self)@.dr_pos == old(self)@.dr_pos,
    {
        self.cr1 = self.cr1 & !I2C_CR1_ACK;
        self.ops.push(I2cOp::ClearAck);
    }

    /// The payload phase of a write: wait for the transmit buffer
    /// before each byte, write the byte, and wait once more after the
    /// last byte.
    fn send_all(&mut self, bytes: &Vec<u8>) -> (r: Result<(), Error>)
        requires
            old(self).wf(),
            spec_send_phase(old(self)@.sr1_feed, old(self)@.sr1_pos, bytes@) is Some,
        ensures
            final(self).wf(),
            spec_same_setup(old(self)@, final(self)@),
            final(self)@.dr_pos == old(self)@.dr_pos,
            final(self)@.cr1 == old(self)@.cr1,
            ({
                let t = spec_send_phase(old(self)@.sr1_feed, old(self)@.sr1_pos, bytes@)->0;
                &&& r == t.result
                &&& final(self)@.ops == old(self)@.ops + t.ops
                &&& final(self)@.sr1_pos == t.pos
            }),
    {
        let ghost feed = old(self)@.sr1_feed;
        let ghost t = spec_send_phase(feed, old(self)@.sr1_pos, bytes@)->0;
        let mut k: usize = 0;
        proof {
            assert(bytes@.skip(0) =~= bytes@);
            assert(spec_data_ops(bytes@.take(0)) + t.ops =~= t.ops);
            assert(old(self)@.ops + spec_data_ops(bytes@.take(0)) =~= old(self)@.ops);
        }
        while k < bytes.len()
            invariant
                self.wf(),
                spec_same_setup(old(self)@, self@),
                self@.dr_pos == old(self)@.dr_pos,
                self@.cr1 == old(self)@.cr1,
                k <= bytes@.len(),
                feed == old(self)@.sr1_feed,
                t == spec_send_phase(feed, old(self)@.sr1_pos, bytes@)->0,
                spec_send_phase(feed, self@.sr1_pos, bytes@.skip(k as int)) is Some,
                ({
                    let cur = spec_send_phase(feed, self@.sr1_pos, bytes@.skip(k as int))->0;
                    &&& cur.result == t.result
                    &&& cur.pos == t.pos
                    &&& t.ops == spec_data_ops(bytes@.take(k as int)) + cur.ops
                }),
                self@.ops == old(self)@.ops + spec_data_ops(bytes@.take(k as int)),
            decreases bytes@.len() - k,
        {
            let ghost cur = spec_send_phase(feed, self@.sr1_pos, bytes@.skip(k as int))->0;
            proof {
                assert(bytes@.skip(k as int).len() > 0);
            }
            match self.wait_flag(I2C_SR1_TXE) {
                Err(e) => {
                    proof {
                        assert(self@.ops =~= old(self)@.ops + t.ops);
                    }
                    return Err(e);
                },
                Ok(_) => {},
            }
            proof {
                assert(bytes@.skip(k as int)[0] == bytes@[k as int]);
                assert(bytes@.skip(k as int).drop_first() =~= bytes@.skip(k as int + 1));
            }
            let ghost inner = spec_send_phase(feed, self@.sr1_pos, bytes@.skip(k as int + 1))->0;
            let b = bytes[k];
            let _ = self.write_unchecked(b);
            proof {
                assert(spec_data_ops(bytes@.take(k as int + 1)) =~= spec_data_ops(
                    bytes@.take(k as int),
                ).push(I2cOp::Data(bytes@[k as int])));
                assert(self@.ops =~= old(self)@.ops + spec_data_ops(bytes@.take(k as int + 1)));
                assert(spec_data_ops(bytes@.take(k as int)) + (seq![I2cOp::Data(bytes@[k as int])]
                    + inner.ops) =~= spec_data_ops(bytes@.take(k as int + 1)) + inner.ops);
            }
            k = k + 1;
        }
        proof {
            assert(bytes@.skip(k as int) =~= Seq::<u8>::empty());
        }
        match self.wait_flag(I2C_SR1_TXE) {
            Err(e) => {
                proof {
                    assert(self@.ops =~= old(self)@.ops + t.ops);
                }
                return Err(e);
            },
            Ok(_) => {},
        }
        proof {
            assert(self@.ops =~= old(self)@.ops + t.ops);
        }
        Ok(())
    }

    /// The payload phase of a read: wait for the receive buffer before
    /// each byte and overwrite the buffer in place, front to back.
    fn recv_into(&mut self, buffer: &mut Vec<u8>) -> (r: Result<(), Error>)
        requires
            old(self).wf(),
            spec_recv_phase(
                old(self)@.sr1_feed,
                old(self)@.sr1_pos,
                old(self)@.dr_feed.skip(old(self)@.dr_pos),
                old(buffer)@.len() as int,
            ) is Some,
        ensures
            final(self).wf(),
            spec_same_setup(old(self)@, final(self)@),
            final(buffer)@.len() == old(buffer)@.len(),
            ({
                let drs = old(self)@.dr_feed.skip(old(self)@.dr_pos);
                let t = spec_recv_phase(
                    old(self)@.sr1_feed,
                    old(self)@.sr1_pos,
                    drs,
                    old(buffer)@.len() as int,
                )->0;
                &&& r == t.result
                &&& final(self)@.ops == old(self)@.ops + t.ops
                &&& final(self)@.sr1_pos == t.pos
                &&& final(self)@.dr_pos == old(self)@.dr_pos + t.nread
                &&& final(buffer)@ == drs.take(t.nread) + old(buffer)@.skip(t.nread)
                &&& (t.ack_cleared ==> final(self)@.cr1 == old(self)@.cr1 & !I2C_CR1_ACK)
                &&& (!t.ack_cleared ==> final(self)@.cr1 == old(self)@.cr1)
            }),
    {
        let ghost feed = old(self)@.sr1_feed;
        let ghost drs = old(self)@.dr_feed.skip(old(self)@.dr_pos);
        let ghost n = old(buffer)@.len() as int;
        let ghost t = spec_recv_phase(feed, old(self)@.sr1_pos, drs, n)->0;
        let len = buffer.len();
        if len == 0 {
            proof {
                assert(self@.ops =~= old(self)@.ops + t.ops);
                assert(buffer@ =~= drs.take(t.nread) + old(buffer)@.skip(t.nread));
            }
            return Ok(());
        }
        let ghost f = spec_recv_front(feed, old(self)@.sr1_pos, drs, n - 1)->0;
        let mut k: usize = 0;
        proof {
            assert(drs.skip(0) =~= drs);
            assert(spec_read_ops(drs.take(0)) + f.ops =~= f.ops);
            assert(old(self)@.ops + spec_read_ops(drs.take(0)) =~= old(self)@.ops);
            assert(drs.take(0) + old(buffer)@.skip(0) =~= old(buffer)@);
        }
        while k < len - 1
            invariant
                self.wf(),
                spec_same_setup(old(self)@, self@),
                self@.cr1 == old(self)@.cr1,
                len == n,
                1 <= len,
                k <= len - 1,
                buffer@.len() == n,
                n == old(buffer)@.len(),
                feed == old(self)@.sr1_feed,
                spec_recv_phase(feed, old(self)@.sr1_pos, drs, n) is Some,
                t == spec_recv_phase(feed, old(self)@.sr1_pos, drs, n)->0,
                f == spec_recv_front(feed, old(self)@.sr1_pos, drs, n - 1)->0,
                drs == old(self)@.dr_feed.skip(old(self)@.dr_pos),
                spec_recv_front(feed, self@.sr1_pos, drs.skip(k as int), n - 1 - k as int)
                    is Some,
                ({
                    let cur = spec_recv_front(
                        feed,
                        self@.sr1_pos,
                        drs.skip(k as int),
                        n - 1 - k as int,
                    )->0;
                    &&& cur.result == f.result
                    &&& cur.pos == f.pos
                    &&& f.nread == k as int + cur.nread
                    &&& f.ops == spec_read_ops(drs.take(k as int)) + cur.ops
                }),
                self@.ops == old(self)@.ops + spec_read_ops(drs.take(k as int)),
                self@.dr_pos == old(self)@.dr_pos + k as int,
                buffer@ == drs.take(k as int) + old(buffer)@.skip(k as int),
            decreases len - k,
        {
            let ghost cur = spec_recv_front(
                feed,
                self@.sr1_pos,
                drs.skip(k as int),
                n - 1 - k as int,
            )->0;
            match self.wait_flag(I2C_SR1_RXNE) {
                Err(e) => {
                    proof {
                        assert(self@.ops =~= old(self)@.ops + t.ops);
                    }
                    return Err(e);
                },
                Ok(_) => {},
            }
            proof {
                assert(drs.skip(k as int).len() > 0);
                assert(drs.skip(k as int)[0] == drs[k as int]);
                assert(drs.skip(k as int).drop_first() =~= drs.skip(k as int + 1));
                assert(old(self)@.dr_feed[old(self)@.dr_pos + k as int] == drs[k as int]);
            }
            let ghost inner = spec_recv_front(
                feed,
                self@.sr1_pos,
                drs.skip(k as int + 1),
                n - 1 - (k as int + 1),
            )->0;
            let b = match self.read_unchecked() {
                Ok(b) => b,
                Err(_) => {
                    proof {
                        assert(false);
                    }
                    0
                },
            };
            buffer.set(k, b);
            proof {
                assert(spec_read_ops(drs.take(k as int + 1)) =~= spec_read_ops(
                    drs.take(k as int),
                ).push(I2cOp::Read(drs[k as int])));
                assert(self@.ops =~= old(self)@.ops + spec_read_ops(drs.take(k as int + 1)));
                assert(spec_read_ops(drs.take(k as int)) + (seq![I2cOp::Read(drs[k as int])]
                    + inner.ops) =~= spec_read_ops(drs.take(k as int + 1)) + inner.ops);
                assert(buffer@ =~= drs.take(k as int + 1) + old(buffer)@.skip(k as int + 1));
            }
            k = k + 1;
        }
        // the front is done: the acknowledge is cleared before the
        // final byte so the hardware signals a no-acknowledge for it
        proof {
            assert(f.ops =~= spec_read_ops(drs.take(n - 1)));
        }
        self.clear_ack();
        match self.wait_flag(I2C_SR1_RXNE) {
            Err(e) => {
                proof {
                    assert(self@.ops =~= old(self)@.ops + t.ops);
                    assert(buffer@ =~= drs.take(t.nread) + old(buffer)@.skip(t.nread));
                }
                return Err(e);
            },
            Ok(_) => {},
        }
        proof {
            assert(drs.len() >= n);
            assert(old(self)@.dr_feed[old(self)@.dr_pos + (n - 1)] == drs[n - 1]);
        }
        let b = match self.read_unchecked() {
            Ok(b) => b,
            Err(_) => {
                proof {
                    assert(false);
                }
                0
            },
        };
        buffer.set(len - 1, b);
        proof {
            assert(self@.ops =~= old(self)@.ops + t.ops);
            assert(buffer@ =~= drs.take(t.nread) + old(buffer)@.skip(t.nread));
        }
        Ok(())
    }

    /// Send `bytes` to the device at `addr` in one transaction: start,
    /// address, payload, and — only when every wait succeeded — the stop
    /// condition.  A fault reported during any wait aborts immediately,
    /// surfaces that fault, and issues none of the remaining
    /// operations.
    pub fn write(&mut self, addr: u8, bytes: &Vec<u8>) -> (r: Result<(), Error>)
        requires
            old(self).wf(),
            bytes@.len() >= 1,
            spec_write_txn(old(self)@.sr1_feed, old(self)@.sr1_pos, addr, bytes@) is Some,
        ensures
            final(self).wf(),
            spec_same_setup(old(self)@, final(self)@),
            final(self)@.dr_pos == old(self)@.dr_pos,
            ({
                let t = spec_write_txn(old(self)@.sr1_feed, old(self)@.sr1_pos, addr, bytes@)->0;
                &&& r == t.result
                &&& final(self)@.ops == old(self)@.ops + t.ops
                &&& final(self)@.sr1_pos == t.pos
                &&& (t.result is Ok ==> final(self)@.cr1 == old(self)@.cr1 | I2C_CR1_START
                    | I2C_CR1_STOP)
                &&& (t.result is Err ==> final(self)@.cr1 == old(self)@.cr1 | I2C_CR1_START)
            }),
    {
        let ghost feed = old(self)@.sr1_feed;
        let ghost from = old(self)@.sr1_pos;
        let ghost t = spec_write_txn(feed, from, addr, bytes@)->0;
        let ghost a = spec_addr_phase(feed, from, addr & 0xFE)->0;
        match self.addr_phase(addr & 0xFE) {
            Err(e) => {
                return Err(e);
            },
            Ok(_) => {},
        }
        let ghost s = spec_send_phase(feed, a.pos, bytes@)->0;
        match self.send_all(bytes) {
            Err(e) => {
                proof {
                    assert(self@.ops =~= old(self)@.ops + t.ops);
                }
                return Err(e);
            },
            Ok(_) => {},
        }
        let _ = self.stop();
        proof {
            assert(self@.ops =~= old(self)@.ops + t.ops);
        }
        Ok(())
    }

    /// Send `bytes` to the device at `addr`, then read
    /// `buffer.len()` bytes back in the same transaction: a repeated
    /// start with the address re-sent carrying the read bit, the
    /// acknowledge-enable bit cleared before the final byte, and —
    /// only when every wait succeeded — the stop condition.  A fault
    /// reported during any wait aborts immediately, surfaces that
    /// fault, and issues none of the remaining operations; bytes
    /// already received stay in the front of the buffer and the rest
    /// of it is untouched.
    pub fn write_read(&mut self, addr: u8, bytes: &Vec<u8>, buffer: &mut Vec<u8>) -> (r: Result<
        (),
        Error,
    >)
        requires
            old(self).wf(),
            spec_write_read_txn(
                old(self)@.sr1_feed,
                old(self)@.sr1_pos,
                addr,
                bytes@,
                old(self)@.dr_feed.skip(old(self)@.dr_pos),
                old(buffer)@.len() as int,
            ) is Some,
        ensures
            final(self).wf(),
            spec_same_setup(old(self)@, final(self)@),
            final(buffer)@.len() == old(buffer)@.len(),
            ({
                let drs = old(self)@.dr_feed.skip(old(self)@.dr_pos);
                let t = spec_write_read_txn(
                    old(self)@.sr1_feed,
                    old(self)@.sr1_pos,
                    addr,
                    bytes@,
                    drs,
                    old(buffer)@.len() as int,
                )->0;
                &&& r == t.result
                &&& final(self)@.ops == old(self)@.ops + t.ops
                &&& final(self)@.sr1_pos == t.pos
                &&& final(self)@.dr_pos == old(self)@.dr_pos + t.nread
                &&& final(buffer)@ == drs.take(t.nread) + old(buffer)@.skip(t.nread)
                &&& (t.result is Ok && t.ack_cleared ==> final(self)@.cr1 == ((old(self)@.cr1
                    | I2C_CR1_START) & !I2C_CR1_ACK) | I2C_CR1_STOP)
                &&& (t.result is Ok && !t.ack_cleared ==> final(self)@.cr1 == (old(self)@.cr1
                    | I2C_CR1_START) | I2C_CR1_STOP)
                &&& (t.result is Err && t.ack_cleared ==> final(self)@.cr1 == (old(self)@.cr1
                    | I2C_CR1_START) & !I2C_CR1_ACK)
                &&& (t.result is Err && !t.ack_cleared ==> final(self)@.cr1 == old(self)@.cr1
                    | I2C_CR1_START)
            }),
    {
        let ghost feed = old(self)@.sr1_feed;
        let ghost from = old(self)@.sr1_pos;
        let ghost drs = old(self)@.dr_feed.skip(old(self)@.dr_pos);
        let ghost n = old(buffer)@.len() as int;
        let ghost t = spec_write_read_txn(feed, from, addr, bytes@, drs, n)->0;
        let ghost a = spec_addr_phase(feed, from, addr & 0xFE)->0;
        match self.addr_phase(addr & 0xFE) {
            Err(e) => {
                proof {
                    assert(final(buffer)@ =~= drs.take(0) + old(buffer)@.skip(0));
                }
                return Err(e);
            },
            Ok(_) => {},
        }
        let ghost s = spec_send_phase(feed, a.pos, bytes@)->0;
        match self.send_all(bytes) {
            Err(e) => {
                proof {
                    assert(self@.ops =~= old(self)@.ops + t.ops);
                    assert(final(buffer)@ =~= drs.take(0) + old(buffer)@.skip(0));
                }
                return Err(e);
            },
            Ok(_) => {},
        }
        let ghost a2 = spec_addr_phase(feed, s.pos, addr | 1)->0;
        proof {
            let c = old(self)@.cr1;
            assert((c | I2C_CR1_START) | I2C_CR1_START == c | I2C_CR1_START) by (bit_vector);
        }
        match self.addr_phase(addr | 1) {
            Err(e) => {
                proof {
                    assert(self@.ops =~= old(self)@.ops + t.ops);
                    assert(final(buffer)@ =~= drs.take(0) + old(buffer)@.skip(0));
                }
                return Err(e);
            },
            Ok(_) => {},
        }
        let ghost rt = spec_recv_phase(feed, self@.sr1_pos, drs, n)->0;
        match self.recv_into(buffer) {
            Err(e) => {
                proof {
                    assert(self@.ops =~= old(self)@.ops + t.ops);
                }
                return Err(e);
            },
            Ok(_) => {},
        }
        let _ = self.stop();
        proof {
            assert(self@.ops =~= old(self)@.ops + t.ops);
        }
        Ok(())
    }
}

} // verus!
