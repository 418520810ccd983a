//! The asynchronous transfer state machine: the resource slots, transaction
//! preparation, the interrupt-driven completion engine, and the busy-checked
//! blocking fallbacks.
//!
//! Completion notifications are a return channel: the entry points and the
//! interrupt handlers hand back a [`Completion`] when a transaction
//! finalizes. It carries the single-shot callback value that was supplied
//! when the transaction began; the host invokes the user's handler with the
//! carried result. Taking the callback out of the driver consumes it, so a
//! transaction delivers it at most once.

use crate::i2c::{I2c, I2cError, I2cPeriph, NackSource};
use vstd::prelude::*;

verus! {

/// Outcome of an asynchronous transaction, as delivered to the caller.
#[derive(Clone, Copy, Debug, PartialEq, Eq, Structural)]
pub enum TransactionError {
    /// An error of the underlying bus driver.
    I2CError(I2cError),
    /// The DMA engine reported a transfer error.
    TransferError,
}

impl TransactionError {
    /// True exactly of the not-acknowledged outcomes: finalization issues a
    /// STOP for these and for no others.
    pub open spec fn is_nack(self) -> bool {
        self matches TransactionError::I2CError(e) && e.is_nack()
    }
}

/// True when `r` finalizes a transaction with a not-acknowledged error.
pub open spec fn result_is_nack(r: Result<(), TransactionError>) -> bool {
    r matches Err(e) && e.is_nack()
}

/// The peripheral-side transmit endpoint: a handle on the data register as
/// a DMA destination.
pub struct Tx {}

/// The peripheral-side receive endpoint: a handle on the data register as a
/// DMA source.
pub struct Rx {}

/// An idle DMA stream, ready to be bound into a transfer.
pub struct DmaStream {}

/// The hardware flags of one DMA stream, raised by the DMA engine and
/// cleared by the interrupt handler.
#[derive(Clone, Copy, Debug)]
pub struct DmaStreamFlags {
    /// A DMA-internal buffering fault; recoverable, never terminal.
    pub fifo_error: bool,
    /// The transfer failed; terminal for the transaction.
    pub transfer_error: bool,
    /// The transfer finished.
    pub transfer_complete: bool,
}

impl DmaStreamFlags {
    /// All flags down.
    pub open spec fn spec_clear() -> DmaStreamFlags {
        DmaStreamFlags { fifo_error: false, transfer_error: false, transfer_complete: false }
    }

    /// All flags down.
    pub fn clear() -> (f: DmaStreamFlags)
        ensures
            f == DmaStreamFlags::spec_clear(),
    {
        DmaStreamFlags { fifo_error: false, transfer_error: false, transfer_complete: false }
    }
}

/// A live transmit transfer: the stream and endpoint bound to the buffer
/// being sent.
pub struct TxTransfer {
    pub periph: Tx,
    pub stream: DmaStream,
    pub buf: Vec<u8>,
    /// The stream has been told to start moving data.
    pub started: bool,
}

/// A live receive transfer: the stream and endpoint bound to the buffer
/// being filled.
pub struct RxTransfer {
    pub periph: Rx,
    pub stream: DmaStream,
    pub buf: Vec<u8>,
    /// The stream has been told to start moving data.
    pub started: bool,
}

/// The transmit resource slot: either the idle endpoint and stream, or the
/// live transfer built from them. `InTransition` is the momentary emptiness
/// while ownership moves between the two; it is never observable outside a
/// single call.
pub enum TxSlot {
    Idle(Tx, DmaStream),
    Active(TxTransfer),
    InTransition,
}

/// The receive resource slot; see [`TxSlot`].
pub enum RxSlot {
    Idle(Rx, DmaStream),
    Active(RxTransfer),
    InTransition,
}

/// A completion notification: the single-shot callback value armed when the
/// transaction began (already taken out of the driver), together with the
/// transaction's result. The host invokes the user's handler with the
/// result; a `callback` of `None` means no handler was supplied or it was
/// already delivered.
pub struct Completion<C> {
    pub callback: Option<C>,
    pub result: Result<(), TransactionError>,
}

/// The not-acknowledged translation applied while waiting for the address
/// acknowledgment: a bare acknowledge failure there means the address phase
/// was refused.
pub open spec fn spec_nack_addr(e: I2cError) -> I2cError {
    match e {
        I2cError::NoAcknowledge(_) => I2cError::NoAcknowledge(NackSource::Address),
        _ => e,
    }
}

/// The registers right after a START request in direction `read`: the START
/// bit is set and, for a read, the ACK bit is pre-armed.
pub open spec fn spec_start_requested(regs: I2cPeriph, read: bool) -> I2cPeriph {
    I2cPeriph { start: true, ack: read || regs.ack, ..regs }
}

/// Whether transaction preparation succeeds on these registers, and with
/// which error it fails: a pending error flag aborts the START wait, and
/// the slave's scripted address refusal aborts the address phase.
pub open spec fn spec_prepare_outcome(regs: I2cPeriph) -> Result<(), I2cError> {
    match regs.pending_error() {
        Some(e) => Err(e),
        None => if regs.slave_nacks_address {
            Err(I2cError::NoAcknowledge(NackSource::Address))
        } else {
            Ok(())
        },
    }
}

/// The registers after the whole preparation protocol for direction `read`
/// with a pending receive length of `rx_len`: START, address with its
/// acknowledgment wait, the ACK timing decision for single-byte reads,
/// ADDR-condition clear, and error-interrupt enable — or the state in which
/// a failed preparation leaves them.
pub open spec fn spec_after_prepare(regs: I2cPeriph, addr: u8, read: bool, rx_len: int) -> I2cPeriph {
    let s = spec_start_requested(regs, read);
    match s.pending_error() {
        Some(_) => s.after_error_clear(),
        None => {
            let s1 = I2cPeriph { bus_busy: true, last_addr: addr, last_addr_read: read, ..s };
            if s1.slave_nacks_address {
                I2cPeriph { slave_nacks_address: false, ..s1 }
            } else {
                let s2 = if read && rx_len <= 1 {
                    I2cPeriph { ack: false, ..s1 }
                } else {
                    s1
                };
                I2cPeriph {
                    addr_acknowledged: false,
                    ack_on_addr_clear: s2.ack,
                    error_interrupts: true,
                    ..s2
                }
            }
        },
    }
}

/// The registers after finalization: DMA requests and error interrupts are
/// disabled, and for a not-acknowledged outcome a STOP is issued, releasing
/// the bus.
pub open spec fn spec_after_finish(regs: I2cPeriph, nack: bool) -> I2cPeriph {
    I2cPeriph {
        dma_requests: false,
        error_interrupts: false,
        stop: nack || regs.stop,
        bus_busy: !nack && regs.bus_busy,
        ..regs
    }
}

/// The registers after an asynchronous operation came through its
/// preparation: DMA-request generation is enabled before the bus sequencing
/// begins, so the DMA engine is ready the instant the data phase starts.
pub open spec fn spec_regs_after_begin(regs: I2cPeriph, addr: u8, read: bool, rx_len: int) -> I2cPeriph {
    spec_after_prepare(I2cPeriph { dma_requests: true, ..regs }, addr, read, rx_len)
}

/// Writes bytes to a slave in non-blocking mode.
///
/// The buffers move into the operation and the completion machinery hands
/// control back when the transaction ends, so the caller never touches a
/// buffer that the DMA engine still owns. A completion may be handed back
/// beside the return value: preparation failures report that way.
pub trait I2CMasterWriteDMA<C> {
    /// Whether the driver is in a state the operation may be invoked in.
    spec fn ready(&self) -> bool;

    /// Begins an asynchronous write of `bytes` to the slave at `addr`.
    fn write_dma(&mut self, addr: u8, bytes: Vec<u8>, callback: Option<C>) -> (r: (
        nb::Result<(), I2cError>,
        Option<Completion<C>>,
    ))
        requires
            old(self).ready(),
        ensures
            final(self).ready(),
    ;
}

/// Reads bytes from a slave in non-blocking mode; see
/// [`I2CMasterWriteDMA`] for the buffer and completion conventions.
pub trait I2CMasterReadDMA<C> {
    /// Whether the driver is in a state the operation may be invoked in.
    spec fn ready(&self) -> bool;

    /// Begins an asynchronous read from the slave at `addr` into a buffer
    /// of length `buf.len()`.
    fn read_dma(&mut self, addr: u8, buf: Vec<u8>, callback: Option<C>) -> (r: (
        nb::Result<(), I2cError>,
        Option<Completion<C>>,
    ))
        requires
            old(self).ready(),
        ensures
            final(self).ready(),
    ;
}

/// Writes bytes to a slave, then generates a restart and reads from the
/// same device, in non-blocking mode; see [`I2CMasterWriteDMA`] for the
/// buffer and completion conventions.
pub trait I2CMasterWriteReadDMA<C> {
    /// Whether the driver is in a state the operation may be invoked in.
    spec fn ready(&self) -> bool;

    /// Begins an asynchronous write of `bytes` followed by a read into a
    /// buffer of length `buf.len()`, with a single completion for the
    /// whole compound transaction.
    fn write_read_dma(&mut self, addr: u8, bytes: Vec<u8>, buf: Vec<u8>, callback: Option<C>) -> (r:
        (nb::Result<(), I2cError>, Option<Completion<C>>))
        requires
            old(self).ready(),
        ensures
            final(self).ready(),
    ;
}

/// I2C abstraction that works in non-blocking mode by binding DMA streams
/// to the peripheral.
///
/// The host must call [`handle_dma_interrupt`](Self::handle_dma_interrupt)
/// from the DMA streams' interrupt context and
/// [`handle_error_interrupt`](Self::handle_error_interrupt) from the
/// peripheral's error-interrupt context, and must invoke the user's handler
/// with every [`Completion`] these hand back.
///
/// The hardware-flag fields (`hal_i2c`, `tx_dma`, `rx_dma`) are the model's
/// register surface: the environment raises status flags there. The driver
/// itself only ever moves them as its contracts state.
pub struct I2CMasterDma<C> {
    /// The underlying blocking driver, owner of the peripheral registers.
    pub hal_i2c: I2c,
    /// The single-shot completion handler of the in-flight transaction.
    pub callback: Option<C>,
    /// Slave address, recorded only for write-then-read: the receive phase
    /// begins after a restart generated later.
    pub address: u8,
    /// Length of the pending receive buffer, recorded because the ACK bit
    /// must be cleared before the ADDR condition when expecting one byte.
    pub rx_len: usize,
    /// The transmit resource slot.
    pub tx_slot: TxSlot,
    /// The receive resource slot.
    pub rx_slot: RxSlot,
    /// The transmit stream's hardware flags.
    pub tx_dma: DmaStreamFlags,
    /// The receive stream's hardware flags.
    pub rx_dma: DmaStreamFlags,
}

impl<C> I2CMasterDma<C> {
    /// The peripheral registers, as the driver sees them.
    pub open spec fn regs(self) -> I2cPeriph {
        self.hal_i2c.regs
    }

    /// A transmit transfer exists.
    pub open spec fn tx_active(self) -> bool {
        self.tx_slot is Active
    }

    /// A receive transfer exists.
    pub open spec fn rx_active(self) -> bool {
        self.rx_slot is Active
    }

    /// Both resource slots hold their idle endpoint and stream.
    pub open spec fn slots_idle(self) -> bool {
        self.tx_slot is Idle && self.rx_slot is Idle
    }

    /// Neither slot is in its momentary hand-over state.
    pub open spec fn slots_settled(self) -> bool {
        !(self.tx_slot is InTransition) && !(self.rx_slot is InTransition)
    }

    /// The transmit transfer exists and has been started.
    pub open spec fn tx_started(self) -> bool {
        self.tx_slot matches TxSlot::Active(t) && t.started
    }

    /// The receive transfer exists and has been started.
    pub open spec fn rx_started(self) -> bool {
        self.rx_slot matches RxSlot::Active(t) && t.started
    }

    /// Well-formedness: the slots are settled, and a free bus means a fully
    /// idle driver — the serialization the busy check relies on.
    pub open spec fn wf(self) -> bool {
        &&& self.slots_settled()
        &&& !self.regs().bus_busy ==> self.slots_idle()
    }

    /// Everything but the peripheral registers agrees with `o`.
    pub open spec fn eq_except_regs(self, o: Self) -> bool {
        &&& self.callback == o.callback
        &&& self.address == o.address
        &&& self.rx_len == o.rx_len
        &&& self.tx_slot == o.tx_slot
        &&& self.rx_slot == o.rx_slot
        &&& self.tx_dma == o.tx_dma
        &&& self.rx_dma == o.rx_dma
    }

    /// Everything but the transmit slot agrees with `o`.
    pub open spec fn eq_except_tx_slot(self, o: Self) -> bool {
        &&& self.hal_i2c == o.hal_i2c
        &&& self.callback == o.callback
        &&& self.address == o.address
        &&& self.rx_len == o.rx_len
        &&& self.rx_slot == o.rx_slot
        &&& self.tx_dma == o.tx_dma
        &&& self.rx_dma == o.rx_dma
    }

    /// Everything but the receive slot agrees with `o`.
    pub open spec fn eq_except_rx_slot(self, o: Self) -> bool {
        &&& self.hal_i2c == o.hal_i2c
        &&& self.callback == o.callback
        &&& self.address == o.address
        &&& self.rx_len == o.rx_len
        &&& self.tx_slot == o.tx_slot
        &&& self.tx_dma == o.tx_dma
        &&& self.rx_dma == o.rx_dma
    }

    /// Everything but the transmit stream's flags agrees with `o`.
    pub open spec fn eq_except_tx_dma(self, o: Self) -> bool {
        &&& self.hal_i2c == o.hal_i2c
        &&& self.callback == o.callback
        &&& self.address == o.address
        &&& self.rx_len == o.rx_len
        &&& self.tx_slot == o.tx_slot
        &&& self.rx_slot == o.rx_slot
        &&& self.rx_dma == o.rx_dma
    }

    /// Everything but the receive stream's flags agrees with `o`.
    pub open spec fn eq_except_rx_dma(self, o: Self) -> bool {
        &&& self.hal_i2c == o.hal_i2c
        &&& self.callback == o.callback
        &&& self.address == o.address
        &&& self.rx_len == o.rx_len
        &&& self.tx_slot == o.tx_slot
        &&& self.rx_slot == o.rx_slot
        &&& self.tx_dma == o.tx_dma
    }

    /// Everything but the callback agrees with `o`.
    pub open spec fn eq_except_callback(self, o: Self) -> bool {
        &&& self.hal_i2c == o.hal_i2c
        &&& self.address == o.address
        &&& self.rx_len == o.rx_len
        &&& self.tx_slot == o.tx_slot
        &&& self.rx_slot == o.rx_slot
        &&& self.tx_dma == o.tx_dma
        &&& self.rx_dma == o.rx_dma
    }

    /// Checks whether a communication is in progress.
    pub fn busy(&self) -> (r: bool)
        ensures
            r == self.regs().bus_busy,
    {
        self.hal_i2c.regs.bus_busy
    }

    /// Like [`busy`](Self::busy), but returns `WouldBlock` while busy.
    fn busy_res(&self) -> (r: nb::Result<(), I2cError>)
        ensures
            r is Ok <==> !self.regs().bus_busy,
            !(r is Ok) ==> r == Err::<(), nb::Error<I2cError>>(nb::Error::WouldBlock),
    {
        if self.busy() {
            return Err(nb::Error::WouldBlock);
        }
        Ok(())
    }

    fn enable_dma_requests(&mut self)
        ensures
            final(self).eq_except_regs(*old(self)),
            final(self).regs() == (I2cPeriph { dma_requests: true, ..old(self).regs() }),
    {
        let regs = self.hal_i2c.regs;
        self.hal_i2c.regs = I2cPeriph { dma_requests: true, ..regs };
    }

    fn disable_dma_requests(&mut self)
        ensures
            final(self).eq_except_regs(*old(self)),
            final(self).regs() == (I2cPeriph { dma_requests: false, ..old(self).regs() }),
    {
        let regs = self.hal_i2c.regs;
        self.hal_i2c.regs = I2cPeriph { dma_requests: false, ..regs };
    }

    fn enable_error_interrupt_generation(&mut self)
        ensures
            final(self).eq_except_regs(*old(self)),
            final(self).regs() == (I2cPeriph { error_interrupts: true, ..old(self).regs() }),
    {
        let regs = self.hal_i2c.regs;
        self.hal_i2c.regs = I2cPeriph { error_interrupts: true, ..regs };
    }

    fn disable_error_interrupt_generation(&mut self)
        ensures
            final(self).eq_except_regs(*old(self)),
            final(self).regs() == (I2cPeriph { error_interrupts: false, ..old(self).regs() }),
    {
        let regs = self.hal_i2c.regs;
        self.hal_i2c.regs = I2cPeriph { error_interrupts: false, ..regs };
    }

    /// Sets the START condition and, for a read, pre-arms the ACK bit; the
    /// bounded wait for the start condition and for bus mastership resolves
    /// in one model step, aborted by the first bus error detected.
    fn send_start(&mut self, read: bool) -> (r: Result<(), I2cError>)
        ensures
            final(self).eq_except_regs(*old(self)),
            ({
                let s = spec_start_requested(old(self).regs(), read);
                match s.pending_error() {
                    Some(e) => r == Err::<(), I2cError>(e) && final(self).regs()
                        == s.after_error_clear(),
                    None => r is Ok && final(self).regs() == (I2cPeriph { bus_busy: true, ..s }),
                }
            }),
    {
        let regs0 = self.hal_i2c.regs;
        self.hal_i2c.regs = I2cPeriph { start: true, ack: read || regs0.ack, ..regs0 };
        match self.hal_i2c.check_and_clear_error_flags() {
            Err(e) => {
                return Err(e);
            },
            Ok(()) => {},
        }
        let regs1 = self.hal_i2c.regs;
        self.hal_i2c.regs = I2cPeriph { bus_busy: true, ..regs1 };
        Ok(())
    }

    /// Sets the STOP condition; fire-and-forget. In the model the STOP
    /// releases the bus.
    fn send_stop(&mut self)
        ensures
            final(self).eq_except_regs(*old(self)),
            final(self).regs() == (I2cPeriph { stop: true, bus_busy: false, ..old(self).regs() }),
    {
        let regs = self.hal_i2c.regs;
        self.hal_i2c.regs = I2cPeriph { stop: true, bus_busy: false, ..regs };
    }

    /// Transmits the 7-bit address with the read/write bit; the bounded wait
    /// for the address acknowledgment resolves in one model step. A refusal
    /// by the slave is the distinguished address-phase NACK.
    fn send_address(&mut self, addr: u8, read: bool) -> (r: Result<(), I2cError>)
        ensures
            final(self).eq_except_regs(*old(self)),
            ({
                let s = I2cPeriph {
                    last_addr: addr,
                    last_addr_read: read,
                    ..old(self).regs()
                };
                match s.pending_error() {
                    Some(e) => r == Err::<(), I2cError>(spec_nack_addr(e)) && final(self).regs()
                        == s.after_error_clear(),
                    None => if s.slave_nacks_address {
                        r == Err::<(), I2cError>(I2cError::NoAcknowledge(NackSource::Address))
                            && final(self).regs() == (I2cPeriph {
                            slave_nacks_address: false,
                            ..s
                        })
                    } else {
                        r is Ok && final(self).regs() == (I2cPeriph { addr_acknowledged: true, ..s })
                    },
                }
            }),
    {
        let regs0 = self.hal_i2c.regs;
        self.hal_i2c.regs = I2cPeriph { last_addr: addr, last_addr_read: read, ..regs0 };
        match self.hal_i2c.check_and_clear_error_flags() {
            Err(e) => {
                // while waiting for the acknowledgment, a bare acknowledge
                // failure means the address phase was refused
                let mapped = match e {
                    I2cError::NoAcknowledge(_) => I2cError::NoAcknowledge(NackSource::Address),
                    other => other,
                };
                return Err(mapped);
            },
            Ok(()) => {},
        }
        let regs1 = self.hal_i2c.regs;
        if regs1.slave_nacks_address {
            // the slave leaves the acknowledge slot high: the poll sees the
            // acknowledge failure and gives up on the address phase
            self.hal_i2c.regs = I2cPeriph { slave_nacks_address: false, ..regs1 };
            return Err(I2cError::NoAcknowledge(NackSource::Address));
        }
        self.hal_i2c.regs = I2cPeriph { addr_acknowledged: true, ..regs1 };
        Ok(())
    }

    /// Clears the ADDR condition by reading the status register, latching
    /// the ACK flag as the acknowledge behaviour armed for the data phase.
    fn clear_addr_condition(&mut self)
        ensures
            final(self).eq_except_regs(*old(self)),
            final(self).regs() == (I2cPeriph {
                addr_acknowledged: false,
                ack_on_addr_clear: old(self).regs().ack,
                ..old(self).regs()
            }),
    {
        let regs = self.hal_i2c.regs;
        self.hal_i2c.regs = I2cPeriph {
            addr_acknowledged: false,
            ack_on_addr_clear: regs.ack,
            ..regs
        };
    }

    /// The bounded wait for the byte-transfer-finished flag: the model
    /// resolves the poll in one step — the last byte clears the shift
    /// register.
    fn wait_byte_transfer_finished(&mut self)
        ensures
            final(self).eq_except_regs(*old(self)),
            final(self).regs() == (I2cPeriph {
                byte_transfer_finished: true,
                ..old(self).regs()
            }),
    {
        let regs = self.hal_i2c.regs;
        self.hal_i2c.regs = I2cPeriph { byte_transfer_finished: true, ..regs };
    }

    /// Moves the idle transmit endpoint and stream into a live transfer
    /// bound to `buf`, leaving the slot active. The transfer is created
    /// stopped; [`start_tx_transfer`](Self::start_tx_transfer) arms it.
    fn create_tx_transfer(&mut self, buf: Vec<u8>)
        requires
            old(self).tx_slot is Idle,
        ensures
            final(self).eq_except_tx_slot(*old(self)),
            (old(self).tx_slot matches TxSlot::Idle(p, s) ==> final(self).tx_slot
                == TxSlot::Active(
                (TxTransfer { periph: p, stream: s, buf: buf, started: false }),
            )),
    {
        let mut slot = TxSlot::InTransition;
        core::mem::swap(&mut self.tx_slot, &mut slot);
        match slot {
            TxSlot::Idle(periph, stream) => {
                self.tx_slot = TxSlot::Active(TxTransfer { periph, stream, buf, started: false });
            },
            _ => {
                proof {
                    assert(false);
                }
            },
        }
    }

    /// Destroys the transmit transfer, returning the stream and endpoint to
    /// the idle slot. The buffer it was bound to is released.
    fn destroy_tx_transfer(&mut self)
        requires
            old(self).tx_slot is Active,
        ensures
            final(self).eq_except_tx_slot(*old(self)),
            (old(self).tx_slot matches TxSlot::Active(t) ==> final(self).tx_slot == TxSlot::Idle(
                t.periph,
                t.stream,
            )),
    {
        let mut slot = TxSlot::InTransition;
        core::mem::swap(&mut self.tx_slot, &mut slot);
        match slot {
            TxSlot::Active(t) => {
                let TxTransfer { periph, stream, buf: _, started: _ } = t;
                self.tx_slot = TxSlot::Idle(periph, stream);
            },
            _ => {
                proof {
                    assert(false);
                }
            },
        }
    }

    /// Moves the idle receive endpoint and stream into a live transfer
    /// bound to `buf`, leaving the slot active. The transfer is created
    /// stopped; [`start_rx_transfer`](Self::start_rx_transfer) arms it.
    fn create_rx_transfer(&mut self, buf: Vec<u8>)
        requires
            old(self).rx_slot is Idle,
        ensures
            final(self).eq_except_rx_slot(*old(self)),
            (old(self).rx_slot matches RxSlot::Idle(p, s) ==> final(self).rx_slot
                == RxSlot::Active(
                (RxTransfer { periph: p, stream: s, buf: buf, started: false }),
            )),
    {
        let mut slot = RxSlot::InTransition;
        core::mem::swap(&mut self.rx_slot, &mut slot);
        match slot {
            RxSlot::Idle(periph, stream) => {
                self.rx_slot = RxSlot::Active(RxTransfer { periph, stream, buf, started: false });
            },
            _ => {
                proof {
                    assert(false);
                }
            },
        }
    }

    /// Destroys the receive transfer, returning the stream and endpoint to
    /// the idle slot. The buffer it was bound to is released.
    fn destroy_rx_transfer(&mut self)
        requires
            old(self).rx_slot is Active,
        ensures
            final(self).eq_except_rx_slot(*old(self)),
            (old(self).rx_slot matches RxSlot::Active(t) ==> final(self).rx_slot == RxSlot::Idle(
                t.periph,
                t.stream,
            )),
    {
        let mut slot = RxSlot::InTransition;
        core::mem::swap(&mut self.rx_slot, &mut slot);
        match slot {
            RxSlot::Active(t) => {
                let RxTransfer { periph, stream, buf: _, started: _ } = t;
                self.rx_slot = RxSlot::Idle(periph, stream);
            },
            _ => {
                proof {
                    assert(false);
                }
            },
        }
    }

    /// Tells the transmit stream to start moving data.
    fn start_tx_transfer(&mut self)
        requires
            old(self).tx_slot is Active,
        ensures
            final(self).eq_except_tx_slot(*old(self)),
            (old(self).tx_slot matches TxSlot::Active(t) ==> final(self).tx_slot == TxSlot::Active(
                (TxTransfer { started: true, ..t }),
            )),
    {
        let mut slot = TxSlot::InTransition;
        core::mem::swap(&mut self.tx_slot, &mut slot);
        match slot {
            TxSlot::Active(t) => {
                self.tx_slot = TxSlot::Active(TxTransfer { started: true, ..t });
            },
            _ => {
                proof {
                    assert(false);
                }
            },
        }
    }

    /// Tells the receive stream to start moving data.
    fn start_rx_transfer(&mut self)
        requires
            old(self).rx_slot is Active,
        ensures
            final(self).eq_except_rx_slot(*old(self)),
            (old(self).rx_slot matches RxSlot::Active(t) ==> final(self).rx_slot == RxSlot::Active(
                (RxTransfer { started: true, ..t }),
            )),
    {
        let mut slot = RxSlot::InTransition;
        core::mem::swap(&mut self.rx_slot, &mut slot);
        match slot {
            RxSlot::Active(t) => {
                self.rx_slot = RxSlot::Active(RxTransfer { started: true, ..t });
            },
            _ => {
                proof {
                    assert(false);
                }
            },
        }
    }

    /// Takes the armed callback, if any, and pairs it with the result:
    /// taking it out consumes it, so a second call delivers nothing.
    fn call_callback_once(&mut self, result: Result<(), TransactionError>) -> (c: Completion<C>)
        ensures
            c.callback == old(self).callback,
            c.result == result,
            final(self).callback is None,
            final(self).eq_except_callback(*old(self)),
    {
        let mut cb: Option<C> = None;
        core::mem::swap(&mut self.callback, &mut cb);
        Completion { callback: cb, result }
    }

    /// Finalization, shared by every outcome: disables DMA requests and
    /// error-interrupt generation, issues a STOP exactly for the
    /// not-acknowledged outcomes, consumes the callback into the returned
    /// completion, and destroys whichever transfers still exist, returning
    /// both slots to idle before the completion is handed out.
    fn finish_transfer_with_result(&mut self, result: Result<(), TransactionError>) -> (c:
        Completion<C>)
        requires
            old(self).slots_settled(),
        ensures
            c.callback == old(self).callback,
            c.result == result,
            final(self).callback is None,
            final(self).slots_idle(),
            final(self).address == old(self).address,
            final(self).rx_len == old(self).rx_len,
            final(self).tx_dma == old(self).tx_dma,
            final(self).rx_dma == old(self).rx_dma,
            final(self).regs() == spec_after_finish(old(self).regs(), result_is_nack(result)),
            (old(self).tx_slot matches TxSlot::Active(t) ==> final(self).tx_slot == TxSlot::Idle(
                t.periph,
                t.stream,
            )),
            (old(self).tx_slot is Idle ==> final(self).tx_slot == old(self).tx_slot),
            (old(self).rx_slot matches RxSlot::Active(t) ==> final(self).rx_slot == RxSlot::Idle(
                t.periph,
                t.stream,
            )),
            (old(self).rx_slot is Idle ==> final(self).rx_slot == old(self).rx_slot),
            final(self).wf(),
    {
        self.disable_dma_requests();
        self.disable_error_interrupt_generation();
        let is_nack = match &result {
            Err(TransactionError::I2CError(I2cError::NoAcknowledge(_))) => true,
            _ => false,
        };
        if is_nack {
            self.send_stop();
        }
        let c = self.call_callback_once(result);
        let tx_active = match &self.tx_slot {
            TxSlot::Active(_) => true,
            _ => false,
        };
        if tx_active {
            self.destroy_tx_transfer();
        }
        let rx_active = match &self.rx_slot {
            RxSlot::Active(_) => true,
            _ => false,
        };
        if rx_active {
            self.destroy_rx_transfer();
        }
        c
    }

    /// Prepares a write transaction: START, address (write), ADDR clear,
    /// error-interrupt enable.
    fn prepare_write(&mut self, addr: u8) -> (r: Result<(), I2cError>)
        ensures
            final(self).eq_except_regs(*old(self)),
            r == spec_prepare_outcome(old(self).regs()),
            final(self).regs() == spec_after_prepare(old(self).regs(), addr, false, 0),
    {
        match self.send_start(false) {
            Err(e) => {
                return Err(e);
            },
            Ok(()) => {},
        }
        match self.send_address(addr, false) {
            Err(e) => {
                return Err(e);
            },
            Ok(()) => {},
        }
        self.clear_addr_condition();
        self.enable_error_interrupt_generation();
        Ok(())
    }

    /// Prepares a read transaction: START, address (read), the ACK timing
    /// decision, ADDR clear, error-interrupt enable. When at most one byte
    /// is expected, the ACK bit is cleared before the ADDR condition, so
    /// that the refusal of the byte after next is armed in time.
    fn prepare_read(&mut self, addr: u8, buf_len: usize) -> (r: Result<(), I2cError>)
        ensures
            final(self).eq_except_regs(*old(self)),
            r == spec_prepare_outcome(old(self).regs()),
            final(self).regs() == spec_after_prepare(old(self).regs(), addr, true, buf_len as int),
            r is Ok && buf_len <= 1 ==> !final(self).regs().ack_on_addr_clear,
            r is Ok && buf_len > 1 ==> final(self).regs().ack_on_addr_clear,
    {
        match self.send_start(true) {
            Err(e) => {
                return Err(e);
            },
            Ok(()) => {},
        }
        match self.send_address(addr, true) {
            Err(e) => {
                return Err(e);
            },
            Ok(()) => {},
        }
        if buf_len <= 1 {
            let regs = self.hal_i2c.regs;
            self.hal_i2c.regs = I2cPeriph { ack: false, ..regs };
        }
        self.clear_addr_condition();
        self.enable_error_interrupt_generation();
        Ok(())
    }

    /// Resolves a completed transmit stage: tears the transmit transfer
    /// down and, for a write-then-read, generates the restart and starts
    /// the receive transfer; otherwise the transaction is done and a STOP
    /// follows the completion.
    fn complete_transmit_stage(&mut self) -> (r: Option<Completion<C>>)
        requires
            old(self).tx_slot is Active,
            !(old(self).rx_slot is InTransition),
        ensures
            final(self).wf(),
            final(self).address == old(self).address,
            final(self).rx_len == old(self).rx_len,
            final(self).tx_dma == old(self).tx_dma,
            final(self).rx_dma == old(self).rx_dma,
            (!old(self).rx_active() ==> (r matches Some(c) && c.callback == old(self).callback
                && c.result == Ok::<(), TransactionError>(())) && final(self).callback is None
                && final(self).slots_idle() && final(self).regs() == (I2cPeriph {
                stop: true,
                bus_busy: false,
                byte_transfer_finished: true,
                ..spec_after_finish(old(self).regs(), false)
            })),
            (old(self).rx_active() ==> match spec_prepare_outcome(old(self).regs()) {
                Ok(_) => {
                    &&& r is None
                    &&& final(self).callback == old(self).callback
                    &&& final(self).tx_slot is Idle
                    &&& (old(self).rx_slot matches RxSlot::Active(t) ==> final(self).rx_slot
                        == RxSlot::Active((RxTransfer { started: true, ..t })))
                    &&& final(self).regs() == spec_after_prepare(
                        (I2cPeriph { byte_transfer_finished: true, ..old(self).regs() }),
                        old(self).address,
                        true,
                        old(self).rx_len as int,
                    )
                },
                Err(e) => {
                    &&& (r matches Some(c) && c.callback == old(self).callback && c.result
                        == Err::<(), TransactionError>(TransactionError::I2CError(e)))
                    &&& final(self).callback is None
                    &&& final(self).slots_idle()
                    &&& final(self).regs() == spec_after_finish(
                        spec_after_prepare(
                            (I2cPeriph { byte_transfer_finished: true, ..old(self).regs() }),
                            old(self).address,
                            true,
                            old(self).rx_len as int,
                        ),
                        e.is_nack(),
                    )
                },
            }),
    {
        // a pending receive transfer means this is a write-then-read
        let have_read_after = match &self.rx_slot {
            RxSlot::Active(_) => true,
            _ => false,
        };
        self.destroy_tx_transfer();
        if !have_read_after {
            let c = self.finish_transfer_with_result(Ok(()));
            self.wait_byte_transfer_finished();
            self.send_stop();
            return Some(c);
        }
        // the last transmitted byte must fully clear the shift register
        // before the restart is generated
        self.wait_byte_transfer_finished();
        let address = self.address;
        let rx_len = self.rx_len;
        match self.prepare_read(address, rx_len) {
            Err(e) => {
                let c = self.finish_transfer_with_result(Err(TransactionError::I2CError(e)));
                return Some(c);
            },
            Ok(()) => {},
        }
        self.start_rx_transfer();
        None
    }

    /// Handles a DMA stream interrupt; the host must call this from the
    /// streams' interrupt context. One invocation resolves one event, with
    /// the transmit transfer taking strict priority: while it exists,
    /// receive flags are not inspected.
    pub fn handle_dma_interrupt(&mut self) -> (r: Option<Completion<C>>)
        requires
            old(self).wf(),
        ensures
            final(self).wf(),
            final(self).address == old(self).address,
            final(self).rx_len == old(self).rx_len,
            (r matches Some(c) ==> c.callback == old(self).callback && final(self).callback is None
                && final(self).slots_idle()),
            (r is None ==> final(self).callback == old(self).callback),
            (final(self).rx_started() && !old(self).rx_started() ==> old(self).tx_active()
                && !old(self).tx_dma.fifo_error && !old(self).tx_dma.transfer_error && old(self).tx_dma.transfer_complete && r is None),
            (!old(self).tx_active() && !old(self).rx_active() ==> r is None && *final(self) == *old(self)),
            (old(self).tx_active() && old(self).tx_dma.fifo_error ==> r is None && final(self).eq_except_tx_dma(*old(self)) && final(self).tx_dma == (DmaStreamFlags {
                fifo_error: false,
                ..old(self).tx_dma
            })),
            (old(self).tx_active() && !old(self).tx_dma.fifo_error && old(self).tx_dma.transfer_error ==> (r matches Some(c) && c.result == Err::<(), TransactionError>(TransactionError::TransferError)) && final(self).tx_dma == (DmaStreamFlags {
                transfer_error: false,
                ..old(self).tx_dma
            }) && final(self).rx_dma == old(self).rx_dma && final(self).regs() == spec_after_finish(
                old(self).regs(),
                false,
            )),
            (old(self).tx_active() && !old(self).tx_dma.fifo_error && !old(self).tx_dma.transfer_error && old(self).tx_dma.transfer_complete && !old(self).rx_active()
                ==> (r matches Some(c) && c.result == Ok::<(), TransactionError>(())) && final(self).tx_dma
                == (DmaStreamFlags { transfer_complete: false, ..old(self).tx_dma }) && final(self).rx_dma == old(self).rx_dma && final(self).regs() == (I2cPeriph {
                stop: true,
                bus_busy: false,
                byte_transfer_finished: true,
                ..spec_after_finish(old(self).regs(), false)
            })),
            (old(self).tx_active() && !old(self).tx_dma.fifo_error && !old(self).tx_dma.transfer_error && old(self).tx_dma.transfer_complete && old(self).rx_active()
                ==> final(self).tx_dma == (DmaStreamFlags {
                transfer_complete: false,
                ..old(self).tx_dma
            }) && final(self).rx_dma == old(self).rx_dma && (match spec_prepare_outcome(
                old(self).regs(),
            ) {
                Ok(_) => {
                    &&& r is None
                    &&& final(self).tx_slot is Idle
                    &&& (old(self).rx_slot matches RxSlot::Active(t) ==> final(self).rx_slot
                        == RxSlot::Active((RxTransfer { started: true, ..t })))
                    &&& final(self).regs() == spec_after_prepare(
                        (I2cPeriph { byte_transfer_finished: true, ..old(self).regs() }),
                        old(self).address,
                        true,
                        old(self).rx_len as int,
                    )
                },
                Err(e) => {
                    &&& (r matches Some(c) && c.result == Err::<(), TransactionError>(TransactionError::I2CError(e)))
                    &&& final(self).regs() == spec_after_finish(
                        spec_after_prepare(
                            (I2cPeriph { byte_transfer_finished: true, ..old(self).regs() }),
                            old(self).address,
                            true,
                            old(self).rx_len as int,
                        ),
                        e.is_nack(),
                    )
                },
            })),
            (old(self).tx_active() && !old(self).tx_dma.fifo_error && !old(self).tx_dma.transfer_error && !old(self).tx_dma.transfer_complete ==> r is None && *final(self) == *old(self)),
            (!old(self).tx_active() && old(self).rx_active() && old(self).rx_dma.fifo_error ==> r
                is None && final(self).eq_except_rx_dma(*old(self)) && final(self).rx_dma
                == (DmaStreamFlags { fifo_error: false, ..old(self).rx_dma })),
            (!old(self).tx_active() && old(self).rx_active() && !old(self).rx_dma.fifo_error && old(self).rx_dma.transfer_error ==> (r matches Some(c) && c.result == Err::<(), TransactionError>(TransactionError::TransferError)) && final(self).rx_dma == (DmaStreamFlags {
                transfer_error: false,
                ..old(self).rx_dma
            }) && final(self).tx_dma == old(self).tx_dma && final(self).regs() == spec_after_finish(
                old(self).regs(),
                false,
            )),
            (!old(self).tx_active() && old(self).rx_active() && !old(self).rx_dma.fifo_error
                && !old(self).rx_dma.transfer_error && old(self).rx_dma.transfer_complete ==> (
            r matches Some(c) && c.result == Ok::<(), TransactionError>(())) && final(self).rx_dma == (DmaStreamFlags {
                transfer_complete: false,
                ..old(self).rx_dma
            }) && final(self).tx_dma == old(self).tx_dma && final(self).regs() == (I2cPeriph {
                ack: false,
                stop: true,
                bus_busy: false,
                ..spec_after_finish(old(self).regs(), false)
            })),
            (!old(self).tx_active() && old(self).rx_active() && !old(self).rx_dma.fifo_error
                && !old(self).rx_dma.transfer_error && !old(self).rx_dma.transfer_complete ==> r
                is None && *final(self) == *old(self)),
    {
        let tx_is_active = match &self.tx_slot {
            TxSlot::Active(_) => true,
            _ => false,
        };
        if tx_is_active {
            if self.tx_dma.fifo_error {
                // non-fatal: clear the flag and let the hardware retry the
                // FIFO stage
                self.tx_dma = DmaStreamFlags { fifo_error: false, ..self.tx_dma };
                return None;
            }
            if self.tx_dma.transfer_error {
                self.tx_dma = DmaStreamFlags { transfer_error: false, ..self.tx_dma };
                let c = self.finish_transfer_with_result(Err(TransactionError::TransferError));
                return Some(c);
            }
            if self.tx_dma.transfer_complete {
                self.tx_dma = DmaStreamFlags { transfer_complete: false, ..self.tx_dma };
                return self.complete_transmit_stage();
            }
            // one interrupt resolves one event: while the transmit transfer
            // exists, receive flags are never inspected
            return None;
        }
        let rx_is_active = match &self.rx_slot {
            RxSlot::Active(_) => true,
            _ => false,
        };
        if !rx_is_active {
            return None;
        }
        if self.rx_dma.fifo_error {
            self.rx_dma = DmaStreamFlags { fifo_error: false, ..self.rx_dma };
            return None;
        }
        if self.rx_dma.transfer_error {
            self.rx_dma = DmaStreamFlags { transfer_error: false, ..self.rx_dma };
            let c = self.finish_transfer_with_result(Err(TransactionError::TransferError));
            return Some(c);
        }
        if self.rx_dma.transfer_complete {
            self.rx_dma = DmaStreamFlags { transfer_complete: false, ..self.rx_dma };
            let c = self.finish_transfer_with_result(Ok(()));
            let regs = self.hal_i2c.regs;
            self.hal_i2c.regs = I2cPeriph { ack: false, ..regs };
            self.send_stop();
            return Some(c);
        }
        None
    }

    /// Handles the peripheral's error interrupt; the host must call this
    /// from the error-interrupt context. An error flag finalizes the
    /// transaction with the corresponding error.
    pub fn handle_error_interrupt(&mut self) -> (r: Option<Completion<C>>)
        requires
            old(self).wf(),
        ensures
            final(self).wf(),
            (old(self).regs().pending_error() is None ==> r is None && *final(self) == *old(self)),
            (old(self).regs().pending_error() matches Some(e) ==> (r matches Some(c) && c.callback
                == old(self).callback && c.result == Err::<(), TransactionError>(TransactionError::I2CError(e))) && final(self).callback is None && final(self).slots_idle() && final(self).regs()
                == spec_after_finish(old(self).regs().after_error_clear(), e.is_nack()) && final(self).tx_dma == old(self).tx_dma && final(self).rx_dma == old(self).rx_dma),
    {
        match self.hal_i2c.check_and_clear_error_flags() {
            Err(e) => {
                let c = self.finish_transfer_with_result(Err(TransactionError::I2CError(e)));
                Some(c)
            },
            Ok(()) => None,
        }
    }

    /// Begins an asynchronous write of `bytes` to the slave at `addr`.
    ///
    /// While the bus is busy this returns `WouldBlock` with no effect. A
    /// preparation failure is reported twice, as the original contract
    /// warns: in the returned error and in the completion handed back
    /// beside it, which carries the supplied callback. On success the
    /// transfer is started and every further outcome arrives through the
    /// interrupt handlers.
    pub fn write_dma(&mut self, addr: u8, bytes: Vec<u8>, callback: Option<C>) -> (r: (
        nb::Result<(), I2cError>,
        Option<Completion<C>>,
    ))
        requires
            old(self).wf(),
        ensures
            final(self).wf(),
            (old(self).regs().bus_busy ==> r.0 == Err::<(), nb::Error<I2cError>>(
                nb::Error::WouldBlock,
            ) && r.1 is None && *final(self) == *old(self)),
            (!old(self).regs().bus_busy ==> match spec_prepare_outcome(old(self).regs()) {
                Ok(_) => {
                    &&& r.0 is Ok
                    &&& r.1 is None
                    &&& final(self).callback == callback
                    &&& final(self).tx_started()
                    &&& (old(self).tx_slot matches TxSlot::Idle(p, s) ==> final(self).tx_slot
                        == TxSlot::Active(
                        (TxTransfer { periph: p, stream: s, buf: bytes, started: true }),
                    ))
                    &&& final(self).rx_slot == old(self).rx_slot
                    &&& final(self).regs() == spec_regs_after_begin(
                        old(self).regs(),
                        addr,
                        false,
                        0,
                    )
                    &&& final(self).address == old(self).address
                    &&& final(self).rx_len == old(self).rx_len
                    &&& final(self).tx_dma == old(self).tx_dma
                    &&& final(self).rx_dma == old(self).rx_dma
                },
                Err(e) => {
                    &&& r.0 == Err::<(), nb::Error<I2cError>>(nb::Error::Other(e))
                    &&& r.1 matches Some(c) && c.callback == callback && c.result == Err::<
                        (),
                        TransactionError,
                    >(TransactionError::I2CError(e))
                    &&& final(self).callback is None
                    &&& final(self).slots_idle()
                    &&& final(self).regs() == spec_after_finish(
                        spec_regs_after_begin(old(self).regs(), addr, false, 0),
                        e.is_nack(),
                    )
                },
            }),
    {
        match self.busy_res() {
            Err(e) => {
                return (Err(e), None);
            },
            Ok(()) => {},
        }
        self.enable_dma_requests();
        self.create_tx_transfer(bytes);
        self.callback = callback;
        match self.prepare_write(addr) {
            Err(e) => {
                // reset the driver on errors
                let c = self.finish_transfer_with_result(Err(TransactionError::I2CError(e)));
                return (Err(nb::Error::Other(e)), Some(c));
            },
            Ok(()) => {},
        }
        self.start_tx_transfer();
        (Ok(()), None)
    }

    /// Begins an asynchronous read from the slave at `addr` into a buffer
    /// of length `buf.len()`; see [`write_dma`](Self::write_dma) for the
    /// busy rejection and the two-fold failure reporting.
    pub fn read_dma(&mut self, addr: u8, buf: Vec<u8>, callback: Option<C>) -> (r: (
        nb::Result<(), I2cError>,
        Option<Completion<C>>,
    ))
        requires
            old(self).wf(),
        ensures
            final(self).wf(),
            (old(self).regs().bus_busy ==> r.0 == Err::<(), nb::Error<I2cError>>(
                nb::Error::WouldBlock,
            ) && r.1 is None && *final(self) == *old(self)),
            (!old(self).regs().bus_busy ==> match spec_prepare_outcome(old(self).regs()) {
                Ok(_) => {
                    &&& r.0 is Ok
                    &&& r.1 is None
                    &&& final(self).callback == callback
                    &&& final(self).rx_started()
                    &&& (old(self).rx_slot matches RxSlot::Idle(p, s) ==> final(self).rx_slot
                        == RxSlot::Active(
                        (RxTransfer { periph: p, stream: s, buf: buf, started: true }),
                    ))
                    &&& final(self).tx_slot == old(self).tx_slot
                    &&& final(self).regs() == spec_regs_after_begin(
                        old(self).regs(),
                        addr,
                        true,
                        buf.len() as int,
                    )
                    &&& (buf.len() <= 1 ==> !final(self).regs().ack_on_addr_clear)
                    &&& (buf.len() > 1 ==> final(self).regs().ack_on_addr_clear)
                    &&& final(self).address == old(self).address
                    &&& final(self).rx_len == old(self).rx_len
                    &&& final(self).tx_dma == old(self).tx_dma
                    &&& final(self).rx_dma == old(self).rx_dma
                },
                Err(e) => {
                    &&& r.0 == Err::<(), nb::Error<I2cError>>(nb::Error::Other(e))
                    &&& r.1 matches Some(c) && c.callback == callback && c.result == Err::<
                        (),
                        TransactionError,
                    >(TransactionError::I2CError(e))
                    &&& final(self).callback is None
                    &&& final(self).slots_idle()
                    &&& final(self).regs() == spec_after_finish(
                        spec_regs_after_begin(old(self).regs(), addr, true, buf.len() as int),
                        e.is_nack(),
                    )
                },
            }),
    {
        match self.busy_res() {
            Err(e) => {
                return (Err(e), None);
            },
            Ok(()) => {},
        }
        // the length decides the ACK timing before the buffer moves on
        let buf_len = buf.len();
        self.enable_dma_requests();
        self.create_rx_transfer(buf);
        self.callback = callback;
        match self.prepare_read(addr, buf_len) {
            Err(e) => {
                // reset the driver on errors
                let c = self.finish_transfer_with_result(Err(TransactionError::I2CError(e)));
                return (Err(nb::Error::Other(e)), Some(c));
            },
            Ok(()) => {},
        }
        self.start_rx_transfer();
        (Ok(()), None)
    }

    /// Begins an asynchronous write of `bytes` followed by a restart and a
    /// read into a buffer of length `buf.len()`, with a single completion
    /// for the whole compound transaction. The receive transfer is created
    /// here but not started: the transmit completion arms it.
    pub fn write_read_dma(&mut self, addr: u8, bytes: Vec<u8>, buf: Vec<u8>, callback: Option<
        C,
    >) -> (r: (nb::Result<(), I2cError>, Option<Completion<C>>))
        requires
            old(self).wf(),
        ensures
            final(self).wf(),
            (old(self).regs().bus_busy ==> r.0 == Err::<(), nb::Error<I2cError>>(
                nb::Error::WouldBlock,
            ) && r.1 is None && *final(self) == *old(self)),
            (!old(self).regs().bus_busy ==> match spec_prepare_outcome(old(self).regs()) {
                Ok(_) => {
                    &&& r.0 is Ok
                    &&& r.1 is None
                    &&& final(self).callback == callback
                    &&& final(self).address == addr
                    &&& final(self).rx_len == buf.len()
                    &&& final(self).tx_started()
                    &&& final(self).rx_active() && !final(self).rx_started()
                    &&& (old(self).tx_slot matches TxSlot::Idle(p, s) ==> final(self).tx_slot
                        == TxSlot::Active(
                        (TxTransfer { periph: p, stream: s, buf: bytes, started: true }),
                    ))
                    &&& (old(self).rx_slot matches RxSlot::Idle(p, s) ==> final(self).rx_slot
                        == RxSlot::Active(
                        (RxTransfer { periph: p, stream: s, buf: buf, started: false }),
                    ))
                    &&& final(self).regs() == spec_regs_after_begin(
                        old(self).regs(),
                        addr,
                        false,
                        0,
                    )
                    &&& final(self).tx_dma == old(self).tx_dma
                    &&& final(self).rx_dma == old(self).rx_dma
                },
                Err(e) => {
                    &&& r.0 == Err::<(), nb::Error<I2cError>>(nb::Error::Other(e))
                    &&& r.1 matches Some(c) && c.callback == callback && c.result == Err::<
                        (),
                        TransactionError,
                    >(TransactionError::I2CError(e))
                    &&& final(self).callback is None
                    &&& final(self).slots_idle()
                    &&& final(self).regs() == spec_after_finish(
                        spec_regs_after_begin(old(self).regs(), addr, false, 0),
                        e.is_nack(),
                    )
                },
            }),
    {
        match self.busy_res() {
            Err(e) => {
                return (Err(e), None);
            },
            Ok(()) => {},
        }
        self.address = addr;
        self.rx_len = buf.len();
        self.enable_dma_requests();
        self.create_tx_transfer(bytes);
        self.create_rx_transfer(buf);
        self.callback = callback;
        match self.prepare_write(addr) {
            Err(e) => {
                // reset the driver on errors
                let c = self.finish_transfer_with_result(Err(TransactionError::I2CError(e)));
                return (Err(nb::Error::Other(e)), Some(c));
            },
            Ok(()) => {},
        }
        self.start_tx_transfer();
        (Ok(()), None)
    }

    /// Blocking write behind the busy check: while the bus is busy it
    /// returns `WouldBlock` and does nothing. On a not-acknowledged error
    /// from the underlying driver a STOP is issued before the error is
    /// reported, which the underlying driver does not do itself.
    pub fn write(&mut self, addr: u8, bytes: &[u8]) -> (r: nb::Result<(), I2cError>)
        requires
            old(self).wf(),
        ensures
            final(self).wf(),
            final(self).eq_except_regs(*old(self)),
            (old(self).regs().bus_busy ==> r == Err::<(), nb::Error<I2cError>>(
                nb::Error::WouldBlock,
            ) && *final(self) == *old(self)),
            (!old(self).regs().bus_busy ==> match old(self).regs().blocking_outcome() {
                Ok(_) => r is Ok && final(self).regs() == old(self).regs().after_blocking(addr),
                Err(e) => r == Err::<(), nb::Error<I2cError>>(nb::Error::Other(e)) && (if e.is_nack() {
                    final(self).regs() == (I2cPeriph {
                        stop: true,
                        bus_busy: false,
                        ..old(self).regs().after_blocking(addr)
                    })
                } else {
                    final(self).regs() == old(self).regs().after_blocking(addr)
                }),
            }),
    {
        match self.busy_res() {
            Err(e) => {
                return Err(e);
            },
            Ok(()) => {},
        }
        match self.hal_i2c.write(addr, bytes) {
            Ok(()) => Ok(()),
            Err(I2cError::NoAcknowledge(source)) => {
                self.send_stop();
                Err(nb::Error::Other(I2cError::NoAcknowledge(source)))
            },
            Err(error) => Err(nb::Error::Other(error)),
        }
    }

    /// Blocking read behind the busy check; see [`write`](Self::write)
    /// for the busy rejection and the STOP after a not-acknowledged error.
    pub fn read(&mut self, addr: u8, buffer: &mut Vec<u8>) -> (r: nb::Result<(), I2cError>)
        requires
            old(self).wf(),
        ensures
            final(self).wf(),
            final(self).eq_except_regs(*old(self)),
            *final(buffer) == *old(buffer),
            (old(self).regs().bus_busy ==> r == Err::<(), nb::Error<I2cError>>(
                nb::Error::WouldBlock,
            ) && *final(self) == *old(self)),
            (!old(self).regs().bus_busy ==> match old(self).regs().blocking_outcome() {
                Ok(_) => r is Ok && final(self).regs() == old(self).regs().after_blocking(addr),
                Err(e) => r == Err::<(), nb::Error<I2cError>>(nb::Error::Other(e)) && (if e.is_nack() {
                    final(self).regs() == (I2cPeriph {
                        stop: true,
                        bus_busy: false,
                        ..old(self).regs().after_blocking(addr)
                    })
                } else {
                    final(self).regs() == old(self).regs().after_blocking(addr)
                }),
            }),
    {
        match self.busy_res() {
            Err(e) => {
                return Err(e);
            },
            Ok(()) => {},
        }
        match self.hal_i2c.read(addr, buffer) {
            Ok(()) => Ok(()),
            Err(I2cError::NoAcknowledge(source)) => {
                self.send_stop();
                Err(nb::Error::Other(I2cError::NoAcknowledge(source)))
            },
            Err(error) => Err(nb::Error::Other(error)),
        }
    }

    /// Blocking write-then-read behind the busy check; see
    /// [`write`](Self::write) for the busy rejection and the STOP after a
    /// not-acknowledged error.
    pub fn write_read(&mut self, addr: u8, bytes: &[u8], buffer: &mut Vec<u8>) -> (r: nb::Result<
        (),
        I2cError,
    >)
        requires
            old(self).wf(),
        ensures
            final(self).wf(),
            final(self).eq_except_regs(*old(self)),
            *final(buffer) == *old(buffer),
            (old(self).regs().bus_busy ==> r == Err::<(), nb::Error<I2cError>>(
                nb::Error::WouldBlock,
            ) && *final(self) == *old(self)),
            (!old(self).regs().bus_busy ==> match old(self).regs().blocking_outcome() {
                Ok(_) => r is Ok && final(self).regs() == old(self).regs().after_blocking(addr),
                Err(e) => r == Err::<(), nb::Error<I2cError>>(nb::Error::Other(e)) && (if e.is_nack() {
                    final(self).regs() == (I2cPeriph {
                        stop: true,
                        bus_busy: false,
                        ..old(self).regs().after_blocking(addr)
                    })
                } else {
                    final(self).regs() == old(self).regs().after_blocking(addr)
                }),
            }),
    {
        match self.busy_res() {
            Err(e) => {
                return Err(e);
            },
            Ok(()) => {},
        }
        match self.hal_i2c.write_read(addr, bytes, buffer) {
            Ok(()) => Ok(()),
            Err(I2cError::NoAcknowledge(source)) => {
                self.send_stop();
                Err(nb::Error::Other(I2cError::NoAcknowledge(source)))
            },
            Err(error) => Err(nb::Error::Other(error)),
        }
    }
}

impl<C> I2CMasterWriteDMA<C> for I2CMasterDma<C> {
    open spec fn ready(&self) -> bool {
        self.wf()
    }

    fn write_dma(&mut self, addr: u8, bytes: Vec<u8>, callback: Option<C>) -> (r: (
        nb::Result<(), I2cError>,
        Option<Completion<C>>,
    )) {
        I2CMasterDma::write_dma(self, addr, bytes, callback)
    }
}

impl<C> I2CMasterReadDMA<C> for I2CMasterDma<C> {
    open spec fn ready(&self) -> bool {
        self.wf()
    }

    fn read_dma(&mut self, addr: u8, buf: Vec<u8>, callback: Option<C>) -> (r: (
        nb::Result<(), I2cError>,
        Option<Completion<C>>,
    )) {
        I2CMasterDma::read_dma(self, addr, buf, callback)
    }
}

impl<C> I2CMasterWriteReadDMA<C> for I2CMasterDma<C> {
    open spec fn ready(&self) -> bool {
        self.wf()
    }

    fn write_read_dma(&mut self, addr: u8, bytes: Vec<u8>, buf: Vec<u8>, callback: Option<C>) -> (r:
        (nb::Result<(), I2cError>, Option<Completion<C>>)) {
        I2CMasterDma::write_read_dma(self, addr, bytes, buf, callback)
    }
}

impl I2c {
    /// Converts the blocking driver into the non-blocking, DMA-capable
    /// form, binding `tx_stream` and `rx_stream` into the idle transmit and
    /// receive resource slots.
    pub fn use_dma<C>(self, tx_stream: DmaStream, rx_stream: DmaStream) -> (d: I2CMasterDma<C>)
        ensures
            d.hal_i2c == self,
            d.callback is None,
            d.address == 0,
            d.rx_len == 0,
            d.slots_idle(),
            d.tx_dma == DmaStreamFlags::spec_clear(),
            d.rx_dma == DmaStreamFlags::spec_clear(),
            d.wf(),
    {
        let tx = Tx {  };
        let rx = Rx {  };
        I2CMasterDma {
            hal_i2c: self,
            callback: None,
            address: 0,
            rx_len: 0,
            tx_slot: TxSlot::Idle(tx, tx_stream),
            rx_slot: RxSlot::Idle(rx, rx_stream),
            tx_dma: DmaStreamFlags::clear(),
            rx_dma: DmaStreamFlags::clear(),
        }
    }
}

} // verus!
