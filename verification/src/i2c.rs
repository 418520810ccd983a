//! The blocking byte-level I2C driver and its peripheral register model.
//!
//! The register set is a struct of plain flags. Error flags and the slave's
//! scripted responses stand for what the bus would do; the driver's own
//! writes (START, STOP, ACK, the interrupt and DMA enables) are recorded so
//! that callers and tests can observe them.

use vstd::prelude::*;

pub mod dma;

verus! {

/// Sub-reason of a not-acknowledged condition: which phase the slave
/// refused to acknowledge.
#[derive(Clone, Copy, Debug, PartialEq, Eq, Structural)]
pub enum NackSource {
    /// The slave did not acknowledge its address.
    Address,
    /// The slave stopped acknowledging mid-transfer.
    Data,
    /// The register set alone cannot tell which phase was refused.
    Unknown,
}

/// Errors surfaced by the underlying register set.
#[derive(Clone, Copy, Debug, PartialEq, Eq, Structural)]
pub enum I2cError {
    Overrun,
    NoAcknowledge(NackSource),
    ArbitrationLoss,
    Bus,
}

impl I2cError {
    /// True exactly of the not-acknowledged errors, whatever the sub-reason.
    pub open spec fn is_nack(self) -> bool {
        self is NoAcknowledge
    }
}

/// Model of the I2C peripheral's registers together with the scripted
/// behaviour of the slave on the bus.
///
/// Status flags are raised by the environment (bus events) and read or
/// cleared by the driver; control flags are written by the driver and
/// observed by the environment.
#[derive(Clone, Copy, Debug)]
pub struct I2cPeriph {
    /// Overrun or underrun error flag.
    pub overrun: bool,
    /// Acknowledge-failure error flag.
    pub nack: bool,
    /// Arbitration-lost error flag.
    pub arbitration_lost: bool,
    /// Bus error flag.
    pub bus_error: bool,
    /// The last byte has fully cleared the shift register.
    pub byte_transfer_finished: bool,
    /// The transmitted slave address was acknowledged (the ADDR condition);
    /// must be explicitly cleared to proceed.
    pub addr_acknowledged: bool,
    /// A transfer is in progress on the bus.
    pub bus_busy: bool,
    /// START condition requested.
    pub start: bool,
    /// STOP condition requested.
    pub stop: bool,
    /// Acknowledge returned after a received byte.
    pub ack: bool,
    /// DMA-request generation enabled.
    pub dma_requests: bool,
    /// Error-interrupt generation enabled.
    pub error_interrupts: bool,
    /// The last slave address transmitted.
    pub last_addr: u8,
    /// The direction bit sent with the last address: true for a read.
    pub last_addr_read: bool,
    /// Scripted slave behaviour: the next address phase is not acknowledged.
    pub slave_nacks_address: bool,
    /// Scripted slave behaviour: a data byte of the next blocking transfer
    /// is not acknowledged.
    pub slave_nacks_data: bool,
    /// Latched observation: the value the ACK flag had when the ADDR
    /// condition was last cleared. The acknowledge behaviour of the coming
    /// data phase is armed at that moment.
    pub ack_on_addr_clear: bool,
}

impl I2cPeriph {
    /// The register set as it comes out of reset.
    pub open spec fn reset() -> I2cPeriph {
        I2cPeriph {
            overrun: false,
            nack: false,
            arbitration_lost: false,
            bus_error: false,
            byte_transfer_finished: false,
            addr_acknowledged: false,
            bus_busy: false,
            start: false,
            stop: false,
            ack: false,
            dma_requests: false,
            error_interrupts: false,
            last_addr: 0,
            last_addr_read: false,
            slave_nacks_address: false,
            slave_nacks_data: false,
            ack_on_addr_clear: false,
        }
    }

    /// The first pending error, in the order in which the flags are polled.
    pub open spec fn pending_error(self) -> Option<I2cError> {
        if self.overrun {
            Some(I2cError::Overrun)
        } else if self.nack {
            Some(I2cError::NoAcknowledge(NackSource::Unknown))
        } else if self.arbitration_lost {
            Some(I2cError::ArbitrationLoss)
        } else if self.bus_error {
            Some(I2cError::Bus)
        } else {
            None
        }
    }

    /// The registers after one check-and-clear pass: the first pending error
    /// flag, if any, is cleared.
    pub open spec fn after_error_clear(self) -> I2cPeriph {
        if self.overrun {
            I2cPeriph { overrun: false, ..self }
        } else if self.nack {
            I2cPeriph { nack: false, ..self }
        } else if self.arbitration_lost {
            I2cPeriph { arbitration_lost: false, ..self }
        } else if self.bus_error {
            I2cPeriph { bus_error: false, ..self }
        } else {
            self
        }
    }

    /// Result of one blocking transaction on these registers: a pending
    /// error flag wins, then the slave's scripted refusals, else success.
    pub open spec fn blocking_outcome(self) -> Result<(), I2cError> {
        match self.pending_error() {
            Some(e) => Err(e),
            None => if self.slave_nacks_address {
                Err(I2cError::NoAcknowledge(NackSource::Address))
            } else if self.slave_nacks_data {
                Err(I2cError::NoAcknowledge(NackSource::Data))
            } else {
                Ok(())
            },
        }
    }

    /// The registers after one blocking transaction addressed to `addr`.
    /// On success the transaction runs to its STOP and releases the bus; on
    /// a not-acknowledged refusal the bus is left claimed, with no STOP —
    /// the caller must issue it.
    pub open spec fn after_blocking(self, addr: u8) -> I2cPeriph {
        if self.pending_error() is Some {
            self.after_error_clear()
        } else if self.slave_nacks_address {
            I2cPeriph {
                start: true,
                bus_busy: true,
                last_addr: addr,
                slave_nacks_address: false,
                ..self
            }
        } else if self.slave_nacks_data {
            I2cPeriph {
                start: true,
                bus_busy: true,
                last_addr: addr,
                slave_nacks_data: false,
                ..self
            }
        } else {
            I2cPeriph { start: true, stop: true, bus_busy: false, last_addr: addr, ..self }
        }
    }
}

/// The blocking byte-level I2C driver: it owns the peripheral register
/// handle and generates every bus condition in polled mode.
#[derive(Clone, Copy, Debug)]
pub struct I2c {
    pub regs: I2cPeriph,
}

impl I2c {
    /// A driver over a register set fresh out of reset.
    pub fn new() -> (i: I2c)
        ensures
            i.regs == I2cPeriph::reset(),
    {
        I2c {
            regs: I2cPeriph {
                overrun: false,
                nack: false,
                arbitration_lost: false,
                bus_error: false,
                byte_transfer_finished: false,
                addr_acknowledged: false,
                bus_busy: false,
                start: false,
                stop: false,
                ack: false,
                dma_requests: false,
                error_interrupts: false,
                last_addr: 0,
                last_addr_read: false,
                slave_nacks_address: false,
                slave_nacks_data: false,
                ack_on_addr_clear: false,
            },
        }
    }

    /// Checks the error status flags and clears the first one found,
    /// translating it into the corresponding error.
    pub fn check_and_clear_error_flags(&mut self) -> (r: Result<(), I2cError>)
        ensures
            final(self).regs == old(self).regs.after_error_clear(),
            r == (match old(self).regs.pending_error() {
                Some(e) => Err::<(), I2cError>(e),
                None => Ok::<(), I2cError>(()),
            }),
    {
        let regs = self.regs;
        if regs.overrun {
            self.regs = I2cPeriph { overrun: false, ..regs };
            return Err(I2cError::Overrun);
        }
        if regs.nack {
            self.regs = I2cPeriph { nack: false, ..regs };
            return Err(I2cError::NoAcknowledge(NackSource::Unknown));
        }
        if regs.arbitration_lost {
            self.regs = I2cPeriph { arbitration_lost: false, ..regs };
            return Err(I2cError::ArbitrationLoss);
        }
        if regs.bus_error {
            self.regs = I2cPeriph { bus_error: false, ..regs };
            return Err(I2cError::Bus);
        }
        Ok(())
    }

    /// One whole blocking transaction: claim the bus, address the slave,
    /// move the bytes in polled mode and, on success, issue the STOP. A
    /// not-acknowledged refusal leaves the bus claimed without a STOP.
    fn blocking_transaction(&mut self, addr: u8) -> (r: Result<(), I2cError>)
        ensures
            r == old(self).regs.blocking_outcome(),
            final(self).regs == old(self).regs.after_blocking(addr),
    {
        match self.check_and_clear_error_flags() {
            Err(e) => {
                return Err(e);
            },
            Ok(()) => {},
        }
        let regs = self.regs;
        if regs.slave_nacks_address {
            self.regs = I2cPeriph {
                start: true,
                bus_busy: true,
                last_addr: addr,
                slave_nacks_address: false,
                ..regs
            };
            return Err(I2cError::NoAcknowledge(NackSource::Address));
        }
        if regs.slave_nacks_data {
            self.regs = I2cPeriph {
                start: true,
                bus_busy: true,
                last_addr: addr,
                slave_nacks_data: false,
                ..regs
            };
            return Err(I2cError::NoAcknowledge(NackSource::Data));
        }
        self.regs = I2cPeriph { start: true, stop: true, bus_busy: false, last_addr: addr, ..regs };
        Ok(())
    }

    /// Blocking write of `bytes` to the slave at `addr`. The model tracks
    /// bus control flow, not bus data, so the bytes themselves are not
    /// inspected.
    pub fn write(&mut self, addr: u8, bytes: &[u8]) -> (r: Result<(), I2cError>)
        ensures
            r == old(self).regs.blocking_outcome(),
            final(self).regs == old(self).regs.after_blocking(addr),
    {
        let _ = bytes;
        self.blocking_transaction(addr)
    }

    /// Blocking read from the slave at `addr`. The model tracks bus control
    /// flow, not bus data, so the buffer is left as it was handed in.
    pub fn read(&mut self, addr: u8, buffer: &mut Vec<u8>) -> (r: Result<(), I2cError>)
        ensures
            r == old(self).regs.blocking_outcome(),
            final(self).regs == old(self).regs.after_blocking(addr),
            *final(buffer) == *old(buffer),
    {
        let _ = buffer;
        self.blocking_transaction(addr)
    }

    /// Blocking write of `bytes` followed by a restart and a read into
    /// `buffer`, as one transaction.
    pub fn write_read(&mut self, addr: u8, bytes: &[u8], buffer: &mut Vec<u8>) -> (r: Result<
        (),
        I2cError,
    >)
        ensures
            r == old(self).regs.blocking_outcome(),
            final(self).regs == old(self).regs.after_blocking(addr),
            *final(buffer) == *old(buffer),
    {
        let _ = bytes;
        let _ = buffer;
        self.blocking_transaction(addr)
    }
}

} // verus!
