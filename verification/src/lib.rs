//! Non-blocking master-mode I2C driver that offloads data movement to a DMA
//! engine and completes transactions from interrupt context.
//!
//! The hardware collaborators — the I2C peripheral's registers, the slave on
//! the bus, and the two DMA streams — are modelled as plain data: status
//! flags that the environment raises and the driver reads or clears, and
//! control flags that the driver writes and the environment observes. Every
//! bounded hardware poll of the driver resolves in one step of the model,
//! with scripted flags deciding its outcome.
//!
//! The driver never blocks in its asynchronous path: an operation either
//! starts and completes later through [`i2c::dma::Completion`] values handed
//! out by the interrupt handlers, or fails during preparation and reports the
//! failure both in its return value and in a completion.

pub mod i2c;
pub mod nonblocking;
