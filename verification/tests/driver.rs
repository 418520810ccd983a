//! Scenario tests for the asynchronous I2C driver: busy rejection, callback
//! delivery, slot restoration, sequencing of write-then-read, NACK
//! handling, ACK timing, and the blocking fallbacks.

use i2c_dma::i2c::dma::{
    Completion, DmaStream, I2CMasterDma, I2CMasterReadDMA, I2CMasterWriteDMA,
    I2CMasterWriteReadDMA, RxSlot, TransactionError, TxSlot,
};
use i2c_dma::i2c::{I2c, I2cError, NackSource};

type Driver = I2CMasterDma<u32>;

fn fresh_driver() -> Driver {
    I2c::new().use_dma::<u32>(DmaStream {}, DmaStream {})
}

fn slots_idle(d: &Driver) -> bool {
    matches!(d.tx_slot, TxSlot::Idle(..)) && matches!(d.rx_slot, RxSlot::Idle(..))
}

fn rx_created_not_started(d: &Driver) -> bool {
    match &d.rx_slot {
        RxSlot::Active(t) => !t.started,
        _ => false,
    }
}

fn rx_started(d: &Driver) -> bool {
    match &d.rx_slot {
        RxSlot::Active(t) => t.started,
        _ => false,
    }
}

#[test]
fn fresh_driver_is_idle() {
    let d = fresh_driver();
    assert!(!d.busy());
    assert!(slots_idle(&d));
    assert!(d.callback.is_none());
}

#[test]
fn busy_write_dma_would_block_without_side_effects() {
    let mut d = fresh_driver();
    d.hal_i2c.regs.bus_busy = true;
    let (r, c) = d.write_dma(0x50, vec![0xAA], Some(1));
    assert_eq!(r, Err(nb::Error::WouldBlock));
    assert!(c.is_none());
    assert!(slots_idle(&d));
    assert!(d.callback.is_none());
    assert!(!d.hal_i2c.regs.dma_requests);
}

#[test]
fn busy_read_dma_would_block_without_side_effects() {
    let mut d = fresh_driver();
    d.hal_i2c.regs.bus_busy = true;
    let (r, c) = d.read_dma(0x50, vec![0u8; 4], Some(1));
    assert_eq!(r, Err(nb::Error::WouldBlock));
    assert!(c.is_none());
    assert!(slots_idle(&d));
    assert!(d.callback.is_none());
}

#[test]
fn busy_write_read_dma_would_block_without_side_effects() {
    let mut d = fresh_driver();
    d.hal_i2c.regs.bus_busy = true;
    let (r, c) = d.write_read_dma(0x50, vec![1, 2], vec![0u8; 2], Some(1));
    assert_eq!(r, Err(nb::Error::WouldBlock));
    assert!(c.is_none());
    assert!(slots_idle(&d));
    assert!(d.callback.is_none());
}

#[test]
fn write_dma_fifo_error_then_complete_delivers_callback_once() {
    let mut d = fresh_driver();
    let (r, c) = d.write_dma(0x50, vec![0xAA, 0xBB], Some(7));
    assert_eq!(r, Ok(()));
    assert!(c.is_none());
    assert!(d.busy());
    assert_eq!(d.hal_i2c.regs.last_addr, 0x50);
    assert!(!d.hal_i2c.regs.last_addr_read);
    // a FIFO error is recoverable: cleared, nothing else happens
    d.tx_dma.fifo_error = true;
    assert!(d.handle_dma_interrupt().is_none());
    assert!(!d.tx_dma.fifo_error);
    assert!(matches!(d.tx_slot, TxSlot::Active(_)));
    // the transfer completes: exactly one callback delivery, success
    d.tx_dma.transfer_complete = true;
    let c = d.handle_dma_interrupt().expect("completion expected");
    assert_eq!(c.callback, Some(7));
    assert_eq!(c.result, Ok(()));
    assert!(slots_idle(&d));
    assert!(!d.busy());
    assert!(d.hal_i2c.regs.stop);
    // nothing is pending any more: later interrupts deliver nothing
    assert!(d.handle_dma_interrupt().is_none());
    assert!(d.handle_error_interrupt().is_none());
}

#[test]
fn read_dma_address_nack_reports_error_and_stops() {
    let mut d = fresh_driver();
    d.hal_i2c.regs.slave_nacks_address = true;
    let (r, c) = d.read_dma(0x50, vec![0u8; 1], Some(3));
    assert_eq!(
        r,
        Err(nb::Error::Other(I2cError::NoAcknowledge(NackSource::Address)))
    );
    let c: Completion<u32> = c.expect("completion expected");
    assert_eq!(c.callback, Some(3));
    assert_eq!(
        c.result,
        Err(TransactionError::I2CError(I2cError::NoAcknowledge(
            NackSource::Address
        )))
    );
    assert!(d.hal_i2c.regs.stop);
    assert!(!d.busy());
    assert!(slots_idle(&d));
    assert!(d.callback.is_none());
    // the error interrupt afterwards finds nothing to report
    assert!(d.handle_error_interrupt().is_none());
}

#[test]
fn error_interrupt_mid_flight_nack_finalizes_with_stop() {
    let mut d = fresh_driver();
    let (r, _) = d.write_dma(0x50, vec![0xAA], Some(9));
    assert_eq!(r, Ok(()));
    // the slave stops acknowledging: the acknowledge-failure flag rises
    d.hal_i2c.regs.nack = true;
    let c = d.handle_error_interrupt().expect("completion expected");
    assert_eq!(c.callback, Some(9));
    assert_eq!(
        c.result,
        Err(TransactionError::I2CError(I2cError::NoAcknowledge(
            NackSource::Unknown
        )))
    );
    assert!(d.hal_i2c.regs.stop);
    assert!(!d.busy());
    assert!(slots_idle(&d));
    // a second interrupt delivers nothing
    assert!(d.handle_error_interrupt().is_none());
}

#[test]
fn transfer_error_finalizes_without_forced_stop() {
    let mut d = fresh_driver();
    let (r, _) = d.write_dma(0x50, vec![0xAA], Some(5));
    assert_eq!(r, Ok(()));
    assert!(!d.hal_i2c.regs.stop);
    d.tx_dma.transfer_error = true;
    let c = d.handle_dma_interrupt().expect("completion expected");
    assert_eq!(c.callback, Some(5));
    assert_eq!(c.result, Err(TransactionError::TransferError));
    assert!(slots_idle(&d));
    // no STOP is forced by finalization for a non-NACK error
    assert!(!d.hal_i2c.regs.stop);
    assert!(!d.tx_dma.transfer_error);
    assert!(!d.hal_i2c.regs.dma_requests);
    assert!(!d.hal_i2c.regs.error_interrupts);
}

#[test]
fn rx_transfer_error_finalizes_transaction() {
    let mut d = fresh_driver();
    let (r, _) = d.read_dma(0x50, vec![0u8; 4], Some(5));
    assert_eq!(r, Ok(()));
    d.rx_dma.transfer_error = true;
    let c = d.handle_dma_interrupt().expect("completion expected");
    assert_eq!(c.callback, Some(5));
    assert_eq!(c.result, Err(TransactionError::TransferError));
    assert!(slots_idle(&d));
    assert!(!d.rx_dma.transfer_error);
}

#[test]
fn single_byte_read_clears_ack_before_addr_clear() {
    let mut d = fresh_driver();
    let (r, _) = d.read_dma(0x50, vec![0u8; 1], None);
    assert_eq!(r, Ok(()));
    // length 1: the ACK bit was already down when the ADDR condition fell
    assert!(!d.hal_i2c.regs.ack_on_addr_clear);
    assert!(!d.hal_i2c.regs.ack);
}

#[test]
fn longer_read_keeps_ack_at_addr_clear() {
    let mut d = fresh_driver();
    let (r, _) = d.read_dma(0x50, vec![0u8; 2], None);
    assert_eq!(r, Ok(()));
    assert!(d.hal_i2c.regs.ack_on_addr_clear);
    assert!(d.hal_i2c.regs.ack);
}

#[test]
fn write_read_dma_sequences_restart_and_single_callback() {
    let mut d = fresh_driver();
    let (r, c) = d.write_read_dma(0x50, vec![0u8; 4], vec![0u8; 2], Some(11));
    assert_eq!(r, Ok(()));
    assert!(c.is_none());
    // the receive transfer exists but is not started yet
    assert!(rx_created_not_started(&d));
    assert!(matches!(d.tx_slot, TxSlot::Active(_)));
    assert_eq!(d.address, 0x50);
    assert_eq!(d.rx_len, 2);
    // transmit completes: restart is generated, receive starts, no
    // completion yet
    d.tx_dma.transfer_complete = true;
    assert!(d.handle_dma_interrupt().is_none());
    assert!(matches!(d.tx_slot, TxSlot::Idle(..)));
    assert!(rx_started(&d));
    assert!(d.hal_i2c.regs.byte_transfer_finished);
    assert!(d.hal_i2c.regs.last_addr_read);
    assert!(d.busy());
    // receive completes: exactly one callback, after the receive event
    d.rx_dma.transfer_complete = true;
    let c = d.handle_dma_interrupt().expect("completion expected");
    assert_eq!(c.callback, Some(11));
    assert_eq!(c.result, Ok(()));
    assert!(slots_idle(&d));
    assert!(!d.busy());
    assert!(d.hal_i2c.regs.stop);
    assert!(!d.hal_i2c.regs.ack);
    assert!(d.handle_dma_interrupt().is_none());
}

#[test]
fn write_read_dma_address_nack_never_starts_receive() {
    let mut d = fresh_driver();
    let (r, c) = d.write_read_dma(0x50, vec![0u8; 4], vec![0u8; 2], Some(13));
    assert_eq!(r, Ok(()));
    assert!(c.is_none());
    assert!(rx_created_not_started(&d));
    // the write phase dies on a bus error interrupt: the receive transfer
    // is torn down without ever being started
    d.hal_i2c.regs.nack = true;
    let c = d.handle_error_interrupt().expect("completion expected");
    assert_eq!(c.callback, Some(13));
    assert_eq!(
        c.result,
        Err(TransactionError::I2CError(I2cError::NoAcknowledge(
            NackSource::Unknown
        )))
    );
    assert!(slots_idle(&d));
    assert!(d.hal_i2c.regs.stop);
}

#[test]
fn write_read_dma_restart_nack_finalizes_with_address_nack() {
    let mut d = fresh_driver();
    let (r, _) = d.write_read_dma(0x50, vec![0u8; 4], vec![0u8; 2], Some(17));
    assert_eq!(r, Ok(()));
    // the slave refuses the repeated address of the read phase
    d.hal_i2c.regs.slave_nacks_address = true;
    d.tx_dma.transfer_complete = true;
    let c = d.handle_dma_interrupt().expect("completion expected");
    assert_eq!(c.callback, Some(17));
    assert_eq!(
        c.result,
        Err(TransactionError::I2CError(I2cError::NoAcknowledge(
            NackSource::Address
        )))
    );
    assert!(slots_idle(&d));
    assert!(d.hal_i2c.regs.stop);
    assert!(!d.busy());
}

#[test]
fn stray_interrupts_on_idle_driver_do_nothing() {
    let mut d = fresh_driver();
    d.tx_dma.transfer_complete = true;
    d.rx_dma.transfer_complete = true;
    assert!(d.handle_dma_interrupt().is_none());
    assert!(slots_idle(&d));
    assert!(d.handle_error_interrupt().is_none());
}

#[test]
fn blocking_write_succeeds_and_releases_bus() {
    let mut d = fresh_driver();
    let r = d.write(0x50, &[1, 2, 3]);
    assert_eq!(r, Ok(()));
    assert!(d.hal_i2c.regs.stop);
    assert!(!d.busy());
}

#[test]
fn blocking_write_would_block_while_busy() {
    let mut d = fresh_driver();
    d.hal_i2c.regs.bus_busy = true;
    assert_eq!(d.write(0x50, &[1]), Err(nb::Error::WouldBlock));
    assert_eq!(d.read(0x50, &mut vec![0u8; 1]), Err(nb::Error::WouldBlock));
    assert_eq!(
        d.write_read(0x50, &[1], &mut vec![0u8; 1]),
        Err(nb::Error::WouldBlock)
    );
}

#[test]
fn blocking_write_nack_issues_stop() {
    let mut d = fresh_driver();
    d.hal_i2c.regs.slave_nacks_address = true;
    let r = d.write(0x50, &[1]);
    assert_eq!(
        r,
        Err(nb::Error::Other(I2cError::NoAcknowledge(NackSource::Address)))
    );
    // the wrapper issued the STOP that the underlying driver omits
    assert!(d.hal_i2c.regs.stop);
    assert!(!d.busy());
}

#[test]
fn blocking_read_data_nack_issues_stop() {
    let mut d = fresh_driver();
    d.hal_i2c.regs.slave_nacks_data = true;
    let mut buf = vec![0u8; 2];
    let r = d.read(0x50, &mut buf);
    assert_eq!(
        r,
        Err(nb::Error::Other(I2cError::NoAcknowledge(NackSource::Data)))
    );
    assert!(d.hal_i2c.regs.stop);
    assert_eq!(buf, vec![0u8, 0u8]);
}

#[test]
fn blocking_write_read_other_error_has_no_stop() {
    let mut d = fresh_driver();
    d.hal_i2c.regs.bus_error = true;
    let mut buf = vec![0u8; 2];
    let r = d.write_read(0x50, &[1], &mut buf);
    assert_eq!(r, Err(nb::Error::Other(I2cError::Bus)));
    assert!(!d.hal_i2c.regs.stop);
    // the flag was checked and cleared
    assert!(!d.hal_i2c.regs.bus_error);
}

#[test]
fn error_interrupt_reports_each_error_kind() {
    let mut d = fresh_driver();
    let (r, _) = d.write_dma(0x50, vec![0xAA], Some(1));
    assert_eq!(r, Ok(()));
    d.hal_i2c.regs.arbitration_lost = true;
    let c = d.handle_error_interrupt().expect("completion expected");
    assert_eq!(
        c.result,
        Err(TransactionError::I2CError(I2cError::ArbitrationLoss))
    );
    // arbitration loss is not a NACK: no STOP forced
    assert!(!d.hal_i2c.regs.stop);

    let mut d2 = fresh_driver();
    let (r2, _) = d2.write_dma(0x50, vec![0xAA], Some(1));
    assert_eq!(r2, Ok(()));
    d2.hal_i2c.regs.overrun = true;
    let c2 = d2.handle_error_interrupt().expect("completion expected");
    assert_eq!(c2.result, Err(TransactionError::I2CError(I2cError::Overrun)));
}

#[test]
fn preparation_failure_on_pending_bus_error() {
    let mut d = fresh_driver();
    d.hal_i2c.regs.bus_error = true;
    let (r, c) = d.write_dma(0x50, vec![0xAA], Some(21));
    assert_eq!(r, Err(nb::Error::Other(I2cError::Bus)));
    let c = c.expect("completion expected");
    assert_eq!(c.callback, Some(21));
    assert_eq!(c.result, Err(TransactionError::I2CError(I2cError::Bus)));
    assert!(slots_idle(&d));
    assert!(!d.busy());
    // a bus error is not a NACK: finalization forced no STOP
    assert!(!d.hal_i2c.regs.stop);
}

#[test]
fn dma_requests_enabled_while_transfer_runs() {
    let mut d = fresh_driver();
    let (r, _) = d.write_dma(0x50, vec![0xAA], None);
    assert_eq!(r, Ok(()));
    assert!(d.hal_i2c.regs.dma_requests);
    assert!(d.hal_i2c.regs.error_interrupts);
    d.tx_dma.transfer_complete = true;
    let c = d.handle_dma_interrupt().expect("completion expected");
    // no callback was supplied: the completion carries none
    assert_eq!(c.callback, None);
    assert_eq!(c.result, Ok(()));
    assert!(!d.hal_i2c.regs.dma_requests);
    assert!(!d.hal_i2c.regs.error_interrupts);
}

#[test]
fn trait_surface_matches_inherent_behaviour() {
    let mut d = fresh_driver();
    let (r, c) = I2CMasterWriteDMA::write_dma(&mut d, 0x2A, vec![1], None);
    assert_eq!(r, Ok(()));
    assert!(c.is_none());
    d.tx_dma.transfer_complete = true;
    assert!(d.handle_dma_interrupt().is_some());
    let (r, _) = I2CMasterReadDMA::read_dma(&mut d, 0x2A, vec![0u8; 2], None);
    assert_eq!(r, Ok(()));
    d.rx_dma.transfer_complete = true;
    assert!(d.handle_dma_interrupt().is_some());
    let (r, _) = I2CMasterWriteReadDMA::write_read_dma(&mut d, 0x2A, vec![1], vec![0u8; 2], None);
    assert_eq!(r, Ok(()));
    assert_eq!(d.rx_len, 2);
    d.tx_dma.transfer_complete = true;
    assert!(d.handle_dma_interrupt().is_none());
    d.rx_dma.transfer_complete = true;
    assert!(d.handle_dma_interrupt().is_some());
    assert!(!d.busy());
}
