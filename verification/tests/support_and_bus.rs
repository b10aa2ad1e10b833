use std::cell::RefCell;
use std::rc::Rc;

use spi_hal::bus::{BlockBus, Spi};
use spi_hal::error::{Error, ErrorKind, PollError, StepKind, TransportFailure};
use spi_hal::primitive::{BusPrimitive, Record};

#[derive(Clone, Debug, PartialEq, Eq)]
enum Seen {
    Read(usize),
    Write(Vec<u8>),
    Transfer(usize, Vec<u8>),
}

/// A wire that answers each byte sent with that byte plus `offset`, reads as
/// a counting pattern, and fails every call once `fail_from` calls were made.
struct Wire {
    seen: Rc<RefCell<Vec<Seen>>>,
    offset: u8,
    fail_from: Option<usize>,
}

impl Wire {
    fn new(offset: u8) -> (Wire, Rc<RefCell<Vec<Seen>>>) {
        let seen = Rc::new(RefCell::new(Vec::new()));
        (Wire { seen: seen.clone(), offset, fail_from: None }, seen)
    }

    fn failing_from(offset: u8, fail_from: usize) -> (Wire, Rc<RefCell<Vec<Seen>>>) {
        let seen = Rc::new(RefCell::new(Vec::new()));
        (Wire { seen: seen.clone(), offset, fail_from: Some(fail_from) }, seen)
    }

    fn note(&mut self, seen: Seen) -> Result<(), TransportFailure> {
        let made = self.seen.borrow().len();
        self.seen.borrow_mut().push(seen);
        match self.fail_from {
            Some(from) if made >= from => Err(TransportFailure { code: 5 }),
            _ => Ok(()),
        }
    }
}

impl BusPrimitive for Wire {
    fn exchanges(&self) -> Record {
        unreachable!()
    }

    fn read(&mut self, buffer: &mut [u8]) -> Result<usize, TransportFailure> {
        self.note(Seen::Read(buffer.len()))?;
        for (i, slot) in buffer.iter_mut().enumerate() {
            *slot = 0xA0u8.wrapping_add(i as u8);
        }
        Ok(buffer.len())
    }

    fn write(&mut self, buffer: &[u8]) -> Result<usize, TransportFailure> {
        self.note(Seen::Write(buffer.to_vec()))?;
        Ok(buffer.len())
    }

    fn transfer(
        &mut self,
        read_buffer: &mut [u8],
        write_buffer: &[u8],
    ) -> Result<usize, TransportFailure> {
        self.note(Seen::Transfer(read_buffer.len(), write_buffer.to_vec()))?;
        for (slot, byte) in read_buffer.iter_mut().zip(write_buffer.iter()) {
            *slot = byte.wrapping_add(self.offset);
        }
        Ok(write_buffer.len())
    }
}

#[test]
fn read_fills_the_whole_buffer() {
    let (wire, seen) = Wire::new(0);
    let mut spi = Spi::new(wire);
    let mut buffer = [0u8; 4];
    assert_eq!(spi.read(&mut buffer), Ok(()));
    assert_eq!(buffer, [0xA0, 0xA1, 0xA2, 0xA3]);
    assert_eq!(*seen.borrow(), vec![Seen::Read(4)]);
}

#[test]
fn read_failure_is_wrapped_as_io() {
    let (wire, seen) = Wire::failing_from(0, 0);
    let mut spi = Spi::new(wire);
    let mut buffer = [0u8; 2];
    assert_eq!(spi.read(&mut buffer), Err(Error::Io(TransportFailure { code: 5 })));
    assert_eq!(seen.borrow().len(), 1);
}

#[test]
fn write_sends_every_byte_in_order_and_reads_nothing() {
    let (wire, seen) = Wire::new(0);
    let mut spi = Spi::new(wire);
    let buffer = [9u8, 8, 7, 6, 5];
    assert_eq!(spi.write(&buffer), Ok(()));
    assert_eq!(buffer, [9, 8, 7, 6, 5]);
    assert_eq!(*seen.borrow(), vec![Seen::Write(vec![9, 8, 7, 6, 5])]);
}

#[test]
fn write_failure_is_wrapped_as_io() {
    let (wire, _seen) = Wire::failing_from(0, 0);
    let mut spi = Spi::new(wire);
    assert_eq!(spi.write(&[1, 2]), Err(Error::Io(TransportFailure { code: 5 })));
}

#[test]
fn transfer_pairs_bytes_by_position() {
    let (wire, seen) = Wire::new(0x10);
    let mut spi = Spi::new(wire);
    let mut read = [0u8; 3];
    assert_eq!(spi.transfer(&mut read, &[1, 2, 3]), Ok(()));
    assert_eq!(read, [0x11, 0x12, 0x13]);
    assert_eq!(*seen.borrow(), vec![Seen::Transfer(3, vec![1, 2, 3])]);
}

#[test]
fn transfer_in_place_on_an_echoing_wire_keeps_the_buffer() {
    let (wire, seen) = Wire::new(0);
    let mut spi = Spi::new(wire);
    let mut buffer = [0x01u8, 0x02, 0x03];
    assert_eq!(spi.transfer_in_place(&mut buffer), Ok(()));
    assert_eq!(buffer, [0x01, 0x02, 0x03]);
    assert_eq!(*seen.borrow(), vec![Seen::Transfer(3, vec![0x01, 0x02, 0x03])]);
}

#[test]
fn transfer_in_place_equals_transfer_of_a_copy() {
    let (wire_a, seen_a) = Wire::new(0x21);
    let (wire_b, seen_b) = Wire::new(0x21);
    let mut in_place = Spi::new(wire_a);
    let mut two_buffers = Spi::new(wire_b);

    let mut buffer = [0x00u8, 0x7F, 0xFF, 0x33];
    let copy = buffer;
    let mut read = buffer;

    let a = in_place.transfer_in_place(&mut buffer);
    let b = two_buffers.transfer(&mut read, &copy);
    assert_eq!(a, b);
    assert_eq!(buffer, read);
    assert_eq!(buffer, [0x21, 0xA0, 0x20, 0x54]);
    assert_eq!(*seen_a.borrow(), *seen_b.borrow());
}

#[test]
fn transfer_in_place_failure_equals_transfer_failure() {
    let (wire_a, _) = Wire::failing_from(1, 0);
    let (wire_b, _) = Wire::failing_from(1, 0);
    let mut in_place = Spi::new(wire_a);
    let mut two_buffers = Spi::new(wire_b);
    let mut buffer = [4u8, 5];
    let mut read = [4u8, 5];
    let a = in_place.transfer_in_place(&mut buffer);
    let b = two_buffers.transfer(&mut read, &[4, 5]);
    assert_eq!(a, Err(Error::Io(TransportFailure { code: 5 })));
    assert_eq!(a, b);
    assert_eq!(buffer, read);
}

#[test]
fn flush_touches_nothing() {
    let (wire, seen) = Wire::new(0);
    let mut spi = Spi::new(wire);
    assert_eq!(spi.flush(), Ok(()));
    assert!(seen.borrow().is_empty());
    assert_eq!(spi.attempt_read(), Err(PollError::WouldBlock));
}

#[test]
fn poll_before_any_write_would_block() {
    let (wire, seen) = Wire::new(0);
    let mut spi = Spi::new(wire);
    assert_eq!(spi.attempt_read(), Err(PollError::WouldBlock));
    assert_eq!(spi.attempt_read(), Err(PollError::WouldBlock));
    assert!(seen.borrow().is_empty());
}

#[test]
fn write_then_poll_returns_the_received_byte() {
    let (wire, seen) = Wire::new(0x40);
    let mut spi = Spi::new(wire);
    assert_eq!(spi.attempt_write(0x02), Ok(()));
    assert_eq!(spi.attempt_read(), Ok(0x42));
    assert_eq!(spi.attempt_read(), Err(PollError::WouldBlock));
    assert_eq!(*seen.borrow(), vec![Seen::Transfer(1, vec![0x02])]);
}

#[test]
fn second_write_overwrites_the_first_byte() {
    let (wire, seen) = Wire::new(1);
    let mut spi = Spi::new(wire);
    assert_eq!(spi.attempt_write(10), Ok(()));
    assert_eq!(spi.attempt_write(20), Ok(()));
    assert_eq!(spi.attempt_read(), Ok(21));
    assert_eq!(spi.attempt_read(), Err(PollError::WouldBlock));
    assert_eq!(seen.borrow().len(), 2);
}

#[test]
fn failed_duplex_write_keeps_the_slot() {
    let (wire, _seen) = Wire::failing_from(1, 1);
    let mut spi = Spi::new(wire);
    assert_eq!(spi.attempt_write(7), Ok(()));
    assert_eq!(
        spi.attempt_write(9),
        Err(PollError::Other(Error::Io(TransportFailure { code: 5 })))
    );
    assert_eq!(spi.attempt_read(), Ok(8));
}

#[test]
fn block_operations_leave_the_buffered_byte() {
    let (wire, _seen) = Wire::new(3);
    let mut spi = Spi::new(wire);
    assert_eq!(spi.attempt_write(1), Ok(()));
    let mut buffer = [0u8; 2];
    assert_eq!(spi.read(&mut buffer), Ok(()));
    assert_eq!(spi.write(&[1]), Ok(()));
    assert_eq!(spi.transfer_in_place(&mut buffer), Ok(()));
    assert_eq!(spi.attempt_read(), Ok(4));
}

#[test]
fn send_is_a_duplex_write() {
    let (wire, seen) = Wire::new(2);
    let mut spi = Spi::new(wire);
    assert_eq!(spi.send(0x30), Ok(()));
    assert_eq!(spi.attempt_read(), Ok(0x32));
    assert_eq!(*seen.borrow(), vec![Seen::Transfer(1, vec![0x30])]);
}

#[test]
fn blocking_transfer_hands_back_the_received_bytes() {
    let (wire, seen) = Wire::new(0x80);
    let mut spi = Spi::new(wire);
    let mut buffer = [1u8, 2, 0x80];
    let out = spi.blocking_transfer(&mut buffer).map(|bytes| bytes.to_vec());
    assert_eq!(out, Ok(vec![0x81, 0x82, 0x00]));
    assert_eq!(buffer, [0x81, 0x82, 0x00]);
    assert_eq!(*seen.borrow(), vec![Seen::Transfer(3, vec![1, 2, 0x80])]);
}

#[test]
fn blocking_write_sends_the_buffer() {
    let (wire, seen) = Wire::new(0);
    let mut spi = Spi::new(wire);
    assert_eq!(spi.blocking_write(&[0xDE, 0xAD]), Ok(()));
    assert_eq!(*seen.borrow(), vec![Seen::Write(vec![0xDE, 0xAD])]);
}

#[test]
fn every_error_classifies_as_other() {
    assert_eq!(Error::Io(TransportFailure { code: -1 }).kind(), ErrorKind::Other);
    assert_eq!(Error::Transaction(StepKind::Read).kind(), ErrorKind::Other);
    assert_eq!(Error::Transaction(StepKind::TransferInPlace).kind(), ErrorKind::Other);
}

#[test]
fn step_descriptions_are_exact() {
    assert_eq!(StepKind::Read.description(), "SimpleHalSpiDevice read transaction error");
    assert_eq!(StepKind::Write.description(), "SimpleHalSpiDevice write transaction error");
    assert_eq!(
        StepKind::Transfer.description(),
        "SimpleHalSpiDevice read/write transaction error"
    );
    assert_eq!(
        StepKind::TransferInPlace.description(),
        "SimpleHalSpiDevice in-place read/write transaction error"
    );
}
