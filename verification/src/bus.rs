//! The bus handle: block operations forwarded to the primitive, and a
//! one-byte polling full-duplex interface emulated on top of block transfers.

use vstd::prelude::*;
use vstd::slice::slice_to_vec;
use crate::error::{Error, PollError};
use crate::primitive::{BusPrimitive, Exchange, Record, Request, Response};

verus! {

/// The block-style operations that every interface style is expressed in.
/// An implementation keeps the same kind of record as a bus primitive: each
/// operation but `flush` appends one exchange, and a failure is reported as
/// the transport's. [`Spi`] meets these clauses by proof; of an implementation
/// outside this crate they are taken on trust.
pub trait BlockBus {
    /// Every exchange made on this bus, oldest first.
    spec fn exchanges(&self) -> Record;

    /// Fills `words` entirely from the bus, or fails.
    fn read(&mut self, words: &mut [u8]) -> (res: Result<(), Error>)
        ensures
            final(words)@.len() == old(words)@.len(),
            forwarded(
                old(self).exchanges(),
                final(self).exchanges(),
                Request::Read { buffer: old(words)@ },
                res,
                final(words)@,
            ),
    ;

    /// Sends `words` entirely, or fails.
    fn write(&mut self, words: &[u8]) -> (res: Result<(), Error>)
        ensures
            forwarded(
                old(self).exchanges(),
                final(self).exchanges(),
                Request::Write { bytes: words@ },
                res,
                Seq::<u8>::empty(),
            ),
    ;

    /// Sends `write` while receiving into `read`, position by position.
    fn transfer(&mut self, read: &mut [u8], write: &[u8]) -> (res: Result<(), Error>)
        ensures
            final(read)@.len() == old(read)@.len(),
            forwarded(
                old(self).exchanges(),
                final(self).exchanges(),
                transfer_request(old(read)@, write@),
                res,
                final(read)@,
            ),
    ;

    /// Sends what `words` holds and receives the answer into `words`: a
    /// transfer whose write side is a copy of the buffer.
    fn transfer_in_place(&mut self, words: &mut [u8]) -> (res: Result<(), Error>)
        ensures
            final(words)@.len() == old(words)@.len(),
            forwarded(
                old(self).exchanges(),
                final(self).exchanges(),
                in_place_request(old(words)@),
                res,
                final(words)@,
            ),
    ;

    /// Waits until everything written has left the bus. Makes no exchange.
    fn flush(&mut self) -> (res: Result<(), Error>)
        ensures
            final(self).exchanges() == old(self).exchanges(),
    ;
}

/// The request that a two-buffer transfer hands to the primitive.
pub open spec fn transfer_request(read_buffer: Seq<u8>, write_buffer: Seq<u8>) -> Request {
    Request::Transfer { buffer: read_buffer, bytes: write_buffer }
}

/// The request that an in-place transfer hands to the primitive: the bytes to
/// send are a copy of what the buffer held.
pub open spec fn in_place_request(buffer: Seq<u8>) -> Request {
    Request::Transfer { buffer: buffer, bytes: buffer }
}

/// `after` is `before` extended by exactly one exchange, made for `request`,
/// whose response accounts for `res`: on success the receiving buffer ended up
/// holding `received`; on failure the error wraps the transport's failure.
pub open spec fn forwarded(
    before: Seq<Exchange>,
    after: Seq<Exchange>,
    request: Request,
    res: Result<(), Error>,
    received: Seq<u8>,
) -> bool {
    match res {
        Ok(()) => after == before.push(
            Exchange { request, response: Response::Done { received } },
        ),
        Err(Error::Io(failure)) => after == before.push(
            Exchange { request, response: Response::Failed { failure } },
        ),
        Err(Error::Transaction(_)) => false,
    }
}

/// The buffered byte after a one-byte duplex write whose transfer answered
/// with `response`: the received byte replaces whatever was held; a failed
/// transfer leaves the slot as it was.
pub open spec fn slot_after_write(slot: Option<u8>, response: Response) -> Option<u8> {
    match response {
        Response::Done { received } => Some(received[0]),
        Response::Failed { .. } => slot,
    }
}

/// A duplex write of `byte` took the handle from `before` and `slot_before`
/// to `after` and `slot_after` and returned `res`: exactly one exchange was
/// added, a one-byte transfer sending `byte`; the slot follows from its
/// response; and `res` is `Ok` where one byte was received, else the
/// transport's failure. `WouldBlock` is never returned.
pub open spec fn duplex_written(
    before: Seq<Exchange>,
    after: Seq<Exchange>,
    slot_before: Option<u8>,
    slot_after: Option<u8>,
    byte: u8,
    res: Result<(), PollError>,
) -> bool {
    &&& after.len() == before.len() + 1
    &&& after.drop_last() == before
    &&& after.last().request == transfer_request(seq![0u8], seq![byte])
    &&& slot_after == slot_after_write(slot_before, after.last().response)
    &&& match res {
        Ok(()) => after.last().response is Done && after.last().response->received.len() == 1,
        Err(PollError::Other(Error::Io(failure))) => after.last().response == (Response::Failed {
            failure,
        }),
        Err(_) => false,
    }
}

/// What a poll for a byte returns on a given slot.
pub open spec fn poll_result(slot: Option<u8>) -> Result<u8, PollError> {
    match slot {
        Some(byte) => Ok(byte),
        None => Err(PollError::WouldBlock),
    }
}

/// Exclusive handle on a bus primitive, with the single byte of buffering that
/// the polling full-duplex interface needs.
pub struct Spi<P: BusPrimitive> {
    primitive: P,
    last_read: Option<u8>,
}

impl<P: BusPrimitive> Spi<P> {
    /// The record of the primitive this handle owns.
    pub closed spec fn history(&self) -> Seq<Exchange> {
        self.primitive.exchanges()
    }

    /// The byte received by the latest duplex write, until a read consumes it.
    pub closed spec fn buffered(&self) -> Option<u8> {
        self.last_read
    }

    /// Takes ownership of `primitive`, with its record as it stands. Nothing
    /// is buffered yet.
    pub fn new(primitive: P) -> (spi: Self)
        ensures
            spi.history() == primitive.exchanges(),
            spi.buffered() == None::<u8>,
    {
        Spi { primitive, last_read: None }
    }

    /// Polls for the byte received by the latest duplex write. Returns it and
    /// empties the slot, or reports `WouldBlock` when nothing is buffered. The
    /// primitive is not touched.
    pub fn attempt_read(&mut self) -> (res: Result<u8, PollError>)
        ensures
            res == poll_result(old(self).buffered()),
            final(self).buffered() is None,
            final(self).history() == old(self).history(),
    {
        match self.last_read.take() {
            Some(last_read) => Ok(last_read),
            None => Err(PollError::WouldBlock),
        }
    }

    /// Sends `byte` with a one-byte block transfer and buffers the byte that
    /// came back, replacing any byte still held. Never reports `WouldBlock`:
    /// the call blocks until the transfer is over.
    pub fn attempt_write(&mut self, byte: u8) -> (res: Result<(), PollError>)
        ensures
            duplex_written(
                old(self).history(),
                final(self).history(),
                old(self).buffered(),
                final(self).buffered(),
                byte,
                res,
            ),
    {
        let mut read_buffer: [u8; 1] = [0];
        let write_buffer: [u8; 1] = [byte];
        assert(read_buffer@ =~= seq![0u8]);
        assert(write_buffer@ =~= seq![byte]);
        match self.transfer(&mut read_buffer, &write_buffer) {
            Ok(()) => {
                self.last_read = Some(read_buffer[0]);
                assert(self.history().drop_last() =~= old(self).history());
                Ok(())
            },
            Err(error) => {
                assert(self.history().drop_last() =~= old(self).history());
                Err(PollError::Other(error))
            },
        }
    }

    /// The older interface's name for [`Spi::attempt_write`].
    pub fn send(&mut self, byte: u8) -> (res: Result<(), PollError>)
        ensures
            duplex_written(
                old(self).history(),
                final(self).history(),
                old(self).buffered(),
                final(self).buffered(),
                byte,
                res,
            ),
    {
        self.attempt_write(byte)
    }

    /// The older interface's block transfer: sends what `buffer` holds,
    /// receives the answer into it, and hands the buffer back.
    pub fn blocking_transfer<'a>(&mut self, buffer: &'a mut [u8]) -> (res: Result<&'a [u8], Error>)
        ensures
            forwarded(
                old(self).history(),
                final(self).history(),
                in_place_request(old(buffer)@),
                match res {
                    Ok(_) => Ok(()),
                    Err(e) => Err(e),
                },
                final(buffer)@,
            ),
            res matches Ok(out) ==> out@ == final(buffer)@,
            final(buffer)@.len() == old(buffer)@.len(),
            final(self).buffered() == old(self).buffered(),
    {
        let write_buffer = slice_to_vec(buffer);
        match self.transfer(buffer, write_buffer.as_slice()) {
            Ok(()) => Ok(buffer),
            Err(e) => Err(e),
        }
    }

    /// The older interface's block write.
    pub fn blocking_write(&mut self, buffer: &[u8]) -> (res: Result<(), Error>)
        ensures
            forwarded(
                old(self).history(),
                final(self).history(),
                Request::Write { bytes: buffer@ },
                res,
                Seq::<u8>::empty(),
            ),
            final(self).buffered() == old(self).buffered(),
    {
        self.write(buffer)
    }
}

impl<P: BusPrimitive> BlockBus for Spi<P> {
    open spec fn exchanges(&self) -> Record {
        self.history()
    }

    /// Hands `words` to the primitive's `read`, once.
    fn read(&mut self, words: &mut [u8]) -> (res: Result<(), Error>)
        ensures
            final(self).buffered() == old(self).buffered(),
    {
        match self.primitive.read(words) {
            Ok(_) => Ok(()),
            Err(failure) => Err(Error::Io(failure)),
        }
    }

    /// Hands `words` to the primitive's `write`, once: every byte, in order.
    /// Nothing is read back.
    fn write(&mut self, words: &[u8]) -> (res: Result<(), Error>)
        ensures
            final(self).buffered() == old(self).buffered(),
    {
        match self.primitive.write(words) {
            Ok(_) => Ok(()),
            Err(failure) => Err(Error::Io(failure)),
        }
    }

    /// Hands both buffers to the primitive's `transfer`, once.
    fn transfer(&mut self, read: &mut [u8], write: &[u8]) -> (res: Result<(), Error>)
        ensures
            final(self).buffered() == old(self).buffered(),
    {
        match self.primitive.transfer(read, write) {
            Ok(_) => Ok(()),
            Err(failure) => Err(Error::Io(failure)),
        }
    }

    /// Copies `words`, then transfers: the copy is sent, the answer lands in
    /// `words`. The primitive never sees one buffer on both sides.
    fn transfer_in_place(&mut self, words: &mut [u8]) -> (res: Result<(), Error>)
        ensures
            final(self).buffered() == old(self).buffered(),
    {
        let write_buffer = slice_to_vec(words);
        self.transfer(words, write_buffer.as_slice())
    }

    /// Nothing to do: the primitive buffers no writes.
    fn flush(&mut self) -> (res: Result<(), Error>)
        ensures
            res == Ok::<(), Error>(()),
            final(self).buffered() == old(self).buffered(),
    {
        Ok(())
    }
}

/// An in-place transfer is a two-buffer transfer whose write side is an
/// independent copy of the buffer: whatever one of them may record, return and
/// leave in the buffer, so may the other.
pub proof fn lemma_in_place_is_transfer_of_copy(
    before: Seq<Exchange>,
    after: Seq<Exchange>,
    buffer: Seq<u8>,
    res: Result<(), Error>,
    received: Seq<u8>,
)
    ensures
        in_place_request(buffer) == transfer_request(buffer, buffer),
        forwarded(before, after, in_place_request(buffer), res, received) == forwarded(
            before,
            after,
            transfer_request(buffer, buffer),
            res,
            received,
        ),
{
}

/// A poll on an empty slot, such as that of a new handle, reports
/// `WouldBlock`.
pub proof fn lemma_attempt_read_on_empty_slot_blocks(slot: Option<u8>)
    requires
        slot is None,
    ensures
        poll_result(slot) == Err::<u8, PollError>(PollError::WouldBlock),
{
}

/// After a duplex write that returned `Ok`, whatever the slot held before, a
/// poll yields the byte that the primitive's transfer received for that write:
/// not the byte sent, not a default, not an older byte.
pub proof fn lemma_attempt_write_then_attempt_read(
    before: Seq<Exchange>,
    after: Seq<Exchange>,
    slot_before: Option<u8>,
    slot_after: Option<u8>,
    byte: u8,
)
    requires
        duplex_written(before, after, slot_before, slot_after, byte, Ok(())),
    ensures
        after.last().response is Done,
        poll_result(slot_after) == Ok::<u8, PollError>(after.last().response->received[0]),
{
}

/// Of two duplex writes in a row that returned `Ok`, only the second leaves a
/// byte: the slot holds the byte received by the second transfer, exactly as
/// if the first write had found the slot empty.
pub proof fn lemma_second_attempt_write_overwrites(
    start: Seq<Exchange>,
    middle: Seq<Exchange>,
    end: Seq<Exchange>,
    slot_start: Option<u8>,
    slot_middle: Option<u8>,
    slot_end: Option<u8>,
    first: u8,
    second: u8,
)
    requires
        duplex_written(start, middle, slot_start, slot_middle, first, Ok(())),
        duplex_written(middle, end, slot_middle, slot_end, second, Ok(())),
    ensures
        end.len() == start.len() + 2,
        slot_end == Some(end.last().response->received[0]),
        slot_end == slot_after_write(None, end.last().response),
        poll_result(slot_end) == Ok::<u8, PollError>(end.last().response->received[0]),
{
}

} // verus!
