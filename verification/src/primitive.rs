//! The collaborators this crate consumes, and the record of what was asked of
//! them.
//!
//! Nothing is assumed about what a primitive answers or whether it succeeds.
//! What an implementation owes is an honest record: every call appends what
//! it was handed and what came back, and nothing else ever changes the record.
//! Contracts elsewhere speak of that record.

use vstd::prelude::*;
use crate::error::TransportFailure;

verus! {

/// The record of a bus: its exchanges, oldest first. It exists in proofs only.
pub type Record = Seq<Exchange>;

/// The record of a timer: its waits in microseconds, oldest first. It exists
/// in proofs only.
pub type Waits = Seq<u32>;

/// A blocking, block-oriented SPI bus. Each call either completes for the whole
/// buffer, returning the number of bytes moved, or fails.
///
/// The clauses below bind whoever implements the trait, and this crate
/// implements it for no type: they are taken on trust. They claim that a call
/// appends exactly one exchange, naming the buffers it was handed and the
/// result it returned, and that a receiving buffer keeps its length, as a
/// slice must. They claim nothing of the bytes received or of success.
pub trait BusPrimitive {
    /// Every exchange made on this bus, oldest first.
    spec fn exchanges(&self) -> Record;

    /// Receives `buffer.len()` bytes into `buffer`.
    fn read(&mut self, buffer: &mut [u8]) -> (res: Result<usize, TransportFailure>)
        ensures
            final(buffer)@.len() == old(buffer)@.len(),
            final(self).exchanges() == old(self).exchanges().push(
                Exchange {
                    request: Request::Read { buffer: old(buffer)@ },
                    response: answered(res, final(buffer)@),
                },
            ),
    ;

    /// Sends every byte of `buffer`.
    fn write(&mut self, buffer: &[u8]) -> (res: Result<usize, TransportFailure>)
        ensures
            final(self).exchanges() == old(self).exchanges().push(
                Exchange {
                    request: Request::Write { bytes: buffer@ },
                    response: answered(res, Seq::empty()),
                },
            ),
    ;

    /// Sends `write_buffer` while receiving into `read_buffer`; byte `i` sent
    /// corresponds to byte `i` received.
    fn transfer(&mut self, read_buffer: &mut [u8], write_buffer: &[u8]) -> (res: Result<
        usize,
        TransportFailure,
    >)
        ensures
            final(read_buffer)@.len() == old(read_buffer)@.len(),
            final(self).exchanges() == old(self).exchanges().push(
                Exchange {
                    request: Request::Transfer { buffer: old(read_buffer)@, bytes: write_buffer@ },
                    response: answered(res, final(read_buffer)@),
                },
            ),
    ;
}

/// A blocking timer.
///
/// The clause on `delay_us` binds whoever implements the trait and is taken on
/// trust: a call appends the duration it was asked for to the timer's record.
pub trait DelayPrimitive {
    /// Every wait made on this timer, in microseconds, oldest first.
    spec fn waits(&self) -> Waits;

    /// Blocks for at least `us` microseconds.
    fn delay_us(&mut self, us: u32)
        ensures
            final(self).waits() == old(self).waits().push(us),
    ;
}

/// The response that stands for a primitive's result: on success, what the
/// receiving buffer then held; on failure, the failure.
pub open spec fn answered(res: Result<usize, TransportFailure>, received: Seq<u8>) -> Response {
    match res {
        Ok(_) => Response::Done { received },
        Err(failure) => Response::Failed { failure },
    }
}

/// What a bus primitive was asked to do.
pub enum Request {
    /// Receive into a buffer that held `buffer` when the call was made.
    Read { buffer: Seq<u8> },
    /// Send `bytes`, in order.
    Write { bytes: Seq<u8> },
    /// Send `bytes` while receiving into a buffer that held `buffer`.
    Transfer { buffer: Seq<u8>, bytes: Seq<u8> },
}

/// What came back from a bus primitive.
pub enum Response {
    /// The call completed; `received` is what the receiving buffer then held
    /// (empty for a pure write).
    Done { received: Seq<u8> },
    /// The call failed.
    Failed { failure: TransportFailure },
}

/// One completed call of a bus primitive.
pub struct Exchange {
    pub request: Request,
    pub response: Response,
}

} // verus!
