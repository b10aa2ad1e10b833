//! Device-level transactions: an ordered list of bus steps and delays, run as
//! one unit that stops at the first failure.

use vstd::prelude::*;
use crate::bus::{in_place_request, transfer_request, BlockBus};
use crate::error::{Error, StepKind};
use crate::primitive::{DelayPrimitive, Exchange, Request, Response};

verus! {

/// One step of a transaction. Buffers are sized by the caller.
#[derive(Debug, PartialEq, Eq)]
pub enum Operation {
    /// Fill the buffer from the bus.
    Read(Vec<u8>),
    /// Send the buffer.
    Write(Vec<u8>),
    /// Receive into the first buffer while sending the second.
    Transfer(Vec<u8>, Vec<u8>),
    /// Send what the buffer holds and receive the answer into it.
    TransferInPlace(Vec<u8>),
    /// Wait for this many microseconds.
    DelayUs(u32),
}

impl Operation {
    /// What this operation asks of the bus; `None` for a delay.
    pub open spec fn request(self) -> Option<Request> {
        match self {
            Operation::Read(buffer) => Some(Request::Read { buffer: buffer@ }),
            Operation::Write(bytes) => Some(Request::Write { bytes: bytes@ }),
            Operation::Transfer(buffer, bytes) => Some(transfer_request(buffer@, bytes@)),
            Operation::TransferInPlace(buffer) => Some(in_place_request(buffer@)),
            Operation::DelayUs(_) => None,
        }
    }

    /// What this operation's receiving buffer holds; empty where it has none.
    pub open spec fn received(self) -> Seq<u8> {
        match self {
            Operation::Read(buffer) => buffer@,
            Operation::Write(_) => Seq::empty(),
            Operation::Transfer(buffer, _) => buffer@,
            Operation::TransferInPlace(buffer) => buffer@,
            Operation::DelayUs(_) => Seq::empty(),
        }
    }

    /// The kind of bus step this operation is; `None` for a delay, which
    /// cannot fail.
    pub open spec fn step_kind(self) -> Option<StepKind> {
        match self {
            Operation::Read(_) => Some(StepKind::Read),
            Operation::Write(_) => Some(StepKind::Write),
            Operation::Transfer(_, _) => Some(StepKind::Transfer),
            Operation::TransferInPlace(_) => Some(StepKind::TransferInPlace),
            Operation::DelayUs(_) => None,
        }
    }

    /// What running an operation may not change: its variant, the bytes it
    /// sends, a delay's duration, and the length of a receiving buffer. Only
    /// what a receiving buffer holds may differ.
    pub open spec fn retained(self, after: Operation) -> bool {
        match self {
            Operation::Read(buffer) => after matches Operation::Read(filled) && filled@.len()
                == buffer@.len(),
            Operation::Write(bytes) => after matches Operation::Write(kept) && kept@ == bytes@,
            Operation::Transfer(buffer, bytes) => after matches Operation::Transfer(filled, kept)
                && filled@.len() == buffer@.len() && kept@ == bytes@,
            Operation::TransferInPlace(buffer) => after matches Operation::TransferInPlace(filled)
                && filled@.len() == buffer@.len(),
            Operation::DelayUs(us) => after == Operation::DelayUs(us),
        }
    }
}

/// The exchanges of the first `count` operations where each bus step
/// completed: one per bus operation, in order, asking what the operation held
/// in `before` and having received what its buffer holds in `after`. Delays
/// make no exchange.
pub open spec fn bus_trace(before: Seq<Operation>, after: Seq<Operation>, count: int) -> Seq<
    Exchange,
>
    decreases count,
{
    if count <= 0 {
        Seq::empty()
    } else {
        let earlier = bus_trace(before, after, count - 1);
        match before[count - 1].request() {
            Some(request) => earlier.push(
                Exchange {
                    request,
                    response: Response::Done { received: after[count - 1].received() },
                },
            ),
            None => earlier,
        }
    }
}

/// The waits of the first `count` operations: one per delay, in order.
pub open spec fn wait_trace(operations: Seq<Operation>, count: int) -> Seq<u32>
    decreases count,
{
    if count <= 0 {
        Seq::empty()
    } else {
        let earlier = wait_trace(operations, count - 1);
        match operations[count - 1] {
            Operation::DelayUs(us) => earlier.push(us),
            _ => earlier,
        }
    }
}

/// Every operation behind position `at` is in `after` what it was in `before`.
pub open spec fn untouched_behind(before: Seq<Operation>, after: Seq<Operation>, at: int) -> bool {
    forall|j: int| at < j < before.len() ==> #[trigger] after[j] == before[j]
}

/// A run stopped at position `at` with `error`. The steps before `at` all
/// completed and are on record; the last exchange on the bus is the step at
/// `at`, which failed; the timer saw the delays before `at` and no other; and
/// `error` names the kind of step found at `at`.
pub open spec fn stopped_at(
    before: Seq<Operation>,
    after: Seq<Operation>,
    bus_before: Seq<Exchange>,
    bus_after: Seq<Exchange>,
    waits_before: Seq<u32>,
    waits_after: Seq<u32>,
    error: Error,
    at: int,
) -> bool {
    &&& 0 <= at < before.len()
    &&& error is Transaction
    &&& before[at].step_kind() == error.failed_step()
    &&& bus_after.len() > 0
    &&& bus_after.drop_last() == bus_before + bus_trace(before, after, at)
    &&& Some(bus_after.last().request) == before[at].request()
    &&& bus_after.last().response is Failed
    &&& waits_after == waits_before + wait_trace(before, at)
}

/// A trace of completed steps reads only the operations it covers.
pub proof fn lemma_bus_trace_reads_prefix(
    before: Seq<Operation>,
    first: Seq<Operation>,
    second: Seq<Operation>,
    count: int,
)
    requires
        forall|j: int| 0 <= j < count ==> first[j] == second[j],
    ensures
        bus_trace(before, first, count) == bus_trace(before, second, count),
    decreases count,
{
    if count > 0 {
        lemma_bus_trace_reads_prefix(before, first, second, count - 1);
    }
}

/// A device on a bus whose select line is managed elsewhere: it only
/// sequences operations on the bus it owns.
pub struct SimpleHalSpiDevice<B> {
    bus: B,
}

impl<B: BlockBus> SimpleHalSpiDevice<B> {
    /// The record of the bus this device owns.
    pub closed spec fn exchanges(&self) -> Seq<Exchange> {
        self.bus.exchanges()
    }

    /// Takes ownership of `bus`, with its record as it stands.
    pub fn new(bus: B) -> (device: SimpleHalSpiDevice<B>)
        ensures
            device.exchanges() == bus.exchanges(),
    {
        SimpleHalSpiDevice { bus }
    }

    /// Runs `operations` in order: each bus operation becomes one call of the
    /// matching bus method on the operation's own buffers, each delay one call
    /// of `delay`. The first bus call that fails ends the run; the error names
    /// the kind of step that failed. Nothing is rolled back, and the select
    /// line is not touched.
    pub fn transaction<D: DelayPrimitive>(
        &mut self,
        operations: &mut Vec<Operation>,
        delay: &mut D,
    ) -> (res: Result<(), Error>)
        ensures
            final(operations)@.len() == old(operations)@.len(),
            forall|i: int|
                0 <= i < old(operations)@.len() ==> (#[trigger] old(operations)@[i]).retained(
                    final(operations)@[i],
                ),
            res is Ok ==> {
                &&& final(self).exchanges() == old(self).exchanges() + bus_trace(
                    old(operations)@,
                    final(operations)@,
                    old(operations)@.len() as int,
                )
                &&& final(delay).waits() == old(delay).waits() + wait_trace(
                    old(operations)@,
                    old(operations)@.len() as int,
                )
            },
            res matches Err(error) ==> exists|at: int|
                {
                    &&& #[trigger] stopped_at(
                        old(operations)@,
                        final(operations)@,
                        old(self).exchanges(),
                        final(self).exchanges(),
                        old(delay).waits(),
                        final(delay).waits(),
                        error,
                        at,
                    )
                    &&& untouched_behind(old(operations)@, final(operations)@, at)
                },
    {
        let n: usize = operations.len();
        let ghost initial = operations@;
        let ghost bus_before = self.bus.exchanges();
        let ghost waits_before = delay.waits();
        let mut i: usize = 0;
        while i < n
            invariant
                i <= n,
                n == initial.len(),
                operations@.len() == n,
                initial == old(operations)@,
                bus_before == old(self).exchanges(),
                waits_before == old(delay).waits(),
                self.bus.exchanges() == bus_before + bus_trace(initial, operations@, i as int),
                delay.waits() == waits_before + wait_trace(initial, i as int),
                forall|j: int| i <= j < n ==> operations@[j] == initial[j],
                forall|j: int| 0 <= j < n ==> (#[trigger] initial[j]).retained(operations@[j]),
            decreases n - i,
        {
            let ghost reached = operations@;
            let ghost bus_reached = self.bus.exchanges();
            let outcome: Result<(), StepKind> = match &mut operations[i] {
                Operation::Read(read) => {
                    match self.bus.read(read.as_mut_slice()) {
                        Ok(()) => Ok(()),
                        Err(_) => Err(StepKind::Read),
                    }
                },
                Operation::Write(write) => {
                    match self.bus.write(write.as_slice()) {
                        Ok(()) => Ok(()),
                        Err(_) => Err(StepKind::Write),
                    }
                },
                Operation::Transfer(read, write) => {
                    match self.bus.transfer(read.as_mut_slice(), write.as_slice()) {
                        Ok(()) => Ok(()),
                        Err(_) => Err(StepKind::Transfer),
                    }
                },
                Operation::TransferInPlace(words) => {
                    match self.bus.transfer_in_place(words.as_mut_slice()) {
                        Ok(()) => Ok(()),
                        Err(_) => Err(StepKind::TransferInPlace),
                    }
                },
                Operation::DelayUs(us) => {
                    delay.delay_us(*us);
                    Ok(())
                },
            };
            proof {
                assert(forall|j: int| 0 <= j < n && j != i ==> operations@[j] == reached[j]);
                lemma_bus_trace_reads_prefix(initial, reached, operations@, i as int);
            }
            match outcome {
                Ok(()) => {
                    assert(self.bus.exchanges() =~= bus_before + bus_trace(
                        initial,
                        operations@,
                        i + 1,
                    ));
                    assert(delay.waits() =~= waits_before + wait_trace(initial, i + 1));
                },
                Err(kind) => {
                    let error = Error::Transaction(kind);
                    proof {
                        assert(self.bus.exchanges().drop_last() =~= bus_before + bus_trace(
                            initial,
                            operations@,
                            i as int,
                        ));
                        assert(stopped_at(
                            old(operations)@,
                            operations@,
                            old(self).exchanges(),
                            self.exchanges(),
                            old(delay).waits(),
                            delay.waits(),
                            error,
                            i as int,
                        ));
                        assert(untouched_behind(old(operations)@, operations@, i as int));
                    }
                    return Err(error);
                },
            }
            i += 1;
        }
        Ok(())
    }
}

/// A run in which every step completes makes exactly one call per operation:
/// the exchanges on the bus and the waits on the timer together are as many
/// as the operations, so nothing is skipped or made twice. Both records keep
/// the operations' order.
pub proof fn lemma_complete_run_calls_each_operation_once(
    before: Seq<Operation>,
    after: Seq<Operation>,
    count: int,
)
    requires
        0 <= count <= before.len(),
    ensures
        bus_trace(before, after, count).len() + wait_trace(before, count).len() == count,
    decreases count,
{
    if count > 0 {
        lemma_complete_run_calls_each_operation_once(before, after, count - 1);
    }
}

/// A run that stopped at position `at` called nothing behind `at`: it made
/// `at + 1` calls in all, the last of them the failed bus step; the error
/// names the kind of the operation at `at`, which is a bus step, never a
/// delay.
pub proof fn lemma_stopped_run_calls_nothing_further(
    before: Seq<Operation>,
    after: Seq<Operation>,
    bus_before: Seq<Exchange>,
    bus_after: Seq<Exchange>,
    waits_before: Seq<u32>,
    waits_after: Seq<u32>,
    error: Error,
    at: int,
)
    requires
        stopped_at(before, after, bus_before, bus_after, waits_before, waits_after, error, at),
    ensures
        (bus_after.len() - bus_before.len()) + (waits_after.len() - waits_before.len()) == at + 1,
        !(before[at] is DelayUs),
        before[at].step_kind() is Some,
        error == Error::Transaction(before[at].step_kind().unwrap()),
{
    lemma_complete_run_calls_each_operation_once(before, after, at);
    assert(bus_after.len() == bus_after.drop_last().len() + 1);
}

} // verus!
