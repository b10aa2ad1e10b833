//! The single error taxonomy shared by every interface style.

use vstd::prelude::*;

verus! {

/// A failure reported by the bus primitive. The transport does not say why it
/// failed beyond a numeric code, which is carried through untouched.
#[derive(Clone, Copy, Debug, PartialEq, Eq, Structural)]
pub struct TransportFailure {
    pub code: i32,
}

/// The coarse classification that interface consumers may ask an error for.
#[derive(Clone, Copy, Debug, PartialEq, Eq, Structural)]
pub enum ErrorKind {
    Overrun,
    ModeFault,
    FrameFormat,
    ChipSelectFault,
    Other,
}

/// Which kind of bus step a transaction was performing when it failed.
#[derive(Clone, Copy, Debug, PartialEq, Eq, Structural)]
pub enum StepKind {
    Read,
    Write,
    Transfer,
    TransferInPlace,
}

/// The unified error: either the transport failed outright, or a step of a
/// device transaction failed.
#[derive(Clone, Copy, Debug, PartialEq, Eq, Structural)]
pub enum Error {
    Io(TransportFailure),
    Transaction(StepKind),
}

/// Outcome of a polling operation that did not complete.
#[derive(Clone, Copy, Debug, PartialEq, Eq, Structural)]
pub enum PollError {
    /// The operation failed.
    Other(Error),
    /// Nothing is available yet; ask again later.
    WouldBlock,
}

impl StepKind {
    /// The text that describes a failure of this kind of step.
    pub open spec fn description_text(self) -> Seq<char> {
        match self {
            StepKind::Read => "SimpleHalSpiDevice read transaction error"@,
            StepKind::Write => "SimpleHalSpiDevice write transaction error"@,
            StepKind::Transfer => "SimpleHalSpiDevice read/write transaction error"@,
            StepKind::TransferInPlace =>
                "SimpleHalSpiDevice in-place read/write transaction error"@,
        }
    }

    /// Human-readable description of a failed step of this kind.
    pub fn description(&self) -> (text: String)
        ensures
            text@ == self.description_text(),
    {
        match self {
            StepKind::Read => "SimpleHalSpiDevice read transaction error".to_owned(),
            StepKind::Write => "SimpleHalSpiDevice write transaction error".to_owned(),
            StepKind::Transfer => "SimpleHalSpiDevice read/write transaction error".to_owned(),
            StepKind::TransferInPlace =>
                "SimpleHalSpiDevice in-place read/write transaction error".to_owned(),
        }
    }
}

impl Error {
    /// Every error classifies as `Other`: the transport does not distinguish
    /// overruns, mode faults or framing errors.
    pub fn kind(&self) -> (kind: ErrorKind)
        ensures
            kind == ErrorKind::Other,
    {
        ErrorKind::Other
    }

    /// The step that failed, where the error arose inside a transaction.
    pub open spec fn failed_step(self) -> Option<StepKind> {
        match self {
            Error::Io(_) => None,
            Error::Transaction(kind) => Some(kind),
        }
    }
}

} // verus!
