//! The ways in which a request is refused.

use vstd::prelude::*;

verus! {

/// Why a buffer could not be read as a record, or a record not written to it.
#[derive(Clone, Copy, Debug, PartialEq, Eq)]
pub enum CodecError {
    /// The buffer is shorter than the fixed layout.
    Truncated,
}

/// Why an initialization or a claim is refused. A refused request has no
/// effect: nothing is written and no transfer is submitted.
#[derive(Clone, Copy, Debug, PartialEq, Eq)]
pub enum VestingError {
    /// The record slot already holds a record, active or released.
    AlreadyInitialized,
    /// The amount is zero, or the end time is not after the present.
    InvalidSchedule,
    /// The funder has not signed the request.
    Unauthorized,
    /// The record slot is empty.
    RecordNotFound,
    /// The record slot cannot hold or give a record.
    Codec(CodecError),
    /// The end time has not passed yet.
    PeriodNotEnded,
    /// The amount of this record has been released before.
    AlreadyClaimed,
    /// The request names fewer accounts than the instruction takes.
    MissingAccount,
    /// The storage behind the record slot is not exempt from rent.
    NotRentExempt,
    /// No signing authority can be derived for the record slot.
    NoAuthority,
    /// The transfer service did not accept the transfer.
    TransferRejected,
}

/// Why an instruction is refused.
#[derive(Clone, Copy, Debug, PartialEq, Eq)]
pub enum DispatchError {
    /// The instruction has no opcode, or one that stands for nothing.
    UnknownInstruction,
    /// The payload has not the length that the opcode asks for.
    InvalidPayload,
    /// The instruction was understood and then refused.
    Vesting(VestingError),
}

} // verus!
