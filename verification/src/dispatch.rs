//! Instructions: one opcode byte, then the payload that the opcode asks for.
//!
//! | opcode | payload                                              | transition |
//! |--------|------------------------------------------------------|------------|
//! | 0      | amount (8 bytes), end time (8 bytes), little-endian  | initialize |
//! | 1      | none                                                 | claim      |
//!
//! A request lists, behind the accounts of its transition, the accounts that
//! the host reads on the library's behalf: for an initialization the rent
//! account and then the clock, for a claim the clock.

use crate::endian::{i64_from_le, read_i64, read_u64, u64_from_le};
use crate::error::{DispatchError, VestingError};
use crate::lifecycle::{
    accounts_view, claim_outcome, claim_vesting, init_outcome, init_vesting, outcome_view, Account,
    AccountView, Effect, EffectView,
};
use crate::state::Identity;
use vstd::prelude::*;

verus! {

/// The opcode of an initialization.
pub const OPCODE_INIT: u8 = 0;

/// The opcode of a claim.
pub const OPCODE_CLAIM: u8 = 1;

/// The number of bytes in the payload of an initialization.
pub const INIT_PAYLOAD_LEN: usize = 16;

/// The place of the rent account among the accounts of an initialization.
pub const INIT_RENT_AT: usize = 5;

/// The place of the clock account among the accounts of an initialization.
pub const INIT_CLOCK_AT: usize = 6;

/// The place of the clock account among the accounts of a claim.
pub const CLAIM_CLOCK_AT: usize = 4;

/// Where, among the accounts of a request, the host finds what it reads
/// before it asks for a decision.
#[derive(Clone, Copy, Debug, PartialEq, Eq)]
pub struct HostAccounts {
    /// The place of the rent account, where the instruction takes one.
    pub rent: Option<usize>,
    /// The place of the clock account.
    pub clock: usize,
}

/// The places of the host's accounts in a request with the instruction
/// `instruction_data`, by its opcode.
pub open spec fn host_accounts_of(instruction_data: Seq<u8>) -> Result<
    HostAccounts,
    DispatchError,
> {
    if instruction_data.len() == 0 {
        Err(DispatchError::UnknownInstruction)
    } else if instruction_data[0] == OPCODE_INIT {
        Ok(HostAccounts { rent: Some(INIT_RENT_AT), clock: INIT_CLOCK_AT })
    } else if instruction_data[0] == OPCODE_CLAIM {
        Ok(HostAccounts { rent: None, clock: CLAIM_CLOCK_AT })
    } else {
        Err(DispatchError::UnknownInstruction)
    }
}

/// The amount and the end time that the payload of an initialization holds.
pub open spec fn init_payload(payload: Seq<u8>) -> Result<(u64, i64), DispatchError> {
    if payload.len() != INIT_PAYLOAD_LEN {
        Err(DispatchError::InvalidPayload)
    } else {
        Ok((u64_from_le(payload), i64_from_le(payload.skip(8))))
    }
}

/// What a transition answers, as the answer to an instruction.
pub open spec fn routed(outcome: Result<EffectView, VestingError>) -> Result<
    EffectView,
    DispatchError,
> {
    match outcome {
        Ok(effect) => Ok(effect),
        Err(e) => Err(DispatchError::Vesting(e)),
    }
}

/// What the instruction with this opcode and this payload answers. The
/// opcode is looked at first, then the length of the payload; only then does
/// the transition see the accounts.
pub open spec fn dispatch_outcome(
    program_id: Seq<u8>,
    accounts: Seq<AccountView>,
    opcode: u8,
    payload: Seq<u8>,
    now: i64,
) -> Result<EffectView, DispatchError> {
    if opcode == OPCODE_INIT {
        match init_payload(payload) {
            Err(e) => Err(e),
            Ok((amount, vesting_end)) => routed(init_outcome(accounts, amount, vesting_end, now)),
        }
    } else if opcode == OPCODE_CLAIM {
        if payload.len() != 0 {
            Err(DispatchError::InvalidPayload)
        } else {
            routed(claim_outcome(program_id, accounts, now))
        }
    } else {
        Err(DispatchError::UnknownInstruction)
    }
}

/// What the instruction `instruction_data` answers: data without an opcode
/// are no instruction.
pub open spec fn process_outcome(
    program_id: Seq<u8>,
    accounts: Seq<AccountView>,
    instruction_data: Seq<u8>,
    now: i64,
) -> Result<EffectView, DispatchError> {
    if instruction_data.len() == 0 {
        Err(DispatchError::UnknownInstruction)
    } else {
        dispatch_outcome(program_id, accounts, instruction_data[0], instruction_data.skip(1), now)
    }
}

/// The model of what an instruction answers.
pub open spec fn dispatch_view(r: Result<Effect, DispatchError>) -> Result<
    EffectView,
    DispatchError,
> {
    match r {
        Ok(effect) => Ok(effect@),
        Err(e) => Err(e),
    }
}

/// Tells the host where a request with the instruction `instruction_data`
/// keeps the rent account and the clock account. Fails exactly when the
/// instruction has no opcode or one that stands for nothing.
pub fn host_accounts(instruction_data: &[u8]) -> (r: Result<HostAccounts, DispatchError>)
    ensures
        r == host_accounts_of(instruction_data@),
{
    if instruction_data.len() == 0 {
        Err(DispatchError::UnknownInstruction)
    } else if instruction_data[0] == OPCODE_INIT {
        Ok(HostAccounts { rent: Some(INIT_RENT_AT), clock: INIT_CLOCK_AT })
    } else if instruction_data[0] == OPCODE_CLAIM {
        Ok(HostAccounts { rent: None, clock: CLAIM_CLOCK_AT })
    } else {
        Err(DispatchError::UnknownInstruction)
    }
}

/// Reads the amount and the end time from the payload of an initialization.
/// Fails exactly when the payload is not 16 bytes long.
pub fn unpack_init_instruction(data: &[u8]) -> (r: Result<(u64, i64), DispatchError>)
    ensures
        r == init_payload(data@),
{
    if data.len() != INIT_PAYLOAD_LEN {
        return Err(DispatchError::InvalidPayload);
    }
    let amount: u64 = read_u64(data, 0);
    let vesting_end: i64 = read_i64(data, 8);
    proof {
        assert(data@.skip(0) =~= data@);
    }
    Ok((amount, vesting_end))
}

/// Carries an answer of a transition over to the answer of an instruction.
fn route(outcome: Result<Effect, VestingError>) -> (r: Result<Effect, DispatchError>)
    ensures
        dispatch_view(r) == routed(outcome_view(outcome)),
{
    match outcome {
        Ok(effect) => Ok(effect),
        Err(e) => Err(DispatchError::Vesting(e)),
    }
}

/// Decides the instruction with this opcode and this payload at the time
/// `now`, on a snapshot of the accounts that it names.
pub fn dispatch(
    program_id: &Identity,
    accounts: &[Account],
    opcode: u8,
    payload: &[u8],
    now: i64,
) -> (r: Result<Effect, DispatchError>)
    ensures
        dispatch_view(r) == dispatch_outcome(
            program_id@,
            accounts_view(accounts@),
            opcode,
            payload@,
            now,
        ),
{
    if opcode == OPCODE_INIT {
        match unpack_init_instruction(payload) {
            Err(e) => Err(e),
            Ok((amount, vesting_end)) => route(init_vesting(accounts, amount, vesting_end, now)),
        }
    } else if opcode == OPCODE_CLAIM {
        if payload.len() != 0 {
            Err(DispatchError::InvalidPayload)
        } else {
            route(claim_vesting(program_id, accounts, now))
        }
    } else {
        Err(DispatchError::UnknownInstruction)
    }
}

/// Decides the instruction `instruction_data` at the time `now`, on a
/// snapshot of the accounts that it names.
pub fn process_instruction(
    program_id: &Identity,
    accounts: &[Account],
    instruction_data: &[u8],
    now: i64,
) -> (r: Result<Effect, DispatchError>)
    ensures
        dispatch_view(r) == process_outcome(
            program_id@,
            accounts_view(accounts@),
            instruction_data@,
            now,
        ),
{
    if instruction_data.len() == 0 {
        return Err(DispatchError::UnknownInstruction);
    }
    let payload = &instruction_data[1..instruction_data.len()];
    proof {
        assert(payload@ =~= instruction_data@.skip(1));
    }
    dispatch(program_id, accounts, instruction_data[0], payload, now)
}

} // verus!
