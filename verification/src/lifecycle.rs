//! The two transitions of a vesting record: `Uninitialized → Active → Claimed`.
//!
//! A transition reads a snapshot of the accounts that the request names and
//! answers with the [`Effect`] to carry out, or with the reason for refusing.
//! A refusal has no effect. The caller commits an effect whole or not at all.

use crate::authority::{authority_of, derive_authority, seeds_view, Authority, AuthorityView};
use crate::error::{CodecError, VestingError};
use crate::state::{
    blank, decode, encode, is_blank, is_released, mark_released, released, to_vec, Identity,
    VestingRecord, VestingState, MARKER_RELEASED, RECORD_LEN,
};
use crate::transfer::{
    build_transfer, token_program_id, transfer_instruction, TransferInstruction,
    TransferInstructionView,
};
use vstd::prelude::*;

verus! {

/// What a transition reads of one account that a request names.
#[derive(Clone, Debug, PartialEq, Eq)]
pub struct Account {
    /// The account's name.
    pub key: Identity,
    /// Whether the account has signed the request.
    pub is_signer: bool,
    /// Whether the host has found the account's balance to exempt its
    /// storage from rent. Only an initialization asks.
    pub rent_exempt: bool,
    /// The bytes that the account stores.
    pub data: Vec<u8>,
}

/// The mathematical model of an [`Account`].
pub ghost struct AccountView {
    pub key: Seq<u8>,
    pub is_signer: bool,
    pub rent_exempt: bool,
    pub data: Seq<u8>,
}

impl View for Account {
    type V = AccountView;

    open spec fn view(&self) -> AccountView {
        AccountView {
            key: self.key@,
            is_signer: self.is_signer,
            rent_exempt: self.rent_exempt,
            data: self.data@,
        }
    }
}

/// The models of the accounts of a request, in the order of the request.
pub open spec fn accounts_view(accounts: Seq<Account>) -> Seq<AccountView> {
    Seq::new(accounts.len(), |i: int| accounts[i]@)
}

/// What the caller is to carry out, all of it or nothing.
#[derive(Clone, Debug, PartialEq, Eq)]
pub struct Effect {
    /// The new contents of the record slot.
    pub record: Vec<u8>,
    /// The transfer to submit to the token program.
    pub instruction: TransferInstruction,
    /// The seeds that sign the transfer for the derived authority; none where
    /// the transfer is signed by an account of the request.
    pub signer_seeds: Vec<Vec<u8>>,
}

/// The mathematical model of an [`Effect`].
pub ghost struct EffectView {
    pub record: Seq<u8>,
    pub instruction: TransferInstructionView,
    pub signer_seeds: Seq<Seq<u8>>,
}

impl View for Effect {
    type V = EffectView;

    open spec fn view(&self) -> EffectView {
        EffectView {
            record: self.record@,
            instruction: self.instruction@,
            signer_seeds: seeds_view(self.signer_seeds@),
        }
    }
}

/// The model of what a transition answers.
pub open spec fn outcome_view(r: Result<Effect, VestingError>) -> Result<EffectView, VestingError> {
    match r {
        Ok(effect) => Ok(effect@),
        Err(e) => Err(e),
    }
}

/// Where a record slot stands in its life.
#[derive(Clone, Copy, Debug, PartialEq, Eq)]
pub enum SlotState {
    /// The slot has never held a record.
    Uninitialized,
    /// The slot holds a record whose amount is still locked.
    Active,
    /// The slot holds a record whose amount has been released.
    Claimed,
}

/// The state of a slot that stores `data`; none for a slot that is not empty
/// and too short for a record.
pub open spec fn slot_state_of(data: Seq<u8>) -> Option<SlotState> {
    if blank(data) {
        Some(SlotState::Uninitialized)
    } else if data.len() < RECORD_LEN {
        None
    } else if released(data) {
        Some(SlotState::Claimed)
    } else {
        Some(SlotState::Active)
    }
}

/// Tells where a slot that stores `data` stands in its life. Fails exactly
/// when the slot is not empty and too short for a record.
pub fn slot_state(data: &[u8]) -> (r: Result<SlotState, CodecError>)
    ensures
        match slot_state_of(data@) {
            Some(state) => r == Ok::<SlotState, CodecError>(state),
            None => r == Err::<SlotState, CodecError>(CodecError::Truncated),
        },
{
    if is_blank(data) {
        return Ok(SlotState::Uninitialized);
    }
    if data.len() < RECORD_LEN {
        Err(CodecError::Truncated)
    } else if is_released(data) {
        Ok(SlotState::Claimed)
    } else {
        Ok(SlotState::Active)
    }
}

/// The record that an initialization creates.
pub open spec fn new_record(
    receiver: Seq<u8>,
    funder: Seq<u8>,
    amount: u64,
    now: i64,
    vesting_end: i64,
) -> VestingRecord {
    VestingRecord {
        active: true,
        receiver,
        funder,
        amount,
        start_time: now,
        end_time: vesting_end,
    }
}

/// What an initialization answers. Its accounts are, in this order: the
/// record slot, the vault, the funder, the receiver, the token program.
///
/// The record slot is looked at first: a slot that is not empty refuses every
/// initialization. Then come the other accounts, the funder's signature and
/// the schedule. The effect writes the new record over the head of the slot
/// and moves the amount from the funder to the vault on the funder's own
/// signature.
pub open spec fn init_outcome(
    accounts: Seq<AccountView>,
    amount: u64,
    vesting_end: i64,
    now: i64,
) -> Result<EffectView, VestingError> {
    if accounts.len() < 1 {
        Err(VestingError::MissingAccount)
    } else if !blank(accounts[0].data) {
        Err(VestingError::AlreadyInitialized)
    } else if accounts.len() < 5 {
        Err(VestingError::MissingAccount)
    } else if !accounts[0].rent_exempt {
        Err(VestingError::NotRentExempt)
    } else if !accounts[2].is_signer {
        Err(VestingError::Unauthorized)
    } else if amount == 0 || vesting_end <= now {
        Err(VestingError::InvalidSchedule)
    } else if accounts[0].data.len() < RECORD_LEN {
        Err(VestingError::Codec(CodecError::Truncated))
    } else if accounts[4].key != token_program_id() {
        Err(VestingError::TransferRejected)
    } else {
        Ok(
            EffectView {
                record: encode(
                    new_record(accounts[3].key, accounts[2].key, amount, now, vesting_end),
                ) + accounts[0].data.skip(RECORD_LEN as int),
                instruction: transfer_instruction(
                    accounts[4].key,
                    accounts[2].key,
                    accounts[1].key,
                    accounts[2].key,
                    amount,
                ),
                signer_seeds: Seq::empty(),
            },
        )
    }
}

/// The record of a slot that stores `data` and may be claimed at the time
/// `now`, or why it may not.
pub open spec fn claimable(data: Seq<u8>, now: i64) -> Result<VestingRecord, VestingError> {
    if blank(data) {
        Err(VestingError::RecordNotFound)
    } else if data.len() < RECORD_LEN {
        Err(VestingError::Codec(CodecError::Truncated))
    } else if released(data) {
        Err(VestingError::AlreadyClaimed)
    } else if now <= decode(data).end_time {
        Err(VestingError::PeriodNotEnded)
    } else {
        Ok(decode(data))
    }
}

/// What the release of `record` answers once the search for the authority
/// over its vault has ended in `authority`. The accounts are those of a
/// claim. The effect sets the release marker behind the record, which it
/// leaves as it is, and moves the amount of the record from the vault to its
/// receiver on the signature of the derived authority.
pub open spec fn release_outcome(
    accounts: Seq<AccountView>,
    record: VestingRecord,
    authority: Option<AuthorityView>,
) -> Result<EffectView, VestingError> {
    if accounts.len() < 4 {
        Err(VestingError::MissingAccount)
    } else if authority is None {
        Err(VestingError::NoAuthority)
    } else if accounts[0].data.len() < RECORD_LEN {
        Err(VestingError::Codec(CodecError::Truncated))
    } else if accounts[3].key != token_program_id() {
        Err(VestingError::TransferRejected)
    } else {
        Ok(
            EffectView {
                record: mark_released(accounts[0].data),
                instruction: transfer_instruction(
                    accounts[3].key,
                    accounts[1].key,
                    record.receiver,
                    authority->Some_0.address,
                    record.amount,
                ),
                signer_seeds: authority->Some_0.signer_seeds,
            },
        )
    }
}

/// What a claim answers. Its accounts are, in this order: the record slot,
/// the vault, the receiver, the token program.
///
/// The record slot is looked at first: it must hold a record that has not
/// been released and whose end time has passed. The authority over the vault
/// is derived from the program and the name of the record slot.
pub open spec fn claim_outcome(program_id: Seq<u8>, accounts: Seq<AccountView>, now: i64) -> Result<
    EffectView,
    VestingError,
> {
    if accounts.len() < 1 {
        Err(VestingError::MissingAccount)
    } else {
        match claimable(accounts[0].data, now) {
            Err(e) => Err(e),
            Ok(record) => release_outcome(
                accounts,
                record,
                authority_of(program_id, accounts[0].key),
            ),
        }
    }
}

/// Creates a vesting record in an empty slot and asks for the deposit of
/// `amount` into the vault. The record starts at `now` and unlocks after
/// `vesting_end`.
pub fn init_vesting(accounts: &[Account], amount: u64, vesting_end: i64, now: i64) -> (r: Result<
    Effect,
    VestingError,
>)
    ensures
        outcome_view(r) == init_outcome(accounts_view(accounts@), amount, vesting_end, now),
{
    if accounts.len() < 1 {
        return Err(VestingError::MissingAccount);
    }
    let slot = &accounts[0];
    if !is_blank(slot.data.as_slice()) {
        return Err(VestingError::AlreadyInitialized);
    }
    if accounts.len() < 5 {
        return Err(VestingError::MissingAccount);
    }
    let vault = &accounts[1];
    let funder = &accounts[2];
    let receiver = &accounts[3];
    let token_program = &accounts[4];
    if !slot.rent_exempt {
        return Err(VestingError::NotRentExempt);
    }
    if !funder.is_signer {
        return Err(VestingError::Unauthorized);
    }
    if amount == 0 || vesting_end <= now {
        return Err(VestingError::InvalidSchedule);
    }
    let state = VestingState {
        is_initialized: true,
        receiver: receiver.key,
        funder: funder.key,
        amount,
        vesting_start: now,
        vesting_end,
    };
    let mut record = to_vec(slot.data.as_slice());
    match state.pack_into_slice(record.as_mut_slice()) {
        Err(e) => {
            return Err(VestingError::Codec(e));
        },
        Ok(()) => {},
    }
    match build_transfer(&token_program.key, &funder.key, &vault.key, &funder.key, amount) {
        Err(e) => Err(e),
        Ok(instruction) => {
            let signer_seeds: Vec<Vec<u8>> = Vec::new();
            proof {
                assert(seeds_view(signer_seeds@) =~= Seq::<Seq<u8>>::empty());
            }
            Ok(Effect { record, instruction, signer_seeds })
        },
    }
}

/// Reads the record of a slot that stores `data` and tells whether it may be
/// claimed at the time `now`.
pub fn check_claimable(data: &[u8], now: i64) -> (r: Result<VestingState, VestingError>)
    ensures
        match claimable(data@, now) {
            Ok(record) => r is Ok && r->Ok_0@ == record,
            Err(e) => r == Err::<VestingState, VestingError>(e),
        },
{
    if is_blank(data) {
        return Err(VestingError::RecordNotFound);
    }
    match VestingState::unpack_from_slice(data) {
        Err(e) => Err(VestingError::Codec(e)),
        Ok(state) => {
            if is_released(data) {
                Err(VestingError::AlreadyClaimed)
            } else if now <= state.vesting_end {
                Err(VestingError::PeriodNotEnded)
            } else {
                Ok(state)
            }
        },
    }
}

/// Releases the amount of `record`, which the slot of the claim's first
/// account holds, on the signature of `authority`: what the search for the
/// authority over the vault has given.
pub fn release(accounts: &[Account], record: &VestingState, authority: Option<Authority>) -> (r:
    Result<Effect, VestingError>)
    ensures
        outcome_view(r) == release_outcome(
            accounts_view(accounts@),
            record@,
            match authority {
                Some(a) => Some(a@),
                None => None,
            },
        ),
{
    if accounts.len() < 4 {
        return Err(VestingError::MissingAccount);
    }
    let slot = &accounts[0];
    let vault = &accounts[1];
    let token_program = &accounts[3];
    let authority = match authority {
        None => {
            return Err(VestingError::NoAuthority);
        },
        Some(a) => a,
    };
    let mut image = to_vec(slot.data.as_slice());
    if image.len() < RECORD_LEN {
        return Err(VestingError::Codec(CodecError::Truncated));
    }
    if image.len() > RECORD_LEN {
        image[RECORD_LEN] = MARKER_RELEASED;
    } else {
        image.push(MARKER_RELEASED);
    }
    match build_transfer(
        &token_program.key,
        &vault.key,
        &record.receiver,
        &authority.address,
        record.amount,
    ) {
        Err(e) => Err(e),
        Ok(instruction) => Ok(
            Effect { record: image, instruction, signer_seeds: authority.signer_seeds },
        ),
    }
}

/// Releases the amount of the record in the slot to its receiver, once, after
/// the end time of the record has passed.
pub fn claim_vesting(program_id: &Identity, accounts: &[Account], now: i64) -> (r: Result<
    Effect,
    VestingError,
>)
    ensures
        outcome_view(r) == claim_outcome(program_id@, accounts_view(accounts@), now),
{
    if accounts.len() < 1 {
        return Err(VestingError::MissingAccount);
    }
    let slot = &accounts[0];
    match check_claimable(slot.data.as_slice(), now) {
        Err(e) => Err(e),
        Ok(record) => release(accounts, &record, derive_authority(program_id, &slot.key)),
    }
}

} // verus!
