//! What holds of every run of the two transitions.
//!
//! The laws speak of the slot and of balances as they stand once the caller
//! has dealt with an answer: an effect is carried out whole, a refusal
//! changes nothing.

use crate::authority::authority_of;
use crate::error::VestingError;
use crate::lifecycle::{
    accounts_view, claim_outcome, init_outcome, new_record, slot_state_of, Account, AccountView,
    EffectView, SlotState,
};
use crate::state::{
    blank, decode, encode, lemma_decode_encode, lemma_decode_reads_the_record_only,
    lemma_locked_amount_shows, mark_released, RECORD_LEN,
};
use crate::transfer::{lemma_transfer_instruction_parts, token_program_id};
use vstd::prelude::*;

verus! {

/// What a slot that stored `before` stores once the caller has dealt with
/// `outcome`.
pub open spec fn slot_after(before: Seq<u8>, outcome: Result<EffectView, VestingError>) -> Seq<u8> {
    match outcome {
        Ok(effect) => effect.record,
        Err(_) => before,
    }
}

/// By how much the balance of `account` has changed once the caller has
/// dealt with `outcome`.
pub open spec fn balance_change(outcome: Result<EffectView, VestingError>, account: Seq<u8>) -> int {
    match outcome {
        Ok(effect) => effect.instruction.balance_change(account),
        Err(_) => 0,
    }
}

/// Every account of the request is named by 32 bytes, as every account of a
/// snapshot is.
pub open spec fn well_formed(accounts: Seq<AccountView>) -> bool {
    forall|i: int| 0 <= i < accounts.len() ==> (#[trigger] accounts[i]).key.len() == 32
}

/// The accounts of a snapshot are well formed.
pub proof fn lemma_snapshot_is_well_formed(accounts: Seq<Account>)
    ensures
        well_formed(accounts_view(accounts)),
{
}

/// By how much a transfer of `amount` from `source` to `destination` changes
/// the balance of `account`.
pub open spec fn moved(source: Seq<u8>, destination: Seq<u8>, amount: u64, account: Seq<u8>) -> int {
    (if account == destination {
        amount as int
    } else {
        0
    }) - (if account == source {
        amount as int
    } else {
        0
    })
}

/// A refusal changes neither the slot nor any balance.
pub proof fn lemma_refusal_changes_nothing(
    before: Seq<u8>,
    outcome: Result<EffectView, VestingError>,
    account: Seq<u8>,
)
    requires
        outcome is Err,
    ensures
        slot_after(before, outcome) == before,
        balance_change(outcome, account) == 0,
{
}

/// An initialization that is accepted leaves the slot active, holding the
/// record of the request with the present as its start, and moves the amount
/// from the funder into the vault.
pub proof fn lemma_initialization_locks(
    accounts: Seq<AccountView>,
    amount: u64,
    vesting_end: i64,
    now: i64,
    account: Seq<u8>,
)
    requires
        well_formed(accounts),
        init_outcome(accounts, amount, vesting_end, now) is Ok,
    ensures
        amount > 0,
        vesting_end > now,
        slot_state_of(accounts[0].data) == Some(SlotState::Uninitialized),
        slot_state_of(
            slot_after(accounts[0].data, init_outcome(accounts, amount, vesting_end, now)),
        ) == Some(SlotState::Active),
        decode(slot_after(accounts[0].data, init_outcome(accounts, amount, vesting_end, now)))
            == new_record(accounts[3].key, accounts[2].key, amount, now, vesting_end),
        new_record(accounts[3].key, accounts[2].key, amount, now, vesting_end).valid(),
        slot_after(accounts[0].data, init_outcome(accounts, amount, vesting_end, now)).len()
            == accounts[0].data.len(),
        slot_after(accounts[0].data, init_outcome(accounts, amount, vesting_end, now)).skip(
            RECORD_LEN as int,
        ) == accounts[0].data.skip(RECORD_LEN as int),
        balance_change(init_outcome(accounts, amount, vesting_end, now), account) == moved(
            accounts[2].key,
            accounts[1].key,
            amount,
            account,
        ),
{
    let record = new_record(accounts[3].key, accounts[2].key, amount, now, vesting_end);
    let tail = accounts[0].data.skip(RECORD_LEN as int);
    lemma_decode_encode(record, tail);
    lemma_locked_amount_shows(record, tail);
    assert((encode(record) + tail).skip(RECORD_LEN as int) =~= tail);
    lemma_transfer_instruction_parts(
        accounts[4].key,
        accounts[2].key,
        accounts[1].key,
        accounts[2].key,
        amount,
    );
}

/// A claim made right after an initialization, at a time that is not after
/// the end time, is refused because the period has not ended; the slot and
/// every balance, the vault's among them, stay as they are.
pub proof fn lemma_claim_before_end_is_refused(
    init_accounts: Seq<AccountView>,
    amount: u64,
    vesting_end: i64,
    now: i64,
    program_id: Seq<u8>,
    claim_accounts: Seq<AccountView>,
    at: i64,
    account: Seq<u8>,
)
    requires
        well_formed(init_accounts),
        init_outcome(init_accounts, amount, vesting_end, now) is Ok,
        claim_accounts.len() >= 1,
        claim_accounts[0].data == slot_after(
            init_accounts[0].data,
            init_outcome(init_accounts, amount, vesting_end, now),
        ),
        at <= vesting_end,
    ensures
        claim_outcome(program_id, claim_accounts, at) == Err::<EffectView, VestingError>(
            VestingError::PeriodNotEnded,
        ),
        slot_after(claim_accounts[0].data, claim_outcome(program_id, claim_accounts, at))
            == claim_accounts[0].data,
        balance_change(claim_outcome(program_id, claim_accounts, at), account) == 0,
{
    lemma_initialization_locks(init_accounts, amount, vesting_end, now, account);
}

/// An initialization on a slot that is not empty is refused as already
/// initialized, whatever else the request holds, and the slot stays as it is.
pub proof fn lemma_occupied_slot_refuses_initialization(
    accounts: Seq<AccountView>,
    amount: u64,
    vesting_end: i64,
    now: i64,
    account: Seq<u8>,
)
    requires
        accounts.len() >= 1,
        !blank(accounts[0].data),
    ensures
        init_outcome(accounts, amount, vesting_end, now) == Err::<EffectView, VestingError>(
            VestingError::AlreadyInitialized,
        ),
        slot_after(accounts[0].data, init_outcome(accounts, amount, vesting_end, now))
            == accounts[0].data,
        balance_change(init_outcome(accounts, amount, vesting_end, now), account) == 0,
{
}

/// A slot is initialized at most once: after any transition that is
/// accepted, every further initialization on the slot is refused as already
/// initialized.
pub proof fn lemma_slot_is_initialized_once(
    record: Seq<u8>,
    accounts: Seq<AccountView>,
    amount: u64,
    vesting_end: i64,
    now: i64,
)
    requires
        slot_state_of(record) == Some(SlotState::Active) || slot_state_of(record) == Some(
            SlotState::Claimed,
        ),
        accounts.len() >= 1,
        accounts[0].data == record,
    ensures
        init_outcome(accounts, amount, vesting_end, now) == Err::<EffectView, VestingError>(
            VestingError::AlreadyInitialized,
        ),
{
}

/// A claim after the end time on an active slot, with the token program
/// among its accounts and an authority to sign, is accepted. It moves the
/// amount of the record from the vault to the receiver of the record on the
/// signature of the derived authority, leaves every other balance alone, and
/// leaves the slot claimed: the release marker is set behind the record, and
/// the record and every other byte of the slot stay as they were.
pub proof fn lemma_claim_after_end_releases(
    program_id: Seq<u8>,
    accounts: Seq<AccountView>,
    now: i64,
    account: Seq<u8>,
)
    requires
        accounts.len() >= 4,
        slot_state_of(accounts[0].data) == Some(SlotState::Active),
        now > decode(accounts[0].data).end_time,
        authority_of(program_id, accounts[0].key) is Some,
        accounts[3].key == token_program_id(),
    ensures
        claim_outcome(program_id, accounts, now) is Ok,
        balance_change(claim_outcome(program_id, accounts, now), account) == moved(
            accounts[1].key,
            decode(accounts[0].data).receiver,
            decode(accounts[0].data).amount,
            account,
        ),
        claim_outcome(program_id, accounts, now)->Ok_0.instruction.authority() == authority_of(
            program_id,
            accounts[0].key,
        )->Some_0.address,
        slot_state_of(slot_after(accounts[0].data, claim_outcome(program_id, accounts, now)))
            == Some(SlotState::Claimed),
        decode(slot_after(accounts[0].data, claim_outcome(program_id, accounts, now))) == decode(
            accounts[0].data,
        ),
        slot_after(accounts[0].data, claim_outcome(program_id, accounts, now)) == mark_released(
            accounts[0].data,
        ),
{
    let record = decode(accounts[0].data);
    let after = mark_released(accounts[0].data);
    assert(after.take(RECORD_LEN as int) =~= accounts[0].data.take(RECORD_LEN as int));
    lemma_decode_reads_the_record_only(accounts[0].data, after);
    assert(after[RECORD_LEN as int] != 0);
    lemma_transfer_instruction_parts(
        accounts[3].key,
        accounts[1].key,
        record.receiver,
        authority_of(program_id, accounts[0].key)->Some_0.address,
        record.amount,
    );
}

/// A claim is accepted only on an active slot after the end time of its
/// record.
pub proof fn lemma_claim_needs_active_and_ended(
    program_id: Seq<u8>,
    accounts: Seq<AccountView>,
    now: i64,
)
    requires
        claim_outcome(program_id, accounts, now) is Ok,
    ensures
        slot_state_of(accounts[0].data) == Some(SlotState::Active),
        now > decode(accounts[0].data).end_time,
{
}

/// After a claim that was accepted, every further claim on the same slot is
/// refused as already claimed, whoever asks and whenever, and moves nothing.
pub proof fn lemma_second_claim_is_refused(
    program_id: Seq<u8>,
    accounts: Seq<AccountView>,
    now: i64,
    next_program_id: Seq<u8>,
    next_accounts: Seq<AccountView>,
    next_now: i64,
    account: Seq<u8>,
)
    requires
        claim_outcome(program_id, accounts, now) is Ok,
        next_accounts.len() >= 1,
        next_accounts[0].data == slot_after(
            accounts[0].data,
            claim_outcome(program_id, accounts, now),
        ),
    ensures
        claim_outcome(next_program_id, next_accounts, next_now) == Err::<EffectView, VestingError>(
            VestingError::AlreadyClaimed,
        ),
        slot_after(
            next_accounts[0].data,
            claim_outcome(next_program_id, next_accounts, next_now),
        ) == next_accounts[0].data,
        balance_change(claim_outcome(next_program_id, next_accounts, next_now), account) == 0,
{
    let after = mark_released(accounts[0].data);
    assert(after[RECORD_LEN as int] != 0);
}

} // verus!
