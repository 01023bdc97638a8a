use vesting::{
    check_claimable, claim_vesting, derive_authority, init_vesting, release, slot_state, Account,
    AccountMeta, CodecError, SlotState, VestingError, VestingState, MARKER_RELEASED, RECORD_LEN,
    SLOT_LEN,
};

const PROGRAM: [u8; 32] = [0x50; 32];
const SLOT: [u8; 32] = [0x01; 32];
const VAULT: [u8; 32] = [0x02; 32];
const FUNDER: [u8; 32] = [0x03; 32];
const RECEIVER: [u8; 32] = [0x04; 32];

fn token() -> [u8; 32] {
    spl_token::id().to_bytes()
}

fn account(key: [u8; 32], is_signer: bool, data: Vec<u8>) -> Account {
    Account { key, is_signer, rent_exempt: true, data }
}

fn init_accounts(slot: Vec<u8>) -> Vec<Account> {
    vec![
        account(SLOT, false, slot),
        account(VAULT, false, vec![0; 165]),
        account(FUNDER, true, vec![0; 165]),
        account(RECEIVER, false, vec![0; 165]),
        account(token(), false, Vec::new()),
    ]
}

fn claim_accounts(slot: Vec<u8>) -> Vec<Account> {
    vec![
        account(SLOT, false, slot),
        account(VAULT, false, vec![0; 165]),
        account(RECEIVER, false, vec![0; 165]),
        account(token(), false, Vec::new()),
    ]
}

fn active_slot(amount: u64, start: i64, end: i64) -> Vec<u8> {
    let state = VestingState {
        is_initialized: true,
        receiver: RECEIVER,
        funder: FUNDER,
        amount,
        vesting_start: start,
        vesting_end: end,
    };
    let mut slot = vec![0u8; SLOT_LEN];
    state.pack_into_slice(&mut slot).unwrap();
    slot
}

fn released_slot(amount: u64, start: i64, end: i64) -> Vec<u8> {
    let mut slot = active_slot(amount, start, end);
    slot[RECORD_LEN] = MARKER_RELEASED;
    slot
}

#[test]
fn init_writes_an_active_record_and_asks_for_the_deposit() {
    let effect = init_vesting(&init_accounts(vec![0; SLOT_LEN]), 1000, 500, 400).unwrap();
    assert_eq!(
        VestingState::unpack_from_slice(&effect.record),
        Ok(VestingState {
            is_initialized: true,
            receiver: RECEIVER,
            funder: FUNDER,
            amount: 1000,
            vesting_start: 400,
            vesting_end: 500,
        })
    );
    assert_eq!(effect.record, active_slot(1000, 400, 500));
    assert_eq!(slot_state(&effect.record), Ok(SlotState::Active));
    assert_eq!(effect.instruction.program_id, token());
    assert_eq!(
        effect.instruction.accounts,
        vec![
            AccountMeta { key: FUNDER, is_signer: false, is_writable: true },
            AccountMeta { key: VAULT, is_signer: false, is_writable: true },
            AccountMeta { key: FUNDER, is_signer: true, is_writable: false },
        ]
    );
    assert_eq!(effect.instruction.data, vec![3, 0xe8, 0x03, 0, 0, 0, 0, 0, 0]);
    assert!(effect.signer_seeds.is_empty());
}

#[test]
fn init_writes_each_field_at_its_offset() {
    let mut accounts = init_accounts(vec![0; 97]);
    accounts[3].key = [1; 32];
    accounts[2].key = [2; 32];
    let effect = init_vesting(&accounts, 1000, 1100, 1000).unwrap();
    assert_eq!(effect.record.len(), 97);
    assert_eq!(&effect.record[0..32], &[1; 32]);
    assert_eq!(&effect.record[32..64], &[2; 32]);
    assert_eq!(&effect.record[64..72], &1000u64.to_le_bytes());
    assert_eq!(&effect.record[72..80], &1000i64.to_le_bytes());
    assert_eq!(&effect.record[80..88], &1100i64.to_le_bytes());
    assert_eq!(&effect.record[88..], &[0; 9]);
    assert_eq!(effect.instruction.accounts[0].key, [2; 32]);
    assert_eq!(effect.instruction.accounts[1].key, VAULT);
    assert_eq!(effect.instruction.accounts[2].key, [2; 32]);
    assert_eq!(&effect.instruction.data[1..], &1000u64.to_le_bytes());
}

#[test]
fn init_is_accepted_on_a_slot_that_ends_with_the_record() {
    let effect = init_vesting(&init_accounts(vec![0; RECORD_LEN]), 5, 2, 1).unwrap();
    assert_eq!(effect.record.len(), RECORD_LEN);
    assert_eq!(effect.record.as_slice(), &active_slot(5, 1, 2)[..RECORD_LEN]);
    assert_eq!(slot_state(&effect.record), Ok(SlotState::Active));
}

#[test]
fn init_without_accounts_misses_an_account() {
    assert_eq!(init_vesting(&[], 1000, 500, 400), Err(VestingError::MissingAccount));
    let mut accounts = init_accounts(vec![0; RECORD_LEN]);
    accounts.pop();
    assert_eq!(init_vesting(&accounts, 1000, 500, 400), Err(VestingError::MissingAccount));
    accounts.truncate(1);
    assert_eq!(init_vesting(&accounts, 1000, 500, 400), Err(VestingError::MissingAccount));
}

#[test]
fn init_on_an_occupied_slot_is_already_initialized() {
    let accounts = init_accounts(active_slot(1000, 400, 500));
    assert_eq!(init_vesting(&accounts, 1000, 500, 400), Err(VestingError::AlreadyInitialized));
    let mut one_byte = vec![0u8; SLOT_LEN];
    one_byte[96] = 1;
    assert_eq!(
        init_vesting(&init_accounts(one_byte), 1000, 500, 400),
        Err(VestingError::AlreadyInitialized)
    );
}

#[test]
fn init_on_an_occupied_slot_fails_so_whatever_else_is_wrong() {
    let mut accounts = init_accounts(vec![7; 3]);
    accounts[0].rent_exempt = false;
    accounts[2].is_signer = false;
    accounts[4].key = [0; 32];
    assert_eq!(init_vesting(&accounts, 0, -5, 400), Err(VestingError::AlreadyInitialized));
    accounts.truncate(1);
    assert_eq!(init_vesting(&accounts, 0, -5, 400), Err(VestingError::AlreadyInitialized));
}

#[test]
fn init_on_a_released_slot_is_already_initialized() {
    let first = claim_vesting(&PROGRAM, &claim_accounts(active_slot(1000, 400, 500)), 501).unwrap();
    assert_eq!(
        init_vesting(&init_accounts(first.record), 1000, 900, 600),
        Err(VestingError::AlreadyInitialized)
    );
}

#[test]
fn init_on_storage_that_is_not_rent_exempt_is_refused() {
    let mut accounts = init_accounts(vec![0; RECORD_LEN]);
    accounts[0].rent_exempt = false;
    assert_eq!(init_vesting(&accounts, 1000, 500, 400), Err(VestingError::NotRentExempt));
}

#[test]
fn init_without_the_funders_signature_is_unauthorized() {
    let mut accounts = init_accounts(vec![0; RECORD_LEN]);
    accounts[2].is_signer = false;
    assert_eq!(init_vesting(&accounts, 1000, 500, 400), Err(VestingError::Unauthorized));
    accounts[3].is_signer = true;
    assert_eq!(init_vesting(&accounts, 1000, 500, 400), Err(VestingError::Unauthorized));
}

#[test]
fn init_with_an_empty_or_past_schedule_is_invalid() {
    let accounts = init_accounts(vec![0; RECORD_LEN]);
    assert_eq!(init_vesting(&accounts, 0, 500, 400), Err(VestingError::InvalidSchedule));
    assert_eq!(init_vesting(&accounts, 1000, 400, 400), Err(VestingError::InvalidSchedule));
    assert_eq!(init_vesting(&accounts, 1000, 399, 400), Err(VestingError::InvalidSchedule));
    assert_eq!(init_vesting(&accounts, 1000, i64::MIN, i64::MAX), Err(VestingError::InvalidSchedule));
    assert!(init_vesting(&accounts, 1, 401, 400).is_ok());
    assert!(init_vesting(&accounts, u64::MAX, i64::MAX, i64::MIN).is_ok());
}

#[test]
fn init_on_a_slot_too_short_for_a_record_is_truncated() {
    assert_eq!(
        init_vesting(&init_accounts(vec![0; RECORD_LEN - 1]), 1000, 500, 400),
        Err(VestingError::Codec(CodecError::Truncated))
    );
    assert_eq!(
        init_vesting(&init_accounts(Vec::new()), 1000, 500, 400),
        Err(VestingError::Codec(CodecError::Truncated))
    );
}

#[test]
fn init_through_another_token_program_is_rejected() {
    let mut accounts = init_accounts(vec![0; RECORD_LEN]);
    accounts[4].key = [0x99; 32];
    assert_eq!(init_vesting(&accounts, 1000, 500, 400), Err(VestingError::TransferRejected));
}

#[test]
fn init_checks_signature_before_schedule_before_slot_length() {
    let mut accounts = init_accounts(vec![0; 10]);
    accounts[4].key = [0x99; 32];
    assert_eq!(
        init_vesting(&accounts, 1000, 500, 400),
        Err(VestingError::Codec(CodecError::Truncated))
    );
    assert_eq!(init_vesting(&accounts, 0, 500, 400), Err(VestingError::InvalidSchedule));
    accounts[2].is_signer = false;
    assert_eq!(init_vesting(&accounts, 0, 500, 400), Err(VestingError::Unauthorized));
    accounts[0].rent_exempt = false;
    assert_eq!(init_vesting(&accounts, 0, 500, 400), Err(VestingError::NotRentExempt));
}

#[test]
fn claim_releases_the_amount_to_the_receiver_of_the_record() {
    let slot = active_slot(1000, 400, 500);
    let effect = claim_vesting(&PROGRAM, &claim_accounts(slot.clone()), 501).unwrap();
    let authority = derive_authority(&PROGRAM, &SLOT).unwrap();
    let mut released = slot;
    released[RECORD_LEN] = MARKER_RELEASED;
    assert_eq!(effect.record, released);
    assert_eq!(slot_state(&effect.record), Ok(SlotState::Claimed));
    assert_eq!(effect.instruction.program_id, token());
    assert_eq!(
        effect.instruction.accounts,
        vec![
            AccountMeta { key: VAULT, is_signer: false, is_writable: true },
            AccountMeta { key: RECEIVER, is_signer: false, is_writable: true },
            AccountMeta { key: authority.address, is_signer: true, is_writable: false },
        ]
    );
    assert_eq!(effect.instruction.data, vec![3, 0xe8, 0x03, 0, 0, 0, 0, 0, 0]);
    assert_eq!(effect.signer_seeds, authority.signer_seeds);
    assert_eq!(effect.signer_seeds[1], SLOT.to_vec());
}

#[test]
fn claim_changes_nothing_of_the_record() {
    let effect = claim_vesting(&PROGRAM, &claim_accounts(active_slot(77, -10, -5)), 0).unwrap();
    assert_eq!(&effect.record[..RECORD_LEN], &active_slot(77, -10, -5)[..RECORD_LEN]);
    assert_eq!(
        VestingState::unpack_from_slice(&effect.record),
        Ok(VestingState {
            is_initialized: true,
            receiver: RECEIVER,
            funder: FUNDER,
            amount: 77,
            vesting_start: -10,
            vesting_end: -5,
        })
    );
}

#[test]
fn claim_pays_the_receiver_of_the_record_not_the_account_given() {
    let mut accounts = claim_accounts(active_slot(1000, 400, 500));
    accounts[2].key = [0x66; 32];
    let effect = claim_vesting(&PROGRAM, &accounts, 501).unwrap();
    assert_eq!(effect.instruction.accounts[1].key, RECEIVER);
}

#[test]
fn claim_keeps_what_follows_the_marker() {
    let mut slot = active_slot(1000, 400, 500);
    slot[89..].copy_from_slice(&[0xab; 8]);
    let effect = claim_vesting(&PROGRAM, &claim_accounts(slot), 501).unwrap();
    assert_eq!(effect.record.len(), 97);
    assert_eq!(effect.record[RECORD_LEN], MARKER_RELEASED);
    assert_eq!(&effect.record[89..], &[0xab; 8]);
}

#[test]
fn claim_on_a_slot_that_ends_with_the_record_makes_room_for_the_marker() {
    let slot = active_slot(1000, 400, 500)[..RECORD_LEN].to_vec();
    let effect = claim_vesting(&PROGRAM, &claim_accounts(slot.clone()), 501).unwrap();
    assert_eq!(effect.record.len(), RECORD_LEN + 1);
    assert_eq!(&effect.record[..RECORD_LEN], slot.as_slice());
    assert_eq!(effect.record[RECORD_LEN], MARKER_RELEASED);
    assert_eq!(
        claim_vesting(&PROGRAM, &claim_accounts(effect.record), 502),
        Err(VestingError::AlreadyClaimed)
    );
}

#[test]
fn claim_without_a_slot_misses_an_account() {
    assert_eq!(claim_vesting(&PROGRAM, &[], 501), Err(VestingError::MissingAccount));
}

#[test]
fn claim_without_all_accounts_misses_an_account() {
    let mut accounts = claim_accounts(active_slot(1000, 400, 500));
    accounts.pop();
    assert_eq!(claim_vesting(&PROGRAM, &accounts, 501), Err(VestingError::MissingAccount));
    assert_eq!(claim_vesting(&PROGRAM, &accounts, 500), Err(VestingError::PeriodNotEnded));
}

#[test]
fn claim_on_an_empty_slot_finds_no_record() {
    assert_eq!(
        claim_vesting(&PROGRAM, &claim_accounts(vec![0; SLOT_LEN]), 501),
        Err(VestingError::RecordNotFound)
    );
    assert_eq!(
        claim_vesting(&PROGRAM, &claim_accounts(Vec::new()), 501),
        Err(VestingError::RecordNotFound)
    );
}

#[test]
fn claim_on_a_slot_too_short_for_a_record_is_truncated() {
    let slot = active_slot(1000, 400, 500);
    assert_eq!(
        claim_vesting(&PROGRAM, &claim_accounts(slot[..87].to_vec()), 501),
        Err(VestingError::Codec(CodecError::Truncated))
    );
}

#[test]
fn claim_at_or_before_the_end_time_is_too_early() {
    let accounts = claim_accounts(active_slot(1000, 400, 500));
    assert_eq!(claim_vesting(&PROGRAM, &accounts, 500), Err(VestingError::PeriodNotEnded));
    assert_eq!(claim_vesting(&PROGRAM, &accounts, 450), Err(VestingError::PeriodNotEnded));
    assert_eq!(claim_vesting(&PROGRAM, &accounts, i64::MIN), Err(VestingError::PeriodNotEnded));
    assert!(claim_vesting(&PROGRAM, &accounts, 501).is_ok());
}

#[test]
fn claim_on_a_released_record_is_already_claimed() {
    let accounts = claim_accounts(released_slot(1000, 400, 500));
    assert_eq!(claim_vesting(&PROGRAM, &accounts, 501), Err(VestingError::AlreadyClaimed));
    assert_eq!(claim_vesting(&PROGRAM, &accounts, 10), Err(VestingError::AlreadyClaimed));
}

#[test]
fn claim_through_another_token_program_is_rejected() {
    let mut accounts = claim_accounts(active_slot(1000, 400, 500));
    accounts[3].key = [0x99; 32];
    assert_eq!(claim_vesting(&PROGRAM, &accounts, 501), Err(VestingError::TransferRejected));
}

#[test]
fn check_claimable_gives_the_record_or_the_reason() {
    let slot = active_slot(1000, 400, 500);
    let state = check_claimable(&slot, 501).unwrap();
    assert_eq!(state.amount, 1000);
    assert_eq!(state.receiver, RECEIVER);
    assert_eq!(check_claimable(&slot, 500), Err(VestingError::PeriodNotEnded));
    assert_eq!(check_claimable(&[0; 97], 501), Err(VestingError::RecordNotFound));
    assert_eq!(check_claimable(&slot[..40], 501), Err(VestingError::Codec(CodecError::Truncated)));
    let released = released_slot(1000, 400, 500);
    assert_eq!(check_claimable(&released, 501), Err(VestingError::AlreadyClaimed));
    assert_eq!(check_claimable(&released, 0), Err(VestingError::AlreadyClaimed));
}

#[test]
fn release_without_an_authority_has_no_authority() {
    let slot = active_slot(1000, 400, 500);
    let state = VestingState::unpack_from_slice(&slot).unwrap();
    assert_eq!(release(&claim_accounts(slot), &state, None), Err(VestingError::NoAuthority));
}

#[test]
fn release_signs_with_the_authority_it_is_given() {
    let slot = active_slot(1000, 400, 500);
    let state = VestingState::unpack_from_slice(&slot).unwrap();
    let authority = vesting::Authority::from_derivation(&SLOT, [0xee; 32], 250);
    let effect = release(&claim_accounts(slot), &state, Some(authority.clone())).unwrap();
    assert_eq!(effect.instruction.accounts[2].key, [0xee; 32]);
    assert_eq!(effect.signer_seeds, authority.signer_seeds);
    assert_eq!(effect.record[RECORD_LEN], MARKER_RELEASED);
}

#[test]
fn release_checks_accounts_then_authority_then_slot_then_program() {
    let slot = active_slot(1000, 400, 500);
    let state = VestingState::unpack_from_slice(&slot).unwrap();
    let authority = vesting::Authority::from_derivation(&SLOT, [0xee; 32], 250);
    let mut accounts = claim_accounts(vec![1; 5]);
    accounts[3].key = [0x99; 32];
    assert_eq!(
        release(&accounts, &state, Some(authority.clone())),
        Err(VestingError::Codec(CodecError::Truncated))
    );
    assert_eq!(release(&accounts, &state, None), Err(VestingError::NoAuthority));
    assert_eq!(release(&accounts[..3], &state, None), Err(VestingError::MissingAccount));
    accounts[0].data = slot;
    assert_eq!(
        release(&accounts, &state, Some(authority)),
        Err(VestingError::TransferRejected)
    );
}
