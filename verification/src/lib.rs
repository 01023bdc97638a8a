//! Time-locked custody of a token amount: a funder locks an amount in a vault,
//! and one receiver may withdraw all of it once the unlock time has passed.
//!
//! The crate decides; it moves nothing. Each entry point takes a snapshot of
//! the participating accounts and answers with the effect to carry out: the
//! new contents of the record slot and the token transfer to submit.

pub mod authority;
pub mod dispatch;
pub mod endian;
pub mod error;
pub mod laws;
pub mod lifecycle;
pub mod state;
pub mod transfer;

pub use authority::{derive_authority, Authority};
pub use dispatch::{
    dispatch, host_accounts, process_instruction, unpack_init_instruction, HostAccounts,
    CLAIM_CLOCK_AT, INIT_CLOCK_AT, INIT_RENT_AT,
};
pub use error::{CodecError, DispatchError, VestingError};
pub use lifecycle::{
    check_claimable, claim_vesting, init_vesting, release, slot_state, Account, Effect, SlotState,
};
pub use state::{
    is_blank, is_released, Identity, VestingState, MARKER_RELEASED, RECORD_LEN, SLOT_LEN,
};
pub use transfer::{AccountMeta, TransferInstruction};
