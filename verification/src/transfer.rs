//! The token transfer that an effect asks the transfer service to carry out.
//!
//! The instruction itself is built by the token program's own library; this
//! module states what it holds and what carrying it out does to balances.

use crate::endian::{lemma_u64_le_inverse, u64_from_le, u64_le};
use crate::error::VestingError;
use crate::state::Identity;
use solana_program::program_error::ProgramError;
use solana_program::pubkey::Pubkey;
use vstd::prelude::*;

verus! {

/// The error type of the host platform's programs.
#[verifier::external_type_specification]
#[verifier::external_body]
pub struct ExProgramError(ProgramError);

/// One account that an instruction touches, and how.
#[derive(Clone, Copy, Debug, PartialEq, Eq)]
pub struct AccountMeta {
    /// The account's name.
    pub key: Identity,
    /// Whether the account must have signed.
    pub is_signer: bool,
    /// Whether the instruction may change the account.
    pub is_writable: bool,
}

/// The mathematical model of an [`AccountMeta`].
pub ghost struct AccountMetaView {
    pub key: Seq<u8>,
    pub is_signer: bool,
    pub is_writable: bool,
}

impl View for AccountMeta {
    type V = AccountMetaView;

    open spec fn view(&self) -> AccountMetaView {
        AccountMetaView { key: self.key@, is_signer: self.is_signer, is_writable: self.is_writable }
    }
}

/// An instruction for the token program, ready to be submitted.
#[derive(Clone, Debug, PartialEq, Eq)]
pub struct TransferInstruction {
    /// The program that carries the instruction out.
    pub program_id: Identity,
    /// The accounts that it touches, in the order the program expects.
    pub accounts: Vec<AccountMeta>,
    /// The instruction as the program reads it.
    pub data: Vec<u8>,
}

/// The mathematical model of a [`TransferInstruction`].
pub ghost struct TransferInstructionView {
    pub program_id: Seq<u8>,
    pub accounts: Seq<AccountMetaView>,
    pub data: Seq<u8>,
}

impl View for TransferInstruction {
    type V = TransferInstructionView;

    open spec fn view(&self) -> TransferInstructionView {
        TransferInstructionView {
            program_id: self.program_id@,
            accounts: Seq::new(self.accounts@.len(), |i: int| self.accounts@[i]@),
            data: self.data@,
        }
    }
}

/// The name of the token program, `TokenkegQfeZyiNwAJbNbGKPFXCWuBvf9Ss623VQ5DA`.
pub open spec fn token_program_id() -> Seq<u8> {
    seq![
        6u8, 221, 246, 225, 215, 101, 161, 147, 217, 203, 225, 70, 206, 235, 121, 172,
        28, 180, 133, 237, 95, 91, 55, 145, 58, 140, 245, 133, 126, 255, 0, 169,
    ]
}

/// The opcode by which the token program knows a transfer.
pub const TRANSFER_OPCODE: u8 = 3;

/// The instruction that moves `amount` from `source` to `destination` on the
/// signature of `authority` alone: the source and the destination may change,
/// the authority signs and stays as it is, and the data are the opcode and the
/// amount, little-endian.
pub open spec fn transfer_instruction(
    token_program: Seq<u8>,
    source: Seq<u8>,
    destination: Seq<u8>,
    authority: Seq<u8>,
    amount: u64,
) -> TransferInstructionView {
    TransferInstructionView {
        program_id: token_program,
        accounts: seq![
            AccountMetaView { key: source, is_signer: false, is_writable: true },
            AccountMetaView { key: destination, is_signer: false, is_writable: true },
            AccountMetaView { key: authority, is_signer: true, is_writable: false },
        ],
        data: seq![TRANSFER_OPCODE] + u64_le(amount),
    }
}

impl TransferInstructionView {
    /// The account that the transfer takes from.
    pub open spec fn source(self) -> Seq<u8> {
        self.accounts[0].key
    }

    /// The account that the transfer gives to.
    pub open spec fn destination(self) -> Seq<u8> {
        self.accounts[1].key
    }

    /// The account on whose signature the transfer is made.
    pub open spec fn authority(self) -> Seq<u8> {
        self.accounts[2].key
    }

    /// The amount that the transfer moves.
    pub open spec fn amount(self) -> u64 {
        u64_from_le(self.data.skip(1))
    }

    /// By how much the balance of `account` changes when the transfer
    /// service carries the instruction out.
    pub open spec fn balance_change(self, account: Seq<u8>) -> int {
        (if account == self.destination() {
            self.amount() as int
        } else {
            0
        }) - (if account == self.source() {
            self.amount() as int
        } else {
            0
        })
    }
}

/// A transfer instruction names its parties and its amount where the token
/// program looks for them.
pub proof fn lemma_transfer_instruction_parts(
    token_program: Seq<u8>,
    source: Seq<u8>,
    destination: Seq<u8>,
    authority: Seq<u8>,
    amount: u64,
)
    ensures
        transfer_instruction(token_program, source, destination, authority, amount).source()
            == source,
        transfer_instruction(token_program, source, destination, authority, amount).destination()
            == destination,
        transfer_instruction(token_program, source, destination, authority, amount).authority()
            == authority,
        transfer_instruction(token_program, source, destination, authority, amount).amount()
            == amount,
{
    let ix = transfer_instruction(token_program, source, destination, authority, amount);
    lemma_u64_le_inverse(amount);
    assert(ix.data.skip(1) =~= u64_le(amount));
}

/// Calls `spl_token::instruction::transfer` with no further signers. It
/// succeeds exactly when `token_program` names the token program, and then
/// gives the instruction with that program, the source and the destination
/// writable and unsigned, the authority read-only and signing, and as data the
/// opcode 3 followed by the amount in little-endian.
#[verifier::external_body]
fn token_transfer(
    token_program: &Identity,
    source: &Identity,
    destination: &Identity,
    authority: &Identity,
    amount: u64,
) -> (r: Result<TransferInstruction, ProgramError>)
    ensures
        r is Ok <==> token_program@ == token_program_id(),
        r is Ok ==> r->Ok_0@ == transfer_instruction(
            token_program@,
            source@,
            destination@,
            authority@,
            amount,
        ),
{
    let (program, from) = (Pubkey::from(*token_program), Pubkey::from(*source));
    let (to, signer) = (Pubkey::from(*destination), Pubkey::from(*authority));
    let ix = spl_token::instruction::transfer(&program, &from, &to, &signer, &[], amount)?;
    let accounts = ix.accounts.iter().map(|m| AccountMeta {
        key: m.pubkey.to_bytes(),
        is_signer: m.is_signer,
        is_writable: m.is_writable,
    }).collect();
    Ok(TransferInstruction { program_id: ix.program_id.to_bytes(), accounts, data: ix.data })
}

/// Builds the instruction that moves `amount` from `source` to `destination`
/// on the signature of `authority`. The transfer service refuses exactly when
/// `token_program` is not the token program.
pub fn build_transfer(
    token_program: &Identity,
    source: &Identity,
    destination: &Identity,
    authority: &Identity,
    amount: u64,
) -> (r: Result<TransferInstruction, VestingError>)
    ensures
        r is Ok <==> token_program@ == token_program_id(),
        r is Ok ==> r->Ok_0@ == transfer_instruction(
            token_program@,
            source@,
            destination@,
            authority@,
            amount,
        ),
        r is Err ==> r->Err_0 == VestingError::TransferRejected,
{
    match token_transfer(token_program, source, destination, authority, amount) {
        Ok(instruction) => Ok(instruction),
        Err(_) => Err(VestingError::TransferRejected),
    }
}

} // verus!
