//! Accounts: creating them, and finding the token account that belongs to an owner.
use vstd::prelude::*;
use crate::address::{Pubkey, SYSTEM};
use crate::bytes::le64;
use crate::instruction::{AccountMeta, Instruction, InstructionView};
use anchor_spl::associated_token::get_associated_token_address_with_program_id;

verus! {

/// Creates account `to` with `lamports` out of `from` and `space` bytes, and gives it to the
/// program `owner`.
pub open spec fn create_account_call(
    from: Pubkey,
    to: Pubkey,
    lamports: u64,
    space: u64,
    owner: Pubkey,
) -> InstructionView {
    InstructionView {
        program_id: SYSTEM,
        accounts: seq![AccountMeta::writable_signer(from), AccountMeta::writable_signer(to)],
        data: seq![0u8, 0u8, 0u8, 0u8] + le64(lamports) + le64(space) + owner@,
    }
}

/// Calls `solana_system_interface::instruction::create_account`. Claimed: it returns
/// `create_account_call`, the call of the system program with both accounts writable and
/// signing, and as data the number 0 in four bytes, the two amounts and the owner.
#[verifier::external_body]
pub(crate) fn create_account(
    from: Pubkey,
    to: Pubkey,
    lamports: u64,
    space: u64,
    owner: Pubkey,
) -> (r: Instruction)
    ensures
        r@ == create_account_call(from, to, lamports, space, owner),
{
    let i = solana_system_interface::instruction::create_account(
        &from.into(), &to.into(), lamports, space, &owner.into(),
    );
    Instruction {
        program_id: i.program_id.to_bytes(),
        accounts: i.accounts.iter().map(|m| AccountMeta {
            pubkey: m.pubkey.to_bytes(), is_signer: m.is_signer, is_writable: m.is_writable,
        }).collect(),
        data: i.data,
    }
}

/// The address that `get_associated_token_address_with_program_id` derives for a wallet, a
/// mint and a token program.
pub uninterp spec fn associated_token_address(owner: Pubkey, mint: Pubkey, program: Pubkey) -> Pubkey;

/// Calls `get_associated_token_address_with_program_id`. Claimed: the address is a function
/// of the wallet, the mint and the token program. (A triple for which none of the 256 bumps
/// gives an address would make the call panic; none is known.)
#[verifier::external_body]
pub(crate) fn find_associated_token_address(
    owner: Pubkey,
    mint: Pubkey,
    program: Pubkey,
) -> (r: Pubkey)
    ensures
        r == associated_token_address(owner, mint, program),
{
    get_associated_token_address_with_program_id(
        &owner.into(), &mint.into(), &program.into(),
    ).to_bytes()
}

} // verus!
