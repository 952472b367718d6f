//! Token-2022's own instructions, each built by that program's interface crate.
use vstd::prelude::*;
use crate::address::{Pubkey, SYSTEM, TOKEN, TOKEN_2022};
use crate::bytes::le64;
use crate::instruction::{AccountMeta, Instruction, InstructionView};
use anchor_lang::solana_program::program_error::ProgramError;
use anchor_spl::token_2022::spl_token_2022;
use spl_token_2022::extension::confidential_transfer::instruction as confidential;
use spl_token_2022::extension::ExtensionType;
use spl_token_confidential_transfer_proof_extraction::instruction::ProofLocation;

verus! {

/// The error type of the instruction builders.
#[verifier::external_type_specification]
#[verifier::external_body]
pub struct ExProgramError(ProgramError);

/// Bytes of a mint account that holds the confidential-transfer configuration: the padded
/// base account and its type byte, then the header and the 65 bytes of the extension.
pub const CONFIDENTIAL_MINT_LEN: usize = 235;

/// Sets up confidential transfers on a mint that is not initialized yet: `authority` may
/// change the configuration, new accounts are approved at once, and there is no auditor.
pub open spec fn initialize_confidential_transfer_call(
    mint: Pubkey,
    authority: Pubkey,
) -> InstructionView {
    InstructionView {
        program_id: TOKEN_2022,
        accounts: seq![AccountMeta::writable(mint)],
        data: seq![27u8, 0u8] + authority@ + seq![1u8] + SYSTEM@,
    }
}

/// Initializes a mint that has an authority and no freeze authority.
pub open spec fn initialize_mint2_call(
    program: Pubkey,
    mint: Pubkey,
    authority: Pubkey,
    decimals: u8,
) -> InstructionView {
    InstructionView {
        program_id: program,
        accounts: seq![AccountMeta::writable(mint)],
        data: seq![20u8, decimals] + authority@ + seq![0u8],
    }
}

/// Moves `amount` from the public balance of `token_account` to its pending balance.
pub open spec fn deposit_call(
    token_account: Pubkey,
    mint: Pubkey,
    amount: u64,
    decimals: u8,
    authority: Pubkey,
) -> InstructionView {
    InstructionView {
        program_id: TOKEN_2022,
        accounts: seq![
            AccountMeta::writable(token_account),
            AccountMeta::readonly(mint),
            AccountMeta::signer(authority),
        ],
        data: seq![27u8, 5u8] + le64(amount) + seq![decimals],
    }
}

/// Adds the pending balance of `token_account` to its available balance. `counter` is the
/// number of credits that `balance`, the new AES copy, accounts for.
pub open spec fn apply_pending_call(
    token_account: Pubkey,
    counter: u64,
    balance: [u8; 36],
    authority: Pubkey,
) -> InstructionView {
    InstructionView {
        program_id: TOKEN_2022,
        accounts: seq![AccountMeta::writable(token_account), AccountMeta::signer(authority)],
        data: seq![27u8, 8u8] + le64(counter) + balance@,
    }
}

/// Moves `amount` from the available balance of `token_account` to its public balance. The
/// two closing bytes say that the proofs lie in accounts, not in the same transaction.
pub open spec fn withdraw_call(
    token_account: Pubkey,
    mint: Pubkey,
    amount: u64,
    decimals: u8,
    balance: [u8; 36],
    authority: Pubkey,
    equality: Pubkey,
    range: Pubkey,
) -> InstructionView {
    InstructionView {
        program_id: TOKEN_2022,
        accounts: seq![
            AccountMeta::writable(token_account),
            AccountMeta::readonly(mint),
            AccountMeta::readonly(equality),
            AccountMeta::readonly(range),
            AccountMeta::signer(authority),
        ],
        data: seq![27u8, 6u8] + le64(amount) + seq![decimals] + balance@ + seq![0u8, 0u8],
    }
}

/// Moves a hidden amount from the available balance of `source` to the pending balance of
/// `destination`. The three closing bytes say that the proofs lie in accounts.
pub open spec fn transfer_call(
    source: Pubkey,
    mint: Pubkey,
    destination: Pubkey,
    balance: [u8; 36],
    auditor_lo: [u8; 64],
    auditor_hi: [u8; 64],
    authority: Pubkey,
    equality: Pubkey,
    validity: Pubkey,
    range: Pubkey,
) -> InstructionView {
    InstructionView {
        program_id: TOKEN_2022,
        accounts: seq![
            AccountMeta::writable(source),
            AccountMeta::readonly(mint),
            AccountMeta::writable(destination),
            AccountMeta::readonly(equality),
            AccountMeta::readonly(validity),
            AccountMeta::readonly(range),
            AccountMeta::signer(authority),
        ],
        data: seq![27u8, 7u8] + balance@ + auditor_lo@ + auditor_hi@ + seq![0u8, 0u8, 0u8],
    }
}

/// Calls `ExtensionType::try_calculate_account_len` for a mint with the confidential-transfer
/// configuration. Claimed: it succeeds with `CONFIDENTIAL_MINT_LEN`.
#[verifier::external_body]
pub(crate) fn confidential_mint_len() -> (r: Result<usize, ProgramError>)
    ensures
        r is Ok,
        r matches Ok(len) ==> len == CONFIDENTIAL_MINT_LEN,
{
    ExtensionType::try_calculate_account_len::<spl_token_2022::state::Mint>(
        &[ExtensionType::ConfidentialTransferMint],
    )
}

/// Calls `confidential_transfer::instruction::initialize_mint` with an authority, automatic
/// approval and no auditor. Claimed: it refuses a program other than Token-2022 and an
/// authority of 32 zero bytes, which would read as no authority; otherwise it returns
/// `initialize_confidential_transfer_call`.
#[verifier::external_body]
pub(crate) fn initialize_confidential_transfer(
    program: Pubkey,
    mint: Pubkey,
    authority: Pubkey,
) -> (r: Result<Instruction, ProgramError>)
    ensures
        r is Ok <==> (program == TOKEN_2022 && authority != SYSTEM),
        r matches Ok(i) ==> i@ == initialize_confidential_transfer_call(mint, authority),
{
    let i = confidential::initialize_mint(
        &program.into(), &mint.into(), Some(authority.into()), true, None,
    )?;
    Ok(Instruction {
        program_id: i.program_id.to_bytes(),
        accounts: i.accounts.iter().map(|m| AccountMeta {
            pubkey: m.pubkey.to_bytes(), is_signer: m.is_signer, is_writable: m.is_writable,
        }).collect(),
        data: i.data,
    })
}

/// Calls `instruction::initialize_mint2` without a freeze authority. Claimed: it refuses a
/// program that is neither of the two token programs; otherwise it returns
/// `initialize_mint2_call`.
#[verifier::external_body]
pub(crate) fn initialize_mint2(
    program: Pubkey,
    mint: Pubkey,
    authority: Pubkey,
    decimals: u8,
) -> (r: Result<Instruction, ProgramError>)
    ensures
        r is Ok <==> (program == TOKEN_2022 || program == TOKEN),
        r matches Ok(i) ==> i@ == initialize_mint2_call(program, mint, authority, decimals),
{
    let i = spl_token_2022::instruction::initialize_mint2(
        &program.into(), &mint.into(), &authority.into(), None, decimals,
    )?;
    Ok(Instruction {
        program_id: i.program_id.to_bytes(),
        accounts: i.accounts.iter().map(|m| AccountMeta {
            pubkey: m.pubkey.to_bytes(), is_signer: m.is_signer, is_writable: m.is_writable,
        }).collect(),
        data: i.data,
    })
}

/// Calls `confidential_transfer::instruction::deposit` with a single authority. Claimed: it
/// refuses a program other than Token-2022; otherwise it returns `deposit_call`.
#[verifier::external_body]
pub(crate) fn deposit(
    program: Pubkey,
    token_account: Pubkey,
    mint: Pubkey,
    amount: u64,
    decimals: u8,
    authority: Pubkey,
) -> (r: Result<Instruction, ProgramError>)
    ensures
        r is Ok <==> program == TOKEN_2022,
        r matches Ok(i) ==> i@ == deposit_call(token_account, mint, amount, decimals, authority),
{
    let i = confidential::deposit(
        &program.into(), &token_account.into(), &mint.into(), amount, decimals,
        &authority.into(), &[],
    )?;
    Ok(Instruction {
        program_id: i.program_id.to_bytes(),
        accounts: i.accounts.iter().map(|m| AccountMeta {
            pubkey: m.pubkey.to_bytes(), is_signer: m.is_signer, is_writable: m.is_writable,
        }).collect(),
        data: i.data,
    })
}

/// Calls `confidential_transfer::instruction::apply_pending_balance` with a single authority.
/// Claimed: it refuses a program other than Token-2022; otherwise it returns
/// `apply_pending_call`.
#[verifier::external_body]
pub(crate) fn apply_pending_balance(
    program: Pubkey,
    token_account: Pubkey,
    counter: u64,
    balance: [u8; 36],
    authority: Pubkey,
) -> (r: Result<Instruction, ProgramError>)
    ensures
        r is Ok <==> program == TOKEN_2022,
        r matches Ok(i) ==> i@ == apply_pending_call(token_account, counter, balance, authority),
{
    let i = confidential::apply_pending_balance(
        &program.into(), &token_account.into(), counter, &balance.into(), &authority.into(), &[],
    )?;
    Ok(Instruction {
        program_id: i.program_id.to_bytes(),
        accounts: i.accounts.iter().map(|m| AccountMeta {
            pubkey: m.pubkey.to_bytes(), is_signer: m.is_signer, is_writable: m.is_writable,
        }).collect(),
        data: i.data,
    })
}

/// Calls `confidential_transfer::instruction::inner_withdraw` with a single authority and
/// both proofs in context accounts. Claimed: it refuses a program other than Token-2022;
/// otherwise it returns `withdraw_call`.
#[verifier::external_body]
pub(crate) fn inner_withdraw(
    program: Pubkey,
    token_account: Pubkey,
    mint: Pubkey,
    amount: u64,
    decimals: u8,
    balance: [u8; 36],
    authority: Pubkey,
    equality: Pubkey,
    range: Pubkey,
) -> (r: Result<Instruction, ProgramError>)
    ensures
        r is Ok <==> program == TOKEN_2022,
        r matches Ok(i) ==> i@ == withdraw_call(
            token_account, mint, amount, decimals, balance, authority, equality, range),
{
    let i = confidential::inner_withdraw(
        &program.into(), &token_account.into(), &mint.into(), amount, decimals,
        &balance.into(), &authority.into(), &[],
        ProofLocation::ContextStateAccount(&equality.into()),
        ProofLocation::ContextStateAccount(&range.into()),
    )?;
    Ok(Instruction {
        program_id: i.program_id.to_bytes(),
        accounts: i.accounts.iter().map(|m| AccountMeta {
            pubkey: m.pubkey.to_bytes(), is_signer: m.is_signer, is_writable: m.is_writable,
        }).collect(),
        data: i.data,
    })
}

/// Calls `confidential_transfer::instruction::inner_transfer` with a single authority and the
/// three proofs in context accounts. Claimed: it refuses a program other than Token-2022;
/// otherwise it returns `transfer_call`.
#[verifier::external_body]
pub(crate) fn inner_transfer(
    program: Pubkey,
    source: Pubkey,
    mint: Pubkey,
    destination: Pubkey,
    balance: [u8; 36],
    auditor_lo: [u8; 64],
    auditor_hi: [u8; 64],
    authority: Pubkey,
    equality: Pubkey,
    validity: Pubkey,
    range: Pubkey,
) -> (r: Result<Instruction, ProgramError>)
    ensures
        r is Ok <==> program == TOKEN_2022,
        r matches Ok(i) ==> i@ == transfer_call(
            source, mint, destination, balance, auditor_lo, auditor_hi, authority,
            equality, validity, range),
{
    let i = confidential::inner_transfer(
        &program.into(), &source.into(), &mint.into(), &destination.into(),
        &balance.into(), &auditor_lo.into(), &auditor_hi.into(), &authority.into(), &[],
        ProofLocation::ContextStateAccount(&equality.into()),
        ProofLocation::ContextStateAccount(&validity.into()),
        ProofLocation::ContextStateAccount(&range.into()),
    )?;
    Ok(Instruction {
        program_id: i.program_id.to_bytes(),
        accounts: i.accounts.iter().map(|m| AccountMeta {
            pubkey: m.pubkey.to_bytes(), is_signer: m.is_signer, is_writable: m.is_writable,
        }).collect(),
        data: i.data,
    })
}

} // verus!
