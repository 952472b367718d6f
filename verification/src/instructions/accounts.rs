//! The accounts of an instruction, what the program demands of them, and the calls that it
//! makes with them.
use vstd::prelude::*;
use crate::address::{Pubkey, SYSTEM, TOKEN, TOKEN_2022};
use crate::bytes::same;
use crate::instruction::{Instruction, InstructionView};
use crate::system::{associated_token_address, find_associated_token_address};

verus! {

/// An account as the runtime hands it to the program.
#[derive(Clone, Copy, Debug)]
pub struct AccountInfo {
    pub key: Pubkey,
    /// The program that owns the account.
    pub owner: Pubkey,
    pub lamports: u64,
    pub is_signer: bool,
    pub is_writable: bool,
    pub executable: bool,
}

/// An account that holds a mint.
#[derive(Clone, Copy, Debug)]
pub struct MintAccount {
    pub info: AccountInfo,
    pub decimals: u8,
}

/// An account that holds tokens.
#[derive(Clone, Copy, Debug)]
pub struct TokenAccount {
    pub info: AccountInfo,
    /// The wallet that may spend the tokens.
    pub authority: Pubkey,
}

/// Which demand an account fails.
#[derive(Clone, Copy, Debug, PartialEq, Eq, Structural)]
pub enum AccountError {
    AccountNotSigner,
    AccountNotInitialized,
    AccountOwnedByWrongProgram,
    InvalidProgramId,
    InvalidProgramExecutable,
    ConstraintDuplicateMutableAccount,
    ConstraintAssociatedTokenTokenProgram,
    ConstraintTokenOwner,
    ConstraintAssociated,
    ConstraintMut,
    ConstraintOwner,
    ConstraintMintTokenProgram,
}

/// Why a handler did not come to its calls.
#[derive(Clone, Copy, Debug, PartialEq, Eq, Structural)]
pub enum HandlerError {
    /// The token program is not Token-2022.
    IncorrectProgramId,
    /// The authority is the address of 32 zero bytes, which stands for nobody.
    InvalidArgument,
}

/// Why the program refused an instruction.
#[derive(Clone, Copy, Debug, PartialEq, Eq, Structural)]
pub enum ProgramFault {
    Account(AccountError),
    Handler(HandlerError),
}

/// The first fault of two that are looked for one after the other.
pub open spec fn first(a: Option<AccountError>, b: Option<AccountError>) -> Option<AccountError> {
    if a is Some { a } else { b }
}

/// The account must have signed.
pub open spec fn signer_fault(a: AccountInfo) -> Option<AccountError> {
    if a.is_signer { None } else { Some(AccountError::AccountNotSigner) }
}

/// The account must exist and belong to one of the two token programs.
pub open spec fn token_owned_fault(a: AccountInfo) -> Option<AccountError> {
    if a.owner == SYSTEM && a.lamports == 0 {
        Some(AccountError::AccountNotInitialized)
    } else if a.owner != TOKEN && a.owner != TOKEN_2022 {
        Some(AccountError::AccountOwnedByWrongProgram)
    } else {
        None
    }
}

/// The account must be the program at `id`.
pub open spec fn program_fault(a: AccountInfo, id: Pubkey) -> Option<AccountError> {
    if a.key != id {
        Some(AccountError::InvalidProgramId)
    } else if !a.executable {
        Some(AccountError::InvalidProgramExecutable)
    } else {
        None
    }
}

/// The token account must be the one that is associated with `authority` and `mint` under
/// the token program.
pub open spec fn associated_fault(
    a: TokenAccount,
    authority: Pubkey,
    mint: Pubkey,
    program: Pubkey,
) -> Option<AccountError> {
    if a.info.owner != program {
        Some(AccountError::ConstraintAssociatedTokenTokenProgram)
    } else if a.authority != authority {
        Some(AccountError::ConstraintTokenOwner)
    } else if a.info.key != associated_token_address(authority, mint, program) {
        Some(AccountError::ConstraintAssociated)
    } else {
        None
    }
}

/// The account must be writable.
pub open spec fn mut_fault(a: AccountInfo) -> Option<AccountError> {
    if a.is_writable { None } else { Some(AccountError::ConstraintMut) }
}

/// The account must belong to `program`; if not, that is the fault `error`.
pub open spec fn owner_fault(a: AccountInfo, program: Pubkey, error: AccountError) -> Option<
    AccountError,
> {
    if a.owner == program { None } else { Some(error) }
}

/// A token account that `authority` may spend from under `program`, ready to be changed.
pub open spec fn own_token_account(
    a: TokenAccount,
    authority: Pubkey,
    mint: Pubkey,
    program: Pubkey,
) -> bool {
    &&& a.info.owner == program
    &&& a.authority == authority
    &&& a.info.key == associated_token_address(authority, mint, program)
    &&& a.info.is_writable
}

pub(crate) fn check_signer(a: &AccountInfo) -> (r: Option<AccountError>)
    ensures
        r == signer_fault(*a),
{
    if a.is_signer { None } else { Some(AccountError::AccountNotSigner) }
}

pub(crate) fn check_token_owned(a: &AccountInfo) -> (r: Option<AccountError>)
    ensures
        r == token_owned_fault(*a),
{
    if same(&a.owner, &SYSTEM) && a.lamports == 0 {
        Some(AccountError::AccountNotInitialized)
    } else if !same(&a.owner, &TOKEN) && !same(&a.owner, &TOKEN_2022) {
        Some(AccountError::AccountOwnedByWrongProgram)
    } else {
        None
    }
}

pub(crate) fn check_program(a: &AccountInfo, id: &Pubkey) -> (r: Option<AccountError>)
    ensures
        r == program_fault(*a, *id),
{
    if !same(&a.key, id) {
        Some(AccountError::InvalidProgramId)
    } else if !a.executable {
        Some(AccountError::InvalidProgramExecutable)
    } else {
        None
    }
}

pub(crate) fn check_associated(
    a: &TokenAccount,
    authority: &Pubkey,
    mint: &Pubkey,
    program: &Pubkey,
) -> (r: Option<AccountError>)
    ensures
        r == associated_fault(*a, *authority, *mint, *program),
{
    if !same(&a.info.owner, program) {
        Some(AccountError::ConstraintAssociatedTokenTokenProgram)
    } else if !same(&a.authority, authority) {
        Some(AccountError::ConstraintTokenOwner)
    } else if !same(&a.info.key, &find_associated_token_address(*authority, *mint, *program)) {
        Some(AccountError::ConstraintAssociated)
    } else {
        None
    }
}

pub(crate) fn check_mut(a: &AccountInfo) -> (r: Option<AccountError>)
    ensures
        r == mut_fault(*a),
{
    if a.is_writable { None } else { Some(AccountError::ConstraintMut) }
}

pub(crate) fn check_owner(a: &AccountInfo, program: &Pubkey, error: AccountError) -> (r: Option<
    AccountError,
>)
    ensures
        r == owner_fault(*a, *program, error),
{
    if same(&a.owner, program) { None } else { Some(error) }
}

/// A fault as a verdict.
pub open spec fn verdict(fault: Option<AccountError>) -> Result<(), AccountError> {
    match fault {
        None => Ok(()),
        Some(error) => Err(error),
    }
}

/// A call that a handler makes, and the accounts that it passes on.
#[derive(Debug)]
pub struct Invocation {
    pub instruction: Instruction,
    pub accounts: Vec<Pubkey>,
}

/// What a call says, and the accounts that are passed on.
#[verifier::ext_equal]
pub struct InvocationView {
    pub instruction: InstructionView,
    pub accounts: Seq<Pubkey>,
}

impl View for Invocation {
    type V = InvocationView;

    open spec fn view(&self) -> InvocationView {
        InvocationView { instruction: self.instruction@, accounts: self.accounts@ }
    }
}

/// The call `instruction` with the accounts `passed`.
pub open spec fn invocation(instruction: InstructionView, passed: Seq<AccountInfo>) -> InvocationView {
    InvocationView { instruction, accounts: passed.map_values(|a: AccountInfo| a.key) }
}

/// Every account that the call names is passed on, and the call claims no right to it, to
/// sign for it or to change it, that the program was not given.
pub open spec fn within_rights(instruction: InstructionView, passed: Seq<AccountInfo>) -> bool {
    forall|i: int| 0 <= i < instruction.accounts.len() ==> exists|j: int|
        {
            &&& 0 <= j < passed.len()
            &&& (#[trigger] passed[j]).key == (#[trigger] instruction.accounts[i]).pubkey
            &&& instruction.accounts[i].is_signer ==> passed[j].is_signer
            &&& instruction.accounts[i].is_writable ==> passed[j].is_writable
        }
}

} // verus!
