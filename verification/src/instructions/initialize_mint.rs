//! Creating a mint for confidential transfers.
use vstd::prelude::*;
use super::accounts::{
    check_mut, check_program, check_signer, first, invocation, mut_fault, program_fault,
    signer_fault, verdict, within_rights, AccountError, AccountInfo, HandlerError, Invocation,
    InvocationView, ProgramFault,
};
use crate::address::{SYSTEM, TOKEN_2022};
use crate::bytes::same;
use crate::instruction::InstructionView;
use crate::system::{create_account, create_account_call};
use crate::token::{
    confidential_mint_len, initialize_confidential_transfer, initialize_confidential_transfer_call,
    initialize_mint2, initialize_mint2_call, CONFIDENTIAL_MINT_LEN,
};

verus! {

/// The accounts of the creation of a mint.
#[derive(Clone, Copy, Debug)]
pub struct InitializeMint {
    pub payer: AccountInfo,
    pub mint: AccountInfo,
    /// Controls token issuance and the confidential-transfer configuration.
    pub authority: AccountInfo,
    pub token_program: AccountInfo,
    pub system_program: AccountInfo,
}

impl InitializeMint {
    /// The demands on the accounts: payer, mint and authority sign, payer and mint can be
    /// changed, and the two programs are the ones that they should be.
    pub open spec fn valid(self) -> bool {
        &&& self.payer.is_signer && self.payer.is_writable
        &&& self.mint.is_signer && self.mint.is_writable
        &&& self.authority.is_signer
        &&& self.token_program.key == TOKEN_2022 && self.token_program.executable
        &&& self.system_program.key == SYSTEM && self.system_program.executable
    }

    /// The first demand that is not met.
    pub open spec fn fault(self) -> Option<AccountError> {
        first(signer_fault(self.payer),
        first(signer_fault(self.mint),
        first(signer_fault(self.authority),
        first(program_fault(self.token_program, TOKEN_2022),
        first(program_fault(self.system_program, SYSTEM),
        first(mut_fault(self.payer),
        mut_fault(self.mint)))))))
    }

    /// Checks the accounts before the handler runs.
    pub fn validate(&self) -> (r: Result<(), AccountError>)
        ensures
            r == verdict(self.fault()),
            r is Ok <==> self.valid(),
    {
        if let Some(e) = check_signer(&self.payer) {
            return Err(e);
        }
        if let Some(e) = check_signer(&self.mint) {
            return Err(e);
        }
        if let Some(e) = check_signer(&self.authority) {
            return Err(e);
        }
        if let Some(e) = check_program(&self.token_program, &TOKEN_2022) {
            return Err(e);
        }
        if let Some(e) = check_program(&self.system_program, &SYSTEM) {
            return Err(e);
        }
        if let Some(e) = check_mut(&self.payer) {
            return Err(e);
        }
        if let Some(e) = check_mut(&self.mint) {
            return Err(e);
        }
        Ok(())
    }

    /// The first call: allocate the full Token-2022 layout.
    pub open spec fn create_call(self, lamports: u64) -> InstructionView {
        create_account_call(
            self.payer.key,
            self.mint.key,
            lamports,
            CONFIDENTIAL_MINT_LEN as u64,
            self.token_program.key,
        )
    }

    /// The second call: set up confidential transfers.
    pub open spec fn configure_call(self) -> InstructionView {
        initialize_confidential_transfer_call(self.mint.key, self.authority.key)
    }

    /// The third call: initialize the base mint.
    pub open spec fn base_call(self, decimals: u8) -> InstructionView {
        initialize_mint2_call(self.token_program.key, self.mint.key, self.authority.key, decimals)
    }

    /// The calls that the handler makes, in order. The extension comes before the base mint.
    pub open spec fn calls(self, decimals: u8, lamports: u64) -> Seq<InvocationView> {
        seq![
            invocation(self.create_call(lamports), seq![self.payer, self.mint]),
            invocation(self.configure_call(), seq![self.mint, self.token_program]),
            invocation(self.base_call(decimals), seq![self.mint]),
        ]
    }

    /// Why the handler refuses, if it does.
    pub open spec fn refusal(self) -> Option<HandlerError> {
        if self.token_program.key != TOKEN_2022 {
            Some(HandlerError::IncorrectProgramId)
        } else if self.authority.key == SYSTEM {
            Some(HandlerError::InvalidArgument)
        } else {
            None
        }
    }

    /// Bytes of the account that the mint needs, for which it must hold the rent.
    pub fn space() -> (r: Result<usize, HandlerError>)
        ensures
            r == Ok::<usize, HandlerError>(CONFIDENTIAL_MINT_LEN),
    {
        match confidential_mint_len() {
            Err(_) => Err(HandlerError::InvalidArgument),
            Ok(len) => Ok(len),
        }
    }

    /// Creates the mint. `lamports` is the rent for `space` bytes.
    pub fn handler(&self, decimals: u8, lamports: u64) -> (r: Result<Vec<Invocation>, HandlerError>)
        ensures
            match self.refusal() {
                Some(error) => r == Err::<Vec<Invocation>, HandlerError>(error),
                None => r matches Ok(made) && made@.len() == 3 && (forall|i: int|
                    0 <= i < 3 ==> (#[trigger] made@[i])@ == self.calls(decimals, lamports)[i]),
            },
    {
        let space: usize = match Self::space() {
            Err(error) => return Err(error),
            Ok(space) => space,
        };
        // Allocate the full Token-2022 layout.
        let create = Invocation {
            instruction: create_account(
                self.payer.key, self.mint.key, lamports, space as u64, self.token_program.key),
            accounts: vec![self.payer.key, self.mint.key],
        };
        // Extensions must be initialized BEFORE the base mint.
        let configure = match initialize_confidential_transfer(
            self.token_program.key, self.mint.key, self.authority.key) {
            Err(_) => {
                if !same(&self.token_program.key, &TOKEN_2022) {
                    return Err(HandlerError::IncorrectProgramId);
                }
                return Err(HandlerError::InvalidArgument);
            },
            Ok(instruction) => Invocation {
                instruction,
                accounts: vec![self.mint.key, self.token_program.key],
            },
        };
        let base = match initialize_mint2(
            self.token_program.key, self.mint.key, self.authority.key, decimals) {
            Err(_) => return Err(HandlerError::IncorrectProgramId),
            Ok(instruction) => Invocation { instruction, accounts: vec![self.mint.key] },
        };
        proof {
            let calls = self.calls(decimals, lamports);
            assert(create@ =~= calls[0]);
            assert(configure@ =~= calls[1]);
            assert(base@ =~= calls[2]);
        }
        Ok(vec![create, configure, base])
    }

    /// With valid accounts each call names only accounts that are passed on, and claims no
    /// right that the program was not given.
    pub proof fn stays_within_rights(self, decimals: u8, lamports: u64)
        requires
            self.valid(),
        ensures
            within_rights(self.create_call(lamports), seq![self.payer, self.mint]),
            within_rights(self.configure_call(), seq![self.mint, self.token_program]),
            within_rights(self.base_call(decimals), seq![self.mint]),
            self.create_call(lamports).program_id == self.system_program.key,
            self.configure_call().program_id == self.token_program.key,
            self.base_call(decimals).program_id == self.token_program.key,
    {
        assert(seq![self.payer, self.mint][0] == self.payer);
        assert(seq![self.payer, self.mint][1] == self.mint);
        assert(seq![self.mint, self.token_program][0] == self.mint);
        assert(seq![self.mint][0] == self.mint);
    }
}

/// Creates a Token-2022 mint with confidential transfers enabled: the accounts are checked,
/// then the handler says which calls to make.
pub fn initialize_mint(accounts: &InitializeMint, decimals: u8, lamports: u64) -> (r: Result<
    Vec<Invocation>,
    ProgramFault,
>)
    ensures
        match (accounts.fault(), accounts.refusal()) {
            (Some(error), _) => r == Err::<Vec<Invocation>, ProgramFault>(
                ProgramFault::Account(error),
            ),
            (None, Some(error)) => r == Err::<Vec<Invocation>, ProgramFault>(
                ProgramFault::Handler(error),
            ),
            (None, None) => r matches Ok(made) && made@.len() == 3 && (forall|i: int|
                0 <= i < 3 ==> (#[trigger] made@[i])@ == accounts.calls(decimals, lamports)[i]),
        },
{
    match accounts.validate() {
        Err(error) => Err(ProgramFault::Account(error)),
        Ok(()) => match accounts.handler(decimals, lamports) {
            Err(error) => Err(ProgramFault::Handler(error)),
            Ok(made) => Ok(made),
        },
    }
}

} // verus!
