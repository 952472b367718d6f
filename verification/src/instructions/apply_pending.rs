//! Moving the pending balance into the available balance.
use vstd::prelude::*;
use super::accounts::{
    associated_fault, check_associated, check_mut, check_owner, check_program, check_signer,
    check_token_owned, first, invocation, mut_fault, own_token_account, owner_fault, program_fault,
    signer_fault, token_owned_fault, verdict, within_rights, AccountError, AccountInfo,
    HandlerError, Invocation, MintAccount, TokenAccount,
};
use crate::address::{Pubkey, TOKEN_2022};
use crate::instruction::InstructionView;
use crate::token::{apply_pending_balance, apply_pending_call};

verus! {

/// The accounts of an application of pending.
#[derive(Clone, Copy, Debug)]
pub struct ApplyPending {
    pub owner: AccountInfo,
    pub mint: MintAccount,
    pub token_account: TokenAccount,
    pub token_program: AccountInfo,
}

impl ApplyPending {
    /// The demands on the accounts: the owner signs, the mint is Token-2022's, and the token
    /// account is the owner's own.
    pub open spec fn valid(self) -> bool {
        &&& self.owner.is_signer
        &&& self.token_program.key == TOKEN_2022
        &&& self.token_program.executable
        &&& self.mint.info.owner == TOKEN_2022
        &&& own_token_account(self.token_account, self.owner.key, self.mint.info.key, TOKEN_2022)
    }

    /// The first demand that is not met.
    pub open spec fn fault(self) -> Option<AccountError> {
        let program = self.token_program.key;
        first(signer_fault(self.owner),
        first(token_owned_fault(self.mint.info),
        first(token_owned_fault(self.token_account.info),
        first(program_fault(self.token_program, TOKEN_2022),
        first(owner_fault(self.mint.info, program, AccountError::ConstraintMintTokenProgram),
        first(associated_fault(self.token_account, self.owner.key, self.mint.info.key, program),
        mut_fault(self.token_account.info)))))))
    }

    /// Checks the accounts before the handler runs.
    pub fn validate(&self) -> (r: Result<(), AccountError>)
        ensures
            r == verdict(self.fault()),
            r is Ok <==> self.valid(),
    {
        let program = self.token_program.key;
        if let Some(e) = check_signer(&self.owner) {
            return Err(e);
        }
        if let Some(e) = check_token_owned(&self.mint.info) {
            return Err(e);
        }
        if let Some(e) = check_token_owned(&self.token_account.info) {
            return Err(e);
        }
        if let Some(e) = check_program(&self.token_program, &TOKEN_2022) {
            return Err(e);
        }
        if let Some(e) = check_owner(
            &self.mint.info, &program, AccountError::ConstraintMintTokenProgram) {
            return Err(e);
        }
        if let Some(e) = check_associated(
            &self.token_account, &self.owner.key, &self.mint.info.key, &program) {
            return Err(e);
        }
        if let Some(e) = check_mut(&self.token_account.info) {
            return Err(e);
        }
        Ok(())
    }

    /// The call that the handler makes.
    pub open spec fn call(
        self,
        expected_pending_balance_credit_counter: u64,
        new_decryptable_available_balance: [u8; 36],
    ) -> InstructionView {
        apply_pending_call(
            self.token_account.info.key,
            expected_pending_balance_credit_counter,
            new_decryptable_available_balance,
            self.owner.key,
        )
    }

    /// The accounts that the handler passes on.
    pub open spec fn passed(self) -> Seq<AccountInfo> {
        seq![
            self.token_account.info,
            self.owner,
            self.token_program,
        ]
    }

    /// Consolidates pending into available. The client supplies the AES-encrypted new total.
    pub fn handler(
        &self,
        expected_pending_balance_credit_counter: u64,
        new_decryptable_available_balance: [u8; 36],
    ) -> (r: Result<Invocation, HandlerError>)
        ensures
            self.token_program.key == TOKEN_2022 ==> (r matches Ok(i)
                && i@ == invocation(
                    self.call(
                        expected_pending_balance_credit_counter,
                        new_decryptable_available_balance,
                    ),
                    self.passed(),
                )),
            self.token_program.key != TOKEN_2022 ==> r
                == Err::<Invocation, HandlerError>(HandlerError::IncorrectProgramId),
    {
        match apply_pending_balance(
            self.token_program.key,
            self.token_account.info.key,
            expected_pending_balance_credit_counter,
            new_decryptable_available_balance,
            self.owner.key,
        ) {
            Err(_) => Err(HandlerError::IncorrectProgramId),
            Ok(instruction) => {
                let accounts: Vec<Pubkey> = vec![
                    self.token_account.info.key,
                    self.owner.key,
                    self.token_program.key,
                ];
                let r = Invocation { instruction, accounts };
                proof {
                    let call = self.call(
                        expected_pending_balance_credit_counter,
                        new_decryptable_available_balance,
                    );
                    assert(r@ =~= invocation(call, self.passed()));
                }
                Ok(r)
            },
        }
    }

    /// With valid accounts the call names only accounts that are passed on, and claims no
    /// right that the program was not given.
    pub proof fn stays_within_rights(
        self,
        expected_pending_balance_credit_counter: u64,
        new_decryptable_available_balance: [u8; 36],
    )
        requires
            self.valid(),
        ensures
            within_rights(
                self.call(
                    expected_pending_balance_credit_counter,
                    new_decryptable_available_balance,
                ),
                self.passed(),
            ),
            self.passed().contains(self.token_program),
            self.call(
                expected_pending_balance_credit_counter,
                new_decryptable_available_balance,
            ).program_id == self.token_program.key,
    {
        let p = self.passed();
        assert(p[0] == self.token_account.info);
        assert(p[1] == self.owner);
        assert(p[2] == self.token_program);
    }
}

} // verus!
