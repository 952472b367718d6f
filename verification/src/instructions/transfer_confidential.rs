//! Sending a hidden amount to another owner.
use vstd::prelude::*;
use super::accounts::{
    associated_fault, check_associated, check_mut, check_owner, check_program, check_signer,
    check_token_owned, first, invocation, mut_fault, own_token_account, owner_fault, program_fault,
    signer_fault, token_owned_fault, verdict, within_rights, AccountError, AccountInfo,
    HandlerError, Invocation, MintAccount, TokenAccount,
};
use crate::address::{Pubkey, TOKEN_2022};
use crate::instruction::InstructionView;
use crate::bytes::same;
use crate::token::{inner_transfer, transfer_call};

verus! {

/// The accounts of a confidential transfer.
#[derive(Clone, Copy, Debug)]
pub struct TransferConfidential {
    pub owner: AccountInfo,
    /// Used only as the authority address when validating the destination.
    pub recipient: AccountInfo,
    pub mint: MintAccount,
    pub source: TokenAccount,
    pub destination: TokenAccount,
    /// The remaining balance ciphertext and new commitment represent the same number.
    pub equality_proof_context: AccountInfo,
    /// The payment is consistently encrypted for everyone.
    pub ciphertext_validity_proof_context: AccountInfo,
    /// The hidden amounts are valid nonnegative integers within the permitted bounds.
    pub range_proof_context: AccountInfo,
    pub token_program: AccountInfo,
}

impl TransferConfidential {
    /// The demands on the accounts: the sender signs, the mint is Token-2022's, the source is
    /// the sender's own token account, and the destination is another one, the recipient's
    /// own. The contexts are left to Token-2022.
    pub open spec fn valid(self) -> bool {
        &&& self.owner.is_signer
        &&& self.token_program.key == TOKEN_2022
        &&& self.token_program.executable
        &&& self.mint.info.owner == TOKEN_2022
        &&& self.source.info.key != self.destination.info.key
        &&& own_token_account(self.source, self.owner.key, self.mint.info.key, TOKEN_2022)
        &&& own_token_account(self.destination, self.recipient.key, self.mint.info.key, TOKEN_2022)
    }

    /// Source and destination must be two accounts.
    pub open spec fn duplicate_fault(self) -> Option<AccountError> {
        if self.source.info.key == self.destination.info.key {
            Some(AccountError::ConstraintDuplicateMutableAccount)
        } else {
            None
        }
    }

    fn check_duplicate(&self) -> (r: Option<AccountError>)
        ensures
            r == self.duplicate_fault(),
    {
        if same(&self.source.info.key, &self.destination.info.key) {
            Some(AccountError::ConstraintDuplicateMutableAccount)
        } else {
            None
        }
    }

    /// The first demand that is not met.
    pub open spec fn fault(self) -> Option<AccountError> {
        let program = self.token_program.key;
        first(signer_fault(self.owner),
        first(token_owned_fault(self.mint.info),
        first(token_owned_fault(self.source.info),
        first(token_owned_fault(self.destination.info),
        first(program_fault(self.token_program, TOKEN_2022),
        first(self.duplicate_fault(),
        first(owner_fault(self.mint.info, program, AccountError::ConstraintMintTokenProgram),
        first(associated_fault(self.source, self.owner.key, self.mint.info.key, program),
        first(mut_fault(self.source.info),
        first(associated_fault(self.destination, self.recipient.key, self.mint.info.key, program),
        mut_fault(self.destination.info)))))))))))
    }

    /// Checks the accounts before the handler runs.
    pub fn validate(&self) -> (r: Result<(), AccountError>)
        ensures
            r == verdict(self.fault()),
            r is Ok <==> self.valid(),
    {
        let program = self.token_program.key;
        if let Some(e) = check_signer(&self.owner) {
            return Err(e);
        }
        if let Some(e) = check_token_owned(&self.mint.info) {
            return Err(e);
        }
        if let Some(e) = check_token_owned(&self.source.info) {
            return Err(e);
        }
        if let Some(e) = check_token_owned(&self.destination.info) {
            return Err(e);
        }
        if let Some(e) = check_program(&self.token_program, &TOKEN_2022) {
            return Err(e);
        }
        if let Some(e) = self.check_duplicate() {
            return Err(e);
        }
        if let Some(e) = check_owner(
            &self.mint.info, &program, AccountError::ConstraintMintTokenProgram) {
            return Err(e);
        }
        if let Some(e) = check_associated(
            &self.source, &self.owner.key, &self.mint.info.key, &program) {
            return Err(e);
        }
        if let Some(e) = check_mut(&self.source.info) {
            return Err(e);
        }
        if let Some(e) = check_associated(
            &self.destination, &self.recipient.key, &self.mint.info.key, &program) {
            return Err(e);
        }
        if let Some(e) = check_mut(&self.destination.info) {
            return Err(e);
        }
        Ok(())
    }

    /// The call that the handler makes.
    pub open spec fn call(
        self,
        new_source_decryptable_available_balance: [u8; 36],
        transfer_amount_auditor_ciphertext_lo: [u8; 64],
        transfer_amount_auditor_ciphertext_hi: [u8; 64],
    ) -> InstructionView {
        transfer_call(
            self.source.info.key,
            self.mint.info.key,
            self.destination.info.key,
            new_source_decryptable_available_balance,
            transfer_amount_auditor_ciphertext_lo,
            transfer_amount_auditor_ciphertext_hi,
            self.owner.key,
            self.equality_proof_context.key,
            self.ciphertext_validity_proof_context.key,
            self.range_proof_context.key,
        )
    }

    /// The accounts that the handler passes on.
    pub open spec fn passed(self) -> Seq<AccountInfo> {
        seq![
            self.source.info,
            self.mint.info,
            self.destination.info,
            self.equality_proof_context,
            self.ciphertext_validity_proof_context,
            self.range_proof_context,
            self.owner,
            self.token_program,
        ]
    }

    /// Moves a hidden amount from the sender's available balance into the recipient's
    /// pending one. The client supplies the AES-encrypted rest, the amount as encrypted for
    /// the auditor, and the contexts of the three proofs.
    pub fn handler(
        &self,
        new_source_decryptable_available_balance: [u8; 36],
        transfer_amount_auditor_ciphertext_lo: [u8; 64],
        transfer_amount_auditor_ciphertext_hi: [u8; 64],
    ) -> (r: Result<Invocation, HandlerError>)
        ensures
            self.token_program.key == TOKEN_2022 ==> (r matches Ok(i)
                && i@ == invocation(
                    self.call(
                        new_source_decryptable_available_balance,
                        transfer_amount_auditor_ciphertext_lo,
                        transfer_amount_auditor_ciphertext_hi,
                    ),
                    self.passed(),
                )),
            self.token_program.key != TOKEN_2022 ==> r
                == Err::<Invocation, HandlerError>(HandlerError::IncorrectProgramId),
    {
        match inner_transfer(
            self.token_program.key,
            self.source.info.key,
            self.mint.info.key,
            self.destination.info.key,
            new_source_decryptable_available_balance,
            transfer_amount_auditor_ciphertext_lo,
            transfer_amount_auditor_ciphertext_hi,
            self.owner.key,
            self.equality_proof_context.key,
            self.ciphertext_validity_proof_context.key,
            self.range_proof_context.key,
        ) {
            Err(_) => Err(HandlerError::IncorrectProgramId),
            Ok(instruction) => {
                let accounts: Vec<Pubkey> = vec![
                    self.source.info.key,
                    self.mint.info.key,
                    self.destination.info.key,
                    self.equality_proof_context.key,
                    self.ciphertext_validity_proof_context.key,
                    self.range_proof_context.key,
                    self.owner.key,
                    self.token_program.key,
                ];
                let r = Invocation { instruction, accounts };
                proof {
                    let call = self.call(
                        new_source_decryptable_available_balance,
                        transfer_amount_auditor_ciphertext_lo,
                        transfer_amount_auditor_ciphertext_hi,
                    );
                    assert(r@ =~= invocation(call, self.passed()));
                }
                Ok(r)
            },
        }
    }

    /// With valid accounts the transfer names only accounts that are passed on, and claims no
    /// right that the program was not given.
    pub proof fn stays_within_rights(
        self,
        new_source_decryptable_available_balance: [u8; 36],
        transfer_amount_auditor_ciphertext_lo: [u8; 64],
        transfer_amount_auditor_ciphertext_hi: [u8; 64],
    )
        requires
            self.valid(),
        ensures
            within_rights(
                self.call(
                    new_source_decryptable_available_balance,
                    transfer_amount_auditor_ciphertext_lo,
                    transfer_amount_auditor_ciphertext_hi,
                ),
                self.passed(),
            ),
            self.passed().contains(self.token_program),
            self.call(
                new_source_decryptable_available_balance,
                transfer_amount_auditor_ciphertext_lo,
                transfer_amount_auditor_ciphertext_hi,
            ).program_id == self.token_program.key,
    {
        let p = self.passed();
        assert(p[0] == self.source.info);
        assert(p[1] == self.mint.info);
        assert(p[2] == self.destination.info);
        assert(p[3] == self.equality_proof_context);
        assert(p[4] == self.ciphertext_validity_proof_context);
        assert(p[5] == self.range_proof_context);
        assert(p[6] == self.owner);
        assert(p[7] == self.token_program);
    }
}

} // verus!
