//! Instructions as they travel in a transaction.
use vstd::prelude::*;
use crate::address::Pubkey;

verus! {

/// An account that an instruction names, and what the instruction may do with it.
#[derive(Clone, Copy, Debug)]
pub struct AccountMeta {
    pub pubkey: Pubkey,
    pub is_signer: bool,
    pub is_writable: bool,
}

impl AccountMeta {
    /// An account that is only read.
    #[verifier::allow_in_spec]
    pub fn readonly(pubkey: Pubkey) -> (r: AccountMeta)
        returns
            (AccountMeta { pubkey, is_signer: false, is_writable: false }),
    {
        AccountMeta { pubkey, is_signer: false, is_writable: false }
    }

    /// An account that may be changed.
    #[verifier::allow_in_spec]
    pub fn writable(pubkey: Pubkey) -> (r: AccountMeta)
        returns
            (AccountMeta { pubkey, is_signer: false, is_writable: true }),
    {
        AccountMeta { pubkey, is_signer: false, is_writable: true }
    }

    /// An account that signs and is only read.
    #[verifier::allow_in_spec]
    pub fn signer(pubkey: Pubkey) -> (r: AccountMeta)
        returns
            (AccountMeta { pubkey, is_signer: true, is_writable: false }),
    {
        AccountMeta { pubkey, is_signer: true, is_writable: false }
    }

    /// An account that signs and may be changed.
    #[verifier::allow_in_spec]
    pub fn writable_signer(pubkey: Pubkey) -> (r: AccountMeta)
        returns
            (AccountMeta { pubkey, is_signer: true, is_writable: true }),
    {
        AccountMeta { pubkey, is_signer: true, is_writable: true }
    }
}

/// A call of a program.
#[derive(Debug)]
pub struct Instruction {
    pub program_id: Pubkey,
    pub accounts: Vec<AccountMeta>,
    pub data: Vec<u8>,
}

/// What an instruction says.
#[verifier::ext_equal]
pub struct InstructionView {
    pub program_id: Pubkey,
    pub accounts: Seq<AccountMeta>,
    pub data: Seq<u8>,
}

impl View for Instruction {
    type V = InstructionView;

    open spec fn view(&self) -> InstructionView {
        InstructionView { program_id: self.program_id, accounts: self.accounts@, data: self.data@ }
    }
}

} // verus!
