//! Proofs, and the accounts in which the ZK ElGamal proof program records that it has
//! verified one.
use vstd::prelude::*;
use crate::address::{Pubkey, ZK_ELGAMAL_PROOF};
use crate::instruction::{AccountMeta, Instruction, InstructionView};
use solana_zk_elgamal_proof_interface::instruction::{close_context_state, ContextStateInfo};

verus! {

/// What a proof is about.
#[derive(Clone, Copy, Debug, PartialEq, Eq, Structural)]
pub enum ProofKind {
    /// The prover knows the secret key of an ElGamal public key.
    PubkeyValidity,
    /// A ciphertext and a commitment hold the same number.
    CiphertextCommitmentEquality,
    /// A low and a high part are encrypted alike for three keys.
    BatchedGroupedCiphertext3HandlesValidity,
    /// Committed numbers fit their bit lengths, 64 bits in all.
    BatchedRangeProofU64,
    /// Committed numbers fit their bit lengths, 128 bits in all.
    BatchedRangeProofU128,
}

impl ProofKind {
    /// The first byte of the instruction that verifies a proof of this kind.
    #[verifier::allow_in_spec]
    pub fn tag(self) -> (r: u8)
        returns
            (match self {
                ProofKind::PubkeyValidity => 4u8,
                ProofKind::CiphertextCommitmentEquality => 3u8,
                ProofKind::BatchedGroupedCiphertext3HandlesValidity => 12u8,
                ProofKind::BatchedRangeProofU64 => 6u8,
                ProofKind::BatchedRangeProofU128 => 7u8,
            }),
    {
        match self {
            ProofKind::PubkeyValidity => 4u8,
            ProofKind::CiphertextCommitmentEquality => 3u8,
            ProofKind::BatchedGroupedCiphertext3HandlesValidity => 12u8,
            ProofKind::BatchedRangeProofU64 => 6u8,
            ProofKind::BatchedRangeProofU128 => 7u8,
        }
    }

    /// Bytes of a context account for a proof of this kind: the authority, the kind, and the
    /// public statement that was proved.
    #[verifier::allow_in_spec]
    pub fn context_len(self) -> (r: u64)
        returns
            (match self {
                ProofKind::PubkeyValidity => 65u64,
                ProofKind::CiphertextCommitmentEquality => 161u64,
                ProofKind::BatchedGroupedCiphertext3HandlesValidity => 385u64,
                ProofKind::BatchedRangeProofU64 => 297u64,
                ProofKind::BatchedRangeProofU128 => 297u64,
            }),
    {
        match self {
            ProofKind::PubkeyValidity => 65u64,
            ProofKind::CiphertextCommitmentEquality => 161u64,
            ProofKind::BatchedGroupedCiphertext3HandlesValidity => 385u64,
            ProofKind::BatchedRangeProofU64 => 297u64,
            ProofKind::BatchedRangeProofU128 => 297u64,
        }
    }
}

/// A proof: the public statement, then the evidence.
#[derive(Debug)]
pub struct Proof {
    pub kind: ProofKind,
    pub data: Vec<u8>,
}

/// Verifies a proof and records its statement in the account `context`, which `authority`
/// may later close.
pub open spec fn verify_proof_call(
    kind: ProofKind,
    proof: Seq<u8>,
    context: Pubkey,
    authority: Pubkey,
) -> InstructionView {
    InstructionView {
        program_id: ZK_ELGAMAL_PROOF,
        accounts: seq![AccountMeta::writable(context), AccountMeta::readonly(authority)],
        data: seq![kind.tag()] + proof,
    }
}

/// Closes the context account `context` and pays its lamports to its authority.
pub open spec fn close_context_call(context: Pubkey, authority: Pubkey) -> InstructionView {
    InstructionView {
        program_id: ZK_ELGAMAL_PROOF,
        accounts: seq![
            AccountMeta::writable(context),
            AccountMeta::writable(authority),
            AccountMeta::signer(authority),
        ],
        data: seq![0u8],
    }
}

/// The instruction that verifies `proof` into `context`.
pub fn encode_verify_proof(proof: &Proof, context: Pubkey, authority: Pubkey) -> (r: Instruction)
    ensures
        r@ == verify_proof_call(proof.kind, proof.data@, context, authority),
{
    let mut accounts: Vec<AccountMeta> = Vec::new();
    accounts.push(AccountMeta::writable(context));
    accounts.push(AccountMeta::readonly(authority));
    let mut data: Vec<u8> = Vec::new();
    data.push(proof.kind.tag());
    data.extend_from_slice(proof.data.as_slice());
    let r = Instruction { program_id: ZK_ELGAMAL_PROOF, accounts, data };
    proof {
        assert(r@.accounts =~= seq![
            AccountMeta::writable(context),
            AccountMeta::readonly(authority),
        ]);
        assert(r@.data =~= seq![proof.kind.tag()] + proof.data@);
    }
    r
}

/// Calls `solana_zk_elgamal_proof_interface::instruction::close_context_state` with the
/// authority as the account that is paid. Claimed: it returns `close_context_call`.
#[verifier::external_body]
pub(crate) fn close_context(context: Pubkey, authority: Pubkey) -> (r: Instruction)
    ensures
        r@ == close_context_call(context, authority),
{
    let info = ContextStateInfo {
        context_state_account: &context.into(),
        context_state_authority: &authority.into(),
    };
    let i = close_context_state(info, &authority.into());
    Instruction {
        program_id: i.program_id.to_bytes(),
        accounts: i.accounts.iter().map(|m| AccountMeta {
            pubkey: m.pubkey.to_bytes(), is_signer: m.is_signer, is_writable: m.is_writable,
        }).collect(),
        data: i.data,
    }
}

} // verus!
