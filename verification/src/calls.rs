//! The payments program's instructions, as a client sends them.
use vstd::prelude::*;
use crate::address::{Pubkey, ASSOCIATED_TOKEN, ID, SYSTEM, TOKEN_2022};
use crate::bytes::{le64, le64_is_injective, push_le64};
use crate::instruction::{AccountMeta, Instruction, InstructionView};

verus! {

/// What a client asks of the payments program.
#[derive(Clone, Copy, Debug)]
pub enum Call {
    InitializeMint { decimals: u8 },
    ConfigureAccount {
        decryptable_zero_balance: [u8; 36],
        maximum_pending_balance_credit_counter: u64,
    },
    Deposit { amount: u64 },
    ApplyPending {
        expected_pending_balance_credit_counter: u64,
        new_decryptable_available_balance: [u8; 36],
    },
    TransferConfidential {
        new_source_decryptable_available_balance: [u8; 36],
        transfer_amount_auditor_ciphertext_lo: [u8; 64],
        transfer_amount_auditor_ciphertext_hi: [u8; 64],
    },
    Withdraw { amount: u64, new_decryptable_available_balance: [u8; 36] },
}

impl Call {
    /// The eight bytes that name the instruction: the first of the SHA-256 hash of `global:`
    /// and its name in snake case.
    pub open spec fn discriminator(self) -> Seq<u8> {
        match self {
            Call::InitializeMint { .. } => seq![209u8, 42, 195, 4, 129, 85, 209, 44],
            Call::ConfigureAccount { .. } => seq![183u8, 102, 77, 98, 82, 247, 97, 187],
            Call::Deposit { .. } => seq![242u8, 35, 198, 137, 82, 225, 242, 182],
            Call::ApplyPending { .. } => seq![88u8, 86, 232, 48, 42, 150, 180, 196],
            Call::TransferConfidential { .. } => seq![215u8, 121, 88, 79, 4, 130, 130, 58],
            Call::Withdraw { .. } => seq![183u8, 18, 70, 156, 148, 109, 161, 34],
        }
    }

    /// The arguments, one after another.
    pub open spec fn arguments(self) -> Seq<u8> {
        match self {
            Call::InitializeMint { decimals } => seq![decimals],
            Call::ConfigureAccount {
                decryptable_zero_balance,
                maximum_pending_balance_credit_counter,
            } => decryptable_zero_balance@ + le64(maximum_pending_balance_credit_counter),
            Call::Deposit { amount } => le64(amount),
            Call::ApplyPending {
                expected_pending_balance_credit_counter,
                new_decryptable_available_balance,
            } => le64(expected_pending_balance_credit_counter) + new_decryptable_available_balance@,
            Call::TransferConfidential {
                new_source_decryptable_available_balance,
                transfer_amount_auditor_ciphertext_lo,
                transfer_amount_auditor_ciphertext_hi,
            } => new_source_decryptable_available_balance@ + transfer_amount_auditor_ciphertext_lo@
                + transfer_amount_auditor_ciphertext_hi@,
            Call::Withdraw { amount, new_decryptable_available_balance } => le64(amount)
                + new_decryptable_available_balance@,
        }
    }

    /// The instruction's data.
    pub open spec fn encoded(self) -> Seq<u8> {
        self.discriminator() + self.arguments()
    }

    /// The instruction's data.
    pub fn data(&self) -> (r: Vec<u8>)
        ensures
            r@ == self.encoded(),
    {
        let mut out: Vec<u8> = Vec::new();
        match self {
            Call::InitializeMint { decimals } => {
                out.extend_from_slice(&[209u8, 42, 195, 4, 129, 85, 209, 44]);
                out.push(*decimals);
            },
            Call::ConfigureAccount {
                decryptable_zero_balance,
                maximum_pending_balance_credit_counter,
            } => {
                out.extend_from_slice(&[183u8, 102, 77, 98, 82, 247, 97, 187]);
                out.extend_from_slice(decryptable_zero_balance);
                push_le64(&mut out, *maximum_pending_balance_credit_counter);
            },
            Call::Deposit { amount } => {
                out.extend_from_slice(&[242u8, 35, 198, 137, 82, 225, 242, 182]);
                push_le64(&mut out, *amount);
            },
            Call::ApplyPending {
                expected_pending_balance_credit_counter,
                new_decryptable_available_balance,
            } => {
                out.extend_from_slice(&[88u8, 86, 232, 48, 42, 150, 180, 196]);
                push_le64(&mut out, *expected_pending_balance_credit_counter);
                out.extend_from_slice(new_decryptable_available_balance);
            },
            Call::TransferConfidential {
                new_source_decryptable_available_balance,
                transfer_amount_auditor_ciphertext_lo,
                transfer_amount_auditor_ciphertext_hi,
            } => {
                out.extend_from_slice(&[215u8, 121, 88, 79, 4, 130, 130, 58]);
                out.extend_from_slice(new_source_decryptable_available_balance);
                out.extend_from_slice(transfer_amount_auditor_ciphertext_lo);
                out.extend_from_slice(transfer_amount_auditor_ciphertext_hi);
            },
            Call::Withdraw { amount, new_decryptable_available_balance } => {
                out.extend_from_slice(&[183u8, 18, 70, 156, 148, 109, 161, 34]);
                push_le64(&mut out, *amount);
                out.extend_from_slice(new_decryptable_available_balance);
            },
        }
        proof {
            assert(out@.take(8) =~= self.discriminator());
            assert(out@ =~= self.encoded());
        }
        out
    }
}

/// A call of the payments program with these accounts.
pub open spec fn ix_view(call: Call, accounts: Seq<AccountMeta>) -> InstructionView {
    InstructionView { program_id: ID, accounts, data: call.encoded() }
}

/// A call of the payments program with these accounts.
pub fn ix(call: &Call, accounts: Vec<AccountMeta>) -> (r: Instruction)
    ensures
        r@ == ix_view(*call, accounts@),
{
    Instruction { program_id: ID, accounts, data: call.data() }
}

/// The accounts of `InitializeMint`: the wallet pays and is the authority, and the new mint signs
/// for its own creation.
pub open spec fn initialize_mint_metas(
    owner: Pubkey,
    mint: Pubkey,
) -> Seq<AccountMeta> {
    seq![
        AccountMeta::writable_signer(owner),
        AccountMeta::writable_signer(mint),
        AccountMeta::signer(owner),
        AccountMeta::readonly(TOKEN_2022),
        AccountMeta::readonly(SYSTEM),
    ]
}

/// The accounts of `InitializeMint`: the wallet pays and is the authority, and the new mint signs
/// for its own creation.
pub fn initialize_mint_accounts(
    owner: Pubkey,
    mint: Pubkey,
) -> (r: Vec<AccountMeta>)
    ensures
        r@ == initialize_mint_metas(owner, mint),
{
    vec![
        AccountMeta::writable_signer(owner),
        AccountMeta::writable_signer(mint),
        AccountMeta::signer(owner),
        AccountMeta::readonly(TOKEN_2022),
        AccountMeta::readonly(SYSTEM),
    ]
}

/// The accounts of `ConfigureAccount`: the wallet pays and is the owner.
pub open spec fn configure_metas(
    owner: Pubkey,
    mint: Pubkey,
    token_account: Pubkey,
    proof_context: Pubkey,
) -> Seq<AccountMeta> {
    seq![
        AccountMeta::writable_signer(owner),
        AccountMeta::signer(owner),
        AccountMeta::readonly(mint),
        AccountMeta::writable(token_account),
        AccountMeta::readonly(proof_context),
        AccountMeta::readonly(TOKEN_2022),
        AccountMeta::readonly(ASSOCIATED_TOKEN),
        AccountMeta::readonly(SYSTEM),
    ]
}

/// The accounts of `ConfigureAccount`: the wallet pays and is the owner.
pub fn configure_accounts(
    owner: Pubkey,
    mint: Pubkey,
    token_account: Pubkey,
    proof_context: Pubkey,
) -> (r: Vec<AccountMeta>)
    ensures
        r@ == configure_metas(owner, mint, token_account, proof_context),
{
    vec![
        AccountMeta::writable_signer(owner),
        AccountMeta::signer(owner),
        AccountMeta::readonly(mint),
        AccountMeta::writable(token_account),
        AccountMeta::readonly(proof_context),
        AccountMeta::readonly(TOKEN_2022),
        AccountMeta::readonly(ASSOCIATED_TOKEN),
        AccountMeta::readonly(SYSTEM),
    ]
}

/// The accounts of `Deposit` and of `ApplyPending`.
pub open spec fn owner_metas(
    owner: Pubkey,
    mint: Pubkey,
    token_account: Pubkey,
) -> Seq<AccountMeta> {
    seq![
        AccountMeta::signer(owner),
        AccountMeta::readonly(mint),
        AccountMeta::writable(token_account),
        AccountMeta::readonly(TOKEN_2022),
    ]
}

/// The accounts of `Deposit` and of `ApplyPending`.
pub fn owner_accounts(
    owner: Pubkey,
    mint: Pubkey,
    token_account: Pubkey,
) -> (r: Vec<AccountMeta>)
    ensures
        r@ == owner_metas(owner, mint, token_account),
{
    vec![
        AccountMeta::signer(owner),
        AccountMeta::readonly(mint),
        AccountMeta::writable(token_account),
        AccountMeta::readonly(TOKEN_2022),
    ]
}

/// The accounts of `TransferConfidential`.
pub open spec fn transfer_metas(
    owner: Pubkey,
    recipient: Pubkey,
    mint: Pubkey,
    source: Pubkey,
    destination: Pubkey,
    equality: Pubkey,
    validity: Pubkey,
    range: Pubkey,
) -> Seq<AccountMeta> {
    seq![
        AccountMeta::signer(owner),
        AccountMeta::readonly(recipient),
        AccountMeta::readonly(mint),
        AccountMeta::writable(source),
        AccountMeta::writable(destination),
        AccountMeta::readonly(equality),
        AccountMeta::readonly(validity),
        AccountMeta::readonly(range),
        AccountMeta::readonly(TOKEN_2022),
    ]
}

/// The accounts of `TransferConfidential`.
pub fn transfer_accounts(
    owner: Pubkey,
    recipient: Pubkey,
    mint: Pubkey,
    source: Pubkey,
    destination: Pubkey,
    equality: Pubkey,
    validity: Pubkey,
    range: Pubkey,
) -> (r: Vec<AccountMeta>)
    ensures
        r@ == transfer_metas(owner, recipient, mint, source, destination, equality, validity, range),
{
    vec![
        AccountMeta::signer(owner),
        AccountMeta::readonly(recipient),
        AccountMeta::readonly(mint),
        AccountMeta::writable(source),
        AccountMeta::writable(destination),
        AccountMeta::readonly(equality),
        AccountMeta::readonly(validity),
        AccountMeta::readonly(range),
        AccountMeta::readonly(TOKEN_2022),
    ]
}

/// The accounts of `Withdraw`.
pub open spec fn withdraw_metas(
    owner: Pubkey,
    mint: Pubkey,
    token_account: Pubkey,
    equality: Pubkey,
    range: Pubkey,
) -> Seq<AccountMeta> {
    seq![
        AccountMeta::signer(owner),
        AccountMeta::readonly(mint),
        AccountMeta::writable(token_account),
        AccountMeta::readonly(equality),
        AccountMeta::readonly(range),
        AccountMeta::readonly(TOKEN_2022),
    ]
}

/// The accounts of `Withdraw`.
pub fn withdraw_accounts(
    owner: Pubkey,
    mint: Pubkey,
    token_account: Pubkey,
    equality: Pubkey,
    range: Pubkey,
) -> (r: Vec<AccountMeta>)
    ensures
        r@ == withdraw_metas(owner, mint, token_account, equality, range),
{
    vec![
        AccountMeta::signer(owner),
        AccountMeta::readonly(mint),
        AccountMeta::writable(token_account),
        AccountMeta::readonly(equality),
        AccountMeta::readonly(range),
        AccountMeta::readonly(TOKEN_2022),
    ]
}

/// No two calls have the same data: the program can tell from the data which instruction a
/// client meant, and with which arguments.
pub proof fn encoding_is_injective(a: Call, b: Call)
    requires
        a.encoded() == b.encoded(),
    ensures
        a == b,
{
    let da = a.discriminator();
    let db = b.discriminator();
    assert(a.encoded().take(8) =~= da);
    assert(b.encoded().take(8) =~= db);
    assert(da[0] == db[0] && da[1] == db[1] && da[2] == db[2]);
    assert(a.encoded().skip(8) =~= a.arguments());
    assert(b.encoded().skip(8) =~= b.arguments());
    let x = a.arguments();
    let y = b.arguments();
    assert(x == y);
    match (a, b) {
        (Call::InitializeMint { decimals: m }, Call::InitializeMint { decimals: n }) => {
            assert(x[0] == m && y[0] == n);
        },
        (
            Call::ConfigureAccount {
                decryptable_zero_balance: m,
                maximum_pending_balance_credit_counter: i,
            },
            Call::ConfigureAccount {
                decryptable_zero_balance: n,
                maximum_pending_balance_credit_counter: j,
            },
        ) => {
            assert(x.take(36) =~= m@ && y.take(36) =~= n@);
            assert(x.skip(36) =~= le64(i) && y.skip(36) =~= le64(j));
            le64_is_injective(i, j);
            assert(m =~= n);
        },
        (Call::Deposit { amount: i }, Call::Deposit { amount: j }) => {
            le64_is_injective(i, j);
        },
        (
            Call::ApplyPending {
                expected_pending_balance_credit_counter: i,
                new_decryptable_available_balance: m,
            },
            Call::ApplyPending {
                expected_pending_balance_credit_counter: j,
                new_decryptable_available_balance: n,
            },
        ) => {
            assert(x.take(8) =~= le64(i) && y.take(8) =~= le64(j));
            assert(x.skip(8) =~= m@ && y.skip(8) =~= n@);
            le64_is_injective(i, j);
            assert(m =~= n);
        },
        (
            Call::TransferConfidential {
                new_source_decryptable_available_balance: m,
                transfer_amount_auditor_ciphertext_lo: o,
                transfer_amount_auditor_ciphertext_hi: q,
            },
            Call::TransferConfidential {
                new_source_decryptable_available_balance: n,
                transfer_amount_auditor_ciphertext_lo: p,
                transfer_amount_auditor_ciphertext_hi: r,
            },
        ) => {
            assert(x.take(36) =~= m@ && y.take(36) =~= n@);
            assert(x.subrange(36, 100) =~= o@ && y.subrange(36, 100) =~= p@);
            assert(x.skip(100) =~= q@ && y.skip(100) =~= r@);
            assert(m =~= n && o =~= p && q =~= r);
        },
        (
            Call::Withdraw { amount: i, new_decryptable_available_balance: m },
            Call::Withdraw { amount: j, new_decryptable_available_balance: n },
        ) => {
            assert(x.take(8) =~= le64(i) && y.take(8) =~= le64(j));
            assert(x.skip(8) =~= m@ && y.skip(8) =~= n@);
            le64_is_injective(i, j);
            assert(m =~= n);
        },
        _ => {},
    }
}

} // verus!
