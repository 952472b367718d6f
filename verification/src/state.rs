//! Accounts as they are read: what Token-2022 keeps in them.
use vstd::prelude::*;
use crate::address::Pubkey;
use crate::error::read_out;
use anchor_spl::token_2022::spl_token_2022;
use spl_token_2022::extension::confidential_transfer::{
    ConfidentialTransferAccount, ConfidentialTransferMint,
};
use spl_token_2022::extension::{BaseStateWithExtensions, StateWithExtensions};

verus! {

/// An account: the program that owns it, and its bytes.
#[derive(Debug)]
pub struct AccountData {
    pub owner: Pubkey,
    pub data: Vec<u8>,
}

/// The ciphertext of an empty balance.
pub const EMPTY_BALANCE: [u8; 64] = [
    0, 0, 0, 0, 0, 0, 0, 0, 0, 0, 0, 0, 0, 0, 0, 0,
    0, 0, 0, 0, 0, 0, 0, 0, 0, 0, 0, 0, 0, 0, 0, 0,
    0, 0, 0, 0, 0, 0, 0, 0, 0, 0, 0, 0, 0, 0, 0, 0,
    0, 0, 0, 0, 0, 0, 0, 0, 0, 0, 0, 0, 0, 0, 0, 0,
];

/// The confidential side of a token account.
#[derive(Clone, Copy, Debug)]
pub struct ConfidentialAccount {
    /// The key that the balances are encrypted for.
    pub elgamal_pubkey: [u8; 32],
    /// The low 16 bits of each credit that was not applied yet, added up.
    pub pending_balance_lo: [u8; 64],
    /// The bits above those, added up.
    pub pending_balance_hi: [u8; 64],
    /// The balance that can be spent.
    pub available_balance: [u8; 64],
    /// The same balance, encrypted with the owner's AES key.
    pub decryptable_available_balance: [u8; 36],
    /// Credits since pending was last applied.
    pub pending_balance_credit_counter: u64,
    /// Credits that the owner expected when it last applied pending.
    pub expected_pending_balance_credit_counter: u64,
    /// Credits that were there when it did.
    pub actual_pending_balance_credit_counter: u64,
}

/// What a token account's bytes hold: the public amount, and the confidential side where
/// there is one; or why they do not unpack.
pub uninterp spec fn token_account(data: Seq<u8>) -> Result<(u64, Option<ConfidentialAccount>), Seq<char>>;

/// Calls `StateWithExtensions::<Account>::unpack`, then `get_extension` for the
/// confidential-transfer account. Claimed: what they return is a function of the bytes.
#[verifier::external_body]
pub(crate) fn unpack_account(
    data: &[u8],
) -> (r: Result<(u64, Option<ConfidentialAccount>), String>)
    ensures
        read_out(r) == token_account(data@),
{
    let state = StateWithExtensions::<spl_token_2022::state::Account>::unpack(data)
        .map_err(|e| e.to_string())?;
    let extension = state.get_extension::<ConfidentialTransferAccount>().ok();
    Ok((state.base.amount, extension.map(|e| ConfidentialAccount {
        elgamal_pubkey: bytemuck::cast(e.elgamal_pubkey),
        pending_balance_lo: bytemuck::cast(e.pending_balance_lo),
        pending_balance_hi: bytemuck::cast(e.pending_balance_hi),
        available_balance: bytemuck::cast(e.available_balance),
        decryptable_available_balance: bytemuck::bytes_of(&e.decryptable_available_balance)
            .try_into().unwrap(),
        pending_balance_credit_counter: e.pending_balance_credit_counter.into(),
        expected_pending_balance_credit_counter: e.expected_pending_balance_credit_counter.into(),
        actual_pending_balance_credit_counter: e.actual_pending_balance_credit_counter.into(),
    })))
}

/// The auditor key of a mint without an auditor.
pub const NO_AUDITOR: [u8; 32] = [
    0, 0, 0, 0, 0, 0, 0, 0, 0, 0, 0, 0, 0, 0, 0, 0,
    0, 0, 0, 0, 0, 0, 0, 0, 0, 0, 0, 0, 0, 0, 0, 0,
];

/// The auditor key that a mint's bytes hold, which is `NO_AUDITOR` where there is none; or
/// why they do not unpack as a mint for confidential transfers.
pub uninterp spec fn mint_auditor(data: Seq<u8>) -> Result<[u8; 32], Seq<char>>;

/// Calls `StateWithExtensions::<Mint>::unpack`, then `get_extension` for the
/// confidential-transfer mint, and takes its auditor key. Claimed: what they return is a
/// function of the bytes.
#[verifier::external_body]
pub(crate) fn unpack_mint_auditor(data: &[u8]) -> (r: Result<[u8; 32], String>)
    ensures
        read_out(r) == mint_auditor(data@),
{
    let state = StateWithExtensions::<spl_token_2022::state::Mint>::unpack(data)
        .map_err(|e| e.to_string())?;
    let config = state.get_extension::<ConfidentialTransferMint>().map_err(|e| e.to_string())?;
    Ok(bytemuck::cast(config.auditor_elgamal_pubkey))
}

} // verus!
