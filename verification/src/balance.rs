//! Reading the balances of a confidential token account.
use vstd::prelude::*;
use crate::address::TOKEN_2022;
use crate::bytes::same;
use crate::error::{read_out, ClientError};
use crate::keys::{aes_plaintext, elgamal_u32, Keys, KeysView};
use crate::state::{token_account, unpack_account, AccountData, ConfidentialAccount, NO_AUDITOR};

verus! {

/// The balance that can be spent, where `copy` is the reading of the AES copy: the account
/// must be encrypted for `pubkey`, and no credit may have slipped in between reading pending
/// and applying it.
pub open spec fn available_reading(
    e: ConfidentialAccount,
    pubkey: [u8; 32],
    copy: Option<u64>,
) -> Result<u64, ClientError> {
    if e.elgamal_pubkey != pubkey {
        Err(ClientError::ForeignKeys)
    } else if e.expected_pending_balance_credit_counter != e.actual_pending_balance_credit_counter {
        Err(ClientError::StaleBalance)
    } else {
        match copy {
            None => Err(ClientError::UnreadableAvailable),
            Some(amount) => Ok(amount),
        }
    }
}

/// The balance that can be spent, as the owner of `keys` reads it.
pub open spec fn available_of(e: ConfidentialAccount, keys: KeysView) -> Result<u64, ClientError> {
    available_reading(
        e,
        keys.pubkey,
        aes_plaintext(keys.aes@, e.decryptable_available_balance@),
    )
}

/// The credits that were not applied yet, where `lo` and `hi` are the readings of the low and
/// the high part.
pub open spec fn pending_reading(lo: Option<u64>, hi: Option<u64>) -> Result<u64, ClientError> {
    match (lo, hi) {
        (None, _) => Err(ClientError::UnreadablePendingLow),
        (Some(_), None) => Err(ClientError::UnreadablePendingHigh),
        (Some(lo), Some(hi)) => if lo + 65536 * hi > u64::MAX {
            Err(ClientError::PendingOverflow)
        } else {
            Ok((lo + 65536 * hi) as u64)
        },
    }
}

/// The credits that were not applied yet, as the owner of `keys` reads them.
pub open spec fn pending_of(e: ConfidentialAccount, keys: KeysView) -> Result<u64, ClientError> {
    pending_reading(
        elgamal_u32(keys.secret@, e.pending_balance_lo@),
        elgamal_u32(keys.secret@, e.pending_balance_hi@),
    )
}

/// Judges the reading of an AES copy.
pub fn judge_available(e: &ConfidentialAccount, pubkey: &[u8; 32], copy: Option<u64>) -> (r: Result<
    u64,
    ClientError,
>)
    ensures
        r == available_reading(*e, *pubkey, copy),
{
    if !same(&e.elgamal_pubkey, pubkey) {
        return Err(ClientError::ForeignKeys);
    }
    if e.expected_pending_balance_credit_counter != e.actual_pending_balance_credit_counter {
        return Err(ClientError::StaleBalance);
    }
    match copy {
        None => Err(ClientError::UnreadableAvailable),
        Some(amount) => Ok(amount),
    }
}

/// The balance that can be spent.
pub fn available(e: &ConfidentialAccount, keys: &Keys) -> (r: Result<u64, ClientError>)
    ensures
        r == available_of(*e, keys@),
{
    judge_available(e, &keys.pubkey(), keys.decrypt(&e.decryptable_available_balance))
}

/// Puts the two parts of pending together.
pub fn join_pending(lo: Option<u64>, hi: Option<u64>) -> (r: Result<u64, ClientError>)
    ensures
        r == pending_reading(lo, hi),
{
    let lo: u64 = match lo {
        None => return Err(ClientError::UnreadablePendingLow),
        Some(lo) => lo,
    };
    let hi: u64 = match hi {
        None => return Err(ClientError::UnreadablePendingHigh),
        Some(hi) => hi,
    };
    match hi.checked_mul(65536) {
        None => Err(ClientError::PendingOverflow),
        Some(high) => match lo.checked_add(high) {
            None => Err(ClientError::PendingOverflow),
            Some(sum) => Ok(sum),
        },
    }
}

/// The credits that were not applied yet. Pending never outgrows 64 bits: its parts are read
/// below 2^32.
pub fn pending(e: &ConfidentialAccount, keys: &Keys) -> (r: Result<u64, ClientError>)
    ensures
        r == pending_of(*e, keys@),
        r != Err::<u64, ClientError>(ClientError::PendingOverflow),
{
    let lo: Option<u64> = keys.decrypt_u32(&e.pending_balance_lo);
    let hi: Option<u64> = keys.decrypt_u32(&e.pending_balance_hi);
    join_pending(lo, hi)
}

/// What the balance becomes when pending is applied.
pub open spec fn total_of(e: ConfidentialAccount, keys: KeysView) -> Result<u64, ClientError> {
    match available_of(e, keys) {
        Err(error) => Err(error),
        Ok(available) => match pending_of(e, keys) {
            Err(error) => Err(error),
            Ok(pending) => if available + pending > u64::MAX {
                Err(ClientError::BalanceOverflow)
            } else {
                Ok((available + pending) as u64)
            },
        },
    }
}

/// What the balance becomes when pending is applied.
pub fn total(e: &ConfidentialAccount, keys: &Keys) -> (r: Result<u64, ClientError>)
    ensures
        r == total_of(*e, keys@),
{
    let available: u64 = match available(e, keys) {
        Err(error) => return Err(error),
        Ok(available) => available,
    };
    let pending: u64 = match pending(e, keys) {
        Err(error) => return Err(error),
        Ok(pending) => pending,
    };
    match available.checked_add(pending) {
        None => Err(ClientError::BalanceOverflow),
        Some(total) => Ok(total),
    }
}

/// What the balance becomes when `amount` is spent.
pub open spec fn remaining_of(e: ConfidentialAccount, keys: KeysView, amount: u64) -> Result<
    u64,
    ClientError,
> {
    match available_of(e, keys) {
        Err(error) => Err(error),
        Ok(available) => if amount > available {
            Err(ClientError::InsufficientFunds)
        } else {
            Ok((available - amount) as u64)
        },
    }
}

/// What the balance becomes when `amount` is spent. Only available funds count.
pub fn remaining(e: &ConfidentialAccount, keys: &Keys, amount: u64) -> (r: Result<u64, ClientError>)
    ensures
        r == remaining_of(*e, keys@, amount),
{
    let available: u64 = match available(e, keys) {
        Err(error) => return Err(error),
        Ok(available) => available,
    };
    match available.checked_sub(amount) {
        None => Err(ClientError::InsufficientFunds),
        Some(remaining) => Ok(remaining),
    }
}

/// What the bytes of a token account give: the public amount and the confidential side, or
/// why not.
pub open spec fn opened_as(
    unpacked: Result<(u64, Option<ConfidentialAccount>), Seq<char>>,
    r: Result<(u64, ConfidentialAccount), ClientError>,
) -> bool {
    match unpacked {
        Err(reason) => r matches Err(ClientError::MalformedAccount(e)) && e@ == reason,
        Ok((_, None)) => r == Err::<(u64, ConfidentialAccount), ClientError>(
            ClientError::NotConfigured,
        ),
        Ok((amount, Some(e))) => r == Ok::<(u64, ConfidentialAccount), ClientError>((amount, e)),
    }
}

/// What fetching a token account gives, or why not.
pub open spec fn account_of(
    found: Result<AccountData, String>,
    r: Result<(u64, ConfidentialAccount), ClientError>,
) -> bool {
    match found {
        Err(reason) => r matches Err(ClientError::AccountNotFound(e)) && e@ == reason@,
        Ok(account) => if account.owner != TOKEN_2022 {
            r == Err::<(u64, ConfidentialAccount), ClientError>(ClientError::NotTokenAccount)
        } else {
            opened_as(token_account(account.data@), r)
        },
    }
}

/// The public amount and the confidential side of a fetched token account, if it has both.
pub open spec fn reading(found: Result<AccountData, String>) -> Option<(u64, ConfidentialAccount)> {
    match found {
        Err(_) => None,
        Ok(account) => if account.owner != TOKEN_2022 {
            None
        } else {
            match token_account(account.data@) {
                Ok((amount, Some(e))) => Some((amount, e)),
                _ => None,
            }
        },
    }
}

/// Requires that an unpacked token account has a confidential side.
pub fn open_account(unpacked: Result<(u64, Option<ConfidentialAccount>), String>) -> (r: Result<
    (u64, ConfidentialAccount),
    ClientError,
>)
    ensures
        opened_as(read_out(unpacked), r),
{
    match unpacked {
        Err(reason) => Err(ClientError::MalformedAccount(reason)),
        Ok((_, None)) => Err(ClientError::NotConfigured),
        Ok((amount, Some(e))) => Ok((amount, e)),
    }
}

/// Reads a fetched token account: it must be there, belong to Token-2022, unpack, and have a
/// confidential side.
pub fn account(found: Result<AccountData, String>) -> (r: Result<
    (u64, ConfidentialAccount),
    ClientError,
>)
    ensures
        account_of(found, r),
        match reading(found) {
            Some(read) => r == Ok::<(u64, ConfidentialAccount), ClientError>(read),
            None => r is Err,
        },
{
    match found {
        Err(reason) => Err(ClientError::AccountNotFound(reason)),
        Ok(account) => {
            if !same(&account.owner, &TOKEN_2022) {
                return Err(ClientError::NotTokenAccount);
            }
            open_account(unpack_account(account.data.as_slice()))
        },
    }
}

/// Whether a mint with this auditor key is refused, and how.
pub open spec fn auditor_verdict(
    auditor: Result<[u8; 32], Seq<char>>,
    r: Result<(), ClientError>,
) -> bool {
    match auditor {
        Err(reason) => r matches Err(ClientError::MalformedAccount(e)) && e@ == reason,
        Ok(key) => if key == NO_AUDITOR {
            r == Ok::<(), ClientError>(())
        } else {
            r == Err::<(), ClientError>(ClientError::AuditorUnsupported)
        },
    }
}

/// Judges the auditor key of a mint: only a mint without an auditor will do.
pub fn judge_auditor(auditor: Result<[u8; 32], String>) -> (r: Result<(), ClientError>)
    ensures
        auditor_verdict(read_out(auditor), r),
{
    match auditor {
        Err(reason) => Err(ClientError::MalformedAccount(reason)),
        Ok(key) => if same(&key, &NO_AUDITOR) {
            Ok(())
        } else {
            Err(ClientError::AuditorUnsupported)
        },
    }
}

/// A copy that the keys made of a balance reads back as that balance, on any account that is
/// encrypted for these keys and where no credit slipped in.
pub proof fn copy_reads_back(e: ConfidentialAccount, keys: KeysView, copy: [u8; 36], amount: u64)
    requires
        aes_plaintext(keys.aes@, copy@) == Some(amount),
        e.elgamal_pubkey == keys.pubkey,
        e.expected_pending_balance_credit_counter == e.actual_pending_balance_credit_counter,
    ensures
        available_of(ConfidentialAccount { decryptable_available_balance: copy, ..e }, keys)
            == Ok::<u64, ClientError>(amount),
{
}

} // verus!
