//! What a wallet's owner, and the recipient of a payment, can count on.
use vstd::prelude::*;
use crate::address::{Pubkey, TOKEN_2022};
use crate::balance::{
    available_of, pending_of, pending_reading, reading, remaining_of, total_of,
};
use crate::calls::{
    initialize_mint_metas, ix_view, owner_metas, transfer_metas, withdraw_metas, Call,
};
use crate::client::Client;
use crate::error::ClientError;
use crate::instruction::AccountMeta;
use crate::instructions::accounts::AccountInfo;
use crate::instructions::apply_pending::ApplyPending;
use crate::instructions::deposit::Deposit;
use crate::instructions::initialize_mint::InitializeMint;
use crate::instructions::transfer_confidential::TransferConfidential;
use crate::instructions::withdraw::Withdraw;
use crate::keys::{
    aes_plaintext, derived_keys, elgamal_holds, elgamal_pair, elgamal_u32, encrypts,
    transfer_statement, KeysView, Wallet,
};
use crate::session::{AfterSubmit, Goal, Staging, Step};
use crate::state::{AccountData, ConfidentialAccount, EMPTY_BALANCE};

verus! {

/// The encryption keys can be recovered: whoever has the bytes of the wallet derives the same
/// keys for an account, and can read whatever the first ones encrypted.
pub proof fn keys_are_recoverable(wallet: Wallet, restored: Wallet, ata: Pubkey, copy: [u8; 36])
    requires
        wallet@ == restored@,
    ensures
        derived_keys(wallet, ata) == derived_keys(restored, ata),
        derived_keys(wallet, ata) matches Ok(a) ==> (derived_keys(restored, ata) matches Ok(b)
            && aes_plaintext(a.aes@, copy@) == aes_plaintext(b.aes@, copy@)),
{
}

/// The account as Token-2022 leaves it after pending was applied with this copy and this
/// expected number of credits, while `actual` credits were there. Nothing is pending any more.
pub open spec fn after_applying(
    e: ConfidentialAccount,
    available_balance: [u8; 64],
    copy: [u8; 36],
    expected: u64,
    actual: u64,
) -> ConfidentialAccount {
    ConfidentialAccount {
        pending_balance_lo: EMPTY_BALANCE,
        pending_balance_hi: EMPTY_BALANCE,
        available_balance,
        decryptable_available_balance: copy,
        pending_balance_credit_counter: 0,
        expected_pending_balance_credit_counter: expected,
        actual_pending_balance_credit_counter: actual,
        ..e
    }
}

/// When pending is applied, the copy that is sent reads back as available plus pending,
/// provided that no credit slipped in since the account was read. If one did, the copy is
/// recognized as stale and is not trusted. Either way nothing is pending any more.
pub proof fn applied_copy_reads_back(
    client: Client,
    mint: Pubkey,
    ata: Pubkey,
    found: Result<AccountData, String>,
    step: Step,
    e: ConfidentialAccount,
    keys: KeysView,
    total: u64,
) -> (copy: [u8; 36])
    requires
        client.applies(mint, ata, found, step),
        reading(found) matches Some((_, f)) && f == e,
        derived_keys(client.wallet, ata) == Ok::<KeysView, Seq<char>>(keys),
        keys.valid(),
        total_of(e, keys) == Ok::<u64, ClientError>(total),
    ensures
        step matches Step::Submit(tx, AfterSubmit::Applied { .. }) && tx.says() == seq![
            ix_view(
                Call::ApplyPending {
                    expected_pending_balance_credit_counter: e.pending_balance_credit_counter,
                    new_decryptable_available_balance: copy,
                },
                owner_metas(client.owner, mint, ata),
            ),
        ],
        forall|available_balance: [u8; 64], actual: u64|
            available_of(
                #[trigger] after_applying(
                    e,
                    available_balance,
                    copy,
                    e.pending_balance_credit_counter,
                    actual,
                ),
                keys,
            ) == if actual == e.pending_balance_credit_counter {
                Ok::<u64, ClientError>(total)
            } else {
                Err(ClientError::StaleBalance)
            },
        forall|available_balance: [u8; 64], actual: u64|
            pending_of(
                #[trigger] after_applying(
                    e,
                    available_balance,
                    copy,
                    e.pending_balance_credit_counter,
                    actual,
                ),
                keys,
            ) == Ok::<u64, ClientError>(0),
{
    match step {
        Step::Submit(tx, _) => choose|copy: [u8; 36]|
            #[trigger] aes_plaintext(keys.aes@, copy@) == Some(total) && tx.says() == seq![
                ix_view(
                    Call::ApplyPending {
                        expected_pending_balance_credit_counter: e.pending_balance_credit_counter,
                        new_decryptable_available_balance: copy,
                    },
                    owner_metas(client.owner, mint, ata),
                ),
            ],
        _ => arbitrary(),
    }
}

/// The account as Token-2022 leaves it after funds were spent with this copy.
pub open spec fn after_spending(
    e: ConfidentialAccount,
    available_balance: [u8; 64],
    copy: [u8; 36],
) -> ConfidentialAccount {
    ConfidentialAccount { available_balance, decryptable_available_balance: copy, ..e }
}

/// After a transfer the sender reads what was available less the amount, and the ciphertext
/// that the proofs are about, which the account is left with, is one of the same number.
pub proof fn transfer_leaves_the_rest(
    client: Client,
    mint: Pubkey,
    recipient: Pubkey,
    amount: u64,
    e: ConfidentialAccount,
    receiver: ConfidentialAccount,
    remaining: u64,
    keys: KeysView,
    s: Staging,
    available_balance: [u8; 64],
)
    requires
        remaining_of(e, keys, amount) == Ok::<u64, ClientError>(remaining),
        client.stages_transfer(mint, recipient, amount, e, receiver, remaining, keys, s),
    ensures
        s.goal matches Goal::Transfer { balance, .. } && available_of(
            after_spending(e, available_balance, balance),
            keys,
        ) == Ok::<u64, ClientError>(remaining),
        encrypts(keys.secret@, s.proofs@[0].data@.subrange(32, 96), remaining),
        available_of(e, keys) matches Ok(available) && available == remaining + amount,
{
}

/// After a withdrawal the owner reads what was available less the amount, and the ciphertext
/// that the proofs are about, which the account is left with, is one of the same number.
pub proof fn withdrawal_leaves_the_rest(
    client: Client,
    mint: Pubkey,
    ata: Pubkey,
    amount: u64,
    e: ConfidentialAccount,
    remaining: u64,
    keys: KeysView,
    s: Staging,
    available_balance: [u8; 64],
)
    requires
        remaining_of(e, keys, amount) == Ok::<u64, ClientError>(remaining),
        client.stages_withdraw(mint, ata, amount, e, remaining, keys, s),
    ensures
        s.goal matches Goal::Withdraw { balance, .. } && available_of(
            after_spending(e, available_balance, balance),
            keys,
        ) == Ok::<u64, ClientError>(remaining),
        encrypts(keys.secret@, s.proofs@[0].data@.subrange(32, 96), remaining),
        available_of(e, keys) matches Ok(available) && available == remaining + amount,
{
}

/// No spending is staged from an AES copy that disagrees with the encrypted balance: whatever
/// its size, the balance is one of what the copy reads, and where it is small enough to be
/// read itself, both read the same.
pub proof fn spending_needs_a_true_copy(
    client: Client,
    mint: Pubkey,
    recipient: Pubkey,
    ata: Pubkey,
    amount: u64,
    e: ConfidentialAccount,
    receiver: ConfidentialAccount,
    remaining: u64,
    keys: KeysView,
    s: Staging,
)
    requires
        remaining_of(e, keys, amount) == Ok::<u64, ClientError>(remaining),
        client.stages_transfer(mint, recipient, amount, e, receiver, remaining, keys, s)
            || client.stages_withdraw(mint, ata, amount, e, remaining, keys, s),
    ensures
        forall|held: u64| #[trigger]
            elgamal_holds(keys.secret@, e.available_balance@, held) <==> aes_plaintext(
                keys.aes@,
                e.decryptable_available_balance@,
            ) == Some(held),
        remaining + amount < 0x1_0000_0000 ==> elgamal_u32(keys.secret@, e.available_balance@)
            == aes_plaintext(keys.aes@, e.decryptable_available_balance@),
{
}

/// The recipient of a transfer of less than 2^48 reads exactly the amount from the two
/// ciphertexts that it adds to pending.
pub proof fn recipient_reads_the_amount(
    equality: Seq<u8>,
    validity: Seq<u8>,
    range: Seq<u8>,
    auditor_lo: Seq<u8>,
    auditor_hi: Seq<u8>,
    sender: KeysView,
    available: Seq<u8>,
    current: u64,
    amount: u64,
    recipient: KeysView,
)
    requires
        transfer_statement(
            equality,
            validity,
            range,
            auditor_lo,
            auditor_hi,
            sender.pubkey@,
            sender.secret@,
            available,
            current,
            amount,
            recipient.pubkey@,
        ),
        elgamal_pair(recipient.pubkey@, recipient.secret@),
        amount < 0x1_0000_0000_0000,
    ensures
        pending_reading(
            elgamal_u32(
                recipient.secret@,
                validity.subrange(96, 128) + validity.subrange(160, 192),
            ),
            elgamal_u32(
                recipient.secret@,
                validity.subrange(224, 256) + validity.subrange(288, 320),
            ),
        ) == Ok::<u64, ClientError>(amount),
{
    assert(amount / 65536 < 0x1_0000_0000);
    assert(amount % 65536 + 65536 * (amount / 65536) == amount);
}

/// Who asks for more than is available is refused before anything is proved or sent, however
/// much is pending.
pub proof fn overspending_sends_nothing(
    client: Client,
    mint: Pubkey,
    recipient: Pubkey,
    amount: u64,
    e: ConfidentialAccount,
    found: Result<AccountData, String>,
    keys: KeysView,
    step: Step,
)
    requires
        reading(found) is Some,
        derived_keys(client.wallet, Client::ata_of(client.owner, mint)) == Ok::<
            KeysView,
            Seq<char>,
        >(keys),
        ({
            ||| client.covers(mint, recipient, amount, e, found, step)
            ||| (reading(found) matches Some((_, f)) && f == e) && client.takes(
                mint,
                Client::ata_of(client.owner, mint),
                amount,
                found,
                step,
            )
        }),
        available_of(e, keys) matches Ok(available) && available < amount,
    ensures
        step == Step::Done(Err(ClientError::InsufficientFunds)),
{
}

/// The runtime hands the program the account that the client named, with at least the rights
/// that the client gave.
pub open spec fn carries(a: AccountInfo, meta: AccountMeta) -> bool {
    &&& a.key == meta.pubkey
    &&& meta.is_signer ==> a.is_signer
    &&& meta.is_writable ==> a.is_writable
}

/// The program accepts the accounts of a client's deposit, where the mint and the token
/// account are Token-2022's and the token account is the owner's.
pub proof fn deposit_is_accepted(client: Client, mint: Pubkey, d: Deposit)
    requires
        ({
            let metas = owner_metas(client.owner, mint, Client::ata_of(client.owner, mint));
            &&& carries(d.owner, metas[0])
            &&& carries(d.mint.info, metas[1])
            &&& carries(d.token_account.info, metas[2])
            &&& carries(d.token_program, metas[3])
        }),
        d.token_program.executable,
        d.mint.info.owner == TOKEN_2022,
        d.token_account.info.owner == TOKEN_2022,
        d.token_account.authority == client.owner,
    ensures
        d.valid(),
{
}

/// The program accepts the accounts of a client's application of pending, where the mint and
/// the token account are Token-2022's and the token account is the owner's.
pub proof fn apply_pending_is_accepted(client: Client, mint: Pubkey, a: ApplyPending)
    requires
        ({
            let metas = owner_metas(client.owner, mint, Client::ata_of(client.owner, mint));
            &&& carries(a.owner, metas[0])
            &&& carries(a.mint.info, metas[1])
            &&& carries(a.token_account.info, metas[2])
            &&& carries(a.token_program, metas[3])
        }),
        a.token_program.executable,
        a.mint.info.owner == TOKEN_2022,
        a.token_account.info.owner == TOKEN_2022,
        a.token_account.authority == client.owner,
    ensures
        a.valid(),
{
}

/// The program accepts the accounts of a client's withdrawal, where the mint and the token
/// account are Token-2022's and the token account is the owner's.
pub proof fn withdraw_is_accepted(
    client: Client,
    mint: Pubkey,
    equality: Pubkey,
    range: Pubkey,
    w: Withdraw,
)
    requires
        ({
            let metas = withdraw_metas(
                client.owner,
                mint,
                Client::ata_of(client.owner, mint),
                equality,
                range,
            );
            &&& carries(w.owner, metas[0])
            &&& carries(w.mint.info, metas[1])
            &&& carries(w.token_account.info, metas[2])
            &&& carries(w.equality_proof_context, metas[3])
            &&& carries(w.range_proof_context, metas[4])
            &&& carries(w.token_program, metas[5])
        }),
        w.token_program.executable,
        w.mint.info.owner == TOKEN_2022,
        w.token_account.info.owner == TOKEN_2022,
        w.token_account.authority == client.owner,
    ensures
        w.valid(),
{
}

/// The program accepts the accounts of a client's transfer to another token account, where
/// the mint and both token accounts are Token-2022's, one the sender's and one the
/// recipient's.
pub proof fn transfer_is_accepted(
    client: Client,
    mint: Pubkey,
    recipient: Pubkey,
    equality: Pubkey,
    validity: Pubkey,
    range: Pubkey,
    t: TransferConfidential,
)
    requires
        ({
            let metas = transfer_metas(
                client.owner,
                recipient,
                mint,
                Client::ata_of(client.owner, mint),
                Client::ata_of(recipient, mint),
                equality,
                validity,
                range,
            );
            &&& carries(t.owner, metas[0])
            &&& carries(t.recipient, metas[1])
            &&& carries(t.mint.info, metas[2])
            &&& carries(t.source.info, metas[3])
            &&& carries(t.destination.info, metas[4])
            &&& carries(t.equality_proof_context, metas[5])
            &&& carries(t.ciphertext_validity_proof_context, metas[6])
            &&& carries(t.range_proof_context, metas[7])
            &&& carries(t.token_program, metas[8])
        }),
        Client::ata_of(client.owner, mint) != Client::ata_of(recipient, mint),
        t.token_program.executable,
        t.mint.info.owner == TOKEN_2022,
        t.source.info.owner == TOKEN_2022,
        t.source.authority == client.owner,
        t.destination.info.owner == TOKEN_2022,
        t.destination.authority == recipient,
    ensures
        t.valid(),
{
}

/// The program accepts the accounts with which a client creates a mint.
pub proof fn initialize_mint_is_accepted(client: Client, mint: Pubkey, i: InitializeMint)
    requires
        ({
            let metas = initialize_mint_metas(client.owner, mint);
            &&& carries(i.payer, metas[0])
            &&& carries(i.mint, metas[1])
            &&& carries(i.authority, metas[2])
            &&& carries(i.token_program, metas[3])
            &&& carries(i.system_program, metas[4])
        }),
        i.token_program.executable,
        i.system_program.executable,
    ensures
        i.valid(),
{
}

} // verus!
