//! What a request that succeeds leads to, given what Token-2022 makes of the calls that were
//! confirmed.
use vstd::prelude::*;
use crate::address::Pubkey;
use crate::balance::{available_of, pending_of, reading, total_of};
use crate::calls::{ix_view, owner_metas, Call};
use crate::client::Client;
use crate::error::ClientError;
use crate::instruction::AccountMeta;
use crate::keys::{
    ciphertext_joined, ciphertext_less, ciphertext_minus, derived_keys, elgamal_u32, encrypts,
    KeysView,
};
use crate::laws::{
    applied_means_fresh, conversation, follows, recorded, success_was_proved, Reply,
};
use crate::promises::{after_applying, after_spending, applied_copy_reads_back};
use crate::session::{submits, AfterKey, AfterRead, AfterSubmit, Goal, Step};
use crate::state::{ConfidentialAccount, EMPTY_BALANCE};
use crate::zk::Proof;

verus! {

/// A token account as Token-2022 keeps it, with the supply of its mint.
pub struct Holding {
    pub supply: u64,
    pub public: u64,
    /// Credits that may wait in pending.
    pub limit: u64,
    pub e: ConfidentialAccount,
}

impl Holding {
    /// What reading the account gives.
    pub open spec fn read(self) -> (u64, ConfidentialAccount) {
        (self.public, self.e)
    }
}

/// The account as Token-2022 leaves it when it is configured: everything is zero.
pub open spec fn after_configuring(elgamal_pubkey: [u8; 32], copy: [u8; 36]) -> ConfidentialAccount {
    ConfidentialAccount {
        elgamal_pubkey,
        pending_balance_lo: EMPTY_BALANCE,
        pending_balance_hi: EMPTY_BALANCE,
        available_balance: EMPTY_BALANCE,
        decryptable_available_balance: copy,
        pending_balance_credit_counter: 0,
        expected_pending_balance_credit_counter: 0,
        actual_pending_balance_credit_counter: 0,
    }
}

/// The account as Token-2022 leaves it after a credit, with these two parts of pending.
pub open spec fn after_crediting(
    e: ConfidentialAccount,
    pending_balance_lo: [u8; 64],
    pending_balance_hi: [u8; 64],
) -> ConfidentialAccount {
    ConfidentialAccount {
        pending_balance_lo,
        pending_balance_hi,
        pending_balance_credit_counter: (e.pending_balance_credit_counter + 1) as u64,
        ..e
    }
}

/// A ciphertext has grown by `amount`, as long as it can be read.
pub open spec fn grown(secret: Seq<u8>, before: Seq<u8>, after: Seq<u8>, amount: u64) -> bool {
    match elgamal_u32(secret, before) {
        None => true,
        Some(held) => held + amount < 0x1_0000_0000 ==> elgamal_u32(secret, after) == Some(
            (held + amount) as u64,
        ),
    }
}

/// A ciphertext has grown by what another one holds, as long as it can be read.
pub open spec fn grown_by(secret: Seq<u8>, before: Seq<u8>, after: Seq<u8>, other: Seq<u8>) -> bool {
    match elgamal_u32(secret, other) {
        None => true,
        Some(amount) => grown(secret, before, after, amount),
    }
}

/// A balance has grown by the two parts of pending, if they can be read.
pub open spec fn absorbed(
    secret: Seq<u8>,
    before: Seq<u8>,
    after: Seq<u8>,
    lo: Seq<u8>,
    hi: Seq<u8>,
) -> bool {
    match (elgamal_u32(secret, lo), elgamal_u32(secret, hi)) {
        (Some(lo), Some(hi)) => forall|held: u64| #[trigger]
            encrypts(secret, before, held) && held + lo + 65536 * hi <= u64::MAX ==> encrypts(
                secret,
                after,
                (held + lo + 65536 * hi) as u64,
            ),
        _ => true,
    }
}

/// What Token-2022 makes of a token account when it carries out a configuration, a deposit,
/// an application of pending or a withdrawal. `secret` is the owner's, and `proofs` are those
/// in the contexts of the call. For a configuration, an account that is new counts as one
/// with nothing in it. A transfer has two accounts: see `handed_over`.
pub open spec fn carried_out(
    call: Call,
    proofs: Seq<Proof>,
    secret: Seq<u8>,
    before: Holding,
    after: Holding,
) -> bool {
    let e = before.e;
    let f = after.e;
    &&& after.supply == before.supply
    &&& match call {
        Call::ConfigureAccount {
            decryptable_zero_balance,
            maximum_pending_balance_credit_counter,
        } => {
            &&& after.public == before.public
            &&& after.limit == maximum_pending_balance_credit_counter
            &&& f == after_configuring(f.elgamal_pubkey, decryptable_zero_balance)
            &&& f.elgamal_pubkey@ == proofs[0].data@.subrange(0, 32)
        },
        Call::Deposit { amount } => {
            &&& amount <= before.public
            &&& amount < 0x1_0000_0000_0000
            &&& after.public == before.public - amount
            &&& after.limit == before.limit
            &&& e.pending_balance_credit_counter < before.limit
            &&& f == after_crediting(e, f.pending_balance_lo, f.pending_balance_hi)
            &&& grown(secret, e.pending_balance_lo@, f.pending_balance_lo@, amount % 65536)
            &&& grown(secret, e.pending_balance_hi@, f.pending_balance_hi@, amount / 65536)
        },
        Call::ApplyPending {
            expected_pending_balance_credit_counter,
            new_decryptable_available_balance,
        } => {
            &&& after.public == before.public
            &&& after.limit == before.limit
            &&& f == after_applying(
                e,
                f.available_balance,
                new_decryptable_available_balance,
                expected_pending_balance_credit_counter,
                e.pending_balance_credit_counter,
            )
            &&& absorbed(
                secret,
                e.available_balance@,
                f.available_balance@,
                e.pending_balance_lo@,
                e.pending_balance_hi@,
            )
        },
        Call::Withdraw { amount, new_decryptable_available_balance } => {
            &&& after.public == before.public + amount
            &&& after.limit == before.limit
            &&& f == after_spending(e, f.available_balance, new_decryptable_available_balance)
            &&& f.available_balance@ == if amount > 0 {
                ciphertext_less(e.available_balance@, amount)
            } else {
                e.available_balance@
            }
        },
        _ => true,
    }
}

/// What Token-2022 makes of the two token accounts of a transfer, with `copy` as the new AES
/// copy of the sender: the parts of the amount that the proof of their validity has encrypted
/// for the sender leave the sender's balance, and those for the recipient join the
/// recipient's pending. `secret` is the recipient's.
pub open spec fn handed_over(
    copy: [u8; 36],
    validity: Seq<u8>,
    before: Holding,
    after: Holding,
    secret: Seq<u8>,
    receiver_before: Holding,
    receiver_after: Holding,
) -> bool {
    let e = before.e;
    let f = after.e;
    let g = receiver_before.e;
    let h = receiver_after.e;
    &&& after.supply == before.supply
    &&& receiver_after.supply == receiver_before.supply
    &&& after.public == before.public
    &&& after.limit == before.limit
    &&& f == after_spending(e, f.available_balance, copy)
    &&& f.available_balance@ == ciphertext_minus(
        e.available_balance@,
        ciphertext_joined(
            validity.subrange(96, 128) + validity.subrange(128, 160),
            validity.subrange(224, 256) + validity.subrange(256, 288),
        ),
    )
    &&& receiver_after.public == receiver_before.public
    &&& receiver_after.limit == receiver_before.limit
    &&& g.pending_balance_credit_counter < receiver_before.limit
    &&& h == after_crediting(g, h.pending_balance_lo, h.pending_balance_hi)
    &&& grown_by(
        secret,
        g.pending_balance_lo@,
        h.pending_balance_lo@,
        validity.subrange(96, 128) + validity.subrange(160, 192),
    )
    &&& grown_by(
        secret,
        g.pending_balance_hi@,
        h.pending_balance_hi@,
        validity.subrange(224, 256) + validity.subrange(288, 320),
    )
}

/// The token account that a call with these accounts is about; for a transfer, the sender's.
pub open spec fn subject(call: Call, accounts: Seq<AccountMeta>) -> Pubkey {
    match call {
        Call::ConfigureAccount { .. } => accounts[3].pubkey,
        Call::TransferConfidential { .. } => accounts[3].pubkey,
        _ => accounts[2].pubkey,
    }
}

/// The proof contexts among the accounts of a call.
pub open spec fn contexts(call: Call, accounts: Seq<AccountMeta>) -> Seq<Pubkey> {
    match call {
        Call::ConfigureAccount { .. } => seq![accounts[4].pubkey],
        Call::TransferConfidential { .. } => seq![
            accounts[5].pubkey,
            accounts[6].pubkey,
            accounts[7].pubkey,
        ],
        Call::Withdraw { .. } => seq![accounts[3].pubkey, accounts[4].pubkey],
        _ => Seq::empty(),
    }
}

/// The step submits a transaction that starts with this call.
pub open spec fn sends(step: Step, call: Call, accounts: Seq<AccountMeta>) -> bool {
    step matches Step::Submit(tx, _) && tx.says().len() > 0 && tx.says()[0] == ix_view(
        call,
        accounts,
    )
}

/// The conversation had a transaction that starts with this call confirmed, and each of
/// `proofs` verified into its context.
pub open spec fn confirmed(
    owner: Pubkey,
    steps: Seq<Step>,
    replies: Seq<Reply>,
    call: Call,
    accounts: Seq<AccountMeta>,
    proofs: Seq<Proof>,
) -> bool {
    &&& exists|i: int|
        0 <= i < replies.len() && (replies[i] matches Reply::Sent(Ok(_))) && #[trigger] sends(
            steps[i],
            call,
            accounts,
        )
    &&& proofs.len() == contexts(call, accounts).len()
    &&& forall|p: int|
        0 <= p < proofs.len() ==> recorded(
            steps,
            replies,
            owner,
            #[trigger] proofs[p],
            contexts(call, accounts)[p],
        )
}

/// The conversation took the token account `ata` from `before` to `after`: what it had
/// confirmed was carried out. `secret` is the owner's.
pub open spec fn took(
    owner: Pubkey,
    steps: Seq<Step>,
    replies: Seq<Reply>,
    ata: Pubkey,
    secret: Seq<u8>,
    before: Holding,
    after: Holding,
) -> bool {
    forall|call: Call, accounts: Seq<AccountMeta>, proofs: Seq<Proof>| #[trigger]
        confirmed(owner, steps, replies, call, accounts, proofs) && subject(call, accounts) == ata
            ==> carried_out(call, proofs, secret, before, after)
}

/// The conversation took the token accounts `source` and `destination` of a transfer from one
/// state to the other: the transfer that it had confirmed was carried out. `secret` is the
/// recipient's.
pub open spec fn moved(
    owner: Pubkey,
    steps: Seq<Step>,
    replies: Seq<Reply>,
    source: Pubkey,
    before: Holding,
    after: Holding,
    destination: Pubkey,
    secret: Seq<u8>,
    receiver_before: Holding,
    receiver_after: Holding,
) -> bool {
    forall|call: Call, accounts: Seq<AccountMeta>, proofs: Seq<Proof>| #[trigger]
        confirmed(owner, steps, replies, call, accounts, proofs) ==> match call {
            Call::TransferConfidential { new_source_decryptable_available_balance, .. } => {
                accounts[3].pubkey == source && accounts[4].pubkey == destination ==> handed_over(
                    new_source_decryptable_available_balance,
                    proofs[1].data@,
                    before,
                    after,
                    secret,
                    receiver_before,
                    receiver_after,
                )
            },
            _ => true,
        }
}

/// Both parts of pending can be read, and still can with the parts of `amount` added.
pub open spec fn room_for(e: ConfidentialAccount, secret: Seq<u8>, amount: u64) -> bool {
    &&& elgamal_u32(secret, e.pending_balance_lo@) matches Some(lo) && lo + amount % 65536
        < 0x1_0000_0000
    &&& elgamal_u32(secret, e.pending_balance_hi@) matches Some(hi) && hi + amount / 65536
        < 0x1_0000_0000
}

/// A number is put together again from its two parts.
proof fn parts(amount: u64)
    ensures
        amount % 65536 + 65536 * (amount / 65536) == amount,
{
}

/// After a configuration that succeeds, available and pending both read zero, by the AES copy
/// and by the ciphertexts, the account is encrypted for the wallet's key, and 65,536 credits
/// may wait in pending.
pub proof fn configuration_starts_at_zero(
    client: Client,
    mint: Pubkey,
    steps: Seq<Step>,
    replies: Seq<Reply>,
    keys: KeysView,
    before: Holding,
    after: Holding,
)
    requires
        conversation(client, steps, replies),
        client.configures(mint, steps[0]),
        steps.last() == Step::Done(Ok(())),
        derived_keys(client.wallet, Client::ata_of(client.owner, mint)) == Ok::<
            KeysView,
            Seq<char>,
        >(keys),
        keys.valid(),
        took(
            client.owner,
            steps,
            replies,
            Client::ata_of(client.owner, mint),
            keys.secret@,
            before,
            after,
        ),
    ensures
        available_of(after.e, keys) == Ok::<u64, ClientError>(0),
        encrypts(keys.secret@, after.e.available_balance@, 0),
        pending_of(after.e, keys) == Ok::<u64, ClientError>(0),
        after.e.elgamal_pubkey == keys.pubkey,
        after.e.pending_balance_credit_counter == 0,
        after.limit == 65_536,
        after.public == before.public,
        after.supply == before.supply,
{
    let ata = Client::ata_of(client.owner, mint);
    let s = match steps[0] {
        Step::NewKey(AfterKey::Stage(s)) => s,
        _ => arbitrary(),
    };
    let i = success_was_proved(client, steps, replies, s, 0);
    match steps[i] {
        Step::Submit(tx, AfterSubmit::Finished(t)) => match t.goal {
            Goal::Configure { zero, .. } => {
                let call = Call::ConfigureAccount {
                    decryptable_zero_balance: zero,
                    maximum_pending_balance_credit_counter: 65_536,
                };
                let accounts = tx.says()[0].accounts;
                assert(tx.says()[0] == t.goal.call(t.owner, t.contexts@));
                assert(sends(steps[i], call, accounts));
                assert(confirmed(client.owner, steps, replies, call, accounts, s.proofs@));
                assert(carried_out(call, s.proofs@, keys.secret@, before, after));
                assert(after.e.elgamal_pubkey =~= keys.pubkey);
            },
            _ => {},
        },
        _ => {},
    }
}

/// A deposit that succeeds moves the amount from public to pending, as one more credit. The
/// owner reads it on top of what was pending, as long as neither part of pending leaves 32
/// bits.
pub proof fn deposit_becomes_pending(
    client: Client,
    mint: Pubkey,
    amount: u64,
    steps: Seq<Step>,
    replies: Seq<Reply>,
    keys: KeysView,
    before: Holding,
    after: Holding,
)
    requires
        conversation(client, steps, replies),
        submits(
            steps[0],
            seq![
                ix_view(
                    Call::Deposit { amount },
                    owner_metas(client.owner, mint, Client::ata_of(client.owner, mint)),
                ),
            ],
            Seq::empty(),
            AfterSubmit::Finish,
        ),
        steps.last() == Step::Done(Ok(())),
        took(
            client.owner,
            steps,
            replies,
            Client::ata_of(client.owner, mint),
            keys.secret@,
            before,
            after,
        ),
    ensures
        amount < 0x1_0000_0000_0000,
        after.public + amount == before.public,
        after.e.pending_balance_credit_counter == before.e.pending_balance_credit_counter + 1,
        room_for(before.e, keys.secret@, amount) ==> ({
            &&& pending_of(before.e, keys) matches Ok(pending)
            &&& pending_of(after.e, keys) matches Ok(grown)
            &&& grown == pending + amount
        }),
        available_of(after.e, keys) == available_of(before.e, keys),
        after.e.available_balance == before.e.available_balance,
        after.supply == before.supply,
{
    let ata = Client::ata_of(client.owner, mint);
    let call = Call::Deposit { amount };
    let accounts = owner_metas(client.owner, mint, ata);
    assert(follows(client, steps[0], replies[0], steps[1]));
    if steps.len() > 2 {
        assert(follows(client, steps[1], replies[1], steps[2]));
    }
    assert(sends(steps[0], call, accounts));
    assert(confirmed(client.owner, steps, replies, call, accounts, Seq::empty()));
    assert(carried_out(call, Seq::empty(), keys.secret@, before, after));
    parts(amount);
}

/// Pending that is applied becomes available, where no credit slipped in: by the AES copy,
/// and, where the ciphertext held any number, by the ciphertext.
pub proof fn pending_becomes_available(
    client: Client,
    mint: Pubkey,
    steps: Seq<Step>,
    replies: Seq<Reply>,
    keys: KeysView,
    before: Holding,
    after: Holding,
)
    requires
        conversation(client, steps, replies),
        steps[0] == Step::ReadAccount(
            Client::ata_of(client.owner, mint),
            AfterRead::ApplyPending { mint, ata: Client::ata_of(client.owner, mint) },
        ),
        steps.last() == Step::Done(Ok(())),
        reading(replies[0]->Account_0) == Some(before.read()),
        derived_keys(client.wallet, Client::ata_of(client.owner, mint)) == Ok::<
            KeysView,
            Seq<char>,
        >(keys),
        keys.valid(),
        took(
            client.owner,
            steps,
            replies,
            Client::ata_of(client.owner, mint),
            keys.secret@,
            before,
            after,
        ),
    ensures
        after.public == before.public,
        pending_of(after.e, keys) == Ok::<u64, ClientError>(0),
        after.e.pending_balance_credit_counter == 0,
        ({
            &&& available_of(before.e, keys) matches Ok(available)
            &&& pending_of(before.e, keys) matches Ok(pending)
            &&& available_of(after.e, keys) matches Ok(total)
            &&& total == available + pending
            &&& forall|held: u64| #[trigger]
                encrypts(keys.secret@, before.e.available_balance@, held) && held + pending
                    <= u64::MAX ==> encrypts(
                    keys.secret@,
                    after.e.available_balance@,
                    (held + pending) as u64,
                )
        }),
        after.supply == before.supply,
{
    let ata = Client::ata_of(client.owner, mint);
    applied_means_fresh(client, steps, replies, mint, ata);
    assert(follows(client, steps[0], replies[0], steps[1]));
    assert(follows(client, steps[1], replies[1], steps[2]));
    let total = total_of(before.e, keys)->Ok_0;
    let copy = applied_copy_reads_back(
        client,
        mint,
        ata,
        replies[0]->Account_0,
        steps[1],
        before.e,
        keys,
        total,
    );
    let call = Call::ApplyPending {
        expected_pending_balance_credit_counter: before.e.pending_balance_credit_counter,
        new_decryptable_available_balance: copy,
    };
    let accounts = owner_metas(client.owner, mint, ata);
    assert(sends(steps[1], call, accounts));
    assert(confirmed(client.owner, steps, replies, call, accounts, Seq::empty()));
    assert(carried_out(call, Seq::empty(), keys.secret@, before, after));
}

/// A withdrawal that succeeds moves the amount from available to public. The AES copy and the
/// ciphertext that the account is left with are both of what is left.
pub proof fn withdrawal_becomes_public(
    client: Client,
    mint: Pubkey,
    amount: u64,
    steps: Seq<Step>,
    replies: Seq<Reply>,
    keys: KeysView,
    before: Holding,
    after: Holding,
)
    requires
        conversation(client, steps, replies),
        steps[0] == Step::ReadAccount(
            Client::ata_of(client.owner, mint),
            AfterRead::Withdraw { mint, ata: Client::ata_of(client.owner, mint), amount },
        ),
        steps.last() == Step::Done(Ok(())),
        reading(replies[0]->Account_0) == Some(before.read()),
        derived_keys(client.wallet, Client::ata_of(client.owner, mint)) == Ok::<
            KeysView,
            Seq<char>,
        >(keys),
        took(
            client.owner,
            steps,
            replies,
            Client::ata_of(client.owner, mint),
            keys.secret@,
            before,
            after,
        ),
    ensures
        after.public == before.public + amount,
        pending_of(after.e, keys) == pending_of(before.e, keys),
        after.e.pending_balance_credit_counter == before.e.pending_balance_credit_counter,
        ({
            &&& available_of(before.e, keys) matches Ok(available)
            &&& available_of(after.e, keys) matches Ok(remaining)
            &&& remaining + amount == available
            &&& encrypts(keys.secret@, before.e.available_balance@, available)
            &&& encrypts(keys.secret@, after.e.available_balance@, remaining)
        }),
        after.supply == before.supply,
{
    assert(follows(client, steps[0], replies[0], steps[1]));
    if steps.len() > 2 {
        assert(follows(client, steps[1], replies[1], steps[2]));
    }
    let s = match steps[1] {
        Step::NewKey(AfterKey::Stage(s)) => s,
        _ => arbitrary(),
    };
    let i = success_was_proved(client, steps, replies, s, 1);
    match steps[i] {
        Step::Submit(tx, AfterSubmit::Finished(t)) => match t.goal {
            Goal::Withdraw { balance, .. } => {
                let call = Call::Withdraw { amount, new_decryptable_available_balance: balance };
                let accounts = tx.says()[0].accounts;
                assert(tx.says()[0] == t.goal.call(t.owner, t.contexts@));
                assert(sends(steps[i], call, accounts));
                assert(s.proofs@.len() == s.proofs@.map_values(|p: Proof| p.kind).len());
                assert(confirmed(client.owner, steps, replies, call, accounts, s.proofs@));
                assert(carried_out(call, s.proofs@, keys.secret@, before, after));
            },
            _ => {},
        },
        _ => {},
    }
}

/// A transfer that succeeds leaves the sender with what was available less the amount, by the
/// AES copy and by the ciphertext. The recipient reads the amount on top of what was pending,
/// as one more credit, as long as neither part of pending leaves 32 bits. Nothing public
/// moves.
pub proof fn transfer_becomes_pending(
    client: Client,
    mint: Pubkey,
    recipient: Pubkey,
    amount: u64,
    steps: Seq<Step>,
    replies: Seq<Reply>,
    keys: KeysView,
    before: Holding,
    after: Holding,
    theirs: KeysView,
    receiver_before: Holding,
    receiver_after: Holding,
)
    requires
        conversation(client, steps, replies),
        steps[0] == Step::ReadAccount(
            Client::ata_of(client.owner, mint),
            AfterRead::Source { mint, recipient, amount },
        ),
        steps.last() == Step::Done(Ok(())),
        reading(replies[0]->Account_0) == Some(before.read()),
        reading(replies[1]->Account_0) == Some(receiver_before.read()),
        derived_keys(client.wallet, Client::ata_of(client.owner, mint)) == Ok::<
            KeysView,
            Seq<char>,
        >(keys),
        theirs.valid(),
        receiver_before.e.elgamal_pubkey == theirs.pubkey,
        moved(
            client.owner,
            steps,
            replies,
            Client::ata_of(client.owner, mint),
            before,
            after,
            Client::ata_of(recipient, mint),
            theirs.secret@,
            receiver_before,
            receiver_after,
        ),
    ensures
        ({
            &&& available_of(before.e, keys) matches Ok(available)
            &&& available_of(after.e, keys) matches Ok(remaining)
            &&& remaining + amount == available
            &&& encrypts(keys.secret@, before.e.available_balance@, available)
            &&& encrypts(keys.secret@, after.e.available_balance@, remaining)
        }),
        pending_of(after.e, keys) == pending_of(before.e, keys),
        after.e.pending_balance_credit_counter == before.e.pending_balance_credit_counter,
        after.public == before.public,
        room_for(receiver_before.e, theirs.secret@, amount) ==> ({
            &&& pending_of(receiver_before.e, theirs) matches Ok(pending)
            &&& pending_of(receiver_after.e, theirs) matches Ok(grown)
            &&& grown == pending + amount
        }),
        receiver_after.e.pending_balance_credit_counter
            == receiver_before.e.pending_balance_credit_counter + 1,
        available_of(receiver_after.e, theirs) == available_of(receiver_before.e, theirs),
        receiver_after.e.available_balance == receiver_before.e.available_balance,
        receiver_after.public == receiver_before.public,
        after.supply == before.supply,
        receiver_after.supply == receiver_before.supply,
{
    assert(follows(client, steps[0], replies[0], steps[1]));
    if steps.len() > 2 {
        assert(follows(client, steps[1], replies[1], steps[2]));
    }
    if steps.len() > 3 {
        assert(follows(client, steps[2], replies[2], steps[3]));
    }
    if steps.len() > 4 {
        assert(follows(client, steps[3], replies[3], steps[4]));
    }
    let s = match steps[3] {
        Step::NewKey(AfterKey::Stage(s)) => s,
        _ => arbitrary(),
    };
    let i = success_was_proved(client, steps, replies, s, 3);
    match steps[i] {
        Step::Submit(tx, AfterSubmit::Finished(t)) => match t.goal {
            Goal::Transfer { balance, auditor_lo, auditor_hi, .. } => {
                let call = Call::TransferConfidential {
                    new_source_decryptable_available_balance: balance,
                    transfer_amount_auditor_ciphertext_lo: auditor_lo,
                    transfer_amount_auditor_ciphertext_hi: auditor_hi,
                };
                let accounts = tx.says()[0].accounts;
                assert(tx.says()[0] == t.goal.call(t.owner, t.contexts@));
                assert(sends(steps[i], call, accounts));
                assert(s.proofs@.len() == s.proofs@.map_values(|p: Proof| p.kind).len());
                assert(confirmed(client.owner, steps, replies, call, accounts, s.proofs@));
                assert(handed_over(
                    balance,
                    s.proofs@[1].data@,
                    before,
                    after,
                    theirs.secret@,
                    receiver_before,
                    receiver_after,
                ));
                parts(amount);
            },
            _ => {},
        },
        _ => {},
    }
}

/// A deposit, applying it, and the withdrawal of the same amount lead back to the balances
/// that were read first: public, pending and available, by the AES copy and by the ciphertext.
/// The supply stays what it was throughout.
pub proof fn deposit_apply_and_withdraw_lead_back(
    client: Client,
    mint: Pubkey,
    amount: u64,
    keys: KeysView,
    first: Holding,
    deposit: (Seq<Step>, Seq<Reply>),
    deposited: Holding,
    apply: (Seq<Step>, Seq<Reply>),
    applied: Holding,
    withdraw: (Seq<Step>, Seq<Reply>),
    last: Holding,
)
    requires
        derived_keys(client.wallet, Client::ata_of(client.owner, mint)) == Ok::<
            KeysView,
            Seq<char>,
        >(keys),
        keys.valid(),
        pending_of(first.e, keys) == Ok::<u64, ClientError>(0),
        conversation(client, deposit.0, deposit.1),
        submits(
            deposit.0[0],
            seq![
                ix_view(
                    Call::Deposit { amount },
                    owner_metas(client.owner, mint, Client::ata_of(client.owner, mint)),
                ),
            ],
            Seq::empty(),
            AfterSubmit::Finish,
        ),
        deposit.0.last() == Step::Done(Ok(())),
        took(
            client.owner,
            deposit.0,
            deposit.1,
            Client::ata_of(client.owner, mint),
            keys.secret@,
            first,
            deposited,
        ),
        conversation(client, apply.0, apply.1),
        apply.0[0] == Step::ReadAccount(
            Client::ata_of(client.owner, mint),
            AfterRead::ApplyPending { mint, ata: Client::ata_of(client.owner, mint) },
        ),
        apply.0.last() == Step::Done(Ok(())),
        reading(apply.1[0]->Account_0) == Some(deposited.read()),
        took(
            client.owner,
            apply.0,
            apply.1,
            Client::ata_of(client.owner, mint),
            keys.secret@,
            deposited,
            applied,
        ),
        conversation(client, withdraw.0, withdraw.1),
        withdraw.0[0] == Step::ReadAccount(
            Client::ata_of(client.owner, mint),
            AfterRead::Withdraw { mint, ata: Client::ata_of(client.owner, mint), amount },
        ),
        withdraw.0.last() == Step::Done(Ok(())),
        reading(withdraw.1[0]->Account_0) == Some(applied.read()),
        took(
            client.owner,
            withdraw.0,
            withdraw.1,
            Client::ata_of(client.owner, mint),
            keys.secret@,
            applied,
            last,
        ),
    ensures
        last.public == first.public,
        pending_of(last.e, keys) == Ok::<u64, ClientError>(0),
        available_of(last.e, keys) == available_of(first.e, keys),
        available_of(first.e, keys) matches Ok(available) && encrypts(
            keys.secret@,
            last.e.available_balance@,
            available,
        ),
        deposited.supply == first.supply,
        applied.supply == first.supply,
        last.supply == first.supply,
{
    deposit_becomes_pending(
        client,
        mint,
        amount,
        deposit.0,
        deposit.1,
        keys,
        first,
        deposited,
    );
    assert(room_for(first.e, keys.secret@, amount));
    pending_becomes_available(client, mint, apply.0, apply.1, keys, deposited, applied);
    withdrawal_becomes_public(
        client,
        mint,
        amount,
        withdraw.0,
        withdraw.1,
        keys,
        applied,
        last,
    );
}

} // verus!
