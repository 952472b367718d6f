//! What each request of a client comes to, from the call that opens it to its answer: what is
//! read, told and sent, in which order, and why it is refused if it is.
use vstd::prelude::*;
use crate::address::{Pubkey, ASSOCIATED_TOKEN, ID, SYSTEM, TOKEN_2022, ZK_ELGAMAL_PROOF};
use crate::balance::{available_of, pending_of, reading};
use crate::calls::{
    configure_metas, ix_view, owner_metas, transfer_metas, withdraw_metas, Call,
};
use crate::client::Client;
use crate::error::{ClientError, ProofFault};
use crate::instruction::{AccountMeta, Instruction};
use crate::keys::{
    aes_plaintext, ciphertext_joined, ciphertext_less, ciphertext_minus, derived_keys,
    elgamal_ciphertext, elgamal_holds, elgamal_key, encrypts, KeysView,
};
use crate::laws::{
    cleanup_of, conversation, follows, good, stays_well_formed, staging_of, Reply,
};
use crate::meanings::{
    calls_carry_their_arguments, context_calls_say, laid_out, named, number, unusable, usable,
};
use crate::session::{
    closings, AfterKey, AfterRead, AfterRent, AfterSubmit, AfterTell, Cleanup, Goal, Notice,
    Staging, Step,
};
use crate::state::{mint_auditor, AccountData, ConfidentialAccount, NO_AUDITOR};
use crate::system::associated_token_address;
use crate::zk::{Proof, ProofKind};

verus! {

/// Whether `resume` may return `next` when `step` is answered with `reply`.
pub open spec fn answers(client: Client, step: Step, reply: Reply, next: Step) -> bool {
    match (step, reply) {
        (Step::ReadAccount(_, k), Reply::Account(found)) => call_ensures(
            AfterRead::resume,
            (k, &client, found),
            next,
        ),
        (Step::ReadRent(_, k), Reply::Rent(rent)) => call_ensures(
            AfterRent::resume,
            (k, rent),
            next,
        ),
        (Step::NewKey(k), Reply::Key(key)) => call_ensures(AfterKey::resume, (k, key), next),
        (Step::Submit(_, k), Reply::Sent(sent)) => call_ensures(
            AfterSubmit::resume,
            (k, &client, sent),
            next,
        ),
        (Step::Tell(_, k), Reply::Told) => call_ensures(AfterTell::resume, (k, &client), next),
        _ => false,
    }
}

/// Steps, and the answers between them: each step is what `resume` returned for the answer to
/// the one before.
pub open spec fn dialogue(client: Client, steps: Seq<Step>, replies: Seq<Reply>) -> bool {
    &&& steps.len() == replies.len() + 1
    &&& forall|i: int| 0 <= i < replies.len() ==> answers(
        client,
        steps[i],
        #[trigger] replies[i],
        steps[i + 1],
    )
}

/// A dialogue that starts with a sound step is a conversation.
pub proof fn dialogues_are_conversations(client: Client, steps: Seq<Step>, replies: Seq<Reply>)
    requires
        dialogue(client, steps, replies),
        steps[0].wf(),
    ensures
        conversation(client, steps, replies),
{
    assert forall|i: int| 0 <= i < replies.len() implies follows(
        client,
        steps[i],
        #[trigger] replies[i],
        steps[i + 1],
    ) by {
        assert(answers(client, steps[i], replies[i], steps[i + 1]));
    }
}

/// What an answer leads to.
proof fn goes(client: Client, steps: Seq<Step>, replies: Seq<Reply>, i: int)
    requires
        dialogue(client, steps, replies),
        0 <= i < replies.len(),
    ensures
        follows(client, steps[i], replies[i], steps[i + 1]),
        !(steps[i] is Done),
{
    assert(answers(client, steps[i], replies[i], steps[i + 1]));
}

/// The answer to a request whose last transaction went so.
pub open spec fn outcome(sent: Result<(), String>) -> Step {
    match sent {
        Ok(_) => Step::Done(Ok(())),
        Err(reason) => Step::Done(Err(ClientError::Rpc(reason))),
    }
}

/// The instruction is this call of the payments program.
pub open spec fn calls_for(i: Instruction, accounts: Seq<AccountMeta>, call: Call) -> bool {
    i.program_id == ID && i.accounts@ == accounts && laid_out(call, i.data@)
}

/// The instruction closes the context `key` and pays its rent to `owner`.
pub open spec fn closes_one(i: Instruction, key: Pubkey, owner: Pubkey) -> bool {
    &&& i.program_id == ZK_ELGAMAL_PROOF
    &&& i.accounts@ == seq![named(key, false, true), named(owner, false, true), named(owner, true, false)]
    &&& i.data@ == seq![0u8]
}

/// The step submits one instruction, this call of the payments program.
pub open spec fn asks(
    step: Step,
    accounts: Seq<AccountMeta>,
    call: Call,
    signers: Seq<Pubkey>,
) -> bool {
    step matches Step::Submit(tx, _) && tx.signers@ == signers && tx.instructions@.len() == 1
        && calls_for(tx.instructions@[0], accounts, call)
}

/// The step submits one instruction, which closes the context `key`.
pub open spec fn closes_context(step: Step, key: Pubkey, owner: Pubkey) -> bool {
    step matches Step::Submit(tx, _) && tx.signers@ == Seq::<Pubkey>::empty()
        && tx.instructions@.len() == 1 && closes_one(tx.instructions@[0], key, owner)
}

/// What a transaction says, its instructions hold.
proof fn said(step: Step)
    ensures
        step matches Step::Submit(tx, _) ==> tx.says().len() == tx.instructions@.len() && (forall|
            i: int,
        |
            0 <= i < tx.instructions@.len() ==> (#[trigger] tx.instructions@[i])@ == tx.says()[i]),
{
}

/// A new mint has the decimals that were asked for. It gets a key of its own, which is told
/// first and signs; the wallet pays and is the authority; and how the one transaction goes is
/// the answer.
pub proof fn mint_is_made_as_asked(
    client: Client,
    decimals: u8,
    steps: Seq<Step>,
    replies: Seq<Reply>,
)
    requires
        call_ensures(Client::initialize_mint, (&client, decimals), steps[0]),
        dialogue(client, steps, replies),
    ensures
        replies.len() <= 3,
        steps[0] is NewKey,
        steps.len() > 1 ==> (steps[1] matches Step::Tell(Notice::Mint(key), _) && key
            == replies[0]->Key_0),
        steps.len() > 2 ==> asks(
            steps[2],
            seq![
                named(client.owner, true, true),
                named(replies[0]->Key_0, true, true),
                named(client.owner, true, false),
                named(TOKEN_2022, false, false),
                named(SYSTEM, false, false),
            ],
            Call::InitializeMint { decimals },
            seq![replies[0]->Key_0],
        ),
        steps.len() > 3 ==> steps[3] == outcome(replies[2]->Sent_0),
{
    if steps.len() > 1 {
        goes(client, steps, replies, 0);
    }
    if steps.len() > 2 {
        goes(client, steps, replies, 1);
        said(steps[2]);
        calls_carry_their_arguments(Call::InitializeMint { decimals });
    }
    if steps.len() > 3 {
        goes(client, steps, replies, 2);
    }
    if steps.len() > 4 {
        goes(client, steps, replies, 3);
    }
}

/// A deposit is one transaction with the amount that was asked for, on the wallet's own token
/// account, and how it goes is the answer.
pub proof fn deposit_is_made_as_asked(
    client: Client,
    mint: Pubkey,
    amount: u64,
    steps: Seq<Step>,
    replies: Seq<Reply>,
)
    requires
        call_ensures(Client::deposit, (&client, mint, amount), steps[0]),
        dialogue(client, steps, replies),
    ensures
        replies.len() <= 1,
        asks(
            steps[0],
            seq![
                named(client.owner, true, false),
                named(mint, false, false),
                named(associated_token_address(client.owner, mint, TOKEN_2022), false, true),
                named(TOKEN_2022, false, false),
            ],
            Call::Deposit { amount },
            Seq::empty(),
        ),
        steps.len() > 1 ==> steps[1] == outcome(replies[0]->Sent_0),
{
    said(steps[0]);
    calls_carry_their_arguments(Call::Deposit { amount });
    if steps.len() > 1 {
        goes(client, steps, replies, 0);
    }
    if steps.len() > 2 {
        goes(client, steps, replies, 1);
    }
}

proof fn closing_goes_on(
    client: Client,
    contexts: Vec<Pubkey>,
    steps: Seq<Step>,
    replies: Seq<Reply>,
    i: int,
)
    requires
        call_ensures(Client::close_proofs, (&client, contexts), steps[0]),
        dialogue(client, steps, replies),
        0 <= i < steps.len(),
    ensures
        i <= contexts@.len() || (steps[i] matches Step::Done(Err(_))),
        i < contexts@.len() || steps[i] is Done,
        (forall|j: int| 0 <= j < i ==> (#[trigger] replies[j] matches Reply::Sent(Ok(_)))) ==> {
            &&& i <= contexts@.len()
            &&& client.closes(contexts, i as usize, steps[i])
        },
        !(forall|j: int| 0 <= j < i ==> (#[trigger] replies[j] matches Reply::Sent(Ok(_)))) ==> (
        i <= contexts@.len() && (replies[i - 1] matches Reply::Sent(Err(reason)) && steps[i]
            == Step::Done(Err(ClientError::Rpc(reason)))) && (forall|j: int|
            0 <= j < i - 1 ==> (#[trigger] replies[j] matches Reply::Sent(Ok(_))))),
    decreases i,
{
    assert(contexts@.len() == contexts.len());
    if i > 0 {
        closing_goes_on(client, contexts, steps, replies, i - 1);
        goes(client, steps, replies, i - 1);
        if forall|j: int| 0 <= j < i - 1 ==> (#[trigger] replies[j] matches Reply::Sent(Ok(_))) {
            if replies[i - 1] matches Reply::Sent(Ok(_)) {
                assert(forall|j: int|
                    0 <= j < i ==> (#[trigger] replies[j] matches Reply::Sent(Ok(_))));
            }
        }
    }
}

/// Contexts are closed one by one, each in a transaction of its own, in the order in which
/// they were given, up to the first that fails; and it is a success exactly when every one of
/// them was closed.
pub proof fn contexts_are_closed_in_their_order(
    client: Client,
    contexts: Vec<Pubkey>,
    steps: Seq<Step>,
    replies: Seq<Reply>,
    i: int,
)
    requires
        call_ensures(Client::close_proofs, (&client, contexts), steps[0]),
        dialogue(client, steps, replies),
        0 <= i < steps.len(),
    ensures
        replies.len() <= contexts@.len(),
        (i == 0 || (replies[i - 1] matches Reply::Sent(Ok(_)))) && i < contexts@.len()
            ==> closes_context(steps[i], contexts@[i], client.owner),
        (i == 0 || (replies[i - 1] matches Reply::Sent(Ok(_)))) && i == contexts@.len() ==> steps[i]
            == Step::Done(Ok(())),
        i > 0 ==> (replies[i - 1] matches Reply::Sent(Err(reason)) ==> steps[i] == Step::Done(
            Err(ClientError::Rpc(reason)),
        )),
        steps[i] == Step::Done(Ok(())) ==> i == contexts@.len() && forall|j: int|
            0 <= j < i ==> (#[trigger] replies[j] matches Reply::Sent(Ok(_))),
{
    assert(contexts@.len() == contexts.len());
    closing_goes_on(client, contexts, steps, replies, steps.len() - 1);
    closing_goes_on(client, contexts, steps, replies, i);
    said(steps[i]);
    if i > 0 {
        goes(client, steps, replies, i - 1);
        if (replies[i - 1] matches Reply::Sent(Ok(_))) {
            closing_goes_on(client, contexts, steps, replies, i - 1);
            if !(forall|j: int|
                0 <= j < i - 1 ==> (#[trigger] replies[j] matches Reply::Sent(Ok(_)))) {
                assert(steps[i - 1] is Done);
            }
            assert(forall|j: int|
                0 <= j < i ==> (#[trigger] replies[j] matches Reply::Sent(Ok(_))));
        }
    }
    if i < contexts@.len() {
        context_calls_say(
            client.owner,
            client.owner,
            0,
            0,
            client.owner,
            ProofKind::PubkeyValidity,
            Seq::empty(),
            contexts@[i],
            client.owner,
        );
    }
}

/// The token account that is not usable ends the request, for its own reason.
pub open spec fn turned_away(found: Result<AccountData, String>, step: Step) -> bool {
    step matches Step::Done(Err(error)) && unusable(found, error)
}

/// The keys that cannot be derived end the request, in the words of the reason.
pub open spec fn left_without_keys(reason: Seq<char>, step: Step) -> bool {
    step matches Step::Done(Err(ClientError::KeyDerivation(e))) && e@ == reason
}

/// The address of the wallet's own token account.
pub open spec fn own_account(client: Client, mint: Pubkey) -> Pubkey {
    associated_token_address(client.owner, mint, TOKEN_2022)
}

/// Balances are told as they are: first the wallet's own token account with its public amount,
/// then what is available and what is pending, each as it reads, and nothing is sent.
pub proof fn balances_are_told_as_they_are(
    client: Client,
    mint: Pubkey,
    steps: Seq<Step>,
    replies: Seq<Reply>,
    amount: u64,
    e: ConfidentialAccount,
    keys: KeysView,
)
    requires
        call_ensures(Client::balance, (&client, mint), steps[0]),
        dialogue(client, steps, replies),
        steps.len() > 1 ==> usable(replies[0]->Account_0, amount, e),
        derived_keys(client.wallet, own_account(client, mint)) == Ok::<KeysView, Seq<char>>(keys),
    ensures
        replies.len() <= 3,
        steps[0] matches Step::ReadAccount(address, _) && address == own_account(client, mint),
        steps.len() > 1 ==> (steps[1] matches Step::Tell(Notice::Public { ata, amount: told }, _)
            && ata == own_account(client, mint) && told == amount),
        steps.len() > 2 ==> match (available_of(e, keys), pending_of(e, keys)) {
            (Err(error), _) => steps[2] == Step::Done(Err(error)),
            (Ok(_), Err(error)) => steps[2] == Step::Done(Err(error)),
            (Ok(now), Ok(waiting)) => steps[2] matches Step::Tell(
                Notice::Confidential { available, pending },
                _,
            ) && available == now && pending == waiting,
        },
        steps.len() > 3 ==> steps[3] == Step::Done(Ok(())),
{
    if steps.len() > 1 {
        goes(client, steps, replies, 0);
    }
    if steps.len() > 2 {
        goes(client, steps, replies, 1);
    }
    if steps.len() > 3 {
        goes(client, steps, replies, 2);
    }
    if steps.len() > 4 {
        goes(client, steps, replies, 3);
    }
}

/// Where balances were told with success, the user knows all three: the public amount that
/// the account holds, and its available and pending funds as they read.
pub proof fn told_balances_are_true(
    client: Client,
    mint: Pubkey,
    steps: Seq<Step>,
    replies: Seq<Reply>,
) -> (read: (u64, ConfidentialAccount, KeysView))
    requires
        call_ensures(Client::balance, (&client, mint), steps[0]),
        dialogue(client, steps, replies),
        steps.last() == Step::Done(Ok(())),
    ensures
        steps.len() == 4,
        usable(replies[0]->Account_0, read.0, read.1),
        derived_keys(client.wallet, own_account(client, mint)) == Ok::<KeysView, Seq<char>>(read.2),
        steps[1] matches Step::Tell(Notice::Public { ata, amount }, _) && ata == own_account(
            client,
            mint,
        ) && amount == read.0,
        steps[2] matches Step::Tell(Notice::Confidential { available, pending }, _) && available_of(
            read.1,
            read.2,
        ) == Ok::<u64, ClientError>(available) && pending_of(read.1, read.2) == Ok::<
            u64,
            ClientError,
        >(pending),
{
    let (amount, e) = reading(replies[0]->Account_0)->0;
    let keys = derived_keys(client.wallet, own_account(client, mint))->Ok_0;
    goes(client, steps, replies, 0);
    if steps.len() > 2 {
        goes(client, steps, replies, 1);
    }
    if steps.len() > 3 {
        goes(client, steps, replies, 2);
    }
    if steps.len() > 4 {
        goes(client, steps, replies, 3);
    }
    (amount, e, keys)
}

/// Whatever is asked of the wallet's own token account, one that is not usable ends the
/// request at once, for its own reason.
pub proof fn requests_need_a_usable_account(
    client: Client,
    mint: Pubkey,
    recipient: Pubkey,
    amount: u64,
    steps: Seq<Step>,
    replies: Seq<Reply>,
)
    requires
        ({
            ||| call_ensures(Client::balance, (&client, mint), steps[0])
            ||| call_ensures(Client::apply_pending, (&client, mint), steps[0])
            ||| call_ensures(Client::withdraw, (&client, mint, amount), steps[0])
            ||| call_ensures(Client::transfer, (&client, mint, recipient, amount), steps[0])
        }),
        dialogue(client, steps, replies),
        steps.len() > 1,
        forall|held: u64, e: ConfidentialAccount| !usable(replies[0]->Account_0, held, e),
    ensures
        steps[0] matches Step::ReadAccount(address, _) && address == own_account(client, mint),
        turned_away(replies[0]->Account_0, steps[1]),
        steps.len() == 2,
{
    let found = replies[0]->Account_0;
    goes(client, steps, replies, 0);
    if let Some((held, e)) = reading(found) {
        assert(usable(found, held, e));
    }
    if steps.len() > 2 {
        goes(client, steps, replies, 1);
    }
}

/// Whatever is asked of a token account whose keys cannot be derived, that ends the request.
pub proof fn requests_need_the_keys(
    client: Client,
    mint: Pubkey,
    recipient: Pubkey,
    amount: u64,
    steps: Seq<Step>,
    replies: Seq<Reply>,
    held: u64,
    e: ConfidentialAccount,
    reason: Seq<char>,
)
    requires
        dialogue(client, steps, replies),
        derived_keys(client.wallet, own_account(client, mint)) == Err::<KeysView, Seq<char>>(reason),
        ({
            ||| call_ensures(Client::configure, (&client, mint), steps[0])
            ||| steps.len() > 1 && usable(replies[0]->Account_0, held, e) && ({
                ||| call_ensures(Client::balance, (&client, mint), steps[0])
                ||| call_ensures(Client::apply_pending, (&client, mint), steps[0])
                ||| call_ensures(Client::withdraw, (&client, mint, amount), steps[0])
            })
            ||| steps.len() > 2 && usable(replies[0]->Account_0, held, e) && reading(
                replies[1]->Account_0,
            ) is Some && call_ensures(
                Client::transfer,
                (&client, mint, recipient, amount),
                steps[0],
            )
        }),
    ensures
        left_without_keys(reason, steps.last()),
        steps.len() <= 3,
{
    if steps.len() > 1 {
        goes(client, steps, replies, 0);
    }
    if steps.len() > 2 {
        goes(client, steps, replies, 1);
    }
    if steps.len() > 3 {
        goes(client, steps, replies, 2);
    }
}

/// Pending is applied in one transaction on the wallet's own token account, with the number of
/// credits that was read, and an AES copy of available and pending together. Then the account
/// is read again, and it is a success exactly if its copy can be trusted.
pub proof fn pending_is_applied_as_read(
    client: Client,
    mint: Pubkey,
    steps: Seq<Step>,
    replies: Seq<Reply>,
    amount: u64,
    e: ConfidentialAccount,
    keys: KeysView,
) -> (copy: [u8; 36])
    requires
        call_ensures(Client::apply_pending, (&client, mint), steps[0]),
        dialogue(client, steps, replies),
        steps.len() > 1 ==> usable(replies[0]->Account_0, amount, e),
        derived_keys(client.wallet, own_account(client, mint)) == Ok::<KeysView, Seq<char>>(keys),
    ensures
        replies.len() <= 3,
        steps[0] matches Step::ReadAccount(address, _) && address == own_account(client, mint),
        steps.len() > 1 ==> match (available_of(e, keys), pending_of(e, keys)) {
            (Err(error), _) => steps[1] == Step::Done(Err(error)),
            (Ok(_), Err(error)) => steps[1] == Step::Done(Err(error)),
            (Ok(now), Ok(waiting)) => if now + waiting > u64::MAX {
                steps[1] == Step::Done(Err(ClientError::BalanceOverflow))
            } else {
                &&& asks(
                    steps[1],
                    seq![
                        named(client.owner, true, false),
                        named(mint, false, false),
                        named(own_account(client, mint), false, true),
                        named(TOKEN_2022, false, false),
                    ],
                    Call::ApplyPending {
                        expected_pending_balance_credit_counter: e.pending_balance_credit_counter,
                        new_decryptable_available_balance: copy,
                    },
                    Seq::empty(),
                )
                &&& aes_plaintext(keys.aes@, copy@) == Some((now + waiting) as u64)
            },
        },
        steps.len() > 2 ==> match replies[1]->Sent_0 {
            Err(reason) => steps[2] == Step::Done(Err(ClientError::Rpc(reason))),
            Ok(_) => steps[2] matches Step::ReadAccount(address, _) && address == own_account(
                client,
                mint,
            ),
        },
        steps.len() > 3 ==> match reading(replies[2]->Account_0) {
            None => turned_away(replies[2]->Account_0, steps[3]),
            Some((_, f)) => match available_of(f, keys) {
                Err(error) => steps[3] == Step::Done(Err(error)),
                Ok(_) => steps[3] == Step::Done(Ok(())),
            },
        },
{
    if steps.len() > 1 {
        goes(client, steps, replies, 0);
        said(steps[1]);
    }
    if steps.len() > 2 {
        goes(client, steps, replies, 1);
    }
    if steps.len() > 3 {
        goes(client, steps, replies, 2);
    }
    if steps.len() > 4 {
        goes(client, steps, replies, 3);
    }
    match (available_of(e, keys), pending_of(e, keys)) {
        (Ok(now), Ok(waiting)) => if steps.len() > 1 && now + waiting <= u64::MAX {
            let total = (now + waiting) as u64;
            match steps[1] {
                Step::Submit(tx, _) => {
                    let metas = owner_metas(client.owner, mint, own_account(client, mint));
                    let copy = choose|copy: [u8; 36]|
                        #[trigger] aes_plaintext(keys.aes@, copy@) == Some(total) && tx.says()
                            == seq![
                            ix_view(
                                Call::ApplyPending {
                                    expected_pending_balance_credit_counter:
                                        e.pending_balance_credit_counter,
                                    new_decryptable_available_balance: copy,
                                },
                                metas,
                            ),
                        ];
                    calls_carry_their_arguments(
                        Call::ApplyPending {
                            expected_pending_balance_credit_counter:
                                e.pending_balance_credit_counter,
                            new_decryptable_available_balance: copy,
                        },
                    );
                    assert(tx.says().len() == 1);
                    copy
                },
                _ => arbitrary(),
            }
        } else {
            arbitrary()
        },
        _ => arbitrary(),
    }
}

/// The tag of a proof, and the bytes of its context.
pub open spec fn tag_and_room(kind: ProofKind) -> (u8, u64) {
    match kind {
        ProofKind::PubkeyValidity => (4u8, 65u64),
        ProofKind::CiphertextCommitmentEquality => (3u8, 161u64),
        ProofKind::BatchedGroupedCiphertext3HandlesValidity => (12u8, 385u64),
        ProofKind::BatchedRangeProofU64 => (6u8, 297u64),
        ProofKind::BatchedRangeProofU128 => (7u8, 297u64),
    }
}

/// The step submits the creation of the context `key`, which `key` signs for: it takes the
/// rent from the wallet, has room for its statement, and belongs to the proof program.
pub open spec fn creates(step: Step, owner: Pubkey, key: Pubkey, lamports: u64, room: u64) -> bool {
    step matches Step::Submit(tx, _) && tx.signers@ == seq![key] && tx.instructions@.len() == 1 && ({
        let i = tx.instructions@[0];
        &&& i.program_id == SYSTEM
        &&& i.accounts@ == seq![named(owner, true, true), named(key, true, true)]
        &&& i.data@.len() == 52
        &&& i.data@.take(4) == seq![0u8, 0, 0, 0]
        &&& number(i.data@.subrange(4, 12)) == lamports
        &&& number(i.data@.subrange(12, 20)) == room
        &&& i.data@.skip(20) == ZK_ELGAMAL_PROOF@
    })
}

/// The step submits the verification of a proof into the context `key`.
pub open spec fn proves(step: Step, owner: Pubkey, key: Pubkey, tag: u8, proof: Seq<u8>) -> bool {
    step matches Step::Submit(tx, _) && tx.signers@ == Seq::<Pubkey>::empty()
        && tx.instructions@.len() == 1 && ({
        let i = tx.instructions@[0];
        &&& i.program_id == ZK_ELGAMAL_PROOF
        &&& i.accounts@ == seq![named(key, false, true), named(owner, false, false)]
        &&& i.data@.len() == proof.len() + 1
        &&& i.data@[0] == tag
        &&& i.data@.skip(1) == proof
    })
}

/// Five steps put a proof into a context: a new address, which is told, the rent of the
/// context, its creation, and the verification. These are the steps of proof number `p` where
/// those of the first start at `k`, as far as they go.
pub open spec fn sets_up(
    steps: Seq<Step>,
    replies: Seq<Reply>,
    k: int,
    p: int,
    owner: Pubkey,
    proof: Proof,
) -> bool {
    let at = k + 5 * p;
    let key = replies[at]->Key_0;
    let (tag, room) = tag_and_room(proof.kind);
    &&& steps.len() > at ==> steps[at] is NewKey
    &&& steps.len() > at + 1 ==> (steps[at + 1] matches Step::Tell(Notice::ProofContext(k), _) && k
        == key)
    &&& steps.len() > at + 2 ==> (steps[at + 2] matches Step::ReadRent(len, _) && len == room)
    &&& steps.len() > at + 3 ==> creates(
        steps[at + 3],
        owner,
        key,
        replies[at + 2]->Rent_0->Ok_0,
        room,
    )
    &&& steps.len() > at + 4 ==> proves(steps[at + 4], owner, key, tag, proof.data@)
}

/// The steps from `k` on, as far as they go, put the proofs into contexts, one after the
/// other.
pub open spec fn sets_up_all(
    steps: Seq<Step>,
    replies: Seq<Reply>,
    k: int,
    owner: Pubkey,
    proofs: Seq<Proof>,
) -> bool {
    forall|p: int|
        0 <= p < proofs.len() ==> #[trigger] sets_up(steps, replies, k, p, owner, proofs[p])
}

/// The addresses of the contexts, as they were made from step `k` on.
pub open spec fn made_from(replies: Seq<Reply>, k: int, n: nat) -> Seq<Pubkey> {
    Seq::new(n, |p: int| replies[k + 5 * p]->Key_0)
}

/// The step submits a call of the payments program together with the closing of every
/// context, in their order.
pub open spec fn winds_up(
    step: Step,
    owner: Pubkey,
    accounts: Seq<AccountMeta>,
    call: Call,
    keys: Seq<Pubkey>,
) -> bool {
    step matches Step::Submit(tx, _) && tx.signers@ == Seq::<Pubkey>::empty()
        && tx.instructions@.len() == keys.len() + 1 && calls_for(tx.instructions@[0], accounts, call)
        && forall|p: int|
        0 <= p < keys.len() ==> closes_one(#[trigger] tx.instructions@[p + 1], keys[p], owner)
}

/// No answer from `k` on brings a failure.
pub open spec fn all_good(replies: Seq<Reply>, k: int) -> bool {
    forall|j: int| k <= j < replies.len() ==> good(#[trigger] replies[j])
}

/// Five answers put the next proof into its context.
#[verifier::spinoff_prover]
proof fn five_steps(
    client: Client,
    steps: Seq<Step>,
    replies: Seq<Reply>,
    t: Staging,
    at: int,
) -> (u: Staging)
    requires
        dialogue(client, steps, replies),
        0 <= at,
        at + 5 < steps.len(),
        all_good(replies, at),
        t.contexts@.len() < t.proofs@.len(),
        t.goes_on(steps[at]),
    ensures
        u.owner == t.owner,
        u.proofs == t.proofs,
        u.goal == t.goal,
        u.contexts@ == t.contexts@.push(replies[at]->Key_0),
        u.goes_on(steps[at + 5]),
{
    goes(client, steps, replies, at);
    assert(good(replies[at]));
    let u = match steps[at + 1] {
        Step::Tell(_, AfterTell::Stage(u)) => u,
        _ => t,
    };
    assert(t.keyed(replies[at]->Key_0, steps[at + 1]));
    goes(client, steps, replies, at + 1);
    assert(u.told(steps[at + 2]));
    goes(client, steps, replies, at + 2);
    assert(good(replies[at + 2]));
    assert(u.rented(replies[at + 2]->Rent_0, steps[at + 3]));
    goes(client, steps, replies, at + 3);
    assert(good(replies[at + 3]));
    assert(u.created(replies[at + 3]->Sent_0, steps[at + 4]));
    goes(client, steps, replies, at + 4);
    assert(good(replies[at + 4]));
    u
}

proof fn round(
    client: Client,
    steps: Seq<Step>,
    replies: Seq<Reply>,
    s: Staging,
    k: int,
    p: int,
) -> (t: Staging)
    requires
        dialogue(client, steps, replies),
        0 <= k,
        steps[k] == Step::NewKey(AfterKey::Stage(s)),
        s.contexts@ == Seq::<Pubkey>::empty(),
        s.proofs@.len() > 0,
        all_good(replies, k),
        0 <= p <= s.proofs@.len(),
        k + 5 * p < steps.len(),
    ensures
        t.owner == s.owner,
        t.proofs == s.proofs,
        t.goal == s.goal,
        t.contexts@ == made_from(replies, k, p as nat),
        t.goes_on(steps[k + 5 * p]),
    decreases p,
{
    if p == 0 {
        assert(made_from(replies, k, 0) =~= Seq::<Pubkey>::empty());
        s
    } else {
        let at = k + 5 * (p - 1);
        let t = round(client, steps, replies, s, k, p - 1);
        assert(k + 5 * p == at + 5);
        let u = five_steps(client, steps, replies, t, at);
        assert(u.contexts@ =~= made_from(replies, k, p as nat));
        u
    }
}

/// The step that creates a context, in full.
proof fn creation(u: Staging, lamports: u64, step: Step)
    requires
        u.contexts@.len() > 0,
        u.rented(Ok(lamports), step),
    ensures
        creates(
            step,
            u.owner,
            u.contexts@.last(),
            lamports,
            tag_and_room(u.proofs@[u.current()].kind).1,
        ),
{
    let proof = u.proofs@[u.current()];
    said(step);
    context_calls_say(
        u.owner,
        u.contexts@.last(),
        lamports,
        tag_and_room(proof.kind).1,
        ZK_ELGAMAL_PROOF,
        proof.kind,
        proof.data@,
        u.contexts@.last(),
        u.owner,
    );
}

/// The step that verifies a proof, in full.
proof fn verification(u: Staging, step: Step)
    requires
        u.contexts@.len() > 0,
        u.created(Ok(()), step),
    ensures
        proves(
            step,
            u.owner,
            u.contexts@.last(),
            tag_and_room(u.proofs@[u.current()].kind).0,
            u.proofs@[u.current()].data@,
        ),
{
    let proof = u.proofs@[u.current()];
    said(step);
    context_calls_say(
        u.owner,
        u.contexts@.last(),
        0,
        0,
        ZK_ELGAMAL_PROOF,
        proof.kind,
        proof.data@,
        u.contexts@.last(),
        u.owner,
    );
}

#[verifier::spinoff_prover]
proof fn sets_up_one(
    client: Client,
    steps: Seq<Step>,
    replies: Seq<Reply>,
    t: Staging,
    k: int,
    p: int,
)
    requires
        dialogue(client, steps, replies),
        0 <= k,
        all_good(replies, k),
        0 <= p < t.proofs@.len(),
        k + 5 * p < steps.len(),
        t.contexts@.len() == p,
        t.goes_on(steps[k + 5 * p]),
    ensures
        sets_up(steps, replies, k, p, t.owner, t.proofs@[p]),
{
    let at = k + 5 * p;
    if steps.len() > at + 1 {
        goes(client, steps, replies, at);
        let key = replies[at]->Key_0;
        assert(t.keyed(key, steps[at + 1]));
        let u = match steps[at + 1] {
            Step::Tell(_, AfterTell::Stage(u)) => u,
            _ => t,
        };
        assert(u.current() == p);
        assert(u.contexts@.last() == key);
        if steps.len() > at + 2 {
            goes(client, steps, replies, at + 1);
            assert(u.told(steps[at + 2]));
        }
        if steps.len() > at + 3 {
            goes(client, steps, replies, at + 2);
            assert(good(replies[at + 2]));
            let lamports = replies[at + 2]->Rent_0->Ok_0;
            assert(u.rented(Ok(lamports), steps[at + 3]));
            creation(u, lamports, steps[at + 3]);
        }
        if steps.len() > at + 4 {
            goes(client, steps, replies, at + 3);
            assert(good(replies[at + 3]));
            assert(u.created(Ok(()), steps[at + 4]));
            verification(u, steps[at + 4]);
        }
    }
}

/// What a staging comes to while no answer brings a failure.
proof fn run(
    client: Client,
    steps: Seq<Step>,
    replies: Seq<Reply>,
    s: Staging,
    k: int,
    accounts: Seq<AccountMeta>,
    call: Call,
)
    requires
        dialogue(client, steps, replies),
        0 <= k < steps.len(),
        steps[k] == Step::NewKey(AfterKey::Stage(s)),
        s.wf(),
        s.contexts@ == Seq::<Pubkey>::empty(),
        s.proofs@.len() > 0,
        all_good(replies, k),
        s.goal.call(s.owner, made_from(replies, k, s.proofs@.len())) == ix_view(
            call,
            accounts,
        ),
    ensures
        sets_up_all(steps, replies, k, s.owner, s.proofs@),
        steps.len() > k + 5 * s.proofs@.len() ==> winds_up(
            steps[k + 5 * s.proofs@.len()],
            s.owner,
            accounts,
            call,
            made_from(replies, k, s.proofs@.len()),
        ),
        steps.len() > k + 5 * s.proofs@.len() + 1 ==> match s.goal {
            Goal::Configure { ata, .. } => steps[k + 5 * s.proofs@.len() + 1] == Step::Tell(
                Notice::Configured(ata),
                AfterTell::Finish,
            ),
            _ => steps[k + 5 * s.proofs@.len() + 1] == Step::Done(Ok(())),
        },
{
    let n = s.proofs@.len();
    let keys = made_from(replies, k, n);
    assert forall|p: int| 0 <= p < n implies #[trigger] sets_up(
        steps,
        replies,
        k,
        p,
        s.owner,
        s.proofs@[p],
    ) by {
        if k + 5 * p < steps.len() {
            let t = round(client, steps, replies, s, k, p);
            sets_up_one(client, steps, replies, t, k, p);
        }
    }
    let last = k + 5 * n;
    if steps.len() > last {
        let t = round(client, steps, replies, s, k, n as int);
        said(steps[last]);
        calls_carry_their_arguments(call);
        match steps[last] {
            Step::Submit(tx, _) => {
                assert(tx.says()[0] == s.goal.call(s.owner, keys));
                assert(tx.instructions@[0]@ == tx.says()[0]);
                assert forall|p: int| 0 <= p < keys.len() implies closes_one(
                    #[trigger] tx.instructions@[p + 1],
                    keys[p],
                    s.owner,
                ) by {
                    assert(tx.says()[p + 1] == closings(s.owner, keys)[p]);
                    context_calls_say(
                        s.owner,
                        s.owner,
                        0,
                        0,
                        s.owner,
                        ProofKind::PubkeyValidity,
                        Seq::empty(),
                        keys[p],
                        s.owner,
                    );
                }
            },
            _ => {},
        }
        if steps.len() > last + 1 {
            goes(client, steps, replies, last);
            assert(good(replies[last]));
        }
    }
}

/// A configuration proves the wallet's own key, and then asks for an account that holds zero
/// and takes up to 65,536 credits, on the wallet's own token account; the context is closed in
/// the same transaction, and the account is told.
pub proof fn configuration_goes_through(
    client: Client,
    mint: Pubkey,
    steps: Seq<Step>,
    replies: Seq<Reply>,
    keys: KeysView,
) -> (r: (Proof, [u8; 36]))
    requires
        call_ensures(Client::configure, (&client, mint), steps[0]),
        dialogue(client, steps, replies),
        all_good(replies, 0),
        derived_keys(client.wallet, own_account(client, mint)) == Ok::<KeysView, Seq<char>>(keys),
    ensures
        r.0.kind == ProofKind::PubkeyValidity,
        r.0.data@.len() == 96,
        r.0.data@.subrange(0, 32) == keys.pubkey@,
        aes_plaintext(keys.aes@, r.1@) == Some(0u64),
        replies.len() <= 7,
        sets_up(steps, replies, 0, 0, client.owner, r.0),
        steps.len() > 5 ==> winds_up(
            steps[5],
            client.owner,
            seq![
                named(client.owner, true, true),
                named(client.owner, true, false),
                named(mint, false, false),
                named(own_account(client, mint), false, true),
                named(replies[0]->Key_0, false, false),
                named(TOKEN_2022, false, false),
                named(ASSOCIATED_TOKEN, false, false),
                named(SYSTEM, false, false),
            ],
            Call::ConfigureAccount {
                decryptable_zero_balance: r.1,
                maximum_pending_balance_credit_counter: 65_536,
            },
            seq![replies[0]->Key_0],
        ),
        steps.len() > 6 ==> (steps[6] matches Step::Tell(Notice::Configured(ata), _) && ata
            == own_account(client, mint)),
        steps.len() > 7 ==> steps[7] == Step::Done(Ok(())),
{
    match steps[0] {
        Step::NewKey(AfterKey::Stage(s)) => match s.goal {
            Goal::Configure { zero, .. } => {
                let made = made_from(replies, 0, 1);
                let call = Call::ConfigureAccount {
                    decryptable_zero_balance: zero,
                    maximum_pending_balance_credit_counter: 65_536,
                };
                let accounts = configure_metas(
                    client.owner,
                    mint,
                    own_account(client, mint),
                    made[0],
                );
                assert(made =~= seq![replies[0]->Key_0]);
                run(client, steps, replies, s, 0, accounts, call);
                assert(sets_up(steps, replies, 0, 0, s.owner, s.proofs@[0]));
                if steps.len() > 7 {
                    goes(client, steps, replies, 6);
                }
                if steps.len() > 8 {
                    goes(client, steps, replies, 7);
                }
                (s.proofs@[0], zero)
            },
            _ => arbitrary(),
        },
        _ => arbitrary(),
    }
}

/// The two proofs of a withdrawal: the ciphertext in the first is the account's own balance
/// less the amount, for the account's own key, and holds what is left; the second is about the
/// same commitment.
pub open spec fn proves_withdrawal(
    proofs: Seq<Proof>,
    keys: KeysView,
    e: ConfidentialAccount,
    available: u64,
    amount: u64,
) -> bool {
    let equality = proofs[0].data@;
    let range = proofs[1].data@;
    &&& proofs.len() == 2
    &&& proofs[0].kind == ProofKind::CiphertextCommitmentEquality
    &&& proofs[1].kind == ProofKind::BatchedRangeProofU64
    &&& equality.len() == 320
    &&& range.len() == 936
    &&& equality.subrange(0, 32) == keys.pubkey@
    &&& equality.subrange(32, 96) == ciphertext_less(e.available_balance@, amount)
    &&& encrypts(keys.secret@, equality.subrange(32, 96), (available - amount) as u64)
    &&& range.subrange(0, 32) == equality.subrange(96, 128)
}

/// A withdrawal of what is available goes through, whatever is pending: the account is read,
/// the two proofs are put into contexts, and one transaction asks for the amount, with an AES
/// copy of what is left, and closes the contexts. Only chance can come between.
pub proof fn withdrawal_goes_through(
    client: Client,
    mint: Pubkey,
    amount: u64,
    steps: Seq<Step>,
    replies: Seq<Reply>,
    public: u64,
    e: ConfidentialAccount,
    keys: KeysView,
    available: u64,
) -> (r: (Seq<Proof>, [u8; 36]))
    requires
        call_ensures(Client::withdraw, (&client, mint, amount), steps[0]),
        dialogue(client, steps, replies),
        steps.len() > 1,
        all_good(replies, 0),
        usable(replies[0]->Account_0, public, e),
        derived_keys(client.wallet, own_account(client, mint)) == Ok::<KeysView, Seq<char>>(keys),
        available_of(e, keys) == Ok::<u64, ClientError>(available),
        amount <= available,
        elgamal_ciphertext(e.available_balance@),
        elgamal_holds(keys.secret@, e.available_balance@, available),
    ensures
        steps[0] matches Step::ReadAccount(address, _) && address == own_account(client, mint),
        ({
            ||| steps[1] == Step::Done(Err(ClientError::Proof(ProofFault::InvalidCommitment)))
                && steps.len() == 2
            ||| {
                let made = made_from(replies, 1, 2);
                &&& proves_withdrawal(r.0, keys, e, available, amount)
                &&& aes_plaintext(keys.aes@, r.1@) == Some((available - amount) as u64)
                &&& sets_up_all(steps, replies, 1, client.owner, r.0)
                &&& steps.len() > 11 ==> winds_up(
                    steps[11],
                    client.owner,
                    seq![
                        named(client.owner, true, false),
                        named(mint, false, false),
                        named(own_account(client, mint), false, true),
                        named(made[0], false, false),
                        named(made[1], false, false),
                        named(TOKEN_2022, false, false),
                    ],
                    Call::Withdraw { amount, new_decryptable_available_balance: r.1 },
                    made,
                )
                &&& steps.len() > 12 ==> steps[12] == Step::Done(Ok(()))
                &&& steps.len() <= 13
            }
        }),
{
    goes(client, steps, replies, 0);
    assert(reading(replies[0]->Account_0) == Some((public, e)));
    if steps.len() > 2 {
        goes(client, steps, replies, 1);
    }
    match steps[1] {
        Step::NewKey(AfterKey::Stage(s)) => match s.goal {
            Goal::Withdraw { balance, .. } => {
                assert(s.proofs@.len() == s.proofs@.map_values(|p: Proof| p.kind).len());
                assert(s.proofs@[0].kind == s.proofs@.map_values(|p: Proof| p.kind)[0]);
                assert(s.proofs@[1].kind == s.proofs@.map_values(|p: Proof| p.kind)[1]);
                let made = made_from(replies, 1, 2);
                let call = Call::Withdraw { amount, new_decryptable_available_balance: balance };
                let accounts = withdraw_metas(
                    client.owner,
                    mint,
                    own_account(client, mint),
                    made[0],
                    made[1],
                );
                run(client, steps, replies, s, 1, accounts, call);
                if steps.len() > 13 {
                    goes(client, steps, replies, 12);
                }
                (s.proofs@, balance)
            },
            _ => arbitrary(),
        },
        _ => arbitrary(),
    }
}

/// A withdrawal is refused before anything is sent, each time for the reason that holds:
/// funds that cannot be read or trusted, too little of them, a balance that is no ciphertext,
/// or one that is not what the AES copy says.
pub proof fn withdrawal_is_refused_for_its_reason(
    client: Client,
    mint: Pubkey,
    amount: u64,
    steps: Seq<Step>,
    replies: Seq<Reply>,
    public: u64,
    e: ConfidentialAccount,
    keys: KeysView,
)
    requires
        call_ensures(Client::withdraw, (&client, mint, amount), steps[0]),
        dialogue(client, steps, replies),
        steps.len() > 1,
        usable(replies[0]->Account_0, public, e),
        derived_keys(client.wallet, own_account(client, mint)) == Ok::<KeysView, Seq<char>>(keys),
    ensures
        available_of(e, keys) matches Err(error) ==> steps[1] == Step::Done(Err(error)),
        available_of(e, keys) matches Ok(available) ==> {
            &&& amount > available ==> steps[1] == Step::Done(Err(ClientError::InsufficientFunds))
            &&& amount <= available && !elgamal_ciphertext(e.available_balance@) ==> steps[1]
                == Step::Done(Err(ClientError::InvalidAvailableCiphertext))
            &&& amount <= available && elgamal_ciphertext(e.available_balance@) && !elgamal_holds(
                keys.secret@,
                e.available_balance@,
                available,
            ) ==> steps[1] == Step::Done(Err(ClientError::Proof(ProofFault::InconsistentInput)))
        },
        steps[1] is Done ==> steps.len() == 2,
{
    goes(client, steps, replies, 0);
    assert(reading(replies[0]->Account_0) == Some((public, e)));
    if steps.len() > 2 {
        goes(client, steps, replies, 1);
    }
}

/// The three proofs of a transfer: the ciphertext in the first is the sender's own balance
/// less the two parts of the amount, and holds what is left; the second has these parts for
/// the sender, for the recipient and for no auditor; the third is about the same commitments.
pub open spec fn proves_transfer(
    proofs: Seq<Proof>,
    keys: KeysView,
    e: ConfidentialAccount,
    receiver: ConfidentialAccount,
    available: u64,
    amount: u64,
) -> bool {
    let equality = proofs[0].data@;
    let validity = proofs[1].data@;
    let range = proofs[2].data@;
    let lo = validity.subrange(96, 128) + validity.subrange(128, 160);
    let hi = validity.subrange(224, 256) + validity.subrange(256, 288);
    &&& proofs.len() == 3
    &&& proofs[0].kind == ProofKind::CiphertextCommitmentEquality
    &&& proofs[1].kind == ProofKind::BatchedGroupedCiphertext3HandlesValidity
    &&& proofs[2].kind == ProofKind::BatchedRangeProofU128
    &&& equality.len() == 320
    &&& validity.len() == 544
    &&& range.len() == 1000
    &&& equality.subrange(0, 32) == keys.pubkey@
    &&& equality.subrange(32, 96) == ciphertext_minus(
        e.available_balance@,
        ciphertext_joined(lo, hi),
    )
    &&& encrypts(keys.secret@, equality.subrange(32, 96), (available - amount) as u64)
    &&& validity.subrange(0, 32) == keys.pubkey@
    &&& validity.subrange(32, 64) == receiver.elgamal_pubkey@
    &&& forall|i: int| 64 <= i < 96 ==> validity[i] == 0
    &&& encrypts(keys.secret@, lo, amount % 65536)
    &&& encrypts(keys.secret@, hi, amount / 65536)
    &&& range.subrange(0, 32) == equality.subrange(96, 128)
    &&& range.subrange(32, 64) == validity.subrange(96, 128)
    &&& range.subrange(64, 96) == validity.subrange(224, 256)
}

/// The call that a transfer comes to: the new AES copy is of what is left, and the amount as
/// encrypted for the auditor is the one of the proof.
pub open spec fn transfer_asks_for(
    call: Call,
    proofs: Seq<Proof>,
    keys: KeysView,
    rest: u64,
) -> bool {
    let validity = proofs[1].data@;
    call matches Call::TransferConfidential {
        new_source_decryptable_available_balance,
        transfer_amount_auditor_ciphertext_lo,
        transfer_amount_auditor_ciphertext_hi,
    } && aes_plaintext(keys.aes@, new_source_decryptable_available_balance@) == Some(rest)
        && transfer_amount_auditor_ciphertext_lo@ == validity.subrange(96, 128) + validity.subrange(
        192,
        224,
    ) && transfer_amount_auditor_ciphertext_hi@ == validity.subrange(224, 256) + validity.subrange(
        320,
        352,
    )
}

/// A transfer of what is available goes on, whatever is pending: the sender's account, the
/// recipient's account and the mint are read, in this order.
pub proof fn covered_transfer_reads_on(
    client: Client,
    mint: Pubkey,
    recipient: Pubkey,
    amount: u64,
    steps: Seq<Step>,
    replies: Seq<Reply>,
    public: u64,
    e: ConfidentialAccount,
    theirs: u64,
    receiver: ConfidentialAccount,
    keys: KeysView,
    available: u64,
)
    requires
        call_ensures(Client::transfer, (&client, mint, recipient, amount), steps[0]),
        dialogue(client, steps, replies),
        steps.len() > 1 ==> usable(replies[0]->Account_0, public, e),
        steps.len() > 2 ==> usable(replies[1]->Account_0, theirs, receiver),
        derived_keys(client.wallet, own_account(client, mint)) == Ok::<KeysView, Seq<char>>(keys),
        available_of(e, keys) == Ok::<u64, ClientError>(available),
        amount <= available,
    ensures
        steps[0] matches Step::ReadAccount(address, _) && address == own_account(client, mint),
        steps.len() > 1 ==> (steps[1] matches Step::ReadAccount(address, _) && address
            == associated_token_address(recipient, mint, TOKEN_2022)),
        steps.len() > 2 ==> (steps[2] matches Step::ReadAccount(address, _) && address == mint),
{
    if steps.len() > 1 {
        goes(client, steps, replies, 0);
        assert(reading(replies[0]->Account_0) == Some((public, e)));
    }
    if steps.len() > 2 {
        goes(client, steps, replies, 1);
        assert(reading(replies[1]->Account_0) == Some((theirs, receiver)));
    }
}

/// A transfer of what is available, on a mint without an auditor and to a recipient with a
/// key, goes through, whatever is pending: the three proofs are put into contexts, and one
/// transaction asks for the transfer and closes the contexts. Only chance can come between.
pub proof fn transfer_goes_through(
    client: Client,
    mint: Pubkey,
    recipient: Pubkey,
    amount: u64,
    steps: Seq<Step>,
    replies: Seq<Reply>,
    public: u64,
    e: ConfidentialAccount,
    theirs: u64,
    receiver: ConfidentialAccount,
    keys: KeysView,
    available: u64,
) -> (r: (Seq<Proof>, Call))
    requires
        call_ensures(Client::transfer, (&client, mint, recipient, amount), steps[0]),
        dialogue(client, steps, replies),
        steps.len() > 3,
        all_good(replies, 0),
        usable(replies[0]->Account_0, public, e),
        usable(replies[1]->Account_0, theirs, receiver),
        replies[2]->Account_0 matches Ok(account) && mint_auditor(account.data@) == Ok::<
            [u8; 32],
            Seq<char>,
        >(NO_AUDITOR),
        derived_keys(client.wallet, own_account(client, mint)) == Ok::<KeysView, Seq<char>>(keys),
        available_of(e, keys) == Ok::<u64, ClientError>(available),
        amount <= available,
        elgamal_ciphertext(e.available_balance@),
        elgamal_key(receiver.elgamal_pubkey@),
        elgamal_holds(keys.secret@, e.available_balance@, available),
    ensures
        ({
            ||| steps[3] == Step::Done(Err(ClientError::Proof(ProofFault::InvalidCommitment)))
                && steps.len() == 4
            ||| {
                let made = made_from(replies, 3, 3);
                &&& proves_transfer(r.0, keys, e, receiver, available, amount)
                &&& transfer_asks_for(r.1, r.0, keys, (available - amount) as u64)
                &&& sets_up_all(steps, replies, 3, client.owner, r.0)
                &&& steps.len() > 18 ==> winds_up(
                    steps[18],
                    client.owner,
                    seq![
                        named(client.owner, true, false),
                        named(recipient, false, false),
                        named(mint, false, false),
                        named(own_account(client, mint), false, true),
                        named(associated_token_address(recipient, mint, TOKEN_2022), false, true),
                        named(made[0], false, false),
                        named(made[1], false, false),
                        named(made[2], false, false),
                        named(TOKEN_2022, false, false),
                    ],
                    r.1,
                    made,
                )
                &&& steps.len() > 19 ==> steps[19] == Step::Done(Ok(()))
                &&& steps.len() <= 20
            }
        }),
{
    goes(client, steps, replies, 0);
    assert(reading(replies[0]->Account_0) == Some((public, e)));
    goes(client, steps, replies, 1);
    assert(reading(replies[1]->Account_0) == Some((theirs, receiver)));
    goes(client, steps, replies, 2);
    if steps.len() > 4 {
        goes(client, steps, replies, 3);
    }
    match steps[3] {
        Step::NewKey(AfterKey::Stage(s)) => match s.goal {
            Goal::Transfer { balance, auditor_lo, auditor_hi, .. } => {
                assert(s.proofs@.len() == s.proofs@.map_values(|p: Proof| p.kind).len());
                assert(s.proofs@[0].kind == s.proofs@.map_values(|p: Proof| p.kind)[0]);
                assert(s.proofs@[1].kind == s.proofs@.map_values(|p: Proof| p.kind)[1]);
                assert(s.proofs@[2].kind == s.proofs@.map_values(|p: Proof| p.kind)[2]);
                let validity = s.proofs@[1].data@;
                assert forall|i: int| 64 <= i < 96 implies validity[i] == 0 by {
                    assert(validity.subrange(64, 96)[i - 64] == validity[i]);
                }
                let made = made_from(replies, 3, 3);
                let call = Call::TransferConfidential {
                    new_source_decryptable_available_balance: balance,
                    transfer_amount_auditor_ciphertext_lo: auditor_lo,
                    transfer_amount_auditor_ciphertext_hi: auditor_hi,
                };
                let accounts = transfer_metas(
                    client.owner,
                    recipient,
                    mint,
                    own_account(client, mint),
                    associated_token_address(recipient, mint, TOKEN_2022),
                    made[0],
                    made[1],
                    made[2],
                );
                run(client, steps, replies, s, 3, accounts, call);
                if steps.len() > 20 {
                    goes(client, steps, replies, 19);
                }
                (s.proofs@, call)
            },
            _ => arbitrary(),
        },
        _ => arbitrary(),
    }
}

/// A transfer is refused before anything is sent, each time for the reason that holds: a
/// recipient's account that is not usable, funds that cannot be read or trusted, or too little
/// of them.
pub proof fn uncovered_transfer_is_refused_for_its_reason(
    client: Client,
    mint: Pubkey,
    recipient: Pubkey,
    amount: u64,
    steps: Seq<Step>,
    replies: Seq<Reply>,
    public: u64,
    e: ConfidentialAccount,
    keys: KeysView,
)
    requires
        call_ensures(Client::transfer, (&client, mint, recipient, amount), steps[0]),
        dialogue(client, steps, replies),
        steps.len() > 2,
        usable(replies[0]->Account_0, public, e),
        derived_keys(client.wallet, own_account(client, mint)) == Ok::<KeysView, Seq<char>>(keys),
    ensures
        reading(replies[1]->Account_0) is None ==> turned_away(replies[1]->Account_0, steps[2]),
        reading(replies[1]->Account_0) is Some ==> {
            &&& available_of(e, keys) matches Err(error) ==> steps[2] == Step::Done(Err(error))
            &&& available_of(e, keys) matches Ok(available) ==> (amount > available ==> steps[2]
                == Step::Done(Err(ClientError::InsufficientFunds)))
        },
        steps[2] is Done ==> steps.len() == 3,
{
    goes(client, steps, replies, 0);
    assert(reading(replies[0]->Account_0) == Some((public, e)));
    goes(client, steps, replies, 1);
    if steps.len() > 3 {
        goes(client, steps, replies, 2);
    }
}

/// A transfer that is covered is refused before anything is sent, each time for the reason
/// that holds: a mint that cannot be had or read or has an auditor, a balance that is no
/// ciphertext, a recipient without a key, or a balance that is not what the AES copy says.
pub proof fn covered_transfer_is_refused_for_its_reason(
    client: Client,
    mint: Pubkey,
    recipient: Pubkey,
    amount: u64,
    steps: Seq<Step>,
    replies: Seq<Reply>,
    public: u64,
    e: ConfidentialAccount,
    theirs: u64,
    receiver: ConfidentialAccount,
    keys: KeysView,
    available: u64,
)
    requires
        call_ensures(Client::transfer, (&client, mint, recipient, amount), steps[0]),
        dialogue(client, steps, replies),
        steps.len() > 3,
        usable(replies[0]->Account_0, public, e),
        usable(replies[1]->Account_0, theirs, receiver),
        derived_keys(client.wallet, own_account(client, mint)) == Ok::<KeysView, Seq<char>>(keys),
        available_of(e, keys) == Ok::<u64, ClientError>(available),
        amount <= available,
    ensures
        match replies[2]->Account_0 {
            Err(reason) => steps[3] == Step::Done(Err(ClientError::Rpc(reason))),
            Ok(account) => match mint_auditor(account.data@) {
                Err(reason) => steps[3] matches Step::Done(Err(ClientError::MalformedAccount(m)))
                    && m@ == reason,
                Ok(auditor) => {
                    &&& auditor != NO_AUDITOR ==> steps[3] == Step::Done(
                        Err(ClientError::AuditorUnsupported),
                    )
                    &&& auditor == NO_AUDITOR && !elgamal_ciphertext(e.available_balance@)
                        ==> steps[3] == Step::Done(Err(ClientError::InvalidAvailableCiphertext))
                    &&& auditor == NO_AUDITOR && elgamal_ciphertext(e.available_balance@)
                        && !elgamal_key(receiver.elgamal_pubkey@) ==> (steps[3] matches Step::Done(
                        Err(ClientError::InvalidRecipientKey(m)),
                    ) && m@ == "failed to deserialize public key"@)
                    &&& auditor == NO_AUDITOR && elgamal_ciphertext(e.available_balance@)
                        && elgamal_key(receiver.elgamal_pubkey@) && !elgamal_holds(
                        keys.secret@,
                        e.available_balance@,
                        available,
                    ) ==> steps[3] == Step::Done(
                        Err(ClientError::Proof(ProofFault::InconsistentInput)),
                    )
                },
            },
        },
        steps[3] is Done ==> steps.len() == 4,
{
    goes(client, steps, replies, 0);
    assert(reading(replies[0]->Account_0) == Some((public, e)));
    goes(client, steps, replies, 1);
    assert(reading(replies[1]->Account_0) == Some((theirs, receiver)));
    goes(client, steps, replies, 2);
    if steps.len() > 4 {
        goes(client, steps, replies, 3);
    }
}

/// The addresses that were made before step `i`, in their order.
pub open spec fn made_before(replies: Seq<Reply>, i: int) -> Seq<Pubkey>
    decreases i,
{
    if i <= 0 {
        Seq::empty()
    } else {
        match replies[i - 1] {
            Reply::Key(key) => made_before(replies, i - 1).push(key),
            _ => made_before(replies, i - 1),
        }
    }
}

/// A request that is opened by `step` acts for the client.
pub open spec fn acts_for(client: Client, step: Step) -> bool {
    &&& step.wf()
    &&& step.opens()
    &&& staging_of(step) matches Some(s) ==> s.owner == client.owner && s.contexts@ == Seq::<
        Pubkey,
    >::empty()
}

/// Every request acts for the client that makes it.
pub proof fn requests_act_for_their_client(
    client: Client,
    mint: Pubkey,
    recipient: Pubkey,
    amount: u64,
    step: Step,
)
    requires
        ({
            ||| call_ensures(Client::configure, (&client, mint), step)
            ||| call_ensures(Client::transfer, (&client, mint, recipient, amount), step)
            ||| call_ensures(Client::withdraw, (&client, mint, amount), step)
        }),
    ensures
        acts_for(client, step),
{
}

/// What the request remembers of its contexts is what was made.
spec fn remembers(client: Client, step: Step, made: Seq<Pubkey>) -> bool {
    &&& step.wf()
    &&& staging_of(step) matches Some(s) ==> s.owner == client.owner && s.contexts@ == made
    &&& cleanup_of(step) matches Some(c) ==> c.owner == client.owner && c.contexts@ == made
    &&& step matches Step::ReadAccount(address, k) ==> match k {
        AfterRead::Cleanup(c) => address == made[c.next as int],
        _ => made == Seq::<Pubkey>::empty(),
    }
    &&& step matches Step::Submit(_, AfterSubmit::Applied { .. }) ==> made == Seq::<Pubkey>::empty()
}

proof fn always_remembers(client: Client, steps: Seq<Step>, replies: Seq<Reply>, i: int)
    requires
        dialogue(client, steps, replies),
        acts_for(client, steps[0]),
        0 <= i < steps.len(),
    ensures
        remembers(client, steps[i], made_before(replies, i)),
    decreases i,
{
    if i > 0 {
        always_remembers(client, steps, replies, i - 1);
        goes(client, steps, replies, i - 1);
        stays_well_formed(client, steps[i - 1], replies[i - 1], steps[i]);
    }
}

/// The turn of context number `j`: it is looked at, if there is one; with none left, the
/// request is answered with its error.
pub open spec fn turn_of(step: Step, made: Seq<Pubkey>, j: int, error: ClientError) -> bool {
    if j < made.len() {
        step matches Step::ReadAccount(address, AfterRead::Cleanup(c)) && address == made[j]
            && c.next == j && c.error == error
    } else {
        step == Step::Done(Err(error))
    }
}

/// When something fails while proofs are put into contexts or used, the contexts made so far
/// are looked at, from the first on; with none made, the failure is the answer.
pub proof fn failure_starts_with_the_first_context(
    client: Client,
    steps: Seq<Step>,
    replies: Seq<Reply>,
    i: int,
    reason: String,
)
    requires
        dialogue(client, steps, replies),
        acts_for(client, steps[0]),
        0 <= i < replies.len(),
        staging_of(steps[i]) is Some,
        replies[i] == Reply::Rent(Err(reason)) || replies[i] == Reply::Sent(Err(reason)),
    ensures
        turn_of(steps[i + 1], made_before(replies, i), 0, ClientError::Rpc(reason)),
{
    always_remembers(client, steps, replies, i);
    goes(client, steps, replies, i);
}

/// Cleaning up: a context that is there and belongs to the proof program is closed, that very
/// one, and its rent goes to the wallet; one that is not there is passed over; one that cannot
/// be closed is reported, with the reason; and then it is the turn of the next. The answer
/// stays the first error.
pub proof fn contexts_are_cleaned_up_in_turn(
    client: Client,
    steps: Seq<Step>,
    replies: Seq<Reply>,
    i: int,
    c: Cleanup,
)
    requires
        dialogue(client, steps, replies),
        acts_for(client, steps[0]),
        0 <= i < replies.len(),
        cleanup_of(steps[i]) == Some(c),
    ensures
        0 <= c.next < made_before(replies, i).len(),
        ({
            let made = made_before(replies, i);
            let key = made[c.next as int];
            match replies[i] {
                Reply::Account(found) => {
                    &&& steps[i] matches Step::ReadAccount(address, _) && address == key
                    &&& if found matches Ok(account) && account.owner == ZK_ELGAMAL_PROOF {
                        closes_context(steps[i + 1], key, client.owner) && cleanup_of(steps[i + 1])
                            == Some(c)
                    } else {
                        turn_of(steps[i + 1], made, c.next + 1, c.error)
                    }
                },
                Reply::Sent(Ok(_)) => turn_of(steps[i + 1], made, c.next + 1, c.error),
                Reply::Sent(Err(reason)) => (steps[i + 1] matches Step::Tell(
                    Notice::CloseFailed { context, error },
                    _,
                ) && context == key && error == ClientError::Rpc(reason)) && cleanup_of(
                    steps[i + 1],
                ) == Some(c),
                Reply::Told => turn_of(steps[i + 1], made, c.next + 1, c.error),
                _ => false,
            }
        }),
{
    always_remembers(client, steps, replies, i);
    goes(client, steps, replies, i);
    assert(c.contexts@.len() == c.contexts.len());
    said(steps[i + 1]);
    context_calls_say(
        client.owner,
        client.owner,
        0,
        0,
        client.owner,
        ProofKind::PubkeyValidity,
        Seq::empty(),
        made_before(replies, i)[c.next as int],
        client.owner,
    );
}

} // verus!
