//! What holds of a whole conversation, whatever the network answers.
use vstd::prelude::*;
use crate::address::{Pubkey, ZK_ELGAMAL_PROOF};
use crate::balance::{available_of, reading, remaining_of};
use crate::client::Client;
use crate::error::ClientError;
use crate::keys::derived_keys;
use crate::session::{
    closings, AfterKey, AfterRead, AfterRent, AfterSubmit, AfterTell, Cleanup, Goal, Notice,
    Staging, Step,
};
use crate::state::{mint_auditor, AccountData, NO_AUDITOR};
use crate::system::create_account_call;
use crate::zk::{verify_proof_call, Proof};

verus! {

/// An answer to a step.
pub enum Reply {
    Account(Result<AccountData, String>),
    Rent(Result<u64, String>),
    Key(Pubkey),
    Sent(Result<(), String>),
    Told,
}

/// Whether `next` may follow `step` when it is answered with `reply`.
pub open spec fn follows(client: Client, step: Step, reply: Reply, next: Step) -> bool {
    match (step, reply) {
        (Step::ReadAccount(_, k), Reply::Account(found)) => k.leads_to(client, found, next),
        (Step::ReadRent(_, k), Reply::Rent(rent)) => k.leads_to(rent, next),
        (Step::NewKey(k), Reply::Key(key)) => k.leads_to(key, next),
        (Step::Submit(_, k), Reply::Sent(sent)) => k.leads_to(client, sent, next),
        (Step::Tell(_, k), Reply::Told) => k.leads_to(client, next),
        _ => false,
    }
}

/// A conversation: steps, and the answers between them.
pub open spec fn conversation(client: Client, steps: Seq<Step>, replies: Seq<Reply>) -> bool {
    &&& steps.len() == replies.len() + 1
    &&& steps[0].wf()
    &&& forall|i: int| 0 <= i < replies.len() ==> follows(
        client,
        steps[i],
        #[trigger] replies[i],
        steps[i + 1],
    )
}

/// The number of proofs is the number of kinds.
proof fn proofs_are_kinds(s: Staging)
    requires
        s.wf(),
    ensures
        s.proofs@.len() == s.goal.kinds().len(),
        s.goal.kinds().len() == s.goal.proofs(),
{
    assert(s.proofs@.len() == s.proofs@.map_values(|p: Proof| p.kind).len());
}

/// What a conversation remembers stays well-formed.
pub proof fn stays_well_formed(client: Client, step: Step, reply: Reply, next: Step)
    requires
        step.wf(),
        follows(client, step, reply, next),
    ensures
        next.wf(),
{
    if let Step::NewKey(AfterKey::Stage(s)) = next {
        assert(s.proofs@.len() == s.proofs@.map_values(|p: Proof| p.kind).len());
    }
}

/// How many steps a conversation can have left.
pub open spec fn steps_left(step: Step) -> nat {
    match step {
        Step::Done(_) => 0,
        Step::ReadAccount(_, k) => match k {
            AfterRead::Balance { .. } => 3,
            AfterRead::ApplyPending { .. } => 3,
            AfterRead::Applied { .. } => 1,
            AfterRead::Source { .. } => 29,
            AfterRead::Destination { .. } => 28,
            AfterRead::Mint { .. } => 27,
            AfterRead::Withdraw { .. } => 19,
            AfterRead::Cleanup(c) => (3 * (c.contexts@.len() - c.next)) as nat,
        },
        Step::ReadRent(_, k) => match k {
            AfterRent::Stage(s) => (8 * s.proofs@.len() - 5 * s.contexts@.len() + 5) as nat,
        },
        Step::NewKey(k) => match k {
            AfterKey::Mint { .. } => 3,
            AfterKey::Stage(s) => (8 * s.proofs@.len() - 5 * s.contexts@.len() + 2) as nat,
        },
        Step::Submit(_, k) => match k {
            AfterSubmit::Finish => 1,
            AfterSubmit::Applied { .. } => 2,
            AfterSubmit::Close { contexts, next } => (contexts@.len() - next + 1) as nat,
            AfterSubmit::Created(s) => (8 * s.proofs@.len() - 5 * s.contexts@.len() + 4) as nat,
            AfterSubmit::Verified(s) => (8 * s.proofs@.len() - 5 * s.contexts@.len() + 3) as nat,
            AfterSubmit::Finished(s) => (3 * s.proofs@.len() + 2) as nat,
            AfterSubmit::Cleanup(c) => (3 * (c.contexts@.len() - c.next) - 1) as nat,
        },
        Step::Tell(_, k) => match k {
            AfterTell::Finish => 1,
            AfterTell::Mint { .. } => 2,
            AfterTell::Balance { .. } => 2,
            AfterTell::Stage(s) => (8 * s.proofs@.len() - 5 * s.contexts@.len() + 6) as nat,
            AfterTell::Cleanup(c) => (3 * (c.contexts@.len() - c.next) - 2) as nat,
        },
    }
}

/// Each answer brings a conversation nearer to its end.
pub proof fn comes_nearer_to_its_end(client: Client, step: Step, reply: Reply, next: Step)
    requires
        step.wf(),
        follows(client, step, reply, next),
    ensures
        steps_left(next) < steps_left(step),
{
    stays_well_formed(client, step, reply, next);
    if let Step::NewKey(AfterKey::Stage(s)) = next {
        proofs_are_kinds(s);
    }
    match step {
        Step::Submit(_, AfterSubmit::Close { contexts, .. }) => {
            assert(contexts@.len() == contexts.len());
        },
        Step::Submit(_, AfterSubmit::Cleanup(c)) => {
            assert(c.contexts@.len() == c.contexts.len());
        },
        Step::ReadAccount(_, AfterRead::Cleanup(c)) => {
            assert(c.contexts@.len() == c.contexts.len());
        },
        Step::Tell(_, AfterTell::Cleanup(c)) => {
            assert(c.contexts@.len() == c.contexts.len());
        },
        _ => {},
    }
}

/// Every step of a conversation is well-formed.
proof fn all_well_formed(client: Client, steps: Seq<Step>, replies: Seq<Reply>, i: int)
    requires
        conversation(client, steps, replies),
        0 <= i < steps.len(),
    ensures
        steps[i].wf(),
    decreases i,
{
    if i > 0 {
        all_well_formed(client, steps, replies, i - 1);
        assert(follows(client, steps[i - 1], replies[i - 1], steps[i]));
        stays_well_formed(client, steps[i - 1], replies[i - 1], steps[i]);
    }
}

/// No conversation goes on forever: the first step bounds the number of answers.
pub proof fn every_conversation_ends(client: Client, steps: Seq<Step>, replies: Seq<Reply>)
    requires
        conversation(client, steps, replies),
    ensures
        replies.len() <= steps_left(steps[0]),
{
    counts_down(client, steps, replies, replies.len() as int);
}

proof fn counts_down(client: Client, steps: Seq<Step>, replies: Seq<Reply>, i: int)
    requires
        conversation(client, steps, replies),
        0 <= i < steps.len(),
    ensures
        steps_left(steps[i]) + i <= steps_left(steps[0]),
    decreases i,
{
    if i > 0 {
        counts_down(client, steps, replies, i - 1);
        all_well_formed(client, steps, replies, i - 1);
        assert(follows(client, steps[i - 1], replies[i - 1], steps[i]));
        comes_nearer_to_its_end(client, steps[i - 1], replies[i - 1], steps[i]);
    }
}

/// An answer that brings no failure.
pub open spec fn good(reply: Reply) -> bool {
    match reply {
        Reply::Account(found) => found is Ok,
        Reply::Rent(rent) => rent is Ok,
        Reply::Key(_) => true,
        Reply::Sent(sent) => sent is Ok,
        Reply::Told => true,
    }
}

/// The addresses that the keys of a staging got: every fifth answer is a key.
pub open spec fn staged_keys(replies: Seq<Reply>, n: nat) -> Seq<Pubkey> {
    Seq::new(n, |i: int| replies[5 * i]->Key_0)
}

/// The five steps that stage proof number `i` of `s`, the first of them at `at`: a new
/// address, its announcement, the rent, the creation of the account, which that address
/// signs for, and the verification of the proof.
pub open spec fn stages(s: Staging, i: int, steps: Seq<Step>, replies: Seq<Reply>, at: int) -> bool {
    let key = replies[at]->Key_0;
    let proof = s.proofs@[i];
    &&& steps[at] is NewKey
    &&& steps[at + 1] matches Step::Tell(Notice::ProofContext(k), _) && k == key
    &&& steps[at + 2] matches Step::ReadRent(len, _) && len == proof.kind.context_len()
    &&& steps[at + 3] matches Step::Submit(tx, _) && tx.signers@ == seq![key] && tx.says() == seq![
        create_account_call(
            s.owner,
            key,
            replies[at + 2]->Rent_0->Ok_0,
            proof.kind.context_len(),
            ZK_ELGAMAL_PROOF,
        ),
    ]
    &&& steps[at + 4] matches Step::Submit(tx, _) && tx.signers@ == Seq::<Pubkey>::empty()
        && tx.says() == seq![verify_proof_call(proof.kind, proof.data@, key, s.owner)]
}

/// What a staging knows once `i` proofs are staged.
spec fn staged_so_far(s: Staging, t: Staging, keys: Seq<Pubkey>, i: int) -> bool {
    t.owner == s.owner && t.proofs == s.proofs && t.goal == s.goal && t.contexts@ == keys.take(i)
}

proof fn one_round(
    client: Client,
    steps: Seq<Step>,
    replies: Seq<Reply>,
    s: Staging,
    t: Staging,
    n: nat,
    i: int,
) -> (u: Staging)
    requires
        conversation(client, steps, replies),
        s.wf(),
        n == s.proofs@.len(),
        replies.len() >= 5 * n + 1,
        forall|j: int| 0 <= j < 5 * n ==> good(#[trigger] replies[j]),
        0 <= i < n,
        steps[5 * i] == Step::NewKey(AfterKey::Stage(t)),
        staged_so_far(s, t, staged_keys(replies, n), i),
    ensures
        stages(s, i, steps, replies, 5 * i),
        staged_so_far(s, u, staged_keys(replies, n), i + 1),
        u.goes_on(steps[5 * (i + 1)]),
{
    let at = 5 * i;
    let keys = staged_keys(replies, n);
    let key = replies[at]->Key_0;
    assert(keys[i] == key);
    assert(keys.take(i).push(key) =~= keys.take(i + 1));
    assert(good(replies[at]) && good(replies[at + 1]) && good(replies[at + 2]) && good(
        replies[at + 3],
    ) && good(replies[at + 4]));
    assert(follows(client, steps[at], replies[at], steps[at + 1]));
    assert(t.keyed(key, steps[at + 1]));
    let u = match steps[at + 1] {
        Step::Tell(_, AfterTell::Stage(u)) => u,
        _ => t,
    };
    assert(u.contexts@.last() == key);
    assert(u.current() == i);
    assert(follows(client, steps[at + 1], replies[at + 1], steps[at + 2]));
    assert(u.told(steps[at + 2]));
    assert(follows(client, steps[at + 2], replies[at + 2], steps[at + 3]));
    assert(u.rented(replies[at + 2]->Rent_0, steps[at + 3]));
    assert(follows(client, steps[at + 3], replies[at + 3], steps[at + 4]));
    assert(follows(client, steps[at + 4], replies[at + 4], steps[at + 5]));
    assert(5 * (i + 1) == at + 5);
    u
}

proof fn rounds(
    client: Client,
    steps: Seq<Step>,
    replies: Seq<Reply>,
    s: Staging,
    n: nat,
    i: int,
) -> (u: Staging)
    requires
        conversation(client, steps, replies),
        s.wf(),
        s.contexts@ == Seq::<Pubkey>::empty(),
        n == s.proofs@.len(),
        n > 0,
        replies.len() >= 5 * n + 1,
        forall|j: int| 0 <= j < 5 * n ==> good(#[trigger] replies[j]),
        steps[0] == Step::NewKey(AfterKey::Stage(s)),
        0 <= i <= n,
    ensures
        staged_so_far(s, u, staged_keys(replies, n), i),
        u.goes_on(steps[5 * i]),
        forall|j: int| 0 <= j < i ==> #[trigger] stages(s, j, steps, replies, 5 * j),
    decreases i,
{
    if i == 0 {
        assert(staged_keys(replies, n).take(0) =~= Seq::<Pubkey>::empty());
        s
    } else {
        let t = rounds(client, steps, replies, s, n, i - 1);
        one_round(client, steps, replies, s, t, n, i - 1)
    }
}

/// Where every answer is good, the proofs are staged one after the other, each by the five
/// steps of `stages`. One last transaction then holds what they are for, with the proofs in
/// the contexts that were just made, and closes every one of these contexts, in their order.
/// It is the only other transaction, and when it is confirmed the request has succeeded.
pub proof fn staging_succeeds(client: Client, steps: Seq<Step>, replies: Seq<Reply>, s: Staging)
    requires
        conversation(client, steps, replies),
        steps[0] == Step::NewKey(AfterKey::Stage(s)),
        s.contexts@ == Seq::<Pubkey>::empty(),
        replies.len() == 5 * s.proofs@.len() + 1,
        forall|j: int| 0 <= j < replies.len() ==> good(#[trigger] replies[j]),
    ensures
        forall|i: int|
            0 <= i < s.proofs@.len() ==> #[trigger] stages(s, i, steps, replies, 5 * i),
        ({
            let n = s.proofs@.len();
            let keys = staged_keys(replies, n);
            &&& steps[5 * n as int] matches Step::Submit(tx, _) && tx.signers@
                == Seq::<Pubkey>::empty() && tx.says() == seq![s.goal.call(s.owner, keys)]
                + closings(s.owner, keys)
            &&& match s.goal {
                Goal::Configure { ata, .. } => steps.last() == Step::Tell(
                    Notice::Configured(ata),
                    AfterTell::Finish,
                ),
                _ => steps.last() == Step::Done(Ok(())),
            }
        }),
{
    let n = s.proofs@.len();
    proofs_are_kinds(s);
    let u = rounds(client, steps, replies, s, n, n as int);
    assert(staged_keys(replies, n).take(n as int) =~= staged_keys(replies, n));
    assert(good(replies[5 * n as int]));
    assert(follows(client, steps[5 * n as int], replies[5 * n as int], steps[5 * n as int + 1]));
}

/// The account that a transaction creates, which stands second in it.
pub open spec fn created_account(step: Step) -> Pubkey {
    match step {
        Step::Submit(tx, _) => tx.says()[0].accounts[1].pubkey,
        _ => arbitrary(),
    }
}

/// Before a context account is created its address was told, two steps earlier: should the
/// rest be interrupted, the user can still close it.
pub proof fn told_before_created(client: Client, steps: Seq<Step>, replies: Seq<Reply>, j: int)
    requires
        conversation(client, steps, replies),
        steps[0].opens(),
        0 <= j < steps.len(),
        steps[j] matches Step::Submit(_, AfterSubmit::Created(_)),
    ensures
        j >= 2,
        steps[j - 2] matches Step::Tell(Notice::ProofContext(key), _) && key == created_account(
            steps[j],
        ),
{
    let t = match steps[j] {
        Step::Submit(_, AfterSubmit::Created(t)) => t,
        _ => arbitrary(),
    };
    assert(follows(client, steps[j - 1], replies[j - 1], steps[j]));
    assert(steps[j - 1] matches Step::ReadRent(_, AfterRent::Stage(u)) && u == t);
    assert(follows(client, steps[j - 2], replies[j - 2], steps[j - 1]));
    assert(steps[j - 2] matches Step::Tell(_, AfterTell::Stage(u)) && u == t);
    assert(follows(client, steps[j - 3], replies[j - 3], steps[j - 2]));
    assert(steps[j - 3] is NewKey);
}

/// The staging that a step belongs to, if it does.
pub open spec fn staging_of(step: Step) -> Option<Staging> {
    match step {
        Step::NewKey(AfterKey::Stage(s)) => Some(s),
        Step::Tell(_, AfterTell::Stage(s)) => Some(s),
        Step::ReadRent(_, AfterRent::Stage(s)) => Some(s),
        Step::Submit(_, AfterSubmit::Created(s)) => Some(s),
        Step::Submit(_, AfterSubmit::Verified(s)) => Some(s),
        Step::Submit(_, AfterSubmit::Finished(s)) => Some(s),
        _ => None,
    }
}

/// The cleanup that a step belongs to, if it does.
pub open spec fn cleanup_of(step: Step) -> Option<Cleanup> {
    match step {
        Step::ReadAccount(_, AfterRead::Cleanup(c)) => Some(c),
        Step::Submit(_, AfterSubmit::Cleanup(c)) => Some(c),
        Step::Tell(_, AfterTell::Cleanup(c)) => Some(c),
        _ => None,
    }
}

/// The request has succeeded.
pub open spec fn succeeded(step: Step) -> bool {
    step == Step::Done(Ok(())) || (step matches Step::Tell(_, AfterTell::Finish))
}

/// The context `key`, number `p`, is known and was not looked at yet.
spec fn to_be_visited(step: Step, p: int, key: Pubkey) -> bool {
    match (staging_of(step), cleanup_of(step)) {
        (Some(s), _) => 0 <= p < s.contexts@.len() && s.contexts@[p] == key,
        (None, Some(c)) => {
            &&& 0 <= p < c.contexts@.len()
            &&& c.contexts@[p] == key
            &&& match step {
                Step::ReadAccount(address, _) => c.next <= p && address == c.contexts@[c.next as int],
                _ => c.next < p,
            }
        },
        (None, None) => false,
    }
}

proof fn visit_comes_nearer(
    client: Client,
    step: Step,
    reply: Reply,
    next: Step,
    p: int,
    key: Pubkey,
)
    requires
        step.wf(),
        follows(client, step, reply, next),
        to_be_visited(step, p, key) || succeeded(step),
    ensures
        (step matches Step::ReadAccount(k, AfterRead::Cleanup(_)) && k == key) || to_be_visited(
            next,
            p,
            key,
        ) || succeeded(next),
{
    if let Some(c) = cleanup_of(step) {
        assert(c.contexts@.len() == c.contexts.len());
    }
}

proof fn visited(
    client: Client,
    steps: Seq<Step>,
    replies: Seq<Reply>,
    j: int,
    p: int,
    key: Pubkey,
) -> (i: int)
    requires
        conversation(client, steps, replies),
        steps.last() matches Step::Done(Err(_)),
        0 <= j < steps.len(),
        to_be_visited(steps[j], p, key) || succeeded(steps[j]),
    ensures
        j <= i < steps.len(),
        steps[i] matches Step::ReadAccount(k, AfterRead::Cleanup(_)) && k == key,
    decreases steps.len() - j,
{
    all_well_formed(client, steps, replies, j);
    if steps[j] matches Step::ReadAccount(k, AfterRead::Cleanup(_)) && k == key {
        j
    } else if j == steps.len() - 1 {
        j
    } else {
        assert(follows(client, steps[j], replies[j], steps[j + 1]));
        visit_comes_nearer(client, steps[j], replies[j], steps[j + 1], p, key);
        visited(client, steps, replies, j + 1, p, key)
    }
}

/// A request that fails leaves no context behind unseen: each account that it tried to
/// create is looked at afterwards, and closed if it is there.
pub proof fn failure_visits_every_context(
    client: Client,
    steps: Seq<Step>,
    replies: Seq<Reply>,
    j: int,
) -> (i: int)
    requires
        conversation(client, steps, replies),
        steps.last() matches Step::Done(Err(_)),
        0 <= j < steps.len(),
        steps[j] matches Step::Submit(_, AfterSubmit::Created(_)),
        steps[0].opens(),
    ensures
        j < i < steps.len() - 1,
        steps[i] matches Step::ReadAccount(key, AfterRead::Cleanup(c)) && key == created_account(
            steps[j],
        ) && c.looked(replies[i]->Account_0, steps[i + 1]),
{
    let t = match steps[j] {
        Step::Submit(_, AfterSubmit::Created(t)) => t,
        _ => arbitrary(),
    };
    all_well_formed(client, steps, replies, j);
    told_before_created(client, steps, replies, j);
    assert(follows(client, steps[j - 1], replies[j - 1], steps[j]));
    let i = visited(client, steps, replies, j, t.current(), t.contexts@.last());
    assert(follows(client, steps[i], replies[i], steps[i + 1]));
    i
}

/// Once a request has failed, nothing that cleaning up brings changes its answer: it is the
/// first error.
pub proof fn failure_is_final(
    client: Client,
    steps: Seq<Step>,
    replies: Seq<Reply>,
    i: int,
    j: int,
)
    requires
        conversation(client, steps, replies),
        0 <= i <= j < steps.len(),
        cleanup_of(steps[i]) is Some,
    ensures
        ({
            let error = cleanup_of(steps[i])->0.error;
            ||| steps[j] == Step::Done(Err(error))
            ||| cleanup_of(steps[j]) matches Some(c) && c.error == error
        }),
    decreases j - i,
{
    if i < j {
        failure_is_final(client, steps, replies, i, j - 1);
        assert(follows(client, steps[j - 1], replies[j - 1], steps[j]));
    }
}

/// A staging fails for one reason only: something that it asked of the network failed, and
/// that is the error.
pub proof fn failure_is_an_answer(client: Client, step: Step, reply: Reply, next: Step)
    requires
        step.wf(),
        follows(client, step, reply, next),
        staging_of(step) is Some,
        staging_of(next) is None,
        !succeeded(next),
    ensures
        cleanup_of(next) matches Some(c) && c.contexts == staging_of(step)->0.contexts && c.next == 0
            && match reply {
            Reply::Rent(Err(reason)) => c.error == ClientError::Rpc(reason),
            Reply::Sent(Err(reason)) => c.error == ClientError::Rpc(reason),
            _ => false,
        },
{
    proofs_are_kinds(staging_of(step)->0);
}

/// A staging succeeds only when its last transaction, with what the proofs are for, was
/// confirmed.
pub proof fn success_is_confirmed(client: Client, step: Step, reply: Reply, next: Step)
    requires
        step.wf(),
        follows(client, step, reply, next),
        staging_of(step) is Some,
        succeeded(next),
    ensures
        step matches Step::Submit(_, AfterSubmit::Finished(_)),
        reply matches Reply::Sent(Ok(_)),
{
}

/// The last transaction of a staging: what the proofs are for, and the closing of every
/// context.
pub open spec fn finishes(step: Step) -> bool {
    step matches Step::Submit(tx, AfterSubmit::Finished(s)) && tx.signers@ == Seq::<Pubkey>::empty()
        && s.contexts@.len() == s.proofs@.len() && tx.says() == seq![
        s.goal.call(s.owner, s.contexts@),
    ] + closings(s.owner, s.contexts@)
}

/// A request that stages proofs is answered with success only if its last transaction, in
/// full, was confirmed.
pub proof fn success_was_confirmed(
    client: Client,
    steps: Seq<Step>,
    replies: Seq<Reply>,
    k: int,
) -> (i: int)
    requires
        conversation(client, steps, replies),
        steps.last() == Step::Done(Ok(())),
        0 <= k < steps.len(),
        staging_of(steps[k]) is Some,
        steps[k] matches Step::Submit(_, AfterSubmit::Finished(_)) ==> finishes(steps[k]),
    ensures
        k <= i < replies.len(),
        finishes(steps[i]),
        replies[i] matches Reply::Sent(Ok(_)),
        staging_of(steps[i]) matches Some(s) && s.owner == staging_of(steps[k])->0.owner && s.proofs
            == staging_of(steps[k])->0.proofs && s.goal == staging_of(steps[k])->0.goal,
    decreases steps.len() - k,
{
    all_well_formed(client, steps, replies, k);
    assert(follows(client, steps[k], replies[k], steps[k + 1]));
    if succeeded(steps[k + 1]) {
        success_is_confirmed(client, steps[k], replies[k], steps[k + 1]);
        k
    } else if staging_of(steps[k + 1]) is None {
        failure_is_an_answer(client, steps[k], replies[k], steps[k + 1]);
        failure_is_final(client, steps, replies, k + 1, steps.len() - 1);
        k
    } else {
        success_was_confirmed(client, steps, replies, k + 1)
    }
}

/// The step submits the verification of `proof` into the context `key`.
pub open spec fn verifies(step: Step, owner: Pubkey, proof: Proof, key: Pubkey) -> bool {
    step matches Step::Submit(tx, _) && tx.says() == seq![
        verify_proof_call(proof.kind, proof.data@, key, owner),
    ]
}

/// The conversation had the verification of `proof` into the context `key` confirmed.
pub open spec fn recorded(
    steps: Seq<Step>,
    replies: Seq<Reply>,
    owner: Pubkey,
    proof: Proof,
    key: Pubkey,
) -> bool {
    exists|j: int|
        0 <= j < replies.len() && (replies[j] matches Reply::Sent(Ok(_))) && #[trigger] verifies(
            steps[j],
            owner,
            proof,
            key,
        )
}

/// How many contexts of a staging have their proof in them.
spec fn settled(step: Step) -> int {
    let known = staging_of(step)->0.contexts@.len();
    match step {
        Step::NewKey(_) => known as int,
        Step::Submit(_, AfterSubmit::Finished(_)) => known as int,
        _ => known - 1,
    }
}

/// The contexts that are settled have their proof in them, and a verification that is being
/// submitted is the one of the last proof.
spec fn on_record(steps: Seq<Step>, replies: Seq<Reply>, k: int) -> bool {
    let s = staging_of(steps[k])->0;
    &&& forall|p: int|
        0 <= p < settled(steps[k]) ==> recorded(
            steps,
            replies,
            s.owner,
            #[trigger] s.proofs@[p],
            s.contexts@[p],
        )
    &&& steps[k] matches Step::Submit(_, AfterSubmit::Verified(_)) ==> verifies(
        steps[k],
        s.owner,
        s.proofs@[s.current()],
        s.contexts@.last(),
    )
    &&& steps[k] matches Step::Submit(_, AfterSubmit::Finished(_)) ==> finishes(steps[k])
}

proof fn stays_on_record(client: Client, steps: Seq<Step>, replies: Seq<Reply>, k: int)
    requires
        conversation(client, steps, replies),
        0 <= k < replies.len(),
        staging_of(steps[k]) is Some,
        staging_of(steps[k + 1]) is Some,
        on_record(steps, replies, k),
    ensures
        on_record(steps, replies, k + 1),
        staging_of(steps[k + 1])->0.owner == staging_of(steps[k])->0.owner,
        staging_of(steps[k + 1])->0.proofs == staging_of(steps[k])->0.proofs,
        staging_of(steps[k + 1])->0.goal == staging_of(steps[k])->0.goal,
{
    all_well_formed(client, steps, replies, k);
    all_well_formed(client, steps, replies, k + 1);
    assert(follows(client, steps[k], replies[k], steps[k + 1]));
    let s = staging_of(steps[k])->0;
    let t = staging_of(steps[k + 1])->0;
    proofs_are_kinds(s);
    assert forall|p: int| 0 <= p < settled(steps[k + 1]) implies recorded(
        steps,
        replies,
        t.owner,
        #[trigger] t.proofs@[p],
        t.contexts@[p],
    ) by {
        if p < settled(steps[k]) {
            assert(recorded(steps, replies, s.owner, s.proofs@[p], s.contexts@[p]));
        } else {
            assert(verifies(steps[k], t.owner, t.proofs@[p], t.contexts@[p]));
        }
    }
}

proof fn reaches_the_end(client: Client, steps: Seq<Step>, replies: Seq<Reply>, k: int) -> (i: int)
    requires
        conversation(client, steps, replies),
        steps.last() == Step::Done(Ok(())),
        0 <= k < steps.len(),
        staging_of(steps[k]) is Some,
        on_record(steps, replies, k),
    ensures
        k <= i < replies.len(),
        finishes(steps[i]),
        replies[i] matches Reply::Sent(Ok(_)),
        on_record(steps, replies, i),
        staging_of(steps[i])->0.owner == staging_of(steps[k])->0.owner,
        staging_of(steps[i])->0.proofs == staging_of(steps[k])->0.proofs,
        staging_of(steps[i])->0.goal == staging_of(steps[k])->0.goal,
    decreases steps.len() - k,
{
    all_well_formed(client, steps, replies, k);
    assert(follows(client, steps[k], replies[k], steps[k + 1]));
    if succeeded(steps[k + 1]) {
        success_is_confirmed(client, steps[k], replies[k], steps[k + 1]);
        k
    } else if staging_of(steps[k + 1]) is None {
        failure_is_an_answer(client, steps[k], replies[k], steps[k + 1]);
        failure_is_final(client, steps, replies, k + 1, steps.len() - 1);
        k
    } else {
        stays_on_record(client, steps, replies, k);
        reaches_the_end(client, steps, replies, k + 1)
    }
}

/// A request that stages proofs is answered with success only if every proof was verified
/// into its own context, and then the last transaction, in full, was confirmed.
pub proof fn success_was_proved(
    client: Client,
    steps: Seq<Step>,
    replies: Seq<Reply>,
    s: Staging,
    k: int,
) -> (i: int)
    requires
        conversation(client, steps, replies),
        steps.last() == Step::Done(Ok(())),
        0 <= k < steps.len(),
        steps[k] == Step::NewKey(AfterKey::Stage(s)),
        s.contexts@ == Seq::<Pubkey>::empty(),
    ensures
        k <= i < replies.len(),
        finishes(steps[i]),
        replies[i] matches Reply::Sent(Ok(_)),
        steps[i] matches Step::Submit(_, AfterSubmit::Finished(t)) && t.owner == s.owner && t.proofs
            == s.proofs && t.goal == s.goal && (forall|p: int|
            0 <= p < s.proofs@.len() ==> recorded(
                steps,
                replies,
                s.owner,
                #[trigger] s.proofs@[p],
                t.contexts@[p],
            )),
{
    reaches_the_end(client, steps, replies, k)
}

/// What a transfer sends rests on what was read: both token accounts, with the amount
/// available to the sender, and a mint without an auditor. Whatever is sent stages, or uses,
/// proofs of just this transfer; if anything is amiss, nothing is sent at all.
pub proof fn transfer_sends_what_was_asked(
    client: Client,
    steps: Seq<Step>,
    replies: Seq<Reply>,
    mint: Pubkey,
    recipient: Pubkey,
    amount: u64,
    j: int,
)
    requires
        conversation(client, steps, replies),
        steps[0] == Step::ReadAccount(
            Client::ata_of(client.owner, mint),
            AfterRead::Source { mint, recipient, amount },
        ),
        0 <= j < steps.len(),
        steps[j] is Submit,
    ensures
        j > 3,
        steps[1] matches Step::ReadAccount(address, _) && address == Client::ata_of(recipient, mint),
        steps[2] matches Step::ReadAccount(address, _) && address == mint,
        ({
            &&& reading(replies[0]->Account_0) matches Some((_, e))
            &&& reading(replies[1]->Account_0) matches Some((_, receiver))
            &&& replies[2]->Account_0 matches Ok(account)
            &&& mint_auditor(account.data@) == Ok::<[u8; 32], Seq<char>>(NO_AUDITOR)
            &&& derived_keys(client.wallet, Client::ata_of(client.owner, mint)) matches Ok(keys)
            &&& remaining_of(e, keys, amount) matches Ok(remaining)
            &&& steps[3] matches Step::NewKey(AfterKey::Stage(s))
            &&& client.stages_transfer(mint, recipient, amount, e, receiver, remaining, keys, s)
        }),
{
    assert(follows(client, steps[0], replies[0], steps[1]));
    assert(steps[1] is ReadAccount) by {
        if steps[1] is Done {
            assert(j > 1 ==> follows(client, steps[1], replies[1], steps[2]));
        }
    }
    assert(follows(client, steps[1], replies[1], steps[2]));
    assert(steps[2] is ReadAccount) by {
        if steps[2] is Done {
            assert(j > 2 ==> follows(client, steps[2], replies[2], steps[3]));
        }
    }
    assert(follows(client, steps[2], replies[2], steps[3]));
    assert(steps[3] is NewKey) by {
        if steps[3] is Done {
            assert(j > 3 ==> follows(client, steps[3], replies[3], steps[4]));
        }
    }
}

/// What a withdrawal sends rests on what was read: the token account, with the amount
/// available. Whatever is sent stages, or uses, proofs of just this withdrawal; if anything
/// is amiss, nothing is sent at all.
pub proof fn withdraw_sends_what_was_asked(
    client: Client,
    steps: Seq<Step>,
    replies: Seq<Reply>,
    mint: Pubkey,
    ata: Pubkey,
    amount: u64,
    j: int,
)
    requires
        conversation(client, steps, replies),
        steps[0] == Step::ReadAccount(ata, AfterRead::Withdraw { mint, ata, amount }),
        0 <= j < steps.len(),
        steps[j] is Submit,
    ensures
        j > 1,
        ({
            &&& reading(replies[0]->Account_0) matches Some((_, e))
            &&& derived_keys(client.wallet, ata) matches Ok(keys)
            &&& remaining_of(e, keys, amount) matches Ok(remaining)
            &&& steps[1] matches Step::NewKey(AfterKey::Stage(s))
            &&& client.stages_withdraw(mint, ata, amount, e, remaining, keys, s)
        }),
{
    assert(follows(client, steps[0], replies[0], steps[1]));
    assert(steps[1] is NewKey) by {
        if steps[1] is Done {
            assert(j > 1 ==> follows(client, steps[1], replies[1], steps[2]));
        }
    }
}

/// Applying pending is answered with success only if the account, read once more, bears an
/// AES copy that can be trusted.
pub proof fn applied_means_fresh(
    client: Client,
    steps: Seq<Step>,
    replies: Seq<Reply>,
    mint: Pubkey,
    ata: Pubkey,
)
    requires
        conversation(client, steps, replies),
        steps[0] == Step::ReadAccount(ata, AfterRead::ApplyPending { mint, ata }),
        steps.last() == Step::Done(Ok(())),
    ensures
        replies.len() == 3,
        replies[1] matches Reply::Sent(Ok(_)),
        steps[2] matches Step::ReadAccount(address, _) && address == ata,
        ({
            &&& derived_keys(client.wallet, ata) matches Ok(keys)
            &&& reading(replies[2]->Account_0) matches Some((_, e))
            &&& available_of(e, keys) is Ok
        }),
{
    assert(follows(client, steps[0], replies[0], steps[1]));
    if steps.len() > 2 {
        assert(follows(client, steps[1], replies[1], steps[2]));
    }
    if steps.len() > 3 {
        assert(follows(client, steps[2], replies[2], steps[3]));
    }
    if steps.len() > 4 {
        assert(follows(client, steps[3], replies[3], steps[4]));
    }
}

} // verus!
