//! A request as a conversation: the library says what to ask of the network or to tell the
//! user, and goes on with the answer.
use vstd::prelude::*;
use crate::address::{Pubkey, ZK_ELGAMAL_PROOF};
use crate::bytes::same;
use crate::calls::{
    configure_accounts, configure_metas, ix, ix_view, transfer_accounts, transfer_metas,
    withdraw_accounts, withdraw_metas, Call,
};
use crate::error::ClientError;
use crate::instruction::{Instruction, InstructionView};
use crate::keys::Keys;
use crate::state::{AccountData, ConfidentialAccount};
use crate::system::{create_account, create_account_call};
use crate::zk::{
    close_context, close_context_call, encode_verify_proof, verify_proof_call, Proof, ProofKind,
};

verus! {

/// Instructions to send together. The wallet pays and signs, and so do the keys that were
/// made for these signers.
#[derive(Debug)]
pub struct Transaction {
    pub instructions: Vec<Instruction>,
    pub signers: Vec<Pubkey>,
}

impl Transaction {
    /// What the instructions say.
    pub open spec fn says(self) -> Seq<InstructionView> {
        self.instructions@.map_values(|i: Instruction| i@)
    }
}

/// Something that the user is told.
pub enum Notice {
    /// The address of a mint that is about to be created.
    Mint(Pubkey),
    /// The address of a proof context that is about to be created.
    ProofContext(Pubkey),
    /// The token account that has been configured.
    Configured(Pubkey),
    /// A token account and its public balance.
    Public { ata: Pubkey, amount: u64 },
    /// The two confidential balances of that account.
    Confidential { available: u64, pending: u64 },
    /// A proof context that could not be closed, and why.
    CloseFailed { context: Pubkey, error: ClientError },
}

/// What comes next in a conversation, with how to go on once it is done.
pub enum Step {
    /// Fetch an account.
    ReadAccount(Pubkey, AfterRead),
    /// Ask for the lamports that an account of so many bytes must hold.
    ReadRent(u64, AfterRent),
    /// Make a new signing key.
    NewKey(AfterKey),
    /// Send a transaction and wait until it is confirmed.
    Submit(Transaction, AfterSubmit),
    /// Tell the user.
    Tell(Notice, AfterTell),
    /// The request is answered.
    Done(Result<(), ClientError>),
}

/// How to go on with an account.
pub enum AfterRead {
    Balance { ata: Pubkey },
    ApplyPending { mint: Pubkey, ata: Pubkey },
    Applied { keys: Keys },
    Source { mint: Pubkey, recipient: Pubkey, amount: u64 },
    Destination { mint: Pubkey, recipient: Pubkey, amount: u64, e: ConfidentialAccount },
    Mint {
        mint: Pubkey,
        recipient: Pubkey,
        amount: u64,
        e: ConfidentialAccount,
        receiver: ConfidentialAccount,
        keys: Keys,
    },
    Withdraw { mint: Pubkey, ata: Pubkey, amount: u64 },
    Cleanup(Cleanup),
}

/// How to go on with an amount of rent.
pub enum AfterRent {
    Stage(Staging),
}

/// How to go on with a new key.
pub enum AfterKey {
    Mint { decimals: u8 },
    Stage(Staging),
}

/// How to go on after a transaction.
pub enum AfterSubmit {
    Finish,
    Applied { ata: Pubkey, keys: Keys },
    Close { contexts: Vec<Pubkey>, next: usize },
    Created(Staging),
    Verified(Staging),
    Finished(Staging),
    Cleanup(Cleanup),
}

/// How to go on once the user was told.
pub enum AfterTell {
    Finish,
    Mint { decimals: u8, mint: Pubkey },
    Balance { e: ConfidentialAccount, keys: Keys },
    Stage(Staging),
    Cleanup(Cleanup),
}

/// What proofs are staged for.
#[derive(Clone, Copy, Debug)]
pub enum Goal {
    Configure { mint: Pubkey, ata: Pubkey, zero: [u8; 36] },
    Transfer {
        mint: Pubkey,
        recipient: Pubkey,
        source: Pubkey,
        destination: Pubkey,
        balance: [u8; 36],
        auditor_lo: [u8; 64],
        auditor_hi: [u8; 64],
    },
    Withdraw { mint: Pubkey, ata: Pubkey, amount: u64, balance: [u8; 36] },
}

/// Credits that may wait in pending before the owner must apply them.
pub const MAXIMUM_PENDING_CREDITS: u64 = 65_536;

impl Goal {
    /// How many proofs the goal needs.
    #[verifier::allow_in_spec]
    pub fn proofs(self) -> (r: usize)
        returns
            (match self {
                Goal::Configure { .. } => 1usize,
                Goal::Transfer { .. } => 3usize,
                Goal::Withdraw { .. } => 2usize,
            }),
    {
        match self {
            Goal::Configure { .. } => 1usize,
            Goal::Transfer { .. } => 3usize,
            Goal::Withdraw { .. } => 2usize,
        }
    }

    /// The kinds of these proofs, in the order in which they are staged.
    pub open spec fn kinds(self) -> Seq<ProofKind> {
        match self {
            Goal::Configure { .. } => seq![ProofKind::PubkeyValidity],
            Goal::Transfer { .. } => seq![
                ProofKind::CiphertextCommitmentEquality,
                ProofKind::BatchedGroupedCiphertext3HandlesValidity,
                ProofKind::BatchedRangeProofU128,
            ],
            Goal::Withdraw { .. } => seq![
                ProofKind::CiphertextCommitmentEquality,
                ProofKind::BatchedRangeProofU64,
            ],
        }
    }

    /// The instruction that the goal comes down to, with the proofs in these contexts.
    pub open spec fn call(self, owner: Pubkey, contexts: Seq<Pubkey>) -> InstructionView {
        match self {
            Goal::Configure { mint, ata, zero } => ix_view(
                Call::ConfigureAccount {
                    decryptable_zero_balance: zero,
                    maximum_pending_balance_credit_counter: MAXIMUM_PENDING_CREDITS,
                },
                configure_metas(owner, mint, ata, contexts[0]),
            ),
            Goal::Transfer { mint, recipient, source, destination, balance, auditor_lo, auditor_hi } =>
            ix_view(
                Call::TransferConfidential {
                    new_source_decryptable_available_balance: balance,
                    transfer_amount_auditor_ciphertext_lo: auditor_lo,
                    transfer_amount_auditor_ciphertext_hi: auditor_hi,
                },
                transfer_metas(
                    owner, recipient, mint, source, destination,
                    contexts[0], contexts[1], contexts[2]),
            ),
            Goal::Withdraw { mint, ata, amount, balance } => ix_view(
                Call::Withdraw { amount, new_decryptable_available_balance: balance },
                withdraw_metas(owner, mint, ata, contexts[0], contexts[1]),
            ),
        }
    }

    /// The instruction that the goal comes down to, with the proofs in these contexts.
    pub fn instruction(self, owner: Pubkey, contexts: &Vec<Pubkey>) -> (r: Instruction)
        requires
            contexts@.len() == self.proofs(),
        ensures
            r@ == self.call(owner, contexts@),
    {
        match self {
            Goal::Configure { mint, ata, zero } => ix(
                &Call::ConfigureAccount {
                    decryptable_zero_balance: zero,
                    maximum_pending_balance_credit_counter: MAXIMUM_PENDING_CREDITS,
                },
                configure_accounts(owner, mint, ata, contexts[0]),
            ),
            Goal::Transfer { mint, recipient, source, destination, balance, auditor_lo, auditor_hi } =>
            ix(
                &Call::TransferConfidential {
                    new_source_decryptable_available_balance: balance,
                    transfer_amount_auditor_ciphertext_lo: auditor_lo,
                    transfer_amount_auditor_ciphertext_hi: auditor_hi,
                },
                transfer_accounts(
                    owner, recipient, mint, source, destination,
                    contexts[0], contexts[1], contexts[2]),
            ),
            Goal::Withdraw { mint, ata, amount, balance } => ix(
                &Call::Withdraw { amount, new_decryptable_available_balance: balance },
                withdraw_accounts(owner, mint, ata, contexts[0], contexts[1]),
            ),
        }
    }
}

/// Proofs on their way into context accounts. The contexts are those whose address is known
/// so far, in the order of the proofs.
pub struct Staging {
    pub owner: Pubkey,
    pub proofs: Vec<Proof>,
    pub goal: Goal,
    pub contexts: Vec<Pubkey>,
}

/// Closing what a failed request leaves behind: contexts before `next` were dealt with.
pub struct Cleanup {
    pub owner: Pubkey,
    pub contexts: Vec<Pubkey>,
    pub next: usize,
    /// Why the request failed.
    pub error: ClientError,
}

/// Whether `step` submits these instructions with these signers, and goes on with `after`.
pub open spec fn submits(
    step: Step,
    instructions: Seq<InstructionView>,
    signers: Seq<Pubkey>,
    after: AfterSubmit,
) -> bool {
    step matches Step::Submit(tx, k) && tx.says() == instructions && tx.signers@ == signers
        && k == after
}

/// Submits one instruction.
pub(crate) fn submit_one(
    instruction: Instruction,
    signers: Vec<Pubkey>,
    after: AfterSubmit,
) -> (r: Step)
    ensures
        submits(r, seq![instruction@], signers@, after),
{
    let tx = Transaction { instructions: vec![instruction], signers };
    proof {
        assert(tx.says() =~= seq![instruction@]);
    }
    Step::Submit(tx, after)
}

/// The instructions that close these contexts, in their order.
pub open spec fn closings(owner: Pubkey, contexts: Seq<Pubkey>) -> Seq<InstructionView> {
    contexts.map_values(|c: Pubkey| close_context_call(c, owner))
}

impl Cleanup {
    /// The contexts that are left are some of the contexts.
    pub open spec fn wf(self) -> bool {
        self.next <= self.contexts@.len()
    }

    /// Deals with the next context: look whether it is there. With none left, the request
    /// has failed as it did.
    pub open spec fn looks(self, step: Step) -> bool {
        if self.next >= self.contexts@.len() {
            step == Step::Done(Err(self.error))
        } else {
            step == Step::ReadAccount(self.contexts@[self.next as int], AfterRead::Cleanup(self))
        }
    }

    /// Goes on to the context after this one.
    pub open spec fn moves_on(self, step: Step) -> bool {
        Cleanup { next: (self.next + 1) as usize, ..self }.looks(step)
    }

    /// Whether the account at the context's address is a context: it may never have come to
    /// be, and then there is nothing to close.
    pub open spec fn looked(self, found: Result<AccountData, String>, step: Step) -> bool {
        if found is Ok && found->Ok_0.owner == ZK_ELGAMAL_PROOF {
            submits(
                step,
                seq![close_context_call(self.contexts@[self.next as int], self.owner)],
                Seq::empty(),
                AfterSubmit::Cleanup(self),
            )
        } else {
            self.moves_on(step)
        }
    }

    /// A context that cannot be closed is reported, and the next one has its turn.
    pub open spec fn closed(self, sent: Result<(), String>, step: Step) -> bool {
        match sent {
            Ok(_) => self.moves_on(step),
            Err(reason) => step == Step::Tell(
                Notice::CloseFailed {
                    context: self.contexts@[self.next as int],
                    error: ClientError::Rpc(reason),
                },
                AfterTell::Cleanup(self),
            ),
        }
    }

    pub(crate) fn look(self) -> (r: Step)
        requires
            self.wf(),
        ensures
            self.looks(r),
            r.wf(),
    {
        if self.next >= self.contexts.len() {
            Step::Done(Err(self.error))
        } else {
            Step::ReadAccount(self.contexts[self.next], AfterRead::Cleanup(self))
        }
    }

    pub(crate) fn move_on(self) -> (r: Step)
        requires
            self.next < self.contexts@.len(),
        ensures
            self.moves_on(r),
            r.wf(),
    {
        proof {
            assert(self.contexts@.len() == self.contexts.len());
        }
        Cleanup {
            owner: self.owner,
            contexts: self.contexts,
            next: self.next + 1,
            error: self.error,
        }.look()
    }

    pub(crate) fn after_look(self, found: Result<AccountData, String>) -> (r: Step)
        requires
            self.next < self.contexts@.len(),
        ensures
            self.looked(found, r),
            r.wf(),
    {
        let context = match found {
            Ok(account) => same(&account.owner, &ZK_ELGAMAL_PROOF),
            Err(_) => false,
        };
        if context {
            let close = close_context(self.contexts[self.next], self.owner);
            submit_one(close, Vec::new(), AfterSubmit::Cleanup(self))
        } else {
            self.move_on()
        }
    }

    pub(crate) fn after_close(self, sent: Result<(), String>) -> (r: Step)
        requires
            self.next < self.contexts@.len(),
        ensures
            self.closed(sent, r),
            r.wf(),
    {
        match sent {
            Ok(_) => self.move_on(),
            Err(reason) => Step::Tell(
                Notice::CloseFailed {
                    context: self.contexts[self.next],
                    error: ClientError::Rpc(reason),
                },
                AfterTell::Cleanup(self),
            ),
        }
    }
}

impl Staging {
    /// The proofs are those that the goal needs, and no context is without a proof.
    pub open spec fn wf(self) -> bool {
        &&& self.proofs@.map_values(|p: Proof| p.kind) == self.goal.kinds()
        &&& self.contexts@.len() <= self.proofs@.len()
    }

    /// The index of the proof that is being staged.
    pub open spec fn current(self) -> int {
        self.contexts@.len() - 1
    }

    /// Stages the next proof, which takes a new address; with all of them staged, submits
    /// what they are for and closes their contexts in the same transaction.
    pub open spec fn goes_on(self, step: Step) -> bool {
        if self.contexts@.len() < self.proofs@.len() {
            step == Step::NewKey(AfterKey::Stage(self))
        } else {
            submits(
                step,
                seq![self.goal.call(self.owner, self.contexts@)] + closings(
                    self.owner, self.contexts@),
                Seq::empty(),
                AfterSubmit::Finished(self),
            )
        }
    }

    /// The request fails: its contexts are closed one by one.
    pub open spec fn fails(self, error: ClientError, step: Step) -> bool {
        Cleanup { owner: self.owner, contexts: self.contexts, next: 0, error }.looks(step)
    }

    /// The address is remembered, and told, before anything is sent: it is known even if
    /// what follows is interrupted.
    pub open spec fn keyed(self, key: Pubkey, step: Step) -> bool {
        step matches Step::Tell(Notice::ProofContext(k), AfterTell::Stage(next)) && k == key
            && next.owner == self.owner && next.proofs == self.proofs && next.goal == self.goal
            && next.contexts@ == self.contexts@.push(key)
    }

    /// Then the rent of the context is asked for.
    pub open spec fn told(self, step: Step) -> bool {
        step == Step::ReadRent(
            self.proofs@[self.current()].kind.context_len(),
            AfterRent::Stage(self),
        )
    }

    /// Then the context account is created, which its own key signs for.
    pub open spec fn rented(self, rent: Result<u64, String>, step: Step) -> bool {
        match rent {
            Err(reason) => self.fails(ClientError::Rpc(reason), step),
            Ok(lamports) => submits(
                step,
                seq![
                    create_account_call(
                        self.owner,
                        self.contexts@.last(),
                        lamports,
                        self.proofs@[self.current()].kind.context_len(),
                        ZK_ELGAMAL_PROOF,
                    ),
                ],
                seq![self.contexts@.last()],
                AfterSubmit::Created(self),
            ),
        }
    }

    /// Then the proof is verified into it.
    pub open spec fn created(self, sent: Result<(), String>, step: Step) -> bool {
        match sent {
            Err(reason) => self.fails(ClientError::Rpc(reason), step),
            Ok(_) => submits(
                step,
                seq![
                    verify_proof_call(
                        self.proofs@[self.current()].kind,
                        self.proofs@[self.current()].data@,
                        self.contexts@.last(),
                        self.owner,
                    ),
                ],
                Seq::empty(),
                AfterSubmit::Verified(self),
            ),
        }
    }

    /// Then it is the next proof's turn.
    pub open spec fn verified(self, sent: Result<(), String>, step: Step) -> bool {
        match sent {
            Err(reason) => self.fails(ClientError::Rpc(reason), step),
            Ok(_) => self.goes_on(step),
        }
    }

    /// At the end, a configured account is told.
    pub open spec fn finished(self, sent: Result<(), String>, step: Step) -> bool {
        match sent {
            Err(reason) => self.fails(ClientError::Rpc(reason), step),
            Ok(_) => match self.goal {
                Goal::Configure { ata, .. } => step == Step::Tell(
                    Notice::Configured(ata),
                    AfterTell::Finish,
                ),
                _ => step == Step::Done(Ok(())),
            },
        }
    }

    /// Starts to stage these proofs for this goal.
    pub(crate) fn start(owner: Pubkey, proofs: Vec<Proof>, goal: Goal) -> (r: Step)
        requires
            proofs@.map_values(|p: Proof| p.kind) == goal.kinds(),
        ensures
            r matches Step::NewKey(AfterKey::Stage(s)) && s.owner == owner && s.proofs == proofs
                && s.goal == goal && s.contexts@ == Seq::<Pubkey>::empty(),
            r.wf(),
    {
        proof {
            assert(proofs@.len() == proofs@.map_values(|p: Proof| p.kind).len());
        }
        Step::NewKey(AfterKey::Stage(Staging { owner, proofs, goal, contexts: Vec::new() }))
    }

    fn go_on(self) -> (r: Step)
        requires
            self.wf(),
        ensures
            self.goes_on(r),
            r.wf(),
    {
        proof {
            assert(self.proofs@.len() == self.proofs@.map_values(|p: Proof| p.kind).len());
        }
        if self.contexts.len() < self.proofs.len() {
            return Step::NewKey(AfterKey::Stage(self));
        }
        let mut instructions: Vec<Instruction> = Vec::new();
        instructions.push(self.goal.instruction(self.owner, &self.contexts));
        let ghost first = self.goal.call(self.owner, self.contexts@);
        let mut i: usize = 0;
        while i < self.contexts.len()
            invariant
                i <= self.contexts@.len(),
                instructions@.len() == i + 1,
                instructions@[0]@ == first,
                forall|j: int| 0 <= j < i ==> (#[trigger] instructions@[j + 1])@
                    == close_context_call(self.contexts@[j], self.owner),
            decreases self.contexts.len() - i,
        {
            instructions.push(close_context(self.contexts[i], self.owner));
            i = i + 1;
        }
        let tx = Transaction { instructions, signers: Vec::new() };
        proof {
            let want = seq![first] + closings(self.owner, self.contexts@);
            assert forall|j: int| 0 <= j < want.len() implies tx.says()[j] == want[j] by {
                if j > 0 {
                    assert(tx.instructions@[(j - 1) + 1]@ == close_context_call(
                        self.contexts@[j - 1], self.owner));
                }
            }
            assert(tx.says() =~= want);
        }
        Step::Submit(tx, AfterSubmit::Finished(self))
    }

    fn fail(self, error: ClientError) -> (r: Step)
        ensures
            self.fails(error, r),
            r.wf(),
    {
        Cleanup { owner: self.owner, contexts: self.contexts, next: 0, error }.look()
    }

    pub(crate) fn after_key(self, key: Pubkey) -> (r: Step)
        requires
            self.wf(),
            self.contexts@.len() < self.proofs@.len(),
        ensures
            self.keyed(key, r),
            r.wf(),
    {
        let mut contexts = self.contexts;
        // Track the address before submission in case confirmation is interrupted.
        contexts.push(key);
        Step::Tell(
            Notice::ProofContext(key),
            AfterTell::Stage(
                Staging { owner: self.owner, proofs: self.proofs, goal: self.goal, contexts },
            ),
        )
    }

    pub(crate) fn after_tell(self) -> (r: Step)
        requires
            self.wf(),
            self.contexts@.len() > 0,
        ensures
            self.told(r),
            r.wf(),
    {
        let i: usize = self.contexts.len() - 1;
        Step::ReadRent(self.proofs[i].kind.context_len(), AfterRent::Stage(self))
    }

    pub(crate) fn after_rent(self, rent: Result<u64, String>) -> (r: Step)
        requires
            self.wf(),
            self.contexts@.len() > 0,
        ensures
            self.rented(rent, r),
            r.wf(),
    {
        match rent {
            Err(reason) => self.fail(ClientError::Rpc(reason)),
            Ok(lamports) => {
                let i: usize = self.contexts.len() - 1;
                let context = self.contexts[i];
                let create = create_account(
                    self.owner,
                    context,
                    lamports,
                    self.proofs[i].kind.context_len(),
                    ZK_ELGAMAL_PROOF,
                );
                let signers: Vec<Pubkey> = vec![context];
                proof {
                    assert(signers@ =~= seq![self.contexts@.last()]);
                }
                submit_one(create, signers, AfterSubmit::Created(self))
            },
        }
    }

    pub(crate) fn after_create(self, sent: Result<(), String>) -> (r: Step)
        requires
            self.wf(),
            self.contexts@.len() > 0,
        ensures
            self.created(sent, r),
            r.wf(),
    {
        match sent {
            Err(reason) => self.fail(ClientError::Rpc(reason)),
            Ok(_) => {
                let i: usize = self.contexts.len() - 1;
                let verify = encode_verify_proof(&self.proofs[i], self.contexts[i], self.owner);
                submit_one(verify, Vec::new(), AfterSubmit::Verified(self))
            },
        }
    }

    pub(crate) fn after_verify(self, sent: Result<(), String>) -> (r: Step)
        requires
            self.wf(),
        ensures
            self.verified(sent, r),
            r.wf(),
    {
        match sent {
            Err(reason) => self.fail(ClientError::Rpc(reason)),
            Ok(_) => self.go_on(),
        }
    }

    pub(crate) fn after_finish(self, sent: Result<(), String>) -> (r: Step)
        ensures
            self.finished(sent, r),
            r.wf(),
    {
        match sent {
            Err(reason) => self.fail(ClientError::Rpc(reason)),
            Ok(_) => match self.goal {
                Goal::Configure { ata, .. } => Step::Tell(
                    Notice::Configured(ata),
                    AfterTell::Finish,
                ),
                _ => Step::Done(Ok(())),
            },
        }
    }
}

impl AfterRead {
    /// What must hold of what the conversation remembers.
    pub open spec fn wf(self) -> bool {
        match self {
            AfterRead::Cleanup(c) => c.next < c.contexts@.len(),
            _ => true,
        }
    }
}

impl AfterRent {
    /// What must hold of what the conversation remembers.
    pub open spec fn wf(self) -> bool {
        match self {
            AfterRent::Stage(s) => s.wf() && s.contexts@.len() > 0,
        }
    }
}

impl AfterKey {
    /// What must hold of what the conversation remembers.
    pub open spec fn wf(self) -> bool {
        match self {
            AfterKey::Stage(s) => s.wf() && s.contexts@.len() < s.proofs@.len(),
            _ => true,
        }
    }
}

impl AfterSubmit {
    /// What must hold of what the conversation remembers.
    pub open spec fn wf(self) -> bool {
        match self {
            AfterSubmit::Close { contexts, next } => next <= contexts@.len(),
            AfterSubmit::Created(s) => s.wf() && s.contexts@.len() > 0,
            AfterSubmit::Verified(s) => s.wf() && s.contexts@.len() > 0,
            AfterSubmit::Finished(s) => s.wf() && s.contexts@.len() == s.proofs@.len(),
            AfterSubmit::Cleanup(c) => c.next < c.contexts@.len(),
            _ => true,
        }
    }
}

impl AfterTell {
    /// What must hold of what the conversation remembers.
    pub open spec fn wf(self) -> bool {
        match self {
            AfterTell::Stage(s) => s.wf() && s.contexts@.len() > 0,
            AfterTell::Cleanup(c) => c.next < c.contexts@.len(),
            _ => true,
        }
    }
}

impl Step {
    /// What must hold of what the conversation remembers.
    pub open spec fn wf(self) -> bool {
        match self {
            Step::ReadAccount(_, k) => k.wf(),
            Step::ReadRent(_, k) => k.wf(),
            Step::NewKey(k) => k.wf(),
            Step::Submit(_, k) => k.wf(),
            Step::Tell(_, k) => k.wf(),
            Step::Done(_) => true,
        }
    }

    /// The first step of a request.
    pub open spec fn opens(self) -> bool {
        match self {
            Step::NewKey(AfterKey::Mint { .. }) => true,
            Step::NewKey(AfterKey::Stage(s)) => s.contexts@.len() == 0,
            Step::ReadAccount(_, k) => k is Balance || k is ApplyPending || k is Source
                || k is Withdraw,
            Step::Submit(_, k) => k is Finish || k is Close,
            Step::Done(_) => true,
            _ => false,
        }
    }
}

} // verus!
