//! The client: what a wallet can ask for, and how each conversation goes.
use vstd::prelude::*;
use crate::address::{Pubkey, TOKEN_2022};
use crate::balance::{
    account, account_of, auditor_verdict, available, available_of, judge_auditor, pending,
    pending_of, reading, remaining, remaining_of, total, total_of,
};
use crate::calls::{
    initialize_mint_accounts, initialize_mint_metas, ix, ix_view, owner_accounts, owner_metas, Call,
};
use crate::error::{ClientError, ProofFault};
use crate::instruction::Instruction;
use crate::keys::{
    aes_plaintext, derived_keys, elgamal_ciphertext, elgamal_holds, elgamal_key, keys,
    signing_pair, transfer_statement, unkeyed, wallet_pubkey, withdraw_statement, Keys, KeysView,
    TransferProofs, Wallet, WithdrawProofs,
};
use crate::session::{
    submit_one, submits, AfterKey, AfterRead, AfterRent, AfterSubmit, AfterTell, Goal, Notice,
    Staging, Step,
};
use crate::state::{mint_auditor, unpack_mint_auditor, AccountData, ConfidentialAccount, NO_AUDITOR};
use crate::system::{associated_token_address, find_associated_token_address};
use crate::zk::{close_context, close_context_call, Proof, ProofKind};

verus! {

/// A wallet, and its address.
pub struct Client {
    pub wallet: Wallet,
    pub owner: Pubkey,
}

/// The keys could not be derived, and that ends the conversation.
pub open spec fn keyless(reason: Seq<char>, step: Step) -> bool {
    step matches Step::Done(Err(ClientError::KeyDerivation(e))) && e@ == reason
}

/// The token account could not be read, and that ends the conversation.
pub open spec fn unread(found: Result<AccountData, String>, step: Step) -> bool {
    step matches Step::Done(Err(e)) && account_of(found, Err(e))
}

/// A transaction was the last thing to do: how it went is the answer.
pub open spec fn answered(sent: Result<(), String>, step: Step) -> bool {
    match sent {
        Ok(_) => step == Step::Done(Ok(())),
        Err(reason) => step == Step::Done(Err(ClientError::Rpc(reason))),
    }
}

fn answer(sent: Result<(), String>) -> (r: Step)
    ensures
        answered(sent, r),
        r.wf(),
{
    match sent {
        Ok(_) => Step::Done(Ok(())),
        Err(reason) => Step::Done(Err(ClientError::Rpc(reason))),
    }
}

impl Client {
    /// The token account of `owner` for `mint`.
    pub open spec fn ata_of(owner: Pubkey, mint: Pubkey) -> Pubkey {
        associated_token_address(owner, mint, TOKEN_2022)
    }

    /// A client for the wallet that was read from the file at `path`, if one was.
    pub fn new(path: &str, wallet: Option<Wallet>) -> (r: Result<Client, ClientError>)
        ensures
            match r {
                Ok(client) => wallet == Some(client.wallet) && signing_pair(client.wallet@)
                    && client.owner@ == client.wallet@.subrange(32, 64),
                Err(error) => (wallet matches Some(w) ==> !signing_pair(w@))
                    && (error matches ClientError::UnreadableWallet(p) && p@ == path@),
            },
    {
        if let Some(wallet) = wallet {
            if let Some(owner) = wallet_pubkey(&wallet) {
                return Ok(Client { wallet, owner });
            }
        }
        Err(ClientError::UnreadableWallet(path.to_owned()))
    }

    /// The wallet's address.
    pub fn owner(&self) -> (r: Pubkey)
        ensures
            r == self.owner,
    {
        self.owner
    }

    /// The token account of `owner` for `mint`.
    pub fn ata(&self, owner: Pubkey, mint: Pubkey) -> (r: Pubkey)
        ensures
            r == Self::ata_of(owner, mint),
    {
        find_associated_token_address(owner, mint, TOKEN_2022)
    }

    /// The instruction that closes a proof context of this wallet.
    pub fn close_ix(&self, address: Pubkey) -> (r: Instruction)
        ensures
            r@ == close_context_call(address, self.owner),
    {
        close_context(address, self.owner)
    }

    /// Closes the contexts from `next` on, one transaction each.
    pub open spec fn closes(self, contexts: Vec<Pubkey>, next: usize, step: Step) -> bool {
        if next >= contexts@.len() {
            step == Step::Done(Ok(()))
        } else {
            submits(
                step,
                seq![close_context_call(contexts@[next as int], self.owner)],
                Seq::empty(),
                AfterSubmit::Close { contexts, next: (next + 1) as usize },
            )
        }
    }

    fn close_from(&self, contexts: Vec<Pubkey>, next: usize) -> (r: Step)
        ensures
            self.closes(contexts, next, r),
            r.wf(),
    {
        if next >= contexts.len() {
            Step::Done(Ok(()))
        } else {
            let close = self.close_ix(contexts[next]);
            submit_one(close, Vec::new(), AfterSubmit::Close { contexts, next: next + 1 })
        }
    }

    /// Recovers the rent of verified proof contexts that an interrupted command left.
    pub fn close_proofs(&self, contexts: Vec<Pubkey>) -> (r: Step)
        ensures
            self.closes(contexts, 0, r),
            r.wf(),
            r.opens(),
    {
        self.close_from(contexts, 0)
    }

    /// Creates a mint with this wallet as mint authority. The mint has a key of its own.
    pub fn initialize_mint(&self, decimals: u8) -> (r: Step)
        ensures
            r == Step::NewKey(AfterKey::Mint { decimals }),
            r.wf(),
            r.opens(),
    {
        Step::NewKey(AfterKey::Mint { decimals })
    }

    /// The staging of the proof that `keys` are valid, for the configuration of `ata` with
    /// an AES copy of the balance zero.
    pub open spec fn stages_configure(
        self,
        mint: Pubkey,
        ata: Pubkey,
        keys: KeysView,
        s: Staging,
    ) -> bool {
        &&& s.owner == self.owner
        &&& s.contexts@ == Seq::<Pubkey>::empty()
        &&& s.proofs@.len() == 1
        &&& s.proofs@[0].kind == ProofKind::PubkeyValidity
        &&& s.proofs@[0].data@.len() == 96
        &&& s.proofs@[0].data@.subrange(0, 32) == keys.pubkey@
        &&& s.goal matches Goal::Configure { mint: m, ata: a, zero } && m == mint && a == ata
            && aes_plaintext(keys.aes@, zero@) == Some(0u64)
    }

    /// How the configuration of the wallet's token account begins.
    pub open spec fn configures(self, mint: Pubkey, step: Step) -> bool {
        let ata = Self::ata_of(self.owner, mint);
        match derived_keys(self.wallet, ata) {
            Err(reason) => keyless(reason, step),
            Ok(keys) => step matches Step::NewKey(AfterKey::Stage(s))
                && self.stages_configure(mint, ata, keys, s),
        }
    }

    /// Configures this wallet's confidential token account.
    pub fn configure(&self, mint: Pubkey) -> (r: Step)
        ensures
            self.configures(mint, r),
            r.wf(),
            r.opens(),
    {
        let ata = self.ata(self.owner, mint);
        let keys = match keys(&self.wallet, ata) {
            Err(error) => return Step::Done(Err(error)),
            Ok(keys) => keys,
        };
        let validity = keys.prove_pubkey();
        let goal = Goal::Configure { mint, ata, zero: keys.encrypt(0) };
        let proofs: Vec<Proof> = vec![validity];
        proof {
            assert(proofs@.map_values(|p: Proof| p.kind) =~= goal.kinds());
        }
        Staging::start(self.owner, proofs, goal)
    }

    /// Shows public, pending and available balances in raw units.
    pub fn balance(&self, mint: Pubkey) -> (r: Step)
        ensures
            ({
                let ata = Self::ata_of(self.owner, mint);
                r == Step::ReadAccount(ata, AfterRead::Balance { ata })
            }),
            r.wf(),
            r.opens(),
    {
        let ata = self.ata(self.owner, mint);
        Step::ReadAccount(ata, AfterRead::Balance { ata })
    }

    /// Moves public tokens into pending.
    pub fn deposit(&self, mint: Pubkey, amount: u64) -> (r: Step)
        ensures
            submits(
                r,
                seq![
                    ix_view(
                        Call::Deposit { amount },
                        owner_metas(self.owner, mint, Self::ata_of(self.owner, mint)),
                    ),
                ],
                Seq::empty(),
                AfterSubmit::Finish,
            ),
            r.wf(),
            r.opens(),
    {
        let ata = self.ata(self.owner, mint);
        let call = ix(&Call::Deposit { amount }, owner_accounts(self.owner, mint, ata));
        submit_one(call, Vec::new(), AfterSubmit::Finish)
    }

    /// Consolidates pending into available and updates its AES copy.
    pub fn apply_pending(&self, mint: Pubkey) -> (r: Step)
        ensures
            ({
                let ata = Self::ata_of(self.owner, mint);
                r == Step::ReadAccount(ata, AfterRead::ApplyPending { mint, ata })
            }),
            r.wf(),
            r.opens(),
    {
        let ata = self.ata(self.owner, mint);
        Step::ReadAccount(ata, AfterRead::ApplyPending { mint, ata })
    }

    /// Sends from available to the recipient wallet's configured token account.
    pub fn transfer(&self, mint: Pubkey, recipient: Pubkey, amount: u64) -> (r: Step)
        ensures
            r == Step::ReadAccount(
                Self::ata_of(self.owner, mint),
                AfterRead::Source { mint, recipient, amount },
            ),
            r.wf(),
            r.opens(),
    {
        Step::ReadAccount(
            self.ata(self.owner, mint),
            AfterRead::Source { mint, recipient, amount },
        )
    }

    /// Moves available tokens back into the public balance; the amount becomes public.
    pub fn withdraw(&self, mint: Pubkey, amount: u64) -> (r: Step)
        ensures
            ({
                let ata = Self::ata_of(self.owner, mint);
                r == Step::ReadAccount(ata, AfterRead::Withdraw { mint, ata, amount })
            }),
            r.wf(),
            r.opens(),
    {
        let ata = self.ata(self.owner, mint);
        Step::ReadAccount(ata, AfterRead::Withdraw { mint, ata, amount })
    }

    /// With the account read: its address and public amount are shown first.
    pub open spec fn shows(
        self,
        ata: Pubkey,
        found: Result<AccountData, String>,
        step: Step,
    ) -> bool {
        match reading(found) {
            None => unread(found, step),
            Some((amount, e)) => match derived_keys(self.wallet, ata) {
                Err(reason) => keyless(reason, step),
                Ok(view) => step matches Step::Tell(
                    Notice::Public { ata: a, amount: n },
                    AfterTell::Balance { e: f, keys },
                ) && a == ata && n == amount && f == e && keys@ == view,
            },
        }
    }

    fn show(&self, ata: Pubkey, found: Result<AccountData, String>) -> (r: Step)
        ensures
            self.shows(ata, found, r),
            r.wf(),
    {
        let (amount, e) = match account(found) {
            Err(error) => return Step::Done(Err(error)),
            Ok(read) => read,
        };
        match keys(&self.wallet, ata) {
            Err(error) => Step::Done(Err(error)),
            Ok(keys) => Step::Tell(Notice::Public { ata, amount }, AfterTell::Balance { e, keys }),
        }
    }

    /// With the account read: pending is applied, with the new total as AES copy and the
    /// number of credits that it accounts for.
    pub open spec fn applies(
        self,
        mint: Pubkey,
        ata: Pubkey,
        found: Result<AccountData, String>,
        step: Step,
    ) -> bool {
        match reading(found) {
            None => unread(found, step),
            Some((_, e)) => match derived_keys(self.wallet, ata) {
                Err(reason) => keyless(reason, step),
                Ok(view) => match total_of(e, view) {
                    Err(error) => step == Step::Done(Err(error)),
                    Ok(total) => step matches Step::Submit(tx, AfterSubmit::Applied { ata: a, keys })
                        && a == ata && keys@ == view && tx.signers@ == Seq::<Pubkey>::empty() && (
                    exists|copy: [u8; 36]|
                        #[trigger] aes_plaintext(view.aes@, copy@) == Some(total) && tx.says()
                            == seq![
                            ix_view(
                                Call::ApplyPending {
                                    expected_pending_balance_credit_counter:
                                        e.pending_balance_credit_counter,
                                    new_decryptable_available_balance: copy,
                                },
                                owner_metas(self.owner, mint, ata),
                            ),
                        ]),
                },
            },
        }
    }

    fn apply(&self, mint: Pubkey, ata: Pubkey, found: Result<AccountData, String>) -> (r: Step)
        ensures
            self.applies(mint, ata, found, r),
            r.wf(),
    {
        let (_, e) = match account(found) {
            Err(error) => return Step::Done(Err(error)),
            Ok(read) => read,
        };
        let keys = match keys(&self.wallet, ata) {
            Err(error) => return Step::Done(Err(error)),
            Ok(keys) => keys,
        };
        let total: u64 = match total(&e, &keys) {
            Err(error) => return Step::Done(Err(error)),
            Ok(total) => total,
        };
        let call = ix(
            &Call::ApplyPending {
                expected_pending_balance_credit_counter: e.pending_balance_credit_counter,
                new_decryptable_available_balance: keys.encrypt(total),
            },
            owner_accounts(self.owner, mint, ata),
        );
        submit_one(call, Vec::new(), AfterSubmit::Applied { ata, keys })
    }

    /// With the recipient's account read: the amount must be available to the sender. Then
    /// the mint is looked at.
    pub open spec fn covers(
        self,
        mint: Pubkey,
        recipient: Pubkey,
        amount: u64,
        e: ConfidentialAccount,
        found: Result<AccountData, String>,
        step: Step,
    ) -> bool {
        match reading(found) {
            None => unread(found, step),
            Some((_, receiver)) => match derived_keys(
                self.wallet,
                Self::ata_of(self.owner, mint),
            ) {
                Err(reason) => keyless(reason, step),
                Ok(view) => match remaining_of(e, view, amount) {
                    Err(error) => step == Step::Done(Err(error)),
                    Ok(_) => step matches Step::ReadAccount(
                        address,
                        AfterRead::Mint {
                            mint: m,
                            recipient: w,
                            amount: n,
                            e: f,
                            receiver: g,
                            keys,
                        },
                    ) && address == mint && m == mint && w == recipient && n == amount && f == e
                        && g == receiver && keys@ == view,
                },
            },
        }
    }

    fn cover(
        &self,
        mint: Pubkey,
        recipient: Pubkey,
        amount: u64,
        e: ConfidentialAccount,
        found: Result<AccountData, String>,
    ) -> (r: Step)
        ensures
            self.covers(mint, recipient, amount, e, found, r),
            r.wf(),
    {
        let (_, receiver) = match account(found) {
            Err(error) => return Step::Done(Err(error)),
            Ok(read) => read,
        };
        let keys = match keys(&self.wallet, self.ata(self.owner, mint)) {
            Err(error) => return Step::Done(Err(error)),
            Ok(keys) => keys,
        };
        match remaining(&e, &keys, amount) {
            Err(error) => Step::Done(Err(error)),
            Ok(_) => Step::ReadAccount(
                mint,
                AfterRead::Mint { mint, recipient, amount, e, receiver, keys },
            ),
        }
    }

    /// The staging of the three proofs of a transfer of `amount` that leaves `remaining`.
    pub open spec fn stages_transfer(
        self,
        mint: Pubkey,
        recipient: Pubkey,
        amount: u64,
        e: ConfidentialAccount,
        receiver: ConfidentialAccount,
        remaining: u64,
        keys: KeysView,
        s: Staging,
    ) -> bool {
        &&& s.owner == self.owner
        &&& s.contexts@ == Seq::<Pubkey>::empty()
        &&& s.proofs@.map_values(|p: Proof| p.kind) == s.goal.kinds()
        &&& s.goal matches Goal::Transfer {
            mint: m,
            recipient: w,
            source,
            destination,
            balance,
            auditor_lo,
            auditor_hi,
        } && m == mint && w == recipient && source == Self::ata_of(self.owner, mint)
            && destination == Self::ata_of(recipient, mint) && aes_plaintext(
            keys.aes@,
            balance@,
        ) == Some(remaining) && transfer_statement(
            s.proofs@[0].data@,
            s.proofs@[1].data@,
            s.proofs@[2].data@,
            auditor_lo@,
            auditor_hi@,
            keys.pubkey@,
            keys.secret@,
            e.available_balance@,
            (remaining + amount) as u64,
            amount,
            receiver.elgamal_pubkey@,
        )
    }

    /// What the proofs of a transfer are for, with `balance` as the AES copy of the rest.
    pub open spec fn transfer_goal(
        self,
        mint: Pubkey,
        recipient: Pubkey,
        balance: [u8; 36],
        made: TransferProofs,
    ) -> Goal {
        Goal::Transfer {
            mint,
            recipient,
            source: Self::ata_of(self.owner, mint),
            destination: Self::ata_of(recipient, mint),
            balance,
            auditor_lo: made.auditor_lo,
            auditor_hi: made.auditor_hi,
        }
    }

    /// Stages the proofs of a transfer, if they could be made.
    pub fn stage_transfer(
        &self,
        mint: Pubkey,
        recipient: Pubkey,
        balance: [u8; 36],
        made: Result<TransferProofs, ClientError>,
    ) -> (r: Step)
        ensures
            match made {
                Err(error) => r == Step::Done(Err(error)),
                Ok(made) => r matches Step::NewKey(AfterKey::Stage(s)) && s.owner == self.owner
                    && s.contexts@ == Seq::<Pubkey>::empty() && s.goal == self.transfer_goal(
                    mint,
                    recipient,
                    balance,
                    made,
                ) && s.proofs@ == seq![
                    Proof { kind: ProofKind::CiphertextCommitmentEquality, data: made.equality },
                    Proof {
                        kind: ProofKind::BatchedGroupedCiphertext3HandlesValidity,
                        data: made.validity,
                    },
                    Proof { kind: ProofKind::BatchedRangeProofU128, data: made.range },
                ],
            },
            r.wf(),
    {
        let made = match made {
            Err(error) => return Step::Done(Err(error)),
            Ok(made) => made,
        };
        let goal = Goal::Transfer {
            mint,
            recipient,
            source: self.ata(self.owner, mint),
            destination: self.ata(recipient, mint),
            balance,
            auditor_lo: made.auditor_lo,
            auditor_hi: made.auditor_hi,
        };
        let proofs: Vec<Proof> = vec![
            Proof { kind: ProofKind::CiphertextCommitmentEquality, data: made.equality },
            Proof {
                kind: ProofKind::BatchedGroupedCiphertext3HandlesValidity,
                data: made.validity,
            },
            Proof { kind: ProofKind::BatchedRangeProofU128, data: made.range },
        ];
        proof {
            assert(proofs@.map_values(|p: Proof| p.kind) =~= goal.kinds());
        }
        Staging::start(self.owner, proofs, goal)
    }

    /// With the mint read: it must have no auditor, the recipient must have a key, and the
    /// encrypted balance must be the one that the AES copy reads. Then the proofs are made, if
    /// chance lets them, and staged.
    pub open spec fn pays(
        self,
        mint: Pubkey,
        recipient: Pubkey,
        amount: u64,
        e: ConfidentialAccount,
        receiver: ConfidentialAccount,
        keys: KeysView,
        found: Result<AccountData, String>,
        step: Step,
    ) -> bool {
        match found {
            Err(reason) => step == Step::Done(Err(ClientError::Rpc(reason))),
            Ok(account) => if mint_auditor(account.data@) != Ok::<[u8; 32], Seq<char>>(
                NO_AUDITOR,
            ) {
                step matches Step::Done(Err(error)) && auditor_verdict(
                    mint_auditor(account.data@),
                    Err(error),
                )
            } else {
                match remaining_of(e, keys, amount) {
                    Err(error) => step == Step::Done(Err(error)),
                    Ok(remaining) => if !elgamal_ciphertext(e.available_balance@) {
                        step == Step::Done(Err(ClientError::InvalidAvailableCiphertext))
                    } else if !elgamal_key(receiver.elgamal_pubkey@) {
                        step matches Step::Done(Err(error)) && unkeyed(error)
                    } else if !elgamal_holds(
                        keys.secret@,
                        e.available_balance@,
                        (remaining + amount) as u64,
                    ) {
                        step == Step::Done(Err(ClientError::Proof(ProofFault::InconsistentInput)))
                    } else {
                        ||| step == Step::Done(
                            Err(ClientError::Proof(ProofFault::InvalidCommitment)),
                        )
                        ||| step matches Step::NewKey(AfterKey::Stage(s)) && self.stages_transfer(
                            mint,
                            recipient,
                            amount,
                            e,
                            receiver,
                            remaining,
                            keys,
                            s,
                        )
                    },
                }
            },
        }
    }

    fn pay(
        &self,
        mint: Pubkey,
        recipient: Pubkey,
        amount: u64,
        e: ConfidentialAccount,
        receiver: ConfidentialAccount,
        keys: Keys,
        found: Result<AccountData, String>,
    ) -> (r: Step)
        ensures
            self.pays(mint, recipient, amount, e, receiver, keys@, found, r),
            r.wf(),
    {
        let account = match found {
            Err(reason) => return Step::Done(Err(ClientError::Rpc(reason))),
            Ok(account) => account,
        };
        if let Err(error) = judge_auditor(unpack_mint_auditor(account.data.as_slice())) {
            return Step::Done(Err(error));
        }
        let remaining: u64 = match remaining(&e, &keys, amount) {
            Err(error) => return Step::Done(Err(error)),
            Ok(remaining) => remaining,
        };
        let made = keys.prove_transfer(
            &e.available_balance,
            &e.decryptable_available_balance,
            amount,
            &receiver.elgamal_pubkey,
        );
        self.stage_transfer(mint, recipient, keys.encrypt(remaining), made)
    }

    /// The staging of the two proofs of a withdrawal of `amount` that leaves `remaining`.
    pub open spec fn stages_withdraw(
        self,
        mint: Pubkey,
        ata: Pubkey,
        amount: u64,
        e: ConfidentialAccount,
        remaining: u64,
        keys: KeysView,
        s: Staging,
    ) -> bool {
        &&& s.owner == self.owner
        &&& s.contexts@ == Seq::<Pubkey>::empty()
        &&& s.proofs@.map_values(|p: Proof| p.kind) == s.goal.kinds()
        &&& s.goal matches Goal::Withdraw { mint: m, ata: a, amount: n, balance } && m == mint
            && a == ata && n == amount && aes_plaintext(keys.aes@, balance@) == Some(remaining)
            && withdraw_statement(
            s.proofs@[0].data@,
            s.proofs@[1].data@,
            keys.pubkey@,
            keys.secret@,
            e.available_balance@,
            (remaining + amount) as u64,
            amount,
        )
    }

    /// Stages the proofs of a withdrawal, if they could be made, with `balance` as the AES
    /// copy of the rest.
    pub fn stage_withdraw(
        &self,
        mint: Pubkey,
        ata: Pubkey,
        amount: u64,
        balance: [u8; 36],
        made: Result<WithdrawProofs, ClientError>,
    ) -> (r: Step)
        ensures
            match made {
                Err(error) => r == Step::Done(Err(error)),
                Ok(made) => r matches Step::NewKey(AfterKey::Stage(s)) && s.owner == self.owner
                    && s.contexts@ == Seq::<Pubkey>::empty() && s.goal == (Goal::Withdraw {
                    mint,
                    ata,
                    amount,
                    balance,
                }) && s.proofs@ == seq![
                    Proof { kind: ProofKind::CiphertextCommitmentEquality, data: made.equality },
                    Proof { kind: ProofKind::BatchedRangeProofU64, data: made.range },
                ],
            },
            r.wf(),
    {
        let made = match made {
            Err(error) => return Step::Done(Err(error)),
            Ok(made) => made,
        };
        let goal = Goal::Withdraw { mint, ata, amount, balance };
        let proofs: Vec<Proof> = vec![
            Proof { kind: ProofKind::CiphertextCommitmentEquality, data: made.equality },
            Proof { kind: ProofKind::BatchedRangeProofU64, data: made.range },
        ];
        proof {
            assert(proofs@.map_values(|p: Proof| p.kind) =~= goal.kinds());
        }
        Staging::start(self.owner, proofs, goal)
    }

    /// With the account read: the amount must be available, and the encrypted balance must be
    /// the one that the AES copy reads. Then the proofs are made, if chance lets them, and
    /// staged.
    pub open spec fn takes(
        self,
        mint: Pubkey,
        ata: Pubkey,
        amount: u64,
        found: Result<AccountData, String>,
        step: Step,
    ) -> bool {
        match reading(found) {
            None => unread(found, step),
            Some((_, e)) => match derived_keys(self.wallet, ata) {
                Err(reason) => keyless(reason, step),
                Ok(view) => match remaining_of(e, view, amount) {
                    Err(error) => step == Step::Done(Err(error)),
                    Ok(remaining) => if !elgamal_ciphertext(e.available_balance@) {
                        step == Step::Done(Err(ClientError::InvalidAvailableCiphertext))
                    } else if !elgamal_holds(
                        view.secret@,
                        e.available_balance@,
                        (remaining + amount) as u64,
                    ) {
                        step == Step::Done(Err(ClientError::Proof(ProofFault::InconsistentInput)))
                    } else {
                        ||| step == Step::Done(
                            Err(ClientError::Proof(ProofFault::InvalidCommitment)),
                        )
                        ||| step matches Step::NewKey(AfterKey::Stage(s)) && self.stages_withdraw(
                            mint,
                            ata,
                            amount,
                            e,
                            remaining,
                            view,
                            s,
                        )
                    },
                },
            },
        }
    }

    fn take(
        &self,
        mint: Pubkey,
        ata: Pubkey,
        amount: u64,
        found: Result<AccountData, String>,
    ) -> (r: Step)
        ensures
            self.takes(mint, ata, amount, found, r),
            r.wf(),
    {
        let (_, e) = match account(found) {
            Err(error) => return Step::Done(Err(error)),
            Ok(read) => read,
        };
        let keys = match keys(&self.wallet, ata) {
            Err(error) => return Step::Done(Err(error)),
            Ok(keys) => keys,
        };
        let current: u64 = match available(&e, &keys) {
            Err(error) => return Step::Done(Err(error)),
            Ok(current) => current,
        };
        let remaining: u64 = match remaining(&e, &keys, amount) {
            Err(error) => return Step::Done(Err(error)),
            Ok(remaining) => remaining,
        };
        let made = keys.prove_withdraw(&e.available_balance, current, amount);
        self.stage_withdraw(mint, ata, amount, keys.encrypt(remaining), made)
    }
}

impl AfterRead {
    /// How the conversation goes on with an account.
    pub open spec fn leads_to(
        self,
        client: Client,
        found: Result<AccountData, String>,
        step: Step,
    ) -> bool {
        match self {
            AfterRead::Balance { ata } => client.shows(ata, found, step),
            AfterRead::ApplyPending { mint, ata } => client.applies(mint, ata, found, step),
            AfterRead::Applied { keys } => match reading(found) {
                None => unread(found, step),
                Some((_, e)) => match available_of(e, keys@) {
                    Err(error) => step == Step::Done(Err(error)),
                    Ok(_) => step == Step::Done(Ok(())),
                },
            },
            AfterRead::Source { mint, recipient, amount } => match reading(found) {
                None => unread(found, step),
                Some((_, e)) => step == Step::ReadAccount(
                    Client::ata_of(recipient, mint),
                    AfterRead::Destination { mint, recipient, amount, e },
                ),
            },
            AfterRead::Destination { mint, recipient, amount, e } => client.covers(
                mint,
                recipient,
                amount,
                e,
                found,
                step,
            ),
            AfterRead::Mint { mint, recipient, amount, e, receiver, keys } => client.pays(
                mint,
                recipient,
                amount,
                e,
                receiver,
                keys@,
                found,
                step,
            ),
            AfterRead::Withdraw { mint, ata, amount } => client.takes(mint, ata, amount, found, step),
            AfterRead::Cleanup(c) => c.looked(found, step),
        }
    }

    /// Goes on with an account, or with the reason why it could not be fetched.
    pub fn resume(self, client: &Client, found: Result<AccountData, String>) -> (r: Step)
        requires
            self.wf(),
        ensures
            self.leads_to(*client, found, r),
            r.wf(),
    {
        match self {
            AfterRead::Balance { ata } => client.show(ata, found),
            AfterRead::ApplyPending { mint, ata } => client.apply(mint, ata, found),
            AfterRead::Applied { keys } => match account(found) {
                Err(error) => Step::Done(Err(error)),
                Ok((_, e)) => match available(&e, &keys) {
                    Err(error) => Step::Done(Err(error)),
                    Ok(_) => Step::Done(Ok(())),
                },
            },
            AfterRead::Source { mint, recipient, amount } => match account(found) {
                Err(error) => Step::Done(Err(error)),
                Ok((_, e)) => Step::ReadAccount(
                    client.ata(recipient, mint),
                    AfterRead::Destination { mint, recipient, amount, e },
                ),
            },
            AfterRead::Destination { mint, recipient, amount, e } => client.cover(
                mint,
                recipient,
                amount,
                e,
                found,
            ),
            AfterRead::Mint { mint, recipient, amount, e, receiver, keys } => client.pay(
                mint,
                recipient,
                amount,
                e,
                receiver,
                keys,
                found,
            ),
            AfterRead::Withdraw { mint, ata, amount } => client.take(mint, ata, amount, found),
            AfterRead::Cleanup(c) => c.after_look(found),
        }
    }
}

impl AfterRent {
    /// How the conversation goes on with an amount of rent.
    pub open spec fn leads_to(self, rent: Result<u64, String>, step: Step) -> bool {
        match self {
            AfterRent::Stage(s) => s.rented(rent, step),
        }
    }

    /// Goes on with an amount of rent, or with the reason why it could not be had.
    pub fn resume(self, rent: Result<u64, String>) -> (r: Step)
        requires
            self.wf(),
        ensures
            self.leads_to(rent, r),
            r.wf(),
    {
        match self {
            AfterRent::Stage(s) => s.after_rent(rent),
        }
    }
}

impl AfterKey {
    /// How the conversation goes on with a new key.
    pub open spec fn leads_to(self, key: Pubkey, step: Step) -> bool {
        match self {
            AfterKey::Mint { decimals } => step == Step::Tell(
                Notice::Mint(key),
                AfterTell::Mint { decimals, mint: key },
            ),
            AfterKey::Stage(s) => s.keyed(key, step),
        }
    }

    /// Goes on with a new key.
    pub fn resume(self, key: Pubkey) -> (r: Step)
        requires
            self.wf(),
        ensures
            self.leads_to(key, r),
            r.wf(),
    {
        match self {
            AfterKey::Mint { decimals } => Step::Tell(
                Notice::Mint(key),
                AfterTell::Mint { decimals, mint: key },
            ),
            AfterKey::Stage(s) => s.after_key(key),
        }
    }
}

impl AfterSubmit {
    /// How the conversation goes on after a transaction.
    pub open spec fn leads_to(self, client: Client, sent: Result<(), String>, step: Step) -> bool {
        match self {
            AfterSubmit::Finish => answered(sent, step),
            AfterSubmit::Applied { ata, keys } => match sent {
                Err(reason) => step == Step::Done(Err(ClientError::Rpc(reason))),
                Ok(_) => step == Step::ReadAccount(ata, AfterRead::Applied { keys }),
            },
            AfterSubmit::Close { contexts, next } => match sent {
                Err(reason) => step == Step::Done(Err(ClientError::Rpc(reason))),
                Ok(_) => client.closes(contexts, next, step),
            },
            AfterSubmit::Created(s) => s.created(sent, step),
            AfterSubmit::Verified(s) => s.verified(sent, step),
            AfterSubmit::Finished(s) => s.finished(sent, step),
            AfterSubmit::Cleanup(c) => c.closed(sent, step),
        }
    }

    /// Goes on after a transaction that was confirmed, or with the reason why it was not.
    pub fn resume(self, client: &Client, sent: Result<(), String>) -> (r: Step)
        requires
            self.wf(),
        ensures
            self.leads_to(*client, sent, r),
            r.wf(),
    {
        match self {
            AfterSubmit::Finish => answer(sent),
            AfterSubmit::Applied { ata, keys } => match sent {
                Err(reason) => Step::Done(Err(ClientError::Rpc(reason))),
                Ok(_) => Step::ReadAccount(ata, AfterRead::Applied { keys }),
            },
            AfterSubmit::Close { contexts, next } => match sent {
                Err(reason) => Step::Done(Err(ClientError::Rpc(reason))),
                Ok(_) => client.close_from(contexts, next),
            },
            AfterSubmit::Created(s) => s.after_create(sent),
            AfterSubmit::Verified(s) => s.after_verify(sent),
            AfterSubmit::Finished(s) => s.after_finish(sent),
            AfterSubmit::Cleanup(c) => c.after_close(sent),
        }
    }
}

impl AfterTell {
    /// How the conversation goes on once the user was told.
    pub open spec fn leads_to(self, client: Client, step: Step) -> bool {
        match self {
            AfterTell::Finish => step == Step::Done(Ok(())),
            AfterTell::Mint { decimals, mint } => submits(
                step,
                seq![
                    ix_view(
                        Call::InitializeMint { decimals },
                        initialize_mint_metas(client.owner, mint),
                    ),
                ],
                seq![mint],
                AfterSubmit::Finish,
            ),
            AfterTell::Balance { e, keys } => match available_of(e, keys@) {
                Err(error) => step == Step::Done(Err(error)),
                Ok(available) => match pending_of(e, keys@) {
                    Err(error) => step == Step::Done(Err(error)),
                    Ok(pending) => step == Step::Tell(
                        Notice::Confidential { available, pending },
                        AfterTell::Finish,
                    ),
                },
            },
            AfterTell::Stage(s) => s.told(step),
            AfterTell::Cleanup(c) => c.moves_on(step),
        }
    }

    /// Goes on once the user was told.
    pub fn resume(self, client: &Client) -> (r: Step)
        requires
            self.wf(),
        ensures
            self.leads_to(*client, r),
            r.wf(),
    {
        match self {
            AfterTell::Finish => Step::Done(Ok(())),
            AfterTell::Mint { decimals, mint } => {
                let call = ix(
                    &Call::InitializeMint { decimals },
                    initialize_mint_accounts(client.owner, mint),
                );
                let signers: Vec<Pubkey> = vec![mint];
                proof {
                    assert(signers@ =~= seq![mint]);
                }
                submit_one(call, signers, AfterSubmit::Finish)
            },
            AfterTell::Balance { e, keys } => match available(&e, &keys) {
                Err(error) => Step::Done(Err(error)),
                Ok(available) => match pending(&e, &keys) {
                    Err(error) => Step::Done(Err(error)),
                    Ok(pending) => Step::Tell(
                        Notice::Confidential { available, pending },
                        AfterTell::Finish,
                    ),
                },
            },
            AfterTell::Stage(s) => s.after_tell(),
            AfterTell::Cleanup(c) => c.move_on(),
        }
    }
}

} // verus!
