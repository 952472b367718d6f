use anchor_lang::prelude::Pubkey;
use anchor_lang::solana_program::account_info::AccountInfo as RuntimeAccount;
use anchor_lang::solana_program::instruction::Instruction as OutsideInstruction;
use anchor_spl::token_2022::spl_token_2022::extension::confidential_transfer::instruction::inner_configure_account;
use anchor_spl::token_2022::spl_token_2022::extension::confidential_transfer::{
    ConfidentialTransferAccount, ConfidentialTransferMint,
};
use anchor_spl::token_2022::spl_token_2022::extension::{
    BaseStateWithExtensions, ExtensionType, StateWithExtensions,
};
use anchor_spl::token_2022::spl_token_2022::instruction::{initialize_account, mint_to_checked};
use anchor_spl::token_2022::spl_token_2022::state::{Account, Mint};
use confidential_payments::address::{ID, SYSTEM, TOKEN_2022, ZK_ELGAMAL_PROOF};
use confidential_payments::balance::{account, available, pending, remaining, total};
use confidential_payments::calls::{
    configure_accounts, initialize_mint_accounts, ix, owner_accounts, transfer_accounts,
    withdraw_accounts, Call,
};
use confidential_payments::client::Client;
use confidential_payments::error::{ClientError, ProofFault};
use confidential_payments::instruction::{AccountMeta, Instruction};
use confidential_payments::instructions::accounts::{
    AccountError, AccountInfo, HandlerError, Invocation, MintAccount, ProgramFault, TokenAccount,
};
use confidential_payments::instructions::apply_pending::ApplyPending;
use confidential_payments::instructions::deposit::Deposit;
use confidential_payments::instructions::initialize_mint::{initialize_mint, InitializeMint};
use confidential_payments::instructions::transfer_confidential::TransferConfidential;
use confidential_payments::instructions::withdraw::Withdraw;
use confidential_payments::keys::{keys, Keys, TransferProofs};
use confidential_payments::session::{AfterKey, Notice, Step};
use confidential_payments::state::{AccountData, ConfidentialAccount, EMPTY_BALANCE};
use confidential_payments::zk::{encode_verify_proof, Proof, ProofKind};
use solana_keypair::Keypair;
use solana_signer::Signer;
use solana_zk_elgamal_proof_interface::proof_data::{
    BatchedGroupedCiphertext3HandlesValidityProofData, BatchedRangeProofU128Data,
    BatchedRangeProofU64Data, CiphertextCommitmentEqualityProofData, PubkeyValidityProofData,
};
use solana_zk_sdk::encryption::elgamal::{ElGamalCiphertext, ElGamalPubkey};
use solana_zk_sdk::zk_elgamal_proof_program::VerifyZkProof;
use spl_token_2022::processor::Processor;
use spl_token_confidential_transfer_proof_extraction::instruction::ProofLocation;
use spl_token_confidential_transfer_proof_generation::errors::TokenProofGenerationError;
use spl_token_confidential_transfer_proof_generation::try_combine_lo_hi_ciphertexts;
use std::collections::HashMap;

type Key = [u8; 32];

const RENT: &str = "SysvarRent111111111111111111111111111111111";

/// An account as the ledger keeps it.
#[derive(Clone)]
struct Entry {
    lamports: u64,
    owner: Key,
    data: Vec<u8>,
}

/// Why the ledger refused a transaction.
#[derive(Debug)]
enum Refusal {
    Signature,
    Account(AccountError),
    Handler(HandlerError),
    Rights,
    Program(String),
}

/// A ledger that runs the system program's account creation, the proof program's
/// verification, Token-2022 itself, and the payments program of the library.
#[derive(Clone)]
struct Ledger {
    accounts: HashMap<Key, Entry>,
}

fn rent(len: usize) -> u64 {
    (len as u64 + 128) * 3480 * 2
}

fn rent_bytes() -> Vec<u8> {
    let mut data = 3480u64.to_le_bytes().to_vec();
    data.extend_from_slice(&2.0f64.to_le_bytes());
    data.push(50);
    data
}

fn own(i: OutsideInstruction) -> Instruction {
    Instruction {
        program_id: i.program_id.to_bytes(),
        accounts: i
            .accounts
            .iter()
            .map(|m| AccountMeta {
                pubkey: m.pubkey.to_bytes(),
                is_signer: m.is_signer,
                is_writable: m.is_writable,
            })
            .collect(),
        data: i.data,
    }
}

fn copy(i: &Instruction) -> Instruction {
    Instruction { program_id: i.program_id, accounts: i.accounts.clone(), data: i.data.clone() }
}

fn address(key: Key) -> Pubkey {
    Pubkey::from(key)
}

fn words(data: &[u8]) -> u64 {
    u64::from_le_bytes(data[..8].try_into().unwrap())
}

/// Reads a call back from an instruction's data.
fn decode(data: &[u8]) -> Call {
    let zero = [0u8; 36];
    let probes = [
        Call::InitializeMint { decimals: 0 },
        Call::ConfigureAccount {
            decryptable_zero_balance: zero,
            maximum_pending_balance_credit_counter: 0,
        },
        Call::Deposit { amount: 0 },
        Call::ApplyPending {
            expected_pending_balance_credit_counter: 0,
            new_decryptable_available_balance: zero,
        },
        Call::TransferConfidential {
            new_source_decryptable_available_balance: zero,
            transfer_amount_auditor_ciphertext_lo: [0; 64],
            transfer_amount_auditor_ciphertext_hi: [0; 64],
        },
        Call::Withdraw { amount: 0, new_decryptable_available_balance: zero },
    ];
    let kind = probes.iter().find(|p| p.data()[..8] == data[..8]).unwrap();
    let rest = &data[8..];
    match kind {
        Call::InitializeMint { .. } => Call::InitializeMint { decimals: rest[0] },
        Call::ConfigureAccount { .. } => Call::ConfigureAccount {
            decryptable_zero_balance: rest[..36].try_into().unwrap(),
            maximum_pending_balance_credit_counter: words(&rest[36..]),
        },
        Call::Deposit { .. } => Call::Deposit { amount: words(rest) },
        Call::ApplyPending { .. } => Call::ApplyPending {
            expected_pending_balance_credit_counter: words(rest),
            new_decryptable_available_balance: rest[8..44].try_into().unwrap(),
        },
        Call::TransferConfidential { .. } => Call::TransferConfidential {
            new_source_decryptable_available_balance: rest[..36].try_into().unwrap(),
            transfer_amount_auditor_ciphertext_lo: rest[36..100].try_into().unwrap(),
            transfer_amount_auditor_ciphertext_hi: rest[100..164].try_into().unwrap(),
        },
        Call::Withdraw { .. } => Call::Withdraw {
            amount: words(rest),
            new_decryptable_available_balance: rest[8..44].try_into().unwrap(),
        },
    }
}

impl Ledger {
    fn new() -> Ledger {
        Ledger { accounts: HashMap::new() }
    }

    fn get(&self, key: Key) -> Option<Entry> {
        self.accounts.get(&key).filter(|e| e.lamports > 0).cloned()
    }

    fn entry(&self, key: Key) -> Entry {
        self.get(key).unwrap_or(Entry { lamports: 0, owner: SYSTEM, data: vec![] })
    }

    fn data(&self, key: Key) -> Vec<u8> {
        self.entry(key).data
    }

    fn fetch(&self, key: Key) -> Result<AccountData, String> {
        match self.get(key) {
            Some(e) => Ok(AccountData { owner: e.owner, data: e.data }),
            None => Err("AccountNotFound".to_string()),
        }
    }

    fn airdrop(&mut self, key: Key, lamports: u64) {
        let mut e = self.entry(key);
        e.lamports += lamports;
        self.accounts.insert(key, e);
    }

    fn info(&self, m: &AccountMeta) -> AccountInfo {
        let e = self.entry(m.pubkey);
        AccountInfo {
            key: m.pubkey,
            owner: e.owner,
            lamports: e.lamports,
            is_signer: m.is_signer,
            is_writable: m.is_writable,
            executable: [TOKEN_2022, SYSTEM, ZK_ELGAMAL_PROOF].contains(&m.pubkey),
        }
    }

    fn mint(&self, m: &AccountMeta) -> MintAccount {
        let data = self.data(m.pubkey);
        let decimals = match StateWithExtensions::<Mint>::unpack(&data) {
            Ok(state) => state.base.decimals,
            Err(_) => 0,
        };
        MintAccount { info: self.info(m), decimals }
    }

    fn token_account(&self, m: &AccountMeta) -> TokenAccount {
        let data = self.data(m.pubkey);
        let authority = match StateWithExtensions::<Account>::unpack(&data) {
            Ok(state) => state.base.owner.to_bytes(),
            Err(_) => [0; 32],
        };
        TokenAccount { info: self.info(m), authority }
    }

    fn create(&mut self, i: &Instruction) -> Result<(), Refusal> {
        let (from, to) = (i.accounts[0].pubkey, i.accounts[1].pubkey);
        if i.data[..4] != [0, 0, 0, 0] || !i.accounts[0].is_signer || !i.accounts[1].is_signer {
            return Err(Refusal::Program("not a creation".to_string()));
        }
        let (lamports, space) = (words(&i.data[4..]), words(&i.data[12..]));
        let mut payer = self.entry(from);
        if self.get(to).is_some() || payer.lamports < lamports {
            return Err(Refusal::Program("already in use, or unfunded".to_string()));
        }
        payer.lamports -= lamports;
        self.accounts.insert(from, payer);
        let owner: Key = i.data[20..52].try_into().unwrap();
        self.accounts.insert(to, Entry { lamports, owner, data: vec![0; space as usize] });
        Ok(())
    }

    fn zk(&mut self, i: &Instruction) -> Result<(), Refusal> {
        let context = i.accounts[0].pubkey;
        let mut e = self.entry(context);
        if i.data == [0u8] {
            let (destination, authority) = (i.accounts[1].pubkey, i.accounts[2].pubkey);
            if e.owner != ZK_ELGAMAL_PROOF || !i.accounts[2].is_signer || e.data[..32] != authority
            {
                return Err(Refusal::Program("cannot close".to_string()));
            }
            self.accounts.remove(&context);
            self.airdrop(destination, e.lamports);
            return Ok(());
        }
        let bytes = &i.data[1..];
        let (verified, statement) = match i.data[0] {
            3 => {
                let p: CiphertextCommitmentEqualityProofData = bytemuck::pod_read_unaligned(bytes);
                (p.verify_proof().is_ok(), 128)
            }
            4 => {
                let p: PubkeyValidityProofData = bytemuck::pod_read_unaligned(bytes);
                (p.verify_proof().is_ok(), 32)
            }
            6 => {
                let p: BatchedRangeProofU64Data = bytemuck::pod_read_unaligned(bytes);
                (p.verify_proof().is_ok(), 264)
            }
            7 => {
                let p: BatchedRangeProofU128Data = bytemuck::pod_read_unaligned(bytes);
                (p.verify_proof().is_ok(), 264)
            }
            12 => {
                let p: BatchedGroupedCiphertext3HandlesValidityProofData =
                    bytemuck::pod_read_unaligned(bytes);
                (p.verify_proof().is_ok(), 352)
            }
            _ => (false, 0),
        };
        if !verified || e.owner != ZK_ELGAMAL_PROOF || e.data != vec![0u8; 33 + statement] {
            return Err(Refusal::Program("proof refused".to_string()));
        }
        e.data = i.accounts[1].pubkey.to_vec();
        e.data.push(i.data[0]);
        e.data.extend_from_slice(&bytes[..statement]);
        self.accounts.insert(context, e);
        Ok(())
    }

    /// Runs Token-2022. The rent is handed to it as an account.
    fn token_2022(&mut self, i: &Instruction) -> Result<(), Refusal> {
        let mut metas = i.accounts.clone();
        let mut data = i.data.clone();
        let rent_key: Key = RENT.parse::<Pubkey>().unwrap().to_bytes();
        if data[0] == 20 {
            data[0] = 0;
            metas.push(AccountMeta { pubkey: rent_key, is_signer: false, is_writable: false });
        }
        let keys: Vec<Pubkey> = metas.iter().map(|m| address(m.pubkey)).collect();
        let mut entries: Vec<Entry> = metas.iter().map(|m| self.entry(m.pubkey)).collect();
        for (m, e) in metas.iter().zip(entries.iter_mut()) {
            if m.pubkey == rent_key {
                e.data = rent_bytes();
                e.lamports = 1;
            }
        }
        let owners: Vec<Pubkey> = entries.iter().map(|e| address(e.owner)).collect();
        let result = {
            let mut infos: Vec<RuntimeAccount> = vec![];
            for (n, e) in entries.iter_mut().enumerate() {
                infos.push(RuntimeAccount::new(
                    &keys[n],
                    metas[n].is_signer,
                    metas[n].is_writable,
                    &mut e.lamports,
                    &mut e.data,
                    &owners[n],
                    false,
                ));
            }
            Processor::process(&address(TOKEN_2022), &infos, &data)
        };
        result.map_err(|e| Refusal::Program(e.to_string()))?;
        for (m, e) in metas.iter().zip(entries) {
            if m.is_writable {
                self.accounts.insert(m.pubkey, e);
            }
        }
        Ok(())
    }

    /// Runs a call of the payments program, within the rights that the program was given.
    fn invoke(&mut self, invocation: &Invocation, given: &[AccountMeta]) -> Result<(), Refusal> {
        for m in &invocation.instruction.accounts {
            let granted = given.iter().any(|g| {
                g.pubkey == m.pubkey
                    && (g.is_signer || !m.is_signer)
                    && (g.is_writable || !m.is_writable)
            });
            if !granted || !invocation.accounts.contains(&m.pubkey) {
                return Err(Refusal::Rights);
            }
        }
        self.run(&invocation.instruction)
    }

    fn payments(&mut self, i: &Instruction) -> Result<(), Refusal> {
        let m = &i.accounts;
        match decode(&i.data) {
            Call::InitializeMint { decimals } => {
                let accounts = InitializeMint {
                    payer: self.info(&m[0]),
                    mint: self.info(&m[1]),
                    authority: self.info(&m[2]),
                    token_program: self.info(&m[3]),
                    system_program: self.info(&m[4]),
                };
                let lamports = rent(InitializeMint::space().unwrap());
                let made = initialize_mint(&accounts, decimals, lamports).map_err(|e| match e {
                    ProgramFault::Account(e) => Refusal::Account(e),
                    ProgramFault::Handler(e) => Refusal::Handler(e),
                })?;
                for invocation in &made {
                    self.invoke(invocation, m)?;
                }
                Ok(())
            }
            Call::ConfigureAccount {
                decryptable_zero_balance,
                maximum_pending_balance_credit_counter,
            } => {
                let (payer, owner, mint, ata) =
                    (m[0].pubkey, m[1].pubkey, m[2].pubkey, m[3].pubkey);
                if self.get(ata).is_none() {
                    let len = ExtensionType::try_calculate_account_len::<Account>(&[
                        ExtensionType::ConfidentialTransferAccount,
                    ])
                    .unwrap();
                    self.create_token_account(payer, owner, mint, ata, len)?;
                }
                let configure = inner_configure_account(
                    &address(TOKEN_2022),
                    &address(ata),
                    &address(mint),
                    &decryptable_zero_balance.into(),
                    maximum_pending_balance_credit_counter,
                    &address(owner),
                    &[],
                    ProofLocation::ContextStateAccount(&address(m[4].pubkey)),
                )
                .unwrap();
                self.token_2022(&own(configure))
            }
            Call::Deposit { amount } => {
                let accounts = Deposit {
                    owner: self.info(&m[0]),
                    mint: self.mint(&m[1]),
                    token_account: self.token_account(&m[2]),
                    token_program: self.info(&m[3]),
                };
                accounts.validate().map_err(Refusal::Account)?;
                let made = accounts.handler(amount).map_err(Refusal::Handler)?;
                self.invoke(&made, m)
            }
            Call::ApplyPending {
                expected_pending_balance_credit_counter,
                new_decryptable_available_balance,
            } => {
                let accounts = ApplyPending {
                    owner: self.info(&m[0]),
                    mint: self.mint(&m[1]),
                    token_account: self.token_account(&m[2]),
                    token_program: self.info(&m[3]),
                };
                accounts.validate().map_err(Refusal::Account)?;
                let made = accounts
                    .handler(
                        expected_pending_balance_credit_counter,
                        new_decryptable_available_balance,
                    )
                    .map_err(Refusal::Handler)?;
                self.invoke(&made, m)
            }
            Call::TransferConfidential {
                new_source_decryptable_available_balance,
                transfer_amount_auditor_ciphertext_lo,
                transfer_amount_auditor_ciphertext_hi,
            } => {
                let accounts = TransferConfidential {
                    owner: self.info(&m[0]),
                    recipient: self.info(&m[1]),
                    mint: self.mint(&m[2]),
                    source: self.token_account(&m[3]),
                    destination: self.token_account(&m[4]),
                    equality_proof_context: self.info(&m[5]),
                    ciphertext_validity_proof_context: self.info(&m[6]),
                    range_proof_context: self.info(&m[7]),
                    token_program: self.info(&m[8]),
                };
                accounts.validate().map_err(Refusal::Account)?;
                let made = accounts
                    .handler(
                        new_source_decryptable_available_balance,
                        transfer_amount_auditor_ciphertext_lo,
                        transfer_amount_auditor_ciphertext_hi,
                    )
                    .map_err(Refusal::Handler)?;
                self.invoke(&made, m)
            }
            Call::Withdraw { amount, new_decryptable_available_balance } => {
                let accounts = Withdraw {
                    owner: self.info(&m[0]),
                    mint: self.mint(&m[1]),
                    token_account: self.token_account(&m[2]),
                    equality_proof_context: self.info(&m[3]),
                    range_proof_context: self.info(&m[4]),
                    token_program: self.info(&m[5]),
                };
                accounts.validate().map_err(Refusal::Account)?;
                let made = accounts
                    .handler(amount, new_decryptable_available_balance)
                    .map_err(Refusal::Handler)?;
                self.invoke(&made, m)
            }
        }
    }

    fn create_token_account(
        &mut self,
        payer: Key,
        owner: Key,
        mint: Key,
        ata: Key,
        len: usize,
    ) -> Result<(), Refusal> {
        self.create(&own(solana_system_interface::instruction::create_account(
            &address(payer),
            &address(ata),
            rent(len),
            len as u64,
            &address(TOKEN_2022),
        )))?;
        let i = initialize_account(
            &address(TOKEN_2022),
            &address(ata),
            &address(mint),
            &address(owner),
        )
        .unwrap();
        self.token_2022(&own(i))
    }

    fn run(&mut self, i: &Instruction) -> Result<(), Refusal> {
        if i.program_id == SYSTEM {
            self.create(i)
        } else if i.program_id == ZK_ELGAMAL_PROOF {
            self.zk(i)
        } else if i.program_id == TOKEN_2022 {
            self.token_2022(i)
        } else if i.program_id == ID {
            self.payments(i)
        } else {
            Err(Refusal::Program("unknown program".to_string()))
        }
    }

    /// All instructions or none.
    fn send(&mut self, instructions: &[Instruction], signers: &[Key]) -> Result<(), Refusal> {
        let before = self.clone();
        for i in instructions {
            let signed = i.accounts.iter().all(|m| !m.is_signer || signers.contains(&m.pubkey));
            let result = if signed { self.run(i) } else { Err(Refusal::Signature) };
            if result.is_err() {
                *self = before;
                return result;
            }
        }
        Ok(())
    }
}

/// What a conversation came to, and what happened on the way.
struct Outcome {
    answer: Result<(), ClientError>,
    notices: Vec<Notice>,
    reads: Vec<Key>,
    sent: Vec<Vec<Instruction>>,
}

/// Runs a conversation against a ledger. `refuse` says which transactions the network loses.
fn converse(
    ledger: &mut Ledger,
    client: &Client,
    first: Step,
    refuse: fn(usize) -> bool,
) -> Outcome {
    let mut step = first;
    let (mut notices, mut reads, mut sent) = (vec![], vec![], vec![]);
    for _ in 0..30 {
        step = match step {
            Step::ReadAccount(key, k) => {
                reads.push(key);
                k.resume(client, ledger.fetch(key))
            }
            Step::ReadRent(len, k) => k.resume(Ok(rent(len as usize))),
            Step::NewKey(k) => k.resume(Keypair::new().pubkey().to_bytes()),
            Step::Submit(tx, k) => {
                let mut signers = tx.signers.clone();
                signers.push(client.owner());
                // What is created was announced, so that it can be closed by hand.
                if tx.instructions[0].program_id == SYSTEM {
                    let created = tx.instructions[0].accounts[1].pubkey;
                    assert!(matches!(notices.last(), Some(Notice::ProofContext(k)) if *k == created));
                }
                let lost = refuse(sent.len());
                let result = if lost {
                    Err("lost".to_string())
                } else {
                    ledger.send(&tx.instructions, &signers).map_err(|e| format!("{e:?}"))
                };
                sent.push(tx.instructions);
                k.resume(client, result)
            }
            Step::Tell(notice, k) => {
                notices.push(notice);
                k.resume(client)
            }
            Step::Done(answer) => return Outcome { answer, notices, reads, sent },
        };
    }
    panic!("no conversation is that long")
}

fn never(_: usize) -> bool {
    false
}

struct Fixture {
    ledger: Ledger,
    payer: Keypair,
    owner: Keypair,
    client: Client,
    mint: Key,
    ata: Key,
    keys: Keys,
    proof_context: Key,
}

fn client_of(owner: &Keypair) -> Client {
    Client::new("wallet.json", Some(owner.to_bytes())).unwrap()
}

/// Puts a proof into a context account, which the proof program verifies.
fn stage_proof(ledger: &mut Ledger, authority: Key, kind: ProofKind, data: Vec<u8>) -> Key {
    let payer = Keypair::new().pubkey();
    let context = Keypair::new().pubkey();
    let size = kind.context_len();
    ledger.airdrop(payer.to_bytes(), rent(size as usize));
    let create = own(solana_system_interface::instruction::create_account(
        &payer,
        &context,
        rent(size as usize),
        size,
        &address(ZK_ELGAMAL_PROOF),
    ));
    let verify = encode_verify_proof(&Proof { kind, data }, context.to_bytes(), authority);
    ledger.send(&[create, verify], &[payer.to_bytes(), context.to_bytes()]).unwrap();
    context.to_bytes()
}

impl Fixture {
    fn new() -> Fixture {
        let mut ledger = Ledger::new();
        let payer = Keypair::new();
        let owner = Keypair::new();
        let mint = Keypair::new().pubkey().to_bytes();
        ledger.airdrop(payer.pubkey().to_bytes(), 2_000_000_000);
        ledger.airdrop(owner.pubkey().to_bytes(), 2_000_000_000);
        let i = ix(
            &Call::InitializeMint { decimals: 6 },
            initialize_mint_accounts(payer.pubkey().to_bytes(), mint),
        );
        ledger.send(&[i], &[payer.pubkey().to_bytes(), mint]).unwrap();
        let client = client_of(&owner);
        let ata = client.ata(client.owner(), mint);
        let keys = keys(&owner.to_bytes(), ata).unwrap();
        let proof = keys.prove_pubkey();
        let proof_context =
            stage_proof(&mut ledger, owner.pubkey().to_bytes(), proof.kind, proof.data);
        Fixture { ledger, payer, owner, client, mint, ata, keys, proof_context }
    }

    fn key(&self) -> Key {
        self.owner.pubkey().to_bytes()
    }

    fn configure_with(&mut self, credits: u64) {
        let i = ix(
            &Call::ConfigureAccount {
                decryptable_zero_balance: self.keys.encrypt(0),
                maximum_pending_balance_credit_counter: credits,
            },
            configure_accounts(self.key(), self.mint, self.ata, self.proof_context),
        );
        let key = self.key();
        self.ledger.send(&[i], &[key]).unwrap();
    }

    fn configure(&mut self) {
        self.configure_with(65_536);
    }

    /// A token account that holds public tokens only.
    fn create_plain(&mut self) {
        let (key, mint, ata) = (self.key(), self.mint, self.ata);
        self.ledger.create_token_account(key, key, mint, ata, 165).unwrap();
    }

    fn mint_public(&mut self, amount: u64) {
        let payer = self.payer.pubkey();
        let i = mint_to_checked(
            &address(TOKEN_2022),
            &address(self.mint),
            &address(self.ata),
            &payer,
            &[],
            amount,
            6,
        )
        .unwrap();
        self.ledger.send(&[own(i)], &[payer.to_bytes()]).unwrap();
    }

    fn deposit_instruction(&self, amount: u64) -> Instruction {
        ix(&Call::Deposit { amount }, owner_accounts(self.key(), self.mint, self.ata))
    }

    fn send(&mut self, i: Instruction) -> Result<(), Refusal> {
        let key = self.key();
        self.ledger.send(&[i], &[key])
    }

    fn deposit(&mut self, amount: u64) {
        let i = self.deposit_instruction(amount);
        self.send(i).unwrap();
    }

    fn state(&self) -> (u64, ConfidentialAccount) {
        account(self.ledger.fetch(self.ata)).unwrap()
    }

    fn data(&self) -> Vec<u8> {
        self.ledger.data(self.ata)
    }

    /// Encrypts the available balance anew. One that came from deposits only has the identity
    /// as its handle, and of such a ciphertext nothing can be proved.
    fn blind(&mut self, amount: u64) {
        let before = self.state().1.available_balance;
        assert_eq!(before[32..], [0; 32]);
        let after = ElGamalPubkey::try_from(self.keys.pubkey().as_slice())
            .unwrap()
            .encrypt(amount)
            .to_bytes();
        let mut e = self.ledger.entry(self.ata);
        let at = e.data.windows(64).position(|w| w == before).unwrap();
        e.data[at..at + 64].copy_from_slice(&after);
        self.ledger.accounts.insert(self.ata, e);
        assert_eq!(self.keys.decrypt_u32(&self.state().1.available_balance), Some(amount));
    }

    fn extension(&self) -> ConfidentialTransferAccount {
        let data = self.data();
        let state = StateWithExtensions::<Account>::unpack(&data).unwrap();
        *state.get_extension::<ConfidentialTransferAccount>().unwrap()
    }
}

fn meta_of(i: &mut Instruction, key: Key) -> &mut AccountMeta {
    i.accounts.iter_mut().find(|a| a.pubkey == key).unwrap()
}

fn assert_deposited(f: &Fixture, public: u64, expected_pending: u64, credits: u64) {
    let (amount, e) = f.state();
    assert_eq!(amount, public);
    let low = f.keys.decrypt_u32(&e.pending_balance_lo).unwrap();
    let high = f.keys.decrypt_u32(&e.pending_balance_hi).unwrap();
    assert_eq!(low + (high << 16), expected_pending);
    assert_eq!(pending(&e, &f.keys).unwrap(), expected_pending);
    assert_eq!(e.pending_balance_credit_counter, credits);
    // Deposit credits pending only. It must not make funds spendable yet.
    assert_eq!(e.available_balance, [0; 64]);
    assert_eq!(f.keys.decrypt(&e.decryptable_available_balance), Some(0));
}

#[test]
fn moves_public_tokens_into_pending_and_accumulates_credits() {
    let mut f = Fixture::new();
    f.configure();
    f.mint_public(5_000_000);
    let mint_before = f.ledger.data(f.mint);
    let aes_before = f.state().1.decryptable_available_balance;
    // Crosses the 16-bit split so both pending components are exercised.
    f.deposit(1_000_001);
    assert_deposited(&f, 3_999_999, 1_000_001, 1);

    f.deposit(2_000_002);
    assert_deposited(&f, 1_999_997, 3_000_003, 2);
    assert_eq!(f.ledger.data(f.mint), mint_before);
    assert_eq!(f.state().1.decryptable_available_balance, aes_before);
}

#[test]
fn rejects_insufficient_public_balance_without_mutating_the_account() {
    let mut f = Fixture::new();
    f.configure();
    f.mint_public(10);
    let before = f.data();
    let i = f.deposit_instruction(11);
    assert!(f.send(i).is_err());
    assert_eq!(f.data(), before);
}

#[test]
fn rejects_a_signer_who_does_not_own_the_token_account() {
    let mut f = Fixture::new();
    f.configure();
    f.mint_public(10);
    let before = f.data();
    let mut i = f.deposit_instruction(1);
    let (owner, payer) = (f.key(), f.payer.pubkey().to_bytes());
    meta_of(&mut i, owner).pubkey = payer;
    let error = f.ledger.send(&[i], &[payer]).unwrap_err();
    assert!(matches!(error, Refusal::Account(AccountError::ConstraintTokenOwner)), "{error:?}");
    assert_eq!(f.data(), before);
}

#[test]
fn rejects_unconfigured_accounts_without_losing_public_tokens() {
    let mut f = Fixture::new();
    f.create_plain();
    f.mint_public(10);
    let before = f.data();
    let i = f.deposit_instruction(1);
    assert!(matches!(f.send(i), Err(Refusal::Program(_))));
    assert_eq!(f.data(), before);
}

#[test]
fn rejects_amounts_at_the_48_bit_limit() {
    let mut f = Fixture::new();
    f.configure();
    // Supply enough public tokens so the failure tests the per-deposit limit.
    f.mint_public(1 << 48);
    let before = f.data();
    let i = f.deposit_instruction(1 << 48);
    assert!(matches!(f.send(i), Err(Refusal::Program(_))));
    assert_eq!(f.data(), before);
}

#[test]
fn rejects_deposits_when_pending_credit_limit_is_reached() {
    let mut f = Fixture::new();
    f.configure_with(1);
    f.mint_public(10);
    f.deposit(1);
    assert_deposited(&f, 9, 1, 1);
    let before = f.data();
    let i = f.deposit_instruction(2);
    assert!(matches!(f.send(i), Err(Refusal::Program(_))));
    assert_eq!(f.data(), before);
}

fn funded_account(credit_limit: u64) -> Fixture {
    let mut f = Fixture::new();
    f.configure_with(credit_limit);
    f.mint_public(5_000_000);
    f
}

fn apply_instruction(f: &Fixture, counter: u64, new_balance: [u8; 36]) -> Instruction {
    ix(
        &Call::ApplyPending {
            expected_pending_balance_credit_counter: counter,
            new_decryptable_available_balance: new_balance,
        },
        owner_accounts(f.key(), f.mint, f.ata),
    )
}

// Client-side preparation. Keys and plaintext balances never enter instruction data.
fn prepare_apply(f: &Fixture) -> Instruction {
    let (_, e) = f.state();
    assert_eq!(
        e.expected_pending_balance_credit_counter, e.actual_pending_balance_credit_counter,
        "Reconcile a previous apply race before relying on the AES balance copy"
    );
    let updated = available(&e, &f.keys).unwrap() + pending(&e, &f.keys).unwrap();
    assert_eq!(total(&e, &f.keys).unwrap(), updated);
    apply_instruction(f, e.pending_balance_credit_counter, f.keys.encrypt(updated))
}

fn assert_applied(
    f: &Fixture,
    public: u64,
    spendable: u64,
    aes_amount: u64,
    expected: u64,
    actual: u64,
) {
    let (public_amount, e) = f.state();
    assert_eq!(public_amount, public);
    assert_eq!(e.pending_balance_lo, [0; 64]);
    assert_eq!(e.pending_balance_hi, [0; 64]);
    assert_eq!(e.pending_balance_credit_counter, 0);
    assert_eq!(e.expected_pending_balance_credit_counter, expected);
    assert_eq!(e.actual_pending_balance_credit_counter, actual);
    // Small test amounts allow independent decryption of the authoritative balance.
    assert_eq!(f.keys.decrypt_u32(&e.available_balance), Some(spendable));
    assert_eq!(f.keys.decrypt(&e.decryptable_available_balance), Some(aes_amount));
}

#[test]
fn applies_accumulated_pending_and_does_not_double_credit_on_repeat() {
    let mut f = funded_account(65_536);
    f.deposit(1_000_001);
    f.deposit(2_000_002);
    let mint_before = f.ledger.data(f.mint);
    let i = prepare_apply(&f);
    f.send(i).unwrap();
    assert_applied(&f, 1_999_997, 3_000_003, 3_000_003, 2, 2);
    assert_eq!(f.ledger.data(f.mint), mint_before);

    let available_before = f.state().1.available_balance;
    let i = prepare_apply(&f);
    f.send(i).unwrap();
    assert_applied(&f, 1_999_997, 3_000_003, 3_000_003, 0, 0);
    assert_eq!(f.state().1.available_balance, available_before);
}

#[test]
fn resets_credit_capacity_and_adds_to_existing_available_balance() {
    let mut f = funded_account(1);
    f.deposit(100_000);
    let i = prepare_apply(&f);
    f.send(i).unwrap();
    assert_applied(&f, 4_900_000, 100_000, 100_000, 1, 1);
    assert_eq!(u64::from(f.extension().maximum_pending_balance_credit_counter), 1);

    // Another deposit now succeeds without raising the configured credit limit.
    f.deposit(200_000);
    let i = prepare_apply(&f);
    f.send(i).unwrap();
    assert_applied(&f, 4_700_000, 300_000, 300_000, 1, 1);
}

#[test]
fn records_a_credit_race_and_applies_all_pending_without_rejecting() {
    let mut f = funded_account(65_536);
    f.deposit(100_000);
    let stale_apply = prepare_apply(&f);
    // A new pending credit lands after the client has encrypted its new total.
    f.deposit(50_000);
    f.send(stale_apply).unwrap();
    // The authoritative balance includes both credits, while the AES copy is stale.
    assert_applied(&f, 4_850_000, 150_000, 100_000, 1, 2);
    let e = f.state().1;
    assert_ne!(e.expected_pending_balance_credit_counter, e.actual_pending_balance_credit_counter);
    assert!(matches!(available(&e, &f.keys), Err(ClientError::StaleBalance)));
}

#[test]
fn rejects_apply_without_the_owner_signature() {
    let mut f = funded_account(65_536);
    f.deposit(100);
    let before = f.data();
    let mut i = prepare_apply(&f);
    let (owner, payer) = (f.key(), f.payer.pubkey().to_bytes());
    meta_of(&mut i, owner).is_signer = false;
    let error = f.ledger.send(&[i], &[payer]).unwrap_err();
    assert!(matches!(error, Refusal::Account(AccountError::AccountNotSigner)), "{error:?}");
    assert_eq!(f.data(), before);
}

#[test]
fn rejects_apply_by_a_different_signer() {
    let mut f = funded_account(65_536);
    f.deposit(100);
    let before = f.data();
    let mut i = prepare_apply(&f);
    let (owner, payer) = (f.key(), f.payer.pubkey().to_bytes());
    meta_of(&mut i, owner).pubkey = payer;
    assert!(f.ledger.send(&[i], &[payer]).is_err());
    assert_eq!(f.data(), before);
}

#[test]
fn rejects_apply_on_an_unconfigured_ata() {
    let mut f = Fixture::new();
    f.create_plain();
    let before = f.data();
    let i = apply_instruction(&f, 0, f.keys.encrypt(0));
    assert!(matches!(f.send(i), Err(Refusal::Program(_))));
    assert_eq!(f.data(), before);
}

#[test]
fn initializes_confidential_mint_and_rejects_reinitialization() {
    let mut ledger = Ledger::new();
    let (payer, mint, authority) = (
        Keypair::new().pubkey().to_bytes(),
        Keypair::new().pubkey().to_bytes(),
        Keypair::new().pubkey().to_bytes(),
    );
    ledger.airdrop(payer, 1_000_000_000);
    let mut i = ix(&Call::InitializeMint { decimals: 6 }, initialize_mint_accounts(payer, mint));
    i.accounts[2].pubkey = authority;
    ledger.send(&[copy(&i)], &[payer, mint, authority]).unwrap();

    let created = ledger.get(mint).unwrap();
    assert_eq!(created.owner, TOKEN_2022);
    let expected_space = ExtensionType::try_calculate_account_len::<Mint>(&[
        ExtensionType::ConfidentialTransferMint,
    ])
    .unwrap();
    assert_eq!(created.data.len(), expected_space);
    assert!(created.lamports >= rent(expected_space));
    let state = StateWithExtensions::<Mint>::unpack(&created.data).unwrap();
    assert!(state.base.is_initialized);
    assert_eq!(state.base.decimals, 6);
    assert_eq!(state.base.supply, 0);
    assert_eq!(Option::<Pubkey>::from(state.base.mint_authority), Some(address(authority)));
    assert_eq!(Option::<Pubkey>::from(state.base.freeze_authority), None);
    let extension = state.get_extension::<ConfidentialTransferMint>().unwrap();
    assert_eq!(Option::<Pubkey>::from(extension.authority), Some(address(authority)));
    assert!(bool::from(extension.auto_approve_new_accounts));
    assert_eq!(extension.auditor_elgamal_pubkey, Default::default());

    assert!(ledger.send(&[i], &[payer, mint, authority]).is_err());
    assert_eq!(ledger.data(mint), created.data);
}

#[test]
fn rejects_a_different_program_before_creating_the_mint() {
    let mut ledger = Ledger::new();
    let (payer, mint) = (Keypair::new().pubkey().to_bytes(), Keypair::new().pubkey().to_bytes());
    ledger.airdrop(payer, 1_000_000_000);
    let mut i = ix(&Call::InitializeMint { decimals: 6 }, initialize_mint_accounts(payer, mint));
    i.accounts[3].pubkey = SYSTEM;
    let error = ledger.send(&[i], &[payer, mint]).unwrap_err();
    assert!(matches!(error, Refusal::Account(AccountError::InvalidProgramId)), "{error:?}");
    assert!(ledger.get(mint).is_none());
}

fn withdraw_setup() -> Fixture {
    let mut f = Fixture::new();
    f.configure();
    f.mint_public(15_000_000);
    f.deposit(10_000_000);
    let i = apply_instruction(&f, 1, f.keys.encrypt(10_000_000));
    f.send(i).unwrap();
    f.blind(10_000_000);
    f.deposit(2_000_000);
    // Public = 3m, pending = 2m, available = 10m.
    f
}

fn prepare_withdraw(f: &mut Fixture, amount: u64) -> (Instruction, [Key; 2]) {
    let (_, e) = f.state();
    let current = available(&e, &f.keys).unwrap();
    let made = f.keys.prove_withdraw(&e.available_balance, current, amount).unwrap();
    let owner = f.key();
    let equality = stage_proof(
        &mut f.ledger,
        owner,
        ProofKind::CiphertextCommitmentEquality,
        made.equality,
    );
    let range = stage_proof(&mut f.ledger, owner, ProofKind::BatchedRangeProofU64, made.range);
    let i = ix(
        &Call::Withdraw {
            amount,
            new_decryptable_available_balance: f
                .keys
                .encrypt(current.checked_sub(amount).unwrap()),
        },
        withdraw_accounts(owner, f.mint, f.ata, equality, range),
    );
    (i, [equality, range])
}

fn assert_withdrawn(f: &Fixture, public: u64, expected_pending: u64, spendable: u64) {
    let (amount, e) = f.state();
    assert_eq!(amount, public);
    assert_eq!(pending(&e, &f.keys).unwrap(), expected_pending);
    assert_eq!(f.keys.decrypt_u32(&e.available_balance), Some(spendable));
    assert_eq!(f.keys.decrypt(&e.decryptable_available_balance), Some(spendable));
    assert_eq!(e.pending_balance_credit_counter, 1);
}

fn close_contexts(f: &mut Fixture, contexts: &[Key]) {
    let rents: u64 = contexts.iter().map(|p| f.ledger.get(*p).unwrap().lamports).sum();
    let owner = f.key();
    let before = f.ledger.entry(owner).lamports;
    let closes: Vec<Instruction> = contexts.iter().map(|p| f.client.close_ix(*p)).collect();
    f.ledger.send(&closes, &[owner]).unwrap();
    assert_eq!(f.ledger.entry(owner).lamports, before + rents);
    for p in contexts {
        assert!(f.ledger.get(*p).is_none());
    }
}

fn not_enough_funds<T>(made: Result<T, ClientError>) -> bool {
    match made {
        Err(ClientError::Proof(fault)) => {
            fault == ProofFault::NotEnoughFunds
                && fault.message() == TokenProofGenerationError::NotEnoughFunds.to_string()
        }
        _ => false,
    }
}

#[test]
fn withdraws_partial_then_full_available_preserving_pending_and_supply() {
    let mut f = withdraw_setup();
    let pending_before = f.state().1;
    let mint_before = f.ledger.data(f.mint);
    let (i, contexts) = prepare_withdraw(&mut f, 3_000_001);
    f.send(copy(&i)).unwrap();
    assert_withdrawn(&f, 6_000_001, 2_000_000, 6_999_999);
    let current = f.state().1;
    assert_eq!(current.pending_balance_lo, pending_before.pending_balance_lo);
    assert_eq!(current.pending_balance_hi, pending_before.pending_balance_hi);
    assert_eq!(
        current.expected_pending_balance_credit_counter,
        pending_before.expected_pending_balance_credit_counter
    );
    assert_eq!(
        current.actual_pending_balance_credit_counter,
        pending_before.actual_pending_balance_credit_counter
    );
    let before_replay = f.data();
    assert!(f.send(i).is_err());
    assert_eq!(f.data(), before_replay);
    close_contexts(&mut f, &contexts);

    let (i, contexts) = prepare_withdraw(&mut f, 6_999_999);
    f.send(i).unwrap();
    assert_withdrawn(&f, 13_000_000, 2_000_000, 0);
    assert_eq!(f.ledger.data(f.mint), mint_before);
    close_contexts(&mut f, &contexts);
    // Pending still belongs to the owner, but cannot fund a withdrawal until applied.
    let e = f.state().1;
    let current = available(&e, &f.keys).unwrap();
    assert!(not_enough_funds(f.keys.prove_withdraw(&e.available_balance, current, 1)));
    assert!(matches!(remaining(&e, &f.keys, 1), Err(ClientError::InsufficientFunds)));
}

#[test]
fn rejects_an_amount_that_does_not_match_the_verified_remaining_balance() {
    let mut f = withdraw_setup();
    let (mut i, _) = prepare_withdraw(&mut f, 1_000_000);
    i.data = Call::Withdraw {
        amount: 2_000_000,
        new_decryptable_available_balance: f.keys.encrypt(8_000_000),
    }
    .data();
    let before = f.data();
    assert!(matches!(f.send(i), Err(Refusal::Program(_))));
    assert_eq!(f.data(), before);
}

#[test]
fn rejects_missing_owner_signature_and_wrong_context_type() {
    let mut f = withdraw_setup();
    let (i, contexts) = prepare_withdraw(&mut f, 1);
    let before = f.data();
    let (owner, payer) = (f.key(), f.payer.pubkey().to_bytes());
    let mut unsigned = copy(&i);
    meta_of(&mut unsigned, owner).is_signer = false;
    let error = f.ledger.send(&[unsigned], &[payer]).unwrap_err();
    assert!(matches!(error, Refusal::Account(AccountError::AccountNotSigner)), "{error:?}");
    let mut wrong_proof = i;
    meta_of(&mut wrong_proof, contexts[0]).pubkey = contexts[1];
    assert!(matches!(f.send(wrong_proof), Err(Refusal::Program(_))));
    assert_eq!(f.data(), before);
}

#[test]
fn rejects_client_request_exceeding_available_even_when_total_funds_are_sufficient() {
    let mut f = withdraw_setup();
    let e = f.state().1;
    let current = available(&e, &f.keys).unwrap();
    assert!(not_enough_funds(f.keys.prove_withdraw(&e.available_balance, current, 11_000_000)));
    let first = f.client.withdraw(f.mint, 11_000_000);
    let outcome = converse(&mut f.ledger, &f.client, first, never);
    assert!(matches!(outcome.answer, Err(ClientError::InsufficientFunds)));
    assert!(outcome.sent.is_empty());
    assert_withdrawn(&f, 3_000_000, 2_000_000, 10_000_000);
}

struct Recipient {
    owner: Keypair,
    ata: Key,
    keys: Keys,
}

fn recipient(f: &mut Fixture) -> Recipient {
    let owner = Keypair::new();
    let key = owner.pubkey().to_bytes();
    f.ledger.airdrop(key, 1_000_000_000);
    let client = client_of(&owner);
    let ata = client.ata(key, f.mint);
    let keys = keys(&owner.to_bytes(), ata).unwrap();
    let proof = keys.prove_pubkey();
    let context = stage_proof(&mut f.ledger, key, proof.kind, proof.data);
    let configure = ix(
        &Call::ConfigureAccount {
            decryptable_zero_balance: keys.encrypt(0),
            maximum_pending_balance_credit_counter: 65_536,
        },
        configure_accounts(key, f.mint, ata, context),
    );
    f.ledger.send(&[configure, client.close_ix(context)], &[key]).unwrap();
    Recipient { owner, ata, keys }
}

fn mint_and_deposit(f: &mut Fixture, amount: u64) {
    f.mint_public(amount);
    f.deposit(amount);
}

fn apply_total(f: &mut Fixture, total: u64) {
    let counter = f.state().1.pending_balance_credit_counter;
    let i = apply_instruction(f, counter, f.keys.encrypt(total));
    f.send(i).unwrap();
}

fn transfer_setup() -> (Fixture, Recipient) {
    let mut f = Fixture::new();
    f.configure();
    let bob = recipient(&mut f);
    mint_and_deposit(&mut f, 10_000_000);
    apply_total(&mut f, 10_000_000);
    (f, bob)
}

fn transfer_proofs(
    f: &Fixture,
    recipient_key: &[u8; 32],
    amount: u64,
) -> Result<TransferProofs, ClientError> {
    let e = f.state().1;
    f.keys.prove_transfer(
        &e.available_balance,
        &e.decryptable_available_balance,
        amount,
        recipient_key,
    )
}

struct PreparedTransfer {
    instruction: Instruction,
    contexts: [Key; 3],
}

fn prepare_transfer(
    f: &mut Fixture,
    bob: &Recipient,
    amount: u64,
    made: TransferProofs,
) -> PreparedTransfer {
    let authority = f.key();
    let equality = stage_proof(
        &mut f.ledger,
        authority,
        ProofKind::CiphertextCommitmentEquality,
        made.equality,
    );
    let validity = stage_proof(
        &mut f.ledger,
        authority,
        ProofKind::BatchedGroupedCiphertext3HandlesValidity,
        made.validity,
    );
    let range =
        stage_proof(&mut f.ledger, authority, ProofKind::BatchedRangeProofU128, made.range);
    let rest = remaining(&f.state().1, &f.keys, amount).unwrap();
    let instruction = ix(
        &Call::TransferConfidential {
            new_source_decryptable_available_balance: f.keys.encrypt(rest),
            transfer_amount_auditor_ciphertext_lo: made.auditor_lo,
            transfer_amount_auditor_ciphertext_hi: made.auditor_hi,
        },
        transfer_accounts(
            authority,
            bob.owner.pubkey().to_bytes(),
            f.mint,
            f.ata,
            bob.ata,
            equality,
            validity,
            range,
        ),
    );
    PreparedTransfer { instruction, contexts: [equality, validity, range] }
}

fn balances(f: &Fixture, ata: Key, k: &Keys) -> (u64, u64, u64, u64) {
    let (amount, e) = account(f.ledger.fetch(ata)).unwrap();
    let spendable = k.decrypt_u32(&e.available_balance).unwrap();
    assert_eq!(spendable, k.decrypt(&e.decryptable_available_balance).unwrap());
    (amount, pending(&e, k).unwrap(), spendable, e.pending_balance_credit_counter)
}

#[test]
fn transfers_to_recipient_pending_then_applies_and_closes_proofs() {
    let (mut f, bob) = transfer_setup();
    let made = transfer_proofs(&f, &bob.keys.pubkey(), 3_000_001).unwrap();
    let prepared = prepare_transfer(&mut f, &bob, 3_000_001, made);
    // Pending may change after proof generation without invalidating available-balance proofs.
    mint_and_deposit(&mut f, 5);
    let mint_before = f.ledger.data(f.mint);
    // Only Alice signs the transfer; Bob need not be online.
    f.send(copy(&prepared.instruction)).unwrap();
    assert_eq!(balances(&f, f.ata, &f.keys), (0, 5, 6_999_999, 1));
    assert_eq!(balances(&f, bob.ata, &bob.keys), (0, 3_000_001, 0, 1));
    assert_eq!(f.ledger.data(f.mint), mint_before);

    let source_before = f.data();
    let destination_before = f.ledger.data(bob.ata);
    assert!(f.send(prepared.instruction).is_err());
    assert_eq!(f.data(), source_before);
    assert_eq!(f.ledger.data(bob.ata), destination_before);

    close_contexts(&mut f, &prepared.contexts);

    let key = bob.owner.pubkey().to_bytes();
    let (_, e) = account(f.ledger.fetch(bob.ata)).unwrap();
    let apply = ix(
        &Call::ApplyPending {
            expected_pending_balance_credit_counter: e.pending_balance_credit_counter,
            new_decryptable_available_balance: bob.keys.encrypt(3_000_001),
        },
        owner_accounts(key, f.mint, bob.ata),
    );
    f.ledger.send(&[apply], &[key]).unwrap();
    assert_eq!(balances(&f, bob.ata, &bob.keys), (0, 0, 3_000_001, 0));
}

#[test]
fn rejects_proofs_encrypted_for_a_different_recipient() {
    let (mut f, bob) = transfer_setup();
    let wrong_key = keys(&Keypair::new().to_bytes(), bob.ata).unwrap();
    let made = transfer_proofs(&f, &wrong_key.pubkey(), 1).unwrap();
    let prepared = prepare_transfer(&mut f, &bob, 1, made);
    let source = f.data();
    let destination = f.ledger.data(bob.ata);
    assert!(matches!(f.send(prepared.instruction), Err(Refusal::Program(_))));
    assert_eq!(f.data(), source);
    assert_eq!(f.ledger.data(bob.ata), destination);
}

#[test]
fn rejects_missing_sender_signature_and_wrong_proof_context_type() {
    let (mut f, bob) = transfer_setup();
    let made = transfer_proofs(&f, &bob.keys.pubkey(), 1).unwrap();
    let prepared = prepare_transfer(&mut f, &bob, 1, made);
    let source = f.data();
    let destination = f.ledger.data(bob.ata);
    let (owner, payer) = (f.key(), f.payer.pubkey().to_bytes());
    let mut unsigned = copy(&prepared.instruction);
    meta_of(&mut unsigned, owner).is_signer = false;
    let error = f.ledger.send(&[unsigned], &[payer]).unwrap_err();
    assert!(matches!(error, Refusal::Account(AccountError::AccountNotSigner)), "{error:?}");
    let mut wrong_context = prepared.instruction;
    meta_of(&mut wrong_context, prepared.contexts[0]).pubkey = prepared.contexts[2];
    assert!(matches!(f.send(wrong_context), Err(Refusal::Program(_))));
    assert_eq!(f.data(), source);
    assert_eq!(f.ledger.data(bob.ata), destination);
}

#[test]
fn rejects_preverified_proofs_after_source_available_balance_changes() {
    let (mut f, bob) = transfer_setup();
    let made = transfer_proofs(&f, &bob.keys.pubkey(), 1).unwrap();
    let prepared = prepare_transfer(&mut f, &bob, 1, made);
    mint_and_deposit(&mut f, 1);
    apply_total(&mut f, 10_000_001);
    let source = f.data();
    assert!(matches!(f.send(prepared.instruction), Err(Refusal::Program(_))));
    assert_eq!(f.data(), source);
    assert_eq!(balances(&f, bob.ata, &bob.keys), (0, 0, 0, 0));
}

#[test]
fn client_rejects_spending_more_than_available() {
    let (mut f, bob) = transfer_setup();
    assert!(not_enough_funds(transfer_proofs(&f, &bob.keys.pubkey(), 10_000_001)));
    let first = f.client.transfer(f.mint, bob.owner.pubkey().to_bytes(), 10_000_001);
    let outcome = converse(&mut f.ledger, &f.client, first, never);
    assert!(matches!(outcome.answer, Err(ClientError::InsufficientFunds)));
    assert!(outcome.sent.is_empty());
}

fn announced(outcome: &Outcome) -> Vec<Key> {
    let mut keys = vec![];
    for notice in &outcome.notices {
        if let Notice::ProofContext(key) = notice {
            keys.push(*key);
        }
    }
    keys
}

#[test]
fn client_creates_a_mint() {
    let owner = Keypair::new();
    let client = client_of(&owner);
    let mut ledger = Ledger::new();
    ledger.airdrop(client.owner(), 1_000_000_000);
    let outcome = converse(&mut ledger, &client, client.initialize_mint(9), never);
    assert!(outcome.answer.is_ok());
    let mint = match outcome.notices[..] {
        [Notice::Mint(mint)] => mint,
        _ => panic!("one mint is announced"),
    };
    let data = ledger.data(mint);
    let state = StateWithExtensions::<Mint>::unpack(&data).unwrap();
    assert_eq!(state.base.decimals, 9);
    assert_eq!(Option::<Pubkey>::from(state.base.mint_authority), Some(owner.pubkey()));
    assert_eq!(outcome.sent.len(), 1);
    let lost = converse(&mut ledger, &client, client.initialize_mint(9), |_| true);
    assert!(matches!(lost.answer, Err(ClientError::Rpc(reason)) if reason == "lost"));
}

#[test]
fn client_configures_deposits_and_applies() {
    let mut f = Fixture::new();
    let unconfigured =
        converse(&mut f.ledger, &f.client, f.client.balance(f.mint), never);
    assert!(matches!(unconfigured.answer, Err(ClientError::AccountNotFound(_))));

    let outcome = converse(&mut f.ledger, &f.client, f.client.configure(f.mint), never);
    assert!(outcome.answer.is_ok());
    let contexts = announced(&outcome);
    assert_eq!(contexts.len(), 1);
    assert!(matches!(outcome.notices[1], Notice::Configured(ata) if ata == f.ata));
    assert_eq!(outcome.sent.iter().map(|tx| tx.len()).collect::<Vec<_>>(), [1, 1, 2]);
    assert!(f.ledger.get(contexts[0]).is_none());
    assert_eq!(u64::from(f.extension().maximum_pending_balance_credit_counter), 65_536);
    assert_eq!(f.state().1.elgamal_pubkey, f.keys.pubkey());
    assert_eq!(available(&f.state().1, &f.keys).unwrap(), 0);
    assert_eq!(pending(&f.state().1, &f.keys).unwrap(), 0);
    assert_eq!(f.state().1.available_balance, EMPTY_BALANCE);
    assert_eq!(f.state().1.pending_balance_credit_counter, 0);

    f.mint_public(5_000_000);
    let outcome = converse(&mut f.ledger, &f.client, f.client.deposit(f.mint, 1_000_001), never);
    assert!(outcome.answer.is_ok());
    let outcome = converse(&mut f.ledger, &f.client, f.client.balance(f.mint), never);
    assert!(outcome.answer.is_ok());
    assert!(matches!(
        outcome.notices[..],
        [
            Notice::Public { amount: 3_999_999, .. },
            Notice::Confidential { available: 0, pending: 1_000_001 }
        ]
    ));

    let outcome = converse(&mut f.ledger, &f.client, f.client.apply_pending(f.mint), never);
    assert!(outcome.answer.is_ok());
    assert_eq!(outcome.reads, [f.ata, f.ata]);
    assert_eq!(available(&f.state().1, &f.keys).unwrap(), 1_000_001);
    assert_eq!(f.state().1.pending_balance_credit_counter, 0);
}

#[test]
fn client_notices_a_credit_that_slips_in() {
    let mut f = funded_account(65_536);
    f.deposit(100_000);
    let submit = match f.client.apply_pending(f.mint) {
        Step::ReadAccount(key, k) => k.resume(&f.client, f.ledger.fetch(key)),
        _ => panic!("the account is read first"),
    };
    f.deposit(50_000);
    let outcome = converse(&mut f.ledger, &f.client, submit, never);
    assert!(matches!(outcome.answer, Err(ClientError::StaleBalance)));
    assert_eq!(f.keys.decrypt_u32(&f.state().1.available_balance), Some(150_000));
    let next = converse(&mut f.ledger, &f.client, f.client.withdraw(f.mint, 1), never);
    assert!(matches!(next.answer, Err(ClientError::StaleBalance)));
    assert!(next.sent.is_empty());
}

#[test]
fn client_transfers_and_leaves_no_context() {
    let (mut f, bob) = transfer_setup();
    let to = bob.owner.pubkey().to_bytes();
    // Something is pending at the recipient already.
    let i = mint_to_checked(
        &address(TOKEN_2022),
        &address(f.mint),
        &address(bob.ata),
        &f.payer.pubkey(),
        &[],
        70_007,
        6,
    )
    .unwrap();
    f.ledger.send(&[own(i)], &[f.payer.pubkey().to_bytes()]).unwrap();
    let bobs = client_of(&bob.owner);
    let deposited = converse(&mut f.ledger, &bobs, bobs.deposit(f.mint, 70_000), never);
    assert!(deposited.answer.is_ok());
    assert_eq!(balances(&f, bob.ata, &bob.keys), (7, 70_000, 0, 1));
    let mint_before = f.ledger.data(f.mint);
    let first = f.client.transfer(f.mint, to, 3_000_001);
    let outcome = converse(&mut f.ledger, &f.client, first, never);
    assert!(outcome.answer.is_ok());
    assert_eq!(outcome.reads, [f.ata, bob.ata, f.mint]);
    let contexts = announced(&outcome);
    assert_eq!(contexts.len(), 3);
    assert_eq!(outcome.sent.iter().map(|tx| tx.len()).collect::<Vec<_>>(), [1, 1, 1, 1, 1, 1, 4]);
    let last = &outcome.sent[6];
    for (n, context) in contexts.iter().enumerate() {
        assert_eq!(last[0].accounts[5 + n].pubkey, *context);
        assert_eq!(last[1 + n].accounts[0].pubkey, *context);
        assert!(f.ledger.get(*context).is_none());
    }
    assert_eq!(balances(&f, bob.ata, &bob.keys), (7, 3_070_001, 0, 2));
    assert_eq!(balances(&f, f.ata, &f.keys), (0, 0, 6_999_999, 0));
    assert_eq!(f.ledger.data(f.mint), mint_before);
}

#[test]
fn client_withdraws() {
    let mut f = withdraw_setup();
    let outcome = converse(&mut f.ledger, &f.client, f.client.withdraw(f.mint, 4), never);
    assert!(outcome.answer.is_ok());
    assert_eq!(outcome.sent.iter().map(|tx| tx.len()).collect::<Vec<_>>(), [1, 1, 1, 1, 3]);
    for context in announced(&outcome) {
        assert!(f.ledger.get(context).is_none());
    }
    let (amount, e) = f.state();
    assert_eq!(amount, 3_000_004);
    assert_eq!(available(&e, &f.keys).unwrap(), 9_999_996);
}

/// Answers every account that is asked for, up to the first step that asks for something else.
fn once_read(f: &Fixture, first: Step) -> Step {
    let mut step = first;
    while let Step::ReadAccount(key, k) = step {
        step = k.resume(&f.client, f.ledger.fetch(key));
    }
    step
}

#[test]
fn client_proves_about_the_available_balance_only() {
    let (f, bob) = transfer_setup();
    let (_, e) = f.state();
    let balance = ElGamalCiphertext::from_bytes(&e.available_balance).unwrap();

    match once_read(&f, f.client.withdraw(f.mint, 3_000_001)) {
        Step::NewKey(AfterKey::Stage(s)) => assert_eq!(
            s.proofs[0].data[32..96],
            balance.subtract_amount(3_000_001u64).to_bytes()
        ),
        _ => panic!("the proofs are staged"),
    }

    match once_read(&f, f.client.transfer(f.mint, bob.owner.pubkey().to_bytes(), 3_000_001)) {
        Step::NewKey(AfterKey::Stage(s)) => {
            let part = |at: usize| {
                let validity = &s.proofs[1].data;
                let bytes = [&validity[at..at + 32], &validity[at + 32..at + 64]].concat();
                ElGamalCiphertext::from_bytes(&bytes).unwrap()
            };
            let amount = try_combine_lo_hi_ciphertexts(&part(96), &part(224), 16).unwrap();
            assert_eq!(s.proofs[0].data[32..96], (&balance - &amount).to_bytes());
        }
        _ => panic!("the proofs are staged"),
    }
}

#[test]
fn deposit_apply_and_withdraw_lead_back() {
    let mut f = Fixture::new();
    f.configure();
    f.mint_public(15_000_000);
    f.deposit(10_000_000);
    let i = apply_instruction(&f, 1, f.keys.encrypt(10_000_000));
    f.send(i).unwrap();
    f.blind(10_000_000);
    let mint_before = f.ledger.data(f.mint);
    let read = |f: &Fixture| {
        let (public, e) = f.state();
        (public, pending(&e, &f.keys).unwrap(), available(&e, &f.keys).unwrap())
    };
    assert_eq!(read(&f), (5_000_000, 0, 10_000_000));

    // Crosses the 16-bit split so both pending components are exercised.
    let outcome = converse(&mut f.ledger, &f.client, f.client.deposit(f.mint, 3_000_001), never);
    assert!(outcome.answer.is_ok());
    assert_eq!(read(&f), (1_999_999, 3_000_001, 10_000_000));

    let outcome = converse(&mut f.ledger, &f.client, f.client.apply_pending(f.mint), never);
    assert!(outcome.answer.is_ok());
    assert_eq!(read(&f), (1_999_999, 0, 13_000_001));
    let (_, applied) = f.state();
    assert_eq!(applied.pending_balance_lo, EMPTY_BALANCE);
    assert_eq!(applied.pending_balance_hi, EMPTY_BALANCE);

    let outcome = converse(&mut f.ledger, &f.client, f.client.withdraw(f.mint, 3_000_001), never);
    assert!(outcome.answer.is_ok());
    assert_eq!(read(&f), (5_000_000, 0, 10_000_000));
    let (_, last) = f.state();
    assert_eq!(f.keys.decrypt_u32(&last.available_balance), Some(10_000_000));
    assert_eq!(f.keys.decrypt(&last.decryptable_available_balance), Some(10_000_000));
    let taken = ElGamalCiphertext::from_bytes(&applied.available_balance).unwrap();
    assert_eq!(last.available_balance, taken.subtract_amount(3_000_001u64).to_bytes());
    assert_eq!(f.ledger.data(f.mint), mint_before);
}

#[test]
fn client_closes_its_contexts_when_the_last_transaction_is_lost() {
    let mut f = withdraw_setup();
    let before = f.data();
    let funds = f.ledger.entry(f.key()).lamports;
    let first = f.client.withdraw(f.mint, 4);
    let outcome = converse(&mut f.ledger, &f.client, first, |n| n == 4);
    assert!(matches!(outcome.answer, Err(ClientError::Rpc(ref reason)) if reason == "lost"));
    let contexts = announced(&outcome);
    assert_eq!(outcome.reads, [f.ata, contexts[0], contexts[1]]);
    for (n, context) in contexts.iter().enumerate() {
        assert_eq!(outcome.sent[5 + n][0].accounts[0].pubkey, *context);
        assert!(f.ledger.get(*context).is_none());
    }
    assert_eq!(f.data(), before);
    assert_eq!(f.ledger.entry(f.key()).lamports, funds);
}

#[test]
fn client_reports_a_context_that_it_cannot_close() {
    let mut f = Fixture::new();
    // The account is created, but its proof is never verified.
    let first = f.client.configure(f.mint);
    let outcome = converse(&mut f.ledger, &f.client, first, |n| n == 1);
    assert!(matches!(outcome.answer, Err(ClientError::Rpc(ref reason)) if reason == "lost"));
    let contexts = announced(&outcome);
    match &outcome.notices[1] {
        Notice::CloseFailed { context, error } => {
            assert_eq!(*context, contexts[0]);
            assert!(error.message().contains("cannot close"));
        }
        _ => panic!("the context is reported"),
    }
    assert!(f.ledger.get(contexts[0]).is_some());
    // Nothing to close where the account never came to be.
    let first = f.client.configure(f.mint);
    let outcome = converse(&mut f.ledger, &f.client, first, |n| n == 0);
    assert!(matches!(outcome.answer, Err(ClientError::Rpc(_))));
    assert_eq!(outcome.sent.len(), 1);
    assert_eq!(outcome.reads, announced(&outcome));
}

#[test]
fn client_closes_contexts_on_request() {
    let mut f = Fixture::new();
    let context = f.proof_context;
    let missing = Keypair::new().pubkey().to_bytes();
    let rents = f.ledger.get(context).unwrap().lamports;
    let funds = f.ledger.entry(f.key()).lamports;
    let first = f.client.close_proofs(vec![context, missing]);
    let outcome = converse(&mut f.ledger, &f.client, first, never);
    assert!(matches!(outcome.answer, Err(ClientError::Rpc(_))));
    assert_eq!(outcome.sent.len(), 2);
    assert_eq!(f.ledger.entry(f.key()).lamports, funds + rents);
    let nothing = converse(&mut f.ledger, &f.client, f.client.close_proofs(vec![]), never);
    assert!(nothing.answer.is_ok());
    assert!(nothing.sent.is_empty());
}
