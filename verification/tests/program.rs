use anchor_lang::prelude::Pubkey;
use anchor_lang::solana_program::instruction::Instruction as OutsideInstruction;
use anchor_spl::token_2022::spl_token_2022;
use anchor_spl::token_2022::spl_token_2022::extension::confidential_transfer::instruction as confidential;
use confidential_payments::address::{
    ASSOCIATED_TOKEN, ID, SYSTEM, TOKEN, TOKEN_2022, ZK_ELGAMAL_PROOF,
};
use confidential_payments::bytes::{push_le64, same};
use confidential_payments::calls::{
    configure_accounts, initialize_mint_accounts, ix, owner_accounts, transfer_accounts,
    withdraw_accounts, Call,
};
use confidential_payments::client::Client;
use confidential_payments::instruction::{AccountMeta, Instruction};
use confidential_payments::instructions::accounts::{
    AccountError, AccountInfo, HandlerError, MintAccount, ProgramFault, TokenAccount,
};
use confidential_payments::instructions::apply_pending::ApplyPending;
use confidential_payments::instructions::deposit::Deposit;
use confidential_payments::instructions::initialize_mint::{initialize_mint, InitializeMint};
use confidential_payments::instructions::transfer_confidential::TransferConfidential;
use confidential_payments::instructions::withdraw::Withdraw;
use confidential_payments::token::CONFIDENTIAL_MINT_LEN;
use confidential_payments::zk::{encode_verify_proof, Proof, ProofKind};
use solana_keypair::Keypair;
use solana_zk_elgamal_proof_interface::instruction::{
    close_context_state, ContextStateInfo, ProofInstruction,
};
use solana_zk_elgamal_proof_interface::proof_data::{
    BatchedGroupedCiphertext3HandlesValidityProofContext,
    BatchedGroupedCiphertext3HandlesValidityProofData, BatchedRangeProofContext,
    BatchedRangeProofU128Data, BatchedRangeProofU64Data, CiphertextCommitmentEqualityProofContext,
    CiphertextCommitmentEqualityProofData, PubkeyValidityProofContext, PubkeyValidityProofData,
};
use solana_zk_elgamal_proof_interface::state::ProofContextState;
use spl_token_confidential_transfer_proof_extraction::instruction::ProofLocation;

type Key = [u8; 32];

fn agrees(ours: &Instruction, theirs: &OutsideInstruction) -> bool {
    ours.program_id == theirs.program_id.to_bytes()
        && ours.data == theirs.data
        && ours.accounts.len() == theirs.accounts.len()
        && ours.accounts.iter().zip(&theirs.accounts).all(|(a, b)| {
            a.pubkey == b.pubkey.to_bytes()
                && a.is_signer == b.is_signer
                && a.is_writable == b.is_writable
        })
}

fn key(n: u8) -> Key {
    [n; 32]
}

fn address(n: u8) -> Pubkey {
    Pubkey::from(key(n))
}

fn client() -> Client {
    Client::new("w.json", Some(Keypair::new().to_bytes())).unwrap()
}

fn plain(k: Key, owner: Key) -> AccountInfo {
    AccountInfo {
        key: k,
        owner,
        lamports: 1,
        is_signer: false,
        is_writable: false,
        executable: false,
    }
}

fn signing(k: Key) -> AccountInfo {
    AccountInfo { is_signer: true, ..plain(k, SYSTEM) }
}

fn program(k: Key) -> AccountInfo {
    AccountInfo { executable: true, ..plain(k, SYSTEM) }
}

fn mint() -> MintAccount {
    MintAccount { info: plain(key(2), TOKEN_2022), decimals: 6 }
}

fn own_account(owner: Key) -> TokenAccount {
    let ata = client().ata(owner, key(2));
    TokenAccount {
        info: AccountInfo { is_writable: true, ..plain(ata, TOKEN_2022) },
        authority: owner,
    }
}

fn deposit() -> Deposit {
    Deposit {
        owner: signing(key(1)),
        mint: mint(),
        token_account: own_account(key(1)),
        token_program: program(TOKEN_2022),
    }
}

fn apply_pending() -> ApplyPending {
    ApplyPending {
        owner: signing(key(1)),
        mint: mint(),
        token_account: own_account(key(1)),
        token_program: program(TOKEN_2022),
    }
}

fn withdraw() -> Withdraw {
    Withdraw {
        owner: signing(key(1)),
        mint: mint(),
        token_account: own_account(key(1)),
        equality_proof_context: plain(key(5), ZK_ELGAMAL_PROOF),
        range_proof_context: plain(key(7), ZK_ELGAMAL_PROOF),
        token_program: program(TOKEN_2022),
    }
}

fn transfer() -> TransferConfidential {
    TransferConfidential {
        owner: signing(key(1)),
        recipient: plain(key(4), SYSTEM),
        mint: mint(),
        source: own_account(key(1)),
        destination: own_account(key(4)),
        equality_proof_context: plain(key(5), ZK_ELGAMAL_PROOF),
        ciphertext_validity_proof_context: plain(key(6), ZK_ELGAMAL_PROOF),
        range_proof_context: plain(key(7), ZK_ELGAMAL_PROOF),
        token_program: program(TOKEN_2022),
    }
}

fn new_mint() -> InitializeMint {
    InitializeMint {
        payer: AccountInfo { is_writable: true, ..signing(key(1)) },
        mint: AccountInfo { is_writable: true, ..signing(key(2)) },
        authority: signing(key(3)),
        token_program: program(TOKEN_2022),
        system_program: program(SYSTEM),
    }
}

#[test]
fn programs_have_their_addresses() {
    assert_eq!(Pubkey::from(ID).to_string(), "8DXYc6hMDiU9jh5QJSYVR59kkvpoJKCnLWoSUn8V1L27");
    assert_eq!(TOKEN_2022, spl_token_2022::id().to_bytes());
    assert_eq!(TOKEN, anchor_spl::token::ID.to_bytes());
    assert_eq!(ASSOCIATED_TOKEN, anchor_spl::associated_token::ID.to_bytes());
    assert_eq!(ZK_ELGAMAL_PROOF, solana_zk_elgamal_proof_interface::id().to_bytes());
    assert_eq!(SYSTEM, anchor_lang::solana_program::system_program::ID.to_bytes());
}

#[test]
fn finds_associated_token_accounts() {
    let found = client().ata(key(1), key(2));
    let expected = anchor_spl::associated_token::get_associated_token_address_with_program_id(
        &address(1),
        &address(2),
        &spl_token_2022::id(),
    );
    assert_eq!(found, expected.to_bytes());
    assert_ne!(found, client().ata(key(2), key(1)));
}

#[test]
fn calls_start_with_the_hash_of_their_name() {
    let calls = [
        (Call::InitializeMint { decimals: 6 }, "global:initialize_mint", 9),
        (
            Call::ConfigureAccount {
                decryptable_zero_balance: [1; 36],
                maximum_pending_balance_credit_counter: 65_536,
            },
            "global:configure_account",
            52,
        ),
        (Call::Deposit { amount: 1 }, "global:deposit", 16),
        (
            Call::ApplyPending {
                expected_pending_balance_credit_counter: 1,
                new_decryptable_available_balance: [1; 36],
            },
            "global:apply_pending",
            52,
        ),
        (
            Call::TransferConfidential {
                new_source_decryptable_available_balance: [1; 36],
                transfer_amount_auditor_ciphertext_lo: [2; 64],
                transfer_amount_auditor_ciphertext_hi: [3; 64],
            },
            "global:transfer_confidential",
            172,
        ),
        (
            Call::Withdraw { amount: 1, new_decryptable_available_balance: [1; 36] },
            "global:withdraw",
            52,
        ),
    ];
    for (call, name, len) in &calls {
        let data = call.data();
        assert_eq!(data[..8], solana_sha256_hasher::hash(name.as_bytes()).to_bytes()[..8]);
        assert_eq!(data.len(), *len);
    }
    for (a, x, _) in &calls {
        for (b, y, _) in &calls {
            assert_eq!(x == y, a.data() == b.data());
        }
    }
    assert_eq!(Call::Deposit { amount: 0x0102_0304_0506_0708 }.data()[8..], [8, 7, 6, 5, 4, 3, 2, 1]);
    assert_ne!(Call::Deposit { amount: 1 }.data(), Call::Deposit { amount: 256 }.data());
    let configure = calls[1].0.data();
    assert_eq!(configure[8..44], [1; 36]);
    assert_eq!(configure[44..], [0, 0, 1, 0, 0, 0, 0, 0]);
    let transfer = calls[4].0.data();
    assert_eq!(transfer[44..108], [2; 64]);
    assert_eq!(transfer[108..], [3; 64]);
}

#[test]
fn calls_name_their_accounts() {
    let flags = |metas: Vec<AccountMeta>| -> Vec<(Key, bool, bool)> {
        metas.iter().map(|m| (m.pubkey, m.is_signer, m.is_writable)).collect()
    };
    let (o, m, t) = (key(1), key(2), key(3));
    assert_eq!(
        flags(initialize_mint_accounts(o, m)),
        [(o, true, true), (m, true, true), (o, true, false), (TOKEN_2022, false, false), (SYSTEM, false, false)]
    );
    assert_eq!(
        flags(owner_accounts(o, m, t)),
        [(o, true, false), (m, false, false), (t, false, true), (TOKEN_2022, false, false)]
    );
    assert_eq!(
        flags(configure_accounts(o, m, t, key(4))),
        [
            (o, true, true), (o, true, false), (m, false, false), (t, false, true),
            (key(4), false, false), (TOKEN_2022, false, false),
            (ASSOCIATED_TOKEN, false, false), (SYSTEM, false, false)
        ]
    );
    assert_eq!(
        flags(withdraw_accounts(o, m, t, key(5), key(6))),
        [
            (o, true, false), (m, false, false), (t, false, true), (key(5), false, false),
            (key(6), false, false), (TOKEN_2022, false, false)
        ]
    );
    assert_eq!(
        flags(transfer_accounts(o, key(9), m, t, key(4), key(5), key(6), key(7))),
        [
            (o, true, false), (key(9), false, false), (m, false, false), (t, false, true),
            (key(4), false, true), (key(5), false, false), (key(6), false, false),
            (key(7), false, false), (TOKEN_2022, false, false)
        ]
    );
    let call = ix(&Call::Deposit { amount: 5 }, owner_accounts(o, m, t));
    assert_eq!(call.program_id, ID);
    assert_eq!(call.accounts.len(), 4);
    assert_eq!(call.data, Call::Deposit { amount: 5 }.data());
}

#[test]
fn proofs_are_verified_and_closed_as_the_proof_program_expects() {
    let (context, authority) = (address(8), address(1));
    let info = || ContextStateInfo {
        context_state_account: &context,
        context_state_authority: &authority,
    };
    let ours = |kind: ProofKind, len: usize| {
        encode_verify_proof(&Proof { kind, data: vec![0; len] }, key(8), key(1))
    };
    let validity: PubkeyValidityProofData = bytemuck::Zeroable::zeroed();
    let equality: CiphertextCommitmentEqualityProofData = bytemuck::Zeroable::zeroed();
    let grouped: BatchedGroupedCiphertext3HandlesValidityProofData = bytemuck::Zeroable::zeroed();
    let short: BatchedRangeProofU64Data = bytemuck::Zeroable::zeroed();
    let long: BatchedRangeProofU128Data = bytemuck::Zeroable::zeroed();
    assert!(agrees(
        &ours(ProofKind::PubkeyValidity, 96),
        &ProofInstruction::VerifyPubkeyValidity.encode_verify_proof(Some(info()), &validity)
    ));
    assert!(agrees(
        &ours(ProofKind::CiphertextCommitmentEquality, 320),
        &ProofInstruction::VerifyCiphertextCommitmentEquality
            .encode_verify_proof(Some(info()), &equality)
    ));
    assert!(agrees(
        &ours(ProofKind::BatchedGroupedCiphertext3HandlesValidity, 544),
        &ProofInstruction::VerifyBatchedGroupedCiphertext3HandlesValidity
            .encode_verify_proof(Some(info()), &grouped)
    ));
    assert!(agrees(
        &ours(ProofKind::BatchedRangeProofU64, 936),
        &ProofInstruction::VerifyBatchedRangeProofU64.encode_verify_proof(Some(info()), &short)
    ));
    assert!(agrees(
        &ours(ProofKind::BatchedRangeProofU128, 1000),
        &ProofInstruction::VerifyBatchedRangeProofU128.encode_verify_proof(Some(info()), &long)
    ));
    let wallet = Keypair::new();
    let client = Client::new("w.json", Some(wallet.to_bytes())).unwrap();
    let owner = Pubkey::from(client.owner());
    let theirs = close_context_state(
        ContextStateInfo { context_state_account: &context, context_state_authority: &owner },
        &owner,
    );
    assert!(agrees(&client.close_ix(key(8)), &theirs));
}

#[test]
fn contexts_have_room_for_their_statement() {
    let sizes = [
        (
            ProofKind::PubkeyValidity,
            std::mem::size_of::<ProofContextState<PubkeyValidityProofContext>>(),
        ),
        (
            ProofKind::CiphertextCommitmentEquality,
            std::mem::size_of::<ProofContextState<CiphertextCommitmentEqualityProofContext>>(),
        ),
        (
            ProofKind::BatchedGroupedCiphertext3HandlesValidity,
            std::mem::size_of::<
                ProofContextState<BatchedGroupedCiphertext3HandlesValidityProofContext>,
            >(),
        ),
        (
            ProofKind::BatchedRangeProofU64,
            std::mem::size_of::<ProofContextState<BatchedRangeProofContext>>(),
        ),
        (
            ProofKind::BatchedRangeProofU128,
            std::mem::size_of::<ProofContextState<BatchedRangeProofContext>>(),
        ),
    ];
    for (kind, size) in sizes {
        assert_eq!(kind.context_len(), size as u64);
    }
}

#[test]
fn handlers_make_the_calls_of_token_2022() {
    let program = spl_token_2022::id();
    let ata = Pubkey::from(own_account(key(1)).info.key);
    let other = Pubkey::from(own_account(key(4)).info.key);

    let made = deposit().handler(77).unwrap();
    let theirs =
        confidential::deposit(&program, &ata, &address(2), 77, 6, &address(1), &[]).unwrap();
    assert!(agrees(&made.instruction, &theirs));
    assert_eq!(made.accounts, [ata.to_bytes(), key(2), key(1), TOKEN_2022]);
    assert_eq!(made.instruction.data, [27, 5, 77, 0, 0, 0, 0, 0, 0, 0, 6]);

    let made = apply_pending().handler(3, [9; 36]).unwrap();
    let theirs = confidential::apply_pending_balance(
        &program, &ata, 3, &[9; 36].into(), &address(1), &[],
    )
    .unwrap();
    assert!(agrees(&made.instruction, &theirs));
    assert_eq!(made.accounts, [ata.to_bytes(), key(1), TOKEN_2022]);

    let made = withdraw().handler(5, [9; 36]).unwrap();
    let theirs = confidential::inner_withdraw(
        &program, &ata, &address(2), 5, 6, &[9; 36].into(), &address(1), &[],
        ProofLocation::ContextStateAccount(&address(5)),
        ProofLocation::ContextStateAccount(&address(7)),
    )
    .unwrap();
    assert!(agrees(&made.instruction, &theirs));
    assert_eq!(made.accounts, [ata.to_bytes(), key(2), key(5), key(7), key(1), TOKEN_2022]);

    let made = transfer().handler([9; 36], [8; 64], [7; 64]).unwrap();
    let theirs = confidential::inner_transfer(
        &program, &ata, &address(2), &other, &[9; 36].into(), &[8; 64].into(), &[7; 64].into(),
        &address(1), &[],
        ProofLocation::ContextStateAccount(&address(5)),
        ProofLocation::ContextStateAccount(&address(6)),
        ProofLocation::ContextStateAccount(&address(7)),
    )
    .unwrap();
    assert!(agrees(&made.instruction, &theirs));
    assert_eq!(
        made.accounts,
        [ata.to_bytes(), key(2), other.to_bytes(), key(5), key(6), key(7), key(1), TOKEN_2022]
    );
}

#[test]
fn a_mint_is_created_then_configured_then_initialized() {
    assert_eq!(InitializeMint::space().unwrap(), CONFIDENTIAL_MINT_LEN);
    let made = initialize_mint(&new_mint(), 6, 5_000).unwrap();
    assert_eq!(made.len(), 3);
    let create = solana_system_interface::instruction::create_account(
        &address(1), &address(2), 5_000, 235, &spl_token_2022::id(),
    );
    assert!(agrees(&made[0].instruction, &create));
    assert_eq!(made[0].accounts, [key(1), key(2)]);
    let configure = confidential::initialize_mint(
        &spl_token_2022::id(), &address(2), Some(address(3)), true, None,
    )
    .unwrap();
    assert!(agrees(&made[1].instruction, &configure));
    assert_eq!(made[1].accounts, [key(2), TOKEN_2022]);
    let base = spl_token_2022::instruction::initialize_mint2(
        &spl_token_2022::id(), &address(2), &address(3), None, 6,
    )
    .unwrap();
    assert!(agrees(&made[2].instruction, &base));
    assert_eq!(made[2].accounts, [key(2)]);
}

#[test]
fn handlers_refuse_other_programs() {
    let wrong = program(TOKEN);
    let refused = Some(HandlerError::IncorrectProgramId);
    assert_eq!(Deposit { token_program: wrong, ..deposit() }.handler(1).err(), refused);
    assert_eq!(
        ApplyPending { token_program: wrong, ..apply_pending() }.handler(1, [0; 36]).err(),
        refused
    );
    assert_eq!(Withdraw { token_program: wrong, ..withdraw() }.handler(1, [0; 36]).err(), refused);
    assert_eq!(
        TransferConfidential { token_program: wrong, ..transfer() }
            .handler([0; 36], [0; 64], [0; 64])
            .err(),
        refused
    );
    assert_eq!(InitializeMint { token_program: wrong, ..new_mint() }.handler(6, 1).err(), refused);
    let nobody = InitializeMint { authority: signing(SYSTEM), ..new_mint() };
    assert_eq!(
        initialize_mint(&nobody, 6, 1).err(),
        Some(ProgramFault::Handler(HandlerError::InvalidArgument))
    );
    let unsigned = InitializeMint { authority: plain(key(3), SYSTEM), ..new_mint() };
    assert_eq!(
        initialize_mint(&unsigned, 6, 1).err(),
        Some(ProgramFault::Account(AccountError::AccountNotSigner))
    );
}

#[test]
fn accounts_are_checked_in_order() {
    assert!(deposit().validate().is_ok());
    assert!(apply_pending().validate().is_ok());
    assert!(withdraw().validate().is_ok());
    assert!(transfer().validate().is_ok());
    assert!(new_mint().validate().is_ok());

    let d = deposit();
    let mut bad = d;
    bad.token_account.info.is_writable = false;
    assert_eq!(bad.validate(), Err(AccountError::ConstraintMut));
    bad.token_account.info.key = key(9);
    assert_eq!(bad.validate(), Err(AccountError::ConstraintAssociated));
    bad.token_account.authority = key(9);
    assert_eq!(bad.validate(), Err(AccountError::ConstraintTokenOwner));
    bad.token_account.info.owner = TOKEN;
    assert_eq!(bad.validate(), Err(AccountError::ConstraintAssociatedTokenTokenProgram));
    bad.mint.info.owner = TOKEN;
    assert_eq!(bad.validate(), Err(AccountError::ConstraintOwner));
    bad.token_program.executable = false;
    assert_eq!(bad.validate(), Err(AccountError::InvalidProgramExecutable));
    bad.token_program.key = TOKEN;
    assert_eq!(bad.validate(), Err(AccountError::InvalidProgramId));
    bad.token_account.info.owner = SYSTEM;
    assert_eq!(bad.validate(), Err(AccountError::AccountOwnedByWrongProgram));
    bad.token_account.info.lamports = 0;
    assert_eq!(bad.validate(), Err(AccountError::AccountNotInitialized));
    bad.mint.info.owner = key(9);
    assert_eq!(bad.validate(), Err(AccountError::AccountOwnedByWrongProgram));
    bad.owner.is_signer = false;
    assert_eq!(bad.validate(), Err(AccountError::AccountNotSigner));

    let mut a = apply_pending();
    a.mint.info.owner = TOKEN;
    assert_eq!(a.validate(), Err(AccountError::ConstraintMintTokenProgram));
    let mut w = withdraw();
    w.mint.info.owner = TOKEN;
    assert_eq!(w.validate(), Err(AccountError::ConstraintMintTokenProgram));
    let mut t = transfer();
    t.destination.info.is_writable = false;
    assert_eq!(t.validate(), Err(AccountError::ConstraintMut));
    t.recipient = plain(key(9), SYSTEM);
    assert_eq!(t.validate(), Err(AccountError::ConstraintTokenOwner));
    t.mint.info.owner = TOKEN;
    assert_eq!(t.validate(), Err(AccountError::ConstraintMintTokenProgram));
    t.destination = t.source;
    assert_eq!(t.validate(), Err(AccountError::ConstraintDuplicateMutableAccount));

    let mut i = new_mint();
    i.mint.is_writable = false;
    assert_eq!(i.validate(), Err(AccountError::ConstraintMut));
    i.system_program = program(TOKEN);
    assert_eq!(i.validate(), Err(AccountError::InvalidProgramId));
}

#[test]
fn numbers_are_written_lowest_byte_first() {
    let mut out = vec![9];
    push_le64(&mut out, 1_000_001);
    assert_eq!(out, [9, 65, 66, 15, 0, 0, 0, 0, 0]);
    assert!(same(&[1u8, 2, 3], &[1, 2, 3]));
    assert!(!same(&[1u8, 2, 3], &[1, 2, 4]));
}
