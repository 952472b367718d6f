use anchor_lang::prelude::Pubkey;
use anchor_spl::token_2022::spl_token_2022::extension::{BaseStateWithExtensionsMut, ExtensionType, StateWithExtensionsMut};
use anchor_spl::token_2022::spl_token_2022::extension::confidential_transfer::ConfidentialTransferMint;
use anchor_spl::token_2022::spl_token_2022::state::Mint;
use confidential_payments::address::TOKEN_2022;
use confidential_payments::balance::{
    account, available, join_pending, judge_auditor, judge_available, open_account, pending,
    remaining, total,
};
use confidential_payments::client::Client;
use confidential_payments::error::{ClientError, ProofFault};
use confidential_payments::keys::{judge_transfer, judge_withdraw, keys, Keys, TransferProofs, WithdrawProofs};
use confidential_payments::session::{AfterKey, AfterRead, Goal, Step};
use confidential_payments::state::{AccountData, ConfidentialAccount, EMPTY_BALANCE, NO_AUDITOR};
use solana_keypair::Keypair;
use solana_signer::Signer;
use solana_zk_sdk::encryption::auth_encryption::{AeCiphertext, AeKey};
use solana_zk_sdk::encryption::elgamal::{ElGamalCiphertext, ElGamalKeypair, ElGamalPubkey};
use solana_zk_sdk::zk_elgamal_proof_program::errors::ProofGenerationError;
use spl_token_confidential_transfer_proof_generation::errors::TokenProofGenerationError;
use spl_token_confidential_transfer_proof_generation::try_combine_lo_hi_ciphertexts;

fn confidential(k: &Keys, amount: u64) -> ConfidentialAccount {
    ConfidentialAccount {
        elgamal_pubkey: k.pubkey(),
        pending_balance_lo: [0; 64],
        pending_balance_hi: [0; 64],
        available_balance: [0; 64],
        decryptable_available_balance: k.encrypt(amount),
        pending_balance_credit_counter: 0,
        expected_pending_balance_credit_counter: 0,
        actual_pending_balance_credit_counter: 0,
    }
}

fn encrypted(k: &Keys, amount: u64) -> [u8; 64] {
    ElGamalPubkey::try_from(k.pubkey().as_slice()).unwrap().encrypt(amount).to_bytes()
}

fn unique() -> [u8; 32] {
    Pubkey::new_unique().to_bytes()
}

#[test]
fn keys_are_recoverable_and_account_specific() {
    let wallet = Keypair::new();
    let ata = unique();
    let first = keys(&wallet.to_bytes(), ata).unwrap();
    let restored_wallet = Keypair::try_from(wallet.to_bytes().as_slice()).unwrap();
    let restored = keys(&restored_wallet.to_bytes(), ata).unwrap();
    assert_eq!(first.pubkey(), restored.pubkey());
    let ciphertext = first.encrypt(42);
    assert_eq!(restored.decrypt(&ciphertext), Some(42));
    let other = keys(&wallet.to_bytes(), unique()).unwrap();
    assert_ne!(first.pubkey(), other.pubkey());
    assert!(other.decrypt(&ciphertext).is_none());
}

#[test]
fn refuses_known_stale_or_unrelated_balance_copies() {
    let wallet = Keypair::new();
    let k = keys(&wallet.to_bytes(), unique()).unwrap();
    let mut e = confidential(&k, 42);
    assert_eq!(available(&e, &k).unwrap(), 42);
    e.expected_pending_balance_credit_counter = 1;
    e.actual_pending_balance_credit_counter = 2;
    assert!(available(&e, &k).is_err());
    let other = keys(&wallet.to_bytes(), unique()).unwrap();
    assert!(available(&e, &other).is_err());
}

#[test]
fn derives_the_keys_that_the_encryption_library_derives() {
    let wallet = Keypair::new();
    let ata = unique();
    let k = keys(&wallet.to_bytes(), ata).unwrap();
    let elgamal = ElGamalKeypair::new_from_signer(&wallet, &ata).unwrap();
    let aes = AeKey::new_from_signer(&wallet, &ata).unwrap();
    assert_eq!(k.pubkey(), elgamal.pubkey().to_bytes());
    let copy = k.encrypt(7);
    assert_eq!(AeCiphertext::from_bytes(&copy).unwrap().decrypt(&aes), Some(7));
    assert_ne!(k.encrypt(7), copy);
    assert_eq!(k.decrypt_u32(&elgamal.pubkey().encrypt(123_456u64).to_bytes()), Some(123_456));
    assert_eq!(k.decrypt_u32(&elgamal.pubkey().encrypt(1u64 << 32).to_bytes()), None);
    assert_eq!(k.decrypt_u32(&[255; 64]), None);
    let proof = k.prove_pubkey();
    assert_eq!(proof.data.len(), 96);
    assert_eq!(proof.data[..32], k.pubkey());
    let mut broken = wallet.to_bytes();
    broken[40] ^= 1;
    assert!(matches!(keys(&broken, ata), Err(ClientError::KeyDerivation(_))));
}

#[test]
fn refuses_a_file_without_a_keypair() {
    let wallet = Keypair::new();
    let client = Client::new("w.json", Some(wallet.to_bytes())).unwrap();
    assert_eq!(client.owner(), wallet.pubkey().to_bytes());
    for bad in [None, Some([7; 64])] {
        let error = Client::new("w.json", bad).err().unwrap();
        assert_eq!(error.message(), "Cannot read wallet keypair at w.json");
    }
}

#[test]
fn judges_readings_of_the_available_balance() {
    let k = keys(&Keypair::new().to_bytes(), unique()).unwrap();
    let e = confidential(&k, 42);
    assert_eq!(judge_available(&e, &k.pubkey(), Some(42)).unwrap(), 42);
    assert!(matches!(judge_available(&e, &[1; 32], Some(42)), Err(ClientError::ForeignKeys)));
    assert!(matches!(
        judge_available(&e, &k.pubkey(), None),
        Err(ClientError::UnreadableAvailable)
    ));
    let stale = ConfidentialAccount { expected_pending_balance_credit_counter: 1, ..e };
    assert!(matches!(
        judge_available(&stale, &k.pubkey(), Some(42)),
        Err(ClientError::StaleBalance)
    ));
    let garbled = ConfidentialAccount { decryptable_available_balance: [9; 36], ..e };
    assert!(matches!(available(&garbled, &k), Err(ClientError::UnreadableAvailable)));
}

#[test]
fn joins_the_two_parts_of_pending() {
    assert_eq!(join_pending(Some(1), Some(0)).unwrap(), 1);
    assert_eq!(join_pending(Some(16_961), Some(15)).unwrap(), 1_000_001);
    assert_eq!(join_pending(Some(70_000), Some(1)).unwrap(), 135_536);
    assert!(matches!(join_pending(None, None), Err(ClientError::UnreadablePendingLow)));
    assert!(matches!(join_pending(Some(0), None), Err(ClientError::UnreadablePendingHigh)));
    assert!(matches!(join_pending(Some(0), Some(1 << 48)), Err(ClientError::PendingOverflow)));
    assert!(matches!(
        join_pending(Some(65_536), Some((1 << 48) - 1)),
        Err(ClientError::PendingOverflow)
    ));
    assert_eq!(join_pending(Some(65_535), Some((1 << 48) - 1)).unwrap(), u64::MAX);
    let k = keys(&Keypair::new().to_bytes(), unique()).unwrap();
    let e = ConfidentialAccount {
        pending_balance_lo: encrypted(&k, 3),
        pending_balance_hi: encrypted(&k, 2),
        ..confidential(&k, 10)
    };
    assert_eq!(pending(&e, &k).unwrap(), 131_075);
    assert_eq!(total(&e, &k).unwrap(), 131_085);
    let full = ConfidentialAccount { decryptable_available_balance: k.encrypt(u64::MAX), ..e };
    assert!(matches!(total(&full, &k), Err(ClientError::BalanceOverflow)));
}

#[test]
fn spends_available_funds_only() {
    let k = keys(&Keypair::new().to_bytes(), unique()).unwrap();
    let e = confidential(&k, 10);
    assert_eq!(remaining(&e, &k, 10).unwrap(), 0);
    assert_eq!(remaining(&e, &k, 3).unwrap(), 7);
    assert!(matches!(remaining(&e, &k, 11), Err(ClientError::InsufficientFunds)));
}

#[test]
fn refuses_accounts_that_hold_no_confidential_balance() {
    assert!(matches!(account(Err("gone".to_string())), Err(ClientError::AccountNotFound(r)) if r == "gone"));
    let foreign = AccountData { owner: [3; 32], data: vec![] };
    assert!(matches!(account(Ok(foreign)), Err(ClientError::NotTokenAccount)));
    let short = AccountData { owner: TOKEN_2022, data: vec![1; 10] };
    assert!(matches!(account(Ok(short)), Err(ClientError::MalformedAccount(_))));
    assert!(matches!(open_account(Ok((5, None))), Err(ClientError::NotConfigured)));
    assert!(matches!(open_account(Err("x".to_string())), Err(ClientError::MalformedAccount(r)) if r == "x"));
    let k = keys(&Keypair::new().to_bytes(), unique()).unwrap();
    assert_eq!(open_account(Ok((5, Some(confidential(&k, 1))))).unwrap().0, 5);
}

#[test]
fn judges_auditors() {
    assert!(judge_auditor(Ok(NO_AUDITOR)).is_ok());
    assert!(matches!(judge_auditor(Ok([1; 32])), Err(ClientError::AuditorUnsupported)));
    assert!(matches!(judge_auditor(Err("x".to_string())), Err(ClientError::MalformedAccount(r)) if r == "x"));
}

/// The bytes of a mint for confidential transfers with this auditor.
fn mint_bytes(auditor: [u8; 32]) -> Vec<u8> {
    let len = ExtensionType::try_calculate_account_len::<Mint>(&[
        ExtensionType::ConfidentialTransferMint,
    ])
    .unwrap();
    let mut data = vec![0; len];
    let mut state = StateWithExtensionsMut::<Mint>::unpack_uninitialized(&mut data).unwrap();
    state.base.is_initialized = true;
    state.pack_base();
    state.init_account_type().unwrap();
    let config = state.init_extension::<ConfidentialTransferMint>(true).unwrap();
    config.auditor_elgamal_pubkey = bytemuck::cast(auditor);
    data
}

/// A conversation about a transfer that has come to the mint.
fn at_the_mint(client: &Client, e: ConfidentialAccount, receiver: ConfidentialAccount, k: Keys) -> AfterRead {
    AfterRead::Mint {
        mint: [1; 32],
        recipient: client.owner(),
        amount: 1,
        e,
        receiver,
        keys: k,
    }
}

#[test]
fn looks_at_the_mint_before_it_proves_a_transfer() {
    let wallet = Keypair::new().to_bytes();
    let client = Client::new("w.json", Some(wallet)).unwrap();
    let ata = unique();
    let k = || keys(&wallet, ata).unwrap();
    let e = ConfidentialAccount { available_balance: encrypted(&k(), 5), ..confidential(&k(), 5) };
    let mint = |auditor| Ok(AccountData { owner: TOKEN_2022, data: mint_bytes(auditor) });
    let answer = |e: ConfidentialAccount, receiver: ConfidentialAccount, found| {
        match at_the_mint(&client, e, receiver, k()).resume(&client, found) {
            Step::Done(answer) => answer.err(),
            _ => None,
        }
    };
    assert!(matches!(answer(e, e, Err("down".to_string())), Some(ClientError::Rpc(r)) if r == "down"));
    let torn = AccountData { owner: TOKEN_2022, data: vec![0; 3] };
    assert!(matches!(answer(e, e, Ok(torn)), Some(ClientError::MalformedAccount(_))));
    assert!(matches!(answer(e, e, mint([4; 32])), Some(ClientError::AuditorUnsupported)));
    let bad = ConfidentialAccount { available_balance: [255; 64], ..e };
    assert!(matches!(
        answer(bad, e, mint(NO_AUDITOR)),
        Some(ClientError::InvalidAvailableCiphertext)
    ));
    let unknown = ConfidentialAccount { elgamal_pubkey: [255; 32], ..e };
    assert!(matches!(answer(e, unknown, mint(NO_AUDITOR)), Some(ClientError::InvalidRecipientKey(_))));
    // What is wrong with the sender's own balance comes first.
    assert!(matches!(
        answer(bad, unknown, mint(NO_AUDITOR)),
        Some(ClientError::InvalidAvailableCiphertext)
    ));
    // The AES copy says 5, the encrypted balance 4: nothing can be proved.
    let false_copy = ConfidentialAccount { available_balance: encrypted(&k(), 4), ..e };
    assert!(matches!(answer(false_copy, e, mint(NO_AUDITOR)), Some(ClientError::Proof(ProofFault::InconsistentInput))));
    assert!(answer(e, e, mint(NO_AUDITOR)).is_none());
    let poor = confidential(&k(), 0);
    assert!(matches!(answer(poor, e, mint(NO_AUDITOR)), Some(ClientError::InsufficientFunds)));
}

fn ciphertext(bytes: &[u8]) -> ElGamalCiphertext {
    ElGamalCiphertext::from_bytes(bytes).unwrap()
}

/// What is left of a balance when the two parts of a transfer are taken from it.
fn less_both(balance: &[u8; 64], validity: &[u8]) -> [u8; 64] {
    let lo = ciphertext(&sixty_four(&validity[96..128], &validity[128..160]));
    let hi = ciphertext(&sixty_four(&validity[224..256], &validity[256..288]));
    (&ciphertext(balance) - &try_combine_lo_hi_ciphertexts(&lo, &hi, 16).unwrap()).to_bytes()
}

fn sixty_four(a: &[u8], b: &[u8]) -> [u8; 64] {
    [a, b].concat().try_into().unwrap()
}

#[test]
fn transfer_proofs_speak_of_one_amount() {
    let alice = keys(&Keypair::new().to_bytes(), unique()).unwrap();
    let bob = keys(&Keypair::new().to_bytes(), unique()).unwrap();
    let amount = 3_000_001;
    let balance = encrypted(&alice, 10_000_000);
    let made = alice
        .prove_transfer(&balance, &alice.encrypt(10_000_000), amount, &bob.pubkey())
        .unwrap();
    let (equality, validity, range) = (&made.equality, &made.validity, &made.range);
    assert_eq!((equality.len(), validity.len(), range.len()), (320, 544, 1000));
    assert_eq!(equality[..32], alice.pubkey());
    assert_eq!(validity[..32], alice.pubkey());
    assert_eq!(validity[32..64], bob.pubkey());
    assert_eq!(validity[64..96], NO_AUDITOR);
    assert_eq!(range[..32], equality[96..128]);
    assert_eq!(range[32..64], validity[96..128]);
    assert_eq!(range[64..96], validity[224..256]);
    assert_eq!(made.auditor_lo, sixty_four(&validity[96..128], &validity[192..224]));
    assert_eq!(made.auditor_hi, sixty_four(&validity[224..256], &validity[320..352]));
    let rest: [u8; 64] = equality[32..96].try_into().unwrap();
    assert_eq!(rest, less_both(&balance, validity));
    assert_eq!(alice.decrypt_u32(&rest), Some(6_999_999));
    let lo = alice.decrypt_u32(&sixty_four(&validity[96..128], &validity[128..160]));
    let hi = alice.decrypt_u32(&sixty_four(&validity[224..256], &validity[256..288]));
    assert_eq!(join_pending(lo, hi).unwrap(), amount);
    let lo = bob.decrypt_u32(&sixty_four(&validity[96..128], &validity[160..192]));
    let hi = bob.decrypt_u32(&sixty_four(&validity[224..256], &validity[288..320]));
    assert_eq!((lo, hi), (Some(amount % 65_536), Some(amount / 65_536)));
    assert_eq!(join_pending(lo, hi).unwrap(), amount);
}

#[test]
fn withdrawal_proofs_speak_of_one_rest() {
    let k = keys(&Keypair::new().to_bytes(), unique()).unwrap();
    let balance = encrypted(&k, 10);
    let made = k.prove_withdraw(&balance, 10, 3).unwrap();
    assert_eq!((made.equality.len(), made.range.len()), (320, 936));
    assert_eq!(made.equality[..32], k.pubkey());
    assert_eq!(made.equality[96..128], made.range[..32]);
    let rest: [u8; 64] = made.equality[32..96].try_into().unwrap();
    assert_eq!(rest, ciphertext(&balance).subtract_amount(3u64).to_bytes());
    assert_eq!(k.decrypt_u32(&rest), Some(7));
    assert!(matches!(k.prove_withdraw(&encrypted(&k, 9), 10, 3), Err(ClientError::Proof(ProofFault::InconsistentInput))));
    assert!(matches!(k.prove_withdraw(&encrypted(&k, 10), 10, 11), Err(ClientError::Proof(ProofFault::NotEnoughFunds))));
    assert!(matches!(
        k.prove_withdraw(&[255; 64], 10, 3),
        Err(ClientError::InvalidAvailableCiphertext)
    ));
}

#[test]
fn proofs_of_a_balance_that_is_too_large_to_read_are_about_that_balance() {
    let k = keys(&Keypair::new().to_bytes(), unique()).unwrap();
    let bob = keys(&Keypair::new().to_bytes(), unique()).unwrap();
    let (held, amount): (u64, u64) = ((1 << 40) + 10, (1 << 33) + 3);
    let balance = encrypted(&k, held);
    assert_eq!(k.decrypt_u32(&balance), None);

    let made = k.prove_withdraw(&balance, held, amount).unwrap();
    assert_eq!(made.equality[32..96], ciphertext(&balance).subtract_amount(amount).to_bytes());
    let nothing = ciphertext(&made.equality[32..96]).subtract_amount(held - amount).to_bytes();
    assert_eq!(k.decrypt_u32(&nothing), Some(0));
    for (other, current) in [(held - 1, held), (held, held + 1), (0, held)] {
        assert!(matches!(
            k.prove_withdraw(&encrypted(&k, other), current, amount),
            Err(ClientError::Proof(ProofFault::InconsistentInput))
        ));
    }

    let made = k.prove_transfer(&balance, &k.encrypt(held), amount, &bob.pubkey()).unwrap();
    assert_eq!(made.equality[32..96], less_both(&balance, &made.validity));
    let nothing = ciphertext(&made.equality[32..96]).subtract_amount(held - amount).to_bytes();
    assert_eq!(k.decrypt_u32(&nothing), Some(0));
    assert!(matches!(
        k.prove_transfer(&balance, &k.encrypt(held - 1), amount, &bob.pubkey()),
        Err(ClientError::Proof(ProofFault::InconsistentInput))
    ));
}

#[test]
fn an_empty_balance_reads_as_zero() {
    let k = keys(&Keypair::new().to_bytes(), unique()).unwrap();
    assert_eq!(k.decrypt_u32(&EMPTY_BALANCE), Some(0));
    assert_eq!(k.decrypt_u32(&encrypted(&k, 0xffff_ffff)), Some(0xffff_ffff));
    assert_eq!(k.decrypt_u32(&encrypted(&k, 0x1_0000_0000)), None);
}

#[test]
fn stages_proofs_that_could_be_made() {
    let client = Client::new("w.json", Some(Keypair::new().to_bytes())).unwrap();
    let made = TransferProofs {
        equality: vec![1],
        validity: vec![2],
        range: vec![3],
        auditor_lo: [4; 64],
        auditor_hi: [5; 64],
    };
    match client.stage_transfer([1; 32], [2; 32], [6; 36], judge_transfer(Ok(made))) {
        Step::NewKey(AfterKey::Stage(s)) => {
            assert_eq!(s.proofs.iter().map(|p| p.data[0]).collect::<Vec<_>>(), [1, 2, 3]);
            assert_eq!(s.proofs.iter().map(|p| p.kind.tag()).collect::<Vec<_>>(), [3, 12, 7]);
            assert!(s.contexts.is_empty());
            assert!(matches!(s.goal, Goal::Transfer { auditor_lo: [4, ..], balance: [6, ..], .. }));
        }
        _ => panic!("the proofs are staged"),
    }
    let made = WithdrawProofs { equality: vec![1], range: vec![2] };
    match client.stage_withdraw([1; 32], [2; 32], 9, [6; 36], judge_withdraw(Ok(made))) {
        Step::NewKey(AfterKey::Stage(s)) => {
            assert_eq!(s.proofs.iter().map(|p| p.kind.tag()).collect::<Vec<_>>(), [3, 6]);
            assert!(matches!(s.goal, Goal::Withdraw { amount: 9, .. }));
        }
        _ => panic!("the proofs are staged"),
    }
    for fault in [ProofFault::InvalidCommitment, ProofFault::InconsistentInput] {
        assert!(matches!(judge_withdraw(Err(fault)), Err(ClientError::Proof(f)) if f == fault));
        assert!(matches!(judge_transfer(Err(fault)), Err(ClientError::Proof(f)) if f == fault));
    }
    assert!(matches!(
        client.stage_transfer([1; 32], [2; 32], [6; 36], Err(ClientError::InsufficientFunds)),
        Step::Done(Err(ClientError::InsufficientFunds))
    ));
}

#[test]
fn says_what_went_wrong() {
    let text = |e: ClientError| e.message();
    assert_eq!(text(ClientError::KeyDerivation("k".to_string())), "k");
    assert_eq!(
        text(ClientError::ForeignKeys),
        "Account uses different encryption keys; this CLI uses wallet + ATA derivation"
    );
    assert_eq!(
        text(ClientError::StaleBalance),
        "AES balance is stale after an apply race. Reconcile the missed credits before spending; automatic reconciliation is not implemented."
    );
    assert_eq!(text(ClientError::UnreadableAvailable), "Cannot decrypt available balance");
    assert_eq!(text(ClientError::UnreadablePendingLow), "Cannot decrypt pending low component");
    assert_eq!(
        text(ClientError::UnreadablePendingHigh),
        "Pending high component exceeds this CLI's 32-bit decryption range"
    );
    assert_eq!(text(ClientError::PendingOverflow), "Pending overflow");
    assert_eq!(text(ClientError::AccountNotFound("x".to_string())), "Token account not found");
    assert_eq!(text(ClientError::NotTokenAccount), "Account is not owned by Token-2022");
    assert_eq!(text(ClientError::MalformedAccount("m".to_string())), "m");
    assert_eq!(text(ClientError::NotConfigured), "Run configure first");
    assert_eq!(text(ClientError::BalanceOverflow), "Balance overflow");
    assert_eq!(
        text(ClientError::InsufficientFunds),
        "Insufficient available funds; apply pending first if needed"
    );
    assert_eq!(
        text(ClientError::AuditorUnsupported),
        "Auditor-enabled mints are not supported by this CLI yet"
    );
    assert_eq!(text(ClientError::InvalidAvailableCiphertext), "Invalid available ciphertext");
    assert_eq!(text(ClientError::InvalidRecipientKey("k".to_string())), "k");
    assert_eq!(text(ClientError::Proof(ProofFault::NotEnoughFunds)), "not enough funds in account");
    assert_eq!(text(ClientError::Rpc("r".to_string())), "r");
}

#[test]
fn names_the_faults_of_proofs_as_the_proof_library_does() {
    let same = |fault: ProofFault, error: TokenProofGenerationError| {
        assert_eq!(fault.message(), error.to_string());
        assert_eq!(ClientError::Proof(fault).message(), error.to_string());
    };
    same(ProofFault::NotEnoughFunds, TokenProofGenerationError::NotEnoughFunds);
    same(ProofFault::IllegalAmountBitLength, TokenProofGenerationError::IllegalAmountBitLength);
    same(ProofFault::FeeCalculation, TokenProofGenerationError::FeeCalculation);
    same(ProofFault::CiphertextExtraction, TokenProofGenerationError::CiphertextExtraction);
    let inner = [
        (ProofFault::IllegalCommitmentLength, ProofGenerationError::IllegalCommitmentLength),
        (ProofFault::IllegalBitLengths, ProofGenerationError::IllegalAmountBitLength),
        (ProofFault::InvalidCommitment, ProofGenerationError::InvalidCommitment),
        (ProofFault::ProofLength, ProofGenerationError::ProofLength),
        (ProofFault::InconsistentInput, ProofGenerationError::InconsistentInput),
    ];
    for (fault, error) in inner {
        same(fault, TokenProofGenerationError::ProofGeneration(error));
    }
}

#[test]
fn tells_why_a_transfer_cannot_be_proved() {
    let alice = keys(&Keypair::new().to_bytes(), unique()).unwrap();
    let bob = keys(&Keypair::new().to_bytes(), unique()).unwrap();
    let balance = encrypted(&alice, 10);
    let why = |copy: [u8; 36], amount: u64, to: [u8; 32]| {
        alice.prove_transfer(&balance, &copy, amount, &to).err().unwrap()
    };
    let to = bob.pubkey();
    assert!(matches!(
        why(bob.encrypt(10), 3, to),
        ClientError::Proof(ProofFault::IllegalAmountBitLength)
    ));
    assert!(matches!(why(alice.encrypt(10), 11, to), ClientError::Proof(ProofFault::NotEnoughFunds)));
    assert!(matches!(why(alice.encrypt(9), 3, to), ClientError::Proof(ProofFault::InconsistentInput)));
    let unknown = why(alice.encrypt(10), 3, [255; 32]);
    assert!(matches!(unknown, ClientError::InvalidRecipientKey(_)));
    assert_eq!(unknown.message(), "failed to deserialize public key");
    assert!(matches!(
        alice.prove_transfer(&[255; 64], &alice.encrypt(10), 3, &[255; 32]),
        Err(ClientError::InvalidAvailableCiphertext)
    ));
}
