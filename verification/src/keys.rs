//! The encryption keys of a token account, and everything that is computed with them.
use vstd::prelude::*;
use crate::address::Pubkey;
use crate::error::ProofFault::{
    CiphertextExtraction, FeeCalculation, IllegalAmountBitLength, IllegalBitLengths,
    IllegalCommitmentLength, InconsistentInput, InvalidCommitment, NotEnoughFunds, ProofLength,
    RangeProof,
};
use crate::error::{read_out, ClientError, ProofFault};
use crate::state::EMPTY_BALANCE;
use crate::zk::{Proof, ProofKind};
use bytemuck::{bytes_of, cast};
use solana_keypair::Keypair;
use solana_signer::Signer;
use solana_zk_sdk::encryption::auth_encryption::{AeCiphertext, AeKey};
use solana_zk_sdk::encryption::elgamal::{
    ElGamalCiphertext, ElGamalKeypair, ElGamalPubkey, ElGamalSecretKey,
};
use solana_zk_sdk::zk_elgamal_proof_program::build_pubkey_validity_proof_data;
use solana_zk_sdk::zk_elgamal_proof_program::errors::ProofGenerationError::{
    IllegalAmountBitLength as BitLengthsError, IllegalCommitmentLength as CommitmentsError,
    InconsistentInput as InputError, InvalidCommitment as IdentityError,
    ProofLength as LengthError, RangeProof as RangeError,
};
use spl_token_confidential_transfer_proof_generation::errors::TokenProofGenerationError::{
    CiphertextExtraction as ExtractionError, FeeCalculation as FeeError,
    IllegalAmountBitLength as AmountError, NotEnoughFunds as FundsError,
    ProofGeneration as InnerError,
};
use spl_token_confidential_transfer_proof_generation::transfer::transfer_split_proof_data;
use spl_token_confidential_transfer_proof_generation::withdraw::withdraw_proof_data;

verus! {

/// The secret and public half of the wallet's signing key.
pub type Wallet = [u8; 64];

/// Whether `Keypair::try_from` takes 64 bytes for a signing key and its public key.
pub uninterp spec fn signing_pair(wallet: Seq<u8>) -> bool;

/// Calls `Keypair::try_from`, then `pubkey`. Claimed: bytes that are not a pair are refused,
/// and the public key of a pair is its second half.
#[verifier::external_body]
pub(crate) fn wallet_pubkey(wallet: &Wallet) -> (r: Option<Pubkey>)
    ensures
        r is Some <==> signing_pair(wallet@),
        r matches Some(key) ==> key@ == wallet@.subrange(32, 64),
{
    let pair = Keypair::try_from(wallet.as_slice()).ok()?;
    Some(pair.pubkey().to_bytes())
}

/// What `ElGamalKeypair::new_from_signer` derives from a wallet and a seed: the public key
/// and the secret key, or why it failed.
pub uninterp spec fn derived_elgamal(wallet: Seq<u8>, seed: Seq<u8>) -> Result<([u8; 32], [u8; 32]), Seq<char>>;

/// Whether `ElGamalKeypair::try_from` takes the two keys for a pair.
pub uninterp spec fn elgamal_pair(pubkey: Seq<u8>, secret: Seq<u8>) -> bool;

/// A secret key that is not the number zero, which is no key.
pub open spec fn nonzero(secret: Seq<u8>) -> bool {
    exists|i: int| 0 <= i < secret.len() && secret[i] != 0
}

/// The number below 2^32 that `ElGamalCiphertext::decrypt_u32` finds with a secret key; none
/// where the bytes are no ciphertext or no key, or where the number is larger.
pub uninterp spec fn elgamal_u32(secret: Seq<u8>, ciphertext: Seq<u8>) -> Option<u64>;

/// Calls `Keypair::try_from`, then `ElGamalKeypair::new_from_signer` with that signer.
/// Claimed: the result is a function of the wallet and the seed; its two keys are a pair; the
/// secret one is not zero; and, as every secret key does, it decrypts the ciphertext of an
/// empty balance, which is the identity twice, to zero, the number and the point. (A signature
/// whose hash is the number zero would make the call panic; none is known.)
#[verifier::external_body]
fn derive_elgamal(wallet: &Wallet, seed: &Pubkey) -> (r: Result<([u8; 32], [u8; 32]), String>)
    ensures
        read_out(r) == derived_elgamal(wallet@, seed@),
        r matches Ok(pair) ==> elgamal_pair(pair.0@, pair.1@),
        r matches Ok(pair) ==> nonzero(pair.1@),
        r matches Ok(pair) ==> elgamal_u32(pair.1@, EMPTY_BALANCE@) == Some(0u64),
        r matches Ok(pair) ==> encrypts(pair.1@, EMPTY_BALANCE@, 0),
{
    let signer = Keypair::try_from(wallet.as_slice()).map_err(|e| e.to_string())?;
    let pair = ElGamalKeypair::new_from_signer(&signer, seed).map_err(|e| e.to_string())?;
    Ok((pair.pubkey().to_bytes(), *pair.secret().as_bytes()))
}

/// What `AeKey::new_from_signer` derives from a wallet and a seed, or why it failed.
pub uninterp spec fn derived_aes(wallet: Seq<u8>, seed: Seq<u8>) -> Result<[u8; 16], Seq<char>>;

/// Calls `Keypair::try_from`, then `AeKey::new_from_signer` with that signer. Claimed: the
/// result is a function of the wallet and the seed.
#[verifier::external_body]
fn derive_aes(wallet: &Wallet, seed: &Pubkey) -> (r: Result<[u8; 16], String>)
    ensures
        read_out(r) == derived_aes(wallet@, seed@),
{
    let signer = Keypair::try_from(wallet.as_slice()).map_err(|e| e.to_string())?;
    let key = AeKey::new_from_signer(&signer, seed).map_err(|e| e.to_string())?;
    Ok(key.into())
}

/// The number that `AeCiphertext::decrypt` finds with an AES key, if the key is the one that
/// the ciphertext was made with.
pub uninterp spec fn aes_plaintext(key: Seq<u8>, ciphertext: Seq<u8>) -> Option<u64>;

/// Calls `AeCiphertext::from_bytes`, then `decrypt`. Claimed: the result is a function of
/// the key and the ciphertext.
#[verifier::external_body]
fn aes_decrypt(key: &[u8; 16], ciphertext: &[u8; 36]) -> (r: Option<u64>)
    ensures
        r == aes_plaintext(key@, ciphertext@),
{
    AeCiphertext::from_bytes(ciphertext).and_then(|c| c.decrypt(&AeKey::from(*key)))
}

/// Calls `AeKey::encrypt`, which draws a random nonce. Claimed: whatever the nonce, the same
/// key decrypts the ciphertext to the amount.
#[verifier::external_body]
fn aes_encrypt(key: &[u8; 16], amount: u64) -> (r: [u8; 36])
    ensures
        aes_plaintext(key@, r@) == Some(amount),
{
    AeKey::from(*key).encrypt(amount).to_bytes()
}

/// Whether `ElGamalCiphertext::decrypt` finds the point that stands for `amount` with a secret
/// key; not where the bytes are no ciphertext or no key.
pub uninterp spec fn elgamal_holds(secret: Seq<u8>, ciphertext: Seq<u8>, amount: u64) -> bool;

/// A ciphertext is one of `amount`, and of no other number: the points of two numbers differ.
pub open spec fn encrypts(secret: Seq<u8>, ciphertext: Seq<u8>, amount: u64) -> bool {
    forall|other: u64| #[trigger] elgamal_holds(secret, ciphertext, other) <==> other == amount
}

/// Calls `ElGamalSecretKey::try_from` and `ElGamalCiphertext::from_bytes`, then
/// `decrypt_u32`. Claimed: the result is a function of the key and the ciphertext, is below
/// 2^32, and is what the ciphertext holds; and what it holds is found if it is below 2^32.
#[verifier::external_body]
fn elgamal_decrypt_u32(secret: &[u8; 32], ciphertext: &[u8; 64]) -> (r: Option<u64>)
    ensures
        r == elgamal_u32(secret@, ciphertext@),
        r matches Some(amount) ==> amount < 0x1_0000_0000,
        r matches Some(amount) ==> encrypts(secret@, ciphertext@, amount),
        forall|amount: u64| #[trigger] elgamal_holds(secret@, ciphertext@, amount)
            ==> (amount < 0x1_0000_0000 ==> r == Some(amount)),
{
    let secret = ElGamalSecretKey::try_from(secret.as_slice()).ok()?;
    ElGamalCiphertext::from_bytes(ciphertext).and_then(|c| c.decrypt_u32(&secret))
}

/// A public key followed by its secret key, which is not zero.
pub open spec fn keypair(pair: Seq<u8>) -> bool {
    &&& pair.len() == 64
    &&& elgamal_pair(pair.subrange(0, 32), pair.subrange(32, 64))
    &&& nonzero(pair.subrange(32, 64))
}

/// Calls `ElGamalKeypair::try_from`, then `build_pubkey_validity_proof_data`, which draws
/// random numbers. Claimed: both succeed for a pair, and the 96 bytes of the proof start with
/// the public key. The evidence that follows is left unsaid: it is random.
#[verifier::external_body]
fn pubkey_validity_proof(pair: &[u8]) -> (r: Vec<u8>)
    requires
        keypair(pair@),
    ensures
        r@.len() == 96,
        r@.subrange(0, 32) == pair@.subrange(0, 32),
{
    let pair = ElGamalKeypair::try_from(pair).unwrap();
    bytes_of(&build_pubkey_validity_proof_data(&pair).unwrap()).to_vec()
}

/// Whether `ElGamalCiphertext::from_bytes` takes the bytes for a ciphertext.
pub uninterp spec fn elgamal_ciphertext(bytes: Seq<u8>) -> bool;

/// Calls `ElGamalCiphertext::from_bytes`. Claimed: whether it gives a ciphertext is a function
/// of the bytes.
#[verifier::external_body]
fn is_ciphertext(bytes: &[u8; 64]) -> (r: bool)
    ensures
        r == elgamal_ciphertext(bytes@),
{
    ElGamalCiphertext::from_bytes(bytes).is_some()
}

/// Whether `ElGamalPubkey::try_from` takes the bytes for a public key.
pub uninterp spec fn elgamal_key(bytes: Seq<u8>) -> bool;

/// Calls `ElGamalPubkey::try_from`. Claimed: whether it succeeds is a function of the bytes,
/// and there are these words only for its failure.
#[verifier::external_body]
fn check_key(bytes: &[u8; 32]) -> (r: Result<(), String>)
    ensures
        r is Ok <==> elgamal_key(bytes@),
        r matches Err(reason) ==> reason@ == "failed to deserialize public key"@,
{
    ElGamalPubkey::try_from(bytes.as_slice()).map(|_| ()).map_err(|e| e.to_string())
}

/// The error for a recipient's key that is not one.
pub open spec fn unkeyed(error: ClientError) -> bool {
    error matches ClientError::InvalidRecipientKey(reason) && reason@
        == "failed to deserialize public key"@
}

/// The only fault that can keep the proofs of a withdrawal or of a transfer of `amount` from
/// being made, where `current` is the claimed balance, if it could be read: too little is
/// there; or the balance does not hold what is claimed; or else, by chance, a commitment is
/// the identity.
pub open spec fn spending_fault(
    secret: Seq<u8>,
    available: Seq<u8>,
    current: Option<u64>,
    amount: u64,
) -> ProofFault {
    match current {
        None => ProofFault::IllegalAmountBitLength,
        Some(current) => if amount > current {
            ProofFault::NotEnoughFunds
        } else if !elgamal_holds(secret, available, current) {
            ProofFault::InconsistentInput
        } else {
            ProofFault::InvalidCommitment
        },
    }
}

/// What `ElGamalCiphertext::subtract_amount` makes of a ciphertext: that of what is left
/// after `amount`.
pub uninterp spec fn ciphertext_less(ciphertext: Seq<u8>, amount: u64) -> Seq<u8>;

/// The proofs of a withdrawal.
pub struct WithdrawProofs {
    pub equality: Vec<u8>,
    pub range: Vec<u8>,
}

/// What the proofs of a withdrawal say: the first, that the ciphertext in it, which is
/// `available` less `amount`, encrypted for `pubkey`, holds the same number as a commitment;
/// the second is about the same commitment. The balance is one of `current`, and the number is
/// what is left of that after `amount`; both can be read where they are below 2^32.
pub open spec fn withdraw_statement(
    equality: Seq<u8>,
    range: Seq<u8>,
    pubkey: Seq<u8>,
    secret: Seq<u8>,
    available: Seq<u8>,
    current: u64,
    amount: u64,
) -> bool {
    &&& equality.len() == 320
    &&& range.len() == 936
    &&& amount <= current
    &&& equality.subrange(0, 32) == pubkey
    &&& equality.subrange(32, 96) == ciphertext_less(available, amount)
    &&& equality.subrange(96, 128) == range.subrange(0, 32)
    &&& encrypts(secret, available, current)
    &&& encrypts(secret, equality.subrange(32, 96), (current - amount) as u64)
    &&& current < 0x1_0000_0000 ==> elgamal_u32(secret, available) == Some(current)
    &&& current - amount < 0x1_0000_0000 ==> elgamal_u32(secret, equality.subrange(32, 96))
        == Some((current - amount) as u64)
}

/// Calls `ElGamalCiphertext::from_bytes`, `ElGamalKeypair::try_from` and
/// `withdraw_proof_data`, which draws random numbers, and tells its errors apart. Claimed:
/// proofs that come back are about the balance less the amount, and say `withdraw_statement`;
/// and where none come back, `spending_fault` is why. The first proof is made only where what
/// is left decrypts to the point of the difference, which is to say where the balance holds
/// `current`. Whether a commitment comes out as the identity is left unsaid, and so is the
/// evidence in the proofs: both rest on chance.
#[verifier::external_body]
fn withdraw_proofs(available: &[u8; 64], current: u64, amount: u64, pair: &[u8]) -> (r: Result<
    WithdrawProofs,
    ProofFault,
>)
    requires
        elgamal_ciphertext(available@),
        keypair(pair@),
    ensures
        r matches Err(fault) ==> fault == spending_fault(
            pair@.subrange(32, 64), available@, Some(current), amount),
        r matches Ok(p) ==> p.equality@.subrange(32, 96) == ciphertext_less(available@, amount),
        r matches Ok(p) ==> withdraw_statement(
            p.equality@, p.range@, pair@.subrange(0, 32), pair@.subrange(32, 64), available@,
            current, amount),
{
    withdraw_proof_data(
        &ElGamalCiphertext::from_bytes(available).unwrap(), current, amount,
        &ElGamalKeypair::try_from(pair).unwrap())
    .map(|p| WithdrawProofs {
        equality: bytes_of(&p.equality_proof_data).to_vec(),
        range: bytes_of(&p.range_proof_data).to_vec() })
    .map_err(|e| match e { FeeError => FeeCalculation, ExtractionError => CiphertextExtraction,
        FundsError => NotEnoughFunds, AmountError => IllegalAmountBitLength,
        InnerError(inner) => match inner {
            IdentityError => InvalidCommitment, InputError => InconsistentInput,
            LengthError => ProofLength, CommitmentsError => IllegalCommitmentLength,
            BitLengthsError => IllegalBitLengths, RangeError(_) => RangeProof } })
}

/// What `try_combine_lo_hi_ciphertexts` makes of the ciphertext of the low 16 bits of a number
/// and that of the bits above.
pub uninterp spec fn ciphertext_joined(lo: Seq<u8>, hi: Seq<u8>) -> Seq<u8>;

/// The difference of two ciphertexts, as the `-` of `ElGamalCiphertext` gives it.
pub uninterp spec fn ciphertext_minus(ciphertext: Seq<u8>, other: Seq<u8>) -> Seq<u8>;

/// The proofs of a transfer, and the amount as encrypted for the auditor: its low 16 bits
/// and the bits above.
pub struct TransferProofs {
    pub equality: Vec<u8>,
    pub validity: Vec<u8>,
    pub range: Vec<u8>,
    pub auditor_lo: [u8; 64],
    pub auditor_hi: [u8; 64],
}

/// What the proofs of a transfer say. The first is about what is left of `current` after
/// `amount`, as in a withdrawal: `available` less the two parts of the amount, joined, as the
/// second has them encrypted for the sender. The second is about the low and the high part of `amount`,
/// encrypted for the sender, for `destination`, and for an auditor whose key is 32 zero
/// bytes: sender and recipient can both read them. The third is about the three commitments
/// that the other two speak of.
pub open spec fn transfer_statement(
    equality: Seq<u8>,
    validity: Seq<u8>,
    range: Seq<u8>,
    auditor_lo: Seq<u8>,
    auditor_hi: Seq<u8>,
    pubkey: Seq<u8>,
    secret: Seq<u8>,
    available: Seq<u8>,
    current: u64,
    amount: u64,
    destination: Seq<u8>,
) -> bool {
    let lo = amount % 65536;
    let hi = amount / 65536;
    let sent_lo = validity.subrange(96, 128) + validity.subrange(128, 160);
    let sent_hi = validity.subrange(224, 256) + validity.subrange(256, 288);
    let received_lo = validity.subrange(96, 128) + validity.subrange(160, 192);
    let received_hi = validity.subrange(224, 256) + validity.subrange(288, 320);
    &&& equality.len() == 320
    &&& validity.len() == 544
    &&& range.len() == 1000
    &&& amount <= current
    &&& equality.subrange(0, 32) == pubkey
    &&& equality.subrange(32, 96) == ciphertext_minus(
        available, ciphertext_joined(sent_lo, sent_hi))
    &&& validity.subrange(0, 32) == pubkey
    &&& validity.subrange(32, 64) == destination
    &&& validity.subrange(64, 96) == Seq::new(32, |i: int| 0u8)
    &&& range.subrange(0, 32) == equality.subrange(96, 128)
    &&& range.subrange(32, 64) == validity.subrange(96, 128)
    &&& range.subrange(64, 96) == validity.subrange(224, 256)
    &&& auditor_lo == validity.subrange(96, 128) + validity.subrange(192, 224)
    &&& auditor_hi == validity.subrange(224, 256) + validity.subrange(320, 352)
    &&& encrypts(secret, available, current)
    &&& encrypts(secret, equality.subrange(32, 96), (current - amount) as u64)
    &&& encrypts(secret, sent_lo, lo)
    &&& encrypts(secret, sent_hi, hi)
    &&& current < 0x1_0000_0000 ==> elgamal_u32(secret, available) == Some(current)
    &&& current - amount < 0x1_0000_0000 ==> elgamal_u32(secret, equality.subrange(32, 96))
        == Some((current - amount) as u64)
    &&& elgamal_u32(secret, sent_lo) == Some(lo)
    &&& hi < 0x1_0000_0000 ==> elgamal_u32(secret, sent_hi) == Some(hi)
    &&& forall|other: Seq<u8>| other.len() == 32 && #[trigger] elgamal_pair(destination, other) ==> {
        &&& encrypts(other, received_lo, lo)
        &&& encrypts(other, received_hi, hi)
        &&& elgamal_u32(other, received_lo) == Some(lo)
        &&& hi < 0x1_0000_0000 ==> elgamal_u32(other, received_hi) == Some(hi)
    }
}

impl TransferProofs {
    /// The proofs, and what goes with them, say `transfer_statement`.
    pub open spec fn says(
        self,
        pubkey: Seq<u8>,
        secret: Seq<u8>,
        available: Seq<u8>,
        current: u64,
        amount: u64,
        destination: Seq<u8>,
    ) -> bool {
        transfer_statement(
            self.equality@,
            self.validity@,
            self.range@,
            self.auditor_lo@,
            self.auditor_hi@,
            pubkey,
            secret,
            available,
            current,
            amount,
            destination,
        )
    }
}

/// Calls `ElGamalCiphertext::from_bytes`, `AeCiphertext::from_bytes`,
/// `ElGamalKeypair::try_from`, `ElGamalPubkey::try_from` and `transfer_split_proof_data`
/// without an auditor, which draws random numbers, and tells its errors apart. Claimed: proofs
/// that come back, only where the AES copy is readable, are about the balance less the two
/// parts of the amount, joined, and say `transfer_statement`; and where none come back,
/// `spending_fault` is why, as in a withdrawal. Whether a commitment comes out as the identity
/// is left unsaid, and so is the evidence in the proofs: both rest on chance.
#[verifier::external_body]
fn transfer_proofs(
    available: &[u8; 64],
    copy: &[u8; 36],
    amount: u64,
    pair: &[u8],
    aes: [u8; 16],
    destination: &[u8],
) -> (r: Result<TransferProofs, ProofFault>)
    requires
        elgamal_ciphertext(available@),
        keypair(pair@),
        elgamal_key(destination@),
    ensures
        r matches Err(fault) ==> fault == spending_fault(
            pair@.subrange(32, 64), available@, aes_plaintext(aes@, copy@), amount),
        r is Ok ==> aes_plaintext(aes@, copy@) is Some,
        r matches Ok(p) ==> p.equality@.subrange(32, 96) == ciphertext_minus(
            available@,
            ciphertext_joined(
                p.validity@.subrange(96, 128) + p.validity@.subrange(128, 160),
                p.validity@.subrange(224, 256) + p.validity@.subrange(256, 288),
            ),
        ),
        r matches Ok(p) ==> p.says(
            pair@.subrange(0, 32), pair@.subrange(32, 64), available@,
            aes_plaintext(aes@, copy@)->0, amount, destination@),
{
    transfer_split_proof_data(
        &ElGamalCiphertext::from_bytes(available).unwrap(), &AeCiphertext::from_bytes(copy).unwrap(),
        amount, &ElGamalKeypair::try_from(pair).unwrap(), &AeKey::from(aes),
        &ElGamalPubkey::try_from(destination).unwrap(), None)
    .map(|p| TransferProofs { equality: bytes_of(&p.equality_proof_data).to_vec(),
        validity: bytes_of(&p.ciphertext_validity_proof_data_with_ciphertext.proof_data).to_vec(),
        range: bytes_of(&p.range_proof_data).to_vec(),
        auditor_lo: cast(p.ciphertext_validity_proof_data_with_ciphertext.ciphertext_lo),
        auditor_hi: cast(p.ciphertext_validity_proof_data_with_ciphertext.ciphertext_hi) })
    .map_err(|e| match e { FeeError => FeeCalculation, ExtractionError => CiphertextExtraction,
        FundsError => NotEnoughFunds, AmountError => IllegalAmountBitLength,
        InnerError(inner) => match inner { IdentityError => InvalidCommitment,
            InputError => InconsistentInput, LengthError => ProofLength, RangeError(_) => RangeProof,
            CommitmentsError => IllegalCommitmentLength, BitLengthsError => IllegalBitLengths } })
}

/// What the attempt to make the proofs of a withdrawal comes to.
pub fn judge_withdraw(made: Result<WithdrawProofs, ProofFault>) -> (r: Result<
    WithdrawProofs,
    ClientError,
>)
    ensures
        r == match made {
            Err(fault) => Err::<WithdrawProofs, ClientError>(ClientError::Proof(fault)),
            Ok(proofs) => Ok(proofs),
        },
{
    match made {
        Err(fault) => Err(ClientError::Proof(fault)),
        Ok(proofs) => Ok(proofs),
    }
}

/// What the attempt to make the proofs of a transfer comes to.
pub fn judge_transfer(made: Result<TransferProofs, ProofFault>) -> (r: Result<
    TransferProofs,
    ClientError,
>)
    ensures
        r == match made {
            Err(fault) => Err::<TransferProofs, ClientError>(ClientError::Proof(fault)),
            Ok(proofs) => Ok(proofs),
        },
{
    match made {
        Err(fault) => Err(ClientError::Proof(fault)),
        Ok(proofs) => Ok(proofs),
    }
}

/// The encryption keys of one token account.
pub struct Keys {
    pubkey: [u8; 32],
    secret: [u8; 32],
    aes: [u8; 16],
}

/// The three keys.
pub struct KeysView {
    pub pubkey: [u8; 32],
    pub secret: [u8; 32],
    pub aes: [u8; 16],
}

impl KeysView {
    /// The ElGamal keys belong together, and the secret one is a key: it is not zero, and
    /// reads an empty balance as zero.
    pub open spec fn valid(self) -> bool {
        &&& elgamal_pair(self.pubkey@, self.secret@)
        &&& nonzero(self.secret@)
        &&& elgamal_u32(self.secret@, EMPTY_BALANCE@) == Some(0u64)
        &&& encrypts(self.secret@, EMPTY_BALANCE@, 0)
    }
}

impl View for Keys {
    type V = KeysView;

    closed spec fn view(&self) -> KeysView {
        KeysView { pubkey: self.pubkey, secret: self.secret, aes: self.aes }
    }
}

/// The keys that a wallet derives for the token account `ata`, or the reason why it cannot.
pub open spec fn derived_keys(wallet: Wallet, ata: Pubkey) -> Result<KeysView, Seq<char>> {
    match derived_elgamal(wallet@, ata@) {
        Err(reason) => Err(reason),
        Ok(pair) => match derived_aes(wallet@, ata@) {
            Err(reason) => Err(reason),
            Ok(aes) => Ok(KeysView { pubkey: pair.0, secret: pair.1, aes }),
        },
    }
}

/// Derives the keys of the token account `ata`. The address as seed makes the keys
/// recoverable from the wallet and particular to the account.
pub fn keys(wallet: &Wallet, ata: Pubkey) -> (r: Result<Keys, ClientError>)
    ensures
        match derived_keys(*wallet, ata) {
            Ok(view) => r matches Ok(keys) && keys@ == view && view.valid(),
            Err(reason) => r matches Err(ClientError::KeyDerivation(e)) && e@ == reason,
        },
{
    match derive_elgamal(wallet, &ata) {
        Err(reason) => Err(ClientError::KeyDerivation(reason)),
        Ok(pair) => match derive_aes(wallet, &ata) {
            Err(reason) => Err(ClientError::KeyDerivation(reason)),
            Ok(aes) => Ok(Keys { pubkey: pair.0, secret: pair.1, aes }),
        },
    }
}

impl Keys {
    /// The keys are valid.
    #[verifier::type_invariant]
    spec fn well_formed(self) -> bool {
        self@.valid()
    }

    /// The public ElGamal key.
    pub fn pubkey(&self) -> (r: [u8; 32])
        ensures
            r == self@.pubkey,
    {
        self.pubkey
    }

    /// Reads an AES copy of a balance.
    pub fn decrypt(&self, copy: &[u8; 36]) -> (r: Option<u64>)
        ensures
            r == aes_plaintext(self@.aes@, copy@),
    {
        aes_decrypt(&self.aes, copy)
    }

    /// Makes an AES copy of a balance, which `decrypt` reads back.
    pub fn encrypt(&self, amount: u64) -> (r: [u8; 36])
        ensures
            aes_plaintext(self@.aes@, r@) == Some(amount),
    {
        aes_encrypt(&self.aes, amount)
    }

    /// Reads an ElGamal ciphertext of a number below 2^32.
    pub fn decrypt_u32(&self, ciphertext: &[u8; 64]) -> (r: Option<u64>)
        ensures
            r == elgamal_u32(self@.secret@, ciphertext@),
            r matches Some(amount) ==> amount < 0x1_0000_0000 && encrypts(
                self@.secret@,
                ciphertext@,
                amount,
            ),
            forall|amount: u64|
                #![trigger elgamal_holds(self@.secret@, ciphertext@, amount)]
                elgamal_holds(self@.secret@, ciphertext@, amount) ==> (amount < 0x1_0000_0000 ==> r
                    == Some(amount)),
    {
        elgamal_decrypt_u32(&self.secret, ciphertext)
    }

    /// The public key, then the secret key.
    fn pair(&self) -> (r: Vec<u8>)
        ensures
            r@ == self@.pubkey@ + self@.secret@,
            r@.subrange(0, 32) == self@.pubkey@,
            r@.subrange(32, 64) == self@.secret@,
            keypair(r@),
    {
        proof {
            use_type_invariant(self);
        }
        let mut pair: Vec<u8> = Vec::new();
        pair.extend_from_slice(self.pubkey.as_slice());
        pair.extend_from_slice(self.secret.as_slice());
        proof {
            assert(pair@ =~= self@.pubkey@ + self@.secret@);
            assert(pair@.subrange(0, 32) =~= self@.pubkey@);
            assert(pair@.subrange(32, 64) =~= self@.secret@);
        }
        pair
    }

    /// Proves that the public key has a known secret key.
    pub fn prove_pubkey(&self) -> (r: Proof)
        ensures
            r.kind == ProofKind::PubkeyValidity,
            r.data@.len() == 96,
            r.data@.subrange(0, 32) == self@.pubkey@,
    {
        Proof {
            kind: ProofKind::PubkeyValidity,
            data: pubkey_validity_proof(self.pair().as_slice()),
        }
    }

    /// Proves that `amount` can be taken from the available balance, of which `current` is
    /// the reading. Only chance can keep a true reading that covers the amount from being
    /// proved.
    pub fn prove_withdraw(&self, available: &[u8; 64], current: u64, amount: u64) -> (r: Result<
        WithdrawProofs,
        ClientError,
    >)
        ensures
            match r {
                Err(error) => error == if !elgamal_ciphertext(available@) {
                    ClientError::InvalidAvailableCiphertext
                } else {
                    ClientError::Proof(
                        spending_fault(self@.secret@, available@, Some(current), amount),
                    )
                },
                Ok(p) => elgamal_ciphertext(available@) && withdraw_statement(
                    p.equality@,
                    p.range@,
                    self@.pubkey@,
                    self@.secret@,
                    available@,
                    current,
                    amount,
                ),
            },
    {
        if !is_ciphertext(available) {
            return Err(ClientError::InvalidAvailableCiphertext);
        }
        judge_withdraw(withdraw_proofs(available, current, amount, self.pair().as_slice()))
    }

    /// Proves that `amount` can be moved from the available balance, of which `copy` is the
    /// AES copy, to the owner of the ElGamal key `destination`. Only chance can keep a true
    /// copy that covers the amount from being proved.
    pub fn prove_transfer(
        &self,
        available: &[u8; 64],
        copy: &[u8; 36],
        amount: u64,
        destination: &[u8; 32],
    ) -> (r: Result<TransferProofs, ClientError>)
        ensures
            match r {
                Err(error) => if !elgamal_ciphertext(available@) {
                    error == ClientError::InvalidAvailableCiphertext
                } else if !elgamal_key(destination@) {
                    unkeyed(error)
                } else {
                    error == ClientError::Proof(
                        spending_fault(
                            self@.secret@,
                            available@,
                            aes_plaintext(self@.aes@, copy@),
                            amount,
                        ),
                    )
                },
                Ok(p) => elgamal_ciphertext(available@) && elgamal_key(destination@)
                    && aes_plaintext(self@.aes@, copy@) is Some && p.says(
                    self@.pubkey@,
                    self@.secret@,
                    available@,
                    aes_plaintext(self@.aes@, copy@)->0,
                    amount,
                    destination@,
                ),
            },
    {
        if !is_ciphertext(available) {
            return Err(ClientError::InvalidAvailableCiphertext);
        }
        if let Err(reason) = check_key(destination) {
            return Err(ClientError::InvalidRecipientKey(reason));
        }
        judge_transfer(
            transfer_proofs(
                available,
                copy,
                amount,
                self.pair().as_slice(),
                self.aes,
                destination.as_slice(),
            ),
        )
    }
}

} // verus!
