//! What can go wrong for the client, and the words in which it says so.
use vstd::prelude::*;
use vstd::string::*;

verus! {

/// Why the proofs of a withdrawal or of a transfer could not be made: one fault for each of
/// the errors of `TokenProofGenerationError`, and for each of those of the
/// `ProofGenerationError` inside it.
#[derive(Clone, Copy, Debug, PartialEq, Eq)]
pub enum ProofFault {
    /// The amount is above the balance.
    NotEnoughFunds,
    /// The AES copy is not readable.
    IllegalAmountBitLength,
    FeeCalculation,
    CiphertextExtraction,
    IllegalCommitmentLength,
    IllegalBitLengths,
    /// A commitment, which is drawn at random, came out as the identity.
    InvalidCommitment,
    RangeProof,
    ProofLength,
    /// The balance is not the one that was claimed.
    InconsistentInput,
}

impl ProofFault {
    /// The words for the fault.
    pub open spec fn text(self) -> Seq<char> {
        match self {
            ProofFault::NotEnoughFunds => "not enough funds in account"@,
            ProofFault::IllegalAmountBitLength => "illegal amount bit length"@,
            ProofFault::FeeCalculation => "fee calculation failed"@,
            ProofFault::CiphertextExtraction => "ciphertext extraction failed"@,
            _ => "inner proof generation failed"@,
        }
    }

    /// The words for the fault.
    pub fn message(self) -> (r: String)
        ensures
            r@ == self.text(),
    {
        match self {
            ProofFault::NotEnoughFunds => "not enough funds in account".to_owned(),
            ProofFault::IllegalAmountBitLength => "illegal amount bit length".to_owned(),
            ProofFault::FeeCalculation => "fee calculation failed".to_owned(),
            ProofFault::CiphertextExtraction => "ciphertext extraction failed".to_owned(),
            _ => "inner proof generation failed".to_owned(),
        }
    }
}

/// Why a request failed.
#[derive(Debug)]
pub enum ClientError {
    /// There is no keypair in the file at this path.
    UnreadableWallet(String),
    /// The wallet could not sign the seed of an encryption key.
    KeyDerivation(String),
    /// The account is encrypted for another key.
    ForeignKeys,
    /// Credits arrived between reading pending and applying it, so the AES copy lacks them.
    StaleBalance,
    /// The AES copy is not readable with the owner's key.
    UnreadableAvailable,
    /// The low part of pending is not readable, or has outgrown 32 bits.
    UnreadablePendingLow,
    /// The high part of pending is not readable, or has outgrown 32 bits.
    UnreadablePendingHigh,
    /// Pending has outgrown 64 bits.
    PendingOverflow,
    /// The token account could not be fetched; the reason is kept.
    AccountNotFound(String),
    /// The account belongs to another program.
    NotTokenAccount,
    /// The account's bytes do not unpack.
    MalformedAccount(String),
    /// The token account has no confidential side yet.
    NotConfigured,
    /// Available and pending together outgrow 64 bits.
    BalanceOverflow,
    /// More was asked for than is available.
    InsufficientFunds,
    /// The mint has an auditor.
    AuditorUnsupported,
    /// The available balance is not an ElGamal ciphertext.
    InvalidAvailableCiphertext,
    /// The recipient's account is encrypted for something that is not an ElGamal key.
    InvalidRecipientKey(String),
    /// The proofs could not be made.
    Proof(ProofFault),
    /// The network did not answer, or refused a transaction.
    Rpc(String),
}

impl ClientError {
    /// The sentence that the user reads.
    pub open spec fn text(self) -> Seq<char> {
        match self {
            ClientError::UnreadableWallet(path) => "Cannot read wallet keypair at "@ + path@,
            ClientError::KeyDerivation(reason) => reason@,
            ClientError::ForeignKeys =>
                "Account uses different encryption keys; this CLI uses wallet + ATA derivation"@,
            ClientError::StaleBalance =>
                "AES balance is stale after an apply race. Reconcile the missed credits before spending; automatic reconciliation is not implemented."@,
            ClientError::UnreadableAvailable => "Cannot decrypt available balance"@,
            ClientError::UnreadablePendingLow => "Cannot decrypt pending low component"@,
            ClientError::UnreadablePendingHigh =>
                "Pending high component exceeds this CLI's 32-bit decryption range"@,
            ClientError::PendingOverflow => "Pending overflow"@,
            ClientError::AccountNotFound(_) => "Token account not found"@,
            ClientError::NotTokenAccount => "Account is not owned by Token-2022"@,
            ClientError::MalformedAccount(reason) => reason@,
            ClientError::NotConfigured => "Run configure first"@,
            ClientError::BalanceOverflow => "Balance overflow"@,
            ClientError::InsufficientFunds =>
                "Insufficient available funds; apply pending first if needed"@,
            ClientError::AuditorUnsupported =>
                "Auditor-enabled mints are not supported by this CLI yet"@,
            ClientError::InvalidAvailableCiphertext => "Invalid available ciphertext"@,
            ClientError::InvalidRecipientKey(reason) => reason@,
            ClientError::Proof(fault) => fault.text(),
            ClientError::Rpc(reason) => reason@,
        }
    }

    /// The sentence that the user reads.
    pub fn message(&self) -> (r: String)
        ensures
            r@ == self.text(),
    {
        match self {
            ClientError::UnreadableWallet(path) => {
                "Cannot read wallet keypair at ".to_owned().concat(path.as_str())
            },
            ClientError::KeyDerivation(reason) => reason.clone(),
            ClientError::ForeignKeys =>
                "Account uses different encryption keys; this CLI uses wallet + ATA derivation".to_owned(),
            ClientError::StaleBalance =>
                "AES balance is stale after an apply race. Reconcile the missed credits before spending; automatic reconciliation is not implemented.".to_owned(),
            ClientError::UnreadableAvailable => "Cannot decrypt available balance".to_owned(),
            ClientError::UnreadablePendingLow => "Cannot decrypt pending low component".to_owned(),
            ClientError::UnreadablePendingHigh =>
                "Pending high component exceeds this CLI's 32-bit decryption range".to_owned(),
            ClientError::PendingOverflow => "Pending overflow".to_owned(),
            ClientError::AccountNotFound(_) => "Token account not found".to_owned(),
            ClientError::NotTokenAccount => "Account is not owned by Token-2022".to_owned(),
            ClientError::MalformedAccount(reason) => reason.clone(),
            ClientError::NotConfigured => "Run configure first".to_owned(),
            ClientError::BalanceOverflow => "Balance overflow".to_owned(),
            ClientError::InsufficientFunds =>
                "Insufficient available funds; apply pending first if needed".to_owned(),
            ClientError::AuditorUnsupported =>
                "Auditor-enabled mints are not supported by this CLI yet".to_owned(),
            ClientError::InvalidAvailableCiphertext => "Invalid available ciphertext".to_owned(),
            ClientError::InvalidRecipientKey(reason) => reason.clone(),
            ClientError::Proof(fault) => fault.message(),
            ClientError::Rpc(reason) => reason.clone(),
        }
    }
}

/// A result with its error message as a sequence of characters.
pub open spec fn read_out<T>(r: Result<T, String>) -> Result<T, Seq<char>> {
    match r {
        Ok(value) => Ok(value),
        Err(message) => Err(message@),
    }
}

} // verus!
