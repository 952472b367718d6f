//! What the words mean in which the contracts speak: of numbers, of balances, of accounts that
//! were read, and of the calls that travel.
use vstd::prelude::*;
use crate::address::{Pubkey, ASSOCIATED_TOKEN, ID, SYSTEM, TOKEN_2022, ZK_ELGAMAL_PROOF};
use crate::balance::{
    account, account_of, auditor_verdict, available, available_of, join_pending, judge_auditor,
    judge_available, open_account, pending, pending_of, reading, remaining, remaining_of, total,
    total_of,
};
use crate::bytes::{byte_at, le64};
use crate::calls::{
    configure_accounts, configure_metas, initialize_mint_accounts, initialize_mint_metas, ix,
    ix_view, owner_accounts, owner_metas, transfer_accounts, transfer_metas, withdraw_accounts,
    withdraw_metas, Call,
};
use crate::client::Client;
use crate::error::{read_out, ClientError, ProofFault};
use crate::instruction::{AccountMeta, Instruction};
use crate::keys::{
    aes_plaintext, derived_aes, derived_elgamal, derived_keys, elgamal_ciphertext, elgamal_holds,
    elgamal_key, elgamal_u32, encrypts, judge_transfer, judge_withdraw, keys, signing_pair,
    spending_fault, Keys, KeysView, TransferProofs, Wallet, WithdrawProofs,
};
use crate::session::{AfterKey, Goal, Step, Transaction};
use crate::state::{token_account, AccountData, ConfidentialAccount, NO_AUDITOR};
use crate::system::{associated_token_address, create_account_call};
use crate::zk::{
    close_context_call, encode_verify_proof, verify_proof_call, Proof, ProofKind,
};

verus! {

/// The number that eight bytes stand for, lowest first.
pub open spec fn number(s: Seq<u8>) -> int {
    s[0] + 0x100 * s[1] + 0x1_0000 * s[2] + 0x100_0000 * s[3] + 0x1_0000_0000 * s[4]
        + 0x100_0000_0000 * s[5] + 0x1_0000_0000_0000 * s[6] + 0x100_0000_0000_0000 * s[7]
}

/// The eight bytes of a number stand for it.
pub proof fn eight_bytes_stand_for_the_number(x: u64)
    ensures
        le64(x).len() == 8,
        number(le64(x)) == x,
{
    let s = le64(x);
    assert(s[0] == byte_at(x, 0) && s[1] == byte_at(x, 1) && s[2] == byte_at(x, 2) && s[3]
        == byte_at(x, 3) && s[4] == byte_at(x, 4) && s[5] == byte_at(x, 5) && s[6] == byte_at(x, 6)
        && s[7] == byte_at(x, 7));
    let a = ((x >> 0u64) & 0xff) as u8;
    let b = ((x >> 8u64) & 0xff) as u8;
    let c = ((x >> 16u64) & 0xff) as u8;
    let d = ((x >> 24u64) & 0xff) as u8;
    let e = ((x >> 32u64) & 0xff) as u8;
    let f = ((x >> 40u64) & 0xff) as u8;
    let g = ((x >> 48u64) & 0xff) as u8;
    let h = ((x >> 56u64) & 0xff) as u8;
    assert(a + 0x100 * b + 0x1_0000 * c + 0x100_0000 * d + 0x1_0000_0000 * e + 0x100_0000_0000 * f
        + 0x1_0000_0000_0000 * g + 0x100_0000_0000_0000 * h == x) by (bit_vector)
        requires
            a == ((x >> 0u64) & 0xff) as u8,
            b == ((x >> 8u64) & 0xff) as u8,
            c == ((x >> 16u64) & 0xff) as u8,
            d == ((x >> 24u64) & 0xff) as u8,
            e == ((x >> 32u64) & 0xff) as u8,
            f == ((x >> 40u64) & 0xff) as u8,
            g == ((x >> 48u64) & 0xff) as u8,
            h == ((x >> 56u64) & 0xff) as u8,
    ;
}

/// What is appended for a number stands for it, and what was there before stays.
pub proof fn appended_bytes_stand_for_the_number(before: Seq<u8>, x: u64)
    ensures
        (before + le64(x)).len() == before.len() + 8,
        (before + le64(x)).take(before.len() as int) == before,
        number((before + le64(x)).skip(before.len() as int)) == x,
{
    eight_bytes_stand_for_the_number(x);
    assert((before + le64(x)).take(before.len() as int) =~= before);
    assert((before + le64(x)).skip(before.len() as int) =~= le64(x));
}

/// An account in a call, with the two rights that the call claims to it.
pub open spec fn named(pubkey: Pubkey, signs: bool, changes: bool) -> AccountMeta {
    AccountMeta { pubkey, is_signer: signs, is_writable: changes }
}

/// The data of a call: eight bytes for the instruction, then each argument in its place.
pub open spec fn laid_out(call: Call, data: Seq<u8>) -> bool {
    match call {
        Call::InitializeMint { decimals } => {
            &&& data.len() == 9
            &&& data.take(8) == seq![209u8, 42, 195, 4, 129, 85, 209, 44]
            &&& data[8] == decimals
        },
        Call::ConfigureAccount {
            decryptable_zero_balance,
            maximum_pending_balance_credit_counter,
        } => {
            &&& data.len() == 52
            &&& data.take(8) == seq![183u8, 102, 77, 98, 82, 247, 97, 187]
            &&& data.subrange(8, 44) == decryptable_zero_balance@
            &&& number(data.skip(44)) == maximum_pending_balance_credit_counter
        },
        Call::Deposit { amount } => {
            &&& data.len() == 16
            &&& data.take(8) == seq![242u8, 35, 198, 137, 82, 225, 242, 182]
            &&& number(data.skip(8)) == amount
        },
        Call::ApplyPending {
            expected_pending_balance_credit_counter,
            new_decryptable_available_balance,
        } => {
            &&& data.len() == 52
            &&& data.take(8) == seq![88u8, 86, 232, 48, 42, 150, 180, 196]
            &&& number(data.subrange(8, 16)) == expected_pending_balance_credit_counter
            &&& data.skip(16) == new_decryptable_available_balance@
        },
        Call::TransferConfidential {
            new_source_decryptable_available_balance,
            transfer_amount_auditor_ciphertext_lo,
            transfer_amount_auditor_ciphertext_hi,
        } => {
            &&& data.len() == 172
            &&& data.take(8) == seq![215u8, 121, 88, 79, 4, 130, 130, 58]
            &&& data.subrange(8, 44) == new_source_decryptable_available_balance@
            &&& data.subrange(44, 108) == transfer_amount_auditor_ciphertext_lo@
            &&& data.skip(108) == transfer_amount_auditor_ciphertext_hi@
        },
        Call::Withdraw { amount, new_decryptable_available_balance } => {
            &&& data.len() == 52
            &&& data.take(8) == seq![183u8, 18, 70, 156, 148, 109, 161, 34]
            &&& number(data.subrange(8, 16)) == amount
            &&& data.skip(16) == new_decryptable_available_balance@
        },
    }
}

/// Whatever its arguments, a call has them in its data where the program looks for them.
pub proof fn calls_carry_their_arguments(call: Call)
    ensures
        laid_out(call, call.encoded()),
{
    let data = call.encoded();
    assert(data.take(8) =~= call.discriminator());
    match call {
        Call::ConfigureAccount {
            decryptable_zero_balance,
            maximum_pending_balance_credit_counter,
        } => {
            eight_bytes_stand_for_the_number(maximum_pending_balance_credit_counter);
            assert(data.subrange(8, 44) =~= decryptable_zero_balance@);
            assert(data.skip(44) =~= le64(maximum_pending_balance_credit_counter));
        },
        Call::Deposit { amount } => {
            eight_bytes_stand_for_the_number(amount);
            assert(data.skip(8) =~= le64(amount));
        },
        Call::ApplyPending {
            expected_pending_balance_credit_counter,
            new_decryptable_available_balance,
        } => {
            eight_bytes_stand_for_the_number(expected_pending_balance_credit_counter);
            assert(data.subrange(8, 16) =~= le64(expected_pending_balance_credit_counter));
            assert(data.skip(16) =~= new_decryptable_available_balance@);
        },
        Call::TransferConfidential {
            new_source_decryptable_available_balance,
            transfer_amount_auditor_ciphertext_lo,
            transfer_amount_auditor_ciphertext_hi,
        } => {
            assert(data.subrange(8, 44) =~= new_source_decryptable_available_balance@);
            assert(data.subrange(44, 108) =~= transfer_amount_auditor_ciphertext_lo@);
            assert(data.skip(108) =~= transfer_amount_auditor_ciphertext_hi@);
        },
        Call::Withdraw { amount, new_decryptable_available_balance } => {
            eight_bytes_stand_for_the_number(amount);
            assert(data.subrange(8, 16) =~= le64(amount));
            assert(data.skip(16) =~= new_decryptable_available_balance@);
        },
        _ => {},
    }
}

/// `Call::data` gives that data, and `ix` sends it to the payments program with the accounts
/// that it was given.
pub proof fn sent_calls_carry_their_arguments(
    call: Call,
    accounts: Vec<AccountMeta>,
    data: Vec<u8>,
    sent: Instruction,
)
    requires
        call_ensures(Call::data, (&call,), data),
        call_ensures(ix, (&call, accounts), sent),
    ensures
        laid_out(call, data@),
        sent.program_id == ID,
        sent.accounts@ == accounts@,
        laid_out(call, sent.data@),
        sent@ == ix_view(call, accounts@),
{
    calls_carry_their_arguments(call);
    assert(sent@.data == sent.data@);
    assert(sent@.accounts == sent.accounts@);
}

/// The accounts of each call, and the rights that it claims to them: the wallet signs, what
/// is changed is writable, and nothing else is either.
pub proof fn calls_name_these_accounts(
    owner: Pubkey,
    recipient: Pubkey,
    mint: Pubkey,
    account: Pubkey,
    other: Pubkey,
    a: Pubkey,
    b: Pubkey,
    c: Pubkey,
)
    ensures
        initialize_mint_metas(owner, mint) == seq![
            named(owner, true, true),
            named(mint, true, true),
            named(owner, true, false),
            named(TOKEN_2022, false, false),
            named(SYSTEM, false, false),
        ],
        configure_metas(owner, mint, account, a) == seq![
            named(owner, true, true),
            named(owner, true, false),
            named(mint, false, false),
            named(account, false, true),
            named(a, false, false),
            named(TOKEN_2022, false, false),
            named(ASSOCIATED_TOKEN, false, false),
            named(SYSTEM, false, false),
        ],
        owner_metas(owner, mint, account) == seq![
            named(owner, true, false),
            named(mint, false, false),
            named(account, false, true),
            named(TOKEN_2022, false, false),
        ],
        transfer_metas(owner, recipient, mint, account, other, a, b, c) == seq![
            named(owner, true, false),
            named(recipient, false, false),
            named(mint, false, false),
            named(account, false, true),
            named(other, false, true),
            named(a, false, false),
            named(b, false, false),
            named(c, false, false),
            named(TOKEN_2022, false, false),
        ],
        withdraw_metas(owner, mint, account, a, b) == seq![
            named(owner, true, false),
            named(mint, false, false),
            named(account, false, true),
            named(a, false, false),
            named(b, false, false),
            named(TOKEN_2022, false, false),
        ],
{
}

/// The lists of accounts that are built are those.
pub proof fn built_lists_name_these_accounts(
    owner: Pubkey,
    recipient: Pubkey,
    mint: Pubkey,
    account: Pubkey,
    other: Pubkey,
    a: Pubkey,
    b: Pubkey,
    c: Pubkey,
    for_mint: Vec<AccountMeta>,
    for_configure: Vec<AccountMeta>,
    for_owner: Vec<AccountMeta>,
    for_transfer: Vec<AccountMeta>,
    for_withdraw: Vec<AccountMeta>,
)
    requires
        call_ensures(initialize_mint_accounts, (owner, mint), for_mint),
        call_ensures(configure_accounts, (owner, mint, account, a), for_configure),
        call_ensures(owner_accounts, (owner, mint, account), for_owner),
        call_ensures(
            transfer_accounts,
            (owner, recipient, mint, account, other, a, b, c),
            for_transfer,
        ),
        call_ensures(withdraw_accounts, (owner, mint, account, a, b), for_withdraw),
    ensures
        for_mint@ == initialize_mint_metas(owner, mint),
        for_configure@ == configure_metas(owner, mint, account, a),
        for_owner@ == owner_metas(owner, mint, account),
        for_transfer@ == transfer_metas(owner, recipient, mint, account, other, a, b, c),
        for_withdraw@ == withdraw_metas(owner, mint, account, a, b),
{
}

/// The calls of the two programs that keep proofs: creating a context takes the rent from the
/// payer and gives the account to its program; verifying writes to the context; closing pays
/// the authority, which signs.
pub proof fn context_calls_say(
    from: Pubkey,
    to: Pubkey,
    lamports: u64,
    space: u64,
    program: Pubkey,
    kind: ProofKind,
    proof: Seq<u8>,
    context: Pubkey,
    authority: Pubkey,
)
    ensures
        ({
            let create = create_account_call(from, to, lamports, space, program);
            &&& create.program_id == SYSTEM
            &&& create.accounts == seq![named(from, true, true), named(to, true, true)]
            &&& create.data.len() == 52
            &&& create.data.take(4) == seq![0u8, 0, 0, 0]
            &&& number(create.data.subrange(4, 12)) == lamports
            &&& number(create.data.subrange(12, 20)) == space
            &&& create.data.skip(20) == program@
        }),
        ({
            let verify = verify_proof_call(kind, proof, context, authority);
            &&& verify.program_id == ZK_ELGAMAL_PROOF
            &&& verify.accounts == seq![
                named(context, false, true),
                named(authority, false, false),
            ]
            &&& verify.data.len() == proof.len() + 1
            &&& verify.data[0] == match kind {
                ProofKind::PubkeyValidity => 4u8,
                ProofKind::CiphertextCommitmentEquality => 3u8,
                ProofKind::BatchedGroupedCiphertext3HandlesValidity => 12u8,
                ProofKind::BatchedRangeProofU64 => 6u8,
                ProofKind::BatchedRangeProofU128 => 7u8,
            }
            &&& verify.data.skip(1) == proof
        }),
        ({
            let close = close_context_call(context, authority);
            &&& close.program_id == ZK_ELGAMAL_PROOF
            &&& close.accounts == seq![
                named(context, false, true),
                named(authority, false, true),
                named(authority, true, false),
            ]
            &&& close.data == seq![0u8]
        }),
{
    let create = create_account_call(from, to, lamports, space, program);
    eight_bytes_stand_for_the_number(lamports);
    eight_bytes_stand_for_the_number(space);
    assert(create.data.take(4) =~= seq![0u8, 0, 0, 0]);
    assert(create.data.subrange(4, 12) =~= le64(lamports));
    assert(create.data.subrange(12, 20) =~= le64(space));
    assert(create.data.skip(20) =~= program@);
    assert(verify_proof_call(kind, proof, context, authority).data.skip(1) =~= proof);
}

/// The instructions that verify a proof and close a context are those calls.
pub proof fn context_instructions_say(
    client: Client,
    proof: Proof,
    context: Pubkey,
    authority: Pubkey,
    verify: Instruction,
    close: Instruction,
)
    requires
        call_ensures(encode_verify_proof, (&proof, context, authority), verify),
        call_ensures(Client::close_ix, (&client, context), close),
    ensures
        verify@ == verify_proof_call(proof.kind, proof.data@, context, authority),
        close@ == close_context_call(context, client.owner),
{
}

/// A transaction says what its instructions say, one by one.
pub proof fn transactions_say_their_instructions(tx: Transaction, i: int)
    requires
        0 <= i < tx.instructions@.len(),
    ensures
        tx.says().len() == tx.instructions@.len(),
        tx.says()[i].program_id == tx.instructions@[i].program_id,
        tx.says()[i].accounts == tx.instructions@[i].accounts@,
        tx.says()[i].data == tx.instructions@[i].data@,
{
}

/// The token account of a wallet is the one that is associated with it under Token-2022.
pub proof fn token_accounts_are_associated(client: Client, owner: Pubkey, mint: Pubkey, ata: Pubkey)
    requires
        call_ensures(Client::ata, (&client, owner, mint), ata),
    ensures
        ata == associated_token_address(owner, mint, TOKEN_2022),
        Client::ata_of(owner, mint) == associated_token_address(owner, mint, TOKEN_2022),
{
}

/// A client acts for the wallet that it was given, under the public half of its key.
pub proof fn clients_act_for_their_wallet(
    path: &str,
    wallet: Option<Wallet>,
    made: Result<Client, ClientError>,
    owner: Pubkey,
)
    requires
        call_ensures(Client::new, (path, wallet), made),
        made matches Ok(client) ==> call_ensures(Client::owner, (&client,), owner),
    ensures
        made is Ok <==> (wallet matches Some(w) && signing_pair(w@)),
        made matches Ok(client) ==> wallet == Some(client.wallet) && owner@
            == client.wallet@.subrange(32, 64) && client.owner == owner,
        made matches Err(error) ==> error.text() == "Cannot read wallet keypair at "@ + path@,
{
    if let Ok(client) = made {
        assert(owner == client.owner);
    }
}

/// The keys of a token account are what the wallet derives with the account's address as
/// seed, the ElGamal pair and the AES key each from that seed.
pub proof fn keys_come_from_wallet_and_account(
    wallet: Wallet,
    ata: Pubkey,
    made: Result<Keys, ClientError>,
)
    requires
        call_ensures(keys, (&wallet, ata), made),
    ensures
        match (derived_elgamal(wallet@, ata@), derived_aes(wallet@, ata@)) {
            (Ok(pair), Ok(aes)) => made matches Ok(k) && k@ == (KeysView {
                pubkey: pair.0,
                secret: pair.1,
                aes,
            }) && derived_keys(wallet, ata) == Ok::<KeysView, Seq<char>>(k@),
            (Err(reason), _) => made matches Err(ClientError::KeyDerivation(e)) && e@ == reason,
            (Ok(_), Err(reason)) => made matches Err(ClientError::KeyDerivation(e)) && e@ == reason,
        },
        derived_keys(wallet, ata) is Ok <==> made is Ok,
{
}

/// Funds are available to whom the account is encrypted for, as long as no credit was missed
/// when pending was last applied, and then they are what the AES copy reads; nothing else of
/// the account matters, and least of all what is pending.
pub proof fn available_is_what_the_copy_reads(e: ConfidentialAccount, keys: KeysView, amount: u64)
    ensures
        available_of(e, keys) == Ok::<u64, ClientError>(amount) <==> (e.elgamal_pubkey
            == keys.pubkey && e.expected_pending_balance_credit_counter
            == e.actual_pending_balance_credit_counter && aes_plaintext(
            keys.aes@,
            e.decryptable_available_balance@,
        ) == Some(amount)),
        available_of(e, keys) == Err::<u64, ClientError>(ClientError::ForeignKeys) <==> (
        e.elgamal_pubkey != keys.pubkey),
        available_of(e, keys) == Err::<u64, ClientError>(ClientError::StaleBalance) <==> (
        e.elgamal_pubkey == keys.pubkey && e.expected_pending_balance_credit_counter
            != e.actual_pending_balance_credit_counter),
        available_of(e, keys) == Err::<u64, ClientError>(ClientError::UnreadableAvailable) <==> (
        e.elgamal_pubkey == keys.pubkey && e.expected_pending_balance_credit_counter
            == e.actual_pending_balance_credit_counter && aes_plaintext(
            keys.aes@,
            e.decryptable_available_balance@,
        ) is None),
{
}

/// Pending is its low part and 65,536 times its high part, if both can be read.
pub proof fn pending_is_both_its_parts(e: ConfidentialAccount, keys: KeysView)
    ensures
        match (
            elgamal_u32(keys.secret@, e.pending_balance_lo@),
            elgamal_u32(keys.secret@, e.pending_balance_hi@),
        ) {
            (None, _) => pending_of(e, keys) == Err::<u64, ClientError>(
                ClientError::UnreadablePendingLow,
            ),
            (Some(_), None) => pending_of(e, keys) == Err::<u64, ClientError>(
                ClientError::UnreadablePendingHigh,
            ),
            (Some(lo), Some(hi)) => if lo + 65536 * hi <= u64::MAX {
                pending_of(e, keys) matches Ok(pending) && pending == lo + 65536 * hi
            } else {
                pending_of(e, keys) == Err::<u64, ClientError>(ClientError::PendingOverflow)
            },
        },
{
}

/// Applying pending brings available and pending together; what is available is looked at
/// first.
pub proof fn total_is_available_and_pending(e: ConfidentialAccount, keys: KeysView)
    ensures
        match (available_of(e, keys), pending_of(e, keys)) {
            (Err(error), _) => total_of(e, keys) == Err::<u64, ClientError>(error),
            (Ok(_), Err(error)) => total_of(e, keys) == Err::<u64, ClientError>(error),
            (Ok(available), Ok(pending)) => match total_of(e, keys) {
                Ok(total) => total == available + pending,
                Err(error) => error == ClientError::BalanceOverflow && available + pending
                    > u64::MAX,
            },
        },
{
}

/// An amount can be spent exactly if it is available, and the rest is what is left of that.
pub proof fn what_is_available_can_be_spent(e: ConfidentialAccount, keys: KeysView, amount: u64)
    ensures
        match available_of(e, keys) {
            Err(error) => remaining_of(e, keys, amount) == Err::<u64, ClientError>(error),
            Ok(available) => match remaining_of(e, keys, amount) {
                Ok(rest) => rest + amount == available,
                Err(error) => error == ClientError::InsufficientFunds && amount > available,
            },
        },
{
}

/// The functions that read balances give these readings.
pub proof fn balances_are_read_so(
    e: ConfidentialAccount,
    keys: Keys,
    amount: u64,
    now: Result<u64, ClientError>,
    waiting: Result<u64, ClientError>,
    both: Result<u64, ClientError>,
    rest: Result<u64, ClientError>,
)
    requires
        call_ensures(available, (&e, &keys), now),
        call_ensures(pending, (&e, &keys), waiting),
        call_ensures(total, (&e, &keys), both),
        call_ensures(remaining, (&e, &keys, amount), rest),
    ensures
        now == available_of(e, keys@),
        waiting == pending_of(e, keys@),
        both == total_of(e, keys@),
        rest == remaining_of(e, keys@, amount),
{
}

/// Readings that are handed in are judged alike: the copy counts only for the right key and
/// with no credit missed, and the two parts are put together.
pub proof fn readings_are_judged_so(
    e: ConfidentialAccount,
    pubkey: [u8; 32],
    copy: Option<u64>,
    judged: Result<u64, ClientError>,
    lo: Option<u64>,
    hi: Option<u64>,
    joined: Result<u64, ClientError>,
)
    requires
        call_ensures(judge_available, (&e, &pubkey, copy), judged),
        call_ensures(join_pending, (lo, hi), joined),
    ensures
        forall|amount: u64|
            judged == Ok::<u64, ClientError>(amount) <==> (e.elgamal_pubkey == pubkey
                && e.expected_pending_balance_credit_counter
                == e.actual_pending_balance_credit_counter && copy == Some(amount)),
        judged is Err ==> judged == Err::<u64, ClientError>(
            if e.elgamal_pubkey != pubkey {
                ClientError::ForeignKeys
            } else if copy is Some {
                ClientError::StaleBalance
            } else if e.expected_pending_balance_credit_counter
                != e.actual_pending_balance_credit_counter {
                ClientError::StaleBalance
            } else {
                ClientError::UnreadableAvailable
            },
        ),
        match joined {
            Ok(sum) => lo is Some && hi is Some && sum == lo->0 + 65536 * hi->0,
            Err(error) => error == if lo is None {
                ClientError::UnreadablePendingLow
            } else if hi is None {
                ClientError::UnreadablePendingHigh
            } else {
                ClientError::PendingOverflow
            } && (lo is Some && hi is Some ==> lo->0 + 65536 * hi->0 > u64::MAX),
        },
{
}

/// Why a token account cannot be used: it is not there, it is not Token-2022's, its bytes do
/// not unpack, or it has no confidential side.
pub open spec fn unusable(found: Result<AccountData, String>, error: ClientError) -> bool {
    match found {
        Err(reason) => error matches ClientError::AccountNotFound(e) && e@ == reason@,
        Ok(a) => {
            ||| a.owner != TOKEN_2022 && error == ClientError::NotTokenAccount
            ||| a.owner == TOKEN_2022 && (token_account(a.data@) matches Err(reason)
                && (error matches ClientError::MalformedAccount(e) && e@ == reason))
            ||| a.owner == TOKEN_2022 && (token_account(a.data@) matches Ok((_, None))
                && error == ClientError::NotConfigured)
        },
    }
}

/// A token account that can be used.
pub open spec fn usable(
    found: Result<AccountData, String>,
    amount: u64,
    e: ConfidentialAccount,
) -> bool {
    found matches Ok(a) && a.owner == TOKEN_2022 && token_account(a.data@) == Ok::<
        (u64, Option<ConfidentialAccount>),
        Seq<char>,
    >((amount, Some(e)))
}

/// An account is read as what its bytes hold if it is Token-2022's and has a confidential
/// side, and refused for its own reason otherwise.
pub proof fn accounts_are_read_as_they_are(
    found: Result<AccountData, String>,
    read: Result<(u64, ConfidentialAccount), ClientError>,
)
    requires
        call_ensures(account, (found,), read),
    ensures
        match read {
            Ok((amount, e)) => usable(found, amount, e) && reading(found) == Some((amount, e)),
            Err(error) => unusable(found, error) && reading(found) is None,
        },
{
}

/// The same of the words in which contracts speak of an account that was read.
pub proof fn reading_is_of_usable_accounts(
    found: Result<AccountData, String>,
    amount: u64,
    e: ConfidentialAccount,
    error: ClientError,
)
    ensures
        reading(found) == Some((amount, e)) <==> usable(found, amount, e),
        reading(found) is None ==> (account_of(
            found,
            Err::<(u64, ConfidentialAccount), ClientError>(error),
        ) <==> unusable(found, error)),
{
}

/// An account that was unpacked is taken if it has a confidential side.
pub proof fn unpacked_accounts_need_a_confidential_side(
    unpacked: Result<(u64, Option<ConfidentialAccount>), String>,
    read: Result<(u64, ConfidentialAccount), ClientError>,
)
    requires
        call_ensures(open_account, (unpacked,), read),
    ensures
        match unpacked {
            Ok((amount, Some(e))) => read == Ok::<(u64, ConfidentialAccount), ClientError>(
                (amount, e),
            ),
            Ok((_, None)) => read == Err::<(u64, ConfidentialAccount), ClientError>(
                ClientError::NotConfigured,
            ),
            Err(reason) => read matches Err(ClientError::MalformedAccount(e)) && e@ == reason@,
        },
{
}

/// A mint will do exactly if its auditor key is 32 zero bytes.
pub proof fn only_mints_without_auditor_will_do(
    auditor: Result<[u8; 32], String>,
    judged: Result<(), ClientError>,
)
    requires
        call_ensures(judge_auditor, (auditor,), judged),
    ensures
        judged is Ok <==> (auditor matches Ok(key) && forall|i: int| 0 <= i < 32 ==> key@[i] == 0),
        auditor matches Err(reason) ==> (judged matches Err(ClientError::MalformedAccount(e)) && e@
            == reason@),
        auditor is Ok && judged is Err ==> judged == Err::<(), ClientError>(
            ClientError::AuditorUnsupported,
        ),
        auditor_verdict(read_out(auditor), judged),
{
    if let Ok(key) = auditor {
        if forall|i: int| 0 <= i < 32 ==> key@[i] == 0 {
            assert(key =~= NO_AUDITOR);
        }
    }
}

/// Proofs are kept from being made by too little money, by a copy that cannot be read, or by
/// a balance that is not what was claimed; and else by chance alone.
pub proof fn only_these_faults_keep_proofs_from_being_made(
    secret: Seq<u8>,
    available: Seq<u8>,
    current: Option<u64>,
    amount: u64,
)
    ensures
        spending_fault(secret, available, current, amount) == ProofFault::InvalidCommitment <==> (
        current matches Some(held) && amount <= held && elgamal_holds(secret, available, held)),
        spending_fault(secret, available, current, amount) == ProofFault::NotEnoughFunds <==> (
        current matches Some(held) && amount > held),
        spending_fault(secret, available, current, amount) == ProofFault::InconsistentInput <==> (
        current matches Some(held) && amount <= held && !elgamal_holds(secret, available, held)),
        spending_fault(secret, available, current, amount) == ProofFault::IllegalAmountBitLength
            <==> current is None,
{
}

/// The attempt to prove a withdrawal: what it gives is about the balance less the amount, and
/// it fails for the reason that holds.
pub proof fn withdrawals_are_proved_of_the_balance(
    keys: Keys,
    available: [u8; 64],
    current: u64,
    amount: u64,
    made: Result<WithdrawProofs, ClientError>,
)
    requires
        call_ensures(Keys::prove_withdraw, (&keys, &available, current, amount), made),
    ensures
        !elgamal_ciphertext(available@) ==> made == Err::<WithdrawProofs, ClientError>(
            ClientError::InvalidAvailableCiphertext,
        ),
        elgamal_ciphertext(available@) && amount > current ==> made == Err::<
            WithdrawProofs,
            ClientError,
        >(ClientError::Proof(ProofFault::NotEnoughFunds)),
        elgamal_ciphertext(available@) && amount <= current && !elgamal_holds(
            keys@.secret@,
            available@,
            current,
        ) ==> made == Err::<WithdrawProofs, ClientError>(
            ClientError::Proof(ProofFault::InconsistentInput),
        ),
        elgamal_ciphertext(available@) && amount <= current && elgamal_holds(
            keys@.secret@,
            available@,
            current,
        ) ==> (made is Ok || made == Err::<WithdrawProofs, ClientError>(
            ClientError::Proof(ProofFault::InvalidCommitment),
        )),
        made matches Ok(p) ==> p.equality@.subrange(0, 32) == keys@.pubkey@ && encrypts(
            keys@.secret@,
            p.equality@.subrange(32, 96),
            (current - amount) as u64,
        ) && p.range@.subrange(0, 32) == p.equality@.subrange(96, 128),
{
}

/// The attempt to prove a transfer: what it gives is about the balance less the amount, for
/// the recipient that was named, and it fails for the reason that holds.
pub proof fn transfers_are_proved_of_the_balance(
    keys: Keys,
    available: [u8; 64],
    copy: [u8; 36],
    amount: u64,
    destination: [u8; 32],
    held: u64,
    made: Result<TransferProofs, ClientError>,
)
    requires
        call_ensures(
            Keys::prove_transfer,
            (&keys, &available, &copy, amount, &destination),
            made,
        ),
        aes_plaintext(keys@.aes@, copy@) == Some(held),
    ensures
        !elgamal_ciphertext(available@) ==> made == Err::<TransferProofs, ClientError>(
            ClientError::InvalidAvailableCiphertext,
        ),
        elgamal_ciphertext(available@) && !elgamal_key(destination@) ==> (made matches Err(
            ClientError::InvalidRecipientKey(reason),
        ) && reason@ == "failed to deserialize public key"@),
        elgamal_ciphertext(available@) && elgamal_key(destination@) && amount > held ==> made
            == Err::<TransferProofs, ClientError>(ClientError::Proof(ProofFault::NotEnoughFunds)),
        elgamal_ciphertext(available@) && elgamal_key(destination@) && amount <= held
            && !elgamal_holds(keys@.secret@, available@, held) ==> made == Err::<
            TransferProofs,
            ClientError,
        >(ClientError::Proof(ProofFault::InconsistentInput)),
        elgamal_ciphertext(available@) && elgamal_key(destination@) && amount <= held
            && elgamal_holds(keys@.secret@, available@, held) ==> (made is Ok || made == Err::<
            TransferProofs,
            ClientError,
        >(ClientError::Proof(ProofFault::InvalidCommitment))),
        made matches Ok(p) ==> p.equality@.subrange(0, 32) == keys@.pubkey@
            && p.validity@.subrange(0, 32) == keys@.pubkey@ && p.validity@.subrange(32, 64)
            == destination@ && encrypts(
            keys@.secret@,
            p.equality@.subrange(32, 96),
            (held - amount) as u64,
        ) && encrypts(
            keys@.secret@,
            p.validity@.subrange(96, 128) + p.validity@.subrange(128, 160),
            amount % 65536,
        ) && encrypts(
            keys@.secret@,
            p.validity@.subrange(224, 256) + p.validity@.subrange(256, 288),
            amount / 65536,
        ) && p.range@.subrange(0, 32) == p.equality@.subrange(96, 128)
            && p.range@.subrange(32, 64) == p.validity@.subrange(96, 128)
            && p.range@.subrange(64, 96) == p.validity@.subrange(224, 256),
{
}

/// What came of an attempt to make proofs is passed on as it is.
pub proof fn attempts_are_passed_on(
    withdrawal: Result<WithdrawProofs, ProofFault>,
    transfer: Result<TransferProofs, ProofFault>,
    a: Result<WithdrawProofs, ClientError>,
    b: Result<TransferProofs, ClientError>,
)
    requires
        call_ensures(judge_withdraw, (withdrawal,), a),
        call_ensures(judge_transfer, (transfer,), b),
    ensures
        withdrawal matches Ok(p) ==> a == Ok::<WithdrawProofs, ClientError>(p),
        withdrawal matches Err(fault) ==> a == Err::<WithdrawProofs, ClientError>(
            ClientError::Proof(fault),
        ),
        transfer matches Ok(p) ==> b == Ok::<TransferProofs, ClientError>(p),
        transfer matches Err(fault) ==> b == Err::<TransferProofs, ClientError>(
            ClientError::Proof(fault),
        ),
{
}

/// An error that came with a reason is told in the words of that reason, whatever they are.
pub proof fn reasons_are_told_as_they_came(reason: String, error: ClientError, told: String)
    requires
        call_ensures(ClientError::message, (&error,), told),
        error == ClientError::KeyDerivation(reason) || error == ClientError::MalformedAccount(reason)
            || error == ClientError::InvalidRecipientKey(reason) || error == ClientError::Rpc(reason),
    ensures
        told@ == reason@,
{
}

/// Every other error has words of its own, whatever comes with it.
pub proof fn errors_without_a_reason_are_told_in_these_words(error: ClientError, told: String)
    requires
        call_ensures(ClientError::message, (&error,), told),
    ensures
        match error {
            ClientError::ForeignKeys => told@
                == "Account uses different encryption keys; this CLI uses wallet + ATA derivation"@,
            ClientError::StaleBalance => told@
                == "AES balance is stale after an apply race. Reconcile the missed credits before spending; automatic reconciliation is not implemented."@,
            ClientError::UnreadableAvailable => told@ == "Cannot decrypt available balance"@,
            ClientError::UnreadablePendingLow => told@ == "Cannot decrypt pending low component"@,
            ClientError::UnreadablePendingHigh => told@
                == "Pending high component exceeds this CLI's 32-bit decryption range"@,
            ClientError::PendingOverflow => told@ == "Pending overflow"@,
            ClientError::AccountNotFound(_) => told@ == "Token account not found"@,
            ClientError::NotTokenAccount => told@ == "Account is not owned by Token-2022"@,
            ClientError::NotConfigured => told@ == "Run configure first"@,
            ClientError::BalanceOverflow => told@ == "Balance overflow"@,
            ClientError::InsufficientFunds => told@
                == "Insufficient available funds; apply pending first if needed"@,
            ClientError::AuditorUnsupported => told@
                == "Auditor-enabled mints are not supported by this CLI yet"@,
            ClientError::InvalidAvailableCiphertext => told@ == "Invalid available ciphertext"@,
            ClientError::UnreadableWallet(path) => told@ == "Cannot read wallet keypair at "@ + path@,
            ClientError::Proof(ProofFault::NotEnoughFunds) => told@ == "not enough funds in account"@,
            ClientError::Proof(ProofFault::IllegalAmountBitLength) => told@
                == "illegal amount bit length"@,
            ClientError::Proof(ProofFault::InvalidCommitment) => told@
                == "inner proof generation failed"@,
            ClientError::Proof(ProofFault::InconsistentInput) => told@
                == "inner proof generation failed"@,
            _ => true,
        },
{
}

/// Whoever has the same wallet derives the same keys for an account, each time.
pub proof fn keys_are_the_same_each_time(
    wallet: Wallet,
    ata: Pubkey,
    once: Result<Keys, ClientError>,
    again: Result<Keys, ClientError>,
)
    requires
        call_ensures(keys, (&wallet, ata), once),
        call_ensures(keys, (&wallet, ata), again),
    ensures
        once is Ok <==> again is Ok,
        once is Ok ==> once->Ok_0@ == again->Ok_0@,
{
}

/// What the keys of an account encrypted they decrypt again, each time, and so do the same
/// keys derived anew.
pub proof fn copies_are_read_back(
    keys: Keys,
    restored: Keys,
    amount: u64,
    copy: [u8; 36],
    read: Option<u64>,
)
    requires
        keys@ == restored@,
        call_ensures(Keys::encrypt, (&keys, amount), copy),
        call_ensures(Keys::decrypt, (&restored, &copy), read),
    ensures
        read == Some(amount),
{
}

/// A number below 2^32 is read from its ciphertext, a larger one is not, and what is read is
/// what the ciphertext holds.
pub proof fn small_numbers_are_read(
    keys: Keys,
    ciphertext: [u8; 64],
    amount: u64,
    read: Option<u64>,
    pubkey: [u8; 32],
)
    requires
        call_ensures(Keys::decrypt_u32, (&keys, &ciphertext), read),
        call_ensures(Keys::pubkey, (&keys,), pubkey),
        encrypts(keys@.secret@, ciphertext@, amount),
    ensures
        read == if amount < 0x1_0000_0000 { Some(amount) } else { None },
        read == elgamal_u32(keys@.secret@, ciphertext@),
        pubkey == keys@.pubkey,
{
    assert(elgamal_holds(keys@.secret@, ciphertext@, amount));
    if let Some(found) = read {
        assert(elgamal_holds(keys@.secret@, ciphertext@, found));
    }
}

/// The proof of a key is about the account's own public key.
pub proof fn keys_are_proved_of_themselves(keys: Keys, made: Proof)
    requires
        call_ensures(Keys::prove_pubkey, (&keys,), made),
    ensures
        made.kind == ProofKind::PubkeyValidity,
        made.data@.len() == 96,
        made.data@.subrange(0, 32) == keys@.pubkey@,
{
}

/// What proofs are staged for, and how many it takes: one for a configuration, three for a
/// transfer, two for a withdrawal, each in its own place among the accounts of the call.
pub proof fn goals_come_down_to_their_calls(
    goal: Goal,
    owner: Pubkey,
    contexts: Vec<Pubkey>,
    count: usize,
    i: Instruction,
)
    requires
        call_ensures(Goal::proofs, (goal,), count),
        call_ensures(Goal::instruction, (goal, owner, &contexts), i),
        contexts@.len() == count,
    ensures
        i.program_id == ID,
        match goal {
            Goal::Configure { mint, ata, zero } => {
                &&& count == 1
                &&& goal.kinds() == seq![ProofKind::PubkeyValidity]
                &&& i.accounts@ == configure_metas(owner, mint, ata, contexts@[0])
                &&& laid_out(
                    Call::ConfigureAccount {
                        decryptable_zero_balance: zero,
                        maximum_pending_balance_credit_counter: 65_536,
                    },
                    i.data@,
                )
            },
            Goal::Transfer { mint, recipient, source, destination, balance, auditor_lo, auditor_hi } => {
                &&& count == 3
                &&& goal.kinds() == seq![
                    ProofKind::CiphertextCommitmentEquality,
                    ProofKind::BatchedGroupedCiphertext3HandlesValidity,
                    ProofKind::BatchedRangeProofU128,
                ]
                &&& i.accounts@ == transfer_metas(
                    owner,
                    recipient,
                    mint,
                    source,
                    destination,
                    contexts@[0],
                    contexts@[1],
                    contexts@[2],
                )
                &&& laid_out(
                    Call::TransferConfidential {
                        new_source_decryptable_available_balance: balance,
                        transfer_amount_auditor_ciphertext_lo: auditor_lo,
                        transfer_amount_auditor_ciphertext_hi: auditor_hi,
                    },
                    i.data@,
                )
            },
            Goal::Withdraw { mint, ata, amount, balance } => {
                &&& count == 2
                &&& goal.kinds() == seq![
                    ProofKind::CiphertextCommitmentEquality,
                    ProofKind::BatchedRangeProofU64,
                ]
                &&& i.accounts@ == withdraw_metas(owner, mint, ata, contexts@[0], contexts@[1])
                &&& laid_out(
                    Call::Withdraw { amount, new_decryptable_available_balance: balance },
                    i.data@,
                )
            },
        },
{
    assert(i@.accounts == i.accounts@);
    assert(i@.data == i.data@);
    match goal {
        Goal::Configure { zero, .. } => {
            calls_carry_their_arguments(
                Call::ConfigureAccount {
                    decryptable_zero_balance: zero,
                    maximum_pending_balance_credit_counter: 65_536,
                },
            );
        },
        Goal::Transfer { balance, auditor_lo, auditor_hi, .. } => {
            calls_carry_their_arguments(
                Call::TransferConfidential {
                    new_source_decryptable_available_balance: balance,
                    transfer_amount_auditor_ciphertext_lo: auditor_lo,
                    transfer_amount_auditor_ciphertext_hi: auditor_hi,
                },
            );
        },
        Goal::Withdraw { amount, balance, .. } => {
            calls_carry_their_arguments(
                Call::Withdraw { amount, new_decryptable_available_balance: balance },
            );
        },
    }
}

/// Proofs that could be made are staged as they are, for the goal that they were made for;
/// the error of proofs that could not be made is the answer.
pub proof fn made_proofs_are_staged(
    client: Client,
    mint: Pubkey,
    recipient: Pubkey,
    ata: Pubkey,
    amount: u64,
    balance: [u8; 36],
    transfer: Result<TransferProofs, ClientError>,
    withdrawal: Result<WithdrawProofs, ClientError>,
    a: Step,
    b: Step,
)
    requires
        call_ensures(
            Client::stage_transfer,
            (&client, mint, recipient, balance, transfer),
            a,
        ),
        call_ensures(
            Client::stage_withdraw,
            (&client, mint, ata, amount, balance, withdrawal),
            b,
        ),
    ensures
        transfer matches Err(error) ==> a == Step::Done(Err(error)),
        transfer matches Ok(made) ==> (a matches Step::NewKey(AfterKey::Stage(s)) && s.owner
            == client.owner && s.contexts@.len() == 0 && s.proofs@.len() == 3 && s.proofs@[0].data
            == made.equality && s.proofs@[1].data == made.validity && s.proofs@[2].data
            == made.range && s.goal == (Goal::Transfer {
            mint,
            recipient,
            source: associated_token_address(client.owner, mint, TOKEN_2022),
            destination: associated_token_address(recipient, mint, TOKEN_2022),
            balance,
            auditor_lo: made.auditor_lo,
            auditor_hi: made.auditor_hi,
        })),
        withdrawal matches Err(error) ==> b == Step::Done(Err(error)),
        withdrawal matches Ok(made) ==> (b matches Step::NewKey(AfterKey::Stage(s)) && s.owner
            == client.owner && s.contexts@.len() == 0 && s.proofs@.len() == 2 && s.proofs@[0].data
            == made.equality && s.proofs@[1].data == made.range && s.goal == (Goal::Withdraw {
            mint,
            ata,
            amount,
            balance,
        })),
{
}

} // verus!
