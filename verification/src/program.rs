//! What the payments program does with an instruction: which accounts it refuses and why, and
//! what the calls say that it makes for the others.
use vstd::prelude::*;
use crate::address::{SYSTEM, TOKEN, TOKEN_2022};
use crate::bytes::le64;
use crate::instructions::accounts::{
    AccountError, AccountInfo, HandlerError, Invocation, MintAccount, ProgramFault, TokenAccount,
};
use crate::instructions::apply_pending::ApplyPending;
use crate::instructions::deposit::Deposit;
use crate::instructions::initialize_mint::{initialize_mint, InitializeMint};
use crate::instructions::transfer_confidential::TransferConfidential;
use crate::instructions::withdraw::Withdraw;
use crate::meanings::{eight_bytes_stand_for_the_number, named, number};
use crate::system::associated_token_address;

verus! {

/// A deposit is passed on with its amount and with the decimals of the mint that it was
/// given, for the owner's signature; only another token program is refused.
pub proof fn deposit_is_passed_on(d: Deposit, amount: u64, r: Result<Invocation, HandlerError>)
    requires
        call_ensures(Deposit::handler, (&d, amount), r),
    ensures
        d.token_program.key != TOKEN_2022 ==> r == Err::<Invocation, HandlerError>(
            HandlerError::IncorrectProgramId,
        ),
        d.token_program.key == TOKEN_2022 ==> (r matches Ok(i) && ({
            let data = i.instruction.data@;
            &&& i.instruction.program_id == TOKEN_2022
            &&& i.instruction.accounts@ == seq![
                named(d.token_account.info.key, false, true),
                named(d.mint.info.key, false, false),
                named(d.owner.key, true, false),
            ]
            &&& data.len() == 11
            &&& data[0] == 27
            &&& data[1] == 5
            &&& number(data.subrange(2, 10)) == amount
            &&& data[10] == d.mint.decimals
            &&& i.accounts@ == seq![
                d.token_account.info.key,
                d.mint.info.key,
                d.owner.key,
                TOKEN_2022,
            ]
        })),
{
    if let Ok(i) = r {
        let data = i@.instruction.data;
        eight_bytes_stand_for_the_number(amount);
        assert(i@.instruction.accounts == i.instruction.accounts@);
        assert(data == i.instruction.data@);
        assert(i@.accounts == i.accounts@);
        assert(data.subrange(2, 10) =~= le64(amount));
        assert(i.accounts@ =~= seq![
            d.token_account.info.key,
            d.mint.info.key,
            d.owner.key,
            TOKEN_2022,
        ]);
    }
}

/// An application of pending is passed on with the number of credits and the AES copy that it
/// was given, for the owner's signature; only another token program is refused.
pub proof fn application_is_passed_on(
    a: ApplyPending,
    counter: u64,
    copy: [u8; 36],
    r: Result<Invocation, HandlerError>,
)
    requires
        call_ensures(ApplyPending::handler, (&a, counter, copy), r),
    ensures
        a.token_program.key != TOKEN_2022 ==> r == Err::<Invocation, HandlerError>(
            HandlerError::IncorrectProgramId,
        ),
        a.token_program.key == TOKEN_2022 ==> (r matches Ok(i) && ({
            let data = i.instruction.data@;
            &&& i.instruction.program_id == TOKEN_2022
            &&& i.instruction.accounts@ == seq![
                named(a.token_account.info.key, false, true),
                named(a.owner.key, true, false),
            ]
            &&& data.len() == 46
            &&& data[0] == 27
            &&& data[1] == 8
            &&& number(data.subrange(2, 10)) == counter
            &&& data.skip(10) == copy@
            &&& i.accounts@ == seq![a.token_account.info.key, a.owner.key, TOKEN_2022]
        })),
{
    if let Ok(i) = r {
        let data = i@.instruction.data;
        eight_bytes_stand_for_the_number(counter);
        assert(i@.instruction.accounts == i.instruction.accounts@);
        assert(data == i.instruction.data@);
        assert(i@.accounts == i.accounts@);
        assert(data.subrange(2, 10) =~= le64(counter));
        assert(data.skip(10) =~= copy@);
        assert(i.accounts@ =~= seq![a.token_account.info.key, a.owner.key, TOKEN_2022]);
    }
}

/// A withdrawal is passed on with its amount, with the decimals of the mint that it was
/// given, with the AES copy and with both contexts, for the owner's signature; only another
/// token program is refused.
pub proof fn withdrawal_is_passed_on(
    w: Withdraw,
    amount: u64,
    copy: [u8; 36],
    r: Result<Invocation, HandlerError>,
)
    requires
        call_ensures(Withdraw::handler, (&w, amount, copy), r),
    ensures
        w.token_program.key != TOKEN_2022 ==> r == Err::<Invocation, HandlerError>(
            HandlerError::IncorrectProgramId,
        ),
        w.token_program.key == TOKEN_2022 ==> (r matches Ok(i) && ({
            let data = i.instruction.data@;
            &&& i.instruction.program_id == TOKEN_2022
            &&& i.instruction.accounts@ == seq![
                named(w.token_account.info.key, false, true),
                named(w.mint.info.key, false, false),
                named(w.equality_proof_context.key, false, false),
                named(w.range_proof_context.key, false, false),
                named(w.owner.key, true, false),
            ]
            &&& data.len() == 49
            &&& data[0] == 27
            &&& data[1] == 6
            &&& number(data.subrange(2, 10)) == amount
            &&& data[10] == w.mint.decimals
            &&& data.subrange(11, 47) == copy@
            &&& data[47] == 0
            &&& data[48] == 0
            &&& i.accounts@ == seq![
                w.token_account.info.key,
                w.mint.info.key,
                w.equality_proof_context.key,
                w.range_proof_context.key,
                w.owner.key,
                TOKEN_2022,
            ]
        })),
{
    if let Ok(i) = r {
        let data = i@.instruction.data;
        eight_bytes_stand_for_the_number(amount);
        assert(i@.instruction.accounts == i.instruction.accounts@);
        assert(data == i.instruction.data@);
        assert(i@.accounts == i.accounts@);
        assert(data.subrange(2, 10) =~= le64(amount));
        assert(data.subrange(11, 47) =~= copy@);
        assert(i.accounts@ =~= seq![
            w.token_account.info.key,
            w.mint.info.key,
            w.equality_proof_context.key,
            w.range_proof_context.key,
            w.owner.key,
            TOKEN_2022,
        ]);
    }
}

/// A transfer is passed on from the source to the destination that it was given, with the AES
/// copy, both parts of the amount for the auditor and the three contexts, for the sender's
/// signature; only another token program is refused.
pub proof fn transfer_is_passed_on(
    t: TransferConfidential,
    copy: [u8; 36],
    lo: [u8; 64],
    hi: [u8; 64],
    r: Result<Invocation, HandlerError>,
)
    requires
        call_ensures(TransferConfidential::handler, (&t, copy, lo, hi), r),
    ensures
        t.token_program.key != TOKEN_2022 ==> r == Err::<Invocation, HandlerError>(
            HandlerError::IncorrectProgramId,
        ),
        t.token_program.key == TOKEN_2022 ==> (r matches Ok(i) && ({
            let data = i.instruction.data@;
            &&& i.instruction.program_id == TOKEN_2022
            &&& i.instruction.accounts@ == seq![
                named(t.source.info.key, false, true),
                named(t.mint.info.key, false, false),
                named(t.destination.info.key, false, true),
                named(t.equality_proof_context.key, false, false),
                named(t.ciphertext_validity_proof_context.key, false, false),
                named(t.range_proof_context.key, false, false),
                named(t.owner.key, true, false),
            ]
            &&& data.len() == 169
            &&& data[0] == 27
            &&& data[1] == 7
            &&& data.subrange(2, 38) == copy@
            &&& data.subrange(38, 102) == lo@
            &&& data.subrange(102, 166) == hi@
            &&& data.skip(166) == seq![0u8, 0, 0]
            &&& i.accounts@ == seq![
                t.source.info.key,
                t.mint.info.key,
                t.destination.info.key,
                t.equality_proof_context.key,
                t.ciphertext_validity_proof_context.key,
                t.range_proof_context.key,
                t.owner.key,
                TOKEN_2022,
            ]
        })),
{
    if let Ok(i) = r {
        let data = i@.instruction.data;
        assert(i@.instruction.accounts == i.instruction.accounts@);
        assert(data == i.instruction.data@);
        assert(i@.accounts == i.accounts@);
        assert(data.subrange(2, 38) =~= copy@);
        assert(data.subrange(38, 102) =~= lo@);
        assert(data.subrange(102, 166) =~= hi@);
        assert(data.skip(166) =~= seq![0u8, 0, 0]);
        assert(i.accounts@ =~= seq![
            t.source.info.key,
            t.mint.info.key,
            t.destination.info.key,
            t.equality_proof_context.key,
            t.ciphertext_validity_proof_context.key,
            t.range_proof_context.key,
            t.owner.key,
            TOKEN_2022,
        ]);
    }
}

/// The three calls that make a mint: the payer pays for an account of Token-2022 with room for
/// the configuration; confidential transfers are set up for the authority, new accounts are
/// approved at once, and there is no auditor; and the mint gets the decimals that were asked
/// for, the same authority, and no freeze authority.
pub open spec fn makes_mint(
    m: InitializeMint,
    decimals: u8,
    lamports: u64,
    made: Seq<Invocation>,
) -> bool {
    let create = made[0].instruction.data@;
    let configure = made[1].instruction.data@;
    let base = made[2].instruction.data@;
    &&& made.len() == 3
    &&& made[0].instruction.program_id == SYSTEM
    &&& made[0].instruction.accounts@ == seq![
        named(m.payer.key, true, true),
        named(m.mint.key, true, true),
    ]
    &&& create.len() == 52
    &&& create.take(4) == seq![0u8, 0, 0, 0]
    &&& number(create.subrange(4, 12)) == lamports
    &&& number(create.subrange(12, 20)) == 235
    &&& create.skip(20) == TOKEN_2022@
    &&& made[0].accounts@ == seq![m.payer.key, m.mint.key]
    &&& made[1].instruction.program_id == TOKEN_2022
    &&& made[1].instruction.accounts@ == seq![named(m.mint.key, false, true)]
    &&& configure.len() == 67
    &&& configure[0] == 27
    &&& configure[1] == 0
    &&& configure.subrange(2, 34) == m.authority.key@
    &&& configure[34] == 1
    &&& forall|i: int| 35 <= i < 67 ==> configure[i] == 0
    &&& made[1].accounts@ == seq![m.mint.key, TOKEN_2022]
    &&& made[2].instruction.program_id == TOKEN_2022
    &&& made[2].instruction.accounts@ == seq![named(m.mint.key, false, true)]
    &&& base.len() == 35
    &&& base[0] == 20
    &&& base[1] == decimals
    &&& base.subrange(2, 34) == m.authority.key@
    &&& base[34] == 0
    &&& made[2].accounts@ == seq![m.mint.key]
}

/// The handler makes the mint as asked; another token program is refused, and so is an
/// authority of zero bytes.
pub proof fn mint_is_made_by_three_calls(
    m: InitializeMint,
    decimals: u8,
    lamports: u64,
    r: Result<Vec<Invocation>, HandlerError>,
)
    requires
        call_ensures(InitializeMint::handler, (&m, decimals, lamports), r),
    ensures
        m.token_program.key != TOKEN_2022 ==> r == Err::<Vec<Invocation>, HandlerError>(
            HandlerError::IncorrectProgramId,
        ),
        m.token_program.key == TOKEN_2022 && m.authority.key == SYSTEM ==> r == Err::<
            Vec<Invocation>,
            HandlerError,
        >(HandlerError::InvalidArgument),
        m.token_program.key == TOKEN_2022 && m.authority.key != SYSTEM ==> (r matches Ok(made)
            && makes_mint(m, decimals, lamports, made@)),
{
    if let Ok(made) = r {
        mint_calls(m, decimals, lamports, made@);
    }
}

proof fn mint_calls(m: InitializeMint, decimals: u8, lamports: u64, made: Seq<Invocation>)
    requires
        m.token_program.key == TOKEN_2022,
        made.len() == 3,
        forall|i: int| 0 <= i < 3 ==> (#[trigger] made[i])@ == m.calls(decimals, lamports)[i],
    ensures
        makes_mint(m, decimals, lamports, made),
{
    let calls = m.calls(decimals, lamports);
    assert(made[0]@ == calls[0] && made[1]@ == calls[1] && made[2]@ == calls[2]);
    let create = made[0].instruction.data@;
    let configure = made[1].instruction.data@;
    let base = made[2].instruction.data@;
    assert(made[0]@.instruction.data == create);
    assert(made[1]@.instruction.data == configure);
    assert(made[2]@.instruction.data == base);
    assert(made[0]@.instruction.accounts == made[0].instruction.accounts@);
    assert(made[1]@.instruction.accounts == made[1].instruction.accounts@);
    assert(made[2]@.instruction.accounts == made[2].instruction.accounts@);
    assert(made[0]@.accounts == made[0].accounts@);
    assert(made[1]@.accounts == made[1].accounts@);
    assert(made[2]@.accounts == made[2].accounts@);
    eight_bytes_stand_for_the_number(lamports);
    eight_bytes_stand_for_the_number(235);
    assert(create.take(4) =~= seq![0u8, 0, 0, 0]);
    assert(create.subrange(4, 12) =~= le64(lamports));
    assert(create.subrange(12, 20) =~= le64(235));
    assert(create.skip(20) =~= TOKEN_2022@);
    assert(configure.subrange(2, 34) =~= m.authority.key@);
    assert forall|i: int| 35 <= i < 67 implies configure[i] == 0 by {
        assert(configure[i] == SYSTEM@[i - 35]);
    }
    assert(base.subrange(2, 34) =~= m.authority.key@);
    assert(made[0].accounts@ =~= seq![m.payer.key, m.mint.key]);
    assert(made[1].accounts@ =~= seq![m.mint.key, TOKEN_2022]);
    assert(made[2].accounts@ =~= seq![m.mint.key]);
}

/// A mint needs 235 bytes.
pub proof fn a_mint_needs_room(r: Result<usize, HandlerError>)
    requires
        call_ensures(InitializeMint::space, (), r),
    ensures
        r == Ok::<usize, HandlerError>(235),
{
}

/// No account is there.
pub open spec fn absent(a: AccountInfo) -> bool {
    a.owner == SYSTEM && a.lamports == 0
}

/// The account belongs to one of the two token programs.
pub open spec fn of_a_token_program(a: AccountInfo) -> bool {
    a.owner == TOKEN || a.owner == TOKEN_2022
}

/// An instruction on a token account of the owner's is accepted exactly if the owner signed,
/// the mint and the token account are Token-2022's, the token program is Token-2022 itself,
/// and the token account is writable, the owner's, and the one that is associated with the
/// owner and the mint. The first demand that fails, in the order signer, mint, token account,
/// program, and then what they are to each other, is the error.
pub open spec fn ruled(
    owner: AccountInfo,
    mint: MintAccount,
    account: TokenAccount,
    program: AccountInfo,
    foreign_mint: AccountError,
    r: Result<(), AccountError>,
) -> bool {
    let loaded = owner.is_signer && of_a_token_program(mint.info) && of_a_token_program(
        account.info,
    );
    let right_program = program.key == TOKEN_2022 && program.executable;
    &&& r is Ok <==> (owner.is_signer && mint.info.owner == TOKEN_2022 && account.info.owner
        == TOKEN_2022 && right_program && account.authority == owner.key && account.info.key
        == associated_token_address(owner.key, mint.info.key, TOKEN_2022)
        && account.info.is_writable)
    &&& r == Err::<(), AccountError>(AccountError::AccountNotSigner) <==> !owner.is_signer
    &&& r == Err::<(), AccountError>(AccountError::AccountNotInitialized) <==> (owner.is_signer && (
    absent(mint.info) || (of_a_token_program(mint.info) && absent(account.info))))
    &&& r == Err::<(), AccountError>(AccountError::AccountOwnedByWrongProgram) <==> (
    owner.is_signer && ((!absent(mint.info) && !of_a_token_program(mint.info)) || (
    of_a_token_program(mint.info) && !absent(account.info) && !of_a_token_program(account.info))))
    &&& r == Err::<(), AccountError>(AccountError::InvalidProgramId) <==> (loaded && program.key
        != TOKEN_2022)
    &&& r == Err::<(), AccountError>(AccountError::InvalidProgramExecutable) <==> (loaded
        && program.key == TOKEN_2022 && !program.executable)
    &&& r == Err::<(), AccountError>(foreign_mint) <==> (loaded && right_program && mint.info.owner
        != TOKEN_2022)
    &&& r == Err::<(), AccountError>(AccountError::ConstraintAssociatedTokenTokenProgram) <==> (
    loaded && right_program && mint.info.owner == TOKEN_2022 && account.info.owner != TOKEN_2022)
    &&& r == Err::<(), AccountError>(AccountError::ConstraintTokenOwner) <==> (loaded
        && right_program && mint.info.owner == TOKEN_2022 && account.info.owner == TOKEN_2022
        && account.authority != owner.key)
    &&& r == Err::<(), AccountError>(AccountError::ConstraintAssociated) <==> (loaded
        && right_program && mint.info.owner == TOKEN_2022 && account.info.owner == TOKEN_2022
        && account.authority == owner.key && account.info.key != associated_token_address(
        owner.key,
        mint.info.key,
        TOKEN_2022,
    ))
    &&& r == Err::<(), AccountError>(AccountError::ConstraintMut) <==> (loaded && right_program
        && mint.info.owner == TOKEN_2022 && account.info.owner == TOKEN_2022 && account.authority
        == owner.key && account.info.key == associated_token_address(
        owner.key,
        mint.info.key,
        TOKEN_2022,
    ) && !account.info.is_writable)
}

/// The system program is neither of the token programs.
proof fn programs_differ()
    ensures
        SYSTEM != TOKEN,
        SYSTEM != TOKEN_2022,
        TOKEN != TOKEN_2022,
{
    assert(SYSTEM@[0] != TOKEN@[0]);
    assert(SYSTEM@[0] != TOKEN_2022@[0]);
    assert(TOKEN@[4] != TOKEN_2022@[4]);
}

/// Deposits are ruled so.
pub proof fn deposits_are_ruled(d: Deposit, r: Result<(), AccountError>)
    requires
        call_ensures(Deposit::validate, (&d,), r),
    ensures
        ruled(
            d.owner,
            d.mint,
            d.token_account,
            d.token_program,
            AccountError::ConstraintOwner,
            r,
        ),
{
    programs_differ();
}

/// Applications of pending are ruled so.
pub proof fn applications_are_ruled(a: ApplyPending, r: Result<(), AccountError>)
    requires
        call_ensures(ApplyPending::validate, (&a,), r),
    ensures
        ruled(
            a.owner,
            a.mint,
            a.token_account,
            a.token_program,
            AccountError::ConstraintMintTokenProgram,
            r,
        ),
{
    programs_differ();
}

/// Withdrawals are ruled so; their contexts are not looked at.
pub proof fn withdrawals_are_ruled(w: Withdraw, r: Result<(), AccountError>)
    requires
        call_ensures(Withdraw::validate, (&w,), r),
    ensures
        ruled(
            w.owner,
            w.mint,
            w.token_account,
            w.token_program,
            AccountError::ConstraintMintTokenProgram,
            r,
        ),
{
    programs_differ();
}

/// A transfer is accepted exactly if a withdrawal from its source would be, its destination
/// is another account, writable, Token-2022's and the recipient's own. What is wrong with the
/// accounts themselves comes before what they are to each other, and the source before the
/// destination.
pub proof fn transfers_are_ruled(t: TransferConfidential, r: Result<(), AccountError>)
    requires
        call_ensures(TransferConfidential::validate, (&t,), r),
    ensures
        ({
            let mint = t.mint.info;
            let source = t.source.info;
            let destination = t.destination.info;
            let loaded = t.owner.is_signer && of_a_token_program(mint) && of_a_token_program(source)
                && of_a_token_program(destination);
            let right_program = t.token_program.key == TOKEN_2022 && t.token_program.executable;
            let apart = loaded && right_program && source.key != destination.key && mint.owner
                == TOKEN_2022;
            let own_source = source.owner == TOKEN_2022 && t.source.authority == t.owner.key
                && source.key == associated_token_address(t.owner.key, mint.key, TOKEN_2022);
            let own_destination = destination.owner == TOKEN_2022 && t.destination.authority
                == t.recipient.key && destination.key == associated_token_address(
                t.recipient.key,
                mint.key,
                TOKEN_2022,
            );
            let ready = apart && own_source && source.is_writable;
            &&& r is Ok <==> (ready && own_destination && destination.is_writable)
            &&& r == Err::<(), AccountError>(AccountError::AccountNotSigner) <==> !t.owner.is_signer
            &&& r == Err::<(), AccountError>(AccountError::AccountNotInitialized) <==> (
            t.owner.is_signer && (absent(mint) || (of_a_token_program(mint) && (absent(source) || (
            of_a_token_program(source) && absent(destination))))))
            &&& r == Err::<(), AccountError>(AccountError::AccountOwnedByWrongProgram) <==> (
            t.owner.is_signer && ((!absent(mint) && !of_a_token_program(mint)) || (
            of_a_token_program(mint) && ((!absent(source) && !of_a_token_program(source)) || (
            of_a_token_program(source) && !absent(destination) && !of_a_token_program(
                destination,
            ))))))
            &&& r == Err::<(), AccountError>(AccountError::InvalidProgramId) <==> (loaded
                && t.token_program.key != TOKEN_2022)
            &&& r == Err::<(), AccountError>(AccountError::InvalidProgramExecutable) <==> (loaded
                && t.token_program.key == TOKEN_2022 && !t.token_program.executable)
            &&& r == Err::<(), AccountError>(AccountError::ConstraintDuplicateMutableAccount)
                <==> (loaded && right_program && source.key == destination.key)
            &&& r == Err::<(), AccountError>(AccountError::ConstraintMintTokenProgram) <==> (loaded
                && right_program && source.key != destination.key && mint.owner != TOKEN_2022)
            &&& r == Err::<(), AccountError>(AccountError::ConstraintAssociatedTokenTokenProgram)
                <==> (apart && (source.owner != TOKEN_2022 || (own_source && source.is_writable
                && destination.owner != TOKEN_2022)))
            &&& r == Err::<(), AccountError>(AccountError::ConstraintTokenOwner) <==> (apart && ((
            source.owner == TOKEN_2022 && t.source.authority != t.owner.key) || (own_source
                && source.is_writable && destination.owner == TOKEN_2022 && t.destination.authority
                != t.recipient.key)))
            &&& r == Err::<(), AccountError>(AccountError::ConstraintAssociated) <==> (apart && ((
            source.owner == TOKEN_2022 && t.source.authority == t.owner.key && !own_source) || (
            own_source && source.is_writable && destination.owner == TOKEN_2022
                && t.destination.authority == t.recipient.key && !own_destination)))
            &&& r == Err::<(), AccountError>(AccountError::ConstraintMut) <==> (apart && own_source
                && (!source.is_writable || (own_destination && !destination.is_writable)))
        }),
{
    programs_differ();
}

/// The creation of a mint is accepted exactly if payer, mint and authority signed, payer and
/// mint are writable, and the two programs are Token-2022 and the system program; otherwise
/// the first of these that fails is the error, signatures before programs before rights.
pub proof fn mint_creations_are_ruled(m: InitializeMint, r: Result<(), AccountError>)
    requires
        call_ensures(InitializeMint::validate, (&m,), r),
    ensures
        ({
            let signed = m.payer.is_signer && m.mint.is_signer && m.authority.is_signer;
            let token = m.token_program.key == TOKEN_2022 && m.token_program.executable;
            let system = m.system_program.key == SYSTEM && m.system_program.executable;
            &&& r is Ok <==> (signed && token && system && m.payer.is_writable
                && m.mint.is_writable)
            &&& r == Err::<(), AccountError>(AccountError::AccountNotSigner) <==> !signed
            &&& r == Err::<(), AccountError>(AccountError::InvalidProgramId) <==> (signed && (
            m.token_program.key != TOKEN_2022 || (token && m.system_program.key != SYSTEM)))
            &&& r == Err::<(), AccountError>(AccountError::InvalidProgramExecutable) <==> (signed
                && ((m.token_program.key == TOKEN_2022 && !m.token_program.executable) || (token
                && m.system_program.key == SYSTEM && !m.system_program.executable)))
            &&& r == Err::<(), AccountError>(AccountError::ConstraintMut) <==> (signed && token
                && system && !(m.payer.is_writable && m.mint.is_writable))
        }),
{
}

/// The whole instruction: accounts that are refused end it, and for the others the mint is
/// made as asked.
pub proof fn mint_is_made_for_accepted_accounts(
    m: InitializeMint,
    decimals: u8,
    lamports: u64,
    ruling: Result<(), AccountError>,
    r: Result<Vec<Invocation>, ProgramFault>,
)
    requires
        call_ensures(InitializeMint::validate, (&m,), ruling),
        call_ensures(initialize_mint, (&m, decimals, lamports), r),
    ensures
        ruling matches Err(error) ==> r == Err::<Vec<Invocation>, ProgramFault>(
            ProgramFault::Account(error),
        ),
        ruling is Ok && m.authority.key == SYSTEM ==> r == Err::<Vec<Invocation>, ProgramFault>(
            ProgramFault::Handler(HandlerError::InvalidArgument),
        ),
        ruling is Ok && m.authority.key != SYSTEM ==> (r matches Ok(made) && makes_mint(
            m,
            decimals,
            lamports,
            made@,
        )),
{
    if let Ok(made) = r {
        mint_calls(m, decimals, lamports, made@);
    }
}

} // verus!
