//! Instruction processing. An instruction runs as a sequence of steps: each
//! step reads and writes the accounts, and ends by asking the runtime for
//! the rent of an account, for a call into another program, or by finishing.
use crate::encoding::u64_be_bytes;
use crate::error::{ProcessError, ReviewError};
use crate::instruction::MovieInstruction;
use crate::model::{accounts_view, RequestModel, is_step, with_data, Account, Call, Invocation, Request, Run, Stage};
use crate::outside::{
    associated_token_program_id, associated_token_program_key, find_program_address, found_view,
    lamports_per_sol, program_address, rent_sysvar_id, seeds_view, system_program_id,
    token_program_id,
};
use crate::steps::{
    comment_after_create, comment_after_rent, comment_seed, comment_start, comment_token_checks,
    mint_after_create, mint_after_rent, mint_start, process_start, resume_step, review_after_counter_create,
    review_after_counter_rent, review_after_create, review_after_rent, review_account_size,
    review_start, review_token_checks, token_account_seeds, update_result,
};
use crate::state::{
    read_review, utf8_len, write_result, MovieAccountState, MovieComment, MovieCommentCounter,
};
use vstd::prelude::*;
use vstd::string::StringSliceAdditionalSpecFns;

verus! {

/// The bytes of a key.
fn key_bytes(k: &[u8; 32]) -> (v: Vec<u8>)
    ensures
        v@ == k@,
{
    let mut v: Vec<u8> = Vec::new();
    for i in 0..32
        invariant
            v@ == k@.subrange(0, i as int),
    {
        v.push(k[i]);
        assert(k@.subrange(0, i + 1) =~= k@.subrange(0, i as int).push(k@[i as int]));
    }
    assert(k@.subrange(0, 32) =~= k@);
    v
}

/// The UTF-8 bytes of a string.
fn text_bytes(s: &str) -> (v: Vec<u8>)
    ensures
        v@ == s.spec_bytes(),
{
    vstd::slice::slice_to_vec(s.as_bytes())
}

/// A single byte.
fn one_byte(b: u8) -> (v: Vec<u8>)
    ensures
        v@ == seq![b],
{
    let mut v: Vec<u8> = Vec::new();
    v.push(b);
    assert(v@ =~= seq![b]);
    v
}

/// A list of one seed.
fn seeds1(a: Vec<u8>) -> (s: Vec<Vec<u8>>)
    ensures
        seeds_view(s@) == seq![a@],
{
    let ghost av = a@;
    let mut s: Vec<Vec<u8>> = Vec::new();
    s.push(a);
    assert(seeds_view(s@) =~= seq![av]);
    s
}

/// A list of two seeds.
fn seeds2(a: Vec<u8>, b: Vec<u8>) -> (s: Vec<Vec<u8>>)
    ensures
        seeds_view(s@) == seq![a@, b@],
        s@.len() == 2 && s@[0]@ == a@ && s@[1]@ == b@,
{
    let ghost (av, bv) = (a@, b@);
    let mut s: Vec<Vec<u8>> = Vec::new();
    s.push(a);
    s.push(b);
    assert(seeds_view(s@) =~= seq![av, bv]);
    s
}

/// A list of three seeds.
fn seeds3(a: Vec<u8>, b: Vec<u8>, c: Vec<u8>) -> (s: Vec<Vec<u8>>)
    ensures
        seeds_view(s@) == seq![a@, b@, c@],
        s@.len() == 3 && s@[0]@ == a@ && s@[1]@ == b@ && s@[2]@ == c@,
{
    let ghost (av, bv, cv) = (a@, b@, c@);
    let mut s: Vec<Vec<u8>> = Vec::new();
    s.push(a);
    s.push(b);
    s.push(c);
    assert(seeds_view(s@) =~= seq![av, bv, cv]);
    s
}

/// Three account indices.
fn indices(x: usize, y: usize, z: usize) -> (v: Vec<usize>)
    ensures
        v@ == seq![x, y, z],
{
    let mut v: Vec<usize> = Vec::new();
    v.push(x);
    v.push(y);
    v.push(z);
    assert(v@ =~= seq![x, y, z]);
    v
}

/// Whether two keys are the same.
fn same_key(a: &[u8; 32], b: &[u8; 32]) -> (r: bool)
    ensures
        r == (a@ == b@),
{
    for i in 0..32
        invariant
            forall|j: int| 0 <= j < i ==> a@[j] == b@[j],
    {
        if a[i] != b[i] {
            return false;
        }
    }
    assert(a@ =~= b@);
    true
}

/// The program address derived from `seeds` under `program_id`.
fn derive(seeds: Vec<Vec<u8>>, program_id: &[u8; 32]) -> (r: Option<([u8; 32], u8)>)
    ensures
        found_view(r) == program_address(seeds_view(seeds@), program_id@),
        (seeds@.len() >= 16 || exists|i: int| 0 <= i < seeds@.len() && seeds@[i]@.len() > 32)
            ==> r is None,
{
    find_program_address(&seeds, program_id)
}

/// The associated token account address of `wallet` for `mint`, derived as
/// `get_associated_token_address` derives it: from the wallet, the token
/// program and the mint, under the associated token account program; `None`
/// where no address can be derived.
fn token_account_address(wallet: &[u8; 32], mint: &[u8; 32]) -> (r: Option<[u8; 32]>)
    ensures
        match r {
            Some(k) => program_address(
                token_account_seeds(wallet@, mint@),
                associated_token_program_key(),
            ) matches Some((ata, _)) && ata == k@,
            None => program_address(
                token_account_seeds(wallet@, mint@),
                associated_token_program_key(),
            ) is None,
        },
{
    let seeds = seeds3(key_bytes(wallet), key_bytes(&token_program_id()), key_bytes(mint));
    match derive(seeds, &associated_token_program_id()) {
        Some((k, _bump)) => Some(k),
        None => None,
    }
}

/// Taking account `i` out of the list and putting it back with other data
/// changes only that account's data.
proof fn lemma_put_back(old: Seq<Account>, i: int, acc: Account)
    requires
        0 <= i < old.len(),
        acc.key == old[i].key,
        acc.is_signer == old[i].is_signer,
        acc.owner == old[i].owner,
    ensures
        accounts_view(old.remove(i).insert(i, acc)) == with_data(accounts_view(old), i, acc.data@),
        old.remove(i).insert(i, acc).len() == old.len(),
        forall|j: int|
            0 <= j < old.len() ==> (#[trigger] old.remove(i).insert(i, acc)[j]).key == old[j].key,
{
    let new = old.remove(i).insert(i, acc);
    assert(new.len() == old.len());
    assert forall|j: int| 0 <= j < new.len() implies #[trigger] accounts_view(new)[j] == with_data(
        accounts_view(old),
        i,
        acc.data@,
    )[j] by {
        if j == i {
            assert(new[j] == acc);
        } else {
            assert(new[j] == old[j]);
        }
    }
    assert(accounts_view(new) =~= with_data(accounts_view(old), i, acc.data@));
}

/// Serializes a review over the data of account `i`.
fn write_review_at(accounts: &mut Vec<Account>, i: usize, st: &MovieAccountState) -> (r: Result<
    (),
    ProcessError,
>)
    requires
        i < old(accounts)@.len(),
    ensures
        ({
            let (r0, d) = write_result(st@.fits(), st@.written(), old(accounts)@[i as int].data@);
            r == r0 && accounts_view(final(accounts)@) == with_data(
                accounts_view(old(accounts)@),
                i as int,
                d,
            )
        }),
        final(accounts)@.len() == old(accounts)@.len(),
        forall|j: int|
            0 <= j < old(accounts)@.len() ==> (#[trigger] final(accounts)@[j]).key == old(
                accounts,
            )@[j].key,
{
    let ghost before = accounts@;
    let mut acc = accounts.remove(i);
    let r = st.write_into(&mut acc.data);
    proof {
        lemma_put_back(before, i as int, acc);
    }
    accounts.insert(i, acc);
    r
}

/// Serializes a counter over the data of account `i`.
fn write_counter_at(accounts: &mut Vec<Account>, i: usize, st: &MovieCommentCounter) -> (r: Result<
    (),
    ProcessError,
>)
    requires
        i < old(accounts)@.len(),
    ensures
        ({
            let (r0, d) = write_result(st@.fits(), st@.written(), old(accounts)@[i as int].data@);
            r == r0 && accounts_view(final(accounts)@) == with_data(
                accounts_view(old(accounts)@),
                i as int,
                d,
            )
        }),
        final(accounts)@.len() == old(accounts)@.len(),
        forall|j: int|
            0 <= j < old(accounts)@.len() ==> (#[trigger] final(accounts)@[j]).key == old(
                accounts,
            )@[j].key,
{
    let ghost before = accounts@;
    let mut acc = accounts.remove(i);
    let r = st.write_into(&mut acc.data);
    proof {
        lemma_put_back(before, i as int, acc);
    }
    accounts.insert(i, acc);
    r
}

/// Serializes a comment over the data of account `i`.
fn write_comment_at(accounts: &mut Vec<Account>, i: usize, st: &MovieComment) -> (r: Result<
    (),
    ProcessError,
>)
    requires
        i < old(accounts)@.len(),
    ensures
        ({
            let (r0, d) = write_result(st@.fits(), st@.written(), old(accounts)@[i as int].data@);
            r == r0 && accounts_view(final(accounts)@) == with_data(
                accounts_view(old(accounts)@),
                i as int,
                d,
            )
        }),
        final(accounts)@.len() == old(accounts)@.len(),
        forall|j: int|
            0 <= j < old(accounts)@.len() ==> (#[trigger] final(accounts)@[j]).key == old(
                accounts,
            )@[j].key,
{
    let ghost before = accounts@;
    let mut acc = accounts.remove(i);
    let r = st.write_into(&mut acc.data);
    proof {
        lemma_put_back(before, i as int, acc);
    }
    accounts.insert(i, acc);
    r
}

/// A finished instruction of `program_id` with `result`.
fn done(program_id: &[u8; 32], result: Result<(), ProcessError>) -> (out: (Run, Request))
    ensures
        out.0@ == crate::model::initial_run(program_id@),
        out.1@ == (crate::model::RequestModel::Done { result }),
{
    (Run::new(program_id), Request::Done { result })
}

/// Starts `InitializeMint`.
fn mint_token(program_id: &[u8; 32], accounts: &Vec<Account>) -> (out: (Run, Request))
    ensures
        is_step(mint_start(program_id@, accounts_view(accounts@)), out.0, out.1, accounts@),
{
    if accounts.len() < 6 {
        return done(program_id, Err(ProcessError::NotEnoughAccountKeys));
    }
    let (pda_mint, mint_bump) = match derive(seeds1(text_bytes("token_mint")), program_id) {
        Some(x) => x,
        None => return done(program_id, Err(ProcessError::AddressNotFound)),
    };
    let (mint_auth_pda, _mint_auth_bump) = match derive(
        seeds1(text_bytes("token_auth")),
        program_id,
    ) {
        Some(x) => x,
        None => return done(program_id, Err(ProcessError::AddressNotFound)),
    };
    if !same_key(&pda_mint, &accounts[1].key) || !same_key(&mint_auth_pda, &accounts[2].key)
        || !same_key(&accounts[3].key, &system_program_id()) || !same_key(
        &accounts[5].key,
        &rent_sysvar_id(),
    ) || !same_key(&accounts[4].key, &token_program_id()) {
        return done(program_id, Err(ProcessError::InvalidAccountData));
    }
    let mut run = Run::new(program_id);
    run.mint_bump = mint_bump;
    run.stage = Stage::AwaitMintRent;
    (run, Request::Rent { space: 82 })
}

/// Starts `AddMovieReview` with the review's title, rating and description.
pub fn add_movie_review(
    program_id: &[u8; 32],
    accounts: &Vec<Account>,
    title: String,
    rating: u8,
    description: String,
) -> (out: (Run, Request))
    requires
        review_account_size(title@, description@) <= usize::MAX,
    ensures
        is_step(
            review_start(program_id@, accounts_view(accounts@), title@, rating, description@),
            out.0,
            out.1,
            accounts@,
        ),
        utf8_len(title@) > 32 ==> out.1@ is Done,
        utf8_len(title@) > 32 && accounts@.len() >= 8 && accounts@[0].is_signer && (program_address(
            seq![accounts@[1].key@, comment_seed()],
            program_id@,
        ) matches Some((c, _)) && c == accounts@[1].key@) ==> out.1@ == (RequestModel::Done {
            result: Err(ProcessError::AddressNotFound),
        }),
{
    if accounts.len() < 8 {
        return done(program_id, Err(ProcessError::NotEnoughAccountKeys));
    }
    let (counter_pda, counter_bump) = match derive(
        seeds2(key_bytes(&accounts[1].key), text_bytes("comment")),
        program_id,
    ) {
        Some(x) => x,
        None => return done(program_id, Err(ProcessError::AddressNotFound)),
    };
    if !same_key(&counter_pda, &accounts[1].key) {
        return done(program_id, Err(ProcessError::Review(ReviewError::InvalidPDA)));
    }
    if !accounts[0].is_signer {
        return done(program_id, Err(ProcessError::MissingRequiredSignature));
    }
    let title_seeds = seeds2(key_bytes(&accounts[0].key), text_bytes(title.as_str()));
    assert(utf8_len(title@) > 32 ==> title_seeds@[1]@.len() > 32);
    let (pda, bump) = match derive(title_seeds, program_id) {
        Some(x) => x,
        None => return done(program_id, Err(ProcessError::AddressNotFound)),
    };
    if !same_key(&pda, &accounts[1].key) {
        return done(program_id, Err(ProcessError::InvalidArgument));
    }
    if rating > 5 || rating < 1 {
        return done(program_id, Err(ProcessError::Review(ReviewError::InvalidRating)));
    }
    let account_len = MovieAccountState::get_account_size(title.clone(), description.clone());
    if account_len > 1000 {
        return done(program_id, Err(ProcessError::Review(ReviewError::InvalidDataLength)));
    }
    let mut run = Run::new(program_id);
    run.title = title;
    run.rating = rating;
    run.description = description;
    run.account_len = account_len;
    run.pda = pda;
    run.bump = bump;
    run.counter_bump = counter_bump;
    review_token_checks_exec(run, accounts)
}

/// The token account checks of `AddMovieReview`.
fn review_token_checks_exec(run: Run, accounts: &Vec<Account>) -> (out: (Run, Request))
    requires
        accounts@.len() >= 8,
    ensures
        is_step(review_token_checks(run@, accounts_view(accounts@)), out.0, out.1, accounts@),
{
    let mut run = run;
    let (mint_pda, _mint_bump) = match derive(seeds1(text_bytes("token_mint")), &run.program_id) {
        Some(x) => x,
        None => {
            run.stage = Stage::Finished;
            return (run, Request::Done { result: Err(ProcessError::AddressNotFound) });
        },
    };
    let (mint_auth_pda, mint_auth_bump) = match derive(
        seeds1(text_bytes("token_auth")),
        &run.program_id,
    ) {
        Some(x) => x,
        None => {
            run.stage = Stage::Finished;
            return (run, Request::Done { result: Err(ProcessError::AddressNotFound) });
        },
    };
    let err = if !same_key(&accounts[4].key, &mint_pda) {
        Some(ProcessError::Review(ReviewError::IncorrectAccountError))
    } else if !same_key(&accounts[5].key, &mint_auth_pda) {
        Some(ProcessError::Review(ReviewError::InvalidPDA))
    } else {
        match token_account_address(&accounts[0].key, &accounts[4].key) {
            None => Some(ProcessError::AddressNotFound),
            Some(ata) => if !same_key(&accounts[6].key, &ata) {
                Some(ProcessError::Review(ReviewError::IncorrectAccountError))
            } else if !same_key(&accounts[7].key, &token_program_id()) {
                Some(ProcessError::Review(ReviewError::IncorrectAccountError))
            } else {
                None
            },
        }
    };
    match err {
        Some(e) => {
            run.stage = Stage::Finished;
            (run, Request::Done { result: Err(e) })
        },
        None => {
            run.mint_auth_bump = mint_auth_bump;
            run.stage = Stage::AwaitReviewRent;
            let space = run.account_len;
            (run, Request::Rent { space })
        },
    }
}

/// Starts `AddComment` with the comment's text.
fn add_comment(program_id: &[u8; 32], accounts: &Vec<Account>, comment: String) -> (out: (
    Run,
    Request,
))
    requires
        87 + utf8_len(comment@) <= usize::MAX,
    ensures
        is_step(comment_start(program_id@, accounts_view(accounts@), comment@), out.0, out.1, accounts@),
{
    if accounts.len() < 9 {
        return done(program_id, Err(ProcessError::NotEnoughAccountKeys));
    }
    let counter_data = match MovieCommentCounter::unpack(accounts[2].data.as_slice()) {
        Some(c) => c,
        None => return done(program_id, Err(ProcessError::UndecodableData)),
    };
    let account_len = MovieComment::get_account_size(comment.clone());
    let mut run = Run::new(program_id);
    run.comment = comment;
    run.counter_discriminant = counter_data.discriminant;
    run.counter_initialized = counter_data.is_initialized;
    run.counter = counter_data.counter;
    run.account_len = account_len;
    run.stage = Stage::AwaitCommentRent;
    (run, Request::Rent { space: account_len })
}

/// Applies `UpdateMovieReview`: checks the accounts and the stored review,
/// then writes the review back with the new rating and description. The
/// title argument is not read: the stored title is the one that counts.
pub fn update_movie_review(
    program_id: &[u8; 32],
    accounts: &mut Vec<Account>,
    _title: String,
    rating: u8,
    description: String,
) -> (r: Result<(), ProcessError>)
    requires
        utf8_len(description@) <= usize::MAX,
    ensures
        (r, accounts_view(final(accounts)@)) == update_result(
            program_id@,
            accounts_view(old(accounts)@),
            rating,
            description@,
        ),
        r is Ok ==> (read_review(old(accounts)@[1].data@) matches Some(st) && utf8_len(st.title)
            <= 32),
        old(accounts)@.len() >= 2 && old(accounts)@[1].owner == *program_id && old(
            accounts,
        )@[0].is_signer && (read_review(old(accounts)@[1].data@) matches Some(st) && utf8_len(
            st.title,
        ) > 32) ==> r == Err::<(), ProcessError>(ProcessError::AddressNotFound),
{
    if accounts.len() < 2 {
        return Err(ProcessError::NotEnoughAccountKeys);
    }
    if !same_key(&accounts[1].owner, program_id) {
        return Err(ProcessError::IllegalOwner);
    }
    if !accounts[0].is_signer {
        return Err(ProcessError::MissingRequiredSignature);
    }
    let account_data = match MovieAccountState::unpack(accounts[1].data.as_slice()) {
        Some(s) => s,
        None => return Err(ProcessError::UndecodableData),
    };
    let title_seeds = seeds2(key_bytes(&accounts[0].key), text_bytes(account_data.title.as_str()));
    assert(utf8_len(account_data.title@) > 32 ==> title_seeds@[1]@.len() > 32);
    let (pda, _bump) = match derive(title_seeds, program_id) {
        Some(x) => x,
        None => return Err(ProcessError::AddressNotFound),
    };
    if !same_key(&pda, &accounts[1].key) {
        return Err(ProcessError::Review(ReviewError::InvalidPDA));
    }
    if !account_data.is_initialized() {
        return Err(ProcessError::Review(ReviewError::UninitializedAccount));
    }
    if rating > 5 || rating < 1 {
        return Err(ProcessError::Review(ReviewError::InvalidRating));
    }
    proof {
        lemma_review_title_len(accounts@[1].data@);
    }
    let dl = description.as_str().len();
    let tl = account_data.title.as_str().len();
    // saturating sums compare with 1000 as the exact sum does
    let update_len = 6usize.saturating_add(dl).saturating_add(tl);
    if update_len > 1000 {
        return Err(ProcessError::Review(ReviewError::InvalidDataLength));
    }
    let mut account_data = account_data;
    account_data.rating = rating;
    account_data.description = description;
    write_review_at(accounts, 1, &account_data)
}

/// Starts processing an instruction: decodes it and starts its handler.
/// `UpdateMovieReview` needs no request of the runtime and finishes at once.
pub fn process_instruction(
    program_id: &[u8; 32],
    accounts: &mut Vec<Account>,
    instruction_data: &[u8],
) -> (out: (Run, Request))
    requires
        instruction_data@.len() <= isize::MAX,
    ensures
        is_step(
            process_start(program_id@, accounts_view(old(accounts)@), instruction_data@),
            out.0,
            out.1,
            final(accounts)@,
        ),
{
    let instruction = match MovieInstruction::unpack(instruction_data) {
        Ok(i) => i,
        Err(e) => return done(program_id, Err(e)),
    };
    match instruction {
        MovieInstruction::AddMovieReview { title, rating, description } => {
            proof {
                lemma_payload_sizes(instruction_data@);
            }
            add_movie_review(program_id, accounts, title, rating, description)
        },
        MovieInstruction::UpdateMovieReview { title, rating, description } => {
            proof {
                lemma_payload_sizes(instruction_data@);
            }
            let r = update_movie_review(program_id, accounts, title, rating, description);
            done(program_id, r)
        },
        MovieInstruction::AddComment { comment } => {
            proof {
                lemma_payload_sizes(instruction_data@);
            }
            add_comment(program_id, accounts, comment)
        },
        MovieInstruction::InitializeMint => mint_token(program_id, accounts),
    }
}

/// The strings decoded from instruction data are no longer than the data,
/// so the account sizes computed from them fit in a `usize`.
proof fn lemma_payload_sizes(d: Seq<u8>)
    requires
        d.len() <= isize::MAX,
    ensures
        crate::instruction::read_instruction(d) matches Ok(
            crate::instruction::InstructionView::AddMovieReview { title, rating, description },
        ) ==> review_account_size(title, description) <= usize::MAX,
        crate::instruction::read_instruction(d) matches Ok(
            crate::instruction::InstructionView::UpdateMovieReview { title, rating, description },
        ) ==> utf8_len(description) <= usize::MAX,
        crate::instruction::read_instruction(d) matches Ok(
            crate::instruction::InstructionView::AddComment { comment },
        ) ==> 87 + utf8_len(comment) <= usize::MAX,
{
    if let Some((title, p1)) = crate::encoding::read_string(d, 1) {
        lemma_read_string_len(d, 1);
        if let Some((_r, p2)) = crate::encoding::read_u8(d, p1) {
            if let Some((description, p3)) = crate::encoding::read_string(d, p2) {
                lemma_read_string_len(d, p2);
            }
        }
    }
}

/// The title of a review decoded from `d` is no longer than `d`.
proof fn lemma_review_title_len(d: Seq<u8>)
    ensures
        crate::state::read_review(d) matches Some(st) ==> utf8_len(st.title) <= d.len(),
{
    if let Some((_s, p1)) = crate::encoding::read_string(d, 0) {
        if let Some((_k, p2)) = crate::encoding::read_key(d, p1) {
            if let Some((_b, p3)) = crate::encoding::read_bool(d, p2) {
                if let Some((_r, p4)) = crate::encoding::read_u8(d, p3) {
                    if crate::encoding::read_string(d, p4) is Some {
                        lemma_read_string_len(d, p4);
                    }
                }
            }
        }
    }
}

/// A string read at `pos` takes `4 + its UTF-8 length` bytes of `d`.
proof fn lemma_read_string_len(d: Seq<u8>, pos: int)
    requires
        crate::encoding::read_string(d, pos) is Some,
    ensures
        crate::encoding::read_string(d, pos) matches Some((s, next)) ==> next == pos + 4 + utf8_len(
            s,
        ) && next <= d.len() && pos >= 0,
{
    let n = crate::encoding::le_u32_value(d.subrange(pos, pos + 4)) as int;
    let b = d.subrange(pos + 4, pos + 4 + n);
    vstd::utf8::decode_utf8_encode_utf8(b);
}

impl Run {
    /// The next step of an instruction in progress, given the runtime's
    /// answer to the last request: `Ok` with the lamports asked for (any
    /// value after an invocation), or `Err` with the program error code of a
    /// failure, which ends the instruction with that error.
    pub fn resume(&mut self, accounts: &mut Vec<Account>, outcome: Result<u64, u64>) -> (req: Request)
        ensures
            is_step(
                resume_step(old(self)@, accounts_view(old(accounts)@), outcome),
                *final(self),
                req,
                final(accounts)@,
            ),
    {
        let value = match outcome {
            Err(code) => {
                self.stage = Stage::Finished;
                return Request::Done { result: Err(ProcessError::Raised(code)) };
            },
            Ok(v) => v,
        };
        let needed: usize = match self.stage {
            Stage::Finished => {
                return Request::Done { result: Err(ProcessError::InvalidArgument) };
            },
            Stage::AwaitMintRent | Stage::AwaitMintCreate | Stage::AwaitMintInitialize => 6,
            Stage::AwaitReviewRent | Stage::AwaitReviewCreate | Stage::AwaitCounterRent
            | Stage::AwaitCounterCreate | Stage::AwaitReviewMint => 8,
            _ => 9,
        };
        if accounts.len() < needed {
            self.stage = Stage::Finished;
            return Request::Done { result: Err(ProcessError::NotEnoughAccountKeys) };
        }
        match self.stage {
            Stage::AwaitMintRent => self.mint_after_rent_exec(accounts, value),
            Stage::AwaitMintCreate => self.mint_after_create_exec(accounts),
            Stage::AwaitReviewRent => self.review_after_rent_exec(accounts, value),
            Stage::AwaitReviewCreate => self.review_after_create_exec(accounts),
            Stage::AwaitCounterRent => self.review_after_counter_rent_exec(accounts, value),
            Stage::AwaitCounterCreate => self.review_after_counter_create_exec(accounts),
            Stage::AwaitCommentRent => self.comment_after_rent_exec(accounts, value),
            Stage::AwaitCommentCreate => self.comment_after_create_exec(accounts),
            _ => {
                self.stage = Stage::Finished;
                Request::Done { result: Ok(()) }
            },
        }
    }

    fn mint_after_rent_exec(&mut self, accounts: &Vec<Account>, lamports: u64) -> (req: Request)
        requires
            accounts@.len() >= 6,
        ensures
            is_step(
                mint_after_rent(old(self)@, accounts_view(accounts@), lamports),
                *final(self),
                req,
                accounts@,
            ),
    {
        let call = Call::CreateAccount {
            from: accounts[0].key,
            to: accounts[1].key,
            lamports,
            space: 82,
            owner: accounts[4].key,
        };
        let signer_seeds = seeds2(text_bytes("token_mint"), one_byte(self.mint_bump));
        self.stage = Stage::AwaitMintCreate;
        Request::Invoke {
            invocation: Invocation { call, accounts: indices(0, 3, 1), signer_seeds },
        }
    }

    fn mint_after_create_exec(&mut self, accounts: &Vec<Account>) -> (req: Request)
        requires
            accounts@.len() >= 6,
        ensures
            is_step(
                mint_after_create(old(self)@, accounts_view(accounts@)),
                *final(self),
                req,
                accounts@,
            ),
    {
        let call = Call::InitializeMint {
            token_program: accounts[4].key,
            mint: accounts[1].key,
            mint_authority: accounts[2].key,
            decimals: 9,
        };
        let signer_seeds = seeds2(text_bytes("token_mint"), one_byte(self.mint_bump));
        self.stage = Stage::AwaitMintInitialize;
        Request::Invoke {
            invocation: Invocation { call, accounts: indices(1, 5, 2), signer_seeds },
        }
    }

    fn review_after_rent_exec(&mut self, accounts: &Vec<Account>, lamports: u64) -> (req: Request)
        requires
            accounts@.len() >= 8,
        ensures
            is_step(
                review_after_rent(old(self)@, accounts_view(accounts@), lamports),
                *final(self),
                req,
                accounts@,
            ),
    {
        let call = Call::CreateAccount {
            from: accounts[0].key,
            to: accounts[1].key,
            lamports,
            space: self.account_len as u64,
            owner: self.program_id,
        };
        let signer_seeds = seeds3(
            key_bytes(&accounts[0].key),
            text_bytes(self.title.as_str()),
            one_byte(self.bump),
        );
        self.stage = Stage::AwaitReviewCreate;
        Request::Invoke {
            invocation: Invocation { call, accounts: indices(0, 1, 2), signer_seeds },
        }
    }

    fn review_after_create_exec(&mut self, accounts: &mut Vec<Account>) -> (req: Request)
        requires
            old(accounts)@.len() >= 8,
        ensures
            is_step(
                review_after_create(old(self)@, accounts_view(old(accounts)@)),
                *final(self),
                req,
                final(accounts)@,
            ),
    {
        let account_data = match MovieAccountState::unpack(accounts[1].data.as_slice()) {
            Some(s) => s,
            None => {
                self.stage = Stage::Finished;
                return Request::Done { result: Err(ProcessError::UndecodableData) };
            },
        };
        if account_data.is_initialized() {
            self.stage = Stage::Finished;
            return Request::Done { result: Err(ProcessError::AccountAlreadyInitialized) };
        }
        let review = MovieAccountState {
            discriminant: String::from_str(MovieAccountState::DISCRIMINATOR),
            reviewer: accounts[0].key,
            is_initialized: true,
            rating: self.rating,
            title: self.title.clone(),
            description: self.description.clone(),
        };
        match write_review_at(accounts, 1, &review) {
            Err(e) => {
                self.stage = Stage::Finished;
                Request::Done { result: Err(e) }
            },
            Ok(()) => {
                self.stage = Stage::AwaitCounterRent;
                Request::Rent { space: MovieCommentCounter::get_account_size() }
            },
        }
    }

    fn review_after_counter_rent_exec(&mut self, accounts: &Vec<Account>, lamports: u64) -> (req:
        Request)
        requires
            accounts@.len() >= 8,
        ensures
            is_step(
                review_after_counter_rent(old(self)@, accounts_view(accounts@), lamports),
                *final(self),
                req,
                accounts@,
            ),
    {
        let space = MovieCommentCounter::get_account_size() as u64;
        let call = Call::CreateAccount {
            from: accounts[0].key,
            to: accounts[3].key,
            lamports,
            space,
            owner: self.program_id,
        };
        let signer_seeds = seeds3(
            key_bytes(&self.pda),
            text_bytes("counter"),
            one_byte(self.counter_bump),
        );
        self.stage = Stage::AwaitCounterCreate;
        Request::Invoke {
            invocation: Invocation { call, accounts: indices(0, 3, 2), signer_seeds },
        }
    }

    fn review_after_counter_create_exec(&mut self, accounts: &mut Vec<Account>) -> (req: Request)
        requires
            old(accounts)@.len() >= 8,
        ensures
            is_step(
                review_after_counter_create(old(self)@, accounts_view(old(accounts)@)),
                *final(self),
                req,
                final(accounts)@,
            ),
    {
        let counter_data = match MovieCommentCounter::unpack(accounts[1].data.as_slice()) {
            Some(s) => s,
            None => {
                self.stage = Stage::Finished;
                return Request::Done { result: Err(ProcessError::UndecodableData) };
            },
        };
        if counter_data.is_initialized() {
            self.stage = Stage::Finished;
            return Request::Done { result: Err(ProcessError::AccountAlreadyInitialized) };
        }
        let counter = MovieCommentCounter {
            discriminant: String::from_str(MovieCommentCounter::DISCRIMINATOR),
            is_initialized: true,
            counter: 0,
        };
        match write_counter_at(accounts, 1, &counter) {
            Err(e) => {
                self.stage = Stage::Finished;
                Request::Done { result: Err(e) }
            },
            Ok(()) => {
                let call = Call::MintTo {
                    token_program: accounts[7].key,
                    mint: accounts[4].key,
                    destination: accounts[6].key,
                    authority: accounts[5].key,
                    amount: 10 * lamports_per_sol(),
                };
                let signer_seeds = seeds2(text_bytes("token_auth"), one_byte(self.mint_auth_bump));
                self.stage = Stage::AwaitReviewMint;
                Request::Invoke {
                    invocation: Invocation { call, accounts: indices(4, 6, 5), signer_seeds },
                }
            },
        }
    }

    fn comment_after_rent_exec(&mut self, accounts: &Vec<Account>, lamports: u64) -> (req: Request)
        requires
            accounts@.len() >= 9,
        ensures
            is_step(
                comment_after_rent(old(self)@, accounts_view(accounts@), lamports),
                *final(self),
                req,
                accounts@,
            ),
    {
        let (pda, bump) = match derive(
            seeds2(key_bytes(&accounts[1].key), u64_be_bytes(self.counter)),
            &self.program_id,
        ) {
            Some(x) => x,
            None => {
                self.stage = Stage::Finished;
                return Request::Done { result: Err(ProcessError::AddressNotFound) };
            },
        };
        if !same_key(&pda, &accounts[3].key) {
            self.stage = Stage::Finished;
            return Request::Done { result: Err(ProcessError::Review(ReviewError::InvalidPDA)) };
        }
        let call = Call::CreateAccount {
            from: accounts[0].key,
            to: accounts[3].key,
            lamports,
            space: self.account_len as u64,
            owner: self.program_id,
        };
        let signer_seeds = seeds3(
            key_bytes(&accounts[1].key),
            u64_be_bytes(self.counter),
            one_byte(bump),
        );
        self.stage = Stage::AwaitCommentCreate;
        Request::Invoke {
            invocation: Invocation { call, accounts: indices(0, 3, 4), signer_seeds },
        }
    }

    fn comment_after_create_exec(&mut self, accounts: &mut Vec<Account>) -> (req: Request)
        requires
            old(accounts)@.len() >= 9,
        ensures
            is_step(
                comment_after_create(old(self)@, accounts_view(old(accounts)@)),
                *final(self),
                req,
                final(accounts)@,
            ),
    {
        let comment_data = match MovieComment::unpack(accounts[3].data.as_slice()) {
            Some(s) => s,
            None => {
                self.stage = Stage::Finished;
                return Request::Done { result: Err(ProcessError::UndecodableData) };
            },
        };
        if comment_data.is_initialized() {
            self.stage = Stage::Finished;
            return Request::Done { result: Err(ProcessError::AccountAlreadyInitialized) };
        }
        let comment = MovieComment {
            discriminant: String::from_str(MovieComment::DISCRIMINATOR),
            is_initialized: true,
            review: accounts[1].key,
            commenter: accounts[0].key,
            comment: self.comment.clone(),
            count: comment_data.count,
        };
        if let Err(e) = write_comment_at(accounts, 3, &comment) {
            self.stage = Stage::Finished;
            return Request::Done { result: Err(e) };
        }
        let counter = MovieCommentCounter {
            discriminant: self.counter_discriminant.clone(),
            is_initialized: self.counter_initialized,
            counter: self.counter.wrapping_add(1),
        };
        if let Err(e) = write_counter_at(accounts, 2, &counter) {
            self.stage = Stage::Finished;
            return Request::Done { result: Err(e) };
        }
        self.comment_token_checks_exec(accounts)
    }

    fn comment_token_checks_exec(&mut self, accounts: &Vec<Account>) -> (req: Request)
        requires
            accounts@.len() >= 9,
        ensures
            is_step(
                comment_token_checks(old(self)@, accounts_view(accounts@)),
                *final(self),
                req,
                accounts@,
            ),
    {
        let (mint_pda, _mint_bump) = match derive(seeds1(text_bytes("token_mint")), &self.program_id) {
            Some(x) => x,
            None => {
                self.stage = Stage::Finished;
                return Request::Done { result: Err(ProcessError::AddressNotFound) };
            },
        };
        let (mint_auth_pda, mint_auth_bump) = match derive(
            seeds1(text_bytes("token_auth")),
            &self.program_id,
        ) {
            Some(x) => x,
            None => {
                self.stage = Stage::Finished;
                return Request::Done { result: Err(ProcessError::AddressNotFound) };
            },
        };
        let err = if !same_key(&accounts[5].key, &mint_pda) {
            Some(ProcessError::Review(ReviewError::IncorrectAccountError))
        } else if !same_key(&accounts[6].key, &mint_auth_pda) {
            Some(ProcessError::Review(ReviewError::InvalidPDA))
        } else {
            match token_account_address(&accounts[0].key, &accounts[5].key) {
                None => Some(ProcessError::AddressNotFound),
                Some(ata) => if !same_key(&accounts[7].key, &ata) {
                    Some(ProcessError::Review(ReviewError::IncorrectAccountError))
                } else if !same_key(&accounts[8].key, &token_program_id()) {
                    Some(ProcessError::Review(ReviewError::IncorrectAccountError))
                } else {
                    None
                },
            }
        };
        if let Some(e) = err {
            self.stage = Stage::Finished;
            return Request::Done { result: Err(e) };
        }
        let call = Call::MintTo {
            token_program: accounts[8].key,
            mint: accounts[5].key,
            destination: accounts[7].key,
            authority: accounts[6].key,
            amount: 5 * lamports_per_sol(),
        };
        let signer_seeds = seeds2(text_bytes("token_auth"), one_byte(mint_auth_bump));
        self.stage = Stage::AwaitCommentMint;
        Request::Invoke {
            invocation: Invocation { call, accounts: indices(5, 7, 6), signer_seeds },
        }
    }
}

} // verus!
