//! What each step of instruction processing does, as mathematical functions
//! of the instruction's progress, its accounts and the runtime's answers.
use crate::encoding::be_u64_bytes;
use crate::error::{ProcessError, ReviewError};
use crate::instruction::{read_instruction, InstructionView};
use crate::model::{
    ask_invoke, ask_rent, finish, initial_run, with_data, AccountModel, CallModel, RequestModel,
    RunModel, Stage, Step,
};
use crate::outside::{
    associated_token_program_key, program_address, rent_sysvar_key, system_program_key,
    token_program_key,
};
use crate::state::{
    read_comment, read_counter, read_review, utf8_len, write_result, CommentView, CounterView,
    MovieAccountState, MovieComment, MovieCommentCounter, ReviewView,
};
use vstd::prelude::*;
use vstd::string::StringSliceAdditionalSpecFns;
use vstd::utf8::encode_utf8;

verus! {

/// The seed of the token mint's address.
pub open spec fn mint_seed() -> Seq<u8> {
    "token_mint".spec_bytes()
}

/// The seed of the mint authority's address.
pub open spec fn mint_authority_seed() -> Seq<u8> {
    "token_auth".spec_bytes()
}

/// The seed that, after a review's address, derives the address checked as its counter.
pub open spec fn comment_seed() -> Seq<u8> {
    "comment".spec_bytes()
}

/// The seed with which the program signs for a review's counter account.
pub open spec fn counter_seed() -> Seq<u8> {
    "counter".spec_bytes()
}

/// A rating is accepted when it lies between 1 and 5.
pub open spec fn rating_valid(rating: u8) -> bool {
    1 <= rating <= 5
}

/// Lamports in one SOL.
pub open spec fn lamports_per_sol() -> u64 {
    1_000_000_000
}

// ------------------------------------------------------------------ mint

/// Starting `InitializeMint`: six accounts (initializer, token mint, mint
/// authority, system program, token program, rent sysvar), checked against
/// the derived mint and mint authority addresses and the three program ids;
/// then the rent of an 82-byte mint account is asked for.
pub open spec fn mint_start(pid: Seq<u8>, a: Seq<AccountModel>) -> Step {
    let run = initial_run(pid);
    if a.len() < 6 {
        finish(run, a, Err(ProcessError::NotEnoughAccountKeys))
    } else {
        match program_address(seq![mint_seed()], pid) {
            None => finish(run, a, Err(ProcessError::AddressNotFound)),
            Some((pda_mint, mint_bump)) => match program_address(seq![mint_authority_seed()], pid) {
                None => finish(run, a, Err(ProcessError::AddressNotFound)),
                Some((mint_auth_pda, _)) => if pda_mint != a[1].key || mint_auth_pda != a[2].key
                    || a[3].key != system_program_key() || a[5].key != rent_sysvar_key()
                    || a[4].key != token_program_key() {
                    finish(run, a, Err(ProcessError::InvalidAccountData))
                } else {
                    ask_rent(RunModel { mint_bump, ..run }, a, Stage::AwaitMintRent, 82)
                },
            },
        }
    }
}

/// The seeds with which the program signs for the token mint.
pub open spec fn mint_signer(run: RunModel) -> Seq<Seq<u8>> {
    seq![mint_seed(), seq![run.mint_bump]]
}

/// With the rent, create the 82-byte mint account, paid by the initializer
/// and owned by the token program.
pub open spec fn mint_after_rent(run: RunModel, a: Seq<AccountModel>, lamports: u64) -> Step {
    ask_invoke(
        run,
        a,
        Stage::AwaitMintCreate,
        CallModel::CreateAccount {
            from: a[0].key,
            to: a[1].key,
            lamports,
            space: 82,
            owner: a[4].key,
        },
        seq![0usize, 3, 1],
        mint_signer(run),
    )
}

/// Once created, initialize the mint with 9 decimals.
pub open spec fn mint_after_create(run: RunModel, a: Seq<AccountModel>) -> Step {
    ask_invoke(
        run,
        a,
        Stage::AwaitMintInitialize,
        CallModel::InitializeMint {
            token_program: a[4].key,
            mint: a[1].key,
            mint_authority: a[2].key,
            decimals: 9,
        },
        seq![1usize, 5, 2],
        mint_signer(run),
    )
}

// ---------------------------------------------------------------- review

/// The seeds of the associated token account of `wallet` for `mint`: the
/// wallet, the token program and the mint, under the associated token
/// account program.
pub open spec fn token_account_seeds(wallet: Seq<u8>, mint: Seq<u8>) -> Seq<Seq<u8>> {
    seq![wallet, token_program_key(), mint]
}

/// The size check and the space of a review account: `get_account_size`.
pub open spec fn review_account_size(title: Seq<char>, description: Seq<char>) -> int {
    20 + utf8_len(title) + utf8_len(description)
}

/// Starting `AddMovieReview`: eight accounts (initializer, review account,
/// system program, counter account, token mint, mint authority, the
/// initializer's token account, token program) and the checks in order;
/// then the rent of the review account is asked for.
pub open spec fn review_start(
    pid: Seq<u8>,
    a: Seq<AccountModel>,
    title: Seq<char>,
    rating: u8,
    description: Seq<char>,
) -> Step {
    let run = initial_run(pid);
    if a.len() < 8 {
        finish(run, a, Err(ProcessError::NotEnoughAccountKeys))
    } else {
        match program_address(seq![a[1].key, comment_seed()], pid) {
            None => finish(run, a, Err(ProcessError::AddressNotFound)),
            Some((counter_pda, counter_bump)) => if counter_pda != a[1].key {
                finish(run, a, Err(ProcessError::Review(ReviewError::InvalidPDA)))
            } else if !a[0].is_signer {
                finish(run, a, Err(ProcessError::MissingRequiredSignature))
            } else {
                match program_address(seq![a[0].key, encode_utf8(title)], pid) {
                    None => finish(run, a, Err(ProcessError::AddressNotFound)),
                    Some((pda, bump)) => if pda != a[1].key {
                        finish(run, a, Err(ProcessError::InvalidArgument))
                    } else if !rating_valid(rating) {
                        finish(run, a, Err(ProcessError::Review(ReviewError::InvalidRating)))
                    } else if review_account_size(title, description) > 1000 {
                        finish(run, a, Err(ProcessError::Review(ReviewError::InvalidDataLength)))
                    } else {
                        review_token_checks(
                            RunModel {
                                title,
                                rating,
                                description,
                                account_len: review_account_size(title, description) as usize,
                                pda,
                                bump,
                                counter_bump,
                                ..run
                            },
                            a,
                        )
                    },
                }
            },
        }
    }
}

/// The token accounts of `AddMovieReview`: the mint, the mint authority,
/// the initializer's token account and the token program.
pub open spec fn review_token_checks(run: RunModel, a: Seq<AccountModel>) -> Step {
    match program_address(seq![mint_seed()], run.program_id) {
        None => finish(run, a, Err(ProcessError::AddressNotFound)),
        Some((mint_pda, _)) => match program_address(seq![mint_authority_seed()], run.program_id) {
            None => finish(run, a, Err(ProcessError::AddressNotFound)),
            Some((mint_auth_pda, mint_auth_bump)) => if a[4].key != mint_pda {
                finish(run, a, Err(ProcessError::Review(ReviewError::IncorrectAccountError)))
            } else if a[5].key != mint_auth_pda {
                finish(run, a, Err(ProcessError::Review(ReviewError::InvalidPDA)))
            } else {
                match program_address(
                    token_account_seeds(a[0].key, a[4].key),
                    associated_token_program_key(),
                ) {
                    None => finish(run, a, Err(ProcessError::AddressNotFound)),
                    Some((ata, _)) => if a[6].key != ata {
                        finish(
                            run,
                            a,
                            Err(ProcessError::Review(ReviewError::IncorrectAccountError)),
                        )
                    } else if a[7].key != token_program_key() {
                        finish(
                            run,
                            a,
                            Err(ProcessError::Review(ReviewError::IncorrectAccountError)),
                        )
                    } else {
                        ask_rent(
                            RunModel { mint_auth_bump, ..run },
                            a,
                            Stage::AwaitReviewRent,
                            run.account_len,
                        )
                    },
                }
            },
        },
    }
}

/// With the rent, create the review account at the derived address, owned
/// by the program, signing with the initializer's key, the title and the bump.
pub open spec fn review_after_rent(run: RunModel, a: Seq<AccountModel>, lamports: u64) -> Step {
    ask_invoke(
        run,
        a,
        Stage::AwaitReviewCreate,
        CallModel::CreateAccount {
            from: a[0].key,
            to: a[1].key,
            lamports,
            space: run.account_len as u64,
            owner: run.program_id,
        },
        seq![0usize, 1, 2],
        seq![a[0].key, encode_utf8(run.title), seq![run.bump]],
    )
}

/// The review the program writes, with `author` as its author's key.
pub open spec fn new_review(run: RunModel, author: Seq<u8>) -> ReviewView {
    ReviewView {
        discriminant: MovieAccountState::DISCRIMINATOR@,
        reviewer: author,
        is_initialized: true,
        rating: run.rating,
        title: run.title,
        description: run.description,
    }
}

/// Once created, decode the review account, refuse it if initialized,
/// write the new review over it, then ask for the rent of a counter.
pub open spec fn review_after_create(run: RunModel, a: Seq<AccountModel>) -> Step {
    match read_review(a[1].data) {
        None => finish(run, a, Err(ProcessError::UndecodableData)),
        Some(old) => if old.is_initialized {
            finish(run, a, Err(ProcessError::AccountAlreadyInitialized))
        } else {
            let v = new_review(run, a[0].key);
            let (r, d) = write_result(v.fits(), v.written(), a[1].data);
            let a2 = with_data(a, 1, d);
            match r {
                Err(e) => finish(run, a2, Err(e)),
                Ok(_) => ask_rent(
                    run,
                    a2,
                    Stage::AwaitCounterRent,
                    19,
                ),
            }
        },
    }
}

/// With the rent, create the counter account, signing with the review's
/// address, `"counter"` and the counter bump.
pub open spec fn review_after_counter_rent(run: RunModel, a: Seq<AccountModel>, lamports: u64) -> Step {
    ask_invoke(
        run,
        a,
        Stage::AwaitCounterCreate,
        CallModel::CreateAccount {
            from: a[0].key,
            to: a[3].key,
            lamports,
            space: 19u64,
            owner: run.program_id,
        },
        seq![0usize, 3, 2],
        seq![run.pda, counter_seed(), seq![run.counter_bump]],
    )
}

/// The counter the program writes: zero comments.
pub open spec fn new_counter() -> CounterView {
    CounterView {
        discriminant: MovieCommentCounter::DISCRIMINATOR@,
        is_initialized: true,
        counter: 0,
    }
}

/// Once the counter account is created, decode a counter from the review
/// account's data, refuse it if initialized, write a zero counter over the
/// review account's data, then mint 10 tokens to the initializer.
pub open spec fn review_after_counter_create(run: RunModel, a: Seq<AccountModel>) -> Step {
    match read_counter(a[1].data) {
        None => finish(run, a, Err(ProcessError::UndecodableData)),
        Some(old) => if old.is_initialized {
            finish(run, a, Err(ProcessError::AccountAlreadyInitialized))
        } else {
            let v = new_counter();
            let (r, d) = write_result(v.fits(), v.written(), a[1].data);
            let a2 = with_data(a, 1, d);
            match r {
                Err(e) => finish(run, a2, Err(e)),
                Ok(_) => ask_invoke(
                    run,
                    a2,
                    Stage::AwaitReviewMint,
                    CallModel::MintTo {
                        token_program: a[7].key,
                        mint: a[4].key,
                        destination: a[6].key,
                        authority: a[5].key,
                        amount: (10 * lamports_per_sol()) as u64,
                    },
                    seq![4usize, 6, 5],
                    seq![mint_authority_seed(), seq![run.mint_auth_bump]],
                ),
            }
        },
    }
}

// --------------------------------------------------------------- comment

/// Starting `AddComment`: nine accounts (commenter, review, counter,
/// comment account, system program, token mint, mint authority, the
/// commenter's token account, token program); decode the counter, then ask
/// for the rent of the comment account.
pub open spec fn comment_start(pid: Seq<u8>, a: Seq<AccountModel>, comment: Seq<char>) -> Step {
    let run = initial_run(pid);
    if a.len() < 9 {
        finish(run, a, Err(ProcessError::NotEnoughAccountKeys))
    } else {
        match read_counter(a[2].data) {
            None => finish(run, a, Err(ProcessError::UndecodableData)),
            Some(c) => {
                let len = (87 + utf8_len(comment)) as usize;
                ask_rent(
                    RunModel {
                        comment,
                        counter_discriminant: c.discriminant,
                        counter_initialized: c.is_initialized,
                        counter: c.counter,
                        account_len: len,
                        ..run
                    },
                    a,
                    Stage::AwaitCommentRent,
                    len,
                )
            },
        }
    }
}

/// With the rent, check the comment account's address, derived from the
/// review's address and the counter in big-endian bytes, and create it.
pub open spec fn comment_after_rent(run: RunModel, a: Seq<AccountModel>, lamports: u64) -> Step {
    match program_address(seq![a[1].key, be_u64_bytes(run.counter)], run.program_id) {
        None => finish(run, a, Err(ProcessError::AddressNotFound)),
        Some((pda, bump)) => if pda != a[3].key {
            finish(run, a, Err(ProcessError::Review(ReviewError::InvalidPDA)))
        } else {
            ask_invoke(
                run,
                a,
                Stage::AwaitCommentCreate,
                CallModel::CreateAccount {
                    from: a[0].key,
                    to: a[3].key,
                    lamports,
                    space: run.account_len as u64,
                    owner: run.program_id,
                },
                seq![0usize, 3, 4],
                seq![a[1].key, be_u64_bytes(run.counter), seq![bump]],
            )
        },
    }
}

/// The comment the program writes; its count is the one already stored.
pub open spec fn new_comment(run: RunModel, a: Seq<AccountModel>, count: u64) -> CommentView {
    CommentView {
        discriminant: MovieComment::DISCRIMINATOR@,
        is_initialized: true,
        review: a[1].key,
        commenter: a[0].key,
        comment: run.comment,
        count,
    }
}

/// The counter after one more comment (wrapping at `u64::MAX`).
pub open spec fn next_counter(run: RunModel) -> CounterView {
    CounterView {
        discriminant: run.counter_discriminant,
        is_initialized: run.counter_initialized,
        counter: if run.counter == u64::MAX {
            0
        } else {
            (run.counter + 1) as u64
        },
    }
}

/// Once created, decode the comment account, refuse it if initialized,
/// write the comment, write the incremented counter, check the token
/// accounts, then mint 5 tokens to the commenter.
pub open spec fn comment_after_create(run: RunModel, a: Seq<AccountModel>) -> Step {
    match read_comment(a[3].data) {
        None => finish(run, a, Err(ProcessError::UndecodableData)),
        Some(old) => if old.is_initialized {
            finish(run, a, Err(ProcessError::AccountAlreadyInitialized))
        } else {
            let v = new_comment(run, a, old.count);
            let (r1, d1) = write_result(v.fits(), v.written(), a[3].data);
            let a1 = with_data(a, 3, d1);
            match r1 {
                Err(e) => finish(run, a1, Err(e)),
                Ok(_) => {
                    let c = next_counter(run);
                    let (r2, d2) = write_result(c.fits(), c.written(), a1[2].data);
                    let a2 = with_data(a1, 2, d2);
                    match r2 {
                        Err(e) => finish(run, a2, Err(e)),
                        Ok(_) => comment_token_checks(run, a2),
                    }
                },
            }
        },
    }
}

/// The token accounts of `AddComment`, then the request to mint 5 tokens.
pub open spec fn comment_token_checks(run: RunModel, a: Seq<AccountModel>) -> Step {
    match program_address(seq![mint_seed()], run.program_id) {
        None => finish(run, a, Err(ProcessError::AddressNotFound)),
        Some((mint_pda, _)) => match program_address(seq![mint_authority_seed()], run.program_id) {
            None => finish(run, a, Err(ProcessError::AddressNotFound)),
            Some((mint_auth_pda, mint_auth_bump)) => if a[5].key != mint_pda {
                finish(run, a, Err(ProcessError::Review(ReviewError::IncorrectAccountError)))
            } else if a[6].key != mint_auth_pda {
                finish(run, a, Err(ProcessError::Review(ReviewError::InvalidPDA)))
            } else {
                match program_address(
                    token_account_seeds(a[0].key, a[5].key),
                    associated_token_program_key(),
                ) {
                    None => finish(run, a, Err(ProcessError::AddressNotFound)),
                    Some((ata, _)) => if a[7].key != ata {
                        finish(
                            run,
                            a,
                            Err(ProcessError::Review(ReviewError::IncorrectAccountError)),
                        )
                    } else if a[8].key != token_program_key() {
                        finish(
                            run,
                            a,
                            Err(ProcessError::Review(ReviewError::IncorrectAccountError)),
                        )
                    } else {
                        comment_mint_request(run, a, mint_auth_bump)
                    },
                }
            },
        },
    }
}

/// The request to mint 5 tokens to the commenter's token account.
pub open spec fn comment_mint_request(run: RunModel, a: Seq<AccountModel>, mint_auth_bump: u8) -> Step {
    ask_invoke(
        run,
        a,
        Stage::AwaitCommentMint,
        CallModel::MintTo {
            token_program: a[8].key,
            mint: a[5].key,
            destination: a[7].key,
            authority: a[6].key,
            amount: (5 * lamports_per_sol()) as u64,
        },
        seq![5usize, 7, 6],
        seq![mint_authority_seed(), seq![mint_auth_bump]],
    )
}

// ---------------------------------------------------------------- update

/// `UpdateMovieReview`: two accounts (initializer, review account); the
/// review account must be owned by the program and the initializer must
/// sign; the stored review must decode, sit at the address derived from the
/// initializer and its stored title, and be initialized; the rating must be
/// valid and `1 + 1 + (4 + description) + title` at most 1000 bytes; then
/// the review's rating and description are replaced and written back.
pub open spec fn update_result(
    pid: Seq<u8>,
    a: Seq<AccountModel>,
    rating: u8,
    description: Seq<char>,
) -> (Result<(), ProcessError>, Seq<AccountModel>) {
    if a.len() < 2 {
        (Err(ProcessError::NotEnoughAccountKeys), a)
    } else if a[1].owner != pid {
        (Err(ProcessError::IllegalOwner), a)
    } else if !a[0].is_signer {
        (Err(ProcessError::MissingRequiredSignature), a)
    } else {
        match read_review(a[1].data) {
            None => (Err(ProcessError::UndecodableData), a),
            Some(st) => match program_address(seq![a[0].key, encode_utf8(st.title)], pid) {
                None => (Err(ProcessError::AddressNotFound), a),
                Some((pda, _)) => if pda != a[1].key {
                    (Err(ProcessError::Review(ReviewError::InvalidPDA)), a)
                } else if !st.is_initialized {
                    (Err(ProcessError::Review(ReviewError::UninitializedAccount)), a)
                } else if !rating_valid(rating) {
                    (Err(ProcessError::Review(ReviewError::InvalidRating)), a)
                } else if 6 + utf8_len(description) + utf8_len(st.title) > 1000 {
                    (Err(ProcessError::Review(ReviewError::InvalidDataLength)), a)
                } else {
                    let v = ReviewView { rating, description, ..st };
                    let (r, d) = write_result(v.fits(), v.written(), a[1].data);
                    (r, with_data(a, 1, d))
                },
            },
        }
    }
}

// --------------------------------------------------------------- overall

/// The first step of an instruction: decode it, then start the handler.
pub open spec fn process_start(pid: Seq<u8>, a: Seq<AccountModel>, data: Seq<u8>) -> Step {
    match read_instruction(data) {
        Err(e) => finish(initial_run(pid), a, Err(e)),
        Ok(InstructionView::AddMovieReview { title, rating, description }) => review_start(
            pid,
            a,
            title,
            rating,
            description,
        ),
        Ok(InstructionView::UpdateMovieReview { title, rating, description }) => {
            let (r, a2) = update_result(pid, a, rating, description);
            finish(initial_run(pid), a2, r)
        },
        Ok(InstructionView::AddComment { comment }) => comment_start(pid, a, comment),
        Ok(InstructionView::InitializeMint) => mint_start(pid, a),
    }
}

/// How many accounts an instruction waiting at `stage` reads.
pub open spec fn accounts_needed(stage: Stage) -> int {
    match stage {
        Stage::AwaitMintRent | Stage::AwaitMintCreate | Stage::AwaitMintInitialize => 6,
        Stage::AwaitReviewRent | Stage::AwaitReviewCreate | Stage::AwaitCounterRent
        | Stage::AwaitCounterCreate | Stage::AwaitReviewMint => 8,
        Stage::AwaitCommentRent | Stage::AwaitCommentCreate | Stage::AwaitCommentMint => 9,
        Stage::Finished => 0,
    }
}

/// The next step, given the runtime's answer to the last request: `Ok` with
/// the lamports asked for (or any value, after an invocation), or `Err` with
/// the program error code of a failure, which ends the instruction with it.
pub open spec fn resume_step(run: RunModel, a: Seq<AccountModel>, outcome: Result<u64, u64>) -> Step {
    match outcome {
        Err(code) => finish(run, a, Err(ProcessError::Raised(code))),
        Ok(value) => if run.stage == Stage::Finished {
            finish(run, a, Err(ProcessError::InvalidArgument))
        } else if a.len() < accounts_needed(run.stage) {
            finish(run, a, Err(ProcessError::NotEnoughAccountKeys))
        } else {
            match run.stage {
                Stage::AwaitMintRent => mint_after_rent(run, a, value),
                Stage::AwaitMintCreate => mint_after_create(run, a),
                Stage::AwaitMintInitialize => finish(run, a, Ok(())),
                Stage::AwaitReviewRent => review_after_rent(run, a, value),
                Stage::AwaitReviewCreate => review_after_create(run, a),
                Stage::AwaitCounterRent => review_after_counter_rent(run, a, value),
                Stage::AwaitCounterCreate => review_after_counter_create(run, a),
                Stage::AwaitReviewMint => finish(run, a, Ok(())),
                Stage::AwaitCommentRent => comment_after_rent(run, a, value),
                Stage::AwaitCommentCreate => comment_after_create(run, a),
                Stage::AwaitCommentMint => finish(run, a, Ok(())),
                Stage::Finished => finish(run, a, Err(ProcessError::InvalidArgument)),
            }
        },
    }
}

} // verus!
