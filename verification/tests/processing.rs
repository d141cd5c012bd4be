use borsh::to_vec;
use pda_local::error::{ProcessError, ReviewError};
use pda_local::model::{Account, Call, Request, Run, Stage};
use pda_local::processor::{add_movie_review, process_instruction, update_movie_review};
use pda_local::state::{MovieAccountState, MovieComment, MovieCommentCounter};
use solana_program::pubkey::Pubkey;

fn account(key: Pubkey, is_signer: bool, owner: Pubkey, data: Vec<u8>) -> Account {
    Account { key: key.to_bytes(), is_signer, owner: owner.to_bytes(), data }
}

fn plain(key: Pubkey) -> Account {
    account(key, false, Pubkey::default(), Vec::new())
}

fn done(req: &Request) -> Result<(), ProcessError> {
    match req {
        Request::Done { result } => *result,
        _ => panic!("expected the instruction to be finished"),
    }
}

fn review_instruction(variant: u8, title: &str, rating: u8, description: &str) -> Vec<u8> {
    let mut data = vec![variant];
    data.extend(to_vec(&(title.to_string(), rating, description.to_string())).unwrap());
    data
}

fn comment_instruction(comment: &str) -> Vec<u8> {
    let mut data = vec![2u8];
    data.extend(to_vec(&comment.to_string()).unwrap());
    data
}

// ------------------------------------------------------------------ mint

fn mint_accounts(program_id: &Pubkey) -> (Vec<Account>, u8) {
    let (mint, mint_bump) = Pubkey::find_program_address(&[b"token_mint"], program_id);
    let (auth, _) = Pubkey::find_program_address(&[b"token_auth"], program_id);
    let accounts = vec![
        account(Pubkey::new_unique(), true, Pubkey::default(), Vec::new()),
        plain(mint),
        plain(auth),
        plain(solana_program::system_program::ID),
        plain(spl_token::ID),
        plain(solana_program::sysvar::rent::ID),
    ];
    (accounts, mint_bump)
}

#[test]
fn test_init_mint_ix() {
    let program_id = Pubkey::new_unique();
    let (mut accounts, mint_bump) = mint_accounts(&program_id);
    let (mut run, req) = process_instruction(&program_id.to_bytes(), &mut accounts, &[3]);
    assert!(matches!(req, Request::Rent { space: 82 }));
    assert_eq!(run.stage, Stage::AwaitMintRent);

    let req = run.resume(&mut accounts, Ok(1_461_600));
    match req {
        Request::Invoke { invocation } => {
            match invocation.call {
                Call::CreateAccount { from, to, lamports, space, owner } => {
                    assert_eq!(from, accounts[0].key);
                    assert_eq!(to, accounts[1].key);
                    assert_eq!(lamports, 1_461_600);
                    assert_eq!(space, 82);
                    assert_eq!(owner, spl_token::ID.to_bytes());
                }
                _ => panic!("expected create_account"),
            }
            assert_eq!(invocation.accounts, vec![0, 3, 1]);
            assert_eq!(invocation.signer_seeds, vec![b"token_mint".to_vec(), vec![mint_bump]]);
        }
        _ => panic!("expected an invocation"),
    }

    let req = run.resume(&mut accounts, Ok(0));
    match req {
        Request::Invoke { invocation } => {
            match invocation.call {
                Call::InitializeMint { token_program, mint, mint_authority, decimals } => {
                    assert_eq!(token_program, spl_token::ID.to_bytes());
                    assert_eq!(mint, accounts[1].key);
                    assert_eq!(mint_authority, accounts[2].key);
                    assert_eq!(decimals, 9);
                }
                _ => panic!("expected initialize_mint"),
            }
            assert_eq!(invocation.accounts, vec![1, 5, 2]);
            assert_eq!(invocation.signer_seeds, vec![b"token_mint".to_vec(), vec![mint_bump]]);
        }
        _ => panic!("expected an invocation"),
    }

    let req = run.resume(&mut accounts, Ok(0));
    assert_eq!(done(&req), Ok(()));
    assert_eq!(run.stage, Stage::Finished);
    let req = run.resume(&mut accounts, Ok(0));
    assert_eq!(done(&req), Err(ProcessError::InvalidArgument));
}

#[test]
fn initialize_mint_checks_every_account() {
    let program_id = Pubkey::new_unique();
    for i in 1..6 {
        let (mut accounts, _) = mint_accounts(&program_id);
        accounts[i].key = Pubkey::new_unique().to_bytes();
        let (_, req) = process_instruction(&program_id.to_bytes(), &mut accounts, &[3]);
        assert_eq!(done(&req), Err(ProcessError::InvalidAccountData));
    }
    let (mut accounts, _) = mint_accounts(&program_id);
    accounts.pop();
    let (_, req) = process_instruction(&program_id.to_bytes(), &mut accounts, &[3]);
    assert_eq!(done(&req), Err(ProcessError::NotEnoughAccountKeys));
}

#[test]
fn initialize_mint_refuses_rent_before_token_program() {
    // the token program comes fifth and the rent sysvar sixth
    let program_id = Pubkey::new_unique();
    let (mut accounts, _) = mint_accounts(&program_id);
    accounts.swap(4, 5);
    let (_, req) = process_instruction(&program_id.to_bytes(), &mut accounts, &[3]);
    assert_eq!(done(&req), Err(ProcessError::InvalidAccountData));
}

#[test]
fn runtime_failure_ends_the_instruction() {
    let program_id = Pubkey::new_unique();
    let (mut accounts, _) = mint_accounts(&program_id);
    let (mut run, _) = process_instruction(&program_id.to_bytes(), &mut accounts, &[3]);
    let req = run.resume(&mut accounts, Err(0x0000_0003_0000_0000));
    assert_eq!(done(&req), Err(ProcessError::Raised(0x0000_0003_0000_0000)));
    assert_eq!(run.stage, Stage::Finished);
}

#[test]
fn bad_instruction_data_is_refused() {
    let program_id = Pubkey::new_unique();
    let (mut accounts, _) = mint_accounts(&program_id);
    let (_, req) = process_instruction(&program_id.to_bytes(), &mut accounts, &[]);
    assert_eq!(done(&req), Err(ProcessError::InvalidInstructionData));
    let (_, req) = process_instruction(&program_id.to_bytes(), &mut accounts, &[9]);
    assert_eq!(done(&req), Err(ProcessError::InvalidInstructionData));
}

// ---------------------------------------------------------------- review

fn review_accounts() -> Vec<Account> {
    (0..8).map(|i| account(Pubkey::new_unique(), i == 0, Pubkey::default(), Vec::new())).collect()
}

#[test]
fn add_review_checks_the_counter_address_first() {
    let program_id = Pubkey::new_unique();
    let mut accounts = review_accounts();
    let (run, req) = process_instruction(
        &program_id.to_bytes(),
        &mut accounts,
        &review_instruction(0, "Heat", 5, "crime"),
    );
    assert_eq!(done(&req), Err(ProcessError::Review(ReviewError::InvalidPDA)));
    assert_eq!(run.stage, Stage::Finished);
    let (_, req) = add_movie_review(
        &program_id.to_bytes(),
        &accounts,
        "Heat".to_string(),
        0,
        "crime".to_string(),
    );
    assert_eq!(done(&req), Err(ProcessError::Review(ReviewError::InvalidPDA)));
}

#[test]
fn add_review_needs_eight_accounts() {
    let program_id = Pubkey::new_unique();
    let mut accounts = review_accounts();
    accounts.pop();
    let (_, req) = process_instruction(
        &program_id.to_bytes(),
        &mut accounts,
        &review_instruction(0, "Heat", 5, "crime"),
    );
    assert_eq!(done(&req), Err(ProcessError::NotEnoughAccountKeys));
}

#[test]
fn new_review_does_not_fit_reserved_space() {
    let program_id = Pubkey::new_unique();
    let mut accounts = review_accounts();
    let title = "The Good, the Bad".to_string();
    let description = "and the Ugly, a western".to_string();
    let len = MovieAccountState::get_account_size(title.clone(), description.clone());
    accounts[1].data = vec![0u8; len];
    let mut run = Run::new(&program_id.to_bytes());
    run.title = title;
    run.description = description;
    run.rating = 5;
    run.account_len = len;
    run.stage = Stage::AwaitReviewCreate;
    let req = run.resume(&mut accounts, Ok(0));
    assert_eq!(done(&req), Err(ProcessError::BorshIoError));
    // as much of the review as fits is written: all but its last 32 bytes
    let full = MovieAccountState {
        discriminant: "review".to_string(),
        reviewer: accounts[0].key,
        is_initialized: true,
        rating: 5,
        title: "The Good, the Bad".to_string(),
        description: "and the Ugly, a western".to_string(),
    }
    .pack()
    .unwrap();
    assert_eq!(full.len(), len + 32);
    assert_eq!(accounts[1].data, full[..len].to_vec());
}

#[test]
fn new_review_is_written_when_it_fits() {
    let program_id = Pubkey::new_unique();
    let mut accounts = review_accounts();
    accounts[0].key = [1u8; 32];
    accounts[1].data = vec![0u8; 200];
    let mut run = Run::new(&program_id.to_bytes());
    run.title = "Heat".to_string();
    run.description = "crime".to_string();
    run.rating = 5;
    run.account_len = 29;
    run.stage = Stage::AwaitReviewCreate;
    let req = run.resume(&mut accounts, Ok(0));
    assert!(matches!(req, Request::Rent { space: 19 }));
    let stored = MovieAccountState::unpack(&accounts[1].data).unwrap();
    assert_eq!(stored.discriminant, "review");
    assert_eq!(stored.reviewer, accounts[0].key);
    assert!(stored.is_initialized);
    assert_eq!(stored.rating, 5);
    assert_eq!(stored.title, "Heat");
    assert_eq!(stored.description, "crime");

    // the counter is then decoded from the review account, which is initialized
    let _ = run.resume(&mut accounts, Ok(1000));
    let req = run.resume(&mut accounts, Ok(0));
    assert_eq!(done(&req), Err(ProcessError::AccountAlreadyInitialized));
}

// ---------------------------------------------------------------- update

fn update_accounts(program_id: &Pubkey, title: &str, initialized: bool, space: usize) -> Vec<Account> {
    let initializer = Pubkey::new_unique();
    let (pda, _) = Pubkey::find_program_address(&[initializer.as_ref(), title.as_bytes()], program_id);
    let state = MovieAccountState {
        discriminant: "review".to_string(),
        reviewer: initializer.to_bytes(),
        is_initialized: initialized,
        rating: 1,
        title: title.to_string(),
        description: "first".to_string(),
    };
    let mut data = state.pack().unwrap();
    data.resize(space, 0);
    vec![
        account(initializer, true, Pubkey::default(), Vec::new()),
        account(pda, false, *program_id, data),
    ]
}

#[test]
fn update_replaces_rating_and_description() {
    let program_id = Pubkey::new_unique();
    let mut accounts = update_accounts(&program_id, "Up", true, 120);
    let (run, req) = process_instruction(
        &program_id.to_bytes(),
        &mut accounts,
        &review_instruction(1, "ignored title", 3, "better"),
    );
    assert_eq!(done(&req), Ok(()));
    assert_eq!(run.stage, Stage::Finished);
    let stored = MovieAccountState::unpack(&accounts[1].data).unwrap();
    assert_eq!(stored.title, "Up");
    assert_eq!(stored.rating, 3);
    assert_eq!(stored.description, "better");
    assert_eq!(stored.reviewer, accounts[0].key);
    assert_eq!(accounts[1].data.len(), 120);
}

#[test]
fn update_refusals() {
    let program_id = Pubkey::new_unique();
    let pid = program_id.to_bytes();
    let run = |accounts: &mut Vec<Account>, rating: u8, description: &str| {
        update_movie_review(&pid, accounts, String::new(), rating, description.to_string())
    };

    let mut a = update_accounts(&program_id, "Up", true, 120);
    a.pop();
    assert_eq!(run(&mut a, 3, "x"), Err(ProcessError::NotEnoughAccountKeys));

    let mut a = update_accounts(&program_id, "Up", true, 120);
    a[1].owner = Pubkey::new_unique().to_bytes();
    assert_eq!(run(&mut a, 3, "x"), Err(ProcessError::IllegalOwner));

    let mut a = update_accounts(&program_id, "Up", true, 120);
    a[0].is_signer = false;
    assert_eq!(run(&mut a, 3, "x"), Err(ProcessError::MissingRequiredSignature));

    let mut a = update_accounts(&program_id, "Up", true, 120);
    a[1].data = vec![0xff; 10];
    assert_eq!(run(&mut a, 3, "x"), Err(ProcessError::UndecodableData));

    let mut a = update_accounts(&program_id, "Up", true, 120);
    a[1].key = Pubkey::new_unique().to_bytes();
    assert_eq!(run(&mut a, 3, "x"), Err(ProcessError::Review(ReviewError::InvalidPDA)));

    let mut a = update_accounts(&program_id, "Up", false, 120);
    assert_eq!(run(&mut a, 3, "x"), Err(ProcessError::Review(ReviewError::UninitializedAccount)));

    let mut a = update_accounts(&program_id, "Up", true, 120);
    assert_eq!(run(&mut a, 0, "x"), Err(ProcessError::Review(ReviewError::InvalidRating)));
    assert_eq!(run(&mut a, 6, "x"), Err(ProcessError::Review(ReviewError::InvalidRating)));

    // 1 + 1 + (4 + 993) + 2 = 1001
    let mut a = update_accounts(&program_id, "Up", true, 2000);
    let long = "d".repeat(993);
    assert_eq!(run(&mut a, 3, &long), Err(ProcessError::Review(ReviewError::InvalidDataLength)));
    let ok = "d".repeat(992);
    assert_eq!(run(&mut a, 3, &ok), Ok(()));

    let mut a = update_accounts(&program_id, "Up", true, 60);
    let mut stored = MovieAccountState::unpack(&a[1].data).unwrap();
    assert_eq!(run(&mut a, 3, &"d".repeat(100)), Err(ProcessError::BorshIoError));
    stored.rating = 3;
    stored.description = "d".repeat(100);
    assert_eq!(a[1].data, stored.pack().unwrap()[..60].to_vec());
}

#[test]
fn update_of_a_review_with_a_long_title_aborts() {
    let program_id = Pubkey::new_unique();
    let mut accounts = update_accounts(&program_id, "short", true, 200);
    let mut state = MovieAccountState::unpack(&accounts[1].data).unwrap();
    state.title = "t".repeat(33);
    let mut data = state.pack().unwrap();
    data.resize(200, 0);
    accounts[1].data = data;
    let r = update_movie_review(&program_id.to_bytes(), &mut accounts, String::new(), 3, "x".to_string());
    assert_eq!(r, Err(ProcessError::AddressNotFound));
}

// --------------------------------------------------------------- comment

struct CommentSetup {
    accounts: Vec<Account>,
    comment_bump: u8,
    auth_bump: u8,
}

fn comment_accounts(program_id: &Pubkey, counter: u64) -> CommentSetup {
    let commenter = Pubkey::new_unique();
    let review = Pubkey::new_unique();
    let (comment_pda, comment_bump) =
        Pubkey::find_program_address(&[review.as_ref(), counter.to_be_bytes().as_ref()], program_id);
    let (mint, _) = Pubkey::find_program_address(&[b"token_mint"], program_id);
    let (auth, auth_bump) = Pubkey::find_program_address(&[b"token_auth"], program_id);
    let ata = spl_associated_token_account::get_associated_token_address(&commenter, &mint);
    let counter_state = MovieCommentCounter {
        discriminant: "counter".to_string(),
        is_initialized: true,
        counter,
    };
    let accounts = vec![
        account(commenter, true, Pubkey::default(), Vec::new()),
        plain(review),
        account(Pubkey::new_unique(), false, *program_id, counter_state.pack().unwrap()),
        plain(comment_pda),
        plain(solana_program::system_program::ID),
        plain(mint),
        plain(auth),
        plain(ata),
        plain(spl_token::ID),
    ];
    CommentSetup { accounts, comment_bump, auth_bump }
}

fn start_comment(program_id: &Pubkey, setup: &mut CommentSetup, comment: &str) -> Run {
    let (mut run, req) =
        process_instruction(&program_id.to_bytes(), &mut setup.accounts, &comment_instruction(comment));
    assert!(matches!(req, Request::Rent { space } if space == 87 + comment.len()));
    let req = run.resume(&mut setup.accounts, Ok(2_000_000));
    match req {
        Request::Invoke { invocation } => {
            match invocation.call {
                Call::CreateAccount { from, to, lamports, space, owner } => {
                    assert_eq!(from, setup.accounts[0].key);
                    assert_eq!(to, setup.accounts[3].key);
                    assert_eq!(lamports, 2_000_000);
                    assert_eq!(space as usize, 87 + comment.len());
                    assert_eq!(owner, program_id.to_bytes());
                }
                _ => panic!("expected create_account"),
            }
            assert_eq!(invocation.accounts, vec![0, 3, 4]);
            let counter = MovieCommentCounter::unpack(&setup.accounts[2].data).unwrap().counter;
            assert_eq!(
                invocation.signer_seeds,
                vec![setup.accounts[1].key.to_vec(), counter.to_be_bytes().to_vec(), vec![setup.comment_bump]]
            );
        }
        _ => panic!("expected an invocation"),
    }
    run
}

#[test]
fn comment_in_a_larger_account_is_written_and_counted() {
    let program_id = Pubkey::new_unique();
    let mut setup = comment_accounts(&program_id, 4);
    let mut run = start_comment(&program_id, &mut setup, "nice");
    setup.accounts[3].data = vec![0u8; 200];
    let req = run.resume(&mut setup.accounts, Ok(0));
    match req {
        Request::Invoke { invocation } => {
            match invocation.call {
                Call::MintTo { token_program, mint, destination, authority, amount } => {
                    assert_eq!(token_program, spl_token::ID.to_bytes());
                    assert_eq!(mint, setup.accounts[5].key);
                    assert_eq!(destination, setup.accounts[7].key);
                    assert_eq!(authority, setup.accounts[6].key);
                    assert_eq!(amount, 5 * solana_program::native_token::LAMPORTS_PER_SOL);
                }
                _ => panic!("expected mint_to"),
            }
            assert_eq!(invocation.accounts, vec![5, 7, 6]);
            assert_eq!(invocation.signer_seeds, vec![b"token_auth".to_vec(), vec![setup.auth_bump]]);
        }
        _ => panic!("expected an invocation"),
    }
    let comment = MovieComment::unpack(&setup.accounts[3].data).unwrap();
    assert_eq!(comment.discriminant, "comment");
    assert!(comment.is_initialized);
    assert_eq!(comment.review, setup.accounts[1].key);
    assert_eq!(comment.commenter, setup.accounts[0].key);
    assert_eq!(comment.comment, "nice");
    assert_eq!(comment.count, 0);
    let counter = MovieCommentCounter::unpack(&setup.accounts[2].data).unwrap();
    assert_eq!(counter.counter, 5);
    let req = run.resume(&mut setup.accounts, Ok(0));
    assert_eq!(done(&req), Ok(()));
}

#[test]
fn comment_does_not_fit_reserved_space() {
    let program_id = Pubkey::new_unique();
    let mut setup = comment_accounts(&program_id, 0);
    let mut run = start_comment(&program_id, &mut setup, "nice");
    setup.accounts[3].data = vec![0u8; 87 + 4];
    let req = run.resume(&mut setup.accounts, Ok(0));
    assert_eq!(done(&req), Err(ProcessError::BorshIoError));
    let full = MovieComment {
        discriminant: "comment".to_string(),
        is_initialized: true,
        review: setup.accounts[1].key,
        commenter: setup.accounts[0].key,
        comment: "nice".to_string(),
        count: 0,
    }
    .pack()
    .unwrap();
    assert_eq!(full.len(), 92);
    assert_eq!(setup.accounts[3].data, full[..91].to_vec());
}

#[test]
fn comment_refusals() {
    let program_id = Pubkey::new_unique();
    // a comment account at another address
    let mut setup = comment_accounts(&program_id, 0);
    setup.accounts[3].key = Pubkey::new_unique().to_bytes();
    let (mut run, _) =
        process_instruction(&program_id.to_bytes(), &mut setup.accounts, &comment_instruction("x"));
    let req = run.resume(&mut setup.accounts, Ok(1));
    assert_eq!(done(&req), Err(ProcessError::Review(ReviewError::InvalidPDA)));

    // an undecodable counter
    let mut setup = comment_accounts(&program_id, 0);
    setup.accounts[2].data = vec![1, 2, 3];
    let (_, req) =
        process_instruction(&program_id.to_bytes(), &mut setup.accounts, &comment_instruction("x"));
    assert_eq!(done(&req), Err(ProcessError::UndecodableData));

    // an initialized comment account
    let mut setup = comment_accounts(&program_id, 0);
    let mut run = start_comment(&program_id, &mut setup, "x");
    let taken = MovieComment {
        discriminant: "comment".to_string(),
        is_initialized: true,
        review: [0; 32],
        commenter: [0; 32],
        comment: String::new(),
        count: 0,
    };
    let mut data = taken.pack().unwrap();
    data.resize(300, 0);
    setup.accounts[3].data = data;
    let req = run.resume(&mut setup.accounts, Ok(0));
    assert_eq!(done(&req), Err(ProcessError::AccountAlreadyInitialized));

    // a wrong token account, after the comment is written
    let mut setup = comment_accounts(&program_id, 0);
    let mut run = start_comment(&program_id, &mut setup, "x");
    setup.accounts[3].data = vec![0u8; 300];
    setup.accounts[7].key = Pubkey::new_unique().to_bytes();
    let req = run.resume(&mut setup.accounts, Ok(0));
    assert_eq!(done(&req), Err(ProcessError::Review(ReviewError::IncorrectAccountError)));

    // a wrong mint authority
    let mut setup = comment_accounts(&program_id, 0);
    let mut run = start_comment(&program_id, &mut setup, "x");
    setup.accounts[3].data = vec![0u8; 300];
    setup.accounts[6].key = Pubkey::new_unique().to_bytes();
    let req = run.resume(&mut setup.accounts, Ok(0));
    assert_eq!(done(&req), Err(ProcessError::Review(ReviewError::InvalidPDA)));
}
