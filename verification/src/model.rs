//! The values that instruction processing works on and hands out: the
//! accounts of an instruction, the requests for work that only the runtime
//! can do, and the progress of an instruction between such requests.
use crate::error::ProcessError;
use crate::outside::seeds_view;
use vstd::prelude::*;

verus! {

/// What the program reads of one account passed to an instruction, and the
/// account's data, which the program may overwrite.
pub struct Account {
    pub key: [u8; 32],
    pub is_signer: bool,
    pub owner: [u8; 32],
    pub data: Vec<u8>,
}

/// An account as a mathematical value.
pub struct AccountModel {
    pub key: Seq<u8>,
    pub is_signer: bool,
    pub owner: Seq<u8>,
    pub data: Seq<u8>,
}

impl View for Account {
    type V = AccountModel;

    open spec fn view(&self) -> AccountModel {
        AccountModel {
            key: self.key@,
            is_signer: self.is_signer,
            owner: self.owner@,
            data: self.data@,
        }
    }
}

/// The accounts of an instruction as mathematical values.
pub open spec fn accounts_view(a: Seq<Account>) -> Seq<AccountModel> {
    a.map_values(|x: Account| x@)
}

/// `accts` with the data of account `i` replaced by `d`.
pub open spec fn with_data(accts: Seq<AccountModel>, i: int, d: Seq<u8>) -> Seq<AccountModel> {
    accts.update(i, AccountModel { data: d, ..accts[i] })
}

/// A call into another program that the runtime makes on the program's behalf.
pub enum Call {
    /// The system program's `create_account`: `from` pays `lamports` for a
    /// new account `to` of `space` bytes, owned by `owner`.
    CreateAccount { from: [u8; 32], to: [u8; 32], lamports: u64, space: u64, owner: [u8; 32] },
    /// The token program's `initialize_mint` with no freeze authority.
    InitializeMint { token_program: [u8; 32], mint: [u8; 32], mint_authority: [u8; 32], decimals: u8 },
    /// The token program's `mint_to` with no additional signers.
    MintTo {
        token_program: [u8; 32],
        mint: [u8; 32],
        destination: [u8; 32],
        authority: [u8; 32],
        amount: u64,
    },
}

/// A call as a mathematical value.
pub enum CallModel {
    CreateAccount { from: Seq<u8>, to: Seq<u8>, lamports: u64, space: u64, owner: Seq<u8> },
    InitializeMint {
        token_program: Seq<u8>,
        mint: Seq<u8>,
        mint_authority: Seq<u8>,
        decimals: u8,
    },
    MintTo {
        token_program: Seq<u8>,
        mint: Seq<u8>,
        destination: Seq<u8>,
        authority: Seq<u8>,
        amount: u64,
    },
}

impl View for Call {
    type V = CallModel;

    open spec fn view(&self) -> CallModel {
        match self {
            Call::CreateAccount { from, to, lamports, space, owner } => CallModel::CreateAccount {
                from: from@,
                to: to@,
                lamports: *lamports,
                space: *space,
                owner: owner@,
            },
            Call::InitializeMint { token_program, mint, mint_authority, decimals } => {
                CallModel::InitializeMint {
                    token_program: token_program@,
                    mint: mint@,
                    mint_authority: mint_authority@,
                    decimals: *decimals,
                }
            },
            Call::MintTo { token_program, mint, destination, authority, amount } => {
                CallModel::MintTo {
                    token_program: token_program@,
                    mint: mint@,
                    destination: destination@,
                    authority: authority@,
                    amount: *amount,
                }
            },
        }
    }
}

/// A call, the indices of the instruction's accounts handed to it, and the
/// seeds with which the program signs for its derived addresses.
pub struct Invocation {
    pub call: Call,
    pub accounts: Vec<usize>,
    pub signer_seeds: Vec<Vec<u8>>,
}

/// An invocation as a mathematical value.
pub struct InvocationModel {
    pub call: CallModel,
    pub accounts: Seq<usize>,
    pub signer_seeds: Seq<Seq<u8>>,
}

/// What the program asks of the runtime next.
pub enum Request {
    /// The rent-exempt minimum balance, in lamports, of an account of `space` bytes.
    Rent { space: usize },
    /// Perform this invocation.
    Invoke { invocation: Invocation },
    /// The instruction is over, with this result.
    Done { result: Result<(), ProcessError> },
}

/// A request as a mathematical value.
pub enum RequestModel {
    Rent { space: usize },
    Invoke { invocation: InvocationModel },
    Done { result: Result<(), ProcessError> },
}

impl View for Request {
    type V = RequestModel;

    open spec fn view(&self) -> RequestModel {
        match self {
            Request::Rent { space } => RequestModel::Rent { space: *space },
            Request::Invoke { invocation } => RequestModel::Invoke {
                invocation: InvocationModel {
                    call: invocation.call@,
                    accounts: invocation.accounts@,
                    signer_seeds: seeds_view(invocation.signer_seeds@),
                },
            },
            Request::Done { result } => RequestModel::Done { result: *result },
        }
    }
}

/// Where an instruction stands: finished, or waiting for the answer to a request.
#[derive(Debug, Clone, Copy, PartialEq, Eq)]
pub enum Stage {
    Finished,
    AwaitMintRent,
    AwaitMintCreate,
    AwaitMintInitialize,
    AwaitReviewRent,
    AwaitReviewCreate,
    AwaitCounterRent,
    AwaitCounterCreate,
    AwaitReviewMint,
    AwaitCommentRent,
    AwaitCommentCreate,
    AwaitCommentMint,
}

/// An instruction in progress: its stage and what it has read or derived so far.
pub struct Run {
    pub stage: Stage,
    pub program_id: [u8; 32],
    pub title: String,
    pub description: String,
    pub comment: String,
    pub rating: u8,
    pub counter_discriminant: String,
    pub counter_initialized: bool,
    pub counter: u64,
    pub account_len: usize,
    pub pda: [u8; 32],
    pub bump: u8,
    pub counter_bump: u8,
    pub mint_bump: u8,
    pub mint_auth_bump: u8,
}

/// An instruction in progress as a mathematical value.
pub struct RunModel {
    pub stage: Stage,
    pub program_id: Seq<u8>,
    pub title: Seq<char>,
    pub description: Seq<char>,
    pub comment: Seq<char>,
    pub rating: u8,
    pub counter_discriminant: Seq<char>,
    pub counter_initialized: bool,
    pub counter: u64,
    pub account_len: usize,
    pub pda: Seq<u8>,
    pub bump: u8,
    pub counter_bump: u8,
    pub mint_bump: u8,
    pub mint_auth_bump: u8,
}

impl View for Run {
    type V = RunModel;

    open spec fn view(&self) -> RunModel {
        RunModel {
            stage: self.stage,
            program_id: self.program_id@,
            title: self.title@,
            description: self.description@,
            comment: self.comment@,
            rating: self.rating,
            counter_discriminant: self.counter_discriminant@,
            counter_initialized: self.counter_initialized,
            counter: self.counter,
            account_len: self.account_len,
            pda: self.pda@,
            bump: self.bump,
            counter_bump: self.counter_bump,
            mint_bump: self.mint_bump,
            mint_auth_bump: self.mint_auth_bump,
        }
    }
}

/// A finished instruction of the program `program_id` that has read nothing.
pub open spec fn initial_run(program_id: Seq<u8>) -> RunModel {
    RunModel {
        stage: Stage::Finished,
        program_id,
        title: Seq::empty(),
        description: Seq::empty(),
        comment: Seq::empty(),
        rating: 0,
        counter_discriminant: Seq::empty(),
        counter_initialized: false,
        counter: 0,
        account_len: 0,
        pda: program_id,
        bump: 0,
        counter_bump: 0,
        mint_bump: 0,
        mint_auth_bump: 0,
    }
}

impl Run {
    /// A finished instruction of the program `program_id` that has read nothing.
    pub fn new(program_id: &[u8; 32]) -> (r: Run)
        ensures
            r@ == initial_run(program_id@),
    {
        Run {
            stage: Stage::Finished,
            program_id: *program_id,
            title: String::new(),
            description: String::new(),
            comment: String::new(),
            rating: 0,
            counter_discriminant: String::new(),
            counter_initialized: false,
            counter: 0,
            account_len: 0,
            pda: *program_id,
            bump: 0,
            counter_bump: 0,
            mint_bump: 0,
            mint_auth_bump: 0,
        }
    }
}

/// One step of processing: the instruction's progress after it, the request
/// it ends with, and the accounts after the writes it made.
pub struct Step {
    pub run: RunModel,
    pub request: RequestModel,
    pub accounts: Seq<AccountModel>,
}

/// The step that ends the instruction with `result`.
pub open spec fn finish(run: RunModel, accounts: Seq<AccountModel>, result: Result<(), ProcessError>) -> Step {
    Step {
        run: RunModel { stage: Stage::Finished, ..run },
        request: RequestModel::Done { result },
        accounts,
    }
}

/// The step that asks for the rent of `space` bytes and waits at `stage`.
pub open spec fn ask_rent(run: RunModel, accounts: Seq<AccountModel>, stage: Stage, space: usize) -> Step {
    Step { run: RunModel { stage, ..run }, request: RequestModel::Rent { space }, accounts }
}

/// The step that asks for an invocation and waits at `stage`.
pub open spec fn ask_invoke(
    run: RunModel,
    accounts: Seq<AccountModel>,
    stage: Stage,
    call: CallModel,
    indices: Seq<usize>,
    signer_seeds: Seq<Seq<u8>>,
) -> Step {
    Step {
        run: RunModel { stage, ..run },
        request: RequestModel::Invoke {
            invocation: InvocationModel { call, accounts: indices, signer_seeds },
        },
        accounts,
    }
}

/// Whether an executable run, request and accounts are those of `s`.
pub open spec fn is_step(s: Step, run: Run, request: Request, accounts: Seq<Account>) -> bool {
    &&& run@ == s.run
    &&& request@ == s.request
    &&& accounts_view(accounts) == s.accounts
}

} // verus!
