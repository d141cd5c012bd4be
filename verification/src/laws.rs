//! Properties that hold of every instruction, proved from the step functions.
use crate::encoding::be_u64_bytes;
use crate::error::{ProcessError, ReviewError};
use crate::instruction::{read_instruction, InstructionView};
use crate::model::{with_data, AccountModel, CallModel, InvocationModel, RequestModel, RunModel, Stage};
use crate::outside::{
    associated_token_program_key, program_address, rent_sysvar_key, system_program_key,
    token_program_key,
};
use crate::steps::{
    comment_after_create, comment_after_rent, comment_seed, comment_start, mint_after_create,
    mint_after_rent, mint_authority_seed, mint_seed, mint_start, process_start,
    review_after_counter_create, new_comment, new_counter, new_review, next_counter,
    rating_valid, resume_step, review_account_size, review_after_create, review_start,
    update_result,
};
use crate::state::{
    lemma_comment_layout_len, lemma_comment_write_then_read, lemma_counter_layout_len,
    lemma_counter_write_then_read, lemma_discriminator_lengths, lemma_review_layout_len,
    lemma_review_write_then_read, overwrite, read_comment, read_counter, read_review, utf8_len, write_result,
    MovieAccountState, MovieComment, MovieCommentCounter, ReviewView,
};
use vstd::prelude::*;
use vstd::utf8::encode_utf8;

verus! {

/// Writing back data an account already holds leaves the accounts as they were.
proof fn lemma_with_same_data(a: Seq<AccountModel>, i: int)
    requires
        0 <= i < a.len(),
    ensures
        with_data(a, i, a[i].data) == a,
{
    assert(with_data(a, i, a[i].data) =~= a);
}

/// A successful update changes the data of the review account alone, and
/// reading the review back gives the stored review with the new rating and
/// description: its discriminant, author key, title and initialization stay.
pub proof fn law_update_changes_rating_and_description(
    pid: Seq<u8>,
    a: Seq<AccountModel>,
    rating: u8,
    description: Seq<char>,
)
    requires
        update_result(pid, a, rating, description).0 is Ok,
    ensures
        ({
            let a2 = update_result(pid, a, rating, description).1;
            &&& a2.len() == a.len()
            &&& forall|j: int| 0 <= j < a.len() && j != 1 ==> a2[j] == a[j]
            &&& a2[1].key == a[1].key && a2[1].owner == a[1].owner && a2[1].is_signer
                == a[1].is_signer
            &&& read_review(a[1].data) matches Some(st) && read_review(a2[1].data) == Some(
                ReviewView { rating, description, ..st },
            )
        }),
{
    let st = read_review(a[1].data)->0;
    let v = ReviewView { rating, description, ..st };
    lemma_review_write_then_read(v, a[1].data);
}

/// An update refused by any of its checks leaves every account as it was;
/// only a failed write (`BorshIoError`) leaves written bytes behind.
pub proof fn law_refused_update_changes_nothing(
    pid: Seq<u8>,
    a: Seq<AccountModel>,
    rating: u8,
    description: Seq<char>,
)
    requires
        update_result(pid, a, rating, description).0 is Err,
        update_result(pid, a, rating, description).0 != Err::<(), ProcessError>(
            ProcessError::BorshIoError,
        ),
    ensures
        update_result(pid, a, rating, description).1 == a,
{
    if a.len() >= 2 {
        lemma_with_same_data(a, 1);
    }
}

/// An update succeeds only when the review account is owned by the program,
/// the initializer signed, the stored review decodes, is initialized and
/// sits at the address derived from the initializer and its stored title,
/// and the new rating lies between 1 and 5.
pub proof fn law_update_guards(pid: Seq<u8>, a: Seq<AccountModel>, rating: u8, description: Seq<char>)
    requires
        update_result(pid, a, rating, description).0 is Ok,
    ensures
        a.len() >= 2,
        a[1].owner == pid,
        a[0].is_signer,
        rating_valid(rating),
        read_review(a[1].data) matches Some(st) && (st.is_initialized && (program_address(
            seq![a[0].key, encode_utf8(st.title)],
            pid,
        ) matches Some((pda, _)) && pda == a[1].key)),
{
}

/// `AddMovieReview` gets past its checks, and asks for the rent of the new
/// account, only when the initializer signed, the review account sits both
/// at the address derived from the initializer and the title and at the one
/// derived from itself and `"comment"`, the rating lies between 1 and 5, the
/// review's size is at most 1000 bytes and the last account is the token
/// program; the space asked for is that size.
pub proof fn law_review_start_guards(
    pid: Seq<u8>,
    a: Seq<AccountModel>,
    title: Seq<char>,
    rating: u8,
    description: Seq<char>,
)
    requires
        review_start(pid, a, title, rating, description).request is Rent,
    ensures
        a.len() >= 8,
        a[0].is_signer,
        rating_valid(rating),
        review_account_size(title, description) <= 1000,
        program_address(seq![a[0].key, encode_utf8(title)], pid) matches Some((pda, _)) && pda
            == a[1].key,
        program_address(seq![a[1].key, comment_seed()], pid) matches Some((c, _)) && c == a[1].key,
        a[7].key == token_program_key(),
        review_start(pid, a, title, rating, description).request == (RequestModel::Rent {
            space: review_account_size(title, description) as usize,
        }),
        review_start(pid, a, title, rating, description).accounts == a,
{
}

/// A new review never fits in an account of the size reserved for it: its
/// layout is 32 bytes longer, so writing it into the freshly created account
/// fills the account with as much of the review as fits, fails, and the
/// instruction ends with `BorshIoError`.
pub proof fn law_new_review_never_fits(run: RunModel, a: Seq<AccountModel>)
    requires
        a.len() >= 8,
        run.account_len == review_account_size(run.title, run.description),
        a[1].data.len() == run.account_len,
        read_review(a[1].data) matches Some(st) && !st.is_initialized,
    ensures
        review_after_create(run, a).request == (RequestModel::Done {
            result: Err(ProcessError::BorshIoError),
        }),
        review_after_create(run, a).accounts == with_data(
            a,
            1,
            overwrite(a[1].data, new_review(run, a[0].key).written()),
        ),
{
    let v = new_review(run, a[0].key);
    lemma_discriminator_lengths();
    if v.fits() {
        lemma_review_layout_len(v);
    }
}

/// A new comment never fits in an account of the size reserved for it: its
/// layout is one byte longer (the size counts the 6 bytes of `"review"` where
/// the layout holds the 7 of `"comment"`), so writing it fills the account
/// with all of the comment but its last byte, fails, and the instruction
/// ends with `BorshIoError`.
pub proof fn law_new_comment_never_fits(run: RunModel, a: Seq<AccountModel>)
    requires
        a.len() >= 9,
        run.account_len == 87 + utf8_len(run.comment),
        a[3].data.len() == run.account_len,
        read_comment(a[3].data) matches Some(c) && !c.is_initialized,
    ensures
        comment_after_create(run, a).request == (RequestModel::Done {
            result: Err(ProcessError::BorshIoError),
        }),
        comment_after_create(run, a).accounts == with_data(
            a,
            3,
            overwrite(a[3].data, new_comment(run, a, read_comment(a[3].data)->0.count).written()),
        ),
{
    let v = new_comment(run, a, read_comment(a[3].data)->0.count);
    lemma_discriminator_lengths();
    if v.fits() {
        lemma_comment_layout_len(v);
    }
}

/// A counter never fits in an account of the size reserved for counters:
/// 19 bytes, where its layout takes 20.
pub proof fn law_counter_never_fits(data: Seq<u8>)
    requires
        data.len() == 19,
    ensures
        write_result(new_counter().fits(), new_counter().written(), data).0 is Err,
{
    lemma_discriminator_lengths();
    if new_counter().fits() {
        lemma_counter_layout_len(new_counter());
    }
}

/// When writing the review succeeds, reading the review account back gives
/// the new review: discriminator `"review"`, the initializer as author,
/// initialized, with the title, rating and description of the instruction.
pub proof fn law_review_written_is_read_back(run: RunModel, a: Seq<AccountModel>)
    requires
        a.len() >= 8,
        review_after_create(run, a).request is Rent,
    ensures
        read_review(review_after_create(run, a).accounts[1].data) == Some(new_review(run, a[0].key)),
{
    let v = new_review(run, a[0].key);
    lemma_review_write_then_read(v, a[1].data);
}

/// When the comment step gets to minting, reading the comment account back
/// gives the new comment, and reading the counter account back gives the
/// counter read at the start, incremented.
pub proof fn law_comment_and_counter_read_back(run: RunModel, a: Seq<AccountModel>)
    requires
        a.len() >= 9,
        comment_after_create(run, a).request is Invoke,
    ensures
        read_comment(a[3].data) matches Some(old) && read_comment(
            comment_after_create(run, a).accounts[3].data,
        ) == Some(new_comment(run, a, old.count)),
        read_counter(comment_after_create(run, a).accounts[2].data) == Some(next_counter(run)),
{
    let old = read_comment(a[3].data)->0;
    let v = new_comment(run, a, old.count);
    lemma_comment_write_then_read(v, a[3].data);
    let a1 = with_data(a, 3, write_result(v.fits(), v.written(), a[3].data).1);
    lemma_counter_write_then_read(next_counter(run), a1[2].data);
}

/// A failure reported by the runtime ends the instruction with that
/// failure, and the step writes no account.
pub proof fn law_runtime_failure_ends_instruction(run: RunModel, a: Seq<AccountModel>, code: u64)
    ensures
        resume_step(run, a, Err(code)).request == (RequestModel::Done {
            result: Err(ProcessError::Raised(code)),
        }),
        resume_step(run, a, Err(code)).run.stage == Stage::Finished,
        resume_step(run, a, Err(code)).accounts == a,
{
}

/// Whether `b` holds the same accounts as `a`, with the same keys, owners,
/// signatures and data lengths: only the bytes of account data may differ.
pub open spec fn same_accounts_but_data(a: Seq<AccountModel>, b: Seq<AccountModel>) -> bool {
    &&& b.len() == a.len()
    &&& forall|j: int|
        0 <= j < a.len() ==> {
            &&& (#[trigger] b[j]).key == a[j].key
            &&& b[j].owner == a[j].owner
            &&& b[j].is_signer == a[j].is_signer
            &&& b[j].data.len() == a[j].data.len()
        }
}

/// Writing a value over an account's data keeps the account and its data length.
proof fn lemma_write_keeps_account(a: Seq<AccountModel>, i: int, fits: bool, bytes: Seq<u8>)
    requires
        0 <= i < a.len(),
    ensures
        same_accounts_but_data(a, with_data(a, i, write_result(fits, bytes, a[i].data).1)),
{
}

/// No step changes which accounts an instruction holds, their keys, owners,
/// signatures or data lengths: instructions only overwrite account data in place.
pub proof fn law_steps_change_only_data(run: RunModel, a: Seq<AccountModel>, outcome: Result<u64, u64>)
    ensures
        same_accounts_but_data(a, resume_step(run, a, outcome).accounts),
{
    if outcome is Ok && run.stage == Stage::AwaitReviewCreate && a.len() >= 8 {
        let v = new_review(run, a[0].key);
        lemma_write_keeps_account(a, 1, v.fits(), v.written());
    } else if outcome is Ok && run.stage == Stage::AwaitCounterCreate && a.len() >= 8 {
        let v = new_counter();
        lemma_write_keeps_account(a, 1, v.fits(), v.written());
    } else if outcome is Ok && run.stage == Stage::AwaitCommentCreate && a.len() >= 9 {
        if let Some(old) = read_comment(a[3].data) {
            let v = new_comment(run, a, old.count);
            lemma_write_keeps_account(a, 3, v.fits(), v.written());
            let a1 = with_data(a, 3, write_result(v.fits(), v.written(), a[3].data).1);
            let c = next_counter(run);
            lemma_write_keeps_account(a1, 2, c.fits(), c.written());
        }
    }
}

/// Starting an instruction likewise only overwrites account data in place.
pub proof fn law_start_changes_only_data(pid: Seq<u8>, a: Seq<AccountModel>, data: Seq<u8>)
    ensures
        same_accounts_but_data(a, process_start(pid, a, data).accounts),
{
    if let Ok(crate::instruction::InstructionView::UpdateMovieReview { title, rating, description }) =
        crate::instruction::read_instruction(data) {
        if a.len() >= 2 {
            if let Some(st) = read_review(a[1].data) {
                let v = ReviewView { rating, description, ..st };
                lemma_write_keeps_account(a, 1, v.fits(), v.written());
            }
        }
    }
}

/// `AddMovieReview` keeps the instruction's title, rating and description
/// for its later steps, and reserves `20 + title + description` bytes.
pub proof fn law_review_start_keeps_fields(
    pid: Seq<u8>,
    a: Seq<AccountModel>,
    title: Seq<char>,
    rating: u8,
    description: Seq<char>,
)
    requires
        review_start(pid, a, title, rating, description).request is Rent,
    ensures
        ({
            let run = review_start(pid, a, title, rating, description).run;
            &&& run.title == title
            &&& run.rating == rating
            &&& run.description == description
            &&& run.program_id == pid
            &&& run.stage == Stage::AwaitReviewRent
            &&& run.account_len == 20 + utf8_len(title) + utf8_len(description)
        }),
{
}

/// When the review is written, reading the review account back gives a
/// review with discriminator `"review"`, the initializer's key as author,
/// marked initialized, and the title, rating and description the
/// instruction carried.
pub proof fn law_review_written_carries_fields(run: RunModel, a: Seq<AccountModel>)
    requires
        a.len() >= 8,
        review_after_create(run, a).request is Rent,
    ensures
        read_review(review_after_create(run, a).accounts[1].data) matches Some(st) && (st.rating
            == run.rating && st.title == run.title && st.description == run.description
            && st.reviewer == a[0].key && st.is_initialized && st.discriminant
            == MovieAccountState::DISCRIMINATOR@),
{
    law_review_written_is_read_back(run, a);
}

/// An update whose checks all pass is carried out: with two accounts, the
/// review account owned by the program, a signing initializer, a stored
/// review that decodes, is initialized and sits at the address derived from
/// the initializer and its title, `6 + description + title` at most 1000
/// bytes and a rating from 1 to 5, the update succeeds exactly when the
/// updated review fits in the account (else `BorshIoError`), and reading the
/// account back then gives the stored review with the new rating and
/// description.
pub proof fn law_update_accepts_valid_updates(
    pid: Seq<u8>,
    a: Seq<AccountModel>,
    rating: u8,
    description: Seq<char>,
)
    requires
        a.len() >= 2,
        a[1].owner == pid,
        a[0].is_signer,
        read_review(a[1].data) matches Some(st) && (st.is_initialized && (program_address(
            seq![a[0].key, encode_utf8(st.title)],
            pid,
        ) matches Some((pda, _)) && pda == a[1].key) && 6 + utf8_len(description) + utf8_len(
            st.title,
        ) <= 1000),
        1 <= rating && rating <= 5,
    ensures
        ({
            let st = read_review(a[1].data)->0;
            let v = ReviewView { rating, description, ..st };
            let (r, a2) = update_result(pid, a, rating, description);
            &&& r == (if v.fits() && v.layout().len() <= a[1].data.len() {
                Ok::<(), ProcessError>(())
            } else {
                Err(ProcessError::BorshIoError)
            })
            &&& r is Ok ==> read_review(a2[1].data) == Some(v)
        }),
{
    let st = read_review(a[1].data)->0;
    let v = ReviewView { rating, description, ..st };
    if v.fits() && v.layout().len() <= a[1].data.len() {
        lemma_review_write_then_read(v, a[1].data);
    }
}

/// The number that four bytes at `pos` spell as a little-endian `u32`.
pub open spec fn le_number_at(d: Seq<u8>, pos: int) -> int {
    d[pos] as int + 0x100 * d[pos + 1] + 0x1_0000 * d[pos + 2] + 0x100_0000 * d[pos + 3]
}

/// A string read at `pos` is the UTF-8 text of the bytes after the four
/// that give its byte length, little-endian.
proof fn lemma_read_string_shape(d: Seq<u8>, pos: int)
    requires
        crate::encoding::read_string(d, pos) is Some,
    ensures
        crate::encoding::read_string(d, pos) matches Some((s, next)) && (0 <= pos && next == pos
            + 4 + utf8_len(s) && next <= d.len() && le_number_at(d, pos) == utf8_len(s)
            && d.subrange(pos + 4, next) == encode_utf8(s)),
{
    let w = d.subrange(pos, pos + 4);
    crate::encoding::law_le_u32_value_is_digits(w);
    let n = crate::encoding::le_u32_value(w) as int;
    let b = d.subrange(pos + 4, pos + 4 + n);
    vstd::utf8::decode_utf8_encode_utf8(b);
}

/// Bytes that give a string's byte length, little-endian, followed by its
/// UTF-8 text read back as that string.
proof fn lemma_read_string_from_shape(d: Seq<u8>, pos: int, s: Seq<char>)
    requires
        0 <= pos,
        pos + 4 + utf8_len(s) <= d.len(),
        le_number_at(d, pos) == utf8_len(s),
        d.subrange(pos + 4, pos + 4 + utf8_len(s)) == encode_utf8(s),
    ensures
        crate::encoding::read_string(d, pos) == Some((s, pos + 4 + utf8_len(s))),
{
    let w = d.subrange(pos, pos + 4);
    crate::encoding::law_le_u32_value_is_digits(w);
    vstd::utf8::encode_utf8_valid_utf8(s);
    vstd::utf8::encode_utf8_decode_utf8(s);
}

/// The bytes of a review instruction: the variant byte, the title's byte
/// length as a little-endian `u32` and its UTF-8 text, the rating byte, the
/// description's byte length and its text, and nothing more.
pub open spec fn review_instruction_bytes(
    d: Seq<u8>,
    variant: u8,
    title: Seq<char>,
    rating: u8,
    description: Seq<char>,
) -> bool {
    let lt = utf8_len(title);
    let ld = utf8_len(description);
    &&& d.len() == 10 + lt + ld
    &&& d[0] == variant
    &&& le_number_at(d, 1) == lt
    &&& d.subrange(5, 5 + lt) == encode_utf8(title)
    &&& d[5 + lt] == rating
    &&& le_number_at(d, 6 + lt) == ld
    &&& d.subrange(10 + lt, 10 + lt + ld) == encode_utf8(description)
}

/// The bytes of a comment instruction: 2, the comment's byte length as a
/// little-endian `u32`, its UTF-8 text, and nothing more.
pub open spec fn comment_instruction_bytes(d: Seq<u8>, comment: Seq<char>) -> bool {
    let lc = utf8_len(comment);
    &&& d.len() == 5 + lc
    &&& d[0] == 2
    &&& le_number_at(d, 1) == lc
    &&& d.subrange(5, 5 + lc) == encode_utf8(comment)
}

/// The review instructions decoded from instruction data carry exactly the
/// title, rating and description written in it: the rating is the byte
/// right after the title, untransformed.
pub proof fn law_review_instructions_read_their_bytes(d: Seq<u8>)
    ensures
        read_instruction(d) matches Ok(InstructionView::AddMovieReview { title, rating, description })
            ==> review_instruction_bytes(d, 0, title, rating, description),
        read_instruction(d) matches Ok(
            InstructionView::UpdateMovieReview { title, rating, description },
        ) ==> review_instruction_bytes(d, 1, title, rating, description),
        read_instruction(d) matches Ok(InstructionView::AddComment { comment })
            ==> comment_instruction_bytes(d, comment),
        read_instruction(d) matches Ok(InstructionView::InitializeMint) ==> d.len() > 0 && d[0]
            == 3,
{
    if d.len() > 0 && (d[0] == 0 || d[0] == 1 || d[0] == 2) {
        if crate::encoding::read_string(d, 1) is Some {
            lemma_read_string_shape(d, 1);
            let (t, p1) = crate::encoding::read_string(d, 1)->0;
            if crate::encoding::read_u8(d, p1) is Some && crate::encoding::read_string(d, p1 + 1) is Some {
                lemma_read_string_shape(d, p1 + 1);
            }
        }
    }
}

/// Every well-formed review or comment instruction decodes to the fields
/// written in it.
pub proof fn law_instruction_bytes_are_read(
    d: Seq<u8>,
    title: Seq<char>,
    rating: u8,
    description: Seq<char>,
    comment: Seq<char>,
)
    ensures
        review_instruction_bytes(d, 0, title, rating, description) ==> read_instruction(d) == Ok::<
            InstructionView,
            ProcessError,
        >(InstructionView::AddMovieReview { title, rating, description }),
        review_instruction_bytes(d, 1, title, rating, description) ==> read_instruction(d) == Ok::<
            InstructionView,
            ProcessError,
        >(InstructionView::UpdateMovieReview { title, rating, description }),
        comment_instruction_bytes(d, comment) ==> read_instruction(d) == Ok::<
            InstructionView,
            ProcessError,
        >(InstructionView::AddComment { comment }),
{
    let lt = utf8_len(title);
    if review_instruction_bytes(d, 0, title, rating, description) || review_instruction_bytes(
        d,
        1,
        title,
        rating,
        description,
    ) {
        lemma_read_string_from_shape(d, 1, title);
        lemma_read_string_from_shape(d, 6 + lt, description);
    }
    if comment_instruction_bytes(d, comment) {
        lemma_read_string_from_shape(d, 1, comment);
    }
}

/// `AddComment` starts from the counter stored in the counter account: it
/// keeps that counter and the instruction's comment, and asks for the rent
/// of `87 + comment` bytes.
pub proof fn law_comment_start_reads_counter(pid: Seq<u8>, a: Seq<AccountModel>, comment: Seq<char>)
    requires
        comment_start(pid, a, comment).request is Rent,
    ensures
        ({
            let run = comment_start(pid, a, comment).run;
            &&& a.len() >= 9
            &&& read_counter(a[2].data) matches Some(c) && (run.counter == c.counter
                && run.counter_discriminant == c.discriminant && run.counter_initialized
                == c.is_initialized)
            &&& run.comment == comment
            &&& run.stage == Stage::AwaitCommentRent
            &&& comment_start(pid, a, comment).request == (RequestModel::Rent {
                space: (87 + utf8_len(comment)) as usize,
            })
        }),
{
}

/// The comment account is created only at the address derived from the
/// review's key and the counter's big-endian bytes, signed with those seeds
/// and the bump found; any other comment account is refused as `InvalidPDA`.
pub proof fn law_comment_address_from_counter(run: RunModel, a: Seq<AccountModel>, lamports: u64)
    requires
        a.len() >= 9,
    ensures
        program_address(seq![a[1].key, be_u64_bytes(run.counter)], run.program_id) matches Some(
            (pda, bump),
        ) ==> if pda == a[3].key {
            comment_after_rent(run, a, lamports).request == (RequestModel::Invoke {
                invocation: InvocationModel {
                    call: CallModel::CreateAccount {
                        from: a[0].key,
                        to: a[3].key,
                        lamports,
                        space: run.account_len as u64,
                        owner: run.program_id,
                    },
                    accounts: seq![0usize, 3, 4],
                    signer_seeds: seq![a[1].key, be_u64_bytes(run.counter), seq![bump]],
                },
            })
        } else {
            comment_after_rent(run, a, lamports).request == (RequestModel::Done {
                result: Err(ProcessError::Review(ReviewError::InvalidPDA)),
            })
        },
{
}

/// When the comment step gets to minting, the comment account holds the
/// instruction's comment, by the commenter, on the review, initialized, with
/// the count it held before; the counter account holds the counter read at
/// the start plus one (modulo 2^64), its other fields kept; and the request
/// mints 5 tokens (5 * 10^9 base units) to the commenter's token account.
pub proof fn law_comment_step_stores_and_counts(run: RunModel, a: Seq<AccountModel>)
    requires
        a.len() >= 9,
        comment_after_create(run, a).request is Invoke,
    ensures
        ({
            let out = comment_after_create(run, a);
            &&& read_comment(out.accounts[3].data) matches Some(c) && (c.comment == run.comment
                && c.review == a[1].key && c.commenter == a[0].key && c.is_initialized
                && c.discriminant == MovieComment::DISCRIMINATOR@ && c.count == read_comment(
                a[3].data,
            )->0.count)
            &&& read_counter(out.accounts[2].data) matches Some(k) && (k.counter as int == (
            run.counter as int + 1) % 0x1_0000_0000_0000_0000 && k.discriminant
                == run.counter_discriminant && k.is_initialized == run.counter_initialized)
            &&& out.request matches RequestModel::Invoke { invocation } && invocation.call
                == (CallModel::MintTo {
                token_program: a[8].key,
                mint: a[5].key,
                destination: a[7].key,
                authority: a[6].key,
                amount: 5_000_000_000,
            })
        }),
{
    law_comment_and_counter_read_back(run, a);
}

/// When `AddMovieReview` gets to minting, it has written a zero, initialized
/// counter with discriminator `"counter"` over the review account, and mints
/// 10 tokens (10 * 10^9 base units) to the initializer's token account.
pub proof fn law_review_mints_ten_tokens(run: RunModel, a: Seq<AccountModel>)
    requires
        a.len() >= 8,
        review_after_counter_create(run, a).request is Invoke,
    ensures
        ({
            let out = review_after_counter_create(run, a);
            &&& read_counter(out.accounts[1].data) matches Some(k) && (k.counter == 0
                && k.is_initialized && k.discriminant == MovieCommentCounter::DISCRIMINATOR@)
            &&& out.request matches RequestModel::Invoke { invocation } && invocation.call
                == (CallModel::MintTo {
                token_program: a[7].key,
                mint: a[4].key,
                destination: a[6].key,
                authority: a[5].key,
                amount: 10_000_000_000,
            })
        }),
{
    lemma_counter_write_then_read(new_counter(), a[1].data);
}

/// `InitializeMint` gets past its checks exactly when six accounts are
/// given, the mint and mint authority are at the addresses derived from
/// `"token_mint"` and `"token_auth"`, and the system program, token program
/// and rent sysvar come fourth, fifth and sixth; it then asks for the rent of
/// 82 bytes, and creates the mint owned by the account checked as the token
/// program, with 9 decimals.
pub proof fn law_mint_checks(pid: Seq<u8>, a: Seq<AccountModel>, lamports: u64)
    ensures
        (mint_start(pid, a).request is Rent) == (a.len() >= 6 && (program_address(
            seq![mint_seed()],
            pid,
        ) matches Some((m, _)) && m == a[1].key) && (program_address(
            seq![mint_authority_seed()],
            pid,
        ) matches Some((au, _)) && au == a[2].key) && a[3].key == system_program_key() && a[4].key
            == token_program_key() && a[5].key == rent_sysvar_key()),
        mint_start(pid, a).request is Rent ==> mint_start(pid, a).request == (RequestModel::Rent {
            space: 82,
        }),
        a.len() >= 6 && a[4].key == token_program_key() ==> (mint_after_rent(
            mint_start(pid, a).run,
            a,
            lamports,
        ).request matches RequestModel::Invoke { invocation } && invocation.call
            == (CallModel::CreateAccount {
            from: a[0].key,
            to: a[1].key,
            lamports,
            space: 82,
            owner: token_program_key(),
        })),
        a.len() >= 6 ==> (mint_after_create(mint_start(pid, a).run, a).request matches RequestModel::Invoke {
            invocation,
        } && invocation.call == (CallModel::InitializeMint {
            token_program: a[4].key,
            mint: a[1].key,
            mint_authority: a[2].key,
            decimals: 9,
        })),
{
}

/// `AddMovieReview` gets past its checks whenever all of them pass: eight
/// accounts, the review account at the address derived from itself and
/// `"comment"` and at the one derived from the initializer and the title,
/// a signing initializer, a rating from 1 to 5, a size of at most 1000
/// bytes, the mint, the mint authority and the initializer's token account
/// at their derived addresses, and the token program last.
pub proof fn law_review_start_accepts_valid(
    pid: Seq<u8>,
    a: Seq<AccountModel>,
    title: Seq<char>,
    rating: u8,
    description: Seq<char>,
)
    requires
        a.len() >= 8,
        a[0].is_signer,
        program_address(seq![a[1].key, comment_seed()], pid) matches Some((c, _)) && c == a[1].key,
        program_address(seq![a[0].key, encode_utf8(title)], pid) matches Some((p, _)) && p
            == a[1].key,
        1 <= rating && rating <= 5,
        20 + utf8_len(title) + utf8_len(description) <= 1000,
        program_address(seq![mint_seed()], pid) matches Some((m, _)) && m == a[4].key,
        program_address(seq![mint_authority_seed()], pid) matches Some((au, _)) && au == a[5].key,
        program_address(seq![a[0].key, token_program_key(), a[4].key], associated_token_program_key())
            matches Some((t, _)) && t == a[6].key,
        a[7].key == token_program_key(),
    ensures
        review_start(pid, a, title, rating, description).request == (RequestModel::Rent {
            space: (20 + utf8_len(title) + utf8_len(description)) as usize,
        }),
{
}

/// The position of a stage within its instruction.
pub open spec fn stage_rank(stage: Stage) -> int {
    match stage {
        Stage::Finished => 0,
        Stage::AwaitMintRent | Stage::AwaitReviewRent | Stage::AwaitCommentRent => 1,
        Stage::AwaitMintCreate | Stage::AwaitReviewCreate | Stage::AwaitCommentCreate => 2,
        Stage::AwaitMintInitialize | Stage::AwaitCounterRent | Stage::AwaitCommentMint => 3,
        Stage::AwaitCounterCreate => 4,
        Stage::AwaitReviewMint => 5,
    }
}

/// Every step finishes the instruction or moves it to a later stage of the
/// same instruction, so an instruction ends after at most five answers; a
/// finished instruction stays finished.
pub proof fn law_every_step_progresses(run: RunModel, a: Seq<AccountModel>, outcome: Result<u64, u64>)
    ensures
        resume_step(run, a, outcome).run.stage == Stage::Finished || stage_rank(
            resume_step(run, a, outcome).run.stage,
        ) > stage_rank(run.stage),
        stage_rank(run.stage) <= 5,
{
}

} // verus!
