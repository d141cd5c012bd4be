//! The state kept in program accounts: reviews, comment counters and
//! comments, with the byte layout in which accounts hold them.
use crate::encoding::{
    lemma_read_bool_layout, lemma_read_key_layout, lemma_read_string_layout, lemma_read_u64_layout,
    bool_layout, le_u64_bytes, push_bool, push_string, push_u64_le, read_bool, read_key, read_string,
    read_u64, read_u8, string_fits, string_layout, take_bool, take_key, take_string, take_u64,
    take_u8,
};
use crate::error::ProcessError;
use vstd::prelude::*;
use vstd::string::StringSliceAdditionalSpecFns;
use vstd::utf8::encode_utf8;

verus! {

/// A movie review.
pub struct MovieAccountState {
    pub discriminant: String,
    pub reviewer: [u8; 32],
    pub is_initialized: bool,
    pub rating: u8,
    pub title: String,
    pub description: String,
}

/// The number of comments left on one review.
pub struct MovieCommentCounter {
    pub discriminant: String,
    pub is_initialized: bool,
    pub counter: u64,
}

/// A comment on a review.
pub struct MovieComment {
    pub discriminant: String,
    pub is_initialized: bool,
    pub review: [u8; 32],
    pub commenter: [u8; 32],
    pub comment: String,
    pub count: u64,
}

/// A review as a mathematical value.
pub struct ReviewView {
    pub discriminant: Seq<char>,
    pub reviewer: Seq<u8>,
    pub is_initialized: bool,
    pub rating: u8,
    pub title: Seq<char>,
    pub description: Seq<char>,
}

/// A comment counter as a mathematical value.
pub struct CounterView {
    pub discriminant: Seq<char>,
    pub is_initialized: bool,
    pub counter: u64,
}

/// A comment as a mathematical value.
pub struct CommentView {
    pub discriminant: Seq<char>,
    pub is_initialized: bool,
    pub review: Seq<u8>,
    pub commenter: Seq<u8>,
    pub comment: Seq<char>,
    pub count: u64,
}

impl View for MovieAccountState {
    type V = ReviewView;

    open spec fn view(&self) -> ReviewView {
        ReviewView {
            discriminant: self.discriminant@,
            reviewer: self.reviewer@,
            is_initialized: self.is_initialized,
            rating: self.rating,
            title: self.title@,
            description: self.description@,
        }
    }
}

impl View for MovieCommentCounter {
    type V = CounterView;

    open spec fn view(&self) -> CounterView {
        CounterView {
            discriminant: self.discriminant@,
            is_initialized: self.is_initialized,
            counter: self.counter,
        }
    }
}

impl View for MovieComment {
    type V = CommentView;

    open spec fn view(&self) -> CommentView {
        CommentView {
            discriminant: self.discriminant@,
            is_initialized: self.is_initialized,
            review: self.review@,
            commenter: self.commenter@,
            comment: self.comment@,
            count: self.count,
        }
    }
}

/// The number of UTF-8 bytes of a string.
pub open spec fn utf8_len(s: Seq<char>) -> int {
    encode_utf8(s).len() as int
}

impl ReviewView {
    /// Every string's UTF-8 length fits in a `u32`, and the key has 32 bytes.
    pub open spec fn fits(self) -> bool {
        &&& string_fits(self.discriminant)
        &&& self.reviewer.len() == 32
        &&& string_fits(self.title)
        &&& string_fits(self.description)
    }

    /// The fields in declaration order, each in its layout.
    pub open spec fn layout(self) -> Seq<u8> {
        string_layout(self.discriminant) + self.reviewer + bool_layout(self.is_initialized) + seq![
            self.rating,
        ] + string_layout(self.title) + string_layout(self.description)
    }
}

impl ReviewView {
    /// The bytes serialization writes before it stops: every field in its
    /// layout, up to the first string whose UTF-8 length does not fit in a
    /// `u32`, which it refuses before writing any of that string.
    pub open spec fn written(self) -> Seq<u8> {
        if !string_fits(self.discriminant) {
            Seq::empty()
        } else if !string_fits(self.title) {
            string_layout(self.discriminant) + self.reviewer + bool_layout(self.is_initialized)
                + seq![self.rating]
        } else if !string_fits(self.description) {
            string_layout(self.discriminant) + self.reviewer + bool_layout(self.is_initialized)
                + seq![self.rating] + string_layout(self.title)
        } else {
            self.layout()
        }
    }
}

impl CounterView {
    /// The bytes serialization writes before it stops (see `ReviewView::written`).
    pub open spec fn written(self) -> Seq<u8> {
        if !string_fits(self.discriminant) {
            Seq::empty()
        } else {
            self.layout()
        }
    }
}

impl CommentView {
    /// The bytes serialization writes before it stops (see `ReviewView::written`).
    pub open spec fn written(self) -> Seq<u8> {
        if !string_fits(self.discriminant) {
            Seq::empty()
        } else if !string_fits(self.comment) {
            string_layout(self.discriminant) + bool_layout(self.is_initialized) + self.review
                + self.commenter
        } else {
            self.layout()
        }
    }
}

impl CounterView {
    /// The discriminant's UTF-8 length fits in a `u32`.
    pub open spec fn fits(self) -> bool {
        string_fits(self.discriminant)
    }

    /// The fields in declaration order, each in its layout.
    pub open spec fn layout(self) -> Seq<u8> {
        string_layout(self.discriminant) + bool_layout(self.is_initialized) + le_u64_bytes(
            self.counter,
        )
    }
}

impl CommentView {
    /// Every string's UTF-8 length fits in a `u32`, and the keys have 32 bytes.
    pub open spec fn fits(self) -> bool {
        &&& string_fits(self.discriminant)
        &&& self.review.len() == 32
        &&& self.commenter.len() == 32
        &&& string_fits(self.comment)
    }

    /// The fields in declaration order, each in its layout.
    pub open spec fn layout(self) -> Seq<u8> {
        string_layout(self.discriminant) + bool_layout(self.is_initialized) + self.review
            + self.commenter + string_layout(self.comment) + le_u64_bytes(self.count)
    }
}

/// Decodes a review from the start of `d`; bytes after it are ignored.
pub open spec fn read_review(d: Seq<u8>) -> Option<ReviewView> {
    match read_string(d, 0) {
        Some((discriminant, p1)) => match read_key(d, p1) {
            Some((reviewer, p2)) => match read_bool(d, p2) {
                Some((is_initialized, p3)) => match read_u8(d, p3) {
                    Some((rating, p4)) => match read_string(d, p4) {
                        Some((title, p5)) => match read_string(d, p5) {
                            Some((description, _)) => Some(
                                ReviewView {
                                    discriminant,
                                    reviewer,
                                    is_initialized,
                                    rating,
                                    title,
                                    description,
                                },
                            ),
                            None => None,
                        },
                        None => None,
                    },
                    None => None,
                },
                None => None,
            },
            None => None,
        },
        None => None,
    }
}

/// Decodes a comment counter from the start of `d`; bytes after it are ignored.
pub open spec fn read_counter(d: Seq<u8>) -> Option<CounterView> {
    match read_string(d, 0) {
        Some((discriminant, p1)) => match read_bool(d, p1) {
            Some((is_initialized, p2)) => match read_u64(d, p2) {
                Some((counter, _)) => Some(CounterView { discriminant, is_initialized, counter }),
                None => None,
            },
            None => None,
        },
        None => None,
    }
}

/// Decodes a comment from the start of `d`; bytes after it are ignored.
pub open spec fn read_comment(d: Seq<u8>) -> Option<CommentView> {
    match read_string(d, 0) {
        Some((discriminant, p1)) => match read_bool(d, p1) {
            Some((is_initialized, p2)) => match read_key(d, p2) {
                Some((review, p3)) => match read_key(d, p3) {
                    Some((commenter, p4)) => match read_string(d, p4) {
                        Some((comment, p5)) => match read_u64(d, p5) {
                            Some((count, _)) => Some(
                                CommentView {
                                    discriminant,
                                    is_initialized,
                                    review,
                                    commenter,
                                    comment,
                                    count,
                                },
                            ),
                            None => None,
                        },
                        None => None,
                    },
                    None => None,
                },
                None => None,
            },
            None => None,
        },
        None => None,
    }
}

/// The view of a decoded review, if any.
pub open spec fn review_opt_view(r: Option<MovieAccountState>) -> Option<ReviewView> {
    match r {
        Some(s) => Some(s@),
        None => None,
    }
}

/// The view of a decoded counter, if any.
pub open spec fn counter_opt_view(r: Option<MovieCommentCounter>) -> Option<CounterView> {
    match r {
        Some(s) => Some(s@),
        None => None,
    }
}

/// The view of a decoded comment, if any.
pub open spec fn comment_opt_view(r: Option<MovieComment>) -> Option<CommentView> {
    match r {
        Some(s) => Some(s@),
        None => None,
    }
}

/// `data` after the bytes `written` are copied over its start, as many as fit.
pub open spec fn overwrite(data: Seq<u8>, written: Seq<u8>) -> Seq<u8> {
    if written.len() <= data.len() {
        written + data.skip(written.len() as int)
    } else {
        written.take(data.len() as int)
    }
}

/// What serializing a value into an account's data does, given whether all
/// its strings can be laid out and the bytes it writes before stopping: the
/// bytes are copied over the start of the data, as many as fit, and the
/// write succeeds only when all of it was written.
pub open spec fn write_result(complete: bool, written: Seq<u8>, data: Seq<u8>) -> (
    Result<(), ProcessError>,
    Seq<u8>,
) {
    (
        if complete && written.len() <= data.len() {
            Ok(())
        } else {
            Err(ProcessError::BorshIoError)
        },
        overwrite(data, written),
    )
}

/// Copies as much of `bytes` as fits over the start of `data`.
fn overwrite_prefix(data: &mut Vec<u8>, bytes: &Vec<u8>)
    ensures
        final(data)@ == overwrite(old(data)@, bytes@),
{
    let n = if bytes.len() <= data.len() {
        bytes.len()
    } else {
        data.len()
    };
    for i in 0..n
        invariant
            n <= bytes@.len(),
            n <= data@.len(),
            n == bytes@.len() || n == data@.len(),
            data@.len() == old(data)@.len(),
            forall|j: int| 0 <= j < i ==> data@[j] == bytes@[j],
            forall|j: int| i <= j < data@.len() ==> data@[j] == old(data)@[j],
    {
        data[i] = bytes[i];
    }
    assert(data@ =~= overwrite(old(data)@, bytes@));
}

/// Writes `bytes` over the start of `data`; the write succeeds when they
/// are complete and all fit.
fn write_layout(bytes: Vec<u8>, complete: bool, data: &mut Vec<u8>) -> (r: Result<(), ProcessError>)
    ensures
        (r, final(data)@) == write_result(complete, bytes@, old(data)@),
{
    let fits = bytes.len() <= data.len();
    overwrite_prefix(data, &bytes);
    if complete && fits {
        Ok(())
    } else {
        Err(ProcessError::BorshIoError)
    }
}

/// Appends a 32-byte key.
fn push_key(out: &mut Vec<u8>, k: &[u8; 32])
    ensures
        final(out)@ == old(out)@ + k@,
{
    let ghost start = out@;
    for i in 0..32
        invariant
            out@ == start + k@.subrange(0, i as int),
    {
        out.push(k[i]);
        assert(k@.subrange(0, i + 1) =~= k@.subrange(0, i as int).push(k@[i as int]));
    }
    assert(k@.subrange(0, 32) =~= k@);
}

impl MovieAccountState {
    pub const DISCRIMINATOR: &'static str = "review";

    /// Space reserved for a review account with this title and description:
    /// `(4 + 6) + 1 + 1 + (4 + title) + (4 + description)` bytes, where the
    /// lengths are UTF-8 byte counts.
    pub fn get_account_size(title: String, description: String) -> (size: usize)
        requires
            20 + utf8_len(title@) + utf8_len(description@) <= usize::MAX,
        ensures
            size == 20 + utf8_len(title@) + utf8_len(description@),
    {
        let d = MovieAccountState::DISCRIMINATOR;
        proof {
            lemma_discriminator_lengths();
        }
        (4 + d.len()) + 1 + 1 + (4 + title.as_str().len()) + (4 + description.as_str().len())
    }

    /// Whether the account holds an initialized review.
    pub fn is_initialized(&self) -> (b: bool)
        ensures
            b == self.is_initialized,
    {
        self.is_initialized
    }

    /// The bytes that serializing this review writes, and whether they are
    /// all of it: serialization stops before a string whose UTF-8 length
    /// does not fit in a `u32`.
    pub fn serialize(&self) -> (r: (Vec<u8>, bool))
        ensures
            r.0@ == self@.written(),
            r.1 == self@.fits(),
    {
        let mut out: Vec<u8> = Vec::new();
        if !push_string(&mut out, self.discriminant.as_str()) {
            return (out, false);
        }
        push_key(&mut out, &self.reviewer);
        push_bool(&mut out, self.is_initialized);
        out.push(self.rating);
        if !push_string(&mut out, self.title.as_str()) {
            assert(out@ =~= self@.written());
            return (out, false);
        }
        if !push_string(&mut out, self.description.as_str()) {
            assert(out@ =~= self@.written());
            return (out, false);
        }
        assert(out@ =~= self@.layout());
        (out, true)
    }

    /// The bytes of this review in account layout; `None` when a string's
    /// UTF-8 length does not fit in a `u32`.
    pub fn pack(&self) -> (r: Option<Vec<u8>>)
        ensures
            r is Some <==> self@.fits(),
            r matches Some(b) ==> b@ == self@.layout(),
    {
        let (out, complete) = self.serialize();
        if complete {
            Some(out)
        } else {
            None
        }
    }

    /// Decodes a review from the start of `data`, ignoring what follows it.
    pub fn unpack(data: &[u8]) -> (r: Option<MovieAccountState>)
        ensures
            review_opt_view(r) == read_review(data@),
    {
        let (discriminant, p1) = match take_string(data, 0) {
            Some(x) => x,
            None => return None,
        };
        let (reviewer, p2) = match take_key(data, p1) {
            Some(x) => x,
            None => return None,
        };
        let (is_initialized, p3) = match take_bool(data, p2) {
            Some(x) => x,
            None => return None,
        };
        let (rating, p4) = match take_u8(data, p3) {
            Some(x) => x,
            None => return None,
        };
        let (title, p5) = match take_string(data, p4) {
            Some(x) => x,
            None => return None,
        };
        let (description, _p6) = match take_string(data, p5) {
            Some(x) => x,
            None => return None,
        };
        Some(MovieAccountState { discriminant, reviewer, is_initialized, rating, title, description })
    }

    /// Serializes this review over the start of `data`, keeping the bytes
    /// after it; when it fails, the bytes written before it stopped stay written.
    pub fn write_into(&self, data: &mut Vec<u8>) -> (r: Result<(), ProcessError>)
        ensures
            (r, final(data)@) == write_result(self@.fits(), self@.written(), old(data)@),
    {
        let (bytes, complete) = self.serialize();
        write_layout(bytes, complete, data)
    }
}

impl MovieCommentCounter {
    pub const DISCRIMINATOR: &'static str = "counter";

    /// Space reserved for a counter account: `(4 + 6) + 1 + 8` bytes, the 6
    /// being the length of the review discriminator.
    pub fn get_account_size() -> (size: usize)
        ensures
            size == 19,
    {
        let d = MovieAccountState::DISCRIMINATOR;
        proof {
            lemma_discriminator_lengths();
        }
        (4 + d.len()) + 1 + 8
    }

    /// Whether the account holds an initialized counter.
    pub fn is_initialized(&self) -> (b: bool)
        ensures
            b == self.is_initialized,
    {
        self.is_initialized
    }

    /// The bytes that serializing this counter writes, and whether they are
    /// all of it (see `MovieAccountState::serialize`).
    pub fn serialize(&self) -> (r: (Vec<u8>, bool))
        ensures
            r.0@ == self@.written(),
            r.1 == self@.fits(),
    {
        let mut out: Vec<u8> = Vec::new();
        if !push_string(&mut out, self.discriminant.as_str()) {
            return (out, false);
        }
        push_bool(&mut out, self.is_initialized);
        push_u64_le(&mut out, self.counter);
        assert(out@ =~= self@.layout());
        (out, true)
    }

    /// The bytes of this counter in account layout; `None` when the
    /// discriminant's UTF-8 length does not fit in a `u32`.
    pub fn pack(&self) -> (r: Option<Vec<u8>>)
        ensures
            r is Some <==> self@.fits(),
            r matches Some(b) ==> b@ == self@.layout(),
    {
        let (out, complete) = self.serialize();
        if complete {
            Some(out)
        } else {
            None
        }
    }

    /// Decodes a counter from the start of `data`, ignoring what follows it.
    pub fn unpack(data: &[u8]) -> (r: Option<MovieCommentCounter>)
        ensures
            counter_opt_view(r) == read_counter(data@),
    {
        let (discriminant, p1) = match take_string(data, 0) {
            Some(x) => x,
            None => return None,
        };
        let (is_initialized, p2) = match take_bool(data, p1) {
            Some(x) => x,
            None => return None,
        };
        let (counter, _p3) = match take_u64(data, p2) {
            Some(x) => x,
            None => return None,
        };
        Some(MovieCommentCounter { discriminant, is_initialized, counter })
    }

    /// Serializes this counter over the start of `data`, keeping the bytes
    /// after it; when it fails, the bytes written before it stopped stay written.
    pub fn write_into(&self, data: &mut Vec<u8>) -> (r: Result<(), ProcessError>)
        ensures
            (r, final(data)@) == write_result(self@.fits(), self@.written(), old(data)@),
    {
        let (bytes, complete) = self.serialize();
        write_layout(bytes, complete, data)
    }
}

impl MovieComment {
    pub const DISCRIMINATOR: &'static str = "comment";

    /// Space reserved for a comment account: `(4 + 6) + 1 + 32 + 32 + (4 +
    /// comment) + 8` bytes, the 6 being the length of the review discriminator.
    pub fn get_account_size(comment: String) -> (size: usize)
        requires
            87 + utf8_len(comment@) <= usize::MAX,
        ensures
            size == 87 + utf8_len(comment@),
    {
        let d = MovieAccountState::DISCRIMINATOR;
        proof {
            lemma_discriminator_lengths();
        }
        (4 + d.len()) + 1 + 32 + 32 + (4 + comment.as_str().len()) + 8
    }

    /// Whether the account holds an initialized comment.
    pub fn is_initialized(&self) -> (b: bool)
        ensures
            b == self.is_initialized,
    {
        self.is_initialized
    }

    /// The bytes that serializing this comment writes, and whether they are
    /// all of it (see `MovieAccountState::serialize`).
    pub fn serialize(&self) -> (r: (Vec<u8>, bool))
        ensures
            r.0@ == self@.written(),
            r.1 == self@.fits(),
    {
        let mut out: Vec<u8> = Vec::new();
        if !push_string(&mut out, self.discriminant.as_str()) {
            return (out, false);
        }
        push_bool(&mut out, self.is_initialized);
        push_key(&mut out, &self.review);
        push_key(&mut out, &self.commenter);
        if !push_string(&mut out, self.comment.as_str()) {
            assert(out@ =~= self@.written());
            return (out, false);
        }
        push_u64_le(&mut out, self.count);
        assert(out@ =~= self@.layout());
        (out, true)
    }

    /// The bytes of this comment in account layout; `None` when a string's
    /// UTF-8 length does not fit in a `u32`.
    pub fn pack(&self) -> (r: Option<Vec<u8>>)
        ensures
            r is Some <==> self@.fits(),
            r matches Some(b) ==> b@ == self@.layout(),
    {
        let (out, complete) = self.serialize();
        if complete {
            Some(out)
        } else {
            None
        }
    }

    /// Decodes a comment from the start of `data`, ignoring what follows it.
    pub fn unpack(data: &[u8]) -> (r: Option<MovieComment>)
        ensures
            comment_opt_view(r) == read_comment(data@),
    {
        let (discriminant, p1) = match take_string(data, 0) {
            Some(x) => x,
            None => return None,
        };
        let (is_initialized, p2) = match take_bool(data, p1) {
            Some(x) => x,
            None => return None,
        };
        let (review, p3) = match take_key(data, p2) {
            Some(x) => x,
            None => return None,
        };
        let (commenter, p4) = match take_key(data, p3) {
            Some(x) => x,
            None => return None,
        };
        let (comment, p5) = match take_string(data, p4) {
            Some(x) => x,
            None => return None,
        };
        let (count, _p6) = match take_u64(data, p5) {
            Some(x) => x,
            None => return None,
        };
        Some(MovieComment { discriminant, is_initialized, review, commenter, comment, count })
    }

    /// Serializes this comment over the start of `data`, keeping the bytes
    /// after it; when it fails, the bytes written before it stopped stay written.
    pub fn write_into(&self, data: &mut Vec<u8>) -> (r: Result<(), ProcessError>)
        ensures
            (r, final(data)@) == write_result(self@.fits(), self@.written(), old(data)@),
    {
        let (bytes, complete) = self.serialize();
        write_layout(bytes, complete, data)
    }
}

/// The three discriminators are ASCII, so their UTF-8 lengths are their
/// character counts: 6, 7 and 7.
pub proof fn lemma_discriminator_lengths()
    ensures
        MovieAccountState::DISCRIMINATOR.spec_bytes().len() == 6,
        MovieAccountState::DISCRIMINATOR@.len() == 6,
        MovieCommentCounter::DISCRIMINATOR.spec_bytes().len() == 7,
        MovieComment::DISCRIMINATOR.spec_bytes().len() == 7,
        utf8_len(MovieAccountState::DISCRIMINATOR@) == 6,
        utf8_len(MovieCommentCounter::DISCRIMINATOR@) == 7,
        utf8_len(MovieComment::DISCRIMINATOR@) == 7,
{
    let r = MovieAccountState::DISCRIMINATOR;
    let c = MovieCommentCounter::DISCRIMINATOR;
    let m = MovieComment::DISCRIMINATOR;
    reveal_strlit("review");
    reveal_strlit("counter");
    reveal_strlit("comment");
    assert(vstd::utf8::is_ascii_chars(r@));
    assert(vstd::utf8::is_ascii_chars(c@));
    assert(vstd::utf8::is_ascii_chars(m@));
    vstd::utf8::is_ascii_chars_encode_utf8(r@);
    vstd::utf8::is_ascii_chars_encode_utf8(c@);
    vstd::utf8::is_ascii_chars_encode_utf8(m@);
}

/// The length of a review's layout: 4 + discriminant + 32 + 1 + 1 + (4 +
/// title) + (4 + description) bytes, lengths counted in UTF-8 bytes.
pub proof fn lemma_review_layout_len(v: ReviewView)
    requires
        v.fits(),
    ensures
        v.layout().len() == 46 + utf8_len(v.discriminant) + utf8_len(v.title) + utf8_len(
            v.description,
        ),
{
    lemma_read_string_layout(v.discriminant, Seq::empty(), Seq::empty());
    lemma_read_string_layout(v.title, Seq::empty(), Seq::empty());
    lemma_read_string_layout(v.description, Seq::empty(), Seq::empty());
}

/// The length of a counter's layout: 4 + discriminant + 1 + 8 bytes.
pub proof fn lemma_counter_layout_len(v: CounterView)
    requires
        v.fits(),
    ensures
        v.layout().len() == 13 + utf8_len(v.discriminant),
{
    lemma_read_string_layout(v.discriminant, Seq::empty(), Seq::empty());
    crate::encoding::lemma_le_u64_roundtrip(v.counter);
}

/// The length of a comment's layout: 4 + discriminant + 1 + 32 + 32 + (4 +
/// comment) + 8 bytes.
pub proof fn lemma_comment_layout_len(v: CommentView)
    requires
        v.fits(),
    ensures
        v.layout().len() == 81 + utf8_len(v.discriminant) + utf8_len(v.comment),
{
    lemma_read_string_layout(v.discriminant, Seq::empty(), Seq::empty());
    lemma_read_string_layout(v.comment, Seq::empty(), Seq::empty());
    crate::encoding::lemma_le_u64_roundtrip(v.count);
}

/// Decoding the layout of a review gives the review back, whatever bytes
/// follow the layout.
pub proof fn lemma_review_roundtrip(v: ReviewView, rest: Seq<u8>)
    requires
        v.fits(),
    ensures
        read_review(v.layout() + rest) == Some(v),
{
    let a = string_layout(v.discriminant);
    let k = v.reviewer;
    let b = bool_layout(v.is_initialized);
    let r = seq![v.rating];
    let t = string_layout(v.title);
    let s = string_layout(v.description);
    let d = v.layout() + rest;
    assert(d =~= Seq::<u8>::empty() + a + (k + b + r + t + s + rest));
    lemma_read_string_layout(v.discriminant, Seq::empty(), k + b + r + t + s + rest);
    assert(d =~= a + k + (b + r + t + s + rest));
    lemma_read_key_layout(k, a, b + r + t + s + rest);
    assert(d =~= (a + k) + b + (r + t + s + rest));
    lemma_read_bool_layout(v.is_initialized, a + k, r + t + s + rest);
    assert(d[(a + k + b).len() as int] == v.rating);
    assert(d =~= (a + k + b + r) + t + (s + rest));
    lemma_read_string_layout(v.title, a + k + b + r, s + rest);
    assert(d =~= (a + k + b + r + t) + s + rest);
    lemma_read_string_layout(v.description, a + k + b + r + t, rest);
}

/// Decoding the layout of a counter gives the counter back, whatever bytes
/// follow the layout.
pub proof fn lemma_counter_roundtrip(v: CounterView, rest: Seq<u8>)
    requires
        v.fits(),
    ensures
        read_counter(v.layout() + rest) == Some(v),
{
    let a = string_layout(v.discriminant);
    let b = bool_layout(v.is_initialized);
    let c = le_u64_bytes(v.counter);
    let d = v.layout() + rest;
    assert(d =~= Seq::<u8>::empty() + a + (b + c + rest));
    lemma_read_string_layout(v.discriminant, Seq::empty(), b + c + rest);
    assert(d =~= a + b + (c + rest));
    lemma_read_bool_layout(v.is_initialized, a, c + rest);
    assert(d =~= (a + b) + c + rest);
    lemma_read_u64_layout(v.counter, a + b, rest);
}

/// Decoding the layout of a comment gives the comment back, whatever bytes
/// follow the layout.
pub proof fn lemma_comment_roundtrip(v: CommentView, rest: Seq<u8>)
    requires
        v.fits(),
    ensures
        read_comment(v.layout() + rest) == Some(v),
{
    let a = string_layout(v.discriminant);
    let b = bool_layout(v.is_initialized);
    let k1 = v.review;
    let k2 = v.commenter;
    let t = string_layout(v.comment);
    let c = le_u64_bytes(v.count);
    let d = v.layout() + rest;
    assert(d =~= Seq::<u8>::empty() + a + (b + k1 + k2 + t + c + rest));
    lemma_read_string_layout(v.discriminant, Seq::empty(), b + k1 + k2 + t + c + rest);
    assert(d =~= a + b + (k1 + k2 + t + c + rest));
    lemma_read_bool_layout(v.is_initialized, a, k1 + k2 + t + c + rest);
    assert(d =~= (a + b) + k1 + (k2 + t + c + rest));
    lemma_read_key_layout(k1, a + b, k2 + t + c + rest);
    assert(d =~= (a + b + k1) + k2 + (t + c + rest));
    lemma_read_key_layout(k2, a + b + k1, t + c + rest);
    assert(d =~= (a + b + k1 + k2) + t + (c + rest));
    lemma_read_string_layout(v.comment, a + b + k1 + k2, c + rest);
    assert(d =~= (a + b + k1 + k2 + t) + c + rest);
    lemma_read_u64_layout(v.count, a + b + k1 + k2 + t, rest);
}

/// Reading a review account after a successful write of a review gives that review.
pub proof fn lemma_review_write_then_read(v: ReviewView, data: Seq<u8>)
    requires
        write_result(v.fits(), v.written(), data).0 is Ok,
    ensures
        read_review(write_result(v.fits(), v.written(), data).1) == Some(v),
{
    lemma_review_roundtrip(v, data.skip(v.layout().len() as int));
}

/// Reading a counter account after a successful write of a counter gives that counter.
pub proof fn lemma_counter_write_then_read(v: CounterView, data: Seq<u8>)
    requires
        write_result(v.fits(), v.written(), data).0 is Ok,
    ensures
        read_counter(write_result(v.fits(), v.written(), data).1) == Some(v),
{
    lemma_counter_roundtrip(v, data.skip(v.layout().len() as int));
}

/// Reading a comment account after a successful write of a comment gives that comment.
pub proof fn lemma_comment_write_then_read(v: CommentView, data: Seq<u8>)
    requires
        write_result(v.fits(), v.written(), data).0 is Ok,
    ensures
        read_comment(write_result(v.fits(), v.written(), data).1) == Some(v),
{
    lemma_comment_roundtrip(v, data.skip(v.layout().len() as int));
}

} // verus!
