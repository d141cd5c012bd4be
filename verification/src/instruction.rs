//! The instructions the program accepts and how they are read from
//! instruction data: one variant byte, then the instruction's fields in
//! account layout, with nothing after them.
use crate::encoding::{read_string, read_u8, take_string, take_u8};
use crate::error::ProcessError;
use vstd::prelude::*;

verus! {

/// An instruction to the review program.
pub enum MovieInstruction {
    AddMovieReview { title: String, rating: u8, description: String },
    UpdateMovieReview { title: String, rating: u8, description: String },
    AddComment { comment: String },
    InitializeMint,
}

/// An instruction as a mathematical value.
pub enum InstructionView {
    AddMovieReview { title: Seq<char>, rating: u8, description: Seq<char> },
    UpdateMovieReview { title: Seq<char>, rating: u8, description: Seq<char> },
    AddComment { comment: Seq<char> },
    InitializeMint,
}

impl View for MovieInstruction {
    type V = InstructionView;

    open spec fn view(&self) -> InstructionView {
        match self {
            MovieInstruction::AddMovieReview { title, rating, description } => {
                InstructionView::AddMovieReview {
                    title: title@,
                    rating: *rating,
                    description: description@,
                }
            },
            MovieInstruction::UpdateMovieReview { title, rating, description } => {
                InstructionView::UpdateMovieReview {
                    title: title@,
                    rating: *rating,
                    description: description@,
                }
            },
            MovieInstruction::AddComment { comment } => InstructionView::AddComment {
                comment: comment@,
            },
            MovieInstruction::InitializeMint => InstructionView::InitializeMint,
        }
    }
}

/// A title, a rating and a description from position 1 to the very end of `d`.
pub open spec fn read_review_payload(d: Seq<u8>) -> Option<(Seq<char>, u8, Seq<char>)> {
    match read_string(d, 1) {
        Some((title, p1)) => match read_u8(d, p1) {
            Some((rating, p2)) => match read_string(d, p2) {
                Some((description, p3)) => if p3 == d.len() {
                    Some((title, rating, description))
                } else {
                    None
                },
                None => None,
            },
            None => None,
        },
        None => None,
    }
}

/// A comment from position 1 to the very end of `d`.
pub open spec fn read_comment_payload(d: Seq<u8>) -> Option<Seq<char>> {
    match read_string(d, 1) {
        Some((comment, p1)) => if p1 == d.len() {
            Some(comment)
        } else {
            None
        },
        None => None,
    }
}

/// The instruction that `d` holds. An empty input or an unknown variant byte
/// is invalid instruction data; a known variant whose fields do not decode
/// exactly is undecodable data, where the program aborts.
pub open spec fn read_instruction(d: Seq<u8>) -> Result<InstructionView, ProcessError> {
    if d.len() == 0 {
        Err(ProcessError::InvalidInstructionData)
    } else if d[0] == 0 || d[0] == 1 {
        match read_review_payload(d) {
            Some((title, rating, description)) => if d[0] == 0 {
                Ok(InstructionView::AddMovieReview { title, rating, description })
            } else {
                Ok(InstructionView::UpdateMovieReview { title, rating, description })
            },
            None => Err(ProcessError::UndecodableData),
        }
    } else if d[0] == 2 {
        match read_comment_payload(d) {
            Some(comment) => Ok(InstructionView::AddComment { comment }),
            None => Err(ProcessError::UndecodableData),
        }
    } else if d[0] == 3 {
        Ok(InstructionView::InitializeMint)
    } else {
        Err(ProcessError::InvalidInstructionData)
    }
}

/// The view of a decoded instruction, or the error.
pub open spec fn instruction_result_view(r: Result<MovieInstruction, ProcessError>) -> Result<
    InstructionView,
    ProcessError,
> {
    match r {
        Ok(i) => Ok(i@),
        Err(e) => Err(e),
    }
}

impl MovieInstruction {
    /// Reads an instruction from instruction data.
    pub fn unpack(input: &[u8]) -> (r: Result<MovieInstruction, ProcessError>)
        ensures
            instruction_result_view(r) == read_instruction(input@),
    {
        if input.len() == 0 {
            return Err(ProcessError::InvalidInstructionData);
        }
        let variant = input[0];
        if variant == 0 || variant == 1 {
            let (title, p1) = match take_string(input, 1) {
                Some(x) => x,
                None => return Err(ProcessError::UndecodableData),
            };
            let (rating, p2) = match take_u8(input, p1) {
                Some(x) => x,
                None => return Err(ProcessError::UndecodableData),
            };
            let (description, p3) = match take_string(input, p2) {
                Some(x) => x,
                None => return Err(ProcessError::UndecodableData),
            };
            if p3 != input.len() {
                return Err(ProcessError::UndecodableData);
            }
            if variant == 0 {
                Ok(MovieInstruction::AddMovieReview { title, rating, description })
            } else {
                Ok(MovieInstruction::UpdateMovieReview { title, rating, description })
            }
        } else if variant == 2 {
            let (comment, p1) = match take_string(input, 1) {
                Some(x) => x,
                None => return Err(ProcessError::UndecodableData),
            };
            if p1 != input.len() {
                return Err(ProcessError::UndecodableData);
            }
            Ok(MovieInstruction::AddComment { comment })
        } else if variant == 3 {
            Ok(MovieInstruction::InitializeMint)
        } else {
            Err(ProcessError::InvalidInstructionData)
        }
    }
}

} // verus!
