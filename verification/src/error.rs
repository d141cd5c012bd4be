//! Errors that instruction processing reports.
use vstd::prelude::*;

verus! {

/// Errors specific to the review program.
#[derive(Debug, Clone, Copy, PartialEq, Eq)]
pub enum ReviewError {
    /// The review account has not been initialized yet.
    UninitializedAccount,
    /// A derived program address does not equal the address passed in.
    InvalidPDA,
    /// The input data exceeds the maximum length.
    InvalidDataLength,
    /// The rating is greater than 5 or less than 1.
    InvalidRating,
    /// An account passed in is not the expected one.
    IncorrectAccountError,
}

impl ReviewError {
    /// The custom program error code of each error, in declaration order.
    pub open spec fn spec_code(self) -> u32 {
        match self {
            ReviewError::UninitializedAccount => 0,
            ReviewError::InvalidPDA => 1,
            ReviewError::InvalidDataLength => 2,
            ReviewError::InvalidRating => 3,
            ReviewError::IncorrectAccountError => 4,
        }
    }

    /// The custom program error code of this error.
    pub fn code(&self) -> (c: u32)
        ensures
            c == self.spec_code(),
    {
        match self {
            ReviewError::UninitializedAccount => 0,
            ReviewError::InvalidPDA => 1,
            ReviewError::InvalidDataLength => 2,
            ReviewError::InvalidRating => 3,
            ReviewError::IncorrectAccountError => 4,
        }
    }
}

/// The outcome of a failed instruction.
#[derive(Debug, Clone, Copy, PartialEq, Eq)]
pub enum ProcessError {
    /// Fewer accounts were passed than the instruction reads.
    NotEnoughAccountKeys,
    /// A derived address does not match the account passed in.
    InvalidArgument,
    /// The instruction data does not name an instruction.
    InvalidInstructionData,
    /// An account is not the one the instruction expects.
    InvalidAccountData,
    /// An account that must sign did not.
    MissingRequiredSignature,
    /// The account to initialize already holds initialized data.
    AccountAlreadyInitialized,
    /// The account is not owned by this program.
    IllegalOwner,
    /// Serializing state into an account failed: the account is too small,
    /// or a string is longer than a `u32` can count.
    BorshIoError,
    /// An error of the review program itself.
    Review(ReviewError),
    /// A call into the runtime or another program failed with this program error code.
    Raised(u64),
    /// Account or instruction data could not be decoded where the program
    /// expects it to decode; the program aborts there.
    UndecodableData,
    /// No program address could be derived from the seeds; the program aborts there.
    AddressNotFound,
}

} // verus!
