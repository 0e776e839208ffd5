use vstd::prelude::*;

verus! {

/// Failures that are specific to movie reviews.
#[derive(Debug, Clone, Copy, PartialEq, Eq, Structural)]
pub enum MovieReviewError {
    /// The slot holds no initialized review.
    UninitializedAccount,
    /// The slot's address is not the one derived from the author and the title.
    InvalidPDA,
    /// The encoded review would not fit the slot's capacity.
    InvalidDataLength,
    /// The rating lies outside one to five.
    InvalidRating,
    /// An account is not the one expected.
    IncorrectAccount,
    /// An amount does not fit its integer type.
    AmountOverflow,
}

impl MovieReviewError {
    /// The custom error code under which the host reports this error.
    pub open spec fn spec_code(self) -> u32 {
        match self {
            MovieReviewError::UninitializedAccount => 0,
            MovieReviewError::InvalidPDA => 1,
            MovieReviewError::InvalidDataLength => 2,
            MovieReviewError::InvalidRating => 3,
            MovieReviewError::IncorrectAccount => 4,
            MovieReviewError::AmountOverflow => 5,
        }
    }

    pub fn code(&self) -> (r: u32)
        ensures
            r == self.spec_code(),
    {
        match self {
            MovieReviewError::UninitializedAccount => 0,
            MovieReviewError::InvalidPDA => 1,
            MovieReviewError::InvalidDataLength => 2,
            MovieReviewError::InvalidRating => 3,
            MovieReviewError::IncorrectAccount => 4,
            MovieReviewError::AmountOverflow => 5,
        }
    }
}

/// Every way in which processing an instruction can fail: the review errors,
/// and the generic failures that the host itself knows.
#[derive(Debug, Clone, Copy, PartialEq, Eq, Structural)]
pub enum ProcessError {
    Review(MovieReviewError),
    /// The instruction bytes do not decode.
    InvalidInstructionData,
    /// Fewer accounts were passed than the instruction needs.
    NotEnoughAccountKeys,
    /// The slot is not owned by this program.
    IllegalOwner,
    /// The acting account did not sign.
    MissingRequiredSignature,
    /// The slot already holds an initialized review.
    AccountAlreadyInitialized,
    /// The encoded record is longer than the slot.
    AccountDataTooSmall,
}

} // verus!
