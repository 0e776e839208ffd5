use vstd::prelude::*;
use crate::error::ProcessError;
use crate::state::{decode_str, read_str};

verus! {

/// A decoded instruction.
pub enum MovieReviewInstruction {
    AddMovieReview { title: String, rating: u8, review: String },
    UpdateMovieReview { title: String, rating: u8, review: String },
    DeleteMovieReview { title: String },
}

/// The abstract content of an instruction.
pub enum InstructionView {
    Add { title: Seq<char>, rating: u8, review: Seq<char> },
    Update { title: Seq<char>, rating: u8, review: Seq<char> },
    Delete { title: Seq<char> },
}

impl View for MovieReviewInstruction {
    type V = InstructionView;

    open spec fn view(&self) -> InstructionView {
        match self {
            MovieReviewInstruction::AddMovieReview { title, rating, review } =>
                InstructionView::Add { title: title@, rating: *rating, review: review@ },
            MovieReviewInstruction::UpdateMovieReview { title, rating, review } =>
                InstructionView::Update { title: title@, rating: *rating, review: review@ },
            MovieReviewInstruction::DeleteMovieReview { title } => InstructionView::Delete { title: title@ },
        }
    }
}

/// The title, rating and review text encoded from offset 1 to the very end of `b`.
pub open spec fn decode_review_fields(b: Seq<u8>) -> Option<(Seq<char>, u8, Seq<char>)> {
    match decode_str(b, 1) {
        Some((title, p)) => if p < b.len() {
            match decode_str(b, p + 1) {
                Some((review, q)) => if q == b.len() {
                    Some((title, b[p], review))
                } else {
                    None
                },
                None => None,
            }
        } else {
            None
        },
        None => None,
    }
}

/// The instruction that `b` encodes: a tag byte (0 add, 1 update, 2 delete),
/// then the variant's fields and nothing after them.
pub open spec fn decode_instruction(b: Seq<u8>) -> Option<InstructionView> {
    if b.len() == 0 {
        None
    } else if b[0] == 0 || b[0] == 1 {
        match decode_review_fields(b) {
            Some((title, rating, review)) => if b[0] == 0 {
                Some(InstructionView::Add { title, rating, review })
            } else {
                Some(InstructionView::Update { title, rating, review })
            },
            None => None,
        }
    } else if b[0] == 2 {
        match decode_str(b, 1) {
            Some((title, p)) => if p == b.len() {
                Some(InstructionView::Delete { title })
            } else {
                None
            },
            None => None,
        }
    } else {
        None
    }
}

fn unpack_review_fields(input: &[u8]) -> (r: Option<(String, u8, String)>)
    ensures
        match r {
            Some((t, rating, v)) => decode_review_fields(input@) == Some((t@, rating, v@)),
            None => decode_review_fields(input@) is None,
        },
{
    let (title, p) = match read_str(input, 1) {
        Some(x) => x,
        None => return None,
    };
    if p >= input.len() {
        return None;
    }
    let rating = input[p];
    let (review, q) = match read_str(input, p + 1) {
        Some(x) => x,
        None => return None,
    };
    if q != input.len() {
        return None;
    }
    Some((title, rating, review))
}

impl MovieReviewInstruction {
    /// Decodes an instruction. Every malformed input, whether empty, with an
    /// unknown tag, or with fields that do not decode or leave bytes over,
    /// gives `InvalidInstructionData`.
    pub fn unpack(input: &[u8]) -> (r: Result<MovieReviewInstruction, ProcessError>)
        ensures
            match r {
                Ok(i) => decode_instruction(input@) == Some(i@),
                Err(e) => decode_instruction(input@) is None && e == ProcessError::InvalidInstructionData,
            },
    {
        if input.len() == 0 {
            return Err(ProcessError::InvalidInstructionData);
        }
        let variant = input[0];
        if variant == 0 || variant == 1 {
            match unpack_review_fields(input) {
                Some((title, rating, review)) => if variant == 0 {
                    Ok(MovieReviewInstruction::AddMovieReview { title, rating, review })
                } else {
                    Ok(MovieReviewInstruction::UpdateMovieReview { title, rating, review })
                },
                None => Err(ProcessError::InvalidInstructionData),
            }
        } else if variant == 2 {
            match read_str(input, 1) {
                Some((title, p)) => if p == input.len() {
                    Ok(MovieReviewInstruction::DeleteMovieReview { title })
                } else {
                    Err(ProcessError::InvalidInstructionData)
                },
                None => Err(ProcessError::InvalidInstructionData),
            }
        } else {
            Err(ProcessError::InvalidInstructionData)
        }
    }
}

} // verus!
