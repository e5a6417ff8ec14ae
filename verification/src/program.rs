//! The program-level error that instruction handlers report, and how a
//! library error becomes one.

use vstd::prelude::*;

use crate::errors::AdminError;

verus! {

/// The errors a program's instruction reports to the runtime.
#[derive(Clone, Debug, PartialEq, Eq)]
pub enum ProgramError {
    /// The caller may not perform the instruction.
    Unauthorized {
        /// Why.
        message: String,
    },
    /// Account data could not be encoded or decoded.
    SerializationError {
        /// What failed.
        message: String,
    },
}

/// Whether `err` is the `Unauthorized` error carrying `e`'s message.
pub open spec fn is_unauthorized(err: ProgramError, e: AdminError) -> bool {
    err matches ProgramError::Unauthorized { message } && message@ == e.spec_message()
}

/// Whether `err` is a `SerializationError` carrying `text`.
pub open spec fn is_serialization_error(err: ProgramError, text: Seq<char>) -> bool {
    err matches ProgramError::SerializationError { message } && message@ == text
}

impl ProgramError {
    /// The `Unauthorized` error that a library error becomes at the program
    /// boundary, carrying the error's message.
    pub fn unauthorized(e: AdminError) -> (err: ProgramError)
        ensures
            is_unauthorized(err, e),
    {
        ProgramError::Unauthorized { message: e.to_string() }
    }
}

} // verus!
