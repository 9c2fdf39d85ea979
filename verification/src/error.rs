//! The error that layout resolution and decoding surface.

use vstd::prelude::*;

verus! {

/// The one error of this library. A layout that could not be resolved and a payload
/// that could not be decoded both come as a serialization error with the cause in
/// words.
#[derive(Debug, Clone, PartialEq, Eq, Hash)]
pub enum SuiError {
    ObjectSerializationError { error: String },
}

impl SuiError {
    /// The cause, in words.
    pub open spec fn cause(self) -> Seq<char> {
        match self {
            SuiError::ObjectSerializationError { error } => error@,
        }
    }
}

} // verus!
