//! The ways in which marshalling a value can fail.

use vstd::prelude::*;

verus! {

/// Why a value could not be read from or written to the runtime.
#[derive(Debug, PartialEq, Eq)]
pub enum PdkError {
    /// The bytes are not UTF-8: the bytes that were rejected, and why.
    InvalidUtf8 { bytes: Vec<u8>, reason: String },
    /// The value has no JSON encoding; the string says why.
    Encode(String),
    /// The text is not JSON; the string says why.
    Decode(String),
}

impl PdkError {
    /// The message that an error carries.
    pub open spec fn text(self) -> Seq<char> {
        match self {
            PdkError::InvalidUtf8 { bytes, reason } => reason@,
            PdkError::Encode(m) => m@,
            PdkError::Decode(m) => m@,
        }
    }

    /// The message that an error carries.
    pub fn message(&self) -> (s: String)
        ensures
            s@ == self.text(),
    {
        match self {
            PdkError::InvalidUtf8 { bytes, reason } => reason.clone(),
            PdkError::Encode(m) => m.clone(),
            PdkError::Decode(m) => m.clone(),
        }
    }
}

} // verus!
