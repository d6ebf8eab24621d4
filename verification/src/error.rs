//! The errors of the query surface.

use vstd::prelude::*;

verus! {

/// Why a read or a write gave no result.
#[derive(Clone, Copy, Debug, PartialEq, Eq, Structural)]
pub enum Error {
    /// The text or the bytes given are not an identifier.
    MalformedIdentifier,
    /// No block is stored under the identifier.
    NotFound,
    /// The block store could not be reached.
    BackendUnavailable,
    /// The block stored under the identifier does not decode to a value.
    Corrupt,
    /// An integer of the value does not fit the record's 32-bit integer slot.
    IntegerOverflow,
}

impl Error {
    /// A one-line description, for a caller that reports the error as text.
    pub fn message(&self) -> (text: &'static str)
        ensures
            text@ == match *self {
                Error::MalformedIdentifier => "malformed identifier"@,
                Error::NotFound => "block not found"@,
                Error::BackendUnavailable => "block store unavailable"@,
                Error::Corrupt => "block does not decode to a value"@,
                Error::IntegerOverflow => "integer does not fit 32 bits"@,
            },
    {
        match self {
            Error::MalformedIdentifier => "malformed identifier",
            Error::NotFound => "block not found",
            Error::BackendUnavailable => "block store unavailable",
            Error::Corrupt => "block does not decode to a value",
            Error::IntegerOverflow => "integer does not fit 32 bits",
        }
    }
}

} // verus!
