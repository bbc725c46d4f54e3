//! The two error kinds a query can end in.

use vstd::prelude::*;

verus! {

/// Why a query failed: either the response body could not be decoded as the
/// expected JSON shape, or the request could not be completed at the
/// transport level.  The payload is a human-readable detail of the cause.
#[derive(Debug, Clone, PartialEq, Eq)]
pub enum RestError {
    CannotDeserialize(String),
    SendRequestError(String),
}

impl RestError {
    /// The detail string carried by either variant.
    pub fn detail(&self) -> (r: &str)
        ensures
            r@ == self.spec_detail(),
    {
        match self {
            RestError::CannotDeserialize(d) => d.as_str(),
            RestError::SendRequestError(d) => d.as_str(),
        }
    }

    pub open spec fn spec_detail(self) -> Seq<char> {
        match self {
            RestError::CannotDeserialize(d) => d@,
            RestError::SendRequestError(d) => d@,
        }
    }
}

} // verus!
