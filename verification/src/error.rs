//! The two ways a resolution can fail.

use vstd::prelude::*;

verus! {

/// Why a request produced no document.
///
/// Neither variant carries text: a caller learns that something failed, never
/// which check or which file.
#[derive(Clone, Copy, Debug, PartialEq, Eq, Structural)]
pub enum ResolveError {
    /// The account or resource does not exist, or the request failed
    /// validation. The two are deliberately indistinguishable.
    NotFound,
    /// A store failed unexpectedly or held malformed data.
    Internal,
}

impl ResolveError {
    /// The HTTP status that stands for this failure.
    pub open spec fn status(self) -> u16 {
        match self {
            ResolveError::NotFound => 404,
            ResolveError::Internal => 500,
        }
    }

    /// The HTTP status to answer with.
    pub fn status_code(&self) -> (code: u16)
        ensures
            code == self.status(),
    {
        match self {
            ResolveError::NotFound => 404,
            ResolveError::Internal => 500,
        }
    }
}

} // verus!
