//! Error taxonomy of the client core.

use vstd::prelude::*;

verus! {

/// Why an operation failed.  The payload is the detail the user sees:
/// the failing path or the transport's own message.
#[derive(Debug)]
pub enum AppError {
    /// Network or HTTP failure: connection loss, bad status, malformed body.
    Transport(String),
    /// A user-specified destination or its required parent does not exist.
    NotFound(String),
    /// A local filesystem operation failed.
    Io(String),
    /// The user's input is unusable: an empty path, or an upload source
    /// that does not exist.
    InvalidInput(String),
}

impl AppError {
    /// The detail text carried by any variant.
    pub open spec fn detail_spec(&self) -> Seq<char> {
        match self {
            AppError::Transport(s) => s@,
            AppError::NotFound(s) => s@,
            AppError::Io(s) => s@,
            AppError::InvalidInput(s) => s@,
        }
    }

    /// Returns the detail text carried by any variant.
    pub fn detail(&self) -> (r: &String)
        ensures
            r@ == self.detail_spec(),
    {
        match self {
            AppError::Transport(s) => s,
            AppError::NotFound(s) => s,
            AppError::Io(s) => s,
            AppError::InvalidInput(s) => s,
        }
    }
}

} // verus!
