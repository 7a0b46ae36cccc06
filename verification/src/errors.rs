//! The error taxonomy of the core: what can go wrong between a front end
//! and the storage session, and the text each front end shows for it.

use vstd::prelude::*;
use vstd::string::StringExecFns;

verus! {

/// Why a query against the storage session failed.
#[derive(Clone, Copy, Debug, PartialEq, Eq, Structural)]
pub enum StorageError {
    /// The session lost its link to the store while the query ran.
    Disconnected,
}

/// Everything the core can report to a front end.
#[derive(Clone, Copy, Debug, PartialEq, Eq, Structural)]
pub enum Error {
    /// The connection guard could not grant access: the session is
    /// poisoned (a prior holder failed) and must not be used again.
    ConnectionUnavailable,
    /// The query itself failed; the cause is carried along.
    FetchFailed(StorageError),
    /// A front end could not set up its own display. Only the shells
    /// around the library produce this one.
    RenderFailed,
}

/// The text a front end shows for an error.
pub open spec fn error_text(e: Error) -> Seq<char> {
    match e {
        Error::ConnectionUnavailable => "connection unavailable: storage session cannot be acquired"@,
        Error::FetchFailed(StorageError::Disconnected) => "fetch failed: storage connection lost"@,
        Error::RenderFailed => "render failed: display could not be initialized"@,
    }
}

impl Error {
    /// One human-readable line per error, for any front end to print.
    pub fn message(&self) -> (r: String)
        ensures
            r@ == error_text(*self),
    {
        match self {
            Error::ConnectionUnavailable => String::from_str(
                "connection unavailable: storage session cannot be acquired",
            ),
            Error::FetchFailed(StorageError::Disconnected) => String::from_str(
                "fetch failed: storage connection lost",
            ),
            Error::RenderFailed => String::from_str(
                "render failed: display could not be initialized",
            ),
        }
    }
}

} // verus!
