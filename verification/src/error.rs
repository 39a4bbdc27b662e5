//! The errors that client operations report.

use vstd::prelude::*;

verus! {

/// Why a client operation failed.
#[derive(Clone, Debug, PartialEq, Eq)]
pub enum Error {
    /// The path does not exist.
    NotFound {
        /// The path.
        path: String,
    },
    /// The path is a directory.
    OpenDirectory {
        /// The path.
        path: String,
    },
    /// Another writer has not closed the file yet.
    FileIncomplete {
        /// What happened.
        message: String,
    },
    /// No worker can serve the request.
    NoWorkerAvailable {
        /// What happened.
        message: String,
    },
    /// The peer did not accept the credentials.
    AuthenticationFailed {
        /// What happened.
        message: String,
    },
    /// The configuration is not valid.
    ConfigError {
        /// What happened.
        message: String,
    },
    /// The caller asked for something that does not exist.
    InvalidArgument {
        /// What happened.
        message: String,
    },
    /// Data of a block did not arrive as asked for.
    BlockIoError {
        /// What happened.
        message: String,
    },
    /// A state that should not occur.
    Internal {
        /// What happened.
        message: String,
    },
    /// A remote call failed for any other reason.
    Rpc {
        /// What happened.
        message: String,
    },
}

impl Error {
    /// Whether the path does not exist.
    pub fn is_not_found(&self) -> (r: bool)
        ensures
            r == (*self is NotFound),
    {
        match self {
            Error::NotFound { .. } => true,
            _ => false,
        }
    }

    /// Whether the peer did not accept the credentials.
    pub fn is_authentication_failed(&self) -> (r: bool)
        ensures
            r == (*self is AuthenticationFailed),
    {
        match self {
            Error::AuthenticationFailed { .. } => true,
            _ => false,
        }
    }
}

} // verus!
