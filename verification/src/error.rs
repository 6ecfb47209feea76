//! Errors shared by the credentials store and the launcher-level queries.
use vstd::prelude::*;

verus! {

/// Why the credentials store failed. The database and file-system errors
/// carry the message of the error they stand for.
#[derive(Clone, Debug, PartialEq, Eq)]
pub enum AuthError {
    /// No launcher data directory could be determined.
    DataDirNotFound,
    /// Creating the data directory failed.
    Io(String),
    /// A database query or migration failed.
    Database(String),
}

/// Error type shared by launcher-level hooks and queries.
#[derive(Clone, Debug)]
pub enum LauncherError {
    /// The launcher core has not been initialized yet.
    NotInitialized,
    /// The credentials store failed.
    Auth(AuthError),
    /// Anything else, by its message.
    Other(String),
}

impl LauncherError {
    /// Wraps a credentials-store error (`From<AuthError>`).
    pub fn from_auth(e: AuthError) -> (r: LauncherError)
        ensures
            r == LauncherError::Auth(e),
    {
        LauncherError::Auth(e)
    }
}

} // verus!
