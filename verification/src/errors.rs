use vstd::prelude::*;

verus! {

/// The failures that the bootstrap path can surface to its caller.
///
/// Every error is reported to the immediate caller; nothing is retried
/// internally.
#[derive(Clone, Copy, Debug, PartialEq, Eq, Structural)]
pub enum Error {
    /// The username does not have the structural parts of a user identity.
    /// No filesystem or network access is attempted for such an input.
    InvalidIdentity,
    /// A filesystem operation (directory or file create, read, write) failed.
    IoError,
    /// The session file exists but its content cannot be decoded.
    CorruptSession,
    /// Construction of the protocol client (local store or transport) failed.
    ClientInitError,
    /// The server rejected the login or the resume attempt.
    AuthError,
    /// A network or protocol failure during the catch-up synchronisation.
    SyncError,
}

/// The description that `describe` returns for each error.
pub open spec fn describe_spec(e: Error) -> Seq<char> {
    match e {
        Error::InvalidIdentity => "invalid identity"@,
        Error::IoError => "filesystem failure"@,
        Error::CorruptSession => "corrupt session file"@,
        Error::ClientInitError => "client initialisation failure"@,
        Error::AuthError => "login rejected"@,
        Error::SyncError => "synchronisation failure"@,
    }
}

impl Error {
    /// A short, stable description of the error for diagnostics.
    pub fn describe(&self) -> (r: &'static str)
        ensures
            r@ == describe_spec(*self),
    {
        match self {
            Error::InvalidIdentity => "invalid identity",
            Error::IoError => "filesystem failure",
            Error::CorruptSession => "corrupt session file",
            Error::ClientInitError => "client initialisation failure",
            Error::AuthError => "login rejected",
            Error::SyncError => "synchronisation failure",
        }
    }
}

} // verus!
