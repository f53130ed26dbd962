//! The error taxonomy of the escrow state machine. Every error aborts the
//! whole invocation; the host guarantees that no state change survives an
//! aborted invocation.

use vstd::prelude::*;

verus! {

/// Why an invocation was rejected.
#[derive(Clone, Copy, PartialEq, Eq, Structural, Debug)]
pub enum Error {
    /// A query or mutation needed a stored field before `init` supplied it.
    NotInitialized,
    /// `init` was called on an instance that is already active.
    AlreadyInitialized,
    /// The caller failed the administrator-identity check.
    NotAuthorizedAdmin,
    /// The caller's claimed identity is not backed by a valid authorization
    /// proof.
    AuthorizationProofMissing,
    /// The token transfer service rejected a transfer.
    TransferFailed,
}

impl Error {
    /// A short human-readable description, for hosts that surface errors as
    /// abort messages.
    pub fn message(&self) -> (r: &'static str)
        ensures
            r@ == match self {
                Error::NotInitialized => "Contract not initialized!"@,
                Error::AlreadyInitialized => "Contract already initialized!"@,
                Error::NotAuthorizedAdmin => "Not the current admin!"@,
                Error::AuthorizationProofMissing => "Authorization proof missing!"@,
                Error::TransferFailed => "Transfer failed!"@,
            },
    {
        match self {
            Error::NotInitialized => "Contract not initialized!",
            Error::AlreadyInitialized => "Contract already initialized!",
            Error::NotAuthorizedAdmin => "Not the current admin!",
            Error::AuthorizationProofMissing => "Authorization proof missing!",
            Error::TransferFailed => "Transfer failed!",
        }
    }
}

} // verus!
