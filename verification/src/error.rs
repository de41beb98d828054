use vstd::prelude::*;

verus! {

/// Errors of the authorization service.
#[derive(Debug)]
pub enum Error {
    /// No stored session has the requested session id.
    SessionNotFound,
    /// The refresh key of the session has expired; the user must log in again.
    SessionExpired,
    /// The request carries no usable access key.
    AuthError(String),
    /// The session store reported an error, with its message.
    Database(String),
}

} // verus!
