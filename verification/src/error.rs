//! The errors that an operation can end in.

use vstd::prelude::*;

verus! {

/// Why an operation failed.
#[derive(Debug, Clone, Copy, PartialEq, Eq, Structural, Hash)]
pub enum Error {
    /// Sign-up was refused: the account exists already.
    AlreadySignedUp,
    /// Sign-in was refused: the password does not belong to the account.
    WrongCredentials,
    /// The one-time passcode was refused.
    WrongToken,
    /// The server knows no such user.
    UserNotFound,
    /// There is no session to act on.
    NotAuthenticated,
    /// Anything else: no response arrived, the response carried a status that
    /// has no meaning of its own, or its body could not be decoded.
    InternalError,
}

} // verus!
