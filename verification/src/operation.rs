//! The operations of the server, and what a failure of each one means.

use crate::error::Error;
use vstd::prelude::*;

verus! {

/// The operations that a client can ask of the server.
#[derive(Debug, Clone, Copy, PartialEq, Eq, Structural, Hash)]
pub enum Operation {
    /// Register an account.
    SignUp,
    /// Open a session with a password.
    SignIn,
    /// Have a one-time passcode sent.
    SendOtp,
    /// Redeem a one-time passcode.
    VerifyOtp,
    /// Close the session.
    SignOut,
    /// Have a password recovery mail sent.
    ResetPassword,
    /// Trade a refresh token for a new session.
    RefreshSession,
    /// Read the account of the signed-in user.
    GetUser,
    /// Change the account of the signed-in user.
    UpdateUser,
    /// Read the public settings.
    GetSettings,
    /// Create an account, as an administrator.
    CreateUser,
    /// Invite a user by email.
    InviteUser,
    /// List the accounts, as an administrator.
    ListUsers,
    /// Read an account by its id, as an administrator.
    GetUserById,
    /// Change an account by its id, as an administrator.
    UpdateUserById,
    /// Delete an account by its id, as an administrator.
    DeleteUser,
}

/// Whether `status` reports success: the codes from 200 to 299.
pub open spec fn is_success(status: u16) -> bool {
    200 <= status <= 299
}

/// Tells whether `status` reports success.
pub fn status_is_success(status: u16) -> (success: bool)
    ensures
        success == is_success(status),
{
    200 <= status && status <= 299
}

impl Operation {
    /// The status that has a meaning of its own for this operation, with the
    /// error that it stands for.
    pub open spec fn known_refusal(self) -> Option<(u16, Error)> {
        match self {
            Operation::SignUp => Some((400u16, Error::AlreadySignedUp)),
            Operation::SignIn => Some((400u16, Error::WrongCredentials)),
            Operation::SendOtp => Some((422u16, Error::UserNotFound)),
            Operation::VerifyOtp => Some((400u16, Error::WrongToken)),
            Operation::UpdateUser => Some((400u16, Error::UserNotFound)),
            _ => None,
        }
    }

    /// The error that a failed round trip of this operation is reported as.
    /// `status` is the status of the response, `None` where none arrived.
    ///
    /// A failed password recovery always counts as an unknown user. For the
    /// other operations the status decides: the one that the operation knows
    /// gives its own error, any other status or no response an internal error.
    pub open spec fn failure(self, status: Option<u16>) -> Error {
        if self == Operation::ResetPassword {
            Error::UserNotFound
        } else if self.known_refusal() is Some && status == Some(self.known_refusal().unwrap().0) {
            self.known_refusal().unwrap().1
        } else {
            Error::InternalError
        }
    }

    /// The result of an operation that answers with nothing but its status:
    /// `true` on a success status, else the operation's failure.
    pub open spec fn acknowledgement(self, status: Option<u16>) -> Result<bool, Error> {
        if status is Some && is_success(status.unwrap()) {
            Ok(true)
        } else {
            Err(self.failure(status))
        }
    }

    /// Names the error for a failed round trip of this operation.
    pub fn classify(self, status: Option<u16>) -> (error: Error)
        ensures
            error == self.failure(status),
    {
        match self {
            Operation::ResetPassword => Error::UserNotFound,
            Operation::SignUp => if is_status(status, 400) {
                Error::AlreadySignedUp
            } else {
                Error::InternalError
            },
            Operation::SignIn => if is_status(status, 400) {
                Error::WrongCredentials
            } else {
                Error::InternalError
            },
            Operation::SendOtp => if is_status(status, 422) {
                Error::UserNotFound
            } else {
                Error::InternalError
            },
            Operation::VerifyOtp => if is_status(status, 400) {
                Error::WrongToken
            } else {
                Error::InternalError
            },
            Operation::UpdateUser => if is_status(status, 400) {
                Error::UserNotFound
            } else {
                Error::InternalError
            },
            _ => Error::InternalError,
        }
    }

    /// Settles an operation that answers with nothing but its status.
    pub fn acknowledge(self, status: Option<u16>) -> (result: Result<bool, Error>)
        ensures
            result == self.acknowledgement(status),
    {
        match status {
            Some(code) => if status_is_success(code) {
                Ok(true)
            } else {
                Err(self.classify(status))
            },
            None => Err(self.classify(status)),
        }
    }
}

/// Tells whether a response arrived and carried the status `code`.
fn is_status(status: Option<u16>, code: u16) -> (same: bool)
    ensures
        same == (status == Some(code)),
{
    match status {
        Some(found) => found == code,
        None => false,
    }
}

} // verus!
