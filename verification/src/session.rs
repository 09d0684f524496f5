//! A session: the tokens that sign-up, sign-in and refresh hand out.

use crate::user::User;
use vstd::prelude::*;

verus! {

/// Represents a session of a signed-in user.
#[derive(Debug, Clone, PartialEq, Eq)]
pub struct Session {
    /// The token that authenticates requests.
    pub access_token: String,
    /// The kind of the access token.
    pub token_type: String,
    /// The number of seconds after which the access token expires.
    pub expires_in: i32,
    /// The token that buys a new session.
    pub refresh_token: String,
    /// The user that the session belongs to.
    pub user: User,
}

} // verus!
