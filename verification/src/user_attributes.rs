//! What a user may change of the own account.

use serde_json::Value;
use vstd::prelude::*;

verus! {

/// The new values for the account of the signed-in user.
#[derive(Debug)]
pub struct UserAttributes {
    /// The new email.
    pub email: String,
    /// The new password.
    pub password: String,
    /// The new additional data, a JSON document.
    pub data: Value,
}

} // verus!
