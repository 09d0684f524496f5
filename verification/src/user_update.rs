//! What the server answers to a change of the own account.

use vstd::prelude::*;

verus! {

/// The account of the signed-in user after a change was asked for.
#[derive(Debug, Clone, PartialEq, Eq)]
pub struct UserUpdate {
    /// The user's id.
    pub id: String,
    /// The user's email.
    pub email: String,
    /// The email that the user asked to change to.
    pub new_email: String,
    /// The date the confirmation of the new email was sent.
    pub email_change_sent_at: String,
    /// The date the user was created.
    pub created_at: String,
    /// The date the user was last updated.
    pub updated_at: String,
}

} // verus!
