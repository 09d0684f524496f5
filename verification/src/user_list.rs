//! A page of user accounts.

use crate::user::User;
use vstd::prelude::*;

verus! {

/// The users that the server lists.
#[derive(Debug, Clone, PartialEq, Eq)]
pub struct UserList {
    /// The users, in the order in which the server gave them.
    pub users: Vec<User>,
}

} // verus!
