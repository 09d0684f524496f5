//! A user account, as the server reports it.

use std::collections::HashMap;
use vstd::prelude::*;

verus! {

/// Represents a user. A record that the server reports always holds `id`
/// and `email`; what else it leaves out is empty or absent here.
#[derive(Debug, Clone, PartialEq, Eq)]
pub struct User {
    /// The user's id.
    pub id: String,
    /// The user's email.
    pub email: String,
    /// The user's password. The server takes it and never reports it.
    pub password: Option<String>,
    /// Additional data for the user.
    pub data: Option<HashMap<String, String>>,
    /// The user's audience.
    pub aud: String,
    /// The user's role.
    pub role: String,
    /// The date the user's email was confirmed, if confirmed.
    pub email_confirmed_at: Option<String>,
    /// The user's phone number.
    pub phone: String,
    /// Whether the user's phone was confirmed, if known.
    pub phone_confirmed: Option<bool>,
    /// The user's last login, if the user has logged in.
    pub last_sign_in_at: Option<String>,
    /// The date the user was created.
    pub created_at: String,
    /// The date the user was last updated.
    pub updated_at: String,
}

impl User {
    /// Whether every text of the record is empty and every optional part is absent.
    pub open spec fn is_blank(self) -> bool {
        &&& self.id@.len() == 0
        &&& self.email@.len() == 0
        &&& self.password is None
        &&& self.data is None
        &&& self.aud@.len() == 0
        &&& self.role@.len() == 0
        &&& self.email_confirmed_at is None
        &&& self.phone@.len() == 0
        &&& self.phone_confirmed is None
        &&& self.last_sign_in_at is None
        &&& self.created_at@.len() == 0
        &&& self.updated_at@.len() == 0
    }
}

impl Default for User {
    /// The blank record.
    fn default() -> (user: User)
        ensures
            user.is_blank(),
    {
        User {
            id: String::new(),
            email: String::new(),
            password: None,
            data: None,
            aud: String::new(),
            role: String::new(),
            email_confirmed_at: None,
            phone: String::new(),
            phone_confirmed: None,
            last_sign_in_at: None,
            created_at: String::new(),
            updated_at: String::new(),
        }
    }
}

} // verus!
