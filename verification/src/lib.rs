//! Request building and response handling for a GoTrue authentication server.
//!
//! The crate sends nothing itself. A [`Client`] turns each operation into a
//! [`Request`]; whoever owns the connection sends it and hands back what came
//! of it, and the client turns that into the operation's result.

pub mod client;
pub mod error;
pub mod headers;
pub mod json;
pub mod operation;
pub mod reply;
pub mod request;
pub mod session;
pub mod settings;
pub mod user;
pub mod user_attributes;
pub mod user_list;
pub mod user_update;

pub use client::{Client, EmailOrPhone};
pub use error::Error;
pub use operation::Operation;
pub use reply::Reply;
pub use request::{Method, Request};
pub use session::Session;
pub use settings::Settings;
pub use user::User;
pub use user_attributes::UserAttributes;
pub use user_list::UserList;
pub use user_update::UserUpdate;
