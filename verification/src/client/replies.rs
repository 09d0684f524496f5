//! The result of each operation, from what came of its request.

use crate::client::Client;
use crate::error::Error;
use crate::operation::{is_success, Operation};
use crate::reply::Reply;
use crate::session::Session;
use crate::settings::Settings;
use crate::user::User;
use crate::user_list::UserList;
use crate::user_update::UserUpdate;
use vstd::prelude::*;

verus! {

impl Client {
    /// The result of `sign_up`: the new session. Status 400 means that the
    /// account exists already.
    pub fn sign_up_result(reply: Reply<Session>) -> (result: Result<Session, Error>)
        ensures
            result == reply.outcome(Operation::SignUp),
            reply.status() == Some(400u16) ==> result == Err::<Session, Error>(
                Error::AlreadySignedUp,
            ),
    {
        reply.settle(Operation::SignUp)
    }

    /// The result of `sign_in`: the session. Status 400 means that the
    /// credentials are wrong, and is never reported as an internal error.
    pub fn sign_in_result(reply: Reply<Session>) -> (result: Result<Session, Error>)
        ensures
            result == reply.outcome(Operation::SignIn),
            reply.status() == Some(400u16) ==> result == Err::<Session, Error>(
                Error::WrongCredentials,
            ),
    {
        reply.settle(Operation::SignIn)
    }

    /// Sign-in hands on the session that the server answers with: a success
    /// answer that carries a session for `email` gives that session, whose
    /// user's email is `email`.
    pub proof fn lemma_sign_in_keeps_the_email(status: u16, session: Session, email: Seq<char>)
        requires
            is_success(status),
            session.user.email@ == email,
        ensures
            (Reply::Received { status, body: Some(session) }).outcome(Operation::SignIn) == Ok::<
                Session,
                Error,
            >(session),
            (Reply::Received { status, body: Some(session) }).outcome(
                Operation::SignIn,
            ).unwrap().user.email@ == email,
    {
    }

    /// A sign-in that the server answers with status 400 ends in
    /// `WrongCredentials`, whatever the body holds: it is no success and no
    /// internal error.
    pub proof fn lemma_refused_sign_in_is_wrong_credentials(reply: Reply<Session>)
        requires
            reply.status() == Some(400u16),
        ensures
            reply.outcome(Operation::SignIn) == Err::<Session, Error>(Error::WrongCredentials),
            reply.outcome(Operation::SignIn) != Err::<Session, Error>(Error::InternalError),
            !(reply.outcome(Operation::SignIn) is Ok),
    {
    }

    /// Creating a user and changing one by id hand on the record that the
    /// server answers with: a success answer that carries a record with
    /// `email` gives that record, whose email is `email`.
    pub proof fn lemma_admin_record_keeps_the_email(status: u16, user: User, email: Seq<char>)
        requires
            is_success(status),
            user.email@ == email,
        ensures
            (Reply::Received { status, body: Some(user) }).outcome(Operation::CreateUser) == Ok::<
                User,
                Error,
            >(user),
            (Reply::Received { status, body: Some(user) }).outcome(Operation::UpdateUserById)
                == Ok::<User, Error>(user),
            (Reply::Received { status, body: Some(user) }).outcome(
                Operation::CreateUser,
            ).unwrap().email@ == email,
            (Reply::Received { status, body: Some(user) }).outcome(
                Operation::UpdateUserById,
            ).unwrap().email@ == email,
    {
    }

    /// The result of `send_otp`, from the status of the response (`None`
    /// where none arrived). Status 422 means that the user is not known.
    pub fn send_otp_result(status: Option<u16>) -> (result: Result<bool, Error>)
        ensures
            result == Operation::SendOtp.acknowledgement(status),
            status == Some(422u16) ==> result == Err::<bool, Error>(Error::UserNotFound),
    {
        Operation::SendOtp.acknowledge(status)
    }

    /// The result of `verify_otp`, from the status of the response (`None`
    /// where none arrived). Status 400 means that the passcode is wrong.
    pub fn verify_otp_result(status: Option<u16>) -> (result: Result<bool, Error>)
        ensures
            result == Operation::VerifyOtp.acknowledgement(status),
            status == Some(400u16) ==> result == Err::<bool, Error>(Error::WrongToken),
    {
        Operation::VerifyOtp.acknowledge(status)
    }

    /// The result of `sign_out`, from the status of the response (`None`
    /// where none arrived).
    pub fn sign_out_result(status: Option<u16>) -> (result: Result<bool, Error>)
        ensures
            result == Operation::SignOut.acknowledgement(status),
            result is Err ==> result == Err::<bool, Error>(Error::InternalError),
    {
        Operation::SignOut.acknowledge(status)
    }

    /// The result of `reset_password_for_email`, from the status of the
    /// response (`None` where none arrived). Whatever went wrong, the user
    /// counts as not known.
    pub fn reset_password_for_email_result(status: Option<u16>) -> (result: Result<bool, Error>)
        ensures
            result == Operation::ResetPassword.acknowledgement(status),
            result is Err ==> result == Err::<bool, Error>(Error::UserNotFound),
    {
        Operation::ResetPassword.acknowledge(status)
    }

    /// The result of `refresh_session` and `refresh_access_token`: the new
    /// session.
    pub fn refresh_session_result(reply: Reply<Session>) -> (result: Result<Session, Error>)
        ensures
            result == reply.outcome(Operation::RefreshSession),
            result is Err ==> result == Err::<Session, Error>(Error::InternalError),
    {
        reply.settle(Operation::RefreshSession)
    }

    /// The result of `get_user`: the account of the signed-in user.
    pub fn get_user_result(reply: Reply<User>) -> (result: Result<User, Error>)
        ensures
            result == reply.outcome(Operation::GetUser),
            result is Err ==> result == Err::<User, Error>(Error::InternalError),
    {
        reply.settle(Operation::GetUser)
    }

    /// The result of `update_user`: the account after the change. Status 400
    /// means that the user is not known.
    pub fn update_user_result(reply: Reply<UserUpdate>) -> (result: Result<UserUpdate, Error>)
        ensures
            result == reply.outcome(Operation::UpdateUser),
            reply.status() == Some(400u16) ==> result == Err::<UserUpdate, Error>(
                Error::UserNotFound,
            ),
    {
        reply.settle(Operation::UpdateUser)
    }

    /// The result of `get_settings`: the settings as the server gave them.
    pub fn get_settings_result(reply: Reply<Settings>) -> (result: Result<Settings, Error>)
        ensures
            result == reply.outcome(Operation::GetSettings),
            result is Err ==> result == Err::<Settings, Error>(Error::InternalError),
            result is Ok && result.unwrap().names_provider() ==> !result.unwrap().is_unset(),
    {
        let result = reply.settle(Operation::GetSettings);
        proof {
            if result is Ok && result.unwrap().names_provider() && result.unwrap().is_unset() {
                result.unwrap().lemma_configured_is_not_unset(result.unwrap());
            }
        }
        result
    }

    /// The result of `create_user`: the record of the new user.
    pub fn create_user_result(reply: Reply<User>) -> (result: Result<User, Error>)
        ensures
            result == reply.outcome(Operation::CreateUser),
            result is Err ==> result == Err::<User, Error>(Error::InternalError),
    {
        reply.settle(Operation::CreateUser)
    }

    /// The result of `invite_user_by_email`: the record of the invited user.
    pub fn invite_user_by_email_result(reply: Reply<User>) -> (result: Result<User, Error>)
        ensures
            result == reply.outcome(Operation::InviteUser),
            result is Err ==> result == Err::<User, Error>(Error::InternalError),
    {
        reply.settle(Operation::InviteUser)
    }

    /// The result of `list_users`: the users that the server listed.
    pub fn list_users_result(reply: Reply<UserList>) -> (result: Result<UserList, Error>)
        ensures
            result == reply.outcome(Operation::ListUsers),
            result is Err ==> result == Err::<UserList, Error>(Error::InternalError),
    {
        reply.settle(Operation::ListUsers)
    }

    /// The result of `get_user_by_id`: the record of the user.
    pub fn get_user_by_id_result(reply: Reply<User>) -> (result: Result<User, Error>)
        ensures
            result == reply.outcome(Operation::GetUserById),
            result is Err ==> result == Err::<User, Error>(Error::InternalError),
    {
        reply.settle(Operation::GetUserById)
    }

    /// The result of `update_user_by_id`: the record after the change.
    pub fn update_user_by_id_result(reply: Reply<User>) -> (result: Result<User, Error>)
        ensures
            result == reply.outcome(Operation::UpdateUserById),
            result is Err ==> result == Err::<User, Error>(Error::InternalError),
    {
        reply.settle(Operation::UpdateUserById)
    }

    /// The result of `delete_user`, from the status of the response (`None`
    /// where none arrived).
    pub fn delete_user_result(status: Option<u16>) -> (result: Result<bool, Error>)
        ensures
            result == Operation::DeleteUser.acknowledgement(status),
            result is Err ==> result == Err::<bool, Error>(Error::InternalError),
    {
        Operation::DeleteUser.acknowledge(status)
    }
}

} // verus!
