//! The request of each operation.

use crate::client::{with_bearer, Client, EmailOrPhone};
use crate::error::Error;
use crate::headers::is_header_value;
use crate::json::{
    json_flag, json_object, json_of, json_text, members_of, object_insert, object_new, Json,
};
use crate::request::{Method, Request, RequestView};
use crate::user_attributes::UserAttributes;
use serde_json::Value;
use vstd::prelude::*;
use vstd::string::StringExecFns;

verus! {

/// The object with the one member `text` under `key`.
pub open spec fn single_doc(key: Seq<char>, text: Seq<char>) -> Json {
    Json::Object(map![key => Json::Text(text)])
}

/// The body of sign-up and sign-in: the identifier under its key, and the
/// password.
pub open spec fn credentials_doc(who: EmailOrPhone, password: Seq<char>) -> Json {
    Json::Object(map![who.key() => Json::Text(who.text()), "password"@ => Json::Text(password)])
}

/// `null` where the caller leaves the choice to the server, else the choice.
pub open spec fn flag_doc(flag: Option<bool>) -> Json {
    match flag {
        Some(choice) => Json::Bool(choice),
        None => Json::Null,
    }
}

/// The body that asks for a one-time passcode: the identifier under its key,
/// and whether an unknown user is to be created.
pub open spec fn passcode_doc(who: EmailOrPhone, should_create_user: Option<bool>) -> Json {
    Json::Object(
        map![who.key() => Json::Text(who.text()), "should_create_user"@ => flag_doc(should_create_user)],
    )
}

/// The body that changes the account of the signed-in user.
pub open spec fn attributes_doc(user: UserAttributes) -> Json {
    Json::Object(
        map![
            "email"@ => Json::Text(user.email@),
            "password"@ => Json::Text(user.password@),
            "data"@ => json_of(user.data),
        ],
    )
}

/// The URL of the list of users: the query string, if there is one, follows
/// the path as it is.
pub open spec fn list_url(base: Seq<char>, query_string: Option<String>) -> Seq<char> {
    match query_string {
        Some(query) => base + "/admin/users"@ + query@,
        None => base + "/admin/users"@,
    }
}

/// An object that holds the identifier under its key.
fn identified(who: EmailOrPhone) -> (object: crate::json::JsonObject)
    ensures
        members_of(object) == Map::<Seq<char>, Json>::empty().insert(
            who.key(),
            Json::Text(who.text()),
        ),
{
    let mut object = object_new();
    match who {
        EmailOrPhone::Email(email) => object_insert(&mut object, "email", json_text(email.as_str())),
        EmailOrPhone::Phone(phone) => object_insert(&mut object, "phone", json_text(phone.as_str())),
    }
    object
}

/// The document with the one member `text` under `key`.
fn single(key: &str, text: &str) -> (value: Value)
    ensures
        json_of(value) == single_doc(key@, text@),
{
    let mut object = object_new();
    object_insert(&mut object, key, json_text(text));
    json_object(object)
}

/// The body of sign-up and sign-in.
fn credentials(who: EmailOrPhone, password: &str) -> (value: Value)
    ensures
        json_of(value) == credentials_doc(who, password@),
{
    let mut object = identified(who);
    object_insert(&mut object, "password", json_text(password));
    json_object(object)
}

impl Client {
    /// Signs up for a new account: `POST /signup` with the identifier and
    /// the password.
    pub fn sign_up(&self, email_or_phone: EmailOrPhone, password: &str) -> (request: Request)
        ensures
            request@ == (RequestView {
                method: Method::Post,
                url: self@.url + "/signup"@,
                headers: self@.headers,
                body: Some(credentials_doc(email_or_phone, password@)),
            }),
    {
        let body = credentials(email_or_phone, password);
        self.plain(Method::Post, self.address("/signup"), Some(body))
    }

    /// Signs into an existing account: `POST /token?grant_type=password` with
    /// the identifier and the password.
    pub fn sign_in(&self, email_or_phone: EmailOrPhone, password: &str) -> (request: Request)
        ensures
            request@ == (RequestView {
                method: Method::Post,
                url: self@.url + "/token?grant_type=password"@,
                headers: self@.headers,
                body: Some(credentials_doc(email_or_phone, password@)),
            }),
    {
        let body = credentials(email_or_phone, password);
        self.plain(Method::Post, self.address("/token?grant_type=password"), Some(body))
    }

    /// Has a one-time passcode sent: `POST /otp` with the identifier and
    /// whether a user that does not exist is to be created.
    pub fn send_otp(&self, email_or_phone: EmailOrPhone, should_create_user: Option<bool>) -> (request:
        Request)
        ensures
            request@ == (RequestView {
                method: Method::Post,
                url: self@.url + "/otp"@,
                headers: self@.headers,
                body: Some(passcode_doc(email_or_phone, should_create_user)),
            }),
    {
        let mut object = identified(email_or_phone);
        object_insert(&mut object, "should_create_user", json_flag(should_create_user));
        self.plain(Method::Post, self.address("/otp"), Some(json_object(object)))
    }

    /// Redeems a one-time passcode: `POST /verify` with the document that the
    /// caller made up. `params` is that document, `None` where the caller's
    /// values could not be written as JSON: then there is nothing to send.
    pub fn verify_otp(&self, params: Option<Value>) -> (request: Result<Request, Error>)
        ensures
            params is None ==> request == Err::<Request, Error>(Error::InternalError),
            params is Some ==> request is Ok && request.unwrap().body == params
                && request.unwrap()@ == (RequestView {
                method: Method::Post,
                url: self@.url + "/verify"@,
                headers: self@.headers,
                body: Some(json_of(params.unwrap())),
            }),
    {
        self.carrying(Method::Post, self.address("/verify"), params)
    }

    /// Signs the current user out: `POST /logout` with the bearer token and
    /// no body. A token that cannot stand in a header field is an internal
    /// error, and nothing is sent.
    pub fn sign_out(&self, access_token: &str) -> (request: Result<Request, Error>)
        ensures
            !is_header_value(access_token@) ==> request == Err::<Request, Error>(
                Error::InternalError,
            ),
            is_header_value(access_token@) ==> request is Ok && request.unwrap()@ == (RequestView {
                method: Method::Post,
                url: self@.url + "/logout"@,
                headers: with_bearer(self@.headers, access_token@),
                body: None,
            }),
    {
        self.bearing(Method::Post, self.address("/logout"), access_token, None)
    }

    /// Has a password recovery mail sent: `POST /recover` with the email.
    pub fn reset_password_for_email(&self, email: &str) -> (request: Request)
        ensures
            request@ == (RequestView {
                method: Method::Post,
                url: self@.url + "/recover"@,
                headers: self@.headers,
                body: Some(single_doc("email"@, email@)),
            }),
    {
        self.plain(Method::Post, self.address("/recover"), Some(single("email", email)))
    }

    /// Returns the URL at which a user signs in with the given provider.
    /// Nothing is sent for it.
    pub fn get_url_for_provider(&self, provider: &str) -> (url: String)
        ensures
            url@ == self@.url + "/authorize?provider="@ + provider@,
    {
        self.address("/authorize?provider=").concat(provider)
    }

    /// Trades a refresh token for a new session:
    /// `POST /token?grant_type=refresh_token` with the token.
    pub fn refresh_access_token(&self, refresh_token: &str) -> (request: Request)
        ensures
            request@ == (RequestView {
                method: Method::Post,
                url: self@.url + "/token?grant_type=refresh_token"@,
                headers: self@.headers,
                body: Some(single_doc("refresh_token"@, refresh_token@)),
            }),
    {
        self.plain(
            Method::Post,
            self.address("/token?grant_type=refresh_token"),
            Some(single("refresh_token", refresh_token)),
        )
    }

    /// Refreshes the current session. Without a token there is no session
    /// to refresh and no request to send; with one, the request of
    /// `refresh_access_token`.
    pub fn refresh_session(&self, refresh_token: &str) -> (request: Result<Request, Error>)
        ensures
            refresh_token@.len() == 0 ==> request == Err::<Request, Error>(Error::NotAuthenticated),
            refresh_token@.len() > 0 ==> request is Ok && request.unwrap()@ == (RequestView {
                method: Method::Post,
                url: self@.url + "/token?grant_type=refresh_token"@,
                headers: self@.headers,
                body: Some(single_doc("refresh_token"@, refresh_token@)),
            }),
    {
        if refresh_token.is_empty() {
            return Err(Error::NotAuthenticated);
        }
        Ok(self.refresh_access_token(refresh_token))
    }

    /// Reads the account of the signed-in user: `GET /user` with the bearer
    /// token. A token that cannot stand in a header field is an internal
    /// error, and nothing is sent.
    pub fn get_user(&self, jwt: &str) -> (request: Result<Request, Error>)
        ensures
            !is_header_value(jwt@) ==> request == Err::<Request, Error>(Error::InternalError),
            is_header_value(jwt@) ==> request is Ok && request.unwrap()@ == (RequestView {
                method: Method::Get,
                url: self@.url + "/user"@,
                headers: with_bearer(self@.headers, jwt@),
                body: None,
            }),
    {
        self.bearing(Method::Get, self.address("/user"), jwt, None)
    }

    /// Changes the account of the signed-in user: `PUT /user` with the bearer
    /// token and the new email, password and data. A token that cannot stand
    /// in a header field is an internal error, and nothing is sent.
    pub fn update_user(&self, user: UserAttributes, jwt: &str) -> (request: Result<Request, Error>)
        ensures
            !is_header_value(jwt@) ==> request == Err::<Request, Error>(Error::InternalError),
            is_header_value(jwt@) ==> request is Ok && request.unwrap()@ == (RequestView {
                method: Method::Put,
                url: self@.url + "/user"@,
                headers: with_bearer(self@.headers, jwt@),
                body: Some(attributes_doc(user)),
            }),
    {
        let mut object = object_new();
        object_insert(&mut object, "email", json_text(user.email.as_str()));
        object_insert(&mut object, "password", json_text(user.password.as_str()));
        object_insert(&mut object, "data", user.data);
        self.bearing(Method::Put, self.address("/user"), jwt, Some(json_object(object)))
    }

    /// Reads the public settings of the server: `GET /settings`.
    pub fn get_settings(&self) -> (request: Request)
        ensures
            request@ == (RequestView {
                method: Method::Get,
                url: self@.url + "/settings"@,
                headers: self@.headers,
                body: None,
            }),
    {
        self.plain(Method::Get, self.address("/settings"), None)
    }

    /// Creates a user: `POST /admin/users` with the user record. `user` is
    /// the record as a JSON document, `None` where it could not be written
    /// as one: then there is nothing to send.
    pub fn create_user(&self, user: Option<Value>) -> (request: Result<Request, Error>)
        ensures
            user is None ==> request == Err::<Request, Error>(Error::InternalError),
            user is Some ==> request is Ok && request.unwrap().body == user && request.unwrap()@
                == (RequestView {
                method: Method::Post,
                url: self@.url + "/admin/users"@,
                headers: self@.headers,
                body: Some(json_of(user.unwrap())),
            }),
    {
        self.carrying(Method::Post, self.address("/admin/users"), user)
    }

    /// Invites a user by email: `POST /invite` with the email.
    pub fn invite_user_by_email(&self, email: &str) -> (request: Request)
        ensures
            request@ == (RequestView {
                method: Method::Post,
                url: self@.url + "/invite"@,
                headers: self@.headers,
                body: Some(single_doc("email"@, email@)),
            }),
    {
        self.plain(Method::Post, self.address("/invite"), Some(single("email", email)))
    }

    /// Lists the users: `GET /admin/users`, followed by the query string if
    /// there is one.
    pub fn list_users(&self, query_string: Option<String>) -> (request: Request)
        ensures
            request@ == (RequestView {
                method: Method::Get,
                url: list_url(self@.url, query_string),
                headers: self@.headers,
                body: None,
            }),
    {
        let url = match query_string {
            Some(query) => self.address("/admin/users").concat(query.as_str()),
            None => self.address("/admin/users"),
        };
        self.plain(Method::Get, url, None)
    }

    /// Reads a user by id: `GET /admin/users/{id}`.
    pub fn get_user_by_id(&self, user_id: &str) -> (request: Request)
        ensures
            request@ == (RequestView {
                method: Method::Get,
                url: self@.url + "/admin/users/"@ + user_id@,
                headers: self@.headers,
                body: None,
            }),
    {
        self.plain(Method::Get, self.address("/admin/users/").concat(user_id), None)
    }

    /// Changes a user by id: `PUT /admin/users/{id}` with the document that
    /// holds the new values. `user` is that document, `None` where the
    /// caller's values could not be written as JSON: then there is nothing
    /// to send.
    pub fn update_user_by_id(&self, id: &str, user: Option<Value>) -> (request: Result<
        Request,
        Error,
    >)
        ensures
            user is None ==> request == Err::<Request, Error>(Error::InternalError),
            user is Some ==> request is Ok && request.unwrap().body == user && request.unwrap()@
                == (RequestView {
                method: Method::Put,
                url: self@.url + "/admin/users/"@ + id@,
                headers: self@.headers,
                body: Some(json_of(user.unwrap())),
            }),
    {
        self.carrying(Method::Put, self.address("/admin/users/").concat(id), user)
    }

    /// Deletes a user by id: `DELETE /admin/users/{id}`.
    pub fn delete_user(&self, user_id: &str) -> (request: Request)
        ensures
            request@ == (RequestView {
                method: Method::Delete,
                url: self@.url + "/admin/users/"@ + user_id@,
                headers: self@.headers,
                body: None,
            }),
    {
        self.plain(Method::Delete, self.address("/admin/users/").concat(user_id), None)
    }
}

} // verus!
