//! The client: where the server is, and what every request carries.

pub mod replies;
pub mod requests;

use crate::headers::{
    accepts_name, accepts_value, fields_of, header_name, header_value, headers_clone,
    headers_insert, headers_names, headers_new, is_header_name, is_header_value, is_value_char,
    lowercase,
};
use crate::error::Error;
use crate::json::json_of;
use crate::request::{document_of, Method, Request, RequestView};
use reqwest::header::HeaderMap;
use serde_json::Value;
use vstd::prelude::*;
use vstd::string::StringExecFns;
use vstd::utf8::encode_utf8;

verus! {

/// The most header fields that a client carries. One more always fits into a
/// request, which is the room that the bearer token needs.
pub const MAX_DEFAULT_HEADERS: usize = 4095;

/// Represents either an email or a phone number: who signs up, signs in or
/// asks for a one-time passcode.
#[derive(Debug, Clone)]
pub enum EmailOrPhone {
    /// Email
    Email(String),
    /// Phone number
    Phone(String),
}

impl EmailOrPhone {
    /// The key under which a request body carries the identifier.
    pub open spec fn key(self) -> Seq<char> {
        match self {
            EmailOrPhone::Email(_) => "email"@,
            EmailOrPhone::Phone(_) => "phone"@,
        }
    }

    /// The characters of the identifier.
    pub open spec fn text(self) -> Seq<char> {
        match self {
            EmailOrPhone::Email(email) => email@,
            EmailOrPhone::Phone(phone) => phone@,
        }
    }
}

/// The header fields of a request that acts for a signed-in user: those in
/// `headers`, with `Bearer` and the token under `authorization`.
pub open spec fn with_bearer(headers: Map<Seq<char>, Seq<u8>>, token: Seq<char>) -> Map<
    Seq<char>,
    Seq<u8>,
> {
    headers.insert("authorization"@, encode_utf8("Bearer "@ + token))
}

/// Represents a client used to interact with a GoTrue server.
#[derive(Debug)]
pub struct Client {
    url: String,
    headers: HeaderMap,
}

/// A client as a mathematical value.
pub struct ClientView {
    /// The characters of the base URL.
    pub url: Seq<char>,
    /// The header fields that every request carries: the bytes of each value
    /// under its name in small letters.
    pub headers: Map<Seq<char>, Seq<u8>>,
}

impl View for Client {
    type V = ClientView;

    closed spec fn view(&self) -> ClientView {
        ClientView { url: self.url@, headers: fields_of(self.headers) }
    }
}

impl Clone for Client {
    fn clone(&self) -> (copy: Client)
        ensures
            copy@ == self@,
    {
        proof {
            use_type_invariant(self);
        }
        Client { url: self.url.clone(), headers: headers_clone(&self.headers) }
    }
}

impl Client {
    /// A client holds finitely many header fields and has room for the
    /// bearer token.
    #[verifier::type_invariant]
    spec fn has_room(&self) -> bool {
        &&& fields_of(self.headers).dom().finite()
        &&& fields_of(self.headers).len() <= MAX_DEFAULT_HEADERS
    }

    /// Creates a client for the server at `url`, with no header fields.
    pub fn new(url: &str) -> (client: Client)
        ensures
            client@ == (ClientView { url: url@, headers: Map::empty() }),
    {
        Client { url: url.to_owned(), headers: headers_new() }
    }

    /// Tells whether `with_header` takes this field: `name` is a header name,
    /// `value` is a header value, and the client has room for one more.
    pub fn accepts_header(&self, name: &str, value: &str) -> (accepted: bool)
        ensures
            accepted == (is_header_name(name@) && is_header_value(value@) && self@.headers.len()
                < MAX_DEFAULT_HEADERS),
    {
        accepts_name(name) && accepts_value(value) && headers_names(&self.headers)
            < MAX_DEFAULT_HEADERS
    }

    /// Adds a header field to every request of this client, for instance the
    /// key of an API gateway. Capitals in `name` count as small letters, and a
    /// field of the same name is replaced.
    pub fn with_header(self, name: &str, value: &str) -> (client: Client)
        requires
            is_header_name(name@),
            is_header_value(value@),
            self@.headers.len() < MAX_DEFAULT_HEADERS,
        ensures
            client@ == (ClientView {
                url: self@.url,
                headers: self@.headers.insert(lowercase(name@), encode_utf8(value@)),
            }),
    {
        proof {
            use_type_invariant(&self);
        }
        let Client { url, mut headers } = self;
        let name = header_name(name).unwrap();
        let value = header_value(value).unwrap();
        headers_insert(&mut headers, name, value);
        Client { url, headers }
    }

    /// The base URL followed by `path`.
    fn address(&self, path: &str) -> (url: String)
        ensures
            url@ == self@.url + path@,
    {
        self.url.clone().concat(path)
    }

    /// A request with the client's header fields.
    fn plain(&self, method: Method, url: String, body: Option<Value>) -> (request: Request)
        ensures
            request@ == (RequestView {
                method,
                url: url@,
                headers: self@.headers,
                body: document_of(body),
            }),
            request.body == body,
    {
        Request { method, url, headers: headers_clone(&self.headers), body }
    }

    /// A request with the client's header fields and a body that had to be
    /// written as JSON first: without the document there is nothing to send.
    fn carrying(&self, method: Method, url: String, body: Option<Value>) -> (request: Result<
        Request,
        Error,
    >)
        ensures
            body is None ==> request == Err::<Request, Error>(Error::InternalError),
            body is Some ==> request is Ok && request.unwrap().body == body && request.unwrap()@
                == (RequestView {
                method,
                url: url@,
                headers: self@.headers,
                body: Some(json_of(body.unwrap())),
            }),
    {
        match body {
            Some(document) => Ok(self.plain(method, url, Some(document))),
            None => Err(Error::InternalError),
        }
    }

    /// A request with the client's header fields and the bearer token. A
    /// token that cannot stand in a header field gives no request.
    fn bearing(&self, method: Method, url: String, token: &str, body: Option<Value>) -> (request:
        Result<Request, Error>)
        ensures
            !is_header_value(token@) ==> request == Err::<Request, Error>(Error::InternalError),
            is_header_value(token@) ==> request is Ok && request.unwrap().body == body
                && request.unwrap()@ == (RequestView {
                method,
                url: url@,
                headers: with_bearer(self@.headers, token@),
                body: document_of(body),
            }),
    {
        proof {
            use_type_invariant(self);
            lemma_authorization_is_a_name();
            lemma_bearer_is_a_value(token@);
        }
        let value = match header_value(String::from_str("Bearer ").concat(token).as_str()) {
            Some(value) => value,
            None => {
                return Err(Error::InternalError);
            },
        };
        let mut headers = headers_clone(&self.headers);
        let name = header_name("Authorization").unwrap();
        headers_insert(&mut headers, name, value);
        Ok(Request { method, url, headers, body })
    }
}

/// `Authorization` is a header name, and `authorization` in small letters.
proof fn lemma_authorization_is_a_name()
    ensures
        is_header_name("Authorization"@),
        lowercase("Authorization"@) == "authorization"@,
{
    reveal_strlit("Authorization");
    reveal_strlit("authorization");
    assert(lowercase("Authorization"@) =~= "authorization"@);
}

/// `Bearer` and a space before a text give a header value where the text is
/// one, and only there.
proof fn lemma_bearer_is_a_value(token: Seq<char>)
    ensures
        is_header_value("Bearer "@ + token) <==> is_header_value(token),
{
    reveal_strlit("Bearer ");
    let text = "Bearer "@ + token;
    if is_header_value(token) {
        assert forall|i: int| 0 <= i < text.len() implies is_value_char(#[trigger] text[i]) by {
            if i >= 7 {
                assert(text[i] == token[i - 7]);
            }
        }
    }
    if is_header_value(text) {
        assert forall|i: int| 0 <= i < token.len() implies is_value_char(#[trigger] token[i]) by {
            assert(token[i] == text[i + 7]);
        }
    }
}

} // verus!
