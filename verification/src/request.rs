//! A request, ready to be sent.

use crate::headers::fields_of;
use crate::json::{json_of, Json};
use reqwest::header::HeaderMap;
use serde_json::Value;
use vstd::prelude::*;

verus! {

/// The HTTP methods that the server is asked with.
#[derive(Debug, Clone, Copy, PartialEq, Eq, Structural, Hash)]
pub enum Method {
    /// `GET`
    Get,
    /// `POST`
    Post,
    /// `PUT`
    Put,
    /// `DELETE`
    Delete,
}

/// One HTTP request: what to send, and where.
#[derive(Debug)]
pub struct Request {
    /// The method.
    pub method: Method,
    /// The full URL, query string included.
    pub url: String,
    /// The header fields.
    pub headers: HeaderMap,
    /// The JSON document to send as the body, if the request has one.
    pub body: Option<Value>,
}

/// A request as a mathematical value.
pub struct RequestView {
    /// The method.
    pub method: Method,
    /// The characters of the URL.
    pub url: Seq<char>,
    /// The header fields: the bytes of each value under its name in small letters.
    pub headers: Map<Seq<char>, Seq<u8>>,
    /// The document in the body.
    pub body: Option<Json>,
}

/// The document in `body`, if there is one.
pub open spec fn document_of(body: Option<Value>) -> Option<Json> {
    match body {
        Some(value) => Some(json_of(value)),
        None => None,
    }
}

impl View for Request {
    type V = RequestView;

    open spec fn view(&self) -> RequestView {
        RequestView {
            method: self.method,
            url: self.url@,
            headers: fields_of(self.headers),
            body: document_of(self.body),
        }
    }
}

} // verus!
