//! What came of a request.

use crate::error::Error;
use crate::operation::{is_success, status_is_success, Operation};
use vstd::prelude::*;

verus! {

/// What came of a request whose response carries a value of type `T`.
#[derive(Debug, Clone)]
pub enum Reply<T> {
    /// No response arrived: the connection failed or timed out.
    Unreachable,
    /// A response arrived.
    Received {
        /// The status code of the response.
        status: u16,
        /// The value decoded from the body, `None` where the body does not
        /// hold one.
        body: Option<T>,
    },
}

impl<T> Reply<T> {
    /// The status of the response, `None` where none arrived.
    pub open spec fn status(self) -> Option<u16> {
        match self {
            Reply::Unreachable => None,
            Reply::Received { status, .. } => Some(status),
        }
    }

    /// The result of an operation that answers with a value: the decoded body
    /// of a response with a success status, an internal error where such a
    /// response holds no value, else the operation's failure.
    pub open spec fn outcome(self, operation: Operation) -> Result<T, Error> {
        match self {
            Reply::Unreachable => Err(operation.failure(None)),
            Reply::Received { status, body } => if !is_success(status) {
                Err(operation.failure(Some(status)))
            } else {
                match body {
                    Some(value) => Ok(value),
                    None => Err(Error::InternalError),
                }
            },
        }
    }

    /// A value that arrives with a success status is the result as it is,
    /// whatever the operation.
    pub proof fn lemma_success_is_passed_on(status: u16, value: T, operation: Operation)
        requires
            is_success(status),
        ensures
            (Reply::Received { status, body: Some(value) }).outcome(operation) == Ok::<T, Error>(
                value,
            ),
    {
    }

    /// Without a response with a success status the result is an error: no
    /// failure passes for a success.
    pub proof fn lemma_failure_is_reported(self, operation: Operation)
        requires
            self.status() is None || !is_success(self.status().unwrap()),
        ensures
            self.outcome(operation) == Err::<T, Error>(operation.failure(self.status())),
    {
    }

    /// Settles an operation that answers with a value.
    pub fn settle(self, operation: Operation) -> (result: Result<T, Error>)
        ensures
            result == self.outcome(operation),
            result is Ok ==> self.status() is Some && is_success(self.status().unwrap()),
    {
        match self {
            Reply::Unreachable => Err(operation.classify(None)),
            Reply::Received { status, body } => {
                if status_is_success(status) {
                    match body {
                        Some(value) => Ok(value),
                        None => Err(Error::InternalError),
                    }
                } else {
                    Err(operation.classify(Some(status)))
                }
            },
        }
    }
}

} // verus!
