//! The two ways an operation fails, and the response each one becomes.

use vstd::prelude::*;
use crate::render::{json_string, json_string_of};

verus! {

/// An operation's failure: the store failed or refused (`StoreError`), or no
/// todo has the identifier asked for (`NotFound`). Each carries its message.
#[derive(Debug, Clone, PartialEq, Eq)]
pub enum AppError {
    StoreError(String),
    NotFound(String),
}

/// HTTP status of a failure of the store.
pub const STATUS_STORE_ERROR: u16 = 500;

/// HTTP status of a request for an unknown identifier.
pub const STATUS_NOT_FOUND: u16 = 404;

impl AppError {
    /// The message that the failure carries.
    pub open spec fn message_view(&self) -> Seq<char> {
        match self {
            AppError::StoreError(m) => m@,
            AppError::NotFound(m) => m@,
        }
    }

    /// The status code of the response: 404 for an unknown identifier, 500
    /// for a failure of the store.
    pub fn status(&self) -> (r: u16)
        ensures
            r == (if self is NotFound {
                STATUS_NOT_FOUND
            } else {
                STATUS_STORE_ERROR
            }),
    {
        match self {
            AppError::StoreError(_) => STATUS_STORE_ERROR,
            AppError::NotFound(_) => STATUS_NOT_FOUND,
        }
    }

    pub fn message(&self) -> (r: String)
        ensures
            r@ == self.message_view(),
    {
        match self {
            AppError::StoreError(m) => m.clone(),
            AppError::NotFound(m) => m.clone(),
        }
    }

    /// The body of the response: a JSON object whose one member `error`
    /// holds the message.
    pub fn body(&self) -> (r: String)
        ensures
            r@ == error_body(self.message_view()),
    {
        let m = self.message();
        let quoted = json_string(m.as_str());
        frame_error(quoted.as_str())
    }
}

/// `{"error":<message as JSON>}`.
pub open spec fn error_body(message: Seq<char>) -> Seq<char> {
    "{\"error\":"@ + json_string_of(message) + "}"@
}

/// The body that a message gets, taking the JSON text of the message as it
/// is given.
pub fn frame_error(quoted: &str) -> (r: String)
    ensures
        r@ == "{\"error\":"@ + quoted@ + "}"@,
{
    let mut r = String::from_str("{\"error\":");
    r.append(quoted);
    r.append("}");
    r
}

} // verus!
