//! Errors that leave the library.

use vstd::prelude::*;
use crate::text::{join_text, debug_form, debug_quoted};

verus! {

/// An error as the surrounding service reports it.
#[derive(Debug, Clone, PartialEq, Eq)]
pub enum ServiceError {
    BadRequest(String),
    InternalServerError(String),
}

/// An error that only carries a message.
#[derive(Debug, Clone, PartialEq, Eq)]
pub struct DefaultError {
    pub message: String,
}

/// The text that prints an internal error with the message `message`.
pub open spec fn internal_error_text(message: Seq<char>) -> Seq<char> {
    "InternalServerError("@ + debug_form(message) + ")"@
}

/// The text that prints a rejected request with the message `message`.
pub open spec fn bad_request_text(message: Seq<char>) -> Seq<char> {
    "BadRequest("@ + debug_form(message) + ")"@
}

impl ServiceError {
    /// The message the error carries.
    pub open spec fn message(&self) -> Seq<char> {
        match self {
            ServiceError::BadRequest(m) => m@,
            ServiceError::InternalServerError(m) => m@,
        }
    }

    /// The text that prints the error for a log or an event: the variant's
    /// name, then the quoted message in round brackets.
    pub open spec fn debug_text(&self) -> Seq<char> {
        match self {
            ServiceError::BadRequest(m) => bad_request_text(m@),
            ServiceError::InternalServerError(m) => internal_error_text(m@),
        }
    }

    /// Renders the error as [`Self::debug_text`] says.
    pub fn to_debug_text(&self) -> (text: String)
        ensures
            text@ == self.debug_text(),
    {
        match self {
            ServiceError::BadRequest(m) => {
                let quoted = debug_quoted(m.as_str());
                let mut text = join_text("BadRequest(", quoted.as_str());
                text.append(")");
                text
            },
            ServiceError::InternalServerError(m) => {
                let quoted = debug_quoted(m.as_str());
                let mut text = join_text("InternalServerError(", quoted.as_str());
                text.append(")");
                text
            },
        }
    }
}

} // verus!
