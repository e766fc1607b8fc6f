//! The failures a handler can report, and the response each one becomes.

use crate::json::{insert_text, new_object, JsonMember, JsonScalar};
use crate::response::{
    ApiResponse, STATUS_BAD_REQUEST, STATUS_INTERNAL_SERVER_ERROR, STATUS_NOT_FOUND,
};
use vstd::prelude::*;

verus! {

/// Why a request was not served.
#[derive(Debug, PartialEq, Eq)]
pub enum ApiError {
    /// The record asked for does not exist.
    NotFound,
    /// The request was malformed; the text says how.
    InvalidInput(String),
    /// The service failed.
    InternalError,
}

/// The body of every error response: one member, `error`, that holds the
/// message.
pub open spec fn error_envelope(message: Seq<char>) -> Seq<JsonMember> {
    seq![("error"@, JsonScalar::Text(message))]
}

impl ApiError {
    /// The HTTP status that stands for this error.
    pub open spec fn spec_status_code(&self) -> u16 {
        match self {
            ApiError::NotFound => 404,
            ApiError::InvalidInput(_) => 400,
            ApiError::InternalError => 500,
        }
    }

    /// The text that tells the client what went wrong.
    pub open spec fn spec_message(&self) -> Seq<char> {
        match self {
            ApiError::NotFound => "Data not found"@,
            ApiError::InvalidInput(text) => text@,
            ApiError::InternalError => "Internal server error"@,
        }
    }

    /// The HTTP status that stands for this error.
    pub fn status_code(&self) -> (code: u16)
        ensures
            code == self.spec_status_code(),
    {
        match self {
            ApiError::NotFound => STATUS_NOT_FOUND,
            ApiError::InvalidInput(_) => STATUS_BAD_REQUEST,
            ApiError::InternalError => STATUS_INTERNAL_SERVER_ERROR,
        }
    }

    /// The text that tells the client what went wrong.
    pub fn message(&self) -> (text: String)
        ensures
            text@ == self.spec_message(),
    {
        match self {
            ApiError::NotFound => "Data not found".to_owned(),
            ApiError::InvalidInput(text) => text.clone(),
            ApiError::InternalError => "Internal server error".to_owned(),
        }
    }

    /// The response that reports this error: its status, and its message in
    /// the envelope.
    pub fn into_response(self) -> (response: ApiResponse)
        ensures
            response.status == self.spec_status_code(),
            response.members() == error_envelope(self.spec_message()),
    {
        let status: u16 = self.status_code();
        let message: String = self.message();
        let mut body = new_object();
        insert_text(&mut body, "error", message.as_str());
        ApiResponse { status, body }
    }
}

} // verus!
