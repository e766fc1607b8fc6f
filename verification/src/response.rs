//! What the service answers: a status code and a JSON object.

use crate::error::{error_envelope, ApiError};
use crate::json::{object_members, JsonMember, JsonObject};
use vstd::prelude::*;

verus! {

/// HTTP status of a successful answer.
pub const STATUS_OK: u16 = 200;

/// HTTP status for input that the service refuses.
pub const STATUS_BAD_REQUEST: u16 = 400;

/// HTTP status for a record that does not exist.
pub const STATUS_NOT_FOUND: u16 = 404;

/// HTTP status for a failure inside the service.
pub const STATUS_INTERNAL_SERVER_ERROR: u16 = 500;

/// An answer of the service, before it is put on the wire.
pub struct ApiResponse {
    /// The HTTP status code.
    pub status: u16,
    /// The body, sent as `application/json`.
    pub body: JsonObject,
}

impl ApiResponse {
    /// The members of the body, in the order in which they are written.
    pub open spec fn members(&self) -> Seq<JsonMember> {
        object_members(self.body)
    }

    /// The answer to a request that succeeded with `body`.
    pub fn ok(body: JsonObject) -> (response: ApiResponse)
        ensures
            response.status == 200,
            response.body == body,
    {
        ApiResponse { status: STATUS_OK, body }
    }

    /// The answer for what a handler returned: its body with status 200, or
    /// the response of its error.
    pub fn from_outcome(outcome: Result<JsonObject, ApiError>) -> (response: ApiResponse)
        ensures
            outcome matches Ok(body) ==> response.status == 200 && response.body == body,
            outcome matches Err(error) ==> response.status == error.spec_status_code()
                && response.members() == error_envelope(error.spec_message()),
    {
        match outcome {
            Ok(body) => ApiResponse::ok(body),
            Err(error) => error.into_response(),
        }
    }
}

} // verus!
