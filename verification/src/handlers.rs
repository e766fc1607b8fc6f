//! The three handlers: what each endpoint computes, given what the router
//! took from the request.

use crate::error::ApiError;
use crate::json::{
    insert_number, insert_text, lemma_upsert_new_key, new_object, object_members, JsonMember,
    JsonObject, JsonScalar,
};
use vstd::prelude::*;

verus! {

/// The highest identifier under which a user is found.
pub const MAX_USER_ID: u32 = 100;

/// The body that reports a running server.
pub open spec fn health_members() -> Seq<JsonMember> {
    seq![
        ("status"@, JsonScalar::Text("ok"@)),
        ("message"@, JsonScalar::Text("Server is running"@)),
    ]
}

/// The record of the user with identifier `id`.
pub open spec fn user_members(id: u32) -> Seq<JsonMember> {
    seq![("id"@, JsonScalar::Number(id as nat)), ("name"@, JsonScalar::Text("User"@))]
}

/// Reports that the server is running. It cannot fail.
pub fn health_check() -> (body: JsonObject)
    ensures
        object_members(body) == health_members(),
{
    let mut body = new_object();
    insert_text(&mut body, "status", "ok");
    proof {
        reveal_strlit("status");
        reveal_strlit("message");
        let first = object_members(body);
        assert("status"@.len() != "message"@.len());
        lemma_upsert_new_key(first, "message"@, JsonScalar::Text("Server is running"@));
    }
    insert_text(&mut body, "message", "Server is running");
    body
}

/// Lists the users. No listing exists yet: the answer is always
/// [`ApiError::InternalError`].
pub fn list_users() -> (outcome: Result<JsonObject, ApiError>)
    ensures
        outcome == Err::<JsonObject, ApiError>(ApiError::InternalError),
{
    Err(ApiError::InternalError)
}

/// Looks up the user with identifier `id`. Identifiers up to
/// [`MAX_USER_ID`] are found, each with the name `User`; any other gives
/// [`ApiError::NotFound`].
pub fn get_user(id: u32) -> (outcome: Result<JsonObject, ApiError>)
    ensures
        id <= 100 ==> (outcome matches Ok(body) && object_members(body) == user_members(id)),
        id > 100 ==> outcome == Err::<JsonObject, ApiError>(ApiError::NotFound),
{
    if id > MAX_USER_ID {
        return Err(ApiError::NotFound);
    }
    let mut body = new_object();
    insert_number(&mut body, "id", id as u64);
    proof {
        reveal_strlit("id");
        reveal_strlit("name");
        let first = object_members(body);
        assert("id"@.len() != "name"@.len());
        lemma_upsert_new_key(first, "name"@, JsonScalar::Text("User"@));
    }
    insert_text(&mut body, "name", "User");
    Ok(body)
}

} // verus!
