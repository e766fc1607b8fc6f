//! The routes of the service, and the answer to a request that came in
//! through one of them.
//!
//! Every route answers `GET`. Matching a path against the patterns, and
//! reading the identifier out of it, is the HTTP framework's work: what
//! reaches [`dispatch`] is a [`Request`] that already names its route.

use crate::error::error_envelope;
use crate::handlers::{get_user, health_check, health_members, list_users, user_members};
use crate::response::ApiResponse;
use vstd::prelude::*;

verus! {

/// An endpoint of the service.
#[derive(Debug, Clone, Copy, PartialEq, Eq, Structural)]
pub enum Route {
    /// Tells whether the server is running.
    Health,
    /// Lists the users.
    ListUsers,
    /// Shows one user, named by the identifier in the path.
    GetUser,
}

impl Route {
    /// The path pattern under which the route is registered.
    pub open spec fn spec_path(self) -> Seq<char> {
        match self {
            Route::Health => "/health"@,
            Route::ListUsers => "/users"@,
            Route::GetUser => "/users/{id}"@,
        }
    }

    /// The path pattern under which the route is registered; `{id}` stands
    /// for a path segment that holds an unsigned integer.
    pub fn path(&self) -> (path: &'static str)
        ensures
            path@ == self.spec_path(),
    {
        match self {
            Route::Health => "/health",
            Route::ListUsers => "/users",
            Route::GetUser => "/users/{id}",
        }
    }
}

/// No two routes share a path pattern, so a path leads to at most one
/// handler.
pub proof fn lemma_route_paths_distinct(first: Route, second: Route)
    requires
        first != second,
    ensures
        first.spec_path() != second.spec_path(),
{
    reveal_strlit("/health");
    reveal_strlit("/users");
    reveal_strlit("/users/{id}");
    assert("/health"@.len() == 7);
    assert("/users"@.len() == 6);
    assert("/users/{id}"@.len() == 11);
}

/// The routes of the service, in the order in which they are registered.
pub fn routes() -> (table: Vec<Route>)
    ensures
        table@ == seq![Route::Health, Route::ListUsers, Route::GetUser],
{
    vec![Route::Health, Route::ListUsers, Route::GetUser]
}

/// A request after routing: the endpoint it reached and what was read from
/// its path.
#[derive(Debug, Clone, Copy, PartialEq, Eq, Structural)]
pub enum Request {
    /// `GET /health`
    Health,
    /// `GET /users`
    ListUsers,
    /// `GET /users/{id}`
    GetUser {
        /// The identifier in the path.
        id: u32,
    },
}

impl Request {
    /// The route through which the request came in.
    pub open spec fn spec_route(self) -> Route {
        match self {
            Request::Health => Route::Health,
            Request::ListUsers => Route::ListUsers,
            Request::GetUser { .. } => Route::GetUser,
        }
    }

    /// The route through which the request came in.
    pub fn route(&self) -> (route: Route)
        ensures
            route == self.spec_route(),
    {
        match self {
            Request::Health => Route::Health,
            Request::ListUsers => Route::ListUsers,
            Request::GetUser { .. } => Route::GetUser,
        }
    }
}

/// Answers a request: runs the handler of its route and turns what the
/// handler returned into a response.
pub fn dispatch(request: Request) -> (response: ApiResponse)
    ensures
        request is Health ==> response.status == 200 && response.members() == health_members(),
        request is ListUsers ==> response.status == 500 && response.members() == error_envelope(
            "Internal server error"@,
        ),
        request matches Request::GetUser { id } ==> id <= 100 ==> response.status == 200
            && response.members() == user_members(id),
        request matches Request::GetUser { id } ==> id > 100 ==> response.status == 404
            && response.members() == error_envelope("Data not found"@),
        response.status == 200 || exists|message: Seq<char>|
            response.members() == error_envelope(message),
{
    match request {
        Request::Health => ApiResponse::ok(health_check()),
        Request::ListUsers => ApiResponse::from_outcome(list_users()),
        Request::GetUser { id } => ApiResponse::from_outcome(get_user(id)),
    }
}

} // verus!
