//! The router: which of the three routes a request takes, by its method and
//! its path alone.

use vstd::prelude::*;
use crate::text::same_text;

verus! {

/// Where a request goes.
#[derive(Debug, Clone, Copy, PartialEq, Eq, Structural)]
pub enum Route {
    /// The playground page is served.
    Playground,
    /// The body is executed as a GraphQL operation.
    GraphQL,
    /// Nothing is served.
    NotFound,
}

/// The path at which operations are executed. The playground page points
/// the client in the browser at it.
pub const GRAPHQL_ENDPOINT: &'static str = "/graphql";

/// The route of a request: `GET /` is the playground, `POST /graphql` the
/// execution of an operation, and there is no other. Method and path are
/// compared as they stand, letter for letter.
pub open spec fn route_of(method: Seq<char>, path: Seq<char>) -> Route {
    if method == "GET"@ && path == "/"@ {
        Route::Playground
    } else if method == "POST"@ && path == GRAPHQL_ENDPOINT@ {
        Route::GraphQL
    } else {
        Route::NotFound
    }
}

/// Classifies a request by its method and path.
pub fn route(method: &str, path: &str) -> (route: Route)
    ensures
        route == route_of(method@, path@),
{
    if same_text(method, "GET") && same_text(path, "/") {
        Route::Playground
    } else if same_text(method, "POST") && same_text(path, GRAPHQL_ENDPOINT) {
        Route::GraphQL
    } else {
        Route::NotFound
    }
}

} // verus!
