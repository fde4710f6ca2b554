//! The router: method and path select one of three behaviors or the 404
//! fallback, and for the immediate behaviors the response itself.

use vstd::prelude::*;
use crate::response::HttpResponse;
use crate::response::is_cors_response;
use crate::response::is_not_found;
use crate::response::is_plain_response;
use crate::response::not_found_response;
use crate::response::plain_response;
use crate::response::response_build;
use crate::strutil::str_eq;

verus! {

/// The behavior a request is routed to.
#[derive(PartialEq, Eq, Structural, Clone, Copy, Debug)]
pub enum Route {
    /// `OPTIONS /compute`: CORS preflight, empty body behind the headers.
    CorsPreflight,
    /// `GET /`: the plain-text usage instructions.
    Instructions,
    /// `POST /compute`: decode the body and run the tax pipeline.
    Compute,
    /// Anything else.
    NotFound,
}

/// Which route a method and path select.
pub open spec fn spec_route(method: Seq<char>, path: Seq<char>) -> Route {
    if method == "OPTIONS"@ && path == "/compute"@ {
        Route::CorsPreflight
    } else if method == "GET"@ && path == "/"@ {
        Route::Instructions
    } else if method == "POST"@ && path == "/compute"@ {
        Route::Compute
    } else {
        Route::NotFound
    }
}

/// Routes a request by its method and path.
pub fn route_of(method: &str, path: &str) -> (r: Route)
    ensures
        r == spec_route(method@, path@),
{
    if str_eq(method, "OPTIONS") && str_eq(path, "/compute") {
        Route::CorsPreflight
    } else if str_eq(method, "GET") && str_eq(path, "/") {
        Route::Instructions
    } else if str_eq(method, "POST") && str_eq(path, "/compute") {
        Route::Compute
    } else {
        Route::NotFound
    }
}

/// The usage instructions served at the root path.
pub open spec fn instructions_text() -> Seq<char> {
    "Try POSTing data to /compute such as: `curl localhost:8002/compute -XPOST -d '...'`"@
}

/// What the router decides for a request: either a finished response, or
/// the order for the caller to read the body and run the compute pipeline.
pub enum RouteAction {
    /// Answer at once with this response.
    Respond(HttpResponse),
    /// Read the request body and hand it to the decoder.
    ReadAndCompute,
}

/// Dispatches a request: the preflight, instructions and not-found routes
/// get their finished response; the compute route asks the caller to read
/// the body.
pub fn dispatch(method: &str, path: &str) -> (r: RouteAction)
    ensures
        spec_route(method@, path@) is CorsPreflight ==> (r matches RouteAction::Respond(resp)
            && is_cors_response(resp, Seq::<char>::empty())),
        spec_route(method@, path@) is Instructions ==> (r matches RouteAction::Respond(resp)
            && is_plain_response(resp, instructions_text())),
        spec_route(method@, path@) is Compute ==> r is ReadAndCompute,
        spec_route(method@, path@) is NotFound ==> (r matches RouteAction::Respond(resp)
            && is_not_found(resp)),
{
    proof {
        reveal_strlit("");
        assert(""@ =~= Seq::<char>::empty());
    }
    match route_of(method, path) {
        Route::CorsPreflight => RouteAction::Respond(response_build("")),
        Route::Instructions => RouteAction::Respond(
            plain_response(
                "Try POSTing data to /compute such as: `curl localhost:8002/compute -XPOST -d '...'`",
            ),
        ),
        Route::Compute => RouteAction::ReadAndCompute,
        Route::NotFound => RouteAction::Respond(not_found_response()),
    }
}

/// Any path other than `/` and `/compute` falls through to the 404 route,
/// whatever the method.
pub proof fn lemma_unknown_path_not_found(method: Seq<char>, path: Seq<char>)
    requires
        path != "/"@,
        path != "/compute"@,
    ensures
        spec_route(method, path) is NotFound,
{
}

} // verus!
