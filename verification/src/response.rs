//! The response builder: a status, a header list, and a body, with the
//! fixed CORS header set wrapped around every computed answer.

use vstd::prelude::*;

verus! {

/// One response header: a name and a value.
pub struct Header {
    pub name: String,
    pub value: String,
}

/// A response, ready for the transport layer to render.
pub struct HttpResponse {
    pub status: u16,
    pub headers: Vec<Header>,
    pub body: String,
}

/// The fixed CORS header set, in order: origin, methods, headers.
pub open spec fn cors_header_seq(h: Seq<Header>) -> bool {
    &&& h.len() == 3
    &&& h[0].name@ == "Access-Control-Allow-Origin"@
    &&& h[0].value@ == "*"@
    &&& h[1].name@ == "Access-Control-Allow-Methods"@
    &&& h[1].value@ == "GET, POST, OPTIONS"@
    &&& h[2].name@ == "Access-Control-Allow-Headers"@
    &&& h[2].value@ == "api,Keep-Alive,User-Agent,Content-Type"@
}

/// A 200 response carrying the given body behind the CORS headers.
pub open spec fn is_cors_response(r: HttpResponse, body: Seq<char>) -> bool {
    &&& r.status == 200
    &&& cors_header_seq(r.headers@)
    &&& r.body@ == body
}

/// A 200 response with no extra headers.
pub open spec fn is_plain_response(r: HttpResponse, body: Seq<char>) -> bool {
    &&& r.status == 200
    &&& r.headers@.len() == 0
    &&& r.body@ == body
}

/// The empty 404 response for unmatched routes.
pub open spec fn is_not_found(r: HttpResponse) -> bool {
    &&& r.status == 404
    &&& r.headers@.len() == 0
    &&& r.body@.len() == 0
}

/// Wraps a body with the fixed CORS header set, status 200.
pub fn response_build(body: &str) -> (r: HttpResponse)
    ensures
        is_cors_response(r, body@),
{
    let mut headers: Vec<Header> = Vec::new();
    headers.push(
        Header { name: "Access-Control-Allow-Origin".to_owned(), value: "*".to_owned() },
    );
    headers.push(
        Header {
            name: "Access-Control-Allow-Methods".to_owned(),
            value: "GET, POST, OPTIONS".to_owned(),
        },
    );
    headers.push(
        Header {
            name: "Access-Control-Allow-Headers".to_owned(),
            value: "api,Keep-Alive,User-Agent,Content-Type".to_owned(),
        },
    );
    HttpResponse { status: 200, headers, body: body.to_owned() }
}

/// A 200 response with the body alone: no extra headers.
pub fn plain_response(body: &str) -> (r: HttpResponse)
    ensures
        is_plain_response(r, body@),
{
    HttpResponse { status: 200, headers: Vec::new(), body: body.to_owned() }
}

/// The empty 404 response.
pub fn not_found_response() -> (r: HttpResponse)
    ensures
        is_not_found(r),
{
    HttpResponse { status: 404, headers: Vec::new(), body: String::new() }
}

} // verus!
