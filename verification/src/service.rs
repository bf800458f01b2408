//! Request handling: the route table and the two handlers' response mappings.
//!
//! Each handler is a single-shot, stateless mapping from plain values to a
//! [`Response`]. The caller performs the network round trip (the
//! administrative ping) and hands its outcome in as a `Result`; everything
//! the service decides about a request is decided here.

use vstd::prelude::*;

verus! {

/// An HTTP response reduced to what the service ever produces: a status code
/// and a plaintext body.
pub struct Response {
    pub status: u16,
    pub body: String,
}

/// The routes the service serves, one per endpoint.
#[derive(Clone, Copy, PartialEq, Eq, Structural, Debug)]
pub enum Route {
    /// The liveness check.
    Health,
    /// The database-connectivity check.
    CheckMongo,
}

/// The route, if any, that a GET request's path is dispatched to.
pub open spec fn routed(path: Seq<char>) -> Option<Route> {
    if path == "/"@ {
        Some(Route::Health)
    } else if path == "/check_mongo"@ {
        Some(Route::CheckMongo)
    } else {
        None
    }
}

/// Dispatches a GET request by path: `/` to the liveness check,
/// `/check_mongo` to the connectivity check, anything else to no route.
pub fn route_get(path: &str) -> (r: Option<Route>)
    ensures
        r == routed(path@),
{
    let p: String = path.to_owned();
    if p == "/".to_owned() {
        Some(Route::Health)
    } else if p == "/check_mongo".to_owned() {
        Some(Route::CheckMongo)
    } else {
        None
    }
}

/// The body of a successful liveness check.
pub open spec fn health_body() -> Seq<char> {
    "Server is running!"@
}

/// The body of a successful connectivity check.
pub open spec fn mongo_ok_body() -> Seq<char> {
    "MongoDB connection is successful!"@
}

/// The fixed prefix of a failed connectivity check's body; the error
/// description follows it verbatim.
pub open spec fn mongo_err_prefix() -> Seq<char> {
    "MongoDB connection failed: "@
}

/// The liveness handler: always succeeds with a fixed body, whatever the
/// request carried. It reads no shared state and has no failure mode.
pub fn health_response() -> (r: Response)
    ensures
        r.status == 200,
        r.body@ == health_body(),
{
    Response { status: 200, body: "Server is running!".to_owned() }
}

/// The status the connectivity check responds with for a given ping outcome:
/// success maps to 200, every failure to 500.
pub open spec fn check_mongo_status(ping: Result<(), String>) -> u16 {
    match ping {
        Ok(_) => 200u16,
        Err(_) => 500u16,
    }
}

/// The body the connectivity check responds with for a given ping outcome.
/// All failure causes are flattened into one message carrying the error
/// description verbatim.
pub open spec fn check_mongo_body(ping: Result<(), String>) -> Seq<char> {
    match ping {
        Ok(_) => mongo_ok_body(),
        Err(e) => mongo_err_prefix() + e@,
    }
}

/// The connectivity handler: maps the outcome of the administrative ping,
/// performed by the caller, to the response. No retry and no taxonomy: one
/// success shape, one failure shape.
pub fn check_mongo_response(ping: Result<(), String>) -> (r: Response)
    ensures
        r.status == check_mongo_status(ping),
        r.body@ == check_mongo_body(ping),
{
    match ping {
        Ok(_) => Response { status: 200, body: "MongoDB connection is successful!".to_owned() },
        Err(e) => Response {
            status: 500,
            body: "MongoDB connection failed: ".to_owned().concat(e.as_str()),
        },
    }
}

/// A failed connectivity check's body is exactly the fixed prefix extended by
/// the error description: the description can be recovered from the body, and
/// a non-empty description leaves the body strictly longer than the prefix.
pub proof fn lemma_failure_body_shape(ping: Result<(), String>)
    requires
        ping is Err,
    ensures
        check_mongo_body(ping).len() == mongo_err_prefix().len() + ping->Err_0@.len(),
        check_mongo_body(ping).subrange(0, mongo_err_prefix().len() as int) == mongo_err_prefix(),
        check_mongo_body(ping).skip(mongo_err_prefix().len() as int) == ping->Err_0@,
        ping->Err_0@.len() > 0 ==> check_mongo_body(ping).len() > mongo_err_prefix().len(),
{
    let e = ping->Err_0@;
    let b = mongo_err_prefix() + e;
    assert(b.subrange(0, mongo_err_prefix().len() as int) =~= mongo_err_prefix());
    assert(b.skip(mongo_err_prefix().len() as int) =~= e);
}

/// Responses are independent of call order and of one another: each handler's
/// result is a function of its own request's data alone, so any two responses
/// the contracts admit for equal ping outcomes agree, whatever else ran in
/// between. No shared mutable state exists for concurrent requests to corrupt.
pub proof fn lemma_responses_independent(
    p1: Result<(), String>,
    p2: Result<(), String>,
    r1: Response,
    r2: Response,
)
    requires
        p1 == p2,
        r1.status == check_mongo_status(p1),
        r1.body@ == check_mongo_body(p1),
        r2.status == check_mongo_status(p2),
        r2.body@ == check_mongo_body(p2),
    ensures
        r1.status == r2.status,
        r1.body@ == r2.body@,
{
}

} // verus!
