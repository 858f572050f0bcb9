//! HTTP responses as plain values: a status code and a body.
//!
//! The handlers here cover the two endpoints with no persistent state:
//! the liveness probe and the echo endpoint.

use vstd::prelude::*;
use vstd::string::StringExecFns;

verus! {

/// Status code of a successful request.
pub const STATUS_OK: u16 = 200;

/// Status code of a successful creation.
pub const STATUS_CREATED: u16 = 201;

/// Status code of a request refused for a conflicting resource.
pub const STATUS_CONFLICT: u16 = 409;

/// Status code of an internal failure.
pub const STATUS_INTERNAL_ERROR: u16 = 500;

/// An HTTP response, reduced to what the service decides: the status code
/// and the body. Headers and transport belong to the server runtime.
pub struct Response {
    pub status: u16,
    pub body: String,
}

/// The liveness probe: always responds 200 with the fixed greeting body.
pub fn health() -> (r: Response)
    ensures
        r.status == STATUS_OK,
        r.body@ == "Hello world!"@,
{
    Response { status: STATUS_OK, body: String::from_str("Hello world!") }
}

/// The echo endpoint: responds 200 with the request body unchanged.
pub fn echo(req_body: String) -> (r: Response)
    ensures
        r.status == STATUS_OK,
        r.body@ == req_body@,
{
    Response { status: STATUS_OK, body: req_body }
}

} // verus!
