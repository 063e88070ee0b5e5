//! The response envelope around a body.

use vstd::prelude::*;
use crate::head::header_count;
use crate::head::status_number;
use crate::http::body::Body;
use crate::http::body::State;
use hyper::http::HeaderValue;
use hyper::HeaderMap;
use hyper::StatusCode;

verus! {

/// A response: status, headers and body.
pub struct Response {
    pub status: StatusCode,
    pub headers: HeaderMap<HeaderValue>,
    pub body: Body,
}

impl Response {
    /// The response with the given status, no headers and an empty body.
    #[must_use]
    pub fn with_status(status: StatusCode) -> (response: Response)
        ensures
            response.status == status,
            header_count(response.headers) == 0,
            response.body@ == State::Empty,
    {
        Response { status, headers: HeaderMap::new(), body: Body::empty() }
    }
}

impl Default for Response {
    /// The response with status 200, no headers and an empty body.
    fn default() -> (response: Response)
        ensures
            status_number(response.status) == 200,
            header_count(response.headers) == 0,
            response.body@ == State::Empty,
    {
        Response::with_status(StatusCode::default())
    }
}

} // verus!
