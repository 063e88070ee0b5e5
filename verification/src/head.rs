//! Trusted description of the header and status types of the `http` crate, as
//! `hyper` hands them on.
//!
//! Nothing in this file is proved. The types are carried, not read: all that
//! is stated is what a fresh value of each holds.

use vstd::prelude::*;
use hyper::http::HeaderValue;
use hyper::HeaderMap;
use hyper::StatusCode;

verus! {

/// `http::HeaderMap`, opaque to Verus.
#[verifier::external_type_specification]
#[verifier::external_body]
#[verifier::reject_recursive_types(T)]
pub struct ExHeaderMap<T>(HeaderMap<T>);

/// `http::HeaderValue`, opaque to Verus.
#[verifier::external_type_specification]
#[verifier::external_body]
pub struct ExHeaderValue(HeaderValue);

/// `http::StatusCode`, opaque to Verus.
#[verifier::external_type_specification]
#[verifier::external_body]
pub struct ExStatusCode(StatusCode);

/// The number of headers that a map stores, as `HeaderMap::len` counts them.
pub uninterp spec fn header_count(headers: HeaderMap<HeaderValue>) -> nat;

/// The number of a status, as `StatusCode::as_u16` gives it.
pub uninterp spec fn status_number(status: StatusCode) -> u16;

/// `HeaderMap::new` makes a map without headers.
pub assume_specification[ HeaderMap::<HeaderValue>::new ]() -> (headers: HeaderMap<HeaderValue>)
    ensures
        header_count(headers) == 0,
;

/// The default status is 200 OK.
pub assume_specification[ <StatusCode as Default>::default ]() -> (status: StatusCode)
    ensures
        status_number(status) == 200,
;

} // verus!
