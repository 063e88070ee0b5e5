//! Trusted description of the streaming source, `worker::ByteStream`, and of
//! the std types through which it is polled.
//!
//! Nothing in this file is proved. A source is opaque: what a poll gives
//! depends on the world outside, so the poll promises nothing about its result.

use vstd::prelude::*;
use crate::poll::Polled;
use futures::Stream;
use std::pin::Pin;
use std::task::Context;
use std::task::Poll;
use worker::ByteStream;

verus! {

/// `worker::ByteStream`, opaque to Verus.
#[verifier::external_type_specification]
#[verifier::external_body]
pub struct ExByteStream(ByteStream);

/// `worker::Error`, opaque to Verus; it is only carried through.
#[verifier::external_type_specification]
#[verifier::external_body]
pub struct ExError(worker::Error);

/// `std::pin::Pin`, opaque to Verus.
#[verifier::external_type_specification]
#[verifier::external_body]
#[verifier::reject_recursive_types(Ptr)]
pub struct ExPin<Ptr>(Pin<Ptr>);

/// `std::task::Context`, opaque to Verus; it is only handed on.
#[verifier::external_type_specification]
#[verifier::external_body]
pub struct ExContext<'a>(Context<'a>);

/// The source that a pinned box holds.
pub uninterp spec fn pinned(handle: Pin<Box<ByteStream>>) -> ByteStream;

/// What `Stream::size_hint` reports for a source as it stands: a lower bound
/// and, where known, an upper bound on what is still to come.
pub uninterp spec fn source_estimate(source: ByteStream) -> (usize, Option<usize>);

/// Calls `Box::pin`, which moves the source to the heap and pins it there.
/// The handle holds the source that went in.
#[verifier::external_body]
pub(crate) fn pin_source(source: ByteStream) -> (handle: Pin<Box<ByteStream>>)
    ensures
        pinned(handle) == source,
{
    Box::pin(source)
}

/// Calls `Stream::size_hint` on the pinned source. The estimate is that of
/// the source as it stands, which is named, not stated. One fact is claimed of
/// it: an upper bound, where one is given, is not below the lower bound.
/// `worker::ByteStream` keeps the default estimate of the `Stream` trait, which
/// gives no upper bound at all.
#[verifier::external_body]
pub(crate) fn estimate(handle: &Pin<Box<ByteStream>>) -> (bounds: (usize, Option<usize>))
    ensures
        bounds == source_estimate(pinned(*handle)),
        bounds.1 matches Some(upper) ==> bounds.0 <= upper,
{
    handle.size_hint()
}

/// Calls `Stream::poll_next` on the pinned source and hands on what it gives,
/// with `cx` registered for the wake-up where it gives nothing yet. Nothing is
/// claimed of the answer, nor of the source afterwards.
#[verifier::external_body]
pub(crate) fn poll_source(handle: &mut Pin<Box<ByteStream>>, cx: &mut Context<'_>) -> (polled: Polled<
    Option<Result<Vec<u8>, worker::Error>>,
>) {
    match handle.as_mut().poll_next(cx) {
        Poll::Ready(item) => Polled::Ready(item),
        Poll::Pending => Polled::Pending,
    }
}

} // verus!
