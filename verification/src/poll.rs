//! The outcome of one non-blocking attempt.

use vstd::prelude::*;

verus! {

/// What one poll gives: a value, or the news that none is available yet and
/// that the notification context handed to the poll will be woken when that
/// changes.
pub enum Polled<T> {
    Ready(T),
    Pending,
}

impl<T> Polled<T> {
    /// Whether the poll produced a value.
    pub fn is_ready(&self) -> (ready: bool)
        ensures
            ready == (self is Ready),
    {
        match self {
            Polled::Ready(_) => true,
            Polled::Pending => false,
        }
    }

    /// Whether the poll has to be repeated after a wake-up.
    pub fn is_pending(&self) -> (pending: bool)
        ensures
            pending == (self is Pending),
    {
        !self.is_ready()
    }
}

} // verus!
