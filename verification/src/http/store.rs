//! Materialization: draining a body into one buffer in memory.
//!
//! WARNING: nothing bounds the memory that this takes. A large or hostile
//! source is gathered whole, however long it is.
//!
//! Draining a streaming body means polling it until it ends, and a poll may
//! have to wait. So the work is cut into steps: each step polls at most once,
//! and the caller repeats the step while it says [`Stored::More`], and after a
//! wake-up where it says [`Stored::Pending`].

use vstd::prelude::*;
use crate::buf::contents;
use crate::http::body::Body;
use crate::http::body::Chunked;
use crate::http::body::State;
use crate::poll::Polled;
use bytes::Bytes;
use std::task::Context;

verus! {

/// Where a materialization stands after one step.
pub enum Stored {
    /// All bytes are in this buffer, and the body holds the same bytes.
    Done(Bytes),
    /// The source failed. The materialization is given up; what was gathered
    /// is lost.
    Failed(worker::Error),
    /// A chunk was taken in; the body may have more.
    More,
    /// The source has no answer yet.
    Pending,
}

/// One answer of a chunked read taken in, as a relation between what was
/// gathered before, the answer, what is gathered after, and the step.
///
/// A chunk is put behind what was gathered; an empty chunk adds nothing and is
/// no error. The end of the body hands out all that was gathered. An error
/// ends the gathering with that error.
pub open spec fn gather_step(before: Seq<u8>, polled: Chunked, after: Seq<u8>, step: Stored) -> bool {
    match polled {
        Polled::Ready(Some(Ok(chunk))) => step == Stored::More && after == before + contents(chunk),
        Polled::Ready(Some(Err(error))) => step == Stored::Failed(error) && after.len() == 0,
        Polled::Ready(None) => step matches Stored::Done(whole) && contents(whole) == before
            && after.len() == 0,
        Polled::Pending => step == Stored::Pending && after == before,
    }
}

/// One step of a materialization, as a relation between the body and the
/// gathered bytes before and after it, and the step.
///
/// A body in memory is done at once and stays as it is. A streaming body is
/// done when its source ends: it then holds what was gathered. Until then, and
/// on an error, it stays a streaming body.
pub open spec fn store_step(
    before: State,
    gathered: Seq<u8>,
    after: State,
    left: Seq<u8>,
    step: Stored,
) -> bool {
    match before.buffered() {
        Some(data) => after == before && left == gathered && (step matches Stored::Done(whole)
            && contents(whole) == data),
        None => match step {
            Stored::Done(whole) => contents(whole) == gathered && after == State::Once(gathered)
                && left.len() == 0,
            Stored::Failed(_) => after is Streaming && left.len() == 0,
            Stored::More => after is Streaming && gathered.is_prefix_of(left),
            Stored::Pending => after is Streaming && left == gathered,
        },
    }
}

/// Takes one answer of a chunked read into `gathered`.
pub fn gather(gathered: &mut Vec<u8>, polled: Chunked) -> (step: Stored)
    ensures
        gather_step(old(gathered)@, polled, final(gathered)@, step),
{
    match polled {
        Polled::Ready(Some(Ok(chunk))) => {
            let ghost before = gathered@;
            gathered.extend_from_slice(chunk.as_ref());
            assert(gathered@ =~= before + contents(chunk));
            Stored::More
        },
        Polled::Ready(Some(Err(error))) => {
            gathered.clear();
            Stored::Failed(error)
        },
        Polled::Ready(None) => {
            let mut whole: Vec<u8> = Vec::new();
            std::mem::swap(gathered, &mut whole);
            Stored::Done(Bytes::from(whole))
        },
        Polled::Pending => Stored::Pending,
    }
}

impl Body {
    /// Stores all bytes in memory, one step at a time.
    ///
    /// WARNING: this may take **unbounded memory**.
    ///
    /// A body in memory gives its bytes at once, without being read. A
    /// streaming body is polled once and the answer is taken into `gathered`,
    /// which must be empty at the first step and be left alone between steps.
    /// When the source ends, the body is replaced by one that holds the
    /// gathered bytes, so that a later call gives them again without reading
    /// anything. When the source fails, the error is handed on and the body
    /// stays a streaming body around the partly drained source.
    pub fn store_all_unlimited(&mut self, gathered: &mut Vec<u8>, cx: &mut Context<'_>) -> (step:
        Stored)
        ensures
            store_step(old(self)@, old(gathered)@, final(self)@, final(gathered)@, step),
    {
        match self.bytes() {
            Some(held) => {
                return Stored::Done(held);
            },
            None => {},
        }
        let polled = self.poll_data(cx);
        match gather(gathered, polled) {
            Stored::Done(whole) => {
                *self = Body::from(whole.clone());
                Stored::Done(whole)
            },
            other => other,
        }
    }
}

/// The chunks of a sequence put one behind the other.
pub open spec fn joined(chunks: Seq<Seq<u8>>) -> Seq<u8>
    decreases chunks.len(),
{
    if chunks.len() == 0 {
        Seq::empty()
    } else {
        joined(chunks.drop_last()) + chunks.last()
    }
}

/// Gathering joins the chunks in the order of their arrival: when chunks
/// `chunks[0]`, `chunks[1]`, ... are taken in one after the other, starting
/// from nothing, and the body then ends, the buffer handed out holds exactly
/// the chunks joined. `levels[i]` is what is gathered before chunk `i`.
pub proof fn law_gather_joins_in_order(
    chunks: Seq<Bytes>,
    levels: Seq<Seq<u8>>,
    left: Seq<u8>,
    end: Stored,
)
    requires
        levels.len() == chunks.len() + 1,
        levels[0].len() == 0,
        forall|i: int|
            0 <= i < chunks.len() ==> gather_step(
                levels[i],
                Polled::Ready(Some(Ok(#[trigger] chunks[i]))),
                levels[i + 1],
                Stored::More,
            ),
        gather_step(levels[chunks.len() as int], Polled::Ready(None), left, end),
    ensures
        end matches Stored::Done(whole) && contents(whole) == joined(
            chunks.map_values(|chunk: Bytes| contents(chunk)),
        ),
{
    lemma_levels_are_joined(chunks, levels, chunks.len() as int);
    assert(chunks.take(chunks.len() as int) == chunks);
}

proof fn lemma_levels_are_joined(chunks: Seq<Bytes>, levels: Seq<Seq<u8>>, n: int)
    requires
        0 <= n <= chunks.len(),
        levels.len() == chunks.len() + 1,
        levels[0].len() == 0,
        forall|i: int|
            0 <= i < chunks.len() ==> gather_step(
                levels[i],
                Polled::Ready(Some(Ok(#[trigger] chunks[i]))),
                levels[i + 1],
                Stored::More,
            ),
    ensures
        levels[n] == joined(chunks.take(n).map_values(|chunk: Bytes| contents(chunk))),
    decreases n,
{
    let read = |chunk: Bytes| contents(chunk);
    if n == 0 {
        assert(levels[0] =~= Seq::<u8>::empty());
        assert(chunks.take(0).map_values(read).len() == 0);
    } else {
        lemma_levels_are_joined(chunks, levels, n - 1);
        let upto = chunks.take(n).map_values(read);
        assert(upto.drop_last() =~= chunks.take(n - 1).map_values(read));
        assert(upto.last() == contents(chunks[n - 1]));
        assert(gather_step(
            levels[n - 1],
            Polled::Ready(Some(Ok(chunks[n - 1]))),
            levels[n - 1 + 1],
            Stored::More,
        ));
    }
}

/// A body that was stored stays stored: after a step that says `Done`, any
/// further step says `Done` again, with the same bytes, and leaves the body as
/// it is. Nothing is read a second time.
pub proof fn law_stored_stays_stored(
    before: State,
    gathered: Seq<u8>,
    stored: State,
    left: Seq<u8>,
    first: Stored,
    again: Seq<u8>,
    after: State,
    last: Seq<u8>,
    second: Stored,
)
    requires
        store_step(before, gathered, stored, left, first),
        first is Done,
        store_step(stored, again, after, last, second),
    ensures
        after == stored,
        last == again,
        second matches Stored::Done(whole) && contents(whole) == contents(first->Done_0),
        stored.buffered() == Some(contents(first->Done_0)),
{
}

/// Materializing a body that is in memory gives exactly its bytes and is a
/// no-op on the body.
pub proof fn law_store_in_memory_is_no_op(
    before: State,
    gathered: Seq<u8>,
    after: State,
    left: Seq<u8>,
    step: Stored,
)
    requires
        before.buffered() is Some,
        store_step(before, gathered, after, left, step),
    ensures
        after == before,
        left == gathered,
        step matches Stored::Done(whole) && Some(contents(whole)) == before.buffered(),
{
}

} // verus!
