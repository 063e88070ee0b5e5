//! The message body: empty, one buffer, or a streaming source.
//!
//! A body is read through one operation, [`Body::poll_data`], which the
//! generic stream view ([`Body::poll_next`]) merely renames. The queries
//! ([`Body::is_end_stream`], [`Body::size_hint`], [`Body::remaining_length`],
//! [`Body::bytes`], [`Body::render`]) read the body and leave it as it is.

use vstd::prelude::*;
use crate::buf::contents;
use crate::buf::debug_string;
use crate::buf::debug_text;
use crate::hint::hint_from_estimate;
use crate::poll::Polled;
use crate::source::estimate;
use crate::source::pin_source;
use crate::source::pinned;
use crate::source::poll_source;
use crate::source::source_estimate;
use crate::stream::estimate_of;
use crate::stream::Estimate;
use crate::stream::RemainingLength;
use bytes::Bytes;
use http_body::SizeHint;
use hyper::http::HeaderValue;
use hyper::HeaderMap;
use std::pin::Pin;
use std::task::Context;
use worker::ByteStream;

verus! {

/// What a body is, as a mathematical value.
pub enum State {
    /// Nothing is left to deliver.
    Empty,
    /// One buffer, resident in memory and not yet delivered.
    Once(Seq<u8>),
    /// A source that is polled for chunks.
    Streaming(ByteStream),
}

/// The payload of an HTTP message.
///
/// A body owns its contents alone. Reading is destructive: a buffer is handed
/// out once and the body is empty from then on.
pub struct Body {
    kind: Kind,
}

enum Kind {
    Empty,
    Once { data: Bytes },
    ByteStream { source: Pin<Box<ByteStream>> },
}

/// What one chunked read gives: a chunk, an error of the source, the end of
/// the body (`None`), or no answer yet.
pub type Chunked = Polled<Option<Result<Bytes, worker::Error>>>;

/// What the source gives when it is polled; its chunks are plain vectors.
pub type Sourced = Polled<Option<Result<Vec<u8>, worker::Error>>>;

/// What a poll for trailers gives.
pub type Trailers = Polled<Result<Option<HeaderMap<HeaderValue>>, worker::Error>>;

impl View for Body {
    type V = State;

    closed spec fn view(&self) -> State {
        match self.kind {
            Kind::Empty => State::Empty,
            Kind::Once { data } => State::Once(contents(data)),
            Kind::ByteStream { source } => State::Streaming(pinned(source)),
        }
    }
}

impl State {
    /// The bytes of a body that is wholly in memory; `None` for a streaming
    /// one.
    pub open spec fn buffered(self) -> Option<Seq<u8>> {
        match self {
            State::Empty => Some(Seq::empty()),
            State::Once(data) => Some(data),
            State::Streaming(_) => None,
        }
    }

    /// The chunk that the next read of a body in memory delivers: its buffer,
    /// unless that holds nothing. No chunk of length zero is ever delivered.
    pub open spec fn next_chunk(self) -> Option<Seq<u8>> {
        match self {
            State::Once(data) if data.len() > 0 => Some(data),
            _ => None,
        }
    }

    /// Whether the body has nothing more to deliver, as far as it can tell
    /// without reading. A streaming body counts as complete only if its source
    /// reports an upper bound of zero.
    pub open spec fn is_complete(self) -> bool {
        match self {
            State::Empty => true,
            State::Once(data) => data.len() == 0,
            State::Streaming(source) => source_estimate(source).1 == Some(0usize),
        }
    }

    /// The size estimate: exact for a body in memory, that of the source for a
    /// streaming one.
    pub open spec fn estimate(self) -> Estimate {
        match self {
            State::Empty => Estimate::exactly(0),
            State::Once(data) => Estimate::exactly(data.len()),
            State::Streaming(source) => Estimate {
                lower: source_estimate(source).0 as nat,
                upper: match source_estimate(source).1 {
                    Some(u) => Some(u as nat),
                    None => None,
                },
            },
        }
    }

    /// The diagnostic text. A buffer is shown as a byte-string literal; of a
    /// streaming body only a placeholder and the estimate are shown, since
    /// showing more would mean reading it.
    pub open spec fn rendering(self) -> Seq<char> {
        match self {
            State::Empty => "Body"@,
            State::Once(data) => "Body { once: "@ + debug_text(data) + " }"@,
            State::Streaming(_) => "Body { dyn_stream: \"{..}\", remaining_length: "@
                + self.estimate().narrowed().text() + " }"@,
        }
    }
}

/// Whether `polled` is the answer that a read owes for `chunk`: that chunk,
/// ready and whole, or the end of the body where there is none.
pub open spec fn delivers(polled: Chunked, chunk: Option<Seq<u8>>) -> bool {
    match chunk {
        Some(data) => polled matches Polled::Ready(Some(Ok(buffer))) && contents(buffer) == data,
        None => polled == Polled::<Option<Result<Bytes, worker::Error>>>::Ready(None),
    }
}

/// One chunked read, as a relation between the body before, the body after
/// and the answer.
///
/// A body in memory answers with its next chunk and is empty afterwards. A
/// streaming body stays a streaming body; its answer is whatever its source
/// gave, relayed, so nothing is fixed about it here.
pub open spec fn read_step(before: State, after: State, polled: Chunked) -> bool {
    match before {
        State::Streaming(_) => after is Streaming,
        _ => after == State::Empty && delivers(polled, before.next_chunk()),
    }
}

/// The answer of the body for an answer of its source: the same, with a chunk
/// moved into a buffer.
pub open spec fn relayed(from: Sourced, to: Chunked) -> bool {
    match from {
        Polled::Ready(Some(Ok(bytes))) => to matches Polled::Ready(Some(Ok(buffer))) && contents(
            buffer,
        ) == bytes@,
        Polled::Ready(Some(Err(error))) => to == Polled::Ready(
            Some(Err::<Bytes, worker::Error>(error)),
        ),
        Polled::Ready(None) => to == Polled::<Option<Result<Bytes, worker::Error>>>::Ready(None),
        Polled::Pending => to == Polled::<Option<Result<Bytes, worker::Error>>>::Pending,
    }
}

/// Turns what the source answered into what the body answers. Nothing is
/// dropped, added or retried: a chunk stays that chunk, also an empty one, and
/// an error stays that error.
pub fn relay(polled: Sourced) -> (answer: Chunked)
    ensures
        relayed(polled, answer),
{
    match polled {
        Polled::Ready(Some(Ok(bytes))) => Polled::Ready(Some(Ok(Bytes::from(bytes)))),
        Polled::Ready(Some(Err(error))) => Polled::Ready(Some(Err(error))),
        Polled::Ready(None) => Polled::Ready(None),
        Polled::Pending => Polled::Pending,
    }
}

impl Body {
    /// The body that holds nothing.
    #[must_use]
    pub fn empty() -> (body: Body)
        ensures
            body@ == State::Empty,
    {
        Body { kind: Kind::Empty }
    }

    /// The body that holds one buffer.
    pub fn once(bytes: Bytes) -> (body: Body)
        ensures
            body@ == State::Once(contents(bytes)),
    {
        Body { kind: Kind::Once { data: bytes } }
    }

    /// The body that draws its chunks from `stream`, which it owns from now on
    /// and keeps at a fixed address.
    pub fn stream(stream: ByteStream) -> (body: Body)
        ensures
            body@ == State::Streaming(stream),
    {
        Body { kind: Kind::ByteStream { source: pin_source(stream) } }
    }

    /// Reads the next chunk.
    ///
    /// A body in memory answers at once: with its buffer, if that holds
    /// anything, else with the end of the body; either way it is empty
    /// afterwards. A streaming body polls its source once and relays the
    /// answer as [`relay`] says; it stays a streaming body whatever the answer
    /// is. Only a streaming body can answer `Pending`, and then `cx` is woken
    /// by the source.
    pub fn poll_data(&mut self, cx: &mut Context<'_>) -> (polled: Chunked)
        ensures
            read_step(old(self)@, final(self)@, polled),
    {
        match &mut self.kind {
            Kind::Empty => Polled::Ready(None),
            Kind::Once { data } => {
                let mut bytes = Bytes::new();
                std::mem::swap(data, &mut bytes);
                self.kind = Kind::Empty;
                if bytes.is_empty() {
                    Polled::Ready(None)
                } else {
                    Polled::Ready(Some(Ok(bytes)))
                }
            },
            Kind::ByteStream { source } => {
                let polled = poll_source(source, cx);
                relay(polled)
            },
        }
    }

    /// Polls for trailers. There are none: the answer is always ready and
    /// empty, and the body is not touched.
    pub fn poll_trailers(&mut self, _cx: &mut Context<'_>) -> (polled: Trailers)
        ensures
            polled == Polled::Ready(Ok::<Option<HeaderMap<HeaderValue>>, worker::Error>(None)),
            *final(self) == *old(self),
    {
        Polled::Ready(Ok(None))
    }

    /// Whether the body has nothing more to deliver.
    pub fn is_end_stream(&self) -> (complete: bool)
        ensures
            complete == self@.is_complete(),
    {
        match &self.kind {
            Kind::Empty => true,
            Kind::Once { data } => data.is_empty(),
            Kind::ByteStream { source } => {
                match estimate(source).1 {
                    Some(upper) => upper == 0,
                    None => false,
                }
            },
        }
    }

    /// The size estimate, in bytes.
    pub fn size_hint(&self) -> (hint: SizeHint)
        ensures
            estimate_of(hint) == self@.estimate(),
    {
        match &self.kind {
            Kind::Empty => SizeHint::with_exact(0),
            Kind::Once { data } => SizeHint::with_exact(data.len() as u64),
            Kind::ByteStream { source } => {
                let (lower, upper) = estimate(source);
                hint_from_estimate(lower, upper)
            },
        }
    }

    /// Produces the next item of the body seen as a stream of chunks. This is
    /// [`Body::poll_data`] under another name.
    pub fn poll_next(&mut self, cx: &mut Context<'_>) -> (polled: Chunked)
        ensures
            read_step(old(self)@, final(self)@, polled),
    {
        self.poll_data(cx)
    }

    /// How many bytes are left, derived from the size estimate.
    pub fn remaining_length(&self) -> (length: RemainingLength)
        ensures
            length@ == self@.estimate().narrowed(),
    {
        let hint = self.size_hint();
        RemainingLength::from_size_hint(&hint)
    }

    /// The diagnostic text of the body.
    pub fn render(&self) -> (text: String)
        ensures
            text@ == self@.rendering(),
    {
        match &self.kind {
            Kind::Empty => String::from_str("Body"),
            Kind::Once { data } => {
                let mut text = String::from_str("Body { once: ");
                text.append(debug_string(data).as_str());
                text.append(" }");
                text
            },
            Kind::ByteStream { .. } => {
                let mut text = String::from_str("Body { dyn_stream: \"{..}\", remaining_length: ");
                text.append(self.remaining_length().render().as_str());
                text.append(" }");
                text
            },
        }
    }

    /// The bytes of a body that is wholly in memory, without taking them out
    /// of it; `None` for a streaming body.
    pub fn bytes(&self) -> (held: Option<Bytes>)
        ensures
            match self@.buffered() {
                Some(data) => held matches Some(buffer) && contents(buffer) == data,
                None => held is None,
            },
    {
        match &self.kind {
            Kind::Empty => Some(Bytes::new()),
            Kind::Once { data } => Some(data.clone()),
            _ => None,
        }
    }
}

impl Default for Body {
    /// The default body holds nothing.
    fn default() -> (body: Body)
        ensures
            body@ == State::Empty,
    {
        Body::empty()
    }
}

impl From<Bytes> for Body {
    /// The body that holds the given buffer, which is taken over, not copied.
    fn from(bytes: Bytes) -> (body: Body)
        ensures
            body@ == State::Once(contents(bytes)),
    {
        Body { kind: Kind::Once { data: bytes } }
    }
}

impl vstd::std_specs::convert::FromSpecImpl<Bytes> for Body {
    open spec fn obeys_from_spec() -> bool {
        true
    }

    closed spec fn from_spec(bytes: Bytes) -> Body {
        Body { kind: Kind::Once { data: bytes } }
    }
}

impl From<Vec<u8>> for Body {
    /// The body that holds the bytes of the given vector, which is taken over.
    fn from(value: Vec<u8>) -> (body: Body)
        ensures
            body@ == State::Once(value@),
    {
        Body::once(Bytes::from(value))
    }
}

/// The buffer made from a vector is known by its bytes only, so the conversion
/// is stated by the `ensures` of `from`.
impl vstd::std_specs::convert::FromSpecImpl<Vec<u8>> for Body {
    open spec fn obeys_from_spec() -> bool {
        false
    }

    open spec fn from_spec(value: Vec<u8>) -> Body {
        arbitrary()
    }
}

impl From<String> for Body {
    /// The body that holds the UTF-8 encoding of the given text.
    fn from(value: String) -> (body: Body)
        ensures
            body@ == State::Once(vstd::utf8::encode_utf8(value@)),
    {
        Body::once(Bytes::from(value))
    }
}

/// The buffer made from a string is known by its bytes only, so the conversion
/// is stated by the `ensures` of `from`.
impl vstd::std_specs::convert::FromSpecImpl<String> for Body {
    open spec fn obeys_from_spec() -> bool {
        false
    }

    open spec fn from_spec(value: String) -> Body {
        arbitrary()
    }
}

/// The bytes that an answer of a read carries: those of its chunk, or none.
pub open spec fn carried(polled: Chunked) -> Seq<u8> {
    match polled {
        Polled::Ready(Some(Ok(buffer))) => contents(buffer),
        _ => Seq::empty(),
    }
}

/// A buffer is delivered once. Of the reads of a body made from a buffer, the
/// first gives exactly that buffer's bytes, or the end of the body if the
/// buffer holds nothing; every later read gives the end of the body. The body
/// is empty after the first read and stays so.
///
/// `states[i]` is the body before read `i`, `answers[i]` what that read gave.
pub proof fn law_buffer_is_delivered_once(
    data: Seq<u8>,
    states: Seq<State>,
    answers: Seq<Chunked>,
)
    requires
        states.len() == answers.len() + 1,
        states[0] == State::Once(data),
        forall|i: int|
            0 <= i < answers.len() ==> read_step(states[i], states[i + 1], #[trigger] answers[i]),
    ensures
        answers.len() > 0 ==> delivers(
            answers[0],
            if data.len() == 0 {
                None
            } else {
                Some(data)
            },
        ),
        forall|i: int|
            1 <= i < answers.len() ==> #[trigger] answers[i] == Polled::<
                Option<Result<Bytes, worker::Error>>,
            >::Ready(None),
        forall|i: int| 1 <= i < states.len() ==> #[trigger] states[i] == State::Empty,
{
    assert forall|i: int| 1 <= i < states.len() implies #[trigger] states[i] == State::Empty by {
        lemma_empty_after_first_read(data, states, answers, i);
    }
    assert forall|i: int| 1 <= i < answers.len() implies #[trigger] answers[i] == Polled::<
        Option<Result<Bytes, worker::Error>>,
    >::Ready(None) by {
        lemma_empty_after_first_read(data, states, answers, i);
        assert(read_step(states[i], states[i + 1], answers[i]));
    }
    if answers.len() > 0 {
        assert(read_step(states[0], states[1], answers[0]));
    }
}

proof fn lemma_empty_after_first_read(
    data: Seq<u8>,
    states: Seq<State>,
    answers: Seq<Chunked>,
    n: int,
)
    requires
        states.len() == answers.len() + 1,
        states[0] == State::Once(data),
        forall|i: int|
            0 <= i < answers.len() ==> read_step(states[i], states[i + 1], #[trigger] answers[i]),
        1 <= n < states.len(),
    ensures
        states[n] == State::Empty,
    decreases n,
{
    if n > 1 {
        lemma_empty_after_first_read(data, states, answers, n - 1);
    }
    assert(read_step(states[n - 1], states[n - 1 + 1], answers[n - 1]));
}

/// A buffer without bytes is like no buffer: on emptiness, completion, size
/// and reading, a body that holds an empty buffer answers as an empty body
/// does, and one read makes it an empty body.
pub proof fn law_empty_buffer_is_like_empty(data: Seq<u8>, after: State, polled: Chunked)
    requires
        data.len() == 0,
    ensures
        State::Once(data).buffered() == State::Empty.buffered(),
        State::Once(data).next_chunk() == State::Empty.next_chunk(),
        State::Once(data).is_complete() == State::Empty.is_complete(),
        State::Once(data).estimate() == State::Empty.estimate(),
        read_step(State::Once(data), after, polled) <==> read_step(State::Empty, after, polled),
{
    assert(data =~= Seq::<u8>::empty());
}

/// Completion of a fresh body: an empty body and a body made from a buffer
/// without bytes are complete; a body made from a buffer with bytes is not
/// complete, and is complete once it has been read.
pub proof fn law_fresh_completion(data: Seq<u8>, after: State, polled: Chunked)
    requires
        read_step(State::Once(data), after, polled),
    ensures
        State::Empty.is_complete(),
        State::Once(data).is_complete() <==> data.len() == 0,
        after.is_complete(),
{
}

/// The estimate of a fresh body: the exact count of bytes for a body made
/// from a buffer, zero for an empty one, and the source's own estimate for a
/// streaming one.
pub proof fn law_fresh_estimate(data: Seq<u8>, source: ByteStream)
    ensures
        State::Empty.estimate().exact() == Some(0nat),
        State::Once(data).estimate().exact() == Some(data.len()),
        State::Streaming(source).estimate().lower == source_estimate(source).0,
        match source_estimate(source).1 {
            Some(upper) => State::Streaming(source).estimate().upper == Some(upper as nat),
            None => State::Streaming(source).estimate().upper is None,
        },
{
}

/// The diagnostic text of a streaming body shows its estimate and nothing of
/// its contents: two sources with the same estimate are rendered alike, so
/// rendering never depends on reading.
pub proof fn law_rendering_shows_estimate_only(one: ByteStream, other: ByteStream)
    requires
        source_estimate(one) == source_estimate(other),
    ensures
        State::Streaming(one).rendering() == State::Streaming(other).rendering(),
{
}

/// Text survives the passage through a body: what a read of a body made from
/// `text` carries decodes to `text` again.
pub proof fn law_text_round_trip(text: Seq<char>, after: State, polled: Chunked)
    requires
        read_step(State::Once(vstd::utf8::encode_utf8(text)), after, polled),
    ensures
        vstd::utf8::decode_utf8(carried(polled)) == text,
{
    vstd::utf8::encode_utf8_decode_utf8(text);
    if vstd::utf8::encode_utf8(text).len() == 0 {
        assert(carried(polled) =~= vstd::utf8::encode_utf8(text));
    }
}

} // verus!
