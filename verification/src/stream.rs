//! A streamed completion: how the events of the transport become a sequence
//! of partial results.
//!
//! The answer to a streamed call is a sequence of data-only server-sent
//! events. Each frame carries either a JSON-encoded partial completion or
//! the text `[DONE]`, which ends the sequence and is not itself a result.
//! The stream is pull-based: its owner asks the transport for one event only
//! when the consumer asks for the next result, passes the event through
//! [`frame`], has the payload of a data frame decoded, and hands the
//! resulting [`Signal`] to [`CompletionResponseStream::step`], which says
//! what the consumer gets.
//!
//! The policies of the stream:
//! - results are surfaced in the order of their frames, one per frame;
//! - a frame that cannot be decoded is surfaced as an error and ends the
//!   sequence: no frame is skipped in silence;
//! - a failure of the transport is surfaced as an error and ends the
//!   sequence;
//! - a connection that closes without `[DONE]` ends the sequence without an
//!   error;
//! - a stream that has ended stays ended, and holds no connection.

use crate::error::OpenAIError;
use crate::text::str_eq;
use crate::types::CreateCompletionResponse;
use vstd::prelude::*;

verus! {

/// The text of the frame that ends a streamed answer.
pub open spec fn sentinel() -> Seq<char> {
    "[DONE]"@
}

/// What the transport reports when it is asked for the next event.
#[derive(Debug, Clone, PartialEq, Eq)]
pub enum RawEvent {
    /// A frame arrived; this is its data payload.
    Frame(String),
    /// The connection was closed by the other side.
    End,
    /// The transport failed; these are its own words.
    Failure(String),
}

/// What one event of the transport means to the stream.
#[derive(Debug, Clone, PartialEq, Eq)]
pub enum Signal {
    /// The frame that ends the answer.
    Sentinel,
    /// A frame whose payload was decoded.
    Payload(CreateCompletionResponse),
    /// A frame whose payload does not fit the schema; these are the
    /// decoder's own words.
    Malformed(String),
    /// The connection was closed by the other side.
    End,
    /// The transport failed; these are its own words.
    Failure(String),
}

/// An event of the transport after framing: either its meaning is settled,
/// or it is a data frame whose payload is still to be decoded.
#[derive(Debug, Clone, PartialEq, Eq)]
pub enum Framed {
    /// Nothing is left to decode.
    Settled(Signal),
    /// The payload of a data frame, to be decoded into a partial completion
    /// and handed on through [`Signal::decoded`].
    Undecoded(String),
}

/// One element of the produced sequence.
pub type StreamItem = Result<CreateCompletionResponse, OpenAIError>;

/// The two states of a streamed answer.
#[derive(Debug, Clone, Copy, PartialEq, Eq)]
pub enum StreamState {
    /// Events are being read.
    Open,
    /// The answer is over: the sentinel was seen, the connection ended or
    /// failed, a frame was malformed, or the consumer gave up. Terminal.
    Closed,
}

/// How an event of the transport is framed: a frame with the text of the
/// sentinel is the sentinel, any other frame is data to decode.
pub open spec fn framing(event: RawEvent) -> Framed {
    match event {
        RawEvent::Frame(data) => if data@ == sentinel() {
            Framed::Settled(Signal::Sentinel)
        } else {
            Framed::Undecoded(data)
        },
        RawEvent::End => Framed::Settled(Signal::End),
        RawEvent::Failure(message) => Framed::Settled(Signal::Failure(message)),
    }
}

/// What a decoding outcome means to the stream.
pub open spec fn decoding(outcome: Result<CreateCompletionResponse, String>) -> Signal {
    match outcome {
        Ok(payload) => Signal::Payload(payload),
        Err(message) => Signal::Malformed(message),
    }
}

/// The transition of the stream: the state after `signal` arrives in
/// `state`, and what the consumer gets for it.
pub open spec fn transition(state: StreamState, signal: Signal) -> (
    StreamState,
    Option<StreamItem>,
) {
    match state {
        StreamState::Closed => (StreamState::Closed, None),
        StreamState::Open => match signal {
            Signal::Sentinel => (StreamState::Closed, None),
            Signal::Payload(payload) => (StreamState::Open, Some(Ok(payload))),
            Signal::Malformed(message) => (
                StreamState::Closed,
                Some(Err(OpenAIError::DecodeError(message))),
            ),
            Signal::End => (StreamState::Closed, None),
            Signal::Failure(message) => (
                StreamState::Closed,
                Some(Err(OpenAIError::TransportError(message))),
            ),
        },
    }
}

/// The state of a stream that started in `state` and took `signals` in
/// turn.
pub open spec fn state_after(state: StreamState, signals: Seq<Signal>) -> StreamState
    decreases signals.len(),
{
    if signals.len() == 0 {
        state
    } else {
        state_after(transition(state, signals.first()).0, signals.drop_first())
    }
}

/// Everything a consumer gets from a stream that starts in `state` and
/// takes `signals` in turn.
pub open spec fn produced(state: StreamState, signals: Seq<Signal>) -> Seq<StreamItem>
    decreases signals.len(),
{
    if signals.len() == 0 {
        Seq::empty()
    } else {
        let (next, item) = transition(state, signals.first());
        let rest = produced(next, signals.drop_first());
        match item {
            Some(item) => seq![item] + rest,
            None => rest,
        }
    }
}

/// Frames an event of the transport.
pub fn frame(event: RawEvent) -> (framed: Framed)
    ensures
        framed == framing(event),
{
    match event {
        RawEvent::Frame(data) => {
            if str_eq(data.as_str(), "[DONE]") {
                Framed::Settled(Signal::Sentinel)
            } else {
                Framed::Undecoded(data)
            }
        },
        RawEvent::End => Framed::Settled(Signal::End),
        RawEvent::Failure(message) => Framed::Settled(Signal::Failure(message)),
    }
}

impl Signal {
    /// The signal for a data frame whose payload the decoder has been
    /// through: the partial completion, or the decoder's complaint.
    pub fn decoded(outcome: Result<CreateCompletionResponse, String>) -> (signal: Signal)
        ensures
            signal == decoding(outcome),
    {
        match outcome {
            Ok(payload) => Signal::Payload(payload),
            Err(message) => Signal::Malformed(message),
        }
    }
}

/// A parsed stream of server-sent events, read until `[DONE]` is received
/// from the server.
///
/// The stream owns the connection `S` it reads from for as long as it is
/// open, and lets go of it the moment it closes; dropping the stream lets go
/// of it too. It is single-pass: once closed it yields nothing more, and a
/// fresh call must be made to stream again.
pub struct CompletionResponseStream<S> {
    connection: Option<S>,
}

impl<S> CompletionResponseStream<S> {
    /// The connection that the stream holds.
    pub closed spec fn connection(&self) -> Option<S> {
        self.connection
    }

    /// The state of the stream: open exactly as long as it holds its
    /// connection.
    pub open spec fn spec_state(&self) -> StreamState {
        if self.connection() is Some {
            StreamState::Open
        } else {
            StreamState::Closed
        }
    }

    /// The state of the stream.
    #[verifier::when_used_as_spec(spec_state)]
    pub fn state(&self) -> (state: StreamState)
        ensures
            state == self.spec_state(),
    {
        if self.connection.is_some() {
            StreamState::Open
        } else {
            StreamState::Closed
        }
    }

    /// An open stream over `connection`.
    pub fn new(connection: S) -> (stream: Self)
        ensures
            stream.connection() == Some(connection),
            stream.state() is Open,
    {
        CompletionResponseStream { connection: Some(connection) }
    }

    /// Whether the stream is open. Only an open stream is to be fed.
    pub fn is_open(&self) -> (open: bool)
        ensures
            open == (self.state() is Open),
    {
        self.connection.is_some()
    }

    /// The connection to ask for the next event, if the stream is open.
    pub fn connection_mut(&mut self) -> (connection: Option<&mut S>)
        ensures
            connection is Some <==> old(self).state() is Open,
            final(self).state() == old(self).state(),
            connection matches Some(held) ==> {
                &&& old(self).connection() == Some(*held)
                &&& final(self).connection() == Some(*final(held))
            },
    {
        self.connection.as_mut()
    }

    /// Takes one signal and says what the consumer gets for it: `None` when
    /// the sequence is over, else the next result or the error that ends
    /// the sequence. The stream lets go of its connection when it closes.
    pub fn step(&mut self, signal: Signal) -> (item: Option<StreamItem>)
        ensures
            (final(self).state(), item) == transition(old(self).state(), signal),
            final(self).state() is Open ==> final(self).connection() == old(self).connection(),
    {
        if self.connection.is_none() {
            return None;
        }
        match signal {
            Signal::Payload(payload) => Some(Ok(payload)),
            Signal::Sentinel => {
                self.connection = None;
                None
            },
            Signal::End => {
                self.connection = None;
                None
            },
            Signal::Malformed(message) => {
                self.connection = None;
                Some(Err(OpenAIError::DecodeError(message)))
            },
            Signal::Failure(message) => {
                self.connection = None;
                Some(Err(OpenAIError::TransportError(message)))
            },
        }
    }

    /// Gives the stream up: it closes and lets go of its connection.
    pub fn close(&mut self)
        ensures
            final(self).state() is Closed,
            final(self).connection() is None,
    {
        self.connection = None;
    }
}

/// A closed stream stays closed and yields nothing, whatever it is fed: the
/// sequence cannot be restarted.
pub proof fn lemma_closed_is_terminal(signals: Seq<Signal>)
    ensures
        produced(StreamState::Closed, signals) == Seq::<StreamItem>::empty(),
        state_after(StreamState::Closed, signals) == StreamState::Closed,
    decreases signals.len(),
{
    if signals.len() > 0 {
        lemma_closed_is_terminal(signals.drop_first());
    }
}

/// Feeding `first` and then `second` yields what `first` yields, followed
/// by what `second` yields from the state that `first` left.
pub proof fn lemma_produced_split(state: StreamState, first: Seq<Signal>, second: Seq<Signal>)
    ensures
        produced(state, first + second) == produced(state, first) + produced(
            state_after(state, first),
            second,
        ),
        state_after(state, first + second) == state_after(state_after(state, first), second),
    decreases first.len(),
{
    if first.len() == 0 {
        assert(first + second == second);
    } else {
        let next = transition(state, first.first()).0;
        assert((first + second).drop_first() == first.drop_first() + second);
        lemma_produced_split(next, first.drop_first(), second);
    }
}

/// Frames that decode are surfaced one for one, in the order in which they
/// arrived, and leave the stream open.
pub proof fn lemma_payloads_in_order(payloads: Seq<CreateCompletionResponse>)
    ensures
        produced(StreamState::Open, payloads.map_values(|p| Signal::Payload(p)))
            == payloads.map_values(|p| -> StreamItem { Ok(p) }),
        state_after(StreamState::Open, payloads.map_values(|p| Signal::Payload(p)))
            == StreamState::Open,
    decreases payloads.len(),
{
    if payloads.len() > 0 {
        let signals = payloads.map_values(|p| Signal::Payload(p));
        let rest = payloads.drop_first();
        lemma_payloads_in_order(rest);
        assert(signals.drop_first() == rest.map_values(|p| Signal::Payload(p)));
    }
}

/// The sentinel ends the sequence: it is not surfaced itself, and nothing
/// that arrives after it is.
pub proof fn lemma_sentinel_ends_sequence(before: Seq<Signal>, after: Seq<Signal>)
    ensures
        produced(StreamState::Open, before.push(Signal::Sentinel) + after) == produced(
            StreamState::Open,
            before,
        ),
        state_after(StreamState::Open, before.push(Signal::Sentinel) + after)
            == StreamState::Closed,
{
    lemma_ends_sequence(before, Signal::Sentinel, after);
}

/// A connection that closes without the sentinel ends the sequence without
/// an error: what was surfaced before stands, and nothing is added.
pub proof fn lemma_end_ends_sequence(before: Seq<Signal>, after: Seq<Signal>)
    ensures
        produced(StreamState::Open, before.push(Signal::End) + after) == produced(
            StreamState::Open,
            before,
        ),
        state_after(StreamState::Open, before.push(Signal::End) + after) == StreamState::Closed,
{
    lemma_ends_sequence(before, Signal::End, after);
}

proof fn lemma_ends_sequence(before: Seq<Signal>, last: Signal, after: Seq<Signal>)
    requires
        last is Sentinel || last is End,
    ensures
        produced(StreamState::Open, before.push(last) + after) == produced(
            StreamState::Open,
            before,
        ),
        state_after(StreamState::Open, before.push(last) + after) == StreamState::Closed,
{
    let tail = seq![last] + after;
    assert(before.push(last) + after == before + tail);
    lemma_produced_split(StreamState::Open, before, tail);
    assert(tail.drop_first() == after);
    lemma_closed_is_terminal(after);
}

/// An answer of frames that decode, ended by the sentinel: the consumer
/// gets the partial completions, one for one and in order, and nothing
/// else, whatever follows the sentinel.
pub proof fn lemma_answer_ended_by_sentinel(
    payloads: Seq<CreateCompletionResponse>,
    after: Seq<Signal>,
)
    ensures
        produced(
            StreamState::Open,
            payloads.map_values(|p| Signal::Payload(p)).push(Signal::Sentinel) + after,
        ) == payloads.map_values(|p| -> StreamItem { Ok(p) }),
{
    lemma_payloads_in_order(payloads);
    lemma_sentinel_ends_sequence(payloads.map_values(|p| Signal::Payload(p)), after);
}

/// An answer of frames that decode, after which the connection closes
/// without the sentinel: the consumer gets the partial completions, one for
/// one and in order, and no error.
pub proof fn lemma_answer_ended_by_close(payloads: Seq<CreateCompletionResponse>)
    ensures
        produced(
            StreamState::Open,
            payloads.map_values(|p| Signal::Payload(p)).push(Signal::End),
        ) == payloads.map_values(|p| -> StreamItem { Ok(p) }),
{
    let signals = payloads.map_values(|p| Signal::Payload(p));
    lemma_payloads_in_order(payloads);
    lemma_end_ends_sequence(signals, Seq::empty());
    assert(signals.push(Signal::End) + Seq::<Signal>::empty() == signals.push(Signal::End));
}

/// An error is terminal: only the last element of a produced sequence can
/// be one, and the stream is closed after it.
pub proof fn lemma_error_is_last(state: StreamState, signals: Seq<Signal>, i: int)
    requires
        0 <= i < produced(state, signals).len(),
        produced(state, signals)[i] is Err,
    ensures
        i == produced(state, signals).len() - 1,
        state_after(state, signals) == StreamState::Closed,
    decreases signals.len(),
{
    let (next, item) = transition(state, signals.first());
    let rest = signals.drop_first();
    match item {
        Some(item) => {
            if i == 0 {
                lemma_closed_is_terminal(rest);
            } else {
                lemma_error_is_last(next, rest, i - 1);
            }
        },
        None => {
            lemma_error_is_last(next, rest, i);
        },
    }
}

} // verus!
