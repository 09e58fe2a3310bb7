//! The streaming relay: the decision core that drives one streaming HTTP
//! request.
//!
//! The unverified shell performs the outside work — sending the POST,
//! awaiting each body chunk, delivering each line to the issuing window —
//! and hands every observation to [`Relay::step`], which frames the body
//! into lines and decides what happens next: deliver, finish, or abort.
//! Lines are delivered in body order, none split, none repeated, none
//! dropped but blank ones.

use vstd::prelude::*;

use crate::framer::{LineBuffer, decoded, flush_spec, framed, no_newline, rest};

verus! {

/// One streaming request, immutable once submitted: target address, body,
/// and headers attached verbatim (one value per distinct key).
pub struct StreamRequest {
    pub url: String,
    pub body: String,
    pub headers: Vec<(String, String)>,
}

/// Why a relay invocation ended without success.
pub enum RelayError {
    /// Sending the request failed, the response was not a success, or
    /// reading a body chunk failed; carries the underlying description.
    Transport(String),
    /// The target window vanished mid-stream: a delivery was refused.
    DeliveryFailed,
}

impl RelayError {
    /// The display string handed back to the caller of the UI command.
    pub open spec fn message_spec(&self) -> Seq<char> {
        match self {
            RelayError::Transport(d) => d@,
            RelayError::DeliveryFailed => "the window closed before the stream ended"@,
        }
    }

    pub fn message(&self) -> (r: String)
        ensures
            r@ == self.message_spec(),
    {
        match self {
            RelayError::Transport(d) => d.clone(),
            RelayError::DeliveryFailed => "the window closed before the stream ended".to_owned(),
        }
    }
}

/// One observation the shell hands the relay while the request runs.
pub enum RelayEvent {
    /// A chunk of the response body arrived, in body order.
    Chunk(Vec<u8>),
    /// The request could not be sent, the response was not a success, or
    /// reading the next chunk failed; carries the description.
    ReadFailed(String),
    /// Delivering a line was refused: the target window is gone.
    DeliveryRefused,
    /// The body ended without error.
    Closed,
}

/// What the relay decides in response to one event.
pub enum RelayStep {
    /// Deliver these lines to the window, in this order, then read on.
    Deliver(Vec<String>),
    /// The stream is complete: deliver the flushed remainder, if there is
    /// one, and report success.
    Finish(Option<String>),
    /// Abort the invocation with this error; lines already delivered stay
    /// delivered.
    Fail(RelayError),
}

/// The state of one relay invocation: the line buffer of the body read so
/// far. Created at the start of the invocation, discarded at its end.
pub struct Relay {
    buffer: LineBuffer,
}

impl View for Relay {
    type V = Seq<char>;

    closed spec fn view(&self) -> Seq<char> {
        self.buffer@
    }
}

impl Relay {
    /// The buffer invariant: no completed line is ever held back.
    pub open spec fn wf(&self) -> bool {
        no_newline(self@)
    }

    /// A fresh invocation with an empty buffer.
    pub fn new() -> (r: Relay)
        ensures
            r@ == Seq::<char>::empty(),
            r.wf(),
    {
        Relay { buffer: LineBuffer::new() }
    }

    /// Consume one observation and decide: a chunk is framed into the lines
    /// it completes, a failure aborts with the matching error, the end of
    /// the body flushes the remainder.
    pub fn step(&mut self, event: RelayEvent) -> (out: RelayStep)
        requires
            old(self).wf(),
        ensures
            final(self).wf(),
            event matches RelayEvent::Chunk(b) ==> out matches RelayStep::Deliver(lines)
                && lines@.map_values(|l: String| l@) == framed(old(self)@ + decoded(b@))
                && final(self)@ == rest(old(self)@ + decoded(b@)),
            event matches RelayEvent::ReadFailed(d) ==> out matches RelayStep::Fail(e)
                && e matches RelayError::Transport(m) && m@ == d@ && final(self)@ == old(self)@,
            event is DeliveryRefused ==> (final(self)@ == old(self)@) && (out matches
            RelayStep::Fail(e) && e is DeliveryFailed),
            event is Closed ==> (final(self)@ == Seq::<char>::empty()) && (out matches
            RelayStep::Finish(l) && (l is Some <==> flush_spec(old(self)@).0 is Some) && (
            l matches Some(x) ==> flush_spec(old(self)@).0 == Some(x@))),
    {
        match event {
            RelayEvent::Chunk(bytes) => RelayStep::Deliver(self.buffer.feed(bytes.as_slice())),
            RelayEvent::ReadFailed(d) => RelayStep::Fail(RelayError::Transport(d)),
            RelayEvent::DeliveryRefused => RelayStep::Fail(RelayError::DeliveryFailed),
            RelayEvent::Closed => RelayStep::Finish(self.buffer.flush()),
        }
    }
}

} // verus!
