use vstd::prelude::*;

use crate::event::Event;

verus! {

/// The capability of reacting to a broadcast event.
///
/// A client's observable behaviour is modelled by `log`: the sequence of
/// events it has handled so far, oldest first. Handling an event appends it
/// to the log; beyond that a client may keep whatever private state it likes.
pub trait Client: Sized {
    /// The events this client has handled, in the order it received them.
    /// Each implementation chooses what its log is; the default, an always
    /// empty log, is only for boundary adapters outside the verifier's view,
    /// whose record the model cannot see.
    open spec fn log(&self) -> Seq<Event> {
        Seq::<Event>::empty()
    }

    /// React to one event. The event is handed by reference and must not be
    /// retained beyond the call; the handler records it in the client's log.
    fn handle_event(&mut self, event: &Event)
        ensures
            final(self).log() == old(self).log().push(*event),
    ;
}

/// A client that keeps every event it receives, in arrival order.
pub struct RecordingClient {
    received: Vec<Event>,
}

impl RecordingClient {
    /// A fresh client with an empty log.
    pub fn new() -> (c: RecordingClient)
        ensures
            c.log() == Seq::<Event>::empty(),
    {
        RecordingClient { received: Vec::new() }
    }

    /// The events received so far, oldest first.
    pub fn received(&self) -> (r: &Vec<Event>)
        ensures
            r@ == self.log(),
    {
        &self.received
    }
}

impl Client for RecordingClient {
    closed spec fn log(&self) -> Seq<Event> {
        self.received@
    }

    fn handle_event(&mut self, event: &Event) {
        self.received.push(*event);
    }
}

/// The error a fallible handler can signal.
#[derive(Debug, Clone, Copy, PartialEq, Eq, Structural)]
pub enum HandlerError {
    /// The base handler was invoked without having been overridden.
    NotImplemented,
}

/// The default-reject base client: a stub whose handler a boundary adapter
/// is expected to override. Invoking the base handler directly always
/// signals `NotImplemented`; it never silently succeeds.
#[derive(Debug, Clone, Copy, PartialEq, Eq, Structural)]
pub struct StubClient {}

impl StubClient {
    pub fn new() -> (c: StubClient)
        ensures
            c == (StubClient {}),
    {
        StubClient {}
    }

    /// The un-overridden base handler: rejects every event.
    pub fn handle_event(&mut self, _event: &Event) -> (r: Result<(), HandlerError>)
        ensures
            r == Err::<(), HandlerError>(HandlerError::NotImplemented),
    {
        Err(HandlerError::NotImplemented)
    }
}

} // verus!
