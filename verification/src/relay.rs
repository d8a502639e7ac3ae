//! The event relay: the state machine of the background task that drains the
//! session's event stream and clears the session record on a terminal event.
//!
//! The surrounding process runs the receive loop (the stream receive is a
//! suspension point it alone can perform) and feeds each event to
//! [`EventRelay::on_event`] under the record lock; the relay decides what the
//! event does to the record and whether listening continues.

use vstd::prelude::*;

use crate::state::SessionState;

verus! {

/// A session notification as the relay classifies it: a disconnect-class
/// event is terminal; anything else is only logged by the surrounding
/// process.
#[derive(Clone, Copy, PartialEq, Eq, Structural, Debug)]
pub enum SessionEvent {
    Disconnected,
    Other,
}

/// The relay's two phases: draining the event stream, or done for good. A
/// terminated relay never listens again; a new session spawns a fresh relay.
#[derive(Clone, Copy, PartialEq, Eq, Structural, Debug)]
pub enum RelayPhase {
    Listening,
    Terminated,
}

/// The state machine of one event-relay task.
pub struct EventRelay {
    pub phase: RelayPhase,
}

impl EventRelay {
    /// A relay starts out listening.
    pub fn new() -> (r: Self)
        ensures
            r.phase is Listening,
    {
        EventRelay { phase: RelayPhase::Listening }
    }

    /// Whether the relay is still draining the stream.
    pub fn is_listening(&self) -> (b: bool)
        ensures
            b == (self.phase is Listening),
    {
        match self.phase {
            RelayPhase::Listening => true,
            RelayPhase::Terminated => false,
        }
    }

    /// Handle one event. A disconnect-class event clears the whole session
    /// record — the session it belonged to is gone, so keeping any of its
    /// resources (the relay's own task handle included) would break the
    /// record invariant — and terminates the relay. Any other event leaves
    /// the record and the relay exactly as they were.
    pub fn on_event(&mut self, state: &mut SessionState, event: SessionEvent) -> (keep_listening:
        bool)
        requires
            old(self).phase is Listening,
        ensures
            keep_listening == (event is Other),
            event is Disconnected ==> {
                &&& *final(state) == SessionState::empty()
                &&& final(state).wf()
                &&& !final(state).connected()
                &&& final(self).phase is Terminated
            },
            event is Other ==> {
                &&& *final(state) == *old(state)
                &&& final(self).phase is Listening
            },
    {
        match event {
            SessionEvent::Disconnected => {
                state.active_session = None;
                state.audio_source = None;
                state.event_task = None;
                self.phase = RelayPhase::Terminated;
                false
            },
            SessionEvent::Other => true,
        }
    }

    /// The event stream closed: the relay terminates; the record is left for
    /// an explicit Disconnect (or the next Connect's teardown) to clear.
    pub fn on_stream_closed(&mut self)
        ensures
            final(self).phase is Terminated,
    {
        self.phase = RelayPhase::Terminated;
    }
}

} // verus!
