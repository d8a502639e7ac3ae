//! The session record: the single authoritative statement of whether the
//! bridge is connected, and which resources belong to the active session.

use vstd::prelude::*;

verus! {

/// How many milliseconds of audio the capture source's internal buffer holds.
pub const AUDIO_BUFFER_MS: u32 = 1000;

/// Stands for one open conferencing session held by the surrounding process.
#[derive(Clone, Copy, PartialEq, Eq, Structural, Debug)]
pub struct SessionHandle {
    pub id: u64,
}

/// Stands for one spawned event-relay task held by the surrounding process.
#[derive(Clone, Copy, PartialEq, Eq, Structural, Debug)]
pub struct TaskHandle {
    pub id: u64,
}

/// Configuration of an audio capture source: the sample format it accepts and
/// the fixed duration of its bounded internal buffer.
#[derive(Clone, Copy, PartialEq, Eq, Structural, Debug)]
pub struct AudioSource {
    pub sample_rate: u32,
    pub num_channels: u32,
    pub queue_size_ms: u32,
}

impl AudioSource {
    /// A capture source sized for the session's audio parameters, with the
    /// fixed one-second buffer.
    pub fn new(sample_rate: u32, num_channels: u32) -> (s: Self)
        ensures
            s == AudioSource::sized_for(sample_rate, num_channels),
    {
        AudioSource { sample_rate, num_channels, queue_size_ms: AUDIO_BUFFER_MS }
    }

    /// The one capture source configuration a session with these audio
    /// parameters gets.
    pub open spec fn sized_for(sample_rate: u32, num_channels: u32) -> Self {
        AudioSource { sample_rate, num_channels, queue_size_ms: AUDIO_BUFFER_MS }
    }
}

/// The handles removed from the record by a teardown, for the surrounding
/// process to act on: the task to abort and the session to close.
#[derive(Clone, Copy, PartialEq, Eq, Structural, Debug)]
pub struct Teardown {
    pub session: Option<SessionHandle>,
    pub task: Option<TaskHandle>,
}

/// The single authoritative record of the connection and its audio resources.
/// The surrounding process keeps one such record behind a lock and mutates it
/// only through the methods below, each of which is one atomic transition.
pub struct SessionState {
    pub active_session: Option<SessionHandle>,
    pub audio_source: Option<AudioSource>,
    pub event_task: Option<TaskHandle>,
}

impl SessionState {
    /// Invariant: the audio source and the event task are present exactly when
    /// a session is — no resource outlives the session it belongs to.
    pub open spec fn wf(self) -> bool {
        &&& self.audio_source is Some <==> self.active_session is Some
        &&& self.event_task is Some <==> self.active_session is Some
    }

    /// Whether a session is currently stored.
    pub open spec fn connected(self) -> bool {
        self.active_session is Some
    }

    /// The disconnected record: no session, no source, no task.
    pub open spec fn empty() -> Self {
        SessionState { active_session: None, audio_source: None, event_task: None }
    }

    /// The record right after a successful connect stored its resources.
    pub open spec fn connected_record(
        session: SessionHandle,
        source: AudioSource,
        task: TaskHandle,
    ) -> Self {
        SessionState {
            active_session: Some(session),
            audio_source: Some(source),
            event_task: Some(task),
        }
    }

    /// What tearing this record down hands back for the surrounding process
    /// to abort and close.
    pub open spec fn teardown_handles(self) -> Teardown {
        Teardown { session: self.active_session, task: self.event_task }
    }

    /// A fresh, disconnected record.
    pub fn new() -> (s: Self)
        ensures
            s == Self::empty(),
            s.wf(),
    {
        SessionState { active_session: None, audio_source: None, event_task: None }
    }

    /// Pure read of whether a session handle is present.
    pub fn is_connected(&self) -> (b: bool)
        ensures
            b == self.connected(),
    {
        self.active_session.is_some()
    }

    /// Runtime check of the record invariant, for unverified callers that must
    /// test it before relying on it.
    pub fn check_wf(&self) -> (b: bool)
        ensures
            b == self.wf(),
    {
        (self.audio_source.is_some() == self.active_session.is_some())
            && (self.event_task.is_some() == self.active_session.is_some())
    }

    /// Atomically remove every stored handle, leaving the record disconnected,
    /// and hand the removed session and task back so the caller can close and
    /// abort them. Both Disconnect and the teardown step at the start of
    /// Connect go through here, so no stored session is ever dropped silently.
    pub fn take_teardown(&mut self) -> (t: Teardown)
        ensures
            *final(self) == Self::empty(),
            final(self).wf(),
            !final(self).connected(),
            t == old(self).teardown_handles(),
    {
        let session = self.active_session.take();
        let task = self.event_task.take();
        self.audio_source = None;
        Teardown { session, task }
    }

    /// Atomically store the resources of a freshly connected session. Anything
    /// still stored is handed back in `evicted` for the caller to close and
    /// abort, so even an unexpected overwrite leaks no handle.
    pub fn store_session(
        &mut self,
        session: SessionHandle,
        source: AudioSource,
        task: TaskHandle,
    ) -> (evicted: Teardown)
        ensures
            *final(self) == Self::connected_record(session, source, task),
            final(self).wf(),
            final(self).connected(),
            evicted == old(self).teardown_handles(),
    {
        let evicted_session = self.active_session.take();
        let evicted_task = self.event_task.take();
        self.active_session = Some(session);
        self.audio_source = Some(source);
        self.event_task = Some(task);
        Teardown { session: evicted_session, task: evicted_task }
    }
}

} // verus!
