//! Laws of the session lifecycle, stated over the spec-level record
//! transitions that the executable methods' contracts use.

use vstd::prelude::*;

use crate::lifecycle::frame_accepted;
use crate::lifecycle::spec_disconnect_report;
use crate::state::AudioSource;
use crate::state::SessionHandle;
use crate::state::SessionState;
use crate::state::TaskHandle;

verus! {

/// At most one session is ever stored, across any sequence of connects: a
/// completed connect stores exactly the newly opened session, and the
/// teardown step of the next connect hands back exactly that session and its
/// relay task for closing — no prior handle is leaked by reconnecting.
pub proof fn lemma_second_connect_closes_first(
    first: SessionHandle,
    first_source: AudioSource,
    first_task: TaskHandle,
    second: SessionHandle,
    second_source: AudioSource,
    second_task: TaskHandle,
)
    ensures
        ({
            let after_first = SessionState::connected_record(first, first_source, first_task);
            let torn = after_first.teardown_handles();
            let after_second = SessionState::connected_record(second, second_source, second_task);
            &&& torn.session == Some(first)
            &&& torn.task == Some(first_task)
            &&& after_second.active_session == Some(second)
            &&& after_second.wf()
        }),
{
}

/// Disconnect while disconnected is a no-op with a well-defined result: the
/// teardown removes nothing, so there is no session to close and no task to
/// abort, and the reported result is success whatever a (never-made) close
/// call would have said.
pub proof fn lemma_disconnect_while_disconnected(s: SessionState, close_ok: bool)
    requires
        s.wf(),
        !s.connected(),
    ensures
        s.teardown_handles().session is None,
        s.teardown_handles().task is None,
        spec_disconnect_report(s.teardown_handles(), close_ok),
{
}

/// AddPcm while disconnected always fails: a well-formed record without a
/// session stores no capture source, so no frame is accepted, whatever the
/// samples and channel count — and preparing a frame never writes the record.
pub proof fn lemma_add_pcm_fails_while_disconnected(
    s: SessionState,
    samples: Seq<i16>,
    num_channels: u32,
)
    requires
        s.wf(),
        !s.connected(),
    ensures
        !frame_accepted(s, samples, num_channels),
{
}

/// IsConnected tracks the lifecycle: it reads true on the record a successful
/// connect stores, and false on the empty record that both Disconnect's
/// teardown and the relay's handling of a remote disconnect leave behind.
pub proof fn lemma_is_connected_tracks_lifecycle(
    session: SessionHandle,
    source: AudioSource,
    task: TaskHandle,
)
    ensures
        SessionState::connected_record(session, source, task).connected(),
        !SessionState::empty().connected(),
{
}

/// Teardown leaves no dangling relay task: after a Disconnect (or the
/// teardown step of a Connect) the record holds no task handle — and no
/// session and no source either.
pub proof fn lemma_teardown_leaves_no_task()
    ensures
        SessionState::empty().event_task is None,
        SessionState::empty().active_session is None,
        SessionState::empty().audio_source is None,
        SessionState::empty().wf(),
{
}

} // verus!
