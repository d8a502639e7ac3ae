//! The connection lifecycle manager: the decisions Connect, Disconnect and
//! AddPcm make between the network-bound calls of the surrounding process.
//!
//! Each blocking operation of the bridge alternates outside work (opening a
//! session, publishing a track, closing, capturing a frame) with decisions.
//! The outside work is performed by the surrounding process; every decision is
//! a verified function here, so the process is a plain interpreter of the
//! values these functions return.

use vstd::prelude::*;

use crate::state::AudioSource;
use crate::state::SessionHandle;
use crate::state::SessionState;
use crate::state::Teardown;

verus! {

/// What a successful open leaves to do: publish an audio track fed by a
/// capture source with this configuration into this session.
#[derive(Clone, Copy, PartialEq, Eq, Structural, Debug)]
pub struct ConnectPlan {
    pub session: SessionHandle,
    pub source: AudioSource,
}

/// The decision after the publish attempt of a Connect.
#[derive(Clone, Copy, PartialEq, Eq, Structural, Debug)]
pub enum PublishDecision {
    /// The track could not be published: close the just-opened session and
    /// report failure; the record stays disconnected.
    CloseAndFail { session: SessionHandle },
    /// The track is published: spawn the event relay and store session,
    /// source and task in the record, then report success.
    Proceed { session: SessionHandle, source: AudioSource },
}

/// Decide Connect after the open attempt. A failed open ends the operation
/// with failure and no state change; a successful one yields the plan for the
/// publish step, with the capture source sized for the requested audio
/// parameters and the fixed one-second buffer.
pub fn plan_session(
    opened: Option<SessionHandle>,
    sample_rate: u32,
    num_channels: u32,
) -> (r: Option<ConnectPlan>)
    ensures
        r is Some <==> opened is Some,
        opened matches Some(s) ==> r == Some(
            ConnectPlan { session: s, source: AudioSource::sized_for(sample_rate, num_channels) },
        ),
{
    match opened {
        None => None,
        Some(session) => Some(
            ConnectPlan { session, source: AudioSource::new(sample_rate, num_channels) },
        ),
    }
}

/// Decide Connect after the publish attempt: on failure the just-opened
/// session must be closed and the operation fails; on success the session and
/// its capture source are to be stored and the event relay spawned.
pub fn publish_decision(plan: ConnectPlan, publish_ok: bool) -> (d: PublishDecision)
    ensures
        publish_ok ==> d == (PublishDecision::Proceed {
            session: plan.session,
            source: plan.source,
        }),
        !publish_ok ==> d == (PublishDecision::CloseAndFail { session: plan.session }),
{
    if publish_ok {
        PublishDecision::Proceed { session: plan.session, source: plan.source }
    } else {
        PublishDecision::CloseAndFail { session: plan.session }
    }
}

/// The result Disconnect reports: failure exactly when a session was stored
/// and its close failed. With no stored session there is nothing to close, so
/// the call is a no-op that reports success.
pub open spec fn spec_disconnect_report(torn: Teardown, close_ok: bool) -> bool {
    torn.session is Some ==> close_ok
}

/// Decide the result of Disconnect from the handles the teardown removed and
/// the outcome of the close call, if one was made. A failed close is still a
/// completed disconnect — the record was already cleared — but it is reported.
pub fn disconnect_report(torn: &Teardown, close_ok: bool) -> (b: bool)
    ensures
        b == spec_disconnect_report(*torn, close_ok),
{
    match torn.session {
        Some(_) => close_ok,
        None => true,
    }
}

/// One PCM frame as handed to the capture source: the raw samples and how the
/// source must interpret them.
#[derive(Debug)]
pub struct AudioFrame {
    pub data: Vec<i16>,
    pub sample_rate: u32,
    pub num_channels: u32,
    pub samples_per_channel: u32,
}

/// Whether AddPcm forwards a frame: a capture source must be stored, the
/// channel count must be non-zero, and the per-channel sample count must fit
/// the frame descriptor.
pub open spec fn frame_accepted(
    state: SessionState,
    samples: Seq<i16>,
    num_channels: u32,
) -> bool {
    &&& state.audio_source is Some
    &&& num_channels > 0
    &&& samples.len() as int / num_channels as int <= u32::MAX as int
}

/// Decide AddPcm: with no capture source stored (or an unusable channel
/// count) the call fails with no effect on the record; otherwise the samples
/// are wrapped into the frame to forward, with the per-channel sample count
/// computed from the buffer length and the channel count.
pub fn prepare_frame(
    state: &SessionState,
    samples: Vec<i16>,
    sample_rate: u32,
    num_channels: u32,
) -> (r: Option<AudioFrame>)
    ensures
        r is Some <==> frame_accepted(*state, samples@, num_channels),
        r matches Some(f) ==> {
            &&& f.data@ == samples@
            &&& f.sample_rate == sample_rate
            &&& f.num_channels == num_channels
            &&& f.samples_per_channel == samples@.len() as int / num_channels as int
        },
{
    if state.audio_source.is_none() {
        return None;
    }
    if num_channels == 0 {
        return None;
    }
    let per_channel: usize = samples.len() / (num_channels as usize);
    if per_channel > u32::MAX as usize {
        return None;
    }
    Some(
        AudioFrame {
            data: samples,
            sample_rate,
            num_channels,
            samples_per_channel: per_channel as u32,
        },
    )
}

} // verus!
