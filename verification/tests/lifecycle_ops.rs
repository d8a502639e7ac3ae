//! Tests of the lifecycle decisions: planning a session, deciding the publish
//! step, reporting a disconnect, and preparing PCM frames.

use livekit_bridge::lifecycle::disconnect_report;
use livekit_bridge::lifecycle::plan_session;
use livekit_bridge::lifecycle::prepare_frame;
use livekit_bridge::lifecycle::publish_decision;
use livekit_bridge::AudioSource;
use livekit_bridge::PublishDecision;
use livekit_bridge::SessionHandle;
use livekit_bridge::SessionState;
use livekit_bridge::TaskHandle;

#[test]
fn failed_open_yields_no_plan() {
    assert!(plan_session(None, 48000, 1).is_none());
}

#[test]
fn successful_open_plans_sized_source() {
    let plan = plan_session(Some(SessionHandle { id: 11 }), 48000, 2).unwrap();
    assert_eq!(plan.session, SessionHandle { id: 11 });
    assert_eq!(plan.source, AudioSource::new(48000, 2));
}

#[test]
fn publish_failure_closes_the_new_session() {
    let plan = plan_session(Some(SessionHandle { id: 11 }), 48000, 2).unwrap();
    let d = publish_decision(plan, false);
    assert_eq!(d, PublishDecision::CloseAndFail { session: SessionHandle { id: 11 } });
}

#[test]
fn publish_success_proceeds_with_plan() {
    let plan = plan_session(Some(SessionHandle { id: 11 }), 48000, 2).unwrap();
    let d = publish_decision(plan, true);
    assert_eq!(
        d,
        PublishDecision::Proceed {
            session: SessionHandle { id: 11 },
            source: AudioSource::new(48000, 2),
        }
    );
}

#[test]
fn disconnect_report_is_close_outcome_when_session_was_stored() {
    let mut s = SessionState::new();
    s.store_session(
        SessionHandle { id: 1 },
        AudioSource::new(48000, 1),
        TaskHandle { id: 2 },
    );
    let torn = s.take_teardown();
    assert!(disconnect_report(&torn, true));
    // A failed remote close is reported, though the record is already clear.
    assert!(!disconnect_report(&torn, false));
}

#[test]
fn disconnect_report_succeeds_without_a_session() {
    let mut s = SessionState::new();
    let torn = s.take_teardown();
    assert!(disconnect_report(&torn, true));
    assert!(disconnect_report(&torn, false));
}

fn connected_record() -> SessionState {
    let mut s = SessionState::new();
    s.store_session(
        SessionHandle { id: 1 },
        AudioSource::new(48000, 2),
        TaskHandle { id: 2 },
    );
    s
}

#[test]
fn prepare_frame_splits_samples_across_channels() {
    let s = connected_record();
    let frame = prepare_frame(&s, vec![0i16; 1000], 48000, 2).unwrap();
    assert_eq!(frame.data, vec![0i16; 1000]);
    assert_eq!(frame.sample_rate, 48000);
    assert_eq!(frame.num_channels, 2);
    assert_eq!(frame.samples_per_channel, 500);
}

#[test]
fn prepare_frame_keeps_the_samples_as_given() {
    let s = connected_record();
    let frame = prepare_frame(&s, vec![3, -7, 12000, -32768], 16000, 1).unwrap();
    assert_eq!(frame.data, vec![3, -7, 12000, -32768]);
    assert_eq!(frame.samples_per_channel, 4);
}

#[test]
fn prepare_frame_accepts_an_empty_buffer() {
    let s = connected_record();
    let frame = prepare_frame(&s, Vec::new(), 48000, 2).unwrap();
    assert_eq!(frame.samples_per_channel, 0);
    assert!(frame.data.is_empty());
}

#[test]
fn prepare_frame_rejects_zero_channels() {
    let s = connected_record();
    assert!(prepare_frame(&s, vec![0i16; 8], 48000, 0).is_none());
}

#[test]
fn prepare_frame_fails_while_disconnected() {
    let s = SessionState::new();
    assert!(prepare_frame(&s, vec![0i16; 8], 48000, 1).is_none());
    // Preparing a frame reads the record without mutating it.
    assert!(!s.is_connected());
    assert_eq!(s.audio_source, None);
}
