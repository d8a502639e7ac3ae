//! A verified session-lifecycle core for a mobile conferencing bridge.
//!
//! The bridge exposes four blocking operations to a mobile host runtime:
//! connect, disconnect, push PCM audio, and query the connection. The actual
//! media transport lives in an external conferencing client; this crate holds
//! the part worth proving: the single authoritative session record, the
//! connect/disconnect orchestration decisions, and the event-relay state
//! machine. The surrounding process (async runtime, locking, the foreign
//! call surface) drives these functions and performs the network-bound calls
//! they decide on.

pub mod laws;
pub mod lifecycle;
pub mod pcm;
pub mod relay;
pub mod state;

pub use lifecycle::AudioFrame;
pub use pcm::decode_pcm_le;
pub use lifecycle::ConnectPlan;
pub use lifecycle::PublishDecision;
pub use relay::EventRelay;
pub use relay::RelayPhase;
pub use relay::SessionEvent;
pub use state::AudioSource;
pub use state::SessionHandle;
pub use state::SessionState;
pub use state::TaskHandle;
pub use state::Teardown;
pub use state::AUDIO_BUFFER_MS;
