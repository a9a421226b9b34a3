//! Socket orchestration for peer-to-peer channels: configuration, the
//! multiplexed channel handles, the peer table and the rules by which the
//! signalling and message units resolve into one outcome.

pub mod builder;
pub mod channel;
pub mod config;
pub mod latch;
pub mod link;
pub mod orchestrator;
pub mod peer;
pub mod queue;
pub mod readiness;
pub mod socket;

pub use builder::WebRtcSocketBuilder;
pub use channel::{ChannelClosed, Packet, WebRtcChannel};
pub use config::{ChannelConfig, RtcIceServerConfig};
pub use latch::IdentityLatch;
pub use orchestrator::{Completion, Orchestrator, Phase};
pub use peer::{PeerId, PeerState, PeerTable};
pub use readiness::{NotReady, ReadinessGate};
pub use socket::{
    MessageLoopChannels, MessageLoopLinks, MessageLoopStart, SignallingStart, WebRtcSocket,
};
