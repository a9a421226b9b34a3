//! Configuration values: delivery semantics of one data channel and the ICE
//! server a connection is negotiated through.

use vstd::prelude::*;

verus! {

/// Configuration options for a data channel.
#[derive(Debug, Clone)]
pub struct ChannelConfig {
    /// Whether messages sent on the channel are guaranteed to arrive in order.
    pub ordered: bool,
    /// Maximum number of retransmit attempts of a message before giving up;
    /// `None` retransmits without limit.
    pub max_retransmits: Option<u16>,
}

/// A channel that neither orders its messages nor sends one again.
pub open spec fn unreliable_config() -> ChannelConfig {
    ChannelConfig { ordered: false, max_retransmits: Some(0u16) }
}

/// A channel that orders its messages and sends each again until it arrives.
pub open spec fn reliable_config() -> ChannelConfig {
    ChannelConfig { ordered: true, max_retransmits: None }
}

impl ChannelConfig {
    /// Messages sent via an unreliable channel may arrive in any order or not
    /// at all, but arrive as quickly as possible.
    pub fn unreliable() -> (config: Self)
        ensures
            config == unreliable_config(),
    {
        ChannelConfig { ordered: false, max_retransmits: Some(0) }
    }

    /// Messages sent via a reliable channel are guaranteed to arrive in order
    /// and will be resent until they arrive.
    pub fn reliable() -> (config: Self)
        ensures
            config == reliable_config(),
    {
        ChannelConfig { ordered: true, max_retransmits: None }
    }
}

/// What an [`RtcIceServerConfig`] holds, as plain sequences of characters.
pub struct IceServerModel {
    pub urls: Seq<Seq<char>>,
    pub username: Option<Seq<char>>,
    pub credential: Option<Seq<char>>,
}

/// Configuration options for an ICE server connection.
#[derive(Debug, Clone)]
pub struct RtcIceServerConfig {
    /// An ICE server instance can have several URLs.
    pub urls: Vec<String>,
    /// A username for authentication with the ICE server.
    pub username: Option<String>,
    /// A password or token when authenticating with a turn server.
    pub credential: Option<String>,
}

impl View for RtcIceServerConfig {
    type V = IceServerModel;

    open spec fn view(&self) -> IceServerModel {
        IceServerModel {
            urls: Seq::new(self.urls@.len(), |i: int| self.urls@[i]@),
            username: match self.username {
                Some(name) => Some(name@),
                None => None,
            },
            credential: match self.credential {
                Some(secret) => Some(secret@),
                None => None,
            },
        }
    }
}

/// The two public STUN servers that a configuration starts from.
pub open spec fn default_stun_urls() -> Seq<Seq<char>> {
    seq!["stun:stun.l.google.com:19302"@, "stun:stun1.l.google.com:19302"@]
}

/// The ICE server that a configuration starts from: the two public STUN
/// servers, without credentials.
pub open spec fn default_ice_server() -> IceServerModel {
    IceServerModel { urls: default_stun_urls(), username: None, credential: None }
}

impl Default for RtcIceServerConfig {
    /// Two public STUN servers and no credentials.
    fn default() -> (config: Self)
        ensures
            config@ == default_ice_server(),
    {
        let urls = vec![
            "stun:stun.l.google.com:19302".to_owned(),
            "stun:stun1.l.google.com:19302".to_owned(),
        ];
        let config = RtcIceServerConfig { urls, username: None, credential: None };
        assert(config@.urls =~= default_stun_urls());
        config
    }
}

} // verus!
