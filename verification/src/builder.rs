//! Accumulates the configuration of a socket and wires the socket up.

use crate::channel::{Packet, WebRtcChannel};
use crate::config::{
    default_ice_server, reliable_config, unreliable_config, ChannelConfig, IceServerModel,
    RtcIceServerConfig,
};
use crate::link::{joined, packet_queue, peer_state_queue, peer_states_joined};
use crate::peer::{PeerId, PeerState};
use crate::socket::{MessageLoopLinks, WebRtcSocket};
use futures_channel::mpsc::{UnboundedReceiver, UnboundedSender};
use vstd::prelude::*;

verus! {

/// The number of attempts at reaching the signalling server that a builder
/// starts from.
pub const DEFAULT_ATTEMPTS: u16 = 3;

/// The number of identifiers that the identity link buffers.
pub const IDENTITY_SLOTS: usize = 1;

/// What a [`WebRtcSocketBuilder`] has accumulated.
pub struct BuilderModel {
    pub room_url: Seq<char>,
    pub ice_server: IceServerModel,
    pub channels: Seq<ChannelConfig>,
    pub attempts: Option<u16>,
}

/// Builder for [`WebRtcSocket`]s.
///
/// Begin with [`WebRtcSocketBuilder::new`] and add at least one channel
/// before calling [`WebRtcSocketBuilder::build`].
#[derive(Debug, Clone)]
pub struct WebRtcSocketBuilder {
    room_url: String,
    ice_server: RtcIceServerConfig,
    channels: Vec<ChannelConfig>,
    attempts: Option<u16>,
}

impl View for WebRtcSocketBuilder {
    type V = BuilderModel;

    closed spec fn view(&self) -> BuilderModel {
        BuilderModel {
            room_url: self.room_url@,
            ice_server: self.ice_server@,
            channels: self.channels@,
            attempts: self.attempts,
        }
    }
}

/// What a builder for `room_url` starts from: the default ICE server, three
/// attempts at reaching the signalling server, and no channel.
pub open spec fn fresh(room_url: Seq<char>) -> BuilderModel {
    BuilderModel {
        room_url,
        ice_server: default_ice_server(),
        channels: Seq::empty(),
        attempts: Some(DEFAULT_ATTEMPTS),
    }
}

/// Whether `slot` holds a handle whose two queues end at `out_rx` and
/// `from_tx`: what the handle sends is read from `out_rx`, and what is sent on
/// `from_tx` is what the handle receives.
pub open spec fn channel_wired(
    slot: Option<WebRtcChannel>,
    out_rx: UnboundedReceiver<(PeerId, Packet)>,
    from_tx: UnboundedSender<(PeerId, Packet)>,
) -> bool {
    slot matches Some(handle) && joined(handle.outbound(), out_rx) && joined(
        from_tx,
        handle.inbound(),
    )
}

/// Whether `socket` and `links` are what building from `config` makes: a
/// socket that knows neither itself nor a peer, with one handle per
/// configured channel, none of them taken, each on the two queues whose far
/// ends stand at its index among the links; and a peer-state link whose
/// sending end is among the links.
pub open spec fn wired(config: BuilderModel, socket: WebRtcSocket, links: MessageLoopLinks) -> bool {
    &&& socket@.id == None::<PeerId>
    &&& socket@.peers == Map::<PeerId, PeerState>::empty()
    &&& socket@.channels.len() == config.channels.len()
    &&& links.config@ == config
    &&& links.peer_messages_out_rx@.len() == config.channels.len()
    &&& links.messages_from_peers_tx@.len() == config.channels.len()
    &&& forall|i: int|
        0 <= i < config.channels.len() ==> channel_wired(
            #[trigger] socket@.channels[i],
            links.peer_messages_out_rx@[i],
            links.messages_from_peers_tx@[i],
        )
    &&& peer_states_joined(links.peer_state_tx, socket.peer_state_link())
}

/// Adds one channel at the next index: the handle over the two queues, the
/// receiving end of `to_peer` among the far ends that the message loop reads,
/// and the sending end of `from_peer` among the far ends that it feeds. The
/// handle and its far ends stand at the same index of their vectors.
pub fn push_joined(
    channels: &mut Vec<Option<WebRtcChannel>>,
    peer_messages_out_rx: &mut Vec<UnboundedReceiver<(PeerId, Packet)>>,
    messages_from_peers_tx: &mut Vec<UnboundedSender<(PeerId, Packet)>>,
    to_peer: (UnboundedSender<(PeerId, Packet)>, UnboundedReceiver<(PeerId, Packet)>),
    from_peer: (UnboundedSender<(PeerId, Packet)>, UnboundedReceiver<(PeerId, Packet)>),
)
    ensures
        final(channels)@.len() == old(channels)@.len() + 1,
        final(channels)@.drop_last() == old(channels)@,
        final(channels)@.last() matches Some(handle) && handle.outbound() == to_peer.0
            && handle.inbound() == from_peer.1,
        final(peer_messages_out_rx)@ == old(peer_messages_out_rx)@.push(to_peer.1),
        final(messages_from_peers_tx)@ == old(messages_from_peers_tx)@.push(from_peer.0),
{
    let (handle, (out_rx, from_peers_tx)) = WebRtcChannel::join(to_peer, from_peer);
    channels.push(Some(handle));
    peer_messages_out_rx.push(out_rx);
    messages_from_peers_tx.push(from_peers_tx);
}

impl WebRtcSocketBuilder {
    /// Creates a new builder for a connection to a given room with the
    /// default ICE server configuration, three reconnection attempts and no
    /// channel.
    pub fn new(room_url: &str) -> (builder: Self)
        ensures
            builder@ == fresh(room_url@),
    {
        WebRtcSocketBuilder {
            room_url: room_url.to_owned(),
            ice_server: RtcIceServerConfig::default(),
            channels: Vec::new(),
            attempts: Some(DEFAULT_ATTEMPTS),
        }
    }

    /// Sets the socket ICE server configuration.
    pub fn ice_server(self, ice_server: RtcIceServerConfig) -> (builder: Self)
        ensures
            builder@ == (BuilderModel { ice_server: ice_server@, ..self@ }),
    {
        let mut builder = self;
        builder.ice_server = ice_server;
        builder
    }

    /// Sets the number of attempts to make at reconnecting to the signalling
    /// server; with `None` the socket will attempt to connect indefinitely.
    pub fn reconnect_attempts(self, attempts: Option<u16>) -> (builder: Self)
        ensures
            builder@ == (BuilderModel { attempts, ..self@ }),
    {
        let mut builder = self;
        builder.attempts = attempts;
        builder
    }

    /// Adds a new channel to the socket configuration, after those already
    /// there.
    pub fn add_channel(self, config: ChannelConfig) -> (builder: Self)
        ensures
            builder@ == (BuilderModel { channels: self@.channels.push(config), ..self@ }),
    {
        let mut builder = self;
        builder.channels.push(config);
        builder
    }

    /// Adds a new reliable channel to the socket configuration.
    pub fn add_reliable_channel(self) -> (builder: Self)
        ensures
            builder@ == (BuilderModel {
                channels: self@.channels.push(reliable_config()),
                ..self@
            }),
    {
        self.add_channel(ChannelConfig::reliable())
    }

    /// Adds a new unreliable channel to the socket configuration.
    pub fn add_unreliable_channel(self) -> (builder: Self)
        ensures
            builder@ == (BuilderModel {
                channels: self@.channels.push(unreliable_config()),
                ..self@
            }),
    {
        self.add_channel(ChannelConfig::unreliable())
    }

    /// The url of the room to connect to.
    pub fn room_url(&self) -> (room_url: &str)
        ensures
            room_url@ == self@.room_url,
    {
        self.room_url.as_str()
    }

    /// The configuration of the ICE server.
    pub fn ice_server_config(&self) -> (ice_server: &RtcIceServerConfig)
        ensures
            ice_server@ == self@.ice_server,
    {
        &self.ice_server
    }

    /// The configured channels, in the order in which they were added.
    pub fn channel_configs(&self) -> (channels: &Vec<ChannelConfig>)
        ensures
            channels@ == self@.channels,
    {
        &self.channels
    }

    /// The number of attempts at reaching the signalling server, or `None`
    /// for no limit.
    pub fn attempts(&self) -> (attempts: Option<u16>)
        ensures
            attempts == self@.attempts,
    {
        self.attempts
    }

    /// Creates the socket and the far ends of its queues, one channel handle
    /// per configured channel, each at the index of its configuration.
    /// Nothing is sent or received until the message loop is driven with
    /// those far ends.
    ///
    /// A socket needs a channel: a builder without one is not built.
    pub fn build(self) -> (made: (WebRtcSocket, MessageLoopLinks))
        requires
            self@.channels.len() > 0,
        ensures
            wired(self@, made.0, made.1),
    {
        let (peer_state_tx, peer_state_rx) = peer_state_queue();
        let mut channels: Vec<Option<WebRtcChannel>> = Vec::new();
        let mut peer_messages_out_rx: Vec<UnboundedReceiver<(PeerId, Packet)>> = Vec::new();
        let mut messages_from_peers_tx: Vec<UnboundedSender<(PeerId, Packet)>> = Vec::new();
        let mut made: usize = 0;
        while made < self.channels.len()
            invariant
                made <= self.channels@.len(),
                channels@.len() == made,
                peer_messages_out_rx@.len() == made,
                messages_from_peers_tx@.len() == made,
                forall|i: int|
                    0 <= i < made ==> channel_wired(
                        #[trigger] channels@[i],
                        peer_messages_out_rx@[i],
                        messages_from_peers_tx@[i],
                    ),
            decreases self.channels@.len() - made,
        {
            let ghost before = channels@;
            let to_peer = packet_queue();
            let from_peer = packet_queue();
            push_joined(
                &mut channels,
                &mut peer_messages_out_rx,
                &mut messages_from_peers_tx,
                to_peer,
                from_peer,
            );
            assert forall|i: int| 0 <= i < made + 1 implies channel_wired(
                #[trigger] channels@[i],
                peer_messages_out_rx@[i],
                messages_from_peers_tx@[i],
            ) by {
                if i < made {
                    assert(channels@[i] == channels@.drop_last()[i]);
                    assert(channel_wired(
                        before[i],
                        peer_messages_out_rx@[i],
                        messages_from_peers_tx@[i],
                    ));
                }
            }
            made += 1;
        }
        let (id_tx, id_rx) = crossbeam_channel::bounded::<PeerId>(IDENTITY_SLOTS);
        (
            WebRtcSocket::assemble(id_rx, peer_state_rx, channels),
            MessageLoopLinks {
                id_tx,
                config: self,
                peer_messages_out_rx,
                peer_state_tx,
                messages_from_peers_tx,
            },
        )
    }

    /// Builds the socket if at least one channel is configured, and hands the
    /// builder back if none is.
    pub fn try_build(self) -> (made: Result<(WebRtcSocket, MessageLoopLinks), WebRtcSocketBuilder>)
        ensures
            match made {
                Ok(pair) => self@.channels.len() > 0 && wired(self@, pair.0, pair.1),
                Err(builder) => self@.channels.len() == 0 && builder == self,
            },
    {
        if self.channels.len() == 0 {
            Err(self)
        } else {
            Ok(self.build())
        }
    }
}

} // verus!
