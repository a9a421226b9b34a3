//! The caller-facing socket: channel handles, the peer table and the
//! identity of this endpoint.

use crate::builder::{fresh, wired, BuilderModel, WebRtcSocketBuilder};
use crate::channel::{Packet, WebRtcChannel};
use crate::config::{reliable_config, unreliable_config};
use crate::latch::{latched, IdentityLatch};
use crate::link::{event_queue, events_joined, request_queue, requests_joined};
use crate::peer::{changes_of, table_after, PeerId, PeerState, PeerTable};
use crate::queue::drain;
use futures_channel::mpsc::{UnboundedReceiver, UnboundedSender};
use matchbox_protocol::{JsonPeerEvent, JsonPeerRequest};
use vstd::prelude::*;

verus! {

/// The far ends of a socket's queues, for the message loop to drive.
pub struct MessageLoopLinks {
    /// Where the message loop delivers the identifier assigned to this
    /// endpoint.
    pub id_tx: crossbeam_channel::Sender<PeerId>,
    /// The configuration that the socket was built from.
    pub config: WebRtcSocketBuilder,
    /// Per channel, where the message loop reads what the caller sent.
    pub peer_messages_out_rx: Vec<UnboundedReceiver<(PeerId, Packet)>>,
    /// Where the message loop reports that a peer connected or disconnected.
    pub peer_state_tx: UnboundedSender<(PeerId, PeerState)>,
    /// Per channel, where the message loop delivers what peers sent.
    pub messages_from_peers_tx: Vec<UnboundedSender<(PeerId, Packet)>>,
}

/// All the channels needed for the messaging loop.
pub struct MessageLoopChannels {
    /// Where the message loop hands the signalling loop what to send.
    pub requests_sender: UnboundedSender<JsonPeerRequest>,
    /// Where the message loop reads what the signalling loop received.
    pub events_receiver: UnboundedReceiver<JsonPeerEvent>,
    /// Per channel, where the message loop reads what the caller sent.
    pub peer_messages_out_rx: Vec<UnboundedReceiver<(PeerId, Packet)>>,
    /// Where the message loop reports that a peer connected or disconnected.
    pub peer_state_tx: UnboundedSender<(PeerId, PeerState)>,
    /// Per channel, where the message loop delivers what peers sent.
    pub messages_from_peers_tx: Vec<UnboundedSender<(PeerId, Packet)>>,
}

/// What the signalling loop is started with.
pub struct SignallingStart {
    /// The number of attempts at reaching the signalling server, or `None`
    /// for no limit.
    pub attempts: Option<u16>,
    /// The url of the room to connect to.
    pub room_url: String,
    /// Where the signalling loop reads what it is to send.
    pub requests_receiver: UnboundedReceiver<JsonPeerRequest>,
    /// Where the signalling loop hands on what it received.
    pub events_sender: UnboundedSender<JsonPeerEvent>,
}

/// What the message loop is started with.
pub struct MessageLoopStart {
    /// Where the message loop delivers the identifier assigned to this
    /// endpoint.
    pub id_tx: crossbeam_channel::Sender<PeerId>,
    /// The configuration that the socket was built from.
    pub config: WebRtcSocketBuilder,
    /// The queues of the message loop.
    pub channels: MessageLoopChannels,
}

impl MessageLoopLinks {
    /// Joins the signalling loop and the message loop by a queue in each
    /// direction and deals out what each loop is started with: the
    /// signalling loop gets the room and the bound on its attempts, the
    /// message loop gets the configuration and every far end of the socket,
    /// each channel at its index.
    pub fn start(self) -> (starts: (SignallingStart, MessageLoopStart))
        ensures
            starts.0.attempts == self.config@.attempts,
            starts.0.room_url@ == self.config@.room_url,
            starts.1.id_tx == self.id_tx,
            starts.1.config == self.config,
            starts.1.channels.peer_messages_out_rx == self.peer_messages_out_rx,
            starts.1.channels.peer_state_tx == self.peer_state_tx,
            starts.1.channels.messages_from_peers_tx == self.messages_from_peers_tx,
            requests_joined(starts.1.channels.requests_sender, starts.0.requests_receiver),
            events_joined(starts.0.events_sender, starts.1.channels.events_receiver),
    {
        let (requests_sender, requests_receiver) = request_queue();
        let (events_sender, events_receiver) = event_queue();
        let signalling = SignallingStart {
            attempts: self.config.attempts(),
            room_url: self.config.room_url().to_owned(),
            requests_receiver,
            events_sender,
        };
        let channels = MessageLoopChannels {
            requests_sender,
            events_receiver,
            peer_messages_out_rx: self.peer_messages_out_rx,
            peer_state_tx: self.peer_state_tx,
            messages_from_peers_tx: self.messages_from_peers_tx,
        };
        (signalling, MessageLoopStart { id_tx: self.id_tx, config: self.config, channels })
    }
}

/// What a [`WebRtcSocket`] knows: its own identifier once assigned, the last
/// observed state of each peer, and per configured channel the handle, or
/// `None` once the handle was taken.
pub struct SocketModel {
    pub id: Option<PeerId>,
    pub peers: Map<PeerId, PeerState>,
    pub channels: Seq<Option<WebRtcChannel>>,
}

/// The slots of a socket once the handle of `channel` has been taken out.
pub open spec fn without_channel(
    channels: Seq<Option<WebRtcChannel>>,
    channel: int,
) -> Seq<Option<WebRtcChannel>> {
    channels.update(channel, None)
}

/// Contains a set of data channels and some connection metadata.
#[derive(Debug)]
pub struct WebRtcSocket {
    id: IdentityLatch,
    id_rx: crossbeam_channel::Receiver<PeerId>,
    peer_state_rx: UnboundedReceiver<(PeerId, PeerState)>,
    peers: PeerTable,
    channels: Vec<Option<WebRtcChannel>>,
}

impl View for WebRtcSocket {
    type V = SocketModel;

    closed spec fn view(&self) -> SocketModel {
        SocketModel { id: self.id@, peers: self.peers@, channels: self.channels@ }
    }
}

impl WebRtcSocket {
    /// The end of the identity link from which the socket takes its own
    /// identifier.
    pub closed spec fn identity_link(&self) -> crossbeam_channel::Receiver<PeerId> {
        self.id_rx
    }

    /// The end of the peer-state link from which the socket takes the events
    /// of its peers.
    pub closed spec fn peer_state_link(&self) -> UnboundedReceiver<(PeerId, PeerState)> {
        self.peer_state_rx
    }

    /// A socket that knows no peer and no identifier of its own, on top of
    /// the near ends of its queues.
    pub(crate) fn assemble(
        id_rx: crossbeam_channel::Receiver<PeerId>,
        peer_state_rx: UnboundedReceiver<(PeerId, PeerState)>,
        channels: Vec<Option<WebRtcChannel>>,
    ) -> (socket: Self)
        ensures
            socket@.id == None::<PeerId>,
            socket@.peers == Map::<PeerId, PeerState>::empty(),
            socket@.channels == channels@,
            socket.identity_link() == id_rx,
            socket.peer_state_link() == peer_state_rx,
    {
        WebRtcSocket {
            id: IdentityLatch::new(),
            id_rx,
            peer_state_rx,
            peers: PeerTable::new(),
            channels,
        }
    }

    /// Creates a new builder for a connection to a given room.
    pub fn builder(room_url: &str) -> (builder: WebRtcSocketBuilder)
        ensures
            builder@ == fresh(room_url@),
    {
        WebRtcSocketBuilder::new(room_url)
    }

    /// Creates a socket with a single unreliable channel, and the far ends of
    /// its queues.
    pub fn new_unreliable(room_url: &str) -> (made: (WebRtcSocket, MessageLoopLinks))
        ensures
            made.1.config@ == (BuilderModel {
                channels: seq![unreliable_config()],
                ..fresh(room_url@)
            }),
            wired(made.1.config@, made.0, made.1),
    {
        WebRtcSocketBuilder::new(room_url).add_unreliable_channel().build()
    }

    /// Creates a socket with a single reliable channel, and the far ends of
    /// its queues.
    pub fn new_reliable(room_url: &str) -> (made: (WebRtcSocket, MessageLoopLinks))
        ensures
            made.1.config@ == (BuilderModel {
                channels: seq![reliable_config()],
                ..fresh(room_url@)
            }),
            wired(made.1.config@, made.0, made.1),
    {
        WebRtcSocketBuilder::new(room_url).add_reliable_channel().build()
    }

    /// The number of configured channels: the indices below it are the valid
    /// channel indices.
    pub fn channel_count(&self) -> (count: usize)
        ensures
            count == self@.channels.len(),
    {
        self.channels.len()
    }

    /// Gets a reference to the channel of a given index, or `None` if the
    /// channel has been taken.
    pub fn channel(&mut self, channel: usize) -> (handle: Option<&mut WebRtcChannel>)
        requires
            channel < old(self)@.channels.len(),
        ensures
            final(self)@.id == old(self)@.id,
            final(self)@.peers == old(self)@.peers,
            final(self).identity_link() == old(self).identity_link(),
            final(self).peer_state_link() == old(self).peer_state_link(),
            old(self)@.channels[channel as int] is None ==> handle is None && final(self)@.channels
                == old(self)@.channels,
            old(self)@.channels[channel as int] matches Some(current) ==> handle matches Some(held)
                && *held == current && final(self)@.channels == old(self)@.channels.update(
                channel as int,
                Some(*final(held)),
            ),
    {
        self.channels[channel].as_mut()
    }

    /// Takes the channel of a given index out of the socket, or returns
    /// `None` if the channel has been taken before.
    pub fn take_channel(&mut self, channel: usize) -> (handle: Option<WebRtcChannel>)
        requires
            channel < old(self)@.channels.len(),
        ensures
            handle == old(self)@.channels[channel as int],
            final(self)@.id == old(self)@.id,
            final(self)@.peers == old(self)@.peers,
            final(self).identity_link() == old(self).identity_link(),
            final(self).peer_state_link() == old(self).peer_state_link(),
            final(self)@.channels == without_channel(old(self)@.channels, channel as int),
    {
        self.channels[channel].take()
    }

    /// Records every peer event that is buffered, in order, and returns those
    /// that changed the state of a peer.
    pub fn update_peers(&mut self) -> (changes: Vec<(PeerId, PeerState)>)
        ensures
            exists|events: Seq<(PeerId, PeerState)>|
                final(self)@.peers == table_after(old(self)@.peers, events) && changes@
                    == changes_of(old(self)@.peers, events),
            final(self)@.id == old(self)@.id,
            final(self)@.channels == old(self)@.channels,
            final(self).identity_link() == old(self).identity_link(),
    {
        let events = drain(&mut self.peer_state_rx);
        let changes = self.peers.apply(&events);
        assert(self@.peers == table_after(old(self)@.peers, events@) && changes@ == changes_of(
            old(self)@.peers,
            events@,
        ));
        changes
    }

    /// The peers that were connected when the peers were last updated.
    pub fn connected_peers(&self) -> (peers: Vec<PeerId>)
        ensures
            peers@.no_duplicates(),
            forall|id: PeerId|
                peers@.contains(id) <==> (self@.peers.contains_key(id) && self@.peers[id]
                    == PeerState::Connected),
    {
        self.peers.peers_in(PeerState::Connected)
    }

    /// The peers that were no longer connected when the peers were last
    /// updated.
    pub fn disconnected_peers(&self) -> (peers: Vec<PeerId>)
        ensures
            peers@.no_duplicates(),
            forall|id: PeerId|
                peers@.contains(id) <==> (self@.peers.contains_key(id) && self@.peers[id]
                    == PeerState::Disconnected),
    {
        self.peers.peers_in(PeerState::Disconnected)
    }

    /// Returns the id of this peer, or `None` if the server has not assigned
    /// one yet.
    pub fn id(&mut self) -> (id: Option<PeerId>)
        ensures
            id == final(self)@.id,
            exists|delivered: Option<PeerId>|
                final(self)@.id == #[trigger] latched(old(self)@.id, delivered),
            old(self)@.id is Some ==> final(self)@.id == old(self)@.id,
            final(self)@.peers == old(self)@.peers,
            final(self)@.channels == old(self)@.channels,
            final(self).identity_link() == old(self).identity_link(),
            final(self).peer_state_link() == old(self).peer_state_link(),
    {
        match self.id.get() {
            Some(id) => {
                assert(self@.id == latched(old(self)@.id, None));
                Some(id)
            },
            None => {
                let delivered = match self.id_rx.try_recv() {
                    Ok(id) => Some(id),
                    Err(_) => None,
                };
                self.id.offer(delivered)
            },
        }
    }
}

/// Once the handle of a channel has been taken, its slot is empty and stays
/// empty when it is taken again, so that asking for the channel, or taking it
/// once more, yields `None`; the slot of every other channel is as it was.
pub proof fn lemma_taken_channel_stays_taken(
    channels: Seq<Option<WebRtcChannel>>,
    taken: int,
    other: int,
)
    requires
        0 <= taken < channels.len(),
        0 <= other < channels.len(),
        other != taken,
    ensures
        without_channel(channels, taken).len() == channels.len(),
        without_channel(channels, taken)[taken] is None,
        without_channel(without_channel(channels, taken), taken) == without_channel(channels, taken),
        without_channel(channels, taken)[other] == channels[other],
{
}

} // verus!
