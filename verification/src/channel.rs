//! The caller-facing handle of one data channel.

use crate::link::{joined, packet_queue};
use crate::peer::PeerId;
use crate::queue::drain;
use futures_channel::mpsc::{UnboundedReceiver, UnboundedSender};
use vstd::prelude::*;

verus! {

/// An application payload. The socket never looks inside one.
pub type Packet = Box<[u8]>;

/// The error of [`WebRtcChannel::send`]: the message loop has dropped its end
/// of the outbound queue, so the socket has shut down.
#[derive(Debug, Clone, Copy, PartialEq, Eq, Structural)]
pub struct ChannelClosed;

/// Used to send and receive packets on a given data channel.
#[derive(Debug)]
pub struct WebRtcChannel {
    tx: UnboundedSender<(PeerId, Packet)>,
    rx: UnboundedReceiver<(PeerId, Packet)>,
}

impl WebRtcChannel {
    /// A handle on two fresh queues, together with their far ends: the end
    /// that receives what the handle sends, and the end that feeds the handle.
    pub fn new() -> (made: (Self, (
        UnboundedReceiver<(PeerId, Packet)>,
        UnboundedSender<(PeerId, Packet)>,
    )))
        ensures
            joined(made.0.outbound(), made.1.0),
            joined(made.1.1, made.0.inbound()),
    {
        WebRtcChannel::join(packet_queue(), packet_queue())
    }

    /// Takes every message that is buffered on the inbound queue, oldest
    /// first. Returns without waiting, with an empty vector where none is
    /// buffered. The handle keeps the end on which it sends.
    pub fn receive(&mut self) -> (packets: Vec<(PeerId, Packet)>)
        ensures
            final(self).outbound() == old(self).outbound(),
    {
        drain(&mut self.rx)
    }

    /// Queues `packet` for `peer` on the outbound queue, without waiting. The
    /// error says that the message loop no longer reads the queue. The handle
    /// itself is the same handle afterwards, on the same two queues.
    pub fn send(&mut self, packet: Packet, peer: PeerId) -> (sent: Result<(), ChannelClosed>)
        ensures
            *final(self) == *old(self),
    {
        sent_or_closed(self.tx.unbounded_send(addressed(packet, peer)))
    }

    /// The end on which the handle sends.
    pub closed spec fn outbound(&self) -> UnboundedSender<(PeerId, Packet)> {
        self.tx
    }

    /// The end from which the handle receives.
    pub closed spec fn inbound(&self) -> UnboundedReceiver<(PeerId, Packet)> {
        self.rx
    }

    /// Crosses two queues into a handle and its far ends. The handle sends
    /// into `to_peer` and receives from `from_peer`; the far ends are what is
    /// left of the two: the receiving end of `to_peer` and the sending end of
    /// `from_peer`, in that order.
    pub fn join(
        to_peer: (UnboundedSender<(PeerId, Packet)>, UnboundedReceiver<(PeerId, Packet)>),
        from_peer: (UnboundedSender<(PeerId, Packet)>, UnboundedReceiver<(PeerId, Packet)>),
    ) -> (made: (Self, (UnboundedReceiver<(PeerId, Packet)>, UnboundedSender<(PeerId, Packet)>)))
        ensures
            made.0.outbound() == to_peer.0,
            made.0.inbound() == from_peer.1,
            made.1 == (to_peer.1, from_peer.0),
    {
        (WebRtcChannel { rx: from_peer.1, tx: to_peer.0 }, (to_peer.1, from_peer.0))
    }
}

/// The item that is queued for `packet` to reach `peer`: the peer first, then
/// the packet as it was given.
pub fn addressed(packet: Packet, peer: PeerId) -> (item: (PeerId, Packet))
    ensures
        item == (peer, packet),
{
    (peer, packet)
}

/// What a send comes to, given the answer of the outbound queue: a message
/// that the queue took is sent, and a message that the queue handed back was
/// not, because nothing reads the queue any more.
pub fn sent_or_closed<E>(answer: Result<(), E>) -> (sent: Result<(), ChannelClosed>)
    ensures
        answer is Ok ==> sent == Ok::<(), ChannelClosed>(()),
        answer is Err ==> sent == Err::<(), ChannelClosed>(ChannelClosed),
{
    match answer {
        Ok(()) => Ok(()),
        Err(_) => Err(ChannelClosed),
    }
}

} // verus!
