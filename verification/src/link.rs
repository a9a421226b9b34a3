//! The queues that join the socket to the message loop, and the messages of
//! the signalling protocol. Nothing in this file is proved: each item states
//! what Verus is to believe of a type or a function of `futures-channel`,
//! `crossbeam-channel`, `matchbox_protocol` or `serde_json`.
//!
//! A queue has two ends, and the far end is driven by another task. What an
//! end hands out therefore depends on more than the value it is called on, and
//! no item below promises anything of it. What is claimed of a fresh queue is
//! that its two ends belong together.

use vstd::prelude::*;

verus! {

/// `futures_channel::mpsc::UnboundedSender`, carried as an opaque value.
#[verifier::external_type_specification]
#[verifier::external_body]
#[verifier::reject_recursive_types(T)]
pub struct ExUnboundedSender<T>(futures_channel::mpsc::UnboundedSender<T>);

/// `futures_channel::mpsc::UnboundedReceiver`, carried as an opaque value.
#[verifier::external_type_specification]
#[verifier::external_body]
#[verifier::reject_recursive_types(T)]
pub struct ExUnboundedReceiver<T>(futures_channel::mpsc::UnboundedReceiver<T>);

/// `futures_channel::mpsc::TryRecvError`: why a queue handed out no item.
#[verifier::external_type_specification]
#[verifier::external_body]
pub struct ExTryRecvError(futures_channel::mpsc::TryRecvError);

/// `futures_channel::mpsc::TrySendError`: a message that a queue did not take.
#[verifier::external_type_specification]
#[verifier::external_body]
#[verifier::reject_recursive_types(T)]
pub struct ExTrySendError<T>(futures_channel::mpsc::TrySendError<T>);

/// `futures_channel::mpsc::unbounded` creates a queue and returns its two
/// ends. It takes no input and cannot fail. Nothing is claimed of the ends
/// here, where the type of the messages is open; for the queues that the
/// socket wires, see the end of this file.
pub assume_specification<T>[ futures_channel::mpsc::unbounded::<T> ]() -> (ends: (
    futures_channel::mpsc::UnboundedSender<T>,
    futures_channel::mpsc::UnboundedReceiver<T>,
));

/// `UnboundedReceiver::try_recv` returns at once: with the oldest buffered
/// message, or with an error when none is buffered. Which of the two depends
/// on the sending end, so nothing is claimed of the result.
pub assume_specification<T>[ futures_channel::mpsc::UnboundedReceiver::<T>::try_recv ](
    receiver: &mut futures_channel::mpsc::UnboundedReceiver<T>,
) -> (polled: Result<T, futures_channel::mpsc::TryRecvError>);

/// `UnboundedSender::unbounded_send` returns at once: the message is either
/// queued or handed back in an error because the receiving end is gone. Which
/// of the two depends on the receiving end, so nothing is claimed of the
/// result. The call panics only where the queue already holds as many
/// messages as half the address space has bytes, which memory rules out.
pub assume_specification<T>[ futures_channel::mpsc::UnboundedSender::<T>::unbounded_send ](
    sender: &futures_channel::mpsc::UnboundedSender<T>,
    msg: T,
) -> (sent: Result<(), futures_channel::mpsc::TrySendError<T>>);

/// `futures_channel::mpsc::Sender`, carried as an opaque value.
#[verifier::external_type_specification]
#[verifier::external_body]
#[verifier::reject_recursive_types(T)]
pub struct ExSender<T>(futures_channel::mpsc::Sender<T>);

/// `futures_channel::mpsc::Receiver`, carried as an opaque value.
#[verifier::external_type_specification]
#[verifier::external_body]
#[verifier::reject_recursive_types(T)]
pub struct ExReceiver<T>(futures_channel::mpsc::Receiver<T>);

/// `crossbeam_channel::Sender`, carried as an opaque value.
#[verifier::external_type_specification]
#[verifier::external_body]
#[verifier::reject_recursive_types(T)]
pub struct ExSlotSender<T>(crossbeam_channel::Sender<T>);

/// `crossbeam_channel::Receiver`, carried as an opaque value.
#[verifier::external_type_specification]
#[verifier::external_body]
#[verifier::reject_recursive_types(T)]
pub struct ExSlotReceiver<T>(crossbeam_channel::Receiver<T>);

/// `crossbeam_channel::TryRecvError`: why a queue handed out no message.
#[verifier::external_type_specification]
#[verifier::external_body]
pub struct ExSlotTryRecvError(crossbeam_channel::TryRecvError);

/// `crossbeam_channel::bounded` creates a queue that holds at most `cap`
/// messages and returns its two ends. It panics where twice the next power
/// of two above `cap` does not fit the index type, which a capacity below
/// 2^30 rules out on every target; nothing is claimed of the ends.
pub assume_specification<T>[ crossbeam_channel::bounded::<T> ](cap: usize) -> (ends: (
    crossbeam_channel::Sender<T>,
    crossbeam_channel::Receiver<T>,
))
    requires
        cap < 0x4000_0000,
;

/// `crossbeam_channel::Receiver::try_recv` returns at once: with a message,
/// or with an error when none is there. Which of the two depends on the
/// sending end, so nothing is claimed of the result.
pub assume_specification<T>[ crossbeam_channel::Receiver::<T>::try_recv ](
    receiver: &crossbeam_channel::Receiver<T>,
) -> (polled: Result<T, crossbeam_channel::TryRecvError>);

/// `matchbox_protocol::PeerRequest`: what a peer asks of the signalling
/// server. The socket hands such values on and never looks inside one.
#[verifier::external_type_specification]
#[verifier::external_body]
#[verifier::reject_recursive_types(S)]
pub struct ExPeerRequest<S>(matchbox_protocol::PeerRequest<S>);

/// `matchbox_protocol::PeerEvent`: what the signalling server tells a peer.
/// The socket hands such values on and never looks inside one.
#[verifier::external_type_specification]
#[verifier::external_body]
#[verifier::reject_recursive_types(S)]
pub struct ExPeerEvent<S: Clone>(matchbox_protocol::PeerEvent<S>);

/// `serde_json::Value`: the payload of a signal, carried as an opaque value.
#[verifier::external_type_specification]
#[verifier::external_body]
pub struct ExJsonValue(serde_json::Value);

/// What `UnboundedSender::is_connected_to` returns for the two ends of a
/// packet queue: whether `sender` sends into the queue that `receiver` reads.
pub uninterp spec fn joined(
    sender: futures_channel::mpsc::UnboundedSender<(crate::peer::PeerId, Box<[u8]>)>,
    receiver: futures_channel::mpsc::UnboundedReceiver<(crate::peer::PeerId, Box<[u8]>)>,
) -> bool;

/// What `UnboundedSender::is_connected_to` returns for the two ends of a
/// peer-state queue.
pub uninterp spec fn peer_states_joined(
    sender: futures_channel::mpsc::UnboundedSender<(crate::peer::PeerId, crate::peer::PeerState)>,
    receiver: futures_channel::mpsc::UnboundedReceiver<
        (crate::peer::PeerId, crate::peer::PeerState),
    >,
) -> bool;

/// What `UnboundedSender::is_connected_to` returns for the two ends of a
/// queue of signalling requests.
pub uninterp spec fn requests_joined(
    sender: futures_channel::mpsc::UnboundedSender<matchbox_protocol::JsonPeerRequest>,
    receiver: futures_channel::mpsc::UnboundedReceiver<matchbox_protocol::JsonPeerRequest>,
) -> bool;

/// What `UnboundedSender::is_connected_to` returns for the two ends of a
/// queue of signalling events.
pub uninterp spec fn events_joined(
    sender: futures_channel::mpsc::UnboundedSender<matchbox_protocol::JsonPeerEvent>,
    receiver: futures_channel::mpsc::UnboundedReceiver<matchbox_protocol::JsonPeerEvent>,
) -> bool;

/// What `Sender::is_connected_to` returns for the two ends of a readiness
/// link.
pub uninterp spec fn readiness_joined(
    sender: futures_channel::mpsc::Sender<()>,
    receiver: futures_channel::mpsc::Receiver<()>,
) -> bool;

/// Calls `futures_channel::mpsc::unbounded` for a queue of packets. The
/// outside function builds both ends on one shared queue, so the sending end
/// is connected to the receiving end.
#[verifier::external_body]
pub(crate) fn packet_queue() -> (ends: (
    futures_channel::mpsc::UnboundedSender<(crate::peer::PeerId, Box<[u8]>)>,
    futures_channel::mpsc::UnboundedReceiver<(crate::peer::PeerId, Box<[u8]>)>,
))
    ensures
        joined(ends.0, ends.1),
{
    futures_channel::mpsc::unbounded()
}

/// Calls `futures_channel::mpsc::unbounded` for a queue of peer states. The
/// outside function builds both ends on one shared queue, so the sending end
/// is connected to the receiving end.
#[verifier::external_body]
pub(crate) fn peer_state_queue() -> (ends: (
    futures_channel::mpsc::UnboundedSender<(crate::peer::PeerId, crate::peer::PeerState)>,
    futures_channel::mpsc::UnboundedReceiver<(crate::peer::PeerId, crate::peer::PeerState)>,
))
    ensures
        peer_states_joined(ends.0, ends.1),
{
    futures_channel::mpsc::unbounded()
}

/// Calls `futures_channel::mpsc::unbounded` for a queue of signalling
/// requests. The outside function builds both ends on one shared queue, so
/// the sending end is connected to the receiving end.
#[verifier::external_body]
pub(crate) fn request_queue() -> (ends: (
    futures_channel::mpsc::UnboundedSender<matchbox_protocol::JsonPeerRequest>,
    futures_channel::mpsc::UnboundedReceiver<matchbox_protocol::JsonPeerRequest>,
))
    ensures
        requests_joined(ends.0, ends.1),
{
    futures_channel::mpsc::unbounded()
}

/// Calls `futures_channel::mpsc::unbounded` for a queue of signalling
/// events. The outside function builds both ends on one shared queue, so the
/// sending end is connected to the receiving end.
#[verifier::external_body]
pub(crate) fn event_queue() -> (ends: (
    futures_channel::mpsc::UnboundedSender<matchbox_protocol::JsonPeerEvent>,
    futures_channel::mpsc::UnboundedReceiver<matchbox_protocol::JsonPeerEvent>,
))
    ensures
        events_joined(ends.0, ends.1),
{
    futures_channel::mpsc::unbounded()
}

/// Calls `futures_channel::mpsc::channel` for a readiness link that buffers
/// `buffer` notifications beyond one per sender. The outside function panics
/// unless `buffer` is below a quarter of the address space; it builds both
/// ends on one shared queue, so the sending end is connected to the
/// receiving end.
#[verifier::external_body]
pub(crate) fn ready_link(buffer: usize) -> (ends: (
    futures_channel::mpsc::Sender<()>,
    futures_channel::mpsc::Receiver<()>,
))
    requires
        buffer < usize::MAX / 4,
    ensures
        readiness_joined(ends.0, ends.1),
{
    futures_channel::mpsc::channel(buffer)
}

} // verus!
