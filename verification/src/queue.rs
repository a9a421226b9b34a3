//! Verified handling of the queues that join the socket to the message loop:
//! making one pair per configured channel, and draining one without waiting.

use crate::config::ChannelConfig;
use crate::link::{readiness_joined, ready_link};
use futures_channel::mpsc::{
    Receiver, Sender, TryRecvError, UnboundedReceiver, UnboundedSender,
};
use vstd::prelude::*;

verus! {

/// What is kept of one answer of a queue, on top of `items`: a message is
/// appended, an error adds nothing.
pub open spec fn kept_after<T, E>(items: Seq<T>, polled: Result<T, E>) -> Seq<T> {
    match polled {
        Ok(item) => items.push(item),
        Err(_) => items,
    }
}

/// Whether one of the answers `polls` is an error: a drain ends there.
pub open spec fn stopped<T, E>(polls: Seq<Result<T, E>>) -> bool {
    exists|i: int| 0 <= i < polls.len() && (#[trigger] polls[i]) is Err
}

/// What a drain keeps of the answers `polls` that a queue gives to one poll
/// after another: the messages up to the first error, in the order of the
/// answers.
pub open spec fn kept<T, E>(polls: Seq<Result<T, E>>) -> Seq<T>
    decreases polls.len(),
{
    if polls.len() == 0 {
        Seq::empty()
    } else if stopped(polls.drop_last()) {
        kept(polls.drop_last())
    } else {
        kept_after(kept(polls.drop_last()), polls.last())
    }
}

/// The answers of a queue that holds `buffered` and then has no more: each
/// message in turn, then `error`.
pub open spec fn answers<T, E>(buffered: Seq<T>, error: E) -> Seq<Result<T, E>> {
    Seq::new(buffered.len(), |i: int| Ok::<T, E>(buffered[i])).push(Err(error))
}

/// Appends to `items` what one poll of a queue handed out, and says whether
/// the queue is worth another poll: a message is kept and more may follow, an
/// error ends the drain.
pub fn keep_polled<T, E>(items: &mut Vec<T>, polled: Result<T, E>) -> (more: bool)
    ensures
        final(items)@ == kept_after(old(items)@, polled),
        more == polled is Ok,
{
    match polled {
        Ok(item) => {
            items.push(item);
            true
        },
        Err(_) => false,
    }
}

/// Takes the messages that are buffered on `receiver`, oldest first, and
/// returns without waiting once the queue hands out no more.
pub fn drain<T>(receiver: &mut UnboundedReceiver<T>) -> (items: Vec<T>) {
    let mut items: Vec<T> = Vec::new();
    let mut more = true;
    // The answers of the queue so far. They are the far end's doing and have
    // no name outside this loop.
    let ghost mut polls: Seq<Result<T, TryRecvError>> = Seq::empty();
    while more && items.len() < usize::MAX
        invariant
            items@ == kept(polls),
            more == !stopped(polls),
        decreases more as int, usize::MAX - items.len(),
    {
        let polled = receiver.try_recv();
        proof {
            assert(polls.push(polled).drop_last() =~= polls);
            if polled is Err {
                assert(polls.push(polled)[polls.len() as int] is Err);
            }
            polls = polls.push(polled);
        }
        more = keep_polled(&mut items, polled);
    }
    items
}

/// One unbounded queue per configured channel: the sending ends and the
/// receiving ends, each in the order of `channel_configs`.
pub fn new_senders_and_receivers<T>(channel_configs: &[ChannelConfig]) -> (ends: (
    Vec<UnboundedSender<T>>,
    Vec<UnboundedReceiver<T>>,
))
    ensures
        ends.0@.len() == channel_configs@.len(),
        ends.1@.len() == channel_configs@.len(),
{
    let mut senders: Vec<UnboundedSender<T>> = Vec::new();
    let mut receivers: Vec<UnboundedReceiver<T>> = Vec::new();
    let mut made: usize = 0;
    while made < channel_configs.len()
        invariant
            made <= channel_configs@.len(),
            senders@.len() == made,
            receivers@.len() == made,
        decreases channel_configs@.len() - made,
    {
        let (sender, receiver) = futures_channel::mpsc::unbounded::<T>();
        senders.push(sender);
        receivers.push(receiver);
        made += 1;
    }
    (senders, receivers)
}

/// The number of notifications that a readiness link buffers.
pub const READY_BUFFER: usize = 1;

/// One single-slot readiness link per configured channel: the ends on which
/// the message loop announces that a channel is ready, and the ends on which
/// the announcements are awaited, each in the order of `channel_configs`.
pub fn new_ready_links(channel_configs: &[ChannelConfig]) -> (ends: (
    Vec<Sender<()>>,
    Vec<Receiver<()>>,
))
    ensures
        ends.0@.len() == channel_configs@.len(),
        ends.1@.len() == channel_configs@.len(),
        forall|i: int|
            0 <= i < channel_configs@.len() ==> readiness_joined(#[trigger] ends.0@[i], ends.1@[i]),
{
    let mut senders: Vec<Sender<()>> = Vec::new();
    let mut receivers: Vec<Receiver<()>> = Vec::new();
    let mut made: usize = 0;
    while made < channel_configs.len()
        invariant
            made <= channel_configs@.len(),
            senders@.len() == made,
            receivers@.len() == made,
            forall|i: int| 0 <= i < made ==> readiness_joined(#[trigger] senders@[i], receivers@[i]),
        decreases channel_configs@.len() - made,
    {
        let (sender, receiver) = ready_link(READY_BUFFER);
        senders.push(sender);
        receivers.push(receiver);
        made += 1;
    }
    (senders, receivers)
}

/// While every answer is a message, a drain keeps every message, in the
/// order of the answers, and goes on.
proof fn lemma_messages_are_kept<T, E>(buffered: Seq<T>)
    ensures
        kept(Seq::new(buffered.len(), |i: int| Ok::<T, E>(buffered[i]))) == buffered,
        !stopped(Seq::new(buffered.len(), |i: int| Ok::<T, E>(buffered[i]))),
    decreases buffered.len(),
{
    let polls = Seq::new(buffered.len(), |i: int| Ok::<T, E>(buffered[i]));
    if buffered.len() > 0 {
        let earlier = buffered.drop_last();
        lemma_messages_are_kept::<T, E>(earlier);
        assert(polls.drop_last() =~= Seq::new(earlier.len(), |i: int| Ok::<T, E>(earlier[i])));
        assert(earlier.push(buffered.last()) =~= buffered);
    }
}

/// After an error, a drain keeps nothing more, whatever the queue would
/// answer next.
proof fn lemma_nothing_is_kept_after_an_error<T, E>(
    polls: Seq<Result<T, E>>,
    later: Seq<Result<T, E>>,
)
    requires
        stopped(polls),
    ensures
        kept(polls + later) == kept(polls),
        stopped(polls + later),
    decreases later.len(),
{
    let at = choose|i: int| 0 <= i < polls.len() && (#[trigger] polls[i]) is Err;
    assert((polls + later)[at] is Err);
    if later.len() == 0 {
        assert(polls + later =~= polls);
    } else {
        lemma_nothing_is_kept_after_an_error(polls, later.drop_last());
        assert((polls + later).drop_last() =~= polls + later.drop_last());
    }
}

/// A drain returns what the queue held when it was polled, and no more: where
/// the queue answers with the messages `buffered`, oldest first, and then
/// with an error because it holds no more, exactly `buffered` is kept, in that
/// order, whatever the queue would answer to further polls. A queue that is
/// empty at the first poll gives an empty result.
pub proof fn lemma_drain_keeps_what_is_buffered<T, E>(
    buffered: Seq<T>,
    error: E,
    later: Seq<Result<T, E>>,
)
    ensures
        kept(answers(buffered, error) + later) == buffered,
        stopped(answers(buffered, error)),
{
    let messages = Seq::new(buffered.len(), |i: int| Ok::<T, E>(buffered[i]));
    lemma_messages_are_kept::<T, E>(buffered);
    assert(answers(buffered, error).drop_last() =~= messages);
    assert(answers(buffered, error)[buffered.len() as int] is Err);
    lemma_nothing_is_kept_after_an_error(answers(buffered, error), later);
}

} // verus!
