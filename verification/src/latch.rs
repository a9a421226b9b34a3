//! The write-once holder of this endpoint's own identifier.

use crate::peer::PeerId;
use vstd::prelude::*;

verus! {

/// What a latch holds once `delivered` has been offered to a latch that held
/// `held`: the first identifier stays, a later one is dropped.
pub open spec fn latched(held: Option<PeerId>, delivered: Option<PeerId>) -> Option<PeerId> {
    match held {
        Some(first) => Some(first),
        None => delivered,
    }
}

/// A cell that is empty or holds one identifier, and never changes once it
/// holds one.
#[derive(Debug)]
pub struct IdentityLatch {
    held: Option<PeerId>,
}

impl View for IdentityLatch {
    type V = Option<PeerId>;

    closed spec fn view(&self) -> Option<PeerId> {
        self.held
    }
}

impl IdentityLatch {
    /// An empty latch.
    pub fn new() -> (latch: Self)
        ensures
            latch@ == None::<PeerId>,
    {
        IdentityLatch { held: None }
    }

    /// The identifier that the latch holds, if any.
    pub fn get(&self) -> (held: Option<PeerId>)
        ensures
            held == self@,
    {
        self.held
    }

    /// Offers the latch what the identity link delivered and returns what it
    /// holds afterwards. An identifier is committed only to an empty latch.
    pub fn offer(&mut self, delivered: Option<PeerId>) -> (held: Option<PeerId>)
        ensures
            final(self)@ == latched(old(self)@, delivered),
            held == final(self)@,
    {
        if self.held.is_none() {
            self.held = delivered;
        }
        self.held
    }
}

/// A latch that is offered nothing stays as it is: while no identifier has
/// been delivered, an empty latch stays empty.
pub proof fn lemma_nothing_delivered_changes_nothing(held: Option<PeerId>)
    ensures
        latched(held, None) == held,
{
}

/// Once a latch holds an identifier, no later offer changes it: whatever is
/// delivered first and whatever is delivered after it, the second offer leaves
/// what the first one left.
pub proof fn lemma_latch_is_stable(
    held: Option<PeerId>,
    first: Option<PeerId>,
    later: Option<PeerId>,
)
    requires
        latched(held, first) is Some,
    ensures
        latched(latched(held, first), later) == latched(held, first),
{
}

} // verus!
