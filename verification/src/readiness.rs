//! The handshake by which the message loop announces, channel by channel,
//! that the transport is ready. The driver awaits the announcements in the
//! order of the configured channels and reports each here.

use vstd::prelude::*;

verus! {

/// What a [`ReadinessGate`] stands at: how many channels are configured, and
/// how many of them, counted from the first, have announced that they are
/// ready.
pub struct GateModel {
    pub channels: nat,
    pub ready: nat,
}

/// The link of `channel` closed before the channel announced that it is
/// ready: the message loop broke its promise.
#[derive(Debug, Clone, Copy, PartialEq, Eq, Structural)]
pub struct NotReady {
    pub channel: usize,
}

/// The channel whose announcement is awaited next, unless every channel has
/// announced.
pub open spec fn awaited_of(gate: GateModel) -> Option<nat> {
    if gate.ready < gate.channels {
        Some(gate.ready)
    } else {
        None
    }
}

/// The count after the awaited link reported: an announcement moves on to
/// the next channel, anything else leaves the count where it was.
pub open spec fn gate_after(gate: GateModel, announced: bool) -> GateModel {
    if announced && gate.ready < gate.channels {
        GateModel { ready: gate.ready + 1, ..gate }
    } else {
        gate
    }
}

/// The count after the awaited links reported `signals`, one after another.
pub open spec fn gate_after_all(gate: GateModel, signals: Seq<bool>) -> GateModel
    decreases signals.len(),
{
    if signals.len() == 0 {
        gate
    } else {
        gate_after(gate_after_all(gate, signals.drop_last()), signals.last())
    }
}

/// Counts the channels that have announced that they are ready.
#[derive(Debug)]
pub struct ReadinessGate {
    channels: usize,
    ready: usize,
}

impl View for ReadinessGate {
    type V = GateModel;

    closed spec fn view(&self) -> GateModel {
        GateModel { channels: self.channels as nat, ready: self.ready as nat }
    }
}

impl ReadinessGate {
    #[verifier::type_invariant]
    spec fn counted(self) -> bool {
        self.ready <= self.channels
    }

    /// A count for `channels` configured channels, none of them ready.
    pub fn new(channels: usize) -> (gate: Self)
        ensures
            gate@ == (GateModel { channels: channels as nat, ready: 0 }),
    {
        ReadinessGate { channels, ready: 0 }
    }

    /// The index of the channel whose announcement the driver is to await,
    /// or `None` once every channel is ready.
    pub fn awaited(&self) -> (channel: Option<usize>)
        ensures
            match channel {
                Some(index) => awaited_of(self@) == Some(index as nat),
                None => awaited_of(self@) == None::<nat>,
            },
    {
        if self.ready < self.channels {
            Some(self.ready)
        } else {
            None
        }
    }

    /// Whether every configured channel has announced that it is ready.
    pub fn is_operational(&self) -> (operational: bool)
        ensures
            operational == (awaited_of(self@) is None),
    {
        self.ready >= self.channels
    }

    /// Takes note of what the awaited link reported: `announced` is whether
    /// it delivered its announcement, as opposed to closing without one. The
    /// error names the channel whose link closed.
    pub fn on_signal(&mut self, announced: bool) -> (noted: Result<(), NotReady>)
        ensures
            final(self)@ == gate_after(old(self)@, announced),
            match noted {
                Ok(()) => announced || awaited_of(old(self)@) is None,
                Err(violation) => !announced && awaited_of(old(self)@) == Some(
                    violation.channel as nat,
                ),
            },
    {
        proof {
            use_type_invariant(&*self);
        }
        if self.ready >= self.channels {
            Ok(())
        } else if announced {
            self.ready = self.ready + 1;
            Ok(())
        } else {
            Err(NotReady { channel: self.ready })
        }
    }
}

/// The announcements are counted in the order of the channels: after
/// `signals`, which all announce, exactly the first `signals.len()` channels
/// are ready, and the socket is operational once that is all of them.
pub proof fn lemma_gate_opens_after_every_channel(channels: nat, signals: Seq<bool>)
    requires
        signals.len() <= channels,
        forall|i: int| 0 <= i < signals.len() ==> signals[i],
    ensures
        gate_after_all(GateModel { channels, ready: 0 }, signals).ready == signals.len(),
        gate_after_all(GateModel { channels, ready: 0 }, signals).channels == channels,
        awaited_of(gate_after_all(GateModel { channels, ready: 0 }, signals)) is None
            <==> signals.len() == channels,
    decreases signals.len(),
{
    if signals.len() > 0 {
        lemma_gate_opens_after_every_channel(channels, signals.drop_last());
    }
}

/// A link that closes without its announcement leaves its channel awaited:
/// the count does not move past a channel that never announced.
pub proof fn lemma_closed_link_keeps_gate_shut(gate: GateModel)
    requires
        awaited_of(gate) is Some,
    ensures
        gate_after(gate, false) == gate,
        awaited_of(gate_after(gate, false)) == awaited_of(gate),
{
}

} // verus!
