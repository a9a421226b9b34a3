//! Peers and the table of their last known connectivity.

use std::collections::HashMap;
use vstd::std_specs::iter::IteratorSpec;
use vstd::prelude::*;

verus! {

/// The identifier that the signalling server gave a peer: 128 bits.
#[derive(Debug, Clone, Copy, PartialEq, Eq, Structural, Hash)]
pub struct PeerId(pub u128);

/// The state of a connection to a peer.
#[derive(Clone, Copy, Debug, PartialEq, Eq, Structural)]
pub enum PeerState {
    /// The requested data channels are established and the peer has not left.
    Connected,
    /// A data channel closed or the peer left the signalling server.
    Disconnected,
}

/// Whether recording `state` for `id` differs from what `table` says of
/// `id`. A peer that the table does not know differs from every state.
pub open spec fn is_change(table: Map<PeerId, PeerState>, id: PeerId, state: PeerState) -> bool {
    !(table.contains_key(id) && table[id] == state)
}

/// The table once `events` have been recorded in order.
pub open spec fn table_after(
    table: Map<PeerId, PeerState>,
    events: Seq<(PeerId, PeerState)>,
) -> Map<PeerId, PeerState>
    decreases events.len(),
{
    if events.len() == 0 {
        table
    } else {
        table_after(table, events.drop_last()).insert(events.last().0, events.last().1)
    }
}

/// The events among `events` that changed the table when they were recorded,
/// in the order of `events`.
pub open spec fn changes_of(
    table: Map<PeerId, PeerState>,
    events: Seq<(PeerId, PeerState)>,
) -> Seq<(PeerId, PeerState)>
    decreases events.len(),
{
    if events.len() == 0 {
        Seq::empty()
    } else {
        let earlier = events.drop_last();
        let (id, state) = events.last();
        if is_change(table_after(table, earlier), id, state) {
            changes_of(table, earlier).push((id, state))
        } else {
            changes_of(table, earlier)
        }
    }
}

/// The last observed state of every peer seen so far. Entries are inserted or
/// overwritten and never removed.
#[derive(Debug)]
pub struct PeerTable {
    states: HashMap<u128, PeerState>,
}

impl View for PeerTable {
    type V = Map<PeerId, PeerState>;

    closed spec fn view(&self) -> Map<PeerId, PeerState> {
        Map::new(|id: PeerId| self.states@.contains_key(id.0), |id: PeerId| self.states@[id.0])
    }
}

impl PeerTable {
    /// A table that knows no peer.
    pub fn new() -> (table: Self)
        ensures
            table@ == Map::<PeerId, PeerState>::empty(),
    {
        PeerTable { states: HashMap::new() }
    }

    /// Records `state` as the last observed state of `id` and says whether
    /// that differs from what was recorded before.
    pub fn record(&mut self, id: PeerId, state: PeerState) -> (changed: bool)
        ensures
            final(self)@ == old(self)@.insert(id, state),
            changed == is_change(old(self)@, id, state),
    {
        let before = self.states.insert(id.0, state);
        match before {
            Some(previous) => previous != state,
            None => true,
        }
    }

    /// Records `events` in order and returns those that were changes.
    pub fn apply(&mut self, events: &Vec<(PeerId, PeerState)>) -> (changes: Vec<
        (PeerId, PeerState),
    >)
        ensures
            final(self)@ == table_after(old(self)@, events@),
            changes@ == changes_of(old(self)@, events@),
    {
        let mut changes: Vec<(PeerId, PeerState)> = Vec::new();
        let mut i: usize = 0;
        while i < events.len()
            invariant
                i <= events.len(),
                self@ == table_after(old(self)@, events@.take(i as int)),
                changes@ == changes_of(old(self)@, events@.take(i as int)),
            decreases events.len() - i,
        {
            let (id, state) = events[i];
            assert(events@.take(i + 1).drop_last() =~= events@.take(i as int));
            if self.record(id, state) {
                changes.push((id, state));
            }
            i += 1;
        }
        assert(events@.take(i as int) =~= events@);
        changes
    }

    /// The peers whose last observed state is `state`, each once, in no
    /// particular order.
    pub fn peers_in(&self, state: PeerState) -> (peers: Vec<PeerId>)
        ensures
            peers@.no_duplicates(),
            forall|id: PeerId|
                peers@.contains(id) <==> (self@.contains_key(id) && self@[id] == state),
    {
        broadcast use vstd::std_specs::hash::group_hash_axioms;

        let mut peers: Vec<PeerId> = Vec::new();
        // For each position of `peers`, the position of the entry it was taken from.
        let ghost mut origin: Seq<int> = Seq::empty();
        let ghost entries = self.states.iter().remaining();
        for entry in it: self.states.iter()
            invariant
                it.seq() == entries,
                it.seq().no_duplicates(),
                forall|j: int|
                    0 <= j < it.seq().len() ==> self.states@.contains_key(*(#[trigger] it.seq()[j]).0)
                        && self.states@[*it.seq()[j].0] == *it.seq()[j].1,
                origin.len() == peers@.len(),
                forall|p: int|
                    0 <= p < origin.len() ==> 0 <= #[trigger] origin[p] < it.index() && PeerId(
                        *it.seq()[origin[p]].0,
                    ) == peers@[p] && *it.seq()[origin[p]].1 == state,
                forall|p: int, q: int|
                    0 <= p < q < origin.len() ==> #[trigger] origin[p] < #[trigger] origin[q],
                forall|j: int|
                    0 <= j < it.index() && *(#[trigger] it.seq()[j]).1 == state ==> origin.contains(j),
        {
            let (key, recorded) = entry;
            if *recorded == state {
                peers.push(PeerId(*key));
                proof {
                    let earlier = origin;
                    origin = origin.push(it.index());
                    assert forall|j: int|
                        0 <= j < it.index() + 1 && *(#[trigger] it.seq()[j]).1
                            == state implies origin.contains(j) by {
                        if j < it.index() {
                            let p = choose|p: int| 0 <= p < earlier.len() && earlier[p] == j;
                            assert(origin[p] == j);
                        } else {
                            assert(origin[earlier.len() as int] == j);
                        }
                    }
                }
            }
        }
        proof {
            assert forall|p: int, q: int| 0 <= p < q < peers@.len() implies peers@[p] != peers@[q] by {
                if peers@[p] == peers@[q] {
                    assert(entries[origin[p]] == entries[origin[q]]);
                }
            }
            assert forall|id: PeerId| peers@.contains(id) implies self@.contains_key(id) && self@[id]
                == state by {
                let p = choose|p: int| 0 <= p < peers@.len() && peers@[p] == id;
                assert(*entries[origin[p]].0 == id.0);
            }
            assert forall|id: PeerId| self@.contains_key(id) && self@[id] == state implies peers@.contains(
                id,
            ) by {
                let wanted = (&id.0, &self.states@[id.0]);
                let j = choose|j: int| 0 <= j < entries.len() && entries[j] == wanted;
                let p = choose|p: int| 0 <= p < origin.len() && origin[p] == j;
                assert(peers@[p] == id);
            }
        }
        peers
    }
}

/// Where no event was pending, the table stays as it is and no change is
/// reported: an update that follows an update, with nothing delivered in
/// between, reports nothing.
pub proof fn lemma_no_events_no_changes(table: Map<PeerId, PeerState>)
    ensures
        table_after(table, Seq::empty()) == table,
        changes_of(table, Seq::empty()) == Seq::<(PeerId, PeerState)>::empty(),
{
}

/// Recording events in two batches comes to the same as recording them in
/// one: the table is the same, and the changes of the two batches, one after
/// the other, are the changes of the whole.
pub proof fn lemma_batches_compose(
    table: Map<PeerId, PeerState>,
    first: Seq<(PeerId, PeerState)>,
    second: Seq<(PeerId, PeerState)>,
)
    ensures
        table_after(table, first + second) == table_after(table_after(table, first), second),
        changes_of(table, first + second) == changes_of(table, first) + changes_of(
            table_after(table, first),
            second,
        ),
    decreases second.len(),
{
    if second.len() == 0 {
        assert(first + second =~= first);
    } else {
        let earlier = second.drop_last();
        lemma_batches_compose(table, first, earlier);
        assert((first + second).drop_last() =~= first + earlier);
    }
}

/// A peer is never removed from the table: one that the table knew is known
/// after any events.
pub proof fn lemma_peers_are_never_forgotten(
    table: Map<PeerId, PeerState>,
    events: Seq<(PeerId, PeerState)>,
    id: PeerId,
)
    requires
        table.contains_key(id),
    ensures
        table_after(table, events).contains_key(id),
    decreases events.len(),
{
    if events.len() > 0 {
        lemma_peers_are_never_forgotten(table, events.drop_last(), id);
    }
}

/// The table holds, for every peer that an event named, the state of the
/// last event that named it.
pub proof fn lemma_last_event_decides(
    table: Map<PeerId, PeerState>,
    events: Seq<(PeerId, PeerState)>,
    at: int,
)
    requires
        0 <= at < events.len(),
        forall|later: int| at < later < events.len() ==> events[later].0 != events[at].0,
    ensures
        table_after(table, events).contains_key(events[at].0),
        table_after(table, events)[events[at].0] == events[at].1,
    decreases events.len(),
{
    if at < events.len() - 1 {
        lemma_last_event_decides(table, events.drop_last(), at);
    }
}

/// A peer that no event named is in the table as it was before the events.
pub proof fn lemma_unnamed_peer_is_untouched(
    table: Map<PeerId, PeerState>,
    events: Seq<(PeerId, PeerState)>,
    id: PeerId,
)
    requires
        forall|i: int| 0 <= i < events.len() ==> events[i].0 != id,
    ensures
        table_after(table, events).contains_key(id) == table.contains_key(id),
        table.contains_key(id) ==> table_after(table, events)[id] == table[id],
    decreases events.len(),
{
    if events.len() > 0 {
        lemma_unnamed_peer_is_untouched(table, events.drop_last(), id);
    }
}

/// An event that repeats the state that the table already holds for its peer
/// is recorded and not reported.
pub proof fn lemma_repeated_state_is_suppressed(
    table: Map<PeerId, PeerState>,
    events: Seq<(PeerId, PeerState)>,
    id: PeerId,
    state: PeerState,
)
    requires
        table_after(table, events).contains_key(id),
        table_after(table, events)[id] == state,
    ensures
        table_after(table, events.push((id, state))) == table_after(table, events),
        changes_of(table, events.push((id, state))) == changes_of(table, events),
{
    assert(events.push((id, state)).drop_last() =~= events);
}

/// The first event that names a peer unknown to the table is reported,
/// whatever its state.
pub proof fn lemma_first_observation_is_a_change(
    table: Map<PeerId, PeerState>,
    events: Seq<(PeerId, PeerState)>,
    id: PeerId,
    state: PeerState,
)
    requires
        !table_after(table, events).contains_key(id),
    ensures
        changes_of(table, events.push((id, state))) == changes_of(table, events).push((id, state)),
{
    assert(events.push((id, state)).drop_last() =~= events);
}

/// The changes are exactly the events that differ from what the table held
/// for their peer when they were recorded, in the order of the events. The
/// proof returns the positions of those events: they increase, they spell
/// the changes, and a position is among them if and only if its event
/// differed.
pub proof fn lemma_changes_are_the_differing_events(
    table: Map<PeerId, PeerState>,
    events: Seq<(PeerId, PeerState)>,
) -> (positions: Seq<int>)
    ensures
        positions.len() == changes_of(table, events).len(),
        forall|k: int|
            0 <= k < positions.len() ==> 0 <= #[trigger] positions[k] < events.len()
                && events[positions[k]] == changes_of(table, events)[k],
        forall|k: int, l: int|
            0 <= k < l < positions.len() ==> #[trigger] positions[k] < #[trigger] positions[l],
        forall|i: int|
            0 <= i < events.len() ==> (positions.contains(i) <==> is_change(
                table_after(table, #[trigger] events.take(i)),
                events[i].0,
                events[i].1,
            )),
    decreases events.len(),
{
    if events.len() == 0 {
        Seq::empty()
    } else {
        let earlier = events.drop_last();
        let last = events.len() - 1;
        let before = lemma_changes_are_the_differing_events(table, earlier);
        let differs = is_change(table_after(table, earlier), events.last().0, events.last().1);
        let positions = if differs {
            before.push(last)
        } else {
            before
        };
        assert forall|k: int| 0 <= k < before.len() implies events[#[trigger] before[k]]
            == earlier[before[k]] by {}
        assert forall|i: int| 0 <= i < events.len() implies (positions.contains(i) <==> is_change(
            table_after(table, #[trigger] events.take(i)),
            events[i].0,
            events[i].1,
        )) by {
            if i < last {
                assert(events.take(i) =~= earlier.take(i));
                if before.contains(i) {
                    let k = choose|k: int| 0 <= k < before.len() && before[k] == i;
                    assert(positions[k] == i);
                }
            } else {
                assert(events.take(i) =~= earlier);
                if differs {
                    assert(positions[before.len() as int] == last);
                }
            }
        }
        positions
    }
}

} // verus!
