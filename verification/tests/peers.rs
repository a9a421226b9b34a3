use matchbox_socket::{PeerId, PeerState, PeerTable, WebRtcSocket};

const A: PeerId = PeerId(0xa);
const B: PeerId = PeerId(0xb);
const C: PeerId = PeerId(0xc);

fn sorted(mut peers: Vec<PeerId>) -> Vec<u128> {
    peers.sort_by_key(|peer| peer.0);
    peers.into_iter().map(|peer| peer.0).collect()
}

#[test]
fn record_reports_the_first_observation() {
    let mut table = PeerTable::new();
    assert!(table.record(A, PeerState::Connected));
    assert!(table.record(B, PeerState::Disconnected));
}

#[test]
fn record_suppresses_a_repeated_state() {
    let mut table = PeerTable::new();
    assert!(table.record(A, PeerState::Connected));
    assert!(!table.record(A, PeerState::Connected));
    assert!(table.record(A, PeerState::Disconnected));
    assert!(!table.record(A, PeerState::Disconnected));
    assert!(table.record(A, PeerState::Connected));
}

#[test]
fn apply_reports_changes_in_order() {
    let mut table = PeerTable::new();
    let events = vec![
        (A, PeerState::Connected),
        (A, PeerState::Connected),
        (B, PeerState::Disconnected),
    ];
    assert_eq!(
        table.apply(&events),
        vec![(A, PeerState::Connected), (B, PeerState::Disconnected)]
    );
    assert_eq!(sorted(table.peers_in(PeerState::Connected)), vec![0xa]);
    assert_eq!(sorted(table.peers_in(PeerState::Disconnected)), vec![0xb]);
}

#[test]
fn apply_of_nothing_changes_nothing() {
    let mut table = PeerTable::new();
    assert!(table.apply(&vec![]).is_empty());
    table.apply(&vec![(A, PeerState::Connected)]);
    assert!(table.apply(&vec![]).is_empty());
    assert_eq!(sorted(table.peers_in(PeerState::Connected)), vec![0xa]);
}

#[test]
fn apply_in_two_batches_is_apply_in_one() {
    let first = vec![(A, PeerState::Connected), (B, PeerState::Connected)];
    let second = vec![
        (B, PeerState::Connected),
        (A, PeerState::Disconnected),
        (C, PeerState::Disconnected),
        (A, PeerState::Connected),
    ];
    let mut whole = first.clone();
    whole.extend(second.iter().copied());

    let mut split = PeerTable::new();
    let mut changes = split.apply(&first);
    changes.extend(split.apply(&second));

    let mut joined = PeerTable::new();
    assert_eq!(joined.apply(&whole), changes);
    assert_eq!(
        changes,
        vec![
            (A, PeerState::Connected),
            (B, PeerState::Connected),
            (A, PeerState::Disconnected),
            (C, PeerState::Disconnected),
            (A, PeerState::Connected),
        ]
    );
    for state in [PeerState::Connected, PeerState::Disconnected] {
        assert_eq!(sorted(split.peers_in(state)), sorted(joined.peers_in(state)));
    }
}

#[test]
fn disconnected_peer_stays_in_the_table() {
    let mut table = PeerTable::new();
    table.apply(&vec![(A, PeerState::Connected), (A, PeerState::Disconnected)]);
    assert!(table.peers_in(PeerState::Connected).is_empty());
    assert_eq!(sorted(table.peers_in(PeerState::Disconnected)), vec![0xa]);
}

#[test]
fn peers_in_lists_each_peer_once() {
    let mut table = PeerTable::new();
    let mut events = Vec::new();
    for round in 0..3 {
        for id in 0..50u128 {
            let state = if (id + round) % 2 == 0 {
                PeerState::Connected
            } else {
                PeerState::Disconnected
            };
            events.push((PeerId(id), state));
        }
    }
    table.apply(&events);
    let connected = sorted(table.peers_in(PeerState::Connected));
    let disconnected = sorted(table.peers_in(PeerState::Disconnected));
    assert_eq!(connected, (0..50u128).filter(|id| id % 2 == 0).collect::<Vec<_>>());
    assert_eq!(disconnected, (0..50u128).filter(|id| id % 2 == 1).collect::<Vec<_>>());
}

#[test]
fn update_peers_without_events_is_empty() {
    let (mut socket, _links) = WebRtcSocket::new_reliable("wss://example.invalid");
    assert!(socket.update_peers().is_empty());
    assert!(socket.connected_peers().is_empty());
    assert!(socket.disconnected_peers().is_empty());
}

#[test]
fn update_peers_suppresses_duplicates_and_reports_first_observations() {
    let (mut socket, links) = WebRtcSocket::new_reliable("wss://example.invalid");
    links.peer_state_tx.unbounded_send((A, PeerState::Connected)).unwrap();
    links.peer_state_tx.unbounded_send((A, PeerState::Connected)).unwrap();
    links.peer_state_tx.unbounded_send((B, PeerState::Disconnected)).unwrap();
    assert_eq!(
        socket.update_peers(),
        vec![(A, PeerState::Connected), (B, PeerState::Disconnected)]
    );
}

#[test]
fn update_peers_twice_reports_once() {
    let (mut socket, links) = WebRtcSocket::new_reliable("wss://example.invalid");
    links.peer_state_tx.unbounded_send((A, PeerState::Connected)).unwrap();
    links.peer_state_tx.unbounded_send((B, PeerState::Connected)).unwrap();
    assert_eq!(socket.update_peers().len(), 2);
    assert!(socket.update_peers().is_empty());
    assert_eq!(sorted(socket.connected_peers()), vec![0xa, 0xb]);
}

#[test]
fn update_peers_remembers_earlier_updates() {
    let (mut socket, links) = WebRtcSocket::new_reliable("wss://example.invalid");
    links.peer_state_tx.unbounded_send((A, PeerState::Connected)).unwrap();
    assert_eq!(socket.update_peers(), vec![(A, PeerState::Connected)]);
    links.peer_state_tx.unbounded_send((A, PeerState::Connected)).unwrap();
    assert!(socket.update_peers().is_empty());
    links.peer_state_tx.unbounded_send((A, PeerState::Disconnected)).unwrap();
    links.peer_state_tx.unbounded_send((C, PeerState::Connected)).unwrap();
    assert_eq!(
        socket.update_peers(),
        vec![(A, PeerState::Disconnected), (C, PeerState::Connected)]
    );
    assert_eq!(sorted(socket.connected_peers()), vec![0xc]);
    assert_eq!(sorted(socket.disconnected_peers()), vec![0xa]);
}

#[test]
fn peers_reflect_the_last_update_only() {
    let (mut socket, links) = WebRtcSocket::new_reliable("wss://example.invalid");
    links.peer_state_tx.unbounded_send((A, PeerState::Connected)).unwrap();
    assert!(socket.connected_peers().is_empty());
    socket.update_peers();
    assert_eq!(sorted(socket.connected_peers()), vec![0xa]);
}

#[test]
fn update_peers_after_shutdown_takes_what_is_left() {
    let (mut socket, links) = WebRtcSocket::new_reliable("wss://example.invalid");
    links.peer_state_tx.unbounded_send((B, PeerState::Connected)).unwrap();
    drop(links);
    assert_eq!(socket.update_peers(), vec![(B, PeerState::Connected)]);
    assert!(socket.update_peers().is_empty());
}

#[test]
fn update_peers_leaves_channels_alone() {
    let (mut socket, links) = WebRtcSocket::new_reliable("wss://example.invalid");
    links.peer_state_tx.unbounded_send((A, PeerState::Connected)).unwrap();
    socket.update_peers();
    assert!(socket.channel(0).is_some());
    assert_eq!(socket.id(), None);
}
