use smart_compass::network::{
    same_network, MergeOutcome, Message, Mode, Network, NetworkData, PeerLocation, PeerTableEntry,
    Rejected,
};
use smart_compass::timers::ElapsedMs;
use smart_compass::MAX_PEERS;

const HOME: [u8; 16] = [7; 16];
const ELSEWHERE: [u8; 16] = [7, 7, 7, 7, 7, 7, 7, 7, 7, 7, 7, 7, 7, 7, 7, 8];

fn location(network_hash: [u8; 16], peer_id: usize, last_updated_at: u32) -> PeerLocation {
    PeerLocation {
        network_hash,
        peer_id,
        last_updated_at,
        hue: (peer_id * 40) as u8,
        sat: 200,
        lat: 1.5f32.to_bits(),
        lon: (peer_id as f32).to_bits(),
    }
}

fn message(network_hash: [u8; 16], peer_id: usize, last_updated_at: u32) -> Message {
    Message {
        tx_peer_id: peer_id,
        tx_time: last_updated_at,
        tx_ms: 5,
        location: location(network_hash, peer_id, last_updated_at),
    }
}

fn timestamp(data: &NetworkData, peer_id: usize) -> Option<u32> {
    data.get(peer_id).map(|entry| entry.location.last_updated_at)
}

fn same_location(a: &PeerLocation, b: &PeerLocation) -> bool {
    a.network_hash == b.network_hash
        && a.peer_id == b.peer_id
        && a.last_updated_at == b.last_updated_at
        && a.hue == b.hue
        && a.sat == b.sat
        && a.lat == b.lat
        && a.lon == b.lon
}

fn same_entry(a: &Option<PeerTableEntry>, b: &Option<PeerTableEntry>) -> bool {
    match (a, b) {
        (Some(a), Some(b)) => {
            same_location(&a.location, &b.location) && a.broadcast_slot == b.broadcast_slot
        }
        (None, None) => true,
        _ => false,
    }
}

fn same_table(a: &NetworkData, b: &[Option<PeerTableEntry>; MAX_PEERS]) -> bool {
    (0..MAX_PEERS).all(|i| same_entry(&a.peer_locations[i], &b[i]))
}

#[test]
fn equal_timestamp_is_rejected_and_newer_replaces() {
    let mut data = NetworkData::new(HOME, 2, 10, 20);
    assert!(data.iter().is_empty());

    assert_eq!(data.merge_remote(&message(HOME, 1, 100)), MergeOutcome::Accepted);
    assert_eq!(timestamp(&data, 1), Some(100));
    assert_eq!(data.get(1).unwrap().broadcast_slot, None);

    let mut again = message(HOME, 1, 100);
    again.location.hue = 99;
    assert_eq!(data.merge_remote(&again), MergeOutcome::Rejected(Rejected::Stale));
    assert_eq!(data.get(1).unwrap().location.hue, 40);

    let mut newer = message(HOME, 1, 101);
    newer.location.hue = 77;
    assert_eq!(data.merge_remote(&newer), MergeOutcome::Accepted);
    assert_eq!(timestamp(&data, 1), Some(101));
    assert_eq!(data.get(1).unwrap().location.hue, 77);
    assert_eq!(data.iter().len(), 1);
}

#[test]
fn foreign_network_never_changes_the_table() {
    let mut data = NetworkData::new(HOME, 2, 10, 20);
    data.merge_remote(&message(HOME, 1, 100));
    data.upsert_self(50, 1, 2);
    let before = data.peer_locations;
    for peer_id in 0..8 {
        for last_updated_at in [0, 99, 100, 101, u32::MAX] {
            let outcome = data.merge_remote(&message(ELSEWHERE, peer_id, last_updated_at));
            assert_eq!(outcome, MergeOutcome::Rejected(Rejected::ForeignNetwork));
            assert!(same_table(&data, &before));
        }
    }
    assert!(!same_network(&HOME, &ELSEWHERE));
    assert!(same_network(&HOME, &[7; 16]));
}

#[test]
fn self_echo_never_changes_the_table() {
    let mut data = NetworkData::new(HOME, 2, 10, 20);
    assert_eq!(
        data.merge_remote(&message(HOME, 2, 100)),
        MergeOutcome::Rejected(Rejected::SelfEcho)
    );
    assert!(data.get(2).is_none());
    data.upsert_self(50, 1, 2);
    let before = data.peer_locations;
    assert_eq!(
        data.merge_remote(&message(HOME, 2, u32::MAX)),
        MergeOutcome::Rejected(Rejected::SelfEcho)
    );
    assert!(same_table(&data, &before));
    assert_eq!(timestamp(&data, 2), Some(50));
}

#[test]
fn peer_outside_the_table_is_rejected() {
    let mut data = NetworkData::new(HOME, 0, 10, 20);
    let before = data.peer_locations;
    for peer_id in [MAX_PEERS, MAX_PEERS + 1, usize::MAX] {
        assert_eq!(
            data.merge_remote(&message(HOME, peer_id, 5)),
            MergeOutcome::Rejected(Rejected::PeerOutOfRange)
        );
    }
    assert!(same_table(&data, &before));
    assert_eq!(data.merge_remote(&message(HOME, MAX_PEERS - 1, 5)), MergeOutcome::Accepted);
    assert!(data.get(MAX_PEERS).is_none());
    assert!(data.get(usize::MAX).is_none());
}

#[test]
fn stored_timestamp_is_the_maximum_seen() {
    let mut data = NetworkData::new(HOME, 0, 10, 20);
    let stamps = [5u32, 3, 9, 9, 2, 40, 39, 40, 41, 0];
    let mut max = 0;
    let mut previous = None;
    for (n, stamp) in stamps.iter().enumerate() {
        let mut m = message(HOME, 3, *stamp);
        m.location.sat = n as u8;
        let outcome = data.merge_remote(&m);
        let expected = if n == 0 || *stamp > max {
            MergeOutcome::Accepted
        } else {
            MergeOutcome::Rejected(Rejected::Stale)
        };
        assert_eq!(outcome, expected);
        if outcome == MergeOutcome::Accepted {
            max = *stamp;
            assert_eq!(data.get(3).unwrap().location.sat, n as u8);
        }
        let now = timestamp(&data, 3);
        assert_eq!(now, Some(max));
        assert!(now >= previous);
        previous = now;
        assert!(data.get(1).is_none());
    }
    assert_eq!(data.get(3).unwrap().location.sat, 8);
}

#[test]
fn upsert_self_creates_then_updates_in_place() {
    let mut network = Network::new(HOME, 4, 11, 22);
    assert_eq!(network.current_mode, Mode::Sleep);
    assert!(network.data.get(4).is_none());

    network.save_my_location(1000, 48.5f32.to_bits(), 11.25f32.to_bits());
    let entry = network.data.get(4).unwrap();
    assert_eq!(entry.location.network_hash, HOME);
    assert_eq!(entry.location.peer_id, 4);
    assert_eq!(entry.location.last_updated_at, 1000);
    assert_eq!(entry.location.hue, 11);
    assert_eq!(entry.location.sat, 22);
    assert_eq!(f32::from_bits(entry.location.lat), 48.5);
    assert_eq!(f32::from_bits(entry.location.lon), 11.25);
    assert_eq!(entry.broadcast_slot, None);

    // once it has been broadcast, the same position keeps the mark
    let clock = ElapsedMs::at(77);
    assert!(network.transmit(&clock, false, 24, 4).is_some());
    assert_eq!(network.data.get(4).unwrap().broadcast_slot, Some(24));
    network.save_my_location(1001, 48.5f32.to_bits(), 11.25f32.to_bits());
    let entry = network.data.get(4).unwrap();
    assert_eq!(entry.location.last_updated_at, 1001);
    assert_eq!(entry.broadcast_slot, Some(24));

    // a new position clears it
    network.save_my_location(1002, 48.5f32.to_bits(), 11.5f32.to_bits());
    let entry = network.data.get(4).unwrap();
    assert_eq!(entry.location.last_updated_at, 1002);
    assert_eq!(f32::from_bits(entry.location.lon), 11.5);
    assert_eq!(entry.broadcast_slot, None);
    assert_eq!(network.data.iter().len(), 1);
}

#[test]
fn transmit_sends_each_entry_once_per_segment() {
    let mut network = Network::new(HOME, 2, 10, 20);
    let clock = ElapsedMs::at(1234);

    // nothing to send for a peer that is not known: the channel stays as it is
    assert!(network.transmit(&clock, false, 10, 1).is_none());
    assert_eq!(network.current_mode, Mode::Sleep);

    network.save_message(message(HOME, 1, 100));
    network.save_message(message(HOME, 4, 100));
    assert!(network.transmit(&clock, false, 10, 4).is_some());
    assert_eq!(network.current_mode, Mode::Transmit);
    // the transmission that was begun is still pending
    assert!(network.transmit(&clock, false, 10, 1).is_none());
    assert_eq!(network.data.get(1).unwrap().broadcast_slot, None);

    let frame = network.transmit(&clock, true, 10, 1).unwrap();
    assert_eq!(frame.tx_peer_id, 2);
    assert_eq!(frame.tx_ms, 1234);
    assert_eq!(frame.tx_time, 1234);
    assert!(same_location(&frame.location, &location(HOME, 1, 100)));
    assert_eq!(network.data.get(1).unwrap().broadcast_slot, Some(10));
    assert_eq!(network.current_mode, Mode::Transmit);

    // not again in the same segment, nor in an earlier one
    assert!(network.transmit(&clock, true, 10, 1).is_none());
    assert!(network.transmit(&clock, true, 9, 1).is_none());
    assert_eq!(network.data.get(1).unwrap().broadcast_slot, Some(10));
    // but in a later one
    assert!(network.transmit(&clock, true, 11, 1).is_some());
    assert_eq!(network.data.get(1).unwrap().broadcast_slot, Some(11));
    // and in segment 0 an entry that was never sent is due
    network.save_message(message(HOME, 3, 100));
    assert!(network.transmit(&clock, true, 0, 3).is_some());
    assert_eq!(network.data.get(3).unwrap().broadcast_slot, Some(0));
    assert!(network.transmit(&clock, true, 0, 3).is_none());

    // newer data of the peer is due again
    network.save_message(message(HOME, 1, 101));
    assert_eq!(network.data.get(1).unwrap().broadcast_slot, None);
    assert!(network.transmit(&clock, true, 11, 1).is_some());
}

#[test]
fn radio_modes_follow_the_calls() {
    let mut network = Network::new(HOME, 2, 10, 20);
    assert!(!network.sleep());
    assert_eq!(network.current_mode, Mode::Sleep);
    assert!(network.try_receive());
    assert_eq!(network.current_mode, Mode::Receive);
    assert!(!network.try_receive());
    assert!(network.sleep());
    assert_eq!(network.current_mode, Mode::Sleep);
    // from receive mode a transmit turn does not ask whether one is pending
    network.try_receive();
    network.save_message(message(HOME, 0, 1));
    assert!(network.transmit(&ElapsedMs::new(), false, 3, 0).is_some());
    assert_eq!(network.current_mode, Mode::Transmit);
    assert!(network.try_receive());
}

#[test]
fn iter_lists_entries_by_peer_id() {
    let mut data = NetworkData::new(HOME, 2, 10, 20);
    data.merge_remote(&message(HOME, 4, 7));
    data.merge_remote(&message(HOME, 0, 9));
    data.upsert_self(8, 0, 0);
    let ids: Vec<usize> = data.iter().iter().map(|e| e.location.peer_id).collect();
    assert_eq!(ids, vec![0, 2, 4]);
    let stamps: Vec<u32> = data.iter().iter().map(|e| e.location.last_updated_at).collect();
    assert_eq!(stamps, vec![9, 8, 7]);
}
