use smart_compass::network::{Message, Mode, Network, PeerLocation};
use smart_compass::tdma::{
    broadcasted_peer_id, broadcasting_peer_id, tick, time_segment_id, turn, RadioCommand, Turn,
    NUM_TIME_SEGMENTS, TIME_SEGMENT_S,
};
use smart_compass::timers::ElapsedMs;
use smart_compass::MAX_PEERS;

const HOME: [u8; 16] = [1; 16];

fn report(peer_id: usize, last_updated_at: u32) -> Message {
    Message {
        tx_peer_id: peer_id,
        tx_time: 0,
        tx_ms: 0,
        location: PeerLocation {
            network_hash: HOME,
            peer_id,
            last_updated_at,
            hue: 1,
            sat: 2,
            lat: 3,
            lon: 4,
        },
    }
}

#[test]
fn second_47_is_segment_23_and_peer_2_listens() {
    assert_eq!(MAX_PEERS, 5);
    assert_eq!(TIME_SEGMENT_S, 2);
    assert_eq!(NUM_TIME_SEGMENTS, 25);
    assert_eq!(time_segment_id(47), 23);
    assert_eq!(broadcasting_peer_id(23), 4);
    assert_eq!(broadcasted_peer_id(23), 3);
    assert_eq!(turn(Some(47), 2), Turn::Listen);
    assert_eq!(
        turn(Some(47), 4),
        Turn::Transmit {
            time_segment_id: 23,
            peer_id: 3
        }
    );
}

#[test]
fn each_pair_has_exactly_one_segment_in_a_cycle() {
    let mut seen = [[0u32; MAX_PEERS]; MAX_PEERS];
    for second in 0..(NUM_TIME_SEGMENTS * TIME_SEGMENT_S) as u32 {
        let id = time_segment_id(second);
        assert_eq!(id, second as usize / 2);
        if second % 2 == 0 {
            seen[broadcasting_peer_id(id)][broadcasted_peer_id(id)] += 1;
        }
        assert_eq!(id, broadcasting_peer_id(id) * MAX_PEERS + broadcasted_peer_id(id));
    }
    for row in seen.iter() {
        for count in row.iter() {
            assert_eq!(*count, 1);
        }
    }
    // a cycle later everything repeats
    for second in [0u32, 1, 47, 49, 12345] {
        assert_eq!(time_segment_id(second + 50), time_segment_id(second));
    }
    assert_eq!(time_segment_id(u32::MAX), ((u32::MAX / 2) % 25) as usize);
}

#[test]
fn at_most_one_node_transmits_at_any_second() {
    for second in 0..200u32 {
        let transmitting = (0..MAX_PEERS)
            .filter(|me| matches!(turn(Some(second), *me), Turn::Transmit { .. }))
            .count();
        assert_eq!(transmitting, 1);
        // and both seconds of a segment name the same node
        let other = second ^ 1;
        for me in 0..MAX_PEERS {
            assert_eq!(turn(Some(second), me), turn(Some(other), me));
        }
    }
}

#[test]
fn without_time_the_node_never_transmits() {
    for me in 0..MAX_PEERS {
        assert_eq!(turn(None, me), Turn::Sleep);
    }
    let mut network = Network::new(HOME, 0, 1, 2);
    network.save_my_location(1, 2, 3);
    let clock = ElapsedMs::new();
    // awake, with something to send: the first tick powers the radio down
    network.try_receive();
    assert!(matches!(tick(&mut network, &clock, None, true), RadioCommand::Sleep));
    assert_eq!(network.current_mode, Mode::Sleep);
    for _ in 0..10 {
        assert!(matches!(tick(&mut network, &clock, None, true), RadioCommand::Idle));
        assert_eq!(network.current_mode, Mode::Sleep);
        assert_eq!(network.data.get(0).unwrap().broadcast_slot, None);
    }
}

#[test]
fn tick_transmits_in_the_own_segment_and_listens_otherwise() {
    let mut network = Network::new(HOME, 1, 1, 2);
    network.save_message(report(3, 500));
    let clock = ElapsedMs::at(42);

    // second 16 is segment 8: peer 1 broadcasts the entry of peer 3
    match tick(&mut network, &clock, Some(16), true) {
        RadioCommand::Transmit(message) => {
            assert_eq!(message.tx_peer_id, 1);
            assert_eq!(message.tx_ms, 42);
            assert_eq!(message.location.peer_id, 3);
            assert_eq!(message.location.last_updated_at, 500);
        }
        _ => panic!("the entry of peer 3 was due"),
    }
    assert_eq!(network.current_mode, Mode::Transmit);
    assert_eq!(network.data.get(3).unwrap().broadcast_slot, Some(8));
    // one second later it is the same segment: nothing more to send
    assert!(matches!(tick(&mut network, &clock, Some(17), true), RadioCommand::Idle));
    // second 18 is segment 9 with the entry of peer 4, which is not known
    assert!(matches!(tick(&mut network, &clock, Some(18), true), RadioCommand::Idle));
    assert_eq!(network.current_mode, Mode::Transmit);
    // second 20 is segment 10, which belongs to peer 2
    assert!(matches!(
        tick(&mut network, &clock, Some(20), true),
        RadioCommand::Listen { start_receive: true }
    ));
    assert_eq!(network.current_mode, Mode::Receive);
    assert!(matches!(
        tick(&mut network, &clock, Some(21), true),
        RadioCommand::Listen { start_receive: false }
    ));
    // a pending transmission blocks the next one
    let mut busy = Network::new(HOME, 1, 1, 2);
    busy.save_message(report(3, 500));
    busy.save_message(report(0, 500));
    assert!(matches!(tick(&mut busy, &clock, Some(10), false), RadioCommand::Transmit(_)));
    assert!(matches!(tick(&mut busy, &clock, Some(16), false), RadioCommand::Idle));
    assert_eq!(busy.data.get(3).unwrap().broadcast_slot, None);
    assert!(matches!(tick(&mut busy, &clock, Some(16), true), RadioCommand::Transmit(_)));
}
