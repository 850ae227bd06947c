use smart_compass::lights::color::Rgb8;
use smart_compass::lights::patterns::compass::{
    bearing_and_distance_to_id, nearest_led, Compass, Course,
};
use smart_compass::lights::patterns::{ANGLES, PHYSICAL_TO_FIBONACCI};
use smart_compass::network::{Message, NetworkData, PeerLocation};
use smart_compass::{MAX_PEERS, NUM_LEDS};

const HOME: [u8; 16] = [3; 16];

fn gap(bearing: u8, distance: u8, led: usize) -> u32 {
    (bearing as i32 - ANGLES[led] as i32).unsigned_abs()
        + (distance as i32 - PHYSICAL_TO_FIBONACCI[led] as i32).unsigned_abs()
}

fn peer(peer_id: usize, hue: u8, sat: u8) -> Message {
    Message {
        tx_peer_id: peer_id,
        tx_time: 0,
        tx_ms: 0,
        location: PeerLocation {
            network_hash: HOME,
            peer_id,
            last_updated_at: 10,
            hue,
            sat,
            lat: 0,
            lon: 0,
        },
    }
}

fn color_of(hue: u8, sat: u8) -> Rgb8 {
    let rgb = smart_leds::hsv::hsv2rgb(smart_leds::hsv::Hsv { hue, sat, val: 255 });
    Rgb8 { r: rgb.r, g: rgb.g, b: rgb.b }
}

#[test]
fn nearest_led_is_the_first_with_the_smallest_gap() {
    assert_eq!(nearest_led(0, 0), 0);
    let mut bearing = 0u32;
    while bearing < 256 {
        let mut distance = 0u32;
        while distance < 256 {
            let (b, d) = (bearing as u8, distance as u8);
            let led = nearest_led(b, d);
            assert!(led < NUM_LEDS);
            for other in 0..NUM_LEDS {
                assert!(gap(b, d, led) <= gap(b, d, other));
                if other < led {
                    assert!(gap(b, d, led) < gap(b, d, other));
                }
            }
            distance += 15;
        }
        bearing += 5;
    }
    // every LED is its own nearest, unless an earlier one lies at the same place
    for led in 0..NUM_LEDS {
        let found = nearest_led(ANGLES[led], PHYSICAL_TO_FIBONACCI[led]);
        assert!(found <= led);
        assert_eq!(gap(ANGLES[led], PHYSICAL_TO_FIBONACCI[led], found), 0);
    }
}

#[test]
fn bearing_and_distance_are_scaled_to_the_layout() {
    assert_eq!(bearing_and_distance_to_id(0, 0, 3000), 0);
    // a quarter turn is 63 of 255, and 1000 of 3000 is 85 of 255
    assert_eq!(bearing_and_distance_to_id(9000, 1000, 3000), nearest_led(63, 85));
    assert_eq!(bearing_and_distance_to_id(9000, 1000, 3000), 150);
    assert_eq!(bearing_and_distance_to_id(9000, 111, 3000), 195);
    assert_eq!(bearing_and_distance_to_id(18000, 1500, 3000), 49);
    assert_eq!(bearing_and_distance_to_id(12345, 777, 3000), 123);
    assert_eq!(bearing_and_distance_to_id(9000, 2999, 3000), 20);
    // at and beyond the maximum the distance is the rim
    assert_eq!(bearing_and_distance_to_id(0, 3000, 3000), 98);
    assert_eq!(bearing_and_distance_to_id(0, 3001, 3000), 98);
    assert_eq!(bearing_and_distance_to_id(0, i32::MAX, 3000), 98);
    assert_eq!(bearing_and_distance_to_id(36000, 5000, 3000), 99);
    assert_eq!(bearing_and_distance_to_id(36000, 5000, 3000), nearest_led(255, 255));
    // a negative distance points the other way
    assert_eq!(bearing_and_distance_to_id(27000, -1500, 3000), 108);
    assert_eq!(
        bearing_and_distance_to_id(27000, -1500, 3000),
        bearing_and_distance_to_id(9000, 1500, 3000)
    );
    assert_eq!(
        bearing_and_distance_to_id(100, i32::MIN, u32::MAX),
        bearing_and_distance_to_id(18100, i32::MAX, u32::MAX)
    );
    // equal inputs, equal LED
    for bearing in [0u32, 1, 17999, 18000, 35999, 36000] {
        for distance in [-4000i32, -1, 0, 1, 2999, 3000, 70000] {
            for max_distance in [1u32, 2999, 3000, u32::MAX] {
                assert_eq!(
                    bearing_and_distance_to_id(bearing, distance, max_distance),
                    bearing_and_distance_to_id(bearing, distance, max_distance)
                );
            }
        }
    }
}

#[test]
fn compass_without_own_position_only_fades() {
    let mut compass = Compass::new(100, 3000, 1000);
    let mut data = NetworkData::new(HOME, 2, 10, 20);
    data.merge_remote(&peer(1, 30, 40));
    let mut leds = [Rgb8 { r: 250, g: 100, b: 5 }; NUM_LEDS];
    let courses = [Some(Course { bearing: 9000, distance: 1000 }); MAX_PEERS];
    compass.buffer(0, &mut leds, &data, &courses);
    for led in leds.iter() {
        assert_eq!(*led, Rgb8 { r: 150, g: 0, b: 0 });
    }
}

#[test]
fn compass_draws_every_peer_and_cycles_where_they_meet() {
    let mut compass = Compass::new(255, 3000, 1000);
    let mut data = NetworkData::new(HOME, 2, 10, 20);
    data.upsert_self(5, 0, 0);
    data.merge_remote(&peer(0, 30, 40));
    data.merge_remote(&peer(1, 90, 250));
    data.merge_remote(&peer(3, 160, 200));
    data.merge_remote(&peer(4, 200, 100));
    // peers 0 and 3 lie in the same direction at the same distance, peer 1
    // sits on top of the local node, peer 4 has no course yet
    let courses = [
        Some(Course { bearing: 9000, distance: 1000 }),
        Some(Course { bearing: 0, distance: 0 }),
        None,
        Some(Course { bearing: 9000, distance: 1000 }),
        None,
    ];
    let shared = bearing_and_distance_to_id(9000, 1000, 3000);
    assert_eq!(shared, 150);

    let mut leds = [Rgb8 { r: 9, g: 9, b: 9 }; NUM_LEDS];
    compass.buffer(0, &mut leds, &data, &courses);
    // the centre: the local node first, then peer 1
    assert_eq!(leds[0], color_of(10, 20));
    assert_eq!(leds[shared], color_of(30, 40));
    for (i, led) in leds.iter().enumerate() {
        if i != 0 && i != shared {
            assert_eq!(*led, Rgb8 { r: 0, g: 0, b: 0 });
        }
    }

    compass.buffer(1000, &mut leds, &data, &courses);
    assert_eq!(leds[0], color_of(90, 250));
    assert_eq!(leds[shared], color_of(160, 200));
    compass.buffer(2999, &mut leds, &data, &courses);
    assert_eq!(leds[0], color_of(10, 20));
    assert_eq!(leds[shared], color_of(30, 40));
    assert_eq!(leds[0], Rgb8 { r: 255, g: 240, b: 235 });

    // alone on its LED a peer is always drawn
    let alone = [None, None, None, None, Some(Course { bearing: 18000, distance: 1500 })];
    for now in [0u32, 1000, 123_456] {
        compass.buffer(now, &mut leds, &data, &alone);
        assert_eq!(leds[0], color_of(10, 20));
        assert_eq!(leds[49], color_of(200, 100));
        assert_eq!(leds[49], Rgb8 { r: 226, g: 155, b: 255 });
        assert_eq!(leds[shared], Rgb8 { r: 0, g: 0, b: 0 });
    }
}
