use smart_compass::lights::color::Rgb8;
use smart_compass::lights::patterns::compass::Course;
use smart_compass::lights::patterns::{ANGLES, PHYSICAL_TO_FIBONACCI};
use smart_compass::lights::{scene, Lights, Orientation, Scene};
use smart_compass::network::NetworkData;
use smart_compass::timers::ElapsedMs;
use smart_compass::{MAX_PEERS, NUM_LEDS};

const BLACK: Rgb8 = Rgb8 { r: 0, g: 0, b: 0 };

fn corrected(color: Rgb8, brightness: u8) -> Rgb8 {
    let one = [smart_leds::RGB8 { r: color.r, g: color.g, b: color.b }];
    let out: Vec<smart_leds::RGB8> =
        smart_leds::brightness(smart_leds::gamma(one.iter().cloned()), brightness).collect();
    Rgb8 { r: out[0].r, g: out[0].g, b: out[0].b }
}

#[test]
fn scene_follows_the_orientation() {
    assert_eq!(scene(Orientation::FaceDown, 1, true), Scene::Flashlight);
    assert_eq!(scene(Orientation::FaceUp, 1, false), Scene::Compass);
    assert_eq!(scene(Orientation::FaceUp, 0, true), Scene::Sunflower);
    assert_eq!(scene(Orientation::PortraitDown, 0, true), Scene::Clock);
    assert_eq!(scene(Orientation::PortraitDown, 3, false), Scene::Sunflower);
    assert_eq!(scene(Orientation::Unknown, 0, true), Scene::Clock);
    assert_eq!(scene(Orientation::Unknown, 0, false), Scene::Sunflower);
    assert_eq!(scene(Orientation::LandscapeUp, 0, false), Scene::PacMan);
    assert_eq!(scene(Orientation::LandscapeDown, 1, true), Scene::PacMan);
    assert_eq!(scene(Orientation::PortraitUp, 1, true), Scene::PacMan);
}

#[test]
fn draw_starts_a_frame_when_one_is_due() {
    let mut lights = Lights::new(128, 30);
    assert_eq!(lights.brightness, 128);
    assert_eq!(lights.framerate.period_ms, 33);
    assert_eq!(lights.led_buffer, [BLACK; NUM_LEDS]);
    assert_eq!(lights.pattern_compass.max_distance, 3000);
    let mut clock = ElapsedMs::at(100);
    assert_eq!(
        lights.draw(&clock, Orientation::FaceUp, 2, false),
        Some((100, Scene::Compass))
    );
    assert_eq!(lights.last_orientation, Orientation::FaceUp);
    assert_eq!(lights.draw(&clock, Orientation::FaceDown, 2, false), None);
    assert_eq!(lights.last_orientation, Orientation::FaceUp);
    clock.increment_by(32);
    assert_eq!(lights.draw(&clock, Orientation::FaceDown, 2, false), None);
    clock.increment();
    assert_eq!(
        lights.draw(&clock, Orientation::Unknown, 2, true),
        Some((133, Scene::Clock))
    );
    assert_eq!(lights.last_orientation, Orientation::Unknown);
    lights.set_brightness(64);
    assert_eq!(lights.brightness, 64);
    assert_eq!(Lights::new(1, 255).framerate.period_ms, 3);
    assert_eq!(Lights::new(1, 1).framerate.period_ms, 1000);
}

#[test]
fn frame_is_the_buffer_gamma_corrected_and_dimmed() {
    let mut lights = Lights::new(128, 30);
    for (i, led) in lights.led_buffer.iter_mut().enumerate() {
        *led = Rgb8 { r: i as u8, g: 255 - i as u8, b: 127 };
    }
    let frame = lights.frame();
    assert_eq!(frame.len(), NUM_LEDS);
    for (i, led) in frame.iter().enumerate() {
        assert_eq!(*led, corrected(lights.led_buffer[i], 128));
    }
    // half brightness on the gamma curve is 36, dimmed by 129 / 256
    assert_eq!(frame[0].b, (36 * 129 / 256) as u8);
    assert_eq!(frame[255].r, (255 * 129 / 256) as u8);
    assert_eq!(frame[255].g, 0);
    lights.set_brightness(255);
    assert_eq!(lights.frame()[255].r, 255);
    assert_eq!(lights.frame()[0].b, 36);
    lights.set_brightness(0);
    assert_eq!(lights.frame()[255].r, 0);
}

#[test]
fn test_pattern_and_black() {
    let mut lights = Lights::new(255, 30);
    let frame = lights.draw_test_pattern();
    let red = Rgb8 { r: 255, g: 0, b: 0 };
    let green = Rgb8 { r: 0, g: 255, b: 0 };
    let blue = Rgb8 { r: 0, g: 0, b: 255 };
    let white = Rgb8 { r: 255, g: 255, b: 255 };
    let expected = |i: usize| match i {
        0 => red,
        1 | 2 => green,
        3..=5 => blue,
        6 | 8 | 10 | 255 => white,
        _ => BLACK,
    };
    for i in 0..NUM_LEDS {
        assert_eq!(lights.led_buffer[i], expected(i));
        assert_eq!(frame[i], expected(i));
    }
    // the pattern is lit over what was there
    lights.led_buffer[1] = Rgb8 { r: 7, g: 8, b: 9 };
    lights.draw_test_pattern();
    assert_eq!(lights.led_buffer[1], Rgb8 { r: 7, g: 255, b: 9 });
    let dark = lights.draw_black();
    assert_eq!(lights.led_buffer, [BLACK; NUM_LEDS]);
    assert_eq!(dark, vec![BLACK; NUM_LEDS]);
}

#[test]
fn scenes_are_drawn_into_the_buffer() {
    let mut lights = Lights::new(255, 30);
    lights.buffer_sunflower(0);
    assert_eq!(lights.led_buffer[0], Rgb8 { r: 255, g: 15, b: 15 });
    assert_eq!(lights.led_buffer[1], Rgb8 { r: 255, g: 15, b: 38 });

    lights.buffer_pacman(0);
    assert_eq!(lights.led_buffer, [Rgb8 { r: 255, g: 255, b: 0 }; NUM_LEDS]);
    lights.buffer_pacman(39);
    let in_mouth = (1..NUM_LEDS).filter(|i| ANGLES[*i] >= 237 || ANGLES[*i] <= 20).count();
    assert_eq!(lights.led_buffer.iter().filter(|led| **led == BLACK).count(), in_mouth);

    lights.buffer_clock(200, 120, 40);
    assert_eq!(lights.pattern_clock.hour_angle, 200);
    assert_eq!(lights.led_buffer[0], Rgb8 { r: 255, g: 0, b: 0 });
    for i in 1..NUM_LEDS {
        if (32..=48).contains(&ANGLES[i]) && PHYSICAL_TO_FIBONACCI[i] > 178 {
            assert_eq!(lights.led_buffer[i], Rgb8 { r: 0, g: 0, b: 255 });
        }
    }

    let mut data = NetworkData::new([9; 16], 1, 10, 20);
    data.upsert_self(1, 2, 3);
    let courses: [Option<Course>; MAX_PEERS] = [None; MAX_PEERS];
    let before = lights.led_buffer;
    lights.buffer_compass(5, &data, &courses);
    assert_eq!(lights.led_buffer[0], Rgb8 { r: 255, g: 240, b: 235 });
    // everywhere else the background has faded by 240
    for i in 1..NUM_LEDS {
        let faded = Rgb8 {
            r: before[i].r.saturating_sub(240),
            g: before[i].g.saturating_sub(240),
            b: before[i].b.saturating_sub(240),
        };
        assert_eq!(lights.led_buffer[i], faded);
    }
    assert!(lights.led_buffer.iter().any(|led| *led == Rgb8 { r: 0, g: 0, b: 15 }));
}
