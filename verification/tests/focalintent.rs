use smart_compass::lights::color::Rgb8;
use smart_compass::lights::focalintent::{
    beat88, beatsin88, blend8, fade_to_black_by, nblend, scale16, scale8, sin16, sin8, Accum88,
};

const BLACK: Rgb8 = Rgb8 { r: 0, g: 0, b: 0 };
const WHITE: Rgb8 = Rgb8 { r: 255, g: 255, b: 255 };

#[test]
fn test_nblend() {
    let mut led;
    let mut expected;

    led = BLACK;
    expected = BLACK;
    nblend(&mut led, &WHITE, 0);
    assert_eq!(led, expected);

    led = BLACK;
    expected = WHITE;
    nblend(&mut led, &WHITE, 255);
    assert_eq!(led, expected);

    led = BLACK;
    expected = Rgb8 {
        r: 0x80,
        g: 0x80,
        b: 0x80,
    };
    nblend(&mut led, &WHITE, 128);
    assert_eq!(led, expected);
}

#[test]
fn test_beat88() {
    assert_eq!(beat88(30u8.into(), 0), 0);
}

#[test]
fn test_beatsin88() {
    assert_eq!(beatsin88(30u8.into(), 0, 0, 0, 0), 0);
}

#[test]
fn test_scale16() {
    assert_eq!(scale16(0, 0), 0);
    assert_eq!(scale16(0, u16::MAX), 0);
    assert_eq!(scale16(64, 32768), 32);
    assert_eq!(scale16(256, 32768), 128);
    assert_eq!(scale16(u16::MAX, u16::MAX), u16::MAX);
}

#[test]
fn test_sin16() {
    assert_eq!(sin16(0), 0);
    assert_eq!(sin16(9), 0);
    assert_eq!(sin16(256), 784);
    assert_eq!(sin16(1024), 3136);
    assert_eq!(sin16(32761), 0);
    assert_eq!(sin16(36100), -10233);
    assert_eq!(sin16(49284), -32613);
    assert_eq!(sin16(64516), -3087);
}

#[test]
fn beat88_counts_beats_of_a_wrapping_clock() {
    // 60 beats a minute: one beat, that is one full sawtooth, takes about a second
    let bpm = Accum88::from(60u8);
    assert_eq!(bpm.0, 60 * 256);
    assert_eq!(beat88(bpm, 1), ((60u32 * 256 * 280) >> 16) as u16);
    assert_eq!(beat88(bpm, 500), ((500u32 * 60 * 256 * 280) >> 16) as u16);
    // the product wraps around in 32 bits
    let now = 4_000_000_000u32;
    let expected = (now.wrapping_mul(60 * 256).wrapping_mul(280) >> 16) as u16;
    assert_eq!(beat88(bpm, now), expected);
}

#[test]
fn beatsin88_stays_within_its_range() {
    let bpm = Accum88::from(87u16);
    let mut now = 0u32;
    while now < 200_000 {
        let wave = beatsin88(bpm, 220, 250, now, 0);
        assert!((220..=250).contains(&wave));
        now += 997;
    }
    // at the clock's zero the wave is read half a turn ahead: sin16(32768) == 0
    assert_eq!(beatsin88(bpm, 220, 250, 0, 0), 220);
    // a quarter turn of phase brings it to the negative peak, read as unsigned
    let peak = sin16(49152) as u16;
    assert_eq!(beatsin88(bpm, 100, 200, 0, 16384), 100 + scale16(peak, 100));
}

#[test]
fn scale8_and_blend8_values() {
    assert_eq!(scale8(255, 255), 255);
    assert_eq!(scale8(128, 127), 64);
    assert_eq!(scale8(0, 255), 0);
    assert_eq!(scale8(200, 0), 0);
    assert_eq!(blend8(10, 200, 0), 10);
    assert_eq!(blend8(10, 200, 255), 200);
    assert_eq!(blend8(0, 255, 128), 0x80);
    assert_eq!(blend8(100, 100, 77), 100);
}

#[test]
fn sin8_follows_its_sections() {
    assert_eq!(sin8(0), 128);
    assert_eq!(sin8(16), 128 + 49);
    assert_eq!(sin8(32), 128 + 90);
    assert_eq!(sin8(63), 128 + 117 + (10 * 15) / 16);
    assert_eq!(sin8(64), 128 + 117 + 10);
    assert_eq!(sin8(128), 127);
    assert_eq!(sin8(192), 127 - 127);
    assert_eq!(sin8(255), 127 - 3);
    for theta in 0..=255u8 {
        let y = sin8(theta);
        if theta < 128 {
            assert!(y >= 128);
        } else {
            assert!(y <= 127);
        }
    }
}

#[test]
fn sin16_is_odd_and_bounded() {
    for step in 0..4096u32 {
        let theta = (step * 16) as u16;
        let y = sin16(theta);
        assert!((-32767..=32767).contains(&y));
        assert_eq!(sin16(theta.wrapping_add(32768)), -y);
    }
    assert_eq!(sin16(16383), 32137 + 4 * 127);
    assert_eq!(sin16(16384), 32137 + 4 * 127);
}

#[test]
fn fade_to_black_by_dims_each_component() {
    let mut leds = [
        Rgb8 { r: 255, g: 64, b: 0 },
        Rgb8 { r: 65, g: 63, b: 200 },
    ];
    fade_to_black_by(&mut leds, 64);
    assert_eq!(leds[0], Rgb8 { r: 191, g: 0, b: 0 });
    assert_eq!(leds[1], Rgb8 { r: 1, g: 0, b: 136 });
    fade_to_black_by(&mut leds, 255);
    assert_eq!(leds, [BLACK, BLACK]);
    let mut none: [Rgb8; 0] = [];
    fade_to_black_by(&mut none, 10);
}
