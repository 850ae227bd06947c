//! Fixed-point helpers for animations: scaling, blending, and sawtooth and
//! sine waves driven by the millisecond clock.
use vstd::prelude::*;
use vstd::std_specs::convert::FromSpecImpl;
use vstd::wrapping::{u16_specs, u32_specs};
use crate::lights::color::Rgb8;

verus! {

/// An unsigned fraction with 8 fractional bits.
#[derive(Clone, Copy, Debug)]
pub struct Fract8(pub u8);

/// A signed fraction with 7 fractional bits.
#[derive(Clone, Copy, Debug)]
pub struct SFract7(pub i8);

/// An unsigned fraction with 16 fractional bits.
#[derive(Clone, Copy, Debug)]
pub struct Fract16(pub u16);

/// A signed fraction with 15 fractional bits.
#[derive(Clone, Copy, Debug)]
pub struct SFract15(pub i16);

/// An unsigned number with 8 integer and 8 fractional bits.
#[derive(Clone, Copy, Debug)]
pub struct Accum88(pub u16);

/// A signed number with 7 integer and 8 fractional bits.
#[derive(Clone, Copy, Debug)]
pub struct SAccum78(pub i16);

/// An unsigned number with 16 integer and 16 fractional bits.
#[derive(Clone, Copy, Debug)]
pub struct Accum1616(pub u32);

/// A signed number with 15 integer and 16 fractional bits.
#[derive(Clone, Copy, Debug)]
pub struct SAccum1516(pub i32);

/// An unsigned number with 12 integer and 4 fractional bits.
#[derive(Clone, Copy, Debug)]
pub struct Accum124(pub u16);

/// A signed number with 1 integer and 14 fractional bits.
#[derive(Clone, Copy, Debug)]
pub struct SAccum114(pub i32);

impl From<u8> for Fract8 {
    fn from(x: u8) -> (r: Self) {
        Fract8(x)
    }
}

impl FromSpecImpl<u8> for Fract8 {
    open spec fn obeys_from_spec() -> bool {
        true
    }

    open spec fn from_spec(x: u8) -> Self {
        Fract8(x)
    }
}

impl From<i8> for SFract7 {
    fn from(x: i8) -> (r: Self) {
        SFract7(x)
    }
}

impl FromSpecImpl<i8> for SFract7 {
    open spec fn obeys_from_spec() -> bool {
        true
    }

    open spec fn from_spec(x: i8) -> Self {
        SFract7(x)
    }
}

impl From<u16> for Fract16 {
    fn from(x: u16) -> (r: Self) {
        Fract16(x)
    }
}

impl FromSpecImpl<u16> for Fract16 {
    open spec fn obeys_from_spec() -> bool {
        true
    }

    open spec fn from_spec(x: u16) -> Self {
        Fract16(x)
    }
}

impl From<i16> for SFract15 {
    fn from(x: i16) -> (r: Self) {
        SFract15(x)
    }
}

impl FromSpecImpl<i16> for SFract15 {
    open spec fn obeys_from_spec() -> bool {
        true
    }

    open spec fn from_spec(x: i16) -> Self {
        SFract15(x)
    }
}

impl From<u16> for Accum88 {
    fn from(x: u16) -> (r: Self) {
        Accum88(x)
    }
}

impl FromSpecImpl<u16> for Accum88 {
    open spec fn obeys_from_spec() -> bool {
        true
    }

    open spec fn from_spec(x: u16) -> Self {
        Accum88(x)
    }
}

/// A whole number of at most 255 as a number with 8 fractional bits.
impl From<u8> for Accum88 {
    fn from(x: u8) -> (r: Self) {
        Accum88((x as u16) * 256)
    }
}

impl FromSpecImpl<u8> for Accum88 {
    open spec fn obeys_from_spec() -> bool {
        true
    }

    open spec fn from_spec(x: u8) -> Self {
        Accum88((x * 256) as u16)
    }
}

impl From<Accum88> for u32 {
    fn from(a: Accum88) -> (r: u32) {
        a.0 as u32
    }
}

impl FromSpecImpl<Accum88> for u32 {
    open spec fn obeys_from_spec() -> bool {
        true
    }

    open spec fn from_spec(a: Accum88) -> u32 {
        a.0 as u32
    }
}

impl From<i16> for SAccum78 {
    fn from(x: i16) -> (r: Self) {
        SAccum78(x)
    }
}

impl FromSpecImpl<i16> for SAccum78 {
    open spec fn obeys_from_spec() -> bool {
        true
    }

    open spec fn from_spec(x: i16) -> Self {
        SAccum78(x)
    }
}

impl From<u32> for Accum1616 {
    fn from(x: u32) -> (r: Self) {
        Accum1616(x)
    }
}

impl FromSpecImpl<u32> for Accum1616 {
    open spec fn obeys_from_spec() -> bool {
        true
    }

    open spec fn from_spec(x: u32) -> Self {
        Accum1616(x)
    }
}

impl From<i32> for SAccum1516 {
    fn from(x: i32) -> (r: Self) {
        SAccum1516(x)
    }
}

impl FromSpecImpl<i32> for SAccum1516 {
    open spec fn obeys_from_spec() -> bool {
        true
    }

    open spec fn from_spec(x: i32) -> Self {
        SAccum1516(x)
    }
}

impl From<u16> for Accum124 {
    fn from(x: u16) -> (r: Self) {
        Accum124(x)
    }
}

impl FromSpecImpl<u16> for Accum124 {
    open spec fn obeys_from_spec() -> bool {
        true
    }

    open spec fn from_spec(x: u16) -> Self {
        Accum124(x)
    }
}

impl From<i32> for SAccum114 {
    fn from(x: i32) -> (r: Self) {
        SAccum114(x)
    }
}

impl FromSpecImpl<i32> for SAccum114 {
    open spec fn obeys_from_spec() -> bool {
        true
    }

    open spec fn from_spec(x: i32) -> Self {
        SAccum114(x)
    }
}

/// Base values and slopes of the four sections of a quarter wave of
/// [`sin8`], interleaved.
pub const B_M16_INTERLEAVE: [u8; 8] = [0, 49, 49, 41, 90, 27, 117, 10];

/// Base values of the eight sections of a quarter wave of [`sin16`].
pub const SIN16_BASE: [u16; 8] = [0, 6393, 12539, 18204, 23170, 27245, 30273, 32137];

/// Slopes of the eight sections of a quarter wave of [`sin16`].
pub const SIN16_SLOPE: [u8; 8] = [49, 48, 44, 38, 31, 23, 14, 4];

/// A sawtooth that rises from 0 to 65535 `bpm88 / 256` times a minute, read
/// at `now` milliseconds. The product wraps around in 32 bits.
pub open spec fn spec_beat88(bpm88: Accum88, now: u32) -> u16 {
    (u32_specs::wrapping_mul(u32_specs::wrapping_mul(now, bpm88.0 as u32), 280) / 65536) as u16
}

/// `i` scaled by `(scale + 1) / 65536`.
pub open spec fn spec_scale16(i: u16, scale: u16) -> u16 {
    ((i as int * (1 + scale as int)) / 65536) as u16
}

/// `i` scaled by `(scale + 1) / 256`.
pub open spec fn spec_scale8(i: u8, scale: u8) -> u8 {
    ((i as int * (1 + scale as int)) / 256) as u8
}

/// `a` and `b` mixed in the proportion `255 - amount_of_b` to
/// `amount_of_b`.
pub open spec fn spec_blend8(a: u8, b: u8, amount_of_b: u8) -> u8 {
    ((a as int * (256 - amount_of_b as int) + b as int * (amount_of_b as int + 1)) / 256) as u8
}

/// The position of `theta` within its quarter wave, counted from the zero
/// crossing, in steps of 8.
pub open spec fn sin16_offset(theta: u16) -> int {
    let offset = (theta as int % 16384) / 8;
    if (theta as int / 16384) % 2 == 1 {
        2047 - offset
    } else {
        offset
    }
}

/// The sine of `theta`, where 65536 is a full turn, between -32767 and
/// 32767: on each eighth of a quarter wave a straight line from a base
/// value.
pub open spec fn spec_sin16(theta: u16) -> i16 {
    let offset = sin16_offset(theta);
    let section = offset / 256;
    let rise = SIN16_SLOPE[section] as int * ((offset % 256) / 2) + SIN16_BASE[section] as int;
    if theta >= 32768 {
        (-rise) as i16
    } else {
        rise as i16
    }
}

/// The height of [`sin8`] above its middle line within a quarter wave.
pub open spec fn sin8_rise(theta: u8) -> int {
    let mirrored = (theta as int / 64) % 2 == 1;
    let offset = if mirrored {
        (255 - theta as int) % 64
    } else {
        theta as int % 64
    };
    let secoffset = offset % 16 + if mirrored {
        1int
    } else {
        0int
    };
    let section = offset / 16;
    (B_M16_INTERLEAVE[2 * section + 1] as int * secoffset) / 16 + B_M16_INTERLEAVE[2
        * section] as int
}

/// The sine of `theta`, where 256 is a full turn, between 0 and 255 around
/// the middle line 128.
pub open spec fn spec_sin8(theta: u8) -> u8 {
    if theta >= 128 {
        (127 - sin8_rise(theta)) as u8
    } else {
        (sin8_rise(theta) + 128) as u8
    }
}

/// The sine wave of [`spec_beat88`] shifted by `phase_offset`, moved into
/// the range from `low` to `high`. The wave is read half a turn ahead and
/// its value is taken as an unsigned 16 bit number.
pub open spec fn spec_beatsin88(bpm: Accum88, low: u16, high: u16, now: u32, phase_offset: u16) -> u16 {
    let theta = u16_specs::wrapping_add(
        u16_specs::wrapping_add(spec_beat88(bpm, now), phase_offset),
        32768,
    );
    let wave = spec_sin16(theta) as int;
    let beat_sin = if wave < 0 {
        (wave + 65536) as u16
    } else {
        wave as u16
    };
    u16_specs::wrapping_add(
        low,
        spec_scale16(beat_sin, u16_specs::wrapping_sub(high, low)),
    )
}

/// One colour component dimmed by `amount`, not below zero.
pub open spec fn spec_fade(component: u8, amount: u8) -> u8 {
    if component > amount {
        (component - amount) as u8
    } else {
        0
    }
}

/// A colour with every component dimmed by `amount`.
pub open spec fn spec_fade_color(color: Rgb8, amount: u8) -> Rgb8 {
    Rgb8 {
        r: spec_fade(color.r, amount),
        g: spec_fade(color.g, amount),
        b: spec_fade(color.b, amount),
    }
}

/// `overlay` laid over `existing` with the weight `amount_of_overlay`: none
/// of it at 0, all of it at 255, a blend in between.
pub open spec fn spec_nblend(existing: Rgb8, overlay: Rgb8, amount_of_overlay: u8) -> Rgb8 {
    if amount_of_overlay == 0 {
        existing
    } else if amount_of_overlay == 255 {
        overlay
    } else {
        Rgb8 {
            r: spec_blend8(existing.r, overlay.r, amount_of_overlay),
            g: spec_blend8(existing.g, overlay.g, amount_of_overlay),
            b: spec_blend8(existing.b, overlay.b, amount_of_overlay),
        }
    }
}

/// A 16 bit sawtooth wave at `bpm88` beats per minute, a number with 8
/// fractional bits: 120 beats per minute are `120 * 256`. A minute is taken
/// as 65536 ms by the factor 280 / 256, which is exact to about 0.1%.
pub fn beat88(bpm88: Accum88, now: u32) -> (beat: u16)
    ensures
        beat == spec_beat88(bpm88, now),
{
    let product: u32 = now.wrapping_mul(u32::from(bpm88)).wrapping_mul(280);
    assert(product >> 16 == product / 65536) by (bit_vector);
    (product >> 16) as u16
}

/// A 16 bit sine wave at `bpm` beats per minute that swings between `low`
/// and `high`.
pub fn beatsin88(bpm: Accum88, low: u16, high: u16, now: u32, phase_offset: u16) -> (wave: u16)
    ensures
        wave == spec_beatsin88(bpm, low, high, now, phase_offset),
{
    let beat = beat88(bpm, now);
    let theta = beat.wrapping_add(phase_offset).wrapping_add(32767).wrapping_add(1);
    let wave = sin16(theta);
    let beat_sin: u16 = if wave < 0 {
        (wave as i32 + 65536) as u16
    } else {
        wave as u16
    };
    let range_width = high.wrapping_sub(low);
    let scaledbeat = scale16(beat_sin, range_width);
    low.wrapping_add(scaledbeat)
}

/// Blends `a` with `b`: `amount_of_b` of 0 gives `a`, 255 gives `b`.
pub fn blend8(a: u8, b: u8, amount_of_b: u8) -> (blended: u8)
    ensures
        blended == spec_blend8(a, b, amount_of_b),
        amount_of_b == 0 ==> blended == a,
        amount_of_b == 255 ==> blended == b,
{
    let amount_of_a: u16 = 255 - amount_of_b as u16;
    assert(a * (amount_of_a + 1) + b * (amount_of_b + 1) <= 255 * 257) by (nonlinear_arith)
        requires
            a <= 255,
            b <= 255,
            amount_of_a + amount_of_b == 255,
            0 <= amount_of_b <= 255,
    ;
    assert(0 <= a * (amount_of_a + 1) && 0 <= b * (amount_of_b + 1)) by (nonlinear_arith)
        requires
            0 <= amount_of_a,
    ;
    proof {
        if amount_of_b == 0 {
            assert(a * (amount_of_a + 1) == a * 256);
            assert(b * (amount_of_b + 1) == b) by (nonlinear_arith)
                requires
                    amount_of_b == 0,
            ;
        }
        if amount_of_b == 255 {
            assert(a * (amount_of_a + 1) == a) by (nonlinear_arith)
                requires
                    amount_of_a == 0,
            ;
            assert(b * (amount_of_b + 1) == b * 256);
        }
    }
    let mut partial: u16 = a as u16 * (amount_of_a + 1);
    partial += b as u16 * (amount_of_b as u16 + 1);
    assert(partial >> 8 == partial / 256) by (bit_vector);
    (partial >> 8) as u8
}

/// Dims every LED by `amount`; a component that is not brighter than
/// `amount` goes dark.
pub fn fade_to_black_by(leds: &mut [Rgb8], amount: u8)
    ensures
        final(leds)@.len() == old(leds)@.len(),
        forall|i: int|
            0 <= i < old(leds)@.len() ==> final(leds)@[i] == spec_fade_color(
                #[trigger] old(leds)@[i],
                amount,
            ),
{
    let n = leds.len();
    let mut i: usize = 0;
    while i < n
        invariant
            i <= n,
            n == leds@.len(),
            leds@.len() == old(leds)@.len(),
            forall|j: int| 0 <= j < i ==> leds@[j] == spec_fade_color(#[trigger] old(leds)@[j], amount),
            forall|j: int| i <= j < n ==> leds@[j] == old(leds)@[j],
        decreases n - i,
    {
        let led = leds[i];
        leds[i] = Rgb8 {
            r: if led.r > amount {
                led.r - amount
            } else {
                0
            },
            g: if led.g > amount {
                led.g - amount
            } else {
                0
            },
            b: if led.b > amount {
                led.b - amount
            } else {
                0
            },
        };
        i += 1;
    }
}

/// Lays `overlay` over `existing` with the weight `amount_of_overlay`.
pub fn nblend(existing: &mut Rgb8, overlay: &Rgb8, amount_of_overlay: u8)
    ensures
        *final(existing) == spec_nblend(*old(existing), *overlay, amount_of_overlay),
{
    if amount_of_overlay == 0 {
    } else if amount_of_overlay == 255 {
        existing.r = overlay.r;
        existing.g = overlay.g;
        existing.b = overlay.b;
    } else {
        existing.r = blend8(existing.r, overlay.r, amount_of_overlay);
        existing.g = blend8(existing.g, overlay.g, amount_of_overlay);
        existing.b = blend8(existing.b, overlay.b, amount_of_overlay);
    }
}

/// Scales `i` by `scale`, read as the numerator of a fraction of 256.
pub fn scale8(i: u8, scale: u8) -> (scaled: u8)
    ensures
        scaled == spec_scale8(i, scale),
        scaled <= i,
{
    assert(0 <= i * (1 + scale) <= i * 256) by (nonlinear_arith)
        requires
            0 <= scale <= 255,
            0 <= i,
    ;
    let product: u16 = (i as u16) * (1 + (scale as u16));
    assert(product >> 8 == product / 256) by (bit_vector);
    (product >> 8) as u8
}

/// Scales `i` by `scale`, read as the numerator of a fraction of 65536.
pub fn scale16(i: u16, scale: u16) -> (scaled: u16)
    ensures
        scaled == spec_scale16(i, scale),
        scaled <= i,
        scaled <= scale,
{
    assert(i * (1 + scale) <= 65535 * 65536) by (nonlinear_arith)
        requires
            i <= 65535,
            scale <= 65535,
    ;
    assert(i * (1 + scale) <= i * 65536) by (nonlinear_arith)
        requires
            scale <= 65535,
            0 <= i,
    ;
    assert(i * (1 + scale) <= 65535 * (1 + scale)) by (nonlinear_arith)
        requires
            i <= 65535,
            0 <= scale,
    ;
    ((i as u32) * (1 + (scale as u32)) / 65536) as u16
}

/// A fast 8 bit approximation of the sine: `theta` runs through a full turn
/// from 0 to 255, the result swings around 128.
pub fn sin8(theta: u8) -> (y: u8)
    ensures
        y == spec_sin8(theta),
{
    let mirrored = theta & 0x40 != 0;
    assert((theta & 0x40 != 0) == ((theta / 64) % 2 == 1)) by (bit_vector);
    assert((theta & 0x80 != 0) == (theta >= 128)) by (bit_vector);
    let mut offset = theta;
    if mirrored {
        offset = 255 - offset;
    }
    assert(offset & 0x3f == offset % 64) by (bit_vector);
    offset &= 0x3f;
    assert(offset & 0x0F == offset % 16) by (bit_vector);
    assert(offset >> 4 == offset / 16) by (bit_vector);
    let mut secoffset = offset & 0x0F;
    if mirrored {
        secoffset += 1;
    }
    let section = offset >> 4;
    let s2 = section * 2;
    let b = B_M16_INTERLEAVE[s2 as usize];
    let m16 = B_M16_INTERLEAVE[(s2 + 1) as usize];
    proof {
        lemma_sin8_section(section as int, secoffset as int);
    }
    let product: u16 = m16 as u16 * secoffset as u16;
    assert(product >> 4 == product / 16) by (bit_vector);
    let mx: u16 = product >> 4;
    let rise: u8 = (mx + b as u16) as u8;
    if theta & 0x80 != 0 {
        127 - rise
    } else {
        rise + 128
    }
}

/// Within a section of [`sin8`] the wave stays within half of its range.
proof fn lemma_sin8_section(section: int, secoffset: int)
    requires
        0 <= section < 4,
        0 <= secoffset <= 16,
    ensures
        0 <= B_M16_INTERLEAVE[2 * section + 1] as int * secoffset <= 49 * 16,
        0 <= (B_M16_INTERLEAVE[2 * section + 1] as int * secoffset) / 16 + B_M16_INTERLEAVE[2
            * section] as int <= 127,
{
    let slope = B_M16_INTERLEAVE[2 * section + 1] as int;
    if section == 0 {
        assert(slope * secoffset == 49 * secoffset);
    } else if section == 1 {
        assert(slope * secoffset == 41 * secoffset);
    } else if section == 2 {
        assert(slope * secoffset == 27 * secoffset);
    } else {
        assert(slope * secoffset == 10 * secoffset);
    }
}

/// A fast 16 bit approximation of the sine: `theta` runs through a full
/// turn from 0 to 65535, the result lies between -32767 and 32767.
pub fn sin16(theta: u16) -> (y: i16)
    ensures
        y == spec_sin16(theta),
        -32767 <= y <= 32767,
{
    let mut offset: u16 = (theta & 0x3FFF) >> 3;
    assert((theta & 0x3FFF) >> 3 == (theta % 16384) / 8) by (bit_vector);
    assert((theta & 0x4000 != 0) == ((theta / 16384) % 2 == 1)) by (bit_vector);
    assert((theta & 0x8000 != 0) == (theta >= 32768)) by (bit_vector);
    if theta & 0x4000 != 0 {
        offset = 2047 - offset;
    }
    let section: u8 = (offset / 256) as u8;
    let b: u16 = SIN16_BASE[section as usize];
    let m: u8 = SIN16_SLOPE[section as usize];
    let secoffset8: u8 = ((offset % 256) as u8) / 2;
    proof {
        lemma_sin16_section(section as int, secoffset8 as int);
    }
    let mx: u16 = (m as u16) * (secoffset8 as u16);
    let y: i16 = (mx as i16) + (b as i16);
    if theta & 0x8000 != 0 {
        -y
    } else {
        y
    }
}

/// Within a section of [`sin16`] the wave stays within its range.
proof fn lemma_sin16_section(section: int, secoffset: int)
    requires
        0 <= section < 8,
        0 <= secoffset <= 127,
    ensures
        0 <= SIN16_SLOPE[section] as int * secoffset <= 49 * 127,
        0 <= SIN16_SLOPE[section] as int * secoffset + SIN16_BASE[section] as int <= 32767,
{
    let slope = SIN16_SLOPE[section] as int;
    if section == 0 {
        assert(slope * secoffset == 49 * secoffset);
    } else if section == 1 {
        assert(slope * secoffset == 48 * secoffset);
    } else if section == 2 {
        assert(slope * secoffset == 44 * secoffset);
    } else if section == 3 {
        assert(slope * secoffset == 38 * secoffset);
    } else if section == 4 {
        assert(slope * secoffset == 31 * secoffset);
    } else if section == 5 {
        assert(slope * secoffset == 23 * secoffset);
    } else if section == 6 {
        assert(slope * secoffset == 14 * secoffset);
    } else {
        assert(slope * secoffset == 4 * secoffset);
    }
}

} // verus!
