//! Waves of colour that run along the strip and back.
use vstd::prelude::*;
use vstd::wrapping::u16_specs;
use crate::lights::color::{hsv2rgb, hsv2rgb_color, Rgb8};
use crate::lights::focalintent::{beatsin88, nblend, spec_beatsin88, spec_nblend, Accum88};
use crate::lights::patterns::pride::{
    advanced, brightness, low16, low8, spec_brightness, stepped, BLEND_AMOUNT,
};
use crate::lights::patterns::Pattern;
use crate::NUM_LEDS;

verus! {

/// The waves pattern: its running state and the rhythms, each given as
/// beats per minute with 8 fractional bits and the range it swings in.
#[derive(Clone, Copy, Debug)]
pub struct Waves {
    pub pseudotime: u16,
    pub last_ms: u16,
    pub hue: u16,
    pub saturation_bpm: Accum88,
    pub saturation_min: u16,
    pub saturation_max: u16,
    pub bright_depth_bpm: Accum88,
    pub bright_depth_min: u16,
    pub bright_depth_max: u16,
    pub bright_theta_inc_bpm: Accum88,
    pub bright_theta_inc_min: u16,
    pub bright_theta_inc_max: u16,
    pub ms_multiplier_bpm: Accum88,
    pub ms_multiplier_min: u16,
    pub ms_multiplier_max: u16,
    pub hue_inc_bpm: Accum88,
    pub hue_inc_min: u16,
    pub hue_inc_max: u16,
    pub s_hue_bpm: Accum88,
    pub s_hue_min: u16,
    pub s_hue_max: u16,
}

/// The hue that a 16 bit hue stands for: it rises to 127 over a quarter of
/// the 16 bit range and falls back over the next, twice per range.
pub open spec fn spec_folded_hue(hue16: u16) -> u8 {
    let h16_128 = hue16 / 128;
    if (h16_128 / 256) % 2 == 1 {
        (255 - h16_128 / 2) as u8
    } else {
        (h16_128 / 2) as u8
    }
}

/// Computes [`spec_folded_hue`].
pub fn folded_hue(hue16: u16) -> (hue8: u8)
    ensures
        hue8 == spec_folded_hue(hue16),
{
    let h16_128: u16 = hue16 >> 7;
    assert(hue16 >> 7 == hue16 / 128) by (bit_vector);
    assert((h16_128 & 0x100 != 0) == ((h16_128 / 256) % 2 == 1)) by (bit_vector);
    assert(h16_128 >> 1 == h16_128 / 2) by (bit_vector);
    if h16_128 & 0x100 != 0 {
        (255 - (h16_128 >> 1)) as u8
    } else {
        (h16_128 >> 1) as u8
    }
}

impl Waves {
    pub fn new() -> (waves: Self)
        ensures
            waves == (Waves {
                pseudotime: 0,
                last_ms: 0,
                hue: 0,
                saturation_bpm: Accum88(87),
                saturation_min: 220,
                saturation_max: 250,
                bright_depth_bpm: Accum88(256),
                bright_depth_min: 96,
                bright_depth_max: 224,
                bright_theta_inc_bpm: Accum88(203),
                bright_theta_inc_min: 6400,
                bright_theta_inc_max: 10240,
                ms_multiplier_bpm: Accum88(147),
                ms_multiplier_min: 23,
                ms_multiplier_max: 60,
                hue_inc_bpm: Accum88(113),
                hue_inc_min: 1,
                hue_inc_max: 3072,
                s_hue_bpm: Accum88(2),
                s_hue_min: 5,
                s_hue_max: 9,
            }),
    {
        Waves {
            pseudotime: 0,
            last_ms: 0,
            hue: 0,
            saturation_bpm: Accum88::from(87u16),
            saturation_min: 220,
            saturation_max: 250,
            bright_depth_bpm: Accum88::from(256u16),
            bright_depth_min: 96,
            bright_depth_max: 224,
            bright_theta_inc_bpm: Accum88::from(203u16),
            bright_theta_inc_min: 25 * 256,
            bright_theta_inc_max: 40 * 256,
            ms_multiplier_bpm: Accum88::from(147u16),
            ms_multiplier_min: 23,
            ms_multiplier_max: 60,
            hue_inc_bpm: Accum88::from(113u16),
            hue_inc_min: 1,
            hue_inc_max: 3072,
            s_hue_bpm: Accum88::from(2u16),
            s_hue_min: 5,
            s_hue_max: 9,
        }
    }

    /// The saturation of the frame at `now`.
    pub open spec fn saturation(&self, now: u32) -> u8 {
        low8(
            spec_beatsin88(self.saturation_bpm, self.saturation_min, self.saturation_max, now, 0),
        )
    }

    /// The depth of the brightness wave of the frame at `now`.
    pub open spec fn bright_depth(&self, now: u32) -> u8 {
        low8(
            spec_beatsin88(
                self.bright_depth_bpm,
                self.bright_depth_min,
                self.bright_depth_max,
                now,
                0,
            ),
        )
    }

    /// By how much the phase of the brightness wave grows from one LED to
    /// the next in the frame at `now`.
    pub open spec fn bright_theta_inc(&self, now: u32) -> u16 {
        spec_beatsin88(
            self.bright_theta_inc_bpm,
            self.bright_theta_inc_min,
            self.bright_theta_inc_max,
            now,
            0,
        )
    }

    /// By how much the hue grows from one LED to the next in the frame at
    /// `now`.
    pub open spec fn hue_inc(&self, now: u32) -> u16 {
        spec_beatsin88(self.hue_inc_bpm, self.hue_inc_min, self.hue_inc_max, now, 0)
    }

    /// The milliseconds since the last frame, modulo 65536.
    pub open spec fn deltams(&self, now: u32) -> u16 {
        u16_specs::wrapping_sub(low16(now), self.last_ms)
    }

    /// The state after the frame at `now`: the clock is remembered, and the
    /// pseudo time and the hue have moved on at their own speeds.
    pub open spec fn after(&self, now: u32) -> Waves {
        Waves {
            last_ms: low16(now),
            pseudotime: advanced(
                self.pseudotime,
                self.deltams(now),
                spec_beatsin88(
                    self.ms_multiplier_bpm,
                    self.ms_multiplier_min,
                    self.ms_multiplier_max,
                    now,
                    0,
                ),
            ),
            hue: advanced(
                self.hue,
                self.deltams(now),
                spec_beatsin88(self.s_hue_bpm, self.s_hue_min, self.s_hue_max, now, 0),
            ),
            ..*self
        }
    }

    /// The colour of the `step`th step of the frame at `now`, counted from
    /// 1: hue and brightness phase have grown `step` times.
    pub open spec fn step_color(&self, now: u32, step: nat) -> Rgb8 {
        hsv2rgb_color(
            spec_folded_hue(stepped(self.hue, self.hue_inc(now), step)),
            self.saturation(now),
            spec_brightness(
                stepped(self.after(now).pseudotime, self.bright_theta_inc(now), step),
                self.bright_depth(now),
            ),
        )
    }
}

impl Pattern for Waves {
    open spec fn wf(&self) -> bool {
        true
    }

    /// Draws one frame and moves the pattern's state on. The steps run
    /// from the last LED of the strip to the first, and every LED has the
    /// colour of its step laid over it.
    fn buffer(&mut self, now: u32, leds: &mut [Rgb8])
        ensures
            *final(self) == old(self).after(now),
            forall|led: int|
                0 <= led < NUM_LEDS ==> #[trigger] final(leds)@[led] == spec_nblend(
                    old(leds)@[led],
                    old(self).step_color(now, (NUM_LEDS - led) as nat),
                    BLEND_AMOUNT,
                ),
    {
        let sat8 = (beatsin88(
            self.saturation_bpm,
            self.saturation_min,
            self.saturation_max,
            now,
            0,
        ) % 256) as u8;
        let bright_depth = (beatsin88(
            self.bright_depth_bpm,
            self.bright_depth_min,
            self.bright_depth_max,
            now,
            0,
        ) % 256) as u8;
        let bright_theta_inc = beatsin88(
            self.bright_theta_inc_bpm,
            self.bright_theta_inc_min,
            self.bright_theta_inc_max,
            now,
            0,
        );
        let ms_multiplier = beatsin88(
            self.ms_multiplier_bpm,
            self.ms_multiplier_min,
            self.ms_multiplier_max,
            now,
            0,
        );
        let mut hue16 = self.hue;
        let hueinc16 = beatsin88(self.hue_inc_bpm, self.hue_inc_min, self.hue_inc_max, now, 0);
        let now16 = (now % 65536) as u16;
        let deltams = now16.wrapping_sub(self.last_ms);
        let s_hue = beatsin88(self.s_hue_bpm, self.s_hue_min, self.s_hue_max, now, 0);
        self.last_ms = now16;
        self.pseudotime = self.pseudotime.wrapping_add(deltams.wrapping_mul(ms_multiplier));
        self.hue = self.hue.wrapping_add(deltams.wrapping_mul(s_hue));
        let mut bright_theta = self.pseudotime;
        let mut k: usize = 0;
        while k < NUM_LEDS
            invariant
                k <= NUM_LEDS,
                leds@.len() == NUM_LEDS,
                *self == old(self).after(now),
                sat8 == old(self).saturation(now),
                bright_depth == old(self).bright_depth(now),
                bright_theta_inc == old(self).bright_theta_inc(now),
                hueinc16 == old(self).hue_inc(now),
                hue16 == stepped(old(self).hue, hueinc16, k as nat),
                bright_theta == stepped(self.pseudotime, bright_theta_inc, k as nat),
                forall|led: int|
                    NUM_LEDS - k <= led < NUM_LEDS ==> #[trigger] leds@[led] == spec_nblend(
                        old(leds)@[led],
                        old(self).step_color(now, (NUM_LEDS - led) as nat),
                        BLEND_AMOUNT,
                    ),
                forall|led: int| 0 <= led < NUM_LEDS - k ==> leds@[led] == old(leds)@[led],
            decreases NUM_LEDS - k,
        {
            hue16 = hue16.wrapping_add(hueinc16);
            let hue8 = folded_hue(hue16);
            bright_theta = bright_theta.wrapping_add(bright_theta_inc);
            let bri8 = brightness(bright_theta, bright_depth);
            let new_color = hsv2rgb(hue8, sat8, bri8);
            let place = NUM_LEDS - 1 - k;
            let mut led = leds[place];
            nblend(&mut led, &new_color, BLEND_AMOUNT);
            leds[place] = led;
            k += 1;
        }
    }
}

} // verus!
