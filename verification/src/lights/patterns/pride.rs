//! Rainbows whose hue, brightness and speed drift slowly, each in its own
//! rhythm.
use vstd::prelude::*;
use vstd::wrapping::u16_specs;
use crate::lights::color::{hsv2rgb, hsv2rgb_color, Rgb8};
use crate::lights::focalintent::{
    beatsin88, nblend, sin16, spec_beatsin88, spec_nblend, spec_sin16, Accum88,
};
use crate::lights::patterns::{coord_x, led_coord_x, Pattern};
use crate::NUM_LEDS;

verus! {

/// How much of the new colour is laid over an LED in one frame.
pub const BLEND_AMOUNT: u8 = 64;

/// The pride pattern: its running state and the rhythms, each given as
/// beats per minute with 8 fractional bits and the range it swings in.
#[derive(Clone, Copy, Debug)]
pub struct Pride {
    pub pseudotime: u16,
    pub last_ms: u16,
    pub hue: u16,
    pub saturation_bpm: u16,
    pub saturation_min: u16,
    pub saturation_max: u16,
    pub bright_depth_bpm: u16,
    pub bright_depth_min: u16,
    pub bright_depth_max: u16,
    pub bright_theta_inc_bpm: u16,
    pub bright_theta_inc_min: u16,
    pub bright_theta_inc_max: u16,
    pub ms_multiplier_bpm: u16,
    pub ms_multiplier_min: u16,
    pub ms_multiplier_max: u16,
    pub hue_inc_bpm: u16,
    pub hue_inc_min: u16,
    pub hue_inc_max: u16,
    pub s_hue_bpm: u16,
    pub s_hue_min: u16,
    pub s_hue_max: u16,
}

/// The low 16 bits of the clock.
pub open spec fn low16(now: u32) -> u16 {
    (now % 65536) as u16
}

/// The low 8 bits of a wave.
pub open spec fn low8(wave: u16) -> u8 {
    (wave % 256) as u8
}

/// `start` after `steps` additions of `inc`, modulo 65536.
pub open spec fn stepped(start: u16, inc: u16, steps: nat) -> u16
    decreases steps,
{
    if steps == 0 {
        start
    } else {
        u16_specs::wrapping_add(stepped(start, inc, (steps - 1) as nat), inc)
    }
}

/// `value` advanced by `deltams` times `rate`, modulo 65536.
pub open spec fn advanced(value: u16, deltams: u16, rate: u16) -> u16 {
    u16_specs::wrapping_add(value, u16_specs::wrapping_mul(deltams, rate))
}

/// The brightness at the phase `theta` of the brightness wave: the square
/// of the wave, scaled to `depth` and lifted so that it peaks at 255.
pub open spec fn spec_brightness(theta: u16, depth: u8) -> u8 {
    let b16 = spec_sin16(theta) + 32768;
    let bri16 = (b16 * b16) / 65536;
    ((bri16 * depth) / 65536 + (255 - depth)) as u8
}

/// Computes [`spec_brightness`].
pub fn brightness(theta: u16, depth: u8) -> (bri8: u8)
    ensures
        bri8 == spec_brightness(theta, depth),
{
    let b16: u32 = (sin16(theta) as i32 + 32768) as u32;
    assert(b16 * b16 <= 65535 * 65535) by (nonlinear_arith)
        requires
            0 <= b16 <= 65535,
    ;
    let bri16: u32 = (b16 * b16) / 65536;
    assert(0 <= bri16 * depth <= 65535 * 255) by (nonlinear_arith)
        requires
            0 <= bri16 <= 65535,
            0 <= depth <= 255,
    ;
    assert((bri16 * depth) / 65536 <= depth) by (nonlinear_arith)
        requires
            0 <= bri16 <= 65535,
            0 <= depth,
    ;
    let bri8: u32 = (bri16 * depth as u32) / 65536;
    (bri8 + (255 - depth as u32)) as u8
}

impl Pride {
    pub fn new() -> (pride: Self)
        ensures
            pride == (Pride {
                pseudotime: 0,
                last_ms: 0,
                hue: 0,
                saturation_bpm: 87,
                saturation_min: 220,
                saturation_max: 250,
                bright_depth_bpm: 341,
                bright_depth_min: 96,
                bright_depth_max: 224,
                bright_theta_inc_bpm: 203,
                bright_theta_inc_min: 6400,
                bright_theta_inc_max: 10240,
                ms_multiplier_bpm: 147,
                ms_multiplier_min: 23,
                ms_multiplier_max: 60,
                hue_inc_bpm: 113,
                hue_inc_min: 1,
                hue_inc_max: 3000,
                s_hue_bpm: 400,
                s_hue_min: 5,
                s_hue_max: 9,
            }),
    {
        Pride {
            pseudotime: 0,
            last_ms: 0,
            hue: 0,
            saturation_bpm: 87,
            saturation_min: 220,
            saturation_max: 250,
            bright_depth_bpm: 341,
            bright_depth_min: 96,
            bright_depth_max: 224,
            bright_theta_inc_bpm: 203,
            bright_theta_inc_min: 25 * 256,
            bright_theta_inc_max: 40 * 256,
            ms_multiplier_bpm: 147,
            ms_multiplier_min: 23,
            ms_multiplier_max: 60,
            hue_inc_bpm: 113,
            hue_inc_min: 1,
            hue_inc_max: 3000,
            s_hue_bpm: 400,
            s_hue_min: 5,
            s_hue_max: 9,
        }
    }

    /// The saturation of the frame at `now`.
    pub open spec fn saturation(&self, now: u32) -> u8 {
        low8(
            spec_beatsin88(
                Accum88(self.saturation_bpm),
                self.saturation_min,
                self.saturation_max,
                now,
                0,
            ),
        )
    }

    /// The depth of the brightness wave of the frame at `now`.
    pub open spec fn bright_depth(&self, now: u32) -> u8 {
        low8(
            spec_beatsin88(
                Accum88(self.bright_depth_bpm),
                self.bright_depth_min,
                self.bright_depth_max,
                now,
                0,
            ),
        )
    }

    /// By how much the phase of the brightness wave grows from one LED to
    /// the next in the frame at `now`.
    pub open spec fn bright_theta_inc(&self, now: u32) -> u16 {
        spec_beatsin88(
            Accum88(self.bright_theta_inc_bpm),
            self.bright_theta_inc_min,
            self.bright_theta_inc_max,
            now,
            0,
        )
    }

    /// By how much the hue grows from one LED to the next in the frame at
    /// `now`.
    pub open spec fn hue_inc(&self, now: u32) -> u16 {
        spec_beatsin88(Accum88(self.hue_inc_bpm), self.hue_inc_min, self.hue_inc_max, now, 0)
    }

    /// The milliseconds since the last frame, modulo 65536.
    pub open spec fn deltams(&self, now: u32) -> u16 {
        u16_specs::wrapping_sub(low16(now), self.last_ms)
    }

    /// The state after the frame at `now`: the clock is remembered, and the
    /// pseudo time and the hue have moved on at their own speeds.
    pub open spec fn after(&self, now: u32) -> Pride {
        Pride {
            last_ms: low16(now),
            pseudotime: advanced(
                self.pseudotime,
                self.deltams(now),
                spec_beatsin88(
                    Accum88(self.ms_multiplier_bpm),
                    self.ms_multiplier_min,
                    self.ms_multiplier_max,
                    now,
                    0,
                ),
            ),
            hue: advanced(
                self.hue,
                self.deltams(now),
                spec_beatsin88(Accum88(self.s_hue_bpm), self.s_hue_min, self.s_hue_max, now, 0),
            ),
            ..*self
        }
    }

    /// The colour of the `step`th step of the frame at `now`, counted from
    /// 1: hue and brightness phase have grown `step` times.
    pub open spec fn step_color(&self, now: u32, step: nat) -> Rgb8 {
        hsv2rgb_color(
            (stepped(self.hue, self.hue_inc(now), step) / 256) as u8,
            self.saturation(now),
            spec_brightness(
                stepped(self.after(now).pseudotime, self.bright_theta_inc(now), step),
                self.bright_depth(now),
            ),
        )
    }

    /// The array after the first `steps` steps of the frame at `now`: step
    /// by step, the colour of the step is laid over the LED at the place
    /// that the table of the horizontal positions holds for the step.
    pub open spec fn frame(&self, now: u32, leds: Seq<Rgb8>, steps: nat) -> Seq<Rgb8>
        decreases steps,
    {
        if steps == 0 {
            leds
        } else {
            let before = self.frame(now, leds, (steps - 1) as nat);
            let place = coord_x(steps - 1) as int;
            before.update(
                place,
                spec_nblend(before[place], self.step_color(now, steps), BLEND_AMOUNT),
            )
        }
    }
}

impl Pattern for Pride {
    open spec fn wf(&self) -> bool {
        true
    }

    /// Draws one frame and moves the pattern's state on.
    fn buffer(&mut self, now: u32, leds: &mut [Rgb8])
        ensures
            *final(self) == old(self).after(now),
            final(leds)@ == old(self).frame(now, old(leds)@, NUM_LEDS as nat),
    {
        let sat8 = (beatsin88(
            Accum88(self.saturation_bpm),
            self.saturation_min,
            self.saturation_max,
            now,
            0,
        ) % 256) as u8;
        let bright_depth = (beatsin88(
            Accum88(self.bright_depth_bpm),
            self.bright_depth_min,
            self.bright_depth_max,
            now,
            0,
        ) % 256) as u8;
        let bright_theta_inc = beatsin88(
            Accum88(self.bright_theta_inc_bpm),
            self.bright_theta_inc_min,
            self.bright_theta_inc_max,
            now,
            0,
        );
        let ms_multiplier = beatsin88(
            Accum88(self.ms_multiplier_bpm),
            self.ms_multiplier_min,
            self.ms_multiplier_max,
            now,
            0,
        );
        let mut hue16 = self.hue;
        let hueinc16 = beatsin88(
            Accum88(self.hue_inc_bpm),
            self.hue_inc_min,
            self.hue_inc_max,
            now,
            0,
        );
        let now16 = (now % 65536) as u16;
        let deltams = now16.wrapping_sub(self.last_ms);
        let s_hue = beatsin88(Accum88(self.s_hue_bpm), self.s_hue_min, self.s_hue_max, now, 0);
        self.last_ms = now16;
        self.pseudotime = self.pseudotime.wrapping_add(deltams.wrapping_mul(ms_multiplier));
        self.hue = self.hue.wrapping_add(deltams.wrapping_mul(s_hue));
        let mut bright_theta = self.pseudotime;
        let mut k: usize = 0;
        while k < NUM_LEDS
            invariant
                k <= NUM_LEDS,
                leds@.len() == NUM_LEDS,
                *self == old(self).after(now),
                sat8 == old(self).saturation(now),
                bright_depth == old(self).bright_depth(now),
                bright_theta_inc == old(self).bright_theta_inc(now),
                hueinc16 == old(self).hue_inc(now),
                hue16 == stepped(old(self).hue, hueinc16, k as nat),
                bright_theta == stepped(self.pseudotime, bright_theta_inc, k as nat),
                leds@ == old(self).frame(now, old(leds)@, k as nat),
            decreases NUM_LEDS - k,
        {
            hue16 = hue16.wrapping_add(hueinc16);
            let hue8: u8 = (hue16 / 256) as u8;
            bright_theta = bright_theta.wrapping_add(bright_theta_inc);
            let bri8 = brightness(bright_theta, bright_depth);
            let new_color = hsv2rgb(hue8, sat8, bri8);
            let pixel_number = led_coord_x(k) as usize;
            let mut led = leds[pixel_number];
            nblend(&mut led, &new_color, BLEND_AMOUNT);
            leds[pixel_number] = led;
            k += 1;
        }
    }
}

} // verus!
