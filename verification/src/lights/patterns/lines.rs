//! A dot that moves along a straight line through the centre.
use vstd::prelude::*;
use crate::lights::color::Rgb8;
use crate::lights::patterns::compass::{bearing_and_distance_to_id, spec_bearing_and_distance_to_id};
use crate::NUM_LEDS;

verus! {

/// The distance that the line reaches to either side of the centre.
pub const REACH: u32 = 255;

/// The moving dot.
#[derive(Clone, Copy, Debug)]
pub struct Lines {
    pub ms_per_angle: u32,
}

impl Lines {
    pub fn new(ms_per_angle: u32) -> (lines: Self)
        ensures
            lines.ms_per_angle == ms_per_angle,
    {
        Lines { ms_per_angle }
    }

    /// Lights the LED at the signed distance `distance` from the centre on
    /// the line through the angle 0, in red. The line ends at [`REACH`].
    pub fn buffer(&mut self, distance: i32, leds: &mut [Rgb8])
        requires
            old(leds)@.len() == NUM_LEDS,
        ensures
            *final(self) == *old(self),
            final(leds)@ == old(leds)@.update(
                spec_bearing_and_distance_to_id(0, distance, REACH),
                Rgb8 { r: 255, g: 0, b: 0 },
            ),
    {
        let id = bearing_and_distance_to_id(0, distance, REACH);
        leds[id] = Rgb8::red();
    }
}

} // verus!
