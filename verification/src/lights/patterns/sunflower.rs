//! A rainbow that grows from the centre of the spiral outwards.
use vstd::prelude::*;
use crate::lights::color::Rgb8;
use crate::lights::patterns::{draw_rainbow, radius, spec_rainbow_color, Direction, Pattern};
use crate::NUM_LEDS;

verus! {

/// The sunflower pattern.
#[derive(Clone, Copy, Debug)]
pub struct Sunflower {
    pub direction: Direction,
}

impl Sunflower {
    pub fn new() -> (sunflower: Self)
        ensures
            sunflower.direction == Direction::Out,
    {
        Sunflower { direction: Direction::Out }
    }
}

impl Pattern for Sunflower {
    open spec fn wf(&self) -> bool {
        true
    }

    /// Gives every LED the colour of the rainbow at its radius.
    fn buffer(&mut self, now: u32, leds: &mut [Rgb8])
        ensures
            *final(self) == *old(self),
            forall|led: int|
                0 <= led < NUM_LEDS ==> #[trigger] final(leds)@[led] == spec_rainbow_color(
                    old(self).direction,
                    now,
                    radius(led),
                ),
    {
        draw_rainbow(self.direction, now, leds);
    }
}

} // verus!
