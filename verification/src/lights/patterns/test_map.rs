//! A single red dot that walks along the strip, one LED per frame.
use vstd::prelude::*;
use crate::lights::color::Rgb8;
use crate::lights::focalintent::{fade_to_black_by, spec_fade_color};
use crate::lights::patterns::Pattern;
use crate::NUM_LEDS;

verus! {

/// How much the trail of the dot is dimmed with every frame.
pub const TRAIL_FADE: u8 = 64;

/// The walking dot.
#[derive(Clone, Copy, Debug)]
pub struct TestMap {
    /// The LED that is lit next.
    pub active: usize,
}

impl TestMap {
    pub fn new() -> (test_map: Self)
        ensures
            test_map.active == 0,
            test_map.wf(),
    {
        TestMap { active: 0 }
    }
}

impl Pattern for TestMap {
    open spec fn wf(&self) -> bool {
        self.active < NUM_LEDS
    }

    /// Dims the array, lights the active LED in red and moves on to the
    /// next LED, from the last one back to the first.
    fn buffer(&mut self, now: u32, leds: &mut [Rgb8])
        ensures
            final(self).active == if old(self).active + 1 < NUM_LEDS {
                old(self).active + 1
            } else {
                0
            },
            forall|led: int|
                0 <= led < NUM_LEDS ==> #[trigger] final(leds)@[led] == if led == old(self).active {
                    Rgb8 { r: 255, g: 0, b: 0 }
                } else {
                    spec_fade_color(old(leds)@[led], TRAIL_FADE)
                },
    {
        fade_to_black_by(leds, TRAIL_FADE);
        let i = self.active;
        leds[i] = Rgb8::red();
        if self.active + 1 < leds.len() {
            self.active += 1;
        } else {
            self.active = 0;
        }
    }
}

} // verus!
