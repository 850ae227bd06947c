//! A yellow disc with a mouth that opens and closes.
use vstd::prelude::*;
use vstd::wrapping::u8_specs;
use crate::lights::color::Rgb8;
use crate::lights::focalintent::Accum88;
use crate::lights::patterns::{angle, led_angle, led_radius, radius};
use crate::NUM_LEDS;

verus! {

/// The disc with the mouth.
#[derive(Clone, Copy, Debug)]
pub struct PacMan {
    pub bites_per_minute: Accum88,
    /// How far the mouth opens, on the scale of the layout's angles.
    pub open_mouth_angle: u8,
}

/// Whether `angle` lies in the sector from `start_angle` to `end_angle`,
/// both ends included. The sector runs through the end of the scale when
/// it starts after its end. A sector that ends where it starts is empty.
pub open spec fn angle_is_inside(angle: u8, start_angle: u8, end_angle: u8) -> bool {
    if start_angle == end_angle {
        false
    } else if angle == start_angle || angle == end_angle {
        true
    } else if start_angle < end_angle {
        start_angle < angle < end_angle
    } else {
        angle < end_angle || angle > start_angle
    }
}

/// Whether the LED at the place `led` lies in the sector of the angles from
/// `start_angle` to `end_angle` and of the radii from `start_radius` to
/// `end_radius`. The first LED never does.
pub open spec fn led_is_inside(
    led: int,
    start_angle: u8,
    end_angle: u8,
    start_radius: u8,
    end_radius: u8,
) -> bool {
    &&& led != 0
    &&& angle_is_inside(angle(led), start_angle, end_angle)
    &&& start_radius <= radius(led) <= end_radius
}

/// The colour of an LED after a fill.
pub open spec fn spec_fill(
    before: Rgb8,
    inside: bool,
    inside_color: Rgb8,
    outside_color: Option<&Rgb8>,
) -> Rgb8 {
    if inside {
        inside_color
    } else {
        match outside_color {
            Some(color) => *color,
            None => before,
        }
    }
}

impl PacMan {
    /// A mouth of 55 degrees that bites 140 times a minute.
    pub fn new() -> (pacman: Self)
        ensures
            pacman.bites_per_minute == Accum88((140 * 256) as u16),
            pacman.open_mouth_angle == 39,
    {
        PacMan { bites_per_minute: Accum88::from(140u8), open_mouth_angle: 39 }
    }

    /// Draws the disc in yellow with a black mouth of the width
    /// `mouth_width` that faces the angle 0.
    pub fn buffer(&mut self, mouth_width: u8, leds: &mut [Rgb8])
        requires
            old(leds)@.len() <= NUM_LEDS,
        ensures
            *final(self) == *old(self),
            final(leds)@.len() == old(leds)@.len(),
            forall|led: int|
                0 <= led < old(leds)@.len() ==> #[trigger] final(leds)@[led] == if led_is_inside(
                    led,
                    u8_specs::wrapping_sub(0, mouth_width / 2),
                    (mouth_width - mouth_width / 2) as u8,
                    0,
                    255,
                ) {
                    Rgb8 { r: 0, g: 0, b: 0 }
                } else {
                    Rgb8 { r: 255, g: 255, b: 0 }
                },
    {
        let black = Rgb8::black();
        let yellow = Rgb8::yellow();
        angle_fill_centered(leds, 0, mouth_width, 0, 255, &black, Some(&yellow));
    }
}

/// Fills the sector of the width `width` around `angle`; see
/// [`angle_fill`]. The sector reaches half the width to the one side and
/// the rest to the other, around the end of the scale where it has to.
pub fn angle_fill_centered(
    leds: &mut [Rgb8],
    angle: u8,
    width: u8,
    start_radius: u8,
    end_radius: u8,
    inside_color: &Rgb8,
    outside_color: Option<&Rgb8>,
)
    requires
        old(leds)@.len() <= NUM_LEDS,
    ensures
        final(leds)@.len() == old(leds)@.len(),
        forall|led: int|
            0 <= led < old(leds)@.len() ==> #[trigger] final(leds)@[led] == spec_fill(
                old(leds)@[led],
                led_is_inside(
                    led,
                    u8_specs::wrapping_sub(angle, width / 2),
                    u8_specs::wrapping_add(angle, (width - width / 2) as u8),
                    start_radius,
                    end_radius,
                ),
                *inside_color,
                outside_color,
            ),
{
    let width_1 = width / 2;
    let width_2 = width - width_1;
    let start_angle = angle.wrapping_sub(width_1);
    let end_angle = angle.wrapping_add(width_2);
    angle_fill(
        leds,
        start_angle,
        end_angle,
        start_radius,
        end_radius,
        inside_color,
        outside_color,
    )
}

/// Gives every LED in the sector from `start_angle` to `end_angle` and
/// from `start_radius` to `end_radius` the colour `inside_color`, and every
/// other LED `outside_color` if there is one.
pub fn angle_fill(
    leds: &mut [Rgb8],
    start_angle: u8,
    end_angle: u8,
    start_radius: u8,
    end_radius: u8,
    inside_color: &Rgb8,
    outside_color: Option<&Rgb8>,
)
    requires
        old(leds)@.len() <= NUM_LEDS,
    ensures
        final(leds)@.len() == old(leds)@.len(),
        forall|led: int|
            0 <= led < old(leds)@.len() ==> #[trigger] final(leds)@[led] == spec_fill(
                old(leds)@[led],
                led_is_inside(led, start_angle, end_angle, start_radius, end_radius),
                *inside_color,
                outside_color,
            ),
{
    let n = leds.len();
    let mut i: usize = 0;
    while i < n
        invariant
            i <= n,
            n == leds@.len(),
            n == old(leds)@.len(),
            n <= NUM_LEDS,
            forall|led: int|
                0 <= led < i ==> #[trigger] leds@[led] == spec_fill(
                    old(leds)@[led],
                    led_is_inside(led, start_angle, end_angle, start_radius, end_radius),
                    *inside_color,
                    outside_color,
                ),
            forall|led: int| i <= led < n ==> leds@[led] == old(leds)@[led],
        decreases n - i,
    {
        let angle = led_angle(i);
        let in_angle = if i == 0 || start_angle == end_angle {
            false
        } else if angle == start_angle || angle == end_angle {
            true
        } else if start_angle < end_angle {
            angle > start_angle && angle < end_angle
        } else {
            angle < end_angle || angle > start_angle
        };
        let is_inside = if in_angle {
            let i_radius = led_radius(i);
            !(i_radius > end_radius || i_radius < start_radius)
        } else {
            false
        };
        if is_inside {
            leds[i] = *inside_color;
        } else if let Some(outside_color) = outside_color {
            leds[i] = *outside_color;
        }
        i += 1;
    }
}

} // verus!
