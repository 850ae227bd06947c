//! A clock face with three hands.
use vstd::prelude::*;
use vstd::wrapping::u8_specs;
use crate::lights::color::Rgb8;
use crate::lights::focalintent::{fade_to_black_by, spec_fade_color};
use crate::lights::patterns::{angle, led_angle, led_radius, radius};
use crate::NUM_LEDS;

verus! {

/// How far the hour hand reaches from the centre.
pub const HOUR_RADIUS: u8 = 96;

/// How far the minute hand reaches from the centre.
pub const MINUTE_RADIUS: u8 = 178;

/// How far the second hand reaches from the centre.
pub const SECOND_RADIUS: u8 = 255;

/// Half the width of a hand, on the scale of the layout's angles.
pub const HAND_WIDTH: u8 = 8;

/// The clock face.
#[derive(Clone, Copy, Debug)]
pub struct Clock {
    pub hour_angle: u8,
    pub minute_angle: u8,
    pub second_angle: u8,
    pub background_fade: u8,
}

/// Whether the LED at the place `led` lies in the sector of the angles from
/// `angle - d_angle` to `angle + d_angle`, both taken modulo 256, and of
/// the radii from `start_radius` to `end_radius`. A sector without width
/// holds no LED.
pub open spec fn in_sector(led: int, angle: u8, d_angle: u8, start_radius: u8, end_radius: u8) -> bool {
    &&& d_angle != 0
    &&& u8_specs::wrapping_sub(angle, d_angle) <= self::angle(led) <= u8_specs::wrapping_add(
        angle,
        d_angle,
    )
    &&& start_radius <= radius(led) <= end_radius
}

/// The colour of an LED once a hand has been drawn over `before`.
pub open spec fn spec_hand(
    before: Rgb8,
    led: int,
    angle: u8,
    end_radius: u8,
    color: Rgb8,
) -> Rgb8 {
    if in_sector(led, angle, HAND_WIDTH, 0, end_radius) {
        color
    } else {
        before
    }
}

/// The outermost LEDs of the spiral for the step `step`: the LEDs whose
/// rank on the spiral is at least `step` and within `step` of the number of
/// LEDs `len`.
pub open spec fn is_outermost(led: int, step: u8, len: int) -> bool {
    radius(led) >= step && radius(led) + step >= len
}

/// Where the search for the start of a spiral line stands after the LEDs
/// before `upto`: the LED found so far, and the smallest difference of
/// angles seen so far.
pub open spec fn spiral_search(angle: u8, step: u8, len: int, upto: int) -> (int, u8)
    decreases upto,
{
    if upto <= 0 {
        (0, 255)
    } else {
        let (start, smallest) = spiral_search(angle, step, len, upto - 1);
        let led = upto - 1;
        let behind = u8_specs::wrapping_sub(angle, self::angle(led));
        if !is_outermost(led, step, len) {
            (start, smallest)
        } else if self::angle(led) == angle {
            (led, smallest)
        } else if behind < smallest {
            (led, behind)
        } else {
            (start, smallest)
        }
    }
}

/// The LED at which a spiral line for `angle` starts: of the outermost
/// LEDs, the last one with exactly that angle or with an angle that is
/// nearer behind `angle`, on the circle, than all before it.
pub open spec fn spiral_start(angle: u8, step: u8, len: int) -> int {
    spiral_search(angle, step, len, len).0
}

impl Clock {
    /// A clock face whose hands point to the angle 0. The background has to
    /// fade, or the hands would leave their trace for good.
    pub fn new(background_fade: u8) -> (clock: Self)
        requires
            background_fade > 0,
        ensures
            clock == (Clock { hour_angle: 0, minute_angle: 0, second_angle: 0, background_fade }),
    {
        Clock { hour_angle: 0, minute_angle: 0, second_angle: 0, background_fade }
    }

    /// The colour of `led` after the face was drawn over `before`: the
    /// background dimmed, over it the second hand in blue, the minute hand
    /// in green and the hour hand in red, and the centre in red.
    pub open spec fn led_color(&self, before: Rgb8, led: int) -> Rgb8 {
        if led == 0 {
            Rgb8 { r: 255, g: 0, b: 0 }
        } else {
            spec_hand(
                spec_hand(
                    spec_hand(
                        spec_fade_color(before, self.background_fade),
                        led,
                        self.second_angle,
                        SECOND_RADIUS,
                        Rgb8 { r: 0, g: 0, b: 255 },
                    ),
                    led,
                    self.minute_angle,
                    MINUTE_RADIUS,
                    Rgb8 { r: 0, g: 128, b: 0 },
                ),
                led,
                self.hour_angle,
                HOUR_RADIUS,
                Rgb8 { r: 255, g: 0, b: 0 },
            )
        }
    }

    /// Turns the hands to the given angles and draws the face.
    pub fn buffer(&mut self, leds: &mut [Rgb8], hour_angle: u8, minute_angle: u8, second_angle: u8)
        requires
            old(leds)@.len() == NUM_LEDS,
        ensures
            *final(self) == (Clock { hour_angle, minute_angle, second_angle, ..*old(self) }),
            final(leds)@.len() == NUM_LEDS,
            forall|led: int|
                0 <= led < NUM_LEDS ==> #[trigger] final(leds)@[led] == final(self).led_color(
                    old(leds)@[led],
                    led,
                ),
    {
        self.hour_angle = hour_angle;
        self.minute_angle = minute_angle;
        self.second_angle = second_angle;
        fade_to_black_by(leds, self.background_fade);
        antialias_pixel_ar(leds, self.second_angle, HAND_WIDTH, 0, SECOND_RADIUS, Rgb8::blue());
        antialias_pixel_ar(leds, self.minute_angle, HAND_WIDTH, 0, MINUTE_RADIUS, Rgb8::green());
        antialias_pixel_ar(leds, self.hour_angle, HAND_WIDTH, 0, HOUR_RADIUS, Rgb8::red());
        leds[0] = Rgb8::red();
    }
}

/// Lights the LED at which a spiral line for `angle` starts; see
/// [`spiral_start`]. Differences of angles are taken on the circle, that
/// is modulo 256.
pub fn draw_spiral_line(leds: &mut [Rgb8], angle: u8, step: u8, color: &Rgb8)
    requires
        old(leds)@.len() == NUM_LEDS,
    ensures
        final(leds)@ == old(leds)@.update(spiral_start(angle, step, NUM_LEDS as int), *color),
        0 <= spiral_start(angle, step, NUM_LEDS as int) < NUM_LEDS,
{
    let mut start_index: usize = 0;
    let num_leds = leds.len();
    let mut smallest_angle_difference: u8 = 255;
    let mut i: usize = 0;
    while i < num_leds
        invariant
            i <= num_leds,
            num_leds == NUM_LEDS,
            start_index < NUM_LEDS,
            (start_index as int, smallest_angle_difference) == spiral_search(
                angle,
                step,
                num_leds as int,
                i as int,
            ),
        decreases num_leds - i,
    {
        let j = led_radius(i);
        if j >= step && j as usize + step as usize >= num_leds {
            let a = led_angle(i);
            let behind = angle.wrapping_sub(a);
            if a == angle {
                start_index = i;
            } else if behind < smallest_angle_difference {
                smallest_angle_difference = behind;
                start_index = i;
            }
        }
        i += 1;
    }
    leds[start_index] = *color;
}

/// Gives every LED in the sector around `angle` that reaches `d_angle` to
/// both sides and from `start_radius` to `end_radius` the colour `color`.
/// The ends of the sector are taken modulo 256, so that a sector that would
/// cross the end of the scale of the angles holds no LED.
pub fn antialias_pixel_ar(
    leds: &mut [Rgb8],
    angle: u8,
    d_angle: u8,
    start_radius: u8,
    end_radius: u8,
    color: Rgb8,
)
    requires
        old(leds)@.len() <= NUM_LEDS,
    ensures
        final(leds)@.len() == old(leds)@.len(),
        forall|led: int|
            0 <= led < old(leds)@.len() ==> #[trigger] final(leds)@[led] == if in_sector(
                led,
                angle,
                d_angle,
                start_radius,
                end_radius,
            ) {
                color
            } else {
                old(leds)@[led]
            },
{
    if d_angle == 0 {
        return ;
    }
    let amax: u8 = angle.wrapping_add(d_angle);
    let amin: u8 = angle.wrapping_sub(d_angle);
    let n = leds.len();
    let mut i: usize = 0;
    while i < n
        invariant
            i <= n,
            n == leds@.len(),
            n == old(leds)@.len(),
            n <= NUM_LEDS,
            d_angle != 0,
            amax == u8_specs::wrapping_add(angle, d_angle),
            amin == u8_specs::wrapping_sub(angle, d_angle),
            forall|led: int|
                0 <= led < i ==> #[trigger] leds@[led] == if in_sector(
                    led,
                    angle,
                    d_angle,
                    start_radius,
                    end_radius,
                ) {
                    color
                } else {
                    old(leds)@[led]
                },
            forall|led: int| i <= led < n ==> leds@[led] == old(leds)@[led],
        decreases n - i,
    {
        let ao = led_angle(i);
        if ao <= amax && ao >= amin {
            let ro = led_radius(i);
            if ro <= end_radius && ro >= start_radius {
                leds[i] = color;
            }
        }
        i += 1;
    }
}

} // verus!
