//! An analog clock face whose hands add their colours to the background.
use vstd::prelude::*;
use crate::lights::color::Rgb8;
use crate::lights::focalintent::{fade_to_black_by, spec_fade_color};
use crate::lights::patterns::{antialias_pixel_ar, in_limited_sector, spec_add_color};
use crate::NUM_LEDS;

verus! {

/// How far the hour hand reaches from the centre.
pub const HOUR_RADIUS: u8 = 96;

/// How far the minute hand reaches from the centre.
pub const MINUTE_RADIUS: u8 = 192;

/// How far the second hand reaches from the centre.
pub const SECOND_RADIUS: u8 = 255;

/// Half the width of a hand, on the scale of the layout's angles.
pub const HAND_WIDTH: u8 = 32;

/// The analog clock face.
#[derive(Clone, Copy, Debug)]
pub struct AnalogClock {
    pub hour_angle: u8,
    pub minute_angle: u8,
    pub second_angle: u8,
    pub background_fade: u8,
}

/// The colour of an LED once a hand has been added to `before`.
pub open spec fn spec_hand(before: Rgb8, led: int, angle: u8, end_radius: u8, color: Rgb8) -> Rgb8 {
    if in_limited_sector(led, angle, HAND_WIDTH, 0, end_radius) {
        spec_add_color(before, color)
    } else {
        before
    }
}

impl AnalogClock {
    /// A clock face whose hands point to the angle 0. The background has to
    /// fade.
    pub fn new(background_fade: u8) -> (clock: Self)
        requires
            background_fade > 0,
        ensures
            clock == (AnalogClock {
                hour_angle: 0,
                minute_angle: 0,
                second_angle: 0,
                background_fade,
            }),
    {
        AnalogClock { hour_angle: 0, minute_angle: 0, second_angle: 0, background_fade }
    }

    /// The colour of `led` after the face was drawn over `before`: the
    /// background dimmed, with the second hand in blue, the minute hand in
    /// green and the hour hand in red added to it, and the centre in red.
    pub open spec fn led_color(&self, before: Rgb8, led: int) -> Rgb8 {
        if led == 0 {
            Rgb8 { r: 255, g: 0, b: 0 }
        } else {
            spec_hand(
                spec_hand(
                    spec_hand(
                        spec_fade_color(before, self.background_fade),
                        led,
                        self.second_angle,
                        SECOND_RADIUS,
                        Rgb8 { r: 0, g: 0, b: 255 },
                    ),
                    led,
                    self.minute_angle,
                    MINUTE_RADIUS,
                    Rgb8 { r: 0, g: 128, b: 0 },
                ),
                led,
                self.hour_angle,
                HOUR_RADIUS,
                Rgb8 { r: 255, g: 0, b: 0 },
            )
        }
    }

    /// Turns the hands to the given angles and draws the face.
    #[allow(non_snake_case)]
    pub fn drawAnalogClock(
        &mut self,
        leds: &mut [Rgb8],
        hour_angle: u8,
        minute_angle: u8,
        second_angle: u8,
    )
        requires
            old(leds)@.len() == NUM_LEDS,
        ensures
            *final(self) == (AnalogClock { hour_angle, minute_angle, second_angle, ..*old(self) }),
            final(leds)@.len() == NUM_LEDS,
            forall|led: int|
                0 <= led < NUM_LEDS ==> #[trigger] final(leds)@[led] == final(self).led_color(
                    old(leds)@[led],
                    led,
                ),
    {
        self.hour_angle = hour_angle;
        self.minute_angle = minute_angle;
        self.second_angle = second_angle;
        fade_to_black_by(leds, self.background_fade);
        antialias_pixel_ar(leds, self.second_angle, HAND_WIDTH, 0, SECOND_RADIUS, Rgb8::blue());
        antialias_pixel_ar(leds, self.minute_angle, HAND_WIDTH, 0, MINUTE_RADIUS, Rgb8::green());
        antialias_pixel_ar(leds, self.hour_angle, HAND_WIDTH, 0, HOUR_RADIUS, Rgb8::red());
        leds[0] = Rgb8::red();
    }
}

} // verus!
