//! Colours, fixed-point helpers and the patterns drawn on the LED array,
//! and the choice of the pattern to draw.
use vstd::prelude::*;
use crate::lights::color::Rgb8;
use crate::lights::focalintent::{fade_to_black_by, spec_fade_color};
use crate::lights::patterns::clock::Clock;
use crate::lights::patterns::compass::{Compass, Course, FULL_TURN};
use crate::lights::patterns::pacman::{led_is_inside, PacMan};
use crate::lights::patterns::pride::Pride;
use crate::lights::patterns::sunflower::Sunflower;
use crate::lights::patterns::test_map::TestMap;
use crate::lights::patterns::waves::Waves;
use crate::lights::patterns::{radius, spec_rainbow_color, Pattern};
use crate::network::NetworkData;
use crate::timers::{ElapsedMs, EveryNMillis};
use crate::{MAX_PEERS, NUM_LEDS};

pub mod clock;
pub mod color;
pub mod focalintent;
pub mod patterns;

verus! {

/// How the background of the clock face fades.
pub const CLOCK_BACKGROUND_FADE: u8 = 240;

/// How the background of the compass fades.
pub const COMPASS_BACKGROUND_FADE: u8 = 240;

/// The distance that the compass shows at its rim.
pub const COMPASS_MAX_DISTANCE: u32 = 3000;

/// How long the compass shows each of several peers on one LED.
pub const COMPASS_MS_PER_COLOR: u32 = 1000;

/// How the device is held.
#[derive(Clone, Copy, Debug, PartialEq, Eq, Structural)]
pub enum Orientation {
    Unknown,
    PortraitUp,
    PortraitDown,
    LandscapeUp,
    LandscapeDown,
    FaceUp,
    FaceDown,
}

/// What is drawn in a frame.
#[derive(Clone, Copy, Debug, PartialEq, Eq, Structural)]
pub enum Scene {
    /// The peers around the local node.
    Compass,
    /// The time of day.
    Clock,
    /// The rainbow that is shown while something is still missing.
    Sunflower,
    /// The disc with the mouth.
    PacMan,
    /// Light to see by.
    Flashlight,
}

/// The LED array: its buffer, its brightness, the rhythm of its frames and
/// the patterns that can be drawn.
pub struct Lights {
    pub brightness: u8,
    pub framerate: EveryNMillis,
    pub last_orientation: Orientation,
    pub led_buffer: [Rgb8; NUM_LEDS],
    pub pattern_clock: Clock,
    pub pattern_pacman: PacMan,
    pub pattern_pride: Pride,
    pub pattern_sunflower: Sunflower,
    pub pattern_test_map: TestMap,
    pub pattern_waves: Waves,
    pub pattern_compass: Compass,
}

/// The scene for an orientation. Face up the device is a compass, once it
/// has been given a peer id other than 0; upright on its head, or while
/// the orientation is not known, it is a clock, once the time is known.
/// While the one or the other is missing, it shows the sunflower. Face down
/// it is a flashlight, and on its side or upright it plays.
pub open spec fn spec_scene(orientation: Orientation, my_peer_id: usize, has_time: bool) -> Scene {
    match orientation {
        Orientation::FaceDown => Scene::Flashlight,
        Orientation::FaceUp => if my_peer_id != 0 {
            Scene::Compass
        } else {
            Scene::Sunflower
        },
        Orientation::PortraitDown | Orientation::Unknown => if has_time {
            Scene::Clock
        } else {
            Scene::Sunflower
        },
        Orientation::LandscapeUp | Orientation::LandscapeDown | Orientation::PortraitUp => Scene::PacMan,
    }
}

/// A colour component dimmed to the brightness `brightness`.
pub open spec fn spec_dim(component: u8, brightness: u8) -> u8 {
    (component as int * (brightness as int + 1) / 256) as u8
}

/// A colour dimmed to the brightness `brightness`.
pub open spec fn spec_dim_color(color: Rgb8, brightness: u8) -> Rgb8 {
    Rgb8 {
        r: spec_dim(color.r, brightness),
        g: spec_dim(color.g, brightness),
        b: spec_dim(color.b, brightness),
    }
}

/// The value that gamma correction gives a colour component.
pub uninterp spec fn gamma8(component: u8) -> u8;

/// A colour with every component gamma corrected.
pub open spec fn spec_gamma_color(color: Rgb8) -> Rgb8 {
    Rgb8 { r: gamma8(color.r), g: gamma8(color.g), b: gamma8(color.b) }
}

/// `smart_leds::gamma`: every component of every colour replaced by its
/// gamma corrected value, which the source reads from a table.
#[verifier::external_body]
fn gamma(colors: &[Rgb8]) -> (corrected: Vec<Rgb8>)
    ensures
        corrected@.len() == colors@.len(),
        forall|i: int|
            0 <= i < colors@.len() ==> #[trigger] corrected@[i] == (Rgb8 {
                r: gamma8(colors@[i].r),
                g: gamma8(colors@[i].g),
                b: gamma8(colors@[i].b),
            }),
{
    smart_leds::gamma(colors.iter().map(|c| smart_leds::RGB8 { r: c.r, g: c.g, b: c.b }))
        .map(|c| Rgb8 { r: c.r, g: c.g, b: c.b })
        .collect()
}

/// `smart_leds::brightness`: every component of every colour multiplied by
/// `level + 1` and divided by 256.
#[verifier::external_body]
fn brightness(colors: &[Rgb8], level: u8) -> (dimmed: Vec<Rgb8>)
    ensures
        dimmed@.len() == colors@.len(),
        forall|i: int|
            0 <= i < colors@.len() ==> #[trigger] dimmed@[i] == spec_dim_color(colors@[i], level),
{
    smart_leds::brightness(
        colors.iter().map(|c| smart_leds::RGB8 { r: c.r, g: c.g, b: c.b }),
        level,
    ).map(|c| Rgb8 { r: c.r, g: c.g, b: c.b }).collect()
}

impl Lights {
    /// The patterns are in states that drawing can start from.
    pub open spec fn wf(&self) -> bool {
        self.pattern_compass.wf() && self.pattern_test_map.wf()
    }

    /// What goes out to the LED at the place `led`: the buffered colour,
    /// gamma corrected and dimmed to the brightness.
    pub open spec fn output(&self, led: int) -> Rgb8 {
        spec_dim_color(spec_gamma_color(self.led_buffer@[led]), self.brightness)
    }

    /// A dark array that draws `frames_per_second` frames a second.
    pub fn new(brightness: u8, frames_per_second: u8) -> (lights: Self)
        requires
            frames_per_second > 0,
        ensures
            lights.wf(),
            lights.brightness == brightness,
            lights.framerate.next_trigger == 0,
            lights.framerate.period_ms == 1000int / (frames_per_second as int),
            lights.last_orientation == Orientation::Unknown,
            forall|led: int|
                0 <= led < NUM_LEDS ==> #[trigger] lights.led_buffer@[led] == (Rgb8 {
                    r: 0,
                    g: 0,
                    b: 0,
                }),
            lights.pattern_compass == (Compass {
                background_fade: COMPASS_BACKGROUND_FADE,
                max_distance: COMPASS_MAX_DISTANCE,
                ms_per_color: COMPASS_MS_PER_COLOR,
            }),
            lights.pattern_clock.background_fade == CLOCK_BACKGROUND_FADE,
    {
        let framerate_ms = 1_000 / (frames_per_second as u32);
        Lights {
            brightness,
            framerate: EveryNMillis::new(framerate_ms),
            last_orientation: Orientation::Unknown,
            led_buffer: [Rgb8::black(); NUM_LEDS],
            pattern_compass: Compass::new(
                COMPASS_BACKGROUND_FADE,
                COMPASS_MAX_DISTANCE,
                COMPASS_MS_PER_COLOR,
            ),
            pattern_clock: Clock::new(CLOCK_BACKGROUND_FADE),
            pattern_pacman: PacMan::new(),
            pattern_pride: Pride::new(),
            pattern_sunflower: Sunflower::new(),
            pattern_test_map: TestMap::new(),
            pattern_waves: Waves::new(),
        }
    }

    pub fn set_brightness(&mut self, new_brightness: u8)
        ensures
            *final(self) == (Lights { brightness: new_brightness, ..*old(self) }),
    {
        self.brightness = new_brightness;
    }

    /// Starts a frame if one is due at the clock's reading: answers with
    /// the reading and with the scene to draw for `orientation`, and
    /// remembers the orientation. While no frame is due, nothing happens.
    pub fn draw(
        &mut self,
        elapsed_ms: &ElapsedMs,
        orientation: Orientation,
        my_peer_id: usize,
        has_time: bool,
    ) -> (frame: Option<(u32, Scene)>)
        ensures
            frame == if old(self).framerate.is_due(elapsed_ms@) {
                Some((elapsed_ms@, spec_scene(orientation, my_peer_id, has_time)))
            } else {
                None
            },
            frame.is_none() ==> *final(self) == *old(self),
            frame.is_some() ==> *final(self) == (Lights {
                last_orientation: orientation,
                framerate: EveryNMillis {
                    next_trigger: vstd::wrapping::u32_specs::wrapping_add(
                        elapsed_ms@,
                        old(self).framerate.period_ms,
                    ),
                    period_ms: old(self).framerate.period_ms,
                },
                ..*old(self)
            }),
    {
        match self.framerate.ready(elapsed_ms) {
            None => None,
            Some(start) => {
                self.last_orientation = orientation;
                Some((start, scene(orientation, my_peer_id, has_time)))
            },
        }
    }

    /// Draws the compass into the buffer; see [`Compass::buffer`].
    pub fn buffer_compass(
        &mut self,
        now: u32,
        network_data: &NetworkData,
        courses: &[Option<Course>; MAX_PEERS],
    )
        requires
            old(self).wf(),
            network_data.wf(),
            forall|id: int|
                0 <= id < MAX_PEERS ==> (#[trigger] courses@[id] matches Some(course)
                    ==> course.bearing <= FULL_TURN),
        ensures
            final(self).wf(),
            *final(self) == (Lights { led_buffer: final(self).led_buffer, ..*old(self) }),
            forall|led: int|
                0 <= led < NUM_LEDS ==> #[trigger] final(self).led_buffer@[led] == old(self).pattern_compass.led_color(
                    now,
                    old(self).led_buffer@[led],
                    network_data@,
                    courses@,
                    led,
                ),
    {
        self.pattern_compass.buffer(now, &mut self.led_buffer, network_data, courses);
    }

    /// Turns the hands of the clock and draws it into the buffer; see
    /// [`Clock::buffer`].
    pub fn buffer_clock(&mut self, hour_angle: u8, minute_angle: u8, second_angle: u8)
        ensures
            final(self).pattern_clock == (Clock {
                hour_angle,
                minute_angle,
                second_angle,
                ..old(self).pattern_clock
            }),
            *final(self) == (Lights {
                led_buffer: final(self).led_buffer,
                pattern_clock: final(self).pattern_clock,
                ..*old(self)
            }),
            forall|led: int|
                0 <= led < NUM_LEDS ==> #[trigger] final(self).led_buffer@[led] == final(self).pattern_clock.led_color(old(self).led_buffer@[led], led),
    {
        self.pattern_clock.buffer(
            &mut self.led_buffer,
            hour_angle,
            minute_angle,
            second_angle,
        );
    }

    /// Draws the sunflower into the buffer.
    pub fn buffer_sunflower(&mut self, now: u32)
        ensures
            *final(self) == (Lights { led_buffer: final(self).led_buffer, ..*old(self) }),
            forall|led: int|
                0 <= led < NUM_LEDS ==> #[trigger] final(self).led_buffer@[led]
                    == spec_rainbow_color(old(self).pattern_sunflower.direction, now, radius(led)),
    {
        self.pattern_sunflower.buffer(now, &mut self.led_buffer);
    }

    /// Draws the disc with a mouth of the width `mouth_width` into the
    /// buffer; see [`PacMan::buffer`].
    pub fn buffer_pacman(&mut self, mouth_width: u8)
        ensures
            *final(self) == (Lights { led_buffer: final(self).led_buffer, ..*old(self) }),
            forall|led: int|
                0 <= led < NUM_LEDS ==> #[trigger] final(self).led_buffer@[led] == if led_is_inside(
                    led,
                    vstd::wrapping::u8_specs::wrapping_sub(0, mouth_width / 2),
                    (mouth_width - mouth_width / 2) as u8,
                    0,
                    255,
                ) {
                    Rgb8 { r: 0, g: 0, b: 0 }
                } else {
                    Rgb8 { r: 255, g: 255, b: 0 }
                },
    {
        self.pattern_pacman.buffer(mouth_width, &mut self.led_buffer);
    }

    /// What goes out to the LEDs: the buffer, gamma corrected and then
    /// dimmed to the brightness.
    pub fn frame(&self) -> (frame: Vec<Rgb8>)
        ensures
            frame@.len() == NUM_LEDS,
            forall|led: int| 0 <= led < NUM_LEDS ==> #[trigger] frame@[led] == self.output(led),
    {
        let corrected = gamma(self.led_buffer.as_slice());
        brightness(corrected.as_slice(), self.brightness)
    }

    /// Darkens the whole buffer and hands out the frame.
    pub fn draw_black(&mut self) -> (frame: Vec<Rgb8>)
        ensures
            *final(self) == (Lights { led_buffer: final(self).led_buffer, ..*old(self) }),
            forall|led: int|
                0 <= led < NUM_LEDS ==> #[trigger] final(self).led_buffer@[led] == (Rgb8 {
                    r: 0,
                    g: 0,
                    b: 0,
                }),
            frame@.len() == NUM_LEDS,
            forall|led: int|
                0 <= led < NUM_LEDS ==> #[trigger] frame@[led] == final(self).output(led),
    {
        fade_to_black_by(&mut self.led_buffer, 255);
        assert forall|led: int| 0 <= led < NUM_LEDS implies #[trigger] self.led_buffer@[led] == (Rgb8 {
            r: 0,
            g: 0,
            b: 0,
        }) by {
            assert(self.led_buffer@[led] == spec_fade_color(old(self).led_buffer@[led], 255));
        }
        self.frame()
    }

    /// Lights the test pattern over what the buffer holds and hands out the
    /// frame: one red LED, two green ones, three blue ones, and white ones
    /// at the places 6, 8, 10 and 255.
    pub fn draw_test_pattern(&mut self) -> (frame: Vec<Rgb8>)
        ensures
            *final(self) == (Lights { led_buffer: final(self).led_buffer, ..*old(self) }),
            forall|led: int|
                0 <= led < NUM_LEDS ==> #[trigger] final(self).led_buffer@[led]
                    == spec_test_pattern(old(self).led_buffer@[led], led),
            frame@.len() == NUM_LEDS,
            forall|led: int|
                0 <= led < NUM_LEDS ==> #[trigger] frame@[led] == final(self).output(led),
    {
        self.led_buffer[0].r = 0xFF;
        self.led_buffer[1].g = 0xFF;
        self.led_buffer[2].g = 0xFF;
        self.led_buffer[3].b = 0xFF;
        self.led_buffer[4].b = 0xFF;
        self.led_buffer[5].b = 0xFF;
        self.led_buffer[6] = Rgb8::white();
        self.led_buffer[8] = Rgb8::white();
        self.led_buffer[10] = Rgb8::white();
        self.led_buffer[255] = Rgb8::white();
        self.frame()
    }
}

/// The colour of the LED at the place `led` once the test pattern has been
/// lit over `before`.
pub open spec fn spec_test_pattern(before: Rgb8, led: int) -> Rgb8 {
    if led == 0 {
        Rgb8 { r: 255, ..before }
    } else if led == 1 || led == 2 {
        Rgb8 { g: 255, ..before }
    } else if 3 <= led <= 5 {
        Rgb8 { b: 255, ..before }
    } else if led == 6 || led == 8 || led == 10 || led == 255 {
        Rgb8 { r: 255, g: 255, b: 255 }
    } else {
        before
    }
}

/// Chooses the scene for an orientation; see [`spec_scene`].
pub fn scene(orientation: Orientation, my_peer_id: usize, has_time: bool) -> (scene: Scene)
    ensures
        scene == spec_scene(orientation, my_peer_id, has_time),
{
    match orientation {
        Orientation::FaceDown => Scene::Flashlight,
        Orientation::FaceUp => if my_peer_id != 0 {
            Scene::Compass
        } else {
            Scene::Sunflower
        },
        Orientation::PortraitDown | Orientation::Unknown => if has_time {
            Scene::Clock
        } else {
            Scene::Sunflower
        },
        Orientation::LandscapeUp | Orientation::LandscapeDown | Orientation::PortraitUp => Scene::PacMan,
    }
}

} // verus!
