//! Colours of the LED array.
use vstd::prelude::*;

verus! {

/// A colour of one LED: red, green and blue, eight bits each.
#[derive(Clone, Copy, Debug, PartialEq, Eq, Structural)]
pub struct Rgb8 {
    pub r: u8,
    pub g: u8,
    pub b: u8,
}

impl Rgb8 {
    pub fn new(r: u8, g: u8, b: u8) -> (color: Self)
        ensures
            color == (Rgb8 { r, g, b }),
    {
        Rgb8 { r, g, b }
    }

    pub fn black() -> (color: Self)
        ensures
            color == (Rgb8 { r: 0, g: 0, b: 0 }),
    {
        Rgb8 { r: 0, g: 0, b: 0 }
    }

    pub fn white() -> (color: Self)
        ensures
            color == (Rgb8 { r: 255, g: 255, b: 255 }),
    {
        Rgb8 { r: 255, g: 255, b: 255 }
    }

    pub fn red() -> (color: Self)
        ensures
            color == (Rgb8 { r: 255, g: 0, b: 0 }),
    {
        Rgb8 { r: 255, g: 0, b: 0 }
    }

    /// A green of half brightness.
    pub fn green() -> (color: Self)
        ensures
            color == (Rgb8 { r: 0, g: 128, b: 0 }),
    {
        Rgb8 { r: 0, g: 128, b: 0 }
    }

    pub fn blue() -> (color: Self)
        ensures
            color == (Rgb8 { r: 0, g: 0, b: 255 }),
    {
        Rgb8 { r: 0, g: 0, b: 255 }
    }

    pub fn yellow() -> (color: Self)
        ensures
            color == (Rgb8 { r: 255, g: 255, b: 0 }),
    {
        Rgb8 { r: 255, g: 255, b: 0 }
    }
}

/// The colour that the conversion from hue, saturation and value gives.
pub uninterp spec fn hsv2rgb_color(hue: u8, sat: u8, val: u8) -> Rgb8;

/// Converts hue, saturation and value to red, green and blue with
/// `smart_leds::hsv::hsv2rgb`. The conversion is a function of the three
/// components alone; the contract names its result and says no more.
#[verifier::external_body]
pub(crate) fn hsv2rgb(hue: u8, sat: u8, val: u8) -> (color: Rgb8)
    ensures
        color == hsv2rgb_color(hue, sat, val),
{
    let rgb = smart_leds::hsv::hsv2rgb(smart_leds::hsv::Hsv { hue, sat, val });
    Rgb8 { r: rgb.r, g: rgb.g, b: rgb.b }
}

} // verus!
