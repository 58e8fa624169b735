//! The color wheel: a pure mapping from an 8-bit phase to an RGB triple.
//!
//! The phase is first inverted (`255 - phase`), then the 0..256 domain is cut
//! into three 85-wide segments that ramp red to green, green to blue and blue
//! back to red, each ramp scaled by 3 per step.

use vstd::prelude::*;

verus! {

/// One pixel color: three 8-bit channels.
#[derive(Clone, Copy, PartialEq, Eq, Structural, Debug)]
pub struct Rgb8 {
    pub r: u8,
    pub g: u8,
    pub b: u8,
}

impl Rgb8 {
    /// The dark pixel, all channels at zero.
    pub fn off() -> (c: Rgb8)
        ensures
            c == (Rgb8 { r: 0, g: 0, b: 0 }),
    {
        Rgb8 { r: 0, g: 0, b: 0 }
    }
}

/// Red channel of the wheel at an 8-bit phase, on the inverted domain
/// `w = 255 - pos`: full at the segment borders of the red..green ramp,
/// dark through the middle segment.
pub open spec fn wheel_red(pos: u8) -> int {
    let w = 255 - pos as int;
    if w < 85 {
        255 - 3 * w
    } else if w < 170 {
        0
    } else {
        3 * (w - 170)
    }
}

/// Green channel of the wheel at an 8-bit phase.
pub open spec fn wheel_green(pos: u8) -> int {
    let w = 255 - pos as int;
    if w < 85 {
        0
    } else if w < 170 {
        3 * (w - 85)
    } else {
        255 - 3 * (w - 170)
    }
}

/// Blue channel of the wheel at an 8-bit phase.
pub open spec fn wheel_blue(pos: u8) -> int {
    let w = 255 - pos as int;
    if w < 85 {
        3 * w
    } else if w < 170 {
        255 - 3 * (w - 85)
    } else {
        0
    }
}

/// The full wheel color at an 8-bit phase.
pub open spec fn wheel_rgb(pos: u8) -> Rgb8 {
    Rgb8 { r: wheel_red(pos) as u8, g: wheel_green(pos) as u8, b: wheel_blue(pos) as u8 }
}

/// Maps an 8-bit phase to a color on the red-green-blue wheel.
///
/// Total over all 256 inputs, pure, and continuous at the segment borders up
/// to the integer rounding of the 3-per-step ramps.
pub fn wheel(pos: u8) -> (c: Rgb8)
    ensures
        c == wheel_rgb(pos),
        c.r == wheel_red(pos),
        c.g == wheel_green(pos),
        c.b == wheel_blue(pos),
{
    let w: u8 = 255 - pos;
    if w < 85 {
        Rgb8 { r: 255 - w * 3, g: 0, b: w * 3 }
    } else if w < 170 {
        let q: u8 = w - 85;
        Rgb8 { r: 0, g: q * 3, b: 255 - q * 3 }
    } else {
        let q: u8 = w - 170;
        Rgb8 { r: q * 3, g: 255 - q * 3, b: 0 }
    }
}

/// Every wheel color keeps each channel inside the 8-bit range, and at least
/// one channel is fully dark at every phase.
pub proof fn lemma_wheel_channel_bounds(pos: u8)
    ensures
        0 <= wheel_red(pos) <= 255,
        0 <= wheel_green(pos) <= 255,
        0 <= wheel_blue(pos) <= 255,
        wheel_red(pos) == 0 || wheel_green(pos) == 0 || wheel_blue(pos) == 0,
{
}

/// At the three segment borders of the inverted domain (`255 - pos` equal to
/// 0, 85 and 170) and at phase 0, exactly one channel is lit, and fully so.
pub proof fn lemma_wheel_segment_borders()
    ensures
        wheel_rgb(255) == (Rgb8 { r: 255, g: 0, b: 0 }),
        wheel_rgb(170) == (Rgb8 { r: 0, g: 0, b: 255 }),
        wheel_rgb(85) == (Rgb8 { r: 0, g: 255, b: 0 }),
        wheel_rgb(0) == (Rgb8 { r: 255, g: 0, b: 0 }),
{
}

/// Color continuity: one phase step moves each channel by at most the ramp
/// scaling factor of 3, across segment borders included.
pub proof fn lemma_wheel_continuity(pos: u8)
    requires
        pos < 255,
    ensures
        -3 <= wheel_red((pos + 1) as u8) - wheel_red(pos) <= 3,
        -3 <= wheel_green((pos + 1) as u8) - wheel_green(pos) <= 3,
        -3 <= wheel_blue((pos + 1) as u8) - wheel_blue(pos) <= 3,
{
}

} // verus!
