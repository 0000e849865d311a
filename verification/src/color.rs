//! Colors and the integer stages of color mapping.
//!
//! The perceptual temperature-to-channel curve itself needs logarithms and
//! powers and lives outside the verified core; what is verified here is the
//! intensity-scaling stage with its second clamp, and the procedural
//! red/blue grid used when no sky dome is configured.

use vstd::prelude::*;
use crate::fixed::{SCALE, cmul};

verus! {

#[derive(Clone, Copy, PartialEq, Eq, Structural, Debug)]
pub struct Color {
    pub r: u8,
    pub g: u8,
    pub b: u8,
}

/// Solid black: the event horizon.
pub fn black() -> (c: Color)
    ensures
        c == (Color { r: 0, g: 0, b: 0 }),
{
    Color { r: 0, g: 0, b: 0 }
}

/// Diagnostic red: a numerically invalid ray, and one grid color.
pub fn red() -> (c: Color)
    ensures
        c == (Color { r: 0xff, g: 0, b: 0 }),
{
    Color { r: 0xff, g: 0, b: 0 }
}

/// Sky blue fallback, and the sentinel for an undefined metric component.
pub fn blue() -> (c: Color)
    ensures
        c == (Color { r: 0, g: 0, b: 0xff }),
{
    Color { r: 0, g: 0, b: 0xff }
}

/// Sentinel for a vanishing `g_tt`, too close to the horizon to step.
pub fn magenta() -> (c: Color)
    ensures
        c == (Color { r: 0xff, g: 0, b: 0xff }),
{
    Color { r: 0xff, g: 0, b: 0xff }
}

/// The grid is red on the lowest quarter of each cell in either angle,
/// blue elsewhere. The arguments are the fractional parts, in raw fixed
/// units, of `phi/tau * 100` and `theta/pi * 50`.
pub open spec fn grid_color_spec(phi_frac: int, theta_frac: int) -> Color {
    if phi_frac < (SCALE as int) / 4 || theta_frac < (SCALE as int) / 4 {
        Color { r: 0xff, g: 0, b: 0 }
    } else {
        Color { r: 0, g: 0, b: 0xff }
    }
}

/// Procedural red/blue sky grid.
pub fn grid_color(phi_frac: i64, theta_frac: i64) -> (c: Color)
    requires
        0 <= phi_frac < SCALE,
        0 <= theta_frac < SCALE,
    ensures
        c == grid_color_spec(phi_frac as int, theta_frac as int),
{
    if phi_frac < SCALE / 4 || theta_frac < SCALE / 4 {
        Color { r: 0xff, g: 0, b: 0 }
    } else {
        Color { r: 0, g: 0, b: 0xff }
    }
}

/// The second clamping stage of the disk color map: a channel already in
/// `[0, 255]` (fixed-point) is scaled by a nonnegative intensity, clamped
/// again to `[0, 255]`, and truncated to a byte. An intensity so large that
/// the product leaves the representable range clamps to 255.
pub open spec fn scale_channel_spec(chan: int, intensity: int) -> int {
    match cmul(Some(chan), Some(intensity)) {
        Some(v) => if v < 0 {
            0
        } else if v > 255 * (SCALE as int) {
            255
        } else {
            v / (SCALE as int)
        },
        None => 255,
    }
}

/// Scale a color channel by an intensity and clamp to a byte.
pub fn scale_channel(chan: i64, intensity: i64) -> (res: u8)
    requires
        0 <= chan <= 255 * SCALE,
        0 <= intensity,
    ensures
        res as int == scale_channel_spec(chan as int, intensity as int),
{
    match crate::fixed::fmul(chan, intensity) {
        Some(v) => {
            if v < 0 {
                0
            } else if v > 255 * SCALE {
                255
            } else {
                let units: u64 = (v as u64) / (SCALE as u64);
                units as u8
            }
        },
        None => 255,
    }
}

} // verus!
