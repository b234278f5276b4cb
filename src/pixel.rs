//! Reduction of a pixel to its luminosity, and inversion.

use vstd::prelude::*;

verus! {

/// Unweighted average of the three channels, truncated.
pub open spec fn luminosity_of(r: u8, g: u8, b: u8) -> int {
    (r as int + g as int + b as int) / 3
}

/// The luminosity seen from the other end of the scale.
pub open spec fn inverted(v: u8) -> u8 {
    (255 - v) as u8
}

/// The luminosity of any pixel lies in `[0, 255]`.
pub proof fn lemma_luminosity_bounds(r: u8, g: u8, b: u8)
    ensures
        0 <= luminosity_of(r, g, b) <= 255,
{
}

/// Inverting twice gives the value back.
pub proof fn lemma_invert_involution(v: u8)
    ensures
        inverted(inverted(v)) == v,
{
}

/// Luminosity of a pixel given as `[red, green, blue]`.
pub fn get_luminosity(pixel: &[u8; 3]) -> (l: u8)
    ensures
        l as int == luminosity_of(pixel@[0], pixel@[1], pixel@[2]),
{
    ((pixel[0] as u32 + pixel[1] as u32 + pixel[2] as u32) / 3) as u8
}

/// Replaces a luminosity `v` with `255 - v`.
pub fn invert(value: u8) -> (r: u8)
    ensures
        r == inverted(value),
        r as int == 255 - value as int,
{
    255 - value
}

} // verus!
