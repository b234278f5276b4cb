//! The brightness ramp and the mapping from luminosity to glyph.

use vstd::prelude::*;
use vstd::string::StrSliceExecFns;

verus! {

/// Glyphs ordered from the darkest (index 0) to the brightest.
pub const BRIGHTNESS: &'static str = "`^\",:;Il!i~+_-?][}{1)(|\\/tfjrxnuvczXYUJCLQ0OZmwqpdbkhao*#MW&8%B@$";

/// Number of glyphs in `BRIGHTNESS`.
pub const RAMP_LEN: usize = 65;

/// The ramp as a sequence of characters.
pub open spec fn ramp() -> Seq<char> {
    BRIGHTNESS@
}

/// Ramp index of a luminosity: `[0, 255]` scaled linearly onto
/// `[0, RAMP_LEN - 1]`, truncating.
pub open spec fn glyph_index(v: u8) -> int {
    (v as int * (RAMP_LEN as int - 1)) / 255
}

/// The ramp holds exactly `RAMP_LEN` glyphs.
pub proof fn lemma_ramp_len()
    ensures
        ramp().len() == RAMP_LEN,
{
    reveal_strlit("`^\",:;Il!i~+_-?][}{1)(|\\/tfjrxnuvczXYUJCLQ0OZmwqpdbkhao*#MW&8%B@$");
}

/// Every luminosity has a glyph: its index lies inside the ramp.
pub proof fn lemma_glyph_index_in_range(v: u8)
    ensures
        0 <= glyph_index(v) < RAMP_LEN,
{
    assert(0 <= v as int * 64 <= 255 * 64) by (nonlinear_arith);
}

/// A brighter pixel never gets a darker glyph: the index does not decrease
/// as the luminosity grows.
pub proof fn lemma_glyph_index_monotonic(v1: u8, v2: u8)
    requires
        v1 < v2,
    ensures
        glyph_index(v1) <= glyph_index(v2),
{
    assert(v1 as int * 64 <= v2 as int * 64) by (nonlinear_arith)
        requires v1 < v2;
    vstd::arithmetic::div_mod::lemma_div_is_ordered(v1 as int * 64, v2 as int * 64, 255);
}

/// Black takes the first glyph of the ramp, white the last.
pub proof fn lemma_glyph_index_bounds()
    ensures
        glyph_index(0) == 0,
        glyph_index(255) == RAMP_LEN - 1,
{
}

/// Ramp index of a luminosity, computed.
pub fn ramp_index(luminosity: u8) -> (i: usize)
    ensures
        i as int == glyph_index(luminosity),
        i < RAMP_LEN,
{
    proof {
        lemma_glyph_index_in_range(luminosity);
    }
    ((luminosity as u32 * (RAMP_LEN as u32 - 1)) / 255) as usize
}

/// The glyph that stands for a luminosity.
pub fn map_to_text(luminosity: u8) -> (c: char)
    ensures
        c == ramp()[glyph_index(luminosity)],
{
    proof {
        lemma_ramp_len();
    }
    let i = ramp_index(luminosity);
    BRIGHTNESS.get_char(i)
}

} // verus!
