//! Rendering a pixel grid as rows of glyphs.

use vstd::prelude::*;
use vstd::string::{StrSliceExecFns, StringExecFns};
use crate::grid::{nearest_resized, RgbGrid};
use crate::pixel::{get_luminosity, invert, inverted, luminosity_of};
use crate::ramp::{glyph_index, lemma_glyph_index_in_range, lemma_ramp_len, ramp, ramp_index, BRIGHTNESS};

verus! {

/// Luminosity of the `i`-th pixel of `data`, inverted when `invert_flag` holds.
pub open spec fn cell_luminosity(data: Seq<u8>, i: int, invert_flag: bool) -> u8 {
    let l = luminosity_of(data[3 * i], data[3 * i + 1], data[3 * i + 2]) as u8;
    if invert_flag {
        inverted(l)
    } else {
        l
    }
}

/// Glyph drawn for the `i`-th pixel of `data`.
pub open spec fn cell_glyph(data: Seq<u8>, i: int, invert_flag: bool) -> char {
    ramp()[glyph_index(cell_luminosity(data, i, invert_flag))]
}

/// First `n` characters of a text row: each pixel's glyph three times.
pub open spec fn row_glyphs(data: Seq<u8>, width: nat, row: nat, n: nat, invert_flag: bool) -> Seq<char> {
    Seq::new(n, |k: int| cell_glyph(data, row * width + k / 3, invert_flag))
}

/// One text line: every pixel of `row` as three glyphs, then a line break.
pub open spec fn row_text(data: Seq<u8>, width: nat, row: nat, invert_flag: bool) -> Seq<char> {
    row_glyphs(data, width, row, 3 * width, invert_flag).push('\n')
}

/// The text of the first `rows` rows of a grid of the given width.
pub open spec fn rendered(data: Seq<u8>, width: nat, rows: nat, invert_flag: bool) -> Seq<char>
    decreases rows,
{
    if rows == 0 {
        Seq::empty()
    } else {
        rendered(data, width, (rows - 1) as nat, invert_flag) + row_text(data, width, (rows - 1) as nat, invert_flag)
    }
}

/// The glyph for a luminosity, as a one-character string.
fn glyph_str(luminosity: u8) -> (s: &'static str)
    ensures
        s@ == seq![ramp()[glyph_index(luminosity)]],
{
    proof {
        lemma_ramp_len();
    }
    let i = ramp_index(luminosity);
    let s = BRIGHTNESS.substring_char(i, i + 1);
    assert(s@ =~= seq![ramp()[glyph_index(luminosity)]]);
    s
}

/// Draws every pixel of the grid, row by row, as its glyph written three
/// times; each row ends with a line break.
pub fn render(grid: &RgbGrid, invert_flag: bool) -> (s: String)
    requires
        grid.wf(),
    ensures
        s@ == rendered(grid.bytes(), grid.spec_width() as nat, grid.spec_height() as nat, invert_flag),
{
    let w = grid.width();
    let h = grid.height();
    let ghost data = grid.bytes();
    let mut out = String::new();
    let mut row: u32 = 0;
    while row < h
        invariant
            grid.wf(),
            data == grid.bytes(),
            w == grid.spec_width(),
            h == grid.spec_height(),
            row <= h,
            out@ == rendered(data, w as nat, row as nat, invert_flag),
        decreases h - row,
    {
        let mut col: u32 = 0;
        while col < w
            invariant
                grid.wf(),
                data == grid.bytes(),
                w == grid.spec_width(),
                h == grid.spec_height(),
                row < h,
                col <= w,
                out@ == rendered(data, w as nat, row as nat, invert_flag) + row_glyphs(
                    data,
                    w as nat,
                    row as nat,
                    3 * col as nat,
                    invert_flag,
                ),
            decreases w - col,
        {
            let p = grid.pixel(row, col);
            let l = get_luminosity(&p);
            let v = if invert_flag {
                invert(l)
            } else {
                l
            };
            let g = glyph_str(v);
            let ghost before = out@;
            out.append(g);
            out.append(g);
            out.append(g);
            proof {
                let i: int = row as int * w as int + col as int;
                crate::grid::lemma_pixel_in_grid(*grid, row as int, col as int);
                assert(grid.offset(row as int, col as int) == 3 * i);
                assert(p@[0] == data[3 * i] && p@[1] == data[3 * i + 1] && p@[2] == data[3 * i + 2]);
                assert(v == cell_luminosity(data, i, invert_flag));
                let c = cell_glyph(data, i, invert_flag);
                let a = row_glyphs(data, w as nat, row as nat, 3 * col as nat, invert_flag);
                let b = row_glyphs(data, w as nat, row as nat, 3 * (col + 1) as nat, invert_flag);
                assert((3 * col as int) / 3 == col);
                assert((3 * col as int + 1) / 3 == col);
                assert((3 * col as int + 2) / 3 == col);
                assert(b =~= a + seq![c, c, c]);
            }
            col += 1;
        }
        proof {
            reveal_strlit("\n");
        }
        out.append("\n");
        row += 1;
    }
    out
}

/// The whole pipeline on a decoded image: nearest-neighbour resize to
/// `width` x `height`, then `render`.
pub fn ascii_art(image: &RgbGrid, width: u32, height: u32, invert_flag: bool) -> (s: String)
    requires
        image.wf(),
        image.spec_width() > 0,
        image.spec_height() > 0,
        3 * width * height <= usize::MAX,
    ensures
        s@ == rendered(
            nearest_resized(image.bytes(), image.spec_width(), image.spec_height(), width, height),
            width as nat,
            height as nat,
            invert_flag,
        ),
{
    let small = image.resize(width, height);
    render(&small, invert_flag)
}

} // verus!
