//! An RGB pixel grid held as raw bytes, and its nearest-neighbour resize.

use vstd::prelude::*;

verus! {

/// The bytes that the image crate's nearest-neighbour resize produces from
/// `data` (a `width` x `height` RGB grid) at `nwidth` x `nheight`.
pub uninterp spec fn nearest_resized(data: Seq<u8>, width: u32, height: u32, nwidth: u32, nheight: u32) -> Seq<u8>;

/// Relies on image::ImageBuffer::from_raw, image::imageops::resize with
/// FilterType::Nearest, and ImageBuffer::into_raw: the result is a fresh
/// `nwidth` x `nheight` RGB buffer, three bytes per pixel, row-major.
#[verifier::external_body]
fn resize_nearest(data: &Vec<u8>, width: u32, height: u32, nwidth: u32, nheight: u32) -> (r: Vec<u8>)
    requires
        data@.len() == 3 * width * height,
        width > 0,
        height > 0,
        3 * nwidth * nheight <= usize::MAX,
    ensures
        r@.len() == 3 * nwidth * nheight,
        r@ == nearest_resized(data@, width, height, nwidth, nheight),
{
    let src = image::RgbImage::from_raw(width, height, data.clone()).unwrap();
    image::imageops::resize(&src, nwidth, nheight, image::imageops::FilterType::Nearest).into_raw()
}

/// A grid of RGB pixels, stored row by row, three bytes per pixel.
pub struct RgbGrid {
    width: u32,
    height: u32,
    data: Vec<u8>,
}

impl RgbGrid {
    pub closed spec fn spec_width(&self) -> u32 {
        self.width
    }

    pub closed spec fn spec_height(&self) -> u32 {
        self.height
    }

    /// The raw bytes, row-major, `[r, g, b]` per pixel.
    pub closed spec fn bytes(&self) -> Seq<u8> {
        self.data@
    }

    /// The grid holds exactly three bytes for each of its pixels.
    pub open spec fn wf(&self) -> bool {
        self.bytes().len() == 3 * self.spec_width() * self.spec_height()
    }

    /// Byte offset of the pixel at `(row, col)`.
    pub open spec fn offset(&self, row: int, col: int) -> int {
        3 * (row * self.spec_width() + col)
    }

    /// Builds a grid from raw row-major RGB bytes; `None` unless there are
    /// exactly `3 * width * height` of them.
    pub fn from_raw(width: u32, height: u32, data: Vec<u8>) -> (r: Option<RgbGrid>)
        ensures
            r is Some <==> data@.len() == 3 * width * height,
            r matches Some(g) ==> (g.wf() && g.spec_width() == width && g.spec_height() == height
                && g.bytes() == data@),
    {
        let n = data.len() as u128;
        assert((width as u128) * (height as u128) <= 0xffff_ffff * 0xffff_ffff) by (nonlinear_arith)
            requires width <= 0xffff_ffff, height <= 0xffff_ffff;
        assert(3 * ((width as int) * (height as int)) == 3 * width * height) by (nonlinear_arith);
        if n == 3 * ((width as u128) * (height as u128)) {
            Some(RgbGrid { width, height, data })
        } else {
            None
        }
    }

    pub fn width(&self) -> (w: u32)
        ensures
            w == self.spec_width(),
    {
        self.width
    }

    pub fn height(&self) -> (h: u32)
        ensures
            h == self.spec_height(),
    {
        self.height
    }

    /// The raw bytes of the grid.
    pub fn as_bytes(&self) -> (b: &Vec<u8>)
        ensures
            b@ == self.bytes(),
    {
        &self.data
    }

    /// The pixel at `(row, col)` as `[r, g, b]`.
    pub fn pixel(&self, row: u32, col: u32) -> (p: [u8; 3])
        requires
            self.wf(),
            row < self.spec_height(),
            col < self.spec_width(),
        ensures
            p@ == self.bytes().subrange(self.offset(row as int, col as int), self.offset(row as int, col as int) + 3),
    {
        proof {
            lemma_pixel_in_grid(*self, row as int, col as int);
        }
        let n = self.data.len();
        let i = 3 * (row as usize * self.width as usize + col as usize);
        let p = [self.data[i], self.data[i + 1], self.data[i + 2]];
        assert(p@ =~= self.bytes().subrange(i as int, i + 3));
        p
    }

    /// Nearest-neighbour resize to exactly `width` columns and `height` rows.
    pub fn resize(&self, width: u32, height: u32) -> (r: RgbGrid)
        requires
            self.wf(),
            self.spec_width() > 0,
            self.spec_height() > 0,
            3 * width * height <= usize::MAX,
        ensures
            r.wf(),
            r.spec_width() == width,
            r.spec_height() == height,
            r.bytes() == nearest_resized(self.bytes(), self.spec_width(), self.spec_height(), width, height),
    {
        let data = resize_nearest(&self.data, self.width, self.height, width, height);
        RgbGrid { width, height, data }
    }
}

/// In a well-formed grid every `(row, col)` with `row < height` and
/// `col < width` addresses a whole pixel, and the grid holds
/// `width * height` pixels.
pub proof fn lemma_pixel_in_grid(g: RgbGrid, row: int, col: int)
    requires
        g.wf(),
        0 <= row < g.spec_height(),
        0 <= col < g.spec_width(),
    ensures
        0 <= g.offset(row, col),
        g.offset(row, col) + 3 <= g.bytes().len(),
        g.bytes().len() / 3 == g.spec_width() * g.spec_height(),
{
    let w = g.spec_width() as int;
    let h = g.spec_height() as int;
    let n = g.bytes().len() as int;
    assert(0 <= 3 * (row * w + col) && 3 * (row * w + col) + 3 <= n && n / 3 == w * h) by (nonlinear_arith)
        requires
            0 <= row < h,
            0 <= col < w,
            n == 3 * w * h,
    {
        assert(row * w + col + 1 <= w * h) by (nonlinear_arith)
            requires 0 <= row < h, 0 <= col < w;
    }
}

/// After a resize to `(width, height)` the grid has exactly
/// `width * height` pixels, each addressable at `(row, col)` for
/// `row < height` and `col < width`.
pub proof fn lemma_resize_shape(r: RgbGrid, width: u32, height: u32)
    requires
        r.wf(),
        r.spec_width() == width,
        r.spec_height() == height,
    ensures
        width > 0 && height > 0 ==> r.bytes().len() / 3 == width * height,
        forall|row: int, col: int|
            0 <= row < height && 0 <= col < width ==> 0 <= #[trigger] r.offset(row, col) && r.offset(row, col) + 3 <= r.bytes().len(),
{
    assert forall|row: int, col: int|
        0 <= row < height && 0 <= col < width implies 0 <= #[trigger] r.offset(row, col) && r.offset(row, col) + 3 <= r.bytes().len() by {
        lemma_pixel_in_grid(r, row, col);
    }
    if width > 0 && height > 0 {
        lemma_pixel_in_grid(r, 0, 0);
    }
}

} // verus!
