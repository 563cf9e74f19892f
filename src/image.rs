use vstd::prelude::*;

use crate::color::{color_text, Color};
use crate::text::{decimal, push_decimal};

verus! {

/// The width of a new image, in pixels.
pub const DEFAULT_WIDTH: usize = 400;

/// The width-to-height ratio of a new image is `ASPECT_WIDTH : ASPECT_HEIGHT`.
pub const ASPECT_WIDTH: usize = 16;

/// See `ASPECT_WIDTH`.
pub const ASPECT_HEIGHT: usize = 9;

/// The largest channel level that the image declares.
pub const MAX_COLOR: u32 = 255;

/// A grid of pixel colors, `height` rows of `width` pixels each, that encodes
/// itself as a plain-text (`P3`) portable pixmap.
///
/// Row 0 is the bottom row of the picture: the encoding lists the rows from
/// the top (row `height - 1`) down, each row from left (column 0) to right.
#[derive(Debug)]
pub struct Ppm {
    pub width: usize,
    pub height: usize,
    /// The rows of the picture, bottom row first.
    pub pixels: Vec<Vec<Color>>,
}

/// The text of one row: the text of each color followed by a line break.
pub open spec fn row_text(row: Seq<Color>, n: nat) -> Seq<u8>
    decreases n,
{
    if n == 0 || n > row.len() {
        Seq::empty()
    } else {
        row_text(row, (n - 1) as nat) + color_text(row[n - 1]@) + seq![10u8]
    }
}

/// The text of the top `k` rows of `grid`, from the top row down.
pub open spec fn rows_text(grid: Seq<Seq<Color>>, k: nat) -> Seq<u8>
    decreases k,
{
    if k == 0 || k > grid.len() {
        Seq::empty()
    } else {
        rows_text(grid, (k - 1) as nat) + row_text(
            grid[grid.len() - k],
            grid[grid.len() - k].len(),
        )
    }
}

/// The header of a plain-text pixmap of the given size and largest level.
pub open spec fn header_text(width: nat, height: nat, max_color: nat) -> Seq<u8> {
    seq![80u8, 51u8, 10u8] + decimal(width) + seq![32u8] + decimal(height) + seq![10u8]
        + decimal(max_color) + seq![10u8]
}

/// The whole plain-text pixmap of `grid`.
pub open spec fn ppm_text(width: nat, height: nat, grid: Seq<Seq<Color>>) -> Seq<u8> {
    header_text(width, height, MAX_COLOR as nat) + rows_text(grid, grid.len())
}

impl View for Ppm {
    type V = Seq<Seq<Color>>;

    open spec fn view(&self) -> Seq<Seq<Color>> {
        self.pixels@.map_values(|row: Vec<Color>| row@)
    }
}

impl Ppm {
    /// The grid has `height` rows of `width` pixels.
    pub open spec fn wf(&self) -> bool {
        &&& self.pixels@.len() == self.height
        &&& forall|j: int| 0 <= j < self.height ==> (#[trigger] self.pixels@[j])@.len() == self.width
    }

    /// A black image of `DEFAULT_WIDTH` pixels per row, with as many rows as
    /// the aspect ratio gives.
    pub fn new() -> (r: Ppm)
        ensures
            r.wf(),
            r.width == DEFAULT_WIDTH,
            r.height == DEFAULT_WIDTH as int * ASPECT_HEIGHT as int / ASPECT_WIDTH as int,
            r@.len() == r.height,
            forall|j: int, i: int|
                0 <= j < r.height && 0 <= i < r.width ==> (#[trigger] r@[j][i])@ == seq![
                    0u32,
                    0u32,
                    0u32,
                ],
    {
        let width: usize = DEFAULT_WIDTH;
        let height: usize = DEFAULT_WIDTH * ASPECT_HEIGHT / ASPECT_WIDTH;
        let mut pixels: Vec<Vec<Color>> = Vec::new();
        let mut j: usize = 0;
        while j < height
            invariant
                j <= height,
                pixels@.len() == j,
                forall|k: int| 0 <= k < j ==> (#[trigger] pixels@[k])@.len() == width,
                forall|k: int, i: int|
                    0 <= k < j && 0 <= i < width ==> (#[trigger] pixels@[k]@[i])@ == seq![
                        0u32,
                        0u32,
                        0u32,
                    ],
            decreases height - j,
        {
            let mut row: Vec<Color> = Vec::new();
            let mut i: usize = 0;
            while i < width
                invariant
                    i <= width,
                    row@.len() == i,
                    forall|k: int| 0 <= k < i ==> (#[trigger] row@[k])@ == seq![0u32, 0u32, 0u32],
                decreases width - i,
            {
                row.push(Color::default());
                i = i + 1;
            }
            pixels.push(row);
            j = j + 1;
        }
        let r = Ppm { width, height, pixels };
        assert forall|j: int, i: int|
            0 <= j < r.height && 0 <= i < r.width implies (#[trigger] r@[j][i])@ == seq![
                0u32,
                0u32,
                0u32,
            ] by {
            assert(r@[j] == r.pixels@[j]@);
        }
        r
    }

    /// Sets the pixel in row `x`, column `y` to `color`.
    pub fn plot(&mut self, x: usize, y: usize, color: Color)
        requires
            old(self).wf(),
            x < old(self).height,
            y < old(self).width,
        ensures
            final(self).wf(),
            final(self).width == old(self).width,
            final(self).height == old(self).height,
            final(self)@ == old(self)@.update(x as int, old(self)@[x as int].update(y as int, color)),
    {
        self.pixels[x][y] = color;
        assert(self@ =~= old(self)@.update(x as int, old(self)@[x as int].update(y as int, color)));
    }

    /// The plain-text pixmap of this image: the header `P3`, the size and the
    /// largest level, then one line per pixel, from the top row down.
    pub fn encode(&self) -> (r: Vec<u8>)
        requires
            self.wf(),
        ensures
            r@ == ppm_text(self.width as nat, self.height as nat, self@),
    {
        let mut out: Vec<u8> = Vec::new();
        out.push(80);
        out.push(51);
        out.push(10);
        push_decimal(&mut out, self.width);
        out.push(32);
        push_decimal(&mut out, self.height);
        out.push(10);
        push_decimal(&mut out, MAX_COLOR as usize);
        out.push(10);
        let ghost header = out@;
        assert(header =~= header_text(self.width as nat, self.height as nat, MAX_COLOR as nat));
        let mut k: usize = 0;
        while k < self.height
            invariant
                self.wf(),
                k <= self.height,
                out@ == header + rows_text(self@, k as nat),
            decreases self.height - k,
        {
            let row = &self.pixels[self.height - 1 - k];
            let ghost before = out@;
            let mut i: usize = 0;
            while i < row.len()
                invariant
                    i <= row@.len(),
                    out@ == before + row_text(row@, i as nat),
                decreases row@.len() - i,
            {
                row[i].push_text(&mut out);
                out.push(10);
                assert(out@ =~= before + row_text(row@, (i + 1) as nat));
                i = i + 1;
            }
            assert(self@[self@.len() - (k + 1)] == row@);
            assert(out@ =~= header + rows_text(self@, (k + 1) as nat));
            k = k + 1;
        }
        assert(self@.len() == self.height);
        out
    }
}

} // verus!
