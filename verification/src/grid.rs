use vstd::prelude::*;

use crate::pixel::Pixel;

verus! {

/// A rectangular pixel grid, `width` columns by `height` rows, stored
/// row-major with the origin at the top left. The source grid of a filter
/// pass is read-only; a destination grid is built once, row by row.
pub struct Grid {
    pub width: u32,
    pub height: u32,
    pub pixels: Vec<Pixel>,
}

impl Grid {
    /// Well-formedness: the buffer holds exactly one pixel per coordinate.
    pub open spec fn wf(&self) -> bool {
        self.pixels@.len() == self.width as int * self.height as int
    }

    /// The pixel stored at column `x`, row `y`.
    pub open spec fn pixel_at(&self, x: int, y: int) -> Pixel {
        self.pixels@[y * self.width as int + x]
    }

    /// Builds a grid from its dimensions and a row-major pixel buffer;
    /// refuses a buffer whose length does not match the dimensions.
    pub fn new(width: u32, height: u32, pixels: Vec<Pixel>) -> (r: Option<Grid>)
        ensures
            match r {
                Some(g) => ({
                    &&& g.width == width
                    &&& g.height == height
                    &&& g.pixels@ == pixels@
                    &&& g.wf()
                }),
                None => pixels@.len() != width as int * height as int,
            },
    {
        proof {
            assert((width as int) * (height as int) < 0x1_0000_0000_0000_0000)
                by (nonlinear_arith)
                requires
                    width < 0x1_0000_0000,
                    height < 0x1_0000_0000,
            ;
        }
        if pixels.len() as u64 == (width as u64) * (height as u64) {
            Some(Grid { width, height, pixels })
        } else {
            None
        }
    }

    /// Random-access pixel lookup by coordinate.
    pub fn get(&self, x: u32, y: u32) -> (p: Pixel)
        requires
            self.wf(),
            x < self.width,
            y < self.height,
        ensures
            p == self.pixel_at(x as int, y as int),
    {
        let n: usize = self.pixels.len();
        proof {
            lemma_row_major_index_in_range(
                x as int,
                y as int,
                self.width as int,
                self.height as int,
            );
        }
        let idx: usize = (y as usize) * (self.width as usize) + (x as usize);
        self.pixels[idx]
    }
}

/// A coordinate inside the grid addresses a cell inside the buffer.
pub proof fn lemma_row_major_index_in_range(x: int, y: int, w: int, h: int)
    requires
        0 <= x < w,
        0 <= y < h,
    ensures
        0 <= y * w + x < w * h,
{
    assert(y * w + x < w * h) by (nonlinear_arith)
        requires
            0 <= x < w,
            0 <= y < h,
    ;
    assert(0 <= y * w) by (nonlinear_arith)
        requires
            0 <= y,
            0 <= w,
    ;
}

} // verus!
