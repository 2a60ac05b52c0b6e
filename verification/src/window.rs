use vstd::prelude::*;

use crate::grid::Grid;
use crate::pixel::Pixel;

verus! {

/// How many of the `w` offsets starting at `pos` stay below `dim`:
/// the clipped extent of a window edge. Out-of-bounds offsets are
/// skipped, with no wraparound and no reflection.
pub open spec fn clipped_extent(w: int, pos: int, dim: int) -> int {
    if pos + w <= dim {
        w
    } else {
        dim - pos
    }
}

/// The in-bounds pixels of the square window `[x, x+w) x [y, y+w)` of
/// grid `g`, clipped at the right and bottom edges, listed row-major:
/// all pixels of the first window row left to right, then the next row,
/// and so on. For `x < width`, `y < height` and `w >= 1` the clipped
/// window is a non-empty `cw x ch` rectangle.
pub open spec fn window_seq(g: Grid, x: int, y: int, w: int) -> Seq<Pixel> {
    let cw = clipped_extent(w, x, g.width as int);
    let ch = clipped_extent(w, y, g.height as int);
    Seq::new((cw * ch) as nat, |k: int| g.pixel_at(x + k % cw, y + k / cw))
}

/// Every sample of a clipped window comes from an in-bounds coordinate
/// of the grid: clipping leaves no out-of-bounds reads, however far
/// the window reaches past the right or bottom edge.
pub proof fn lemma_window_in_bounds(g: Grid, x: int, y: int, w: int, k: int)
    requires
        0 <= x < g.width,
        0 <= y < g.height,
        w >= 1,
        0 <= k < window_seq(g, x, y, w).len(),
    ensures
        ({
            let cw = clipped_extent(w, x, g.width as int);
            &&& 0 <= x + k % cw < g.width
            &&& 0 <= y + k / cw < g.height
            &&& window_seq(g, x, y, w)[k] == g.pixel_at(x + k % cw, y + k / cw)
        }),
{
    let cw = clipped_extent(w, x, g.width as int);
    let ch = clipped_extent(w, y, g.height as int);
    assert(0 <= k % cw < cw && 0 <= k / cw < ch) by (nonlinear_arith)
        requires
            0 <= k < cw * ch,
            cw >= 1,
            ch >= 1,
    ;
}

/// Collects the in-bounds window pixels in row-major order.
pub fn window_pixels(g: &Grid, x: u32, y: u32, w: u32) -> (r: Vec<Pixel>)
    requires
        g.wf(),
        x < g.width,
        y < g.height,
        w >= 1,
    ensures
        r@ == window_seq(*g, x as int, y as int, w as int),
        r@.len() > 0,
{
    let cw: u32 = if (x as u64) + (w as u64) <= (g.width as u64) {
        w
    } else {
        g.width - x
    };
    let ch: u32 = if (y as u64) + (w as u64) <= (g.height as u64) {
        w
    } else {
        g.height - y
    };
    assert(cw == clipped_extent(w as int, x as int, g.width as int));
    assert(ch == clipped_extent(w as int, y as int, g.height as int));
    let mut r: Vec<Pixel> = Vec::new();
    let mut dy: u32 = 0;
    while dy < ch
        invariant
            g.wf(),
            x < g.width,
            y < g.height,
            1 <= cw,
            1 <= ch,
            x as int + cw as int <= g.width as int,
            y as int + ch as int <= g.height as int,
            dy <= ch,
            r@.len() == dy as int * cw as int,
            forall|k: int|
                0 <= k < r@.len() ==> r@[k] == g.pixel_at(
                    x as int + k % (cw as int),
                    y as int + k / (cw as int),
                ),
        decreases ch - dy,
    {
        let mut dx: u32 = 0;
        while dx < cw
            invariant
                g.wf(),
                x < g.width,
                y < g.height,
                1 <= cw,
                x as int + cw as int <= g.width as int,
                y as int + ch as int <= g.height as int,
                dy < ch,
                dx <= cw,
                r@.len() == dy as int * cw as int + dx as int,
                forall|k: int|
                    0 <= k < r@.len() ==> r@[k] == g.pixel_at(
                        x as int + k % (cw as int),
                        y as int + k / (cw as int),
                    ),
            decreases cw - dx,
        {
            let p = g.get(x + dx, y + dy);
            r.push(p);
            proof {
                assert(dy as int * cw as int + dx as int >= 0 && (dy as int * cw as int
                    + dx as int) % (cw as int) == dx as int && (dy as int * cw as int
                    + dx as int) / (cw as int) == dy as int) by (nonlinear_arith)
                    requires
                        0 <= dx < cw as int,
                        0 <= dy,
                ;
            }
            dx = dx + 1;
        }
        proof {
            assert(dy as int * cw as int + cw as int == (dy as int + 1) * cw as int)
                by (nonlinear_arith);
        }
        dy = dy + 1;
    }
    proof {
        assert(ch as int * cw as int == cw as int * ch as int) by (nonlinear_arith);
        assert(cw as int * ch as int >= 1) by (nonlinear_arith)
            requires
                cw as int >= 1,
                ch as int >= 1,
        ;
        assert(r@ =~= window_seq(*g, x as int, y as int, w as int));
    }
    r
}

} // verus!
