use vstd::prelude::*;

use crate::grid::Grid;
use crate::mode::count_of;
use crate::mode::dominant_of;
use crate::mode::get_dominant_color_in_window;
use crate::mode::is_dominant;
use crate::mode::lemma_dominant_of_is;
use crate::pixel::Pixel;
use crate::window::window_seq;

verus! {

/// The full mode-filtered grid, as one row-major pixel sequence: cell
/// `k` holds the dominant color of the clipped window anchored at
/// column `k % width`, row `k / width` of the source grid.
pub open spec fn mode_filter_spec(g: Grid, w: int) -> Seq<Pixel> {
    Seq::new(
        (g.width as int * g.height as int) as nat,
        |k: int|
            dominant_of(
                window_seq(g, k % (g.width as int), k / (g.width as int), w),
            ),
    )
}

/// Runs the mode aggregator over every coordinate of the source grid
/// and collects the results in a destination grid of the same
/// dimensions. Every output pixel depends only on the read-only source
/// grid, so the iteration order cannot influence the result.
pub fn apply_mode_filter(img: &Grid, window: u32) -> (out: Grid)
    requires
        img.wf(),
        window >= 1,
    ensures
        out.wf(),
        out.width == img.width,
        out.height == img.height,
        out.pixels@ == mode_filter_spec(*img, window as int),
        forall|x: int, y: int|
            0 <= x < img.width && 0 <= y < img.height ==> is_dominant(
                window_seq(*img, x, y, window as int),
                #[trigger] out.pixel_at(x, y),
            ),
{
    let w = img.width;
    let h = img.height;
    let ghost wi = w as int;
    let mut pixels: Vec<Pixel> = Vec::new();
    let mut y: u32 = 0;
    while y < h
        invariant
            img.wf(),
            w == img.width,
            h == img.height,
            window >= 1,
            y <= h,
            wi == w as int,
            pixels@.len() == y as int * wi,
            forall|k: int|
                0 <= k < pixels@.len() ==> #[trigger] pixels@[k] == dominant_of(
                    window_seq(*img, k % wi, k / wi, window as int),
                ) && is_dominant(window_seq(*img, k % wi, k / wi, window as int), pixels@[k]),
        decreases h - y,
    {
        let mut x: u32 = 0;
        while x < w
            invariant
                img.wf(),
                w == img.width,
                h == img.height,
                window >= 1,
                y < h,
                x <= w,
                wi == w as int,
                pixels@.len() == y as int * wi + x as int,
                forall|k: int|
                    0 <= k < pixels@.len() ==> #[trigger] pixels@[k] == dominant_of(
                        window_seq(*img, k % wi, k / wi, window as int),
                    ) && is_dominant(window_seq(*img, k % wi, k / wi, window as int), pixels@[k]),
            decreases w - x,
        {
            let p = get_dominant_color_in_window(img, x, y, window);
            pixels.push(p);
            proof {
                assert(y as int * wi + x as int >= 0 && (y as int * wi + x as int) % wi
                    == x as int && (y as int * wi + x as int) / wi == y as int)
                    by (nonlinear_arith)
                    requires
                        0 <= (x as int) < wi,
                        0 <= (y as int),
                ;
            }
            x = x + 1;
        }
        proof {
            assert(y as int * wi + wi == (y as int + 1) * wi) by (nonlinear_arith);
        }
        y = y + 1;
    }
    proof {
        assert(h as int * wi == wi * h as int) by (nonlinear_arith);
        assert(pixels@ =~= mode_filter_spec(*img, window as int));
    }
    let out = Grid { width: w, height: h, pixels };
    proof {
        assert forall|x: int, y: int|
            0 <= x < img.width && 0 <= y < img.height implies is_dominant(
            window_seq(*img, x, y, window as int),
            #[trigger] out.pixel_at(x, y),
        ) by {
            crate::grid::lemma_row_major_index_in_range(x, y, wi, h as int);
            let k = y * wi + x;
            assert(k % wi == x && k / wi == y) by (nonlinear_arith)
                requires
                    0 <= x < wi,
                    0 <= y,
                    k == y * wi + x,
            ;
        }
    }
    out
}

/// With window 1 every clipped window holds exactly one pixel, the
/// anchor itself, so the filtered grid equals the source grid.
pub proof fn lemma_window_one_identity(g: Grid)
    requires
        g.wf(),
    ensures
        mode_filter_spec(g, 1) == g.pixels@,
{
    let wi = g.width as int;
    let hi = g.height as int;
    assert forall|k: int| 0 <= k < g.pixels@.len() implies mode_filter_spec(g, 1)[k]
        == g.pixels@[k] by {
        assert(wi >= 1) by (nonlinear_arith)
            requires
                0 <= k < wi * hi,
                wi >= 0,
                hi >= 0,
        ;
        let x = k % wi;
        let y = k / wi;
        assert(0 <= x < wi && 0 <= y < hi && y * wi + x == k) by (nonlinear_arith)
            requires
                0 <= k < wi * hi,
                wi >= 1,
                x == k % wi,
                y == k / wi,
        ;
        let s = window_seq(g, x, y, 1);
        assert(s.len() == 1);
        assert(s[0] == g.pixel_at(x, y));
        assert(count_of(s.drop_last(), s[0]) == 0);
        assert(count_of(s, s[0]) == 1);
        assert(is_dominant(s, s[0]));
        lemma_dominant_of_is(s, s[0]);
    }
    assert(mode_filter_spec(g, 1) =~= g.pixels@);
}

/// Every pixel of a window that lies entirely inside a uniform-color
/// region is that region's color, and then the mode aggregator returns
/// exactly that color.
pub proof fn lemma_uniform_window_mode(s: Seq<Pixel>, c: Pixel)
    requires
        s.len() > 0,
        forall|i: int| 0 <= i < s.len() ==> s[i] == c,
    ensures
        dominant_of(s) == c,
{
    assert(s[0] == c);
    assert(s.contains(c));
    assert(is_dominant(s, c));
    lemma_dominant_of_is(s, c);
}

/// If every sample of the clipped window anchored at `(x, y)` is the
/// color `c` — the window lies entirely inside a uniform-color region —
/// then the filtered grid holds exactly `c` at `(x, y)`.
pub proof fn lemma_uniform_window_filter(g: Grid, x: int, y: int, w: int, c: Pixel)
    requires
        g.wf(),
        0 <= x < g.width,
        0 <= y < g.height,
        w >= 1,
        forall|k: int|
            0 <= k < window_seq(g, x, y, w).len() ==> window_seq(g, x, y, w)[k] == c,
    ensures
        mode_filter_spec(g, w)[y * g.width as int + x] == c,
{
    let wi = g.width as int;
    let cw = crate::window::clipped_extent(w, x, wi);
    let ch = crate::window::clipped_extent(w, y, g.height as int);
    assert(cw * ch >= 1) by (nonlinear_arith)
        requires
            cw >= 1,
            ch >= 1,
    ;
    lemma_uniform_window_mode(window_seq(g, x, y, w), c);
    let k = y * wi + x;
    assert(k % wi == x && k / wi == y) by (nonlinear_arith)
        requires
            0 <= x < wi,
            0 <= y,
            k == y * wi + x,
    ;
    crate::grid::lemma_row_major_index_in_range(x, y, wi, g.height as int);
}

/// Determinism: the contract of `apply_mode_filter` fixes the output
/// as `mode_filter_spec` of the source grid and the window size alone,
/// so any two outputs computed from the same inputs are equal, however
/// the coordinates are scheduled.
pub proof fn lemma_filter_deterministic(g: Grid, w: int, out1: Seq<Pixel>, out2: Seq<Pixel>)
    requires
        out1 == mode_filter_spec(g, w),
        out2 == mode_filter_spec(g, w),
    ensures
        out1 == out2,
{
}

} // verus!
