use vstd::prelude::*;

use crate::grid::Grid;
use crate::pixel::Pixel;
use crate::window::window_seq;
use crate::window::window_pixels;

verus! {

/// How many entries of `s` hold exactly the color `c`.
pub open spec fn count_of(s: Seq<Pixel>, c: Pixel) -> int
    decreases s.len(),
{
    if s.len() == 0 {
        0
    } else {
        count_of(s.drop_last(), c) + if s.last() == c {
            1int
        } else {
            0int
        }
    }
}

/// The first index of `s` that holds the color `c`; meaningful only
/// when `s` contains `c`.
pub open spec fn first_occ(s: Seq<Pixel>, c: Pixel) -> int
    decreases s.len(),
{
    if s.len() == 0 {
        0
    } else if s[0] == c {
        0
    } else {
        1 + first_occ(s.subrange(1, s.len() as int), c)
    }
}

/// The dominance rule: `r` occurs in `s`, no color of `s` occurs more
/// often than `r`, and among the colors that occur exactly as often,
/// `r` is the one seen first. The last clause is the fixed tie-break:
/// ties go to the earliest first occurrence in scan order, so that the
/// result is reproducible.
pub open spec fn is_dominant(s: Seq<Pixel>, r: Pixel) -> bool {
    &&& s.contains(r)
    &&& forall|j: int| 0 <= j < s.len() ==> #[trigger] count_of(s, s[j]) <= count_of(s, r)
    &&& forall|j: int|
        0 <= j < s.len() && #[trigger] count_of(s, s[j]) == count_of(s, r) ==> first_occ(s, r)
            <= first_occ(s, s[j])
}

/// The dominant color of `s`, or opaque black for an empty sequence.
/// `lemma_dominant_unique` shows that at most one color meets the
/// dominance rule, so this picks the one dominant color whenever `s`
/// is non-empty.
pub open spec fn dominant_of(s: Seq<Pixel>) -> Pixel {
    if exists|p: Pixel| is_dominant(s, p) {
        choose|p: Pixel| is_dominant(s, p)
    } else {
        Pixel::opaque_black()
    }
}

/// The first occurrence of a contained color is a real index: it holds
/// that color, and no earlier index does.
pub proof fn lemma_first_occ_properties(s: Seq<Pixel>, c: Pixel)
    requires
        s.contains(c),
    ensures
        0 <= first_occ(s, c) < s.len(),
        s[first_occ(s, c)] == c,
        forall|j: int| 0 <= j < first_occ(s, c) ==> s[j] != c,
    decreases s.len(),
{
    if s[0] == c {
    } else {
        let t = s.subrange(1, s.len() as int);
        let i = choose|i: int| 0 <= i < s.len() && s[i] == c;
        assert(t[i - 1] == c);
        assert(t.contains(c));
        lemma_first_occ_properties(t, c);
        assert forall|j: int| 0 <= j < first_occ(s, c) implies s[j] != c by {
            if j > 0 {
                assert(t[j - 1] != c);
            }
        }
    }
}

/// At most one color of `s` meets the dominance rule: the maximal count
/// together with the earliest-first-occurrence tie-break pin it down.
pub proof fn lemma_dominant_unique(s: Seq<Pixel>, r1: Pixel, r2: Pixel)
    requires
        is_dominant(s, r1),
        is_dominant(s, r2),
    ensures
        r1 == r2,
{
    let i1 = choose|i: int| 0 <= i < s.len() && s[i] == r1;
    let i2 = choose|i: int| 0 <= i < s.len() && s[i] == r2;
    assert(count_of(s, s[i1]) <= count_of(s, r2));
    assert(count_of(s, s[i2]) <= count_of(s, r1));
    assert(first_occ(s, r1) <= first_occ(s, s[i2]));
    assert(first_occ(s, r2) <= first_occ(s, s[i1]));
    lemma_first_occ_properties(s, r1);
    lemma_first_occ_properties(s, r2);
}

/// A color that meets the dominance rule is the dominant color.
pub proof fn lemma_dominant_of_is(s: Seq<Pixel>, r: Pixel)
    requires
        is_dominant(s, r),
    ensures
        dominant_of(s) == r,
{
    let p = choose|p: Pixel| is_dominant(s, p);
    lemma_dominant_unique(s, p, r);
}

/// Counts the entries of `s` that hold exactly the color `c`.
fn count_eq(s: &Vec<Pixel>, c: Pixel) -> (n: usize)
    ensures
        n as int == count_of(s@, c),
{
    let mut n: usize = 0;
    let mut i: usize = 0;
    while i < s.len()
        invariant
            i <= s@.len(),
            n <= i,
            n as int == count_of(s@.subrange(0, i as int), c),
        decreases s@.len() - i,
    {
        proof {
            assert(s@.subrange(0, i as int + 1).drop_last() =~= s@.subrange(0, i as int));
            assert(s@.subrange(0, i as int + 1).last() == s@[i as int]);
        }
        if s[i] == c {
            n = n + 1;
        }
        i = i + 1;
    }
    proof {
        assert(s@.subrange(0, s@.len() as int) =~= s@);
    }
    n
}

/// The most frequent color of `s`, ties broken toward the color whose
/// first occurrence comes earliest; opaque black when `s` is empty.
pub fn mode_color(s: &Vec<Pixel>) -> (r: Pixel)
    ensures
        s@.len() == 0 ==> r == Pixel::opaque_black(),
        s@.len() > 0 ==> is_dominant(s@, r) && r == dominant_of(s@),
{
    if s.len() == 0 {
        return Pixel::new(0, 0, 0, 255);
    }
    let first = s[0];
    let mut best_i: usize = 0;
    let mut best_count: usize = count_eq(s, first);
    let mut i: usize = 1;
    while i < s.len()
        invariant
            1 <= i <= s@.len(),
            best_i < i,
            best_count as int == count_of(s@, s@[best_i as int]),
            forall|j: int| 0 <= j < i ==> #[trigger] count_of(s@, s@[j]) <= best_count as int,
            forall|j: int|
                0 <= j < i && #[trigger] count_of(s@, s@[j]) == best_count as int ==> best_i as int
                    <= j,
        decreases s@.len() - i,
    {
        let ci = count_eq(s, s[i]);
        if ci > best_count {
            best_i = i;
            best_count = ci;
        }
        i = i + 1;
    }
    let r = s[best_i];
    proof {
        assert(s@[best_i as int] == r);
        assert(s@.contains(r));
        lemma_first_occ_properties(s@, r);
        let fr = first_occ(s@, r);
        assert(count_of(s@, s@[fr]) == best_count as int);
        assert(best_i as int <= fr);
        assert(fr <= best_i as int);
        assert forall|j: int|
            0 <= j < s@.len() && #[trigger] count_of(s@, s@[j]) == count_of(s@, r) implies
            first_occ(s@, r) <= first_occ(s@, s@[j]) by {
            assert(s@.contains(s@[j]));
            lemma_first_occ_properties(s@, s@[j]);
            let fj = first_occ(s@, s@[j]);
            assert(count_of(s@, s@[fj]) == best_count as int);
            assert(best_i as int <= fj);
        }
        assert(is_dominant(s@, r));
        lemma_dominant_of_is(s@, r);
    }
    r
}

/// The dominant color of the clipped window anchored at `(x, y)`:
/// the color that appears most frequently among the in-bounds window
/// pixels, ties broken toward the earliest row-major occurrence.
///
/// The preconditions keep the clipped window non-empty: a window size
/// of zero is rejected as a configuration error before dispatch, and
/// the anchor is a grid coordinate. The defined fallback for an empty
/// sample set — opaque black — is stated on `mode_color`, which this
/// function feeds.
pub fn get_dominant_color_in_window(img: &Grid, x: u32, y: u32, window: u32) -> (r: Pixel)
    requires
        img.wf(),
        x < img.width,
        y < img.height,
        window >= 1,
    ensures
        is_dominant(window_seq(*img, x as int, y as int, window as int), r),
        r == dominant_of(window_seq(*img, x as int, y as int, window as int)),
{
    let s = window_pixels(img, x, y, window);
    mode_color(&s)
}

} // verus!
