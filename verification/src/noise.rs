//! The noise field: a greyscale color grid biased by vertical position.
//!
//! For a surface of `width x height` character cells the field has
//! `2 * height` pixel rows (two half-block pixels per cell) and `width`
//! columns. Brightness is kept in per-mille units, 0 standing for black
//! and 1000 for full white. Each row has a base brightness equal to the
//! squared depth factor `((total - y) / total)^2`, so rows fade toward
//! the bottom; each cell adds a uniform random perturbation of up to a
//! tenth of the full range either way, and the sum is clamped back into
//! `[0, 1000]` before it is turned into an 8-bit grey level.

use vstd::prelude::*;

use crate::color::Rgb;
use crate::rng::sample_range;
use vstd::arithmetic::div_mod::lemma_div_by_multiple;
use vstd::arithmetic::div_mod::lemma_div_is_ordered;

verus! {

/// Base brightness (per-mille) of pixel row `y` out of `total` rows:
/// the squared depth factor, rounded down.
pub open spec fn base_pm(y: int, total: int) -> int {
    ((total - y) * (total - y) * 1000) / (total * total)
}

/// Clamp a per-mille brightness into the valid range `[0, 1000]`.
pub open spec fn clamp_pm(v: int) -> int {
    if v < 0 {
        0
    } else if v > 1000 {
        1000
    } else {
        v
    }
}

/// The 8-bit grey level that a per-mille brightness maps to.
pub open spec fn level_of_pm(pm: int) -> int {
    pm * 255 / 1000
}

/// The greyscale color with the given level on every channel.
pub open spec fn grey_of(level: int) -> Rgb {
    Rgb { r: level as u8, g: level as u8, b: level as u8 }
}

/// A per-mille brightness that row `y` of `total` can produce: the base
/// brightness of the row plus some admissible perturbation, clamped.
pub open spec fn jittered(pm: int, y: int, total: int) -> bool {
    exists|j: int| -100 <= j < 100 && pm == #[trigger] clamp_pm(base_pm(y, total) + j)
}

/// What one generated cell satisfies: it is a greyscale color whose
/// brightness lies in `[0, 1000]` per-mille and follows the row formula.
pub open spec fn cell_ok(c: Rgb, y: int, total: int) -> bool {
    exists|pm: int|
        0 <= pm <= 1000 && #[trigger] jittered(pm, y, total) && c == grey_of(level_of_pm(pm))
}

/// What a whole generated field satisfies for a `width x height` surface:
/// exactly `2 * height` rows, each of exactly `width` cells, every cell
/// obeying the row formula.
pub open spec fn grid_ok(g: Seq<Vec<Rgb>>, width: int, height: int) -> bool {
    &&& g.len() == 2 * height
    &&& forall|y: int| 0 <= y < g.len() ==> (#[trigger] g[y])@.len() == width
    &&& forall|y: int, x: int|
        0 <= y < g.len() && 0 <= x < width ==> cell_ok(#[trigger] g[y]@[x], y, 2 * height)
}

/// The base brightness of a valid row is itself in `[0, 1000]`.
proof fn lemma_base_pm_bounds(y: int, total: int)
    requires
        0 <= y < total,
    ensures
        0 <= base_pm(y, total) <= 1000,
{
    let rem = total - y;
    assert(rem * rem * 1000 >= 0) by (nonlinear_arith)
        requires rem > 0;
    assert(rem * rem * 1000 <= (total * total) * 1000) by (nonlinear_arith)
        requires 0 < rem <= total;
    assert(total * total > 0) by (nonlinear_arith)
        requires total > 0;
    lemma_div_is_ordered(rem * rem * 1000, (total * total) * 1000, total * total);
    lemma_div_by_multiple(1000, total * total);
    assert(((total * total) * 1000) / (total * total) == (1000 * (total * total)) / (total * total))
        by (nonlinear_arith);
    assert(base_pm(y, total) >= 0) by {
        vstd::arithmetic::div_mod::lemma_div_pos_is_pos(rem * rem * 1000, total * total);
    }
}

/// Produce the noise field for a `width x height` surface.
///
/// The grid always has exactly `2 * height` rows of `width` greyscale
/// cells, and every cell's brightness is the row's base value plus a
/// bounded perturbation, clamped into `[0, 1000]` per-mille.
pub fn generate(width: u16, height: u16, rng: &mut rand::rngs::ThreadRng) -> (g: Vec<Vec<Rgb>>)
    ensures
        grid_ok(g@, width as int, height as int),
{
    let total: u32 = 2 * (height as u32);
    let mut g: Vec<Vec<Rgb>> = Vec::new();
    let mut y: u32 = 0;
    while y < total
        invariant
            total == 2 * (height as int),
            0 <= y <= total,
            g@.len() == y,
            forall|i: int| 0 <= i < y ==> (#[trigger] g@[i])@.len() == width as int,
            forall|i: int, x: int|
                0 <= i < y && 0 <= x < width as int ==> cell_ok(
                    #[trigger] g@[i]@[x],
                    i,
                    total as int,
                ),
        decreases total - y,
    {
        let rem: u64 = (total - y) as u64;
        proof {
            let t = total as int;
            assert(0 < t <= 131070);
            assert(0 < t * t <= 131070 * 131070) by (nonlinear_arith)
                requires 0 < t <= 131070;
            assert(rem as int <= t);
            assert((rem as int) * (rem as int) * 1000 <= 131070 * 131070 * 1000)
                by (nonlinear_arith)
                requires 0 <= rem as int <= 131070;
        }
        let den: u64 = (total as u64) * (total as u64);
        let base: u64 = rem * rem * 1000 / den;
        proof {
            lemma_base_pm_bounds(y as int, total as int);
            assert(rem * rem * 1000 == (total as int - y) * (total as int - y) * 1000);
            assert(base == base_pm(y as int, total as int));
        }
        let mut row: Vec<Rgb> = Vec::new();
        let mut x: u16 = 0;
        while x < width
            invariant
                row@.len() == x,
                0 <= x <= width,
                0 <= y < total,
                base == base_pm(y as int, total as int),
                0 <= base <= 1000,
                forall|i: int|
                    0 <= i < x ==> cell_ok(#[trigger] row@[i], y as int, total as int),
            decreases width - x,
        {
            let j: i32 = sample_range(rng, -100, 100);
            let v: i64 = base as i64 + j as i64;
            let pm: u64 = if v < 0 {
                0
            } else if v > 1000 {
                1000
            } else {
                v as u64
            };
            let level: u8 = (pm * 255 / 1000) as u8;
            let c = Rgb::grey(level);
            proof {
                assert(pm == clamp_pm(base_pm(y as int, total as int) + j));
                assert(jittered(pm as int, y as int, total as int));
                assert(level == level_of_pm(pm as int));
                assert(cell_ok(c, y as int, total as int));
            }
            row.push(c);
            x = x + 1;
        }
        g.push(row);
        y = y + 1;
    }
    g
}

} // verus!
