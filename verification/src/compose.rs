//! The half-block compositor.
//!
//! A color grid holds two pixel rows per character row. Compositing maps
//! the grid onto character cells: the cell at `(x, y)` gets pixel row
//! `2y` as its foreground and pixel row `2y + 1` as its background, both
//! taken from a source column shifted by the frame counter, which
//! scrolls the field horizontally over time. A second compositor scrolls
//! vertically instead, rotating rows by the frame counter. The glyph is
//! always the same lower half block; only the color pair varies.

use vstd::prelude::*;

use crate::color::Rgb;
use vstd::arithmetic::div_mod::lemma_add_mod_noop;
use vstd::arithmetic::div_mod::lemma_mod_bound;
use vstd::arithmetic::div_mod::lemma_mod_sub_multiples_vanish;
use vstd::arithmetic::div_mod::lemma_mod_twice;
use vstd::arithmetic::div_mod::lemma_small_mod;

verus! {

/// The color pair painted into one character cell: the upper half-block
/// pixel as foreground, the lower one as background.
#[derive(Clone, Copy, PartialEq, Eq, Structural, Debug)]
pub struct CellPaint {
    pub fg: Rgb,
    pub bg: Rgb,
}

/// The source column shown at screen column `x` when `frame` frames have
/// elapsed: the field scrolls one column per frame, wrapping at `width`.
pub open spec fn src_col(x: int, frame: int, width: int) -> int {
    (x + frame) % width
}

/// The source row pair shown at screen row `y` in the vertically
/// scrolling variant: rows rotate by one per frame, wrapping at `height`.
pub open spec fn src_row(y: int, frame: int, height: int) -> int {
    (height - y - 1 + frame) % height
}

/// What the horizontally scrolling compositor produces: `height` rows of
/// `width` cells, the cell at `(x, y)` carrying pixel rows `2y` and
/// `2y + 1` of the source column for `x`.
pub open spec fn composed(
    colors: Seq<Vec<Rgb>>,
    frame: int,
    width: int,
    height: int,
    out: Seq<Vec<CellPaint>>,
) -> bool {
    &&& out.len() == height
    &&& forall|y: int| 0 <= y < height ==> (#[trigger] out[y])@.len() == width
    &&& forall|y: int, x: int|
        0 <= y < height && 0 <= x < width ==> {
            &&& (#[trigger] out[y]@[x]).fg == colors[2 * y]@[src_col(x, frame, width)]
            &&& out[y]@[x].bg == colors[2 * y + 1]@[src_col(x, frame, width)]
        }
}

/// What the vertically scrolling compositor produces: the cell at
/// `(x, y)` carries column `x` of the rotated source row pair.
pub open spec fn composed_rows(
    colors: Seq<Vec<Rgb>>,
    frame: int,
    width: int,
    height: int,
    out: Seq<Vec<CellPaint>>,
) -> bool {
    &&& out.len() == height
    &&& forall|y: int| 0 <= y < height ==> (#[trigger] out[y])@.len() == width
    &&& forall|y: int, x: int|
        0 <= y < height && 0 <= x < width ==> {
            &&& (#[trigger] out[y]@[x]).fg == colors[2 * src_row(y, frame, height)]@[x]
            &&& out[y]@[x].bg == colors[2 * src_row(y, frame, height) + 1]@[x]
        }
}

/// Reduces the wrapping source index to one addition and at most one
/// subtraction: with `o` the frame offset already reduced modulo the
/// width, the source column for `x` is `x + o`, less the width once if
/// that runs past the end.
proof fn lemma_offset_index(x: int, frame: int, width: int)
    requires
        0 <= x < width,
        0 <= frame,
    ensures
        0 <= frame % width < width,
        src_col(x, frame, width) == if x + frame % width < width {
            x + frame % width
        } else {
            x + frame % width - width
        },
{
    let o = frame % width;
    lemma_mod_bound(frame, width);
    lemma_add_mod_noop(x, frame, width);
    lemma_small_mod(x as nat, width as nat);
    lemma_mod_twice(frame, width);
    assert((x + o) % width == (x + frame) % width);
    if x + o < width {
        lemma_small_mod((x + o) as nat, width as nat);
    } else {
        lemma_mod_sub_multiples_vanish(x + o, width);
        lemma_small_mod((x + o - width) as nat, width as nat);
    }
}

/// Composite one frame of the horizontally scrolling field.
///
/// The grid must hold at least two pixel rows per character row, each at
/// least `width` wide; the result pairs the two half-block pixels of the
/// frame-shifted source column into every cell.
pub fn compose(colors: &Vec<Vec<Rgb>>, frame_count: u64, width: u16, height: u16) -> (out: Vec<
    Vec<CellPaint>,
>)
    requires
        colors@.len() >= 2 * (height as int),
        forall|i: int| 0 <= i < colors@.len() ==> (#[trigger] colors@[i])@.len() >= width as int,
    ensures
        composed(colors@, frame_count as int, width as int, height as int, out@),
{
    let offset: usize = if width == 0 {
        0
    } else {
        (frame_count % (width as u64)) as usize
    };
    let w: usize = width as usize;
    let mut out: Vec<Vec<CellPaint>> = Vec::new();
    let mut y: usize = 0;
    while y < height as usize
        invariant
            0 <= y <= height as int,
            out@.len() == y,
            width > 0 ==> offset == (frame_count as int) % (width as int),
            colors@.len() >= 2 * (height as int),
            w == width as int,
            forall|i: int| 0 <= i < colors@.len() ==> (#[trigger] colors@[i])@.len()
                >= width as int,
            forall|i: int| 0 <= i < y ==> (#[trigger] out@[i])@.len() == width as int,
            forall|i: int, x: int|
                0 <= i < y && 0 <= x < width as int ==> {
                    &&& (#[trigger] out@[i]@[x]).fg == colors@[2 * i]@[src_col(
                        x,
                        frame_count as int,
                        width as int,
                    )]
                    &&& out@[i]@[x].bg == colors@[2 * i + 1]@[src_col(
                        x,
                        frame_count as int,
                        width as int,
                    )]
                },
        decreases height as int - y,
    {
        let mut row: Vec<CellPaint> = Vec::new();
        let mut x: usize = 0;
        while x < w
            invariant
                0 <= x <= w,
                row@.len() == x,
                0 <= y < height as int,
                w == width as int,
                width > 0 ==> offset == (frame_count as int) % (width as int),
                colors@.len() >= 2 * (height as int),
                forall|i: int| 0 <= i < colors@.len() ==> (#[trigger] colors@[i])@.len()
                    >= width as int,
                forall|j: int|
                    0 <= j < x ==> {
                        &&& (#[trigger] row@[j]).fg == colors@[2 * (y as int)]@[src_col(
                            j,
                            frame_count as int,
                            width as int,
                        )]
                        &&& row@[j].bg == colors@[2 * (y as int) + 1]@[src_col(
                            j,
                            frame_count as int,
                            width as int,
                        )]
                    },
            decreases w - x,
        {
            proof {
                lemma_offset_index(x as int, frame_count as int, width as int);
            }
            let s: usize = x + offset;
            let src: usize = if s >= w {
                s - w
            } else {
                s
            };
            let fg = colors[2 * y][src];
            let bg = colors[2 * y + 1][src];
            row.push(CellPaint { fg, bg });
            x = x + 1;
        }
        out.push(row);
        y = y + 1;
    }
    out
}

/// Composite one frame of the vertically scrolling field.
///
/// The counterpart of [`compose`] that rotates rows instead of columns:
/// screen row `y` shows the pixel row pair of the rotated source row.
pub fn compose_rows(colors: &Vec<Vec<Rgb>>, frame_count: u64, width: u16, height: u16) -> (out:
    Vec<Vec<CellPaint>>)
    requires
        colors@.len() >= 2 * (height as int),
        forall|i: int| 0 <= i < colors@.len() ==> (#[trigger] colors@[i])@.len() >= width as int,
    ensures
        composed_rows(colors@, frame_count as int, width as int, height as int, out@),
{
    let offset: usize = if height == 0 {
        0
    } else {
        (frame_count % (height as u64)) as usize
    };
    let h: usize = height as usize;
    let mut out: Vec<Vec<CellPaint>> = Vec::new();
    let mut y: usize = 0;
    while y < h
        invariant
            0 <= y <= h,
            out@.len() == y,
            h == height as int,
            height > 0 ==> offset == (frame_count as int) % (height as int),
            colors@.len() >= 2 * (height as int),
            forall|i: int| 0 <= i < colors@.len() ==> (#[trigger] colors@[i])@.len()
                >= width as int,
            forall|i: int| 0 <= i < y ==> (#[trigger] out@[i])@.len() == width as int,
            forall|i: int, x: int|
                0 <= i < y && 0 <= x < width as int ==> {
                    &&& (#[trigger] out@[i]@[x]).fg == colors@[2 * src_row(
                        i,
                        frame_count as int,
                        height as int,
                    )]@[x]
                    &&& out@[i]@[x].bg == colors@[2 * src_row(i, frame_count as int, height as int)
                        + 1]@[x]
                },
        decreases h - y,
    {
        proof {
            lemma_offset_index(h - 1 - y, frame_count as int, height as int);
        }
        let s: usize = (h - 1 - y) + offset;
        let src: usize = if s >= h {
            s - h
        } else {
            s
        };
        let mut row: Vec<CellPaint> = Vec::new();
        let mut x: usize = 0;
        while x < width as usize
            invariant
                0 <= x <= width as int,
                row@.len() == x,
                0 <= y < h,
                h == height as int,
                src == src_row(y as int, frame_count as int, height as int),
                0 <= src < h,
                colors@.len() >= 2 * (height as int),
                forall|i: int| 0 <= i < colors@.len() ==> (#[trigger] colors@[i])@.len()
                    >= width as int,
                forall|j: int|
                    0 <= j < x ==> {
                        &&& (#[trigger] row@[j]).fg == colors@[2 * (src as int)]@[j]
                        &&& row@[j].bg == colors@[2 * (src as int) + 1]@[j]
                    },
            decreases width as int - x,
        {
            let fg = colors[2 * src][x];
            let bg = colors[2 * src + 1][x];
            row.push(CellPaint { fg, bg });
            x = x + 1;
        }
        out.push(row);
        y = y + 1;
    }
    out
}

/// A field of one uniform color composites to cells whose foreground and
/// background are both that color, whatever the frame counter: the
/// animation shifts indices, never values.
pub proof fn lemma_uniform_grid(
    colors: Seq<Vec<Rgb>>,
    c: Rgb,
    frame: int,
    width: int,
    height: int,
    out: Seq<Vec<CellPaint>>,
)
    requires
        frame >= 0,
        colors.len() >= 2 * height,
        forall|i: int| 0 <= i < colors.len() ==> (#[trigger] colors[i])@.len() >= width,
        forall|i: int, x: int|
            0 <= i < colors.len() && 0 <= x < colors[i]@.len() ==> #[trigger] colors[i]@[x] == c,
        composed(colors, frame, width, height, out),
    ensures
        forall|y: int, x: int|
            0 <= y < height && 0 <= x < width ==> (#[trigger] out[y]@[x]).fg == c && out[y]@[x].bg
                == c,
{
    assert forall|y: int, x: int|
        0 <= y < height && 0 <= x < width implies (#[trigger] out[y]@[x]).fg == c && out[y]@[x].bg
        == c by {
        lemma_mod_bound(x + frame, width);
        assert(0 <= src_col(x, frame, width) < width);
        assert(colors[2 * y]@[src_col(x, frame, width)] == c);
        assert(colors[2 * y + 1]@[src_col(x, frame, width)] == c);
    }
}

/// One frame advance scrolls the field by exactly one cell: every cell
/// of the next frame shows what its right-hand neighbour (cyclically)
/// showed on the previous frame, so a distinguished column moves one
/// screen position per frame, modulo the width.
pub proof fn lemma_scroll_step(
    colors: Seq<Vec<Rgb>>,
    frame: int,
    width: int,
    height: int,
    out1: Seq<Vec<CellPaint>>,
    out2: Seq<Vec<CellPaint>>,
)
    requires
        frame >= 0,
        width > 0,
        colors.len() >= 2 * height,
        forall|i: int| 0 <= i < colors.len() ==> (#[trigger] colors[i])@.len() >= width,
        composed(colors, frame, width, height, out1),
        composed(colors, frame + 1, width, height, out2),
    ensures
        forall|y: int, x: int|
            0 <= y < height && 0 <= x < width ==> #[trigger] out2[y]@[x] == out1[y]@[(x + 1)
                % width],
{
    assert forall|y: int, x: int|
        0 <= y < height && 0 <= x < width implies #[trigger] out2[y]@[x] == out1[y]@[(x + 1)
        % width] by {
        let xr = (x + 1) % width;
        lemma_mod_bound(x + 1, width);
        assert(0 <= xr < width);
        lemma_add_mod_noop(x + 1, frame, width);
        lemma_add_mod_noop(xr, frame, width);
        lemma_mod_twice(x + 1, width);
        assert(src_col(xr, frame, width) == src_col(x, frame + 1, width));
        assert(out2[y]@[x].fg == out1[y]@[xr].fg);
        assert(out2[y]@[x].bg == out1[y]@[xr].bg);
    }
}

} // verus!
