//! The copies that make up a shadow, pixel by pixel.
//!
//! The copies of the shadow module count places through the rows of the target, so
//! a copy that is wider than what is left of a row runs on into the next. Where a
//! copy stays within the rows, each pixel of the target has one source at most, and
//! the facts below say which.

use vstd::prelude::*;
use crate::pixmap::Rgba;
use crate::shadow::{
    corner_row, corner_rows, lemma_corner_row_len, lemma_corner_rows_len, lemma_side_line_len,
    lemma_side_lines_len, side_line, side_lines, spec_edges_draw, CornerBlit,
};

verus! {

/// The pixel at row `r` and column `c` of the target after a corner copy that stays
/// within the rows: inside the rectangle it is the pixel of the ring at the same
/// place, moved by the offset, where the ring has such a pixel; everywhere else it is
/// what it was.
pub open spec fn corner_pixel(
    dst: Seq<Rgba>,
    dst_width: int,
    src: Seq<Rgba>,
    src_width: int,
    b: CornerBlit,
    r: int,
    c: int,
) -> Rgba {
    let x = c - b.left;
    let y = r - b.top;
    let from = (b.src_y + y) * src_width + (b.src_x + x);
    if 0 <= x < b.width && 0 <= y < b.height && b.src_x + x >= 0 && b.src_y + y >= 0 && 0 <= from
        < src.len() {
        src[from]
    } else {
        dst[r * dst_width + c]
    }
}

/// The index in the side strip that is read for step `j` of a copy.
pub open spec fn strip_index(side: Seq<Rgba>, flipped: bool, j: int) -> int {
    if flipped {
        side.len() - 1 - j
    } else {
        j
    }
}

/// The pixel at row `r` and column `c` of the target after `m` copies of the side
/// strip that stay within the rows: inside the rectangle that the copies cover it is
/// the pixel of the strip for its column, or for its row where the strip is rotated;
/// everywhere else it is what it was.
pub open spec fn side_pixel(
    dst: Seq<Rgba>,
    dst_width: int,
    side: Seq<Rgba>,
    left: int,
    top: int,
    flipped: bool,
    rotated: bool,
    m: int,
    r: int,
    c: int,
) -> Rgba {
    if rotated {
        if left <= c < left + m && top <= r < top + side.len() {
            side[strip_index(side, flipped, r - top)]
        } else {
            dst[r * dst_width + c]
        }
    } else {
        if top <= r < top + m && left <= c < left + side.len() {
            side[strip_index(side, flipped, c - left)]
        } else {
            dst[r * dst_width + c]
        }
    }
}

/// Two places of a bitmap are the same only if row and column are.
pub proof fn lemma_place(width: int, r1: int, c1: int, r2: int, c2: int)
    requires
        0 <= c1 < width,
        0 <= c2 < width,
        r1 * width + c1 == r2 * width + c2,
    ensures
        r1 == r2,
        c1 == c2,
{
    if r1 < r2 {
        assert((r2 - r1) * width >= width) by (nonlinear_arith)
            requires
                r2 - r1 >= 1,
                width > 0,
        ;
        assert((r2 - r1) * width == r2 * width - r1 * width) by (nonlinear_arith);
    } else if r2 < r1 {
        assert((r1 - r2) * width >= width) by (nonlinear_arith)
            requires
                r1 - r2 >= 1,
                width > 0,
        ;
        assert((r1 - r2) * width == r1 * width - r2 * width) by (nonlinear_arith);
    }
}

/// One row of a corner copy, pixel by pixel: place `p` of the target holds the pixel
/// of the ring that was copied to it, if one was, and else what it held.
pub proof fn lemma_corner_row_at(
    dst: Seq<Rgba>,
    dst_width: int,
    src: Seq<Rgba>,
    src_width: int,
    b: CornerBlit,
    y: int,
    n: int,
    p: int,
)
    requires
        0 <= p < dst.len(),
    ensures
        corner_row(dst, dst_width, src, src_width, b, y, n)[p] == ({
            let x = p - ((b.top + y) * dst_width + b.left);
            let from = (b.src_y + y) * src_width + (b.src_x + x);
            if 0 <= x < n && b.src_x + x >= 0 && 0 <= from < src.len() {
                src[from]
            } else {
                dst[p]
            }
        }),
    decreases n,
{
    if n > 0 {
        lemma_corner_row_at(dst, dst_width, src, src_width, b, y, n - 1, p);
        lemma_corner_row_len(dst, dst_width, src, src_width, b, y, n - 1);
    }
}

/// A corner copy that stays within the rows of the target, pixel by pixel.
pub proof fn lemma_corner_rows_at(
    dst: Seq<Rgba>,
    dst_width: int,
    src: Seq<Rgba>,
    src_width: int,
    b: CornerBlit,
    m: int,
    r: int,
    c: int,
)
    requires
        0 <= b.left,
        0 <= b.width,
        b.left + b.width <= dst_width,
        0 <= c < dst_width,
        0 <= r * dst_width + c < dst.len(),
    ensures
        corner_rows(dst, dst_width, src, src_width, b, m)[r * dst_width + c] == corner_pixel(
            dst,
            dst_width,
            src,
            src_width,
            CornerBlit { height: if m < 0 { 0 } else { m }, ..b },
            r,
            c,
        ),
    decreases m,
{
    if m > 0 {
        let p = r * dst_width + c;
        let y = m - 1;
        let prev = corner_rows(dst, dst_width, src, src_width, b, m - 1);
        lemma_corner_rows_at(dst, dst_width, src, src_width, b, m - 1, r, c);
        lemma_corner_rows_len(dst, dst_width, src, src_width, b, m - 1);
        if b.src_y + y >= 0 {
            lemma_corner_row_at(prev, dst_width, src, src_width, b, y, b.width, p);
            let x = p - ((b.top + y) * dst_width + b.left);
            if 0 <= x < b.width {
                assert(r * dst_width + c == (b.top + y) * dst_width + (b.left + x));
                lemma_place(dst_width, r, c, b.top + y, b.left + x);
            }
            if r == b.top + y {
                assert(x == c - b.left);
            }
        }
    }
}

/// A whole corner copy that stays within the rows of the target leaves at each
/// place the pixel that `corner_pixel` names.
pub proof fn lemma_edges_draw_at(
    dst: Seq<Rgba>,
    dst_width: int,
    src: Seq<Rgba>,
    src_width: int,
    b: CornerBlit,
    r: int,
    c: int,
)
    requires
        0 <= b.left,
        0 <= b.width,
        0 <= b.height,
        b.left + b.width <= dst_width,
        0 <= c < dst_width,
        0 <= r * dst_width + c < dst.len(),
    ensures
        spec_edges_draw(dst, dst_width, src, src_width, b).len() == dst.len(),
        spec_edges_draw(dst, dst_width, src, src_width, b)[r * dst_width + c] == corner_pixel(
            dst,
            dst_width,
            src,
            src_width,
            b,
            r,
            c,
        ),
{
    lemma_corner_rows_len(dst, dst_width, src, src_width, b, b.height);
    lemma_corner_rows_at(dst, dst_width, src, src_width, b, b.height, r, c);
    assert(CornerBlit { height: b.height, ..b } == b);
}

/// One copy of the side strip, pixel by pixel: place `start + j * step` holds
/// pixel `j` of the strip as it is read.
pub proof fn lemma_side_line_hit(
    dst: Seq<Rgba>,
    side: Seq<Rgba>,
    start: int,
    step: int,
    flipped: bool,
    n: int,
    j: int,
)
    requires
        step > 0,
        0 <= j < n <= side.len(),
        0 <= start + j * step < dst.len(),
    ensures
        side_line(dst, side, start, step, flipped, n)[start + j * step] == side[strip_index(
            side,
            flipped,
            j,
        )],
    decreases n,
{
    lemma_side_line_len(dst, side, start, step, flipped, n - 1);
    if j < n - 1 {
        lemma_side_line_hit(dst, side, start, step, flipped, n - 1, j);
        assert((n - 1) * step > j * step) by (nonlinear_arith)
            requires
                n - 1 > j,
                step > 0,
        ;
    }
}

/// One copy of the side strip leaves alone every place that it does not reach.
pub proof fn lemma_side_line_miss(
    dst: Seq<Rgba>,
    side: Seq<Rgba>,
    start: int,
    step: int,
    flipped: bool,
    n: int,
    p: int,
)
    requires
        0 <= p < dst.len(),
        forall|j: int| 0 <= j < n ==> start + #[trigger] (j * step) != p,
    ensures
        side_line(dst, side, start, step, flipped, n)[p] == dst[p],
    decreases n,
{
    if n > 0 {
        lemma_side_line_len(dst, side, start, step, flipped, n - 1);
        lemma_side_line_miss(dst, side, start, step, flipped, n - 1, p);
        assert(start + (n - 1) * step != p);
    }
}

/// Stacked copies of the side strip that stay within the rows of the target leave
/// at each place the pixel that `side_pixel` names.
pub proof fn lemma_side_lines_at(
    dst: Seq<Rgba>,
    dst_width: int,
    side: Seq<Rgba>,
    left: int,
    top: int,
    flipped: bool,
    rotated: bool,
    m: int,
    r: int,
    c: int,
)
    requires
        0 <= left,
        0 <= m,
        rotated ==> left + m <= dst_width,
        !rotated ==> left + side.len() <= dst_width,
        0 <= c < dst_width,
        0 <= r * dst_width + c < dst.len(),
    ensures
        side_lines(dst, dst_width, side, left, top, flipped, rotated, m).len() == dst.len(),
        side_lines(dst, dst_width, side, left, top, flipped, rotated, m)[r * dst_width + c]
            == side_pixel(dst, dst_width, side, left, top, flipped, rotated, m, r, c),
    decreases m,
{
    lemma_side_lines_len(dst, dst_width, side, left, top, flipped, rotated, m);
    if m > 0 {
        let p = r * dst_width + c;
        let i = m - 1;
        let len = side.len() as int;
        let prev = side_lines(dst, dst_width, side, left, top, flipped, rotated, m - 1);
        lemma_side_lines_at(dst, dst_width, side, left, top, flipped, rotated, m - 1, r, c);
        if rotated {
            let start = top * dst_width + (left + i);
            if c == left + i && top <= r < top + len {
                let j = r - top;
                assert(start + j * dst_width == p) by (nonlinear_arith)
                    requires
                        start == top * dst_width + (left + i),
                        p == r * dst_width + c,
                        c == left + i,
                        j == r - top,
                ;
                lemma_side_line_hit(prev, side, start, dst_width, flipped, len, j);
            } else {
                assert forall|j: int| 0 <= j < len implies start + #[trigger] (j * dst_width)
                    != p by {
                    if start + j * dst_width == p {
                        assert((top + j) * dst_width + (left + i) == r * dst_width + c)
                            by (nonlinear_arith)
                            requires
                                start + j * dst_width == p,
                                start == top * dst_width + (left + i),
                                p == r * dst_width + c,
                        ;
                        lemma_place(dst_width, top + j, left + i, r, c);
                    }
                }
                lemma_side_line_miss(prev, side, start, dst_width, flipped, len, p);
            }
        } else {
            let start = (top + i) * dst_width + left;
            if r == top + i && left <= c < left + len {
                let j = c - left;
                assert(start + j * 1 == p);
                lemma_side_line_hit(prev, side, start, 1, flipped, len, j);
            } else {
                assert forall|j: int| 0 <= j < len implies start + #[trigger] (j * 1) != p by {
                    if start + j * 1 == p {
                        assert((top + i) * dst_width + (left + j) == r * dst_width + c);
                        lemma_place(dst_width, top + i, left + j, r, c);
                    }
                }
                lemma_side_line_miss(prev, side, start, 1, flipped, len, p);
            }
        }
    }
}

} // verus!
