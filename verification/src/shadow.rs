//! The drop shadow around a window.
//!
//! Two source bitmaps are kept for each scale and activation: a strip of
//! one row that fades outwards, for the straight sides, and a square ring that
//! fades outwards from a circle, for the corners. The shadow of a panel is put
//! together from copies of them.

use vstd::prelude::*;
use std::collections::BTreeMap;
use tiny_skia::Pixmap;
use crate::parts::PartId;
use crate::pixmap::{
    copy_pixel, data_len, height_of, is_exact, lemma_pixel_count, new_pixmap, pixmap_data,
    pixmap_height, pixmap_pixels, pixmap_wf, pixmap_width, put_pixel, spec_can_allocate,
    width_of, Rgba,
};
use crate::shadow_pixels::{corner_pixel, lemma_edges_draw_at, lemma_side_lines_at, side_pixel};
use crate::theme::{spec_visible_border_size, CORNER_RADIUS};

verus! {

/// Depth of the shadow outside the visible border, in logical points.
pub const SHADOW_SIZE: u32 = 43;

/// `dst` after the pixel at `di` took the value of `src` at `si`. Where one of the two
/// places does not exist, nothing is copied.
pub open spec fn put(dst: Seq<Rgba>, di: int, src: Seq<Rgba>, si: int) -> Seq<Rgba> {
    if 0 <= di < dst.len() && 0 <= si < src.len() {
        dst.update(di, src[si])
    } else {
        dst
    }
}

/// A copy of a rectangle of the corner ring: `width` by `height` pixels go to
/// (`left`, `top`) of the target, taken from (`src_x`, `src_y`) of the ring.
pub struct CornerBlit {
    pub src_x: int,
    pub src_y: int,
    pub left: int,
    pub top: int,
    pub width: int,
    pub height: int,
}

/// Row `y` of a corner copy after its first `n` pixels. A pixel left of the ring is
/// skipped. Places are counted through the rows: one that lies past the end of a
/// row is the start of the next.
pub open spec fn corner_row(
    dst: Seq<Rgba>,
    dst_width: int,
    src: Seq<Rgba>,
    src_width: int,
    b: CornerBlit,
    y: int,
    n: int,
) -> Seq<Rgba>
    decreases n,
{
    if n <= 0 {
        dst
    } else {
        let prev = corner_row(dst, dst_width, src, src_width, b, y, n - 1);
        let x = n - 1;
        if b.src_x + x >= 0 {
            put(
                prev,
                (b.top + y) * dst_width + (b.left + x),
                src,
                (b.src_y + y) * src_width + (b.src_x + x),
            )
        } else {
            prev
        }
    }
}

/// A corner copy after its first `m` rows, from the top. A row above the ring is skipped.
pub open spec fn corner_rows(
    dst: Seq<Rgba>,
    dst_width: int,
    src: Seq<Rgba>,
    src_width: int,
    b: CornerBlit,
    m: int,
) -> Seq<Rgba>
    decreases m,
{
    if m <= 0 {
        dst
    } else {
        let prev = corner_rows(dst, dst_width, src, src_width, b, m - 1);
        let y = m - 1;
        if b.src_y + y >= 0 {
            corner_row(prev, dst_width, src, src_width, b, y, b.width)
        } else {
            prev
        }
    }
}

/// The target after a whole corner copy.
pub open spec fn spec_edges_draw(
    dst: Seq<Rgba>,
    dst_width: int,
    src: Seq<Rgba>,
    src_width: int,
    b: CornerBlit,
) -> Seq<Rgba> {
    corner_rows(dst, dst_width, src, src_width, b, b.height)
}

/// One copy of the side strip after its first `n` pixels: pixel `j` of the strip, or
/// of the strip read backwards where it is flipped, goes to place `start + j * step`.
pub open spec fn side_line(
    dst: Seq<Rgba>,
    side: Seq<Rgba>,
    start: int,
    step: int,
    flipped: bool,
    n: int,
) -> Seq<Rgba>
    decreases n,
{
    if n <= 0 {
        dst
    } else {
        let prev = side_line(dst, side, start, step, flipped, n - 1);
        let j = n - 1;
        put(
            prev,
            start + j * step,
            side,
            if flipped {
                side.len() - 1 - j
            } else {
                j
            },
        )
    }
}

/// The target after the first `m` copies of the side strip. Copy `i` lies along row
/// `top + i` from column `left` on; where the strip is rotated, down column
/// `left + i` from row `top` on.
pub open spec fn side_lines(
    dst: Seq<Rgba>,
    dst_width: int,
    side: Seq<Rgba>,
    left: int,
    top: int,
    flipped: bool,
    rotated: bool,
    m: int,
) -> Seq<Rgba>
    decreases m,
{
    if m <= 0 {
        dst
    } else {
        let prev = side_lines(dst, dst_width, side, left, top, flipped, rotated, m - 1);
        let i = m - 1;
        if rotated {
            side_line(prev, side, top * dst_width + (left + i), dst_width, flipped, side.len() as int)
        } else {
            side_line(prev, side, (top + i) * dst_width + left, 1, flipped, side.len() as int)
        }
    }
}

/// `a - b`, but never below zero.
pub open spec fn minus(a: int, b: int) -> int {
    if a >= b {
        a - b
    } else {
        0
    }
}

/// The shadow of panel `part`, drawn over `dst`, a bitmap of `dst_width` by
/// `dst_height` pixels.
///
/// The top and bottom edges get the outer halves of two corners with the side strip
/// stacked between them; the left and right edges the rest of the corners and the
/// strip between; the header the inside of the two top corners. At scale zero nothing
/// is drawn.
pub open spec fn spec_part_shadow(
    dst: Seq<Rgba>,
    dst_width: int,
    dst_height: int,
    side: Seq<Rgba>,
    ring: Seq<Rgba>,
    ring_width: int,
    scale: int,
    part: PartId,
    hide_border: bool,
) -> Seq<Rgba> {
    let shadow = SHADOW_SIZE * scale;
    let visible = spec_visible_border_size(hide_border) * scale;
    let radius = CORNER_RADIUS * scale;
    let half = ring_width / 2;
    if radius <= visible {
        dst
    } else {
        match part {
            PartId::Top => {
                let side_width = minus(minus(dst_width, half), half);
                let a = spec_edges_draw(
                    dst,
                    dst_width,
                    ring,
                    ring_width,
                    CornerBlit {
                        src_x: 0,
                        src_y: -visible,
                        left: 0,
                        top: 0,
                        width: half,
                        height: dst_height,
                    },
                );
                let b = side_lines(a, dst_width, side, half, visible, true, true, side_width);
                spec_edges_draw(
                    b,
                    dst_width,
                    ring,
                    ring_width,
                    CornerBlit {
                        src_x: half,
                        src_y: -visible,
                        left: half + side_width,
                        top: 0,
                        width: half,
                        height: dst_height,
                    },
                )
            },
            PartId::Left => {
                let top_height = radius;
                let bottom_height = radius - visible;
                let side_height = minus(minus(dst_height, top_height), bottom_height);
                let a = spec_edges_draw(
                    dst,
                    dst_width,
                    ring,
                    ring_width,
                    CornerBlit {
                        src_x: 0,
                        src_y: shadow,
                        left: 0,
                        top: 0,
                        width: minus(dst_width, visible),
                        height: top_height,
                    },
                );
                let b = side_lines(a, dst_width, side, 0, top_height, true, false, side_height);
                spec_edges_draw(
                    b,
                    dst_width,
                    ring,
                    ring_width,
                    CornerBlit {
                        src_x: 0,
                        src_y: half,
                        left: 0,
                        top: top_height + side_height,
                        width: minus(dst_width, visible),
                        height: bottom_height,
                    },
                )
            },
            PartId::Right => {
                let top_height = radius;
                let bottom_height = radius - visible;
                let side_height = minus(minus(dst_height, top_height), bottom_height);
                let a = spec_edges_draw(
                    dst,
                    dst_width,
                    ring,
                    ring_width,
                    CornerBlit {
                        src_x: half + radius,
                        src_y: shadow,
                        left: visible,
                        top: 0,
                        width: minus(dst_width, visible),
                        height: top_height,
                    },
                );
                let b = side_lines(
                    a,
                    dst_width,
                    side,
                    visible,
                    top_height,
                    false,
                    false,
                    side_height,
                );
                spec_edges_draw(
                    b,
                    dst_width,
                    ring,
                    ring_width,
                    CornerBlit {
                        src_x: half + radius,
                        src_y: half,
                        left: visible,
                        top: top_height + side_height,
                        width: minus(dst_width, visible),
                        height: bottom_height,
                    },
                )
            },
            PartId::Bottom => {
                let side_width = minus(minus(dst_width, half), half);
                let a = spec_edges_draw(
                    dst,
                    dst_width,
                    ring,
                    ring_width,
                    CornerBlit {
                        src_x: 0,
                        src_y: half + (radius - visible),
                        left: 0,
                        top: 0,
                        width: half,
                        height: dst_height,
                    },
                );
                let b = side_lines(a, dst_width, side, half, visible, false, true, side_width);
                spec_edges_draw(
                    b,
                    dst_width,
                    ring,
                    ring_width,
                    CornerBlit {
                        src_x: half,
                        src_y: half + (radius - visible),
                        left: half + side_width,
                        top: 0,
                        width: half,
                        height: dst_height,
                    },
                )
            },
            PartId::Header => {
                let a = spec_edges_draw(
                    dst,
                    dst_width,
                    ring,
                    ring_width,
                    CornerBlit {
                        src_x: shadow,
                        src_y: shadow,
                        left: 0,
                        top: 0,
                        width: radius,
                        height: radius,
                    },
                );
                spec_edges_draw(
                    a,
                    dst_width,
                    ring,
                    ring_width,
                    CornerBlit {
                        src_x: half,
                        src_y: shadow,
                        left: minus(dst_width, radius),
                        top: 0,
                        width: radius,
                        height: radius,
                    },
                )
            },
        }
    }
}

/// A row of a corner copy keeps the number of pixels.
pub proof fn lemma_corner_row_len(
    dst: Seq<Rgba>,
    dst_width: int,
    src: Seq<Rgba>,
    src_width: int,
    b: CornerBlit,
    y: int,
    n: int,
)
    ensures
        corner_row(dst, dst_width, src, src_width, b, y, n).len() == dst.len(),
    decreases n,
{
    if n > 0 {
        lemma_corner_row_len(dst, dst_width, src, src_width, b, y, n - 1);
    }
}

/// A corner copy keeps the number of pixels.
pub proof fn lemma_corner_rows_len(
    dst: Seq<Rgba>,
    dst_width: int,
    src: Seq<Rgba>,
    src_width: int,
    b: CornerBlit,
    m: int,
)
    ensures
        corner_rows(dst, dst_width, src, src_width, b, m).len() == dst.len(),
    decreases m,
{
    if m > 0 {
        lemma_corner_rows_len(dst, dst_width, src, src_width, b, m - 1);
        let prev = corner_rows(dst, dst_width, src, src_width, b, m - 1);
        lemma_corner_row_len(prev, dst_width, src, src_width, b, m - 1, b.width);
    }
}

/// A copy of the side strip keeps the number of pixels.
pub proof fn lemma_side_line_len(
    dst: Seq<Rgba>,
    side: Seq<Rgba>,
    start: int,
    step: int,
    flipped: bool,
    n: int,
)
    ensures
        side_line(dst, side, start, step, flipped, n).len() == dst.len(),
    decreases n,
{
    if n > 0 {
        lemma_side_line_len(dst, side, start, step, flipped, n - 1);
    }
}

/// Stacked copies of the side strip keep the number of pixels.
pub proof fn lemma_side_lines_len(
    dst: Seq<Rgba>,
    dst_width: int,
    side: Seq<Rgba>,
    left: int,
    top: int,
    flipped: bool,
    rotated: bool,
    m: int,
)
    ensures
        side_lines(dst, dst_width, side, left, top, flipped, rotated, m).len() == dst.len(),
    decreases m,
{
    if m > 0 {
        lemma_side_lines_len(dst, dst_width, side, left, top, flipped, rotated, m - 1);
        let prev = side_lines(dst, dst_width, side, left, top, flipped, rotated, m - 1);
        let i = m - 1;
        if rotated {
            lemma_side_line_len(
                prev,
                side,
                top * dst_width + (left + i),
                dst_width,
                flipped,
                side.len() as int,
            );
        } else {
            lemma_side_line_len(
                prev,
                side,
                (top + i) * dst_width + left,
                1,
                flipped,
                side.len() as int,
            );
        }
    }
}

/// A row and a column of a bitmap are a place in it.
proof fn lemma_in_bitmap(width: int, height: int, r: int, c: int)
    requires
        0 <= r < height,
        0 <= c < width,
    ensures
        0 <= r * width + c < width * height,
{
    assert(0 <= r * width && r * width + width <= width * height) by (nonlinear_arith)
        requires
            0 <= r,
            r + 1 <= height,
            0 < width,
    ;
}

/// The place of (`row`, `col`) in a bitmap of `width` by `height` pixels, counted
/// through the rows, where the bitmap has such a place.
fn locate(width: u32, height: u32, row: u128, col: u128) -> (at: Option<usize>)
    requires
        width * height <= usize::MAX,
        row <= 0x1_0000_0000_0000_0000_0000,
        col <= 0x1_0000_0000_0000_0000_0000,
    ensures
        at == if row * width + col < width * height {
            Some((row * width + col) as usize)
        } else {
            None::<usize>
        },
{
    if row >= height as u128 {
        assert(row * width >= width * height) by (nonlinear_arith)
            requires
                row >= height,
                width >= 0,
        ;
        None
    } else {
        assert(row * width <= 0xffff_ffff * 0xffff_ffff) by (nonlinear_arith)
            requires
                0 <= row <= 0xffff_ffff,
                0 <= width <= 0xffff_ffff,
        ;
        assert(width * height <= 0xffff_ffff * 0xffff_ffff) by (nonlinear_arith)
            requires
                0 <= height <= 0xffff_ffff,
                0 <= width <= 0xffff_ffff,
        ;
        let at: u128 = row * (width as u128) + col;
        let len: u128 = (width as u128) * (height as u128);
        if at < len {
            Some(at as usize)
        } else {
            None
        }
    }
}

/// The two source bitmaps of a shadow.
pub struct RenderedShadow {
    side: Pixmap,
    edges: Pixmap,
}

impl RenderedShadow {
    /// Both sources hold exactly their pixels.
    #[verifier::type_invariant]
    spec fn exact(self) -> bool {
        pixmap_wf(self.side) && pixmap_wf(self.edges)
    }

    /// The side strip.
    pub closed spec fn spec_side(self) -> Pixmap {
        self.side
    }

    /// The corner ring.
    pub closed spec fn spec_edges(self) -> Pixmap {
        self.edges
    }

    /// The sources have the sizes of scale `scale`: the strip is one row of
    /// `SHADOW_SIZE * scale` pixels, the ring a square of twice
    /// `(CORNER_RADIUS + SHADOW_SIZE) * scale`.
    pub open spec fn wf(self, scale: u32) -> bool {
        &&& pixmap_wf(self.spec_side())
        &&& pixmap_wf(self.spec_edges())
        &&& pixmap_width(self.spec_side()) == SHADOW_SIZE * scale
        &&& pixmap_height(self.spec_side()) == 1
        &&& pixmap_width(self.spec_edges()) == 2 * (CORNER_RADIUS + SHADOW_SIZE) * scale
        &&& pixmap_height(self.spec_edges()) == 2 * (CORNER_RADIUS + SHADOW_SIZE) * scale
    }

    /// The scales and tables from which the sources can be made.
    pub open spec fn spec_can_make(scale: u32, side_alpha: Seq<u8>, edges_alpha: Seq<u8>) -> bool {
        let side_len = SHADOW_SIZE * scale;
        let ring = 2 * (CORNER_RADIUS + SHADOW_SIZE) * scale;
        &&& ring <= u32::MAX
        &&& spec_can_allocate(side_len as u32, 1)
        &&& spec_can_allocate(ring as u32, ring as u32)
        &&& side_alpha.len() == side_len
        &&& edges_alpha.len() == ring * ring
    }

    /// Makes the two sources from tables of opacity: one entry for each pixel of the
    /// strip, from the window outwards, and one for each pixel of the ring, row after
    /// row. Every pixel is black of the opacity given for it.
    pub fn new(scale: u32, side_alpha: &Vec<u8>, edges_alpha: &Vec<u8>) -> (made: Option<
        RenderedShadow,
    >)
        ensures
            made is Some <==> Self::spec_can_make(scale, side_alpha@, edges_alpha@),
            made matches Some(s) ==> {
                &&& s.wf(scale)
                &&& forall|i: int|
                    0 <= i < side_alpha@.len() ==> #[trigger] pixmap_pixels(s.spec_side())[i]
                        == Rgba::shade(side_alpha@[i])
                &&& forall|i: int|
                    0 <= i < edges_alpha@.len() ==> #[trigger] pixmap_pixels(s.spec_edges())[i]
                        == Rgba::shade(edges_alpha@[i])
            },
    {
        let per_scale: u64 = 2 * (CORNER_RADIUS as u64 + SHADOW_SIZE as u64);
        assert(per_scale == 106 && SHADOW_SIZE == 43);
        let side_len: u64 = (SHADOW_SIZE as u64) * (scale as u64);
        let ring: u64 = per_scale * (scale as u64);
        if ring > u32::MAX as u64 {
            return None;
        }
        let mut side = match new_pixmap(side_len as u32, 1) {
            Some(p) => p,
            None => {
                return None;
            },
        };
        let mut edges = match new_pixmap(ring as u32, ring as u32) {
            Some(p) => p,
            None => {
                return None;
            },
        };
        proof {
            lemma_pixel_count(side);
            lemma_pixel_count(edges);
        }
        let side_count = data_len(&side) / 4;
        let edges_count = data_len(&edges) / 4;
        assert(side_count == side_len);
        assert(edges_count == ring * ring);
        if side_alpha.len() != side_count || edges_alpha.len() != edges_count {
            return None;
        }
        let mut i: usize = 0;
        while i < side_count
            invariant
                i <= side_count,
                side_count == side_alpha@.len(),
                side_count == pixmap_pixels(side).len(),
                pixmap_wf(side),
                pixmap_data(side).len() % 4 == 0,
                pixmap_width(side) == side_len,
                pixmap_height(side) == 1,
                forall|k: int|
                    0 <= k < i ==> #[trigger] pixmap_pixels(side)[k] == Rgba::shade(
                        side_alpha@[k],
                    ),
            decreases side_count - i,
        {
            put_pixel(&mut side, i, Rgba { r: 0, g: 0, b: 0, a: side_alpha[i] });
            i += 1;
        }
        let mut i: usize = 0;
        while i < edges_count
            invariant
                i <= edges_count,
                edges_count == edges_alpha@.len(),
                edges_count == pixmap_pixels(edges).len(),
                pixmap_wf(edges),
                pixmap_data(edges).len() % 4 == 0,
                pixmap_width(edges) == ring,
                pixmap_height(edges) == ring,
                forall|k: int|
                    0 <= k < i ==> #[trigger] pixmap_pixels(edges)[k] == Rgba::shade(
                        edges_alpha@[k],
                    ),
            decreases edges_count - i,
        {
            put_pixel(&mut edges, i, Rgba { r: 0, g: 0, b: 0, a: edges_alpha[i] });
            i += 1;
        }
        Some(RenderedShadow { side, edges })
    }

    /// The side strip.
    pub fn side(&self) -> (p: &Pixmap)
        ensures
            *p == self.spec_side(),
    {
        &self.side
    }

    /// The corner ring.
    pub fn edges(&self) -> (p: &Pixmap)
        ensures
            *p == self.spec_edges(),
    {
        &self.edges
    }

    /// Stacks `stack` copies of the side strip into `dst`, starting at
    /// (`dst_left`, `dst_top`): one below the other, or, where the strip is
    /// `rotated`, upright and one beside the other. A `flipped` strip is read
    /// backwards.
    pub fn side_draw(
        &self,
        flipped: bool,
        rotated: bool,
        stack: u64,
        dst: &mut Pixmap,
        dst_left: u64,
        dst_top: u64,
    )
        ensures
            pixmap_wf(*old(dst)) ==> pixmap_pixels(*final(dst)) == side_lines(
                pixmap_pixels(*old(dst)),
                pixmap_width(*old(dst)) as int,
                pixmap_pixels(self.spec_side()),
                dst_left as int,
                dst_top as int,
                flipped,
                rotated,
                stack as int,
            ),
            pixmap_wf(*old(dst)) && (if rotated {
                dst_left + stack <= pixmap_width(*old(dst))
            } else {
                dst_left + pixmap_pixels(self.spec_side()).len() <= pixmap_width(*old(dst))
            }) ==> forall|r: int, c: int|
                0 <= r < pixmap_height(*old(dst)) && 0 <= c < pixmap_width(*old(dst))
                    ==> pixmap_pixels(*final(dst))[r * pixmap_width(*old(dst)) + c]
                    == #[trigger] side_pixel(
                    pixmap_pixels(*old(dst)),
                    pixmap_width(*old(dst)) as int,
                    pixmap_pixels(self.spec_side()),
                    dst_left as int,
                    dst_top as int,
                    flipped,
                    rotated,
                    stack as int,
                    r,
                    c,
                ),
            !pixmap_wf(*old(dst)) ==> *final(dst) == *old(dst),
            pixmap_width(*final(dst)) == pixmap_width(*old(dst)),
            pixmap_height(*final(dst)) == pixmap_height(*old(dst)),
            pixmap_data(*final(dst)).len() == pixmap_data(*old(dst)).len(),
    {
        proof {
            use_type_invariant(self);
        }
        if !is_exact(dst) {
            return ;
        }
        proof {
            lemma_pixel_count(*dst);
            lemma_pixel_count(self.side);
        }
        let dst_width = width_of(dst);
        let dst_height = height_of(dst);
        let len = data_len(&self.side) / 4;
        let ghost side = pixmap_pixels(self.side);
        let ghost start = pixmap_pixels(*dst);
        let ghost dw = dst_width as int;
        let mut i: u64 = 0;
        while i < stack
            invariant
                i <= stack,
                len == side.len(),
                side == pixmap_pixels(self.side),
                pixmap_data(self.side).len() % 4 == 0,
                dw == dst_width,
                pixmap_width(*dst) == dst_width,
                pixmap_height(*dst) == dst_height,
                pixmap_width(*dst) == pixmap_width(*old(dst)),
                pixmap_height(*dst) == pixmap_height(*old(dst)),
                pixmap_pixels(*dst).len() == dst_width * dst_height,
                pixmap_data(*dst).len() == pixmap_data(*old(dst)).len(),
                pixmap_data(*dst).len() % 4 == 0,
                dst_width * dst_height <= usize::MAX,
                pixmap_pixels(*dst) == side_lines(
                    start,
                    dw,
                    side,
                    dst_left as int,
                    dst_top as int,
                    flipped,
                    rotated,
                    i as int,
                ),
            decreases stack - i,
        {
            let ghost line_start = pixmap_pixels(*dst);
            let ghost first = if rotated {
                dst_top * dw + (dst_left + i)
            } else {
                (dst_top + i) * dw + dst_left
            };
            let ghost step = if rotated {
                dw
            } else {
                1int
            };
            let mut j: usize = 0;
            while j < len
                invariant
                    j <= len,
                    i < stack,
                    len == side.len(),
                    side == pixmap_pixels(self.side),
                    pixmap_data(self.side).len() % 4 == 0,
                    dw == dst_width,
                    first == if rotated {
                        dst_top * dw + (dst_left + i)
                    } else {
                        (dst_top + i) * dw + dst_left
                    },
                    step == if rotated {
                        dw
                    } else {
                        1int
                    },
                    pixmap_width(*dst) == dst_width,
                    pixmap_height(*dst) == dst_height,
                    pixmap_width(*dst) == pixmap_width(*old(dst)),
                    pixmap_height(*dst) == pixmap_height(*old(dst)),
                    pixmap_pixels(*dst).len() == dst_width * dst_height,
                    pixmap_data(*dst).len() == pixmap_data(*old(dst)).len(),
                    pixmap_data(*dst).len() % 4 == 0,
                    dst_width * dst_height <= usize::MAX,
                    pixmap_pixels(*dst) == side_line(line_start, side, first, step, flipped, j as int),
                decreases len - j,
            {
                let at = if rotated {
                    locate(
                        dst_width,
                        dst_height,
                        dst_top as u128 + j as u128,
                        dst_left as u128 + i as u128,
                    )
                } else {
                    locate(
                        dst_width,
                        dst_height,
                        dst_top as u128 + i as u128,
                        dst_left as u128 + j as u128,
                    )
                };
                proof {
                    if rotated {
                        assert((dst_top + j) * dw + (dst_left + i) == first + j * step)
                            by (nonlinear_arith)
                            requires
                                first == dst_top * dw + (dst_left + i),
                                step == dw,
                        ;
                    } else {
                        assert((dst_top + i) * dw + (dst_left + j) == first + j * step)
                            by (nonlinear_arith)
                            requires
                                first == (dst_top + i) * dw + dst_left,
                                step == 1,
                        ;
                    }
                }
                let from = if flipped {
                    len - 1 - j
                } else {
                    j
                };
                match at {
                    Some(at) => {
                        copy_pixel(dst, at, &self.side, from);
                    },
                    None => {},
                }
                j += 1;
            }
            i += 1;
        }
        proof {
            let fits = if rotated {
                dst_left + stack <= dst_width
            } else {
                dst_left + side.len() <= dst_width
            };
            if fits {
                assert forall|r: int, c: int| 0 <= r < dst_height && 0 <= c < dst_width implies
                    pixmap_pixels(*dst)[r * dw + c] == #[trigger] side_pixel(
                    start,
                    dw,
                    side,
                    dst_left as int,
                    dst_top as int,
                    flipped,
                    rotated,
                    stack as int,
                    r,
                    c,
                ) by {
                    lemma_in_bitmap(dw, dst_height as int, r, c);
                    lemma_side_lines_at(
                        start,
                        dw,
                        side,
                        dst_left as int,
                        dst_top as int,
                        flipped,
                        rotated,
                        stack as int,
                        r,
                        c,
                    );
                }
            }
        }
    }

    /// Copies a rectangle of the corner ring into `dst`: `dst_rect_width` by
    /// `dst_rect_height` pixels at (`dst_rect_left`, `dst_rect_top`), taken from the
    /// ring at the same place moved by (`src_x_offset`, `src_y_offset`).
    pub fn edges_draw(
        &self,
        src_x_offset: i64,
        src_y_offset: i64,
        dst: &mut Pixmap,
        dst_rect_left: u64,
        dst_rect_top: u64,
        dst_rect_width: u64,
        dst_rect_height: u64,
    )
        ensures
            pixmap_wf(*old(dst)) ==> pixmap_pixels(*final(dst)) == spec_edges_draw(
                pixmap_pixels(*old(dst)),
                pixmap_width(*old(dst)) as int,
                pixmap_pixels(self.spec_edges()),
                pixmap_width(self.spec_edges()) as int,
                CornerBlit {
                    src_x: src_x_offset as int,
                    src_y: src_y_offset as int,
                    left: dst_rect_left as int,
                    top: dst_rect_top as int,
                    width: dst_rect_width as int,
                    height: dst_rect_height as int,
                },
            ),
            pixmap_wf(*old(dst)) && dst_rect_left + dst_rect_width <= pixmap_width(*old(dst))
                ==> forall|r: int, c: int|
                0 <= r < pixmap_height(*old(dst)) && 0 <= c < pixmap_width(*old(dst))
                    ==> pixmap_pixels(*final(dst))[r * pixmap_width(*old(dst)) + c]
                    == #[trigger] corner_pixel(
                    pixmap_pixels(*old(dst)),
                    pixmap_width(*old(dst)) as int,
                    pixmap_pixels(self.spec_edges()),
                    pixmap_width(self.spec_edges()) as int,
                    CornerBlit {
                        src_x: src_x_offset as int,
                        src_y: src_y_offset as int,
                        left: dst_rect_left as int,
                        top: dst_rect_top as int,
                        width: dst_rect_width as int,
                        height: dst_rect_height as int,
                    },
                    r,
                    c,
                ),
            !pixmap_wf(*old(dst)) ==> *final(dst) == *old(dst),
            pixmap_width(*final(dst)) == pixmap_width(*old(dst)),
            pixmap_height(*final(dst)) == pixmap_height(*old(dst)),
            pixmap_data(*final(dst)).len() == pixmap_data(*old(dst)).len(),
    {
        proof {
            use_type_invariant(self);
        }
        if !is_exact(dst) {
            return ;
        }
        proof {
            lemma_pixel_count(*dst);
            lemma_pixel_count(self.edges);
        }
        let src_width = width_of(&self.edges);
        let src_height = height_of(&self.edges);
        let dst_width = width_of(dst);
        let dst_height = height_of(dst);
        let ghost src = pixmap_pixels(self.edges);
        let ghost start = pixmap_pixels(*dst);
        let ghost b = CornerBlit {
            src_x: src_x_offset as int,
            src_y: src_y_offset as int,
            left: dst_rect_left as int,
            top: dst_rect_top as int,
            width: dst_rect_width as int,
            height: dst_rect_height as int,
        };
        let mut y: u64 = 0;
        while y < dst_rect_height
            invariant
                y <= dst_rect_height,
                src == pixmap_pixels(self.edges),
                pixmap_data(self.edges).len() % 4 == 0,
                src.len() == src_width * src_height,
                src_width * src_height <= usize::MAX,
                pixmap_width(self.edges) == src_width,
                pixmap_width(*dst) == dst_width,
                pixmap_height(*dst) == dst_height,
                pixmap_width(*dst) == pixmap_width(*old(dst)),
                pixmap_height(*dst) == pixmap_height(*old(dst)),
                pixmap_pixels(*dst).len() == dst_width * dst_height,
                pixmap_data(*dst).len() == pixmap_data(*old(dst)).len(),
                pixmap_data(*dst).len() % 4 == 0,
                dst_width * dst_height <= usize::MAX,
                b == (CornerBlit {
                    src_x: src_x_offset as int,
                    src_y: src_y_offset as int,
                    left: dst_rect_left as int,
                    top: dst_rect_top as int,
                    width: dst_rect_width as int,
                    height: dst_rect_height as int,
                }),
                pixmap_pixels(*dst) == corner_rows(
                    start,
                    dst_width as int,
                    src,
                    src_width as int,
                    b,
                    y as int,
                ),
            decreases dst_rect_height - y,
        {
            let src_y: i128 = y as i128 + src_y_offset as i128;
            if src_y >= 0 {
                let ghost row_start = pixmap_pixels(*dst);
                let mut x: u64 = 0;
                while x < dst_rect_width
                    invariant
                        x <= dst_rect_width,
                        y < dst_rect_height,
                        src_y == y + src_y_offset,
                        src_y >= 0,
                        src == pixmap_pixels(self.edges),
                        pixmap_data(self.edges).len() % 4 == 0,
                        src.len() == src_width * src_height,
                        src_width * src_height <= usize::MAX,
                        pixmap_width(self.edges) == src_width,
                        pixmap_width(*dst) == dst_width,
                        pixmap_height(*dst) == dst_height,
                        pixmap_width(*dst) == pixmap_width(*old(dst)),
                        pixmap_height(*dst) == pixmap_height(*old(dst)),
                        pixmap_pixels(*dst).len() == dst_width * dst_height,
                        pixmap_data(*dst).len() == pixmap_data(*old(dst)).len(),
                        pixmap_data(*dst).len() % 4 == 0,
                        dst_width * dst_height <= usize::MAX,
                        b == (CornerBlit {
                            src_x: src_x_offset as int,
                            src_y: src_y_offset as int,
                            left: dst_rect_left as int,
                            top: dst_rect_top as int,
                            width: dst_rect_width as int,
                            height: dst_rect_height as int,
                        }),
                        pixmap_pixels(*dst) == corner_row(
                            row_start,
                            dst_width as int,
                            src,
                            src_width as int,
                            b,
                            y as int,
                            x as int,
                        ),
                    decreases dst_rect_width - x,
                {
                    let src_x: i128 = x as i128 + src_x_offset as i128;
                    if src_x >= 0 {
                        let from = locate(src_width, src_height, src_y as u128, src_x as u128);
                        let at = locate(
                            dst_width,
                            dst_height,
                            dst_rect_top as u128 + y as u128,
                            dst_rect_left as u128 + x as u128,
                        );
                        match (from, at) {
                            (Some(from), Some(at)) => {
                                copy_pixel(dst, at, &self.edges, from);
                            },
                            _ => {},
                        }
                    }
                    x += 1;
                }
            }
            y += 1;
        }
        proof {
            if dst_rect_left + dst_rect_width <= dst_width {
                assert forall|r: int, c: int| 0 <= r < dst_height && 0 <= c < dst_width implies
                    pixmap_pixels(*dst)[r * dst_width + c] == #[trigger] corner_pixel(
                    start,
                    dst_width as int,
                    src,
                    src_width as int,
                    b,
                    r,
                    c,
                ) by {
                    lemma_in_bitmap(dst_width as int, dst_height as int, r, c);
                    lemma_edges_draw_at(start, dst_width as int, src, src_width as int, b, r, c);
                }
            }
        }
    }

    /// Draws the shadow of panel `part_idx` into `dst`, which has the size of the
    /// panel in pixels.
    pub fn draw(&self, dst: &mut Pixmap, scale: u32, part_idx: PartId, hide_border: bool)
        ensures
            pixmap_wf(*old(dst)) ==> pixmap_pixels(*final(dst)) == spec_part_shadow(
                pixmap_pixels(*old(dst)),
                pixmap_width(*old(dst)) as int,
                pixmap_height(*old(dst)) as int,
                pixmap_pixels(self.spec_side()),
                pixmap_pixels(self.spec_edges()),
                pixmap_width(self.spec_edges()) as int,
                scale as int,
                part_idx,
                hide_border,
            ),
            !pixmap_wf(*old(dst)) ==> *final(dst) == *old(dst),
            pixmap_width(*final(dst)) == pixmap_width(*old(dst)),
            pixmap_height(*final(dst)) == pixmap_height(*old(dst)),
            pixmap_data(*final(dst)).len() == pixmap_data(*old(dst)).len(),
    {
        let wide: u64 = scale as u64;
        let shadow_size: u64 = 43 * wide;
        let visible: u64 = if hide_border {
            0
        } else {
            wide
        };
        let radius: u64 = 10 * wide;
        assert(shadow_size == SHADOW_SIZE * scale);
        assert(radius == CORNER_RADIUS * scale);
        assert(visible == spec_visible_border_size(hide_border) * scale) by {
            assert(spec_visible_border_size(hide_border) == if hide_border {
                0u32
            } else {
                1u32
            });
        }
        if radius <= visible {
            return ;
        }
        let dst_width: u64 = width_of(dst) as u64;
        let dst_height: u64 = height_of(dst) as u64;
        let half: u64 = (width_of(&self.edges) / 2) as u64;
        match part_idx {
            PartId::Top => {
                let side_width = saturating_sub(saturating_sub(dst_width, half), half);
                self.edges_draw(0, -(visible as i64), dst, 0, 0, half, dst_height);
                self.side_draw(true, true, side_width, dst, half, visible);
                self.edges_draw(
                    half as i64,
                    -(visible as i64),
                    dst,
                    half + side_width,
                    0,
                    half,
                    dst_height,
                );
            },
            PartId::Left => {
                let top_height = radius;
                let bottom_height = radius - visible;
                let side_height = saturating_sub(
                    saturating_sub(dst_height, top_height),
                    bottom_height,
                );
                let width = saturating_sub(dst_width, visible);
                self.edges_draw(0, shadow_size as i64, dst, 0, 0, width, top_height);
                self.side_draw(true, false, side_height, dst, 0, top_height);
                self.edges_draw(
                    0,
                    half as i64,
                    dst,
                    0,
                    top_height + side_height,
                    width,
                    bottom_height,
                );
            },
            PartId::Right => {
                let top_height = radius;
                let bottom_height = radius - visible;
                let side_height = saturating_sub(
                    saturating_sub(dst_height, top_height),
                    bottom_height,
                );
                let width = saturating_sub(dst_width, visible);
                self.edges_draw(
                    (half + radius) as i64,
                    shadow_size as i64,
                    dst,
                    visible,
                    0,
                    width,
                    top_height,
                );
                self.side_draw(false, false, side_height, dst, visible, top_height);
                self.edges_draw(
                    (half + radius) as i64,
                    half as i64,
                    dst,
                    visible,
                    top_height + side_height,
                    width,
                    bottom_height,
                );
            },
            PartId::Bottom => {
                let side_width = saturating_sub(saturating_sub(dst_width, half), half);
                let src_y = (half + (radius - visible)) as i64;
                self.edges_draw(0, src_y, dst, 0, 0, half, dst_height);
                self.side_draw(false, true, side_width, dst, half, visible);
                self.edges_draw(half as i64, src_y, dst, half + side_width, 0, half, dst_height);
            },
            PartId::Header => {
                self.edges_draw(
                    shadow_size as i64,
                    shadow_size as i64,
                    dst,
                    0,
                    0,
                    radius,
                    radius,
                );
                self.edges_draw(
                    half as i64,
                    shadow_size as i64,
                    dst,
                    saturating_sub(dst_width, radius),
                    0,
                    radius,
                    radius,
                );
            },
        }
    }
}

/// `a - b`, but never below zero.
fn saturating_sub(a: u64, b: u64) -> (d: u64)
    ensures
        d == minus(a as int, b as int),
{
    if a >= b {
        a - b
    } else {
        0
    }
}

/// The key under which the sources of a scale and an activation are kept.
pub open spec fn spec_source_key(scale: u32, active: bool) -> u64 {
    if active {
        (2 * scale + 1) as u64
    } else {
        (2 * scale) as u64
    }
}

#[verifier::when_used_as_spec(spec_source_key)]
pub fn source_key(scale: u32, active: bool) -> (key: u64)
    ensures
        key == spec_source_key(scale, active),
{
    let doubled: u64 = 2 * (scale as u64);
    if active {
        doubled + 1
    } else {
        doubled
    }
}

/// A bitmap of `width` by `height` pixels that is transparent everywhere.
pub open spec fn blank(width: u32, height: u32) -> Seq<Rgba> {
    Seq::new((width * height) as nat, |i: int| Rgba::transparent())
}

/// The shadow of one panel as it was last drawn, and what it was drawn for.
pub struct CachedPart {
    pixmap: Pixmap,
    scale: u32,
    active: bool,
    hide_border: bool,
}

impl CachedPart {
    /// The bitmap of the shadow.
    pub closed spec fn spec_pixmap(self) -> Pixmap {
        self.pixmap
    }

    /// The scale it was drawn at.
    pub closed spec fn spec_scale(self) -> u32 {
        self.scale
    }

    /// Whether it was drawn for an active window.
    pub closed spec fn spec_active(self) -> bool {
        self.active
    }

    /// Whether it was drawn for a window without borders.
    pub closed spec fn spec_hide_border(self) -> bool {
        self.hide_border
    }

    /// The cached shadow can be used again: size, scale, activation and borders
    /// are those asked for.
    pub open spec fn spec_matches(
        self,
        width: u32,
        height: u32,
        scale: u32,
        active: bool,
        hide_border: bool,
    ) -> bool {
        &&& pixmap_width(self.spec_pixmap()) == width
        &&& pixmap_height(self.spec_pixmap()) == height
        &&& self.spec_scale() == scale
        &&& self.spec_active() == active
        &&& self.spec_hide_border() == hide_border
    }

    /// Whether the cached shadow is the one asked for.
    pub fn matches(
        &self,
        width: u32,
        height: u32,
        scale: u32,
        active: bool,
        hide_border: bool,
    ) -> (same: bool)
        ensures
            same == self.spec_matches(width, height, scale, active, hide_border),
    {
        width_of(&self.pixmap) == width && height_of(&self.pixmap) == height && self.scale
            == scale && self.active == active && self.hide_border == hide_border
    }

    /// The bitmap of the shadow.
    pub fn pixmap(&self) -> (p: &Pixmap)
        ensures
            *p == self.spec_pixmap(),
    {
        &self.pixmap
    }
}

/// The shadows of a window: the sources for each scale and activation, which stay
/// as they were first given, and the shadow of each panel as it was last drawn.
pub struct Shadow {
    top: Option<CachedPart>,
    left: Option<CachedPart>,
    right: Option<CachedPart>,
    bottom: Option<CachedPart>,
    header: Option<CachedPart>,
    rendered: BTreeMap<u64, RenderedShadow>,
}

impl Shadow {
    /// The cached shadow of a panel.
    pub closed spec fn spec_part(self, part: PartId) -> Option<CachedPart> {
        match part {
            PartId::Top => self.top,
            PartId::Left => self.left,
            PartId::Right => self.right,
            PartId::Bottom => self.bottom,
            PartId::Header => self.header,
        }
    }

    /// The sources, by their keys.
    pub closed spec fn spec_sources(self) -> Map<u64, RenderedShadow> {
        self.rendered@
    }

    /// The sources of a scale and an activation, where they were given.
    pub open spec fn spec_source(self, scale: u32, active: bool) -> Option<RenderedShadow> {
        if self.spec_sources().contains_key(spec_source_key(scale, active)) {
            Some(self.spec_sources()[spec_source_key(scale, active)])
        } else {
            None
        }
    }

    /// The sources after `source` was offered for a scale and an activation: it is
    /// taken only where none are kept for them yet.
    pub open spec fn spec_offered(
        sources: Map<u64, RenderedShadow>,
        scale: u32,
        active: bool,
        source: RenderedShadow,
    ) -> Map<u64, RenderedShadow> {
        if sources.contains_key(spec_source_key(scale, active)) {
            sources
        } else {
            sources.insert(spec_source_key(scale, active), source)
        }
    }

    /// The sources of a scale and an activation are those that were offered first:
    /// whatever is offered for them afterwards, and for whatever others, they stay.
    pub proof fn lemma_first_source_stays(
        sources: Map<u64, RenderedShadow>,
        scale: u32,
        active: bool,
        first: RenderedShadow,
        other_scale: u32,
        other_active: bool,
        second: RenderedShadow,
    )
        ensures
            ({
                let once = Self::spec_offered(sources, scale, active, first);
                let twice = Self::spec_offered(once, other_scale, other_active, second);
                &&& once.contains_key(spec_source_key(scale, active))
                &&& twice.contains_key(spec_source_key(scale, active))
                &&& twice[spec_source_key(scale, active)] == once[spec_source_key(scale, active)]
                &&& !sources.contains_key(spec_source_key(scale, active)) ==> once[spec_source_key(
                    scale,
                    active,
                )] == first
                &&& (other_scale == scale && other_active == active) ==> twice == once
            }),
    {
    }

    /// Different scales or activations have different keys.
    pub proof fn lemma_source_keys_differ(scale: u32, active: bool, other_scale: u32, other_active: bool)
        ensures
            spec_source_key(scale, active) == spec_source_key(other_scale, other_active) <==> scale
                == other_scale && active == other_active,
    {
    }

    /// What `draw` leaves as the shadow of `part` where the cached one cannot be kept:
    /// the panel's shadow over a transparent bitmap of the size asked for.
    pub open spec fn spec_fresh(
        c: CachedPart,
        source: RenderedShadow,
        width: u32,
        height: u32,
        scale: u32,
        active: bool,
        part: PartId,
        hide_border: bool,
    ) -> bool {
        &&& c.spec_matches(width, height, scale, active, hide_border)
        &&& pixmap_pixels(c.spec_pixmap()) == spec_part_shadow(
            blank(width, height),
            width as int,
            height as int,
            pixmap_pixels(source.spec_side()),
            pixmap_pixels(source.spec_edges()),
            pixmap_width(source.spec_edges()) as int,
            scale as int,
            part,
            hide_border,
        )
    }

    /// A cache that holds nothing.
    pub fn new() -> (s: Shadow)
        ensures
            s.spec_sources() == Map::<u64, RenderedShadow>::empty(),
            forall|part: PartId| s.spec_part(part) is None,
    {
        Shadow {
            top: None,
            left: None,
            right: None,
            bottom: None,
            header: None,
            rendered: BTreeMap::new(),
        }
    }

    /// Whether sources were given for this scale and activation.
    pub fn has_source(&self, scale: u32, active: bool) -> (has: bool)
        ensures
            has == self.spec_source(scale, active).is_some(),
    {
        broadcast use vstd::std_specs::btree::group_btree_axioms;

        let key = source_key(scale, active);
        self.rendered.contains_key(&key)
    }

    /// The sources of this scale and activation.
    pub fn source(&self, scale: u32, active: bool) -> (source: Option<&RenderedShadow>)
        ensures
            source.is_some() == self.spec_source(scale, active).is_some(),
            source matches Some(s) ==> Some(*s) == self.spec_source(scale, active),
    {
        broadcast use vstd::std_specs::btree::group_btree_axioms;

        let key = source_key(scale, active);
        self.rendered.get(&key)
    }

    /// Keeps `source` for this scale and activation, unless sources for them are
    /// kept already: those stay as they are.
    pub fn add_source(&mut self, scale: u32, active: bool, source: RenderedShadow) -> (added:
        bool)
        ensures
            added == old(self).spec_source(scale, active).is_none(),
            final(self).spec_sources() == Self::spec_offered(
                old(self).spec_sources(),
                scale,
                active,
                source,
            ),
            forall|part: PartId| final(self).spec_part(part) == old(self).spec_part(part),
    {
        broadcast use vstd::std_specs::btree::group_btree_axioms;

        let key = source_key(scale, active);
        if self.rendered.contains_key(&key) {
            false
        } else {
            self.rendered.insert(key, source);
            true
        }
    }

    /// The cached shadow of a panel.
    pub fn part(&self, part: PartId) -> (cached: Option<&CachedPart>)
        ensures
            cached.is_some() == self.spec_part(part).is_some(),
            cached matches Some(c) ==> Some(*c) == self.spec_part(part),
    {
        match part {
            PartId::Top => self.top.as_ref(),
            PartId::Left => self.left.as_ref(),
            PartId::Right => self.right.as_ref(),
            PartId::Bottom => self.bottom.as_ref(),
            PartId::Header => self.header.as_ref(),
        }
    }

    /// Brings the cached shadow of panel `part_idx` up to date for a bitmap of
    /// `width` by `height` pixels.
    ///
    /// A cached shadow of that size, scale, activation and border is kept. Any other
    /// is dropped, and drawn anew from the sources of the scale and activation; where
    /// those were not given, or no bitmap of that size can be had, the panel is left
    /// without a shadow. The sources never change.
    pub fn draw(
        &mut self,
        width: u32,
        height: u32,
        scale: u32,
        active: bool,
        part_idx: PartId,
        hide_border: bool,
    ) -> (drawn: bool)
        ensures
            final(self).spec_sources() == old(self).spec_sources(),
            forall|other: PartId|
                other != part_idx ==> final(self).spec_part(other) == old(self).spec_part(other),
            drawn == final(self).spec_part(part_idx).is_some(),
            old(self).spec_part(part_idx) matches Some(c) && c.spec_matches(
                width,
                height,
                scale,
                active,
                hide_border,
            ) ==> final(self).spec_part(part_idx) == old(self).spec_part(part_idx),
            !(old(self).spec_part(part_idx) matches Some(c) && c.spec_matches(
                width,
                height,
                scale,
                active,
                hide_border,
            )) ==> (drawn <==> old(self).spec_source(scale, active).is_some() && spec_can_allocate(
                width,
                height,
            )),
            !(old(self).spec_part(part_idx) matches Some(c) && c.spec_matches(
                width,
                height,
                scale,
                active,
                hide_border,
            )) && drawn ==> Self::spec_fresh(
                final(self).spec_part(part_idx).unwrap(),
                old(self).spec_source(scale, active).unwrap(),
                width,
                height,
                scale,
                active,
                part_idx,
                hide_border,
            ),
    {
        broadcast use vstd::std_specs::btree::group_btree_axioms;

        let keep = match self.part(part_idx) {
            Some(cached) => cached.matches(width, height, scale, active, hide_border),
            None => false,
        };
        if keep {
            return true;
        }
        let key = source_key(scale, active);
        let fresh = match self.rendered.get(&key) {
            None => None,
            Some(rendered) => {
                match new_pixmap(width, height) {
                    None => None,
                    Some(mut pixmap) => {
                        proof {
                            lemma_pixel_count(pixmap);
                        }
                        assert(pixmap_pixels(pixmap) =~= blank(width, height));
                        rendered.draw(&mut pixmap, scale, part_idx, hide_border);
                        Some(CachedPart { pixmap, scale, active, hide_border })
                    },
                }
            },
        };
        let drawn = fresh.is_some();
        match part_idx {
            PartId::Top => {
                self.top = fresh;
            },
            PartId::Left => {
                self.left = fresh;
            },
            PartId::Right => {
                self.right = fresh;
            },
            PartId::Bottom => {
                self.bottom = fresh;
            },
            PartId::Header => {
                self.header = fresh;
            },
        }
        drawn
    }
}

impl Default for Shadow {
    fn default() -> (s: Shadow)
        ensures
            s.spec_sources() == Map::<u64, RenderedShadow>::empty(),
            forall|part: PartId| s.spec_part(part) is None,
    {
        Shadow::new()
    }
}

} // verus!
