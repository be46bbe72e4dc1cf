//! The pixel buffers of `tiny_skia`, as the shadow compositor sees them.
//!
//! A `Pixmap` is opaque to the verifier. Its bytes, its width and its height are
//! named by three uninterpreted functions, and each method of `Pixmap` that the
//! compositor calls stands behind one function of this module whose contract is
//! taken on trust.

use vstd::prelude::*;
use tiny_skia::Pixmap;
use tiny_skia::PremultipliedColorU8;

verus! {

/// One premultiplied RGBA pixel.
#[derive(Clone, Copy, Debug, PartialEq, Eq, Structural)]
pub struct Rgba {
    pub r: u8,
    pub g: u8,
    pub b: u8,
    pub a: u8,
}

impl Rgba {
    /// The transparent pixel that a fresh pixmap is filled with.
    pub open spec fn transparent() -> Rgba {
        Rgba { r: 0, g: 0, b: 0, a: 0 }
    }

    /// Black of the given opacity: the only colour a shadow has.
    pub open spec fn shade(alpha: u8) -> Rgba {
        Rgba { r: 0, g: 0, b: 0, a: alpha }
    }

    /// No colour channel exceeds the alpha channel.
    pub open spec fn premultiplied(self) -> bool {
        self.r <= self.a && self.g <= self.a && self.b <= self.a
    }
}

/// One channel of a pixel laid over another: the channel of the upper pixel, and as
/// much of the lower one as the upper pixel's opacity `alpha` lets through, each sum
/// and product held at 255.
pub open spec fn spec_blend_channel(over: u8, under: u8, alpha: u8) -> u8 {
    let through = under * (255 - alpha);
    let through = if through > 255 {
        255
    } else {
        through
    };
    if over + through > 255 {
        255u8
    } else {
        (over + through) as u8
    }
}

/// Pixel `a` laid over pixel `b`, channel by channel.
pub open spec fn spec_alpha_blend(a: Rgba, b: Rgba) -> Rgba {
    Rgba {
        r: spec_blend_channel(a.r, b.r, a.a),
        g: spec_blend_channel(a.g, b.g, a.a),
        b: spec_blend_channel(a.b, b.b, a.a),
        a: spec_blend_channel(a.a, b.a, a.a),
    }
}

/// One channel of a pixel laid over another.
fn blend_channel(over: u8, under: u8, alpha: u8) -> (c: u8)
    ensures
        c == spec_blend_channel(over, under, alpha),
{
    let rest: u32 = 255 - alpha as u32;
    assert(under * rest <= 255 * 255) by (nonlinear_arith)
        requires
            0 <= under <= 255,
            0 <= rest <= 255,
    ;
    let through: u32 = (under as u32) * rest;
    let through: u32 = if through > 255 {
        255
    } else {
        through
    };
    let sum: u32 = over as u32 + through;
    if sum > 255 {
        255
    } else {
        sum as u8
    }
}

/// A channel that is no stronger than the opacity, in both pixels, is no stronger
/// than the opacity after one pixel was laid over the other.
pub proof fn lemma_blend_channel_bounded(over: u8, under: u8, alpha: u8, under_alpha: u8)
    requires
        over <= alpha,
        under <= under_alpha,
    ensures
        spec_blend_channel(over, under, alpha) <= spec_blend_channel(alpha, under_alpha, alpha),
{
    assert(under * (255 - alpha) <= under_alpha * (255 - alpha)) by (nonlinear_arith)
        requires
            under <= under_alpha,
            0 <= 255 - alpha,
    ;
}

/// Lays pixel `a` over pixel `b`. Of two premultiplied pixels it makes a
/// premultiplied pixel.
pub fn alpha_blend(a: Rgba, b: Rgba) -> (c: Rgba)
    ensures
        c == spec_alpha_blend(a, b),
        a.premultiplied() && b.premultiplied() ==> c.premultiplied(),
{
    proof {
        if a.premultiplied() && b.premultiplied() {
            lemma_blend_channel_bounded(a.r, b.r, a.a, b.a);
            lemma_blend_channel_bounded(a.g, b.g, a.a, b.a);
            lemma_blend_channel_bounded(a.b, b.b, a.a, b.a);
        }
    }
    Rgba {
        r: blend_channel(a.r, b.r, a.a),
        g: blend_channel(a.g, b.g, a.a),
        b: blend_channel(a.b, b.b, a.a),
        a: blend_channel(a.a, b.a, a.a),
    }
}

#[verifier::external_type_specification]
#[verifier::external_body]
pub struct ExPixmap(Pixmap);

/// The bytes of a pixmap, as `Pixmap::data` hands them out: four for each pixel,
/// red, green, blue and opacity, row after row from the top.
pub uninterp spec fn pixmap_data(p: Pixmap) -> Seq<u8>;

/// The width of a pixmap in pixels, as `Pixmap::width` returns it.
pub uninterp spec fn pixmap_width(p: Pixmap) -> u32;

/// The height of a pixmap in pixels, as `Pixmap::height` returns it.
pub uninterp spec fn pixmap_height(p: Pixmap) -> u32;

/// The pixels that lie in a row of bytes, four bytes to a pixel.
pub open spec fn pixels_of(data: Seq<u8>) -> Seq<Rgba> {
    Seq::new(
        (data.len() / 4) as nat,
        |i: int| Rgba { r: data[4 * i], g: data[4 * i + 1], b: data[4 * i + 2], a: data[4 * i + 3] },
    )
}

/// The pixels of a pixmap, row after row from the top, as `Pixmap::pixels` hands
/// them out.
pub open spec fn pixmap_pixels(p: Pixmap) -> Seq<Rgba> {
    pixels_of(pixmap_data(p))
}

/// The pixmap holds as many bytes as its pixels take, and no more. Every pixmap
/// that `Pixmap::new` makes is such a one; one that was made from a longer row of
/// bytes is not.
pub open spec fn pixmap_wf(p: Pixmap) -> bool {
    &&& pixmap_width(p) >= 1
    &&& pixmap_height(p) >= 1
    &&& 4 * pixmap_width(p) <= i32::MAX
    &&& pixmap_data(p).len() == 4 * (pixmap_width(p) * pixmap_height(p))
    &&& pixmap_data(p).len() <= usize::MAX
}

/// A pixmap that holds no more than its pixels holds one pixel for each place.
pub proof fn lemma_pixel_count(p: Pixmap)
    requires
        pixmap_wf(p),
    ensures
        pixmap_pixels(p).len() == pixmap_width(p) * pixmap_height(p),
        pixmap_width(p) * pixmap_height(p) <= usize::MAX,
{
    let area = pixmap_width(p) * pixmap_height(p);
    assert(area >= 0) by (nonlinear_arith)
        requires
            area == pixmap_width(p) * pixmap_height(p),
    ;
    assert((4 * area) / 4 == area);
}

/// The sizes for which a pixmap can be allocated.
pub open spec fn spec_can_allocate(width: u32, height: u32) -> bool {
    &&& width >= 1
    &&& height >= 1
    &&& 4 * width <= i32::MAX
    &&& 4 * (width * height) <= usize::MAX
}

/// `Pixmap::new`. It succeeds exactly when neither side is zero, one row fits in
/// `i32::MAX` bytes and the whole buffer in `usize::MAX` bytes; the new pixmap holds
/// four bytes for each pixel, all of them zero. Nothing is said of a machine that
/// has no memory left for the buffer.
#[verifier::external_body]
pub(crate) fn new_pixmap(width: u32, height: u32) -> (p: Option<Pixmap>)
    ensures
        p is Some <==> spec_can_allocate(width, height),
        p matches Some(pm) ==> pixmap_width(pm) == width && pixmap_height(pm) == height
            && pixmap_data(pm).len() == 4 * (width * height),
        p matches Some(pm) ==> forall|i: int|
            0 <= i < pixmap_data(pm).len() ==> #[trigger] pixmap_data(pm)[i] == 0,
{
    Pixmap::new(width, height)
}

/// `Pixmap::width`: never zero, and never more than fits a row of `i32::MAX` bytes.
#[verifier::external_body]
pub(crate) fn width_of(p: &Pixmap) -> (w: u32)
    ensures
        w == pixmap_width(*p),
        w >= 1,
        4 * w <= i32::MAX,
{
    p.width()
}

/// `Pixmap::height`: never zero.
#[verifier::external_body]
pub(crate) fn height_of(p: &Pixmap) -> (h: u32)
    ensures
        h == pixmap_height(*p),
        h >= 1,
{
    p.height()
}

/// `Pixmap::data`, for the number of bytes.
#[verifier::external_body]
pub(crate) fn data_len(p: &Pixmap) -> (n: usize)
    ensures
        n == pixmap_data(*p).len(),
{
    p.data().len()
}

/// `Pixmap::pixels` and `Pixmap::pixels_mut`: the pixel of `src` at `si` is stored in
/// `dst` at `di`. Nothing else in `dst` changes. Both pixmaps must hold whole
/// pixels, or their bytes cannot be read as pixels.
#[verifier::external_body]
pub(crate) fn copy_pixel(dst: &mut Pixmap, di: usize, src: &Pixmap, si: usize)
    requires
        pixmap_data(*old(dst)).len() % 4 == 0,
        pixmap_data(*src).len() % 4 == 0,
        di < pixmap_pixels(*old(dst)).len(),
        si < pixmap_pixels(*src).len(),
    ensures
        pixmap_pixels(*final(dst)) == pixmap_pixels(*old(dst)).update(
            di as int,
            pixmap_pixels(*src)[si as int],
        ),
        pixmap_data(*final(dst)).len() == pixmap_data(*old(dst)).len(),
        pixmap_width(*final(dst)) == pixmap_width(*old(dst)),
        pixmap_height(*final(dst)) == pixmap_height(*old(dst)),
{
    dst.pixels_mut()[di] = src.pixels()[si];
}

/// `PremultipliedColorU8::from_rgba` and `Pixmap::pixels_mut`: the pixel at `i` becomes
/// `c`. Nothing else in `dst` changes. The pixmap must hold whole pixels, and no
/// colour channel of `c` may exceed its opacity.
#[verifier::external_body]
pub(crate) fn put_pixel(dst: &mut Pixmap, i: usize, c: Rgba)
    requires
        pixmap_data(*old(dst)).len() % 4 == 0,
        i < pixmap_pixels(*old(dst)).len(),
        c.premultiplied(),
    ensures
        pixmap_pixels(*final(dst)) == pixmap_pixels(*old(dst)).update(i as int, c),
        pixmap_data(*final(dst)).len() == pixmap_data(*old(dst)).len(),
        pixmap_width(*final(dst)) == pixmap_width(*old(dst)),
        pixmap_height(*final(dst)) == pixmap_height(*old(dst)),
{
    dst.pixels_mut()[i] = PremultipliedColorU8::from_rgba(c.r, c.g, c.b, c.a).unwrap();
}

/// Whether the pixmap holds as many bytes as its pixels take, and no more.
pub(crate) fn is_exact(p: &Pixmap) -> (exact: bool)
    ensures
        exact == pixmap_wf(*p),
{
    let w = width_of(p);
    let h = height_of(p);
    let n = data_len(p);
    assert(w * h <= 0xffff_ffff * 0xffff_ffff) by (nonlinear_arith)
        requires
            0 <= w <= 0xffff_ffff,
            0 <= h <= 0xffff_ffff,
    ;
    let area: u128 = (w as u128) * (h as u128);
    n as u128 == 4 * area
}

} // verus!
