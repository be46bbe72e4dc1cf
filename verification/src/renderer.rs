//! What is drawn where: the buffer of each panel, the strip of visible border on an
//! edge, and the place of the title between the buttons.
//!
//! Nothing here touches a pixel. The host paints what these functions lay down.

use vstd::prelude::*;
use crate::buttons::{ButtonDraw, Buttons};
use crate::parts::{Part, PartId, Rect};
use crate::state::WindowState;
use crate::theme::{Paint, CORNER_RADIUS, VISIBLE_BORDER_SIZE};

verus! {

/// The gap between the title and the buttons, in logical points.
pub const TEXT_OFFSET: u32 = 10;

/// The margin left and right of the title bar, in logical points: the visible
/// border, which a window that fills its place does not have.
pub open spec fn spec_margin_h(state: WindowState) -> u32 {
    if state.spec_docked() {
        0
    } else {
        VISIBLE_BORDER_SIZE
    }
}

/// The radius of the top corners of the title bar, in logical points: a window that
/// fills its place has square corners.
pub open spec fn spec_corner_radius(state: WindowState) -> u32 {
    if state.spec_docked() {
        0
    } else {
        CORNER_RADIUS
    }
}

pub fn margin_h(state: &WindowState) -> (m: u32)
    ensures
        m == spec_margin_h(*state),
{
    if state.docked() {
        0
    } else {
        VISIBLE_BORDER_SIZE
    }
}

pub fn corner_radius(state: &WindowState) -> (r: u32)
    ensures
        r == spec_corner_radius(*state),
{
    if state.docked() {
        0
    } else {
        CORNER_RADIUS
    }
}

/// A rectangle of a buffer, in pixels.
#[derive(Debug, Clone, Copy, PartialEq, Eq, Structural)]
pub struct PixelRect {
    pub x: u32,
    pub y: u32,
    pub width: u32,
    pub height: u32,
}

/// One panel to draw: the buffer to ask for, where the panel goes, and the strip
/// of visible border to fill on it.
#[derive(Debug, Clone, Copy, PartialEq, Eq, Structural)]
pub struct PartDraw {
    pub part: PartId,
    /// The place of the panel relative to the content, in logical points.
    pub x: i32,
    pub y: i32,
    /// The size of the buffer in pixels, and the length of one of its rows in bytes.
    pub width: u32,
    pub height: u32,
    pub stride: u32,
    /// The number of pixels in a logical point.
    pub scale: u32,
    pub border: Option<PixelRect>,
}

/// The size in pixels of the buffer for a rectangle at a scale, where there is such
/// a buffer: it is not empty, and its height and the bytes of a row fit in an `i32`.
pub open spec fn spec_buffer_size(rect: Rect, scale: u32) -> Option<(u32, u32)> {
    let w = rect.width * scale;
    let h = rect.height * scale;
    if 1 <= w && 1 <= h && 4 * w <= i32::MAX && h <= i32::MAX {
        Some((w as u32, h as u32))
    } else {
        None
    }
}

/// The rectangle of these pixels, where all four numbers are pixels of a buffer.
pub open spec fn spec_pixel_rect(x: int, y: int, width: int, height: int) -> Option<PixelRect> {
    if 0 <= x <= i32::MAX && 0 <= y <= i32::MAX && 0 <= width <= i32::MAX && 0 <= height
        <= i32::MAX {
        Some(PixelRect { x: x as u32, y: y as u32, width: width as u32, height: height as u32 })
    } else {
        None
    }
}

pub open spec fn abs(v: int) -> int {
    if v >= 0 {
        v
    } else {
        -v
    }
}

/// The strip of visible border on an edge panel: along the side of the content,
/// one visible border wide, and not beside the title bar. The top edge has none.
pub open spec fn spec_border_strip(part: PartId, rect: Rect, scale: u32) -> Option<PixelRect> {
    let visible = VISIBLE_BORDER_SIZE * scale;
    let x = abs(rect.x as int) * scale - visible;
    let y = abs(rect.y as int) * scale;
    let width = rect.width * scale;
    let height = rect.height * scale;
    match part {
        PartId::Left => spec_pixel_rect(x, y, visible, height - y),
        PartId::Right => spec_pixel_rect(0, y, visible, height - y),
        PartId::Bottom => spec_pixel_rect(x, 0, width - 2 * x, visible),
        _ => None,
    }
}

/// How a panel is drawn at a scale: not at all where it is hidden or has no buffer.
pub open spec fn spec_part_draw(id: PartId, part: Part, scale: u32) -> Option<PartDraw> {
    if part.hide {
        None
    } else {
        match spec_buffer_size(part.surface_rect, scale) {
            None => None,
            Some((width, height)) => Some(
                PartDraw {
                    part: id,
                    x: part.surface_rect.x,
                    y: part.surface_rect.y,
                    width,
                    height,
                    stride: (4 * width) as u32,
                    scale,
                    border: spec_border_strip(id, part.surface_rect, scale),
                },
            ),
        }
    }
}

/// `v * scale`, for a number that is far from overflowing.
fn scaled(v: i128, scale: u32) -> (p: i128)
    requires
        -0x400_0000_0000 <= v <= 0x400_0000_0000,
    ensures
        p == v * scale,
        -0x400_0000_0000 * 0xffff_ffff <= p <= 0x400_0000_0000 * 0xffff_ffff,
{
    let wide: i128 = scale as i128;
    assert(-0x400_0000_0000 * 0xffff_ffff <= v * wide <= 0x400_0000_0000 * 0xffff_ffff)
        by (nonlinear_arith)
        requires
            -0x400_0000_0000 <= v <= 0x400_0000_0000,
            0 <= wide <= 0xffff_ffff,
    ;
    v * wide
}

pub fn buffer_size(rect: &Rect, scale: u32) -> (size: Option<(u32, u32)>)
    ensures
        size == spec_buffer_size(*rect, scale),
{
    let w: i128 = scaled(rect.width as i128, scale);
    let h: i128 = scaled(rect.height as i128, scale);
    if 1 <= w && 1 <= h && w <= (i32::MAX as i128) / 4 && h <= i32::MAX as i128 {
        Some((w as u32, h as u32))
    } else {
        None
    }
}

/// The line along the bottom of the title bar: the lowest row of pixels of its
/// buffer, where it has one.
pub open spec fn spec_bottom_line(rect: Rect, scale: u32) -> Option<PixelRect> {
    match spec_buffer_size(rect, scale) {
        Some((w, h)) => Some(PixelRect { x: 0, y: (h - 1) as u32, width: w, height: 1 }),
        None => None,
    }
}

pub fn bottom_line(rect: &Rect, scale: u32) -> (line: Option<PixelRect>)
    ensures
        line == spec_bottom_line(*rect, scale),
{
    match buffer_size(rect, scale) {
        Some((w, h)) => Some(PixelRect { x: 0, y: h - 1, width: w, height: 1 }),
        None => None,
    }
}

fn pixel_rect(x: i128, y: i128, width: i128, height: i128) -> (r: Option<PixelRect>)
    ensures
        r == spec_pixel_rect(x as int, y as int, width as int, height as int),
{
    let max: i128 = i32::MAX as i128;
    if 0 <= x && x <= max && 0 <= y && y <= max && 0 <= width && width <= max && 0 <= height
        && height <= max {
        Some(PixelRect { x: x as u32, y: y as u32, width: width as u32, height: height as u32 })
    } else {
        None
    }
}

pub fn border_strip(part: PartId, rect: &Rect, scale: u32) -> (strip: Option<PixelRect>)
    ensures
        strip == spec_border_strip(part, *rect, scale),
{
    let visible: i128 = scaled(VISIBLE_BORDER_SIZE as i128, scale);
    let ax: i128 = if rect.x >= 0 {
        rect.x as i128
    } else {
        -(rect.x as i128)
    };
    let ay: i128 = if rect.y >= 0 {
        rect.y as i128
    } else {
        -(rect.y as i128)
    };
    let x: i128 = scaled(ax, scale) - visible;
    let y: i128 = scaled(ay, scale);
    let width: i128 = scaled(rect.width as i128, scale);
    let height: i128 = scaled(rect.height as i128, scale);
    match part {
        PartId::Left => pixel_rect(x, y, visible, height - y),
        PartId::Right => pixel_rect(0, y, visible, height - y),
        PartId::Bottom => pixel_rect(x, 0, width - 2 * x, visible),
        _ => None,
    }
}

pub fn part_draw(id: PartId, part: &Part, scale: u32) -> (d: Option<PartDraw>)
    ensures
        d == spec_part_draw(id, *part, scale),
{
    if part.hide {
        return None;
    }
    match buffer_size(&part.surface_rect, scale) {
        None => None,
        Some((width, height)) => Some(
            PartDraw {
                part: id,
                x: part.surface_rect.x,
                y: part.surface_rect.y,
                width,
                height,
                stride: 4 * width,
                scale,
                border: border_strip(id, &part.surface_rect, scale),
            },
        ),
    }
}

/// The part of the title bar that the title may show in: from `left2` on,
/// `width2` wide, both in half pixels, and `height` pixels high.
#[derive(Debug, Clone, Copy, PartialEq, Eq, Structural)]
pub struct TitleClip {
    pub left2: i128,
    pub width2: i128,
    pub height: u32,
}

/// Where the raster of the title is drawn on the title bar, in pixels, and the part
/// of the title bar that it may show in. Without such a part no title is drawn.
#[derive(Debug, Clone, Copy, PartialEq, Eq, Structural)]
pub struct TitlePlacement {
    pub x: i32,
    pub y: i32,
    pub clip: Option<TitleClip>,
}

/// Half of `v`, rounded towards zero.
pub open spec fn half(v: int) -> int {
    if v >= 0 {
        v / 2
    } else {
        -((-v) / 2)
    }
}

/// `v`, or the bound of `i32` that it lies beyond.
pub open spec fn clamp_i32(v: int) -> i32 {
    if v < i32::MIN {
        i32::MIN
    } else if v > i32::MAX {
        i32::MAX
    } else {
        v as i32
    }
}

/// The place of a title of `text_w` by `text_h` pixels on a title bar of
/// `canvas_w` by `canvas_h` pixels.
///
/// The title is centred on the title bar where it then keeps `TEXT_OFFSET` from
/// the buttons on both sides. Else it starts `TEXT_OFFSET` behind the buttons of
/// the left side, or behind the left edge. It never starts before the margin and
/// `TEXT_OFFSET`, and shows only up to `TEXT_OFFSET` before the buttons of the right
/// side.
pub open spec fn spec_title_placement(
    canvas_w: u32,
    canvas_h: u32,
    text_w: u32,
    text_h: u32,
    scale: u32,
    state: WindowState,
    buttons: Buttons,
) -> TitlePlacement {
    let margin = spec_margin_h(state);
    let offset = TEXT_OFFSET * scale;
    let left = match buttons.spec_right_most_left() {
        Some(b) => (b.spec_x() + b.spec_size()) * scale,
        None => 0,
    };
    let right = buttons.spec_left_most().spec_x() * scale;
    let centred2 = canvas_w - text_w;
    let fits = centred2 + 2 * text_w < 2 * (right - offset) && centred2 > 2 * (left + offset);
    let start2 = if fits {
        centred2
    } else {
        2 * (left + offset)
    };
    let width2 = 2 * (right - offset) - start2;
    let least2 = 2 * (2 * margin + offset);
    let x2 = if start2 >= least2 {
        start2
    } else {
        least2
    };
    TitlePlacement {
        x: clamp_i32(half(x2)),
        y: clamp_i32(half(canvas_h - text_h)),
        clip: if width2 >= 0 {
            Some(TitleClip { left2: start2 as i128, width2: width2 as i128, height: canvas_h })
        } else {
            None
        },
    }
}

fn clamped_half(v: i128) -> (h: i32)
    requires
        -0x1_0000_0000_0000_0000_0000 <= v <= 0x1_0000_0000_0000_0000_0000,
    ensures
        h == clamp_i32(half(v as int)),
{
    let halved: i128 = if v >= 0 {
        v / 2
    } else {
        -((-v) / 2)
    };
    if halved < i32::MIN as i128 {
        i32::MIN
    } else if halved > i32::MAX as i128 {
        i32::MAX
    } else {
        halved as i32
    }
}

pub fn title_placement(
    canvas_w: u32,
    canvas_h: u32,
    text_w: u32,
    text_h: u32,
    scale: u32,
    state: &WindowState,
    buttons: &Buttons,
) -> (p: TitlePlacement)
    ensures
        p == spec_title_placement(canvas_w, canvas_h, text_w, text_h, scale, *state, *buttons),
{
    let margin = margin_h(state);
    let offset: i128 = scaled(TEXT_OFFSET as i128, scale);
    let left: i128 = match buttons.left_buttons_end_x() {
        Some(end) => scaled(end as i128, scale),
        None => 0,
    };
    let right: i128 = scaled(buttons.right_buttons_start_x() as i128, scale);
    let centred2: i128 = canvas_w as i128 - text_w as i128;
    let fits = centred2 + 2 * (text_w as i128) < 2 * (right - offset) && centred2 > 2 * (left
        + offset);
    let start2: i128 = if fits {
        centred2
    } else {
        2 * (left + offset)
    };
    let width2: i128 = 2 * (right - offset) - start2;
    let least2: i128 = 2 * (2 * (margin as i128) + offset);
    let x2: i128 = if start2 >= least2 {
        start2
    } else {
        least2
    };
    TitlePlacement {
        x: clamped_half(x2),
        y: clamped_half(canvas_h as i128 - text_h as i128),
        clip: if width2 >= 0 {
            Some(TitleClip { left2: start2, width2, height: canvas_h })
        } else {
            None
        },
    }
}

/// How the title bar is drawn.
#[derive(Debug, Clone, Copy, PartialEq, Eq, Structural)]
pub struct HeaderDraw {
    /// The radius of the two top corners, in logical points.
    pub radius: u32,
    pub background: Paint,
    /// The paint of the line along the bottom of the title bar.
    pub border: Paint,
    /// The line along the bottom of the title bar.
    pub line: Option<PixelRect>,
    /// Where the title goes, where it has a raster.
    pub title: Option<TitlePlacement>,
    pub close: ButtonDraw,
    pub maximize: Option<ButtonDraw>,
    pub minimize: Option<ButtonDraw>,
}

} // verus!
