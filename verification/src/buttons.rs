//! The buttons of the title bar.

use vstd::prelude::*;
use crate::pointer::{Fixed, Location};
use crate::state::{WindowManagerCapabilities, WindowState};
use crate::theme::{ColorMap, Paint};

verus! {

/// The size of a button on the title bar, in logical points.
pub const BUTTON_SIZE: u32 = 24;

/// The gap between a button and the edge of the title bar.
pub const BUTTON_MARGIN: u32 = 5;

/// The gap between two buttons.
pub const BUTTON_SPACING: u32 = 13;

/// No button lies further than this from the left edge of the title bar.
pub const OFFSET_LIMIT: i64 = 0x100_0000_0000;

#[derive(Debug, Copy, Clone, PartialEq, Eq, Structural)]
pub enum ButtonKind {
    Close,
    Maximize,
    Minimize,
}

/// The side of the title bar on which a button lies.
#[derive(Debug, Copy, Clone, PartialEq, Eq, Structural)]
pub enum Side {
    Left,
    Right,
}

/// Where the two buttons lie that a window need not have. The close button is
/// always on the right.
#[derive(Debug, Copy, Clone, PartialEq, Eq, Structural)]
pub struct ButtonLayout {
    pub maximize: Side,
    pub minimize: Side,
}

impl Default for ButtonLayout {
    fn default() -> (l: ButtonLayout)
        ensures
            l == (ButtonLayout { maximize: Side::Right, minimize: Side::Right }),
    {
        ButtonLayout { maximize: Side::Right, minimize: Side::Right }
    }
}

/// One button: a square of `size` points, `offset` points from the left edge of the
/// title bar and `BUTTON_MARGIN` from its top.
#[derive(Debug, Copy, Clone, PartialEq, Eq, Structural)]
pub struct Button {
    offset: i64,
    size: u32,
    kind: ButtonKind,
}

impl Button {
    #[verifier::type_invariant]
    spec fn within_limit(self) -> bool {
        -OFFSET_LIMIT <= self.offset <= OFFSET_LIMIT
    }

    /// The distance of the button from the left edge of the title bar.
    pub closed spec fn spec_x(self) -> i64 {
        self.offset
    }

    /// The side of the square.
    pub closed spec fn spec_size(self) -> u32 {
        self.size
    }

    pub closed spec fn spec_kind(self) -> ButtonKind {
        self.kind
    }

    /// A button of `kind` that has the usual size and is not placed yet.
    pub closed spec fn spec_new(kind: ButtonKind) -> Button {
        Button { offset: 0, size: BUTTON_SIZE, kind }
    }

    /// A button of `kind` with the given place and size.
    pub closed spec fn spec_at(kind: ButtonKind, offset: i32, size: u32) -> Button {
        Button { offset: offset as i64, size, kind }
    }

    /// The button moved to `offset`.
    pub closed spec fn spec_moved_to(self, offset: i64) -> Button {
        Button { offset, ..self }
    }

    /// The point lies inside the square of the button, not on its rim.
    pub open spec fn spec_contains(self, x: Fixed, y: Fixed) -> bool {
        &&& x.raw > self.spec_x() * 256
        &&& x.raw < (self.spec_x() + self.spec_size()) * 256
        &&& y.raw > BUTTON_MARGIN * 256
        &&& y.raw < (BUTTON_MARGIN + self.spec_size()) * 256
    }

    /// What is known of every button, and what its parts are.
    pub proof fn lemma_parts(self)
        ensures
            self.spec_moved_to(self.spec_x()) == self,
            forall|kind: ButtonKind|
                #![trigger Button::spec_new(kind)]
                Button::spec_new(kind).spec_x() == 0 && Button::spec_new(kind).spec_size()
                    == BUTTON_SIZE && Button::spec_new(kind).spec_kind() == kind,
            forall|kind: ButtonKind, offset: i32, size: u32|
                #![trigger Button::spec_at(kind, offset, size)]
                Button::spec_at(kind, offset, size).spec_x() == offset && Button::spec_at(
                    kind,
                    offset,
                    size,
                ).spec_size() == size && Button::spec_at(kind, offset, size).spec_kind() == kind,
            forall|offset: i64|
                #![trigger self.spec_moved_to(offset)]
                self.spec_moved_to(offset).spec_x() == offset && self.spec_moved_to(
                    offset,
                ).spec_size() == self.spec_size() && self.spec_moved_to(offset).spec_kind()
                    == self.spec_kind(),
    {
    }

    pub fn new(kind: ButtonKind) -> (b: Button)
        ensures
            b == Self::spec_new(kind),
            b.spec_x() == 0,
            b.spec_size() == BUTTON_SIZE,
            b.spec_kind() == kind,
    {
        Button { offset: 0, size: BUTTON_SIZE, kind }
    }

    /// A button with a place and a size of its own.
    pub fn at(kind: ButtonKind, offset: i32, size: u32) -> (b: Button)
        ensures
            b == Self::spec_at(kind, offset, size),
            b.spec_x() == offset,
            b.spec_size() == size,
            b.spec_kind() == kind,
    {
        Button { offset: offset as i64, size, kind }
    }

    fn moved_to(self, offset: i64) -> (b: Button)
        requires
            -OFFSET_LIMIT <= offset <= OFFSET_LIMIT,
        ensures
            b == self.spec_moved_to(offset),
            b.spec_x() == offset,
            b.spec_size() == self.spec_size(),
            b.spec_kind() == self.spec_kind(),
    {
        Button { offset, size: self.size, kind: self.kind }
    }

    pub fn kind(&self) -> (k: ButtonKind)
        ensures
            k == self.spec_kind(),
    {
        self.kind
    }

    pub fn size(&self) -> (s: u32)
        ensures
            s == self.spec_size(),
    {
        self.size
    }

    /// Half the side of the square, rounded down.
    pub fn radius(&self) -> (r: u32)
        ensures
            r == self.spec_size() / 2,
    {
        self.size / 2
    }

    pub fn x(&self) -> (x: i64)
        ensures
            x == self.spec_x(),
            -OFFSET_LIMIT <= x <= OFFSET_LIMIT,
    {
        proof {
            use_type_invariant(self);
        }
        self.offset
    }

    /// The right rim of the button.
    pub fn end_x(&self) -> (x: i64)
        ensures
            x == self.spec_x() + self.spec_size(),
            -OFFSET_LIMIT <= x <= OFFSET_LIMIT + u32::MAX,
    {
        proof {
            use_type_invariant(self);
        }
        self.offset + self.size as i64
    }

    pub fn center_x(&self) -> (x: i64)
        ensures
            x == self.spec_x() + self.spec_size() / 2,
    {
        proof {
            use_type_invariant(self);
        }
        self.offset + (self.size / 2) as i64
    }

    pub fn center_y(&self) -> (y: i64)
        ensures
            y == BUTTON_MARGIN + self.spec_size() / 2,
    {
        BUTTON_MARGIN as i64 + (self.size / 2) as i64
    }

    pub fn contains(&self, x: Fixed, y: Fixed) -> (inside: bool)
        ensures
            inside == self.spec_contains(x, y),
    {
        proof {
            use_type_invariant(self);
        }
        let left: i64 = self.offset * 256;
        let right: i64 = (self.offset + self.size as i64) * 256;
        let top: i64 = (BUTTON_MARGIN as i64) * 256;
        let bottom: i64 = (BUTTON_MARGIN as i64 + self.size as i64) * 256;
        let px: i64 = x.raw as i64;
        let py: i64 = y.raw as i64;
        px > left && px < right && py > top && py < bottom
    }
}

/// The sign on a button.
#[derive(Debug, Copy, Clone, PartialEq, Eq, Structural)]
pub enum ButtonIcon {
    /// Two diagonal strokes.
    Cross,
    /// The outline of a square.
    Square,
    /// The outline of a square with a second one behind it: the window is
    /// maximized, and the button brings it back.
    TwoSquares,
    /// A bar at the middle of the button.
    Bar,
}

/// The outline of a button and of its sign, in tenths of a pixel.
///
/// The cross is two strokes through the middle of the disc, each reaching `reach`
/// to either side along both axes. The square has its sides `reach` from the
/// middle; the second square behind it lies `shift` to the right and `shift` higher,
/// and only its top and right sides show. The bar is `2 * reach` long and `stroke`
/// high; its left end lies `reach` left of the middle and its top `reach` below.
#[derive(Debug, Copy, Clone, PartialEq, Eq, Structural)]
pub struct ButtonShape {
    /// The middle of the disc.
    pub center_x: i128,
    pub center_y: i128,
    /// The radius of the disc.
    pub radius: i128,
    /// How far the sign reaches from the middle.
    pub reach: i128,
    /// The width of the strokes of the sign; the height of the bar.
    pub stroke: i128,
    /// How far the second square is moved; zero where there is none.
    pub shift: i128,
}

/// How a button is to be painted: a disc with a sign on it.
#[derive(Debug, Copy, Clone, PartialEq, Eq, Structural)]
pub struct ButtonDraw {
    pub kind: ButtonKind,
    /// The middle of the disc, in logical points from the top left corner of the title bar.
    pub center_x: i64,
    pub center_y: i64,
    /// The radius of the disc, in logical points.
    pub radius: u32,
    /// The number of pixels in a logical point.
    pub scale: u32,
    pub background: Paint,
    pub icon: ButtonIcon,
    pub icon_paint: Paint,
    pub shape: ButtonShape,
}

impl Button {
    /// The pointer lights the button up: it is over it, and the button can be used.
    /// The maximize button of a window that cannot be resized never lights up.
    pub open spec fn spec_hovered(self, mouse_location: Location, resizable: bool) -> bool {
        mouse_location == Location::Button(self.spec_kind()) && (resizable || self.spec_kind()
            != ButtonKind::Maximize)
    }

    /// The sign on the button.
    pub open spec fn spec_icon(self, state: WindowState) -> ButtonIcon {
        match self.spec_kind() {
            ButtonKind::Close => ButtonIcon::Cross,
            ButtonKind::Maximize => if state.maximized {
                ButtonIcon::TwoSquares
            } else {
                ButtonIcon::Square
            },
            ButtonKind::Minimize => ButtonIcon::Bar,
        }
    }

    /// The outline of the button and of its sign at `scale` pixels to the point.
    ///
    /// The cross reaches 3.5 points from the middle with strokes of 1.1 points. The
    /// square and the bar are 8 points wide with strokes of one point, and the second
    /// square is moved by 2 points.
    pub open spec fn spec_shape(self, scale: u32, state: WindowState) -> ButtonShape {
        let icon = self.spec_icon(state);
        ButtonShape {
            center_x: ((10 * self.spec_x() + 5 * self.spec_size()) * scale) as i128,
            center_y: ((10 * BUTTON_MARGIN + 5 * self.spec_size()) * scale) as i128,
            radius: (5 * self.spec_size() * scale) as i128,
            reach: if icon == ButtonIcon::Cross {
                (35 * scale) as i128
            } else {
                (40 * scale) as i128
            },
            stroke: if icon == ButtonIcon::Cross {
                (11 * scale) as i128
            } else {
                (10 * scale) as i128
            },
            shift: if icon == ButtonIcon::TwoSquares {
                (20 * scale) as i128
            } else {
                0
            },
        }
    }

    /// The outline of the button and of its sign at `scale` pixels to the point.
    pub fn shape(&self, scale: u32, state: &WindowState) -> (shape: ButtonShape)
        ensures
            shape == self.spec_shape(scale, *state),
    {
        proof {
            use_type_invariant(self);
        }
        let wide: i128 = scale as i128;
        let size: i128 = self.size as i128;
        let x: i128 = 10 * (self.offset as i128) + 5 * size;
        let y: i128 = 10 * (BUTTON_MARGIN as i128) + 5 * size;
        assert(-0x1_0000_0000_0000_0000_0000 <= x * wide <= 0x1_0000_0000_0000_0000_0000
            && 0 <= y * wide <= 0x1_0000_0000_0000_0000_0000 && 0 <= (5 * size) * wide
            <= 0x1_0000_0000_0000_0000_0000) by (nonlinear_arith)
            requires
                -0x1000_0000_0000 <= x <= 0x1000_0000_0000,
                0 <= y <= 0x1000_0000_0000,
                0 <= 5 * size <= 0x1000_0000_0000,
                0 <= wide <= 0xffff_ffff,
        ;
        let is_cross = match self.kind {
            ButtonKind::Close => true,
            _ => false,
        };
        let is_maximize = match self.kind {
            ButtonKind::Maximize => true,
            _ => false,
        };
        ButtonShape {
            center_x: x * wide,
            center_y: y * wide,
            radius: (5 * size) * wide,
            reach: if is_cross {
                35 * wide
            } else {
                40 * wide
            },
            stroke: if is_cross {
                11 * wide
            } else {
                10 * wide
            },
            shift: if is_maximize && state.maximized {
                20 * wide
            } else {
                0
            },
        }
    }

    /// How the button is painted. Only the cross, which is diagonal, is smoothed.
    pub open spec fn spec_draw(
        self,
        scale: u32,
        colors: ColorMap,
        mouse_location: Location,
        resizable: bool,
        state: WindowState,
    ) -> ButtonDraw {
        ButtonDraw {
            kind: self.spec_kind(),
            center_x: (self.spec_x() + self.spec_size() / 2) as i64,
            center_y: (BUTTON_MARGIN + self.spec_size() / 2) as i64,
            radius: self.spec_size() / 2,
            scale,
            background: Paint {
                color: if self.spec_hovered(mouse_location, resizable) {
                    colors.button_hover
                } else {
                    colors.button_idle
                },
                anti_alias: true,
            },
            icon: self.spec_icon(state),
            icon_paint: Paint {
                color: colors.button_icon,
                anti_alias: self.spec_kind() == ButtonKind::Close,
            },
            shape: self.spec_shape(scale, state),
        }
    }

    pub fn draw(
        &self,
        scale: u32,
        colors: &ColorMap,
        mouse_location: Location,
        resizable: bool,
        state: &WindowState,
    ) -> (d: ButtonDraw)
        ensures
            d == self.spec_draw(scale, *colors, mouse_location, resizable, *state),
    {
        let over = match mouse_location {
            Location::Button(kind) => kind == self.kind,
            _ => false,
        };
        let is_maximize = match self.kind {
            ButtonKind::Maximize => true,
            _ => false,
        };
        let background = if over && (resizable || !is_maximize) {
            colors.button_hover_paint()
        } else {
            colors.button_idle_paint()
        };

        let mut icon_paint = colors.button_icon_paint();
        // Only the cross has diagonal strokes, which need smoothing.
        icon_paint.anti_alias = match self.kind {
            ButtonKind::Close => true,
            _ => false,
        };

        let icon = match self.kind {
            ButtonKind::Close => ButtonIcon::Cross,
            ButtonKind::Maximize => {
                if state.maximized {
                    ButtonIcon::TwoSquares
                } else {
                    ButtonIcon::Square
                }
            },
            ButtonKind::Minimize => ButtonIcon::Bar,
        };

        ButtonDraw {
            kind: self.kind,
            center_x: self.center_x(),
            center_y: self.center_y(),
            radius: self.radius(),
            scale,
            background,
            icon,
            icon_paint,
            shape: self.shape(scale, state),
        }
    }
}

/// The buttons of a title bar. The close button is always there; the other two are
/// there where the window manager can do what they stand for.
#[derive(Debug, Copy, Clone, PartialEq, Eq, Structural)]
pub struct Buttons {
    pub close: Button,
    pub maximize: Option<Button>,
    pub minimize: Option<Button>,
    pub layout: ButtonLayout,
}

impl Buttons {
    /// All three buttons, none of them placed yet.
    pub open spec fn spec_new(layout: ButtonLayout) -> Buttons {
        Buttons {
            close: Button::spec_new(ButtonKind::Close),
            maximize: Some(Button::spec_new(ButtonKind::Maximize)),
            minimize: Some(Button::spec_new(ButtonKind::Minimize)),
            layout,
        }
    }

    /// The maximize button is there and on the right.
    pub open spec fn maximize_right(self) -> bool {
        self.maximize is Some && self.layout.maximize == Side::Right
    }

    /// The maximize button is there and on the left.
    pub open spec fn maximize_left(self) -> bool {
        self.maximize is Some && self.layout.maximize == Side::Left
    }

    /// The place of the right button number `k`, counted from the right edge of a
    /// title bar `width` points wide.
    pub open spec fn right_slot(width: u32, k: int) -> int {
        width - BUTTON_MARGIN - BUTTON_SIZE - k * (BUTTON_SIZE + BUTTON_SPACING)
    }

    /// The place of the left button number `k`, counted from the left edge, behind
    /// a margin of `margin_h` points.
    pub open spec fn left_slot(margin_h: u32, k: int) -> int {
        BUTTON_MARGIN + margin_h + k * (BUTTON_SIZE + BUTTON_SPACING)
    }

    /// Where the maximize button lies in a title bar of that width and margin.
    pub open spec fn maximize_slot(self, width: u32, margin_h: u32) -> int {
        if self.layout.maximize == Side::Right {
            Self::right_slot(width, 1)
        } else {
            Self::left_slot(margin_h, 0)
        }
    }

    /// Where the minimize button lies: behind the maximize button where that is on
    /// the same side, else next to the close button or the left edge.
    pub open spec fn minimize_slot(self, width: u32, margin_h: u32) -> int {
        if self.layout.minimize == Side::Right {
            Self::right_slot(
                width,
                if self.maximize_right() {
                    2
                } else {
                    1
                },
            )
        } else {
            Self::left_slot(
                margin_h,
                if self.maximize_left() {
                    1
                } else {
                    0
                },
            )
        }
    }

    /// The buttons placed in a title bar `width` points wide: from the right edge
    /// inwards the close button and then the others that are on the right, from the
    /// left edge inwards those that are on the left, the maximize button before the
    /// minimize button.
    pub open spec fn spec_arrange(self, width: u32, margin_h: u32) -> Buttons {
        Buttons {
            close: self.close.spec_moved_to(Self::right_slot(width, 0) as i64),
            maximize: match self.maximize {
                Some(b) => Some(b.spec_moved_to(self.maximize_slot(width, margin_h) as i64)),
                None => None,
            },
            minimize: match self.minimize {
                Some(b) => Some(b.spec_moved_to(self.minimize_slot(width, margin_h) as i64)),
                None => None,
            },
            layout: self.layout,
        }
    }

    /// The button under the point: the first of close, maximize and minimize whose
    /// square holds it; the title bar itself where none does.
    pub open spec fn spec_find_button(self, x: Fixed, y: Fixed) -> Location {
        if self.close.spec_contains(x, y) {
            Location::Button(ButtonKind::Close)
        } else if self.maximize matches Some(b) && b.spec_contains(x, y) {
            Location::Button(ButtonKind::Maximize)
        } else if self.minimize matches Some(b) && b.spec_contains(x, y) {
            Location::Button(ButtonKind::Minimize)
        } else {
            Location::Head
        }
    }

    /// The buttons for a window manager of these capabilities: the two that a
    /// window need not have are made anew, or taken away.
    pub open spec fn spec_update(self, capabilities: WindowManagerCapabilities) -> Buttons {
        Buttons {
            close: self.close,
            maximize: if capabilities.maximize {
                Some(Button::spec_new(ButtonKind::Maximize))
            } else {
                None
            },
            minimize: if capabilities.minimize {
                Some(Button::spec_new(ButtonKind::Minimize))
            } else {
                None
            },
            layout: self.layout,
        }
    }

    /// The button of the right side that lies furthest to the left.
    pub open spec fn spec_left_most(self) -> Button {
        if self.minimize is Some && self.layout.minimize == Side::Right {
            self.minimize.unwrap()
        } else if self.maximize_right() {
            self.maximize.unwrap()
        } else {
            self.close
        }
    }

    /// The button of the left side that lies furthest to the right.
    pub open spec fn spec_right_most_left(self) -> Option<Button> {
        if self.minimize is Some && self.layout.minimize == Side::Left {
            self.minimize
        } else if self.maximize_left() {
            self.maximize
        } else {
            None
        }
    }

    #[verifier::when_used_as_spec(spec_new)]
    pub fn new(layout: ButtonLayout) -> (b: Buttons)
        ensures
            b == Self::spec_new(layout),
    {
        Buttons {
            close: Button::new(ButtonKind::Close),
            maximize: Some(Button::new(ButtonKind::Maximize)),
            minimize: Some(Button::new(ButtonKind::Minimize)),
            layout,
        }
    }

    /// Rearrange the buttons for a title bar of the new width.
    pub fn arrange(&mut self, width: u32, margin_h: u32)
        ensures
            *final(self) == old(self).spec_arrange(width, margin_h),
    {
        let step: i64 = (BUTTON_SIZE + BUTTON_SPACING) as i64;
        let mut right_x: i64 = width as i64 - BUTTON_MARGIN as i64;
        let mut left_x: i64 = BUTTON_MARGIN as i64 + margin_h as i64;

        right_x = right_x - BUTTON_SIZE as i64;
        self.close = self.close.moved_to(right_x);
        right_x = right_x - BUTTON_SPACING as i64;

        match self.maximize {
            Some(button) => {
                match self.layout.maximize {
                    Side::Right => {
                        right_x = right_x - BUTTON_SIZE as i64;
                        self.maximize = Some(button.moved_to(right_x));
                        right_x = right_x - BUTTON_SPACING as i64;
                    },
                    Side::Left => {
                        self.maximize = Some(button.moved_to(left_x));
                        left_x = left_x + step;
                    },
                }
            },
            None => {},
        }

        match self.minimize {
            Some(button) => {
                match self.layout.minimize {
                    Side::Right => {
                        right_x = right_x - BUTTON_SIZE as i64;
                        self.minimize = Some(button.moved_to(right_x));
                    },
                    Side::Left => {
                        self.minimize = Some(button.moved_to(left_x));
                    },
                }
            },
            None => {},
        }
    }

    /// Find the button under a point of the title bar.
    pub fn find_button(&self, x: Fixed, y: Fixed) -> (l: Location)
        ensures
            l == self.spec_find_button(x, y),
    {
        if self.close.contains(x, y) {
            return Location::Button(ButtonKind::Close);
        }
        match &self.maximize {
            Some(b) => {
                if b.contains(x, y) {
                    return Location::Button(ButtonKind::Maximize);
                }
            },
            None => {},
        }
        match &self.minimize {
            Some(b) => {
                if b.contains(x, y) {
                    return Location::Button(ButtonKind::Minimize);
                }
            },
            None => {},
        }
        Location::Head
    }

    pub fn update(&mut self, wm_capabilites: WindowManagerCapabilities)
        ensures
            *final(self) == old(self).spec_update(wm_capabilites),
    {
        self.maximize = if wm_capabilites.maximize {
            Some(Button::new(ButtonKind::Maximize))
        } else {
            None
        };
        self.minimize = if wm_capabilites.minimize {
            Some(Button::new(ButtonKind::Minimize))
        } else {
            None
        };
    }

    pub fn left_most(&self) -> (b: &Button)
        ensures
            *b == self.spec_left_most(),
    {
        match (&self.minimize, self.layout.minimize) {
            (Some(minimize), Side::Right) => {
                return minimize;
            },
            _ => {},
        }
        match (&self.maximize, self.layout.maximize) {
            (Some(maximize), Side::Right) => {
                return maximize;
            },
            _ => {},
        }
        &self.close
    }

    /// Where the buttons of the right side begin.
    pub fn right_buttons_start_x(&self) -> (x: i64)
        ensures
            x == self.spec_left_most().spec_x(),
            -OFFSET_LIMIT <= x <= OFFSET_LIMIT,
    {
        self.left_most().x()
    }

    /// Where the buttons of the left side end, if there are any.
    pub fn left_buttons_end_x(&self) -> (x: Option<i64>)
        ensures
            x.is_some() == self.spec_right_most_left().is_some(),
            x matches Some(end) ==> end == self.spec_right_most_left().unwrap().spec_x()
                + self.spec_right_most_left().unwrap().spec_size(),
            x matches Some(end) ==> -OFFSET_LIMIT <= end <= OFFSET_LIMIT + u32::MAX,
    {
        match (&self.minimize, self.layout.minimize) {
            (Some(minimize), Side::Left) => {
                return Some(minimize.end_x());
            },
            _ => {},
        }
        match (&self.maximize, self.layout.maximize) {
            (Some(maximize), Side::Left) => {
                return Some(maximize.end_x());
            },
            _ => {},
        }
        None
    }

    /// The three places of the title bar, in the order close, maximize, minimize.
    pub fn iter(&self) -> (all: Vec<Option<Button>>)
        ensures
            all@ == seq![Some(self.close), self.maximize, self.minimize],
    {
        let mut all: Vec<Option<Button>> = Vec::new();
        all.push(Some(self.close));
        all.push(self.maximize);
        all.push(self.minimize);
        all
    }
}

impl Default for Buttons {
    fn default() -> (b: Buttons)
        ensures
            b == Buttons::spec_new(ButtonLayout { maximize: Side::Right, minimize: Side::Right }),
    {
        Buttons::new(ButtonLayout { maximize: Side::Right, minimize: Side::Right })
    }
}

} // verus!
