//! A decoration on one surface that lies around the whole window: the borders and
//! the title bar in one piece.

use vstd::prelude::*;
use crate::buttons::Buttons;
use crate::pointer::{Fixed, Location};
use crate::theme::{BORDER_SIZE, HEADER_SIZE};

verus! {

/// The largest window that a decoration on one surface is made for.
pub const MAX_WINDOW: u32 = 0x7f_0000;

/// A width and a height.
#[derive(Debug, Clone, Copy, PartialEq, Eq, Structural)]
pub struct Size {
    pub width: u32,
    pub height: u32,
}

#[derive(Debug, Clone, Copy, PartialEq, Eq, Structural)]
pub struct DecorationSurface {
    pub window_size: Size,
    pub surface_size: Size,
    pub maximized_surface_size: Size,
    pub maximized: bool,
    pub tiled: bool,
    pub resizable: bool,
    pub buttons: Buttons,
}

impl DecorationSurface {
    /// The decoration of a window of which nothing is known yet.
    pub open spec fn spec_new() -> DecorationSurface {
        DecorationSurface {
            window_size: Size { width: 0, height: 0 },
            surface_size: Size { width: 0, height: 0 },
            maximized_surface_size: Size { width: 0, height: 0 },
            maximized: false,
            tiled: false,
            resizable: true,
            buttons: Buttons::spec_new(
                crate::buttons::ButtonLayout {
                    maximize: crate::buttons::Side::Right,
                    minimize: crate::buttons::Side::Right,
                },
            ),
        }
    }

    /// The size of the surface: that of the window with its title bar, and with
    /// its borders where the window is not maximized.
    pub open spec fn spec_surface_size(self) -> Size {
        if self.maximized {
            self.maximized_surface_size
        } else {
            self.surface_size
        }
    }

    /// Where the surface lies relative to the content: above it by the title bar,
    /// and out by the border where the window is not maximized.
    pub open spec fn spec_position(maximized: bool) -> (i32, i32) {
        if maximized {
            (0, (-(HEADER_SIZE as int)) as i32)
        } else {
            ((-(BORDER_SIZE as int)) as i32, (-(HEADER_SIZE as int) - BORDER_SIZE) as i32)
        }
    }

    /// The decoration for a window of that size.
    pub open spec fn spec_update_window_size(self, width: u32, height: u32) -> DecorationSurface {
        DecorationSurface {
            window_size: Size { width, height },
            surface_size: Size {
                width: (width + BORDER_SIZE * 2) as u32,
                height: (height + HEADER_SIZE + BORDER_SIZE * 2) as u32,
            },
            maximized_surface_size: Size { width, height: (height + HEADER_SIZE) as u32 },
            ..self
        }
    }

    /// The point lies in the strip along one side of the surface, or on its rim.
    /// The strips are a border wide; the right one begins half a border from the
    /// right end.
    pub open spec fn in_strip(self, location: Location, x: Fixed, y: Fixed) -> bool {
        let size = self.spec_surface_size();
        let border = BORDER_SIZE * 256;
        match location {
            Location::Top => 0 <= x.raw <= size.width * 256 && 0 <= y.raw <= border,
            Location::Bottom => 0 <= x.raw <= size.width * 256 && size.height * 256 - border
                <= y.raw <= size.height * 256,
            Location::Left => 0 <= x.raw <= border && 0 <= y.raw <= size.height * 256,
            Location::Right => size.width * 256 - 5 * 256 <= x.raw <= size.width * 256 - 5 * 256
                + border && 0 <= y.raw <= size.height * 256,
            _ => false,
        }
    }

    /// The location of a pointer at (`x`, `y`) of the surface: the button under it;
    /// else the border or corner whose strips it is in, top and bottom before left
    /// and right; else the title bar.
    pub open spec fn spec_precise_location(self, x: Fixed, y: Fixed) -> Location {
        let found = self.buttons.spec_find_button(x, y);
        let left = self.in_strip(Location::Left, x, y);
        let right = self.in_strip(Location::Right, x, y);
        if found != Location::Head {
            found
        } else if self.in_strip(Location::Top, x, y) {
            if left {
                Location::TopLeft
            } else if right {
                Location::TopRight
            } else {
                Location::Top
            }
        } else if self.in_strip(Location::Bottom, x, y) {
            if left {
                Location::BottomLeft
            } else if right {
                Location::BottomRight
            } else {
                Location::Bottom
            }
        } else if left {
            Location::Left
        } else if right {
            Location::Right
        } else {
            Location::Head
        }
    }

    #[verifier::when_used_as_spec(spec_new)]
    pub fn new() -> (s: DecorationSurface)
        ensures
            s == Self::spec_new(),
    {
        DecorationSurface {
            window_size: Size { width: 0, height: 0 },
            surface_size: Size { width: 0, height: 0 },
            maximized_surface_size: Size { width: 0, height: 0 },
            maximized: false,
            tiled: false,
            resizable: true,
            buttons: Buttons::default(),
        }
    }

    pub fn surface_size(&self) -> (size: Size)
        ensures
            size == self.spec_surface_size(),
    {
        if self.maximized {
            self.maximized_surface_size
        } else {
            self.surface_size
        }
    }

    /// Notes whether the window is maximized. The result is where the surface is
    /// to be put.
    pub fn set_maximized(&mut self, maximized: bool) -> (position: (i32, i32))
        ensures
            *final(self) == (DecorationSurface { maximized, ..*old(self) }),
            position == Self::spec_position(maximized),
    {
        self.maximized = maximized;

        if maximized {
            (0, -(HEADER_SIZE as i32))
        } else {
            (-(BORDER_SIZE as i32), -(HEADER_SIZE as i32) - (BORDER_SIZE as i32))
        }
    }

    /// Notes whether the window is tiled.
    pub fn set_title(&mut self, tiled: bool)
        ensures
            *final(self) == (DecorationSurface { tiled, ..*old(self) }),
    {
        self.tiled = tiled;
    }

    pub fn set_resizable(&mut self, resizable: bool)
        ensures
            *final(self) == (DecorationSurface { resizable, ..*old(self) }),
    {
        self.resizable = resizable;
    }

    /// Takes the size of the window, where it is one that a decoration is made
    /// for; else nothing changes.
    pub fn update_window_size(&mut self, width: u32, height: u32) -> (taken: bool)
        ensures
            taken == (width <= MAX_WINDOW && height <= MAX_WINDOW),
            taken ==> *final(self) == old(self).spec_update_window_size(width, height),
            !taken ==> *final(self) == *old(self),
    {
        if width > MAX_WINDOW || height > MAX_WINDOW {
            return false;
        }
        self.window_size = Size { width, height };
        self.surface_size = Size {
            width: width + BORDER_SIZE * 2,
            height: height + HEADER_SIZE + BORDER_SIZE * 2,
        };
        self.maximized_surface_size = Size { width, height: height + HEADER_SIZE };
        true
    }

    fn within(value: i64, from: i64, to: i64) -> (inside: bool)
        ensures
            inside == (from <= value <= to),
    {
        from <= value && value <= to
    }

    pub fn precise_location(&self, x: Fixed, y: Fixed) -> (l: Location)
        ensures
            l == self.spec_precise_location(x, y),
    {
        let size = self.surface_size();
        let width: i64 = (size.width as i64) * 256;
        let height: i64 = (size.height as i64) * 256;
        let border: i64 = (BORDER_SIZE as i64) * 256;
        let px: i64 = x.raw as i64;
        let py: i64 = y.raw as i64;

        match self.buttons.find_button(x, y) {
            Location::Head => {},
            button => {
                return button;
            },
        }
        let is_top = Self::within(px, 0, width) && Self::within(py, 0, border);
        let is_bottom = Self::within(px, 0, width) && Self::within(py, height - border, height);

        let is_left = Self::within(px, 0, border) && Self::within(py, 0, height);
        let is_right = Self::within(px, width - 5 * 256, width - 5 * 256 + border)
            && Self::within(py, 0, height);

        if is_top {
            if is_left {
                Location::TopLeft
            } else if is_right {
                Location::TopRight
            } else {
                Location::Top
            }
        } else if is_bottom {
            if is_left {
                Location::BottomLeft
            } else if is_right {
                Location::BottomRight
            } else {
                Location::Bottom
            }
        } else if is_left {
            Location::Left
        } else if is_right {
            Location::Right
        } else {
            Location::Head
        }
    }
}

} // verus!
