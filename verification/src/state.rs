//! What the compositor says of a window: its state, and what the window manager can do.

use vstd::prelude::*;

verus! {

/// The configured state of a window, one flag for each bit the compositor sends.
#[derive(Debug, Clone, Copy, PartialEq, Eq, Structural)]
pub struct WindowState {
    pub maximized: bool,
    pub fullscreen: bool,
    pub resizing: bool,
    pub activated: bool,
    pub tiled_left: bool,
    pub tiled_right: bool,
    pub tiled_top: bool,
    pub tiled_bottom: bool,
    pub suspended: bool,
}

impl WindowState {
    pub const MAXIMIZED: u16 = 0x0001;

    pub const FULLSCREEN: u16 = 0x0002;

    pub const RESIZING: u16 = 0x0004;

    pub const ACTIVATED: u16 = 0x0008;

    pub const TILED_LEFT: u16 = 0x0010;

    pub const TILED_RIGHT: u16 = 0x0020;

    pub const TILED_TOP: u16 = 0x0040;

    pub const TILED_BOTTOM: u16 = 0x0080;

    pub const SUSPENDED: u16 = 0x0100;

    /// The state with no flag set.
    pub open spec fn spec_empty() -> WindowState {
        WindowState {
            maximized: false,
            fullscreen: false,
            resizing: false,
            activated: false,
            tiled_left: false,
            tiled_right: false,
            tiled_top: false,
            tiled_bottom: false,
            suspended: false,
        }
    }

    /// The state whose flags are the bits of `bits`; other bits are ignored.
    pub open spec fn spec_from_bits(bits: u16) -> WindowState {
        WindowState {
            maximized: bits & 0x0001 != 0,
            fullscreen: bits & 0x0002 != 0,
            resizing: bits & 0x0004 != 0,
            activated: bits & 0x0008 != 0,
            tiled_left: bits & 0x0010 != 0,
            tiled_right: bits & 0x0020 != 0,
            tiled_top: bits & 0x0040 != 0,
            tiled_bottom: bits & 0x0080 != 0,
            suspended: bits & 0x0100 != 0,
        }
    }

    /// Some edge of the window is tiled.
    pub open spec fn spec_tiled(self) -> bool {
        self.tiled_left || self.tiled_right || self.tiled_top || self.tiled_bottom
    }

    /// The window fills its place: it is maximized or tiled, and is drawn with square
    /// corners and without edges.
    pub open spec fn spec_docked(self) -> bool {
        self.maximized || self.spec_tiled()
    }

    /// The two states differ in a flag that shows in the decoration: activation,
    /// fullscreen, maximization, or the tiling of an edge.
    pub open spec fn spec_looks_unlike(self, other: WindowState) -> bool {
        ||| self.activated != other.activated
        ||| self.fullscreen != other.fullscreen
        ||| self.maximized != other.maximized
        ||| self.tiled_left != other.tiled_left
        ||| self.tiled_right != other.tiled_right
        ||| self.tiled_top != other.tiled_top
        ||| self.tiled_bottom != other.tiled_bottom
    }

    #[verifier::when_used_as_spec(spec_empty)]
    pub fn empty() -> (s: WindowState)
        ensures
            s == Self::spec_empty(),
    {
        WindowState {
            maximized: false,
            fullscreen: false,
            resizing: false,
            activated: false,
            tiled_left: false,
            tiled_right: false,
            tiled_top: false,
            tiled_bottom: false,
            suspended: false,
        }
    }

    #[verifier::when_used_as_spec(spec_from_bits)]
    pub fn from_bits(bits: u16) -> (s: WindowState)
        ensures
            s == Self::spec_from_bits(bits),
    {
        WindowState {
            maximized: bits & 0x0001 != 0,
            fullscreen: bits & 0x0002 != 0,
            resizing: bits & 0x0004 != 0,
            activated: bits & 0x0008 != 0,
            tiled_left: bits & 0x0010 != 0,
            tiled_right: bits & 0x0020 != 0,
            tiled_top: bits & 0x0040 != 0,
            tiled_bottom: bits & 0x0080 != 0,
            suspended: bits & 0x0100 != 0,
        }
    }

    #[verifier::when_used_as_spec(spec_tiled)]
    pub fn tiled(self) -> (t: bool)
        ensures
            t == self.spec_tiled(),
    {
        self.tiled_left || self.tiled_right || self.tiled_top || self.tiled_bottom
    }

    #[verifier::when_used_as_spec(spec_docked)]
    pub fn docked(self) -> (d: bool)
        ensures
            d == self.spec_docked(),
    {
        self.maximized || self.tiled()
    }

    #[verifier::when_used_as_spec(spec_looks_unlike)]
    pub fn looks_unlike(self, other: WindowState) -> (unlike: bool)
        ensures
            unlike == self.spec_looks_unlike(other),
    {
        self.activated != other.activated || self.fullscreen != other.fullscreen
            || self.maximized != other.maximized || self.tiled_left != other.tiled_left
            || self.tiled_right != other.tiled_right || self.tiled_top != other.tiled_top
            || self.tiled_bottom != other.tiled_bottom
    }
}

/// What the window manager offers. A button, and the action it stands for, is there
/// only where the window manager can carry it out.
#[derive(Debug, Clone, Copy, PartialEq, Eq, Structural)]
pub struct WindowManagerCapabilities {
    pub window_menu: bool,
    pub maximize: bool,
    pub fullscreen: bool,
    pub minimize: bool,
}

impl WindowManagerCapabilities {
    pub const WINDOW_MENU: u16 = 0x0001;

    pub const MAXIMIZE: u16 = 0x0002;

    pub const FULLSCREEN: u16 = 0x0004;

    pub const MINIMIZE: u16 = 0x0008;

    /// Everything is offered.
    pub open spec fn spec_all() -> WindowManagerCapabilities {
        WindowManagerCapabilities {
            window_menu: true,
            maximize: true,
            fullscreen: true,
            minimize: true,
        }
    }

    /// The capabilities whose flags are the bits of `bits`; other bits are ignored.
    pub open spec fn spec_from_bits(bits: u16) -> WindowManagerCapabilities {
        WindowManagerCapabilities {
            window_menu: bits & 0x0001 != 0,
            maximize: bits & 0x0002 != 0,
            fullscreen: bits & 0x0004 != 0,
            minimize: bits & 0x0008 != 0,
        }
    }

    #[verifier::when_used_as_spec(spec_all)]
    pub fn all() -> (c: WindowManagerCapabilities)
        ensures
            c == Self::spec_all(),
    {
        WindowManagerCapabilities {
            window_menu: true,
            maximize: true,
            fullscreen: true,
            minimize: true,
        }
    }

    #[verifier::when_used_as_spec(spec_from_bits)]
    pub fn from_bits(bits: u16) -> (c: WindowManagerCapabilities)
        ensures
            c == Self::spec_from_bits(bits),
    {
        WindowManagerCapabilities {
            window_menu: bits & 0x0001 != 0,
            maximize: bits & 0x0002 != 0,
            fullscreen: bits & 0x0004 != 0,
            minimize: bits & 0x0008 != 0,
        }
    }
}

} // verus!
