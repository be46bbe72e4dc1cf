//! Sizes and colours of the decoration. All sizes are in logical points.

use vstd::prelude::*;

verus! {

/// Width of the invisible resize border around the content.
pub const BORDER_SIZE: u32 = 10;

/// Width of the part of the border that is painted.
pub const VISIBLE_BORDER_SIZE: u32 = 1;

/// Height of the title bar.
pub const HEADER_SIZE: u32 = 35;

/// Radius of the rounded top corners of the title bar.
pub const CORNER_RADIUS: u32 = 10;

/// Depth of the strip along each edge that takes resize input.
pub const RESIZE_HANDLE_SIZE: u32 = 10;

/// The resize border of a window; none when borders are hidden.
pub open spec fn spec_border_size(hide_border: bool) -> u32 {
    if hide_border { 0 } else { BORDER_SIZE }
}

/// The painted border of a window; none when borders are hidden.
pub open spec fn spec_visible_border_size(hide_border: bool) -> u32 {
    if hide_border { 0 } else { VISIBLE_BORDER_SIZE }
}

#[verifier::when_used_as_spec(spec_border_size)]
pub fn border_size(hide_border: bool) -> (size: u32)
    ensures
        size == spec_border_size(hide_border),
{
    if hide_border { 0 } else { BORDER_SIZE }
}

#[verifier::when_used_as_spec(spec_visible_border_size)]
pub fn visible_border_size(hide_border: bool) -> (size: u32)
    ensures
        size == spec_visible_border_size(hide_border),
{
    if hide_border { 0 } else { VISIBLE_BORDER_SIZE }
}

/// A colour, eight bits for each of red, green, blue and opacity.
#[derive(Debug, Clone, Copy, PartialEq, Eq, Structural)]
pub struct Color {
    pub r: u8,
    pub g: u8,
    pub b: u8,
    pub a: u8,
}

impl Color {
    pub open spec fn spec_from_rgba8(r: u8, g: u8, b: u8, a: u8) -> Color {
        Color { r, g, b, a }
    }

    /// An opaque grey.
    pub open spec fn grey(level: u8) -> Color {
        Color { r: level, g: level, b: level, a: 255 }
    }

    #[verifier::when_used_as_spec(spec_from_rgba8)]
    pub fn from_rgba8(r: u8, g: u8, b: u8, a: u8) -> (c: Color)
        ensures
            c == Self::spec_from_rgba8(r, g, b, a),
    {
        Color { r, g, b, a }
    }
}

/// How a shape is filled: with one colour, its rim smoothed or not.
#[derive(Debug, Clone, Copy, PartialEq, Eq, Structural)]
pub struct Paint {
    pub color: Color,
    pub anti_alias: bool,
}

/// The colours of a decoration in one state of the window.
#[derive(Debug, Clone, Copy, PartialEq, Eq, Structural)]
pub struct ColorMap {
    pub headerbar: Color,
    pub button_idle: Color,
    pub button_hover: Color,
    pub button_icon: Color,
    pub border_color: Color,
    pub font_color: Color,
}

impl ColorMap {
    /// The title bar is painted smooth.
    pub fn headerbar_paint(&self) -> (p: Paint)
        ensures
            p == (Paint { color: self.headerbar, anti_alias: true }),
    {
        Paint { color: self.headerbar, anti_alias: true }
    }

    /// A button at rest is painted smooth.
    pub fn button_idle_paint(&self) -> (p: Paint)
        ensures
            p == (Paint { color: self.button_idle, anti_alias: true }),
    {
        Paint { color: self.button_idle, anti_alias: true }
    }

    /// A button under the pointer is painted smooth.
    pub fn button_hover_paint(&self) -> (p: Paint)
        ensures
            p == (Paint { color: self.button_hover, anti_alias: true }),
    {
        Paint { color: self.button_hover, anti_alias: true }
    }

    /// The sign on a button is painted sharp.
    pub fn button_icon_paint(&self) -> (p: Paint)
        ensures
            p == (Paint { color: self.button_icon, anti_alias: false }),
    {
        Paint { color: self.button_icon, anti_alias: false }
    }

    /// The border is painted sharp.
    pub fn border_paint(&self) -> (p: Paint)
        ensures
            p == (Paint { color: self.border_color, anti_alias: false }),
    {
        Paint { color: self.border_color, anti_alias: false }
    }

    /// The title is painted smooth.
    pub fn font_paint(&self) -> (p: Paint)
        ensures
            p == (Paint { color: self.font_color, anti_alias: true }),
    {
        Paint { color: self.font_color, anti_alias: true }
    }
}

/// The colours of a decoration: one set for the active window, one for the others.
#[derive(Debug, Clone, Copy, PartialEq, Eq, Structural)]
pub struct ColorTheme {
    pub active: ColorMap,
    pub inactive: ColorMap,
}

impl ColorTheme {
    /// The light colours.
    pub open spec fn spec_light() -> ColorTheme {
        ColorTheme {
            active: ColorMap {
                headerbar: Color::grey(235),
                button_idle: Color::grey(216),
                button_hover: Color::grey(207),
                button_icon: Color::grey(42),
                border_color: Color::grey(220),
                font_color: Color::grey(47),
            },
            inactive: ColorMap {
                headerbar: Color::grey(250),
                button_idle: Color::grey(240),
                button_hover: Color::grey(216),
                button_icon: Color::grey(148),
                border_color: Color::grey(220),
                font_color: Color::grey(150),
            },
        }
    }

    /// The dark colours.
    pub open spec fn spec_dark() -> ColorTheme {
        ColorTheme {
            active: ColorMap {
                headerbar: Color::grey(48),
                button_idle: Color::grey(69),
                button_hover: Color::grey(79),
                button_icon: Color::grey(255),
                border_color: Color::grey(58),
                font_color: Color::grey(255),
            },
            inactive: ColorMap {
                headerbar: Color::grey(36),
                button_idle: Color::grey(47),
                button_hover: Color::grey(57),
                button_icon: Color::grey(144),
                border_color: Color::grey(58),
                font_color: Color::grey(144),
            },
        }
    }

    /// The colours for a desktop that prefers dark windows, or does not.
    pub open spec fn spec_auto(prefer_dark: bool) -> ColorTheme {
        if prefer_dark {
            Self::spec_dark()
        } else {
            Self::spec_light()
        }
    }

    /// The colours of an active window, or of another.
    pub open spec fn spec_for_state(self, activated: bool) -> ColorMap {
        if activated {
            self.active
        } else {
            self.inactive
        }
    }

    fn grey_map(
        headerbar: u8,
        button_idle: u8,
        button_hover: u8,
        button_icon: u8,
        border_color: u8,
        font_color: u8,
    ) -> (m: ColorMap)
        ensures
            m == (ColorMap {
                headerbar: Color::grey(headerbar),
                button_idle: Color::grey(button_idle),
                button_hover: Color::grey(button_hover),
                button_icon: Color::grey(button_icon),
                border_color: Color::grey(border_color),
                font_color: Color::grey(font_color),
            }),
    {
        ColorMap {
            headerbar: Color::from_rgba8(headerbar, headerbar, headerbar, 255),
            button_idle: Color::from_rgba8(button_idle, button_idle, button_idle, 255),
            button_hover: Color::from_rgba8(button_hover, button_hover, button_hover, 255),
            button_icon: Color::from_rgba8(button_icon, button_icon, button_icon, 255),
            border_color: Color::from_rgba8(border_color, border_color, border_color, 255),
            font_color: Color::from_rgba8(font_color, font_color, font_color, 255),
        }
    }

    #[verifier::when_used_as_spec(spec_light)]
    pub fn light() -> (t: ColorTheme)
        ensures
            t == Self::spec_light(),
    {
        ColorTheme {
            active: Self::grey_map(235, 216, 207, 42, 220, 47),
            inactive: Self::grey_map(250, 240, 216, 148, 220, 150),
        }
    }

    #[verifier::when_used_as_spec(spec_dark)]
    pub fn dark() -> (t: ColorTheme)
        ensures
            t == Self::spec_dark(),
    {
        ColorTheme {
            active: Self::grey_map(48, 69, 79, 255, 58, 255),
            inactive: Self::grey_map(36, 47, 57, 144, 58, 144),
        }
    }

    /// The dark colours where the desktop prefers them, else the light ones.
    #[verifier::when_used_as_spec(spec_auto)]
    pub fn auto(prefer_dark: bool) -> (t: ColorTheme)
        ensures
            t == Self::spec_auto(prefer_dark),
    {
        if prefer_dark {
            Self::dark()
        } else {
            Self::light()
        }
    }

    pub fn for_state(&self, activated: bool) -> (m: &ColorMap)
        ensures
            *m == self.spec_for_state(activated),
    {
        if activated {
            &self.active
        } else {
            &self.inactive
        }
    }
}

impl Default for ColorTheme {
    fn default() -> (t: ColorTheme)
        ensures
            t == ColorTheme::spec_light(),
    {
        ColorTheme::light()
    }
}

} // verus!
