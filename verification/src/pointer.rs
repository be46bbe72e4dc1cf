//! The pointer over the decoration: where it is, what it last pressed, and what a
//! click there asks of the host.

use vstd::prelude::*;
use crate::buttons::{ButtonKind, Buttons};
use crate::parts::PartId;
use crate::state::{WindowManagerCapabilities, WindowState};
use crate::theme::{BORDER_SIZE, HEADER_SIZE};

verus! {

/// Two clicks on the title bar closer together than this, in milliseconds, are a
/// double click.
pub const DOUBLE_CLICK_MS: u64 = 400;

/// The code of the left pointer button.
pub const BUTTON_LEFT: u32 = 0x110;

/// The code of the right pointer button.
pub const BUTTON_RIGHT: u32 = 0x111;

/// A pointer coordinate in 256ths of a logical point, the resolution at which the
/// compositor reports it.
#[derive(Debug, Clone, Copy, PartialEq, Eq, Structural)]
pub struct Fixed {
    pub raw: i32,
}

impl Fixed {
    /// The number of units in one logical point.
    pub const ONE: i32 = 256;

    /// The coordinate of a whole number of points.
    pub open spec fn spec_from_int(points: i16) -> Fixed {
        Fixed { raw: (points * 256) as i32 }
    }

    /// The whole points of the coordinate, rounded towards zero.
    pub open spec fn spec_trunc(self) -> i32 {
        if self.raw >= 0 {
            (self.raw / 256) as i32
        } else {
            (-((-self.raw) / 256)) as i32
        }
    }

    #[verifier::when_used_as_spec(spec_from_int)]
    pub fn from_int(points: i16) -> (f: Fixed)
        ensures
            f == Self::spec_from_int(points),
    {
        Fixed { raw: (points as i32) * 256 }
    }

    #[verifier::when_used_as_spec(spec_trunc)]
    pub fn trunc(self) -> (points: i32)
        ensures
            points == self.spec_trunc(),
            -0x80_0000 <= points <= 0x7f_ffff,
    {
        if self.raw >= 0 {
            self.raw / 256
        } else {
            let up: i64 = -(self.raw as i64);
            (-(up / 256)) as i32
        }
    }
}

/// A place on a panel, from its top left corner.
#[derive(Debug, Clone, Copy, PartialEq, Eq, Structural)]
pub struct Position {
    pub x: Fixed,
    pub y: Fixed,
}

/// An edge or corner of the window by which it is resized.
#[derive(Debug, Clone, Copy, PartialEq, Eq, Structural)]
pub enum ResizeEdge {
    Top,
    TopRight,
    Right,
    BottomRight,
    Bottom,
    BottomLeft,
    Left,
    TopLeft,
}

/// What the host should do after a click on the decoration.
#[derive(Debug, Clone, Copy, PartialEq, Eq, Structural)]
pub enum FrameAction {
    /// The window should be minimized.
    Minimize,
    /// The window should be maximized.
    Maximize,
    /// The window should be unmaximized.
    UnMaximize,
    /// The window should be closed.
    Close,
    /// An interactive move should be started.
    Move,
    /// An interactive resize should be started by the given edge.
    Resize(ResizeEdge),
    /// The window menu should be shown at this place, relative to the content.
    ShowMenu(i32, i32),
}

/// The kind of a click on the decoration.
#[derive(Debug, Clone, Copy, PartialEq, Eq, Structural)]
pub enum FrameClick {
    /// The left button, or one finger.
    Normal,
    /// The right button: it only opens the window menu.
    Alternate,
}

impl FrameClick {
    /// The click that a pointer button stands for.
    pub open spec fn spec_from_button(code: u32) -> Option<FrameClick> {
        if code == BUTTON_LEFT {
            Some(FrameClick::Normal)
        } else if code == BUTTON_RIGHT {
            Some(FrameClick::Alternate)
        } else {
            None
        }
    }

    #[verifier::when_used_as_spec(spec_from_button)]
    pub fn from_button(code: u32) -> (click: Option<FrameClick>)
        ensures
            click == Self::spec_from_button(code),
    {
        if code == BUTTON_LEFT {
            Some(FrameClick::Normal)
        } else if code == BUTTON_RIGHT {
            Some(FrameClick::Alternate)
        } else {
            None
        }
    }
}

/// Where on the decoration the pointer rests.
#[derive(Debug, Clone, Copy, PartialEq, Eq, Structural)]
pub enum Location {
    /// The pointer is not over the decoration.
    Nowhere,
    Head,
    Top,
    TopRight,
    Right,
    BottomRight,
    Bottom,
    BottomLeft,
    Left,
    TopLeft,
    Button(ButtonKind),
}

impl Location {
    /// The pointer is over one of the buttons.
    pub open spec fn spec_is_button(self) -> bool {
        self is Button
    }

    /// The location of a pointer that has only just been found on a panel.
    pub open spec fn spec_of_part(part: PartId) -> Location {
        match part {
            PartId::Header => Location::Head,
            PartId::Top => Location::Top,
            PartId::Bottom => Location::Bottom,
            PartId::Left => Location::Left,
            PartId::Right => Location::Right,
        }
    }

    /// The edge by which a press at this location resizes the window.
    pub open spec fn spec_resize_edge(self) -> Option<ResizeEdge> {
        match self {
            Location::Top => Some(ResizeEdge::Top),
            Location::TopRight => Some(ResizeEdge::TopRight),
            Location::Right => Some(ResizeEdge::Right),
            Location::BottomRight => Some(ResizeEdge::BottomRight),
            Location::Bottom => Some(ResizeEdge::Bottom),
            Location::BottomLeft => Some(ResizeEdge::BottomLeft),
            Location::Left => Some(ResizeEdge::Left),
            Location::TopLeft => Some(ResizeEdge::TopLeft),
            _ => None,
        }
    }

    #[verifier::when_used_as_spec(spec_is_button)]
    pub fn is_button(self) -> (b: bool)
        ensures
            b == self.spec_is_button(),
    {
        match self {
            Location::Button(_) => true,
            _ => false,
        }
    }

    #[verifier::when_used_as_spec(spec_of_part)]
    pub fn of_part(part: PartId) -> (l: Location)
        ensures
            l == Self::spec_of_part(part),
    {
        match part {
            PartId::Header => Location::Head,
            PartId::Top => Location::Top,
            PartId::Bottom => Location::Bottom,
            PartId::Left => Location::Left,
            PartId::Right => Location::Right,
        }
    }

    #[verifier::when_used_as_spec(spec_resize_edge)]
    pub fn resize_edge(self) -> (edge: Option<ResizeEdge>)
        ensures
            edge == self.spec_resize_edge(),
    {
        match self {
            Location::Top => Some(ResizeEdge::Top),
            Location::TopRight => Some(ResizeEdge::TopRight),
            Location::Right => Some(ResizeEdge::Right),
            Location::BottomRight => Some(ResizeEdge::BottomRight),
            Location::Bottom => Some(ResizeEdge::Bottom),
            Location::BottomLeft => Some(ResizeEdge::BottomLeft),
            Location::Left => Some(ResizeEdge::Left),
            Location::TopLeft => Some(ResizeEdge::TopLeft),
            _ => None,
        }
    }
}

/// The name of the cursor to show at a location. A window that cannot be resized
/// shows the plain pointer everywhere.
pub open spec fn spec_cursor_name(location: Location, resizable: bool) -> Seq<char> {
    if !resizable {
        "left_ptr"@
    } else {
        match location {
            Location::Top => "top_side"@,
            Location::TopRight => "top_right_corner"@,
            Location::Right => "right_side"@,
            Location::BottomRight => "bottom_right_corner"@,
            Location::Bottom => "bottom_side"@,
            Location::BottomLeft => "bottom_left_corner"@,
            Location::Left => "left_side"@,
            Location::TopLeft => "top_left_corner"@,
            _ => "left_ptr"@,
        }
    }
}

pub fn cursor_name(location: Location, resizable: bool) -> (name: &'static str)
    ensures
        name@ == spec_cursor_name(location, resizable),
{
    if !resizable {
        "left_ptr"
    } else {
        match location {
            Location::Top => "top_side",
            Location::TopRight => "top_right_corner",
            Location::Right => "right_side",
            Location::BottomRight => "bottom_right_corner",
            Location::Bottom => "bottom_side",
            Location::BottomLeft => "bottom_left_corner",
            Location::Left => "left_side",
            Location::TopLeft => "top_left_corner",
            _ => "left_ptr",
        }
    }
}

/// What is remembered of the pointer between events.
#[derive(Debug, Clone, Copy, PartialEq, Eq, Structural)]
pub struct MouseState {
    /// Where the pointer rests.
    pub location: Location,
    /// Where the left button went down, until it comes up again.
    pub press_origin: Option<Location>,
    /// The pointer's place on the panel it is over.
    pub position: Position,
    /// When the last click on the title bar was completed, in milliseconds.
    pub last_click: Option<u64>,
}

impl MouseState {
    /// A pointer that is nowhere and has pressed nothing.
    pub open spec fn spec_new() -> MouseState {
        MouseState {
            location: Location::Nowhere,
            press_origin: None,
            position: Position { x: Fixed { raw: 0 }, y: Fixed { raw: 0 } },
            last_click: None,
        }
    }

    /// A click on the title bar at `time` is the second of a double click.
    pub open spec fn spec_is_double(self, time: u64) -> bool {
        self.last_click matches Some(last) && (if time >= last {
            time - last
        } else {
            0
        }) < DOUBLE_CLICK_MS
    }

    /// What a completed left click at the pointer's location asks for.
    ///
    /// An edge or corner resizes where the window can be resized. The title bar
    /// moves the window, or, at the second click of a double click and where the
    /// window manager can maximize, maximizes it or brings it back. A button does
    /// what it shows, where the window manager can.
    pub open spec fn spec_click_action(
        self,
        time: u64,
        resizable: bool,
        state: WindowState,
        capabilities: WindowManagerCapabilities,
    ) -> Option<FrameAction> {
        match self.location {
            Location::Nowhere => None,
            Location::Head => if capabilities.maximize && self.spec_is_double(time) {
                if state.maximized {
                    Some(FrameAction::UnMaximize)
                } else {
                    Some(FrameAction::Maximize)
                }
            } else {
                Some(FrameAction::Move)
            },
            Location::Button(ButtonKind::Close) => Some(FrameAction::Close),
            Location::Button(ButtonKind::Maximize) => if !capabilities.maximize {
                None
            } else if state.maximized {
                Some(FrameAction::UnMaximize)
            } else {
                Some(FrameAction::Maximize)
            },
            Location::Button(ButtonKind::Minimize) => if capabilities.minimize {
                Some(FrameAction::Minimize)
            } else {
                None
            },
            edge => if resizable {
                Some(FrameAction::Resize(edge.spec_resize_edge().unwrap()))
            } else {
                None
            },
        }
    }

    /// The pointer after the left button went down or came up at `time`.
    ///
    /// Going down, the button remembers where. Coming up, it forgets; a click
    /// completed on the title bar is remembered with its time.
    pub open spec fn spec_after_click(self, time: u64, pressed: bool) -> MouseState {
        if pressed {
            MouseState { press_origin: Some(self.location), ..self }
        } else if self.press_origin == Some(self.location) && self.location == Location::Head {
            MouseState { press_origin: None, last_click: Some(time), ..self }
        } else {
            MouseState { press_origin: None, ..self }
        }
    }

    /// What the left button going down or coming up asks for: nothing when it goes
    /// down, nothing when it comes up elsewhere than it went down, and otherwise
    /// the action of the location.
    pub open spec fn spec_click(
        self,
        time: u64,
        pressed: bool,
        resizable: bool,
        state: WindowState,
        capabilities: WindowManagerCapabilities,
    ) -> Option<FrameAction> {
        if !pressed && self.press_origin == Some(self.location) {
            self.spec_click_action(time, resizable, state, capabilities)
        } else {
            None
        }
    }

    /// Where the window menu opens for a pointer at this position: the position in
    /// whole points, moved up by the height of the title bar.
    pub open spec fn spec_menu_position(self) -> (i32, i32) {
        (self.position.x.spec_trunc(), (self.position.y.spec_trunc() - HEADER_SIZE) as i32)
    }

    /// What the right button going down or coming up asks for: the window menu,
    /// when it goes down on the title bar or a button and the window manager has one.
    pub open spec fn spec_alternate_click(
        self,
        pressed: bool,
        capabilities: WindowManagerCapabilities,
    ) -> Option<FrameAction> {
        if pressed && capabilities.window_menu && (self.location == Location::Head
            || self.location.spec_is_button()) {
            Some(
                FrameAction::ShowMenu(self.spec_menu_position().0, self.spec_menu_position().1),
            )
        } else {
            None
        }
    }

    /// The pointer after it moved to `location`, at (`x`, `y`) of the panel.
    pub open spec fn spec_moved(self, location: Location, x: Fixed, y: Fixed) -> MouseState {
        MouseState { location, position: Position { x, y }, ..self }
    }

    /// The pointer after it left the decoration.
    pub open spec fn spec_left(self) -> MouseState {
        MouseState { location: Location::Nowhere, ..self }
    }

    #[verifier::when_used_as_spec(spec_new)]
    pub fn new() -> (m: MouseState)
        ensures
            m == Self::spec_new(),
    {
        MouseState {
            location: Location::Nowhere,
            press_origin: None,
            position: Position { x: Fixed { raw: 0 }, y: Fixed { raw: 0 } },
            last_click: None,
        }
    }

    /// The left button went down or came up.
    pub fn click(
        &mut self,
        time: u64,
        pressed: bool,
        resizable: bool,
        state: &WindowState,
        wm_capabilities: &WindowManagerCapabilities,
    ) -> (action: Option<FrameAction>)
        ensures
            action == old(self).spec_click(time, pressed, resizable, *state, *wm_capabilities),
            *final(self) == old(self).spec_after_click(time, pressed),
    {
        if pressed {
            self.press_origin = Some(self.location);
            return None;
        }
        let completed = match self.press_origin {
            Some(origin) => origin == self.location,
            None => false,
        };
        self.press_origin = None;
        if !completed {
            return None;
        }
        match self.location {
            Location::Nowhere => None,
            Location::Head => {
                let double = match self.last_click {
                    Some(last) => {
                        let since: u64 = if time >= last {
                            time - last
                        } else {
                            0
                        };
                        since < DOUBLE_CLICK_MS
                    },
                    None => false,
                };
                self.last_click = Some(time);
                if wm_capabilities.maximize && double {
                    if state.maximized {
                        Some(FrameAction::UnMaximize)
                    } else {
                        Some(FrameAction::Maximize)
                    }
                } else {
                    Some(FrameAction::Move)
                }
            },
            Location::Button(ButtonKind::Close) => Some(FrameAction::Close),
            Location::Button(ButtonKind::Maximize) => {
                if !wm_capabilities.maximize {
                    None
                } else if state.maximized {
                    Some(FrameAction::UnMaximize)
                } else {
                    Some(FrameAction::Maximize)
                }
            },
            Location::Button(ButtonKind::Minimize) => {
                if wm_capabilities.minimize {
                    Some(FrameAction::Minimize)
                } else {
                    None
                }
            },
            edge => {
                if resizable {
                    match edge.resize_edge() {
                        Some(e) => Some(FrameAction::Resize(e)),
                        None => None,
                    }
                } else {
                    None
                }
            },
        }
    }

    /// The right button went down or came up. A double click in the making is
    /// forgotten.
    pub fn alternate_click(&mut self, pressed: bool, wm_capabilities: &WindowManagerCapabilities)
        -> (action: Option<FrameAction>)
        ensures
            action == old(self).spec_alternate_click(pressed, *wm_capabilities),
            *final(self) == (MouseState { last_click: None, ..*old(self) }),
    {
        self.last_click = None;
        let on_header = match self.location {
            Location::Head => true,
            Location::Button(_) => true,
            _ => false,
        };
        if pressed && wm_capabilities.window_menu && on_header {
            let x = self.position.x.trunc();
            let y = self.position.y.trunc() - HEADER_SIZE as i32;
            Some(FrameAction::ShowMenu(x, y))
        } else {
            None
        }
    }

    /// The pointer moved to `location`; the result is the cursor to show there.
    pub fn moved(&mut self, location: Location, x: Fixed, y: Fixed, resizable: bool) -> (cursor:
        &'static str)
        ensures
            *final(self) == old(self).spec_moved(location, x, y),
            cursor@ == spec_cursor_name(location, resizable),
    {
        self.location = location;
        self.position = Position { x, y };
        cursor_name(location, resizable)
    }

    /// The pointer left the decoration.
    pub fn left(&mut self)
        ensures
            *final(self) == old(self).spec_left(),
    {
        self.location = Location::Nowhere;
    }
}

impl Default for MouseState {
    fn default() -> (m: MouseState)
        ensures
            m == MouseState::spec_new(),
    {
        MouseState::new()
    }
}

/// The location of a pointer at (`x`, `y`) of the panel on which it was found at
/// `location`, over a content `header_width` points wide.
///
/// On the title bar it is the button under the pointer, or the title bar. On the
/// top and bottom edges it is the corner where the pointer is within a border's
/// width of the end, the left end first. Elsewhere it is the location as found.
pub open spec fn spec_precise_location(
    buttons: Buttons,
    location: Location,
    header_width: u32,
    x: Fixed,
    y: Fixed,
) -> Location {
    match location {
        Location::Head | Location::Button(_) => buttons.spec_find_button(x, y),
        Location::Top | Location::TopLeft | Location::TopRight => {
            if x.raw <= BORDER_SIZE * 256 {
                Location::TopLeft
            } else if x.raw >= (header_width + BORDER_SIZE) * 256 {
                Location::TopRight
            } else {
                Location::Top
            }
        },
        Location::Bottom | Location::BottomLeft | Location::BottomRight => {
            if x.raw <= BORDER_SIZE * 256 {
                Location::BottomLeft
            } else if x.raw >= (header_width + BORDER_SIZE) * 256 {
                Location::BottomRight
            } else {
                Location::Bottom
            }
        },
        other => other,
    }
}

pub fn precise_location(
    buttons: &Buttons,
    location: Location,
    header_width: u32,
    x: Fixed,
    y: Fixed,
) -> (l: Location)
    ensures
        l == spec_precise_location(*buttons, location, header_width, x, y),
{
    let px: i64 = x.raw as i64;
    let near: i64 = (BORDER_SIZE as i64) * 256;
    let far: i64 = (header_width as i64 + BORDER_SIZE as i64) * 256;
    match location {
        Location::Head | Location::Button(_) => buttons.find_button(x, y),
        Location::Top | Location::TopLeft | Location::TopRight => {
            if px <= near {
                Location::TopLeft
            } else if px >= far {
                Location::TopRight
            } else {
                Location::Top
            }
        },
        Location::Bottom | Location::BottomLeft | Location::BottomRight => {
            if px <= near {
                Location::BottomLeft
            } else if px >= far {
                Location::BottomRight
            } else {
                Location::Bottom
            }
        },
        other => other,
    }
}

/// On the title bar the location does not depend on where the pointer was found
/// before: whether it was on the bar or on any button, a point inside a button is
/// on that button, and a point inside no button is on the bar.
pub proof fn lemma_precise_location_on_header(
    buttons: Buttons,
    first: Location,
    second: Location,
    header_width: u32,
    x: Fixed,
    y: Fixed,
)
    requires
        first == Location::Head || first.spec_is_button(),
        second == Location::Head || second.spec_is_button(),
    ensures
        spec_precise_location(buttons, first, header_width, x, y) == spec_precise_location(
            buttons,
            second,
            header_width,
            x,
            y,
        ),
        spec_precise_location(buttons, first, header_width, x, y) == buttons.spec_find_button(
            x,
            y,
        ),
        buttons.close.spec_contains(x, y) ==> spec_precise_location(
            buttons,
            first,
            header_width,
            x,
            y,
        ) == Location::Button(ButtonKind::Close),
        buttons.spec_find_button(x, y) matches Location::Button(kind) ==> match kind {
            ButtonKind::Close => buttons.close.spec_contains(x, y),
            ButtonKind::Maximize => buttons.maximize.is_some()
                && buttons.maximize.unwrap().spec_contains(x, y),
            ButtonKind::Minimize => buttons.minimize.is_some()
                && buttons.minimize.unwrap().spec_contains(x, y),
        },
{
}

} // verus!
