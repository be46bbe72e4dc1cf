use sctk_adwaita::buttons::{Button, ButtonKind, ButtonLayout, Buttons, Side};
use sctk_adwaita::pointer::{
    cursor_name, precise_location, Fixed, FrameAction, FrameClick, Location, MouseState,
    Position, ResizeEdge,
};
use sctk_adwaita::state::{WindowManagerCapabilities, WindowState};

fn fx(points: i16) -> Fixed {
    Fixed::from_int(points)
}

fn at(location: Location) -> MouseState {
    MouseState { location, ..MouseState::new() }
}

fn maximized() -> WindowState {
    WindowState { maximized: true, ..WindowState::empty() }
}

const EDGES: [(Location, ResizeEdge, &str); 8] = [
    (Location::Top, ResizeEdge::Top, "top_side"),
    (Location::TopRight, ResizeEdge::TopRight, "top_right_corner"),
    (Location::Right, ResizeEdge::Right, "right_side"),
    (Location::BottomRight, ResizeEdge::BottomRight, "bottom_right_corner"),
    (Location::Bottom, ResizeEdge::Bottom, "bottom_side"),
    (Location::BottomLeft, ResizeEdge::BottomLeft, "bottom_left_corner"),
    (Location::Left, ResizeEdge::Left, "left_side"),
    (Location::TopLeft, ResizeEdge::TopLeft, "top_left_corner"),
];

#[test]
fn fixed_counts_in_256ths() {
    assert_eq!(Fixed::ONE, 256);
    assert_eq!(fx(355).raw, 355 * 256);
    assert_eq!(fx(-3).raw, -768);
    assert_eq!(Fixed { raw: 511 }.trunc(), 1);
    assert_eq!(Fixed { raw: 512 }.trunc(), 2);
    assert_eq!(Fixed { raw: -1 }.trunc(), 0);
    assert_eq!(Fixed { raw: -256 }.trunc(), -1);
    assert_eq!(Fixed { raw: -511 }.trunc(), -1);
    assert_eq!(Fixed { raw: i32::MIN }.trunc(), -0x80_0000);
    assert_eq!(Fixed { raw: i32::MAX }.trunc(), 0x7f_ffff);
}

#[test]
fn cursor_follows_the_location() {
    for (location, _, name) in EDGES {
        assert_eq!(cursor_name(location, true), name);
        assert_eq!(cursor_name(location, false), "left_ptr");
    }
    assert_eq!(cursor_name(Location::Head, true), "left_ptr");
    assert_eq!(cursor_name(Location::Nowhere, true), "left_ptr");
    assert_eq!(cursor_name(Location::Button(ButtonKind::Close), true), "left_ptr");
}

#[test]
fn button_codes() {
    assert_eq!(FrameClick::from_button(0x110), Some(FrameClick::Normal));
    assert_eq!(FrameClick::from_button(0x111), Some(FrameClick::Alternate));
    assert_eq!(FrameClick::from_button(0x112), None);
    assert_eq!(FrameClick::from_button(0), None);
}

#[test]
fn click_on_an_edge_resizes_a_resizable_window() {
    let all = WindowManagerCapabilities::all();
    for (location, edge, _) in EDGES {
        let mut mouse = at(location);
        assert_eq!(mouse.click(0, true, true, &WindowState::empty(), &all), None);
        assert_eq!(mouse.press_origin, Some(location));
        assert_eq!(
            mouse.click(10, false, true, &WindowState::empty(), &all),
            Some(FrameAction::Resize(edge))
        );
        assert_eq!(mouse.press_origin, None);
        assert_eq!(location.resize_edge(), Some(edge));

        let mut mouse = at(location);
        mouse.click(0, true, false, &WindowState::empty(), &all);
        assert_eq!(mouse.click(10, false, false, &WindowState::empty(), &all), None);
    }
    assert_eq!(Location::Head.resize_edge(), None);
}

#[test]
fn release_elsewhere_is_no_click() {
    let all = WindowManagerCapabilities::all();
    let mut mouse = at(Location::Button(ButtonKind::Close));
    assert_eq!(mouse.click(0, true, true, &WindowState::empty(), &all), None);
    mouse.moved(Location::Head, fx(10), fx(10), true);
    assert_eq!(mouse.click(5, false, true, &WindowState::empty(), &all), None);
    assert_eq!(mouse.press_origin, None);
    assert_eq!(mouse.last_click, None);
    // A release without a press is none either.
    assert_eq!(mouse.click(6, false, true, &WindowState::empty(), &all), None);
}

#[test]
fn click_on_a_button_does_what_it_shows() {
    let all = WindowManagerCapabilities::all();
    let none = WindowManagerCapabilities { window_menu: false, maximize: false, fullscreen: false, minimize: false };
    let press_release = |location: Location, state: WindowState, caps: WindowManagerCapabilities| {
        let mut mouse = at(location);
        assert_eq!(mouse.click(0, true, true, &state, &caps), None);
        mouse.click(1, false, true, &state, &caps)
    };
    let close = Location::Button(ButtonKind::Close);
    let maximize = Location::Button(ButtonKind::Maximize);
    let minimize = Location::Button(ButtonKind::Minimize);
    assert_eq!(press_release(close, WindowState::empty(), all), Some(FrameAction::Close));
    assert_eq!(press_release(close, WindowState::empty(), none), Some(FrameAction::Close));
    assert_eq!(press_release(maximize, WindowState::empty(), all), Some(FrameAction::Maximize));
    assert_eq!(press_release(maximize, maximized(), all), Some(FrameAction::UnMaximize));
    assert_eq!(press_release(maximize, WindowState::empty(), none), None);
    assert_eq!(press_release(minimize, WindowState::empty(), all), Some(FrameAction::Minimize));
    assert_eq!(press_release(minimize, WindowState::empty(), none), None);
    assert_eq!(press_release(Location::Nowhere, WindowState::empty(), all), None);
}

#[test]
fn double_click_on_the_header_maximizes() {
    let all = WindowManagerCapabilities::all();
    let state = WindowState::empty();
    let mut mouse = at(Location::Head);
    assert_eq!(mouse.click(1000, true, true, &state, &all), None);
    assert_eq!(mouse.click(1050, false, true, &state, &all), Some(FrameAction::Move));
    assert_eq!(mouse.last_click, Some(1050));
    assert_eq!(mouse.click(1300, true, true, &state, &all), None);
    assert_eq!(mouse.click(1449, false, true, &state, &all), Some(FrameAction::Maximize));

    // After 400 ms without a click, a click is a single click again.
    assert_eq!(mouse.click(1800, true, true, &state, &all), None);
    assert_eq!(mouse.click(1849, false, true, &state, &all), Some(FrameAction::Move));
    assert_eq!(mouse.click(2248, true, true, &state, &all), None);
    assert_eq!(mouse.click(2248, false, true, &state, &all), Some(FrameAction::Maximize));
    assert_eq!(mouse.click(2648, true, true, &state, &all), None);
    assert_eq!(mouse.click(2648, false, true, &state, &all), Some(FrameAction::Move));
}

#[test]
fn double_click_brings_a_maximized_window_back() {
    let all = WindowManagerCapabilities::all();
    let mut mouse = at(Location::Head);
    mouse.click(0, true, true, &maximized(), &all);
    assert_eq!(mouse.click(1, false, true, &maximized(), &all), Some(FrameAction::Move));
    mouse.click(2, true, true, &maximized(), &all);
    assert_eq!(mouse.click(3, false, true, &maximized(), &all), Some(FrameAction::UnMaximize));
}

#[test]
fn double_click_moves_where_nothing_can_be_maximized() {
    let caps = WindowManagerCapabilities { maximize: false, ..WindowManagerCapabilities::all() };
    let state = WindowState::empty();
    let mut mouse = at(Location::Head);
    mouse.click(0, true, true, &state, &caps);
    assert_eq!(mouse.click(1, false, true, &state, &caps), Some(FrameAction::Move));
    mouse.click(2, true, true, &state, &caps);
    assert_eq!(mouse.click(3, false, true, &state, &caps), Some(FrameAction::Move));
}

#[test]
fn right_click_opens_the_menu() {
    let all = WindowManagerCapabilities::all();
    let no_menu = WindowManagerCapabilities { window_menu: false, ..all };
    let mut mouse = at(Location::Head);
    mouse.moved(Location::Head, Fixed { raw: 120 * 256 + 200 }, fx(20), true);
    mouse.last_click = Some(5);
    assert_eq!(mouse.alternate_click(true, &all), Some(FrameAction::ShowMenu(120, -15)));
    assert_eq!(mouse.last_click, None);
    assert_eq!(mouse.alternate_click(false, &all), None);
    assert_eq!(mouse.alternate_click(true, &no_menu), None);

    mouse.moved(Location::Button(ButtonKind::Minimize), fx(300), fx(35), true);
    assert_eq!(mouse.alternate_click(true, &all), Some(FrameAction::ShowMenu(300, 0)));
    assert_eq!(mouse.position, Position { x: fx(300), y: fx(35) });

    mouse.moved(Location::Top, fx(300), fx(3), true);
    assert_eq!(mouse.alternate_click(true, &all), None);
}

#[test]
fn right_click_breaks_a_double_click() {
    let all = WindowManagerCapabilities::all();
    let state = WindowState::empty();
    let mut mouse = at(Location::Head);
    mouse.click(0, true, true, &state, &all);
    assert_eq!(mouse.click(1, false, true, &state, &all), Some(FrameAction::Move));
    mouse.alternate_click(true, &all);
    mouse.click(2, true, true, &state, &all);
    assert_eq!(mouse.click(3, false, true, &state, &all), Some(FrameAction::Move));
}

#[test]
fn moved_and_left() {
    let mut mouse = MouseState::default();
    assert_eq!(mouse, MouseState::new());
    assert_eq!(mouse.location, Location::Nowhere);
    assert_eq!(mouse.moved(Location::Left, fx(5), fx(100), true), "left_side");
    assert_eq!(mouse.location, Location::Left);
    assert_eq!(mouse.moved(Location::TopLeft, fx(2), fx(2), true), "top_left_corner");
    assert_eq!(mouse.moved(Location::TopLeft, fx(2), fx(2), false), "left_ptr");
    mouse.left();
    assert_eq!(mouse.location, Location::Nowhere);
    assert_eq!(mouse.position, Position { x: fx(2), y: fx(2) });
    assert!(Location::Button(ButtonKind::Close).is_button());
    assert!(!Location::Head.is_button());
}

fn arranged(width: u32) -> Buttons {
    let mut buttons = Buttons::default();
    buttons.arrange(width, 1);
    buttons
}

#[test]
fn corners_of_the_top_and_bottom_edges() {
    let buttons = arranged(200);
    for coarse in [Location::Top, Location::TopLeft, Location::TopRight] {
        assert_eq!(precise_location(&buttons, coarse, 200, fx(0), fx(5)), Location::TopLeft);
        assert_eq!(precise_location(&buttons, coarse, 200, fx(10), fx(5)), Location::TopLeft);
        assert_eq!(
            precise_location(&buttons, coarse, 200, Fixed { raw: 10 * 256 + 1 }, fx(5)),
            Location::Top
        );
        assert_eq!(
            precise_location(&buttons, coarse, 200, Fixed { raw: 210 * 256 - 1 }, fx(5)),
            Location::Top
        );
        assert_eq!(precise_location(&buttons, coarse, 200, fx(210), fx(5)), Location::TopRight);
        assert_eq!(precise_location(&buttons, coarse, 200, fx(219), fx(5)), Location::TopRight);
    }
    for coarse in [Location::Bottom, Location::BottomLeft, Location::BottomRight] {
        assert_eq!(precise_location(&buttons, coarse, 200, fx(10), fx(5)), Location::BottomLeft);
        assert_eq!(precise_location(&buttons, coarse, 200, fx(11), fx(5)), Location::Bottom);
        assert_eq!(precise_location(&buttons, coarse, 200, fx(210), fx(5)), Location::BottomRight);
    }
    for coarse in [Location::Left, Location::Right, Location::Nowhere] {
        assert_eq!(precise_location(&buttons, coarse, 200, fx(0), fx(0)), coarse);
        assert_eq!(precise_location(&buttons, coarse, 200, fx(300), fx(5)), coarse);
    }
}

#[test]
fn a_point_in_a_button_is_on_that_button_wherever_it_was_before() {
    let buttons = arranged(400);
    let before = [
        Location::Head,
        Location::Button(ButtonKind::Close),
        Location::Button(ButtonKind::Maximize),
        Location::Button(ButtonKind::Minimize),
    ];
    for coarse in before {
        assert_eq!(
            precise_location(&buttons, coarse, 400, fx(380), fx(17)),
            Location::Button(ButtonKind::Close)
        );
        assert_eq!(
            precise_location(&buttons, coarse, 400, fx(340), fx(17)),
            Location::Button(ButtonKind::Maximize)
        );
        assert_eq!(
            precise_location(&buttons, coarse, 400, fx(300), fx(17)),
            Location::Button(ButtonKind::Minimize)
        );
        assert_eq!(precise_location(&buttons, coarse, 400, fx(100), fx(17)), Location::Head);
        assert_eq!(precise_location(&buttons, coarse, 400, fx(380), fx(2)), Location::Head);
    }
}

#[test]
fn click_on_the_close_button() {
    // A header of 400 by 35 with the close button over [340, 370) and the maximize
    // button over [295, 325).
    let buttons = Buttons {
        close: Button::at(ButtonKind::Close, 340, 30),
        maximize: Some(Button::at(ButtonKind::Maximize, 295, 30)),
        minimize: None,
        layout: ButtonLayout { maximize: Side::Right, minimize: Side::Right },
    };
    let all = WindowManagerCapabilities::all();
    let state = WindowState::empty();
    let mut mouse = MouseState::new();
    let location = precise_location(&buttons, Location::Head, 400, fx(355), fx(17));
    assert_eq!(location, Location::Button(ButtonKind::Close));
    mouse.moved(location, fx(355), fx(17), true);
    assert_eq!(mouse.click(0, true, true, &state, &all), None);
    assert_eq!(mouse.click(1, false, true, &state, &all), Some(FrameAction::Close));

    assert_eq!(
        precise_location(&buttons, Location::Head, 400, fx(310), fx(17)),
        Location::Button(ButtonKind::Maximize)
    );
    assert_eq!(precise_location(&buttons, Location::Head, 400, fx(330), fx(17)), Location::Head);
}
