use sctk_adwaita::buttons::{ButtonKind, ButtonLayout, Side};
use sctk_adwaita::frame::{AdwaitaFrame, FrameConfig, FrameError, PartFlags, PartScales};
use sctk_adwaita::parts::{PartId, Rect, MAX_DIMENSION};
use sctk_adwaita::pointer::{Fixed, FrameAction, FrameClick, Location};
use sctk_adwaita::renderer::{PartDraw, PixelRect, TitleClip};
use sctk_adwaita::state::{WindowManagerCapabilities, WindowState};
use sctk_adwaita::theme::{ColorTheme, Paint};
use tiny_skia::Pixmap;

const TOP: u32 = 11;
const LEFT: u32 = 12;
const RIGHT: u32 = 13;
const BOTTOM: u32 = 14;
const HEADER: u32 = 15;

fn fx(points: i16) -> Fixed {
    Fixed::from_int(points)
}

fn rect(x: i32, y: i32, width: u32, height: u32) -> Rect {
    Rect { x, y, width, height }
}

fn frame(width: u32, height: u32) -> AdwaitaFrame {
    let mut frame = AdwaitaFrame::new(FrameConfig::light());
    frame.bind_surfaces(TOP, LEFT, RIGHT, BOTTOM, HEADER);
    frame.resize(width, height).unwrap();
    frame
}

fn drawn(frame: &mut AdwaitaFrame) -> Vec<PartDraw> {
    frame.draw(&PartScales::uniform(1), &PartFlags::all(true))
}

fn state(change: impl Fn(&mut WindowState)) -> WindowState {
    let mut state = WindowState::empty();
    change(&mut state);
    state
}

#[test]
fn a_new_frame_is_shown_and_to_be_drawn() {
    let frame = AdwaitaFrame::new(FrameConfig::dark());
    assert!(frame.is_dirty());
    assert!(!frame.is_hidden());
    assert!(frame.is_resizable());
    assert_eq!(frame.state(), WindowState::empty());
    assert_eq!(frame.wm_capabilities(), WindowManagerCapabilities::all());
    assert_eq!(frame.theme(), ColorTheme::dark());
    assert_eq!(frame.title(), None);
    assert_eq!(frame.mouse().location, Location::Nowhere);
    assert!(frame.buttons().maximize.is_some() && frame.buttons().minimize.is_some());
    assert_eq!(frame.decorations().unwrap().header.surface_rect, rect(0, 0, 0, 0));
    assert!(!frame.title_text().needs_render());
}

#[test]
fn configurations() {
    assert_eq!(FrameConfig::light().theme, ColorTheme::light());
    assert_eq!(FrameConfig::dark().theme, ColorTheme::dark());
    assert_eq!(FrameConfig::auto(true), FrameConfig::dark());
    assert_eq!(FrameConfig::auto(false), FrameConfig::light());
    assert_eq!(FrameConfig::new(ColorTheme::dark()), FrameConfig::dark());
    let left = ButtonLayout { maximize: Side::Left, minimize: Side::Left };
    let config = FrameConfig::light().with_buttons(left);
    assert_eq!((config.theme, config.buttons), (ColorTheme::light(), left));
    let mut frame = AdwaitaFrame::new(config);
    frame.resize(400, 300).unwrap();
    assert_eq!(frame.buttons().maximize.unwrap().x(), 6);
}

#[test]
fn borders_are_taken_off_and_added_again() {
    let frame = frame(400, 300);
    assert_eq!(frame.subtract_borders(400, 335), (400, 300));
    assert_eq!(frame.add_borders(400, 300), (400, 335));
    for height in [35, 36, 100, 1080, u32::MAX] {
        let (w, h) = frame.subtract_borders(640, height);
        assert_eq!(frame.add_borders(w, h), (640, height));
    }
    // A window lower than its title bar has no content.
    assert_eq!(frame.subtract_borders(400, 34), (400, 0));
    assert_eq!(frame.subtract_borders(400, 0), (400, 0));
    assert_eq!(frame.location(), (0, -35));
}

#[test]
fn a_hidden_or_fullscreen_frame_has_no_borders() {
    let mut hidden = frame(400, 300);
    hidden.set_hidden(true);
    let mut fullscreen = frame(400, 300);
    fullscreen.update_state(state(|s| s.fullscreen = true));
    for frame in [hidden, fullscreen] {
        assert_eq!(frame.subtract_borders(400, 335), (400, 335));
        assert_eq!(frame.add_borders(400, 300), (400, 300));
        assert_eq!(frame.subtract_borders(400, 3), (400, 3));
        assert_eq!(frame.location(), (0, 0));
        let (w, h) = frame.subtract_borders(1, 1);
        assert_eq!(frame.add_borders(w, h), (1, 1));
    }
}

#[test]
fn hiding_a_frame() {
    let mut frame = frame(400, 300);
    assert!(frame.is_dirty());
    frame.set_hidden(true);
    assert!(frame.is_hidden());
    assert!(!frame.is_dirty());
    assert_eq!(frame.decorations(), None);
    assert_eq!(drawn(&mut frame), vec![]);
    assert!(!frame.is_dirty());
    assert!(frame.is_hidden());
    // Hiding it again changes nothing.
    frame.set_hidden(true);
    assert!(frame.is_hidden() && !frame.is_dirty());

    frame.set_hidden(false);
    assert!(!frame.is_hidden());
    assert!(frame.is_dirty());
    assert_eq!(frame.decorations().unwrap().header.surface_rect, rect(-1, -35, 402, 35));
    // Its new panels have no surfaces yet.
    assert_eq!(frame.click_point_moved(HEADER, fx(100), fx(17)), None);
    assert_eq!(drawn(&mut frame).len(), 5);
    // Showing a frame that is shown changes nothing.
    frame.set_hidden(false);
    assert!(!frame.is_dirty());
}

#[test]
fn a_dirty_frame_stays_dirty_until_it_is_drawn() {
    let mut frame = frame(400, 300);
    assert!(frame.is_dirty());
    frame.update_state(WindowState::empty());
    assert!(frame.is_dirty());
    frame.update_wm_capabilities(WindowManagerCapabilities::all());
    assert!(frame.is_dirty());
    frame.set_resizable(true);
    assert!(frame.is_dirty());
    frame.set_hidden(false);
    assert!(frame.is_dirty());
    assert_eq!(frame.resize(0, 0), Err(FrameError::EmptySize));
    assert!(frame.is_dirty());
    frame.on_click(0, FrameClick::Normal, true);
    frame.on_click(1, FrameClick::Alternate, true);
    assert!(frame.is_dirty());
    frame.click_point_moved(HEADER, fx(100), fx(17));
    frame.click_point_moved(99, fx(100), fx(17));
    frame.click_point_left();
    assert!(frame.is_dirty());
    frame.prepare_title(2);
    frame.title_rendered(None);
    frame.bind_surfaces(1, 2, 3, 4, 5);
    assert!(frame.is_dirty());
    assert_eq!(drawn(&mut frame).len(), 5);
    assert!(!frame.is_dirty());
}

#[test]
fn what_makes_a_frame_dirty() {
    let mut clean = || {
        let mut frame = frame(400, 300);
        drawn(&mut frame);
        assert!(!frame.is_dirty());
        frame
    };
    let mut frame = clean();
    frame.set_title(String::from("title"));
    assert!(frame.is_dirty());
    assert_eq!(frame.title(), Some(&String::from("title")));
    assert_eq!(frame.title_text().title(), "title");
    assert!(frame.title_text().needs_render());

    let mut frame = clean();
    frame.set_config(FrameConfig::dark());
    assert!(frame.is_dirty());
    assert_eq!(frame.theme(), ColorTheme::dark());

    let mut frame = clean();
    frame.set_resizable(true);
    assert!(!frame.is_dirty());
    frame.set_resizable(false);
    assert!(frame.is_dirty());
    assert!(!frame.is_resizable());

    let mut frame = clean();
    frame.update_wm_capabilities(WindowManagerCapabilities::all());
    assert!(!frame.is_dirty());
    frame.update_wm_capabilities(WindowManagerCapabilities {
        minimize: false,
        ..WindowManagerCapabilities::all()
    });
    assert!(frame.is_dirty());
    assert_eq!(frame.buttons().minimize, None);
    assert_eq!(frame.buttons().maximize.unwrap().x(), 334);

    let mut frame = clean();
    assert!(frame.resize(400, 300).is_ok());
    assert!(frame.is_dirty());
}

#[test]
fn states_that_show_make_a_frame_dirty() {
    let showing: [fn(&mut WindowState); 7] = [
        |s| s.activated = true,
        |s| s.fullscreen = true,
        |s| s.maximized = true,
        |s| s.tiled_left = true,
        |s| s.tiled_right = true,
        |s| s.tiled_top = true,
        |s| s.tiled_bottom = true,
    ];
    for change in showing {
        let mut frame = frame(400, 300);
        drawn(&mut frame);
        frame.update_state(state(change));
        assert!(frame.is_dirty());
        assert_eq!(frame.state(), state(change));
    }
    let hidden: [fn(&mut WindowState); 2] = [|s| s.resizing = true, |s| s.suspended = true];
    for change in hidden {
        let mut frame = frame(400, 300);
        drawn(&mut frame);
        frame.update_state(state(change));
        assert!(!frame.is_dirty());
        assert_eq!(frame.state(), state(change));
    }
}

#[test]
fn the_same_state_twice_changes_nothing() {
    let active = state(|s| s.activated = true);
    let mut frame = frame(400, 300);
    drawn(&mut frame);
    frame.update_state(active);
    assert!(frame.is_dirty());
    frame.update_state(active);
    assert!(frame.is_dirty());

    drawn(&mut frame);
    assert!(!frame.is_dirty());
    frame.update_state(active);
    assert!(!frame.is_dirty());
    frame.update_state(active);
    assert!(!frame.is_dirty());
}

#[test]
fn resize_lays_the_panels_out() {
    let mut frame = frame(200, 200);
    let parts = frame.decorations().unwrap();
    assert_eq!(parts.top.surface_rect, rect(-10, -45, 220, 10));
    assert_eq!(parts.left.surface_rect, rect(-10, -35, 10, 235));
    assert_eq!(parts.right.surface_rect, rect(200, -35, 10, 235));
    assert_eq!(parts.bottom.surface_rect, rect(-10, 200, 220, 10));
    assert_eq!(parts.header.surface_rect, rect(-1, -35, 202, 35));
    assert_eq!(parts.header.input_rect, None);
    assert_eq!(parts.top.input_rect, Some(rect(0, 0, 220, 10)));
    assert_eq!(frame.buttons().close.x(), 171);

    assert!(frame.resize(MAX_DIMENSION, 1).is_ok());
    assert_eq!(frame.decorations().unwrap().right.surface_rect.x, MAX_DIMENSION as i32);
}

#[test]
fn resize_is_refused() {
    let mut frame = frame(200, 200);
    drawn(&mut frame);
    assert_eq!(frame.resize(0, 200), Err(FrameError::EmptySize));
    assert_eq!(frame.resize(200, 0), Err(FrameError::EmptySize));
    assert_eq!(frame.resize(MAX_DIMENSION + 1, 200), Err(FrameError::TooLarge));
    assert_eq!(frame.resize(200, u32::MAX), Err(FrameError::TooLarge));
    assert!(!frame.is_dirty());
    assert_eq!(frame.decorations().unwrap().header.surface_rect, rect(-1, -35, 202, 35));
    frame.set_hidden(true);
    assert_eq!(frame.resize(300, 300), Err(FrameError::Hidden));
    assert_eq!(frame.resize(0, 0), Err(FrameError::Hidden));
    assert!(frame.is_hidden() && !frame.is_dirty());
}

#[test]
fn a_maximized_or_tiled_window_has_no_edges() {
    let docked: [fn(&mut WindowState); 5] = [
        |s| s.maximized = true,
        |s| s.tiled_left = true,
        |s| s.tiled_right = true,
        |s| s.tiled_top = true,
        |s| s.tiled_bottom = true,
    ];
    for change in docked {
        let mut frame = frame(200, 200);
        frame.update_state(state(change));
        let parts = frame.decorations().unwrap();
        for (id, part) in parts.parts() {
            assert_eq!(part.hide, id != PartId::Header);
            if id != PartId::Header {
                assert!(part.surface_rect.width == 0 || part.surface_rect.height == 0);
            }
        }
        assert_eq!(parts.top.surface_rect, rect(0, -35, 200, 0));
        assert_eq!(parts.header.surface_rect, rect(0, -35, 200, 35));
        assert_eq!(frame.buttons().close.x(), 171);
        let list = drawn(&mut frame);
        assert_eq!(list.len(), 1);
        assert_eq!(list[0].part, PartId::Header);
        assert_eq!((list[0].x, list[0].y, list[0].width, list[0].height), (0, -35, 200, 35));
        assert_eq!(frame.header_draw(1).radius, 0);

        // It stays so when the window gets another size, and ends when the
        // window is set free.
        frame.resize(300, 300).unwrap();
        assert!(frame.decorations().unwrap().left.hide);
        assert_eq!(frame.decorations().unwrap().left.surface_rect.width, 0);
        frame.update_state(WindowState::empty());
        assert!(!frame.decorations().unwrap().left.hide);
        assert_eq!(frame.decorations().unwrap().left.surface_rect, rect(-10, -35, 10, 335));
    }
}

#[test]
fn a_fullscreen_window_has_no_decoration() {
    let mut frame = frame(200, 200);
    frame.update_state(state(|s| s.fullscreen = true));
    assert!(frame.is_dirty());
    assert!(frame.decorations().unwrap().parts().iter().all(|(_, p)| p.hide));
    assert_eq!(drawn(&mut frame), vec![]);
    // Nothing was drawn, so the frame is no more up to date than it was.
    assert!(frame.is_dirty());
    frame.update_state(WindowState::empty());
    assert!(frame.decorations().unwrap().parts().iter().all(|(_, p)| !p.hide));
    assert_eq!(drawn(&mut frame).len(), 5);
}

#[test]
fn drawing_goes_panel_by_panel_with_the_header_last() {
    let mut frame = frame(200, 200);
    let list = frame.draw(
        &PartScales { top: 1, left: 2, right: 1, bottom: 3, header: 2 },
        &PartFlags::all(true),
    );
    let border = |x, y, width, height| Some(PixelRect { x, y, width, height });
    assert_eq!(
        list,
        vec![
            PartDraw { part: PartId::Top, x: -10, y: -45, width: 220, height: 10, stride: 880, scale: 1, border: None },
            PartDraw { part: PartId::Left, x: -10, y: -35, width: 20, height: 470, stride: 80, scale: 2, border: border(18, 70, 2, 400) },
            PartDraw { part: PartId::Right, x: 200, y: -35, width: 10, height: 235, stride: 40, scale: 1, border: border(0, 35, 1, 200) },
            PartDraw { part: PartId::Bottom, x: -10, y: 200, width: 660, height: 30, stride: 2640, scale: 3, border: border(27, 0, 606, 3) },
            PartDraw { part: PartId::Header, x: -1, y: -35, width: 404, height: 70, stride: 1616, scale: 2, border: None },
        ]
    );
    assert!(!frame.is_dirty());
    // A frame that is up to date draws nothing.
    assert_eq!(drawn(&mut frame), vec![]);
    assert!(!frame.is_dirty());
}

#[test]
fn a_panel_without_a_buffer_is_tried_again() {
    let mut frame = frame(200, 200);
    let ready = PartFlags { right: false, ..PartFlags::all(true) };
    let list = frame.draw(&PartScales::uniform(1), &ready);
    let parts: Vec<PartId> = list.iter().map(|d| d.part).collect();
    assert_eq!(parts, vec![PartId::Top, PartId::Left, PartId::Bottom, PartId::Header]);
    assert!(frame.is_dirty());
    assert_eq!(frame.draw(&PartScales::uniform(1), &PartFlags::all(false)), vec![]);
    assert!(frame.is_dirty());
    assert_eq!(drawn(&mut frame).len(), 5);
    assert!(!frame.is_dirty());
}

#[test]
fn a_panel_without_extent_is_passed_over() {
    // A frame that was never given a size has panels without extent.
    let mut frame = AdwaitaFrame::new(FrameConfig::light());
    assert_eq!(drawn(&mut frame), vec![]);
    assert!(!frame.is_dirty());
    // At scale zero no panel has a buffer.
    let mut frame = self::frame(200, 200);
    assert_eq!(frame.draw(&PartScales::uniform(0), &PartFlags::all(false)), vec![]);
    assert!(!frame.is_dirty());
    assert_eq!(PartScales::uniform(3).get(PartId::Bottom), 3);
    assert!(!PartFlags { top: false, ..PartFlags::all(true) }.get(PartId::Top));
}

#[test]
fn pointer_on_the_left_edge() {
    let mut frame = frame(200, 200);
    assert_eq!(frame.click_point_moved(LEFT, fx(5), fx(100)), Some("left_side"));
    assert_eq!(frame.mouse().location, Location::Left);
    // On the top edge, two points from its left end, it is in the corner.
    assert_eq!(frame.click_point_moved(TOP, fx(2), fx(2)), Some("top_left_corner"));
    assert_eq!(frame.mouse().location, Location::TopLeft);
    assert_eq!(frame.click_point_moved(TOP, fx(100), fx(2)), Some("top_side"));
    assert_eq!(frame.click_point_moved(TOP, fx(215), fx(2)), Some("top_right_corner"));
    assert_eq!(frame.click_point_moved(RIGHT, fx(5), fx(5)), Some("right_side"));
    assert_eq!(frame.click_point_moved(BOTTOM, fx(5), fx(5)), Some("bottom_left_corner"));
    assert_eq!(frame.click_point_moved(BOTTOM, fx(50), fx(5)), Some("bottom_side"));
    assert_eq!(frame.click_point_moved(BOTTOM, fx(210), fx(5)), Some("bottom_right_corner"));
    assert_eq!(frame.click_point_moved(HEADER, fx(50), fx(5)), Some("left_ptr"));
    assert_eq!(frame.mouse().location, Location::Head);

    frame.set_resizable(false);
    assert_eq!(frame.click_point_moved(LEFT, fx(5), fx(100)), Some("left_ptr"));
    assert_eq!(frame.mouse().location, Location::Left);
    assert_eq!(frame.precise_location(Location::Top, 200, fx(3), fx(0)), Location::TopLeft);
}

#[test]
fn pointer_on_a_foreign_surface() {
    let mut frame = frame(200, 200);
    frame.click_point_moved(LEFT, fx(5), fx(100));
    drawn(&mut frame);
    assert_eq!(frame.click_point_moved(99, fx(5), fx(100)), None);
    assert_eq!(frame.mouse().location, Location::Left);
    assert!(!frame.is_dirty());
    frame.set_hidden(true);
    assert_eq!(frame.click_point_moved(LEFT, fx(5), fx(100)), None);
}

#[test]
fn crossing_the_rim_of_a_button_makes_a_frame_dirty() {
    let mut frame = frame(400, 300);
    let clean = |frame: &mut AdwaitaFrame| {
        drawn(frame);
        assert!(!frame.is_dirty());
    };
    clean(&mut frame);
    // Onto the title bar, and about on it.
    frame.click_point_moved(HEADER, fx(100), fx(17));
    frame.click_point_moved(HEADER, fx(200), fx(20));
    assert!(!frame.is_dirty());
    // Onto the close button.
    frame.click_point_moved(HEADER, fx(380), fx(17));
    assert_eq!(frame.mouse().location, Location::Button(ButtonKind::Close));
    assert!(frame.is_dirty());
    clean(&mut frame);
    // About on the button.
    frame.click_point_moved(HEADER, fx(381), fx(18));
    assert!(!frame.is_dirty());
    // From one button to the next.
    frame.click_point_moved(HEADER, fx(340), fx(17));
    assert_eq!(frame.mouse().location, Location::Button(ButtonKind::Maximize));
    assert!(frame.is_dirty());
    clean(&mut frame);
    // Off the button.
    frame.click_point_moved(HEADER, fx(100), fx(17));
    assert!(frame.is_dirty());
    clean(&mut frame);
    // From the title bar to an edge.
    frame.click_point_moved(LEFT, fx(5), fx(100));
    assert!(!frame.is_dirty());
    // Leaving from an edge, and leaving from a button.
    frame.click_point_left();
    assert_eq!(frame.mouse().location, Location::Nowhere);
    assert!(!frame.is_dirty());
    frame.click_point_moved(HEADER, fx(380), fx(17));
    clean(&mut frame);
    frame.click_point_left();
    assert!(frame.is_dirty());
}

#[test]
fn clicks_on_the_frame() {
    let mut frame = frame(400, 300);
    frame.click_point_moved(HEADER, fx(380), fx(17));
    assert_eq!(frame.on_click(0, FrameClick::Normal, true), None);
    assert_eq!(frame.on_click(30, FrameClick::Normal, false), Some(FrameAction::Close));

    frame.click_point_moved(HEADER, fx(340), fx(17));
    frame.on_click(100, FrameClick::Normal, true);
    assert_eq!(frame.on_click(130, FrameClick::Normal, false), Some(FrameAction::Maximize));
    frame.update_state(state(|s| s.maximized = true));
    frame.click_point_moved(HEADER, fx(340), fx(17));
    frame.on_click(200, FrameClick::Normal, true);
    assert_eq!(frame.on_click(230, FrameClick::Normal, false), Some(FrameAction::UnMaximize));
    frame.update_state(WindowState::empty());

    frame.click_point_moved(HEADER, fx(300), fx(17));
    frame.on_click(300, FrameClick::Normal, true);
    assert_eq!(frame.on_click(330, FrameClick::Normal, false), Some(FrameAction::Minimize));

    frame.click_point_moved(HEADER, fx(100), fx(17));
    frame.on_click(1000, FrameClick::Normal, true);
    assert_eq!(frame.on_click(1030, FrameClick::Normal, false), Some(FrameAction::Move));
    frame.on_click(1200, FrameClick::Normal, true);
    assert_eq!(frame.on_click(1230, FrameClick::Normal, false), Some(FrameAction::Maximize));
    assert_eq!(frame.on_click(1300, FrameClick::Alternate, true), Some(FrameAction::ShowMenu(100, -18)));
    assert_eq!(frame.on_click(1310, FrameClick::Alternate, false), None);

    frame.click_point_moved(BOTTOM, fx(405), fx(5));
    frame.on_click(2000, FrameClick::Normal, true);
    assert_eq!(
        frame.on_click(2030, FrameClick::Normal, false),
        Some(FrameAction::Resize(sctk_adwaita::pointer::ResizeEdge::Bottom))
    );
    frame.set_resizable(false);
    frame.on_click(2100, FrameClick::Normal, true);
    assert_eq!(frame.on_click(2130, FrameClick::Normal, false), None);
}

#[test]
fn what_the_window_manager_cannot_do_is_not_asked() {
    let mut frame = frame(400, 300);
    frame.click_point_moved(HEADER, fx(100), fx(17));
    frame.update_wm_capabilities(WindowManagerCapabilities {
        window_menu: false,
        maximize: false,
        fullscreen: false,
        minimize: false,
    });
    assert_eq!(frame.on_click(0, FrameClick::Alternate, true), None);
    frame.on_click(10, FrameClick::Normal, true);
    assert_eq!(frame.on_click(20, FrameClick::Normal, false), Some(FrameAction::Move));
    frame.on_click(30, FrameClick::Normal, true);
    assert_eq!(frame.on_click(40, FrameClick::Normal, false), Some(FrameAction::Move));
    // The buttons are gone with the capabilities.
    assert_eq!(frame.click_point_moved(HEADER, fx(340), fx(17)), Some("left_ptr"));
    assert_eq!(frame.mouse().location, Location::Head);
}

#[test]
fn the_title_bar_is_painted_in_the_colours_of_the_activation() {
    let mut frame = frame(400, 300);
    let theme = ColorTheme::light();
    let header = frame.header_draw(1);
    assert_eq!(header.radius, 10);
    assert_eq!(header.background, Paint { color: theme.inactive.headerbar, anti_alias: true });
    assert_eq!(header.border, Paint { color: theme.inactive.border_color, anti_alias: false });
    assert_eq!(header.line, Some(PixelRect { x: 0, y: 34, width: 402, height: 1 }));
    assert_eq!(frame.header_draw(2).line, Some(PixelRect { x: 0, y: 69, width: 804, height: 1 }));
    assert_eq!(frame.header_draw(0).line, None);
    assert_eq!(header.title, None);
    assert_eq!(header.close.background.color, theme.inactive.button_idle);
    assert_eq!(header.maximize.unwrap().center_x, 346);
    assert_eq!(header.minimize.unwrap().center_x, 309);

    frame.update_state(state(|s| s.activated = true));
    frame.click_point_moved(HEADER, fx(380), fx(17));
    let header = frame.header_draw(2);
    assert_eq!(header.background.color, theme.active.headerbar);
    assert_eq!(header.close.background.color, theme.active.button_hover);
    assert_eq!(header.close.scale, 2);
    assert_eq!(header.maximize.unwrap().background.color, theme.active.button_idle);

    frame.update_wm_capabilities(WindowManagerCapabilities {
        maximize: false,
        ..WindowManagerCapabilities::all()
    });
    let header = frame.header_draw(1);
    assert_eq!(header.maximize, None);
    assert_eq!(header.minimize.unwrap().center_x, 346);
}

#[test]
fn the_title_is_placed_once_it_has_a_raster() {
    let mut frame = frame(400, 300);
    frame.set_title(String::from("A window"));
    frame.prepare_title(1);
    assert!(frame.title_text().needs_render());
    assert_eq!(frame.title_text().scale(), 1);
    assert_eq!(frame.title_text().color(), ColorTheme::light().inactive.font_color);
    assert_eq!(frame.header_draw(1).title, None);

    frame.title_rendered(Pixmap::new(100, 17));
    assert!(!frame.title_text().needs_render());
    let title = frame.header_draw(1).title.unwrap();
    assert_eq!((title.x, title.y), (151, 9));
    assert_eq!(title.clip, Some(TitleClip { left2: 302, width2: 272, height: 35 }));

    // The same title again needs no new raster, another title does.
    frame.set_title(String::from("A window"));
    frame.prepare_title(1);
    assert!(!frame.title_text().needs_render());
    assert!(frame.header_draw(1).title.is_some());
    frame.set_title(String::from("Another window"));
    assert!(frame.title_text().needs_render());
    assert_eq!(frame.header_draw(1).title, None);

    // So does another scale, or another colour.
    frame.title_rendered(Pixmap::new(100, 17));
    frame.prepare_title(2);
    assert!(frame.title_text().needs_render());
    frame.title_rendered(Pixmap::new(200, 34));
    frame.update_state(state(|s| s.activated = true));
    frame.prepare_title(2);
    assert!(frame.title_text().needs_render());
    assert_eq!(frame.title_text().color(), ColorTheme::light().active.font_color);
    // A title that comes to nothing is not drawn.
    frame.title_rendered(None);
    assert!(!frame.title_text().needs_render());
    assert_eq!(frame.header_draw(2).title, None);
}
