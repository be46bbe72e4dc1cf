use sctk_adwaita::buttons::{ButtonLayout, Buttons, Side};
use sctk_adwaita::parts::{Part, PartId, Rect};
use sctk_adwaita::renderer::{
    border_strip, buffer_size, corner_radius, margin_h, part_draw, title_placement, PartDraw,
    PixelRect, TitleClip, TitlePlacement, TEXT_OFFSET,
};
use sctk_adwaita::state::WindowState;

fn rect(x: i32, y: i32, width: u32, height: u32) -> Rect {
    Rect { x, y, width, height }
}

fn pixels(x: u32, y: u32, width: u32, height: u32) -> Option<PixelRect> {
    Some(PixelRect { x, y, width, height })
}

fn part(surface_rect: Rect, hide: bool) -> Part {
    Part { surface: None, surface_rect, input_rect: None, hide }
}

#[test]
fn docked_windows_have_square_corners_and_no_margin() {
    let plain = WindowState::empty();
    assert_eq!((corner_radius(&plain), margin_h(&plain)), (10, 1));
    let active = WindowState { activated: true, fullscreen: true, resizing: true, ..plain };
    assert_eq!((corner_radius(&active), margin_h(&active)), (10, 1));
    for docked in [
        WindowState { maximized: true, ..plain },
        WindowState { tiled_left: true, ..plain },
        WindowState { tiled_right: true, ..plain },
        WindowState { tiled_top: true, ..plain },
        WindowState { tiled_bottom: true, ..plain },
    ] {
        assert_eq!((corner_radius(&docked), margin_h(&docked)), (0, 0));
    }
}

#[test]
fn buffers_are_the_panel_times_the_scale() {
    assert_eq!(buffer_size(&rect(-1, -35, 202, 35), 1), Some((202, 35)));
    assert_eq!(buffer_size(&rect(-1, -35, 202, 35), 2), Some((404, 70)));
    assert_eq!(buffer_size(&rect(0, 0, 0, 35), 1), None);
    assert_eq!(buffer_size(&rect(0, 0, 200, 0), 1), None);
    assert_eq!(buffer_size(&rect(0, 0, 200, 35), 0), None);
    // A row of a buffer holds at most i32::MAX bytes.
    assert_eq!(buffer_size(&rect(0, 0, 536_870_911, 1), 1), Some((536_870_911, 1)));
    assert_eq!(buffer_size(&rect(0, 0, 536_870_912, 1), 1), None);
    assert_eq!(buffer_size(&rect(0, 0, 1, 0x7fff_ffff), 1), Some((1, 0x7fff_ffff)));
    assert_eq!(buffer_size(&rect(0, 0, 1, 0x8000_0000), 1), None);
    assert_eq!(buffer_size(&rect(0, 0, u32::MAX, u32::MAX), u32::MAX), None);
}

#[test]
fn visible_border_runs_along_the_content() {
    assert_eq!(border_strip(PartId::Left, &rect(-10, -35, 10, 235), 1), pixels(9, 35, 1, 200));
    assert_eq!(border_strip(PartId::Left, &rect(-10, -35, 10, 235), 2), pixels(18, 70, 2, 400));
    assert_eq!(border_strip(PartId::Right, &rect(200, -35, 10, 235), 1), pixels(0, 35, 1, 200));
    assert_eq!(border_strip(PartId::Right, &rect(200, -35, 10, 235), 3), pixels(0, 105, 3, 600));
    assert_eq!(border_strip(PartId::Bottom, &rect(-10, 200, 220, 10), 1), pixels(9, 0, 202, 1));
    assert_eq!(border_strip(PartId::Bottom, &rect(-10, 200, 220, 10), 2), pixels(18, 0, 404, 2));
    assert_eq!(border_strip(PartId::Top, &rect(-10, -45, 220, 10), 1), None);
    assert_eq!(border_strip(PartId::Header, &rect(-1, -35, 202, 35), 1), None);
    // Without a title bar the strip runs the whole height.
    assert_eq!(border_strip(PartId::Left, &rect(-10, 0, 10, 200), 1), pixels(9, 0, 1, 200));
    // A panel too small for a strip has none.
    assert_eq!(border_strip(PartId::Left, &rect(0, -35, 0, 235), 1), None);
    assert_eq!(border_strip(PartId::Left, &rect(-10, -35, 10, 20), 1), None);
    assert_eq!(border_strip(PartId::Bottom, &rect(-10, 200, 10, 10), 1), None);
    assert_eq!(border_strip(PartId::Left, &rect(i32::MIN, i32::MIN, 1, 1), u32::MAX), None);
}

#[test]
fn a_panel_is_drawn_where_it_shows_and_has_a_buffer() {
    let left = rect(-10, -35, 10, 235);
    assert_eq!(
        part_draw(PartId::Left, &part(left, false), 2),
        Some(PartDraw {
            part: PartId::Left,
            x: -10,
            y: -35,
            width: 20,
            height: 470,
            stride: 80,
            scale: 2,
            border: pixels(18, 70, 2, 400),
        })
    );
    assert_eq!(part_draw(PartId::Left, &part(left, true), 2), None);
    assert_eq!(part_draw(PartId::Left, &part(rect(0, -35, 0, 235), false), 1), None);
    assert_eq!(part_draw(PartId::Left, &part(left, false), 0), None);
    let header = part_draw(PartId::Header, &part(rect(-1, -35, 202, 35), false), 1).unwrap();
    assert_eq!((header.width, header.height, header.stride, header.border), (202, 35, 808, None));
}

#[test]
fn title_is_centred_where_it_fits() {
    let mut buttons = Buttons::default();
    buttons.arrange(400, 1);
    let state = WindowState::empty();
    assert_eq!(TEXT_OFFSET, 10);
    // The buttons of the right side start at 297: a title of 100 centred on 402
    // pixels lies from 151 to 251.
    assert_eq!(
        title_placement(402, 35, 100, 17, 1, &state, &buttons),
        TitlePlacement {
            x: 151,
            y: 9,
            clip: Some(TitleClip { left2: 302, width2: 272, height: 35 }),
        }
    );
    // At scale two everything doubles.
    let placed = title_placement(804, 70, 200, 34, 2, &state, &buttons);
    assert_eq!((placed.x, placed.y), (302, 18));
    assert_eq!(placed.clip, Some(TitleClip { left2: 604, width2: 544, height: 70 }));
    // An odd difference is halved towards zero.
    let placed = title_placement(402, 35, 101, 20, 1, &state, &buttons);
    assert_eq!((placed.x, placed.y), (150, 7));
    assert_eq!(placed.clip, Some(TitleClip { left2: 301, width2: 273, height: 35 }));
    let placed = title_placement(402, 35, 100, 40, 1, &state, &buttons);
    assert_eq!(placed.y, -2);
}

#[test]
fn a_long_title_starts_at_the_left_and_is_cut_before_the_buttons() {
    let mut buttons = Buttons::default();
    buttons.arrange(400, 1);
    let state = WindowState::empty();
    // Centred, a title of 300 would end at 351, past the buttons.
    assert_eq!(
        title_placement(402, 35, 300, 17, 1, &state, &buttons),
        TitlePlacement {
            x: 12,
            y: 9,
            clip: Some(TitleClip { left2: 20, width2: 554, height: 35 }),
        }
    );
    // In a maximized window there is no margin to keep from.
    let mut docked = Buttons::default();
    docked.arrange(400, 0);
    let maximized = WindowState { maximized: true, ..state };
    let placed = title_placement(400, 35, 300, 17, 1, &maximized, &docked);
    assert_eq!((placed.x, placed.y), (10, 9));
    assert_eq!(placed.clip, Some(TitleClip { left2: 20, width2: 554, height: 35 }));
}

#[test]
fn a_title_keeps_clear_of_buttons_on_the_left() {
    let mut buttons = Buttons::new(ButtonLayout { maximize: Side::Left, minimize: Side::Left });
    buttons.arrange(400, 1);
    let state = WindowState::empty();
    // The left buttons end at 67, the close button starts at 371.
    let placed = title_placement(402, 35, 100, 17, 1, &state, &buttons);
    assert_eq!((placed.x, placed.y), (151, 9));
    assert_eq!(placed.clip, Some(TitleClip { left2: 302, width2: 420, height: 35 }));
    let placed = title_placement(402, 35, 260, 17, 1, &state, &buttons);
    assert_eq!(placed.x, 77);
    assert_eq!(placed.clip, Some(TitleClip { left2: 154, width2: 568, height: 35 }));
}

#[test]
fn no_title_where_the_buttons_leave_no_room() {
    let mut buttons = Buttons::default();
    buttons.arrange(100, 1);
    let state = WindowState::empty();
    // The buttons start at -3: there is nothing between the left edge and them.
    let placed = title_placement(102, 35, 50, 17, 1, &state, &buttons);
    assert_eq!(placed.clip, None);
    assert_eq!((placed.x, placed.y), (12, 9));
    let placed = title_placement(u32::MAX, u32::MAX, 0, 0, u32::MAX, &state, &buttons);
    assert_eq!(placed.clip, None);
    assert_eq!(placed.y, i32::MAX);
}
