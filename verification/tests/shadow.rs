use sctk_adwaita::parts::PartId;
use sctk_adwaita::pixmap::{alpha_blend, Rgba};
use sctk_adwaita::shadow::{RenderedShadow, Shadow, SHADOW_SIZE};
use tiny_skia::{Color, Pixmap, PremultipliedColorU8};

const ACTIVE: (f32, f32, f32) = (0.206_505_5, 0.104_617_53, -0.000_542_446_2);
const INACTIVE: (f32, f32, f32) = (0.168_297_29, 0.204_299_8, 0.001_769_798_6);

const SIDE_ACTIVE: [u8; 43] = [
    50, 45, 40, 36, 33, 29, 27, 24, 22, 19, 17, 16, 14, 13, 11, 10, 9, 8, 7, 7, 6, 5, 5, 4, 4, 4,
    3, 3, 3, 2, 2, 2, 2, 1, 1, 1, 1, 1, 1, 1, 1, 1, 0,
];

const SIDE_INACTIVE: [u8; 43] = [
    39, 32, 26, 21, 18, 14, 12, 10, 8, 7, 5, 5, 4, 3, 3, 2, 2, 2, 1, 1, 1, 1, 1, 1, 1, 1, 1, 1, 1,
    1, 1, 1, 1, 0, 0, 0, 0, 0, 0, 0, 0, 0, 0,
];

fn shadow(pixel_dist: f32, scale: u32, active: bool) -> f32 {
    let (a, b, c) = if active { ACTIVE } else { INACTIVE };
    a * (-b * (pixel_dist / scale as f32)).exp() + c
}

fn alpha(pixel_dist: f32, scale: u32, active: bool) -> u8 {
    (shadow(pixel_dist, scale, active) * u8::MAX as f32).round() as u8
}

fn side_table(scale: u32, active: bool) -> Vec<u8> {
    (0..SHADOW_SIZE * scale)
        .map(|x| alpha(x as f32 + 0.5, scale, active))
        .collect()
}

fn ring_table(scale: u32, active: bool) -> Vec<u8> {
    let size = (10 + SHADOW_SIZE) * 2 * scale;
    let middle = size as f32 / 2.0;
    let mut table = Vec::new();
    for y in 0..size {
        let dy = y as f32 + 0.5 - middle;
        for x in 0..size {
            let dx = x as f32 + 0.5 - middle;
            let dist = (dx * dx + dy * dy).sqrt() - (10 * scale) as f32;
            table.push(alpha(dist, scale, active));
        }
    }
    table
}

fn rendered(scale: u32, active: bool) -> RenderedShadow {
    RenderedShadow::new(scale, &side_table(scale, active), &ring_table(scale, active)).unwrap()
}

fn shade(a: u8) -> PremultipliedColorU8 {
    PremultipliedColorU8::from_rgba(0, 0, 0, a).unwrap()
}

fn white() -> PremultipliedColorU8 {
    PremultipliedColorU8::from_rgba(255, 255, 255, 255).unwrap()
}

fn white_pixmap(width: u32, height: u32) -> Pixmap {
    let mut pixmap = Pixmap::new(width, height).unwrap();
    pixmap.fill(Color::WHITE);
    pixmap
}

#[test]
fn source_texture_side_active() {
    let shadow = rendered(1, true);
    let side = shadow.side();
    assert_eq!((side.width(), side.height()), (43, 1));
    for (x, expected) in SIDE_ACTIVE.iter().enumerate() {
        assert_eq!(side.pixels()[x], shade(*expected), "pixel {x}");
    }
}

#[test]
fn source_texture_side_inactive() {
    let shadow = rendered(1, false);
    let side = shadow.side();
    assert_eq!((side.width(), side.height()), (43, 1));
    for (x, expected) in SIDE_INACTIVE.iter().enumerate() {
        assert_eq!(side.pixels()[x], shade(*expected), "pixel {x}");
    }
}

#[test]
fn source_texture_corner_active() {
    let shadow = rendered(1, true);
    let edges = shadow.edges();
    assert_eq!((edges.width(), edges.height()), (106, 106));
    // Inside the rounded corner the distance is negative and the shadow at its darkest.
    assert_eq!(edges.pixel(52, 52).unwrap(), shade(alpha(0.5f32.sqrt() - 10.0, 1, true)));
    // Straight out from the middle the ring fades like the side strip.
    for (i, expected) in SIDE_ACTIVE.iter().enumerate() {
        let got = edges.pixel(63 + i as u32, 53).unwrap().alpha();
        assert!(got.abs_diff(*expected) <= 1, "pixel {i}: {got} against {expected}");
    }
    // The ring is the same in all four quarters.
    for y in 0..53 {
        for x in 0..53 {
            let p = edges.pixel(x, y).unwrap();
            assert_eq!(p, edges.pixel(105 - x, y).unwrap());
            assert_eq!(p, edges.pixel(x, 105 - y).unwrap());
        }
    }
    assert_eq!(edges.pixel(0, 0).unwrap(), shade(0));
}

#[test]
fn source_texture_corner_inactive() {
    let shadow = rendered(1, false);
    let edges = shadow.edges();
    assert_eq!((edges.width(), edges.height()), (106, 106));
    assert_eq!(edges.pixel(52, 52).unwrap(), shade(alpha(0.5f32.sqrt() - 10.0, 1, false)));
    for (i, expected) in SIDE_INACTIVE.iter().enumerate() {
        let got = edges.pixel(63 + i as u32, 53).unwrap().alpha();
        assert!(got.abs_diff(*expected) <= 1, "pixel {i}: {got} against {expected}");
    }
    assert_eq!(edges.pixel(105, 105).unwrap(), shade(0));
}

#[test]
fn side_left() {
    let mut pixmap = white_pixmap(60, 100);

    let shadow = rendered(1, true);

    let stack = pixmap.height() as u64;
    shadow.side_draw(false, false, stack, &mut pixmap, 0, 0);

    for y in 0..100 {
        for x in 0..60 {
            let expected = if x < 43 { shade(SIDE_ACTIVE[x as usize]) } else { white() };
            assert_eq!(pixmap.pixel(x, y).unwrap(), expected, "at ({x}, {y})");
        }
    }
}

#[test]
fn side_left_flipped() {
    let mut pixmap = white_pixmap(60, 100);

    let shadow = rendered(1, true);

    let stack = pixmap.height() as u64;
    shadow.side_draw(true, false, stack, &mut pixmap, 0, 0);

    for y in 0..100 {
        for x in 0..60 {
            let expected = if x < 43 { shade(SIDE_ACTIVE[42 - x as usize]) } else { white() };
            assert_eq!(pixmap.pixel(x, y).unwrap(), expected, "at ({x}, {y})");
        }
    }
}

#[test]
fn side_left_rotated() {
    let mut pixmap = white_pixmap(60, 100);

    let shadow = rendered(1, true);

    let stack = pixmap.width() as u64;
    shadow.side_draw(false, true, stack, &mut pixmap, 0, 0);

    for y in 0..100 {
        for x in 0..60 {
            let expected = if y < 43 { shade(SIDE_ACTIVE[y as usize]) } else { white() };
            assert_eq!(pixmap.pixel(x, y).unwrap(), expected, "at ({x}, {y})");
        }
    }
}

#[test]
fn side_left_flipped_rotated() {
    let mut pixmap = white_pixmap(60, 100);

    let shadow = rendered(1, true);

    let stack = pixmap.width() as u64;
    shadow.side_draw(true, true, stack, &mut pixmap, 0, 0);

    for y in 0..100 {
        for x in 0..60 {
            let expected = if y < 43 { shade(SIDE_ACTIVE[42 - y as usize]) } else { white() };
            assert_eq!(pixmap.pixel(x, y).unwrap(), expected, "at ({x}, {y})");
        }
    }
}

#[test]
fn alpha_of_the_first_pixel_is_exact() {
    assert_eq!(alpha(0.5, 1, true), 50);
    assert_eq!(alpha(0.5, 1, false), 39);
    assert_eq!(alpha(42.5, 1, true), 0);
    assert_eq!(side_table(1, true), SIDE_ACTIVE.to_vec());
    assert_eq!(side_table(1, false), SIDE_INACTIVE.to_vec());
}

#[test]
fn sources_are_refused_for_tables_of_the_wrong_length() {
    let side = side_table(1, true);
    let ring = ring_table(1, true);
    assert!(RenderedShadow::new(1, &side, &ring).is_some());
    assert!(RenderedShadow::new(1, &side[..42].to_vec(), &ring).is_none());
    assert!(RenderedShadow::new(1, &side, &ring[1..].to_vec()).is_none());
    assert!(RenderedShadow::new(2, &side, &ring).is_none());
    assert!(RenderedShadow::new(0, &Vec::new(), &Vec::new()).is_none());
    assert!(RenderedShadow::new(u32::MAX, &side, &ring).is_none());
}

#[test]
fn sources_at_scale_two_are_twice_as_large() {
    let shadow = rendered(2, false);
    assert_eq!((shadow.side().width(), shadow.side().height()), (86, 1));
    assert_eq!((shadow.edges().width(), shadow.edges().height()), (212, 212));
    assert_eq!(shadow.side().pixels()[0], shade(alpha(0.5, 2, false)));
}

#[test]
fn side_draw_places_the_strip_at_an_offset() {
    let mut pixmap = white_pixmap(50, 4);
    let shadow = rendered(1, true);
    shadow.side_draw(false, false, 2, &mut pixmap, 5, 1);
    for y in 0..4 {
        for x in 0..50 {
            let expected = if (1..3).contains(&y) && (5..48).contains(&x) {
                shade(SIDE_ACTIVE[x as usize - 5])
            } else {
                white()
            };
            assert_eq!(pixmap.pixel(x, y).unwrap(), expected, "at ({x}, {y})");
        }
    }
}

#[test]
fn side_draw_runs_on_into_the_next_row() {
    // The strip is 43 pixels long, a row only 40: the last three pixels of each
    // copy land at the start of the row below, where the next copy overwrites
    // them, and nothing is written past the end of the bitmap.
    let mut pixmap = white_pixmap(40, 2);
    let shadow = rendered(1, true);
    shadow.side_draw(false, false, 2, &mut pixmap, 0, 0);
    for x in 0..40 {
        assert_eq!(pixmap.pixel(x, 0).unwrap(), shade(SIDE_ACTIVE[x as usize]));
        assert_eq!(pixmap.pixel(x, 1).unwrap(), shade(SIDE_ACTIVE[x as usize]));
    }
}

#[test]
fn side_draw_outside_the_bitmap_draws_nothing() {
    let mut pixmap = white_pixmap(10, 10);
    let shadow = rendered(1, true);
    shadow.side_draw(false, false, 3, &mut pixmap, 0, 10);
    shadow.side_draw(true, true, 3, &mut pixmap, 0, u64::MAX);
    shadow.side_draw(false, true, 0, &mut pixmap, 0, 0);
    assert!(pixmap.pixels().iter().all(|p| *p == white()));
}

#[test]
fn edges_draw_copies_a_rectangle_of_the_ring() {
    let mut pixmap = white_pixmap(20, 20);
    let shadow = rendered(1, true);
    shadow.edges_draw(43, 43, &mut pixmap, 2, 3, 10, 5);
    for y in 0..20 {
        for x in 0..20 {
            let expected = if (3..8).contains(&y) && (2..12).contains(&x) {
                shadow.edges().pixel(43 + x - 2, 43 + y - 3).unwrap()
            } else {
                white()
            };
            assert_eq!(pixmap.pixel(x, y).unwrap(), expected, "at ({x}, {y})");
        }
    }
}

#[test]
fn edges_draw_skips_what_lies_before_the_ring() {
    let mut pixmap = white_pixmap(8, 8);
    let shadow = rendered(1, true);
    shadow.edges_draw(-2, -3, &mut pixmap, 0, 0, 8, 8);
    for y in 0..8 {
        for x in 0..8 {
            let expected = if x >= 2 && y >= 3 {
                shadow.edges().pixel(x - 2, y - 3).unwrap()
            } else {
                white()
            };
            assert_eq!(pixmap.pixel(x, y).unwrap(), expected, "at ({x}, {y})");
        }
    }
}

#[test]
fn header_shadow_fills_the_two_top_corners() {
    let mut pixmap = Pixmap::new(202, 35).unwrap();
    let shadow = rendered(1, true);
    shadow.draw(&mut pixmap, 1, PartId::Header, false);
    let transparent = shade(0);
    for y in 0..35 {
        for x in 0..202 {
            let expected = if y < 10 && x < 10 {
                shadow.edges().pixel(43 + x, 43 + y).unwrap()
            } else if y < 10 && x >= 192 {
                shadow.edges().pixel(53 + x - 192, 43 + y).unwrap()
            } else {
                transparent
            };
            assert_eq!(pixmap.pixel(x, y).unwrap(), expected, "at ({x}, {y})");
        }
    }
}

#[test]
fn left_shadow_is_two_corners_and_the_strip_between() {
    let mut pixmap = Pixmap::new(10, 235).unwrap();
    let shadow = rendered(1, true);
    shadow.draw(&mut pixmap, 1, PartId::Left, false);
    let edges = shadow.edges();
    for y in 0..235u32 {
        for x in 0..10u32 {
            let expected = if y < 10 {
                if x < 9 { edges.pixel(x, 43 + y).unwrap() } else { shade(0) }
            } else if y < 226 {
                // The strip read backwards: it is at its darkest next to the window.
                shade(SIDE_ACTIVE[42 - x as usize])
            } else if x < 9 {
                edges.pixel(x, 53 + y - 226).unwrap()
            } else {
                // The column of the visible border under the strip is not the
                // corner's: it keeps what ran on from the rows above.
                continue;
            };
            assert_eq!(pixmap.pixel(x, y).unwrap(), expected, "at ({x}, {y})");
        }
    }
}

#[test]
fn nothing_is_drawn_at_scale_zero() {
    let mut pixmap = white_pixmap(30, 30);
    let shadow = rendered(1, true);
    for part in [PartId::Top, PartId::Left, PartId::Right, PartId::Bottom, PartId::Header] {
        shadow.draw(&mut pixmap, 0, part, false);
    }
    assert!(pixmap.pixels().iter().all(|p| *p == white()));
}

#[test]
fn cache_gives_the_same_bitmap_again() {
    let mut cache = Shadow::new();
    assert!(!cache.has_source(1, true));
    assert!(!cache.draw(202, 35, 1, true, PartId::Header, false));
    assert!(cache.part(PartId::Header).is_none());

    assert!(cache.add_source(1, true, rendered(1, true)));
    assert!(cache.has_source(1, true));
    assert!(!cache.has_source(1, false));
    assert!(!cache.has_source(2, true));

    assert!(cache.draw(202, 35, 1, true, PartId::Header, false));
    let first = cache.part(PartId::Header).unwrap().pixmap().clone();
    assert_eq!((first.width(), first.height()), (202, 35));
    assert_eq!(first.pixel(0, 0).unwrap(), cache.source(1, true).unwrap().edges().pixel(43, 43).unwrap());

    assert!(cache.draw(202, 35, 1, true, PartId::Header, false));
    assert!(*cache.part(PartId::Header).unwrap().pixmap() == first);
    assert!(cache.part(PartId::Top).is_none());
}

#[test]
fn cache_keeps_the_sources_it_was_first_given() {
    let mut cache = Shadow::default();
    assert!(cache.add_source(1, true, rendered(1, true)));
    let side = cache.source(1, true).unwrap().side().clone();
    // Other sources for the same scale and activation are turned away.
    assert!(!cache.add_source(1, true, rendered(1, false)));
    assert!(*cache.source(1, true).unwrap().side() == side);
    assert_eq!(side.pixels()[0], shade(50));
    cache.draw(10, 235, 1, true, PartId::Left, false);
    cache.draw(10, 235, 1, true, PartId::Right, false);
    assert!(*cache.source(1, true).unwrap().side() == side);
}

#[test]
fn cache_draws_anew_when_the_size_changes() {
    let mut cache = Shadow::new();
    cache.add_source(1, true, rendered(1, true));
    cache.add_source(1, false, rendered(1, false));
    assert!(cache.draw(220, 10, 1, true, PartId::Top, false));
    assert_eq!(cache.part(PartId::Top).unwrap().pixmap().width(), 220);
    assert!(cache.draw(320, 10, 1, true, PartId::Top, false));
    assert_eq!(cache.part(PartId::Top).unwrap().pixmap().width(), 320);
    assert!(cache.part(PartId::Top).unwrap().matches(320, 10, 1, true, false));
    assert!(!cache.part(PartId::Top).unwrap().matches(320, 10, 1, false, false));
    // Another activation is another shadow.
    let active = cache.part(PartId::Top).unwrap().pixmap().clone();
    assert!(cache.draw(320, 10, 1, false, PartId::Top, false));
    assert!(*cache.part(PartId::Top).unwrap().pixmap() != active);
    // No bitmap has no pixels, and a scale without sources no shadow: the panel
    // is left without one.
    assert!(!cache.draw(0, 10, 1, true, PartId::Top, false));
    assert!(cache.part(PartId::Top).is_none());
    assert!(!cache.draw(320, 10, 3, true, PartId::Top, false));
}

#[test]
fn a_bitmap_with_spare_bytes_is_left_alone() {
    // 4 by 2 pixels take 32 bytes; this one carries one pixel more.
    let bytes = vec![255u8; 36];
    let mut pixmap = tiny_skia::PixmapRef::from_bytes(&bytes, 4, 2).unwrap().to_owned();
    let source = rendered(1, true);
    source.side_draw(false, false, 2, &mut pixmap, 0, 0);
    source.edges_draw(0, 0, &mut pixmap, 0, 0, 4, 2);
    source.draw(&mut pixmap, 1, PartId::Header, false);
    assert_eq!(pixmap.data(), &bytes[..]);

    // The same calls on a bitmap of just its pixels do draw.
    let mut exact = white_pixmap(4, 2);
    source.side_draw(false, false, 2, &mut exact, 0, 0);
    assert_eq!(exact.pixels()[0], shade(50));
    assert_eq!(exact.pixels()[4], shade(50));
}

#[test]
fn alpha_blend_lays_one_pixel_over_another() {
    let clear = Rgba { r: 0, g: 0, b: 0, a: 0 };
    let solid = Rgba { r: 10, g: 20, b: 30, a: 255 };
    let faint = Rgba { r: 1, g: 0, b: 0, a: 1 };
    // A solid pixel hides what is under it.
    assert_eq!(alpha_blend(solid, faint), solid);
    // Under a clear pixel every channel that is there at all comes through in full.
    assert_eq!(alpha_blend(clear, faint), Rgba { r: 255, g: 0, b: 0, a: 255 });
    assert_eq!(alpha_blend(clear, clear), clear);
    // 254 lets one part in 255 through: 100 + 3 * 1 and 254 + 3 * 1, held at 255.
    let over = Rgba { r: 100, g: 0, b: 0, a: 254 };
    let under = Rgba { r: 3, g: 0, b: 0, a: 3 };
    assert_eq!(alpha_blend(over, under), Rgba { r: 103, g: 0, b: 0, a: 255 });
    // The same as the saturating operations on bytes.
    for (a, b) in [(solid, faint), (clear, faint), (over, under), (faint, over)] {
        let channel = |x: u8, y: u8| x.saturating_add(y.saturating_mul(255 - a.a));
        let expected = Rgba {
            r: channel(a.r, b.r),
            g: channel(a.g, b.g),
            b: channel(a.b, b.b),
            a: channel(a.a, b.a),
        };
        assert_eq!(alpha_blend(a, b), expected);
        assert!(expected.r <= expected.a && expected.g <= expected.a && expected.b <= expected.a);
    }
}
