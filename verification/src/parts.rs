//! The five panels of a decoration and where each of them lies.

use vstd::prelude::*;
use crate::pointer::Location;
use crate::theme::{
    border_size, visible_border_size, spec_border_size, spec_visible_border_size, HEADER_SIZE,
    RESIZE_HANDLE_SIZE,
};

verus! {

/// The largest content width or height that a layout is computed for. Every
/// coordinate of every panel then fits in an `i32`.
pub const MAX_DIMENSION: u32 = 0x7fff_ff00;

/// A panel of the decoration. The order is the order of drawing: the header comes
/// last, because its rounded corners lie over the edges.
#[derive(Debug, Clone, Copy, PartialEq, Eq, Structural)]
pub enum PartId {
    Top,
    Left,
    Right,
    Bottom,
    Header,
}

impl PartId {
    /// The number of panels.
    pub const COUNT: usize = 5;

    /// The place of a panel in the order of drawing.
    pub open spec fn spec_index(self) -> usize {
        match self {
            PartId::Top => 0,
            PartId::Left => 1,
            PartId::Right => 2,
            PartId::Bottom => 3,
            PartId::Header => 4,
        }
    }

    /// The panel that is drawn at place `v`.
    pub open spec fn spec_from_usize(v: usize) -> PartId {
        if v == 0 {
            PartId::Top
        } else if v == 1 {
            PartId::Left
        } else if v == 2 {
            PartId::Right
        } else if v == 3 {
            PartId::Bottom
        } else {
            PartId::Header
        }
    }

    /// Whether the panel is one of the four edges.
    pub open spec fn spec_is_edge(self) -> bool {
        self != PartId::Header
    }

    #[verifier::when_used_as_spec(spec_index)]
    pub fn index(self) -> (i: usize)
        ensures
            i == self.spec_index(),
            i < PartId::COUNT,
            PartId::spec_from_usize(i) == self,
    {
        match self {
            PartId::Top => 0,
            PartId::Left => 1,
            PartId::Right => 2,
            PartId::Bottom => 3,
            PartId::Header => 4,
        }
    }

    #[verifier::when_used_as_spec(spec_from_usize)]
    pub fn from_usize(v: usize) -> (id: PartId)
        requires
            v < PartId::COUNT,
        ensures
            id == PartId::spec_from_usize(v),
            id.spec_index() == v,
    {
        if v == 0 {
            PartId::Top
        } else if v == 1 {
            PartId::Left
        } else if v == 2 {
            PartId::Right
        } else if v == 3 {
            PartId::Bottom
        } else {
            PartId::Header
        }
    }

    #[verifier::when_used_as_spec(spec_is_edge)]
    pub fn is_edge(self) -> (edge: bool)
        ensures
            edge == self.spec_is_edge(),
    {
        match self {
            PartId::Header => false,
            _ => true,
        }
    }
}

/// A rectangle in logical points.
#[derive(Debug, Clone, Copy, PartialEq, Eq, Structural)]
pub struct Rect {
    pub x: i32,
    pub y: i32,
    pub width: u32,
    pub height: u32,
}

impl Default for Rect {
    fn default() -> (r: Rect)
        ensures
            r == (Rect { x: 0, y: 0, width: 0, height: 0 }),
    {
        Rect { x: 0, y: 0, width: 0, height: 0 }
    }
}

/// What a layout is computed from: the size of the content and what is hidden.
#[derive(Debug, Clone, Copy, PartialEq, Eq, Structural)]
pub struct LayoutConfig {
    pub width: u32,
    pub height: u32,
    pub hide_titlebar: bool,
    pub hide_border: bool,
    pub hide_edges: bool,
}

impl Default for LayoutConfig {
    fn default() -> (c: LayoutConfig)
        ensures
            c == (LayoutConfig {
                width: 0,
                height: 0,
                hide_titlebar: false,
                hide_border: false,
                hide_edges: false,
            }),
    {
        LayoutConfig {
            width: 0,
            height: 0,
            hide_titlebar: false,
            hide_border: false,
            hide_edges: false,
        }
    }
}

impl LayoutConfig {
    /// The content is no larger than `MAX_DIMENSION` on either side.
    pub open spec fn spec_fits(self) -> bool {
        self.width <= MAX_DIMENSION && self.height <= MAX_DIMENSION
    }

    /// Height of the title bar above the content: none when it is hidden.
    pub open spec fn header_size(self) -> int {
        if self.hide_titlebar { 0 } else { HEADER_SIZE as int }
    }

    /// Width of the resize border on each side.
    pub open spec fn border(self) -> int {
        spec_border_size(self.hide_border) as int
    }

    #[verifier::when_used_as_spec(spec_fits)]
    pub fn fits(self) -> (ok: bool)
        ensures
            ok == self.spec_fits(),
    {
        self.width <= MAX_DIMENSION && self.height <= MAX_DIMENSION
    }
}

/// Where one panel lies.
#[derive(Debug, Clone, Copy, PartialEq, Eq, Structural)]
pub struct PartLayout {
    /// Positioned relative to the content surface.
    pub surface_rect: Rect,
    /// The part that takes input, relative to `surface_rect`; `None` where all of it does.
    pub input_rect: Option<Rect>,
}

impl Default for PartLayout {
    fn default() -> (l: PartLayout)
        ensures
            l == (PartLayout {
                surface_rect: Rect { x: 0, y: 0, width: 0, height: 0 },
                input_rect: None,
            }),
    {
        PartLayout { surface_rect: Rect { x: 0, y: 0, width: 0, height: 0 }, input_rect: None }
    }
}

impl PartLayout {
    /// The rectangle of panel `id`, relative to the top left corner of the content.
    pub open spec fn spec_surface_rect(config: LayoutConfig, id: PartId) -> Rect {
        let b = config.border();
        let h = config.header_size();
        let grow = if config.hide_edges {
            0int
        } else {
            spec_visible_border_size(config.hide_border) as int
        };
        match id {
            PartId::Top => Rect {
                x: (-b) as i32,
                y: (-(h + b)) as i32,
                width: (config.width + 2 * b) as u32,
                height: b as u32,
            },
            PartId::Left => Rect {
                x: (-b) as i32,
                y: (-h) as i32,
                width: b as u32,
                height: (config.height + h) as u32,
            },
            PartId::Right => Rect {
                x: config.width as i32,
                y: (-h) as i32,
                width: b as u32,
                height: (config.height + h) as u32,
            },
            PartId::Bottom => Rect {
                x: (-b) as i32,
                y: config.height as i32,
                width: (config.width + 2 * b) as u32,
                height: b as u32,
            },
            PartId::Header => Rect {
                x: (-grow) as i32,
                y: (-(HEADER_SIZE as int)) as i32,
                width: (config.width + 2 * grow) as u32,
                height: HEADER_SIZE,
            },
        }
    }

    /// The input rectangle of panel `id` inside the panel: a strip of
    /// `RESIZE_HANDLE_SIZE` along the content for an edge, the whole panel for the header.
    pub open spec fn spec_input_rect(config: LayoutConfig, id: PartId) -> Option<Rect> {
        let b = config.border();
        let h = config.header_size();
        let handle = RESIZE_HANDLE_SIZE as int;
        match id {
            PartId::Top => Some(
                Rect {
                    x: (b - handle) as i32,
                    y: (b - handle) as i32,
                    width: (config.width + 2 * handle) as u32,
                    height: RESIZE_HANDLE_SIZE,
                },
            ),
            PartId::Left => Some(
                Rect {
                    x: (b - handle) as i32,
                    y: 0,
                    width: RESIZE_HANDLE_SIZE,
                    height: (config.height + h) as u32,
                },
            ),
            PartId::Right => Some(
                Rect { x: 0, y: 0, width: RESIZE_HANDLE_SIZE, height: (config.height + h) as u32 },
            ),
            PartId::Bottom => Some(
                Rect {
                    x: (b - handle) as i32,
                    y: 0,
                    width: (config.width + 2 * handle) as u32,
                    height: RESIZE_HANDLE_SIZE,
                },
            ),
            PartId::Header => None,
        }
    }

    /// The layout of panel `id`.
    pub open spec fn spec_part(config: LayoutConfig, id: PartId) -> PartLayout {
        PartLayout {
            surface_rect: Self::spec_surface_rect(config, id),
            input_rect: Self::spec_input_rect(config, id),
        }
    }

    /// The layout of the five panels, in the order of drawing.
    pub open spec fn spec_calc(config: LayoutConfig) -> Seq<PartLayout> {
        Seq::new(PartId::COUNT as nat, |i: int| Self::spec_part(config, PartId::spec_from_usize(i as usize)))
    }

    /// Computes where the five panels lie around a content of the given size.
    pub fn calc(config: LayoutConfig) -> (parts: [PartLayout; 5])
        requires
            config.spec_fits(),
        ensures
            parts@ == Self::spec_calc(config),
    {
        let width = config.width;
        let height = config.height;

        let header_size: u32 = if config.hide_titlebar { 0 } else { HEADER_SIZE };
        let height_with_header: u32 = height + header_size;

        let border: u32 = border_size(config.hide_border);
        let border_i: i32 = border as i32;
        let handle_i: i32 = RESIZE_HANDLE_SIZE as i32;

        let width_with_border: u32 = width + 2 * border;
        let width_input_rect: u32 = width_with_border - (border * 2) + (RESIZE_HANDLE_SIZE * 2);

        let header_offset: i32 = header_size as i32;

        let top = PartLayout {
            surface_rect: Rect {
                x: -border_i,
                y: -(header_offset + border_i),
                width: width_with_border,
                height: border,
            },
            input_rect: Some(
                Rect {
                    x: border_i - handle_i,
                    y: border_i - handle_i,
                    width: width_input_rect,
                    height: RESIZE_HANDLE_SIZE,
                },
            ),
        };

        let left = PartLayout {
            surface_rect: Rect {
                x: -border_i,
                y: -header_offset,
                width: border,
                height: height_with_header,
            },
            input_rect: Some(
                Rect {
                    x: border_i - handle_i,
                    y: 0,
                    width: RESIZE_HANDLE_SIZE,
                    height: height_with_header,
                },
            ),
        };

        let right = PartLayout {
            surface_rect: Rect {
                x: width as i32,
                y: -header_offset,
                width: border,
                height: height_with_header,
            },
            input_rect: Some(
                Rect { x: 0, y: 0, width: RESIZE_HANDLE_SIZE, height: height_with_header },
            ),
        };

        let bottom = PartLayout {
            surface_rect: Rect {
                x: -border_i,
                y: height as i32,
                width: width_with_border,
                height: border,
            },
            input_rect: Some(
                Rect {
                    x: border_i - handle_i,
                    y: 0,
                    width: width_input_rect,
                    height: RESIZE_HANDLE_SIZE,
                },
            ),
        };

        let mut header = PartLayout {
            surface_rect: Rect { x: 0, y: -(HEADER_SIZE as i32), width, height: HEADER_SIZE },
            input_rect: None,
        };

        // The visible borders are drawn with the header, so that the rounded corners
        // meet them without a seam: the header grows by one visible border on each side.
        if !config.hide_edges {
            let visible: u32 = visible_border_size(config.hide_border);
            header.surface_rect.width = header.surface_rect.width + 2 * visible;
            header.surface_rect.x = header.surface_rect.x - visible as i32;
        }

        let parts = [top, left, right, bottom, header];
        assert(parts@ =~= Self::spec_calc(config));
        parts
    }
}

/// A layout with hidden borders gives every edge panel an empty rectangle: the top
/// and bottom edges have no height, the left and right edges no width.
pub proof fn lemma_hidden_border_empties_edges(config: LayoutConfig, id: PartId)
    requires
        config.spec_fits(),
        config.hide_border,
        id.spec_is_edge(),
    ensures
        PartLayout::spec_surface_rect(config, id).width == 0 || PartLayout::spec_surface_rect(
            config,
            id,
        ).height == 0,
{
}

/// One panel of a decoration: the surface it is shown on, where it lies, and whether
/// it is hidden.
#[derive(Debug, Clone, Copy, PartialEq, Eq, Structural)]
pub struct Part {
    /// The protocol id of the panel's surface, once the host has made one.
    pub surface: Option<u32>,
    /// Positioned relative to the content surface.
    pub surface_rect: Rect,
    /// The part that takes input, relative to `surface_rect`; `None` where all of it does.
    pub input_rect: Option<Rect>,
    pub hide: bool,
}

impl Part {
    /// A panel without a surface, without extent, and not hidden.
    pub open spec fn spec_new() -> Part {
        Part {
            surface: None,
            surface_rect: Rect { x: 0, y: 0, width: 0, height: 0 },
            input_rect: None,
            hide: false,
        }
    }

    /// The panel laid out anew. Its surface stays, and it stays hidden or shown.
    pub open spec fn spec_laid_out(self, layout: PartLayout) -> Part {
        Part { surface_rect: layout.surface_rect, input_rect: layout.input_rect, ..self }
    }

    #[verifier::when_used_as_spec(spec_new)]
    pub fn new() -> (p: Part)
        ensures
            p == Self::spec_new(),
    {
        Part {
            surface: None,
            surface_rect: Rect { x: 0, y: 0, width: 0, height: 0 },
            input_rect: None,
            hide: false,
        }
    }
}

/// The decoration's panels.
#[derive(Debug, Clone, Copy, PartialEq, Eq, Structural)]
pub struct DecorationParts {
    pub top: Part,
    pub left: Part,
    pub right: Part,
    pub bottom: Part,
    pub header: Part,
    /// What the panels were last laid out for.
    pub config: LayoutConfig,
}

impl DecorationParts {
    /// Five new panels, laid out for nothing yet.
    pub open spec fn spec_new() -> DecorationParts {
        DecorationParts {
            top: Part::spec_new(),
            left: Part::spec_new(),
            right: Part::spec_new(),
            bottom: Part::spec_new(),
            header: Part::spec_new(),
            config: LayoutConfig {
                width: 0,
                height: 0,
                hide_titlebar: false,
                hide_border: false,
                hide_edges: false,
            },
        }
    }

    /// The panel `id`.
    pub open spec fn spec_part(self, id: PartId) -> Part {
        match id {
            PartId::Top => self.top,
            PartId::Left => self.left,
            PartId::Right => self.right,
            PartId::Bottom => self.bottom,
            PartId::Header => self.header,
        }
    }

    /// The panels with their names, in the order of drawing.
    pub open spec fn spec_parts(self) -> Seq<(PartId, Part)> {
        seq![
            (PartId::Top, self.top),
            (PartId::Left, self.left),
            (PartId::Right, self.right),
            (PartId::Bottom, self.bottom),
            (PartId::Header, self.header),
        ]
    }

    /// The panels after the host made a surface for each.
    pub open spec fn spec_bind_surfaces(
        self,
        top: u32,
        left: u32,
        right: u32,
        bottom: u32,
        header: u32,
    ) -> DecorationParts {
        DecorationParts {
            top: Part { surface: Some(top), ..self.top },
            left: Part { surface: Some(left), ..self.left },
            right: Part { surface: Some(right), ..self.right },
            bottom: Part { surface: Some(bottom), ..self.bottom },
            header: Part { surface: Some(header), ..self.header },
            config: self.config,
        }
    }

    /// The panels with the four edges hidden or shown, and the header hidden or shown.
    pub open spec fn spec_with_hidden(self, edges: bool, header: bool) -> DecorationParts {
        DecorationParts {
            top: Part { hide: edges, ..self.top },
            left: Part { hide: edges, ..self.left },
            right: Part { hide: edges, ..self.right },
            bottom: Part { hide: edges, ..self.bottom },
            header: Part { hide: header, ..self.header },
            config: self.config,
        }
    }

    /// All panels hidden.
    pub open spec fn spec_hide(self) -> DecorationParts {
        self.spec_with_hidden(true, true)
    }

    /// All panels shown.
    pub open spec fn spec_show(self) -> DecorationParts {
        self.spec_with_hidden(false, false)
    }

    /// The four edges hidden; the header as it was.
    pub open spec fn spec_hide_edges(self) -> DecorationParts {
        self.spec_with_hidden(true, self.header.hide)
    }

    /// The header hidden; the edges as they were.
    pub open spec fn spec_hide_titlebar(self) -> DecorationParts {
        DecorationParts { header: Part { hide: true, ..self.header }, ..self }
    }

    /// The panels laid out for `config`. Where they were last laid out for the same,
    /// nothing changes.
    pub open spec fn spec_relayout(self, config: LayoutConfig) -> DecorationParts {
        if self.config == config {
            self
        } else {
            DecorationParts {
                top: self.top.spec_laid_out(PartLayout::spec_part(config, PartId::Top)),
                left: self.left.spec_laid_out(PartLayout::spec_part(config, PartId::Left)),
                right: self.right.spec_laid_out(PartLayout::spec_part(config, PartId::Right)),
                bottom: self.bottom.spec_laid_out(PartLayout::spec_part(config, PartId::Bottom)),
                header: self.header.spec_laid_out(PartLayout::spec_part(config, PartId::Header)),
                config,
            }
        }
    }

    /// The panels lie where the layout of their configuration puts them.
    pub open spec fn spec_laid_out(self) -> bool {
        forall|id: PartId|
            #![trigger self.spec_part(id)]
            self.spec_part(id).surface_rect == PartLayout::spec_surface_rect(self.config, id)
                && self.spec_part(id).input_rect == PartLayout::spec_input_rect(self.config, id)
    }

    /// The height of the left and right edges.
    pub open spec fn spec_side_height(self) -> u32 {
        self.left.surface_rect.height
    }

    /// The location of a pointer that entered the surface `surface`: the first panel
    /// in the order of drawing that is shown on it, and nowhere if there is none.
    pub open spec fn spec_find_surface(self, surface: u32) -> Location {
        if self.top.surface == Some(surface) {
            Location::Top
        } else if self.left.surface == Some(surface) {
            Location::Left
        } else if self.right.surface == Some(surface) {
            Location::Right
        } else if self.bottom.surface == Some(surface) {
            Location::Bottom
        } else if self.header.surface == Some(surface) {
            Location::Head
        } else {
            Location::Nowhere
        }
    }

    #[verifier::when_used_as_spec(spec_new)]
    pub fn new() -> (parts: DecorationParts)
        ensures
            parts == Self::spec_new(),
    {
        DecorationParts {
            top: Part::new(),
            left: Part::new(),
            right: Part::new(),
            bottom: Part::new(),
            header: Part::new(),
            config: LayoutConfig {
                width: 0,
                height: 0,
                hide_titlebar: false,
                hide_border: false,
                hide_edges: false,
            },
        }
    }

    /// Notes the surfaces that the host made for the panels.
    pub fn bind_surfaces(&mut self, top: u32, left: u32, right: u32, bottom: u32, header: u32)
        ensures
            *final(self) == old(self).spec_bind_surfaces(top, left, right, bottom, header),
    {
        self.top.surface = Some(top);
        self.left.surface = Some(left);
        self.right.surface = Some(right);
        self.bottom.surface = Some(bottom);
        self.header.surface = Some(header);
    }

    pub fn part(&self, id: PartId) -> (p: Part)
        ensures
            p == self.spec_part(id),
    {
        match id {
            PartId::Top => self.top,
            PartId::Left => self.left,
            PartId::Right => self.right,
            PartId::Bottom => self.bottom,
            PartId::Header => self.header,
        }
    }

    pub fn parts(&self) -> (all: Vec<(PartId, Part)>)
        ensures
            all@ == self.spec_parts(),
    {
        let mut all: Vec<(PartId, Part)> = Vec::new();
        all.push((PartId::Top, self.top));
        all.push((PartId::Left, self.left));
        all.push((PartId::Right, self.right));
        all.push((PartId::Bottom, self.bottom));
        all.push((PartId::Header, self.header));
        all
    }

    pub fn header(&self) -> (p: &Part)
        ensures
            *p == self.header,
    {
        &self.header
    }

    pub fn header_mut(&mut self) -> (p: &mut Part)
        ensures
            *p == old(self).header,
            *final(self) == (DecorationParts { header: *final(p), ..*old(self) }),
    {
        &mut self.header
    }

    /// Hides every panel.
    pub fn hide_all(&mut self)
        ensures
            *final(self) == old(self).spec_hide(),
    {
        self.top.hide = true;
        self.left.hide = true;
        self.right.hide = true;
        self.bottom.hide = true;
        self.header.hide = true;
    }

    pub fn show(&mut self)
        ensures
            *final(self) == old(self).spec_show(),
    {
        self.top.hide = false;
        self.left.hide = false;
        self.right.hide = false;
        self.bottom.hide = false;
        self.header.hide = false;
    }

    /// An edge is a border with its shadow.
    pub fn hide_edges(&mut self)
        ensures
            *final(self) == old(self).spec_hide_edges(),
    {
        self.top.hide = true;
        self.left.hide = true;
        self.right.hide = true;
        self.bottom.hide = true;
    }

    pub fn hide_titlebar(&mut self)
        ensures
            *final(self) == old(self).spec_hide_titlebar(),
    {
        self.header.hide = true;
    }

    pub fn relayout(&mut self, config: LayoutConfig)
        requires
            config.spec_fits(),
        ensures
            *final(self) == old(self).spec_relayout(config),
            old(self).spec_laid_out() ==> final(self).spec_laid_out(),
    {
        if self.config == config {
            return ;
        }
        self.config = config;

        let layout = PartLayout::calc(config);
        self.top.surface_rect = layout[0].surface_rect;
        self.top.input_rect = layout[0].input_rect;
        self.left.surface_rect = layout[1].surface_rect;
        self.left.input_rect = layout[1].input_rect;
        self.right.surface_rect = layout[2].surface_rect;
        self.right.input_rect = layout[2].input_rect;
        self.bottom.surface_rect = layout[3].surface_rect;
        self.bottom.input_rect = layout[3].input_rect;
        self.header.surface_rect = layout[4].surface_rect;
        self.header.input_rect = layout[4].input_rect;
    }

    pub fn side_height(&self) -> (h: u32)
        ensures
            h == self.spec_side_height(),
    {
        self.left.surface_rect.height
    }

    pub fn find_surface(&self, surface: u32) -> (l: Location)
        ensures
            l == self.spec_find_surface(surface),
    {
        let all = self.parts();
        let mut i: usize = 0;
        while i < all.len()
            invariant
                i <= all.len(),
                all@ == self.spec_parts(),
                forall|k: int| 0 <= k < i ==> all@[k].1.surface != Some(surface),
            decreases all.len() - i,
        {
            let (id, part) = all[i];
            match part.surface {
                Some(s) => {
                    if s == surface {
                        return Location::of_part(id);
                    }
                },
                None => {},
            }
            i += 1;
        }
        assert(all@[0].1 == self.top && all@[1].1 == self.left && all@[2].1 == self.right
            && all@[3].1 == self.bottom && all@[4].1 == self.header);
        Location::Nowhere
    }
}

} // verus!
