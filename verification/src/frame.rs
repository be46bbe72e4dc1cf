//! The decoration of one window: what it remembers, and how each call of the host
//! changes it.
//!
//! The frame owns no surface and no buffer. It says what is to be drawn; the host
//! draws it. Every method is stated over `FrameView`, the frame as the verifier sees
//! it, so that what holds of all frames can be proved once, of the view.

use vstd::prelude::*;
use crate::buttons::{ButtonLayout, Buttons, Side};
use crate::parts::{
    lemma_hidden_border_empties_edges, DecorationParts, LayoutConfig, PartId, PartLayout,
    MAX_DIMENSION,
};
use crate::pixmap::{height_of, pixmap_height, pixmap_width, width_of};
use crate::pointer::{
    precise_location, spec_cursor_name, spec_precise_location, Fixed, FrameAction, FrameClick,
    Location, MouseState,
};
use crate::renderer::{
    bottom_line, buffer_size, corner_radius, margin_h, part_draw, spec_bottom_line,
    spec_buffer_size, spec_corner_radius, spec_margin_h, spec_part_draw, spec_title_placement,
    title_placement, HeaderDraw, PartDraw,
};
use crate::state::{WindowManagerCapabilities, WindowState};
use crate::theme::{ColorTheme, Paint, HEADER_SIZE};
use crate::title::{TitleText, TitleView};

verus! {

/// The configuration of a frame.
#[derive(Debug, Clone, Copy, PartialEq, Eq, Structural)]
pub struct FrameConfig {
    pub theme: ColorTheme,
    /// The sides of the title bar on which the buttons lie.
    pub buttons: ButtonLayout,
}

impl FrameConfig {
    /// The configuration with the given colours and all buttons on the right.
    pub open spec fn spec_new(theme: ColorTheme) -> FrameConfig {
        FrameConfig { theme, buttons: ButtonLayout { maximize: Side::Right, minimize: Side::Right } }
    }

    #[verifier::when_used_as_spec(spec_new)]
    pub fn new(theme: ColorTheme) -> (c: FrameConfig)
        ensures
            c == Self::spec_new(theme),
    {
        FrameConfig { theme, buttons: ButtonLayout { maximize: Side::Right, minimize: Side::Right } }
    }

    /// The colours that the desktop prefers.
    pub fn auto(prefer_dark: bool) -> (c: FrameConfig)
        ensures
            c == Self::spec_new(ColorTheme::spec_auto(prefer_dark)),
    {
        Self::new(ColorTheme::auto(prefer_dark))
    }

    pub fn light() -> (c: FrameConfig)
        ensures
            c == Self::spec_new(ColorTheme::spec_light()),
    {
        Self::new(ColorTheme::light())
    }

    pub fn dark() -> (c: FrameConfig)
        ensures
            c == Self::spec_new(ColorTheme::spec_dark()),
    {
        Self::new(ColorTheme::dark())
    }

    /// The same configuration with the buttons where `layout` puts them.
    pub fn with_buttons(self, layout: ButtonLayout) -> (c: FrameConfig)
        ensures
            c == (FrameConfig { buttons: layout, ..self }),
    {
        FrameConfig { theme: self.theme, buttons: layout }
    }
}

/// Why a frame could not take a new size.
#[derive(Debug, Clone, Copy, PartialEq, Eq, Structural)]
pub enum FrameError {
    /// The frame is hidden.
    Hidden,
    /// The width or the height is zero.
    EmptySize,
    /// The width or the height is more than `MAX_DIMENSION`.
    TooLarge,
}

/// One number for each panel.
#[derive(Debug, Clone, Copy, PartialEq, Eq, Structural)]
pub struct PartScales {
    pub top: u32,
    pub left: u32,
    pub right: u32,
    pub bottom: u32,
    pub header: u32,
}

impl PartScales {
    pub open spec fn spec_get(self, id: PartId) -> u32 {
        match id {
            PartId::Top => self.top,
            PartId::Left => self.left,
            PartId::Right => self.right,
            PartId::Bottom => self.bottom,
            PartId::Header => self.header,
        }
    }

    pub open spec fn spec_uniform(scale: u32) -> PartScales {
        PartScales { top: scale, left: scale, right: scale, bottom: scale, header: scale }
    }

    pub fn get(&self, id: PartId) -> (s: u32)
        ensures
            s == self.spec_get(id),
    {
        match id {
            PartId::Top => self.top,
            PartId::Left => self.left,
            PartId::Right => self.right,
            PartId::Bottom => self.bottom,
            PartId::Header => self.header,
        }
    }

    /// The same scale for every panel.
    #[verifier::when_used_as_spec(spec_uniform)]
    pub fn uniform(scale: u32) -> (s: PartScales)
        ensures
            s == Self::spec_uniform(scale),
    {
        PartScales { top: scale, left: scale, right: scale, bottom: scale, header: scale }
    }
}

/// One yes or no for each panel.
#[derive(Debug, Clone, Copy, PartialEq, Eq, Structural)]
pub struct PartFlags {
    pub top: bool,
    pub left: bool,
    pub right: bool,
    pub bottom: bool,
    pub header: bool,
}

impl PartFlags {
    pub open spec fn spec_get(self, id: PartId) -> bool {
        match id {
            PartId::Top => self.top,
            PartId::Left => self.left,
            PartId::Right => self.right,
            PartId::Bottom => self.bottom,
            PartId::Header => self.header,
        }
    }

    pub open spec fn spec_all(flag: bool) -> PartFlags {
        PartFlags { top: flag, left: flag, right: flag, bottom: flag, header: flag }
    }

    pub fn get(&self, id: PartId) -> (f: bool)
        ensures
            f == self.spec_get(id),
    {
        match id {
            PartId::Top => self.top,
            PartId::Left => self.left,
            PartId::Right => self.right,
            PartId::Bottom => self.bottom,
            PartId::Header => self.header,
        }
    }

    /// The same answer for every panel.
    #[verifier::when_used_as_spec(spec_all)]
    pub fn all(flag: bool) -> (f: PartFlags)
        ensures
            f == Self::spec_all(flag),
    {
        PartFlags { top: flag, left: flag, right: flag, bottom: flag, header: flag }
    }
}

/// A frame as the verifier sees it.
pub struct FrameView {
    /// The panels; none while the frame is hidden.
    pub decorations: Option<DecorationParts>,
    /// The size of the content that the frame was last given.
    pub width: u32,
    pub height: u32,
    /// The frame has to be drawn again.
    pub dirty: bool,
    pub resizable: bool,
    pub buttons: Buttons,
    pub state: WindowState,
    pub wm_capabilities: WindowManagerCapabilities,
    pub mouse: MouseState,
    pub theme: ColorTheme,
    pub title: Option<Seq<char>>,
    pub title_text: TitleView,
}

/// What the host can tell a frame.
pub enum FrameEvent {
    UpdateState(WindowState),
    UpdateCapabilities(WindowManagerCapabilities),
    SetHidden(bool),
    SetResizable(bool),
    Resize(u32, u32),
    SetTitle(Seq<char>),
    SetConfig(FrameConfig),
    Click(u64, FrameClick, bool),
    PointerMoved(u32, Fixed, Fixed),
    PointerLeft,
    PrepareTitle(u32),
    TitleRendered(Option<tiny_skia::Pixmap>),
    BindSurfaces(u32, u32, u32, u32, u32),
    Draw(PartScales, PartFlags),
}

impl FrameView {
    /// The layout for a content of that size in a window of that state: a window
    /// that fills its place has neither border nor edges.
    pub open spec fn layout_config(width: u32, height: u32, state: WindowState) -> LayoutConfig {
        LayoutConfig {
            width,
            height,
            hide_titlebar: false,
            hide_border: state.spec_docked(),
            hide_edges: state.spec_docked(),
        }
    }

    /// The panels laid out for that size, where it is one that a layout is made for,
    /// and hidden as the state of the window asks: all of them in a fullscreen
    /// window, the edges in one that fills its place.
    pub open spec fn place(
        parts: DecorationParts,
        width: u32,
        height: u32,
        state: WindowState,
    ) -> DecorationParts {
        let config = Self::layout_config(width, height, state);
        let laid = if config.spec_fits() {
            parts.spec_relayout(config)
        } else {
            parts
        };
        laid.spec_with_hidden(state.fullscreen || state.spec_docked(), state.fullscreen)
    }

    /// The frame with its panels placed and its buttons arranged for its size and
    /// the state of the window.
    pub open spec fn settle(self) -> FrameView {
        FrameView {
            decorations: match self.decorations {
                Some(parts) => Some(Self::place(parts, self.width, self.height, self.state)),
                None => None,
            },
            buttons: self.buttons.spec_arrange(self.width, spec_margin_h(self.state)),
            ..self
        }
    }

    /// A new frame: shown, to be drawn, resizable, with every button, in a window of
    /// which nothing is known yet.
    pub open spec fn new(config: FrameConfig) -> FrameView {
        FrameView {
            decorations: Some(DecorationParts::spec_new()),
            width: 0,
            height: 0,
            dirty: true,
            resizable: true,
            buttons: Buttons::spec_new(config.buttons),
            state: WindowState::spec_empty(),
            wm_capabilities: WindowManagerCapabilities::spec_all(),
            mouse: MouseState::spec_new(),
            theme: config.theme,
            title: None,
            title_text: TitleView::new(config.theme.active.font_color),
        }
    }

    pub open spec fn is_hidden(self) -> bool {
        self.decorations is None
    }

    /// The decoration shows: the frame is not hidden and the window not fullscreen.
    pub open spec fn visible(self) -> bool {
        self.decorations is Some && !self.state.fullscreen
    }

    /// The window has a new state. The frame has to be drawn again where the new
    /// state looks unlike the old.
    pub open spec fn update_state(self, state: WindowState) -> FrameView {
        FrameView { state, dirty: self.dirty || self.state.spec_looks_unlike(state), ..self }.settle()
    }

    /// The window manager has new capabilities. The frame has to be drawn again
    /// where they are not the old ones.
    pub open spec fn update_wm_capabilities(
        self,
        capabilities: WindowManagerCapabilities,
    ) -> FrameView {
        FrameView {
            wm_capabilities: capabilities,
            dirty: self.dirty || self.wm_capabilities != capabilities,
            buttons: self.buttons.spec_update(capabilities),
            ..self
        }.settle()
    }

    /// The frame is hidden or shown. A hidden frame has no panels and nothing to
    /// draw; a frame that is shown again has new panels and has to be drawn.
    pub open spec fn set_hidden(self, hidden: bool) -> FrameView {
        if hidden {
            FrameView { decorations: None, dirty: false, ..self }
        } else if self.decorations is None {
            FrameView {
                decorations: Some(DecorationParts::spec_new()),
                dirty: true,
                ..self
            }.settle()
        } else {
            self
        }
    }

    pub open spec fn set_resizable(self, resizable: bool) -> FrameView {
        FrameView { resizable, dirty: self.dirty || self.resizable != resizable, ..self }
    }

    /// Why the frame cannot take this size, if it cannot.
    pub open spec fn resize_error(self, width: u32, height: u32) -> Option<FrameError> {
        if self.decorations is None {
            Some(FrameError::Hidden)
        } else if width == 0 || height == 0 {
            Some(FrameError::EmptySize)
        } else if width > MAX_DIMENSION || height > MAX_DIMENSION {
            Some(FrameError::TooLarge)
        } else {
            None
        }
    }

    /// The content has a new size. A frame that can take it has to be drawn again.
    pub open spec fn resize(self, width: u32, height: u32) -> FrameView {
        if self.resize_error(width, height) is Some {
            self
        } else {
            FrameView { width, height, dirty: true, ..self }.settle()
        }
    }

    pub open spec fn set_title(self, title: Seq<char>) -> FrameView {
        FrameView {
            title: Some(title),
            title_text: self.title_text.update_title(title),
            dirty: true,
            ..self
        }
    }

    pub open spec fn set_config(self, config: FrameConfig) -> FrameView {
        FrameView { theme: config.theme, dirty: true, ..self }
    }

    /// What a click asks of the host.
    pub open spec fn click_action(self, time: u64, click: FrameClick, pressed: bool) -> Option<
        FrameAction,
    > {
        match click {
            FrameClick::Normal => self.mouse.spec_click(
                time,
                pressed,
                self.resizable,
                self.state,
                self.wm_capabilities,
            ),
            FrameClick::Alternate => self.mouse.spec_alternate_click(pressed, self.wm_capabilities),
        }
    }

    pub open spec fn on_click(self, time: u64, click: FrameClick, pressed: bool) -> FrameView {
        FrameView {
            mouse: match click {
                FrameClick::Normal => self.mouse.spec_after_click(time, pressed),
                FrameClick::Alternate => MouseState { last_click: None, ..self.mouse },
            },
            ..self
        }
    }

    /// Where a pointer at (`x`, `y`) of the surface `surface` is on the decoration;
    /// `None` where the frame is hidden or the surface is not one of its panels.
    pub open spec fn pointer_target(self, surface: u32, x: Fixed, y: Fixed) -> Option<Location> {
        match self.decorations {
            None => None,
            Some(parts) => if parts.spec_find_surface(surface) == Location::Nowhere {
                None
            } else {
                Some(
                    spec_precise_location(
                        self.buttons,
                        parts.spec_find_surface(surface),
                        self.width,
                        x,
                        y,
                    ),
                )
            },
        }
    }

    /// The pointer went from one location to another across the rim of a button.
    pub open spec fn crosses_button(from: Location, to: Location) -> bool {
        from != to && (from.spec_is_button() || to.spec_is_button())
    }

    /// The pointer moved. The frame has to be drawn again where the pointer crossed
    /// the rim of a button, which lights up or goes out.
    pub open spec fn click_point_moved(self, surface: u32, x: Fixed, y: Fixed) -> FrameView {
        match self.pointer_target(surface, x, y) {
            None => self,
            Some(location) => FrameView {
                mouse: self.mouse.spec_moved(location, x, y),
                dirty: self.dirty || Self::crosses_button(self.mouse.location, location),
                ..self
            },
        }
    }

    /// The pointer left. The frame has to be drawn again where it left a button.
    pub open spec fn click_point_left(self) -> FrameView {
        FrameView {
            mouse: self.mouse.spec_left(),
            dirty: self.dirty || self.mouse.location.spec_is_button(),
            ..self
        }
    }

    /// The title is to be rasterized at this scale and in the font colour of the
    /// window's activation.
    pub open spec fn prepare_title(self, scale: u32) -> FrameView {
        FrameView {
            title_text: self.title_text.update_scale(scale).update_color(
                self.theme.spec_for_state(self.state.activated).font_color,
            ),
            ..self
        }
    }

    pub open spec fn title_rendered(self, raster: Option<tiny_skia::Pixmap>) -> FrameView {
        FrameView { title_text: self.title_text.rendered(raster), ..self }
    }

    pub open spec fn bind_surfaces(
        self,
        top: u32,
        left: u32,
        right: u32,
        bottom: u32,
        header: u32,
    ) -> FrameView {
        FrameView {
            decorations: match self.decorations {
                Some(parts) => Some(parts.spec_bind_surfaces(top, left, right, bottom, header)),
                None => None,
            },
            ..self
        }
    }

    /// How panel `id` is drawn at the scale given for it, if it is drawn.
    pub open spec fn part_draw(self, id: PartId, scales: PartScales) -> Option<PartDraw> {
        match self.decorations {
            Some(parts) => spec_part_draw(id, parts.spec_part(id), scales.spec_get(id)),
            None => None,
        }
    }

    /// There is something to draw: the decoration shows and is out of date.
    pub open spec fn wants_draw(self) -> bool {
        self.visible() && self.dirty
    }

    /// What is drawn of panel `id`: nothing where there is nothing to draw, the panel
    /// is not drawn, or the host has no buffer ready for it.
    pub open spec fn drawn_part(self, id: PartId, scales: PartScales, ready: PartFlags) -> Seq<
        PartDraw,
    > {
        if self.wants_draw() && ready.spec_get(id) {
            match self.part_draw(id, scales) {
                Some(d) => seq![d],
                None => Seq::empty(),
            }
        } else {
            Seq::empty()
        }
    }

    /// What is drawn, in the order of drawing: the header last.
    pub open spec fn draw_list(self, scales: PartScales, ready: PartFlags) -> Seq<PartDraw> {
        self.drawn_part(PartId::Top, scales, ready) + self.drawn_part(PartId::Left, scales, ready)
            + self.drawn_part(PartId::Right, scales, ready) + self.drawn_part(
            PartId::Bottom,
            scales,
            ready,
        ) + self.drawn_part(PartId::Header, scales, ready)
    }

    /// A panel that should have been drawn had no buffer ready.
    pub open spec fn misses_buffer(self, scales: PartScales, ready: PartFlags) -> bool {
        exists|id: PartId| #[trigger] self.part_draw(id, scales) is Some && !ready.spec_get(id)
    }

    /// The frame after drawing. Where there was something to draw, the frame is up
    /// to date unless a panel went without a buffer; else nothing changes.
    pub open spec fn draw(self, scales: PartScales, ready: PartFlags) -> FrameView {
        if self.wants_draw() {
            FrameView { dirty: self.misses_buffer(scales, ready), ..self }
        } else {
            self
        }
    }

    /// The size of the content for a window of that size with its decoration: the
    /// title bar is taken off the height where the decoration shows.
    pub open spec fn subtract_borders(self, width: u32, height: u32) -> (u32, u32) {
        if !self.visible() {
            (width, height)
        } else if height >= HEADER_SIZE {
            (width, (height - HEADER_SIZE) as u32)
        } else {
            (width, 0)
        }
    }

    /// The size of the window with its decoration for a content of that size.
    pub open spec fn add_borders(self, width: u32, height: u32) -> (u32, u32) {
        if !self.visible() {
            (width, height)
        } else {
            (width, (height + HEADER_SIZE) as u32)
        }
    }

    /// Where the decorated window begins, relative to the content.
    pub open spec fn location(self) -> (i32, i32) {
        if !self.visible() {
            (0, 0)
        } else {
            (0, (-(HEADER_SIZE as int)) as i32)
        }
    }

    /// How the title bar is drawn at a scale.
    pub open spec fn header_draw(self, scale: u32) -> HeaderDraw {
        let colors = self.theme.spec_for_state(self.state.activated);
        let rect = match self.decorations {
            Some(parts) => parts.header.surface_rect,
            None => crate::parts::Rect { x: 0, y: 0, width: 0, height: 0 },
        };
        HeaderDraw {
            radius: spec_corner_radius(self.state),
            background: Paint { color: colors.headerbar, anti_alias: true },
            border: Paint { color: colors.border_color, anti_alias: false },
            line: spec_bottom_line(rect, scale),
            title: match (self.title_text.raster, spec_buffer_size(rect, scale)) {
                (Some(raster), Some((w, h))) => Some(
                    spec_title_placement(
                        w,
                        h,
                        pixmap_width(raster),
                        pixmap_height(raster),
                        scale,
                        self.state,
                        self.buttons,
                    ),
                ),
                _ => None,
            },
            close: self.buttons.close.spec_draw(
                scale,
                colors,
                self.mouse.location,
                self.resizable,
                self.state,
            ),
            maximize: match self.buttons.maximize {
                Some(b) => Some(
                    b.spec_draw(scale, colors, self.mouse.location, self.resizable, self.state),
                ),
                None => None,
            },
            minimize: match self.buttons.minimize {
                Some(b) => Some(
                    b.spec_draw(scale, colors, self.mouse.location, self.resizable, self.state),
                ),
                None => None,
            },
        }
    }

    /// The frame after an event.
    pub open spec fn step(self, event: FrameEvent) -> FrameView {
        match event {
            FrameEvent::UpdateState(state) => self.update_state(state),
            FrameEvent::UpdateCapabilities(capabilities) => self.update_wm_capabilities(
                capabilities,
            ),
            FrameEvent::SetHidden(hidden) => self.set_hidden(hidden),
            FrameEvent::SetResizable(resizable) => self.set_resizable(resizable),
            FrameEvent::Resize(width, height) => self.resize(width, height),
            FrameEvent::SetTitle(title) => self.set_title(title),
            FrameEvent::SetConfig(config) => self.set_config(config),
            FrameEvent::Click(time, click, pressed) => self.on_click(time, click, pressed),
            FrameEvent::PointerMoved(surface, x, y) => self.click_point_moved(surface, x, y),
            FrameEvent::PointerLeft => self.click_point_left(),
            FrameEvent::PrepareTitle(scale) => self.prepare_title(scale),
            FrameEvent::TitleRendered(raster) => self.title_rendered(raster),
            FrameEvent::BindSurfaces(top, left, right, bottom, header) => self.bind_surfaces(
                top,
                left,
                right,
                bottom,
                header,
            ),
            FrameEvent::Draw(scales, ready) => self.draw(scales, ready),
        }
    }

    /// The panels lie as a size and a state ask: they are laid out for them, unless
    /// they are new and no edge has an extent yet.
    #[verifier::opaque]
    pub open spec fn placed_for(
        parts: DecorationParts,
        width: u32,
        height: u32,
        state: WindowState,
    ) -> bool {
        ||| parts.config == Self::layout_config(width, height, state) && parts.spec_laid_out()
        ||| forall|id: PartId|
            id.spec_is_edge() ==> (#[trigger] parts.spec_part(id)).surface_rect.width == 0
                || parts.spec_part(id).surface_rect.height == 0
    }

    /// The panels lie as the size and the state of the window ask, and the size is
    /// one that a layout is made for.
    pub open spec fn lies_as_state_asks(self) -> bool {
        &&& self.width <= MAX_DIMENSION
        &&& self.height <= MAX_DIMENSION
        &&& self.decorations matches Some(parts) ==> Self::placed_for(
            parts,
            self.width,
            self.height,
            self.state,
        )
    }

    /// The panels are hidden as the state of the window asks: all of them in a
    /// fullscreen window, the four edges in a window that is maximized or tiled.
    pub open spec fn hides_what_state_asks(self) -> bool {
        self.decorations matches Some(parts) ==> {
            &&& self.state.fullscreen ==> parts.header.hide
            &&& self.state.fullscreen || self.state.spec_docked() ==> forall|id: PartId|
                id.spec_is_edge() ==> #[trigger] parts.spec_part(id).hide
        }
    }
}

/// The decoration of one window.
pub struct AdwaitaFrame {
    /// The drawable decorations, `None` when hidden.
    decorations: Option<DecorationParts>,
    width: u32,
    height: u32,
    /// Whether the frame should be redrawn.
    dirty: bool,
    /// Whether the frame is resizable.
    resizable: bool,
    buttons: Buttons,
    state: WindowState,
    wm_capabilities: WindowManagerCapabilities,
    mouse: MouseState,
    theme: ColorTheme,
    title: Option<String>,
    title_text: TitleText,
}

impl View for AdwaitaFrame {
    type V = FrameView;

    closed spec fn view(&self) -> FrameView {
        FrameView {
            decorations: self.decorations,
            width: self.width,
            height: self.height,
            dirty: self.dirty,
            resizable: self.resizable,
            buttons: self.buttons,
            state: self.state,
            wm_capabilities: self.wm_capabilities,
            mouse: self.mouse,
            theme: self.theme,
            title: match self.title {
                Some(t) => Some(t@),
                None => None,
            },
            title_text: self.title_text@,
        }
    }
}

impl AdwaitaFrame {
    pub fn new(frame_config: FrameConfig) -> (frame: AdwaitaFrame)
        ensures
            frame@ == FrameView::new(frame_config),
    {
        let theme = frame_config.theme;
        AdwaitaFrame {
            decorations: Some(DecorationParts::new()),
            width: 0,
            height: 0,
            dirty: true,
            resizable: true,
            buttons: Buttons::new(frame_config.buttons),
            state: WindowState::empty(),
            wm_capabilities: WindowManagerCapabilities::all(),
            mouse: MouseState::new(),
            theme,
            title: None,
            title_text: TitleText::new(theme.active.font_color),
        }
    }

    /// Update the current frame config.
    pub fn set_config(&mut self, config: FrameConfig)
        ensures
            final(self)@ == old(self)@.set_config(config),
    {
        self.theme = config.theme;
        self.dirty = true;
    }

    /// Places the panels and arranges the buttons for the size and state at hand.
    fn settle(&mut self)
        ensures
            final(self)@ == old(self)@.settle(),
    {
        let docked = self.state.docked();
        match self.decorations {
            Some(mut parts) => {
                let config = LayoutConfig {
                    width: self.width,
                    height: self.height,
                    hide_titlebar: false,
                    hide_border: docked,
                    hide_edges: docked,
                };
                if config.fits() {
                    parts.relayout(config);
                }
                let edges = self.state.fullscreen || docked;
                parts.top.hide = edges;
                parts.left.hide = edges;
                parts.right.hide = edges;
                parts.bottom.hide = edges;
                parts.header.hide = self.state.fullscreen;
                self.decorations = Some(parts);
            },
            None => {},
        }
        self.buttons.arrange(self.width, margin_h(&self.state));
    }

    pub fn precise_location(&self, location: Location, header_width: u32, x: Fixed, y: Fixed) -> (l:
        Location)
        ensures
            l == spec_precise_location(self@.buttons, location, header_width, x, y),
    {
        precise_location(&self.buttons, location, header_width, x, y)
    }

    pub fn update_state(&mut self, state: WindowState)
        ensures
            final(self)@ == old(self)@.update_state(state),
    {
        let unlike = self.state.looks_unlike(state);
        self.state = state;
        self.dirty = self.dirty || unlike;
        self.settle();
    }

    pub fn update_wm_capabilities(&mut self, wm_capabilities: WindowManagerCapabilities)
        ensures
            final(self)@ == old(self)@.update_wm_capabilities(wm_capabilities),
    {
        self.dirty = self.dirty || self.wm_capabilities != wm_capabilities;
        self.wm_capabilities = wm_capabilities;
        self.buttons.update(wm_capabilities);
        self.settle();
    }

    pub fn set_hidden(&mut self, hidden: bool)
        ensures
            final(self)@ == old(self)@.set_hidden(hidden),
    {
        if hidden {
            self.dirty = false;
            self.decorations = None;
        } else if self.decorations.is_none() {
            self.decorations = Some(DecorationParts::new());
            self.dirty = true;
            self.settle();
        }
    }

    pub fn set_resizable(&mut self, resizable: bool)
        ensures
            final(self)@ == old(self)@.set_resizable(resizable),
    {
        self.dirty = self.dirty || self.resizable != resizable;
        self.resizable = resizable;
    }

    /// Takes the new size of the content. A hidden frame takes none, and no frame
    /// takes a size that is empty or larger than a layout is made for.
    pub fn resize(&mut self, width: u32, height: u32) -> (done: Result<(), FrameError>)
        ensures
            final(self)@ == old(self)@.resize(width, height),
            done is Ok <==> old(self)@.resize_error(width, height) is None,
            done matches Err(e) ==> old(self)@.resize_error(width, height) == Some(e),
    {
        if self.decorations.is_none() {
            return Err(FrameError::Hidden);
        }
        if width == 0 || height == 0 {
            return Err(FrameError::EmptySize);
        }
        if width > MAX_DIMENSION || height > MAX_DIMENSION {
            return Err(FrameError::TooLarge);
        }
        self.width = width;
        self.height = height;
        self.dirty = true;
        self.settle();
        Ok(())
    }

    /// Notes the surfaces that the host made for the panels of a frame that is shown.
    pub fn bind_surfaces(&mut self, top: u32, left: u32, right: u32, bottom: u32, header: u32)
        ensures
            final(self)@ == old(self)@.bind_surfaces(top, left, right, bottom, header),
    {
        match self.decorations {
            Some(mut parts) => {
                parts.bind_surfaces(top, left, right, bottom, header);
                self.decorations = Some(parts);
            },
            None => {},
        }
    }

    fn draw_one(
        &self,
        id: PartId,
        scales: &PartScales,
        ready: &PartFlags,
        list: &mut Vec<PartDraw>,
        missed: &mut bool,
    )
        requires
            self@.wants_draw(),
        ensures
            final(list)@ == old(list)@ + self@.drawn_part(id, *scales, *ready),
            *final(missed) == (*old(missed) || (self@.part_draw(id, *scales) is Some
                && !ready.spec_get(id))),
    {
        match self.decorations {
            Some(parts) => {
                let part = parts.part(id);
                match part_draw(id, &part, scales.get(id)) {
                    Some(d) => {
                        if ready.get(id) {
                            list.push(d);
                            assert(final(list)@ == old(list)@ + seq![d]);
                        } else {
                            *missed = true;
                            assert(list@ == old(list)@ + Seq::<PartDraw>::empty());
                        }
                    },
                    None => {
                        assert(list@ == old(list)@ + Seq::<PartDraw>::empty());
                    },
                }
            },
            None => {},
        }
    }

    /// What drawing would paint if the host had a buffer for every panel. Nothing
    /// changes.
    pub fn draw_plan(&self, scales: &PartScales) -> (list: Vec<PartDraw>)
        ensures
            list@ == self@.draw_list(*scales, PartFlags::spec_all(true)),
    {
        let ready = PartFlags::all(true);
        let mut list: Vec<PartDraw> = Vec::new();
        if self.decorations.is_none() || self.state.fullscreen || !self.dirty {
            assert(list@ =~= self@.draw_list(*scales, ready));
            return list;
        }
        let mut missed = false;
        self.draw_one(PartId::Top, scales, &ready, &mut list, &mut missed);
        self.draw_one(PartId::Left, scales, &ready, &mut list, &mut missed);
        self.draw_one(PartId::Right, scales, &ready, &mut list, &mut missed);
        self.draw_one(PartId::Bottom, scales, &ready, &mut list, &mut missed);
        self.draw_one(PartId::Header, scales, &ready, &mut list, &mut missed);
        assert(list@ =~= self@.draw_list(*scales, ready));
        list
    }

    /// Draws the frame: says what the host is to paint, panel after panel, the
    /// header last.
    ///
    /// `scales` holds the scale of each panel's surface, `ready` whether the host has
    /// a buffer for it. A hidden frame, a frame in a fullscreen window and a frame
    /// that is up to date draw nothing and stay as they are. Else every panel that is
    /// shown and has a buffer is drawn, and the frame is up to date if none that is
    /// shown went without a buffer.
    pub fn draw(&mut self, scales: &PartScales, ready: &PartFlags) -> (list: Vec<PartDraw>)
        ensures
            list@ == old(self)@.draw_list(*scales, *ready),
            final(self)@ == old(self)@.draw(*scales, *ready),
    {
        let mut list: Vec<PartDraw> = Vec::new();
        if self.decorations.is_none() || self.state.fullscreen || !self.dirty {
            assert(list@ =~= self@.draw_list(*scales, *ready));
            return list;
        }
        let mut missed = false;
        self.draw_one(PartId::Top, scales, ready, &mut list, &mut missed);
        self.draw_one(PartId::Left, scales, ready, &mut list, &mut missed);
        self.draw_one(PartId::Right, scales, ready, &mut list, &mut missed);
        self.draw_one(PartId::Bottom, scales, ready, &mut list, &mut missed);
        self.draw_one(PartId::Header, scales, ready, &mut list, &mut missed);
        proof {
            let v = self@;
            assert(list@ =~= v.draw_list(*scales, *ready));
            if missed {
                let id = if v.part_draw(PartId::Top, *scales) is Some && !ready.spec_get(
                    PartId::Top,
                ) {
                    PartId::Top
                } else if v.part_draw(PartId::Left, *scales) is Some && !ready.spec_get(
                    PartId::Left,
                ) {
                    PartId::Left
                } else if v.part_draw(PartId::Right, *scales) is Some && !ready.spec_get(
                    PartId::Right,
                ) {
                    PartId::Right
                } else if v.part_draw(PartId::Bottom, *scales) is Some && !ready.spec_get(
                    PartId::Bottom,
                ) {
                    PartId::Bottom
                } else {
                    PartId::Header
                };
                assert(v.part_draw(id, *scales) is Some && !ready.spec_get(id));
            }
            assert(missed == v.misses_buffer(*scales, *ready));
        }
        self.dirty = missed;
        list
    }

    /// Gets the title ready for drawing at a scale: it is to be rasterized at that
    /// scale and in the font colour of the window's activation. The raster is out
    /// of date afterwards where one of the two was different before.
    pub fn prepare_title(&mut self, scale: u32)
        ensures
            final(self)@ == old(self)@.prepare_title(scale),
    {
        let color = self.theme.for_state(self.state.activated).font_color;
        self.title_text.update_scale(scale);
        self.title_text.update_color(color);
    }

    /// Takes the raster that the host made of the title.
    pub fn title_rendered(&mut self, raster: Option<tiny_skia::Pixmap>)
        ensures
            final(self)@ == old(self)@.title_rendered(raster),
    {
        self.title_text.rendered(raster);
    }

    /// How the title bar is to be painted at a scale.
    pub fn header_draw(&self, scale: u32) -> (d: HeaderDraw)
        ensures
            d == self@.header_draw(scale),
    {
        let colors = self.theme.for_state(self.state.activated);
        let rect = match self.decorations {
            Some(parts) => parts.header.surface_rect,
            None => crate::parts::Rect { x: 0, y: 0, width: 0, height: 0 },
        };
        let title = match (self.title_text.pixmap(), buffer_size(&rect, scale)) {
            (Some(raster), Some((w, h))) => Some(
                title_placement(
                    w,
                    h,
                    width_of(raster),
                    height_of(raster),
                    scale,
                    &self.state,
                    &self.buttons,
                ),
            ),
            _ => None,
        };
        HeaderDraw {
            radius: corner_radius(&self.state),
            background: colors.headerbar_paint(),
            border: colors.border_paint(),
            line: bottom_line(&rect, scale),
            title,
            close: self.buttons.close.draw(
                scale,
                colors,
                self.mouse.location,
                self.resizable,
                &self.state,
            ),
            maximize: match &self.buttons.maximize {
                Some(b) => Some(
                    b.draw(scale, colors, self.mouse.location, self.resizable, &self.state),
                ),
                None => None,
            },
            minimize: match &self.buttons.minimize {
                Some(b) => Some(
                    b.draw(scale, colors, self.mouse.location, self.resizable, &self.state),
                ),
                None => None,
            },
        }
    }

    pub fn subtract_borders(&self, width: u32, height: u32) -> (size: (u32, u32))
        ensures
            size == self@.subtract_borders(width, height),
    {
        if self.decorations.is_none() || self.state.fullscreen {
            (width, height)
        } else if height >= HEADER_SIZE {
            (width, height - HEADER_SIZE)
        } else {
            (width, 0)
        }
    }

    pub fn add_borders(&self, width: u32, height: u32) -> (size: (u32, u32))
        requires
            height <= u32::MAX - HEADER_SIZE,
        ensures
            size == self@.add_borders(width, height),
    {
        if self.decorations.is_none() || self.state.fullscreen {
            (width, height)
        } else {
            (width, height + HEADER_SIZE)
        }
    }

    pub fn location(&self) -> (at: (i32, i32))
        ensures
            at == self@.location(),
    {
        if self.decorations.is_none() || self.state.fullscreen {
            (0, 0)
        } else {
            (0, -(HEADER_SIZE as i32))
        }
    }

    pub fn set_title(&mut self, title: String)
        ensures
            final(self)@ == old(self)@.set_title(title@),
    {
        self.title_text.update_title(title.clone());
        self.title = Some(title);
        self.dirty = true;
    }

    /// A button of the pointer went down or came up at `time`, in milliseconds.
    pub fn on_click(&mut self, time: u64, click: FrameClick, pressed: bool) -> (action: Option<
        FrameAction,
    >)
        ensures
            action == old(self)@.click_action(time, click, pressed),
            final(self)@ == old(self)@.on_click(time, click, pressed),
    {
        match click {
            FrameClick::Normal => self.mouse.click(
                time,
                pressed,
                self.resizable,
                &self.state,
                &self.wm_capabilities,
            ),
            FrameClick::Alternate => self.mouse.alternate_click(pressed, &self.wm_capabilities),
        }
    }

    /// The pointer entered the surface `surface` or moved on it. The result is the
    /// name of the cursor to show, or `None` if the pointer is not on the decoration.
    pub fn click_point_moved(&mut self, surface: u32, x: Fixed, y: Fixed) -> (cursor: Option<
        &'static str,
    >)
        ensures
            final(self)@ == old(self)@.click_point_moved(surface, x, y),
            cursor.is_some() == old(self)@.pointer_target(surface, x, y).is_some(),
            cursor matches Some(name) ==> name@ == spec_cursor_name(
                old(self)@.pointer_target(surface, x, y).unwrap(),
                old(self)@.resizable,
            ),
    {
        let parts = match self.decorations {
            Some(parts) => parts,
            None => {
                return None;
            },
        };
        let location = parts.find_surface(surface);
        if location == Location::Nowhere {
            return None;
        }
        let old_location = self.mouse.location;

        let location = precise_location(&self.buttons, location, self.width, x, y);
        let new_cursor = self.mouse.moved(location, x, y, self.resizable);

        // Set dirty if we moved the cursor between the buttons.
        self.dirty = self.dirty || ((old_location.is_button() || location.is_button())
            && old_location != location);

        Some(new_cursor)
    }

    pub fn click_point_left(&mut self)
        ensures
            final(self)@ == old(self)@.click_point_left(),
    {
        self.dirty = self.dirty || self.mouse.location.is_button();
        self.mouse.left();
    }

    pub fn is_dirty(&self) -> (dirty: bool)
        ensures
            dirty == self@.dirty,
    {
        self.dirty
    }

    pub fn is_hidden(&self) -> (hidden: bool)
        ensures
            hidden == self@.is_hidden(),
    {
        self.decorations.is_none()
    }

    pub fn is_resizable(&self) -> (resizable: bool)
        ensures
            resizable == self@.resizable,
    {
        self.resizable
    }

    pub fn state(&self) -> (state: WindowState)
        ensures
            state == self@.state,
    {
        self.state
    }

    pub fn wm_capabilities(&self) -> (capabilities: WindowManagerCapabilities)
        ensures
            capabilities == self@.wm_capabilities,
    {
        self.wm_capabilities
    }

    pub fn decorations(&self) -> (parts: Option<DecorationParts>)
        ensures
            parts == self@.decorations,
    {
        self.decorations
    }

    pub fn buttons(&self) -> (buttons: Buttons)
        ensures
            buttons == self@.buttons,
    {
        self.buttons
    }

    pub fn mouse(&self) -> (mouse: MouseState)
        ensures
            mouse == self@.mouse,
    {
        self.mouse
    }

    pub fn theme(&self) -> (theme: ColorTheme)
        ensures
            theme == self@.theme,
    {
        self.theme
    }

    pub fn title(&self) -> (title: Option<&String>)
        ensures
            title.is_some() == self@.title.is_some(),
            title matches Some(t) ==> Some(t@) == self@.title,
    {
        self.title.as_ref()
    }

    pub fn title_text(&self) -> (text: &TitleText)
        ensures
            text@ == self@.title_text,
    {
        &self.title_text
    }
}

/// Taking the title bar off a height and adding it again gives the height back,
/// for every height that holds a title bar; so does it for every height at all where
/// the decoration does not show.
pub proof fn lemma_borders_round_trip(frame: FrameView, width: u32, height: u32)
    requires
        frame.visible() ==> height >= HEADER_SIZE,
    ensures
        frame.add_borders(
            frame.subtract_borders(width, height).0,
            frame.subtract_borders(width, height).1,
        ) == (width, height),
{
}

/// A frame that was hidden is hidden, has nothing to draw, and draws nothing:
/// drawing leaves it as it is.
pub proof fn lemma_hidden_frame_rests(frame: FrameView, scales: PartScales, ready: PartFlags)
    ensures
        frame.set_hidden(true).is_hidden(),
        !frame.set_hidden(true).dirty,
        frame.set_hidden(true).draw_list(scales, ready) == Seq::<PartDraw>::empty(),
        frame.set_hidden(true).draw(scales, ready) == frame.set_hidden(true),
{
    assert(frame.set_hidden(true).draw_list(scales, ready) =~= Seq::<PartDraw>::empty());
}

/// A frame that has to be drawn still has to be drawn after every event but two:
/// drawing, and being hidden.
pub proof fn lemma_dirty_until_drawn(frame: FrameView, event: FrameEvent)
    requires
        frame.dirty,
        !(event is Draw),
        event != FrameEvent::SetHidden(true),
    ensures
        frame.step(event).dirty,
{
}

/// A move of the pointer makes a frame that was up to date have to be drawn again
/// exactly when the pointer is on the decoration and has crossed the rim of a
/// button; leaving the decoration does so exactly when it was on a button.
pub proof fn lemma_hover_marks_dirty(frame: FrameView, surface: u32, x: Fixed, y: Fixed)
    requires
        !frame.dirty,
    ensures
        frame.click_point_moved(surface, x, y).dirty <==> (frame.pointer_target(surface, x, y)
            matches Some(to) && FrameView::crosses_button(frame.mouse.location, to)),
        frame.click_point_left().dirty <==> frame.mouse.location.spec_is_button(),
{
}

/// Telling a frame the same state twice changes nothing the second time: not
/// whether it has to be drawn, and nothing else.
pub proof fn lemma_update_state_twice(frame: FrameView, state: WindowState)
    ensures
        frame.update_state(state).update_state(state).dirty == frame.update_state(state).dirty,
        frame.update_state(state).update_state(state).state == state,
{
}

/// In every frame that the host can reach, the panels are hidden as the state of
/// the window asks: a new frame has it so, and every event keeps it so.
pub proof fn lemma_state_hides_panels(frame: FrameView, config: FrameConfig, event: FrameEvent)
    requires
        frame.hides_what_state_asks(),
    ensures
        FrameView::new(config).hides_what_state_asks(),
        frame.step(event).hides_what_state_asks(),
{
    let after = frame.step(event);
    match after.decorations {
        Some(parts) => {
            assert(parts.spec_part(PartId::Top) == parts.top);
            assert(parts.spec_part(PartId::Left) == parts.left);
            assert(parts.spec_part(PartId::Right) == parts.right);
            assert(parts.spec_part(PartId::Bottom) == parts.bottom);
            match frame.decorations {
                Some(before) => {
                    assert(before.spec_part(PartId::Top) == before.top);
                    assert(before.spec_part(PartId::Left) == before.left);
                    assert(before.spec_part(PartId::Right) == before.right);
                    assert(before.spec_part(PartId::Bottom) == before.bottom);
                },
                None => {},
            }
            assert forall|id: PartId|
                (after.state.fullscreen || after.state.spec_docked())
                    && id.spec_is_edge() implies #[trigger] parts.spec_part(id).hide by {
                match id {
                    PartId::Top => {},
                    PartId::Left => {},
                    PartId::Right => {},
                    PartId::Bottom => {},
                    PartId::Header => {},
                }
            }
        },
        None => {},
    }
}

/// In every frame that the host can reach, the panels lie as the size and the state
/// of the window ask: a new frame has it so, and every event keeps it so.
pub proof fn lemma_state_places_panels(frame: FrameView, config: FrameConfig, event: FrameEvent)
    requires
        frame.lies_as_state_asks(),
    ensures
        FrameView::new(config).lies_as_state_asks(),
        frame.step(event).lies_as_state_asks(),
{
    lemma_new_panels_are_placed(0, 0, WindowState::spec_empty());
    match event {
        FrameEvent::UpdateState(state) => {
            lemma_settled(frame, frame.update_state(state));
        },
        FrameEvent::UpdateCapabilities(capabilities) => {
            lemma_settled(frame, frame.update_wm_capabilities(capabilities));
        },
        FrameEvent::Resize(width, height) => {
            if frame.resize_error(width, height) is None {
                lemma_settled(frame, frame.resize(width, height));
            }
        },
        FrameEvent::SetHidden(hidden) => {
            lemma_shown_again(frame, hidden);
        },
        FrameEvent::BindSurfaces(top, left, right, bottom, header) => {
            match frame.decorations {
                Some(parts) => {
                    lemma_keeps_place(
                        parts,
                        parts.spec_bind_surfaces(top, left, right, bottom, header),
                        frame.width,
                        frame.height,
                        frame.state,
                    );
                },
                None => {},
            }
        },
        _ => {
            lemma_quiet_event(frame, event);
        },
    }
}

/// A frame that is hidden or shown has its panels, if any, where its size and the
/// state of its window ask.
proof fn lemma_shown_again(frame: FrameView, hidden: bool)
    requires
        frame.lies_as_state_asks(),
    ensures
        frame.set_hidden(hidden).lies_as_state_asks(),
{
    if !hidden && frame.decorations is None {
        lemma_new_panels_are_placed(frame.width, frame.height, frame.state);
        lemma_placed(
            DecorationParts::spec_new(),
            frame.width,
            frame.height,
            frame.state,
            frame.width,
            frame.height,
            frame.state,
        );
    }
}

/// Most events leave the panels, the size and the state of the window as they are.
proof fn lemma_quiet_event(frame: FrameView, event: FrameEvent)
    requires
        !(event is UpdateState),
        !(event is UpdateCapabilities),
        !(event is Resize),
        !(event is SetHidden),
        !(event is BindSurfaces),
    ensures
        frame.step(event).decorations == frame.decorations,
        frame.step(event).width == frame.width,
        frame.step(event).height == frame.height,
        frame.step(event).state == frame.state,
{
}

/// A frame that was settled after its size or the state of its window changed has
/// its panels where the new size and state ask.
proof fn lemma_settled(frame: FrameView, after: FrameView)
    requires
        frame.lies_as_state_asks(),
        after.width <= MAX_DIMENSION,
        after.height <= MAX_DIMENSION,
        after.decorations == match frame.decorations {
            Some(parts) => Some(FrameView::place(parts, after.width, after.height, after.state)),
            None => None,
        },
    ensures
        after.lies_as_state_asks(),
{
    match frame.decorations {
        Some(parts) => {
            lemma_placed(
                parts,
                frame.width,
                frame.height,
                frame.state,
                after.width,
                after.height,
                after.state,
            );
        },
        None => {},
    }
}

/// New panels have no extent.
proof fn lemma_new_panels_are_placed(width: u32, height: u32, state: WindowState)
    ensures
        FrameView::placed_for(DecorationParts::spec_new(), width, height, state),
{
    reveal(FrameView::placed_for);
    let parts = DecorationParts::spec_new();
    assert forall|id: PartId| (#[trigger] parts.spec_part(id)).surface_rect.width == 0 by {
        match id {
            PartId::Top => {},
            PartId::Left => {},
            PartId::Right => {},
            PartId::Bottom => {},
            PartId::Header => {},
        }
    }
}

/// Panels that lie as a size and a state ask still do when only their surfaces, or
/// whether they are hidden, have changed.
proof fn lemma_keeps_place(
    before: DecorationParts,
    after: DecorationParts,
    width: u32,
    height: u32,
    state: WindowState,
)
    requires
        FrameView::placed_for(before, width, height, state),
        after.config == before.config,
        after.top.surface_rect == before.top.surface_rect,
        after.left.surface_rect == before.left.surface_rect,
        after.right.surface_rect == before.right.surface_rect,
        after.bottom.surface_rect == before.bottom.surface_rect,
        after.header.surface_rect == before.header.surface_rect,
        after.top.input_rect == before.top.input_rect,
        after.left.input_rect == before.left.input_rect,
        after.right.input_rect == before.right.input_rect,
        after.bottom.input_rect == before.bottom.input_rect,
        after.header.input_rect == before.header.input_rect,
    ensures
        FrameView::placed_for(after, width, height, state),
{
    reveal(FrameView::placed_for);
    assert forall|id: PartId|
        (#[trigger] after.spec_part(id)).surface_rect == before.spec_part(id).surface_rect
            && after.spec_part(id).input_rect == before.spec_part(id).input_rect by {
        match id {
            PartId::Top => {},
            PartId::Left => {},
            PartId::Right => {},
            PartId::Bottom => {},
            PartId::Header => {},
        }
    }
    if before.config == FrameView::layout_config(width, height, state) && before.spec_laid_out() {
        assert(after.spec_laid_out());
    } else {
        assert forall|id: PartId| id.spec_is_edge() implies (#[trigger] after.spec_part(
            id,
        )).surface_rect.width == 0 || after.spec_part(id).surface_rect.height == 0 by {
            assert(before.spec_part(id).surface_rect.width == 0 || before.spec_part(
                id,
            ).surface_rect.height == 0);
        }
    }
}

/// Panels that are placed for a size and a state lie as those ask, where they lay
/// as any size and state asked before.
proof fn lemma_placed(
    parts: DecorationParts,
    old_width: u32,
    old_height: u32,
    old_state: WindowState,
    width: u32,
    height: u32,
    state: WindowState,
)
    requires
        width <= MAX_DIMENSION,
        height <= MAX_DIMENSION,
        FrameView::placed_for(parts, old_width, old_height, old_state),
    ensures
        FrameView::placed_for(FrameView::place(parts, width, height, state), width, height, state),
{
    reveal(FrameView::placed_for);
    let config = FrameView::layout_config(width, height, state);
    let edges = state.fullscreen || state.spec_docked();
    assert(config.spec_fits());
    let laid = parts.spec_relayout(config);
    let placed = laid.spec_with_hidden(edges, state.fullscreen);
    assert(placed == FrameView::place(parts, width, height, state));
    if parts.config == config {
        assert(laid == parts);
        if parts.spec_laid_out() {
            lemma_keeps_place(parts, placed, width, height, state);
        } else {
            lemma_keeps_place(parts, placed, old_width, old_height, old_state);
        }
    } else {
        assert forall|id: PartId|
            (#[trigger] laid.spec_part(id)).surface_rect == PartLayout::spec_surface_rect(
                config,
                id,
            ) && laid.spec_part(id).input_rect == PartLayout::spec_input_rect(config, id) by {
            match id {
                PartId::Top => {},
                PartId::Left => {},
                PartId::Right => {},
                PartId::Bottom => {},
                PartId::Header => {},
            }
        }
        assert(laid.spec_laid_out());
        lemma_keeps_place(laid, placed, width, height, state);
    }
}

/// In a window that is maximized or tiled, every edge of a frame that the host can
/// reach is hidden and has no extent: the top and bottom edges have no height, the
/// left and right edges no width, unless they are new and have neither.
pub proof fn lemma_docked_window_has_no_edges(frame: FrameView, id: PartId)
    requires
        frame.hides_what_state_asks(),
        frame.lies_as_state_asks(),
        frame.state.spec_docked(),
        frame.decorations is Some,
        id.spec_is_edge(),
    ensures
        frame.decorations.unwrap().spec_part(id).hide,
        frame.decorations.unwrap().spec_part(id).surface_rect.width == 0
            || frame.decorations.unwrap().spec_part(id).surface_rect.height == 0,
{
    reveal(FrameView::placed_for);
    let parts = frame.decorations.unwrap();
    if parts.config == FrameView::layout_config(frame.width, frame.height, frame.state)
        && parts.spec_laid_out() {
        lemma_hidden_border_empties_edges(parts.config, id);
    }
    assert(parts.spec_part(id).hide);
}

} // verus!
