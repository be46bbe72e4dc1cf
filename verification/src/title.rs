//! The title of a window as the decoration shows it.
//!
//! The text is rasterized by the host. What is kept here is what the raster has to
//! show, the last raster that was made, and whether that raster still shows it.

use vstd::prelude::*;
use tiny_skia::Pixmap;
use crate::theme::Color;

verus! {

/// What a title looks like to the verifier.
pub struct TitleView {
    pub title: Seq<char>,
    pub scale: u32,
    pub color: Color,
    /// The last raster, if one was made and is not out of date.
    pub raster: Option<Pixmap>,
    /// The raster has to be made anew before the title can be drawn.
    pub stale: bool,
}

impl TitleView {
    /// An empty title at scale one, with nothing to rasterize.
    pub open spec fn new(color: Color) -> TitleView {
        TitleView { title: Seq::empty(), scale: 1, color, raster: None, stale: false }
    }

    /// The title out of date: its raster is dropped.
    pub open spec fn outdated(self) -> TitleView {
        TitleView { raster: None, stale: true, ..self }
    }

    /// The title at another scale. The raster is kept where the scale is the same.
    pub open spec fn update_scale(self, scale: u32) -> TitleView {
        if scale == self.scale {
            self
        } else {
            TitleView { scale, ..self.outdated() }
        }
    }

    /// The title with another text. The raster is kept where the text is the same.
    pub open spec fn update_title(self, title: Seq<char>) -> TitleView {
        if title == self.title {
            self
        } else {
            TitleView { title, ..self.outdated() }
        }
    }

    /// The title in another colour. The raster is kept where the colour is the same.
    pub open spec fn update_color(self, color: Color) -> TitleView {
        if color == self.color {
            self
        } else {
            TitleView { color, ..self.outdated() }
        }
    }

    /// The title after the host made its raster, or found that it has none.
    pub open spec fn rendered(self, raster: Option<Pixmap>) -> TitleView {
        TitleView { raster, stale: false, ..self }
    }
}

/// The title of a window.
pub struct TitleText {
    title: String,
    scale: u32,
    color: Color,
    pixmap: Option<Pixmap>,
    stale: bool,
}

impl View for TitleText {
    type V = TitleView;

    closed spec fn view(&self) -> TitleView {
        TitleView {
            title: self.title@,
            scale: self.scale,
            color: self.color,
            raster: self.pixmap,
            stale: self.stale,
        }
    }
}

impl TitleText {
    pub fn new(color: Color) -> (t: TitleText)
        ensures
            t@ == TitleView::new(color),
    {
        TitleText { title: String::new(), scale: 1, color, pixmap: None, stale: false }
    }

    pub fn update_scale(&mut self, scale: u32)
        ensures
            final(self)@ == old(self)@.update_scale(scale),
    {
        if scale != self.scale {
            self.scale = scale;
            self.pixmap = None;
            self.stale = true;
        }
    }

    pub fn update_title(&mut self, title: String)
        ensures
            final(self)@ == old(self)@.update_title(title@),
    {
        if title != self.title {
            self.title = title;
            self.pixmap = None;
            self.stale = true;
        }
    }

    pub fn update_color(&mut self, color: Color)
        ensures
            final(self)@ == old(self)@.update_color(color),
    {
        if color != self.color {
            self.color = color;
            self.pixmap = None;
            self.stale = true;
        }
    }

    /// The raster of the title, where one was made and still shows it.
    pub fn pixmap(&self) -> (p: Option<&Pixmap>)
        ensures
            p.is_some() == self@.raster.is_some(),
            p matches Some(raster) ==> Some(*raster) == self@.raster,
    {
        self.pixmap.as_ref()
    }

    /// Whether the host has to rasterize the title before it is drawn.
    pub fn needs_render(&self) -> (stale: bool)
        ensures
            stale == self@.stale,
    {
        self.stale
    }

    /// The text to rasterize.
    pub fn title(&self) -> (t: &String)
        ensures
            t@ == self@.title,
    {
        &self.title
    }

    /// The scale to rasterize at.
    pub fn scale(&self) -> (s: u32)
        ensures
            s == self@.scale,
    {
        self.scale
    }

    /// The colour to rasterize in.
    pub fn color(&self) -> (c: Color)
        ensures
            c == self@.color,
    {
        self.color
    }

    /// Takes the raster that the host made of the title as it is now; `None`
    /// where the title comes to nothing.
    pub fn rendered(&mut self, raster: Option<Pixmap>)
        ensures
            final(self)@ == old(self)@.rendered(raster),
    {
        self.pixmap = raster;
        self.stale = false;
    }
}

} // verus!
