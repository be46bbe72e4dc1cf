//! Client-side window decorations in the Adwaita style: the geometry of the five
//! decoration panels, the pointer state machine, and the shadow compositor.

pub mod theme;
pub mod pixmap;
pub mod parts;
pub mod shadow;
pub mod shadow_pixels;
pub mod state;
pub mod buttons;
pub mod pointer;
pub mod title;
pub mod renderer;
pub mod frame;
pub mod font_preference;
pub mod config;
pub mod geometry;
pub mod utils;
pub mod decoration_surface;
