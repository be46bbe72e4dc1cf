[package]
name = "sctk-adwaita"
version = "0.1.0"
edition = "2021"
publish = false

[dependencies]
tiny-skia = { version = "0.11", default-features = false, features = ["std", "simd"] }
smithay-client-toolkit = { version = "0.17", default-features = false }
ab_glyph = "0.2"
memmap2 = "0.9"
log = "0.4"
ttf-parser = "*"
