[package]
name = "ui_glyphs"
version = "0.1.0"
edition = "2021"
publish = false

[dependencies]
unicode-segmentation = "1"
glyph_brush = "0.7"
