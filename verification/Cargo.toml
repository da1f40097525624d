[package]
name = "editor_view"
version = "0.1.0"
edition = "2021"
publish = false

[dependencies]
pad = "0.1"
unicode-segmentation = "1"
scribe = "*"
git2 = { version = "*", default-features = false }
