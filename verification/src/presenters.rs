//! Renderers: one per editor mode.

pub mod modes;
