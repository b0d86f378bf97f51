//! Core Graphics.
pub mod cg_font;
