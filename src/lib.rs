//! Core model of an interactive hex viewer/editor: the mapping between
//! cursor cells of a fixed character grid and byte offsets of a buffer, the
//! viewport and cursor clamping rules, byte editing and hex value input.

pub mod display;
pub mod editor;
pub mod geometry;
pub mod grid;
pub mod hex_input;
pub mod viewport;
