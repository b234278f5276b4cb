//! Turns an RGB pixel grid into ASCII art: each pixel is reduced to a
//! luminosity, optionally inverted, and drawn as a glyph of a fixed
//! brightness ramp.

pub mod ramp;
pub mod pixel;
pub mod grid;
pub mod render;
