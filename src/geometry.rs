//! Fixed-point vectors and the window's fixed dimensions.

use vstd::prelude::*;

verus! {

/// Coordinate units per pixel.
pub const UNITS_PER_PIXEL: i64 = 1000;

/// Window width, in pixels.
pub const WINDOW_WIDTH: u32 = 1024;

/// Window height, in pixels.
pub const WINDOW_HEIGHT: u32 = 768;

/// Colour depth of the window, in bits per pixel.
pub const COLOR_DEPTH: u32 = 32;

/// Whether a mathematical integer can be held by an `i64`.
pub open spec fn fits_i64(v: int) -> bool {
    i64::MIN <= v <= i64::MAX
}

/// A position or a translation, in coordinate units.
#[derive(Clone, Copy, Debug, PartialEq, Eq, Structural)]
pub struct Vec2 {
    pub x: i64,
    pub y: i64,
}

impl Vec2 {
    pub fn new(x: i64, y: i64) -> (r: Vec2)
        ensures
            r.x == x,
            r.y == y,
    {
        Vec2 { x, y }
    }
}

/// An RGBA colour.
#[derive(Clone, Copy, Debug, PartialEq, Eq, Structural)]
pub struct Color {
    pub red: u8,
    pub green: u8,
    pub blue: u8,
    pub alpha: u8,
}

/// The settings a window is opened with.
#[derive(Clone, Copy, Debug, PartialEq, Eq)]
pub struct WindowConfig {
    pub width: u32,
    pub height: u32,
    pub color_depth: u32,
    /// Text shown in the window's title bar.
    pub title: &'static str,
    /// Whether the window has a close button, through which the user asks
    /// to close it.
    pub closable: bool,
    /// Colour the frame buffer is cleared with at the start of each frame.
    pub clear_color: Color,
}

/// The window every session opens: 1024 by 768 pixels at 32 bits per
/// pixel, titled "RSFML Pong - Rust", with a close button, cleared to opaque
/// white each frame.
pub fn create_window() -> (r: WindowConfig)
    ensures
        r.width == WINDOW_WIDTH,
        r.height == WINDOW_HEIGHT,
        r.color_depth == COLOR_DEPTH,
        r.title@ == "RSFML Pong - Rust"@,
        r.closable,
        r.clear_color == (Color { red: 255, green: 255, blue: 255, alpha: 255 }),
{
    WindowConfig {
        width: WINDOW_WIDTH,
        height: WINDOW_HEIGHT,
        color_depth: COLOR_DEPTH,
        title: "RSFML Pong - Rust",
        closable: true,
        clear_color: Color { red: 255, green: 255, blue: 255, alpha: 255 },
    }
}

} // verus!
