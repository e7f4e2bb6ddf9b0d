//! Plain data carried by the draw queue.
//!
//! The core works in integer units throughout: screen positions are whole
//! pixels (`i32`), colors are 8-bit RGBA channels, and font sizes and text
//! scale factors are in 64ths of a pixel (so a size of `1024` is 16 px).
//! The unverified shell converts these to the floating-point units the GPU
//! and the shaping engine expect.

use vstd::prelude::*;

verus! {

/// An RGBA color with 8-bit channels.
#[derive(Clone, Copy, Debug, PartialEq, Eq, Structural)]
pub struct Color {
    pub r: u8,
    pub g: u8,
    pub b: u8,
    pub a: u8,
}

impl Color {
    /// Opaque white, the default vertex color.
    pub fn white() -> (c: Color)
        ensures
            c == (Color { r: 255, g: 255, b: 255, a: 255 }),
    {
        Color { r: 255, g: 255, b: 255, a: 255 }
    }
}

/// A shape vertex: a screen position in whole pixels and an RGBA color.
#[derive(Clone, Copy, Debug, PartialEq, Eq, Structural)]
pub struct Vertex {
    pub x: i32,
    pub y: i32,
    pub color: Color,
}

impl Vertex {
    /// A vertex at `(x, y)` with the default (white) color.
    pub fn new(x: i32, y: i32) -> (v: Vertex)
        ensures
            v == (Vertex { x, y, color: Color { r: 255, g: 255, b: 255, a: 255 } }),
    {
        Vertex { x, y, color: Color::white() }
    }

    /// A vertex at `(x, y)` with the given color.
    pub fn with_color(x: i32, y: i32, color: Color) -> (v: Vertex)
        ensures
            v == (Vertex { x, y, color }),
    {
        Vertex { x, y, color }
    }
}

/// A clipping rectangle for text, in whole pixels.
#[derive(Clone, Copy, Debug, PartialEq, Eq, Structural)]
pub struct TextBounds {
    pub left: i32,
    pub top: i32,
    pub right: i32,
    pub bottom: i32,
}

impl TextBounds {
    /// The bounds used when a text request sets none: the whole renderable
    /// area, clipped by nothing.
    pub fn unbounded() -> (b: TextBounds)
        ensures
            b == TextBounds::spec_unbounded(),
    {
        TextBounds { left: 0, top: 0, right: i32::MAX, bottom: i32::MAX }
    }

    /// The value `unbounded` returns.
    pub open spec fn spec_unbounded() -> TextBounds {
        TextBounds { left: 0, top: 0, right: 0x7fff_ffff, bottom: 0x7fff_ffff }
    }
}

/// One text draw request: content, position, font size (64ths of a pixel),
/// color, and optional clipping bounds.
pub struct Text {
    pub text: String,
    pub position: (i32, i32),
    pub size: u32,
    pub color: Color,
    pub bounds: Option<TextBounds>,
}

impl Default for Text {
    /// An empty request: no content, the origin, a 16 px font, opaque
    /// white, and no clipping bounds.
    fn default() -> (t: Text)
        ensures
            t.text@ == Seq::<char>::empty(),
            t.position == (0i32, 0i32),
            t.size == 1024u32,
            t.color == (Color { r: 255, g: 255, b: 255, a: 255 }),
            t.bounds is None,
    {
        Text {
            text: String::new(),
            position: (0, 0),
            size: 1024,
            color: Color::white(),
            bounds: None,
        }
    }
}

} // verus!
