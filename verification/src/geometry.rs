//! Plain value types for points, rectangles and colours.

use vstd::prelude::*;

use crate::fixed_point::{clamp_i32, plus};

verus! {

/// A point or a displacement in the plane, in fixed-point steps.
#[derive(Clone, Copy, Debug, PartialEq, Eq, Structural)]
pub struct Vector2 {
    pub x: i32,
    pub y: i32,
}

impl Vector2 {
    pub fn new(x: i32, y: i32) -> (v: Self)
        ensures
            v == (Vector2 { x, y }),
    {
        Vector2 { x, y }
    }

    /// The component-wise saturating sum of two vectors.
    pub open spec fn spec_plus(self, other: Vector2) -> Vector2 {
        Vector2 {
            x: clamp_i32(self.x as int + other.x as int) as i32,
            y: clamp_i32(self.y as int + other.y as int) as i32,
        }
    }

    /// The component-wise saturating sum of two vectors.
    pub fn plus(&self, other: &Vector2) -> (v: Vector2)
        ensures
            v == self.spec_plus(*other),
    {
        Vector2 { x: plus(self.x, other.x), y: plus(self.y, other.y) }
    }
}

/// An axis-aligned rectangle given by one corner and its extent.
#[derive(Clone, Copy, Debug, PartialEq, Eq, Structural)]
pub struct Rect {
    pub x: i32,
    pub y: i32,
    pub w: i32,
    pub h: i32,
}

impl Rect {
    pub fn new(x: i32, y: i32, w: i32, h: i32) -> (r: Self)
        ensures
            r == (Rect { x, y, w, h }),
    {
        Rect { x, y, w, h }
    }
}

/// A colour with eight bits for each of red, green, blue and alpha.
#[derive(Clone, Copy, Debug, PartialEq, Eq, Structural)]
pub struct Color {
    pub r: u8,
    pub g: u8,
    pub b: u8,
    pub a: u8,
}

impl Color {
    pub fn new(r: u8, g: u8, b: u8, a: u8) -> (c: Self)
        ensures
            c == (Color { r, g, b, a }),
    {
        Color { r, g, b, a }
    }

    /// Opaque white.
    pub open spec fn spec_white() -> Color {
        Color { r: 255, g: 255, b: 255, a: 255 }
    }

    /// Opaque white.
    pub fn white() -> (c: Self)
        ensures
            c == Color::spec_white(),
    {
        Color { r: 255, g: 255, b: 255, a: 255 }
    }
}

} // verus!
