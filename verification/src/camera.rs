use vstd::prelude::*;

use crate::fixed_point::{clamp_i32, half, half_of, minus};
use crate::geometry::Rect;

verus! {

/// The part of the world that is shown: a box of the given size around a
/// centre.
#[derive(Debug, PartialEq, Eq, Structural, Clone, Copy)]
pub struct Camera {
    pub x: i32,
    pub y: i32,
    pub width: i32,
    pub height: i32,
}

impl Camera {
    pub fn new(x: i32, y: i32, width: i32, height: i32) -> (camera: Self)
        ensures
            camera == (Camera { x, y, width, height }),
    {
        Camera { x, y, width, height }
    }

    /// The rectangle that the camera covers, given by its least corner.
    pub open spec fn spec_as_rect(self) -> Rect {
        Rect {
            x: clamp_i32(self.x - half(self.width as int)) as i32,
            y: clamp_i32(self.y - half(self.height as int)) as i32,
            w: self.width,
            h: self.height,
        }
    }

    /// The rectangle that the camera covers, given by its least corner.
    pub fn as_rect(&self) -> (rect: Rect)
        ensures
            rect == self.spec_as_rect(),
    {
        Rect::new(
            minus(self.x, half_of(self.width)),
            minus(self.y, half_of(self.height)),
            self.width,
            self.height,
        )
    }
}

impl Default for Camera {
    /// A camera without extent at the origin.
    fn default() -> (camera: Self)
        ensures
            camera == (Camera { x: 0, y: 0, width: 0, height: 0 }),
    {
        Camera { x: 0, y: 0, width: 0, height: 0 }
    }
}

} // verus!
