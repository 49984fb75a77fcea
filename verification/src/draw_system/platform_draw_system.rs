use vstd::prelude::*;

use crate::draw_system::{outline, spec_outline, DrawCommand, Drawable};
use crate::geometry::{Color, Vector2};
use crate::physics_system::PhysicsSystem;

verus! {

/// Draws a platform in one colour, exactly where it is.
#[derive(Debug)]
pub struct PlatformDrawSystem {
    pub color: Color,
}

impl PlatformDrawSystem {
    pub fn new(color: Color) -> (system: Self)
        ensures
            system.color == color,
    {
        PlatformDrawSystem { color }
    }

    /// What to draw for a platform of the given size at `location`.
    pub open spec fn spec_draw(self, location: Vector2, size: (i32, i32)) -> DrawCommand {
        DrawCommand {
            drawable: Drawable::Platform,
            dest: location,
            color: Some(self.color),
            border: spec_outline(location, size.0 as int, size.1 as int),
        }
    }

    /// Says what to draw for a platform of the given size at `location`. A
    /// platform does not move, so neither the lag nor a physics behaviour
    /// changes anything.
    pub fn draw(
        &self,
        location: &Vector2,
        size: (i32, i32),
        _lag: i32,
        _physics_system: &Option<PhysicsSystem>,
    ) -> (command: DrawCommand)
        ensures
            command == self.spec_draw(*location, size),
    {
        DrawCommand {
            drawable: Drawable::Platform,
            dest: *location,
            color: Some(self.color),
            border: outline(location, size.0, size.1),
        }
    }
}

} // verus!
