pub mod platform_draw_system;
pub mod player_draw_system;

use vstd::prelude::*;

use crate::draw_system::platform_draw_system::PlatformDrawSystem;
use crate::draw_system::player_draw_system::PlayerDrawSystem;
use crate::fixed_point::{clamp_i32, half, half_of, minus};
use crate::geometry::{Color, Rect, Vector2};
use crate::physics_system::PhysicsSystem;

verus! {

/// Which of the prepared shapes a command draws.
#[derive(Clone, Copy, Debug, PartialEq, Eq, Structural)]
pub enum Drawable {
    Player,
    Platform,
}

/// One thing for the renderer to put on screen: a shape at a destination, an
/// optional tint, and the outline of the body's true bounding box.
#[derive(Clone, Copy, Debug, PartialEq, Eq, Structural)]
pub struct DrawCommand {
    pub drawable: Drawable,
    pub dest: Vector2,
    pub color: Option<Color>,
    pub border: Rect,
}

/// The bounding box of a body of the given size centred on `location`.
pub open spec fn spec_outline(location: Vector2, width: int, height: int) -> Rect {
    Rect {
        x: clamp_i32(location.x - half(width)) as i32,
        y: clamp_i32(location.y - half(height)) as i32,
        w: width as i32,
        h: height as i32,
    }
}

/// The bounding box of a body of the given size centred on `location`.
pub fn outline(location: &Vector2, width: i32, height: i32) -> (border: Rect)
    ensures
        border == spec_outline(*location, width as int, height as int),
{
    Rect {
        x: minus(location.x, half_of(width)),
        y: minus(location.y, half_of(height)),
        w: width,
        h: height,
    }
}

/// The render behaviour attached to an entity: one of a closed set.
#[derive(Debug)]
pub enum DrawSystem {
    Player(PlayerDrawSystem),
    Platform(PlatformDrawSystem),
}

impl DrawSystem {
    /// What this behaviour draws for a body of the given size at `location`.
    pub open spec fn spec_draw(
        self,
        location: Vector2,
        size: (i32, i32),
        lag: int,
        physics_system: Option<PhysicsSystem>,
    ) -> DrawCommand {
        match self {
            DrawSystem::Player(_) => PlayerDrawSystem::spec_draw(
                location,
                size,
                lag,
                physics_system,
            ),
            DrawSystem::Platform(system) => system.spec_draw(location, size),
        }
    }

    /// Says what to draw for a body of the given size at `location`, `lag`
    /// steps out of a whole unit into the next tick.
    pub fn draw(
        &self,
        location: &Vector2,
        size: (i32, i32),
        lag: i32,
        physics_system: &Option<PhysicsSystem>,
    ) -> (command: DrawCommand)
        ensures
            command == self.spec_draw(*location, size, lag as int, *physics_system),
    {
        match self {
            DrawSystem::Player(system) => system.draw(location, size, lag, physics_system),
            DrawSystem::Platform(system) => system.draw(location, size, lag, physics_system),
        }
    }
}

} // verus!
