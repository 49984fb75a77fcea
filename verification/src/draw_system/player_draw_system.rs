use vstd::prelude::*;

use crate::draw_system::{outline, spec_outline, DrawCommand, Drawable};
use crate::fixed_point::{clamp_i32, plus, scale, scaled};
use crate::geometry::Vector2;
use crate::physics_system::PhysicsSystem;

verus! {

/// Draws the player, carried forward by its velocity for the part of a tick
/// that has passed since the last step.
#[derive(Debug)]
pub struct PlayerDrawSystem;

impl PlayerDrawSystem {
    /// Where the body is shown: its location plus `lag` steps out of a whole
    /// unit of its velocity, or its location if it has no physics behaviour.
    pub open spec fn shown_at(
        location: Vector2,
        lag: int,
        physics_system: Option<PhysicsSystem>,
    ) -> Vector2 {
        match physics_system {
            Some(system) => Vector2 {
                x: clamp_i32(
                    location.x + clamp_i32(scaled(system.spec_velocity().x as int, lag)),
                ) as i32,
                y: clamp_i32(
                    location.y + clamp_i32(scaled(system.spec_velocity().y as int, lag)),
                ) as i32,
            },
            None => location,
        }
    }

    /// What to draw for a body of the given size at `location`.
    pub open spec fn spec_draw(
        location: Vector2,
        size: (i32, i32),
        lag: int,
        physics_system: Option<PhysicsSystem>,
    ) -> DrawCommand {
        DrawCommand {
            drawable: Drawable::Player,
            dest: PlayerDrawSystem::shown_at(location, lag, physics_system),
            color: None,
            border: spec_outline(location, size.0 as int, size.1 as int),
        }
    }

    /// Says what to draw for a body of the given size at `location`.
    ///
    /// The simulation state is only read: the shown position runs ahead of the
    /// true one, the outline marks the true one.
    pub fn draw(
        &self,
        location: &Vector2,
        size: (i32, i32),
        lag: i32,
        physics_system: &Option<PhysicsSystem>,
    ) -> (command: DrawCommand)
        ensures
            command == PlayerDrawSystem::spec_draw(*location, size, lag as int, *physics_system),
    {
        let mut x: i32 = location.x;
        let mut y: i32 = location.y;
        if let Some(physics_system) = physics_system {
            let velocity = physics_system.get_velocity();
            x = plus(x, scale(velocity.x, lag));
            y = plus(y, scale(velocity.y, lag));
        }
        DrawCommand {
            drawable: Drawable::Player,
            dest: Vector2 { x, y },
            color: None,
            border: outline(location, size.0, size.1),
        }
    }
}

} // verus!
