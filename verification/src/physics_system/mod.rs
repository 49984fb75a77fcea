pub mod laws;
pub mod player_physics_system;

use vstd::prelude::*;

use crate::entity::entity_state::EntityState;
use crate::entity::Entity;
use crate::geometry::Vector2;
use crate::physics_system::player_physics_system::{Body, PlayerPhysicsSystem, TERMINAL_VELOCITY};

verus! {

/// The physics behaviour attached to an entity: one of a closed set.
#[derive(Debug)]
pub enum PhysicsSystem {
    /// A free body that gathers force, moves and lands on collidable bodies.
    Player(PlayerPhysicsSystem),
    /// A body that never moves and never gathers force.
    Static,
}

impl PhysicsSystem {
    /// The behaviour after `force` has been applied to it.
    pub open spec fn spec_apply_force(self, force: Vector2) -> PhysicsSystem {
        match self {
            PhysicsSystem::Player(system) => PhysicsSystem::Player(system.spec_apply_force(force)),
            PhysicsSystem::Static => PhysicsSystem::Static,
        }
    }

    /// The behaviour after one step.
    pub open spec fn spec_update(
        self,
        location: Vector2,
        width: int,
        height: int,
        others: Seq<Entity>,
        state: EntityState,
    ) -> PhysicsSystem {
        match self {
            PhysicsSystem::Player(system) => PhysicsSystem::Player(
                PlayerPhysicsSystem {
                    acceleration: Vector2 { x: 0, y: 0 },
                    velocity: system.stepped(location, width, height, others, state).velocity,
                },
            ),
            PhysicsSystem::Static => PhysicsSystem::Static,
        }
    }

    /// Where one step leaves a body with this behaviour, and in which state.
    pub open spec fn stepped(
        self,
        location: Vector2,
        width: int,
        height: int,
        others: Seq<Entity>,
        state: EntityState,
    ) -> Body {
        match self {
            PhysicsSystem::Player(system) => system.stepped(location, width, height, others, state),
            PhysicsSystem::Static => Body { location, velocity: Vector2 { x: 0, y: 0 }, state },
        }
    }

    /// The velocity of a body with this behaviour; a static body has none.
    pub open spec fn spec_velocity(self) -> Vector2 {
        match self {
            PhysicsSystem::Player(system) => system.velocity,
            PhysicsSystem::Static => Vector2 { x: 0, y: 0 },
        }
    }

    /// Adds `force` to the forces gathered for the coming step.
    pub fn apply_force(&mut self, force: &Vector2)
        ensures
            *final(self) == old(self).spec_apply_force(*force),
    {
        match self {
            PhysicsSystem::Player(system) => {
                system.apply_force(force);
            },
            PhysicsSystem::Static => {},
        }
    }

    /// Advances the body by one tick; see [`PlayerPhysicsSystem::update`] for the
    /// free body. A static body stays as it is.
    pub fn update(
        &mut self,
        location: &mut Vector2,
        width: i32,
        height: i32,
        others: &Vec<Entity>,
        state: &mut EntityState,
    )
        ensures
            *final(self) == old(self).spec_update(
                *old(location),
                width as int,
                height as int,
                others@,
                *old(state),
            ),
            *final(location) == old(self).stepped(
                *old(location),
                width as int,
                height as int,
                others@,
                *old(state),
            ).location,
            *final(state) == old(self).stepped(
                *old(location),
                width as int,
                height as int,
                others@,
                *old(state),
            ).state,
            -TERMINAL_VELOCITY <= final(self).spec_velocity().y <= TERMINAL_VELOCITY,
    {
        match self {
            PhysicsSystem::Player(system) => {
                system.update(location, width, height, others, state);
            },
            PhysicsSystem::Static => {},
        }
    }

    /// The velocity that the last step left the body with.
    pub fn get_velocity(&self) -> (velocity: Vector2)
        ensures
            velocity == self.spec_velocity(),
    {
        match self {
            PhysicsSystem::Player(system) => *system.get_velocity(),
            PhysicsSystem::Static => Vector2 { x: 0, y: 0 },
        }
    }
}

} // verus!
