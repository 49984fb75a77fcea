pub mod builder;
pub mod entity_data;
pub mod entity_state;
pub mod entity_type;

use vstd::prelude::*;

use crate::draw_system::{DrawCommand, DrawSystem};
use crate::entity::entity_state::EntityState;
use crate::geometry::Vector2;
use crate::physics_system::PhysicsSystem;

verus! {

/// A simulated body: an axis-aligned box around `location` with an identity,
/// a contact state and the behaviours attached to it.
#[derive(Debug)]
pub struct Entity {
    /// The centre of the bounding box.
    pub location: Vector2,
    pub width: i32,
    pub height: i32,
    pub draw_system: Option<DrawSystem>,
    pub affected_by_gravity: bool,
    pub physics_system: Option<PhysicsSystem>,
    /// Whether other bodies resolve collisions against this one.
    pub collidable: bool,
    pub state: EntityState,
    pub id: u32,
}

impl Entity {
    /// The entity that [`Entity::new`] and [`Entity::default`] return.
    pub open spec fn spec_default() -> Entity {
        Entity {
            location: Vector2 { x: 0, y: 0 },
            width: 0,
            height: 0,
            draw_system: None,
            affected_by_gravity: false,
            physics_system: None,
            collidable: false,
            state: EntityState::Unset,
            id: 0,
        }
    }

    /// The data of this entity without its behaviours.
    pub open spec fn snapshot(self) -> Entity {
        Entity {
            location: self.location,
            width: self.width,
            height: self.height,
            draw_system: None,
            affected_by_gravity: self.affected_by_gravity,
            physics_system: None,
            collidable: self.collidable,
            state: self.state,
            id: self.id,
        }
    }

    /// Whether this tick's gravity acts on the entity: it must be affected by
    /// gravity and must not be standing.
    pub open spec fn takes_gravity(self) -> bool {
        self.affected_by_gravity && self.state != EntityState::Standing
    }

    /// The entity after one tick under `gravity`, with `others` as the bodies
    /// it may collide with.
    ///
    /// An entity without a physics behaviour is inert. Otherwise gravity is
    /// applied if [`Entity::takes_gravity`] holds, and the behaviour then takes
    /// one step. The state is only ever set to standing here; a standing
    /// entity stays standing, and takes no gravity, until something else
    /// changes its state.
    pub open spec fn spec_update(self, gravity: Vector2, others: Seq<Entity>) -> Entity {
        match self.physics_system {
            None => self,
            Some(system) => {
                let forced = if self.takes_gravity() {
                    system.spec_apply_force(gravity)
                } else {
                    system
                };
                let body = forced.stepped(
                    self.location,
                    self.width as int,
                    self.height as int,
                    others,
                    self.state,
                );
                Entity {
                    location: body.location,
                    width: self.width,
                    height: self.height,
                    draw_system: self.draw_system,
                    affected_by_gravity: self.affected_by_gravity,
                    physics_system: Some(
                        forced.spec_update(
                            self.location,
                            self.width as int,
                            self.height as int,
                            others,
                            self.state,
                        ),
                    ),
                    collidable: self.collidable,
                    state: body.state,
                    id: self.id,
                }
            },
        }
    }

    /// What the entity's render behaviour draws, if it has one.
    pub open spec fn spec_draw(self, lag: int) -> Option<DrawCommand> {
        match self.draw_system {
            Some(system) => Some(
                system.spec_draw(self.location, (self.width, self.height), lag, self.physics_system),
            ),
            None => None,
        }
    }

    /// Creates an entity with the default values.
    pub fn new() -> (entity: Self)
        ensures
            entity == Entity::spec_default(),
    {
        Entity {
            location: Vector2 { x: 0, y: 0 },
            width: 0,
            height: 0,
            draw_system: None,
            affected_by_gravity: false,
            physics_system: None,
            collidable: false,
            state: EntityState::Unset,
            id: 0,
        }
    }

    /// Sets the centre of the entity.
    pub fn set_location(&mut self, x: i32, y: i32) -> (entity: &mut Self)
        ensures
            *entity == (Entity { location: Vector2 { x, y }, ..*old(self) }),
            *final(self) == *final(entity),
    {
        self.location.x = x;
        self.location.y = y;
        self
    }

    pub fn set_draw_system(&mut self, draw_system: DrawSystem) -> (entity: &mut Self)
        ensures
            *entity == (Entity { draw_system: Some(draw_system), ..*old(self) }),
            *final(self) == *final(entity),
    {
        self.draw_system = Some(draw_system);
        self
    }

    pub fn set_affected_by_gravity(&mut self) -> (entity: &mut Self)
        ensures
            *entity == (Entity { affected_by_gravity: true, ..*old(self) }),
            *final(self) == *final(entity),
    {
        self.affected_by_gravity = true;
        self
    }

    pub fn set_physics_system(&mut self, physics_system: PhysicsSystem) -> (entity: &mut Self)
        ensures
            *entity == (Entity { physics_system: Some(physics_system), ..*old(self) }),
            *final(self) == *final(entity),
    {
        self.physics_system = Some(physics_system);
        self
    }

    pub fn set_collidable(&mut self, collidable: bool) -> (entity: &mut Self)
        ensures
            *entity == (Entity { collidable, ..*old(self) }),
            *final(self) == *final(entity),
    {
        self.collidable = collidable;
        self
    }

    /// Sets the width and the height of the entity.
    pub fn set_size(&mut self, width: i32, height: i32) -> (entity: &mut Self)
        ensures
            *entity == (Entity { width, height, ..*old(self) }),
            *final(self) == *final(entity),
    {
        self.width = width;
        self.height = height;
        self
    }

    /// Says what to draw for this entity, `lag` steps out of a whole unit into
    /// the next tick; nothing for an entity without a render behaviour.
    pub fn draw(&self, lag: i32) -> (command: Option<DrawCommand>)
        ensures
            command == self.spec_draw(lag as int),
    {
        match &self.draw_system {
            Some(draw_system) => Some(
                draw_system.draw(
                    &self.location,
                    (self.width, self.height),
                    lag,
                    &self.physics_system,
                ),
            ),
            None => None,
        }
    }

    /// Advances the entity by one tick and says whether it is still where it
    /// was.
    pub fn update(&mut self, gravity: &Vector2, collidable_others: &Vec<Entity>) -> (unmoved: bool)
        ensures
            *final(self) == old(self).spec_update(*gravity, collidable_others@),
            unmoved == (final(self).location == old(self).location),
    {
        let previous_location = self.location;
        if let Some(physics_system) = &mut self.physics_system {
            if self.affected_by_gravity {
                match self.state {
                    EntityState::Unset => physics_system.apply_force(gravity),
                    EntityState::Falling => physics_system.apply_force(gravity),
                    EntityState::Standing => {},
                }
            }
            physics_system.update(
                &mut self.location,
                self.width,
                self.height,
                collidable_others,
                &mut self.state,
            );
        }
        previous_location == self.location
    }
}

impl Default for Entity {
    fn default() -> (entity: Self)
        ensures
            entity == Entity::spec_default(),
    {
        Entity::new()
    }
}

impl Clone for Entity {
    /// Copies the data of the entity. Behaviours are not copied: the clone has
    /// none.
    fn clone(&self) -> (entity: Self)
        ensures
            entity == self.snapshot(),
    {
        Entity {
            location: self.location,
            width: self.width,
            height: self.height,
            draw_system: None,
            affected_by_gravity: self.affected_by_gravity,
            physics_system: None,
            collidable: self.collidable,
            state: self.state,
            id: self.id,
        }
    }
}

} // verus!
