use vstd::prelude::*;

use crate::draw_system::DrawSystem;
use crate::entity::entity_state::EntityState;
use crate::entity::Entity;
use crate::geometry::Vector2;
use crate::physics_system::PhysicsSystem;

verus! {

/// Builds entities and hands out their identities.
///
/// A builder holds the description of the entity it would build next, the
/// identity of that entity included. Identities count up from zero and a
/// builder never hands out the same one twice.
pub struct EntityBuilder {
    next_id: u32,
    location: Vector2,
    width: i32,
    height: i32,
    draw_system: Option<DrawSystem>,
    affected_by_gravity: bool,
    physics_system: Option<PhysicsSystem>,
    collidable: bool,
    state: EntityState,
}

impl View for EntityBuilder {
    type V = Entity;

    /// The entity that [`EntityBuilder::build`] would return now.
    closed spec fn view(&self) -> Entity {
        Entity {
            location: self.location,
            width: self.width,
            height: self.height,
            draw_system: self.draw_system,
            affected_by_gravity: self.affected_by_gravity,
            physics_system: self.physics_system,
            collidable: self.collidable,
            state: self.state,
            id: self.next_id,
        }
    }
}

impl EntityBuilder {
    /// The description that a builder goes back to after it has built the
    /// entity `built`: every field at its default, and the next identity.
    pub open spec fn after_build(built: Entity) -> Entity {
        Entity { id: (built.id + 1) as u32, ..Entity::spec_default() }
    }

    /// A builder whose first entity gets the identity zero.
    pub fn new() -> (builder: Self)
        ensures
            builder@ == Entity::spec_default(),
    {
        EntityBuilder {
            next_id: 0,
            location: Vector2 { x: 0, y: 0 },
            width: 0,
            height: 0,
            draw_system: None,
            affected_by_gravity: false,
            physics_system: None,
            collidable: false,
            state: EntityState::Unset,
        }
    }

    /// The identity that the next entity will get.
    pub fn next_id(&self) -> (id: u32)
        ensures
            id == self@.id,
    {
        self.next_id
    }

    /// Begins the description of an entity. The builder is always ready for
    /// one, so nothing changes.
    pub fn create_entity(&mut self) -> (builder: &mut Self)
        ensures
            *builder == *old(self),
            *final(self) == *final(builder),
    {
        self
    }

    /// Builds the described entity and goes back to the default description
    /// with the next identity.
    pub fn build(&mut self) -> (entity: Entity)
        requires
            old(self)@.id < u32::MAX,
        ensures
            entity == old(self)@,
            final(self)@ == EntityBuilder::after_build(entity),
    {
        let id: u32 = self.next_id;
        let entity = Entity {
            location: self.location,
            width: self.width,
            height: self.height,
            draw_system: self.draw_system.take(),
            affected_by_gravity: self.affected_by_gravity,
            physics_system: self.physics_system.take(),
            collidable: self.collidable,
            state: self.state,
            id,
        };
        self.reset();
        entity
    }

    pub fn location(&mut self, x: i32, y: i32) -> (builder: &mut Self)
        ensures
            builder@ == (Entity { location: Vector2 { x, y }, ..old(self)@ }),
            *final(self) == *final(builder),
    {
        self.location.x = x;
        self.location.y = y;
        self
    }

    pub fn size(&mut self, width: i32, height: i32) -> (builder: &mut Self)
        ensures
            builder@ == (Entity { width, height, ..old(self)@ }),
            *final(self) == *final(builder),
    {
        self.width = width;
        self.height = height;
        self
    }

    pub fn draw_system(&mut self, draw_system: DrawSystem) -> (builder: &mut Self)
        ensures
            builder@ == (Entity { draw_system: Some(draw_system), ..old(self)@ }),
            *final(self) == *final(builder),
    {
        self.draw_system = Some(draw_system);
        self
    }

    /// Drops the current description and moves on to the next identity:
    /// every field goes back to its default, so that nothing of one
    /// description is left for the next.
    pub fn reset(&mut self)
        requires
            old(self)@.id < u32::MAX,
        ensures
            final(self)@ == (Entity { id: (old(self)@.id + 1) as u32, ..Entity::spec_default() }),
    {
        self.next_id += 1;
        self.location = Vector2 { x: 0, y: 0 };
        self.width = 0;
        self.height = 0;
        self.draw_system = None;
        self.affected_by_gravity = false;
        self.physics_system = None;
        self.collidable = false;
        self.state = EntityState::Unset;
    }

    pub fn affected_by_gravity(&mut self) -> (builder: &mut Self)
        ensures
            builder@ == (Entity { affected_by_gravity: true, ..old(self)@ }),
            *final(self) == *final(builder),
    {
        self.affected_by_gravity = true;
        self
    }

    pub fn physics_system(&mut self, physics_system: PhysicsSystem) -> (builder: &mut Self)
        ensures
            builder@ == (Entity { physics_system: Some(physics_system), ..old(self)@ }),
            *final(self) == *final(builder),
    {
        self.physics_system = Some(physics_system);
        self
    }

    pub fn collidable(&mut self) -> (builder: &mut Self)
        ensures
            builder@ == (Entity { collidable: true, ..old(self)@ }),
            *final(self) == *final(builder),
    {
        self.collidable = true;
        self
    }

    pub fn state(&mut self, state: EntityState) -> (builder: &mut Self)
        ensures
            builder@ == (Entity { state, ..old(self)@ }),
            *final(self) == *final(builder),
    {
        self.state = state;
        self
    }
}

} // verus!
