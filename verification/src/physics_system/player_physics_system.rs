use vstd::prelude::*;

use crate::entity::entity_state::EntityState;
use crate::entity::Entity;
use crate::fixed_point::{clamp_i32, half, half_of, saturate};
use crate::geometry::Vector2;

verus! {

/// The fastest a free body may move along the vertical axis, in steps per tick.
pub const TERMINAL_VELOCITY: i32 = 10_000;

/// What one physics step reads and writes of a body: where it is, how fast it
/// moves and which contact state it is in.
pub struct Body {
    pub location: Vector2,
    pub velocity: Vector2,
    pub state: EntityState,
}

/// `v` limited to the terminal velocity in both directions.
pub open spec fn clamp_fall(v: int) -> int {
    if v > TERMINAL_VELOCITY as int {
        TERMINAL_VELOCITY as int
    } else if v < -(TERMINAL_VELOCITY as int) {
        -(TERMINAL_VELOCITY as int)
    } else {
        v
    }
}

/// Whether the box of the given size centred on `location` overlaps the box of
/// `other` on both axes. Boxes that only touch do not overlap.
pub open spec fn boxes_overlap(location: Vector2, width: int, height: int, other: Entity) -> bool {
    &&& location.x + half(width) > other.location.x - half(other.width as int)
    &&& location.x - half(width) < other.location.x + half(other.width as int)
    &&& location.y + half(height) > other.location.y - half(other.height as int)
    &&& location.y - half(height) < other.location.y + half(other.height as int)
}

/// The vertical centre at which a box of the given height rests exactly on top
/// of `other`.
pub open spec fn resting_y(height: int, other: Entity) -> int {
    clamp_i32(other.location.y - half(other.height as int) - half(height))
}

/// The body after it has been tested against one candidate.
///
/// A candidate that is not collidable, or that the body does not overlap,
/// changes nothing. An overlap stops the body. Only if the body's centre is
/// above the candidate's is the body also lifted to rest on top of it and marked
/// as standing; an overlap from the side or from below stops the body and leaves
/// it where it is.
pub open spec fn collide(body: Body, width: int, height: int, other: Entity) -> Body {
    if other.collidable && boxes_overlap(body.location, width, height, other) {
        if body.location.y < other.location.y {
            Body {
                location: Vector2 { x: body.location.x, y: resting_y(height, other) as i32 },
                velocity: Vector2 { x: 0, y: 0 },
                state: EntityState::Standing,
            }
        } else {
            Body { location: body.location, velocity: Vector2 { x: 0, y: 0 }, state: body.state }
        }
    } else {
        body
    }
}

/// The body after it has been tested against every candidate, first to last.
pub open spec fn collide_all(body: Body, width: int, height: int, others: Seq<Entity>) -> Body
    decreases others.len(),
{
    if others.len() == 0 {
        body
    } else {
        collide(collide_all(body, width, height, others.drop_last()), width, height, others.last())
    }
}

/// Free-body physics: forces gathered over a tick become velocity, velocity
/// becomes movement, and collidable bodies stop the fall.
#[derive(Debug)]
pub struct PlayerPhysicsSystem {
    pub acceleration: Vector2,
    pub velocity: Vector2,
}

impl PlayerPhysicsSystem {
    /// The system after `force` has been added to the forces of this tick.
    pub open spec fn spec_apply_force(self, force: Vector2) -> PlayerPhysicsSystem {
        PlayerPhysicsSystem {
            acceleration: self.acceleration.spec_plus(force),
            velocity: self.velocity,
        }
    }

    /// The velocity after the gathered forces have been added to it, the
    /// vertical part limited to the terminal velocity.
    pub open spec fn integrated_velocity(self) -> Vector2 {
        Vector2 {
            x: clamp_i32(self.velocity.x as int + self.acceleration.x as int) as i32,
            y: clamp_fall(clamp_i32(self.velocity.y as int + self.acceleration.y as int)) as i32,
        }
    }

    /// The body as it stands after integration and before any collision test.
    pub open spec fn integrated(self, location: Vector2, state: EntityState) -> Body {
        Body {
            location: location.spec_plus(self.integrated_velocity()),
            velocity: self.integrated_velocity(),
            state,
        }
    }

    /// The body at the end of one step: integrated, then tested against each
    /// candidate in turn.
    pub open spec fn stepped(
        self,
        location: Vector2,
        width: int,
        height: int,
        others: Seq<Entity>,
        state: EntityState,
    ) -> Body {
        collide_all(self.integrated(location, state), width, height, others)
    }

    /// Whether a box of the given size centred on `our_location` overlaps `other`.
    pub fn overlaps_with(
        &self,
        our_location: &Vector2,
        width: i32,
        height: i32,
        other: &Entity,
    ) -> (overlap: bool)
        ensures
            overlap == boxes_overlap(*our_location, width as int, height as int, *other),
    {
        let half_width: i64 = half_of(width) as i64;
        let half_height: i64 = half_of(height) as i64;
        let other_half_width: i64 = half_of(other.width) as i64;
        let other_half_height: i64 = half_of(other.height) as i64;
        our_location.x as i64 + half_width > other.location.x as i64 - other_half_width
            && our_location.x as i64 - half_width < other.location.x as i64 + other_half_width
            && our_location.y as i64 + half_height > other.location.y as i64 - other_half_height
            && our_location.y as i64 - half_height < other.location.y as i64 + other_half_height
    }

    /// Adds `force` to the forces gathered for the coming step.
    pub fn apply_force(&mut self, force: &Vector2)
        ensures
            *final(self) == old(self).spec_apply_force(*force),
    {
        self.acceleration = self.acceleration.plus(force);
    }

    /// Advances the body by one tick.
    ///
    /// The gathered forces are added to the velocity, whose vertical part is
    /// limited to [`TERMINAL_VELOCITY`]; the velocity is added to the location;
    /// the forces are cleared. The moved box is then tested against each
    /// collidable candidate in turn, as [`collide`] describes.
    pub fn update(
        &mut self,
        location: &mut Vector2,
        width: i32,
        height: i32,
        others: &Vec<Entity>,
        state: &mut EntityState,
    )
        ensures
            final(self).acceleration == (Vector2 { x: 0, y: 0 }),
            final(self).velocity == old(self).stepped(
                *old(location),
                width as int,
                height as int,
                others@,
                *old(state),
            ).velocity,
            *final(location) == old(self).stepped(
                *old(location),
                width as int,
                height as int,
                others@,
                *old(state),
            ).location,
            *final(state) == old(self).stepped(
                *old(location),
                width as int,
                height as int,
                others@,
                *old(state),
            ).state,
            -TERMINAL_VELOCITY <= final(self).velocity.y <= TERMINAL_VELOCITY,
    {
        let ghost start = self.integrated(*location, *state);
        let mut velocity_y: i32 = saturate(self.velocity.y as i64 + self.acceleration.y as i64);
        if velocity_y > TERMINAL_VELOCITY {
            velocity_y = TERMINAL_VELOCITY;
        } else if velocity_y < -TERMINAL_VELOCITY {
            velocity_y = -TERMINAL_VELOCITY;
        }
        self.velocity = Vector2 {
            x: saturate(self.velocity.x as i64 + self.acceleration.x as i64),
            y: velocity_y,
        };
        *location = location.plus(&self.velocity);
        self.acceleration = Vector2 { x: 0, y: 0 };

        let mut index: usize = 0;
        while index < others.len()
            invariant
                index <= others.len(),
                self.acceleration == (Vector2 { x: 0, y: 0 }),
                -TERMINAL_VELOCITY <= self.velocity.y <= TERMINAL_VELOCITY,
                (Body { location: *location, velocity: self.velocity, state: *state })
                    == collide_all(start, width as int, height as int, others@.take(index as int)),
            decreases others.len() - index,
        {
            let other = &others[index];
            proof {
                assert(others@.take(index + 1).drop_last() == others@.take(index as int));
            }
            if other.collidable && self.overlaps_with(location, width, height, other) {
                self.velocity = Vector2 { x: 0, y: 0 };
                if location.y < other.location.y {
                    location.y = saturate(
                        other.location.y as i64 - half_of(other.height) as i64 - half_of(
                            height,
                        ) as i64,
                    );
                    *state = EntityState::Standing;
                }
            }
            index += 1;
        }
        proof {
            assert(others@.take(others.len() as int) == others@);
        }
    }

    /// The velocity that the last step left the body with.
    pub fn get_velocity(&self) -> (velocity: &Vector2)
        ensures
            *velocity == self.velocity,
    {
        &self.velocity
    }
}

impl Default for PlayerPhysicsSystem {
    /// A body at rest with no force on it.
    fn default() -> (system: Self)
        ensures
            system.acceleration == (Vector2 { x: 0, y: 0 }),
            system.velocity == (Vector2 { x: 0, y: 0 }),
    {
        PlayerPhysicsSystem {
            acceleration: Vector2 { x: 0, y: 0 },
            velocity: Vector2 { x: 0, y: 0 },
        }
    }
}

} // verus!
