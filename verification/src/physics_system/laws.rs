//! What holds of every physics step, proved from its definition.

use vstd::prelude::*;

use crate::entity::entity_state::EntityState;
use crate::entity::Entity;
use crate::fixed_point::half;
use crate::geometry::Vector2;
use crate::physics_system::PhysicsSystem;
use crate::physics_system::player_physics_system::{
    boxes_overlap, collide_all, Body, PlayerPhysicsSystem, TERMINAL_VELOCITY,
};

verus! {

/// No candidate of `others` from the index `from` up to, not including, the
/// index `to` lifts a box of the given size at `location`: none of them is a
/// collidable body that the box overlaps and whose centre is below the
/// centre of the box. A candidate that the box overlaps from below or from
/// the side stops the body, and leaves it where it is.
pub open spec fn never_lifted(
    location: Vector2,
    width: int,
    height: int,
    others: Seq<Entity>,
    from: int,
    to: int,
) -> bool {
    forall|index: int|
        from <= index < to ==> !((#[trigger] others[index]).collidable && boxes_overlap(
            location,
            width,
            height,
            others[index],
        ) && location.y < others[index].location.y)
}

/// Collisions never speed a body up: a body within the terminal velocity
/// stays within it whatever it is tested against.
pub proof fn lemma_collisions_keep_terminal_velocity(
    body: Body,
    width: int,
    height: int,
    others: Seq<Entity>,
)
    requires
        -TERMINAL_VELOCITY <= body.velocity.y <= TERMINAL_VELOCITY,
    ensures
        -TERMINAL_VELOCITY <= collide_all(body, width, height, others).velocity.y
            <= TERMINAL_VELOCITY,
    decreases others.len(),
{
    if others.len() > 0 {
        lemma_collisions_keep_terminal_velocity(body, width, height, others.drop_last());
    }
}

/// Terminal velocity: after every tick, whatever the forces and whatever the
/// candidates, the vertical velocity of an entity is within the terminal
/// velocity.
pub proof fn lemma_terminal_velocity(entity: Entity, gravity: Vector2, others: Seq<Entity>)
    requires
        entity.physics_system is Some,
    ensures
        entity.spec_update(gravity, others).physics_system is Some,
        -TERMINAL_VELOCITY <= entity.spec_update(
            gravity,
            others,
        ).physics_system.unwrap().spec_velocity().y <= TERMINAL_VELOCITY,
{
    let system = entity.physics_system.unwrap();
    let forced = if entity.takes_gravity() {
        system.spec_apply_force(gravity)
    } else {
        system
    };
    match forced {
        PhysicsSystem::Player(player) => {
            lemma_collisions_keep_terminal_velocity(
                player.integrated(entity.location, entity.state),
                entity.width as int,
                entity.height as int,
                others,
            );
        },
        PhysicsSystem::Static => {},
    }
}

/// A body that no candidate lifts comes out of the collision tests where it
/// went in and in the state in which it went in, with the velocity that it
/// had or with none.
pub proof fn lemma_never_lifted(body: Body, width: int, height: int, others: Seq<Entity>)
    requires
        never_lifted(body.location, width, height, others, 0, others.len() as int),
    ensures
        collide_all(body, width, height, others).location == body.location,
        collide_all(body, width, height, others).state == body.state,
        collide_all(body, width, height, others).velocity == body.velocity || collide_all(
            body,
            width,
            height,
            others,
        ).velocity == (Vector2 { x: 0, y: 0 }),
    decreases others.len(),
{
    if others.len() > 0 {
        let before = others.drop_last();
        assert forall|index: int| 0 <= index < before.len() implies !((
        #[trigger] before[index]).collidable && boxes_overlap(
            body.location,
            width,
            height,
            before[index],
        ) && body.location.y < before[index].location.y) by {
            assert(before[index] == others[index]);
        }
        lemma_never_lifted(body, width, height, before);
        assert(others.last() == others[others.len() - 1]);
    }
}

/// The body at rest on top of `platform`: where it was along the horizontal
/// axis, lifted so that its lower edge meets the platform's upper edge, without
/// velocity, standing.
pub open spec fn rested(body: Body, height: int, platform: Entity) -> Body {
    Body {
        location: Vector2 {
            x: body.location.x,
            y: (platform.location.y - half(platform.height as int) - half(height)) as i32,
        },
        velocity: Vector2 { x: 0, y: 0 },
        state: EntityState::Standing,
    }
}

/// The body after the first `count` candidates, where the candidate at
/// `platform` catches it and no other candidate lifts it.
proof fn lemma_rests_after(
    body: Body,
    width: int,
    height: int,
    others: Seq<Entity>,
    platform: int,
    count: int,
)
    requires
        0 <= platform < count <= others.len(),
        others[platform].collidable,
        boxes_overlap(body.location, width, height, others[platform]),
        body.location.y < others[platform].location.y,
        i32::MIN <= others[platform].location.y - half(others[platform].height as int) - half(
            height,
        ) <= i32::MAX,
        never_lifted(body.location, width, height, others, 0, platform),
        never_lifted(
            rested(body, height, others[platform]).location,
            width,
            height,
            others,
            platform + 1,
            others.len() as int,
        ),
    ensures
        collide_all(body, width, height, others.take(count)) == rested(
            body,
            height,
            others[platform],
        ),
    decreases count,
{
    let seen = others.take(count);
    assert(seen.drop_last() =~= others.take(count - 1));
    assert(seen.last() == others[count - 1]);
    if count == platform + 1 {
        let before = others.take(platform);
        assert forall|index: int| 0 <= index < before.len() implies !((
        #[trigger] before[index]).collidable && boxes_overlap(
            body.location,
            width,
            height,
            before[index],
        ) && body.location.y < before[index].location.y) by {
            assert(before[index] == others[index]);
        }
        lemma_never_lifted(body, width, height, before);
    } else {
        lemma_rests_after(body, width, height, others, platform, count - 1);
    }
}

/// Resting: a body whose box, after integration, overlaps a collidable
/// platform from above ends the tick resting exactly on top of the platform,
/// without velocity, standing, unless another candidate lifts it: one before
/// the platform the body as it is after integration, or one after the
/// platform the body as it rests.
///
/// The resting position must be one that a coordinate can hold.
pub proof fn lemma_resting(
    system: PlayerPhysicsSystem,
    location: Vector2,
    width: int,
    height: int,
    state: EntityState,
    others: Seq<Entity>,
    platform: int,
)
    requires
        0 <= platform < others.len(),
        others[platform].collidable,
        boxes_overlap(system.integrated(location, state).location, width, height, others[platform]),
        system.integrated(location, state).location.y < others[platform].location.y,
        i32::MIN <= others[platform].location.y - half(others[platform].height as int) - half(
            height,
        ) <= i32::MAX,
        never_lifted(system.integrated(location, state).location, width, height, others, 0, platform),
        never_lifted(
            rested(system.integrated(location, state), height, others[platform]).location,
            width,
            height,
            others,
            platform + 1,
            others.len() as int,
        ),
    ensures
        ({
            let after = system.stepped(location, width, height, others, state);
            &&& after.location.y == others[platform].location.y - half(
                others[platform].height as int,
            ) - half(height)
            &&& after.location.x == system.integrated(location, state).location.x
            &&& after.velocity == (Vector2 { x: 0, y: 0 })
            &&& after.state == EntityState::Standing
        }),
{
    lemma_rests_after(
        system.integrated(location, state),
        width,
        height,
        others,
        platform,
        others.len() as int,
    );
    assert(others.take(others.len() as int) =~= others);
}

/// The body of a free-body entity as it stands in the coming tick after
/// integration and before any collision test: gravity is part of the forces
/// if the entity takes it.
pub open spec fn next_body(entity: Entity, gravity: Vector2) -> Body
    recommends
        entity.physics_system matches Some(PhysicsSystem::Player(_)),
{
    let system = entity.physics_system->Some_0->Player_0;
    let forced = if entity.takes_gravity() {
        system.spec_apply_force(gravity)
    } else {
        system
    };
    forced.integrated(entity.location, entity.state)
}

/// Resting, for an entity in a tick: a free-body entity whose box in the
/// coming tick overlaps a collidable platform from above ends the tick
/// resting exactly on top of the platform, without velocity, standing,
/// unless another candidate lifts it.
///
/// The resting position must be one that a coordinate can hold.
pub proof fn lemma_entity_comes_to_rest(
    entity: Entity,
    gravity: Vector2,
    others: Seq<Entity>,
    platform: int,
)
    requires
        entity.physics_system matches Some(PhysicsSystem::Player(_)),
        0 <= platform < others.len(),
        others[platform].collidable,
        boxes_overlap(
            next_body(entity, gravity).location,
            entity.width as int,
            entity.height as int,
            others[platform],
        ),
        next_body(entity, gravity).location.y < others[platform].location.y,
        i32::MIN <= others[platform].location.y - half(others[platform].height as int) - half(
            entity.height as int,
        ) <= i32::MAX,
        never_lifted(
            next_body(entity, gravity).location,
            entity.width as int,
            entity.height as int,
            others,
            0,
            platform,
        ),
        never_lifted(
            rested(next_body(entity, gravity), entity.height as int, others[platform]).location,
            entity.width as int,
            entity.height as int,
            others,
            platform + 1,
            others.len() as int,
        ),
    ensures
        ({
            let after = entity.spec_update(gravity, others);
            &&& after.location.y == others[platform].location.y - half(
                others[platform].height as int,
            ) - half(entity.height as int)
            &&& after.location.x == next_body(entity, gravity).location.x
            &&& after.physics_system is Some
            &&& after.physics_system.unwrap().spec_velocity() == (Vector2 { x: 0, y: 0 })
            &&& after.state == EntityState::Standing
        }),
{
    let system = entity.physics_system->Some_0->Player_0;
    let forced = if entity.takes_gravity() {
        system.spec_apply_force(gravity)
    } else {
        system
    };
    lemma_resting(
        forced,
        entity.location,
        entity.width as int,
        entity.height as int,
        entity.state,
        others,
        platform,
    );
}

} // verus!
