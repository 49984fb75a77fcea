use game_template_platform::draw_system::player_draw_system::PlayerDrawSystem;
use game_template_platform::draw_system::DrawSystem;
use game_template_platform::entity::builder::EntityBuilder;
use game_template_platform::entity::entity_state::EntityState;
use game_template_platform::entity::Entity;
use game_template_platform::geometry::Vector2;
use game_template_platform::physics_system::player_physics_system::PlayerPhysicsSystem;
use game_template_platform::physics_system::PhysicsSystem;

/// World units to fixed-point steps.
fn units(value: f64) -> i32 {
    (value * 1000.0).round() as i32
}

#[test]
fn entity_builder_should_create_a_new_entity_builder() {
    let entity_builder: EntityBuilder = EntityBuilder::new();
    assert_eq!(entity_builder.next_id(), 0);
}

#[test]
fn entity_builder() {
    let mut entity_builder = EntityBuilder::new();
    let basic_entity: Entity = entity_builder.create_entity().build();

    assert_eq!(entity_builder.next_id(), 1);
    assert_eq!(basic_entity.location, Vector2::new(units(0.0), units(0.0)));
    assert_eq!(basic_entity.width, units(0.0));
    assert_eq!(basic_entity.height, units(0.0));
    assert!(matches!(basic_entity.draw_system, None));
    assert_eq!(basic_entity.affected_by_gravity, false);
    assert!(matches!(basic_entity.physics_system, None));
    assert_eq!(basic_entity.collidable, false);
    assert!(matches!(basic_entity.state, EntityState::Unset));
    assert_eq!(basic_entity.id, 0);
}

#[test]
fn ci_test_create_entity_with_location() {
    let x = units(42.0);
    let y = units(24.0);
    let expected_location = Vector2::new(x, y);
    let mut entity_builder = EntityBuilder::new();
    let entity_with_location = entity_builder.create_entity().location(x, y).build();

    assert_eq!(entity_with_location.location, expected_location);
}

#[test]
fn ci_test_create_entity_with_size() {
    let width = units(42.0);
    let height = units(24.0);
    let mut entity_builder = EntityBuilder::new();
    let entity_with_size = entity_builder.create_entity().size(width, height).build();

    assert_eq!(entity_with_size.width, width);
    assert_eq!(entity_with_size.height, height);
}

#[test]
fn ci_test_create_entity_with_draw_system() {
    let draw_system = PlayerDrawSystem;
    let mut entity_builder = EntityBuilder::new();
    let entity = entity_builder
        .create_entity()
        .draw_system(DrawSystem::Player(draw_system))
        .build();

    assert!(!matches!(entity.draw_system, None));
}

#[test]
fn ci_test_reset_entity_builder_after_build() {
    let mut entity_builder = EntityBuilder::new();
    let _basic_entity: Entity = entity_builder
        .create_entity()
        .location(units(15.0), units(156.0))
        .size(units(25.0), units(15.0))
        .draw_system(DrawSystem::Player(PlayerDrawSystem))
        .affected_by_gravity()
        .physics_system(PhysicsSystem::Player(PlayerPhysicsSystem::default()))
        .collidable()
        .state(EntityState::Standing)
        .build();

    assert_eq!(entity_builder.next_id(), 1);
    // What the builder holds now is what it builds next.
    let next: Entity = entity_builder.create_entity().build();
    assert_eq!(next.location, Vector2::new(units(0.0), units(0.0)));
    assert_eq!(next.width, units(0.0));
    assert_eq!(next.height, units(0.0));
    assert!(matches!(next.draw_system, None));
    assert_eq!(next.affected_by_gravity, false);
    assert!(next.physics_system.is_none());
    assert_eq!(next.collidable, false);
    assert!(matches!(next.state, EntityState::Unset));
    assert_eq!(next.id, 1);
}

#[test]
fn ci_test_create_entity_affected_by_gravity() {
    let mut entity_builder = EntityBuilder::new();
    let entity = entity_builder.create_entity().affected_by_gravity().build();
    assert_eq!(entity.affected_by_gravity, true);
}

#[test]
fn ci_test_entity_builder_should_create_an_entity_with_physics_system() {
    let mut entity_builder = EntityBuilder::new();
    let entity = entity_builder
        .create_entity()
        .physics_system(PhysicsSystem::Player(PlayerPhysicsSystem::default()))
        .build();
    assert!(entity.physics_system.is_some());
}

#[test]
fn ci_test_entity_builder_should_create_collidable_entity() {
    let mut entity_builder = EntityBuilder::new();
    let entity = entity_builder.create_entity().collidable().build();
    assert!(entity.collidable);
}

#[test]
fn ci_test_entity_builder_should_create_entity_with_state() {
    let mut entity_builder = EntityBuilder::new();
    let entity = entity_builder
        .create_entity()
        .state(EntityState::Falling)
        .build();
    assert!(matches!(entity.state, EntityState::Falling));
}

#[test]
fn identities_count_up_and_never_repeat() {
    let mut entity_builder = EntityBuilder::new();
    let mut last: Option<u32> = None;
    for expected in 0..100u32 {
        let entity = entity_builder.create_entity().build();
        assert_eq!(entity.id, expected);
        if let Some(previous) = last {
            assert!(entity.id > previous);
        }
        last = Some(entity.id);
    }
    assert_eq!(entity_builder.next_id(), 100);
}

#[test]
fn independent_builders_have_independent_identities() {
    let mut first = EntityBuilder::new();
    let mut second = EntityBuilder::new();
    assert_eq!(first.create_entity().build().id, 0);
    assert_eq!(first.create_entity().build().id, 1);
    assert_eq!(second.create_entity().build().id, 0);
}

#[test]
fn reset_goes_back_to_the_defaults_and_moves_on_to_the_next_identity() {
    let mut entity_builder = EntityBuilder::new();
    entity_builder
        .create_entity()
        .location(units(1.0), units(2.0))
        .size(units(3.0), units(4.0))
        .draw_system(DrawSystem::Player(PlayerDrawSystem))
        .affected_by_gravity()
        .physics_system(PhysicsSystem::Player(PlayerPhysicsSystem::default()))
        .collidable()
        .state(EntityState::Falling);
    entity_builder.reset();
    assert_eq!(entity_builder.next_id(), 1);
    let entity = entity_builder.create_entity().build();
    assert_eq!(entity.id, 1);
    assert_eq!(entity.location, Vector2::new(0, 0));
    assert_eq!(entity.width, 0);
    assert_eq!(entity.height, 0);
    assert!(entity.draw_system.is_none());
    assert_eq!(entity.affected_by_gravity, false);
    assert!(entity.physics_system.is_none());
    assert_eq!(entity.collidable, false);
    assert!(matches!(entity.state, EntityState::Unset));
    assert_eq!(entity_builder.next_id(), 2);
}

#[test]
fn entity_setters_change_one_field_each() {
    let mut entity = Entity::new();
    entity
        .set_location(units(50.0), units(65.0))
        .set_size(units(50.0), units(150.0))
        .set_collidable(true)
        .set_affected_by_gravity()
        .set_draw_system(DrawSystem::Player(PlayerDrawSystem))
        .set_physics_system(PhysicsSystem::Player(PlayerPhysicsSystem::default()));
    assert_eq!(entity.location.x, units(50.0));
    assert_eq!(entity.location.y, units(65.0));
    assert_eq!(entity.width, units(50.0));
    assert_eq!(entity.height, units(150.0));
    assert!(entity.collidable);
    assert!(entity.affected_by_gravity);
    assert!(entity.draw_system.is_some());
    assert!(entity.physics_system.is_some());
    assert_eq!(entity.id, 0);
    assert!(matches!(entity.state, EntityState::Unset));
}

#[test]
fn a_clone_has_the_data_and_no_behaviour() {
    let mut entity_builder = EntityBuilder::new();
    entity_builder.create_entity().build();
    let entity = entity_builder
        .create_entity()
        .location(units(3.0), units(4.0))
        .size(units(5.0), units(6.0))
        .collidable()
        .affected_by_gravity()
        .state(EntityState::Falling)
        .draw_system(DrawSystem::Player(PlayerDrawSystem))
        .physics_system(PhysicsSystem::Player(PlayerPhysicsSystem::default()))
        .build();
    let copy = entity.clone();
    assert_eq!(copy.location, entity.location);
    assert_eq!(copy.width, entity.width);
    assert_eq!(copy.height, entity.height);
    assert_eq!(copy.collidable, true);
    assert_eq!(copy.affected_by_gravity, true);
    assert!(matches!(copy.state, EntityState::Falling));
    assert_eq!(copy.id, 1);
    assert!(copy.draw_system.is_none());
    assert!(copy.physics_system.is_none());
    assert!(entity.draw_system.is_some());
    assert!(entity.physics_system.is_some());
}
