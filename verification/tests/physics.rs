use game_template_platform::draw_system::platform_draw_system::PlatformDrawSystem;
use game_template_platform::draw_system::player_draw_system::PlayerDrawSystem;
use game_template_platform::draw_system::{DrawCommand, DrawSystem, Drawable};
use game_template_platform::entity::builder::EntityBuilder;
use game_template_platform::entity::entity_state::EntityState;
use game_template_platform::entity::Entity;
use game_template_platform::geometry::{Color, Rect, Vector2};
use game_template_platform::physics_system::player_physics_system::{
    PlayerPhysicsSystem, TERMINAL_VELOCITY,
};
use game_template_platform::physics_system::PhysicsSystem;

/// World units to fixed-point steps.
fn units(value: f64) -> i32 {
    (value * 1000.0).round() as i32
}

fn platform(x: f64, y: f64, width: f64, height: f64) -> Entity {
    let mut entity = Entity::new();
    entity
        .set_location(units(x), units(y))
        .set_size(units(width), units(height))
        .set_collidable(true);
    entity
}

#[test]
fn terminal_velocity_is_ten_units_a_tick() {
    assert_eq!(TERMINAL_VELOCITY, units(10.0));
}

#[test]
fn forces_add_up_and_last_one_tick() {
    let mut system = PlayerPhysicsSystem::default();
    let mut location = Vector2::new(units(1.0), units(2.0));
    let mut state = EntityState::Unset;
    system.apply_force(&Vector2::new(units(0.5), units(0.15)));
    system.apply_force(&Vector2::new(units(0.25), units(0.15)));
    system.update(&mut location, units(1.0), units(1.0), &vec![], &mut state);
    assert_eq!(*system.get_velocity(), Vector2::new(units(0.75), units(0.3)));
    assert_eq!(location, Vector2::new(units(1.75), units(2.3)));
    assert_eq!(system.acceleration, Vector2::new(0, 0));
    // No force this tick: the velocity stays, the body moves on.
    system.update(&mut location, units(1.0), units(1.0), &vec![], &mut state);
    assert_eq!(*system.get_velocity(), Vector2::new(units(0.75), units(0.3)));
    assert_eq!(location, Vector2::new(units(2.5), units(2.6)));
    assert!(matches!(state, EntityState::Unset));
}

#[test]
fn the_vertical_velocity_never_passes_the_terminal_velocity() {
    let mut system = PlayerPhysicsSystem::default();
    let mut location = Vector2::new(0, 0);
    let mut state = EntityState::Falling;
    for _ in 0..200 {
        system.apply_force(&Vector2::new(0, units(0.15)));
        system.update(&mut location, units(1.0), units(1.0), &vec![], &mut state);
        assert!(system.get_velocity().y.abs() <= units(10.0));
    }
    assert_eq!(system.get_velocity().y, units(10.0));

    let mut rising = PlayerPhysicsSystem::default();
    rising.apply_force(&Vector2::new(units(25.0), units(-25.0)));
    rising.update(&mut location, units(1.0), units(1.0), &vec![], &mut state);
    // Only the vertical part is limited.
    assert_eq!(*rising.get_velocity(), Vector2::new(units(25.0), units(-10.0)));

    let mut extreme = PlayerPhysicsSystem::default();
    extreme.apply_force(&Vector2::new(i32::MAX, i32::MAX));
    extreme.apply_force(&Vector2::new(i32::MAX, i32::MAX));
    let mut far = Vector2::new(i32::MAX, i32::MAX);
    extreme.update(&mut far, 0, 0, &vec![], &mut state);
    assert_eq!(*extreme.get_velocity(), Vector2::new(i32::MAX, units(10.0)));
    assert_eq!(far, Vector2::new(i32::MAX, i32::MAX));
}

#[test]
fn overlap_is_strict_on_both_axes() {
    let system = PlayerPhysicsSystem::default();
    let other = platform(10.0, 10.0, 4.0, 2.0);
    let overlaps = |x: f64, y: f64| {
        system.overlaps_with(&Vector2::new(units(x), units(y)), units(2.0), units(2.0), &other)
    };
    assert!(overlaps(10.0, 10.0));
    assert!(overlaps(7.001, 10.0));
    assert!(!overlaps(7.0, 10.0));
    assert!(overlaps(12.999, 10.0));
    assert!(!overlaps(13.0, 10.0));
    assert!(overlaps(10.0, 8.001));
    assert!(!overlaps(10.0, 8.0));
    assert!(overlaps(10.0, 11.999));
    assert!(!overlaps(10.0, 12.0));
    assert!(!overlaps(0.0, 10.0));
}

#[test]
fn landing_from_above_rests_on_top() {
    let ground = platform(50.0, 125.0, 50.0, 50.0);
    let mut system = PlayerPhysicsSystem::default();
    let mut location = Vector2::new(units(50.0), units(49.0));
    let mut state = EntityState::Falling;
    system.apply_force(&Vector2::new(units(1.0), units(3.0)));
    system.update(
        &mut location,
        units(50.0),
        units(100.0),
        &vec![ground],
        &mut state,
    );
    // 125 - 50 / 2 - 100 / 2
    assert_eq!(location, Vector2::new(units(51.0), units(50.0)));
    assert_eq!(*system.get_velocity(), Vector2::new(0, 0));
    assert!(matches!(state, EntityState::Standing));
}

#[test]
fn an_overlap_from_below_or_beside_stops_the_body_where_it_is() {
    let block = platform(50.0, 50.0, 20.0, 20.0);
    let mut system = PlayerPhysicsSystem::default();
    let mut location = Vector2::new(units(50.0), units(65.0));
    let mut state = EntityState::Falling;
    system.apply_force(&Vector2::new(0, units(-1.0)));
    system.update(
        &mut location,
        units(10.0),
        units(10.0),
        &vec![block],
        &mut state,
    );
    assert_eq!(location, Vector2::new(units(50.0), units(64.0)));
    assert_eq!(*system.get_velocity(), Vector2::new(0, 0));
    assert!(matches!(state, EntityState::Falling));
}

#[test]
fn candidates_that_are_not_collidable_are_passed_through() {
    let mut ghost = platform(50.0, 50.0, 20.0, 20.0);
    ghost.set_collidable(false);
    let mut system = PlayerPhysicsSystem::default();
    let mut location = Vector2::new(units(50.0), units(45.0));
    let mut state = EntityState::Falling;
    system.apply_force(&Vector2::new(0, units(1.0)));
    system.update(
        &mut location,
        units(10.0),
        units(10.0),
        &vec![ghost],
        &mut state,
    );
    assert_eq!(location, Vector2::new(units(50.0), units(46.0)));
    assert_eq!(*system.get_velocity(), Vector2::new(0, units(1.0)));
    assert!(matches!(state, EntityState::Falling));
}

#[test]
fn candidates_are_tested_in_order_against_the_body_as_it_stands() {
    // The first platform lifts the body clear of the second.
    let upper = platform(0.0, 20.0, 10.0, 10.0);
    let lower = platform(0.0, 24.0, 10.0, 2.0);
    let mut system = PlayerPhysicsSystem::default();
    let mut location = Vector2::new(0, units(18.0));
    let mut state = EntityState::Unset;
    system.update(
        &mut location,
        units(10.0),
        units(12.0),
        &vec![upper, lower],
        &mut state,
    );
    assert_eq!(location, Vector2::new(0, units(9.0)));
    assert!(matches!(state, EntityState::Standing));
}

#[test]
fn a_static_body_never_moves() {
    let mut system = PhysicsSystem::Static;
    let mut location = Vector2::new(units(5.0), units(6.0));
    let mut state = EntityState::Unset;
    system.apply_force(&Vector2::new(units(1.0), units(1.0)));
    system.update(
        &mut location,
        units(1.0),
        units(1.0),
        &vec![platform(5.0, 6.0, 4.0, 4.0)],
        &mut state,
    );
    assert_eq!(location, Vector2::new(units(5.0), units(6.0)));
    assert_eq!(system.get_velocity(), Vector2::new(0, 0));
    assert!(matches!(state, EntityState::Unset));
}

#[test]
fn gravity_acts_unless_the_entity_stands() {
    let gravity = Vector2::new(0, units(0.15));
    let mut entity_builder = EntityBuilder::new();

    let mut falling = entity_builder
        .create_entity()
        .affected_by_gravity()
        .physics_system(PhysicsSystem::Player(PlayerPhysicsSystem::default()))
        .build();
    assert_eq!(falling.update(&gravity, &vec![]), false);
    assert_eq!(falling.location, Vector2::new(0, units(0.15)));

    let mut standing = entity_builder
        .create_entity()
        .affected_by_gravity()
        .state(EntityState::Standing)
        .physics_system(PhysicsSystem::Player(PlayerPhysicsSystem::default()))
        .build();
    assert_eq!(standing.update(&gravity, &vec![]), true);
    assert_eq!(standing.location, Vector2::new(0, 0));
    assert!(matches!(standing.state, EntityState::Standing));

    let mut weightless = entity_builder
        .create_entity()
        .physics_system(PhysicsSystem::Player(PlayerPhysicsSystem::default()))
        .build();
    assert_eq!(weightless.update(&gravity, &vec![]), true);
    assert_eq!(weightless.location, Vector2::new(0, 0));

    let mut inert = entity_builder
        .create_entity()
        .affected_by_gravity()
        .location(units(1.0), units(1.0))
        .build();
    assert_eq!(inert.update(&gravity, &vec![platform(1.0, 1.0, 5.0, 5.0)]), true);
    assert_eq!(inert.location, Vector2::new(units(1.0), units(1.0)));
    assert!(matches!(inert.state, EntityState::Unset));
}

#[test]
fn the_player_is_drawn_ahead_of_its_location() {
    let mut system = PlayerPhysicsSystem::default();
    system.velocity = Vector2::new(units(2.0), units(-4.0));
    let physics = Some(PhysicsSystem::Player(system));
    let location = Vector2::new(units(100.0), units(200.0));
    let command = PlayerDrawSystem.draw(&location, (units(50.0), units(100.0)), units(0.5), &physics);
    assert_eq!(
        command,
        DrawCommand {
            drawable: Drawable::Player,
            dest: Vector2::new(units(101.0), units(198.0)),
            color: None,
            border: Rect::new(units(75.0), units(150.0), units(50.0), units(100.0)),
        }
    );
    let still = PlayerDrawSystem.draw(&location, (units(50.0), units(100.0)), units(0.5), &None);
    assert_eq!(still.dest, location);
}

#[test]
fn a_platform_is_drawn_where_it_is() {
    let red = Color::new(255, 0, 0, 255);
    let system = DrawSystem::Platform(PlatformDrawSystem::new(red));
    let mut moving = PlayerPhysicsSystem::default();
    moving.velocity = Vector2::new(units(2.0), units(2.0));
    let location = Vector2::new(units(500.0), units(500.0));
    let command = system.draw(
        &location,
        (units(50.0), units(50.0)),
        units(0.9),
        &Some(PhysicsSystem::Player(moving)),
    );
    assert_eq!(
        command,
        DrawCommand {
            drawable: Drawable::Platform,
            dest: location,
            color: Some(red),
            border: Rect::new(units(475.0), units(475.0), units(50.0), units(50.0)),
        }
    );
}

#[test]
fn an_entity_without_a_draw_system_draws_nothing() {
    let mut entity = Entity::new();
    assert!(entity.draw(0).is_none());
    entity.set_draw_system(DrawSystem::Player(PlayerDrawSystem));
    entity.set_location(units(1.0), units(2.0));
    let command = entity.draw(0).unwrap();
    assert_eq!(command.dest, Vector2::new(units(1.0), units(2.0)));
    assert_eq!(command.drawable, Drawable::Player);
}

#[test]
fn a_later_candidate_beside_the_resting_body_does_not_move_it() {
    // After the platform has caught the body, a wall that the resting box
    // overlaps from the side stops it once more and leaves it where it is.
    let ground = platform(50.0, 125.0, 50.0, 50.0);
    let wall = platform(80.0, 40.0, 20.0, 200.0);
    let mut system = PlayerPhysicsSystem::default();
    let mut location = Vector2::new(units(50.0), units(49.0));
    let mut state = EntityState::Falling;
    system.apply_force(&Vector2::new(0, units(3.0)));
    system.update(
        &mut location,
        units(50.0),
        units(100.0),
        &vec![ground, wall],
        &mut state,
    );
    assert_eq!(location, Vector2::new(units(50.0), units(50.0)));
    assert_eq!(*system.get_velocity(), Vector2::new(0, 0));
    assert!(matches!(state, EntityState::Standing));
}
