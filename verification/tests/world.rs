use game_template_platform::camera::Camera;
use game_template_platform::draw_system::player_draw_system::PlayerDrawSystem;
use game_template_platform::draw_system::{DrawSystem, Drawable};
use game_template_platform::entity::builder::EntityBuilder;
use game_template_platform::entity::entity_data::EntityData;
use game_template_platform::entity::entity_state::EntityState;
use game_template_platform::entity::entity_type::EntityType;
use game_template_platform::entity::Entity;
use game_template_platform::geometry::{Color, Vector2};
use game_template_platform::level::Level;
use game_template_platform::physics_system::player_physics_system::PlayerPhysicsSystem;
use game_template_platform::physics_system::PhysicsSystem;
use game_template_platform::world::grid::{Grid, GridError};
use game_template_platform::world::World;

/// World units to fixed-point steps.
fn units(value: f64) -> i32 {
    (value * 1000.0).round() as i32
}

fn cell_ids(grid: &Grid, column: usize, row: usize) -> Vec<u32> {
    grid.cell(column, row)
        .unwrap()
        .get_all()
        .iter()
        .map(|entity| entity.id)
        .collect()
}

fn free_body(builder: &mut EntityBuilder, x: f64, y: f64, width: f64, height: f64) -> Entity {
    builder
        .create_entity()
        .location(units(x), units(y))
        .size(units(width), units(height))
        .draw_system(DrawSystem::Player(PlayerDrawSystem))
        .affected_by_gravity()
        .physics_system(PhysicsSystem::Player(PlayerPhysicsSystem::default()))
        .build()
}

fn platform_data(x: f64, y: f64, width: f64, height: f64) -> EntityData {
    EntityData::new(
        units(x),
        units(y),
        units(width),
        units(height),
        Color::white(),
        EntityType::Platform,
    )
}

/// A world of 500 by 500 units in cells of 50 by 50, with the given level
/// loaded.
fn world_with(gravity: f64, datas: Vec<EntityData>, builder: &mut EntityBuilder) -> World {
    let mut world = World::new();
    world
        .set_gravity(units(gravity))
        .set_size(units(500.0), units(500.0))
        .set_unit_size(units(50.0), units(50.0))
        .add_level(Level::new(units(500.0), units(500.0), datas))
        .set_camera(Camera::new(units(250.0), units(250.0), units(400.0), units(400.0)));
    world.build(builder).unwrap();
    world
}

#[test]
fn ci_test_add_entity_to_world() {
    let mut world = World::default();
    world.set_unit_size(units(50.0), units(50.0));
    world.reset_grid(world.width, world.height);

    assert_eq!(world.grid().unwrap().get_all_cloned().len(), 0);
    let entity = Entity::default();
    world.add_entity(entity).unwrap();
    assert_eq!(world.grid().unwrap().get_all_cloned().len(), 1);
}

#[test]
fn world_ci_test_add_gravity_to_the_world() {
    let mut world: World = World::default();
    let mut gravity = Vector2::new(units(0.0), units(0.0));
    assert_eq!(world.gravity(), gravity);
    gravity.y = units(5.0);
    world.set_gravity(units(5.0));
    assert_eq!(world.gravity(), gravity);
}

#[test]
fn world_ci_test_set_world_size() {
    let mut world: World = World::default();
    assert_eq!(world.width, units(5000.0));
    assert_eq!(world.height, units(5000.0));
    world.set_size(units(10_000.0), units(7_000.0));
    assert_eq!(world.width, units(10_000.0));
    assert_eq!(world.height, units(7_000.0));
}

#[test]
fn world_ci_test_set_world_unit_size() {
    let mut world = World::default();
    assert_eq!(world.unit_width, units(1.0));
    assert_eq!(world.unit_height, units(1.0));
    world.set_unit_size(units(50.0), units(75.0));
    assert_eq!(world.unit_width, units(50.0));
    assert_eq!(world.unit_height, units(75.0));
}

#[test]
fn mod_ci_test_add_gravity_to_the_world() {
    let mut world: World = World::default();
    let mut gravity = Vector2::new(units(0.0), units(0.0));
    assert_eq!(world.gravity(), gravity);
    gravity.y = units(5.0);
    world.set_gravity(units(5.0));
    assert_eq!(world.gravity(), gravity);
}

#[test]
fn mod_ci_test_set_world_size() {
    let mut world: World = World::default();
    assert_eq!(world.width, units(5000.0));
    assert_eq!(world.height, units(5000.0));
    world.set_size(units(10_000.0), units(7_000.0));
    assert_eq!(world.width, units(10_000.0));
    assert_eq!(world.height, units(7_000.0));
}

#[test]
fn mod_ci_test_set_world_unit_size() {
    let mut world = World::default();
    assert_eq!(world.unit_width, units(1.0));
    assert_eq!(world.unit_height, units(1.0));
    world.set_unit_size(units(50.0), units(75.0));
    assert_eq!(world.unit_width, units(50.0));
    assert_eq!(world.unit_height, units(75.0));
}

#[test]
fn ci_test_add_level() {
    let mut world = World::default();
    assert_eq!(world.levels().len(), 0);
    let new_level = Level::new(units(100.0), units(100.0), vec![]);
    world.add_level(new_level);
    assert_eq!(world.levels()[0].width, units(100.0));
    assert_eq!(world.current_level_index(), 0);
}

#[test]
fn ci_test_set_camera() {
    let mut world = World::default();
    let default_camera = Camera::default();
    assert_eq!(world.camera(), default_camera);
    let camera = Camera::new(units(10.0), units(15.0), units(50.0), units(50.0));
    let _updated_world: &mut World = world.set_camera(camera);
    assert_eq!(world.camera(), camera);
}

#[test]
fn a_world_without_a_grid_takes_nothing_and_draws_nothing() {
    let mut world = World::new();
    assert!(world.grid().is_none());
    assert!(world.add_entity(Entity::new()).is_ok());
    assert!(world.grid().is_none());
    assert!(world.update().is_ok());
    assert_eq!(world.draw(0).unwrap().len(), 0);
}

#[test]
fn loading_a_level_builds_its_platforms_in_order() {
    let mut builder = EntityBuilder::new();
    builder.create_entity().build();
    let mut world = World::new();
    world
        .set_unit_size(units(50.0), units(50.0))
        .add_level(Level::new(
            units(500.0),
            units(500.0),
            vec![
                platform_data(50.0, 450.0, 50.0, 50.0),
                EntityData::new(0, 0, 0, 0, Color::white(), EntityType::Player),
                platform_data(475.0, 450.0, 50.0, 50.0),
                platform_data(500.0, 450.0, 50.0, 50.0),
                platform_data(60.0, 460.0, 10.0, 20.0),
            ],
        ));
    let outside = world.build(&mut builder).unwrap_err();
    assert_eq!(outside.error, GridError::CellOutOfBounds);
    assert_eq!(outside.entities.len(), 1);
    assert_eq!(outside.entities[0].id, 3);
    assert_eq!(
        outside.entities[0].location,
        Vector2::new(units(500.0), units(450.0))
    );
    let grid = world.grid().unwrap();
    assert_eq!(grid.width(), 10);
    assert_eq!(grid.height(), 10);
    assert_eq!(cell_ids(grid, 1, 9), vec![1, 4]);
    assert_eq!(cell_ids(grid, 9, 9), vec![2]);
    assert_eq!(grid.get_all_cloned().len(), 3);
    assert_eq!(builder.next_id(), 5);
    let platform = grid.cell(1, 9).unwrap().get_all()[1];
    assert!(platform.collidable);
    assert!(platform.physics_system.is_none());
    assert!(platform.draw_system.is_none());
    assert_eq!(platform.location, Vector2::new(units(60.0), units(460.0)));
    assert_eq!(platform.width, units(10.0));
    assert_eq!(platform.height, units(20.0));
}

#[test]
fn a_platform_outside_the_level_is_reported_and_the_rest_is_loaded() {
    let mut builder = EntityBuilder::new();
    let mut world = World::new();
    world
        .set_unit_size(units(50.0), units(50.0))
        .add_level(Level::new(
            units(100.0),
            units(100.0),
            vec![
                platform_data(25.0, 25.0, 50.0, 50.0),
                platform_data(125.0, 25.0, 50.0, 50.0),
                platform_data(75.0, 75.0, 50.0, 50.0),
            ],
        ));
    let outside = world.build(&mut builder).unwrap_err();
    assert_eq!(outside.error, GridError::CellOutOfBounds);
    assert_eq!(
        outside.entities.iter().map(|entity| entity.id).collect::<Vec<u32>>(),
        vec![1]
    );
    let grid = world.grid().unwrap();
    assert_eq!(cell_ids(grid, 0, 0), vec![0]);
    assert_eq!(cell_ids(grid, 1, 1), vec![2]);
    assert_eq!(builder.next_id(), 3);
}

#[test]
fn an_entity_comes_to_rest_on_a_platform() {
    let mut builder = EntityBuilder::new();
    // The top of the platform is at y = 100.
    let mut world = world_with(0.15, vec![platform_data(50.0, 125.0, 50.0, 50.0)], &mut builder);
    let player = free_body(&mut builder, 50.0, 0.0, 50.0, 100.0);
    let id = player.id;
    world.add_entity(player).unwrap();

    let mut last_y = units(0.0);
    let mut ticks_standing = 0;
    for _ in 0..200 {
        assert!(world.update().is_ok());
        let grid = world.grid().unwrap();
        let copies = grid.get_all_cloned();
        let body = copies.iter().find(|entity| entity.id == id).unwrap();
        if matches!(body.state, EntityState::Standing) {
            ticks_standing += 1;
            // 100 - 100 / 2
            assert_eq!(body.location.y, units(50.0));
        } else {
            assert!(body.location.y > last_y);
            assert!(body.location.y - last_y <= units(10.0));
        }
        last_y = body.location.y;
    }
    assert!(ticks_standing > 100);
    let grid = world.grid().unwrap();
    let cell = grid.cell(1, 1).unwrap().get_all();
    let body = cell.iter().find(|entity| entity.id == id).unwrap();
    assert_eq!(body.location, Vector2::new(units(50.0), units(50.0)));
    assert!(matches!(body.state, EntityState::Standing));
    match &body.physics_system {
        Some(system) => assert_eq!(system.get_velocity(), Vector2::new(0, 0)),
        None => panic!("the body has lost its physics system"),
    }
}

#[test]
fn an_entity_that_crosses_into_another_cell_is_moved_there() {
    let mut builder = EntityBuilder::new();
    let mut world = world_with(4.0, vec![], &mut builder);
    let mover = free_body(&mut builder, 25.0, 45.0, 10.0, 10.0);
    let stayer = builder
        .create_entity()
        .location(units(10.0), units(10.0))
        .build();
    world.add_entity(mover).unwrap();
    world.add_entity(stayer).unwrap();
    assert_eq!(cell_ids(world.grid().unwrap(), 0, 0), vec![0, 1]);

    assert!(world.update().is_ok());
    // 45 + 4 = 49: still in the first row.
    assert_eq!(cell_ids(world.grid().unwrap(), 0, 0), vec![0, 1]);
    assert!(world.update().is_ok());
    // 49 + 8 = 57: in the second row.
    let grid = world.grid().unwrap();
    assert_eq!(cell_ids(grid, 0, 0), vec![1]);
    assert_eq!(cell_ids(grid, 0, 1), vec![0]);
    assert_eq!(
        grid.cell(0, 1).unwrap().get_all()[0].location,
        Vector2::new(units(25.0), units(57.0))
    );
}

#[test]
fn after_every_tick_each_entity_sits_in_the_cell_of_its_location() {
    let mut builder = EntityBuilder::new();
    let mut world = world_with(
        3.7,
        vec![
            platform_data(120.0, 300.0, 100.0, 20.0),
            platform_data(330.0, 200.0, 60.0, 20.0),
        ],
        &mut builder,
    );
    for (x, y) in [(20.0, 5.0), (110.0, 17.0), (130.0, 120.0), (333.0, 1.0), (480.0, 77.0)] {
        let body = free_body(&mut builder, x, y, 20.0, 30.0);
        world.add_entity(body).unwrap();
    }
    for _ in 0..60 {
        let _ = world.update();
        let grid = world.grid().unwrap();
        for row in 0..grid.height() {
            for column in 0..grid.width() {
                for entity in grid.cell(column, row).unwrap().get_all() {
                    assert_eq!(
                        grid.get_coordinates(entity.location.x, entity.location.y),
                        Ok((column, row))
                    );
                }
            }
        }
    }
}

#[test]
fn an_entity_that_falls_out_of_the_world_is_reported_and_dropped() {
    let mut builder = EntityBuilder::new();
    let mut world = world_with(10.0, vec![platform_data(25.0, 25.0, 10.0, 10.0)], &mut builder);
    let body = free_body(&mut builder, 300.0, 485.0, 10.0, 10.0);
    world.add_entity(body).unwrap();
    assert!(world.update().is_ok());
    assert_eq!(world.grid().unwrap().get_all_cloned().len(), 2);
    // 485 + 10 + 10 = 505, the fall being held to the terminal velocity:
    // below the last row.
    let outside = world.update().unwrap_err();
    assert_eq!(outside.error, GridError::CellOutOfBounds);
    assert_eq!(outside.entities.len(), 1);
    assert_eq!(outside.entities[0].id, 1);
    assert_eq!(
        outside.entities[0].location,
        Vector2::new(units(300.0), units(505.0))
    );
    assert!(outside.entities[0].physics_system.is_some());
    let left = world.grid().unwrap().get_all_cloned();
    assert_eq!(left.len(), 1);
    assert_eq!(left[0].id, 0);
    assert!(world.update().is_ok());
}

#[test]
fn every_entity_sees_the_others_as_they_were_before_the_tick() {
    // Two collidable free bodies, one above the other. Whichever is advanced
    // first, each is tested against where the other was before the tick.
    let mut builder = EntityBuilder::new();
    let mut world = world_with(5.0, vec![], &mut builder);
    let mut upper = free_body(&mut builder, 100.0, 100.0, 10.0, 10.0);
    upper.set_collidable(true);
    let mut lower = free_body(&mut builder, 100.0, 112.0, 10.0, 10.0);
    lower.set_collidable(true);
    world.add_entity(lower).unwrap();
    world.add_entity(upper).unwrap();
    let _ = world.update();
    let copies = world.grid().unwrap().get_all_cloned();
    let upper_after = copies.iter().find(|entity| entity.id == 0).unwrap();
    let lower_after = copies.iter().find(|entity| entity.id == 1).unwrap();
    // The upper body moved to 105 and overlaps the lower one as it was at
    // 112: it rests on it at 112 - 5 - 5.
    assert_eq!(upper_after.location.y, units(102.0));
    assert!(matches!(upper_after.state, EntityState::Standing));
    // The lower body moved to 117, where it overlaps its own old box from
    // below: it is stopped and stays there; the upper body as it was at 100
    // is clear of it.
    assert_eq!(lower_after.location.y, units(117.0));
    assert!(!matches!(lower_after.state, EntityState::Standing));
}

#[test]
fn the_camera_decides_what_is_drawn() {
    let mut builder = EntityBuilder::new();
    let mut world = world_with(0.0, vec![platform_data(75.0, 75.0, 50.0, 50.0)], &mut builder);
    let seen = free_body(&mut builder, 125.0, 125.0, 10.0, 10.0);
    let unseen = free_body(&mut builder, 425.0, 425.0, 10.0, 10.0);
    world.add_entity(unseen).unwrap();
    world.add_entity(seen).unwrap();

    world.set_camera(Camera::new(units(100.0), units(100.0), units(100.0), units(100.0)));
    let commands = world.draw(units(0.5)).unwrap();
    // The platform has no draw system, the far body is not in view.
    assert_eq!(commands.len(), 1);
    assert_eq!(commands[0].drawable, Drawable::Player);
    assert_eq!(commands[0].dest, Vector2::new(units(125.0), units(125.0)));

    world.set_camera(Camera::new(units(250.0), units(250.0), units(499.0), units(499.0)));
    assert_eq!(world.draw(0).unwrap().len(), 2);

    world.set_camera(Camera::new(0, 0, units(100.0), units(100.0)));
    assert_eq!(world.draw(0).err(), Some(GridError::CellOutOfBounds));
}

#[test]
fn drawing_runs_ahead_by_the_lag_and_changes_nothing() {
    let mut builder = EntityBuilder::new();
    let mut world = world_with(2.0, vec![], &mut builder);
    let body = free_body(&mut builder, 125.0, 125.0, 10.0, 10.0);
    world.add_entity(body).unwrap();
    world.update().unwrap();
    let at_tick = world.draw(0).unwrap();
    assert_eq!(at_tick[0].dest, Vector2::new(units(125.0), units(127.0)));
    let half_way = world.draw(units(0.5)).unwrap();
    assert_eq!(half_way[0].dest, Vector2::new(units(125.0), units(128.0)));
    assert_eq!(half_way[0].border, at_tick[0].border);
    let again = world.draw(0).unwrap();
    assert_eq!(again, at_tick);
}

#[test]
fn an_entity_can_be_taken_out_of_the_world() {
    let mut builder = EntityBuilder::new();
    let mut world = world_with(0.0, vec![platform_data(75.0, 75.0, 50.0, 50.0)], &mut builder);
    let body = free_body(&mut builder, 80.0, 60.0, 10.0, 10.0);
    world.add_entity(body).unwrap();
    let at = Vector2::new(units(80.0), units(60.0));
    assert!(world.remove_entity(7, at).is_none());
    assert!(world.remove_entity(1, Vector2::new(units(10.0), units(10.0))).is_none());
    assert!(world.remove_entity(1, Vector2::new(-1, -1)).is_none());
    let removed = world.remove_entity(1, at).unwrap();
    assert_eq!(removed.id, 1);
    assert!(removed.physics_system.is_some());
    assert_eq!(cell_ids(world.grid().unwrap(), 1, 1), vec![0]);
    assert!(world.remove_entity(1, at).is_none());
}

#[test]
fn an_entity_that_has_left_can_be_put_back() {
    let mut builder = EntityBuilder::new();
    let mut world = world_with(10.0, vec![], &mut builder);
    world
        .add_entity(free_body(&mut builder, 300.0, 495.0, 10.0, 10.0))
        .unwrap();
    world
        .add_entity(free_body(&mut builder, 100.0, 100.0, 10.0, 10.0))
        .unwrap();
    let mut outside = world.update().unwrap_err();
    assert_eq!(world.grid().unwrap().get_all_cloned().len(), 1);
    let mut entity = outside.entities.pop().unwrap();
    assert_eq!(entity.id, 0);
    entity.set_location(units(300.0), units(20.0));
    world.add_entity(entity).unwrap();
    assert_eq!(cell_ids(world.grid().unwrap(), 6, 0), vec![0]);
    assert_eq!(world.grid().unwrap().get_all_cloned().len(), 2);
}

#[test]
fn a_tick_keeps_every_identity_once() {
    let mut builder = EntityBuilder::new();
    let mut world = world_with(
        6.3,
        vec![
            platform_data(120.0, 300.0, 100.0, 20.0),
            platform_data(330.0, 200.0, 60.0, 20.0),
        ],
        &mut builder,
    );
    for (x, y) in [(20.0, 5.0), (110.0, 17.0), (130.0, 120.0), (333.0, 1.0), (480.0, 77.0)] {
        let body = free_body(&mut builder, x, y, 20.0, 30.0);
        world.add_entity(body).unwrap();
    }
    let mut expected: Vec<u32> = (0..7).collect();
    for _ in 0..80 {
        if let Err(outside) = world.update() {
            for entity in outside.entities.iter() {
                expected.retain(|id| *id != entity.id);
            }
        }
        let mut found: Vec<u32> = world
            .grid()
            .unwrap()
            .get_all_cloned()
            .iter()
            .map(|entity| entity.id)
            .collect();
        found.sort();
        assert_eq!(found, expected);
    }
    // The platforms and the bodies that came to rest on them are still there;
    // the others fell out of the world one by one.
    assert!(expected.len() >= 2);
    assert!(expected.len() < 7);
}

#[test]
fn an_entity_outside_the_grid_is_handed_back() {
    let mut builder = EntityBuilder::new();
    let mut world = world_with(0.0, vec![], &mut builder);
    let body = free_body(&mut builder, 500.0, 20.0, 10.0, 10.0);
    let outside = world.add_entity(body).unwrap_err();
    assert_eq!(outside.error, GridError::CellOutOfBounds);
    assert_eq!(outside.entities.len(), 1);
    assert_eq!(outside.entities[0].id, 0);
    assert!(outside.entities[0].physics_system.is_some());
    assert!(world.grid().unwrap().get_all_cloned().is_empty());
}
