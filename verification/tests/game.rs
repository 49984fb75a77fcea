use game_template_platform::draw_system::Drawable;
use game_template_platform::ecs_world::component::ComponentData;
use game_template_platform::ecs_world::World as ComponentWorld;
use game_template_platform::entity::entity_state::EntityState;
use game_template_platform::game_object::GameObject;
use game_template_platform::geometry::Vector2;
use game_template_platform::world::grid::GridError;
use game_template_platform::GameState;

/// World units to fixed-point steps.
fn units(value: f64) -> i32 {
    (value * 1000.0).round() as i32
}

#[test]
fn a_new_game_holds_two_platforms_and_the_player() {
    let state = GameState::new();
    assert_eq!(state.target_update_fps(), 50);
    let world = state.world();
    assert_eq!(world.gravity(), Vector2::new(0, units(0.01)));
    assert_eq!(world.width, units(5000.0));
    assert_eq!(world.height, units(5000.0));
    assert_eq!(world.unit_width, units(50.0));
    assert_eq!(world.unit_height, units(50.0));
    assert_eq!(world.levels().len(), 1);
    assert_eq!(world.levels()[0].entity_datas.len(), 2);
    let grid = world.grid().unwrap();
    assert_eq!(grid.width(), 100);
    assert_eq!(grid.height(), 100);
    let copies = grid.get_all_cloned();
    // Row after row: the player in row 1 comes before the platforms in row 10.
    assert_eq!(
        copies.iter().map(|entity| entity.id).collect::<Vec<u32>>(),
        vec![2, 0, 1]
    );
    let player = grid.cell(1, 1).unwrap().get_all()[0];
    assert_eq!(player.location, Vector2::new(units(50.0), units(50.0)));
    assert_eq!(player.width, units(50.0));
    assert_eq!(player.height, units(100.0));
    assert!(player.affected_by_gravity);
    assert!(!player.collidable);
    assert!(player.physics_system.is_some());
    assert!(player.draw_system.is_some());
    let first = grid.cell(1, 10).unwrap().get_all()[0];
    assert_eq!(first.id, 0);
    assert!(first.collidable);
    assert_eq!(first.location, Vector2::new(units(50.0), units(500.0)));
    let second = grid.cell(10, 10).unwrap().get_all()[0];
    assert_eq!(second.id, 1);
    assert_eq!(second.location, Vector2::new(units(500.0), units(500.0)));
}

#[test]
fn the_player_of_a_new_game_falls_onto_the_platform_below() {
    let mut state = GameState::new();
    for _ in 0..400 {
        assert!(state.update().is_ok());
    }
    let copies = state.world().grid().unwrap().get_all_cloned();
    let player = copies.iter().find(|entity| entity.id == 2).unwrap();
    // 500 - 50 / 2 - 100 / 2
    assert_eq!(player.location, Vector2::new(units(50.0), units(425.0)));
    assert!(matches!(player.state, EntityState::Standing));
}

#[test]
fn the_camera_of_a_new_game_looks_past_the_edge_of_the_grid() {
    let state = GameState::new();
    assert_eq!(state.draw(0).err(), Some(GridError::CellOutOfBounds));
}

#[test]
fn a_game_draws_what_its_camera_sees() {
    let mut state = GameState::new();
    state.update().unwrap();
    // The camera of a new game cannot be moved from outside; what is drawn is
    // what the world draws.
    assert_eq!(state.draw(5).err(), state.world().draw(5).err());
    let _ = Drawable::Player;
}

#[test]
fn a_game_object_moves_and_bounces() {
    let mut object = GameObject::new(units(10.0), units(20.0));
    assert_eq!(object.location(), Vector2::new(units(10.0), units(20.0)));
    assert_eq!(object.velocity(), Vector2::new(units(5.0), 0));
    assert_eq!(object.draw(), Vector2::new(units(10.0), units(20.0)));
    let screen = (units(18.0), units(21.0));

    object.update(units(0.5), screen);
    assert_eq!(object.location(), Vector2::new(units(15.0), units(20.5)));
    assert_eq!(object.velocity(), Vector2::new(units(5.0), units(0.5)));

    // Past the right edge and past the lower edge: onto both, and back.
    object.update(units(0.5), screen);
    assert_eq!(object.location(), Vector2::new(units(18.0), units(21.0)));
    assert_eq!(object.velocity(), Vector2::new(units(-5.0), units(-1.0)));

    object.update(units(0.5), screen);
    assert_eq!(object.location(), Vector2::new(units(13.0), units(20.5)));
    assert_eq!(object.velocity(), Vector2::new(units(-5.0), units(-0.5)));

    object.update(0, screen);
    object.update(0, screen);
    object.update(0, screen);
    // 13 - 15 = -2: onto the left edge, and back.
    assert_eq!(object.location(), Vector2::new(0, units(19.0)));
    assert_eq!(object.velocity(), Vector2::new(units(5.0), units(-0.5)));
}

#[test]
fn a_game_object_on_the_edge_is_inside() {
    let mut object = GameObject::new(0, units(5.0));
    object.hit_walls((0, units(5.0)));
    assert_eq!(object.location(), Vector2::new(0, units(5.0)));
    assert_eq!(object.velocity(), Vector2::new(units(5.0), 0));
    let mut above = GameObject::new(units(1.0), -1);
    above.hit_walls((units(2.0), units(2.0)));
    assert_eq!(above.location(), Vector2::new(units(1.0), 0));
    assert_eq!(above.velocity(), Vector2::new(units(5.0), 0));
}

#[test]
fn component_data_hands_out_what_it_is() {
    let point = ComponentData::Point { x: units(250.0), y: units(150.0) };
    assert_eq!(point.get_point(), Some((units(250.0), units(150.0))));
    assert_eq!(point.get_radius(), None);
    let radius = ComponentData::Radius(units(10.0));
    assert_eq!(radius.get_radius(), Some(units(10.0)));
    assert_eq!(radius.get_point(), None);
    for other in [
        ComponentData::Empty,
        ComponentData::Width(1),
        ComponentData::Height(2),
        ComponentData::Color { red: 1, green: 2, blue: 3 },
    ] {
        assert_eq!(other.get_point(), None);
        assert_eq!(other.get_radius(), None);
    }
}

#[test]
fn a_component_store_keeps_one_entry_per_component_in_every_column() {
    let mut world = ComponentWorld::new();
    assert_eq!(world.length(), 0);
    assert!(world.query("location").is_none());
    world.register("location");
    world.register("size");
    assert_eq!(world.query("location").unwrap().len(), 0);

    world
        .create_component()
        .with("location", ComponentData::Point { x: units(250.0), y: units(150.0) })
        .with("size", ComponentData::Radius(units(10.0)))
        .with("colour", ComponentData::Color { red: 1, green: 2, blue: 3 });
    world
        .create_component()
        .with("size", ComponentData::Radius(units(20.0)));
    assert_eq!(world.length(), 2);
    assert!(world.query("colour").is_none());
    assert_eq!(
        *world.query("location").unwrap(),
        vec![
            ComponentData::Point { x: units(250.0), y: units(150.0) },
            ComponentData::Empty
        ]
    );
    assert_eq!(
        *world.query("size").unwrap(),
        vec![
            ComponentData::Radius(units(10.0)),
            ComponentData::Radius(units(20.0))
        ]
    );

    // Registering a name again empties its column and leaves the others.
    world.register("size");
    assert_eq!(world.query("size").unwrap().len(), 0);
    assert_eq!(world.query("location").unwrap().len(), 2);
    assert_eq!(world.length(), 2);
}
