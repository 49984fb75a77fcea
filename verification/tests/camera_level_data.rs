use game_template_platform::camera::Camera;
use game_template_platform::config::Config;
use game_template_platform::entity::entity_data::EntityData;
use game_template_platform::entity::entity_type::EntityType;
use game_template_platform::fixed_point::{half_of, minus, plus, saturate, scale, UNIT};
use game_template_platform::geometry::{Color, Rect, Vector2};
use game_template_platform::level::Level;

/// World units to fixed-point steps.
fn units(value: f64) -> i32 {
    (value * 1000.0).round() as i32
}

#[test]
fn ci_test_creating_the_camera() {
    let x = units(0.0);
    let y = units(1.0);
    let width = units(50.0);
    let height = units(100.0);
    let camera = Camera::new(x, y, width, height);
    assert_eq!(camera.x, x);
    assert_eq!(camera.y, y);
    assert_eq!(camera.width, width);
    assert_eq!(camera.height, height);
}

#[test]
fn ci_test_camera_as_rect() {
    let x = units(0.0);
    let y = units(1.0);
    let width = units(50.0);
    let height = units(100.0);
    let camera = Camera::new(x, y, width, height);
    let camera_rect: Rect = camera.as_rect();
    assert_eq!(
        camera_rect,
        Rect::new(units(-25.0), units(-49.0), units(50.0), units(100.0))
    );
}

#[test]
fn camera_rect_saturates_at_the_edge_of_the_coordinate_range() {
    let camera = Camera::new(i32::MIN, i32::MAX, 10, -10);
    let rect = camera.as_rect();
    assert_eq!(rect, Rect::new(i32::MIN, i32::MAX, 10, -10));
}

#[test]
fn default_camera_is_empty_at_the_origin() {
    assert_eq!(Camera::default(), Camera::new(0, 0, 0, 0));
}

#[test]
fn ci_test_create_position() {
    let width = units(10.0);
    let height = units(15.0);
    let x = units(5.0);
    let y = units(20.0);
    let color = Color::white();
    let entity_type = EntityType::Platform;
    let entity_data = EntityData::new(x, y, width, height, color, entity_type);
    assert_eq!(entity_data.width, width);
    assert_eq!(entity_data.height, height);
    assert_eq!(entity_data.x, x);
    assert_eq!(entity_data.y, y);
    assert_eq!(entity_data.color, color);
    assert!(matches!(entity_data.entity_type, EntityType::Platform));
}

#[test]
fn default_entity_data_is_a_white_platform() {
    let data = EntityData::default();
    assert_eq!(
        data,
        EntityData::new(0, 0, 0, 0, Color::new(255, 255, 255, 255), EntityType::Platform)
    );
}

#[test]
fn ci_test_create_level() {
    let entity = EntityData::default();
    let level = Level::new(units(10.0), units(11.0), vec![entity]);
    assert_eq!(level.width, units(10.0));
    assert_eq!(level.height, units(11.0));
}

#[test]
fn a_cloned_level_has_the_same_entries() {
    let first = EntityData::new(1, 2, 3, 4, Color::white(), EntityType::Platform);
    let second = EntityData::new(5, 6, 7, 8, Color::new(1, 2, 3, 4), EntityType::Player);
    let level = Level::new(10, 11, vec![first, second]);
    let copy = level.clone();
    assert_eq!(copy.width, 10);
    assert_eq!(copy.height, 11);
    assert_eq!(copy.entity_datas, vec![first, second]);
}

#[test]
fn default_config() {
    let config = Config::default();
    assert_eq!(config.target_update_fps, 50);
    assert_eq!(config.gravity_force, units(0.01));
    assert_eq!(config.world_width, units(5000.0));
    assert_eq!(config.world_height, units(5000.0));
    assert_eq!(config.world_unit_width, units(50.0));
    assert_eq!(config.world_unit_height, units(50.0));
    assert_eq!(config.player_start_x, units(50.0));
    assert_eq!(config.player_start_y, units(50.0));
    assert_eq!(config.player_width, units(50.0));
    assert_eq!(config.player_height, units(100.0));
}

#[test]
fn fixed_point_helpers() {
    assert_eq!(UNIT, 1000);
    assert_eq!(saturate(5), 5);
    assert_eq!(saturate(i64::from(i32::MAX) + 1), i32::MAX);
    assert_eq!(saturate(i64::from(i32::MIN) - 1), i32::MIN);
    assert_eq!(plus(i32::MAX, 1), i32::MAX);
    assert_eq!(plus(-3, 5), 2);
    assert_eq!(minus(i32::MIN, 1), i32::MIN);
    assert_eq!(minus(3, 5), -2);
    assert_eq!(half_of(7), 3);
    assert_eq!(half_of(-7), -3);
    assert_eq!(half_of(8), 4);
    assert_eq!(scale(10_000, 500), 5_000);
    assert_eq!(scale(-10_000, 500), -5_000);
    assert_eq!(scale(1, 999), 0);
    assert_eq!(scale(-1, 999), 0);
    assert_eq!(scale(i32::MAX, i32::MAX), i32::MAX);
    assert_eq!(scale(i32::MIN, i32::MAX), i32::MIN);
}

#[test]
fn vector_sum_saturates() {
    let a = Vector2::new(i32::MAX, -5);
    let b = Vector2::new(1, 7);
    assert_eq!(a.plus(&b), Vector2::new(i32::MAX, 2));
}
