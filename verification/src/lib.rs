//! The simulation core of a platform game: entities on a uniform grid that
//! fall under gravity and come to rest on platforms, advanced tick by tick.
//!
//! Every coordinate is a fixed-point number; see [`fixed_point`].

pub mod camera;
pub mod config;
pub mod draw_system;
pub mod ecs_world;
pub mod entity;
pub mod fixed_point;
pub mod game_object;
pub mod geometry;
pub mod level;
pub mod physics_system;
pub mod world;

use vstd::prelude::*;

use crate::camera::Camera;
use crate::config::Config;
use crate::draw_system::player_draw_system::PlayerDrawSystem;
use crate::draw_system::{DrawCommand, DrawSystem};
use crate::entity::builder::EntityBuilder;
use crate::entity::entity_data::EntityData;
use crate::entity::entity_type::EntityType;
pub use crate::entity::Entity;
use crate::geometry::{Color, Vector2};
use crate::level::Level;
use crate::physics_system::player_physics_system::PlayerPhysicsSystem;
use crate::physics_system::PhysicsSystem;
use crate::world::grid::GridError;
use crate::world::grid_view::GridView;
use crate::world::laws::{lemma_empty_grid, lemma_insert_keeps_partition};
use crate::world::{load_all, load_one, Outside, World, WorldView};

verus! {

/// A game: the world, the builder that its entities come from, and the
/// number of ticks that a second is meant to have.
pub struct GameState {
    world: World,
    target_update_fps: u32,
    entity_builder: EntityBuilder,
}

/// What a game holds.
pub struct GameStateView {
    pub world: WorldView,
    pub target_update_fps: u32,
    /// The entity that the builder would build next.
    pub pending: Entity,
}

impl View for GameState {
    type V = GameStateView;

    closed spec fn view(&self) -> GameStateView {
        GameStateView {
            world: self.world@,
            target_update_fps: self.target_update_fps,
            pending: self.entity_builder@,
        }
    }
}

impl GameState {
    /// The first entry of the opening level: a green platform.
    pub open spec fn first_platform_data() -> EntityData {
        EntityData {
            width: 50_000,
            height: 50_000,
            x: 50_000,
            y: 500_000,
            color: Color { r: 0, g: 255, b: 0, a: 255 },
            entity_type: EntityType::Platform,
        }
    }

    /// The second entry of the opening level: a red platform.
    pub open spec fn second_platform_data() -> EntityData {
        EntityData {
            width: 50_000,
            height: 50_000,
            x: 500_000,
            y: 500_000,
            color: Color { r: 255, g: 0, b: 0, a: 255 },
            entity_type: EntityType::Platform,
        }
    }

    /// The first platform of the opening level: 50 by 50 units, below the
    /// place where the player starts.
    pub open spec fn first_platform() -> Entity {
        Entity {
            location: Vector2 { x: 50_000, y: 500_000 },
            width: 50_000,
            height: 50_000,
            collidable: true,
            id: 0,
            ..Entity::spec_default()
        }
    }

    /// The second platform of the opening level.
    pub open spec fn second_platform() -> Entity {
        Entity {
            location: Vector2 { x: 500_000, y: 500_000 },
            width: 50_000,
            height: 50_000,
            collidable: true,
            id: 1,
            ..Entity::spec_default()
        }
    }

    /// The player: a free body of 50 by 100 units at (50, 50) on which
    /// gravity acts.
    pub open spec fn player() -> Entity {
        Entity {
            location: Vector2 { x: 50_000, y: 50_000 },
            width: 50_000,
            height: 100_000,
            draw_system: Some(DrawSystem::Player(PlayerDrawSystem)),
            affected_by_gravity: true,
            physics_system: Some(
                PhysicsSystem::Player(
                    PlayerPhysicsSystem {
                        acceleration: Vector2 { x: 0, y: 0 },
                        velocity: Vector2 { x: 0, y: 0 },
                    },
                ),
            ),
            id: 2,
            ..Entity::spec_default()
        }
    }

    /// The grid of a new game: 100 by 100 cells of 50 by 50 units with the two
    /// platforms and the player in it.
    pub open spec fn opening_grid() -> GridView {
        GridView::empty(5_000_000, 5_000_000, 50_000, 50_000).with_inserted(
            GameState::first_platform(),
        ).with_inserted(GameState::second_platform()).with_inserted(GameState::player())
    }

    /// A new game with the default settings: the opening level is loaded and
    /// the player is in the world.
    pub fn new() -> (state: Self)
        ensures
            state@.world.wf(),
            state@.world.grid == Some(GameState::opening_grid()),
            state@.world.gravity == (Vector2 { x: 0, y: 10 }),
            state@.world.width == 5_000_000,
            state@.world.height == 5_000_000,
            state@.world.unit_width == 50_000,
            state@.world.unit_height == 50_000,
            state@.world.levels.len() == 1,
            state@.world.levels[0].width == 5_000_000,
            state@.world.levels[0].height == 5_000_000,
            state@.world.levels[0].entity_datas@ == seq![
                GameState::first_platform_data(),
                GameState::second_platform_data(),
            ],
            state@.world.current_level_index == 0,
            state@.world.camera == (Camera { x: 0, y: 0, width: 1_280_000, height: 720_000 }),
            state@.target_update_fps == 50,
            state@.pending == (Entity { id: 3, ..Entity::spec_default() }),
    {
        let config = Config::default();
        let first = EntityData::new(
            config.player_start_x,
            500_000,
            config.world_unit_width,
            config.world_unit_height,
            Color::new(0, 255, 0, 255),
            EntityType::Platform,
        );
        let second = EntityData::new(
            500_000,
            500_000,
            config.world_unit_width,
            config.world_unit_height,
            Color::new(255, 0, 0, 255),
            EntityType::Platform,
        );
        let mut entity_datas: Vec<EntityData> = Vec::new();
        entity_datas.push(first);
        entity_datas.push(second);
        let level = Level::new(5_000_000, 5_000_000, entity_datas);
        let camera = Camera::new(0, 0, 1_280_000, 720_000);
        let mut world = World::new();
        let mut entity_builder = EntityBuilder::new();
        world.set_gravity(config.gravity_force).set_size(
            config.world_width,
            config.world_height,
        ).set_unit_size(config.world_unit_width, config.world_unit_height).add_level(
            level,
        ).set_camera(camera);
        let ghost before = world@;
        let ghost start = world::Loading {
            grid: GridView::empty(5_000_000, 5_000_000, 50_000, 50_000),
            pending: Entity::spec_default(),
            rejected: Seq::empty(),
        };
        proof {
            let datas = before.levels[0].entity_datas@;
            assert(datas =~= seq![first, second]);
            assert(datas.drop_last() =~= seq![first]);
            assert(datas.drop_last().drop_last() =~= Seq::<EntityData>::empty());
            assert(datas.last() == second);
            assert(datas.drop_last().last() == first);
            reveal_with_fuel(load_all, 3);
            lemma_empty_grid(5_000_000, 5_000_000, 50_000, 50_000);
            assert(load_all(start, datas.drop_last().drop_last()) == start);
            let one = load_one(start, first);
            assert(load_all(start, datas.drop_last()) == one);
            assert(start.grid.holds(GameState::first_platform().location));
            assert(one.grid == start.grid.with_inserted(GameState::first_platform()));
            lemma_insert_keeps_partition(start.grid, GameState::first_platform());
            let two = load_one(one, second);
            assert(load_all(start, datas) == two);
            assert(one.grid.holds(GameState::second_platform().location));
            assert(two.grid == one.grid.with_inserted(GameState::second_platform()));
            assert(before.loaded(Entity::spec_default()) == two);
        }
        let _ = world.build(&mut entity_builder);
        let target_update_fps: u32 = config.target_update_fps;

        let player = entity_builder.create_entity().location(
            config.player_start_x,
            config.player_start_y,
        ).size(config.player_width, config.player_height).draw_system(
            DrawSystem::Player(PlayerDrawSystem),
        ).affected_by_gravity().physics_system(
            PhysicsSystem::Player(PlayerPhysicsSystem::default()),
        ).build();
        proof {
            assert(player == GameState::player());
            assert(world@.grid.unwrap().holds(player.location));
        }
        let _ = world.add_entity(player);

        GameState { world, target_update_fps, entity_builder }
    }

    /// The world.
    pub fn world(&self) -> (world: &World)
        ensures
            world@ == self@.world,
    {
        &self.world
    }

    /// The number of ticks that a second is meant to have.
    pub fn target_update_fps(&self) -> (fps: u32)
        ensures
            fps == self@.target_update_fps,
    {
        self.target_update_fps
    }

    /// Advances the world by one tick, as [`World::update`] describes.
    pub fn update(&mut self) -> (outcome: Result<(), Outside>)
        requires
            old(self)@.world.wf(),
        ensures
            final(self)@.world.wf(),
            final(self)@.target_update_fps == old(self)@.target_update_fps,
            final(self)@.pending == old(self)@.pending,
            match old(self)@.world.grid {
                None => outcome is Ok && final(self)@.world == old(self)@.world,
                Some(grid) => {
                    &&& final(self)@.world == (WorldView {
                        grid: Some(grid.ticked(old(self)@.world.gravity)),
                        ..old(self)@.world
                    })
                    &&& match outcome {
                        Ok(_) => grid.lost(old(self)@.world.gravity).len() == 0,
                        Err(outside) => {
                            &&& outside.error == GridError::CellOutOfBounds
                            &&& outside.entities@ == grid.lost(old(self)@.world.gravity)
                            &&& outside.entities@.len() > 0
                        },
                    }
                },
            },
    {
        self.world.update()
    }

    /// Says what to draw, as [`World::draw`] describes.
    pub fn draw(&self, lag: i32) -> (commands: Result<Vec<DrawCommand>, GridError>)
        requires
            self@.world.wf(),
        ensures
            match self@.world.grid {
                None => commands matches Ok(drawn) && drawn@.len() == 0,
                Some(grid) => match commands {
                    Ok(drawn) => grid.covers(self@.world.camera.spec_as_rect()) && drawn@
                        == world::draw_commands(
                        grid.region(self@.world.camera.spec_as_rect()),
                        lag as int,
                    ),
                    Err(error) => error == GridError::CellOutOfBounds && !grid.covers(
                        self@.world.camera.spec_as_rect(),
                    ),
                },
            },
    {
        self.world.draw(lag)
    }
}

} // verus!
