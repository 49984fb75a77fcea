pub mod cell;
pub mod grid;
pub mod grid_view;
pub mod identities;
pub mod laws;

use vstd::prelude::*;

use crate::camera::Camera;
use crate::draw_system::DrawCommand;
use crate::entity::builder::EntityBuilder;
use crate::entity::entity_data::EntityData;
use crate::entity::entity_type::EntityType;
use crate::entity::Entity;
use crate::geometry::Vector2;
use crate::level::Level;
use crate::world::cell::referents;
use crate::world::grid::{Grid, GridError};
use crate::world::grid_view::GridView;
use crate::world::laws::{
    lemma_empty_grid, lemma_insert_keeps_partition, lemma_removal_keeps_partition,
    lemma_tick_restores_partition,
};

verus! {

/// What a world holds.
pub struct WorldView {
    /// The grid of the level that was loaded last, if any was.
    pub grid: Option<GridView>,
    pub gravity: Vector2,
    pub width: i32,
    pub height: i32,
    pub unit_width: i32,
    pub unit_height: i32,
    pub levels: Seq<Level>,
    pub current_level_index: nat,
    pub camera: Camera,
}

impl WorldView {
    /// The grid, if there is one, is well formed and partitioned.
    pub open spec fn wf(self) -> bool {
        match self.grid {
            Some(grid) => grid.wf() && grid.partitioned(),
            None => true,
        }
    }

    /// The world that [`World::new`] and [`World::default`] return: no grid,
    /// no gravity, 5000 by 5000 units in cells of one unit, no level, and a
    /// camera without extent at the origin.
    pub open spec fn spec_default() -> WorldView {
        WorldView {
            grid: None,
            gravity: Vector2 { x: 0, y: 0 },
            width: 5_000_000,
            height: 5_000_000,
            unit_width: 1_000,
            unit_height: 1_000,
            levels: Seq::empty(),
            current_level_index: 0,
            camera: Camera { x: 0, y: 0, width: 0, height: 0 },
        }
    }
}

/// What the world reports when it could not keep entities because their
/// location falls into no cell of the grid: the kind of error, and the
/// entities, in the order in which the world came upon them. They are not in
/// the world.
#[derive(Debug)]
pub struct Outside {
    pub error: GridError,
    pub entities: Vec<Entity>,
}

/// What the entities draw that have a render behaviour, in their order.
pub open spec fn draw_commands(entities: Seq<Entity>, lag: int) -> Seq<DrawCommand>
    decreases entities.len(),
{
    if entities.len() == 0 {
        Seq::empty()
    } else {
        let before = draw_commands(entities.drop_last(), lag);
        match entities.last().spec_draw(lag) {
            Some(command) => before.push(command),
            None => before,
        }
    }
}

/// The state of a level that is being loaded: the grid so far, the entity
/// that the builder would build next, and the bodies that were rejected.
pub struct Loading {
    pub grid: GridView,
    pub pending: Entity,
    pub rejected: Seq<Entity>,
}

/// The platform that a builder with the description `pending` builds for
/// `data`: collidable, with the location and the size of `data`.
pub open spec fn platform_for(pending: Entity, data: EntityData) -> Entity {
    Entity {
        collidable: true,
        location: Vector2 { x: data.x, y: data.y },
        width: data.width,
        height: data.height,
        ..pending
    }
}

/// The loading after one more entry of the level. A player entry is passed
/// over. A platform is built and put into the grid; one whose location falls
/// into no cell is rejected, and the loading goes on.
pub open spec fn load_one(loading: Loading, data: EntityData) -> Loading {
    match data.entity_type {
        EntityType::Player => loading,
        EntityType::Platform => {
            let platform = platform_for(loading.pending, data);
            Loading {
                grid: if loading.grid.holds(platform.location) {
                    loading.grid.with_inserted(platform)
                } else {
                    loading.grid
                },
                pending: EntityBuilder::after_build(platform),
                rejected: if loading.grid.holds(platform.location) {
                    loading.rejected
                } else {
                    loading.rejected.push(platform)
                },
            }
        },
    }
}

/// The loading after all entries, first to last.
pub open spec fn load_all(loading: Loading, datas: Seq<EntityData>) -> Loading
    decreases datas.len(),
{
    if datas.len() == 0 {
        loading
    } else {
        load_one(load_all(loading, datas.drop_last()), datas.last())
    }
}

/// The simulation: a grid of entities, the gravity that acts on them, the
/// levels that can be loaded and the camera that says what is shown.
pub struct World {
    grid: Option<Grid>,
    gravity: Vector2,
    pub width: i32,
    pub height: i32,
    pub unit_width: i32,
    pub unit_height: i32,
    levels: Vec<Level>,
    current_level_index: usize,
    camera: Camera,
}

impl View for World {
    type V = WorldView;

    closed spec fn view(&self) -> WorldView {
        WorldView {
            grid: match self.grid {
                Some(grid) => Some(grid@),
                None => None,
            },
            gravity: self.gravity,
            width: self.width,
            height: self.height,
            unit_width: self.unit_width,
            unit_height: self.unit_height,
            levels: self.levels@,
            current_level_index: self.current_level_index as nat,
            camera: self.camera,
        }
    }
}

impl World {
    /// Creates a new world with the default settings.
    pub fn new() -> (world: Self)
        ensures
            world@ == WorldView::spec_default(),
            world@.wf(),
    {
        World {
            grid: None,
            gravity: Vector2 { x: 0, y: 0 },
            width: 5_000_000,
            height: 5_000_000,
            unit_width: 1_000,
            unit_height: 1_000,
            levels: Vec::new(),
            current_level_index: 0,
            camera: Camera { x: 0, y: 0, width: 0, height: 0 },
        }
    }

    /// The gravity that acts on every entity that is affected by it.
    pub fn gravity(&self) -> (gravity: Vector2)
        ensures
            gravity == self@.gravity,
    {
        self.gravity
    }

    /// The levels that were added, in order.
    pub fn levels(&self) -> (levels: &Vec<Level>)
        ensures
            levels@ == self@.levels,
    {
        &self.levels
    }

    /// The index of the level that is loaded next.
    pub fn current_level_index(&self) -> (index: usize)
        ensures
            index == self@.current_level_index,
    {
        self.current_level_index
    }

    /// The camera.
    pub fn camera(&self) -> (camera: Camera)
        ensures
            camera == self@.camera,
    {
        self.camera
    }

    /// The grid of the level that was loaded last, if any was.
    pub fn grid(&self) -> (grid: Option<&Grid>)
        ensures
            match grid {
                Some(grid) => self@.grid == Some(grid@),
                None => self@.grid is None,
            },
    {
        match &self.grid {
            Some(grid) => Some(grid),
            None => None,
        }
    }

    /// Sets the vertical part of the gravity.
    pub fn set_gravity(&mut self, gravity: i32) -> (world: &mut Self)
        ensures
            world@ == (WorldView {
                gravity: Vector2 { x: old(self)@.gravity.x, y: gravity },
                ..old(self)@
            }),
            *final(self) == *final(world),
    {
        self.gravity.y = gravity;
        self
    }

    /// Sets the extent of the world.
    pub fn set_size(&mut self, width: i32, height: i32) -> (world: &mut Self)
        ensures
            world@ == (WorldView { width, height, ..old(self)@ }),
            *final(self) == *final(world),
    {
        self.width = width;
        self.height = height;
        self
    }

    /// Sets the extent of a cell of the grids that are made from now on.
    pub fn set_unit_size(&mut self, width: i32, height: i32) -> (world: &mut Self)
        ensures
            world@ == (WorldView { unit_width: width, unit_height: height, ..old(self)@ }),
            *final(self) == *final(world),
    {
        self.unit_width = width;
        self.unit_height = height;
        self
    }

    /// Loads the current level, which is the last step in creating the world.
    pub fn build(&mut self, entity_builder: &mut EntityBuilder) -> (outcome: Result<(), Outside>)
        requires
            old(self)@.unit_width > 0,
            old(self)@.unit_height > 0,
            old(self)@.current_level_index < old(self)@.levels.len(),
            old(entity_builder)@.id + old(self)@.levels[old(
                self,
            )@.current_level_index as int].entity_datas@.len() <= u32::MAX,
        ensures
            final(self)@.wf(),
            final(self)@ == (WorldView {
                grid: Some(old(self)@.loaded(old(entity_builder)@).grid),
                ..old(self)@
            }),
            final(entity_builder)@ == old(self)@.loaded(old(entity_builder)@).pending,
            match outcome {
                Ok(_) => old(self)@.loaded(old(entity_builder)@).rejected.len() == 0,
                Err(outside) => {
                    &&& outside.error == GridError::CellOutOfBounds
                    &&& outside.entities@ == old(self)@.loaded(old(entity_builder)@).rejected
                    &&& outside.entities@.len() > 0
                },
            },
    {
        self.load_level(entity_builder)
    }

    /// Puts `entity` into the grid, into the cell that its location falls
    /// into. A world without a grid takes no entities and stays as it is. An
    /// entity whose location falls into no cell is rejected and handed back
    /// with the error.
    pub fn add_entity(&mut self, entity: Entity) -> (outcome: Result<(), Outside>)
        requires
            old(self)@.wf(),
        ensures
            final(self)@.wf(),
            match old(self)@.grid {
                None => outcome is Ok && final(self)@ == old(self)@,
                Some(grid) => match outcome {
                    Ok(_) => grid.holds(entity.location) && final(self)@ == (WorldView {
                        grid: Some(grid.with_inserted(entity)),
                        ..old(self)@
                    }),
                    Err(outside) => {
                        &&& outside.error == GridError::CellOutOfBounds
                        &&& outside.entities@ == seq![entity]
                        &&& !grid.holds(entity.location)
                        &&& final(self)@ == old(self)@
                    },
                },
            },
    {
        if let Some(grid) = &mut self.grid {
            if grid.get_coordinates(entity.location.x, entity.location.y).is_ok() {
                proof {
                    lemma_insert_keeps_partition(grid@, entity);
                }
                let _ = grid.insert(entity);
                Ok(())
            } else {
                let mut entities: Vec<Entity> = Vec::new();
                entities.push(entity);
                Err(Outside { error: GridError::CellOutOfBounds, entities })
            }
        } else {
            Ok(())
        }
    }

    /// Takes the first entity with the identity `id` out of the cell that
    /// `location` falls into, and hands it back. If there is no grid, the
    /// location falls into no cell, or the cell has no such entity, nothing
    /// happens.
    pub fn remove_entity(&mut self, id: u32, location: Vector2) -> (removed: Option<Entity>)
        requires
            old(self)@.wf(),
        ensures
            final(self)@.wf(),
            match removed {
                Some(entity) => old(self)@.grid matches Some(grid) && grid.finds(id, location)
                    && entity == grid.found(id, location) && final(self)@ == (WorldView {
                    grid: Some(grid.without(id, location)),
                    ..old(self)@
                }),
                None => {
                    &&& final(self)@ == old(self)@
                    &&& old(self)@.grid matches Some(grid) ==> !grid.finds(id, location)
                },
            },
    {
        if let Some(grid) = &mut self.grid {
            proof {
                if grid@.finds(id, location) {
                    lemma_removal_keeps_partition(grid@, id, location);
                }
            }
            grid.take_entity(id, location)
        } else {
            None
        }
    }

    /// Says what to draw: one command for each entity with a render behaviour
    /// in the cells that the camera touches, in the order of
    /// [`GridView::region`]. `lag` is how far the next tick has come, in steps
    /// out of a whole unit. Nothing of the simulation changes. A world
    /// without a grid draws nothing; a camera with a corner outside the grid
    /// is an error.
    pub fn draw(&self, lag: i32) -> (commands: Result<Vec<DrawCommand>, GridError>)
        requires
            self@.wf(),
        ensures
            match self@.grid {
                None => commands matches Ok(drawn) && drawn@.len() == 0,
                Some(grid) => match commands {
                    Ok(drawn) => grid.covers(self@.camera.spec_as_rect()) && drawn@
                        == draw_commands(grid.region(self@.camera.spec_as_rect()), lag as int),
                    Err(error) => error == GridError::CellOutOfBounds && !grid.covers(
                        self@.camera.spec_as_rect(),
                    ),
                },
            },
    {
        let mut commands: Vec<DrawCommand> = Vec::new();
        if let Some(grid) = &self.grid {
            let entities = match grid.query(self.camera.as_rect()) {
                Ok(entities) => entities,
                Err(error) => {
                    return Err(error);
                },
            };
            let ghost visible = referents(entities@);
            let mut index: usize = 0;
            proof {
                assert(visible.take(0) =~= Seq::<Entity>::empty());
            }
            while index < entities.len()
                invariant
                    index <= entities.len(),
                    visible == referents(entities@),
                    commands@ == draw_commands(visible.take(index as int), lag as int),
                decreases entities.len() - index,
            {
                proof {
                    assert(visible.take(index + 1).drop_last() =~= visible.take(index as int));
                    assert(visible.take(index + 1).last() == *entities@[index as int]);
                }
                if let Some(command) = entities[index].draw(lag) {
                    commands.push(command);
                }
                index += 1;
            }
            proof {
                assert(visible.take(entities.len() as int) =~= visible);
            }
        }
        Ok(commands)
    }

    /// Advances the simulation by one tick.
    ///
    /// The data of all entities is copied first, so that every entity sees
    /// the others as they were before the tick, whatever the order in which
    /// they are advanced. Every entity is then advanced where it sits, and at
    /// the end every entity that has left its cell is moved to the one that
    /// its location now falls into. An entity that has left the grid
    /// altogether is taken out of the world and handed back with the error;
    /// the others are not held up by it. A world without a grid stays as it
    /// is.
    pub fn update(&mut self) -> (outcome: Result<(), Outside>)
        requires
            old(self)@.wf(),
        ensures
            final(self)@.wf(),
            match old(self)@.grid {
                None => outcome is Ok && final(self)@ == old(self)@,
                Some(grid) => {
                    &&& final(self)@ == (WorldView {
                        grid: Some(grid.ticked(old(self)@.gravity)),
                        ..old(self)@
                    })
                    &&& match outcome {
                        Ok(_) => grid.lost(old(self)@.gravity).len() == 0,
                        Err(outside) => {
                            &&& outside.error == GridError::CellOutOfBounds
                            &&& outside.entities@ == grid.lost(old(self)@.gravity)
                            &&& outside.entities@.len() > 0
                        },
                    }
                },
            },
    {
        let gravity = self.gravity;
        if let Some(grid) = &mut self.grid {
            proof {
                lemma_tick_restores_partition(grid@, gravity);
            }
            let collidable_entities = grid.get_all_cloned();
            grid.update_entities(&gravity, &collidable_entities);
            let lost = grid.reconcile();
            if lost.len() == 0 {
                Ok(())
            } else {
                Err(Outside { error: GridError::CellOutOfBounds, entities: lost })
            }
        } else {
            Ok(())
        }
    }

    /// Replaces the grid by an empty one over a world of the given extent, in
    /// cells of the unit size.
    pub fn reset_grid(&mut self, width: i32, height: i32)
        requires
            old(self)@.unit_width > 0,
            old(self)@.unit_height > 0,
        ensures
            final(self)@.wf(),
            final(self)@ == (WorldView {
                grid: Some(
                    GridView::empty(
                        width as int,
                        height as int,
                        old(self)@.unit_width as int,
                        old(self)@.unit_height as int,
                    ),
                ),
                ..old(self)@
            }),
    {
        proof {
            lemma_empty_grid(
                width as int,
                height as int,
                self.unit_width as int,
                self.unit_height as int,
            );
        }
        let grid = Grid::new(width, height, self.unit_width, self.unit_height);
        self.grid = Some(grid);
    }

    /// Loads the current level into the world: the grid is replaced by an
    /// empty one of the level's extent, and for every platform of the level,
    /// in order, a collidable entity is built and put into the grid. A
    /// platform whose location falls into no cell is rejected and handed back
    /// with the error; the others are loaded all the same.
    pub fn load_level(&mut self, entity_builder: &mut EntityBuilder) -> (outcome: Result<
        (),
        Outside,
    >)
        requires
            old(self)@.unit_width > 0,
            old(self)@.unit_height > 0,
            old(self)@.current_level_index < old(self)@.levels.len(),
            old(entity_builder)@.id + old(self)@.levels[old(
                self,
            )@.current_level_index as int].entity_datas@.len() <= u32::MAX,
        ensures
            final(self)@.wf(),
            final(self)@ == (WorldView {
                grid: Some(old(self)@.loaded(old(entity_builder)@).grid),
                ..old(self)@
            }),
            final(entity_builder)@ == old(self)@.loaded(old(entity_builder)@).pending,
            match outcome {
                Ok(_) => old(self)@.loaded(old(entity_builder)@).rejected.len() == 0,
                Err(outside) => {
                    &&& outside.error == GridError::CellOutOfBounds
                    &&& outside.entities@ == old(self)@.loaded(old(entity_builder)@).rejected
                    &&& outside.entities@.len() > 0
                },
            },
    {
        let level = self.levels[self.current_level_index].clone();
        self.reset_grid(level.width, level.height);
        let ghost start = Loading {
            grid: self@.grid.unwrap(),
            pending: entity_builder@,
            rejected: Seq::empty(),
        };
        let ghost datas = level.entity_datas@;
        let mut rejected: Vec<Entity> = Vec::new();
        let mut index: usize = 0;
        proof {
            assert(datas.take(0) =~= Seq::<EntityData>::empty());
        }
        while index < level.entity_datas.len()
            invariant
                index <= datas.len(),
                datas == level.entity_datas@,
                start.pending.id + datas.len() <= u32::MAX,
                self@.wf(),
                self@ == (WorldView {
                    grid: Some(load_all(start, datas.take(index as int)).grid),
                    ..old(self)@
                }),
                entity_builder@ == load_all(start, datas.take(index as int)).pending,
                entity_builder@.id <= start.pending.id + index,
                rejected@ == load_all(start, datas.take(index as int)).rejected,
            decreases datas.len() - index,
        {
            let entity_data = level.entity_datas[index];
            proof {
                assert(datas.take(index + 1).drop_last() =~= datas.take(index as int));
                assert(datas.take(index + 1).last() == entity_data);
            }
            match entity_data.entity_type {
                EntityType::Player => {},
                EntityType::Platform => {
                    let platform = entity_builder.create_entity().collidable().location(
                        entity_data.x,
                        entity_data.y,
                    ).size(entity_data.width, entity_data.height).build();
                    let fits = match &self.grid {
                        Some(grid) => grid.get_coordinates(
                            platform.location.x,
                            platform.location.y,
                        ).is_ok(),
                        None => false,
                    };
                    if fits {
                        let _ = self.add_entity(platform);
                    } else {
                        rejected.push(platform);
                    }
                },
            }
            index += 1;
        }
        proof {
            assert(datas.take(datas.len() as int) =~= datas);
        }
        if rejected.len() == 0 {
            Ok(())
        } else {
            Err(Outside { error: GridError::CellOutOfBounds, entities: rejected })
        }
    }

    /// Adds a level behind those that are there.
    pub fn add_level(&mut self, level: Level) -> (world: &mut Self)
        ensures
            world@ == (WorldView { levels: old(self)@.levels.push(level), ..old(self)@ }),
            *final(self) == *final(world),
    {
        self.levels.push(level);
        self
    }

    /// Sets the camera.
    pub fn set_camera(&mut self, camera: Camera) -> (world: &mut Self)
        ensures
            world@ == (WorldView { camera, ..old(self)@ }),
            *final(self) == *final(world),
    {
        self.camera = camera;
        self
    }
}

impl WorldView {
    /// What loading the current level makes of an empty grid and of a builder
    /// with the description `pending`.
    pub open spec fn loaded(self, pending: Entity) -> Loading {
        let level = self.levels[self.current_level_index as int];
        load_all(
            Loading {
                grid: GridView::empty(
                    level.width as int,
                    level.height as int,
                    self.unit_width as int,
                    self.unit_height as int,
                ),
                pending,
                rejected: Seq::empty(),
            },
            level.entity_datas@,
        )
    }
}

impl Default for World {
    fn default() -> (world: Self)
        ensures
            world@ == WorldView::spec_default(),
            world@.wf(),
    {
        World::new()
    }
}

} // verus!
