//! The mathematical model of the grid: rows of cells of entities, and what the
//! grid's operations do to them.

use vstd::prelude::*;

use crate::entity::Entity;
use crate::geometry::{Rect, Vector2};
use crate::world::cell::{position_of, snapshots, stepped_entities};

verus! {

/// The index, along one axis, of the cell that `position` falls into when
/// cells are `cell_size` long: the floor of the quotient.
pub open spec fn axis_index(position: int, cell_size: int) -> int {
    position / cell_size
}

/// Whether `location` falls into the cell at (`column`, `row`).
pub open spec fn sits_in(
    location: Vector2,
    column: int,
    row: int,
    cell_width: int,
    cell_height: int,
) -> bool {
    axis_index(location.x as int, cell_width) == column && axis_index(
        location.y as int,
        cell_height,
    ) == row
}

/// Those of `entities` whose location falls into the cell at (`column`,
/// `row`), in their order.
pub open spec fn residents(
    entities: Seq<Entity>,
    column: int,
    row: int,
    cell_width: int,
    cell_height: int,
) -> Seq<Entity>
    decreases entities.len(),
{
    if entities.len() == 0 {
        Seq::empty()
    } else {
        let before = residents(entities.drop_last(), column, row, cell_width, cell_height);
        if sits_in(entities.last().location, column, row, cell_width, cell_height) {
            before.push(entities.last())
        } else {
            before
        }
    }
}

/// Those of `entities` whose location does not fall into the cell at
/// (`column`, `row`), in their order.
pub open spec fn strays(
    entities: Seq<Entity>,
    column: int,
    row: int,
    cell_width: int,
    cell_height: int,
) -> Seq<Entity>
    decreases entities.len(),
{
    if entities.len() == 0 {
        Seq::empty()
    } else {
        let before = strays(entities.drop_last(), column, row, cell_width, cell_height);
        if sits_in(entities.last().location, column, row, cell_width, cell_height) {
            before
        } else {
            before.push(entities.last())
        }
    }
}

/// The entities of `count` neighbouring cells of one row, from the cell at
/// `first` on, cell after cell.
pub open spec fn span(cells: Seq<Seq<Entity>>, first: int, count: int) -> Seq<Entity>
    decreases count,
{
    if count <= 0 {
        Seq::empty()
    } else {
        span(cells, first, count - 1) + cells[first + count - 1]
    }
}

/// The entities of a block of cells: `row_count` rows from `first_row` on, in
/// each of them `column_count` cells from `first_column` on, row after row.
pub open spec fn block(
    rows: Seq<Seq<Seq<Entity>>>,
    first_column: int,
    column_count: int,
    first_row: int,
    row_count: int,
) -> Seq<Entity>
    decreases row_count,
{
    if row_count <= 0 {
        Seq::empty()
    } else {
        block(rows, first_column, column_count, first_row, row_count - 1) + span(
            rows[first_row + row_count - 1],
            first_column,
            column_count,
        )
    }
}

/// The strays of the first `count` cells of the row with the index `row`.
pub open spec fn stray_span(
    cells: Seq<Seq<Entity>>,
    row: int,
    count: int,
    cell_width: int,
    cell_height: int,
) -> Seq<Entity>
    decreases count,
{
    if count <= 0 {
        Seq::empty()
    } else {
        stray_span(cells, row, count - 1, cell_width, cell_height) + strays(
            cells[count - 1],
            count - 1,
            row,
            cell_width,
            cell_height,
        )
    }
}

/// The strays of the first `count` rows, row after row.
pub open spec fn stray_block(
    rows: Seq<Seq<Seq<Entity>>>,
    count: int,
    cell_width: int,
    cell_height: int,
) -> Seq<Entity>
    decreases count,
{
    if count <= 0 {
        Seq::empty()
    } else {
        stray_block(rows, count - 1, cell_width, cell_height) + stray_span(
            rows[count - 1],
            count - 1,
            rows[count - 1].len() as int,
            cell_width,
            cell_height,
        )
    }
}

/// What a grid holds: `height` rows of `width` cells each, every cell
/// `cell_width` by `cell_height` steps large, and in every cell its entities in
/// the order in which they came.
pub struct GridView {
    pub width: nat,
    pub height: nat,
    pub cell_width: int,
    pub cell_height: int,
    pub rows: Seq<Seq<Seq<Entity>>>,
}

impl GridView {
    /// Cells have a positive extent and the rows have the shape that `width`
    /// and `height` give.
    pub open spec fn wf(self) -> bool {
        &&& self.cell_width > 0
        &&& self.cell_height > 0
        &&& self.rows.len() == self.height
        &&& forall|row: int| 0 <= row < self.height ==> (#[trigger] self.rows[row]).len() == self.width
    }

    /// The grid without entities that covers a world of the given extent with
    /// cells of the given extent. Only whole cells count, and a world of
    /// negative extent has none.
    pub open spec fn empty(
        world_width: int,
        world_height: int,
        cell_width: int,
        cell_height: int,
    ) -> GridView {
        let width = if world_width < 0 {
            0
        } else {
            world_width / cell_width
        };
        let height = if world_height < 0 {
            0
        } else {
            world_height / cell_height
        };
        GridView {
            width: width as nat,
            height: height as nat,
            cell_width,
            cell_height,
            rows: Seq::new(
                height as nat,
                |row: int| Seq::new(width as nat, |column: int| Seq::<Entity>::empty()),
            ),
        }
    }

    /// The column that the horizontal position `x` falls into.
    pub open spec fn column_of(self, x: int) -> int {
        axis_index(x, self.cell_width)
    }

    /// The row that the vertical position `y` falls into.
    pub open spec fn row_of(self, y: int) -> int {
        axis_index(y, self.cell_height)
    }

    /// Whether the grid has a cell at (`column`, `row`).
    pub open spec fn has_cell(self, column: int, row: int) -> bool {
        0 <= column < self.width && 0 <= row < self.height
    }

    /// Whether `location` falls into a cell of the grid.
    pub open spec fn holds(self, location: Vector2) -> bool {
        self.has_cell(self.column_of(location.x as int), self.row_of(location.y as int))
    }

    /// The entities of the cell at (`column`, `row`).
    pub open spec fn cell(self, column: int, row: int) -> Seq<Entity> {
        self.rows[row][column]
    }

    /// The grid with the cell at (`column`, `row`) holding `entities`.
    pub open spec fn with_cell(self, column: int, row: int, entities: Seq<Entity>) -> GridView {
        GridView { rows: self.rows.update(row, self.rows[row].update(column, entities)), ..self }
    }

    /// Every entity sits in the cell that its location falls into.
    pub open spec fn partitioned(self) -> bool {
        forall|row: int, column: int, index: int|
            0 <= row < self.rows.len() && 0 <= column < self.rows[row].len() && 0 <= index
                < self.rows[row][column].len() ==> sits_in(
                (#[trigger] self.rows[row][column][index]).location,
                column,
                row,
                self.cell_width,
                self.cell_height,
            )
    }

    /// All entities: row after row, in each row cell after cell, in each cell
    /// in the order in which they came.
    pub open spec fn all_entities(self) -> Seq<Entity> {
        block(self.rows, 0, self.width as int, 0, self.height as int)
    }

    /// The grid after `entity` has been put behind the others of the cell that
    /// its location falls into.
    pub open spec fn with_inserted(self, entity: Entity) -> GridView {
        self.with_inserted_at(entity.location, entity)
    }

    /// The column of the first cells that `rect` touches: that of its least
    /// corner.
    pub open spec fn first_column(self, rect: Rect) -> int {
        self.column_of(rect.x as int)
    }

    /// The column of the last cells that `rect` touches: that of its
    /// greatest corner.
    pub open spec fn last_column(self, rect: Rect) -> int {
        self.column_of(rect.x + rect.w)
    }

    /// The row of the first cells that `rect` touches: that of its least
    /// corner.
    pub open spec fn first_row(self, rect: Rect) -> int {
        self.row_of(rect.y as int)
    }

    /// The row of the last cells that `rect` touches: that of its greatest
    /// corner.
    pub open spec fn last_row(self, rect: Rect) -> int {
        self.row_of(rect.y + rect.h)
    }

    /// Whether both corners of `rect` fall into cells of the grid.
    pub open spec fn covers(self, rect: Rect) -> bool {
        &&& self.has_cell(self.first_column(rect), self.first_row(rect))
        &&& self.has_cell(self.last_column(rect), self.last_row(rect))
    }

    /// The entities of the cells that `rect` touches, row after row. A
    /// rectangle of negative extent touches no cell.
    pub open spec fn region(self, rect: Rect) -> Seq<Entity> {
        block(
            self.rows,
            self.first_column(rect),
            self.last_column(rect) - self.first_column(rect) + 1,
            self.first_row(rect),
            self.last_row(rect) - self.first_row(rect) + 1,
        )
    }

    /// Whether the cell that `location` falls into holds an entity with the
    /// identity `id`.
    pub open spec fn finds(self, id: u32, location: Vector2) -> bool {
        self.holds(location) && position_of(
            self.cell(self.column_of(location.x as int), self.row_of(location.y as int)),
            id,
        ) < self.cell(self.column_of(location.x as int), self.row_of(location.y as int)).len()
    }

    /// The first entity with the identity `id` in the cell that `location`
    /// falls into.
    pub open spec fn found(self, id: u32, location: Vector2) -> Entity {
        let cell = self.cell(self.column_of(location.x as int), self.row_of(location.y as int));
        cell[position_of(cell, id)]
    }

    /// The grid without the first entity with the identity `id` in the cell
    /// that `location` falls into.
    pub open spec fn without(self, id: u32, location: Vector2) -> GridView {
        let column = self.column_of(location.x as int);
        let row = self.row_of(location.y as int);
        let cell = self.cell(column, row);
        self.with_cell(column, row, cell.remove(position_of(cell, id)))
    }

    /// Whether two locations fall into the same column and row, inside the
    /// grid or outside of it.
    pub open spec fn same_cell(self, a: Vector2, b: Vector2) -> bool {
        self.column_of(a.x as int) == self.column_of(b.x as int) && self.row_of(a.y as int)
            == self.row_of(b.y as int)
    }

    /// Whether a move between the two locations is an error: they fall into
    /// different cells and one of them into none of the grid.
    pub open spec fn move_fails(self, from: Vector2, to: Vector2) -> bool {
        !self.same_cell(from, to) && (!self.holds(from) || !self.holds(to))
    }

    /// The grid after the first entity with the identity `id` has been moved
    /// from the cell of `from` to the cell of `to`: the entity leaves its old
    /// cell and comes behind the entities of the new one, with `to` as its
    /// location. Nothing changes if both are the same cell, if the old cell
    /// has no such entity, or if `to` falls into no cell of the grid.
    pub open spec fn with_moved(self, id: u32, from: Vector2, to: Vector2) -> GridView {
        if self.same_cell(from, to) || !self.finds(id, from) || !self.holds(to) {
            self
        } else {
            self.without(id, from).with_inserted(Entity { location: to, ..self.found(id, from) })
        }
    }

    /// The grid after `entity` has been put behind the others of the cell that
    /// `location` falls into.
    pub open spec fn with_inserted_at(self, location: Vector2, entity: Entity) -> GridView {
        let column = self.column_of(location.x as int);
        let row = self.row_of(location.y as int);
        self.with_cell(column, row, self.cell(column, row).push(entity))
    }

    /// The grid after every entity has been advanced by one tick where it
    /// sits. Each entity sees the same `others`.
    pub open spec fn stepped(self, gravity: Vector2, others: Seq<Entity>) -> GridView {
        GridView {
            rows: Seq::new(
                self.rows.len(),
                |row: int|
                    Seq::new(
                        self.rows[row].len(),
                        |column: int| stepped_entities(self.rows[row][column], gravity, others),
                    ),
            ),
            ..self
        }
    }

    /// The entities that sit in a cell into which their location does not
    /// fall: row after row, in each row cell after cell.
    pub open spec fn strays(self) -> Seq<Entity> {
        stray_block(self.rows, self.height as int, self.cell_width, self.cell_height)
    }

    /// Those of `entities` whose location falls into no cell of the grid, in
    /// their order.
    pub open spec fn outsiders(self, entities: Seq<Entity>) -> Seq<Entity>
        decreases entities.len(),
    {
        if entities.len() == 0 {
            Seq::empty()
        } else {
            let before = self.outsiders(entities.drop_last());
            if self.holds(entities.last().location) {
                before
            } else {
                before.push(entities.last())
            }
        }
    }

    /// The strays whose location falls into no cell of the grid, in the order
    /// of [`GridView::strays`].
    pub open spec fn lost_strays(self) -> Seq<Entity> {
        self.outsiders(self.strays())
    }

    /// The grid after every stray has been moved to the cell that its location
    /// falls into. In each cell the entities that stay keep their order; behind
    /// them come the strays that belong there, in the order of
    /// [`GridView::strays`]. A stray whose location falls into no cell has left
    /// the grid.
    pub open spec fn reconciled(self) -> GridView {
        GridView {
            rows: Seq::new(
                self.height,
                |row: int|
                    Seq::new(
                        self.width,
                        |column: int|
                            residents(
                                self.rows[row][column],
                                column,
                                row,
                                self.cell_width,
                                self.cell_height,
                            ) + residents(
                                self.strays(),
                                column,
                                row,
                                self.cell_width,
                                self.cell_height,
                            ),
                    ),
            ),
            ..self
        }
    }

    /// What a tick under `gravity` makes of the entity that sits at `index` in
    /// the cell at (`column`, `row`).
    pub open spec fn carried(self, gravity: Vector2, column: int, row: int, index: int) -> Entity {
        self.cell(column, row)[index].spec_update(gravity, snapshots(self.all_entities()))
    }

    /// The entities that a tick under `gravity` carries out of the grid, as
    /// the tick leaves them.
    pub open spec fn lost(self, gravity: Vector2) -> Seq<Entity> {
        self.stepped(gravity, snapshots(self.all_entities())).lost_strays()
    }

    /// The grid after one tick under `gravity`: every entity is advanced where
    /// it sits, seeing the data of all entities as they were before the tick,
    /// and the strays that this leaves are then moved.
    pub open spec fn ticked(self, gravity: Vector2) -> GridView {
        self.stepped(gravity, snapshots(self.all_entities())).reconciled()
    }
}

} // verus!
