use vstd::prelude::*;

use crate::entity::Entity;
use crate::geometry::{Rect, Vector2};
use crate::world::cell::{referents, snapshots, stepped_entities, Cell};
use crate::world::laws::lemma_move_keeps_partition;
use crate::world::grid_view::{
    axis_index, block, residents, sits_in, span, stray_block, stray_span, strays, GridView,
};

verus! {

/// Why the grid could not do what it was asked.
#[derive(Debug, PartialEq, Eq, Structural, Clone, Copy)]
pub enum GridError {
    /// A position falls into no cell of the grid.
    CellOutOfBounds,
}

/// A uniform grid over the world. Each cell owns the entities whose centre
/// falls into it.
#[derive(Debug)]
pub struct Grid {
    width: usize,
    height: usize,
    cells: Vec<Vec<Cell>>,
    cell_width: i32,
    cell_height: i32,
}

impl View for Grid {
    type V = GridView;

    closed spec fn view(&self) -> GridView {
        GridView {
            width: self.width as nat,
            height: self.height as nat,
            cell_width: self.cell_width as int,
            cell_height: self.cell_height as int,
            rows: self.cells@.map_values(|row: Vec<Cell>| row@.map_values(|cell: Cell| cell@)),
        }
    }
}

/// The index, along one axis, of the cell of the length `cell_size` that
/// `position` falls into: the floor of the quotient, also left of the origin.
fn floor_index(position: i64, cell_size: i32) -> (index: i64)
    requires
        cell_size > 0,
        -0x1_0000_0000 <= position <= 0x1_0000_0000,
    ensures
        index as int == axis_index(position as int, cell_size as int),
        -0x1_0000_0000 <= index <= 0x1_0000_0000,
{
    let size: i64 = cell_size as i64;
    if position >= 0 {
        proof {
            assert(0 <= position as int / size as int <= position as int) by (nonlinear_arith)
                requires
                    position >= 0,
                    size > 0,
            ;
        }
        position / size
    } else {
        let mirrored: i64 = -position - 1;
        let quotient: i64 = mirrored / size;
        proof {
            let q = mirrored as int / size as int;
            let r = mirrored as int % size as int;
            assert(0 <= q <= mirrored as int && 0 <= r < size as int && mirrored as int == q
                * size as int + r) by (nonlinear_arith)
                requires
                    mirrored >= 0,
                    size > 0,
                    q == mirrored as int / size as int,
                    r == mirrored as int % size as int,
            ;
            assert(position as int == (-q - 1) * size as int + (size as int - 1 - r))
                by (nonlinear_arith)
                requires
                    mirrored as int == q * size as int + r,
                    mirrored as int == -(position as int) - 1,
            ;
            vstd::arithmetic::div_mod::lemma_fundamental_div_mod_converse_div(
                position as int,
                size as int,
                -q - 1,
                size as int - 1 - r,
            );
        }
        -quotient - 1
    }
}

/// The index of the cell that `position` falls into along one axis with
/// `count` cells of the length `cell_size`, if there is such a cell.
fn index_along(position: i64, cell_size: i32, count: usize) -> (index: Option<usize>)
    requires
        cell_size > 0,
        -0x1_0000_0000 <= position <= 0x1_0000_0000,
    ensures
        match index {
            Some(i) => i as int == axis_index(position as int, cell_size as int) && i < count,
            None => !(0 <= axis_index(position as int, cell_size as int) < count),
        },
{
    let quotient: i64 = floor_index(position, cell_size);
    if quotient >= 0 && (quotient as u64) < (count as u64) {
        Some(quotient as usize)
    } else {
        None
    }
}

/// Whether `location` falls into the cell at (`column`, `row`).
fn falls_into(
    location: &Vector2,
    column: usize,
    row: usize,
    cell_width: i32,
    cell_height: i32,
) -> (inside: bool)
    requires
        cell_width > 0,
        cell_height > 0,
    ensures
        inside == sits_in(
            *location,
            column as int,
            row as int,
            cell_width as int,
            cell_height as int,
        ),
{
    let at_column: i64 = floor_index(location.x as i64, cell_width);
    let at_row: i64 = floor_index(location.y as i64, cell_height);
    at_column >= 0 && at_row >= 0 && at_column as u64 == column as u64 && at_row as u64
        == row as u64
}

/// Takes the strays out of the cell at (`column`, `row`) and puts them behind
/// `moved`, in their order. The entities that stay keep their order.
fn take_strays(
    cell: &mut Cell,
    column: usize,
    row: usize,
    cell_width: i32,
    cell_height: i32,
    moved: &mut Vec<Entity>,
)
    requires
        cell_width > 0,
        cell_height > 0,
    ensures
        final(cell)@ == residents(
            old(cell)@,
            column as int,
            row as int,
            cell_width as int,
            cell_height as int,
        ),
        final(moved)@ == old(moved)@ + strays(
            old(cell)@,
            column as int,
            row as int,
            cell_width as int,
            cell_height as int,
        ),
{
    let ghost initial = cell@;
    let ghost mut seen: int = 0;
    let mut index: usize = 0;
    proof {
        assert(initial.take(0) =~= Seq::<Entity>::empty());
        assert(initial.skip(0) =~= initial);
        assert(moved@ + Seq::<Entity>::empty() =~= moved@);
        assert(Seq::<Entity>::empty() + initial =~= initial);
    }
    while index < cell.entities.len()
        invariant
            cell_width > 0,
            cell_height > 0,
            0 <= seen <= initial.len(),
            index == residents(
                initial.take(seen),
                column as int,
                row as int,
                cell_width as int,
                cell_height as int,
            ).len(),
            cell@ == residents(
                initial.take(seen),
                column as int,
                row as int,
                cell_width as int,
                cell_height as int,
            ) + initial.skip(seen),
            moved@ == old(moved)@ + strays(
                initial.take(seen),
                column as int,
                row as int,
                cell_width as int,
                cell_height as int,
            ),
        decreases initial.len() - seen,
    {
        proof {
            assert(initial.take(seen + 1).drop_last() =~= initial.take(seen));
            assert(initial.take(seen + 1).last() == initial[seen]);
            assert(cell@[index as int] == initial.skip(seen)[0]);
        }
        let ghost kept = residents(
            initial.take(seen),
            column as int,
            row as int,
            cell_width as int,
            cell_height as int,
        );
        if falls_into(&cell.entities[index].location, column, row, cell_width, cell_height) {
            index += 1;
            proof {
                assert(cell@ =~= kept.push(initial[seen]) + initial.skip(seen + 1));
                seen = seen + 1;
            }
        } else {
            let entity = cell.entities.remove(index);
            moved.push(entity);
            proof {
                assert(cell@ =~= kept + initial.skip(seen + 1));
                assert(moved@ =~= old(moved)@ + strays(
                    initial.take(seen),
                    column as int,
                    row as int,
                    cell_width as int,
                    cell_height as int,
                ).push(initial[seen]));
                seen = seen + 1;
            }
        }
    }
    proof {
        assert(initial.take(seen) =~= initial);
        assert(cell@ =~= residents(
            initial,
            column as int,
            row as int,
            cell_width as int,
            cell_height as int,
        ));
    }
}

impl Grid {
    /// A grid without entities over a world of the given extent, in cells of
    /// the given extent. Only whole cells count.
    pub fn new(world_width: i32, world_height: i32, cell_width: i32, cell_height: i32) -> (grid:
        Self)
        requires
            cell_width > 0,
            cell_height > 0,
        ensures
            grid@.wf(),
            grid@ == GridView::empty(
                world_width as int,
                world_height as int,
                cell_width as int,
                cell_height as int,
            ),
    {
        let width: usize = if world_width < 0 {
            0
        } else {
            (world_width / cell_width) as usize
        };
        let height: usize = if world_height < 0 {
            0
        } else {
            (world_height / cell_height) as usize
        };

        let mut cells: Vec<Vec<Cell>> = Vec::new();
        let mut index_y: usize = 0;
        while index_y < height
            invariant
                index_y <= height,
                cells@.len() == index_y,
                forall|y: int| 0 <= y < index_y ==> (#[trigger] cells@[y])@.len() == width,
                forall|y: int, x: int|
                    0 <= y < index_y && 0 <= x < width ==> (#[trigger] cells@[y]@[x])@
                        == Seq::<Entity>::empty(),
            decreases height - index_y,
        {
            let mut row: Vec<Cell> = Vec::new();
            let mut index_x: usize = 0;
            while index_x < width
                invariant
                    index_x <= width,
                    row@.len() == index_x,
                    forall|x: int| 0 <= x < index_x ==> (#[trigger] row@[x])@ == Seq::<
                        Entity,
                    >::empty(),
                decreases width - index_x,
            {
                row.push(Cell::new());
                index_x += 1;
            }
            cells.push(row);
            index_y += 1;
        }

        let grid = Grid { width, height, cells, cell_width, cell_height };
        proof {
            let expected = GridView::empty(
                world_width as int,
                world_height as int,
                cell_width as int,
                cell_height as int,
            );
            assert(grid@.rows.len() == expected.rows.len());
            assert forall|y: int| 0 <= y < grid@.rows.len() implies grid@.rows[y]
                =~= expected.rows[y] by {
                assert forall|x: int| 0 <= x < grid@.rows[y].len() implies grid@.rows[y][x]
                    == expected.rows[y][x] by {
                    assert(grid.cells@[y]@[x]@ == Seq::<Entity>::empty());
                }
            }
            assert(grid@.rows =~= expected.rows);
        }
        grid
    }

    /// The number of columns.
    pub fn width(&self) -> (width: usize)
        ensures
            width == self@.width,
    {
        self.width
    }

    /// The number of rows.
    pub fn height(&self) -> (height: usize)
        ensures
            height == self@.height,
    {
        self.height
    }

    /// The horizontal extent of a cell.
    pub fn cell_width(&self) -> (cell_width: i32)
        ensures
            cell_width == self@.cell_width,
    {
        self.cell_width
    }

    /// The vertical extent of a cell.
    pub fn cell_height(&self) -> (cell_height: i32)
        ensures
            cell_height == self@.cell_height,
    {
        self.cell_height
    }

    /// The cell at (`column`, `row`), if the grid has one there.
    pub fn cell(&self, column: usize, row: usize) -> (cell: Option<&Cell>)
        requires
            self@.wf(),
        ensures
            match cell {
                Some(cell) => self@.has_cell(column as int, row as int) && cell@ == self@.cell(
                    column as int,
                    row as int,
                ),
                None => !self@.has_cell(column as int, row as int),
            },
    {
        if row < self.height && column < self.width {
            proof {
                assert(self@.rows[row as int].len() == self@.width);
            }
            Some(&self.cells[row][column])
        } else {
            None
        }
    }

    /// The column and the row of the cell that the position (`x`, `y`) falls
    /// into, or an error if it falls into none.
    pub fn get_coordinates(&self, x: i32, y: i32) -> (coordinates: Result<(usize, usize), GridError>)
        requires
            self@.wf(),
        ensures
            match coordinates {
                Ok((column, row)) => {
                    &&& self@.holds(Vector2 { x, y })
                    &&& column == self@.column_of(x as int)
                    &&& row == self@.row_of(y as int)
                },
                Err(error) => error == GridError::CellOutOfBounds && !self@.holds(Vector2 { x, y }),
            },
    {
        match index_along(x as i64, self.cell_width, self.width) {
            Some(column) => match index_along(y as i64, self.cell_height, self.height) {
                Some(row) => Ok((column, row)),
                None => Err(GridError::CellOutOfBounds),
            },
            None => Err(GridError::CellOutOfBounds),
        }
    }

    /// Puts `entity` into the cell that its location falls into, behind the
    /// entities that are there. An entity whose location falls into no cell is
    /// rejected and the grid stays as it is.
    pub fn insert(&mut self, entity: Entity) -> (outcome: Result<(), GridError>)
        requires
            old(self)@.wf(),
        ensures
            final(self)@.wf(),
            match outcome {
                Ok(_) => old(self)@.holds(entity.location) && final(self)@ == old(
                    self,
                )@.with_inserted(entity),
                Err(error) => {
                    &&& error == GridError::CellOutOfBounds
                    &&& !old(self)@.holds(entity.location)
                    &&& final(self)@ == old(self)@
                },
            },
    {
        match self.get_coordinates(entity.location.x, entity.location.y) {
            Ok((column, row)) => {
                proof {
                    assert(self@.rows[row as int].len() == self@.width);
                }
                self.cells[row][column].insert(entity);
                proof {
                    let expected = old(self)@.with_inserted(entity);
                    assert forall|y: int| 0 <= y < self@.rows.len() implies self@.rows[y]
                        =~= expected.rows[y] by {
                        assert(old(self)@.rows[y].len() == old(self)@.width);
                    }
                    assert(self@.rows =~= expected.rows);
                }
                Ok(())
            },
            Err(error) => Err(error),
        }
    }

    /// References to the entities of the cells that `query` touches: the cells
    /// from the one that holds its least corner to the one that holds its
    /// greatest corner, row after row, and in each cell the entities in the
    /// order in which they came. Only those cells are visited. A rectangle with
    /// a corner outside the grid is rejected.
    pub fn query(&self, query: Rect) -> (found: Result<Vec<&Entity>, GridError>)
        requires
            self@.wf(),
        ensures
            match found {
                Ok(entities) => self@.covers(query) && referents(entities@) == self@.region(query),
                Err(error) => error == GridError::CellOutOfBounds && !self@.covers(query),
            },
    {
        let first_column: usize = match index_along(query.x as i64, self.cell_width, self.width) {
            Some(column) => column,
            None => {
                return Err(GridError::CellOutOfBounds);
            },
        };
        let first_row: usize = match index_along(query.y as i64, self.cell_height, self.height) {
            Some(row) => row,
            None => {
                return Err(GridError::CellOutOfBounds);
            },
        };
        let last_column: usize = match index_along(
            query.x as i64 + query.w as i64,
            self.cell_width,
            self.width,
        ) {
            Some(column) => column,
            None => {
                return Err(GridError::CellOutOfBounds);
            },
        };
        let last_row: usize = match index_along(
            query.y as i64 + query.h as i64,
            self.cell_height,
            self.height,
        ) {
            Some(row) => row,
            None => {
                return Err(GridError::CellOutOfBounds);
            },
        };
        let ghost rows = self@.rows;
        let ghost column_count = last_column - first_column + 1;

        let mut entities: Vec<&Entity> = Vec::new();
        let mut row: usize = first_row;
        proof {
            assert(referents(entities@) =~= Seq::<Entity>::empty());
        }
        while row <= last_row
            invariant
                self@.wf(),
                rows == self@.rows,
                first_column < self.width,
                last_column < self.width,
                last_row < self.height,
                column_count == last_column - first_column + 1,
                first_row <= row,
                row <= last_row + 1 || row == first_row,
                referents(entities@) == block(
                    rows,
                    first_column as int,
                    column_count,
                    first_row as int,
                    row - first_row,
                ),
            decreases last_row + 1 - row,
        {
            let ghost above = referents(entities@);
            let mut column: usize = first_column;
            proof {
                assert(rows[row as int].len() == self@.width);
                assert(above + Seq::<Entity>::empty() =~= above);
            }
            while column <= last_column
                invariant
                    self@.wf(),
                    rows == self@.rows,
                    row < self.height,
                    rows[row as int].len() == self.width,
                    first_column < self.width,
                    last_column < self.width,
                    first_column <= column,
                    column <= last_column + 1 || column == first_column,
                    referents(entities@) == above + span(
                        rows[row as int],
                        first_column as int,
                        column - first_column,
                    ),
                decreases last_column + 1 - column,
            {
                let ghost before = referents(entities@);
                let cell = &self.cells[row][column];
                let mut index: usize = 0;
                proof {
                    assert(before + cell@.take(0) =~= before);
                }
                while index < cell.entities.len()
                    invariant
                        index <= cell@.len(),
                        referents(entities@) == before + cell@.take(index as int),
                    decreases cell@.len() - index,
                {
                    let ghost so_far = entities@;
                    entities.push(&cell.entities[index]);
                    index += 1;
                    proof {
                        assert(referents(entities@) =~= referents(so_far).push(cell@[index - 1]));
                        assert(cell@.take(index as int) =~= cell@.take(index - 1).push(
                            cell@[index - 1],
                        ));
                        assert(referents(entities@) =~= before + cell@.take(index as int));
                    }
                }
                proof {
                    assert(cell@.take(cell@.len() as int) =~= cell@);
                    assert(cell@ == rows[row as int][column as int]);
                    assert(referents(entities@) =~= above + span(
                        rows[row as int],
                        first_column as int,
                        column + 1 - first_column,
                    ));
                }
                column += 1;
            }
            row += 1;
        }
        Ok(entities)
    }

    /// The data of all entities, without behaviours: row after row, in each row
    /// cell after cell, in each cell in the order in which they came.
    pub fn get_all_cloned(&self) -> (entities: Vec<Entity>)
        requires
            self@.wf(),
        ensures
            entities@ == snapshots(self@.all_entities()),
    {
        let ghost rows = self@.rows;
        let mut entities: Vec<Entity> = Vec::new();
        let mut row: usize = 0;
        proof {
            assert(entities@ =~= snapshots(Seq::<Entity>::empty()));
        }
        while row < self.height
            invariant
                self@.wf(),
                rows == self@.rows,
                row <= self.height,
                entities@ == snapshots(block(rows, 0, self.width as int, 0, row as int)),
            decreases self.height - row,
        {
            let ghost above = block(rows, 0, self.width as int, 0, row as int);
            let mut column: usize = 0;
            proof {
                assert(rows[row as int].len() == self@.width);
                assert(above + Seq::<Entity>::empty() =~= above);
            }
            while column < self.width
                invariant
                    self@.wf(),
                    rows == self@.rows,
                    row < self.height,
                    rows[row as int].len() == self.width,
                    column <= self.width,
                    entities@ == snapshots(above + span(rows[row as int], 0, column as int)),
                decreases self.width - column,
            {
                let ghost before = above + span(rows[row as int], 0, column as int);
                let cell = &self.cells[row][column];
                let mut index: usize = 0;
                proof {
                    assert(before + cell@.take(0) =~= before);
                }
                while index < cell.entities.len()
                    invariant
                        index <= cell@.len(),
                        entities@ == snapshots(before + cell@.take(index as int)),
                    decreases cell@.len() - index,
                {
                    let ghost so_far = entities@;
                    entities.push(cell.entities[index].clone());
                    index += 1;
                    proof {
                        assert(cell@.take(index as int) =~= cell@.take(index - 1).push(
                            cell@[index - 1],
                        ));
                        assert(before + cell@.take(index as int) =~= (before + cell@.take(
                            index - 1,
                        )).push(cell@[index - 1]));
                        assert(entities@ =~= snapshots(before + cell@.take(index as int)));
                    }
                }
                proof {
                    assert(cell@.take(cell@.len() as int) =~= cell@);
                    assert(cell@ == rows[row as int][column as int]);
                    assert(before + cell@ =~= above + span(rows[row as int], 0, column + 1));
                }
                column += 1;
            }
            row += 1;
        }
        entities
    }

    /// Takes the first entity with the identity `id` out of the cell that
    /// `location` falls into. The others keep their order. If the location
    /// falls into no cell, or the cell has no such entity, nothing happens.
    pub fn take_entity(&mut self, id: u32, location: Vector2) -> (taken: Option<Entity>)
        requires
            old(self)@.wf(),
        ensures
            final(self)@.wf(),
            match taken {
                Some(entity) => {
                    &&& old(self)@.finds(id, location)
                    &&& entity == old(self)@.found(id, location)
                    &&& final(self)@ == old(self)@.without(id, location)
                },
                None => !old(self)@.finds(id, location) && final(self)@ == old(self)@,
            },
    {
        let (column, row) = match self.get_coordinates(location.x, location.y) {
            Ok(coordinates) => coordinates,
            Err(_) => {
                return None;
            },
        };
        proof {
            assert(self@.rows[row as int].len() == self@.width);
        }
        let taken = self.cells[row][column].take_by_id(id);
        proof {
            let expected = if taken is Some {
                old(self)@.without(id, location)
            } else {
                old(self)@
            };
            assert forall|y: int| 0 <= y < self@.rows.len() implies self@.rows[y]
                =~= expected.rows[y] by {
                assert(old(self)@.rows[y].len() == old(self)@.width);
            }
            assert(self@.rows =~= expected.rows);
        }
        taken
    }

    /// Moves the first entity with the identity `id` from the cell that
    /// `previous_location` falls into to the cell that `new_location` falls
    /// into, behind the entities that are there. The entity is where
    /// `new_location` says from then on, so that a partitioned grid stays
    /// partitioned.
    ///
    /// Nothing happens if both locations fall into the same cell, or if the
    /// old cell has no entity with that identity. If the cells differ and one
    /// of the locations falls into no cell of the grid, that is an error, and
    /// the grid stays as it is.
    pub fn move_entity(
        &mut self,
        id: u32,
        previous_location: Vector2,
        new_location: Vector2,
    ) -> (outcome: Result<(), GridError>)
        requires
            old(self)@.wf(),
        ensures
            final(self)@.wf(),
            final(self)@ == old(self)@.with_moved(id, previous_location, new_location),
            old(self)@.partitioned() ==> final(self)@.partitioned(),
            match outcome {
                Ok(_) => !old(self)@.move_fails(previous_location, new_location),
                Err(error) => {
                    &&& error == GridError::CellOutOfBounds
                    &&& old(self)@.move_fails(previous_location, new_location)
                    &&& final(self)@ == old(self)@
                },
            },
    {
        proof {
            if self@.partitioned() {
                lemma_move_keeps_partition(self@, id, previous_location, new_location);
            }
        }
        let old_column: i64 = floor_index(previous_location.x as i64, self.cell_width);
        let old_row: i64 = floor_index(previous_location.y as i64, self.cell_height);
        let new_column: i64 = floor_index(new_location.x as i64, self.cell_width);
        let new_row: i64 = floor_index(new_location.y as i64, self.cell_height);
        if old_column == new_column && old_row == new_row {
            return Ok(());
        }
        let (from_column, from_row) = match self.get_coordinates(
            previous_location.x,
            previous_location.y,
        ) {
            Ok(coordinates) => coordinates,
            Err(error) => {
                return Err(error);
            },
        };
        let (column, row) = match self.get_coordinates(new_location.x, new_location.y) {
            Ok(coordinates) => coordinates,
            Err(error) => {
                return Err(error);
            },
        };
        proof {
            assert(self@.rows[from_row as int].len() == self@.width);
        }
        let taken = self.cells[from_row][from_column].take_by_id(id);
        let ghost without = self@;
        proof {
            let expected = if taken is Some {
                old(self)@.without(id, previous_location)
            } else {
                old(self)@
            };
            assert forall|y: int| 0 <= y < self@.rows.len() implies self@.rows[y]
                =~= expected.rows[y] by {
                assert(old(self)@.rows[y].len() == old(self)@.width);
            }
            assert(self@.rows =~= expected.rows);
            assert(self@ == expected);
        }
        if let Some(mut entity) = taken {
            proof {
                assert(self@.rows[row as int].len() == self@.width);
            }
            entity.location = new_location;
            self.cells[row][column].insert(entity);
            proof {
                let expected = without.with_inserted(entity);
                assert forall|y: int| 0 <= y < self@.rows.len() implies self@.rows[y]
                    =~= expected.rows[y] by {
                    assert(without.rows[y].len() == without.width);
                }
                assert(self@.rows =~= expected.rows);
            }
        }
        Ok(())
    }

    /// Tells the grid that `entity`, which was at `old_location`, is now where
    /// its own location says: the entity with its identity moves from the one
    /// cell to the other, and takes the new location, as [`Grid::move_entity`]
    /// describes.
    pub fn update_entity_location(&mut self, old_location: Vector2, entity: &Entity) -> (outcome:
        Result<(), GridError>)
        requires
            old(self)@.wf(),
        ensures
            final(self)@.wf(),
            final(self)@ == old(self)@.with_moved(entity.id, old_location, entity.location),
            old(self)@.partitioned() ==> final(self)@.partitioned(),
            match outcome {
                Ok(_) => !old(self)@.move_fails(old_location, entity.location),
                Err(error) => {
                    &&& error == GridError::CellOutOfBounds
                    &&& old(self)@.move_fails(old_location, entity.location)
                    &&& final(self)@ == old(self)@
                },
            },
    {
        self.move_entity(entity.id, old_location, entity.location)
    }

    /// Advances every entity by one tick where it sits: row after row, in each
    /// row cell after cell, in each cell in order. Each entity sees the same
    /// `others`. No entity changes its cell here, so some may sit in the wrong
    /// one afterwards; [`Grid::reconcile`] mends that.
    pub fn update_entities(&mut self, gravity: &Vector2, others: &Vec<Entity>)
        requires
            old(self)@.wf(),
        ensures
            final(self)@.wf(),
            final(self)@ == old(self)@.stepped(*gravity, others@),
    {
        let mut row: usize = 0;
        while row < self.height
            invariant
                self@.wf(),
                old(self)@.wf(),
                self@.width == old(self)@.width,
                self@.height == old(self)@.height,
                self@.cell_width == old(self)@.cell_width,
                self@.cell_height == old(self)@.cell_height,
                row <= self.height,
                forall|y: int, x: int|
                    0 <= y < row && 0 <= x < self.width ==> #[trigger] self@.rows[y][x]
                        == stepped_entities(old(self)@.rows[y][x], *gravity, others@),
                forall|y: int, x: int|
                    row <= y < self.height && 0 <= x < self.width ==> #[trigger] self@.rows[y][x]
                        == old(self)@.rows[y][x],
            decreases self.height - row,
        {
            let mut column: usize = 0;
            while column < self.width
                invariant
                    self@.wf(),
                    old(self)@.wf(),
                    self@.width == old(self)@.width,
                    self@.height == old(self)@.height,
                    self@.cell_width == old(self)@.cell_width,
                    self@.cell_height == old(self)@.cell_height,
                    row < self.height,
                    column <= self.width,
                    forall|y: int, x: int|
                        0 <= y < row && 0 <= x < self.width ==> #[trigger] self@.rows[y][x]
                            == stepped_entities(old(self)@.rows[y][x], *gravity, others@),
                    forall|x: int|
                        0 <= x < column ==> #[trigger] self@.rows[row as int][x]
                            == stepped_entities(old(self)@.rows[row as int][x], *gravity, others@),
                    forall|x: int|
                        column <= x < self.width ==> #[trigger] self@.rows[row as int][x] == old(
                            self,
                        )@.rows[row as int][x],
                    forall|y: int, x: int|
                        row < y < self.height && 0 <= x < self.width
                            ==> #[trigger] self@.rows[y][x] == old(self)@.rows[y][x],
                decreases self.width - column,
            {
                let ghost before = self@;
                proof {
                    assert(self@.rows[row as int].len() == self@.width);
                }
                self.cells[row][column].update_entities(gravity, others);
                proof {
                    assert(before.rows[row as int][column as int] == old(
                        self,
                    )@.rows[row as int][column as int]);
                    assert(self@.rows[row as int][column as int] == stepped_entities(
                        before.rows[row as int][column as int],
                        *gravity,
                        others@,
                    ));
                    assert forall|y: int| 0 <= y < self@.rows.len() implies (
                    #[trigger] self@.rows[y]).len() == self@.width by {
                        assert(before.rows[y].len() == before.width);
                    }
                    assert forall|y: int, x: int|
                        0 <= y < self.height && 0 <= x < self.width && !(y == row && x
                            == column) implies #[trigger] self@.rows[y][x] == before.rows[y][x] by {
                        assert(before.rows[y].len() == before.width);
                    }
                }
                column += 1;
            }
            row += 1;
        }
        proof {
            let expected = old(self)@.stepped(*gravity, others@);
            assert forall|y: int| 0 <= y < self@.rows.len() implies self@.rows[y]
                =~= expected.rows[y] by {
                assert(self@.rows[y].len() == self@.width);
                assert(old(self)@.rows[y].len() == self@.width);
                assert forall|x: int| 0 <= x < self@.rows[y].len() implies self@.rows[y][x]
                    == expected.rows[y][x] by {}
            }
            assert(self@.rows =~= expected.rows);
        }
    }

    /// Moves every stray to the cell that its location falls into, behind the
    /// entities that are there, in the order of [`GridView::strays`]. A stray
    /// whose location falls into no cell leaves the grid and is handed back;
    /// the other strays are moved all the same.
    pub fn reconcile(&mut self) -> (lost: Vec<Entity>)
        requires
            old(self)@.wf(),
        ensures
            final(self)@.wf(),
            final(self)@ == old(self)@.reconciled(),
            lost@ == old(self)@.lost_strays(),
    {
        let ghost start = self@;
        let ghost cell_width = self.cell_width as int;
        let ghost cell_height = self.cell_height as int;
        let mut moved: Vec<Entity> = Vec::new();
        let mut row: usize = 0;
        while row < self.height
            invariant
                self@.wf(),
                start.wf(),
                self@.width == start.width,
                self@.height == start.height,
                self@.cell_width == start.cell_width == cell_width,
                self@.cell_height == start.cell_height == cell_height,
                row <= self.height,
                moved@ == stray_block(start.rows, row as int, cell_width, cell_height),
                forall|y: int, x: int|
                    0 <= y < row && 0 <= x < self.width ==> #[trigger] self@.rows[y][x]
                        == residents(start.rows[y][x], x, y, cell_width, cell_height),
                forall|y: int, x: int|
                    row <= y < self.height && 0 <= x < self.width ==> #[trigger] self@.rows[y][x]
                        == start.rows[y][x],
            decreases self.height - row,
        {
            let ghost above = moved@;
            let mut column: usize = 0;
            proof {
                assert(above + Seq::<Entity>::empty() =~= above);
            }
            while column < self.width
                invariant
                    self@.wf(),
                    start.wf(),
                    self@.width == start.width,
                    self@.height == start.height,
                    self@.cell_width == start.cell_width == cell_width,
                    self@.cell_height == start.cell_height == cell_height,
                    row < self.height,
                    column <= self.width,
                    moved@ == above + stray_span(
                        start.rows[row as int],
                        row as int,
                        column as int,
                        cell_width,
                        cell_height,
                    ),
                    forall|y: int, x: int|
                        0 <= y < row && 0 <= x < self.width ==> #[trigger] self@.rows[y][x]
                            == residents(start.rows[y][x], x, y, cell_width, cell_height),
                    forall|x: int|
                        0 <= x < column ==> #[trigger] self@.rows[row as int][x] == residents(
                            start.rows[row as int][x],
                            x,
                            row as int,
                            cell_width,
                            cell_height,
                        ),
                    forall|x: int|
                        column <= x < self.width ==> #[trigger] self@.rows[row as int][x]
                            == start.rows[row as int][x],
                    forall|y: int, x: int|
                        row < y < self.height && 0 <= x < self.width
                            ==> #[trigger] self@.rows[y][x] == start.rows[y][x],
                decreases self.width - column,
            {
                let ghost before = self@;
                let ghost gathered = moved@;
                proof {
                    assert(self@.rows[row as int].len() == self@.width);
                }
                take_strays(
                    &mut self.cells[row][column],
                    column,
                    row,
                    self.cell_width,
                    self.cell_height,
                    &mut moved,
                );
                proof {
                    assert(before.rows[row as int][column as int]
                        == start.rows[row as int][column as int]);
                    assert(self@.rows[row as int][column as int] == residents(
                        before.rows[row as int][column as int],
                        column as int,
                        row as int,
                        cell_width,
                        cell_height,
                    ));
                    assert(moved@ == gathered + strays(
                        before.rows[row as int][column as int],
                        column as int,
                        row as int,
                        cell_width,
                        cell_height,
                    ));
                    assert forall|y: int| 0 <= y < self@.rows.len() implies (
                    #[trigger] self@.rows[y]).len() == self@.width by {
                        assert(before.rows[y].len() == before.width);
                    }
                    assert forall|y: int, x: int|
                        0 <= y < self.height && 0 <= x < self.width && !(y == row && x
                            == column) implies #[trigger] self@.rows[y][x] == before.rows[y][x] by {
                        assert(before.rows[y].len() == before.width);
                    }
                    assert(moved@ =~= above + stray_span(
                        start.rows[row as int],
                        row as int,
                        column + 1,
                        cell_width,
                        cell_height,
                    ));
                }
                column += 1;
            }
            proof {
                assert(start.rows[row as int].len() == self.width);
            }
            row += 1;
        }

        let ghost all_strays = moved@;
        let mut lost: Vec<Entity> = Vec::new();
        let mut index: usize = 0;
        proof {
            assert(all_strays.take(0) =~= Seq::<Entity>::empty());
        }
        while index < moved.len()
            invariant
                self@.wf(),
                start.wf(),
                self@.width == start.width,
                self@.height == start.height,
                self@.cell_width == start.cell_width == cell_width,
                self@.cell_height == start.cell_height == cell_height,
                all_strays == start.strays(),
                index <= moved@.len(),
                moved@.len() == all_strays.len(),
                forall|i: int| index <= i < moved@.len() ==> #[trigger] moved@[i] == all_strays[i],
                forall|y: int, x: int|
                    0 <= y < self.height && 0 <= x < self.width ==> #[trigger] self@.rows[y][x]
                        == residents(start.rows[y][x], x, y, cell_width, cell_height) + residents(
                        all_strays.take(index as int),
                        x,
                        y,
                        cell_width,
                        cell_height,
                    ),
                lost@ == start.outsiders(all_strays.take(index as int)),
            decreases moved@.len() - index,
        {
            let ghost before = self@;
            let mut entity = Entity::new();
            core::mem::swap(&mut entity, &mut moved[index]);
            proof {
                assert(entity == all_strays[index as int]);
                assert(all_strays.take(index + 1).drop_last() =~= all_strays.take(index as int));
                assert(all_strays.take(index + 1).last() == entity);
                assert(before.holds(entity.location) == start.holds(entity.location));
            }
            if self.get_coordinates(entity.location.x, entity.location.y).is_ok() {
                let _ = self.insert(entity);
                proof {
                    assert forall|y: int, x: int|
                        0 <= y < self.height && 0 <= x < self.width implies #[trigger] self@.rows[y][x]
                            == residents(start.rows[y][x], x, y, cell_width, cell_height)
                            + residents(
                            all_strays.take(index + 1),
                            x,
                            y,
                            cell_width,
                            cell_height,
                        ) by {
                        assert(before.rows[y].len() == before.width);
                        let here = residents(start.rows[y][x], x, y, cell_width, cell_height);
                        let came = residents(
                            all_strays.take(index as int),
                            x,
                            y,
                            cell_width,
                            cell_height,
                        );
                        assert(before.rows[y][x] == here + came);
                        if sits_in(entity.location, x, y, cell_width, cell_height) {
                            assert(self@.rows[y][x] == before.rows[y][x].push(entity));
                            assert((here + came).push(entity) =~= here + came.push(entity));
                        } else {
                            assert(self@.rows[y][x] == before.rows[y][x]);
                        }
                    }
                }
            } else {
                proof {
                    assert forall|y: int, x: int|
                        0 <= y < self.height && 0 <= x < self.width implies !sits_in(
                        entity.location,
                        x,
                        y,
                        cell_width,
                        cell_height,
                    ) by {}
                }
                lost.push(entity);
            }
            index += 1;
        }
        proof {
            assert(all_strays.take(index as int) =~= all_strays);
            let expected = start.reconciled();
            assert forall|y: int| 0 <= y < self@.rows.len() implies self@.rows[y]
                =~= expected.rows[y] by {
                assert(self@.rows[y].len() == self@.width);
                assert forall|x: int| 0 <= x < self@.rows[y].len() implies self@.rows[y][x]
                    == expected.rows[y][x] by {}
            }
            assert(self@.rows =~= expected.rows);
        }
        lost
    }
}

} // verus!
