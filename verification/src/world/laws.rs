//! What holds of the grid whatever it contains, proved from the model.

use vstd::prelude::*;

use crate::entity::Entity;
use crate::geometry::{Rect, Vector2};
use crate::physics_system::laws::lemma_terminal_velocity;
use crate::physics_system::player_physics_system::TERMINAL_VELOCITY;
use crate::world::grid_view::{
    block, residents, sits_in, span, stray_block, stray_span, strays, GridView,
};

verus! {

/// Every resident of a cell sits in that cell and was among the entities
/// that the residents were picked from.
pub proof fn lemma_residents(
    entities: Seq<Entity>,
    column: int,
    row: int,
    cell_width: int,
    cell_height: int,
)
    ensures
        forall|index: int|
            0 <= index < residents(entities, column, row, cell_width, cell_height).len() ==> {
                let resident = #[trigger] residents(
                    entities,
                    column,
                    row,
                    cell_width,
                    cell_height,
                )[index];
                sits_in(resident.location, column, row, cell_width, cell_height)
                    && entities.contains(resident)
            },
    decreases entities.len(),
{
    if entities.len() > 0 {
        let before = entities.drop_last();
        lemma_residents(before, column, row, cell_width, cell_height);
        let picked = residents(entities, column, row, cell_width, cell_height);
        let picked_before = residents(before, column, row, cell_width, cell_height);
        assert forall|index: int| 0 <= index < picked.len() implies sits_in(
            (#[trigger] picked[index]).location,
            column,
            row,
            cell_width,
            cell_height,
        ) && entities.contains(picked[index]) by {
            if index < picked_before.len() {
                assert(picked[index] == picked_before[index]);
                let from = choose|from: int|
                    0 <= from < before.len() && before[from] == picked_before[index];
                assert(entities[from] == picked[index]);
            } else {
                assert(picked[index] == entities.last());
                assert(entities[entities.len() - 1] == picked[index]);
            }
        }
    }
}

/// An entity that sits in a cell is among the residents picked for that cell
/// from any sequence that contains it.
pub proof fn lemma_resident_is_picked(
    entities: Seq<Entity>,
    entity: Entity,
    column: int,
    row: int,
    cell_width: int,
    cell_height: int,
)
    requires
        entities.contains(entity),
        sits_in(entity.location, column, row, cell_width, cell_height),
    ensures
        residents(entities, column, row, cell_width, cell_height).contains(entity),
    decreases entities.len(),
{
    let at = choose|at: int| 0 <= at < entities.len() && entities[at] == entity;
    let picked = residents(entities, column, row, cell_width, cell_height);
    if at == entities.len() - 1 {
        assert(picked[picked.len() - 1] == entity);
    } else {
        let before = entities.drop_last();
        assert(before[at] == entity);
        lemma_resident_is_picked(before, entity, column, row, cell_width, cell_height);
        let picked_before = residents(before, column, row, cell_width, cell_height);
        let found = choose|found: int|
            0 <= found < picked_before.len() && picked_before[found] == entity;
        assert(picked[found] == entity);
    }
}

/// An entity that does not sit in the cell it is kept in is among the strays
/// of that cell.
pub proof fn lemma_stray_is_picked(
    entities: Seq<Entity>,
    entity: Entity,
    column: int,
    row: int,
    cell_width: int,
    cell_height: int,
)
    requires
        entities.contains(entity),
        !sits_in(entity.location, column, row, cell_width, cell_height),
    ensures
        strays(entities, column, row, cell_width, cell_height).contains(entity),
    decreases entities.len(),
{
    let at = choose|at: int| 0 <= at < entities.len() && entities[at] == entity;
    let picked = strays(entities, column, row, cell_width, cell_height);
    if at == entities.len() - 1 {
        assert(picked[picked.len() - 1] == entity);
    } else {
        let before = entities.drop_last();
        assert(before[at] == entity);
        lemma_stray_is_picked(before, entity, column, row, cell_width, cell_height);
        let picked_before = strays(before, column, row, cell_width, cell_height);
        let found = choose|found: int|
            0 <= found < picked_before.len() && picked_before[found] == entity;
        assert(picked[found] == entity);
    }
}

/// A grid without entities is well formed and partitioned.
pub proof fn lemma_empty_grid(
    world_width: int,
    world_height: int,
    cell_width: int,
    cell_height: int,
)
    requires
        cell_width > 0,
        cell_height > 0,
    ensures
        GridView::empty(world_width, world_height, cell_width, cell_height).wf(),
        GridView::empty(world_width, world_height, cell_width, cell_height).partitioned(),
{
    if world_width >= 0 {
        assert(world_width / cell_width >= 0) by (nonlinear_arith)
            requires
                world_width >= 0,
                cell_width > 0,
        ;
    }
    if world_height >= 0 {
        assert(world_height / cell_height >= 0) by (nonlinear_arith)
            requires
                world_height >= 0,
                cell_height > 0,
        ;
    }
}

/// Insertion keeps the partition: in a partitioned grid, an entity that is
/// put into the cell that its location falls into leaves the grid partitioned.
pub proof fn lemma_insert_keeps_partition(grid: GridView, entity: Entity)
    requires
        grid.wf(),
        grid.partitioned(),
        grid.holds(entity.location),
    ensures
        grid.with_inserted(entity).wf(),
        grid.with_inserted(entity).partitioned(),
{
    let after = grid.with_inserted(entity);
    let at_column = grid.column_of(entity.location.x as int);
    let at_row = grid.row_of(entity.location.y as int);
    assert forall|row: int| 0 <= row < after.height implies (#[trigger] after.rows[row]).len()
        == after.width by {
        assert(grid.rows[row].len() == grid.width);
    }
    assert forall|row: int, column: int, index: int|
        0 <= row < after.rows.len() && 0 <= column < after.rows[row].len() && 0 <= index
            < after.rows[row][column].len() implies sits_in(
        (#[trigger] after.rows[row][column][index]).location,
        column,
        row,
        after.cell_width,
        after.cell_height,
    ) by {
        assert(grid.rows[row].len() == grid.width);
        if row == at_row && column == at_column && index == grid.rows[row][column].len() {
        } else {
            assert(after.rows[row][column][index] == grid.rows[row][column][index]);
        }
    }
}

/// Removal keeps the partition: a partitioned grid is still partitioned
/// after an entity has been taken out of it.
pub proof fn lemma_removal_keeps_partition(grid: GridView, id: u32, location: Vector2)
    requires
        grid.wf(),
        grid.partitioned(),
        grid.finds(id, location),
    ensures
        grid.without(id, location).wf(),
        grid.without(id, location).partitioned(),
{
    let after = grid.without(id, location);
    let at_column = grid.column_of(location.x as int);
    let at_row = grid.row_of(location.y as int);
    let at = crate::world::cell::position_of(grid.cell(at_column, at_row), id);
    crate::world::cell::lemma_position_of(grid.cell(at_column, at_row), id);
    assert forall|row: int| 0 <= row < after.height implies (#[trigger] after.rows[row]).len()
        == after.width by {
        assert(grid.rows[row].len() == grid.width);
    }
    assert forall|row: int, column: int, index: int|
        0 <= row < after.rows.len() && 0 <= column < after.rows[row].len() && 0 <= index
            < after.rows[row][column].len() implies sits_in(
        (#[trigger] after.rows[row][column][index]).location,
        column,
        row,
        after.cell_width,
        after.cell_height,
    ) by {
        assert(grid.rows[row].len() == grid.width);
        if row == at_row && column == at_column {
            if index < at {
                assert(after.rows[row][column][index] == grid.rows[row][column][index]);
            } else {
                assert(after.rows[row][column][index] == grid.rows[row][column][index + 1]);
            }
        } else {
            assert(after.rows[row][column][index] == grid.rows[row][column][index]);
        }
    }
}

/// A move keeps the partition: a partitioned grid is still partitioned after
/// an entity has been moved from one cell to another, because the entity
/// takes the new location with it.
pub proof fn lemma_move_keeps_partition(grid: GridView, id: u32, from: Vector2, to: Vector2)
    requires
        grid.wf(),
        grid.partitioned(),
    ensures
        grid.with_moved(id, from, to).wf(),
        grid.with_moved(id, from, to).partitioned(),
{
    if !grid.same_cell(from, to) && grid.finds(id, from) && grid.holds(to) {
        lemma_removal_keeps_partition(grid, id, from);
        lemma_insert_keeps_partition(
            grid.without(id, from),
            Entity { location: to, ..grid.found(id, from) },
        );
    }
}

/// The partition is restored at the end of every tick: whatever a grid looked
/// like, once its strays have been moved every entity that is still in it sits
/// in the cell that its location falls into.
pub proof fn lemma_reconciled_is_partitioned(grid: GridView)
    requires
        grid.wf(),
    ensures
        grid.reconciled().wf(),
        grid.reconciled().partitioned(),
{
    let after = grid.reconciled();
    assert forall|row: int, column: int, index: int|
        0 <= row < after.rows.len() && 0 <= column < after.rows[row].len() && 0 <= index
            < after.rows[row][column].len() implies sits_in(
        (#[trigger] after.rows[row][column][index]).location,
        column,
        row,
        after.cell_width,
        after.cell_height,
    ) by {
        let stayed = residents(
            grid.rows[row][column],
            column,
            row,
            grid.cell_width,
            grid.cell_height,
        );
        let came = residents(grid.strays(), column, row, grid.cell_width, grid.cell_height);
        lemma_residents(grid.rows[row][column], column, row, grid.cell_width, grid.cell_height);
        lemma_residents(grid.strays(), column, row, grid.cell_width, grid.cell_height);
        assert(after.rows[row][column] == stayed + came);
        if index < stayed.len() {
            assert(after.rows[row][column][index] == stayed[index]);
        } else {
            assert(after.rows[row][column][index] == came[index - stayed.len()]);
        }
    }
}

/// After a tick every entity of the grid sits in the cell that its location
/// falls into.
pub proof fn lemma_tick_restores_partition(grid: GridView, gravity: Vector2)
    requires
        grid.wf(),
    ensures
        grid.ticked(gravity).wf(),
        grid.ticked(gravity).partitioned(),
{
    let stepped = grid.stepped(gravity, crate::world::cell::snapshots(grid.all_entities()));
    assert forall|row: int| 0 <= row < stepped.height implies (#[trigger] stepped.rows[row]).len()
        == stepped.width by {
        assert(grid.rows[row].len() == grid.width);
    }
    lemma_reconciled_is_partitioned(stepped);
}

/// An entity is in a concatenation exactly if it is in one of the two parts.
pub proof fn lemma_concat_contains(front: Seq<Entity>, back: Seq<Entity>, entity: Entity)
    ensures
        (front + back).contains(entity) <==> front.contains(entity) || back.contains(entity),
{
    let both = front + back;
    if both.contains(entity) {
        let at = choose|at: int| 0 <= at < both.len() && both[at] == entity;
        if at < front.len() {
            assert(front[at] == entity);
        } else {
            assert(back[at - front.len()] == entity);
        }
    }
    if front.contains(entity) {
        let at = choose|at: int| 0 <= at < front.len() && front[at] == entity;
        assert(both[at] == entity);
    }
    if back.contains(entity) {
        let at = choose|at: int| 0 <= at < back.len() && back[at] == entity;
        assert(both[front.len() + at] == entity);
    }
}

/// Whether `entity` is in one of `count` neighbouring cells of a row, from the
/// cell at `first` on.
pub open spec fn in_span(cells: Seq<Seq<Entity>>, first: int, count: int, entity: Entity) -> bool {
    exists|column: int| first <= column < first + count && (#[trigger] cells[column]).contains(entity)
}

/// Whether `entity` is in one of the cells of a block.
pub open spec fn in_block(
    rows: Seq<Seq<Seq<Entity>>>,
    first_column: int,
    column_count: int,
    first_row: int,
    row_count: int,
    entity: Entity,
) -> bool {
    exists|row: int|
        first_row <= row < first_row + row_count && in_span(
            #[trigger] rows[row],
            first_column,
            column_count,
            entity,
        )
}

/// The entities of a span are those of its cells.
pub proof fn lemma_span_contains(cells: Seq<Seq<Entity>>, first: int, count: int, entity: Entity)
    ensures
        span(cells, first, count).contains(entity) <==> in_span(cells, first, count, entity),
    decreases count,
{
    if count > 0 {
        lemma_span_contains(cells, first, count - 1, entity);
        lemma_concat_contains(span(cells, first, count - 1), cells[first + count - 1], entity);
        if in_span(cells, first, count, entity) {
            let column = choose|column: int|
                first <= column < first + count && (#[trigger] cells[column]).contains(entity);
            if column < first + count - 1 {
                assert(in_span(cells, first, count - 1, entity));
            }
        }
        if in_span(cells, first, count - 1, entity) {
            let column = choose|column: int|
                first <= column < first + count - 1 && (#[trigger] cells[column]).contains(entity);
            assert(cells[column].contains(entity));
        }
        if cells[first + count - 1].contains(entity) {
            assert(in_span(cells, first, count, entity));
        }
    }
}

/// The entities of a block are those of its cells.
pub proof fn lemma_block_contains(
    rows: Seq<Seq<Seq<Entity>>>,
    first_column: int,
    column_count: int,
    first_row: int,
    row_count: int,
    entity: Entity,
)
    ensures
        block(rows, first_column, column_count, first_row, row_count).contains(entity) <==> in_block(
            rows,
            first_column,
            column_count,
            first_row,
            row_count,
            entity,
        ),
    decreases row_count,
{
    if row_count > 0 {
        let last = first_row + row_count - 1;
        lemma_block_contains(rows, first_column, column_count, first_row, row_count - 1, entity);
        lemma_span_contains(rows[last], first_column, column_count, entity);
        lemma_concat_contains(
            block(rows, first_column, column_count, first_row, row_count - 1),
            span(rows[last], first_column, column_count),
            entity,
        );
        if in_block(rows, first_column, column_count, first_row, row_count, entity) {
            let row = choose|row: int|
                first_row <= row < first_row + row_count && in_span(
                    #[trigger] rows[row],
                    first_column,
                    column_count,
                    entity,
                );
            if row < last {
                assert(in_block(rows, first_column, column_count, first_row, row_count - 1, entity));
            }
        }
        if in_block(rows, first_column, column_count, first_row, row_count - 1, entity) {
            let row = choose|row: int|
                first_row <= row < first_row + row_count - 1 && in_span(
                    #[trigger] rows[row],
                    first_column,
                    column_count,
                    entity,
                );
            assert(in_span(rows[row], first_column, column_count, entity));
        }
        if in_span(rows[last], first_column, column_count, entity) {
            assert(in_block(rows, first_column, column_count, first_row, row_count, entity));
        }
    }
}

/// A range query is complete and exact: in a partitioned grid, the entities
/// of the cells that a rectangle touches are those entities of the grid whose
/// location falls into one of these cells, and no others.
pub proof fn lemma_query_complete(grid: GridView, rect: Rect, entity: Entity)
    requires
        grid.wf(),
        grid.partitioned(),
        grid.covers(rect),
    ensures
        grid.region(rect).contains(entity) <==> {
            &&& grid.all_entities().contains(entity)
            &&& grid.first_column(rect) <= grid.column_of(entity.location.x as int)
                <= grid.last_column(rect)
            &&& grid.first_row(rect) <= grid.row_of(entity.location.y as int) <= grid.last_row(
                rect,
            )
        },
{
    let first_column = grid.first_column(rect);
    let last_column = grid.last_column(rect);
    let first_row = grid.first_row(rect);
    let last_row = grid.last_row(rect);
    let column_count = last_column - first_column + 1;
    let row_count = last_row - first_row + 1;
    lemma_block_contains(grid.rows, first_column, column_count, first_row, row_count, entity);
    lemma_block_contains(grid.rows, 0, grid.width as int, 0, grid.height as int, entity);
    if grid.region(rect).contains(entity) {
        let row = choose|row: int|
            first_row <= row < first_row + row_count && in_span(
                #[trigger] grid.rows[row],
                first_column,
                column_count,
                entity,
            );
        let column = choose|column: int|
            first_column <= column < first_column + column_count && (
            #[trigger] grid.rows[row][column]).contains(entity);
        let index = choose|index: int|
            0 <= index < grid.rows[row][column].len() && grid.rows[row][column][index] == entity;
        assert(grid.rows[row].len() == grid.width);
        assert(sits_in(
            grid.rows[row][column][index].location,
            column,
            row,
            grid.cell_width,
            grid.cell_height,
        ));
        assert(grid.rows[row][column].contains(entity));
        assert(in_span(grid.rows[row], 0, grid.width as int, entity));
        assert(in_block(grid.rows, 0, grid.width as int, 0, grid.height as int, entity));
    }
    if grid.all_entities().contains(entity) && first_column <= grid.column_of(
        entity.location.x as int,
    ) <= last_column && first_row <= grid.row_of(entity.location.y as int) <= last_row {
        let row = choose|row: int|
            0 <= row < grid.height && in_span(#[trigger] grid.rows[row], 0, grid.width as int, entity);
        let column = choose|column: int|
            0 <= column < grid.width && (#[trigger] grid.rows[row][column]).contains(entity);
        let index = choose|index: int|
            0 <= index < grid.rows[row][column].len() && grid.rows[row][column][index] == entity;
        assert(grid.rows[row].len() == grid.width);
        assert(sits_in(
            grid.rows[row][column][index].location,
            column,
            row,
            grid.cell_width,
            grid.cell_height,
        ));
        assert(grid.rows[row][column].contains(entity));
        assert(in_span(grid.rows[row], first_column, column_count, entity));
        assert(in_block(grid.rows, first_column, column_count, first_row, row_count, entity));
    }
}

/// The strays of a cell are among the strays of the row that the cell is in.
pub proof fn lemma_stray_span_contains(
    cells: Seq<Seq<Entity>>,
    row: int,
    count: int,
    column: int,
    cell_width: int,
    cell_height: int,
    entity: Entity,
)
    requires
        0 <= column < count,
        strays(cells[column], column, row, cell_width, cell_height).contains(entity),
    ensures
        stray_span(cells, row, count, cell_width, cell_height).contains(entity),
    decreases count,
{
    lemma_concat_contains(
        stray_span(cells, row, count - 1, cell_width, cell_height),
        strays(cells[count - 1], count - 1, row, cell_width, cell_height),
        entity,
    );
    if column < count - 1 {
        lemma_stray_span_contains(cells, row, count - 1, column, cell_width, cell_height, entity);
    }
}

/// The strays of a row are among the strays of the grid.
pub proof fn lemma_stray_block_contains(
    rows: Seq<Seq<Seq<Entity>>>,
    count: int,
    row: int,
    cell_width: int,
    cell_height: int,
    entity: Entity,
)
    requires
        0 <= row < count,
        stray_span(rows[row], row, rows[row].len() as int, cell_width, cell_height).contains(entity),
    ensures
        stray_block(rows, count, cell_width, cell_height).contains(entity),
    decreases count,
{
    lemma_concat_contains(
        stray_block(rows, count - 1, cell_width, cell_height),
        stray_span(rows[count - 1], count - 1, rows[count - 1].len() as int, cell_width, cell_height),
        entity,
    );
    if row < count - 1 {
        lemma_stray_block_contains(rows, count - 1, row, cell_width, cell_height, entity);
    }
}

/// Relocation is correct: an entity that a tick carries from its cell into
/// another cell of the grid is, after the tick, among the entities of the
/// new cell and not among those of the old one.
pub proof fn lemma_relocation(grid: GridView, gravity: Vector2, column: int, row: int, index: int)
    requires
        grid.wf(),
        grid.has_cell(column, row),
        0 <= index < grid.cell(column, row).len(),
        grid.holds(grid.carried(gravity, column, row, index).location),
        !sits_in(
            grid.carried(gravity, column, row, index).location,
            column,
            row,
            grid.cell_width,
            grid.cell_height,
        ),
    ensures
        ({
            let entity = grid.carried(gravity, column, row, index);
            let after = grid.ticked(gravity);
            &&& after.cell(
                after.column_of(entity.location.x as int),
                after.row_of(entity.location.y as int),
            ).contains(entity)
            &&& !after.cell(column, row).contains(entity)
        }),
{
    let entity = grid.carried(gravity, column, row, index);
    let stepped = grid.stepped(gravity, crate::world::cell::snapshots(grid.all_entities()));
    let after = grid.ticked(gravity);
    let to_column = grid.column_of(entity.location.x as int);
    let to_row = grid.row_of(entity.location.y as int);
    assert(grid.rows[row].len() == grid.width);
    assert forall|y: int| 0 <= y < stepped.height implies (#[trigger] stepped.rows[y]).len()
        == stepped.width by {
        assert(grid.rows[y].len() == grid.width);
    }
    assert(stepped.rows[row][column][index] == entity);
    assert(stepped.rows[row][column].contains(entity));
    lemma_stray_is_picked(
        stepped.rows[row][column],
        entity,
        column,
        row,
        grid.cell_width,
        grid.cell_height,
    );
    lemma_stray_span_contains(
        stepped.rows[row],
        row,
        stepped.rows[row].len() as int,
        column,
        grid.cell_width,
        grid.cell_height,
        entity,
    );
    lemma_stray_block_contains(
        stepped.rows,
        stepped.height as int,
        row,
        grid.cell_width,
        grid.cell_height,
        entity,
    );
    lemma_resident_is_picked(
        stepped.strays(),
        entity,
        to_column,
        to_row,
        grid.cell_width,
        grid.cell_height,
    );
    lemma_concat_contains(
        residents(
            stepped.rows[to_row][to_column],
            to_column,
            to_row,
            grid.cell_width,
            grid.cell_height,
        ),
        residents(stepped.strays(), to_column, to_row, grid.cell_width, grid.cell_height),
        entity,
    );
    lemma_reconciled_is_partitioned(stepped);
    if after.cell(column, row).contains(entity) {
        let at = choose|at: int|
            0 <= at < after.rows[row][column].len() && after.rows[row][column][at] == entity;
        assert(sits_in(
            after.rows[row][column][at].location,
            column,
            row,
            after.cell_width,
            after.cell_height,
        ));
    }
}

/// Every stray of a cell was kept in that cell.
pub proof fn lemma_strays(
    entities: Seq<Entity>,
    column: int,
    row: int,
    cell_width: int,
    cell_height: int,
)
    ensures
        forall|index: int|
            0 <= index < strays(entities, column, row, cell_width, cell_height).len()
                ==> entities.contains(
                #[trigger] strays(entities, column, row, cell_width, cell_height)[index],
            ),
    decreases entities.len(),
{
    if entities.len() > 0 {
        let before = entities.drop_last();
        lemma_strays(before, column, row, cell_width, cell_height);
        let picked = strays(entities, column, row, cell_width, cell_height);
        let picked_before = strays(before, column, row, cell_width, cell_height);
        assert forall|index: int| 0 <= index < picked.len() implies entities.contains(
            #[trigger] picked[index],
        ) by {
            if index < picked_before.len() {
                assert(picked[index] == picked_before[index]);
                let from = choose|from: int|
                    0 <= from < before.len() && before[from] == picked_before[index];
                assert(entities[from] == picked[index]);
            } else {
                assert(entities[entities.len() - 1] == picked[index]);
            }
        }
    }
}

/// Every stray of the grid was kept in one of its cells.
pub proof fn lemma_strays_are_entities(grid: GridView, entity: Entity)
    requires
        grid.wf(),
        grid.strays().contains(entity),
    ensures
        in_block(grid.rows, 0, grid.width as int, 0, grid.height as int, entity),
{
    lemma_stray_block_from(grid, grid.height as int, entity);
}

/// A stray of the first `count` rows was kept in a cell of one of them.
proof fn lemma_stray_block_from(grid: GridView, count: int, entity: Entity)
    requires
        grid.wf(),
        0 <= count <= grid.height,
        stray_block(grid.rows, count, grid.cell_width, grid.cell_height).contains(entity),
    ensures
        in_block(grid.rows, 0, grid.width as int, 0, count, entity),
    decreases count,
{
    if count > 0 {
        let row = count - 1;
        assert(grid.rows[row].len() == grid.width);
        lemma_concat_contains(
            stray_block(grid.rows, row, grid.cell_width, grid.cell_height),
            stray_span(grid.rows[row], row, grid.width as int, grid.cell_width, grid.cell_height),
            entity,
        );
        if stray_block(grid.rows, row, grid.cell_width, grid.cell_height).contains(entity) {
            lemma_stray_block_from(grid, row, entity);
            let above = choose|above: int|
                0 <= above < row && in_span(#[trigger] grid.rows[above], 0, grid.width as int, entity);
            assert(in_span(grid.rows[above], 0, grid.width as int, entity));
        } else {
            lemma_stray_span_from(grid, row, grid.width as int, entity);
            assert(in_span(grid.rows[row], 0, grid.width as int, entity));
        }
    }
}

/// A stray of the first `count` cells of a row was kept in one of them.
proof fn lemma_stray_span_from(grid: GridView, row: int, count: int, entity: Entity)
    requires
        grid.wf(),
        0 <= row < grid.height,
        0 <= count <= grid.width,
        stray_span(grid.rows[row], row, count, grid.cell_width, grid.cell_height).contains(entity),
    ensures
        in_span(grid.rows[row], 0, count, entity),
    decreases count,
{
    if count > 0 {
        let column = count - 1;
        let cells = grid.rows[row];
        lemma_concat_contains(
            stray_span(cells, row, column, grid.cell_width, grid.cell_height),
            strays(cells[column], column, row, grid.cell_width, grid.cell_height),
            entity,
        );
        if stray_span(cells, row, column, grid.cell_width, grid.cell_height).contains(entity) {
            lemma_stray_span_from(grid, row, column, entity);
            let left = choose|left: int|
                0 <= left < column && (#[trigger] cells[left]).contains(entity);
            assert(cells[left].contains(entity));
        } else {
            lemma_strays(cells[column], column, row, grid.cell_width, grid.cell_height);
            assert(cells[column].contains(entity));
        }
    }
}

/// Whether a tick under `gravity` makes `entity` of some entity of the grid.
pub open spec fn comes_from(grid: GridView, gravity: Vector2, entity: Entity) -> bool {
    exists|row: int, column: int, index: int|
        0 <= row < grid.height && 0 <= column < grid.width && 0 <= index < grid.cell(
            column,
            row,
        ).len() && #[trigger] grid.carried(gravity, column, row, index) == entity
}

/// A tick makes no entities up: every entity that is in the grid after a tick
/// is what the tick made of an entity that was in the grid before it.
pub proof fn lemma_tick_conserves(
    grid: GridView,
    gravity: Vector2,
    column: int,
    row: int,
    index: int,
)
    requires
        grid.wf(),
        grid.has_cell(column, row),
        0 <= index < grid.ticked(gravity).cell(column, row).len(),
    ensures
        comes_from(grid, gravity, grid.ticked(gravity).cell(column, row)[index]),
{
    let others = crate::world::cell::snapshots(grid.all_entities());
    let stepped = grid.stepped(gravity, others);
    let after = grid.ticked(gravity);
    let entity = after.cell(column, row)[index];
    assert forall|y: int| 0 <= y < stepped.height implies (#[trigger] stepped.rows[y]).len()
        == stepped.width by {
        assert(grid.rows[y].len() == grid.width);
    }
    let stayed = residents(
        stepped.rows[row][column],
        column,
        row,
        grid.cell_width,
        grid.cell_height,
    );
    let came = residents(stepped.strays(), column, row, grid.cell_width, grid.cell_height);
    assert(after.rows[row][column] == stayed + came);
    lemma_residents(stepped.rows[row][column], column, row, grid.cell_width, grid.cell_height);
    lemma_residents(stepped.strays(), column, row, grid.cell_width, grid.cell_height);
    if index < stayed.len() {
        assert(entity == stayed[index]);
        assert(stepped.rows[row].len() == stepped.width);
        assert(in_span(stepped.rows[row], 0, stepped.width as int, entity));
        assert(in_block(stepped.rows, 0, stepped.width as int, 0, stepped.height as int, entity));
    } else {
        assert(entity == came[index - stayed.len()]);
        lemma_strays_are_entities(stepped, entity);
    }
    let from_row = choose|from_row: int|
        0 <= from_row < stepped.height && in_span(
            #[trigger] stepped.rows[from_row],
            0,
            stepped.width as int,
            entity,
        );
    let from_column = choose|from_column: int|
        0 <= from_column < stepped.width && (
        #[trigger] stepped.rows[from_row][from_column]).contains(entity);
    let from_index = choose|from_index: int|
        0 <= from_index < stepped.rows[from_row][from_column].len()
            && stepped.rows[from_row][from_column][from_index] == entity;
    assert(grid.rows[from_row].len() == grid.width);
    assert(grid.carried(gravity, from_column, from_row, from_index) == entity);
}

/// Terminal velocity, tick after tick: after a tick, the vertical velocity
/// of every entity of the grid that has a physics behaviour is within the
/// terminal velocity.
pub proof fn lemma_tick_keeps_terminal_velocity(
    grid: GridView,
    gravity: Vector2,
    column: int,
    row: int,
    index: int,
)
    requires
        grid.wf(),
        grid.has_cell(column, row),
        0 <= index < grid.ticked(gravity).cell(column, row).len(),
    ensures
        match grid.ticked(gravity).cell(column, row)[index].physics_system {
            Some(system) => -TERMINAL_VELOCITY <= system.spec_velocity().y <= TERMINAL_VELOCITY,
            None => true,
        },
{
    let entity = grid.ticked(gravity).cell(column, row)[index];
    lemma_tick_conserves(grid, gravity, column, row, index);
    let (from_row, from_column, from_index) = choose|from_row: int, from_column: int, from_index: int|
        0 <= from_row < grid.height && 0 <= from_column < grid.width && 0 <= from_index
            < grid.cell(from_column, from_row).len() && #[trigger] grid.carried(
            gravity,
            from_column,
            from_row,
            from_index,
        ) == entity;
    let before = grid.cell(from_column, from_row)[from_index];
    if before.physics_system is Some {
        lemma_terminal_velocity(before, gravity, crate::world::cell::snapshots(grid.all_entities()));
    }
}

} // verus!
