//! Identities through a tick: none is made up and none is lost without
//! notice.

use vstd::prelude::*;

use crate::entity::Entity;
use crate::geometry::Vector2;
use crate::world::cell::{snapshots, stepped_entities};
use crate::world::grid_view::{
    block, residents, sits_in, span, stray_block, stray_span, strays, GridView,
};
use crate::world::laws::{
    in_block, in_span, lemma_block_contains, lemma_concat_contains, lemma_relocation,
    lemma_resident_is_picked, lemma_stray_block_contains, lemma_stray_is_picked,
    lemma_stray_span_contains,
};

verus! {

/// How many of `entities` have the identity `id`.
pub open spec fn count_of(entities: Seq<Entity>, id: u32) -> nat
    decreases entities.len(),
{
    if entities.len() == 0 {
        0
    } else {
        count_of(entities.drop_last(), id) + if entities.last().id == id {
            1nat
        } else {
            0nat
        }
    }
}

/// How many entities of the first `count` cells of a row have the identity
/// `id`.
pub open spec fn span_count(cells: Seq<Seq<Entity>>, count: int, id: u32) -> nat
    decreases count,
{
    if count <= 0 {
        0
    } else {
        span_count(cells, count - 1, id) + count_of(cells[count - 1], id)
    }
}

/// How many entities of the first `count` rows, each `width` cells long, have
/// the identity `id`.
pub open spec fn block_count(rows: Seq<Seq<Seq<Entity>>>, width: int, count: int, id: u32) -> nat
    decreases count,
{
    if count <= 0 {
        0
    } else {
        block_count(rows, width, count - 1, id) + span_count(rows[count - 1], width, id)
    }
}

/// Counting goes through concatenation.
pub proof fn lemma_count_concat(front: Seq<Entity>, back: Seq<Entity>, id: u32)
    ensures
        count_of(front + back, id) == count_of(front, id) + count_of(back, id),
    decreases back.len(),
{
    if back.len() == 0 {
        assert(front + back =~= front);
    } else {
        assert((front + back).drop_last() =~= front + back.drop_last());
        assert((front + back).last() == back.last());
        lemma_count_concat(front, back.drop_last(), id);
    }
}

/// An entity that is among others is counted.
pub proof fn lemma_contained_is_counted(entities: Seq<Entity>, entity: Entity)
    requires
        entities.contains(entity),
    ensures
        count_of(entities, entity.id) >= 1,
    decreases entities.len(),
{
    let at = choose|at: int| 0 <= at < entities.len() && entities[at] == entity;
    if at < entities.len() - 1 {
        assert(entities.drop_last()[at] == entity);
        lemma_contained_is_counted(entities.drop_last(), entity);
    }
}

/// The entities of a span, counted cell by cell.
proof fn lemma_span_count(cells: Seq<Seq<Entity>>, count: int, id: u32)
    ensures
        count_of(span(cells, 0, count), id) == span_count(cells, count, id),
    decreases count,
{
    if count > 0 {
        lemma_span_count(cells, count - 1, id);
        lemma_count_concat(span(cells, 0, count - 1), cells[count - 1], id);
    }
}

/// The entities of a block, counted cell by cell.
proof fn lemma_block_count(rows: Seq<Seq<Seq<Entity>>>, width: int, count: int, id: u32)
    ensures
        count_of(block(rows, 0, width, 0, count), id) == block_count(rows, width, count, id),
    decreases count,
{
    if count > 0 {
        lemma_block_count(rows, width, count - 1, id);
        lemma_span_count(rows[count - 1], width, id);
        lemma_count_concat(
            block(rows, 0, width, 0, count - 1),
            span(rows[count - 1], 0, width),
            id,
        );
    }
}

/// Two rows that count alike cell by cell, but for `more` further entities
/// in the cell at `at` of the first, count alike but for `more`.
proof fn lemma_span_one_more(
    cells: Seq<Seq<Entity>>,
    others: Seq<Seq<Entity>>,
    count: int,
    at: int,
    more: nat,
    id: u32,
)
    requires
        forall|column: int|
            0 <= column < count && column != at ==> count_of(#[trigger] cells[column], id)
                == count_of(others[column], id),
        0 <= at < count ==> count_of(cells[at], id) == count_of(others[at], id) + more,
    ensures
        span_count(cells, count, id) == span_count(others, count, id) + if 0 <= at < count {
            more
        } else {
            0nat
        },
    decreases count,
{
    if count > 0 {
        lemma_span_one_more(cells, others, count - 1, at, more, id);
        if at != count - 1 {
            assert(count_of(cells[count - 1], id) == count_of(others[count - 1], id));
        }
    }
}

/// Two grids that count alike cell by cell, but for `more` further entities
/// in the cell at (`at_column`, `at_row`) of the first, count alike but for
/// `more`.
proof fn lemma_block_one_more(
    rows: Seq<Seq<Seq<Entity>>>,
    others: Seq<Seq<Seq<Entity>>>,
    width: int,
    count: int,
    at_column: int,
    at_row: int,
    more: nat,
    id: u32,
)
    requires
        forall|row: int, column: int|
            0 <= row < count && 0 <= column < width && !(row == at_row && column == at_column)
                ==> count_of(#[trigger] rows[row][column], id) == count_of(others[row][column], id),
        0 <= at_row < count && 0 <= at_column < width ==> count_of(rows[at_row][at_column], id)
            == count_of(others[at_row][at_column], id) + more,
    ensures
        block_count(rows, width, count, id) == block_count(others, width, count, id) + if 0
            <= at_row < count && 0 <= at_column < width {
            more
        } else {
            0nat
        },
    decreases count,
{
    if count > 0 {
        let row = count - 1;
        lemma_block_one_more(rows, others, width, row, at_column, at_row, more, id);
        if row == at_row {
            assert forall|column: int| 0 <= column < width && column != at_column implies count_of(
                #[trigger] rows[row][column],
                id,
            ) == count_of(others[row][column], id) by {}
            lemma_span_one_more(rows[row], others[row], width, at_column, more, id);
        } else {
            assert forall|column: int| 0 <= column < width && column != -1 implies count_of(
                #[trigger] rows[row][column],
                id,
            ) == count_of(others[row][column], id) by {}
            lemma_span_one_more(rows[row], others[row], width, -1, more, id);
        }
    }
}

/// A row whose cells are each the concatenation of the cells of two other
/// rows counts as both together.
proof fn lemma_span_sum(
    cells: Seq<Seq<Entity>>,
    first: Seq<Seq<Entity>>,
    second: Seq<Seq<Entity>>,
    count: int,
    id: u32,
)
    requires
        forall|column: int|
            0 <= column < count ==> #[trigger] cells[column] == first[column] + second[column],
    ensures
        span_count(cells, count, id) == span_count(first, count, id) + span_count(
            second,
            count,
            id,
        ),
    decreases count,
{
    if count > 0 {
        lemma_span_sum(cells, first, second, count - 1, id);
        assert(cells[count - 1] == first[count - 1] + second[count - 1]);
        lemma_count_concat(first[count - 1], second[count - 1], id);
    }
}

/// A grid whose cells are each the concatenation of the cells of two other
/// grids counts as both together.
proof fn lemma_block_sum(
    rows: Seq<Seq<Seq<Entity>>>,
    first: Seq<Seq<Seq<Entity>>>,
    second: Seq<Seq<Seq<Entity>>>,
    width: int,
    count: int,
    id: u32,
)
    requires
        forall|row: int, column: int|
            0 <= row < count && 0 <= column < width ==> #[trigger] rows[row][column]
                == first[row][column] + second[row][column],
    ensures
        block_count(rows, width, count, id) == block_count(first, width, count, id) + block_count(
            second,
            width,
            count,
            id,
        ),
    decreases count,
{
    if count > 0 {
        let row = count - 1;
        lemma_block_sum(rows, first, second, width, row, id);
        assert forall|column: int| 0 <= column < width implies #[trigger] rows[row][column]
            == first[row][column] + second[row][column] by {}
        lemma_span_sum(rows[row], first[row], second[row], width, id);
    }
}

/// The residents and the strays of a cell are, together, its entities.
proof fn lemma_split_count(
    entities: Seq<Entity>,
    column: int,
    row: int,
    cell_width: int,
    cell_height: int,
    id: u32,
)
    ensures
        count_of(residents(entities, column, row, cell_width, cell_height), id) + count_of(
            strays(entities, column, row, cell_width, cell_height),
            id,
        ) == count_of(entities, id),
    decreases entities.len(),
{
    if entities.len() > 0 {
        lemma_split_count(entities.drop_last(), column, row, cell_width, cell_height, id);
        let kept = residents(entities.drop_last(), column, row, cell_width, cell_height);
        let left = strays(entities.drop_last(), column, row, cell_width, cell_height);
        if sits_in(entities.last().location, column, row, cell_width, cell_height) {
            assert(kept.push(entities.last()).drop_last() =~= kept);
        } else {
            assert(left.push(entities.last()).drop_last() =~= left);
        }
    }
}

/// A step keeps the identity of every entity.
proof fn lemma_step_count(entities: Seq<Entity>, gravity: Vector2, others: Seq<Entity>, id: u32)
    ensures
        count_of(stepped_entities(entities, gravity, others), id) == count_of(entities, id),
    decreases entities.len(),
{
    if entities.len() > 0 {
        lemma_step_count(entities.drop_last(), gravity, others, id);
        assert(stepped_entities(entities, gravity, others).drop_last() =~= stepped_entities(
            entities.drop_last(),
            gravity,
            others,
        ));
    }
}

impl GridView {
    /// In every cell, those of its entities that belong there.
    pub open spec fn kept_rows(self) -> Seq<Seq<Seq<Entity>>> {
        Seq::new(
            self.height,
            |row: int|
                Seq::new(
                    self.width,
                    |column: int|
                        residents(
                            self.rows[row][column],
                            column,
                            row,
                            self.cell_width,
                            self.cell_height,
                        ),
                ),
        )
    }

    /// In every cell, those of `entities` that belong there.
    pub open spec fn sorted_rows(self, entities: Seq<Entity>) -> Seq<Seq<Seq<Entity>>> {
        Seq::new(
            self.height,
            |row: int|
                Seq::new(
                    self.width,
                    |column: int|
                        residents(entities, column, row, self.cell_width, self.cell_height),
                ),
        )
    }

    /// No two entities of the grid have the same identity.
    pub open spec fn identities_distinct(self) -> bool {
        forall|id: u32| count_of(self.all_entities(), id) <= 1
    }
}

/// The strays of the first `count` cells of a row and the entities that
/// stay in these cells are, together, the entities of these cells.
proof fn lemma_stray_span_count(grid: GridView, row: int, count: int, id: u32)
    requires
        grid.wf(),
        0 <= row < grid.height,
        0 <= count <= grid.width,
    ensures
        span_count(grid.kept_rows()[row], count, id) + count_of(
            stray_span(grid.rows[row], row, count, grid.cell_width, grid.cell_height),
            id,
        ) == span_count(grid.rows[row], count, id),
    decreases count,
{
    if count > 0 {
        lemma_stray_span_count(grid, row, count - 1, id);
        lemma_split_count(
            grid.rows[row][count - 1],
            count - 1,
            row,
            grid.cell_width,
            grid.cell_height,
            id,
        );
        lemma_count_concat(
            stray_span(grid.rows[row], row, count - 1, grid.cell_width, grid.cell_height),
            strays(grid.rows[row][count - 1], count - 1, row, grid.cell_width, grid.cell_height),
            id,
        );
    }
}

/// The strays of the first `count` rows and the entities that stay in the
/// cells of these rows are, together, the entities of these rows.
proof fn lemma_stray_block_count(grid: GridView, count: int, id: u32)
    requires
        grid.wf(),
        0 <= count <= grid.height,
    ensures
        block_count(grid.kept_rows(), grid.width as int, count, id) + count_of(
            stray_block(grid.rows, count, grid.cell_width, grid.cell_height),
            id,
        ) == block_count(grid.rows, grid.width as int, count, id),
    decreases count,
{
    if count > 0 {
        let row = count - 1;
        assert(grid.rows[row].len() == grid.width);
        lemma_stray_block_count(grid, row, id);
        lemma_stray_span_count(grid, row, grid.width as int, id);
        lemma_count_concat(
            stray_block(grid.rows, row, grid.cell_width, grid.cell_height),
            stray_span(grid.rows[row], row, grid.width as int, grid.cell_width, grid.cell_height),
            id,
        );
    }
}

/// Entities that are sorted into the cells of a grid are all there, but for
/// those whose location falls into no cell.
proof fn lemma_sorted_count(grid: GridView, entities: Seq<Entity>, id: u32)
    requires
        grid.wf(),
    ensures
        block_count(grid.sorted_rows(entities), grid.width as int, grid.height as int, id)
            + count_of(grid.outsiders(entities), id) == count_of(entities, id),
    decreases entities.len(),
{
    let width = grid.width as int;
    let height = grid.height as int;
    if entities.len() == 0 {
        lemma_block_empty(grid.sorted_rows(entities), width, height, id);
    } else {
        let before = entities.drop_last();
        let entity = entities.last();
        lemma_sorted_count(grid, before, id);
        let now = grid.sorted_rows(entities);
        let then = grid.sorted_rows(before);
        let at_column = grid.column_of(entity.location.x as int);
        let at_row = grid.row_of(entity.location.y as int);
        let more: nat = if entity.id == id {
            1
        } else {
            0
        };
        assert forall|row: int, column: int|
            0 <= row < height && 0 <= column < width && !(row == at_row && column
                == at_column) implies count_of(#[trigger] now[row][column], id) == count_of(
            then[row][column],
            id,
        ) by {
            assert(!sits_in(entity.location, column, row, grid.cell_width, grid.cell_height));
        }
        if grid.holds(entity.location) {
            let cell = residents(before, at_column, at_row, grid.cell_width, grid.cell_height);
            assert(now[at_row][at_column] == cell.push(entity));
            assert(cell.push(entity).drop_last() =~= cell);
            assert(then[at_row][at_column] == cell);
        } else {
            let outside = grid.outsiders(before);
            assert(outside.push(entity).drop_last() =~= outside);
        }
        lemma_block_one_more(now, then, width, height, at_column, at_row, more, id);
    }
}

/// A grid of empty cells counts nothing.
proof fn lemma_block_empty(rows: Seq<Seq<Seq<Entity>>>, width: int, count: int, id: u32)
    requires
        forall|row: int, column: int|
            0 <= row < count && 0 <= column < width ==> (#[trigger] rows[row][column]).len() == 0,
    ensures
        block_count(rows, width, count, id) == 0,
    decreases count,
{
    if count > 0 {
        lemma_block_empty(rows, width, count - 1, id);
        lemma_span_empty(rows[count - 1], width, id);
    }
}

/// A row of empty cells counts nothing.
proof fn lemma_span_empty(cells: Seq<Seq<Entity>>, count: int, id: u32)
    requires
        forall|column: int| 0 <= column < count ==> (#[trigger] cells[column]).len() == 0,
    ensures
        span_count(cells, count, id) == 0,
    decreases count,
{
    if count > 0 {
        lemma_span_empty(cells, count - 1, id);
        assert(cells[count - 1].len() == 0);
    }
}

/// A tick keeps every identity: each identity is found as often in the grid
/// after the tick and among the entities that the tick has carried out of
/// the grid, taken together, as it was found in the grid before the tick.
pub proof fn lemma_tick_keeps_identities(grid: GridView, gravity: Vector2, id: u32)
    requires
        grid.wf(),
    ensures
        count_of(grid.ticked(gravity).all_entities(), id) + count_of(grid.lost(gravity), id)
            == count_of(grid.all_entities(), id),
{
    let width = grid.width as int;
    let height = grid.height as int;
    let others = snapshots(grid.all_entities());
    let stepped = grid.stepped(gravity, others);
    let after = grid.ticked(gravity);
    assert forall|row: int| 0 <= row < stepped.height implies (#[trigger] stepped.rows[row]).len()
        == stepped.width by {
        assert(grid.rows[row].len() == grid.width);
    }
    // A step keeps the identity.
    assert forall|row: int, column: int|
        0 <= row < height && 0 <= column < width && !(row == -1 && column == -1) implies count_of(
        #[trigger] stepped.rows[row][column],
        id,
    ) == count_of(grid.rows[row][column], id) by {
        assert(grid.rows[row].len() == grid.width);
        lemma_step_count(grid.rows[row][column], gravity, others, id);
    }
    lemma_block_one_more(stepped.rows, grid.rows, width, height, -1, -1, 0, id);
    lemma_block_count(grid.rows, width, height, id);
    // Every entity stays or strays.
    lemma_stray_block_count(stepped, height, id);
    // Every stray comes into a cell or is lost.
    lemma_sorted_count(stepped, stepped.strays(), id);
    // A cell holds in the end those that stayed and those that came.
    let kept = stepped.kept_rows();
    let came = stepped.sorted_rows(stepped.strays());
    assert forall|row: int, column: int|
        0 <= row < height && 0 <= column < width implies #[trigger] after.rows[row][column]
        == kept[row][column] + came[row][column] by {}
    lemma_block_sum(after.rows, kept, came, width, height, id);
    lemma_block_count(after.rows, width, height, id);
}

/// With distinct identities and no entity leaving the grid, a tick keeps
/// every identity exactly once, in the cell that the entity's new location
/// falls into: what the tick makes of an entity is among the entities of
/// that cell, and no other entity of the grid has its identity.
pub proof fn lemma_tick_keeps_each_identity_once(
    grid: GridView,
    gravity: Vector2,
    column: int,
    row: int,
    index: int,
)
    requires
        grid.wf(),
        grid.identities_distinct(),
        grid.lost(gravity).len() == 0,
        grid.has_cell(column, row),
        0 <= index < grid.cell(column, row).len(),
    ensures
        ({
            let entity = grid.carried(gravity, column, row, index);
            let after = grid.ticked(gravity);
            &&& entity.id == grid.cell(column, row)[index].id
            &&& after.holds(entity.location)
            &&& after.cell(
                after.column_of(entity.location.x as int),
                after.row_of(entity.location.y as int),
            ).contains(entity)
            &&& count_of(after.all_entities(), entity.id) == 1
            &&& after.identities_distinct()
        }),
{
    let before = grid.cell(column, row)[index];
    let entity = grid.carried(gravity, column, row, index);
    let others = snapshots(grid.all_entities());
    let stepped = grid.stepped(gravity, others);
    let after = grid.ticked(gravity);
    assert forall|y: int| 0 <= y < stepped.height implies (#[trigger] stepped.rows[y]).len()
        == stepped.width by {
        assert(grid.rows[y].len() == grid.width);
    }
    assert(grid.rows[row].len() == grid.width);
    assert(stepped.rows[row][column][index] == entity);
    assert(stepped.rows[row][column].contains(entity));
    assert forall|id: u32| count_of(after.all_entities(), id) <= 1 by {
        lemma_tick_keeps_identities(grid, gravity, id);
    }
    // The entity is in the grid before the tick, so its identity is counted.
    lemma_block_contains(grid.rows, 0, grid.width as int, 0, grid.height as int, before);
    assert(grid.rows[row][column].contains(before));
    assert(in_span(grid.rows[row], 0, grid.width as int, before));
    assert(in_block(
        grid.rows,
        0,
        grid.width as int,
        0,
        grid.height as int,
        before,
    ));
    lemma_contained_is_counted(grid.all_entities(), before);
    lemma_tick_keeps_identities(grid, gravity, entity.id);
    // Where it is after the tick.
    if sits_in(entity.location, column, row, grid.cell_width, grid.cell_height) {
        lemma_resident_is_picked(
            stepped.rows[row][column],
            entity,
            column,
            row,
            grid.cell_width,
            grid.cell_height,
        );
        lemma_concat_contains(
            residents(stepped.rows[row][column], column, row, grid.cell_width, grid.cell_height),
            residents(stepped.strays(), column, row, grid.cell_width, grid.cell_height),
            entity,
        );
    } else {
        lemma_stray_is_picked(
            stepped.rows[row][column],
            entity,
            column,
            row,
            grid.cell_width,
            grid.cell_height,
        );
        lemma_stray_span_contains(
            stepped.rows[row],
            row,
            stepped.rows[row].len() as int,
            column,
            grid.cell_width,
            grid.cell_height,
            entity,
        );
        lemma_stray_block_contains(
            stepped.rows,
            stepped.height as int,
            row,
            grid.cell_width,
            grid.cell_height,
            entity,
        );
        lemma_nothing_lost(stepped, stepped.strays(), entity);
        lemma_relocation(grid, gravity, column, row, index);
    }
}

/// Where no entity is an outsider, every entity falls into a cell of the
/// grid.
proof fn lemma_nothing_lost(grid: GridView, entities: Seq<Entity>, entity: Entity)
    requires
        grid.outsiders(entities).len() == 0,
        entities.contains(entity),
    ensures
        grid.holds(entity.location),
    decreases entities.len(),
{
    let at = choose|at: int| 0 <= at < entities.len() && entities[at] == entity;
    if at < entities.len() - 1 {
        assert(entities.drop_last()[at] == entity);
        lemma_nothing_lost(grid, entities.drop_last(), entity);
    }
}

} // verus!
