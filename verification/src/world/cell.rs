use vstd::prelude::*;

use crate::entity::Entity;
use crate::geometry::Vector2;

verus! {

/// The entities that a sequence of references points to.
pub open spec fn referents(entities: Seq<&Entity>) -> Seq<Entity> {
    entities.map_values(|entity: &Entity| *entity)
}

/// The data of each entity of a sequence, without behaviours.
pub open spec fn snapshots(entities: Seq<Entity>) -> Seq<Entity> {
    entities.map_values(|entity: Entity| entity.snapshot())
}

/// Each entity of a sequence after one tick under `gravity`, with `others` as
/// the bodies it may collide with.
pub open spec fn stepped_entities(
    entities: Seq<Entity>,
    gravity: Vector2,
    others: Seq<Entity>,
) -> Seq<Entity> {
    Seq::new(entities.len(), |index: int| entities[index].spec_update(gravity, others))
}

/// The index of the first entity with the identity `id`, or the length of the
/// sequence if there is none.
pub open spec fn position_of(entities: Seq<Entity>, id: u32) -> int
    decreases entities.len(),
{
    if entities.len() == 0 {
        0
    } else if entities.first().id == id {
        0
    } else {
        1 + position_of(entities.drop_first(), id)
    }
}

/// [`position_of`] finds the first entity with the identity and nothing else:
/// it is a valid index exactly if some entity has the identity, the entity
/// there has it, and no entity before it has.
pub proof fn lemma_position_of(entities: Seq<Entity>, id: u32)
    ensures
        0 <= position_of(entities, id) <= entities.len(),
        position_of(entities, id) < entities.len() ==> entities[position_of(entities, id)].id == id,
        forall|i: int| 0 <= i < position_of(entities, id) ==> entities[i].id != id,
    decreases entities.len(),
{
    if entities.len() > 0 && entities.first().id != id {
        let rest = entities.drop_first();
        lemma_position_of(rest, id);
        assert forall|i: int| 0 <= i < position_of(entities, id) implies entities[i].id != id by {
            if i > 0 {
                assert(entities[i] == rest[i - 1]);
            }
        }
    }
}

/// One bucket of the grid: the entities that sit in it, in the order in which
/// they came.
#[derive(Debug)]
pub struct Cell {
    pub entities: Vec<Entity>,
}

impl View for Cell {
    type V = Seq<Entity>;

    open spec fn view(&self) -> Seq<Entity> {
        self.entities@
    }
}

impl Cell {
    /// An empty cell.
    pub fn new() -> (cell: Self)
        ensures
            cell@ == Seq::<Entity>::empty(),
    {
        Cell { entities: Vec::new() }
    }

    /// References to the entities of the cell, in order.
    pub fn get_all(&self) -> (entities: Vec<&Entity>)
        ensures
            referents(entities@) == self@,
    {
        let mut entities: Vec<&Entity> = Vec::new();
        let mut index: usize = 0;
        while index < self.entities.len()
            invariant
                index <= self.entities.len(),
                referents(entities@) == self@.take(index as int),
            decreases self.entities.len() - index,
        {
            let ghost before = entities@;
            entities.push(&self.entities[index]);
            index += 1;
            proof {
                assert(referents(entities@) =~= referents(before).push(self@[index - 1]));
                assert(self@.take(index as int) =~= self@.take(index - 1).push(self@[index - 1]));
            }
        }
        proof {
            assert(self@.take(self@.len() as int) =~= self@);
        }
        entities
    }

    /// Mutable access to the entities of the cell.
    pub fn get_all_mut(&mut self) -> (entities: &mut Vec<Entity>)
        ensures
            entities@ == old(self)@,
            final(self)@ == final(entities)@,
    {
        &mut self.entities
    }

    /// Puts `entity` behind the entities that are in the cell.
    pub fn insert(&mut self, entity: Entity)
        ensures
            final(self)@ == old(self)@.push(entity),
    {
        self.entities.push(entity);
    }

    /// The data of the entities of the cell, in order and without behaviours.
    pub fn get_all_cloned(&self) -> (entities: Vec<Entity>)
        ensures
            entities@ == snapshots(self@),
    {
        let mut entities: Vec<Entity> = Vec::new();
        let mut index: usize = 0;
        while index < self.entities.len()
            invariant
                index <= self.entities.len(),
                entities@ == snapshots(self@.take(index as int)),
            decreases self.entities.len() - index,
        {
            let ghost before = entities@;
            entities.push(self.entities[index].clone());
            index += 1;
            proof {
                assert(self@.take(index as int) =~= self@.take(index - 1).push(self@[index - 1]));
                assert(snapshots(self@.take(index as int)) =~= before.push(
                    self@[index - 1].snapshot(),
                ));
            }
        }
        proof {
            assert(self@.take(self@.len() as int) =~= self@);
        }
        entities
    }

    /// Takes the first entity with the identity `id` out of the cell. The
    /// others keep their order. Without such an entity the cell stays as it is.
    pub fn take_by_id(&mut self, id: u32) -> (taken: Option<Entity>)
        ensures
            match taken {
                Some(entity) => {
                    &&& position_of(old(self)@, id) < old(self)@.len()
                    &&& entity == old(self)@[position_of(old(self)@, id)]
                    &&& final(self)@ == old(self)@.remove(position_of(old(self)@, id))
                },
                None => {
                    &&& position_of(old(self)@, id) == old(self)@.len()
                    &&& final(self)@ == old(self)@
                },
            },
    {
        let mut index: usize = 0;
        proof {
            assert(self@.skip(0) =~= self@);
        }
        while index < self.entities.len()
            invariant
                index <= self.entities.len(),
                self.entities@ == old(self)@,
                position_of(old(self)@, id) == index + position_of(
                    old(self)@.skip(index as int),
                    id,
                ),
            decreases self.entities.len() - index,
        {
            proof {
                let rest = old(self)@.skip(index as int);
                assert(rest.first() == old(self)@[index as int]);
                assert(rest.drop_first() == old(self)@.skip(index + 1));
            }
            if self.entities[index].id == id {
                let entity = self.entities.remove(index);
                return Some(entity);
            }
            index += 1;
        }
        None
    }

    /// Whether no entity is in the cell.
    pub fn is_empty(&self) -> (empty: bool)
        ensures
            empty == (self@.len() == 0),
    {
        self.entities.is_empty()
    }

    /// Advances every entity of the cell by one tick, in order. Each of them
    /// sees the same `others`.
    pub fn update_entities(&mut self, gravity: &Vector2, others: &Vec<Entity>)
        ensures
            final(self)@ == stepped_entities(old(self)@, *gravity, others@),
    {
        let mut index: usize = 0;
        while index < self.entities.len()
            invariant
                index <= self@.len(),
                self@.len() == old(self)@.len(),
                forall|i: int|
                    0 <= i < index ==> #[trigger] self@[i] == old(self)@[i].spec_update(
                        *gravity,
                        others@,
                    ),
                forall|i: int| index <= i < self@.len() ==> #[trigger] self@[i] == old(self)@[i],
            decreases self@.len() - index,
        {
            self.entities[index].update(gravity, others);
            index += 1;
        }
        proof {
            assert(self@ =~= stepped_entities(old(self)@, *gravity, others@));
        }
    }
}

} // verus!
