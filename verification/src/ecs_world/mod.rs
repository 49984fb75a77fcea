//! A small store of components: named columns of values with one entry per
//! created component.

pub mod component;
pub mod system;

use vstd::prelude::*;

use crate::ecs_world::component::ComponentData;

verus! {

/// The index of the first column with the given name, or the number of
/// columns if there is none.
pub open spec fn position_of(names: Seq<Seq<char>>, name: Seq<char>) -> int
    decreases names.len(),
{
    if names.len() == 0 {
        0
    } else if names.first() == name {
        0
    } else {
        1 + position_of(names.drop_first(), name)
    }
}

/// [`position_of`] is a valid index exactly if a column has the name; the
/// column there has it, and no column before it has.
pub proof fn lemma_position_of(names: Seq<Seq<char>>, name: Seq<char>)
    ensures
        0 <= position_of(names, name) <= names.len(),
        position_of(names, name) < names.len() ==> names[position_of(names, name)] == name,
        forall|index: int| 0 <= index < position_of(names, name) ==> names[index] != name,
    decreases names.len(),
{
    if names.len() > 0 && names.first() != name {
        let rest = names.drop_first();
        lemma_position_of(rest, name);
        assert forall|index: int| 0 <= index < position_of(names, name) implies names[index]
            != name by {
            if index > 0 {
                assert(names[index] == rest[index - 1]);
            }
        }
    }
}

/// What a store holds: the names of its columns in the order in which they
/// were registered, the values of each column, and the number of components
/// that were created.
pub struct WorldView {
    pub names: Seq<Seq<char>>,
    pub columns: Seq<Seq<ComponentData>>,
    pub count: nat,
}

impl WorldView {
    /// Every name has its column and no name occurs twice.
    pub open spec fn wf(self) -> bool {
        &&& self.names.len() == self.columns.len()
        &&& forall|i: int, j: int|
            0 <= i < j < self.names.len() ==> #[trigger] self.names[i] != #[trigger] self.names[j]
    }

    /// Whether a column with the given name is registered.
    pub open spec fn has(self, name: Seq<char>) -> bool {
        position_of(self.names, name) < self.names.len()
    }

    /// The values of the column with the given name.
    pub open spec fn column(self, name: Seq<char>) -> Seq<ComponentData> {
        self.columns[position_of(self.names, name)]
    }

    /// The store after a column has been registered: a new name gets an empty
    /// column behind the others, a known name has its column emptied.
    pub open spec fn registered(self, name: Seq<char>) -> WorldView {
        if self.has(name) {
            WorldView {
                columns: self.columns.update(position_of(self.names, name), Seq::empty()),
                ..self
            }
        } else {
            WorldView {
                names: self.names.push(name),
                columns: self.columns.push(Seq::empty()),
                count: self.count,
            }
        }
    }

    /// The store after a component has been created: every column has one
    /// more entry, which is empty.
    pub open spec fn with_component(self) -> WorldView {
        WorldView {
            names: self.names,
            columns: Seq::new(
                self.columns.len(),
                |index: int| self.columns[index].push(ComponentData::Empty),
            ),
            count: self.count + 1,
        }
    }

    /// Whether the component that was created last has an entry in the
    /// column with the given name.
    pub open spec fn reaches(self, name: Seq<char>) -> bool {
        0 < self.count <= self.column(name).len()
    }

    /// The store after the entry of the component that was created last has
    /// been set in the column with the given name. Without such a column
    /// nothing changes.
    pub open spec fn with_data(self, name: Seq<char>, data: ComponentData) -> WorldView {
        if self.has(name) {
            WorldView {
                columns: self.columns.update(
                    position_of(self.names, name),
                    self.column(name).update(self.count - 1, data),
                ),
                ..self
            }
        } else {
            self
        }
    }
}

/// A column: its name and one value for each component that was created
/// since it was registered.
struct Column {
    name: String,
    data: Vec<ComponentData>,
}

/// A store of components.
pub struct World {
    component_data: Vec<Column>,
    components_count: usize,
}

impl View for World {
    type V = WorldView;

    closed spec fn view(&self) -> WorldView {
        WorldView {
            names: self.component_data@.map_values(|column: Column| column.name@),
            columns: self.component_data@.map_values(|column: Column| column.data@),
            count: self.components_count as nat,
        }
    }
}

impl World {
    /// A store without columns and without components.
    pub fn new() -> (world: Self)
        ensures
            world@.wf(),
            world@.names.len() == 0,
            world@.count == 0,
    {
        World { component_data: Vec::new(), components_count: 0 }
    }

    /// The index of the column with the given name, if there is one.
    fn find(&self, name: &String) -> (found: Option<usize>)
        ensures
            match found {
                Some(index) => self@.has(name@) && index == position_of(self@.names, name@),
                None => !self@.has(name@),
            },
    {
        let mut index: usize = 0;
        proof {
            assert(self@.names.skip(0) =~= self@.names);
        }
        while index < self.component_data.len()
            invariant
                index <= self.component_data.len(),
                self@.names.len() == self.component_data.len(),
                position_of(self@.names, name@) == index + position_of(
                    self@.names.skip(index as int),
                    name@,
                ),
            decreases self.component_data.len() - index,
        {
            proof {
                let rest = self@.names.skip(index as int);
                assert(rest.first() == self@.names[index as int]);
                assert(rest.drop_first() =~= self@.names.skip(index + 1));
            }
            if self.component_data[index].name == *name {
                return Some(index);
            }
            index += 1;
        }
        None
    }

    /// Registers a column under the given name. If there is one already, it
    /// is emptied.
    pub fn register(&mut self, name: &str)
        requires
            old(self)@.wf(),
        ensures
            final(self)@.wf(),
            final(self)@ == old(self)@.registered(name@),
    {
        let owned = name.to_owned();
        proof {
            lemma_position_of(self@.names, name@);
        }
        match self.find(&owned) {
            Some(index) => {
                self.component_data[index].data = Vec::new();
                proof {
                    assert(self@.names =~= old(self)@.names);
                    assert(self@.columns =~= old(self)@.registered(name@).columns);
                }
            },
            None => {
                self.component_data.push(Column { name: owned, data: Vec::new() });
                proof {
                    assert(self@.names =~= old(self)@.registered(name@).names);
                    assert(self@.columns =~= old(self)@.registered(name@).columns);
                }
            },
        }
    }

    /// Creates a component: every column gets one more entry, which is empty.
    pub fn create_component(&mut self) -> (world: &mut Self)
        requires
            old(self)@.wf(),
            old(self)@.count < usize::MAX,
        ensures
            world@.wf(),
            world@ == old(self)@.with_component(),
            *final(self) == *final(world),
    {
        let mut index: usize = 0;
        while index < self.component_data.len()
            invariant
                index <= self.component_data.len(),
                self.components_count == old(self).components_count,
                self@.names == old(self)@.names,
                self@.columns.len() == old(self)@.columns.len(),
                self@.columns.len() == self.component_data.len(),
                forall|i: int|
                    0 <= i < index ==> #[trigger] self@.columns[i] == old(self)@.columns[i].push(
                        ComponentData::Empty,
                    ),
                forall|i: int|
                    index <= i < self@.columns.len() ==> #[trigger] self@.columns[i] == old(
                        self,
                    )@.columns[i],
            decreases self.component_data.len() - index,
        {
            let ghost before = self@;
            self.component_data[index].data.push(ComponentData::Empty);
            proof {
                assert(self@.names =~= before.names);
                assert forall|i: int| 0 <= i < self@.columns.len() && i != index implies (
                #[trigger] self@.columns[i]) == before.columns[i] by {}
                assert(before.columns[index as int] == old(self)@.columns[index as int]);
                assert(self@.columns[index as int] == before.columns[index as int].push(
                    ComponentData::Empty,
                ));
            }
            index += 1;
        }
        self.components_count += 1;
        proof {
            assert(self@.columns =~= old(self)@.with_component().columns);
        }
        self
    }

    /// Sets, in the column with the given name, the entry of the component
    /// that was created last. Without such a column nothing changes.
    pub fn with(&mut self, name: &str, data: ComponentData) -> (world: &mut Self)
        requires
            old(self)@.wf(),
            old(self)@.has(name@) ==> old(self)@.reaches(name@),
        ensures
            world@.wf(),
            world@ == old(self)@.with_data(name@, data),
            *final(self) == *final(world),
    {
        let owned = name.to_owned();
        proof {
            lemma_position_of(self@.names, name@);
        }
        if let Some(index) = self.find(&owned) {
            let last: usize = self.components_count - 1;
            self.component_data[index].data.set(last, data);
            proof {
                assert(self@.names =~= old(self)@.names);
                assert(self@.columns =~= old(self)@.with_data(name@, data).columns);
            }
        }
        self
    }

    /// The values of the column with the given name, if it is registered.
    pub fn query(&self, name: &str) -> (column: Option<&Vec<ComponentData>>)
        ensures
            match column {
                Some(column) => self@.has(name@) && column@ == self@.column(name@),
                None => !self@.has(name@),
            },
    {
        let owned = name.to_owned();
        match self.find(&owned) {
            Some(index) => Some(&self.component_data[index].data),
            None => None,
        }
    }

    /// The number of components that were created.
    pub fn length(&self) -> (count: usize)
        ensures
            count == self@.count,
    {
        self.components_count
    }
}

} // verus!
