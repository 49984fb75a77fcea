use vstd::prelude::*;

use crate::ecs_world::World;

verus! {

/// Something that works on the components of a world, once each time it is
/// run.
pub trait System {
    fn run(&mut self, data: &mut World);
}

} // verus!
