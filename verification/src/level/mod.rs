use vstd::prelude::*;

use crate::entity::entity_data::EntityData;

verus! {

/// A level: the extent of its world and the bodies to put into it, in order.
#[derive(Debug)]
pub struct Level {
    pub width: i32,
    pub height: i32,
    pub entity_datas: Vec<EntityData>,
}

impl Level {
    pub fn new(width: i32, height: i32, entity_datas: Vec<EntityData>) -> (level: Level)
        ensures
            level.width == width,
            level.height == height,
            level.entity_datas == entity_datas,
    {
        Level { width, height, entity_datas }
    }
}

impl Clone for Level {
    fn clone(&self) -> (level: Self)
        ensures
            level.width == self.width,
            level.height == self.height,
            level.entity_datas@ == self.entity_datas@,
    {
        let mut entity_datas: Vec<EntityData> = Vec::new();
        let mut index: usize = 0;
        while index < self.entity_datas.len()
            invariant
                index <= self.entity_datas.len(),
                entity_datas@ == self.entity_datas@.take(index as int),
            decreases self.entity_datas.len() - index,
        {
            entity_datas.push(self.entity_datas[index]);
            index += 1;
        }
        Level { width: self.width, height: self.height, entity_datas }
    }
}

} // verus!
