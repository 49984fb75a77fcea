use vstd::prelude::*;

use crate::entity::entity_type::EntityType;
use crate::geometry::Color;

verus! {

/// One entry of a level: where a body is, how large it is, its colour and
/// what kind of body it is.
#[derive(Debug, PartialEq, Eq, Structural, Clone, Copy)]
pub struct EntityData {
    pub width: i32,
    pub height: i32,
    pub x: i32,
    pub y: i32,
    pub color: Color,
    pub entity_type: EntityType,
}

impl EntityData {
    pub fn new(
        x: i32,
        y: i32,
        width: i32,
        height: i32,
        color: Color,
        entity_type: EntityType,
    ) -> (data: Self)
        ensures
            data == (EntityData { width, height, x, y, color, entity_type }),
    {
        EntityData { width, height, x, y, color, entity_type }
    }
}

impl Default for EntityData {
    /// A white platform without extent at the origin.
    fn default() -> (data: Self)
        ensures
            data == (EntityData {
                width: 0,
                height: 0,
                x: 0,
                y: 0,
                color: Color::spec_white(),
                entity_type: EntityType::Platform,
            }),
    {
        EntityData {
            width: 0,
            height: 0,
            x: 0,
            y: 0,
            color: Color::white(),
            entity_type: EntityType::Platform,
        }
    }
}

} // verus!
