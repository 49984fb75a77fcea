use vstd::prelude::*;

verus! {

/// One value of a component. Lengths are in fixed-point steps.
#[derive(Clone, Copy, Debug, PartialEq, Eq, Structural)]
pub enum ComponentData {
    /// The component has no value for this entry.
    Empty,
    Point { x: i32, y: i32 },
    Radius(i32),
    Width(i32),
    Height(i32),
    Color { red: u8, green: u8, blue: u8 },
}

impl ComponentData {
    /// The coordinates, if this is a point.
    pub fn get_point(&self) -> (point: Option<(i32, i32)>)
        ensures
            point == match *self {
                ComponentData::Point { x, y } => Some((x, y)),
                _ => None,
            },
    {
        match self {
            ComponentData::Point { x, y } => Some((*x, *y)),
            _ => None,
        }
    }

    /// The radius, if this is one.
    pub fn get_radius(&self) -> (radius: Option<i32>)
        ensures
            radius == match *self {
                ComponentData::Radius(radius) => Some(radius),
                _ => None,
            },
    {
        match self {
            ComponentData::Radius(radius) => Some(*radius),
            _ => None,
        }
    }
}

} // verus!
