use vstd::prelude::*;

verus! {

/// The contact state that the last physics step left an entity in.
#[derive(Clone, Copy, Debug, PartialEq, Eq, Structural)]
pub enum EntityState {
    /// No step has decided anything yet.
    Unset,
    /// The entity is in free fall.
    Falling,
    /// The entity rests on top of a collidable body.
    Standing,
}

} // verus!
