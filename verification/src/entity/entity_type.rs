use vstd::prelude::*;

verus! {

/// What a level descriptor stands for.
#[derive(Clone, Copy, Debug, PartialEq, Eq, Structural)]
pub enum EntityType {
    Player,
    Platform,
}

} // verus!
