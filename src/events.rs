use vstd::prelude::*;

verus! {

/// The side of an obstacle that the actor struck.
#[derive(Clone, Copy, Debug, PartialEq, Eq, Structural)]
pub enum CollisionSide {
    Left,
    Right,
    Top,
    Bottom,
}

/// One collision found during a tick: which obstacle, and on which side.
#[derive(Clone, Copy, Debug, PartialEq, Eq, Structural)]
pub struct Collision {
    pub block_index: usize,
    pub side: CollisionSide,
}

} // verus!
