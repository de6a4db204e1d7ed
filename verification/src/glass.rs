//! The glass shards that fly off when the small background breaks.
use vstd::prelude::*;
use crate::direction::Direction;

verus! {

/// One shard: the direction in which it flies, and how fast.
#[derive(Clone, Copy, Debug, PartialEq, Eq, Structural)]
pub struct Glass {
    pub direction: Direction,
    pub speed: i64,
}

impl Glass {
    pub fn new(direction: Direction, speed: i64) -> (glass: Glass)
        ensures
            glass == (Glass { direction, speed }),
    {
        Glass { direction, speed }
    }
}

} // verus!
