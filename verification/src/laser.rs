//! The player's lasers.
use vstd::prelude::*;
use crate::direction::Direction;

verus! {

/// A laser: the direction in which it flies, and how fast.
#[derive(Clone, Copy, Debug, PartialEq, Eq, Structural)]
pub struct Laser {
    pub direction: Direction,
    pub speed: i64,
}

impl Laser {
    pub fn new(direction: Direction, speed: i64) -> (laser: Laser)
        ensures
            laser == (Laser { direction, speed }),
    {
        Laser { direction, speed }
    }

    /// The laser that a pair of input axes fires, if they name a direction.
    pub fn from_coordinates(x: Option<i64>, y: Option<i64>, speed: i64) -> (laser: Option<Laser>)
        ensures
            laser == match Direction::of_axes(x, y) {
                Some(direction) => Some(Laser { direction, speed }),
                None => None,
            },
    {
        match Direction::from_coordinates(x, y) {
            Some(dir) => Some(Laser::new(dir, speed)),
            None => None,
        }
    }

    /// The laser that flies in a direction already chosen.
    pub fn from_dir(direction: Direction, speed: i64) -> (laser: Laser)
        ensures
            laser == (Laser { direction, speed }),
    {
        Laser::new(direction, speed)
    }
}

} // verus!
