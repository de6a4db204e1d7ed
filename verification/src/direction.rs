//! The eight compass directions in which the player faces and fires, and a
//! free direction aimed with the mouse.
use vstd::prelude::*;
use crate::fixed::{difference, product, sat_add, sat_mul, sat_sub, sum};
use crate::random::sample_range;
use crate::vector::{heading, unit_vector};

verus! {

/// A quarter of a half turn, in radians.
pub const FRAC_PI_4: i64 = 785_398;

/// A quarter turn, in radians.
pub const FRAC_PI_2: i64 = 1_570_796;

/// A half turn, in radians.
pub const PI: i64 = 3_141_593;

/// Three eighths of a turn, in radians.
pub const THREE_FRAC_PI_4: i64 = 2_356_194;

/// A direction aimed at a point: the unit vector toward it, and the angle
/// by which a sprite drawn nose up is turned to face it.
#[derive(Clone, Copy, Debug, PartialEq, Eq, Structural)]
pub struct ManualDirection {
    pub velocity_x: i64,
    pub velocity_y: i64,
    pub radians: i64,
}

impl ManualDirection {
    /// The sprite's rotation for a direction whose angle from the x axis is
    /// `angle`: a quarter turn less.
    pub open spec fn facing(angle: i64) -> i64 {
        difference(angle, FRAC_PI_2)
    }

    /// The unit vector from the player to the mouse.
    pub open spec fn velocities(player_x: i64, player_y: i64, mouse_x: i64, mouse_y: i64) -> (
        i64,
        i64,
    ) {
        heading(difference(mouse_x, player_x), difference(mouse_y, player_y))
    }

    /// The direction from the player to the mouse. `angle` is the angle of
    /// that direction from the x axis, which the caller measures.
    pub fn new(
        player_x: i64,
        player_y: i64,
        player_z: i64,
        mouse_x: i64,
        mouse_y: i64,
        angle: i64,
    ) -> (direction: ManualDirection)
        ensures
            (direction.velocity_x, direction.velocity_y) == ManualDirection::velocities(
                player_x,
                player_y,
                mouse_x,
                mouse_y,
            ),
            direction.radians == ManualDirection::facing(angle),
    {
        let (velocity_x, velocity_y) = ManualDirection::get_velocities(
            player_x,
            player_y,
            mouse_x,
            mouse_y,
        );
        let radians = ManualDirection::manual_radians(angle);
        ManualDirection { velocity_x, velocity_y, radians }
    }

    /// Turns the angle of a direction into the rotation of a sprite that is
    /// drawn nose up.
    pub fn manual_radians(angle: i64) -> (radians: i64)
        ensures
            radians == ManualDirection::facing(angle),
    {
        sat_sub(angle, FRAC_PI_2)
    }

    /// The unit vector from the player to the mouse.
    pub fn get_velocities(player_x: i64, player_y: i64, mouse_x: i64, mouse_y: i64) -> (v: (
        i64,
        i64,
    ))
        ensures
            v == ManualDirection::velocities(player_x, player_y, mouse_x, mouse_y),
    {
        let dx = sat_sub(mouse_x, player_x);
        let dy = sat_sub(mouse_y, player_y);
        unit_vector(dx, dy)
    }
}

/// The direction of the player, of a laser or of a glass shard.
#[derive(Clone, Copy, Debug, PartialEq, Eq, Structural)]
pub enum Direction {
    Left,
    Up,
    LeftUp,
    LeftDown,
    Right,
    Down,
    RightUp,
    RightDown,
    Mouse(ManualDirection),
}

impl Default for Direction {
    /// Sprites are drawn facing up.
    fn default() -> (direction: Direction)
        ensures
            direction == Direction::Up,
    {
        Direction::Up
    }
}

impl Direction {
    /// The horizontal direction of an input axis.
    pub open spec fn of_x(x: i64) -> Option<Direction> {
        if x < 0 {
            Some(Direction::Left)
        } else if x > 0 {
            Some(Direction::Right)
        } else {
            None
        }
    }

    /// The vertical direction of an input axis.
    pub open spec fn of_y(y: i64) -> Option<Direction> {
        if y < 0 {
            Some(Direction::Down)
        } else if y > 0 {
            Some(Direction::Up)
        } else {
            None
        }
    }

    /// A horizontal direction joined with a vertical one. Any other pair
    /// keeps the first.
    pub open spec fn combined(self, other: Option<Direction>) -> Direction {
        match (self, other) {
            (Direction::Right, Some(Direction::Up)) => Direction::RightUp,
            (Direction::Right, Some(Direction::Down)) => Direction::RightDown,
            (Direction::Left, Some(Direction::Up)) => Direction::LeftUp,
            (Direction::Left, Some(Direction::Down)) => Direction::LeftDown,
            (x, _) => x,
        }
    }

    /// The direction of a pair of input axes; a missing axis is at rest.
    pub open spec fn of_axes(x: Option<i64>, y: Option<i64>) -> Option<Direction> {
        let maybe_x = Direction::of_x(
            match x {
                Some(v) => v,
                None => 0,
            },
        );
        let maybe_y = Direction::of_y(
            match y {
                Some(v) => v,
                None => 0,
            },
        );
        match maybe_x {
            Some(x_dir) => Some(x_dir.combined(maybe_y)),
            None => maybe_y,
        }
    }

    /// The rotation that turns a sprite drawn nose up to face a direction.
    pub open spec fn radians(self) -> i64 {
        match self {
            Direction::Up => 0,
            Direction::RightUp => (-FRAC_PI_4) as i64,
            Direction::LeftUp => FRAC_PI_4,
            Direction::Left => FRAC_PI_2,
            Direction::Down => PI,
            Direction::LeftDown => THREE_FRAC_PI_4,
            Direction::Right => (-FRAC_PI_2) as i64,
            Direction::RightDown => (-THREE_FRAC_PI_4) as i64,
            Direction::Mouse(manual_dir) => manual_dir.radians,
        }
    }

    /// The direction that a roll of an eight-sided die selects.
    pub open spec fn of_roll(n: i64) -> Direction {
        if n == 1 {
            Direction::Left
        } else if n == 2 {
            Direction::Up
        } else if n == 3 {
            Direction::LeftUp
        } else if n == 4 {
            Direction::LeftDown
        } else if n == 5 {
            Direction::Right
        } else if n == 6 {
            Direction::Down
        } else if n == 7 {
            Direction::RightUp
        } else {
            Direction::RightDown
        }
    }

    /// Where a point at `(x, y)` is after travelling `distance` in this
    /// direction: a compass direction moves it by the full distance along
    /// each axis that it names, an aimed one along its unit vector.
    pub open spec fn moved(self, x: i64, y: i64, distance: i64) -> (i64, i64) {
        let neg_x = difference(x, distance);
        let neg_y = difference(y, distance);
        let pos_x = sum(x, distance);
        let pos_y = sum(y, distance);
        match self {
            Direction::Left => (neg_x, y),
            Direction::Right => (pos_x, y),
            Direction::Up => (x, pos_y),
            Direction::Down => (x, neg_y),
            Direction::RightUp => (pos_x, pos_y),
            Direction::LeftUp => (neg_x, pos_y),
            Direction::LeftDown => (neg_x, neg_y),
            Direction::RightDown => (pos_x, neg_y),
            Direction::Mouse(m) => (
                sum(x, product(distance, m.velocity_x)),
                sum(y, product(distance, m.velocity_y)),
            ),
        }
    }

    /// Left for a negative axis value, right for a positive one, nothing at
    /// rest.
    pub fn horizontal(x: i64) -> (direction: Option<Direction>)
        ensures
            direction == Direction::of_x(x),
    {
        if x < 0 {
            Some(Direction::Left)
        } else if x > 0 {
            Some(Direction::Right)
        } else {
            None
        }
    }

    /// Down for a negative axis value, up for a positive one, nothing at
    /// rest.
    pub fn vertical(y: i64) -> (direction: Option<Direction>)
        ensures
            direction == Direction::of_y(y),
    {
        if y < 0 {
            Some(Direction::Down)
        } else if y > 0 {
            Some(Direction::Up)
        } else {
            None
        }
    }

    /// Joins a horizontal direction with a vertical one into a diagonal.
    pub fn combine(self, other: &Option<Direction>) -> (direction: Direction)
        ensures
            direction == self.combined(*other),
    {
        match (self, other) {
            (Direction::Right, Some(Direction::Up)) => Direction::RightUp,
            (Direction::Right, Some(Direction::Down)) => Direction::RightDown,
            (Direction::Left, Some(Direction::Up)) => Direction::LeftUp,
            (Direction::Left, Some(Direction::Down)) => Direction::LeftDown,
            (x, _) => x,
        }
    }

    /// The direction of a pair of input axes, or nothing when both rest.
    pub fn from_coordinates(x: Option<i64>, y: Option<i64>) -> (direction: Option<Direction>)
        ensures
            direction == Direction::of_axes(x, y),
    {
        let maybe_x = Direction::horizontal(
            match x {
                Some(v) => v,
                None => 0,
            },
        );
        let maybe_y = Direction::vertical(
            match y {
                Some(v) => v,
                None => 0,
            },
        );
        match maybe_x {
            Some(x_dir) => Some(x_dir.combine(&maybe_y)),
            None => maybe_y,
        }
    }

    /// The rotation, in radians, that makes a sprite face this direction.
    pub fn direction_to_radians(self) -> (radians: i64)
        ensures
            radians == self.radians(),
    {
        match self {
            Direction::Up => 0,
            Direction::RightUp => -FRAC_PI_4,
            Direction::LeftUp => FRAC_PI_4,
            Direction::Left => FRAC_PI_2,
            Direction::Down => PI,
            Direction::LeftDown => THREE_FRAC_PI_4,
            Direction::Right => -FRAC_PI_2,
            Direction::RightDown => -THREE_FRAC_PI_4,
            Direction::Mouse(manual_dir) => manual_dir.radians,
        }
    }

    /// The compass direction for a roll from one to eight.
    pub fn from_roll(n: i64) -> (direction: Direction)
        ensures
            direction == Direction::of_roll(n),
            !(direction is Mouse),
    {
        if n == 1 {
            Direction::Left
        } else if n == 2 {
            Direction::Up
        } else if n == 3 {
            Direction::LeftUp
        } else if n == 4 {
            Direction::LeftDown
        } else if n == 5 {
            Direction::Right
        } else if n == 6 {
            Direction::Down
        } else if n == 7 {
            Direction::RightUp
        } else {
            Direction::RightDown
        }
    }

    /// A compass direction chosen at random.
    pub fn sample() -> (direction: Direction)
        ensures
            exists|n: i64| 1 <= n < 9 && direction == Direction::of_roll(n),
            !(direction is Mouse),
    {
        let n = sample_range(1, 9);
        Direction::from_roll(n)
    }

    /// Moves the point `(x, y)` by `distance` in this direction.
    pub fn advance(self, x: i64, y: i64, distance: i64) -> (pos: (i64, i64))
        ensures
            pos == self.moved(x, y, distance),
    {
        match self {
            Direction::Left => (sat_sub(x, distance), y),
            Direction::Right => (sat_add(x, distance), y),
            Direction::Up => (x, sat_add(y, distance)),
            Direction::Down => (x, sat_sub(y, distance)),
            Direction::RightUp => (sat_add(x, distance), sat_add(y, distance)),
            Direction::LeftUp => (sat_sub(x, distance), sat_add(y, distance)),
            Direction::LeftDown => (sat_sub(x, distance), sat_sub(y, distance)),
            Direction::RightDown => (sat_add(x, distance), sat_sub(y, distance)),
            Direction::Mouse(m) => (
                sat_add(x, sat_mul(distance, m.velocity_x)),
                sat_add(y, sat_mul(distance, m.velocity_y)),
            ),
        }
    }
}

/// Every roll of the die gives a direction, and the eight rolls give eight
/// different ones.
pub proof fn lemma_rolls_differ(m: i64, n: i64)
    requires
        1 <= m < 9,
        1 <= n < 9,
    ensures
        Direction::of_roll(m) == Direction::of_roll(n) <==> m == n,
{
}

/// Joining gives a diagonal exactly for a horizontal direction with a
/// vertical one, and the pair of axes at rest is the only one without a
/// direction.
pub proof fn lemma_axes(x: Option<i64>, y: Option<i64>)
    ensures
        Direction::of_axes(x, y).is_none() <==> (x.is_none() || x == Some(0i64)) && (y.is_none()
            || y == Some(0i64)),
        Direction::of_axes(x, y).is_some() ==> !(Direction::of_axes(x, y).unwrap() is Mouse),
{
}

} // verus!
