//! Flies the lasers and the glass shards, each in its direction, and
//! removes those that have left the field.
use vstd::prelude::*;
use crate::direction::Direction;
use crate::fixed::{product, sat_mul};
use crate::glass::Glass;
use crate::laser::Laser;
use crate::playablearea::PlayableArea;

verus! {

/// Something that flies straight: its direction, its speed and where it is.
#[derive(Clone, Copy, Debug, PartialEq, Eq, Structural)]
pub struct Flight {
    pub direction: Direction,
    pub speed: i64,
    pub x: i64,
    pub y: i64,
}

impl Flight {
    /// The flight of a laser at `(x, y)`.
    pub fn of_laser(laser: Laser, x: i64, y: i64) -> (flight: Flight)
        ensures
            flight == (Flight { direction: laser.direction, speed: laser.speed, x, y }),
    {
        Flight { direction: laser.direction, speed: laser.speed, x, y }
    }

    /// The flight of a glass shard at `(x, y)`.
    pub fn of_glass(glass: Glass, x: i64, y: i64) -> (flight: Flight)
        ensures
            flight == (Flight { direction: glass.direction, speed: glass.speed, x, y }),
    {
        Flight { direction: glass.direction, speed: glass.speed, x, y }
    }

    /// The flight after `dt` seconds.
    pub open spec fn stepped(self, dt: i64) -> Flight {
        let position = self.direction.moved(self.x, self.y, product(self.speed, dt));
        Flight { x: position.0, y: position.1, ..self }
    }

    /// Flies on for `dt` seconds, and tells whether the flight was outside
    /// the field before this tick.
    pub fn step(&mut self, dt: i64, playable_area: &PlayableArea) -> (delete: bool)
        ensures
            *final(self) == old(self).stepped(dt),
            delete == playable_area.outside(old(self).x, old(self).y),
    {
        let delete = playable_area.out_of_bounds(self.x, self.y);
        let (x, y) = self.direction.advance(self.x, self.y, sat_mul(self.speed, dt));
        self.x = x;
        self.y = y;
        delete
    }

    /// Advances every flight by `dt` seconds, and tells for each whether it
    /// is to be deleted.
    pub fn step_all(flights: &mut Vec<Flight>, dt: i64, playable_area: &PlayableArea) -> (deleted: Vec<bool>)
        ensures
            final(flights)@.len() == old(flights)@.len(),
            deleted@.len() == old(flights)@.len(),
            forall|i: int|
                0 <= i < old(flights)@.len() ==> #[trigger] final(flights)@[i] == old(
                    flights,
                )@[i].stepped(dt),
            forall|i: int|
                0 <= i < old(flights)@.len() ==> #[trigger] deleted@[i] == playable_area.outside(
                    old(flights)@[i].x,
                    old(flights)@[i].y,
                ),
    {
        let ghost start = flights@;
        let n = flights.len();
        let mut deleted: Vec<bool> = Vec::new();
        let mut i: usize = 0;
        while i < n
            invariant
                n == start.len(),
                flights@.len() == n,
                i <= n,
                deleted@.len() == i,
                forall|h: int| 0 <= h < i ==> #[trigger] flights@[h] == start[h].stepped(dt),
                forall|h: int|
                    0 <= h < i ==> #[trigger] deleted@[h] == playable_area.outside(
                        start[h].x,
                        start[h].y,
                    ),
                forall|h: int| i <= h < n ==> #[trigger] flights@[h] == start[h],
            decreases n - i,
        {
            let mut flight = flights[i];
            let delete = flight.step(dt, playable_area);
            flights.set(i, flight);
            deleted.push(delete);
            i += 1;
        }
        deleted
    }
}

/// Flies the lasers.
#[derive(Clone, Copy, Debug, Default, PartialEq, Eq, Structural)]
pub struct LaserSystem;

impl LaserSystem {
    /// Moves every laser by its speed for `dt` seconds in its direction. A
    /// laser that was outside the field before the tick is deleted.
    pub fn run(lasers: &mut Vec<Flight>, dt: i64, playable_area: &PlayableArea) -> (deleted: Vec<bool>)
        ensures
            final(lasers)@.len() == old(lasers)@.len(),
            deleted@.len() == old(lasers)@.len(),
            forall|i: int|
                0 <= i < old(lasers)@.len() ==> #[trigger] final(lasers)@[i] == old(
                    lasers,
                )@[i].stepped(dt),
            forall|i: int|
                0 <= i < old(lasers)@.len() ==> #[trigger] deleted@[i] == playable_area.outside(
                    old(lasers)@[i].x,
                    old(lasers)@[i].y,
                ),
    {
        Flight::step_all(lasers, dt, playable_area)
    }
}

/// Flies the glass shards.
#[derive(Clone, Copy, Debug, Default, PartialEq, Eq, Structural)]
pub struct GlassSystem;

impl GlassSystem {
    /// Moves every shard by its speed for `dt` seconds in its direction. A
    /// shard that was outside the field before the tick is deleted.
    pub fn run(shards: &mut Vec<Flight>, dt: i64, playable_area: &PlayableArea) -> (deleted: Vec<bool>)
        ensures
            final(shards)@.len() == old(shards)@.len(),
            deleted@.len() == old(shards)@.len(),
            forall|i: int|
                0 <= i < old(shards)@.len() ==> #[trigger] final(shards)@[i] == old(
                    shards,
                )@[i].stepped(dt),
            forall|i: int|
                0 <= i < old(shards)@.len() ==> #[trigger] deleted@[i] == playable_area.outside(
                    old(shards)@[i].x,
                    old(shards)@[i].y,
                ),
    {
        Flight::step_all(shards, dt, playable_area)
    }
}

/// A flight keeps its direction and its speed, and one that flies along an
/// axis stays on its line.
pub proof fn lemma_flight_is_straight(flight: Flight, dt: i64)
    ensures
        flight.stepped(dt).direction == flight.direction,
        flight.stepped(dt).speed == flight.speed,
        flight.direction == Direction::Left || flight.direction == Direction::Right
            ==> flight.stepped(dt).y == flight.y,
        flight.direction == Direction::Up || flight.direction == Direction::Down ==> flight.stepped(
            dt,
        ).x == flight.x,
{
}

} // verus!
