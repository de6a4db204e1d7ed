//! Movement in two steps: the strategies choose velocities from the
//! positions as they are, then the velocities move the entities.
use vstd::prelude::*;
use crate::audio::SoundType;
use crate::fixed::{difference, product, sat_add, sat_mul, sat_sub, sum};
use crate::movement::Movement;
use crate::playablearea::PlayableArea;
use crate::vector::Vector3;

verus! {

/// A moving entity: its movement state and its position.
#[derive(Clone, Copy, Debug, PartialEq, Eq, Structural)]
pub struct Mover {
    pub movement: Movement,
    pub x: i64,
    pub y: i64,
}

/// The vector along which a sprite is to be turned.
#[derive(Clone, Copy, Debug, PartialEq, Eq, Structural)]
pub struct Facing {
    pub dx: i64,
    pub dy: i64,
}

/// What the transform step leaves to do for one entity: turn its sprite,
/// play its launch sound, delete it.
#[derive(Clone, Copy, Debug, PartialEq, Eq, Structural)]
pub struct TransformUpdate {
    /// Where to turn the sprite, on the tick on which the entity first
    /// moves with a locked direction: the vector from the entity to the
    /// point it is locked on. The sprite is drawn nose up, so it is turned a
    /// quarter turn less than the angle of this vector.
    pub facing: Option<Facing>,
    /// The launch sound, on that same tick.
    pub sound: Option<SoundType>,
    /// Whether the entity has left the field.
    pub delete: bool,
}

/// The movement of an entity at `(x, y)` after its strategy has been run
/// once for each of the first `upto` players, in their order.
pub open spec fn pursued(movement: Movement, players: Seq<Vector3>, x: i64, y: i64, upto: nat) -> Movement
    decreases upto,
{
    if upto == 0 {
        movement
    } else {
        pursued(movement, players, x, y, (upto - 1) as nat).after_move(
            players[upto - 1].x,
            players[upto - 1].y,
            players[upto - 1].z,
            x,
            y,
        )
    }
}

impl Mover {
    /// The entity after one tick of `dt` seconds: moved by its velocity, and
    /// marked as turned once it has a locked direction.
    pub open spec fn stepped(self, dt: i64) -> Mover {
        Mover {
            movement: Movement {
                already_rotated: self.movement.already_rotated
                    || self.movement.locked_direction.is_some(),
                ..self.movement
            },
            x: sum(self.x, product(self.movement.velocity_x, dt)),
            y: sum(self.y, product(self.movement.velocity_y, dt)),
        }
    }

    /// What one tick leaves to do for the entity.
    pub open spec fn update(self, dt: i64, playable_area: PlayableArea) -> TransformUpdate {
        let next = self.stepped(dt);
        let turn = self.movement.locked_direction.is_some() && !self.movement.already_rotated;
        TransformUpdate {
            facing: if turn {
                Some(
                    Facing {
                        dx: difference(self.movement.locked_direction.unwrap().x, next.x),
                        dy: difference(self.movement.locked_direction.unwrap().y, next.y),
                    },
                )
            } else {
                None
            },
            sound: if turn {
                self.movement.launch_sound
            } else {
                None
            },
            delete: playable_area.outside(next.x, next.y),
        }
    }

    /// Moves the entity by its velocity for `dt` seconds, turns it once
    /// toward the point it is locked on, and tells whether it has left the
    /// field.
    pub fn step(&mut self, dt: i64, playable_area: &PlayableArea) -> (update: TransformUpdate)
        ensures
            *final(self) == old(self).stepped(dt),
            update == old(self).update(dt, *playable_area),
    {
        self.x = sat_add(self.x, sat_mul(self.movement.velocity_x, dt));
        self.y = sat_add(self.y, sat_mul(self.movement.velocity_y, dt));
        let x = self.x;
        let y = self.y;
        let mut facing: Option<Facing> = None;
        let mut sound: Option<SoundType> = None;
        if let Some(player_vec) = self.movement.locked_direction {
            if !self.movement.already_rotated {
                facing = Some(Facing { dx: sat_sub(player_vec.x, x), dy: sat_sub(player_vec.y, y) });
                sound = self.movement.launch_sound;
                self.movement.already_rotated = true;
            }
        }
        TransformUpdate { facing, sound, delete: playable_area.out_of_bounds(x, y) }
    }
}

/// Chooses the velocities.
#[derive(Clone, Copy, Debug, Default, PartialEq, Eq, Structural)]
pub struct MovementTrackingSystem;

impl MovementTrackingSystem {
    /// Runs the strategy of every entity against every player. Positions
    /// are read and never written.
    pub fn run(movers: &mut Vec<Mover>, players: &Vec<Vector3>)
        ensures
            final(movers)@.len() == old(movers)@.len(),
            forall|i: int|
                0 <= i < old(movers)@.len() ==> #[trigger] final(movers)@[i] == (Mover {
                    movement: pursued(
                        old(movers)@[i].movement,
                        players@,
                        old(movers)@[i].x,
                        old(movers)@[i].y,
                        players@.len(),
                    ),
                    ..old(movers)@[i]
                }),
    {
        let ghost start = movers@;
        let n = movers.len();
        let mut i: usize = 0;
        while i < n
            invariant
                n == start.len(),
                movers@.len() == n,
                i <= n,
                forall|h: int|
                    0 <= h < i ==> #[trigger] movers@[h] == (Mover {
                        movement: pursued(
                            start[h].movement,
                            players@,
                            start[h].x,
                            start[h].y,
                            players@.len(),
                        ),
                        ..start[h]
                    }),
                forall|h: int| i <= h < n ==> #[trigger] movers@[h] == start[h],
            decreases n - i,
        {
            let mut mover = movers[i];
            let mut j: usize = 0;
            while j < players.len()
                invariant
                    j <= players@.len(),
                    i < n,
                    n == start.len(),
                    mover == (Mover {
                        movement: pursued(
                            start[i as int].movement,
                            players@,
                            start[i as int].x,
                            start[i as int].y,
                            j as nat,
                        ),
                        ..start[i as int]
                    }),
                decreases players@.len() - j,
            {
                let player = players[j];
                mover.movement.next_move(player.x, player.y, player.z, mover.x, mover.y);
                j += 1;
            }
            movers.set(i, mover);
            i += 1;
        }
    }
}

/// Moves the entities.
#[derive(Clone, Copy, Debug, Default, PartialEq, Eq, Structural)]
pub struct TransformUpdateSystem;

impl TransformUpdateSystem {
    /// Moves every entity by its velocity for `dt` seconds, and returns for
    /// each what is left to do: the one turn toward a locked direction, with
    /// the launch sound, and the deletion of what has left the field.
    pub fn run(movers: &mut Vec<Mover>, dt: i64, playable_area: &PlayableArea) -> (updates: Vec<
        TransformUpdate,
    >)
        ensures
            final(movers)@.len() == old(movers)@.len(),
            updates@.len() == old(movers)@.len(),
            forall|i: int|
                0 <= i < old(movers)@.len() ==> #[trigger] final(movers)@[i] == old(
                    movers,
                )@[i].stepped(dt),
            forall|i: int|
                0 <= i < old(movers)@.len() ==> #[trigger] updates@[i] == old(movers)@[i].update(
                    dt,
                    *playable_area,
                ),
    {
        let ghost start = movers@;
        let n = movers.len();
        let mut updates: Vec<TransformUpdate> = Vec::new();
        let mut i: usize = 0;
        while i < n
            invariant
                n == start.len(),
                movers@.len() == n,
                i <= n,
                updates@.len() == i,
                forall|h: int| 0 <= h < i ==> #[trigger] movers@[h] == start[h].stepped(dt),
                forall|h: int|
                    0 <= h < i ==> #[trigger] updates@[h] == start[h].update(dt, *playable_area),
                forall|h: int| i <= h < n ==> #[trigger] movers@[h] == start[h],
            decreases n - i,
        {
            let mut mover = movers[i];
            let update = mover.step(dt, playable_area);
            movers.set(i, mover);
            updates.push(update);
            i += 1;
        }
        updates
    }
}

/// An entity is turned toward its locked direction once and never again:
/// after a tick with a locked direction it is marked as turned, and a marked
/// entity is neither turned nor sounded.
pub proof fn lemma_turned_once(mover: Mover, dt: i64, playable_area: PlayableArea)
    ensures
        mover.movement.locked_direction.is_some() ==> mover.stepped(dt).movement.already_rotated,
        mover.movement.already_rotated ==> mover.update(dt, playable_area).facing.is_none()
            && mover.update(dt, playable_area).sound.is_none(),
        mover.stepped(dt).update(dt, playable_area).facing.is_none(),
        mover.update(dt, playable_area).facing.is_some()
            <==> mover.movement.locked_direction.is_some() && !mover.movement.already_rotated,
{
}

/// The transform step moves an entity and leaves its velocity, its speed,
/// its strategy and its lock alone. An entity at rest stays where it is.
pub proof fn lemma_step_keeps(mover: Mover, dt: i64)
    ensures
        mover.stepped(dt).movement == (Movement {
            already_rotated: mover.stepped(dt).movement.already_rotated,
            ..mover.movement
        }),
        mover.movement.velocity_x == 0 && mover.movement.velocity_y == 0 ==> mover.stepped(dt).x
            == mover.x && mover.stepped(dt).y == mover.y,
{
    assert(0 * dt == 0);
}

/// Without a player nothing is aimed, and tracking never moves anything.
pub proof fn lemma_tracking_without_players(movement: Movement, x: i64, y: i64)
    ensures
        pursued(movement, Seq::<Vector3>::empty(), x, y, 0) == movement,
{
}

/// A locked rusher is left alone by every player that it is run against.
pub proof fn lemma_tracking_keeps_lock(
    movement: Movement,
    players: Seq<Vector3>,
    x: i64,
    y: i64,
    upto: nat,
)
    requires
        movement.freeze_direction,
        movement.movement_type != crate::movement::MovementType::Gravitate,
    ensures
        pursued(movement, players, x, y, upto) == movement,
    decreases upto,
{
    if upto > 0 {
        lemma_tracking_keeps_lock(movement, players, x, y, (upto - 1) as nat);
    }
}

} // verus!
