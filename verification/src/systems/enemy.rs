//! Enemies that carry their own velocity: they chase the player, move, and
//! are counted out when they stray too far.
use vstd::prelude::*;
use crate::fixed::{sat_add, sat_mul};
use crate::gameconfig::EnemyCount;
use crate::systems::movement::{pursued, Mover, MovementTrackingSystem};
use crate::vector::Vector3;

verus! {

/// The least coordinate at which a stray enemy is kept.
pub const STRAY_LOW: i64 = -500_000_000;

/// The greatest coordinate at which a stray enemy is kept.
pub const STRAY_HIGH: i64 = 2_500_000_000;

/// Whether a point is too far away for an enemy to come back from.
pub open spec fn strayed(x: i64, y: i64) -> bool {
    x < STRAY_LOW || x > STRAY_HIGH || y < STRAY_LOW || y > STRAY_HIGH
}

/// What the move leaves to do for one enemy.
#[derive(Clone, Copy, Debug, PartialEq, Eq, Structural)]
pub struct EnemyMove {
    /// Whether to turn the sprite by half a turn: once, when the enemy first
    /// moves with a locked direction.
    pub turn_around: bool,
    /// Whether the enemy has strayed and is deleted.
    pub delete: bool,
}

/// How many of the first `upto` enemies stray on a tick of `dt` seconds.
pub open spec fn strays(movers: Seq<Mover>, dt: i64, upto: nat) -> nat
    decreases upto,
{
    if upto == 0 {
        0
    } else {
        strays(movers, dt, (upto - 1) as nat) + if strayed(
            movers[upto - 1].stepped(dt).x,
            movers[upto - 1].stepped(dt).y,
        ) {
            1nat
        } else {
            0nat
        }
    }
}

/// Aims the enemies at the player.
#[derive(Clone, Copy, Debug, Default, PartialEq, Eq, Structural)]
pub struct EnemyTrackingSystem;

impl EnemyTrackingSystem {
    /// Runs the strategy of every enemy against every player.
    pub fn run(enemies: &mut Vec<Mover>, players: &Vec<Vector3>)
        ensures
            final(enemies)@.len() == old(enemies)@.len(),
            forall|i: int|
                0 <= i < old(enemies)@.len() ==> #[trigger] final(enemies)@[i] == (Mover {
                    movement: pursued(
                        old(enemies)@[i].movement,
                        players@,
                        old(enemies)@[i].x,
                        old(enemies)@[i].y,
                        players@.len(),
                    ),
                    ..old(enemies)@[i]
                }),
    {
        MovementTrackingSystem::run(enemies, players)
    }
}

/// Moves the enemies.
#[derive(Clone, Copy, Debug, Default, PartialEq, Eq, Structural)]
pub struct EnemyMoveSystem;

impl EnemyMoveSystem {
    /// Moves every enemy by its velocity for `dt` seconds. An enemy that
    /// moves with a locked direction for the first time is turned around; one
    /// that strays is deleted and taken off the count.
    pub fn run(enemies: &mut Vec<Mover>, dt: i64, enemy_count: &mut EnemyCount) -> (moves: Vec<EnemyMove>)
        requires
            old(enemy_count).count - old(enemies)@.len() >= i32::MIN,
        ensures
            final(enemies)@.len() == old(enemies)@.len(),
            moves@.len() == old(enemies)@.len(),
            forall|i: int|
                0 <= i < old(enemies)@.len() ==> #[trigger] final(enemies)@[i] == old(
                    enemies,
                )@[i].stepped(dt),
            forall|i: int|
                0 <= i < old(enemies)@.len() ==> #[trigger] moves@[i] == (EnemyMove {
                    turn_around: old(enemies)@[i].movement.locked_direction.is_some() && !old(
                        enemies,
                    )@[i].movement.already_rotated,
                    delete: strayed(
                        old(enemies)@[i].stepped(dt).x,
                        old(enemies)@[i].stepped(dt).y,
                    ),
                }),
            final(enemy_count).count == old(enemy_count).count - strays(
                old(enemies)@,
                dt,
                old(enemies)@.len(),
            ),
    {
        let ghost start = enemies@;
        let n = enemies.len();
        let mut moves: Vec<EnemyMove> = Vec::new();
        let mut i: usize = 0;
        while i < n
            invariant
                n == start.len(),
                enemies@.len() == n,
                i <= n,
                moves@.len() == i,
                old(enemy_count).count - n >= i32::MIN,
                strays(start, dt, i as nat) <= i,
                enemy_count.count == old(enemy_count).count - strays(start, dt, i as nat),
                forall|h: int| 0 <= h < i ==> #[trigger] enemies@[h] == start[h].stepped(dt),
                forall|h: int|
                    0 <= h < i ==> #[trigger] moves@[h] == (EnemyMove {
                        turn_around: start[h].movement.locked_direction.is_some()
                            && !start[h].movement.already_rotated,
                        delete: strayed(start[h].stepped(dt).x, start[h].stepped(dt).y),
                    }),
                forall|h: int| i <= h < n ==> #[trigger] enemies@[h] == start[h],
            decreases n - i,
        {
            let mut enemy = enemies[i];
            enemy.x = sat_add(enemy.x, sat_mul(enemy.movement.velocity_x, dt));
            enemy.y = sat_add(enemy.y, sat_mul(enemy.movement.velocity_y, dt));
            let x = enemy.x;
            let y = enemy.y;
            let mut turn_around = false;
            if enemy.movement.locked_direction.is_some() {
                if !enemy.movement.already_rotated {
                    turn_around = true;
                    enemy.movement.already_rotated = true;
                }
            }
            let out_of_bounds = x < STRAY_LOW || x > STRAY_HIGH || y < STRAY_LOW || y > STRAY_HIGH;
            if out_of_bounds {
                enemy_count.decrement_by(1);
            }
            enemies.set(i, enemy);
            moves.push(EnemyMove { turn_around, delete: out_of_bounds });
            i += 1;
        }
        moves
    }
}

} // verus!
