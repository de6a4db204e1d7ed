//! Lasers against enemies: a laser that touches a living enemy damages it
//! and is used up, and an enemy whose health runs out dies.
use vstd::prelude::*;
use crate::collider::{Aabb, Collider};
use crate::audio::SoundType;
use crate::enemy::{Enemy, EnemyGhost, GHOST_FADE_TIME, GHOST_MIN_SCALE};
use crate::fixed::difference;
use crate::systems::Body;
use crate::tags::CleanupTag;

verus! {

/// The damage of one laser hit.
pub const LASER_DAMAGE: i64 = 20_000_000;

/// Half the length of a laser.
pub const LASER_HALF_WIDTH: i64 = 17_500_000;

/// Half the thickness of a laser.
pub const LASER_HALF_HEIGHT: i64 = 2_500_000;

/// The position of a laser.
#[derive(Clone, Copy, Debug, PartialEq, Eq, Structural)]
pub struct LaserShot {
    pub x: i64,
    pub y: i64,
}

/// An enemy that lasers can hit: its body and its health.
#[derive(Clone, Copy, Debug, PartialEq, Eq, Structural)]
pub struct Target {
    pub body: Body,
    pub enemy: Enemy,
}

/// What the death of an enemy leaves behind: a ghost where it stood, which
/// goes when the scene ends, and a death cry.
#[derive(Clone, Copy, Debug, PartialEq, Eq, Structural)]
pub struct Defeat {
    pub spirit: EnemyGhost,
    pub cleanup_tag: CleanupTag,
    pub x: i64,
    pub y: i64,
    pub sound: SoundType,
}

/// What a tick of laser collisions leaves to do: the lasers that hit
/// something and are deleted, and the enemies that died, each of which is
/// deleted and leaves what its defeat names.
#[derive(Debug)]
pub struct CollisionOutcome {
    pub lasers_spent: Vec<bool>,
    pub enemies_killed: Vec<Option<Defeat>>,
}

/// What the death of `target` leaves behind.
pub open spec fn defeat_of(target: Target) -> Defeat {
    Defeat {
        spirit: EnemyGhost { fade_time: GHOST_FADE_TIME, min_scale: GHOST_MIN_SCALE },
        cleanup_tag: CleanupTag,
        x: target.body.x,
        y: target.body.y,
        sound: SoundType::EnemyDeath,
    }
}

/// What happened to a target over a tick: its defeat, if it was alive before
/// and is dead after.
pub open spec fn fate(before: Target, health: i64) -> Option<Defeat> {
    if before.enemy.health > 0 && health <= 0 {
        Some(defeat_of(before))
    } else {
        None
    }
}

impl LaserShot {
    /// The box of a laser: all lasers have one size, and none is rotated.
    pub open spec fn aabb(self) -> Aabb {
        Collider { half_width: LASER_HALF_WIDTH, half_height: LASER_HALF_HEIGHT }.aabb_at(
            self.x,
            self.y,
        )
    }
}

/// The health of `target` once the first `n` lasers have been tried on it,
/// in their order: each laser that touches it while it lives takes
/// `LASER_DAMAGE` off.
pub open spec fn health_after(lasers: Seq<LaserShot>, target: Target, n: nat) -> i64
    decreases n,
{
    if n == 0 {
        target.enemy.health
    } else {
        let health = health_after(lasers, target, (n - 1) as nat);
        if target.body.touches(lasers[n - 1].aabb()) && health > 0 {
            difference(health, LASER_DAMAGE)
        } else {
            health
        }
    }
}

/// Whether laser `i` damages `target`: it touches it, and the lasers before
/// it have left it alive.
pub open spec fn strikes(lasers: Seq<LaserShot>, target: Target, i: int) -> bool {
    target.body.touches(lasers[i].aabb()) && health_after(lasers, target, i as nat) > 0
}

/// Whether laser `i` damages one of the first `upto` targets.
pub open spec fn strikes_any(lasers: Seq<LaserShot>, targets: Seq<Target>, i: int, upto: int) -> bool {
    exists|j: int| 0 <= j < upto && strikes(lasers, #[trigger] targets[j], i)
}

/// The laser collision system.
#[derive(Clone, Copy, Debug, Default, PartialEq, Eq, Structural)]
pub struct CollisionSystem;

impl CollisionSystem {
    /// Tries every laser on every enemy, lasers in their order. A laser that
    /// touches a living enemy takes `LASER_DAMAGE` off its health and is
    /// spent; it still damages every other living enemy that it touches. An
    /// enemy that was alive and is dead afterwards was killed; one that was
    /// dead already is left alone.
    pub fn run(lasers: &Vec<LaserShot>, enemies: &mut Vec<Target>) -> (outcome: CollisionOutcome)
        ensures
            final(enemies)@.len() == old(enemies)@.len(),
            forall|j: int|
                0 <= j < old(enemies)@.len() ==> (#[trigger] final(enemies)@[j]).body == old(
                    enemies,
                )@[j].body,
            forall|j: int|
                0 <= j < old(enemies)@.len() ==> (#[trigger] final(enemies)@[j]).enemy.health
                    == health_after(lasers@, old(enemies)@[j], lasers@.len()),
            outcome.lasers_spent@.len() == lasers@.len(),
            forall|i: int|
                0 <= i < lasers@.len() ==> #[trigger] outcome.lasers_spent@[i] == strikes_any(
                    lasers@,
                    old(enemies)@,
                    i,
                    old(enemies)@.len() as int,
                ),
            outcome.enemies_killed@.len() == old(enemies)@.len(),
            forall|j: int|
                0 <= j < old(enemies)@.len() ==> #[trigger] outcome.enemies_killed@[j] == fate(
                    old(enemies)@[j],
                    final(enemies)@[j].enemy.health,
                ),
    {
        let ghost start = enemies@;
        let n_lasers = lasers.len();
        let n_enemies = enemies.len();
        let laser_collider = Collider {
            half_width: LASER_HALF_WIDTH,
            half_height: LASER_HALF_HEIGHT,
        };
        let mut lasers_spent: Vec<bool> = Vec::new();
        let mut enemies_killed: Vec<Option<Defeat>> = Vec::new();
        let mut k: usize = 0;
        while k < n_enemies
            invariant
                k <= n_enemies,
                n_enemies == enemies@.len(),
                enemies@ == start,
                enemies_killed@.len() == k,
                forall|j: int|
                    0 <= j < k ==> #[trigger] enemies_killed@[j] == fate(
                        start[j],
                        start[j].enemy.health,
                    ),
            decreases n_enemies - k,
        {
            enemies_killed.push(None);
            k += 1;
        }
        let mut i: usize = 0;
        while i < n_lasers
            invariant
                n_lasers == lasers@.len(),
                n_enemies == start.len(),
                enemies@.len() == n_enemies,
                i <= n_lasers,
                lasers_spent@.len() == i,
                enemies_killed@.len() == n_enemies,
                forall|j: int| 0 <= j < n_enemies ==> (#[trigger] enemies@[j]).body == start[j].body,
                forall|j: int|
                    0 <= j < n_enemies ==> (#[trigger] enemies@[j]).enemy.health == health_after(
                        lasers@,
                        start[j],
                        i as nat,
                    ),
                forall|h: int|
                    0 <= h < i ==> #[trigger] lasers_spent@[h] == strikes_any(
                        lasers@,
                        start,
                        h,
                        n_enemies as int,
                    ),
                forall|j: int|
                    0 <= j < n_enemies ==> #[trigger] enemies_killed@[j] == fate(
                        start[j],
                        enemies@[j].enemy.health,
                    ),
                laser_collider == (Collider {
                    half_width: LASER_HALF_WIDTH,
                    half_height: LASER_HALF_HEIGHT,
                }),
            decreases n_lasers - i,
        {
            let laser = lasers[i];
            let aabb_laser = laser_collider.aabb_from_coordinates(laser.x, laser.y);
            let mut spent = false;
            let mut j: usize = 0;
            while j < n_enemies
                invariant
                    n_lasers == lasers@.len(),
                    n_enemies == start.len(),
                    enemies@.len() == n_enemies,
                    i < n_lasers,
                    j <= n_enemies,
                    enemies_killed@.len() == n_enemies,
                    aabb_laser == lasers@[i as int].aabb(),
                    forall|m: int|
                        0 <= m < n_enemies ==> (#[trigger] enemies@[m]).body == start[m].body,
                    forall|m: int|
                        0 <= m < j ==> (#[trigger] enemies@[m]).enemy.health == health_after(
                            lasers@,
                            start[m],
                            (i + 1) as nat,
                        ),
                    forall|m: int|
                        j <= m < n_enemies ==> (#[trigger] enemies@[m]).enemy.health
                            == health_after(lasers@, start[m], i as nat),
                    spent == strikes_any(lasers@, start, i as int, j as int),
                    forall|m: int|
                        0 <= m < n_enemies ==> #[trigger] enemies_killed@[m] == fate(
                            start[m],
                            enemies@[m].enemy.health,
                        ),
                decreases n_enemies - j,
            {
                let mut target = enemies[j];
                let collides = target.body.intersects(&aabb_laser);
                let ghost struck = strikes(lasers@, start[j as int], i as int);
                proof {
                    lemma_health_never_rises(lasers@, start[j as int], i as nat);
                }
                if collides && !target.enemy.is_dead() {
                    target.enemy.take_damage(LASER_DAMAGE);
                    spent = true;
                    let dead = target.enemy.is_dead();
                    enemies.set(j, target);
                    if dead {
                        enemies_killed.set(
                            j,
                            Some(
                                Defeat {
                                    spirit: crate::enemy::summon_ghost(),
                                    cleanup_tag: CleanupTag,
                                    x: target.body.x,
                                    y: target.body.y,
                                    sound: SoundType::EnemyDeath,
                                },
                            ),
                        );
                    }
                    assert(struck);
                } else {
                    assert(!struck);
                }
                proof {
                    assert(strikes_any(lasers@, start, i as int, (j + 1) as int) == (strikes_any(
                        lasers@,
                        start,
                        i as int,
                        j as int,
                    ) || struck)) by {
                        if strikes_any(lasers@, start, i as int, (j + 1) as int) {
                            let w = choose|w: int|
                                0 <= w < j + 1 && strikes(lasers@, #[trigger] start[w], i as int);
                            if w < j {
                                assert(strikes(lasers@, start[w], i as int));
                            }
                        }
                        if struck {
                            assert(strikes(lasers@, start[j as int], i as int));
                        }
                    }
                }
                j += 1;
            }
            lasers_spent.push(spent);
            i += 1;
        }
        CollisionOutcome { lasers_spent, enemies_killed }
    }
}

/// A dead enemy takes no more damage: once its health has run out, the
/// lasers that follow leave it as it is.
pub proof fn lemma_dead_stays(lasers: Seq<LaserShot>, target: Target, n: nat, m: nat)
    requires
        n <= m,
        health_after(lasers, target, n) <= 0,
    ensures
        health_after(lasers, target, m) == health_after(lasers, target, n),
    decreases m,
{
    if n < m {
        lemma_dead_stays(lasers, target, n, (m - 1) as nat);
    }
}

/// One laser that touches one living enemy damages it exactly once, by
/// `LASER_DAMAGE`, and is spent; one that does not touch it, or finds it
/// dead, does nothing.
pub proof fn lemma_single_hit(laser: LaserShot, target: Target)
    ensures
        health_after(seq![laser], target, 1) == if target.body.touches(laser.aabb())
            && target.enemy.health > 0 {
            difference(target.enemy.health, LASER_DAMAGE)
        } else {
            target.enemy.health
        },
        strikes_any(seq![laser], seq![target], 0, 1) == (target.body.touches(laser.aabb())
            && target.enemy.health > 0),
{
    let lasers = seq![laser];
    let targets = seq![target];
    assert(health_after(lasers, target, 0) == target.enemy.health);
    assert(lasers[0] == laser);
    if target.body.touches(laser.aabb()) && target.enemy.health > 0 {
        assert(strikes(lasers, targets[0], 0));
    }
}

/// Health only goes down in steps of `LASER_DAMAGE`, one step for each laser
/// that strikes: after `n` lasers a living enemy has lost `LASER_DAMAGE` for
/// every laser that touched it.
pub proof fn lemma_health_never_rises(lasers: Seq<LaserShot>, target: Target, n: nat)
    ensures
        health_after(lasers, target, n) <= target.enemy.health,
        target.enemy.health > 0 ==> health_after(lasers, target, n) > -LASER_DAMAGE,
    decreases n,
{
    if n > 0 {
        lemma_health_never_rises(lasers, target, (n - 1) as nat);
    }
}

} // verus!
