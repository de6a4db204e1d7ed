//! Enemies, which have health and die, and the ghosts they leave behind.
use vstd::prelude::*;
use crate::fixed::{difference, product, quotient, sat_div, sat_mul, sat_sub};

verus! {

/// The health of an enemy.
#[derive(Clone, Copy, Debug, PartialEq, Eq, Structural)]
pub struct Enemy {
    pub health: i64,
}

impl Enemy {
    /// An enemy is dead once its health is used up.
    pub open spec fn dead(self) -> bool {
        self.health <= 0
    }

    /// Whether the enemy has died.
    pub fn is_dead(&self) -> (dead: bool)
        ensures
            dead == self.dead(),
    {
        self.health <= 0
    }

    /// Takes `damage` off the enemy's health.
    pub fn take_damage(&mut self, damage: i64)
        ensures
            final(self).health == difference(old(self).health, damage),
    {
        self.health = sat_sub(self.health, damage);
    }
}

impl Default for Enemy {
    fn default() -> (enemy: Enemy)
        ensures
            enemy.health == 0,
    {
        Enemy { health: 0 }
    }
}

/// The fading image of a defeated enemy: the seconds it has left, and the
/// scale below which it never shrinks.
#[derive(Clone, Copy, Debug, PartialEq, Eq, Structural)]
pub struct EnemyGhost {
    pub fade_time: i64,
    pub min_scale: i64,
}

/// The seconds over which a new ghost fades.
pub const GHOST_FADE_TIME: i64 = 200_000;

/// The scale at which a ghost stops shrinking.
pub const GHOST_MIN_SCALE: i64 = 50_000;

impl EnemyGhost {
    /// The scale of the ghost after a tick of `timedelta` seconds at
    /// `current_scale`: it shrinks evenly over the time that is left, and
    /// stops at its least scale.
    pub open spec fn scale_after(self, current_scale: i64, timedelta: i64) -> i64 {
        let left = difference(self.fade_time, timedelta);
        if left <= 0 || current_scale <= self.min_scale {
            self.min_scale
        } else {
            let next_increment = quotient(difference(current_scale, self.min_scale), left);
            let next_scale = difference(current_scale, product(next_increment, timedelta));
            if next_scale < self.min_scale {
                self.min_scale
            } else {
                next_scale
            }
        }
    }

    /// Whether the ghost has faded away.
    pub fn is_done_fading(self) -> (done: bool)
        ensures
            done == (self.fade_time <= 0),
    {
        self.fade_time <= 0
    }

    /// Uses up `timedelta` seconds of the fade and returns the ghost's next
    /// scale.
    pub fn next_scale(&mut self, current_scale: i64, timedelta: i64) -> (scale: i64)
        ensures
            final(self).fade_time == difference(old(self).fade_time, timedelta),
            final(self).min_scale == old(self).min_scale,
            scale == old(self).scale_after(current_scale, timedelta),
            scale >= old(self).min_scale,
    {
        self.fade_time = sat_sub(self.fade_time, timedelta);
        if self.fade_time <= 0 || current_scale <= self.min_scale {
            self.min_scale
        } else {
            let next_increment = sat_div(sat_sub(current_scale, self.min_scale), self.fade_time);
            let next_scale = sat_sub(current_scale, sat_mul(next_increment, timedelta));
            if next_scale < self.min_scale {
                self.min_scale
            } else {
                next_scale
            }
        }
    }
}

impl Default for EnemyGhost {
    fn default() -> (spirit: EnemyGhost)
        ensures
            spirit == (EnemyGhost { fade_time: 0, min_scale: 0 }),
    {
        EnemyGhost { fade_time: 0, min_scale: 0 }
    }
}

/// The ghost that a defeated enemy leaves at its last position.
pub fn summon_ghost() -> (spirit: EnemyGhost)
    ensures
        spirit == (EnemyGhost { fade_time: GHOST_FADE_TIME, min_scale: GHOST_MIN_SCALE }),
{
    EnemyGhost { fade_time: GHOST_FADE_TIME, min_scale: GHOST_MIN_SCALE }
}

/// A ghost never shrinks below its least scale, and while time moves
/// forward it never grows.
pub proof fn lemma_ghost_shrinks(spirit: EnemyGhost, current_scale: i64, timedelta: i64)
    ensures
        spirit.scale_after(current_scale, timedelta) >= spirit.min_scale,
        timedelta >= 0 && current_scale >= spirit.min_scale ==> spirit.scale_after(
            current_scale,
            timedelta,
        ) <= current_scale,
{
    let left = difference(spirit.fade_time, timedelta);
    if timedelta >= 0 && current_scale > spirit.min_scale && left > 0 {
        let gap = difference(current_scale, spirit.min_scale);
        let inc = quotient(gap, left);
        crate::vector::lemma_trunc_div_bounds(gap * crate::fixed::SCALE, left as int);
        assert(gap * crate::fixed::SCALE >= 0) by (nonlinear_arith)
            requires
                gap >= 0,
        ;
        assert(inc >= 0);
        crate::vector::lemma_trunc_div_bounds(inc * timedelta, crate::fixed::SCALE as int);
        assert(inc * timedelta >= 0) by (nonlinear_arith)
            requires
                inc >= 0,
                timedelta >= 0,
        ;
        assert(product(inc, timedelta) >= 0);
    }
}

/// A damaged enemy that was alive is no healthier than before, and one
/// blow of at least its health kills it.
pub proof fn lemma_damage(enemy: Enemy, damage: i64)
    requires
        damage >= 0,
    ensures
        difference(enemy.health, damage) <= enemy.health,
        damage >= enemy.health ==> difference(enemy.health, damage) <= 0,
{
}

} // verus!
