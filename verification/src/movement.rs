//! Movement strategies: how an enemy or a projectile chooses its velocity
//! from where it is and where its target is. A strategy only sets the
//! velocity; moving the entity is a later step.
use vstd::prelude::*;
use crate::audio::SoundType;
use crate::fixed::{difference, product, sat_mul, sat_sub, trunc_div, SCALE};
use crate::vector::{
    heading, lemma_heading_is_unit, lemma_trunc_div_bounds, magnitude, unit_vector, Vector3,
};

verus! {

/// The supported kinds of movement.
#[derive(Clone, Copy, Debug, PartialEq, Eq, Structural)]
pub enum MovementType {
    /// Re-aim at the target on every tick.
    Gravitate,
    /// Wait until the target is near on one axis, then dash at where it was.
    HorizontalRush,
    /// Dash at where the target is on the first tick.
    ProjectileRush,
}

impl Default for MovementType {
    fn default() -> (kind: MovementType)
        ensures
            kind == MovementType::Gravitate,
    {
        MovementType::Gravitate
    }
}

/// The movement state of one entity.
#[derive(Clone, Copy, Debug, PartialEq, Eq, Structural)]
pub struct Movement {
    pub speed: i64,
    pub velocity_x: i64,
    pub velocity_y: i64,
    pub freeze_direction: bool,
    pub locked_direction: Option<Vector3>,
    pub already_rotated: bool,
    pub launch_sound: Option<SoundType>,
    pub movement_type: MovementType,
}

/// The distance on one axis within which a waiting rusher sets off.
pub const RUSH_RANGE: i64 = 150_000_000;

/// Whether two coordinates are within rushing range of each other.
pub open spec fn within_rush_range(a: i64, b: i64) -> bool {
    -RUSH_RANGE <= difference(a, b) <= RUSH_RANGE
}

impl Movement {
    /// The movement with its velocity aimed from `(current_x, current_y)` at
    /// `(target_x, target_y)`: the entity's speed along the unit vector
    /// between the two.
    pub open spec fn aimed(self, target_x: i64, target_y: i64, current_x: i64, current_y: i64) -> Movement {
        let u = heading(difference(target_x, current_x), difference(target_y, current_y));
        Movement {
            velocity_x: product(self.speed, u.0),
            velocity_y: product(self.speed, u.1),
            ..self
        }
    }

    /// The movement aimed at the target and locked on it for good.
    pub open spec fn locked_on(
        self,
        target_x: i64,
        target_y: i64,
        target_z: i64,
        current_x: i64,
        current_y: i64,
    ) -> Movement {
        Movement {
            locked_direction: Some(Vector3 { x: target_x, y: target_y, z: target_z }),
            freeze_direction: true,
            ..self.aimed(target_x, target_y, current_x, current_y)
        }
    }

    /// What the waiting rush does on one tick.
    pub open spec fn rushed(
        self,
        target_x: i64,
        target_y: i64,
        target_z: i64,
        current_x: i64,
        current_y: i64,
    ) -> Movement {
        if !self.freeze_direction && (within_rush_range(current_x, target_x) || within_rush_range(
            current_y,
            target_y,
        )) {
            self.locked_on(target_x, target_y, target_z, current_x, current_y)
        } else {
            self
        }
    }

    /// What the projectile's rush does on one tick.
    pub open spec fn launched(
        self,
        target_x: i64,
        target_y: i64,
        target_z: i64,
        current_x: i64,
        current_y: i64,
    ) -> Movement {
        if !self.freeze_direction {
            self.locked_on(target_x, target_y, target_z, current_x, current_y)
        } else {
            self
        }
    }

    /// The movement after one tick of its strategy.
    pub open spec fn after_move(
        self,
        target_x: i64,
        target_y: i64,
        target_z: i64,
        current_x: i64,
        current_y: i64,
    ) -> Movement {
        match self.movement_type {
            MovementType::Gravitate => self.aimed(target_x, target_y, current_x, current_y),
            MovementType::HorizontalRush => self.rushed(
                target_x,
                target_y,
                target_z,
                current_x,
                current_y,
            ),
            MovementType::ProjectileRush => self.launched(
                target_x,
                target_y,
                target_z,
                current_x,
                current_y,
            ),
        }
    }

    /// The entity's speed.
    pub fn get_speed(&self) -> (speed: i64)
        ensures
            speed == self.speed,
    {
        self.speed
    }

    /// Runs the entity's strategy for one tick: sets its velocity, and for
    /// the rushing kinds its lock, from the target's and its own position.
    pub fn next_move(
        &mut self,
        target_x: i64,
        target_y: i64,
        target_z: i64,
        current_x: i64,
        current_y: i64,
    )
        ensures
            *final(self) == old(self).after_move(
                target_x,
                target_y,
                target_z,
                current_x,
                current_y,
            ),
    {
        match self.movement_type {
            MovementType::Gravitate => self.move_towards(target_x, target_y, current_x, current_y),
            MovementType::HorizontalRush => self.rush_towards(
                target_x,
                target_y,
                target_z,
                current_x,
                current_y,
            ),
            MovementType::ProjectileRush => self.projectile_rush(
                target_x,
                target_y,
                target_z,
                current_x,
                current_y,
            ),
        }
    }

    /// Aims the velocity at the target, at the entity's speed. It does not
    /// move the entity.
    pub fn move_towards(&mut self, target_x: i64, target_y: i64, current_x: i64, current_y: i64)
        ensures
            *final(self) == old(self).aimed(target_x, target_y, current_x, current_y),
    {
        let dx = sat_sub(target_x, current_x);
        let dy = sat_sub(target_y, current_y);
        let (ux, uy) = unit_vector(dx, dy);
        self.velocity_x = sat_mul(self.get_speed(), ux);
        self.velocity_y = sat_mul(self.get_speed(), uy);
    }

    /// Waits until the target is within range on either axis, then aims at
    /// it once and locks: from then on nothing changes any more.
    pub fn rush_towards(
        &mut self,
        target_x: i64,
        target_y: i64,
        target_z: i64,
        current_x: i64,
        current_y: i64,
    )
        ensures
            *final(self) == old(self).rushed(target_x, target_y, target_z, current_x, current_y),
    {
        let x_gap = sat_sub(current_x, target_x);
        let y_gap = sat_sub(current_y, target_y);
        let player_in_range = (-RUSH_RANGE <= x_gap && x_gap <= RUSH_RANGE) || (-RUSH_RANGE
            <= y_gap && y_gap <= RUSH_RANGE);
        if !self.freeze_direction && player_in_range {
            self.move_towards(target_x, target_y, current_x, current_y);
            self.locked_direction = Some(Vector3 { x: target_x, y: target_y, z: target_z });
            self.freeze_direction = true;
        }
    }

    /// Aims at the target on the first tick and locks at once.
    pub fn projectile_rush(
        &mut self,
        target_x: i64,
        target_y: i64,
        target_z: i64,
        current_x: i64,
        current_y: i64,
    )
        ensures
            *final(self) == old(self).launched(target_x, target_y, target_z, current_x, current_y),
    {
        if !self.freeze_direction {
            self.locked_direction = Some(Vector3 { x: target_x, y: target_y, z: target_z });
            self.freeze_direction = true;
            self.move_towards(target_x, target_y, current_x, current_y);
        }
    }
}

/// Once a rushing entity has locked its direction, its strategy changes
/// nothing any more, whatever target it is given: neither the lock nor the
/// velocity.
pub proof fn lemma_lock_is_final(
    movement: Movement,
    target_x: i64,
    target_y: i64,
    target_z: i64,
    current_x: i64,
    current_y: i64,
)
    requires
        movement.freeze_direction,
        movement.movement_type != MovementType::Gravitate,
    ensures
        movement.after_move(target_x, target_y, target_z, current_x, current_y) == movement,
{
}

/// A projectile locks on the first tick, on the target it was given; so
/// does a rusher that finds its target within range on either axis. A
/// rusher whose target is out of range on both axes is left as it is.
pub proof fn lemma_lock_is_taken(
    movement: Movement,
    target_x: i64,
    target_y: i64,
    target_z: i64,
    current_x: i64,
    current_y: i64,
)
    requires
        !movement.freeze_direction,
    ensures
        movement.launched(target_x, target_y, target_z, current_x, current_y).freeze_direction,
        movement.launched(target_x, target_y, target_z, current_x, current_y).locked_direction
            == Some(Vector3 { x: target_x, y: target_y, z: target_z }),
        within_rush_range(current_x, target_x) || within_rush_range(current_y, target_y)
            ==> movement.rushed(target_x, target_y, target_z, current_x, current_y)
            == movement.launched(target_x, target_y, target_z, current_x, current_y),
        !within_rush_range(current_x, target_x) && !within_rush_range(current_y, target_y)
            ==> movement.rushed(target_x, target_y, target_z, current_x, current_y) == movement,
{
}

/// No strategy touches the speed, the kind of movement, the launch sound or
/// the rotation flag, and none ever releases a lock.
pub proof fn lemma_strategy_keeps(
    movement: Movement,
    target_x: i64,
    target_y: i64,
    target_z: i64,
    current_x: i64,
    current_y: i64,
)
    ensures
        ({
            let next = movement.after_move(target_x, target_y, target_z, current_x, current_y);
            &&& next.speed == movement.speed
            &&& next.movement_type == movement.movement_type
            &&& next.launch_sound == movement.launch_sound
            &&& next.already_rotated == movement.already_rotated
            &&& movement.freeze_direction ==> next.freeze_direction
            &&& movement.freeze_direction ==> next.locked_direction == movement.locked_direction
        }),
{
}

/// One component of an aimed velocity: its magnitude times `SCALE` brackets
/// the speed times the magnitude of the heading's component.
proof fn lemma_component(speed: i64, u: i64)
    requires
        -SCALE <= u <= SCALE,
    ensures
        magnitude(product(speed, u) as int) * SCALE <= magnitude(speed as int) * magnitude(u as int)
            <= (magnitude(product(speed, u) as int) + 1) * SCALE,
{
    let s = magnitude(speed as int);
    let a = magnitude(u as int);
    let q = trunc_div(speed * u, SCALE as int);
    let p = magnitude(q);
    lemma_trunc_div_bounds(speed * u, SCALE as int);
    assert(magnitude(speed * u) == s * a) by (nonlinear_arith)
        requires
            s == magnitude(speed as int),
            a == magnitude(u as int),
    ;
    assert(s * a <= 0x8000_0000_0000_0000 * 1_000_000) by (nonlinear_arith)
        requires
            0 <= s <= 0x8000_0000_0000_0000,
            0 <= a <= 1_000_000,
    ;
    assert(p <= 0x8000_0000_0000_0000) by {
        if p > 0x8000_0000_0000_0000 {
            assert(p * 1_000_000 > 0x8000_0000_0000_0000 * 1_000_000);
        }
    }
    if q == 0x8000_0000_0000_0000 {
        assert(product(speed, u) == i64::MAX);
        assert((p - 1 + 1) * SCALE == p * SCALE);
    } else {
        assert(product(speed, u) == q);
    }
}

/// From the brackets of both components to the brackets of the length.
proof fn lemma_speed_core(s: int, a: int, b: int, p: int, q: int, one: int)
    requires
        0 <= s,
        0 <= a,
        0 <= b,
        0 <= p,
        0 <= q,
        2 <= one,
        p * one <= s * a <= (p + 1) * one,
        q * one <= s * b <= (q + 1) * one,
        (one - 2) * (one - 2) < a * a + b * b < (one + 1) * (one + 1),
    ensures
        (one * one) * (p * p + q * q) <= (s * s) * ((one + 1) * (one + 1)),
        (s * s) * ((one - 2) * (one - 2)) <= (one * one) * ((p + 1) * (p + 1) + (q + 1) * (q + 1)),
{
    assert((p * one) * (p * one) <= (s * a) * (s * a)) by (nonlinear_arith)
        requires
            0 <= p * one <= s * a,
    ;
    assert((q * one) * (q * one) <= (s * b) * (s * b)) by (nonlinear_arith)
        requires
            0 <= q * one <= s * b,
    ;
    assert(0 <= p * one && 0 <= q * one && 0 <= s * a && 0 <= s * b) by (nonlinear_arith)
        requires
            0 <= p,
            0 <= q,
            0 <= one,
            0 <= s,
            0 <= a,
            0 <= b,
    ;
    assert((s * a) * (s * a) <= ((p + 1) * one) * ((p + 1) * one)) by (nonlinear_arith)
        requires
            0 <= s * a <= (p + 1) * one,
    ;
    assert((s * b) * (s * b) <= ((q + 1) * one) * ((q + 1) * one)) by (nonlinear_arith)
        requires
            0 <= s * b <= (q + 1) * one,
    ;
    let l = a * a + b * b;
    assert((p * one) * (p * one) + (q * one) * (q * one) == (one * one) * (p * p + q * q))
        by (nonlinear_arith);
    assert((s * a) * (s * a) + (s * b) * (s * b) == (s * s) * l) by (nonlinear_arith)
        requires
            l == a * a + b * b,
    ;
    assert(((p + 1) * one) * ((p + 1) * one) + ((q + 1) * one) * ((q + 1) * one) == (one * one) * (
    (p + 1) * (p + 1) + (q + 1) * (q + 1))) by (nonlinear_arith);
    assert((s * s) * l <= (s * s) * ((one + 1) * (one + 1))) by (nonlinear_arith)
        requires
            l < (one + 1) * (one + 1),
    ;
    assert((s * s) * ((one - 2) * (one - 2)) <= (s * s) * l) by (nonlinear_arith)
        requires
            (one - 2) * (one - 2) < l,
    ;
}

/// An entity aimed at a target other than its own position moves at its
/// speed, to within rounding: the velocity is no longer than the speed by
/// more than a millionth of it, and with one raw unit added to each
/// component it is no shorter than the speed by more than two millionths.
pub proof fn lemma_aimed_speed(
    movement: Movement,
    target_x: i64,
    target_y: i64,
    current_x: i64,
    current_y: i64,
)
    requires
        target_x != current_x || target_y != current_y,
    ensures
        ({
            let next = movement.aimed(target_x, target_y, current_x, current_y);
            let vx = magnitude(next.velocity_x as int);
            let vy = magnitude(next.velocity_y as int);
            &&& (SCALE * SCALE) * (vx * vx + vy * vy) <= (movement.speed * movement.speed) * ((SCALE
                + 1) * (SCALE + 1))
            &&& (movement.speed * movement.speed) * ((SCALE - 2) * (SCALE - 2)) <= (SCALE * SCALE)
                * ((vx + 1) * (vx + 1) + (vy + 1) * (vy + 1))
        }),
{
    let dx = difference(target_x, current_x);
    let dy = difference(target_y, current_y);
    let u = heading(dx, dy);
    lemma_heading_is_unit(dx, dy);
    lemma_component(movement.speed, u.0);
    lemma_component(movement.speed, u.1);
    let s = magnitude(movement.speed as int);
    let a = magnitude(u.0 as int);
    let b = magnitude(u.1 as int);
    assert(a * a == u.0 * u.0 && b * b == u.1 * u.1 && s * s == movement.speed * movement.speed)
        by (nonlinear_arith)
        requires
            a == u.0 || a == -u.0,
            b == u.1 || b == -u.1,
            s == movement.speed || s == -movement.speed,
    ;
    let next = movement.aimed(target_x, target_y, current_x, current_y);
    lemma_speed_core(
        s,
        a,
        b,
        magnitude(next.velocity_x as int),
        magnitude(next.velocity_y as int),
        SCALE as int,
    );
}

} // verus!
