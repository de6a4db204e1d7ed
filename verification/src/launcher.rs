//! The launcher of an enemy that fires projectiles: it gates the firing rate
//! and describes the projectile to launch.
use vstd::prelude::*;
use crate::audio::SoundType;
use crate::collider::Collider;
use crate::fixed::{sat_add, sum};
use crate::movement::{Movement, MovementType};
use crate::random::sample_range;
use crate::tags::CleanupTag;

verus! {

/// Firing rate and projectile speed of an enemy.
#[derive(Clone, Copy, Debug, PartialEq, Eq, Structural)]
pub struct Launcher {
    /// Seconds that must pass between two shots.
    pub fire_delay: i64,
    pub projectile_speed: i64,
    pub seconds_since_firing: i64,
}

/// Marks an entity as a projectile.
#[derive(Clone, Copy, Debug, Default, PartialEq, Eq, Structural)]
pub struct Projectile;

/// The least head start that a shot gives the next one, in seconds.
pub const JITTER_LOW: i64 = 100_000;

/// The bound below which every head start lies.
pub const JITTER_HIGH: i64 = 900_000;

/// Half the side of a projectile's collision box.
pub const PROJECTILE_HALF_EXTENT: i64 = 16_000_000;

/// The sprite of a projectile on its sheet.
pub const PROJECTILE_SPRITE: usize = 3;

/// What a new projectile is made of.
#[derive(Clone, Copy, Debug, PartialEq, Eq, Structural)]
pub struct ProjectileBundle {
    pub projectile: Projectile,
    /// A projectile goes when the scene ends.
    pub cleanup_tag: CleanupTag,
    pub movement: Movement,
    pub collider: Collider,
    pub sprite_number: usize,
}

impl Launcher {
    /// Whether the delay since the last shot has passed.
    pub open spec fn ready(self) -> bool {
        self.seconds_since_firing >= self.fire_delay
    }

    /// The launcher after being asked to fire: a shot restarts the count
    /// of seconds at `jitter`, and a refusal adds the tick to it.
    pub open spec fn after_trigger(self, time: i64, jitter: i64) -> Launcher {
        if self.ready() {
            Launcher { seconds_since_firing: jitter, ..self }
        } else {
            Launcher { seconds_since_firing: sum(self.seconds_since_firing, time), ..self }
        }
    }

    /// The projectile that this launcher fires: at rest until its first
    /// tick, on which it locks on its target.
    pub open spec fn projectile(self) -> ProjectileBundle {
        ProjectileBundle {
            projectile: Projectile,
            cleanup_tag: CleanupTag,
            movement: Movement {
                speed: self.projectile_speed,
                velocity_x: 0,
                velocity_y: 0,
                freeze_direction: false,
                locked_direction: None,
                already_rotated: false,
                launch_sound: Some(SoundType::EnemyBlaster),
                movement_type: MovementType::ProjectileRush,
            },
            collider: Collider {
                half_width: PROJECTILE_HALF_EXTENT,
                half_height: PROJECTILE_HALF_EXTENT,
            },
            sprite_number: PROJECTILE_SPRITE,
        }
    }

    /// Asks whether the launcher may fire now, and keeps the timer, with
    /// `jitter` as the head start that a shot gives the next one.
    pub fn trigger(&mut self, time: i64, jitter: i64) -> (fire: bool)
        ensures
            fire == old(self).ready(),
            *final(self) == old(self).after_trigger(time, jitter),
    {
        if self.seconds_since_firing >= self.fire_delay {
            self.seconds_since_firing = jitter;
            true
        } else {
            self.seconds_since_firing = sat_add(self.seconds_since_firing, time);
            false
        }
    }

    /// Asks whether the launcher may fire now, and keeps the timer. A shot
    /// restarts it at a random head start, so that launchers with the same
    /// delay do not fire in step; a refusal adds `time` to it.
    pub fn can_fire(&mut self, time: i64) -> (fire: bool)
        ensures
            fire == old(self).ready(),
            exists|jitter: i64|
                JITTER_LOW <= jitter < JITTER_HIGH && *final(self) == old(self).after_trigger(
                    time,
                    jitter,
                ),
    {
        if self.seconds_since_firing >= self.fire_delay {
            let jitter = sample_range(JITTER_LOW, JITTER_HIGH);
            self.trigger(time, jitter)
        } else {
            assert(self.after_trigger(time, JITTER_LOW) == self.after_trigger(time, 0));
            self.trigger(time, 0)
        }
    }
}

/// Describes the projectile that a launcher fires. The caller places it at
/// the launcher's position.
pub fn launch_projectile(launcher: Launcher) -> (bundle: ProjectileBundle)
    ensures
        bundle == launcher.projectile(),
{
    let movement = Movement {
        speed: launcher.projectile_speed,
        velocity_x: 0,
        velocity_y: 0,
        freeze_direction: false,
        locked_direction: None,
        already_rotated: false,
        launch_sound: Some(SoundType::EnemyBlaster),
        movement_type: MovementType::ProjectileRush,
    };
    let collider = Collider {
        half_width: PROJECTILE_HALF_EXTENT,
        half_height: PROJECTILE_HALF_EXTENT,
    };
    ProjectileBundle {
        projectile: Projectile,
        cleanup_tag: CleanupTag,
        movement,
        collider,
        sprite_number: PROJECTILE_SPRITE,
    }
}

/// Between two shots the count of seconds never goes down while time moves
/// forward. A launcher whose delay is longer than every head start must
/// wait again right after a shot.
pub proof fn lemma_timer(launcher: Launcher, time: i64, jitter: i64)
    requires
        time >= 0,
        JITTER_LOW <= jitter < JITTER_HIGH,
    ensures
        !launcher.ready() ==> launcher.after_trigger(time, jitter).seconds_since_firing
            >= launcher.seconds_since_firing,
        launcher.ready() && launcher.fire_delay >= JITTER_HIGH ==> !launcher.after_trigger(
            time,
            jitter,
        ).ready(),
{
}

} // verus!
