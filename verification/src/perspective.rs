//! The camera shake between two small levels.
use vstd::prelude::*;
use crate::audio::SoundType;
use crate::fixed::{difference, product, sat_mul, sat_sub};
use crate::random::sample_range;

verus! {

/// Whether the camera is still shaking. `Completed` is final.
#[derive(Clone, Copy, Debug, PartialEq, Eq, Structural)]
pub enum PerspectiveStatus {
    Shaking,
    Completed,
}

/// A camera shake: the seconds it still has to last, and its sound.
#[derive(Clone, Copy, Debug, PartialEq, Eq, Structural)]
pub struct Perspective {
    pub min_shake_seconds: i64,
    pub status: PerspectiveStatus,
    pub already_played_sound: bool,
    pub sound: SoundType,
}

/// The least turn per second that a shake draws, in radians.
pub const SHAKE_LOW: i64 = -500_000;

/// The bound below which every turn per second of a shake lies.
pub const SHAKE_HIGH: i64 = 500_000;

impl Perspective {
    /// The shake after a tick of `time` seconds.
    pub open spec fn after_tick(self, time: i64) -> Perspective {
        match self.status {
            PerspectiveStatus::Shaking => {
                let left = difference(self.min_shake_seconds, time);
                Perspective {
                    min_shake_seconds: left,
                    status: if left <= 0 {
                        PerspectiveStatus::Completed
                    } else {
                        PerspectiveStatus::Shaking
                    },
                    ..self
                }
            },
            PerspectiveStatus::Completed => self,
        }
    }

    /// The turn that a tick emits for the drawn turn per second `roll`.
    pub open spec fn emitted_rotation(self, time: i64, roll: i64) -> Option<i64> {
        match self.status {
            PerspectiveStatus::Shaking => Some(product(roll, time)),
            PerspectiveStatus::Completed => None,
        }
    }

    /// A shake that lasts at least `min_shake_seconds`.
    pub fn new(min_shake_seconds: i64, sound: SoundType) -> (perspective: Perspective)
        ensures
            perspective == (Perspective {
                min_shake_seconds,
                status: PerspectiveStatus::Shaking,
                already_played_sound: false,
                sound,
            }),
    {
        Perspective {
            min_shake_seconds,
            status: PerspectiveStatus::Shaking,
            already_played_sound: false,
            sound,
        }
    }

    /// The sound that goes with the shake.
    pub fn get_sound_type(self) -> (sound: SoundType)
        ensures
            sound == self.sound,
    {
        self.sound
    }

    /// Whether the sound was played already.
    pub fn sound_already_played(self) -> (played: bool)
        ensures
            played == self.already_played_sound,
    {
        self.already_played_sound
    }

    /// Marks the sound as played.
    pub fn played_sound(&mut self)
        ensures
            *final(self) == (Perspective { already_played_sound: true, ..*old(self) }),
    {
        self.already_played_sound = true;
    }

    /// Advances the shake by one tick, and turns the drawn number `roll`
    /// into the rotation to add to the camera this tick.
    pub fn shake(&mut self, time: i64, roll: i64) -> (rotation: Option<i64>)
        ensures
            *final(self) == old(self).after_tick(time),
            rotation == old(self).emitted_rotation(time, roll),
    {
        match self.status {
            PerspectiveStatus::Shaking => {
                self.min_shake_seconds = sat_sub(self.min_shake_seconds, time);
                if self.min_shake_seconds <= 0 {
                    self.status = PerspectiveStatus::Completed;
                }
                Some(sat_mul(roll, time))
            },
            PerspectiveStatus::Completed => None,
        }
    }

    /// Advances the shake by one tick and returns the rotation to add to the
    /// camera: a random turn per second within the shake's range, scaled by
    /// the tick. A completed shake returns `None`, on which the caller sets
    /// the camera straight.
    pub fn next_z_rotation(&mut self, time: i64) -> (rotation: Option<i64>)
        ensures
            *final(self) == old(self).after_tick(time),
            exists|roll: i64|
                SHAKE_LOW <= roll < SHAKE_HIGH && rotation == old(self).emitted_rotation(
                    time,
                    roll,
                ),
    {
        match self.status {
            PerspectiveStatus::Shaking => {
                let roll = sample_range(SHAKE_LOW, SHAKE_HIGH);
                self.shake(time, roll)
            },
            PerspectiveStatus::Completed => {
                assert(self.emitted_rotation(time, 0) == None::<i64>);
                None
            },
        }
    }
}

impl Default for Perspective {
    /// No shake at all: completed, silent.
    fn default() -> (perspective: Perspective)
        ensures
            perspective == (Perspective {
                min_shake_seconds: 0,
                status: PerspectiveStatus::Completed,
                already_played_sound: true,
                sound: SoundType::Silent,
            }),
    {
        Perspective {
            min_shake_seconds: 0,
            status: PerspectiveStatus::Completed,
            already_played_sound: true,
            sound: SoundType::Silent,
        }
    }
}

/// A completed shake stays completed and emits no rotation.
pub proof fn lemma_completed_is_final(perspective: Perspective, time: i64, roll: i64)
    requires
        perspective.status == PerspectiveStatus::Completed,
    ensures
        perspective.after_tick(time) == perspective,
        perspective.emitted_rotation(time, roll).is_none(),
{
}

/// A shake completes on the tick that uses up its time, and every tick of
/// a running shake emits a rotation.
pub proof fn lemma_shake_runs_out(perspective: Perspective, time: i64, roll: i64)
    requires
        perspective.status == PerspectiveStatus::Shaking,
    ensures
        perspective.emitted_rotation(time, roll).is_some(),
        perspective.after_tick(time).status == PerspectiveStatus::Completed
            <==> perspective.min_shake_seconds - time <= 0,
{
}

impl Perspective {
    /// The shake after `n` ticks of `time` seconds each.
    pub open spec fn after_ticks(self, time: i64, n: nat) -> Perspective
        decreases n,
    {
        if n == 0 {
            self
        } else {
            self.after_ticks(time, (n - 1) as nat).after_tick(time)
        }
    }
}

/// The seconds that a running shake has left after `n` ticks: what it had,
/// less the ticks, as far as the number range goes.
proof fn lemma_shake_countdown(perspective: Perspective, time: i64, n: nat)
    requires
        perspective.status == PerspectiveStatus::Shaking,
        time >= 0,
    ensures
        ({
            let after = perspective.after_ticks(time, n);
            &&& n > 0 ==> (after.status == PerspectiveStatus::Completed
                <==> perspective.min_shake_seconds - n * time <= 0)
            &&& after.status == PerspectiveStatus::Shaking ==> after.min_shake_seconds
                == perspective.min_shake_seconds - n * time
            &&& after.sound == perspective.sound
            &&& after.already_played_sound == perspective.already_played_sound
        }),
    decreases n,
{
    if n > 0 {
        let m = (n - 1) as nat;
        lemma_shake_countdown(perspective, time, m);
        assert(n * time == m * time + time) by (nonlinear_arith)
            requires
                n == m + 1,
        ;
        assert(m * time >= 0) by (nonlinear_arith)
            requires
                m >= 0,
                time >= 0,
        ;
    }
}

/// A shake ends on the first tick at which the ticks add up to its
/// seconds, and not before: after `n >= 1` ticks of `time` seconds it is
/// completed exactly when `n * time` has reached the seconds it started with.
pub proof fn lemma_shake_completes(perspective: Perspective, time: i64, n: nat)
    requires
        perspective.status == PerspectiveStatus::Shaking,
        time >= 0,
        n >= 1,
    ensures
        perspective.after_ticks(time, n).status == PerspectiveStatus::Completed
            <==> n * time >= perspective.min_shake_seconds,
{
    lemma_shake_countdown(perspective, time, n);
}

/// The rotation of one tick is smaller than half a radian per second of
/// the tick.
pub proof fn lemma_rotation_bounded(time: i64, roll: i64)
    requires
        SHAKE_LOW <= roll < SHAKE_HIGH,
        time >= 0,
    ensures
        -time <= 2 * product(roll, time) <= time,
{
    assert(-500_000 * time <= roll * time <= 500_000 * time) by (nonlinear_arith)
        requires
            -500_000 <= roll < 500_000,
            time >= 0,
    ;
}

} // verus!
