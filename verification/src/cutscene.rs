//! The camera cutscene that breaks the small background: zoom in, pause
//! while the glass shards are spawned, zoom back out.
use vstd::prelude::*;
use crate::audio::SoundType;
use crate::fixed::{difference, product, quotient, sat_add, sat_div, sat_mul, sat_sub, sum, SCALE};

verus! {

/// Where a cutscene stands. `Completed` is final.
#[derive(Clone, Copy, Debug, PartialEq, Eq, Structural)]
pub enum CutsceneStatus {
    Zooming,
    Reversing,
    Spawning,
    Completed,
}

/// A cutscene: how long and how far to zoom in, how long to pause, how long
/// to zoom back out, and the sound that goes with it.
#[derive(Clone, Copy, Debug, PartialEq, Eq, Structural)]
pub struct Cutscene {
    pub status: CutsceneStatus,
    pub zoom_in_duration: i64,
    pub zoom_in_scale: i64,
    pub spawn_duration: i64,
    pub zoom_out_duration: i64,
    pub sound_type: SoundType,
    pub already_played_sound: bool,
}

/// The order in which a cutscene passes through its states.
pub open spec fn stage(status: CutsceneStatus) -> nat {
    match status {
        CutsceneStatus::Zooming => 0,
        CutsceneStatus::Spawning => 1,
        CutsceneStatus::Reversing => 2,
        CutsceneStatus::Completed => 3,
    }
}

impl Cutscene {
    /// Scale change per second while zooming over `duration`.
    pub open spec fn scale_factor(self, duration: i64) -> i64 {
        quotient(difference(SCALE, self.zoom_in_scale), duration)
    }

    /// The cutscene after one tick of `time` seconds at camera scale
    /// `current_scale`.
    pub open spec fn after_tick(self, current_scale: i64, time: i64) -> Cutscene {
        match self.status {
            CutsceneStatus::Completed => self,
            CutsceneStatus::Reversing => {
                let new_scale = sum(
                    current_scale,
                    product(self.scale_factor(self.zoom_out_duration), time),
                );
                if new_scale >= SCALE {
                    Cutscene { status: CutsceneStatus::Completed, ..self }
                } else {
                    self
                }
            },
            CutsceneStatus::Spawning => {
                let left = difference(self.spawn_duration, time);
                Cutscene {
                    status: if left <= 0 {
                        CutsceneStatus::Reversing
                    } else {
                        CutsceneStatus::Spawning
                    },
                    spawn_duration: left,
                    ..self
                }
            },
            CutsceneStatus::Zooming => {
                if current_scale <= self.zoom_in_scale {
                    Cutscene { status: CutsceneStatus::Spawning, ..self }
                } else {
                    self
                }
            },
        }
    }

    /// The camera scale that one tick emits, if any.
    pub open spec fn emitted_scale(self, current_scale: i64, time: i64) -> Option<i64> {
        match self.status {
            CutsceneStatus::Completed => None,
            CutsceneStatus::Reversing => {
                let new_scale = sum(
                    current_scale,
                    product(self.scale_factor(self.zoom_out_duration), time),
                );
                if new_scale >= SCALE {
                    Some(SCALE)
                } else {
                    Some(new_scale)
                }
            },
            CutsceneStatus::Spawning => Some(current_scale),
            CutsceneStatus::Zooming => {
                if current_scale <= self.zoom_in_scale {
                    None
                } else {
                    Some(
                        difference(
                            current_scale,
                            product(self.scale_factor(self.zoom_in_duration), time),
                        ),
                    )
                }
            },
        }
    }

    /// A cutscene that starts by zooming in, its sound not yet played.
    pub fn new(
        zoom_in_duration: i64,
        zoom_in_scale: i64,
        spawn_duration: i64,
        zoom_out_duration: i64,
    ) -> (cutscene: Cutscene)
        ensures
            cutscene == (Cutscene {
                status: CutsceneStatus::Zooming,
                zoom_in_duration,
                zoom_in_scale,
                spawn_duration,
                zoom_out_duration,
                sound_type: SoundType::GlassTransition,
                already_played_sound: false,
            }),
    {
        Cutscene {
            status: CutsceneStatus::Zooming,
            zoom_in_duration,
            zoom_in_scale,
            spawn_duration,
            zoom_out_duration,
            sound_type: SoundType::GlassTransition,
            already_played_sound: false,
        }
    }

    /// The sound that goes with the cutscene.
    pub fn get_sound_type(self) -> (sound: SoundType)
        ensures
            sound == self.sound_type,
    {
        self.sound_type
    }

    /// Whether the sound was played already.
    pub fn sound_already_played(self) -> (played: bool)
        ensures
            played == self.already_played_sound,
    {
        self.already_played_sound
    }

    /// Marks the sound as played.
    pub fn played_sound(&mut self)
        ensures
            *final(self) == (Cutscene { already_played_sound: true, ..*old(self) }),
    {
        self.already_played_sound = true;
    }

    /// Advances the cutscene by one tick and returns the next uniform scale
    /// of the camera. `None` means that the scale stays as it is this tick.
    pub fn next_scale(&mut self, current_scale: i64, time: i64) -> (scale: Option<i64>)
        ensures
            *final(self) == old(self).after_tick(current_scale, time),
            scale == old(self).emitted_scale(current_scale, time),
    {
        match self.status {
            CutsceneStatus::Completed => None,
            CutsceneStatus::Reversing => {
                let scale_factor = sat_div(sat_sub(SCALE, self.zoom_in_scale), self.zoom_out_duration);
                let new_scale = sat_add(current_scale, sat_mul(scale_factor, time));
                if new_scale >= SCALE {
                    self.status = CutsceneStatus::Completed;
                    Some(SCALE)
                } else {
                    Some(new_scale)
                }
            },
            CutsceneStatus::Spawning => {
                self.spawn_duration = sat_sub(self.spawn_duration, time);
                if self.spawn_duration <= 0 {
                    self.status = CutsceneStatus::Reversing;
                }
                Some(current_scale)
            },
            CutsceneStatus::Zooming => {
                if current_scale <= self.zoom_in_scale {
                    self.status = CutsceneStatus::Spawning;
                    None
                } else {
                    let scale_factor = sat_div(
                        sat_sub(SCALE, self.zoom_in_scale),
                        self.zoom_in_duration,
                    );
                    let new_scale = sat_sub(current_scale, sat_mul(scale_factor, time));
                    Some(new_scale)
                }
            },
        }
    }
}

impl Default for Cutscene {
    /// No cutscene at all: completed, with nothing left to play.
    fn default() -> (cutscene: Cutscene)
        ensures
            cutscene == (Cutscene {
                status: CutsceneStatus::Completed,
                zoom_in_duration: 0,
                zoom_in_scale: SCALE,
                spawn_duration: 0,
                zoom_out_duration: 0,
                sound_type: SoundType::GlassTransition,
                already_played_sound: true,
            }),
    {
        Cutscene {
            status: CutsceneStatus::Completed,
            zoom_in_duration: 0,
            zoom_in_scale: SCALE,
            spawn_duration: 0,
            zoom_out_duration: 0,
            sound_type: SoundType::GlassTransition,
            already_played_sound: true,
        }
    }
}

/// A completed cutscene stays completed, changes nothing and emits nothing.
pub proof fn lemma_completed_is_final(cutscene: Cutscene, current_scale: i64, time: i64)
    requires
        cutscene.status == CutsceneStatus::Completed,
    ensures
        cutscene.after_tick(current_scale, time) == cutscene,
        cutscene.emitted_scale(current_scale, time).is_none(),
{
}

/// A tick moves a cutscene to its next state or leaves it where it is: it
/// never goes back nor skips a state. The configuration and the sound flag
/// are left alone.
pub proof fn lemma_tick_advances(cutscene: Cutscene, current_scale: i64, time: i64)
    ensures
        stage(cutscene.status) <= stage(cutscene.after_tick(current_scale, time).status)
            <= stage(cutscene.status) + 1,
        cutscene.after_tick(current_scale, time).zoom_in_duration == cutscene.zoom_in_duration,
        cutscene.after_tick(current_scale, time).zoom_in_scale == cutscene.zoom_in_scale,
        cutscene.after_tick(current_scale, time).zoom_out_duration == cutscene.zoom_out_duration,
        cutscene.after_tick(current_scale, time).sound_type == cutscene.sound_type,
        cutscene.after_tick(current_scale, time).already_played_sound
            == cutscene.already_played_sound,
{
}

impl Cutscene {
    /// The cutscene after `n` ticks of `time` seconds each, at a camera
    /// scale that stays at `current_scale`.
    pub open spec fn after_ticks(self, current_scale: i64, time: i64, n: nat) -> Cutscene
        decreases n,
    {
        if n == 0 {
            self
        } else {
            self.after_ticks(current_scale, time, (n - 1) as nat).after_tick(current_scale, time)
        }
    }
}

/// The pause of a cutscene lasts its seconds and no longer: a cutscene that
/// has paused through `n - 1` ticks of `time` seconds goes on pausing on the
/// `n`-th exactly while `n * time` falls short of the seconds it started
/// with, and starts to zoom out on the tick that reaches them.
pub proof fn lemma_pause_lasts(cutscene: Cutscene, current_scale: i64, time: i64, n: nat)
    requires
        cutscene.status == CutsceneStatus::Spawning,
        time >= 0,
        n >= 1,
        (n - 1) * time < cutscene.spawn_duration,
    ensures
        cutscene.after_ticks(current_scale, time, n).status == if n * time
            < cutscene.spawn_duration {
            CutsceneStatus::Spawning
        } else {
            CutsceneStatus::Reversing
        },
        cutscene.after_ticks(current_scale, time, n).spawn_duration == cutscene.spawn_duration - n
            * time,
    decreases n,
{
    let m = (n - 1) as nat;
    assert(n * time == m * time + time) by (nonlinear_arith)
        requires
            n == m + 1,
    ;
    if m == 0 {
        assert(cutscene.after_ticks(current_scale, time, 0) == cutscene);
        assert(0 * time == 0);
    } else {
        let l = (m - 1) as nat;
        assert(m * time == l * time + time && l * time >= 0) by (nonlinear_arith)
            requires
                m == l + 1,
                l >= 0,
                time >= 0,
        ;
        lemma_pause_lasts(cutscene, current_scale, time, m);
    }
}

/// Only the tick on which zooming ends, and a completed cutscene, emit no
/// scale; while zooming out the scale never exceeds one, and it is exactly
/// one on the tick that completes the cutscene.
pub proof fn lemma_emitted_scale(cutscene: Cutscene, current_scale: i64, time: i64)
    ensures
        cutscene.emitted_scale(current_scale, time).is_none() <==> (cutscene.status
            == CutsceneStatus::Completed || (cutscene.status == CutsceneStatus::Zooming
            && current_scale <= cutscene.zoom_in_scale)),
        cutscene.status == CutsceneStatus::Spawning ==> cutscene.emitted_scale(current_scale, time)
            == Some(current_scale),
        cutscene.status == CutsceneStatus::Reversing ==> cutscene.emitted_scale(
            current_scale,
            time,
        ).unwrap() <= SCALE,
        cutscene.status == CutsceneStatus::Reversing ==> (cutscene.after_tick(
            current_scale,
            time,
        ).status == CutsceneStatus::Completed <==> cutscene.emitted_scale(current_scale, time)
            == Some(SCALE)),
{
}

} // verus!
