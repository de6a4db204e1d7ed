//! Shakes and zooms the camera during a transition, and plays the sound of
//! the transition once.
use vstd::prelude::*;
use crate::audio::SoundType;
use crate::cutscene::Cutscene;
use crate::perspective::{Perspective, SHAKE_HIGH, SHAKE_LOW};

verus! {

/// What a tick of shaking leaves to do for the camera.
#[derive(Clone, Copy, Debug, PartialEq, Eq, Structural)]
pub struct CameraShake {
    /// The rotation to add to the camera; without one, the camera is set
    /// straight.
    pub rotation: Option<i64>,
    /// The sound to play, on the first tick.
    pub sound: Option<SoundType>,
}

/// What a tick of the cutscene leaves to do for the camera.
#[derive(Clone, Copy, Debug, PartialEq, Eq, Structural)]
pub struct CameraZoom {
    /// The uniform scale to give the camera; without one, it keeps its
    /// scale.
    pub scale: Option<i64>,
    /// The sound to play, on the first tick.
    pub sound: Option<SoundType>,
}

/// The sound that is due: the given one unless it was played already.
pub open spec fn due_sound(already_played: bool, sound: SoundType) -> Option<SoundType> {
    if already_played {
        None
    } else {
        Some(sound)
    }
}

/// Shakes the camera.
#[derive(Clone, Copy, Debug, Default, PartialEq, Eq, Structural)]
pub struct CameraShakeSystem;

impl CameraShakeSystem {
    /// Advances the shake by `dt` seconds for one camera. The sound of the
    /// shake is due once, on the first tick.
    pub fn run(perspective: &mut Perspective, dt: i64) -> (shake: CameraShake)
        ensures
            *final(perspective) == (Perspective {
                already_played_sound: true,
                ..old(perspective).after_tick(dt)
            }),
            exists|roll: i64|
                SHAKE_LOW <= roll < SHAKE_HIGH && shake.rotation == old(
                    perspective,
                ).emitted_rotation(dt, roll),
            shake.sound == due_sound(old(perspective).already_played_sound, old(perspective).sound),
    {
        let rotation = perspective.next_z_rotation(dt);
        let mut sound: Option<SoundType> = None;
        if !perspective.sound_already_played() {
            sound = Some(perspective.get_sound_type());
            perspective.played_sound();
        }
        CameraShake { rotation, sound }
    }
}

/// Zooms the camera.
#[derive(Clone, Copy, Debug, Default, PartialEq, Eq, Structural)]
pub struct CameraZoomSystem;

impl CameraZoomSystem {
    /// Advances the cutscene by `dt` seconds for one camera whose scale is
    /// `current_scale`. The sound of the cutscene is due once, on the first
    /// tick.
    pub fn run(cutscene: &mut Cutscene, current_scale: i64, dt: i64) -> (zoom: CameraZoom)
        ensures
            *final(cutscene) == (Cutscene {
                already_played_sound: true,
                ..old(cutscene).after_tick(current_scale, dt)
            }),
            zoom.scale == old(cutscene).emitted_scale(current_scale, dt),
            zoom.sound == due_sound(old(cutscene).already_played_sound, old(cutscene).sound_type),
    {
        let scale = cutscene.next_scale(current_scale, dt);
        let mut sound: Option<SoundType> = None;
        if !cutscene.sound_already_played() {
            sound = Some(cutscene.get_sound_type());
            cutscene.played_sound();
        }
        CameraZoom { scale, sound }
    }
}

} // verus!
