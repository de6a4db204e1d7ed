//! The scene between two levels: a camera shake, the cutscene that breaks
//! the background, or a plain fade to black and back.
use vstd::prelude::*;
use crate::cutscene::{Cutscene, CutsceneStatus};
use crate::direction::Direction;
use crate::fade::{Fade, FadeStatus, Fader};
use crate::gameconfig::{GameConfig, GameplayMode};
use crate::glass::Glass;
use crate::perspective::{Perspective, PerspectiveStatus};
use crate::playablearea::PlayableArea;
use crate::random::sample_range;
use crate::states::gameplay::GameplayState;
use crate::tags::CleanupTag;

verus! {

/// The speed of the fade of the overlay, in opacity per second.
pub const OVERLAY_FADE_SPEED: i64 = 6_000_000;

/// The speed of the fader that the scene keeps for itself.
pub const DEFAULT_FADE_SPEED: i64 = 1_000;

/// The first coordinate of the grid of glass shards, in hundredths of the
/// field.
pub const GLASS_FIRST: i64 = -4;

/// The distance between two shards, in hundredths of the field.
pub const GLASS_STEP: i64 = 4;

/// The number of shards along each axis.
pub const GLASS_PER_AXIS: usize = 27;

/// The number of raw units in a hundredth.
pub const PERCENT: i64 = 10_000;

/// The bound below which the sprite of a shard lies.
pub const GLASS_SPRITES: i64 = 2;

/// The least scale of a shard.
pub const GLASS_SCALE_LOW: i64 = 180_000;

/// The bound below which the scale of every shard lies.
pub const GLASS_SCALE_HIGH: i64 = 320_000;

/// The least speed of a shard.
pub const GLASS_SPEED_LOW: i64 = 1_000_000_000;

/// The bound below which the speed of every shard lies.
pub const GLASS_SPEED_HIGH: i64 = 2_000_000_000;

/// One glass shard to create.
#[derive(Clone, Copy, Debug, PartialEq, Eq, Structural)]
pub struct GlassSpawn {
    pub glass: Glass,
    pub sprite_number: usize,
    pub x: i64,
    pub y: i64,
    /// The rotation of the sprite: it faces where the shard flies.
    pub rotation: i64,
    /// The uniform scale at which the shard is drawn.
    pub scale: i64,
    /// A shard goes when the scene ends.
    pub cleanup_tag: CleanupTag,
}

/// The four numbers that are drawn for one shard.
#[derive(Clone, Copy, Debug, PartialEq, Eq, Structural)]
pub struct GlassRolls {
    pub direction: i64,
    pub sprite: i64,
    pub scale: i64,
    pub speed: i64,
}

impl GlassRolls {
    /// Whether each number lies in the range that it is drawn from.
    pub open spec fn in_range(self) -> bool {
        &&& 1 <= self.direction < 9
        &&& 0 <= self.sprite < GLASS_SPRITES
        &&& GLASS_SCALE_LOW <= self.scale < GLASS_SCALE_HIGH
        &&& GLASS_SPEED_LOW <= self.speed < GLASS_SPEED_HIGH
    }
}

/// What the scene sets up when it starts: the fader that it keeps, and the
/// component that drives the overlay, which is the camera shake where there
/// is one and a fader where there is none.
#[derive(Clone, Copy, Debug, PartialEq, Eq, Structural)]
pub struct TransitionSetup {
    pub fade_status: FadeStatus,
    pub fader: Fader,
    pub overlay_fader: Option<Fader>,
    pub overlay_perspective: Option<Perspective>,
}

/// What a tick of the scene leaves to do.
#[derive(Clone, Copy, Debug, PartialEq, Eq, Structural)]
pub struct TransitionStep {
    /// Show the wide, broken background.
    pub widen_background: bool,
    /// Spawn the glass shards.
    pub spawn_glass: bool,
    /// Hand over to the next level.
    pub back_to_game: bool,
}

/// An event of the window that the scene reacts to.
#[derive(Clone, Copy, Debug, PartialEq, Eq, Structural)]
pub enum TransitionEvent {
    CloseRequested,
    EscapePressed,
    PausePressed,
    Other,
}

/// What the scene asks for after an event.
#[derive(Clone, Copy, Debug, PartialEq, Eq, Structural)]
pub enum TransitionReaction {
    Quit,
    Pause,
    Stay,
}

/// The scene between two levels.
#[derive(Debug)]
pub struct TransitionState {
    pub glass_spawned: bool,
    pub game_config: GameConfig,
    pub perspective_shift: Option<Perspective>,
    pub cutscene: Option<Cutscene>,
}

/// The fraction of the field at which the `index`-th shard of an axis lies.
pub open spec fn glass_fraction(index: int) -> i64 {
    ((GLASS_FIRST + GLASS_STEP * index) * PERCENT) as i64
}

/// The shard that is made at the fractions `(x_pct, y_pct)` of the field
/// from the given rolls. There are two sprites to draw a shard with.
pub open spec fn shard(playable_area: PlayableArea, x_pct: i64, y_pct: i64, rolls: GlassRolls) -> GlassSpawn {
    let position = playable_area.point_at(x_pct, y_pct);
    let direction = Direction::of_roll(rolls.direction);
    GlassSpawn {
        glass: Glass { direction, speed: rolls.speed },
        sprite_number: if rolls.sprite == 1 {
            1
        } else {
            0
        },
        x: position.0,
        y: position.1,
        rotation: direction.radians(),
        scale: rolls.scale,
        cleanup_tag: CleanupTag,
    }
}

/// Whether `spawn` is a shard at the given fractions of the field, for some
/// rolls within their ranges.
pub open spec fn is_shard(playable_area: PlayableArea, x_pct: i64, y_pct: i64, spawn: GlassSpawn) -> bool {
    exists|rolls: GlassRolls| rolls.in_range() && spawn == shard(playable_area, x_pct, y_pct, rolls)
}

/// What a tick decides, from the states of the effects as the systems left
/// them.
pub open spec fn decided(
    perspective_shift: Option<Perspective>,
    cutscene: Option<Cutscene>,
    glass_spawned: bool,
    perspective: Perspective,
    running: Cutscene,
    fade_completed: bool,
) -> TransitionStep {
    if perspective_shift.is_some() && perspective.status == PerspectiveStatus::Completed {
        TransitionStep { widen_background: false, spawn_glass: false, back_to_game: true }
    } else if cutscene.is_some() && running.status == CutsceneStatus::Completed {
        TransitionStep { widen_background: false, spawn_glass: false, back_to_game: true }
    } else {
        TransitionStep {
            widen_background: cutscene.is_some() && running.status == CutsceneStatus::Reversing,
            spawn_glass: cutscene.is_some() && running.status == CutsceneStatus::Spawning
                && !glass_spawned,
            back_to_game: fade_completed && perspective_shift.is_none() && cutscene.is_none(),
        }
    }
}

/// Makes one glass shard from its rolls.
pub fn make_shard(playable_area: &PlayableArea, x_pct: i64, y_pct: i64, rolls: GlassRolls) -> (spawn: GlassSpawn)
    ensures
        spawn == shard(*playable_area, x_pct, y_pct, rolls),
{
    let (x, y) = playable_area.relative_coordinates(&x_pct, &y_pct);
    let dir = Direction::from_roll(rolls.direction);
    let rotation = dir.direction_to_radians();
    GlassSpawn {
        glass: Glass::new(dir, rolls.speed),
        sprite_number: if rolls.sprite == 1 {
            1
        } else {
            0
        },
        x,
        y,
        rotation,
        scale: rolls.scale,
        cleanup_tag: CleanupTag,
    }
}

/// Scatters glass shards over the field and a little beyond it: one at
/// every fourth hundredth of each axis, from four hundredths before the
/// field to its far edge, column by column. Each shard flies in a compass
/// direction drawn at random and faces it, and its sprite, its size and its
/// speed are drawn too.
pub fn init_glass(playable_area: &PlayableArea) -> (shards: Vec<GlassSpawn>)
    ensures
        shards@.len() == GLASS_PER_AXIS * GLASS_PER_AXIS,
        forall|a: int, b: int|
            0 <= a < GLASS_PER_AXIS && 0 <= b < GLASS_PER_AXIS ==> is_shard(
                *playable_area,
                glass_fraction(a),
                glass_fraction(b),
                #[trigger] shards@[a * GLASS_PER_AXIS + b],
            ),
{
    let mut shards: Vec<GlassSpawn> = Vec::new();
    let mut a: usize = 0;
    while a < GLASS_PER_AXIS
        invariant
            a <= GLASS_PER_AXIS,
            shards@.len() == a * GLASS_PER_AXIS,
            forall|i: int, j: int|
                0 <= i < a && 0 <= j < GLASS_PER_AXIS ==> is_shard(
                    *playable_area,
                    glass_fraction(i),
                    glass_fraction(j),
                    #[trigger] shards@[i * GLASS_PER_AXIS + j],
                ),
        decreases GLASS_PER_AXIS - a,
    {
        let x_pct: i64 = (GLASS_FIRST + GLASS_STEP * (a as i64)) * PERCENT;
        let mut b: usize = 0;
        while b < GLASS_PER_AXIS
            invariant
                a < GLASS_PER_AXIS,
                b <= GLASS_PER_AXIS,
                x_pct == glass_fraction(a as int),
                shards@.len() == a * GLASS_PER_AXIS + b,
                forall|i: int, j: int|
                    0 <= i < a && 0 <= j < GLASS_PER_AXIS ==> is_shard(
                        *playable_area,
                        glass_fraction(i),
                        glass_fraction(j),
                        #[trigger] shards@[i * GLASS_PER_AXIS + j],
                    ),
                forall|j: int|
                    0 <= j < b ==> is_shard(
                        *playable_area,
                        glass_fraction(a as int),
                        glass_fraction(j),
                        #[trigger] shards@[a * GLASS_PER_AXIS + j],
                    ),
            decreases GLASS_PER_AXIS - b,
        {
            let y_pct: i64 = (GLASS_FIRST + GLASS_STEP * (b as i64)) * PERCENT;
            let rolls = GlassRolls {
                direction: sample_range(1, 9),
                sprite: sample_range(0, GLASS_SPRITES),
                scale: sample_range(GLASS_SCALE_LOW, GLASS_SCALE_HIGH),
                speed: sample_range(GLASS_SPEED_LOW, GLASS_SPEED_HIGH),
            };
            let spawn = make_shard(playable_area, x_pct, y_pct, rolls);
            assert(rolls.in_range());
            assert(is_shard(*playable_area, x_pct, y_pct, spawn));
            shards.push(spawn);
            b += 1;
        }
        a += 1;
    }
    shards
}

impl TransitionState {
    /// A scene that has not started yet.
    pub fn new(
        game_config: GameConfig,
        perspective_shift: Option<Perspective>,
        cutscene: Option<Cutscene>,
    ) -> (state: TransitionState)
        ensures
            state.game_config == game_config,
            state.perspective_shift == perspective_shift,
            state.cutscene == cutscene,
            !state.glass_spawned,
    {
        TransitionState { glass_spawned: false, game_config, perspective_shift, cutscene }
    }

    /// What the scene sets up when it starts: a fresh fade status, a slow
    /// fader of its own, and the overlay, which fades to black unless the
    /// camera shakes.
    pub fn on_start(&self) -> (setup: TransitionSetup)
        ensures
            setup == (TransitionSetup {
                fade_status: FadeStatus { completed: false },
                fader: Fader {
                    fade_speed: DEFAULT_FADE_SPEED,
                    fade_direction: Fade::Darken,
                    alpha: 0,
                },
                overlay_fader: if self.perspective_shift.is_some() {
                    None
                } else {
                    Some(
                        Fader {
                            fade_speed: OVERLAY_FADE_SPEED,
                            fade_direction: Fade::Darken,
                            alpha: 0,
                        },
                    )
                },
                overlay_perspective: self.perspective_shift,
            }),
    {
        let fader = Fader::new(OVERLAY_FADE_SPEED, Fade::Darken);
        let overlay_fader = match self.perspective_shift {
            None => Some(fader),
            Some(_) => None,
        };
        TransitionSetup {
            fade_status: FadeStatus { completed: false },
            fader: Fader::new(DEFAULT_FADE_SPEED, Fade::Darken),
            overlay_fader,
            overlay_perspective: self.perspective_shift,
        }
    }

    /// Decides after a tick what the scene does next. `perspective` and
    /// `running` are the camera shake and the cutscene as the systems left
    /// them; each is looked at only where the scene was given one. A scene
    /// with an effect ends when the effect is completed; a plain one ends,
    /// and clears the status, when the fade is done. The glass is spawned
    /// once, on the first tick of the cutscene's pause, and the background
    /// is widened on every tick of the zoom out.
    pub fn update(&mut self, perspective: &Perspective, running: &Cutscene, fade_status: &mut FadeStatus) -> (step: TransitionStep)
        ensures
            step == decided(
                old(self).perspective_shift,
                old(self).cutscene,
                old(self).glass_spawned,
                *perspective,
                *running,
                old(fade_status).completed,
            ),
            final(self).glass_spawned == (old(self).glass_spawned || step.spawn_glass),
            final(self).game_config == old(self).game_config,
            final(self).perspective_shift == old(self).perspective_shift,
            final(self).cutscene == old(self).cutscene,
            final(fade_status).completed == (old(fade_status).completed && !(step.back_to_game
                && old(self).perspective_shift.is_none() && old(self).cutscene.is_none())),
    {
        let done = TransitionStep { widen_background: false, spawn_glass: false, back_to_game: true };
        if self.perspective_shift.is_some() {
            if perspective.status == PerspectiveStatus::Completed {
                return done;
            }
        }
        let mut widen_background = false;
        let mut spawn_glass = false;
        if self.cutscene.is_some() {
            if running.status == CutsceneStatus::Reversing {
                widen_background = true;
            } else if running.status == CutsceneStatus::Completed {
                return done;
            } else if running.status == CutsceneStatus::Spawning && !self.glass_spawned {
                spawn_glass = true;
                self.glass_spawned = true;
            }
        }
        let managed_scene = self.perspective_shift.is_some() || self.cutscene.is_some();
        if fade_status.is_completed() && !managed_scene {
            fade_status.clear();
            TransitionStep { widen_background, spawn_glass, back_to_game: true }
        } else {
            TransitionStep { widen_background, spawn_glass, back_to_game: false }
        }
    }

    /// Reacts to an event of the window: closing it or the escape key
    /// quits, and the pause key pauses.
    pub fn handle_event(&self, event: TransitionEvent) -> (reaction: TransitionReaction)
        ensures
            reaction == match event {
                TransitionEvent::CloseRequested => TransitionReaction::Quit,
                TransitionEvent::EscapePressed => TransitionReaction::Quit,
                TransitionEvent::PausePressed => TransitionReaction::Pause,
                TransitionEvent::Other => TransitionReaction::Stay,
            },
    {
        match event {
            TransitionEvent::CloseRequested => TransitionReaction::Quit,
            TransitionEvent::EscapePressed => TransitionReaction::Quit,
            TransitionEvent::PausePressed => TransitionReaction::Pause,
            TransitionEvent::Other => TransitionReaction::Stay,
        }
    }

    /// Ends the scene: the next level is played on in level mode, with the
    /// levels that are left.
    pub fn into_gameplay(self) -> (state: GameplayState)
        ensures
            state.game_config.gameplay_mode == GameplayMode::LevelMode,
            state.game_config.current_levels == self.game_config.current_levels,
            state.game_config.level_config == self.game_config.level_config,
            state.game_config.sound_config == self.game_config.sound_config,
            state.game_config.immortal_hyper_mode == self.game_config.immortal_hyper_mode,
            !state.large_level,
            !state.level_is_loaded,
    {
        let mut game_config = self.game_config;
        game_config.gameplay_mode = GameplayMode::LevelMode;
        GameplayState::new(game_config)
    }
}

/// The glass is spawned at most once: a scene that has spawned it never
/// asks for it again.
pub proof fn lemma_glass_once(
    perspective_shift: Option<Perspective>,
    cutscene: Option<Cutscene>,
    perspective: Perspective,
    running: Cutscene,
    fade_completed: bool,
)
    ensures
        !decided(perspective_shift, cutscene, true, perspective, running, fade_completed).spawn_glass,
{
}

/// A scene with an effect ends exactly when the effect is completed, and a
/// plain one exactly when its fade is done.
pub proof fn lemma_scene_ends(
    perspective_shift: Option<Perspective>,
    cutscene: Option<Cutscene>,
    glass_spawned: bool,
    perspective: Perspective,
    running: Cutscene,
    fade_completed: bool,
)
    ensures
        decided(
            perspective_shift,
            cutscene,
            glass_spawned,
            perspective,
            running,
            fade_completed,
        ).back_to_game <==> (perspective_shift.is_some() && perspective.status
            == PerspectiveStatus::Completed) || (cutscene.is_some() && running.status
            == CutsceneStatus::Completed) || (perspective_shift.is_none() && cutscene.is_none()
            && fade_completed),
{
}

/// Every shard lies at a fraction of the field between four hundredths
/// before it and its far edge.
pub proof fn lemma_glass_fractions(index: int)
    requires
        0 <= index < GLASS_PER_AXIS,
    ensures
        -4 * PERCENT <= glass_fraction(index) <= 100 * PERCENT,
        index == 1 ==> glass_fraction(index) == 0,
        index == 26 ==> glass_fraction(index) == crate::fixed::SCALE,
{
}

} // verus!
