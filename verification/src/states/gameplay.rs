//! The scene in which a level is played.
use vstd::prelude::*;
use crate::audio::SoundType;
use crate::cutscene::Cutscene;
use crate::gameconfig::{GameConfig, GameplayMode};
use crate::level::{EntityRecord, EntityType, LevelMetadata, LevelQueue, LevelStatus};
use crate::perspective::Perspective;
use crate::playablearea::PlayableArea;
use crate::tags::CleanupTag;

verus! {

/// The prefab that an entity is made from.
#[derive(Clone, Copy, Debug, PartialEq, Eq, Structural)]
pub enum PrefabKind {
    Boss,
    Enemy,
    FlyingEnemy,
    Player,
    PlayerHyper,
}

/// One entity to create at the start of a level.
#[derive(Clone, Copy, Debug, PartialEq, Eq, Structural)]
pub struct Spawn {
    pub prefab: PrefabKind,
    /// The sprite on the sheet of the enemies or of the player.
    pub sprite_number: usize,
    pub x: i64,
    pub y: i64,
    /// The uniform scale at which the entity is drawn.
    pub scale: i64,
    /// Every entity of a level goes when the scene ends.
    pub cleanup_tag: CleanupTag,
}

/// How the player looks and whether it can be hurt.
#[derive(Clone, Copy, Debug, PartialEq, Eq, Structural)]
pub struct PlayerLook {
    pub invulnerable: bool,
    pub sprite_number: usize,
}

/// The scale at which the entities of a level are drawn.
pub const ENTITY_SCALE: i64 = 250_000;

/// The seconds that the cutscene spends zooming in.
pub const ZOOM_IN_DURATION: i64 = 500_000;

/// The scale that the cutscene zooms in to.
pub const ZOOM_IN_SCALE: i64 = 400_000;

/// The seconds that the cutscene pauses for the glass to break.
pub const SPAWN_DURATION: i64 = 5_000_000;

/// The seconds that the cutscene spends zooming out.
pub const ZOOM_OUT_DURATION: i64 = 2_000_000;

/// The least seconds that the camera shakes between two small levels.
pub const SHAKE_SECONDS: i64 = 500_000;

/// What the scene sets up when it starts.
#[derive(Debug)]
pub struct StartPlan {
    pub playable_area: PlayableArea,
    /// The sprite of the background: the intact one, or the wide broken one.
    pub background_sprite: usize,
    /// The entities of the level, if one is played.
    pub spawns: Vec<Spawn>,
}

/// An event of the window that the scene reacts to.
#[derive(Clone, Copy, Debug, PartialEq, Eq, Structural)]
pub enum GameplayEvent {
    CloseRequested,
    EscapePressed,
    PausePressed,
    HyperPressed,
    Other,
}

/// What the scene asks for after an event.
#[derive(Clone, Copy, Debug, PartialEq, Eq, Structural)]
pub enum GameplayReaction {
    /// Push the main menu, with a game to continue.
    OpenMenu,
    /// Push the pause scene.
    Pause,
    Stay,
}

/// Where the scene hands over to.
#[derive(Clone, Copy, Debug, PartialEq, Eq, Structural)]
pub enum GameplayTrans {
    Stay,
    /// The level is cleared: a transition follows, with a camera shake, a
    /// cutscene, or neither.
    Transition { perspective_shift: Option<Perspective>, cutscene: Option<Cutscene> },
    /// The game is over, won or lost.
    AllDone { achieved_victory: bool },
}

/// The scene of a level: the configuration handed to it, whether the level
/// is a large one, and whether its enemies have appeared yet.
#[derive(Debug)]
pub struct GameplayState {
    pub game_config: GameConfig,
    pub large_level: bool,
    pub level_is_loaded: bool,
}

/// The entity that a record places: its prefab and its sprite.
pub open spec fn prefab_of(entity_type: EntityType, immortal_hyper_mode: bool) -> (PrefabKind, usize) {
    match entity_type {
        EntityType::Boss => (PrefabKind::Boss, 0),
        EntityType::SquareEnemy => (PrefabKind::Enemy, 1),
        EntityType::FlyingEnemy => (PrefabKind::FlyingEnemy, 2),
        EntityType::Player => if immortal_hyper_mode {
            (PrefabKind::PlayerHyper, 1)
        } else {
            (PrefabKind::Player, 0)
        },
    }
}

/// The entity that one record of a layout places in a field.
pub open spec fn spawn_of(
    playable_area: PlayableArea,
    record: EntityRecord,
    immortal_hyper_mode: bool,
) -> Spawn {
    let position = playable_area.point_at(record.1, record.2);
    let kind = prefab_of(record.0, immortal_hyper_mode);
    Spawn {
        prefab: kind.0,
        sprite_number: kind.1,
        x: position.0,
        y: position.1,
        scale: ENTITY_SCALE,
        cleanup_tag: CleanupTag,
    }
}

/// The sprite of the background for a level: the wide one for a large
/// level.
pub open spec fn background_of(status: LevelStatus) -> usize {
    if status is LargeLevel {
        1
    } else {
        0
    }
}

/// The level that a status carries, if any.
pub open spec fn level_of(status: LevelStatus) -> Option<LevelMetadata> {
    match status {
        LevelStatus::SmallLevel(m) => Some(m),
        LevelStatus::LargeLevel(m) => Some(m),
        LevelStatus::TransitionTime(m) => Some(m),
        LevelStatus::AllDone => None,
    }
}

/// The mode of play after a scene has started on `status` in level mode.
pub open spec fn mode_after(status: LevelStatus) -> GameplayMode {
    match status {
        LevelStatus::TransitionTime(_) => GameplayMode::TransitionMode,
        LevelStatus::AllDone => GameplayMode::CompletedMode,
        _ => GameplayMode::LevelMode,
    }
}

/// Where the scene hands over to, from what is known after the tick.
pub open spec fn handover(
    mode: GameplayMode,
    large_level: bool,
    level_is_loaded: bool,
    total_enemies: usize,
    player_lives: usize,
) -> GameplayTrans {
    let level_complete = total_enemies == 0 && level_is_loaded;
    if level_complete && mode == GameplayMode::TransitionMode {
        GameplayTrans::Transition {
            perspective_shift: None,
            cutscene: Some(
                Cutscene {
                    status: crate::cutscene::CutsceneStatus::Zooming,
                    zoom_in_duration: ZOOM_IN_DURATION,
                    zoom_in_scale: ZOOM_IN_SCALE,
                    spawn_duration: SPAWN_DURATION,
                    zoom_out_duration: ZOOM_OUT_DURATION,
                    sound_type: SoundType::GlassTransition,
                    already_played_sound: false,
                },
            ),
        }
    } else if level_complete {
        GameplayTrans::Transition {
            perspective_shift: if large_level {
                None
            } else {
                Some(
                    Perspective {
                        min_shake_seconds: SHAKE_SECONDS,
                        status: crate::perspective::PerspectiveStatus::Shaking,
                        already_played_sound: false,
                        sound: SoundType::ShortTransition,
                    },
                )
            },
            cutscene: None,
        }
    } else if mode == GameplayMode::CompletedMode {
        GameplayTrans::AllDone { achieved_victory: true }
    } else if level_is_loaded && player_lives == 0 {
        GameplayTrans::AllDone { achieved_victory: false }
    } else {
        GameplayTrans::Stay
    }
}

/// Places the entities of a level in the field: one for each record of the
/// layout, in its order, at the point that its fractions name.
pub fn init_level(
    playable_area: &PlayableArea,
    level_metadata: &LevelMetadata,
    immortal_hyper_mode: bool,
) -> (spawns: Vec<Spawn>)
    ensures
        spawns@.len() == level_metadata@.len(),
        forall|i: int|
            0 <= i < spawns@.len() ==> #[trigger] spawns@[i] == spawn_of(
                *playable_area,
                level_metadata@[i],
                immortal_hyper_mode,
            ),
{
    let layout = level_metadata.get_layout();
    let mut spawns: Vec<Spawn> = Vec::new();
    let mut i: usize = 0;
    while i < layout.len()
        invariant
            layout@ == level_metadata@,
            i <= layout@.len(),
            spawns@.len() == i,
            forall|h: int|
                0 <= h < i ==> #[trigger] spawns@[h] == spawn_of(
                    *playable_area,
                    level_metadata@[h],
                    immortal_hyper_mode,
                ),
        decreases layout@.len() - i,
    {
        let (entity_type, x_percentage, y_percentage) = layout[i];
        let (x_pos, y_pos) = playable_area.relative_coordinates(&x_percentage, &y_percentage);
        let (prefab, sprite_number): (PrefabKind, usize) = match entity_type {
            EntityType::Boss => (PrefabKind::Boss, 0),
            EntityType::SquareEnemy => (PrefabKind::Enemy, 1),
            EntityType::FlyingEnemy => (PrefabKind::FlyingEnemy, 2),
            EntityType::Player => {
                if immortal_hyper_mode {
                    (PrefabKind::PlayerHyper, 1)
                } else {
                    (PrefabKind::Player, 0)
                }
            },
        };
        spawns.push(
            Spawn {
                prefab,
                sprite_number,
                x: x_pos,
                y: y_pos,
                scale: ENTITY_SCALE,
                cleanup_tag: CleanupTag,
            },
        );
        i += 1;
    }
    spawns
}

/// The sprite of the background for a level.
pub fn change_background(level_status: &LevelStatus) -> (sprite_number: usize)
    ensures
        sprite_number == background_of(*level_status),
{
    match level_status {
        LevelStatus::LargeLevel(_) => 1,
        _ => 0,
    }
}

impl GameplayState {
    /// A scene that has not started yet.
    pub fn new(game_config: GameConfig) -> (state: GameplayState)
        ensures
            state.game_config == game_config,
            !state.large_level,
            !state.level_is_loaded,
    {
        GameplayState { game_config, large_level: false, level_is_loaded: false }
    }

    /// Starts the scene on a screen of the given size: takes the next level
    /// from the sequence, lays out the field for it, wide only for a large
    /// level, and in level mode places its entities and notes what follows
    /// the level. Out of level mode the level that was taken is dropped and
    /// nothing is placed.
    ///
    /// The sequence must hand out something: it was made with at least one
    /// small level.
    pub fn on_start(&mut self, width: i64, height: i64, is_hidpi: bool) -> (plan: StartPlan)
        requires
            old(self).game_config.current_levels@.status().is_some(),
        ensures
            ({
                let queue: LevelQueue = old(self).game_config.current_levels@;
                let status = queue.status().unwrap();
                let in_level = old(self).game_config.gameplay_mode == GameplayMode::LevelMode;
                &&& final(self).game_config.current_levels@ == queue.popped()
                &&& final(self).game_config.immortal_hyper_mode == old(
                    self,
                ).game_config.immortal_hyper_mode
                &&& final(self).level_is_loaded == old(self).level_is_loaded
                &&& plan.playable_area == PlayableArea::of_screen(
                    width,
                    height,
                    !(status is LargeLevel),
                    is_hidpi,
                )
                &&& plan.background_sprite == background_of(status)
                &&& final(self).game_config.gameplay_mode == if in_level {
                    mode_after(status)
                } else {
                    old(self).game_config.gameplay_mode
                }
                &&& final(self).large_level == if in_level && !(status is AllDone) {
                    status is LargeLevel
                } else {
                    old(self).large_level
                }
                &&& if in_level && level_of(status).is_some() {
                    &&& plan.spawns@.len() == level_of(status).unwrap()@.len()
                    &&& forall|i: int|
                        0 <= i < plan.spawns@.len() ==> #[trigger] plan.spawns@[i] == spawn_of(
                            plan.playable_area,
                            level_of(status).unwrap()@[i],
                            old(self).game_config.immortal_hyper_mode,
                        )
                } else {
                    plan.spawns@.len() == 0
                }
            }),
    {
        let popped = self.game_config.current_levels.pop();
        let next_level_status = popped.unwrap();
        let playable_area = match next_level_status {
            LevelStatus::LargeLevel(_) => PlayableArea::new(width, height, false, is_hidpi),
            _ => PlayableArea::new(width, height, true, is_hidpi),
        };
        let background_sprite = change_background(&next_level_status);
        let immortal_hyper_mode = self.game_config.immortal_hyper_mode;
        let mut spawns: Vec<Spawn> = Vec::new();
        if self.game_config.gameplay_mode == GameplayMode::LevelMode {
            match next_level_status {
                LevelStatus::SmallLevel(next_level_metadata) => {
                    self.large_level = false;
                    spawns = init_level(&playable_area, &next_level_metadata, immortal_hyper_mode);
                },
                LevelStatus::LargeLevel(next_level_metadata) => {
                    self.large_level = true;
                    spawns = init_level(&playable_area, &next_level_metadata, immortal_hyper_mode);
                },
                LevelStatus::TransitionTime(next_level_metadata) => {
                    self.game_config.gameplay_mode = GameplayMode::TransitionMode;
                    self.large_level = false;
                    spawns = init_level(&playable_area, &next_level_metadata, immortal_hyper_mode);
                },
                LevelStatus::AllDone => {
                    self.game_config.gameplay_mode = GameplayMode::CompletedMode;
                },
            }
        }
        StartPlan { playable_area, background_sprite, spawns }
    }

    /// What every player is given on each tick: the invulnerability that is
    /// switched on or off in the configuration, and the sprite that shows
    /// it.
    pub fn player_look(&self) -> (look: PlayerLook)
        ensures
            look.invulnerable == self.game_config.immortal_hyper_mode,
            look.sprite_number == if self.game_config.immortal_hyper_mode {
                1usize
            } else {
                0usize
            },
    {
        let invulnerable = self.game_config.immortal_hyper_mode;
        PlayerLook { invulnerable, sprite_number: if invulnerable { 1 } else { 0 } }
    }

    /// Decides after a tick whether the scene goes on, from the number of
    /// enemies and of players that are left. A level counts as loaded once
    /// an enemy has been seen, and as cleared when it is loaded and no enemy
    /// is left.
    pub fn update(&mut self, total_enemies: usize, player_lives: usize) -> (trans: GameplayTrans)
        ensures
            final(self).level_is_loaded == (old(self).level_is_loaded || total_enemies > 0),
            final(self).large_level == old(self).large_level,
            final(self).game_config == old(self).game_config,
            trans == handover(
                old(self).game_config.gameplay_mode,
                old(self).large_level,
                final(self).level_is_loaded,
                total_enemies,
                player_lives,
            ),
    {
        if total_enemies > 0 {
            self.level_is_loaded = true;
        }
        let level_complete = total_enemies == 0 && self.level_is_loaded;
        if level_complete && self.game_config.gameplay_mode == GameplayMode::TransitionMode {
            GameplayTrans::Transition {
                perspective_shift: None,
                cutscene: Some(
                    Cutscene::new(
                        ZOOM_IN_DURATION,
                        ZOOM_IN_SCALE,
                        SPAWN_DURATION,
                        ZOOM_OUT_DURATION,
                    ),
                ),
            }
        } else if level_complete {
            let new_perspective = if self.large_level {
                None
            } else {
                Some(Perspective::new(SHAKE_SECONDS, SoundType::ShortTransition))
            };
            GameplayTrans::Transition { perspective_shift: new_perspective, cutscene: None }
        } else if self.game_config.gameplay_mode == GameplayMode::CompletedMode {
            GameplayTrans::AllDone { achieved_victory: true }
        } else if self.level_is_loaded && player_lives == 0 {
            GameplayTrans::AllDone { achieved_victory: false }
        } else {
            GameplayTrans::Stay
        }
    }

    /// Reacts to an event of the window: closing it or the escape key opens
    /// the menu, the pause key pauses, and the hyper key switches the
    /// player's invulnerability.
    pub fn handle_event(&mut self, event: GameplayEvent) -> (reaction: GameplayReaction)
        ensures
            reaction == match event {
                GameplayEvent::CloseRequested => GameplayReaction::OpenMenu,
                GameplayEvent::EscapePressed => GameplayReaction::OpenMenu,
                GameplayEvent::PausePressed => GameplayReaction::Pause,
                _ => GameplayReaction::Stay,
            },
            final(self).game_config.immortal_hyper_mode == (old(
                self,
            ).game_config.immortal_hyper_mode != (event == GameplayEvent::HyperPressed)),
            final(self).game_config.gameplay_mode == old(self).game_config.gameplay_mode,
            final(self).game_config.current_levels == old(self).game_config.current_levels,
            final(self).large_level == old(self).large_level,
            final(self).level_is_loaded == old(self).level_is_loaded,
    {
        match event {
            GameplayEvent::CloseRequested => GameplayReaction::OpenMenu,
            GameplayEvent::EscapePressed => GameplayReaction::OpenMenu,
            GameplayEvent::PausePressed => GameplayReaction::Pause,
            GameplayEvent::HyperPressed => {
                self.game_config.immortal_hyper_mode = !self.game_config.immortal_hyper_mode;
                GameplayReaction::Stay
            },
            GameplayEvent::Other => GameplayReaction::Stay,
        }
    }
}

/// An entity whose record lies at fractions between zero and one is placed
/// inside a well-formed field.
pub proof fn lemma_spawn_inside(
    playable_area: PlayableArea,
    record: EntityRecord,
    immortal_hyper_mode: bool,
)
    requires
        playable_area.wf(),
        playable_area.max_x - playable_area.min_x <= i64::MAX,
        playable_area.max_y - playable_area.min_y <= i64::MAX,
        0 <= record.1 <= crate::fixed::SCALE,
        0 <= record.2 <= crate::fixed::SCALE,
    ensures
        !playable_area.outside(
            spawn_of(playable_area, record, immortal_hyper_mode).x,
            spawn_of(playable_area, record, immortal_hyper_mode).y,
        ),
{
    crate::playablearea::lemma_point_inside(playable_area, record.1, record.2);
}

/// A level is only left when it is cleared or lost: while enemies remain
/// and the player lives, the scene stays, unless the game was completed
/// already.
pub proof fn lemma_scene_stays(
    mode: GameplayMode,
    large_level: bool,
    level_is_loaded: bool,
    total_enemies: usize,
    player_lives: usize,
)
    requires
        total_enemies > 0,
        player_lives > 0,
        mode != GameplayMode::CompletedMode,
    ensures
        handover(mode, large_level, level_is_loaded, total_enemies, player_lives)
            == GameplayTrans::Stay,
{
}

/// A cleared level is followed by exactly one kind of transition: the
/// cutscene after the last small level, a camera shake after any other
/// small level, and a plain fade after a large one.
pub proof fn lemma_one_transition(mode: GameplayMode, large_level: bool, player_lives: usize)
    ensures
        ({
            let trans = handover(mode, large_level, true, 0, player_lives);
            &&& trans is Transition
            &&& trans->cutscene.is_some() <==> mode == GameplayMode::TransitionMode
            &&& trans->perspective_shift.is_some() <==> mode != GameplayMode::TransitionMode
                && !large_level
            &&& !(trans->cutscene.is_some() && trans->perspective_shift.is_some())
        }),
{
}

} // verus!
