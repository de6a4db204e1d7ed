use quatronaut::audio::SoundType;
use quatronaut::cutscene::{Cutscene, CutsceneStatus};
use quatronaut::direction::Direction;
use quatronaut::fade::{Fade, FadeStatus, Fader};
use quatronaut::gameconfig::{GameConfig, GameplayMode, SoundConfig};
use quatronaut::level::{EntityType, LevelConfig, LevelMetadata, LevelStatus, Levels};
use quatronaut::perspective::{Perspective, PerspectiveStatus};
use quatronaut::playablearea::PlayableArea;
use quatronaut::states::gameplay::{
    change_background, init_level, GameplayEvent, GameplayReaction, GameplayState, GameplayTrans,
    PlayerLook, PrefabKind, Spawn,
};
use quatronaut::states::transition::{
    init_glass, make_shard, GlassRolls, TransitionEvent, TransitionReaction, TransitionState,
    TransitionStep,
};
use quatronaut::tags::CleanupTag;

const ONE: i64 = 1_000_000;

fn sound_config() -> SoundConfig {
    SoundConfig {
        max_volume: 500_000,
        player_blaster: vec!["a.ogg".to_string(), "b.ogg".to_string()],
        player_death: vec!["c.ogg".to_string()],
        enemy_blaster: vec!["d.ogg".to_string()],
        enemy_death: vec!["e.ogg".to_string(), "f.ogg".to_string(), "g.ogg".to_string()],
        triangle_lock: Vec::new(),
        short_transition: "h.ogg".to_string(),
        long_transition: "i.ogg".to_string(),
        glass_transition: "j.ogg".to_string(),
    }
}

fn level(kind: EntityType) -> LevelMetadata {
    LevelMetadata::new(vec![(kind, 500_000, 250_000), (EntityType::Player, 0, ONE)])
}

fn config(small: Vec<LevelMetadata>, large: Vec<LevelMetadata>) -> GameConfig {
    GameConfig {
        level_config: LevelConfig { small_levels: Vec::new(), large_levels: Vec::new() },
        sound_config: sound_config(),
        current_levels: Levels::new(small, large),
        gameplay_mode: GameplayMode::LevelMode,
        immortal_hyper_mode: false,
    }
}

#[test]
fn the_sounds_of_a_configuration() {
    let sounds = sound_config().sounds();
    assert_eq!(sounds.volume, 500_000);
    assert_eq!(sounds.player_blaster, 2);
    assert_eq!(sounds.player_death, 1);
    assert_eq!(sounds.enemy_blaster, 1);
    assert_eq!(sounds.enemy_death, 1);
    assert_eq!(sounds.triangle_lock, 0);
}

#[test]
fn a_level_is_laid_out_in_the_field() {
    let area = PlayableArea { min_x: 100 * ONE, max_x: 300 * ONE, min_y: 0, max_y: 400 * ONE };
    let metadata = LevelMetadata::new(vec![
        (EntityType::Boss, 500_000, 500_000),
        (EntityType::SquareEnemy, 0, 0),
        (EntityType::FlyingEnemy, ONE, ONE),
        (EntityType::Player, 250_000, 750_000),
    ]);
    let spawn = |prefab, sprite_number, x: i64, y: i64| Spawn {
        prefab,
        sprite_number,
        x: x * ONE,
        y: y * ONE,
        scale: 250_000,
        cleanup_tag: CleanupTag,
    };
    assert_eq!(
        init_level(&area, &metadata, false),
        vec![
            spawn(PrefabKind::Boss, 0, 200, 200),
            spawn(PrefabKind::Enemy, 1, 100, 0),
            spawn(PrefabKind::FlyingEnemy, 2, 300, 400),
            spawn(PrefabKind::Player, 0, 150, 300),
        ]
    );
    assert_eq!(init_level(&area, &metadata, true)[3], spawn(PrefabKind::PlayerHyper, 1, 150, 300));
    assert!(init_level(&area, &LevelMetadata::new(Vec::new()), true).is_empty());
}

#[test]
fn the_background_of_a_level() {
    assert_eq!(change_background(&LevelStatus::LargeLevel(level(EntityType::Boss))), 1);
    assert_eq!(change_background(&LevelStatus::SmallLevel(level(EntityType::Boss))), 0);
    assert_eq!(change_background(&LevelStatus::TransitionTime(level(EntityType::Boss))), 0);
    assert_eq!(change_background(&LevelStatus::AllDone), 0);
}

#[test]
fn a_game_from_the_first_level_to_the_last() {
    let small = vec![level(EntityType::SquareEnemy), level(EntityType::FlyingEnemy)];
    let large = vec![level(EntityType::Boss)];
    let (width, height) = (1920 * ONE, 1080 * ONE);

    // the first small level
    let mut state = GameplayState::new(config(small, large));
    let plan = state.on_start(width, height, false);
    assert_eq!(plan.playable_area, PlayableArea::new(width, height, true, false));
    assert_eq!(plan.background_sprite, 0);
    assert_eq!(plan.spawns.len(), 2);
    assert_eq!(plan.spawns[0].prefab, PrefabKind::FlyingEnemy);
    assert_eq!((plan.spawns[0].x, plan.spawns[0].y), (960 * ONE, 297 * ONE));
    assert_eq!(state.game_config.gameplay_mode, GameplayMode::LevelMode);
    assert!(!state.large_level);
    // nothing is decided before the enemies have appeared
    assert_eq!(state.update(0, 0), GameplayTrans::Stay);
    assert_eq!(state.update(1, 1), GameplayTrans::Stay);
    assert!(state.level_is_loaded);
    let trans = state.update(0, 1);
    assert_eq!(
        trans,
        GameplayTrans::Transition {
            perspective_shift: Some(Perspective::new(500_000, SoundType::ShortTransition)),
            cutscene: None,
        }
    );

    // the last small level: the cutscene follows it
    let transition = TransitionState::new(state.game_config, None, None);
    let mut state = transition.into_gameplay();
    let plan = state.on_start(width, height, false);
    assert_eq!(plan.spawns[0].prefab, PrefabKind::Enemy);
    assert_eq!(state.game_config.gameplay_mode, GameplayMode::TransitionMode);
    assert_eq!(state.update(3, 1), GameplayTrans::Stay);
    assert_eq!(
        state.update(0, 1),
        GameplayTrans::Transition {
            perspective_shift: None,
            cutscene: Some(Cutscene::new(500_000, 400_000, 5 * ONE, 2 * ONE)),
        }
    );

    // the large level, on the wide field
    let mut state = TransitionState::new(state.game_config, None, None).into_gameplay();
    assert_eq!(state.game_config.gameplay_mode, GameplayMode::LevelMode);
    let plan = state.on_start(width, height, false);
    assert_eq!(plan.playable_area, PlayableArea::new(width, height, false, false));
    assert_eq!(plan.background_sprite, 1);
    assert_eq!(plan.spawns[0].prefab, PrefabKind::Boss);
    assert!(state.large_level);
    assert_eq!(state.update(1, 1), GameplayTrans::Stay);
    assert_eq!(
        state.update(0, 1),
        GameplayTrans::Transition { perspective_shift: None, cutscene: None }
    );

    // no level is left: the game is won
    let mut state = TransitionState::new(state.game_config, None, None).into_gameplay();
    let plan = state.on_start(width, height, true);
    assert_eq!(plan.playable_area, PlayableArea::new(width, height, true, true));
    assert!(plan.spawns.is_empty());
    assert_eq!(state.game_config.gameplay_mode, GameplayMode::CompletedMode);
    assert_eq!(state.update(0, 0), GameplayTrans::AllDone { achieved_victory: true });
}

#[test]
fn a_player_without_lives_has_lost() {
    let mut state = GameplayState::new(config(vec![level(EntityType::Boss)], Vec::new()));
    state.on_start(1920 * ONE, 1080 * ONE, false);
    assert_eq!(state.update(2, 0), GameplayTrans::AllDone { achieved_victory: false });
    assert_eq!(state.update(2, 1), GameplayTrans::Stay);
}

#[test]
fn out_of_level_mode_nothing_is_placed() {
    let mut game_config = config(vec![level(EntityType::Boss), level(EntityType::Boss)], Vec::new());
    game_config.gameplay_mode = GameplayMode::TransitionMode;
    let mut state = GameplayState::new(game_config);
    let plan = state.on_start(1920 * ONE, 1080 * ONE, false);
    assert!(plan.spawns.is_empty());
    assert_eq!(state.game_config.gameplay_mode, GameplayMode::TransitionMode);
    assert_eq!(state.game_config.current_levels.small_levels.len(), 1);
}

#[test]
fn events_of_the_level_scene() {
    let mut state = GameplayState::new(config(vec![level(EntityType::Boss)], Vec::new()));
    assert_eq!(state.handle_event(GameplayEvent::CloseRequested), GameplayReaction::OpenMenu);
    assert_eq!(state.handle_event(GameplayEvent::EscapePressed), GameplayReaction::OpenMenu);
    assert_eq!(state.handle_event(GameplayEvent::PausePressed), GameplayReaction::Pause);
    assert_eq!(state.handle_event(GameplayEvent::Other), GameplayReaction::Stay);
    assert!(!state.game_config.immortal_hyper_mode);
    assert_eq!(state.player_look(), PlayerLook { invulnerable: false, sprite_number: 0 });
    assert_eq!(state.handle_event(GameplayEvent::HyperPressed), GameplayReaction::Stay);
    assert!(state.game_config.immortal_hyper_mode);
    assert_eq!(state.player_look(), PlayerLook { invulnerable: true, sprite_number: 1 });
    assert_eq!(state.handle_event(GameplayEvent::HyperPressed), GameplayReaction::Stay);
    assert!(!state.game_config.immortal_hyper_mode);
}

fn step(widen_background: bool, spawn_glass: bool, back_to_game: bool) -> TransitionStep {
    TransitionStep { widen_background, spawn_glass, back_to_game }
}

#[test]
fn a_plain_transition_ends_with_its_fade() {
    let mut state = TransitionState::new(config(Vec::new(), Vec::new()), None, None);
    let setup = state.on_start();
    assert_eq!(setup.fade_status, FadeStatus { completed: false });
    assert_eq!(setup.fader, Fader { fade_speed: 1_000, fade_direction: Fade::Darken, alpha: 0 });
    assert_eq!(
        setup.overlay_fader,
        Some(Fader { fade_speed: 6 * ONE, fade_direction: Fade::Darken, alpha: 0 })
    );
    assert_eq!(setup.overlay_perspective, None);
    let mut status = setup.fade_status;
    let (perspective, cutscene) = (Perspective::default(), Cutscene::default());
    assert_eq!(state.update(&perspective, &cutscene, &mut status), step(false, false, false));
    status.update(Fader::new(ONE, Fade::Done));
    assert_eq!(state.update(&perspective, &cutscene, &mut status), step(false, false, true));
    assert!(!status.is_completed());
}

#[test]
fn a_shake_ends_the_transition_when_it_is_completed() {
    let shift = Perspective::new(500_000, SoundType::ShortTransition);
    let mut state = TransitionState::new(config(Vec::new(), Vec::new()), Some(shift), None);
    let setup = state.on_start();
    assert_eq!(setup.overlay_fader, None);
    assert_eq!(setup.overlay_perspective, Some(shift));
    let mut status = FadeStatus { completed: true };
    let mut running = shift;
    let cutscene = Cutscene::default();
    assert_eq!(state.update(&running, &cutscene, &mut status), step(false, false, false));
    assert!(status.is_completed());
    running.status = PerspectiveStatus::Completed;
    assert_eq!(state.update(&running, &cutscene, &mut status), step(false, false, true));
}

#[test]
fn a_cutscene_spawns_its_glass_once() {
    let scene = Cutscene::new(500_000, 400_000, 5 * ONE, 2 * ONE);
    let mut state = TransitionState::new(config(Vec::new(), Vec::new()), None, Some(scene));
    let mut status = FadeStatus { completed: true };
    let perspective = Perspective::default();
    let mut running = scene;
    assert_eq!(state.update(&perspective, &running, &mut status), step(false, false, false));
    running.status = CutsceneStatus::Spawning;
    assert_eq!(state.update(&perspective, &running, &mut status), step(false, true, false));
    assert!(state.glass_spawned);
    assert_eq!(state.update(&perspective, &running, &mut status), step(false, false, false));
    running.status = CutsceneStatus::Reversing;
    assert_eq!(state.update(&perspective, &running, &mut status), step(true, false, false));
    assert_eq!(state.update(&perspective, &running, &mut status), step(true, false, false));
    running.status = CutsceneStatus::Completed;
    assert_eq!(state.update(&perspective, &running, &mut status), step(false, false, true));
    assert!(status.is_completed());
}

#[test]
fn events_of_the_transition() {
    let state = TransitionState::new(config(Vec::new(), Vec::new()), None, None);
    assert_eq!(state.handle_event(TransitionEvent::CloseRequested), TransitionReaction::Quit);
    assert_eq!(state.handle_event(TransitionEvent::EscapePressed), TransitionReaction::Quit);
    assert_eq!(state.handle_event(TransitionEvent::PausePressed), TransitionReaction::Pause);
    assert_eq!(state.handle_event(TransitionEvent::Other), TransitionReaction::Stay);
}

#[test]
fn a_shard_from_its_rolls() {
    let area = PlayableArea { min_x: 100 * ONE, max_x: 300 * ONE, min_y: 0, max_y: 400 * ONE };
    let rolls = GlassRolls { direction: 4, sprite: 1, scale: 200_000, speed: 1500 * ONE };
    let shard = make_shard(&area, -40_000, 500_000, rolls);
    assert_eq!(shard.glass.direction, Direction::LeftDown);
    assert_eq!(shard.glass.speed, 1500 * ONE);
    assert_eq!(shard.sprite_number, 1);
    assert_eq!((shard.x, shard.y), (92 * ONE, 200 * ONE));
    assert_eq!(shard.rotation, 2_356_194);
    assert_eq!(shard.scale, 200_000);
    assert_eq!(shard.cleanup_tag, CleanupTag);
}

#[test]
fn glass_covers_the_field() {
    let area = PlayableArea { min_x: 100 * ONE, max_x: 300 * ONE, min_y: 0, max_y: 400 * ONE };
    let shards = init_glass(&area);
    assert_eq!(shards.len(), 27 * 27);
    let mut directions = Vec::new();
    let mut sprites = Vec::new();
    for a in 0..27 {
        for b in 0..27 {
            let shard = shards[a * 27 + b];
            assert_eq!(shard.x, (92 + 8 * a as i64) * ONE);
            assert_eq!(shard.y, (-16 + 16 * b as i64) * ONE);
            assert!(!matches!(shard.glass.direction, Direction::Mouse(_)));
            assert_eq!(shard.rotation, shard.glass.direction.direction_to_radians());
            assert!(shard.sprite_number < 2);
            assert!(180_000 <= shard.scale && shard.scale < 320_000);
            assert!(1000 * ONE <= shard.glass.speed && shard.glass.speed < 2000 * ONE);
            if !directions.contains(&shard.glass.direction) {
                directions.push(shard.glass.direction);
            }
            if !sprites.contains(&shard.sprite_number) {
                sprites.push(shard.sprite_number);
            }
        }
    }
    assert!(directions.len() > 1);
    assert_eq!(sprites.len(), 2);
    assert_eq!(shards[27 + 1].x, 100 * ONE);
    assert_eq!(shards[26 * 27 + 26].y, 400 * ONE);
}
