use quatronaut::audio::SoundType;
use quatronaut::collider::Collider;
use quatronaut::cutscene::{Cutscene, CutsceneStatus};
use quatronaut::direction::{Direction, ManualDirection};
use quatronaut::enemy::{summon_ghost, Enemy, EnemyGhost};
use quatronaut::fade::{Fade, FadeStatus, Fader};
use quatronaut::gameconfig::{EnemyCount, LevelComplete, PlayerStats};
use quatronaut::glass::Glass;
use quatronaut::laser::Laser;
use quatronaut::launcher::Launcher;
use quatronaut::movement::{Movement, MovementType};
use quatronaut::perspective::{Perspective, PerspectiveStatus};
use quatronaut::playablearea::PlayableArea;
use quatronaut::player::Player;
use quatronaut::systems::attacked::{AttackedSystem, PlayerBody, ProjectileHitSystem};
use quatronaut::systems::camera::{CameraShakeSystem, CameraZoom, CameraZoomSystem};
use quatronaut::systems::cleanup::CleanupSystem;
use quatronaut::systems::collision::{CollisionSystem, Defeat, LaserShot, Target};
use quatronaut::tags::CleanupTag;
use quatronaut::systems::enemy::{EnemyMove, EnemyMoveSystem, EnemyTrackingSystem};
use quatronaut::systems::fade::FadeSystem;
use quatronaut::systems::ghost::{GhostBody, GhostSystem};
use quatronaut::systems::laser::{Flight, GlassSystem, LaserSystem};
use quatronaut::systems::movement::{
    Facing, Mover, MovementTrackingSystem, TransformUpdate, TransformUpdateSystem,
};
use quatronaut::systems::player::{MouseAim, PlayerInput, PlayerShot, PlayerSystem};
use quatronaut::systems::projectiles::ProjectilesSystem;
use quatronaut::systems::Body;
use quatronaut::vector::Vector3;

const ONE: i64 = 1_000_000;

fn body(x: i64, y: i64, half: i64) -> Body {
    Body { x: x * ONE, y: y * ONE, collider: Collider { half_width: half * ONE, half_height: half * ONE } }
}

fn target(x: i64, y: i64, health: i64) -> Target {
    Target { body: body(x, y, 32), enemy: Enemy { health: health * ONE } }
}

fn defeat(x: i64, y: i64) -> Option<Defeat> {
    Some(Defeat {
        spirit: EnemyGhost { fade_time: 200_000, min_scale: 50_000 },
        cleanup_tag: CleanupTag,
        x: x * ONE,
        y: y * ONE,
        sound: SoundType::EnemyDeath,
    })
}

fn area() -> PlayableArea {
    PlayableArea { min_x: 0, max_x: 1000 * ONE, min_y: 0, max_y: 500 * ONE }
}

#[test]
fn a_laser_damages_its_target_once() {
    let lasers = vec![LaserShot { x: 110 * ONE, y: 100 * ONE }];
    let mut enemies = vec![target(100, 100, 50)];
    let outcome = CollisionSystem::run(&lasers, &mut enemies);
    assert_eq!(enemies[0].enemy.health, 30 * ONE);
    assert_eq!(enemies[0].body, body(100, 100, 32));
    assert_eq!(outcome.lasers_spent, vec![true]);
    assert_eq!(outcome.enemies_killed, vec![None]);
}

#[test]
fn a_laser_that_misses_does_nothing() {
    let lasers = vec![LaserShot { x: 200 * ONE, y: 100 * ONE }];
    let mut enemies = vec![target(100, 100, 50)];
    let outcome = CollisionSystem::run(&lasers, &mut enemies);
    assert_eq!(enemies[0].enemy.health, 50 * ONE);
    assert_eq!(outcome.lasers_spent, vec![false]);
    assert_eq!(outcome.enemies_killed, vec![None]);
    // a laser is long and thin: 17.5 by 2.5 on each side of its centre
    let lasers = vec![
        LaserShot { x: 149_500_000, y: 100 * ONE },
        LaserShot { x: 149_500_001, y: 100 * ONE },
        LaserShot { x: 100 * ONE, y: 134_500_000 },
        LaserShot { x: 100 * ONE, y: 134_500_001 },
    ];
    let outcome = CollisionSystem::run(&lasers, &mut enemies);
    assert_eq!(outcome.lasers_spent, vec![true, false, true, false]);
    assert_eq!(enemies[0].enemy.health, 10 * ONE);
}

#[test]
fn a_dead_enemy_is_not_hit_again() {
    let lasers = vec![
        LaserShot { x: 100 * ONE, y: 100 * ONE },
        LaserShot { x: 101 * ONE, y: 100 * ONE },
        LaserShot { x: 102 * ONE, y: 100 * ONE },
    ];
    let mut enemies = vec![target(100, 100, 40), target(100, 100, 0), target(100, 100, 70)];
    let outcome = CollisionSystem::run(&lasers, &mut enemies);
    assert_eq!(enemies[0].enemy.health, 0);
    assert_eq!(enemies[1].enemy.health, 0);
    assert_eq!(enemies[2].enemy.health, 10 * ONE);
    assert_eq!(outcome.enemies_killed, vec![defeat(100, 100), None, None]);
    // the third laser still hits the enemy that lives
    assert_eq!(outcome.lasers_spent, vec![true, true, true]);
    let mut dead = vec![target(100, 100, 0), target(100, 100, -5)];
    let outcome = CollisionSystem::run(&lasers, &mut dead);
    assert_eq!(outcome.lasers_spent, vec![false, false, false]);
    assert_eq!(outcome.enemies_killed, vec![None, None]);
    assert_eq!(dead[1].enemy.health, -5 * ONE);
}

#[test]
fn one_laser_damages_every_enemy_that_it_touches() {
    let lasers = vec![LaserShot { x: 100 * ONE, y: 100 * ONE }];
    let mut enemies = vec![target(90, 100, 20), target(110, 100, 30), target(500, 100, 20)];
    let outcome = CollisionSystem::run(&lasers, &mut enemies);
    assert_eq!(enemies[0].enemy.health, 0);
    assert_eq!(enemies[1].enemy.health, 10 * ONE);
    assert_eq!(enemies[2].enemy.health, 20 * ONE);
    assert_eq!(outcome.lasers_spent, vec![true]);
    assert_eq!(outcome.enemies_killed, vec![defeat(90, 100), None, None]);
    let outcome = CollisionSystem::run(&Vec::new(), &mut enemies);
    assert!(outcome.lasers_spent.is_empty());
    assert_eq!(outcome.enemies_killed, vec![None, None, None]);
}

#[test]
fn enemies_end_the_player() {
    let players = vec![
        PlayerBody { body: body(100, 100, 28), invulnerable: false },
        PlayerBody { body: body(100, 100, 28), invulnerable: true },
        PlayerBody { body: body(900, 900, 28), invulnerable: false },
    ];
    let enemies = vec![body(120, 90, 32), body(500, 500, 32), body(160, 160, 32)];
    let outcome = AttackedSystem::run(&players, &enemies);
    assert_eq!(outcome.hits, vec![2, 0, 0]);
    assert_eq!(outcome.sound, SoundType::PlayerDeath);
    assert_eq!(AttackedSystem::run(&players, &Vec::new()).hits, vec![0, 0, 0]);
    assert!(AttackedSystem::run(&Vec::new(), &enemies).hits.is_empty());
}

#[test]
fn projectiles_end_the_player_and_are_spent() {
    let area = area();
    let players = vec![
        PlayerBody { body: body(100, 100, 28), invulnerable: false },
        PlayerBody { body: body(300, 100, 28), invulnerable: true },
        PlayerBody { body: body(600, 100, 28), invulnerable: false },
    ];
    let projectiles = vec![
        body(110, 110, 16),
        body(310, 90, 16),
        body(450, 300, 16),
        body(-1, 300, 16),
        body(450, 501, 16),
    ];
    let outcome = ProjectileHitSystem::run(&players, &projectiles, &area);
    assert_eq!(outcome.players_hit, vec![true, false, false]);
    assert_eq!(outcome.projectiles_spent, vec![true, true, false, true, true]);
    // without a player nothing is looked at
    let outcome = ProjectileHitSystem::run(&Vec::new(), &projectiles, &area);
    assert!(outcome.players_hit.is_empty());
    assert_eq!(outcome.projectiles_spent, vec![false; 5]);
}

fn movement(movement_type: MovementType) -> Movement {
    Movement {
        speed: 100 * ONE,
        velocity_x: 0,
        velocity_y: 0,
        freeze_direction: false,
        locked_direction: None,
        already_rotated: false,
        launch_sound: Some(SoundType::TriangleLock),
        movement_type,
    }
}

#[test]
fn tracking_sets_velocities_and_leaves_positions() {
    let mut movers = vec![
        Mover { movement: movement(MovementType::Gravitate), x: 0, y: 0 },
        Mover { movement: movement(MovementType::HorizontalRush), x: 0, y: 0 },
        Mover { movement: movement(MovementType::ProjectileRush), x: 10 * ONE, y: 0 },
    ];
    let players = vec![Vector3 { x: 300 * ONE, y: 400 * ONE, z: 0 }];
    MovementTrackingSystem::run(&mut movers, &players);
    assert_eq!((movers[0].movement.velocity_x, movers[0].movement.velocity_y), (60 * ONE, 80 * ONE));
    assert_eq!((movers[0].x, movers[0].y), (0, 0));
    assert_eq!(movers[1].movement, movement(MovementType::HorizontalRush));
    assert!(movers[2].movement.freeze_direction);
    assert_eq!(movers[2].movement.locked_direction, Some(players[0]));
    assert_eq!((movers[2].x, movers[2].y), (10 * ONE, 0));
    let before = movers.clone();
    MovementTrackingSystem::run(&mut movers, &Vec::new());
    assert_eq!(movers, before);
    // with two players the last one is aimed at, and a lock stays on the first
    let two = vec![Vector3 { x: 0, y: -50 * ONE, z: 0 }, Vector3 { x: -50 * ONE, y: 0, z: 0 }];
    let mut movers = vec![
        Mover { movement: movement(MovementType::Gravitate), x: 0, y: 0 },
        Mover { movement: movement(MovementType::ProjectileRush), x: 0, y: 0 },
    ];
    EnemyTrackingSystem::run(&mut movers, &two);
    assert_eq!((movers[0].movement.velocity_x, movers[0].movement.velocity_y), (-100 * ONE, 0));
    assert_eq!((movers[1].movement.velocity_x, movers[1].movement.velocity_y), (0, -100 * ONE));
    assert_eq!(movers[1].movement.locked_direction, Some(two[0]));
}

#[test]
fn the_transform_step_moves_turns_once_and_deletes() {
    let area = area();
    let mut locked = movement(MovementType::ProjectileRush);
    locked.velocity_x = 60 * ONE;
    locked.velocity_y = 80 * ONE;
    locked.freeze_direction = true;
    locked.locked_direction = Some(Vector3 { x: 300 * ONE, y: 400 * ONE, z: 0 });
    let mut free = movement(MovementType::Gravitate);
    free.velocity_x = -200 * ONE;
    let mut movers = vec![
        Mover { movement: locked, x: 0, y: 0 },
        Mover { movement: free, x: 50 * ONE, y: 10 * ONE },
    ];
    let updates = TransformUpdateSystem::run(&mut movers, 500_000, &area);
    assert_eq!((movers[0].x, movers[0].y), (30 * ONE, 40 * ONE));
    assert!(movers[0].movement.already_rotated);
    assert_eq!(
        updates[0],
        TransformUpdate {
            facing: Some(Facing { dx: 270 * ONE, dy: 360 * ONE }),
            sound: Some(SoundType::TriangleLock),
            delete: false,
        }
    );
    assert_eq!((movers[1].x, movers[1].y), (-50 * ONE, 10 * ONE));
    assert!(!movers[1].movement.already_rotated);
    assert_eq!(updates[1], TransformUpdate { facing: None, sound: None, delete: true });
    // the second tick turns nothing
    let updates = TransformUpdateSystem::run(&mut movers, 500_000, &area);
    assert_eq!((movers[0].x, movers[0].y), (60 * ONE, 80 * ONE));
    assert_eq!(updates[0], TransformUpdate { facing: None, sound: None, delete: false });
    let mut single = Mover { movement: locked, x: 990 * ONE, y: 0 };
    let update = single.step(ONE, &area);
    assert!(update.delete);
    assert_eq!(update.facing, Some(Facing { dx: -750 * ONE, dy: 320 * ONE }));
}

#[test]
fn stray_enemies_are_counted_out() {
    let mut fast = movement(MovementType::Gravitate);
    fast.velocity_x = 3000 * ONE;
    let mut locked = movement(MovementType::HorizontalRush);
    locked.locked_direction = Some(Vector3 { x: 0, y: 0, z: 0 });
    locked.velocity_y = -10 * ONE;
    let mut enemies = vec![
        Mover { movement: fast, x: 0, y: 0 },
        Mover { movement: locked, x: 0, y: -495 * ONE },
        Mover { movement: locked, x: 2500 * ONE, y: 2500 * ONE },
    ];
    let mut count = EnemyCount { count: 6 };
    let moves = EnemyMoveSystem::run(&mut enemies, ONE, &mut count);
    assert_eq!(
        moves,
        vec![
            EnemyMove { turn_around: false, delete: true },
            EnemyMove { turn_around: true, delete: true },
            EnemyMove { turn_around: true, delete: false },
        ]
    );
    assert_eq!(count.count, 4);
    assert_eq!((enemies[0].x, enemies[1].y), (3000 * ONE, -505 * ONE));
    let moves = EnemyMoveSystem::run(&mut enemies, 0, &mut count);
    assert_eq!(moves[2], EnemyMove { turn_around: false, delete: false });
    assert_eq!(count.count, 2);
    let mut stats = EnemyCount::default();
    stats.decrement_by(-3);
    assert_eq!(stats.count, 3);
}

#[test]
fn faders_are_driven_and_the_status_is_kept() {
    let mut faders = vec![Fader::new(2 * ONE, Fade::Darken), Fader::new(2 * ONE, Fade::Lighten)];
    let mut status = FadeStatus::default();
    assert_eq!(FadeSystem::run(&mut faders, &mut status, 250_000), vec![500_000, 500_000]);
    assert!(!status.is_completed());
    assert_eq!(FadeSystem::run(&mut faders, &mut status, 250_000), vec![ONE, 0]);
    assert_eq!(faders[0].fade_direction, Fade::Lighten);
    assert_eq!(faders[1].fade_direction, Fade::Done);
    assert!(status.is_completed());
    let mut none: Vec<Fader> = Vec::new();
    let mut fresh = FadeStatus::default();
    assert!(FadeSystem::run(&mut none, &mut fresh, 250_000).is_empty());
    assert!(!fresh.is_completed());
}

#[test]
fn ghosts_shrink_and_go() {
    let mut ghosts = vec![
        GhostBody { spirit: summon_ghost(), scale: 250_000 },
        GhostBody { spirit: EnemyGhost { fade_time: 0, min_scale: 50_000 }, scale: 90_000 },
    ];
    assert_eq!(GhostSystem::run(&mut ghosts, 50_000), vec![false, true]);
    assert_eq!(ghosts[0].scale, 183_334);
    assert_eq!(ghosts[0].spirit.fade_time, 150_000);
    assert_eq!(ghosts[1].scale, 90_000);
    assert_eq!(GhostSystem::run(&mut ghosts, 150_000), vec![false, true]);
    assert_eq!(ghosts[0].scale, 50_000);
    assert_eq!(GhostSystem::run(&mut ghosts, 150_000), vec![true, true]);
}

#[test]
fn lasers_and_shards_fly_straight() {
    let area = area();
    let mut lasers = vec![
        Flight::of_laser(Laser::new(Direction::Right, 800 * ONE), 990 * ONE, 100 * ONE),
        Flight::of_laser(Laser::new(Direction::LeftDown, 800 * ONE), 100 * ONE, 100 * ONE),
    ];
    assert_eq!(LaserSystem::run(&mut lasers, 50_000, &area), vec![false, false]);
    assert_eq!((lasers[0].x, lasers[0].y), (1030 * ONE, 100 * ONE));
    assert_eq!((lasers[1].x, lasers[1].y), (60 * ONE, 60 * ONE));
    // the first laser left the field on the last tick and is deleted on this one
    assert_eq!(LaserSystem::run(&mut lasers, 50_000, &area), vec![true, false]);
    let manual = ManualDirection { velocity_x: 600_000, velocity_y: 800_000, radians: 0 };
    let mut shards = vec![
        Flight::of_glass(Glass::new(Direction::Up, 1000 * ONE), 5 * ONE, 499 * ONE),
        Flight::of_glass(Glass::new(Direction::Mouse(manual), 1000 * ONE), 0, 0),
    ];
    assert_eq!(GlassSystem::run(&mut shards, 10_000, &area), vec![false, false]);
    assert_eq!((shards[0].x, shards[0].y), (5 * ONE, 509 * ONE));
    assert_eq!((shards[1].x, shards[1].y), (6 * ONE, 8 * ONE));
    assert_eq!(GlassSystem::run(&mut shards, 10_000, &area), vec![true, false]);
}

#[test]
fn the_camera_shakes_and_sounds_once() {
    let mut perspective = Perspective::new(500_000, SoundType::ShortTransition);
    let shake = CameraShakeSystem::run(&mut perspective, 300_000);
    assert!(shake.rotation.is_some());
    assert_eq!(shake.sound, Some(SoundType::ShortTransition));
    assert!(perspective.sound_already_played());
    let shake = CameraShakeSystem::run(&mut perspective, 300_000);
    assert!(shake.rotation.is_some());
    assert_eq!(shake.sound, None);
    assert_eq!(perspective.status, PerspectiveStatus::Completed);
    let shake = CameraShakeSystem::run(&mut perspective, 300_000);
    assert_eq!(shake.rotation, None);
    assert_eq!(shake.sound, None);
}

#[test]
fn the_camera_zooms_and_sounds_once() {
    let mut cutscene = Cutscene::new(500_000, 400_000, 5 * ONE, 2 * ONE);
    assert_eq!(
        CameraZoomSystem::run(&mut cutscene, ONE, 100_000),
        CameraZoom { scale: Some(880_000), sound: Some(SoundType::GlassTransition) }
    );
    assert_eq!(
        CameraZoomSystem::run(&mut cutscene, 400_000, 100_000),
        CameraZoom { scale: None, sound: None }
    );
    assert_eq!(cutscene.status, CutsceneStatus::Spawning);
    assert!(cutscene.sound_already_played());
}

fn player() -> Player {
    Player {
        speed: 400 * ONE,
        laser_speed: 800 * ONE,
        fire_delay: 250_000,
        seconds_since_firing: 250_000,
        direction: Direction::Left,
        invulnerable: false,
    }
}

fn input(x_axis: Option<i64>, y_axis: Option<i64>, x_laser: Option<i64>, y_laser: Option<i64>) -> PlayerInput {
    PlayerInput { x_axis, y_axis, x_laser, y_laser }
}

#[test]
fn the_player_walks_inside_the_field() {
    let area = area();
    let player = player();
    let walk = |i: PlayerInput, x: i64, y: i64| PlayerSystem::walk(&player, &i, x, y, 50_000, &area);
    assert_eq!(walk(input(Some(ONE), Some(-ONE), None, None), 100 * ONE, 100 * ONE), (120 * ONE, 80 * ONE));
    assert_eq!(walk(input(Some(-500_000), None, None, None), 100 * ONE, 100 * ONE), (90 * ONE, 100 * ONE));
    assert_eq!(walk(input(Some(ONE), Some(ONE), None, None), 990 * ONE, 495 * ONE), (1000 * ONE, 500 * ONE));
    assert_eq!(walk(input(Some(0), Some(0), None, None), -5 * ONE, 700 * ONE), (0, 500 * ONE));
    // an axis that is not bound leaves the coordinate alone, even outside
    assert_eq!(walk(input(None, None, None, None), -5 * ONE, 700 * ONE), (-5 * ONE, 700 * ONE));
    assert_eq!(PlayerSystem::flip(1080 * ONE, 80 * ONE), 1000 * ONE);
}

#[test]
fn the_player_aims_and_fires() {
    let mut p = player();
    let keys = input(None, None, Some(ONE), Some(ONE));
    let shot = PlayerSystem::run(&mut p, &keys, false, None, 0, 0, 0, 16_000);
    assert_eq!(
        shot,
        PlayerShot {
            rotation: -785_398,
            laser: Some(Laser { direction: Direction::RightUp, speed: 800 * ONE }),
            sound: Some(SoundType::PlayerBlaster),
        }
    );
    assert_eq!(p.direction, Direction::RightUp);
    assert_eq!(p.seconds_since_firing, 0);
    // the timer holds the next shot back
    let shot = PlayerSystem::run(&mut p, &keys, false, None, 0, 0, 0, 16_000);
    assert_eq!(shot, PlayerShot { rotation: -785_398, laser: None, sound: None });
    assert_eq!(p.seconds_since_firing, 16_000);
    // without input the player keeps facing, and the timer rests
    let idle = input(Some(ONE), None, None, Some(0));
    let shot = PlayerSystem::run(&mut p, &idle, false, None, 0, 0, 0, 16_000);
    assert_eq!(shot, PlayerShot { rotation: -785_398, laser: None, sound: None });
    assert_eq!(p.seconds_since_firing, 16_000);
}

#[test]
fn the_player_aims_with_the_mouse() {
    let mut p = player();
    let keys = input(None, None, Some(-ONE), None);
    let aim = MouseAim { x: 30 * ONE, y: 140 * ONE, angle: 927_295 };
    let shot = PlayerSystem::run(&mut p, &keys, true, Some(aim), 0, 100 * ONE, 0, 16_000);
    let manual = ManualDirection { velocity_x: 600_000, velocity_y: 800_000, radians: -643_501 };
    assert_eq!(p.direction, Direction::Mouse(manual));
    assert_eq!(shot.rotation, -643_501);
    assert_eq!(shot.laser, Some(Laser { direction: Direction::Mouse(manual), speed: 800 * ONE }));
    // the button is held but the mouse is outside: the keys still fire
    let mut p = player();
    let shot = PlayerSystem::run(&mut p, &keys, true, None, 0, 100 * ONE, 0, 16_000);
    assert_eq!(p.direction, Direction::Left);
    assert_eq!(shot.rotation, 1_570_796);
    assert_eq!(shot.laser, Some(Laser { direction: Direction::Left, speed: 800 * ONE }));
}

#[test]
fn ready_launchers_launch() {
    let mut launchers = vec![
        Launcher { fire_delay: 2 * ONE, projectile_speed: 300 * ONE, seconds_since_firing: 2 * ONE },
        Launcher { fire_delay: 2 * ONE, projectile_speed: 100 * ONE, seconds_since_firing: ONE },
    ];
    let projectiles = ProjectilesSystem::run(&mut launchers, 16_000);
    assert_eq!(projectiles[0].unwrap().movement.speed, 300 * ONE);
    assert_eq!(projectiles[1], None);
    assert!(100_000 <= launchers[0].seconds_since_firing && launchers[0].seconds_since_firing < 900_000);
    assert_eq!(launchers[1].seconds_since_firing, 1_016_000);
}

#[test]
fn a_won_level_is_cleaned_up() {
    let mut level = LevelComplete::default();
    assert!(level.ready_for_next_level());
    level.start_over();
    assert_eq!(level, LevelComplete { success: false, cleanup_complete: false });
    assert!(!level.ready_for_next_level());
    assert!(!CleanupSystem::run(&mut level, 1));
    assert!(!level.cleanup_complete);
    level.success = true;
    assert!(CleanupSystem::run(&mut level, 1));
    assert!(!level.ready_for_next_level());
    assert!(CleanupSystem::run(&mut level, 0));
    assert!(level.ready_for_next_level());
}

#[test]
fn the_score_adds_up() {
    let mut stats = PlayerStats::default();
    assert_eq!(stats.get_score(), 0);
    stats.add_to_score(150);
    stats.add_to_score(-30);
    assert_eq!(stats.get_score(), 120);
}
