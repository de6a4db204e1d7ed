use quatronaut::audio::SoundType;
use quatronaut::movement::{Movement, MovementType};
use quatronaut::vector::Vector3;

fn movement(speed: i64, movement_type: MovementType) -> Movement {
    Movement {
        speed,
        velocity_x: 0,
        velocity_y: 0,
        freeze_direction: false,
        locked_direction: None,
        already_rotated: false,
        launch_sound: Some(SoundType::TriangleLock),
        movement_type,
    }
}

#[test]
fn gravitate_aims_at_the_target() {
    let mut m = movement(100_000_000, MovementType::Gravitate);
    m.next_move(3_000_000, 4_000_000, 0, 0, 0);
    assert_eq!((m.velocity_x, m.velocity_y), (60_000_000, 80_000_000));
    // it re-aims on every tick
    m.next_move(-4_000_000, 3_000_000, 0, 0, 0);
    assert_eq!((m.velocity_x, m.velocity_y), (-80_000_000, 60_000_000));
    m.next_move(10_000_000, 10_000_000, 0, 10_000_000, 20_000_000);
    assert_eq!((m.velocity_x, m.velocity_y), (0, -100_000_000));
    assert!(!m.freeze_direction);
    assert_eq!(m.locked_direction, None);
}

#[test]
fn gravitate_moves_at_its_speed() {
    let targets = [
        (1_000_000, 0),
        (1, 1),
        (-250_000_000, 1_000),
        (777_000_000, -333_000_000),
        (-5, -900_000_000_000),
        (i64::MAX, i64::MIN),
    ];
    for speed in [1_000_000i64, 150_000_000, 400_000_000, 2_000_000_000] {
        for (x, y) in targets {
            let mut m = movement(speed, MovementType::Gravitate);
            m.move_towards(x, y, 0, 0);
            let length = ((m.velocity_x as f64).powi(2) + (m.velocity_y as f64).powi(2)).sqrt();
            assert!((length - speed as f64).abs() <= 2.0 + speed as f64 * 0.000_002);
        }
    }
}

#[test]
fn gravitate_on_the_target_heads_right() {
    let mut m = movement(100_000_000, MovementType::Gravitate);
    m.move_towards(5_000_000, 5_000_000, 5_000_000, 5_000_000);
    assert_eq!((m.velocity_x, m.velocity_y), (100_000_000, 0));
}

#[test]
fn a_rusher_waits_for_the_target_to_come_near() {
    let mut m = movement(100_000_000, MovementType::HorizontalRush);
    // further than 150 away on both axes
    m.next_move(500_000_000, 500_000_000, 0, 0, 0);
    assert_eq!(m, movement(100_000_000, MovementType::HorizontalRush));
    m.next_move(150_000_001, -150_000_001, 0, 0, 0);
    assert_eq!(m, movement(100_000_000, MovementType::HorizontalRush));
    // within 150 on the x axis
    m.next_move(90_000_000, 450_000_000, 7_000_000, 0, 330_000_000);
    assert!(m.freeze_direction);
    assert_eq!(
        m.locked_direction,
        Some(Vector3 { x: 90_000_000, y: 450_000_000, z: 7_000_000 })
    );
    assert_eq!((m.velocity_x, m.velocity_y), (60_000_000, 80_000_000));
}

#[test]
fn a_rusher_near_on_the_x_axis_sets_off() {
    let mut m = movement(50_000_000, MovementType::HorizontalRush);
    m.rush_towards(-150_000_000, 900_000_000, 0, 0, 0);
    assert!(m.freeze_direction);
    assert_eq!(m.locked_direction, Some(Vector3 { x: -150_000_000, y: 900_000_000, z: 0 }));
}

#[test]
fn a_lock_is_never_changed() {
    for kind in [MovementType::HorizontalRush, MovementType::ProjectileRush] {
        let mut m = movement(100_000_000, kind);
        m.next_move(100_000_000, 100_000_000, 0, 0, 0);
        assert!(m.freeze_direction);
        let locked = m;
        assert_eq!(
            m.locked_direction,
            Some(Vector3 { x: 100_000_000, y: 100_000_000, z: 0 })
        );
        m.next_move(999_000_000, 999_000_000, 0, 0, 0);
        assert_eq!(
            m.locked_direction,
            Some(Vector3 { x: 100_000_000, y: 100_000_000, z: 0 })
        );
        m.next_move(-5_000_000, 3_000_000, 1_000_000, 40_000_000, 40_000_000);
        assert_eq!(m, locked);
    }
}

#[test]
fn a_projectile_locks_on_its_first_tick() {
    let mut m = movement(300_000_000, MovementType::ProjectileRush);
    m.projectile_rush(0, -900_000_000, 2_000_000, 0, 0);
    assert!(m.freeze_direction);
    assert_eq!(m.locked_direction, Some(Vector3 { x: 0, y: -900_000_000, z: 2_000_000 }));
    assert_eq!((m.velocity_x, m.velocity_y), (0, -300_000_000));
    assert!(!m.already_rotated);
    assert_eq!(m.get_speed(), 300_000_000);
}

#[test]
fn the_default_movement_gravitates() {
    assert_eq!(MovementType::default(), MovementType::Gravitate);
}
