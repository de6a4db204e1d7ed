use quatronaut::audio::{SoundChoice, SoundType, Sounds};
use quatronaut::direction::{Direction, ManualDirection};
use quatronaut::glass::Glass;
use quatronaut::laser::Laser;

#[test]
fn axes_name_directions() {
    assert_eq!(Direction::horizontal(-1_000_000), Some(Direction::Left));
    assert_eq!(Direction::horizontal(1), Some(Direction::Right));
    assert_eq!(Direction::horizontal(0), None);
    assert_eq!(Direction::vertical(-1), Some(Direction::Down));
    assert_eq!(Direction::vertical(1_000_000), Some(Direction::Up));
    assert_eq!(Direction::vertical(0), None);
}

#[test]
fn a_horizontal_and_a_vertical_direction_combine() {
    assert_eq!(Direction::Right.combine(&Some(Direction::Up)), Direction::RightUp);
    assert_eq!(Direction::Right.combine(&Some(Direction::Down)), Direction::RightDown);
    assert_eq!(Direction::Left.combine(&Some(Direction::Up)), Direction::LeftUp);
    assert_eq!(Direction::Left.combine(&Some(Direction::Down)), Direction::LeftDown);
    assert_eq!(Direction::Left.combine(&None), Direction::Left);
    assert_eq!(Direction::Right.combine(&Some(Direction::Left)), Direction::Right);
    assert_eq!(Direction::Up.combine(&Some(Direction::Down)), Direction::Up);
}

#[test]
fn directions_from_a_pair_of_axes() {
    let one = 1_000_000;
    assert_eq!(Direction::from_coordinates(Some(one), Some(one)), Some(Direction::RightUp));
    assert_eq!(Direction::from_coordinates(Some(-one), Some(-one)), Some(Direction::LeftDown));
    assert_eq!(Direction::from_coordinates(Some(-one), Some(one)), Some(Direction::LeftUp));
    assert_eq!(Direction::from_coordinates(Some(one), Some(-one)), Some(Direction::RightDown));
    assert_eq!(Direction::from_coordinates(Some(one), None), Some(Direction::Right));
    assert_eq!(Direction::from_coordinates(Some(0), Some(-one)), Some(Direction::Down));
    assert_eq!(Direction::from_coordinates(None, Some(one)), Some(Direction::Up));
    assert_eq!(Direction::from_coordinates(Some(0), Some(0)), None);
    assert_eq!(Direction::from_coordinates(None, None), None);
}

#[test]
fn directions_in_radians() {
    assert_eq!(Direction::Up.direction_to_radians(), 0);
    assert_eq!(Direction::RightUp.direction_to_radians(), -785_398);
    assert_eq!(Direction::LeftUp.direction_to_radians(), 785_398);
    assert_eq!(Direction::Left.direction_to_radians(), 1_570_796);
    assert_eq!(Direction::Down.direction_to_radians(), 3_141_593);
    assert_eq!(Direction::LeftDown.direction_to_radians(), 2_356_194);
    assert_eq!(Direction::Right.direction_to_radians(), -1_570_796);
    assert_eq!(Direction::RightDown.direction_to_radians(), -2_356_194);
    let manual = ManualDirection { velocity_x: 0, velocity_y: 1_000_000, radians: 123 };
    assert_eq!(Direction::Mouse(manual).direction_to_radians(), 123);
    assert_eq!(Direction::default(), Direction::Up);
}

#[test]
fn rolls_name_the_compass_directions() {
    let expected = [
        Direction::Left,
        Direction::Up,
        Direction::LeftUp,
        Direction::LeftDown,
        Direction::Right,
        Direction::Down,
        Direction::RightUp,
        Direction::RightDown,
    ];
    for (i, direction) in expected.iter().enumerate() {
        assert_eq!(Direction::from_roll(i as i64 + 1), *direction);
    }
}

#[test]
fn random_directions_are_compass_directions_and_differ() {
    let mut seen = Vec::new();
    for _ in 0..400 {
        let direction = Direction::sample();
        assert!(!matches!(direction, Direction::Mouse(_)));
        if !seen.contains(&direction) {
            seen.push(direction);
        }
    }
    assert!(seen.len() > 1);
    assert!(seen.len() <= 8);
}

#[test]
fn an_aimed_direction_points_at_the_mouse() {
    // the mouse is straight above the player: a quarter turn from the x axis
    let manual = ManualDirection::new(100_000_000, 100_000_000, 0, 100_000_000, 350_000_000, 1_570_796);
    assert_eq!(manual, ManualDirection { velocity_x: 0, velocity_y: 1_000_000, radians: 0 });
    let manual = ManualDirection::new(0, 0, 0, 30_000_000, -40_000_000, -927_295);
    assert_eq!(
        manual,
        ManualDirection { velocity_x: 600_000, velocity_y: -800_000, radians: -2_498_091 }
    );
    assert_eq!(ManualDirection::get_velocities(5, 5, 2, 5), (-1_000_000, 0));
    assert_eq!(ManualDirection::manual_radians(0), -1_570_796);
}

#[test]
fn moving_in_a_direction() {
    let d = 8_000_000;
    assert_eq!(Direction::Left.advance(10, 20, d), (10 - d, 20));
    assert_eq!(Direction::Right.advance(10, 20, d), (10 + d, 20));
    assert_eq!(Direction::Up.advance(10, 20, d), (10, 20 + d));
    assert_eq!(Direction::Down.advance(10, 20, d), (10, 20 - d));
    assert_eq!(Direction::RightUp.advance(10, 20, d), (10 + d, 20 + d));
    assert_eq!(Direction::LeftUp.advance(10, 20, d), (10 - d, 20 + d));
    assert_eq!(Direction::LeftDown.advance(10, 20, d), (10 - d, 20 - d));
    assert_eq!(Direction::RightDown.advance(10, 20, d), (10 + d, 20 - d));
    let manual = ManualDirection { velocity_x: 600_000, velocity_y: -800_000, radians: 0 };
    assert_eq!(Direction::Mouse(manual).advance(10, 20, d), (4_800_010, -6_399_980));
}

#[test]
fn lasers_from_input() {
    let one = 1_000_000;
    assert_eq!(
        Laser::from_coordinates(Some(one), Some(one), 800),
        Some(Laser { direction: Direction::RightUp, speed: 800 })
    );
    assert_eq!(
        Laser::from_coordinates(None, Some(-one), 800),
        Some(Laser { direction: Direction::Down, speed: 800 })
    );
    assert_eq!(Laser::from_coordinates(Some(0), None, 800), None);
    assert_eq!(Laser::new(Direction::Left, 5), Laser { direction: Direction::Left, speed: 5 });
    assert_eq!(Laser::from_dir(Direction::Up, 7), Laser { direction: Direction::Up, speed: 7 });
    assert_eq!(Glass::new(Direction::Down, 9), Glass { direction: Direction::Down, speed: 9 });
}

fn sounds() -> Sounds {
    Sounds {
        volume: 800_000,
        player_blaster: 3,
        enemy_blaster: 2,
        enemy_death: 4,
        player_death: 1,
        triangle_lock: 0,
    }
}

#[test]
fn a_sound_is_one_of_its_variations() {
    let sounds = sounds();
    let mut seen = Vec::new();
    for _ in 0..300 {
        let choice = sounds.play_sound(SoundType::EnemyDeath).unwrap();
        assert_eq!(choice.sound_type, SoundType::EnemyDeath);
        assert_eq!(choice.volume, 480_000);
        assert!(choice.variation < 4);
        if !seen.contains(&choice.variation) {
            seen.push(choice.variation);
        }
    }
    assert!(seen.len() > 1);
    assert_eq!(
        sounds.play_sound(SoundType::PlayerDeath),
        Some(SoundChoice { sound_type: SoundType::PlayerDeath, variation: 0, volume: 640_000 })
    );
    assert_eq!(
        sounds.play_sound(SoundType::GlassTransition),
        Some(SoundChoice { sound_type: SoundType::GlassTransition, variation: 0, volume: 800_000 })
    );
    assert_eq!(sounds.play_sound(SoundType::Silent), None);
    assert_eq!(sounds.play_sound(SoundType::TriangleLock), None);
}

#[test]
fn sounds_play_at_their_share_of_the_volume() {
    let sounds = sounds();
    let shares = [
        (SoundType::PlayerBlaster, 400_000),
        (SoundType::EnemyBlaster, 400_000),
        (SoundType::PlayerDeath, 640_000),
        (SoundType::EnemyDeath, 480_000),
        (SoundType::ShortTransition, 800_000),
        (SoundType::LongTransition, 800_000),
        (SoundType::GlassTransition, 800_000),
    ];
    for (sound_type, volume) in shares {
        assert_eq!(
            sounds.select_sound(sound_type, 0),
            Some(SoundChoice { sound_type, variation: 0, volume })
        );
    }
    assert_eq!(sounds.variation_count(SoundType::PlayerBlaster), 3);
    assert_eq!(sounds.variation_count(SoundType::LongTransition), 1);
    assert_eq!(sounds.variation_count(SoundType::Silent), 0);
}
