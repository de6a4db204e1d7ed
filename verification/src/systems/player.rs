//! The player's tick: walk where the input points, face where it aims, and
//! fire as fast as the timer allows.
use vstd::prelude::*;
use crate::audio::SoundType;
use crate::direction::{Direction, ManualDirection};
use crate::fixed::{difference, product, sat_add, sat_mul, sat_sub, sum};
use crate::laser::Laser;
use crate::playablearea::{clamped, PlayableArea};
use crate::player::Player;

verus! {

/// The axes of one tick of input. An axis that is not bound is `None`; a
/// bound one is negative, zero or positive.
#[derive(Clone, Copy, Debug, PartialEq, Eq, Structural)]
pub struct PlayerInput {
    pub x_axis: Option<i64>,
    pub y_axis: Option<i64>,
    pub x_laser: Option<i64>,
    pub y_laser: Option<i64>,
}

/// The mouse while its button is held: where it points in the world, if it
/// is over the window, with the angle from the player to that point.
#[derive(Clone, Copy, Debug, PartialEq, Eq, Structural)]
pub struct MouseAim {
    pub x: i64,
    pub y: i64,
    pub angle: i64,
}

/// What a tick of aiming leaves to do: turn the player's sprite, and
/// perhaps spawn a laser with its sound.
#[derive(Clone, Copy, Debug, PartialEq, Eq, Structural)]
pub struct PlayerShot {
    pub rotation: i64,
    pub laser: Option<Laser>,
    pub sound: Option<SoundType>,
}

/// Where the mouse points, turned upside down: the window counts its rows
/// from the top, the world from the bottom.
pub open spec fn flipped(screen_height: i64, y: i64) -> i64 {
    difference(screen_height, y)
}

/// One coordinate after a tick of walking: `dt * amount * speed` further,
/// where the axis is bound.
pub open spec fn walked(position: i64, amount: Option<i64>, speed: i64, dt: i64) -> i64 {
    match amount {
        Some(a) => sum(product(product(dt, a), speed), position),
        None => position,
    }
}

/// The direction that the input aims in: that of the mouse while its button
/// is held, else that of the laser axes.
pub open spec fn aimed_direction(
    input: PlayerInput,
    mouse_down: bool,
    mouse: Option<MouseAim>,
    x: i64,
    y: i64,
) -> Option<Direction> {
    if mouse_down {
        match mouse {
            Some(aim) => {
                let v = ManualDirection::velocities(x, y, aim.x, aim.y);
                Some(
                    Direction::Mouse(
                        ManualDirection {
                            velocity_x: v.0,
                            velocity_y: v.1,
                            radians: ManualDirection::facing(aim.angle),
                        },
                    ),
                )
            },
            None => None,
        }
    } else {
        Direction::of_axes(input.x_laser, input.y_laser)
    }
}

/// The laser that the input asks for, whether or not the timer allows it.
pub open spec fn wanted_laser(
    player: Player,
    input: PlayerInput,
    mouse_down: bool,
    mouse: Option<MouseAim>,
    x: i64,
    y: i64,
) -> Option<Laser> {
    match aimed_direction(input, mouse_down, mouse, x, y) {
        Some(direction) => Some(Laser { direction, speed: player.laser_speed }),
        None => match Direction::of_axes(input.x_laser, input.y_laser) {
            Some(direction) => Some(Laser { direction, speed: player.laser_speed }),
            None => None,
        },
    }
}

/// The player after a tick of aiming: it faces where the input aims, and
/// its timer is asked only when a laser is wanted.
pub open spec fn aimed_player(
    player: Player,
    input: PlayerInput,
    mouse_down: bool,
    mouse: Option<MouseAim>,
    x: i64,
    y: i64,
    dt: i64,
) -> Player {
    let turned = match aimed_direction(input, mouse_down, mouse, x, y) {
        Some(direction) => Player { direction, ..player },
        None => player,
    };
    if wanted_laser(player, input, mouse_down, mouse, x, y).is_some() {
        turned.after_trigger(dt)
    } else {
        turned
    }
}

/// The player system.
#[derive(Clone, Copy, Debug, Default, PartialEq, Eq, Structural)]
pub struct PlayerSystem;

impl PlayerSystem {
    /// Walks the player at `(x, y)` for `dt` seconds along the bound axes,
    /// and keeps it inside the field.
    pub fn walk(
        player: &Player,
        input: &PlayerInput,
        x: i64,
        y: i64,
        dt: i64,
        playable_area: &PlayableArea,
    ) -> (position: (i64, i64))
        ensures
            position.0 == match input.x_axis {
                Some(_) => clamped(
                    walked(x, input.x_axis, player.speed, dt),
                    playable_area.min_x,
                    playable_area.max_x,
                ),
                None => x,
            },
            position.1 == match input.y_axis {
                Some(_) => clamped(
                    walked(y, input.y_axis, player.speed, dt),
                    playable_area.min_y,
                    playable_area.max_y,
                ),
                None => y,
            },
    {
        let mut new_x = x;
        let mut new_y = y;
        if let Some(x_amt) = input.x_axis {
            let moved = sat_add(sat_mul(sat_mul(dt, x_amt), player.get_speed()), x);
            new_x = playable_area.clamp_x(moved);
        }
        if let Some(y_amt) = input.y_axis {
            let moved = sat_add(sat_mul(sat_mul(dt, y_amt), player.get_speed()), y);
            new_y = playable_area.clamp_y(moved);
        }
        (new_x, new_y)
    }

    /// Turns where the mouse points into world coordinates.
    pub fn flip(screen_height: i64, y: i64) -> (flipped_y: i64)
        ensures
            flipped_y == flipped(screen_height, y),
    {
        sat_sub(screen_height, y)
    }

    /// Aims and fires for the player at `(x, y, z)`: the player faces the
    /// mouse while its button is held and it points somewhere, else where
    /// the laser axes point, else where it faced before. A laser is wanted
    /// in the direction aimed in, or failing that along the laser axes, and
    /// is fired with its sound when the player's timer allows.
    pub fn run(
        player: &mut Player,
        input: &PlayerInput,
        mouse_down: bool,
        mouse: Option<MouseAim>,
        x: i64,
        y: i64,
        z: i64,
        dt: i64,
    ) -> (shot: PlayerShot)
        ensures
            *final(player) == aimed_player(*old(player), *input, mouse_down, mouse, x, y, dt),
            shot.rotation == final(player).direction.radians(),
            shot.laser == if old(player).ready() {
                wanted_laser(*old(player), *input, mouse_down, mouse, x, y)
            } else {
                None
            },
            shot.sound == if shot.laser.is_some() {
                Some(SoundType::PlayerBlaster)
            } else {
                None
            },
    {
        let maybe_direction = if mouse_down {
            match mouse {
                Some(aim) => {
                    let manual = ManualDirection::new(x, y, z, aim.x, aim.y, aim.angle);
                    Some(Direction::Mouse(manual))
                },
                None => None,
            }
        } else {
            Direction::from_coordinates(input.x_laser, input.y_laser)
        };
        if let Some(dir) = maybe_direction {
            player.direction = dir;
        }
        let rotation = player.direction.direction_to_radians();
        let maybe_laser = match maybe_direction {
            Some(d) => Some(Laser::from_dir(d, player.laser_speed)),
            None => Laser::from_coordinates(input.x_laser, input.y_laser, player.laser_speed),
        };
        let mut laser: Option<Laser> = None;
        let mut sound: Option<SoundType> = None;
        if maybe_laser.is_some() {
            if player.can_fire(dt) {
                laser = maybe_laser;
                sound = Some(SoundType::PlayerBlaster);
            }
        }
        PlayerShot { rotation, laser, sound }
    }
}

/// A player that walks stays inside a well-formed field.
pub proof fn lemma_walk_stays_inside(
    playable_area: PlayableArea,
    x: i64,
    y: i64,
    speed: i64,
    dt: i64,
    x_amt: i64,
    y_amt: i64,
)
    requires
        playable_area.wf(),
    ensures
        !playable_area.outside(
            clamped(walked(x, Some(x_amt), speed, dt), playable_area.min_x, playable_area.max_x),
            clamped(walked(y, Some(y_amt), speed, dt), playable_area.min_y, playable_area.max_y),
        ),
{
}

/// Without input nothing is fired, the timer rests, and the player keeps
/// facing where it faced.
pub proof fn lemma_idle(player: Player, x: i64, y: i64, dt: i64)
    ensures
        ({
            let input = PlayerInput { x_axis: None, y_axis: None, x_laser: None, y_laser: None };
            &&& wanted_laser(player, input, false, None, x, y).is_none()
            &&& aimed_player(player, input, false, None, x, y, dt) == player
        }),
{
}

} // verus!
