//! The gameplay core of a small 2D arcade shooter: colliders, movement
//! strategies, fire-rate gating, level sequencing and the timed transition
//! effects, all over saturating fixed-point arithmetic.
pub mod audio;
pub mod collider;
pub mod cutscene;
pub mod direction;
pub mod enemy;
pub mod fade;
pub mod fixed;
pub mod gameconfig;
pub mod glass;
pub mod laser;
pub mod launcher;
pub mod level;
pub mod movement;
pub mod perspective;
pub mod playablearea;
pub mod player;
mod random;
pub mod states;
pub mod systems;
pub mod tags;
pub mod vector;
