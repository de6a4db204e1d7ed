//! The scenes of the game as state machines: what a scene sets up when it
//! starts, and when it hands over to the next. The caller owns the window,
//! the entities and the sounds, and does what a scene decides.
pub mod gameplay;
pub mod transition;
