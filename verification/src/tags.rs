//! Empty markers by which entities are found again.
use vstd::prelude::*;

verus! {

/// Marks the background.
#[derive(Clone, Copy, Debug, Default, PartialEq, Eq, Structural)]
pub struct BackgroundTag;

/// Marks what is removed when a scene ends.
#[derive(Clone, Copy, Debug, Default, PartialEq, Eq, Structural)]
pub struct CleanupTag;

/// Marks the main camera.
#[derive(Clone, Copy, Debug, Default, PartialEq, Eq, Structural)]
pub struct CameraTag;

} // verus!
