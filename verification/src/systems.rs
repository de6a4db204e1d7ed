//! The steps of one tick. Each system is handed the components that it
//! works on as plain values, and returns what is to be done about the
//! entities that own them: the caller looks the components up, and deletes,
//! spawns and plays sounds.
use vstd::prelude::*;
use crate::collider::{Aabb, Collider};

pub mod attacked;
pub mod camera;
pub mod cleanup;
pub mod collision;
pub mod enemy;
pub mod fade;
pub mod ghost;
pub mod laser;
pub mod movement;
pub mod player;
pub mod projectiles;

verus! {

/// An entity as a collision sees it: where it is, and its collider.
#[derive(Clone, Copy, Debug, PartialEq, Eq, Structural)]
pub struct Body {
    pub x: i64,
    pub y: i64,
    pub collider: Collider,
}

impl Body {
    /// The box of the body at its position.
    pub open spec fn aabb(self) -> Aabb {
        self.collider.aabb_at(self.x, self.y)
    }

    /// Whether the body touches the box `other`.
    pub open spec fn touches(self, other: Aabb) -> bool {
        self.aabb().overlaps(other)
    }

    /// Builds the box of the body at its position.
    pub fn bounding_box(&self) -> (aabb: Aabb)
        ensures
            aabb == self.aabb(),
    {
        self.collider.aabb_from_coordinates(self.x, self.y)
    }

    /// Whether the body touches the box `other`.
    pub fn intersects(&self, other: &Aabb) -> (hit: bool)
        ensures
            hit == self.touches(*other),
    {
        self.collider.intersects(self.x, self.y, other)
    }
}

} // verus!
