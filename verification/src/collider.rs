//! Axis-aligned collision boxes. A collider stores no position: its box is
//! built from the entity's coordinates each time it is asked for, and no
//! rotation is ever applied to it.
use vstd::prelude::*;
use crate::fixed::{difference, sat_add, sat_sub, sum};

verus! {

/// An axis-aligned bounding box, by its two opposite corners.
#[derive(Clone, Copy, Debug, PartialEq, Eq, Structural)]
pub struct Aabb {
    pub min_x: i64,
    pub max_x: i64,
    pub min_y: i64,
    pub max_y: i64,
}

impl Aabb {
    /// A box is well formed when its corners are in order.
    pub open spec fn wf(self) -> bool {
        self.min_x <= self.max_x && self.min_y <= self.max_y
    }

    /// Two boxes overlap when they overlap on both axes; touching edges
    /// count.
    pub open spec fn overlaps(self, other: Aabb) -> bool {
        &&& self.min_x <= other.max_x
        &&& self.max_x >= other.min_x
        &&& self.min_y <= other.max_y
        &&& self.max_y >= other.min_y
    }

    /// Whether this box and `other` overlap.
    pub fn intersects(&self, other: &Aabb) -> (hit: bool)
        ensures
            hit == self.overlaps(*other),
    {
        self.min_x <= other.max_x && self.max_x >= other.min_x && self.min_y <= other.max_y
            && self.max_y >= other.min_y
    }
}

/// The half extents of an entity's collision box.
#[derive(Clone, Copy, Debug, PartialEq, Eq, Structural)]
pub struct Collider {
    pub half_width: i64,
    pub half_height: i64,
}

impl Collider {
    /// A collider is well formed when neither half extent is negative.
    pub open spec fn wf(self) -> bool {
        self.half_width >= 0 && self.half_height >= 0
    }

    /// The box of this collider around the centre `(x, y)`.
    pub open spec fn aabb_at(self, x: i64, y: i64) -> Aabb {
        Aabb {
            min_x: difference(x, self.half_width),
            max_x: sum(x, self.half_width),
            min_y: difference(y, self.half_height),
            max_y: sum(y, self.half_height),
        }
    }

    /// Builds the bounding box of an entity whose centre is at `(x, y)`.
    pub fn aabb_from_coordinates(self, x: i64, y: i64) -> (aabb: Aabb)
        ensures
            aabb == self.aabb_at(x, y),
            self.wf() ==> aabb.wf(),
    {
        Aabb {
            min_x: sat_sub(x, self.half_width),
            max_x: sat_add(x, self.half_width),
            min_y: sat_sub(y, self.half_height),
            max_y: sat_add(y, self.half_height),
        }
    }

    /// Whether the box of this collider around `(x, y)` overlaps `other`.
    pub fn intersects(self, x: i64, y: i64, other: &Aabb) -> (hit: bool)
        ensures
            hit == self.aabb_at(x, y).overlaps(*other),
    {
        let this_aabb = self.aabb_from_coordinates(x, y);
        this_aabb.intersects(other)
    }
}

/// A well-formed box overlaps itself, and the box of a well-formed collider
/// holds its centre.
pub proof fn lemma_box_holds_centre(c: Collider, x: i64, y: i64)
    requires
        c.wf(),
    ensures
        c.aabb_at(x, y).wf(),
        c.aabb_at(x, y).overlaps(c.aabb_at(x, y)),
        c.aabb_at(x, y).min_x <= x <= c.aabb_at(x, y).max_x,
        c.aabb_at(x, y).min_y <= y <= c.aabb_at(x, y).max_y,
{
}

/// Overlap does not depend on which box is asked.
pub proof fn lemma_overlap_symmetric(a: Aabb, b: Aabb)
    ensures
        a.overlaps(b) == b.overlaps(a),
{
}

/// Two colliders see each other alike: the first hits the second's box
/// exactly when the second hits the first's.
pub proof fn lemma_intersects_symmetric(
    a: Collider,
    ax: i64,
    ay: i64,
    b: Collider,
    bx: i64,
    by: i64,
)
    ensures
        a.aabb_at(ax, ay).overlaps(b.aabb_at(bx, by)) == b.aabb_at(bx, by).overlaps(
            a.aabb_at(ax, ay),
        ),
{
}

/// Away from the ends of the number range, two well-formed colliders
/// overlap exactly when their centres are no further apart, on each axis,
/// than the sum of their half extents. So moving both by the same offset
/// changes nothing.
pub proof fn lemma_overlap_by_distance(
    a: Collider,
    ax: i64,
    ay: i64,
    b: Collider,
    bx: i64,
    by: i64,
)
    requires
        a.wf(),
        b.wf(),
        i64::MIN <= ax - a.half_width,
        ax + a.half_width <= i64::MAX,
        i64::MIN <= ay - a.half_height,
        ay + a.half_height <= i64::MAX,
        i64::MIN <= bx - b.half_width,
        bx + b.half_width <= i64::MAX,
        i64::MIN <= by - b.half_height,
        by + b.half_height <= i64::MAX,
    ensures
        a.aabb_at(ax, ay).overlaps(b.aabb_at(bx, by)) <==> {
            &&& -(a.half_width + b.half_width) <= ax - bx <= a.half_width + b.half_width
            &&& -(a.half_height + b.half_height) <= ay - by <= a.half_height + b.half_height
        },
{
}

/// Whether the box of `c` around `(x, y)` keeps clear of the ends of the
/// number range.
pub open spec fn in_range(c: Collider, x: int, y: int) -> bool {
    &&& i64::MIN <= x - c.half_width
    &&& x + c.half_width <= i64::MAX
    &&& i64::MIN <= y - c.half_height
    &&& y + c.half_height <= i64::MAX
}

/// Moving two well-formed colliders by the same offset does not change
/// whether they overlap, as long as neither box reaches an end of the number
/// range before or after the move.
pub proof fn lemma_overlap_translation(
    a: Collider,
    ax: i64,
    ay: i64,
    b: Collider,
    bx: i64,
    by: i64,
    tx: i64,
    ty: i64,
)
    requires
        a.wf(),
        b.wf(),
        in_range(a, ax as int, ay as int),
        in_range(b, bx as int, by as int),
        in_range(a, ax + tx, ay + ty),
        in_range(b, bx + tx, by + ty),
    ensures
        a.aabb_at(ax, ay).overlaps(b.aabb_at(bx, by)) == a.aabb_at(
            (ax + tx) as i64,
            (ay + ty) as i64,
        ).overlaps(b.aabb_at((bx + tx) as i64, (by + ty) as i64)),
{
}

} // verus!
