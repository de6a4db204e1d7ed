//! The rectangle of the world in which a level is played. It is built once
//! per scene from the screen's dimensions, and the movement, projectile and
//! debris steps ask it whether something has left the field.
use vstd::prelude::*;
use crate::fixed::{difference, product, sat_add, sat_mul, sat_sub, sum, SCALE};

verus! {

/// The axis that a value is restricted along.
#[derive(Clone, Copy, Debug, PartialEq, Eq, Structural)]
pub enum ClampDimension {
    ClampX,
    ClampY,
}

/// A rectangle in world coordinates.
#[derive(Clone, Copy, Debug, PartialEq, Eq, Structural)]
pub struct PlayableArea {
    pub min_x: i64,
    pub max_x: i64,
    pub min_y: i64,
    pub max_y: i64,
}

/// The four fractions of the screen, `(left, right, bottom, top)`, that bound
/// the field. A constrained field is the small window of the intact
/// background; a high-density display shows that background at another size.
pub open spec fn margins(constrain: bool, hidpi: bool) -> (i64, i64, i64, i64) {
    if constrain {
        if hidpi {
            (330_000i64, 670_000i64, 220_000i64, 780_000i64)
        } else {
            (250_000i64, 750_000i64, 50_000i64, 950_000i64)
        }
    } else {
        if hidpi {
            (170_000i64, 830_000i64, 200_000i64, 800_000i64)
        } else {
            (20_000i64, 980_000i64, 45_000i64, 955_000i64)
        }
    }
}

/// Restricts `n` to `[min, max]`; below `min` wins where the two cross.
pub open spec fn clamped(n: i64, min: i64, max: i64) -> i64 {
    if n < min {
        min
    } else if n > max {
        max
    } else {
        n
    }
}

impl PlayableArea {
    /// A field is well formed when its corners are in order.
    pub open spec fn wf(self) -> bool {
        self.min_x <= self.max_x && self.min_y <= self.max_y
    }

    /// The field of a screen of the given size.
    pub open spec fn of_screen(width: i64, height: i64, constrain: bool, hidpi: bool) -> PlayableArea {
        let m = margins(constrain, hidpi);
        PlayableArea {
            min_x: product(width, m.0),
            max_x: product(width, m.1),
            min_y: product(height, m.2),
            max_y: product(height, m.3),
        }
    }

    /// The point that lies the given fractions of the way across the field.
    pub open spec fn point_at(self, x_percentage: i64, y_percentage: i64) -> (i64, i64) {
        (
            sum(product(x_percentage, difference(self.max_x, self.min_x)), self.min_x),
            sum(product(y_percentage, difference(self.max_y, self.min_y)), self.min_y),
        )
    }

    /// Whether `(x, y)` lies outside the field; its border is inside.
    pub open spec fn outside(self, x: i64, y: i64) -> bool {
        x < self.min_x || x > self.max_x || y < self.min_y || y > self.max_y
    }

    /// Computes the field from the screen's dimensions.
    pub fn new(width: i64, height: i64, constrain: bool, hidpi: bool) -> (area: PlayableArea)
        ensures
            area == PlayableArea::of_screen(width, height, constrain, hidpi),
            width >= 0 && height >= 0 ==> area.wf(),
    {
        let (x1, x2, y1, y2): (i64, i64, i64, i64) = if constrain {
            if hidpi {
                (330_000, 670_000, 220_000, 780_000)
            } else {
                (250_000, 750_000, 50_000, 950_000)
            }
        } else {
            if hidpi {
                (170_000, 830_000, 200_000, 800_000)
            } else {
                (20_000, 980_000, 45_000, 955_000)
            }
        };
        proof {
            lemma_product_monotonic(width, x1, x2);
            lemma_product_monotonic(height, y1, y2);
        }
        PlayableArea {
            min_x: sat_mul(width, x1),
            max_x: sat_mul(width, x2),
            min_y: sat_mul(height, y1),
            max_y: sat_mul(height, y2),
        }
    }

    /// Maps a pair of fractions, each meant to lie between zero and one, to
    /// world coordinates inside the field.
    pub fn relative_coordinates(&self, x_percentage: &i64, y_percentage: &i64) -> (pos: (i64, i64))
        ensures
            pos == self.point_at(*x_percentage, *y_percentage),
    {
        let x_diff = sat_sub(self.max_x, self.min_x);
        let y_diff = sat_sub(self.max_y, self.min_y);
        let x_pos = sat_add(sat_mul(*x_percentage, x_diff), self.min_x);
        let y_pos = sat_add(sat_mul(*y_percentage, y_diff), self.min_y);
        (x_pos, y_pos)
    }

    /// Whether `(x, y)` has left the field.
    pub fn out_of_bounds(&self, x: i64, y: i64) -> (out: bool)
        ensures
            out == self.outside(x, y),
    {
        x < self.min_x || x > self.max_x || y < self.min_y || y > self.max_y
    }

    /// Keeps a horizontal coordinate inside the field.
    pub fn clamp_x(&self, n: i64) -> (r: i64)
        ensures
            r == clamped(n, self.min_x, self.max_x),
    {
        self.clamp(n, ClampDimension::ClampX)
    }

    /// Keeps a vertical coordinate inside the field.
    pub fn clamp_y(&self, n: i64) -> (r: i64)
        ensures
            r == clamped(n, self.min_y, self.max_y),
    {
        self.clamp(n, ClampDimension::ClampY)
    }

    /// Returns `n` where it lies between the field's two bounds on the given
    /// axis, and the bound that it crossed where it does not.
    pub fn clamp(&self, n: i64, clamp_dimension: ClampDimension) -> (r: i64)
        ensures
            r == match clamp_dimension {
                ClampDimension::ClampX => clamped(n, self.min_x, self.max_x),
                ClampDimension::ClampY => clamped(n, self.min_y, self.max_y),
            },
    {
        let (min, max) = match clamp_dimension {
            ClampDimension::ClampX => (self.min_x, self.max_x),
            ClampDimension::ClampY => (self.min_y, self.max_y),
        };
        if n < min {
            min
        } else if n > max {
            max
        } else {
            n
        }
    }
}

impl Default for PlayableArea {
    /// The empty field at the origin.
    fn default() -> (area: PlayableArea)
        ensures
            area == (PlayableArea { min_x: 0, max_x: 0, min_y: 0, max_y: 0 }),
    {
        PlayableArea { min_x: 0, max_x: 0, min_y: 0, max_y: 0 }
    }
}

/// A greater fraction of a length that is not negative is not smaller.
pub proof fn lemma_product_monotonic(len: i64, lo: i64, hi: i64)
    requires
        0 <= lo <= hi,
    ensures
        len >= 0 ==> product(len, lo) <= product(len, hi),
{
    if len >= 0 {
        assert(0 <= len * lo <= len * hi) by (nonlinear_arith)
            requires
                0 <= lo <= hi,
                len >= 0,
        ;
    }
}

/// The fractions zero and one map to the field's two corners, wherever the
/// field's width and height fit the number range.
pub proof fn lemma_corners(area: PlayableArea)
    requires
        i64::MIN <= area.max_x - area.min_x <= i64::MAX,
        i64::MIN <= area.max_y - area.min_y <= i64::MAX,
    ensures
        area.point_at(0, 0) == (area.min_x, area.min_y),
        area.point_at(SCALE, SCALE) == (area.max_x, area.max_y),
{
    let w = difference(area.max_x, area.min_x);
    let h = difference(area.max_y, area.min_y);
    assert(0 * w == 0 && 0 * h == 0);
    assert(SCALE * w == w * 1_000_000 && SCALE * h == h * 1_000_000);
}

/// The fraction zero maps to the field's near corner, whatever the field.
pub proof fn lemma_near_corner(area: PlayableArea)
    ensures
        area.point_at(0, 0) == (area.min_x, area.min_y),
{
    let w = difference(area.max_x, area.min_x);
    let h = difference(area.max_y, area.min_y);
    assert(0 * w == 0 && 0 * h == 0);
}

/// A fraction between zero and one lands inside the field.
pub proof fn lemma_point_inside(area: PlayableArea, x_percentage: i64, y_percentage: i64)
    requires
        area.wf(),
        area.max_x - area.min_x <= i64::MAX,
        area.max_y - area.min_y <= i64::MAX,
        0 <= x_percentage <= SCALE,
        0 <= y_percentage <= SCALE,
    ensures
        !area.outside(area.point_at(x_percentage, y_percentage).0, area.point_at(x_percentage, y_percentage).1),
{
    let w = difference(area.max_x, area.min_x);
    let h = difference(area.max_y, area.min_y);
    assert(0 <= x_percentage * w <= 1_000_000 * w) by (nonlinear_arith)
        requires
            0 <= x_percentage <= 1_000_000,
            0 <= w,
    ;
    assert(0 <= y_percentage * h <= 1_000_000 * h) by (nonlinear_arith)
        requires
            0 <= y_percentage <= 1_000_000,
            0 <= h,
    ;
}

/// What `clamp_x` and `clamp_y` return is never outside a well-formed field.
pub proof fn lemma_clamped_inside(area: PlayableArea, x: i64, y: i64)
    requires
        area.wf(),
    ensures
        !area.outside(clamped(x, area.min_x, area.max_x), clamped(y, area.min_y, area.max_y)),
{
}

} // verus!
