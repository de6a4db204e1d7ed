//! Integer square roots and unit vectors: what a movement strategy needs to
//! aim one point at another without trigonometry.
use vstd::prelude::*;
use crate::fixed::{narrow, saturate, trunc_div, SCALE};

verus! {

/// A point of the world: two coordinates and a depth.
#[derive(Clone, Copy, Debug, PartialEq, Eq, Structural)]
pub struct Vector3 {
    pub x: i64,
    pub y: i64,
    pub z: i64,
}

/// `r` is the integer square root of `n`: the greatest `r` with `r * r <= n`.
pub open spec fn is_sqrt(n: int, r: int) -> bool {
    0 <= r && r * r <= n && n < (r + 1) * (r + 1)
}

/// The integer square root of `n`, for `n >= 0`.
pub open spec fn int_sqrt(n: int) -> int {
    choose|r: int| is_sqrt(n, r)
}

/// A number has at most one integer square root.
pub proof fn lemma_sqrt_unique(n: int, r: int, s: int)
    requires
        is_sqrt(n, r),
        is_sqrt(n, s),
    ensures
        r == s,
{
    if r < s {
        assert((r + 1) * (r + 1) <= s * s) by (nonlinear_arith)
            requires
                0 <= r,
                r + 1 <= s,
        ;
    }
    if s < r {
        assert((s + 1) * (s + 1) <= r * r) by (nonlinear_arith)
            requires
                0 <= s,
                s + 1 <= r,
        ;
    }
}

/// The greatest `r` with `r * r <= n`.
pub fn isqrt(n: u128) -> (r: u128)
    ensures
        is_sqrt(n as int, r as int),
        r == int_sqrt(n as int),
        r < 0x1_0000_0000_0000_0000,
{
    let mut lo: u128 = 0;
    let mut hi: u128 = 0x1_0000_0000_0000_0000;
    assert(0x1_0000_0000_0000_0000int * 0x1_0000_0000_0000_0000int > u128::MAX as int)
        by (nonlinear_arith);
    while hi - lo > 1
        invariant
            lo < hi <= 0x1_0000_0000_0000_0000,
            lo * lo <= n,
            n < hi * hi,
        decreases hi - lo,
    {
        let mid: u128 = lo + (hi - lo) / 2;
        assert(mid * mid <= 0xffff_ffff_ffff_ffff * 0xffff_ffff_ffff_ffff) by (nonlinear_arith)
            requires
                0 <= mid <= 0xffff_ffff_ffff_ffff,
        ;
        if mid * mid <= n {
            lo = mid;
        } else {
            hi = mid;
        }
    }
    proof {
        assert(hi == lo + 1);
        assert(is_sqrt(n as int, lo as int));
        lemma_sqrt_unique(n as int, lo as int, int_sqrt(n as int));
    }
    lo
}

/// Below this magnitude both components are widened before the root is
/// taken, so that a short vector is normalised as exactly as a long one.
pub const SHORT: i64 = 0x8000_0000;

/// The factor by which a vector is widened before it is normalised.
pub const WIDEN: i64 = 0x1_0000_0000;

/// The factor by which `(dx, dy)` is widened: `WIDEN` where both components
/// are shorter than `SHORT`, else one.
pub open spec fn widening(dx: i64, dy: i64) -> int {
    if -SHORT < dx < SHORT && -SHORT < dy < SHORT {
        WIDEN as int
    } else {
        1
    }
}

/// Length of the widened vector, rounded down.
pub open spec fn widened_length(dx: i64, dy: i64) -> int {
    let k = widening(dx, dy);
    int_sqrt((dx * k) * (dx * k) + (dy * k) * (dy * k))
}

/// The unit vector that points along `(dx, dy)`, each component rounded
/// toward zero. The zero vector points along the positive x axis.
pub open spec fn heading(dx: i64, dy: i64) -> (i64, i64) {
    if dx == 0 && dy == 0 {
        (SCALE, 0i64)
    } else {
        let k = widening(dx, dy);
        let n = widened_length(dx, dy);
        (saturate(trunc_div(dx * k * SCALE, n)), saturate(trunc_div(dy * k * SCALE, n)))
    }
}

/// Squares of two 64-bit components add up to less than 128 bits.
proof fn lemma_square_sum_fits(x: int, y: int)
    requires
        -0x8000_0000_0000_0000 <= x <= 0x8000_0000_0000_0000,
        -0x8000_0000_0000_0000 <= y <= 0x8000_0000_0000_0000,
    ensures
        0 <= x * x <= 0x4000_0000_0000_0000_0000_0000_0000_0000,
        0 <= y * y <= 0x4000_0000_0000_0000_0000_0000_0000_0000,
        (x != 0 || y != 0) ==> x * x + y * y >= 1,
{
    assert(0 <= x * x <= 0x4000_0000_0000_0000_0000_0000_0000_0000) by (nonlinear_arith)
        requires
            -0x8000_0000_0000_0000 <= x <= 0x8000_0000_0000_0000,
    ;
    assert(0 <= y * y <= 0x4000_0000_0000_0000_0000_0000_0000_0000) by (nonlinear_arith)
        requires
            -0x8000_0000_0000_0000 <= y <= 0x8000_0000_0000_0000,
    ;
    assert(x != 0 ==> x * x >= 1) by (nonlinear_arith);
    assert(y != 0 ==> y * y >= 1) by (nonlinear_arith);
}

/// Computes [`heading`].
pub fn unit_vector(dx: i64, dy: i64) -> (u: (i64, i64))
    ensures
        u == heading(dx, dy),
{
    if dx == 0 && dy == 0 {
        return (SCALE, 0);
    }
    let short = -SHORT < dx && dx < SHORT && -SHORT < dy && dy < SHORT;
    let x: i128 = if short { (dx as i128) * 0x1_0000_0000 } else { dx as i128 };
    let y: i128 = if short { (dy as i128) * 0x1_0000_0000 } else { dy as i128 };
    proof {
        let k = widening(dx, dy);
        assert(k == if short { 0x1_0000_0000int } else { 1int });
        assert(x == dx * k && y == dy * k) by (nonlinear_arith)
            requires
                k == 0x1_0000_0000int || k == 1,
                x == if k == 1 { dx as int } else { dx * 0x1_0000_0000 },
                y == if k == 1 { dy as int } else { dy * 0x1_0000_0000 },
        ;
        lemma_square_sum_fits(x as int, y as int);
    }
    let ax: u128 = if x < 0 { (-x) as u128 } else { x as u128 };
    let ay: u128 = if y < 0 { (-y) as u128 } else { y as u128 };
    assert(ax * ax == x * x && ay * ay == y * y) by (nonlinear_arith)
        requires
            ax == x || ax == -x,
            ay == y || ay == -y,
    ;
    let n: u128 = isqrt(ax * ax + ay * ay);
    assert(n >= 1) by {
        assert(x != 0 || y != 0);
        if n == 0 {
            assert((n + 1) * (n + 1) == 1) by (nonlinear_arith)
                requires
                    n == 0,
            ;
        }
    }
    assert(n == widened_length(dx, dy));
    let ux: i128 = (x * 1_000_000) / (n as i128);
    let uy: i128 = (y * 1_000_000) / (n as i128);
    (narrow(ux), narrow(uy))
}

/// Every number that is not negative has an integer square root.
pub proof fn lemma_sqrt_exists(n: int)
    requires
        n >= 0,
    ensures
        is_sqrt(n, int_sqrt(n)),
    decreases n,
{
    if n == 0 {
        assert(is_sqrt(0, 0));
    } else {
        lemma_sqrt_exists(n - 1);
        let r = int_sqrt(n - 1);
        assert((r + 2) * (r + 2) > (r + 1) * (r + 1)) by (nonlinear_arith)
            requires
                r >= 0,
        ;
        if (r + 1) * (r + 1) <= n {
            assert(is_sqrt(n, r + 1));
        } else {
            assert(is_sqrt(n, r));
        }
    }
}

/// The magnitude of an integer.
pub open spec fn magnitude(v: int) -> int {
    if v >= 0 {
        v
    } else {
        -v
    }
}

/// A quotient rounded toward zero has the sign of the dividend, and its
/// magnitude is the greatest whose multiple does not exceed the dividend's.
pub proof fn lemma_trunc_div_bounds(a: int, n: int)
    requires
        n > 0,
    ensures
        magnitude(trunc_div(a, n)) * n <= magnitude(a) < (magnitude(trunc_div(a, n)) + 1) * n,
        a >= 0 ==> trunc_div(a, n) >= 0,
        a <= 0 ==> trunc_div(a, n) <= 0,
{
    let m = magnitude(a);
    let q = m / n;
    vstd::arithmetic::div_mod::lemma_fundamental_div_mod(m, n);
    vstd::arithmetic::div_mod::lemma_mod_pos_bound(m, n);
    vstd::arithmetic::div_mod::lemma_div_pos_is_pos(m, n);
    assert(q * n == n * q && (q + 1) * n == n * q + n) by (nonlinear_arith);
    assert(magnitude(trunc_div(a, n)) == q);
}

/// Squaring keeps the order of numbers that are not negative.
proof fn lemma_square_order(a: int, b: int)
    requires
        0 <= a,
    ensures
        a <= b ==> a * a <= b * b,
        a < b ==> a * a < b * b,
{
    assert(a <= b ==> a * a <= b * b) by (nonlinear_arith)
        requires
            0 <= a,
    ;
    assert(a < b ==> a * a < b * b) by (nonlinear_arith)
        requires
            0 <= a,
    ;
}

/// The core of the unit-length law, over plain integers: `a` and `b` are the
/// magnitudes of the quotients of `x * s` and `y * s` by `n`, the integer
/// root of `x * x + y * y`, and `n` is at least `s`.
proof fn lemma_unit_core(x: int, y: int, n: int, s: int, a: int, b: int)
    requires
        0 <= x,
        0 <= y,
        2 <= s <= n,
        n * n <= x * x + y * y < (n + 1) * (n + 1),
        0 <= a,
        0 <= b,
        a * n <= x * s < (a + 1) * n,
        b * n <= y * s < (b + 1) * n,
    ensures
        x <= n,
        y <= n,
        a <= s,
        b <= s,
        (s - 2) * (s - 2) < a * a + b * b < (s + 1) * (s + 1),
{
    // Each component is at most the root.
    assert(x <= n) by {
        if x >= n + 1 {
            lemma_square_order(n + 1, x);
            assert(y * y >= 0) by (nonlinear_arith);
        }
    }
    assert(y <= n) by {
        if y >= n + 1 {
            lemma_square_order(n + 1, y);
            assert(x * x >= 0) by (nonlinear_arith);
        }
    }
    assert(a <= s) by {
        if a >= s + 1 {
            assert(a * n >= (s + 1) * n) by (nonlinear_arith)
                requires
                    a >= s + 1,
                    n >= 0,
            ;
            assert(x * s <= n * s) by (nonlinear_arith)
                requires
                    x <= n,
                    s >= 0,
            ;
            assert((s + 1) * n == n * s + n) by (nonlinear_arith);
        }
    }
    assert(b <= s) by {
        if b >= s + 1 {
            assert(b * n >= (s + 1) * n) by (nonlinear_arith)
                requires
                    b >= s + 1,
                    n >= 0,
            ;
            assert(y * s <= n * s) by (nonlinear_arith)
                requires
                    y <= n,
                    s >= 0,
            ;
            assert((s + 1) * n == n * s + n) by (nonlinear_arith);
        }
    }
    let l = a * a + b * b;
    // Above: l * n^2 <= (x^2 + y^2) * s^2 < ((n + 1) * s)^2 <= ((s + 1) * n)^2.
    lemma_square_order(a * n, x * s);
    lemma_square_order(b * n, y * s);
    assert(0 <= a * n && 0 <= b * n) by (nonlinear_arith)
        requires
            0 <= a,
            0 <= b,
            0 <= n,
    ;
    assert((a * n) * (a * n) == (a * a) * (n * n)) by (nonlinear_arith);
    assert((b * n) * (b * n) == (b * b) * (n * n)) by (nonlinear_arith);
    assert((x * s) * (x * s) == (x * x) * (s * s)) by (nonlinear_arith);
    assert((y * s) * (y * s) == (y * y) * (s * s)) by (nonlinear_arith);
    let r = x * x + y * y;
    assert(l * (n * n) == (a * a) * (n * n) + (b * b) * (n * n)) by (nonlinear_arith)
        requires
            l == a * a + b * b,
    ;
    assert(r * (s * s) == (x * x) * (s * s) + (y * y) * (s * s)) by (nonlinear_arith)
        requires
            r == x * x + y * y,
    ;
    assert(l * (n * n) <= r * (s * s));
    assert(l < (s + 1) * (s + 1)) by {
        if l >= (s + 1) * (s + 1) {
            assert(l * (n * n) >= ((s + 1) * (s + 1)) * (n * n)) by (nonlinear_arith)
                requires
                    l >= (s + 1) * (s + 1),
            ;
            assert(r * (s * s) < ((n + 1) * (n + 1)) * (s * s)) by (nonlinear_arith)
                requires
                    r < (n + 1) * (n + 1),
                    s >= 1,
            ;
            assert(((n + 1) * (n + 1)) * (s * s) <= ((s + 1) * (s + 1)) * (n * n))
                by (nonlinear_arith)
                requires
                    1 <= s <= n,
            ;
        }
    }
    // Below: ((a + 1)^2 + (b + 1)^2) * n^2 > (x^2 + y^2) * s^2 >= n^2 * s^2.
    lemma_square_order(x * s, (a + 1) * n);
    lemma_square_order(y * s, (b + 1) * n);
    assert(0 <= x * s && 0 <= y * s) by (nonlinear_arith)
        requires
            0 <= x,
            0 <= y,
            0 <= s,
    ;
    assert(((a + 1) * n) * ((a + 1) * n) == ((a + 1) * (a + 1)) * (n * n)) by (nonlinear_arith);
    assert(((b + 1) * n) * ((b + 1) * n) == ((b + 1) * (b + 1)) * (n * n)) by (nonlinear_arith);
    let h = (a + 1) * (a + 1) + (b + 1) * (b + 1);
    assert(h * (n * n) == ((a + 1) * (a + 1)) * (n * n) + ((b + 1) * (b + 1)) * (n * n))
        by (nonlinear_arith)
        requires
            h == (a + 1) * (a + 1) + (b + 1) * (b + 1),
    ;
    assert(r * (s * s) >= (n * n) * (s * s)) by (nonlinear_arith)
        requires
            r >= n * n,
    ;
    assert(h * (n * n) > (s * s) * (n * n)) by {
        assert((n * n) * (s * s) == (s * s) * (n * n)) by (nonlinear_arith);
    }
    assert(h > s * s) by (nonlinear_arith)
        requires
            h * (n * n) > (s * s) * (n * n),
            n >= 1,
    ;
    assert(h == l + 2 * (a + b) + 2) by (nonlinear_arith)
        requires
            h == (a + 1) * (a + 1) + (b + 1) * (b + 1),
            l == a * a + b * b,
    ;
    assert(l > (s - 2) * (s - 2)) by {
        if l <= (s - 2) * (s - 2) {
            assert((s - 2) * (s - 2) == s * s - 4 * s + 4) by (nonlinear_arith);
            assert(a + b >= 2 * s - 2);
            assert((a + b) * (a + b) <= 2 * l) by (nonlinear_arith)
                requires
                    l == a * a + b * b,
            ;
            assert((a + b) * (a + b) >= (2 * s - 2) * (2 * s - 2)) by (nonlinear_arith)
                requires
                    a + b >= 2 * s - 2,
                    s >= 2,
            ;
            assert((2 * s - 2) * (2 * s - 2) == 4 * (s * s) - 8 * s + 4) by (nonlinear_arith);
            assert(s * s >= 2 * s) by (nonlinear_arith)
                requires
                    s >= 2,
            ;
        }
    }
}

/// A unit vector has length one, to within two millionths: the squares of
/// the components of [`heading`] add up to more than `(SCALE - 2)^2` and to
/// less than `(SCALE + 1)^2`. Neither component exceeds one, and each has the
/// sign of the component it was made from.
pub proof fn lemma_heading_is_unit(dx: i64, dy: i64)
    requires
        dx != 0 || dy != 0,
    ensures
        ({
            let u = heading(dx, dy);
            &&& (SCALE - 2) * (SCALE - 2) < u.0 * u.0 + u.1 * u.1 < (SCALE + 1) * (SCALE + 1)
            &&& -SCALE <= u.0 <= SCALE
            &&& -SCALE <= u.1 <= SCALE
            &&& (dx >= 0 ==> u.0 >= 0) && (dx <= 0 ==> u.0 <= 0)
            &&& (dy >= 0 ==> u.1 >= 0) && (dy <= 0 ==> u.1 <= 0)
        }),
{
    let k = widening(dx, dy);
    let x = dx * k;
    let y = dy * k;
    let s = SCALE as int;
    assert(k == 0x1_0000_0000int || k == 1);
    assert(magnitude(x) == magnitude(dx as int) * k && magnitude(y) == magnitude(dy as int) * k
        && (dx >= 0 ==> x >= 0) && (dx <= 0 ==> x <= 0) && (dy >= 0 ==> y >= 0) && (dy <= 0 ==> y
        <= 0)) by (nonlinear_arith)
        requires
            x == dx * k,
            y == dy * k,
            k >= 1,
    ;
    let mx = magnitude(x);
    let my = magnitude(y);
    assert(mx >= 0x8000_0000 || my >= 0x8000_0000) by {
        if k != 1 {
            assert(magnitude(dx as int) >= 1 || magnitude(dy as int) >= 1);
        }
    }
    assert(mx * mx == x * x && my * my == y * y) by (nonlinear_arith)
        requires
            mx == x || mx == -x,
            my == y || my == -y,
    ;
    assert(0 <= mx * mx && 0 <= my * my) by (nonlinear_arith);
    let r = x * x + y * y;
    lemma_sqrt_exists(r);
    let n = widened_length(dx, dy);
    assert(n == int_sqrt(r));
    assert(n >= 0x8000_0000) by {
        if n < 0x8000_0000 {
            lemma_square_order(n + 1, 0x8000_0000);
            if mx >= 0x8000_0000 {
                lemma_square_order(0x8000_0000, mx);
            } else {
                lemma_square_order(0x8000_0000, my);
            }
        }
    }
    let qx = trunc_div(x * s, n);
    let qy = trunc_div(y * s, n);
    lemma_trunc_div_bounds(x * s, n);
    lemma_trunc_div_bounds(y * s, n);
    let a = magnitude(qx);
    let b = magnitude(qy);
    assert(magnitude(x * s) == mx * s && magnitude(y * s) == my * s && (x >= 0 ==> x * s >= 0)
        && (x <= 0 ==> x * s <= 0) && (y >= 0 ==> y * s >= 0) && (y <= 0 ==> y * s <= 0))
        by (nonlinear_arith)
        requires
            mx == magnitude(x),
            my == magnitude(y),
            s > 0,
    ;
    lemma_unit_core(mx, my, n, s, a, b);
    assert(a * a == qx * qx && b * b == qy * qy) by (nonlinear_arith)
        requires
            a == qx || a == -qx,
            b == qy || b == -qy,
    ;
    assert(dx * k * SCALE == x * s && dy * k * SCALE == y * s);
    assert(heading(dx, dy).0 == qx && heading(dx, dy).1 == qy);
}

/// A unit vector points the way of the vector it was made from: the two
/// are parallel, to within the rounding of one raw unit in each component.
pub proof fn lemma_heading_is_parallel(dx: i64, dy: i64)
    requires
        dx != 0 || dy != 0,
    ensures
        ({
            let u = heading(dx, dy);
            magnitude(u.0 * dy - u.1 * dx) <= magnitude(dx as int) + magnitude(dy as int)
        }),
{
    lemma_heading_is_unit(dx, dy);
    let k = widening(dx, dy);
    let x = dx * k;
    let y = dy * k;
    let s = SCALE as int;
    let r = x * x + y * y;
    assert(k == 0x1_0000_0000int || k == 1);
    assert(0 <= x * x && 0 <= y * y) by (nonlinear_arith);
    assert(x != 0 || y != 0) by (nonlinear_arith)
        requires
            x == dx * k,
            y == dy * k,
            k >= 1,
            dx != 0 || dy != 0,
    ;
    lemma_sqrt_exists(r);
    let n = widened_length(dx, dy);
    assert(n >= 1) by {
        if n <= 0 {
            assert(x * x >= 1 || y * y >= 1) by (nonlinear_arith)
                requires
                    x != 0 || y != 0,
            ;
            assert((n + 1) * (n + 1) == 1) by (nonlinear_arith)
                requires
                    n == 0,
            ;
        }
    }
    let qx = trunc_div(x * s, n);
    let qy = trunc_div(y * s, n);
    lemma_trunc_div_bounds(x * s, n);
    lemma_trunc_div_bounds(y * s, n);
    assert(dx * k * SCALE == x * s && dy * k * SCALE == y * s);
    assert(heading(dx, dy).0 == qx && heading(dx, dy).1 == qy);
    // the remainders of the two divisions
    let ex = x * s - qx * n;
    let ey = y * s - qy * n;
    assert(-n < ex < n && -n < ey < n) by (nonlinear_arith)
        requires
            ex == x * s - qx * n,
            ey == y * s - qy * n,
            n > 0,
            magnitude(qx) * n <= magnitude(x * s) < (magnitude(qx) + 1) * n,
            magnitude(qy) * n <= magnitude(y * s) < (magnitude(qy) + 1) * n,
            x * s >= 0 ==> qx >= 0,
            x * s <= 0 ==> qx <= 0,
            y * s >= 0 ==> qy >= 0,
            y * s <= 0 ==> qy <= 0,
    ;
    // n * (qx * y - qy * x) == ey * x - ex * y
    let cross = qx * y - qy * x;
    assert(n * cross == ey * x - ex * y) by (nonlinear_arith)
        requires
            cross == qx * y - qy * x,
            ex == x * s - qx * n,
            ey == y * s - qy * n,
    ;
    let mx = magnitude(x);
    let my = magnitude(y);
    assert(magnitude(ey * x - ex * y) <= n * (mx + my)) by (nonlinear_arith)
        requires
            -n < ex < n,
            -n < ey < n,
            mx == magnitude(x),
            my == magnitude(y),
            n > 0,
    ;
    assert(magnitude(cross) <= mx + my) by (nonlinear_arith)
        requires
            magnitude(n * cross) <= n * (mx + my),
            n > 0,
            mx + my >= 0,
    ;
    // undo the widening
    let small = qx * dy - qy * dx;
    assert(cross == k * small) by (nonlinear_arith)
        requires
            cross == qx * y - qy * x,
            small == qx * dy - qy * dx,
            x == dx * k,
            y == dy * k,
    ;
    assert(mx + my == k * (magnitude(dx as int) + magnitude(dy as int))) by (nonlinear_arith)
        requires
            mx == magnitude(x),
            my == magnitude(y),
            x == dx * k,
            y == dy * k,
            k >= 1,
    ;
    assert(magnitude(small) <= magnitude(dx as int) + magnitude(dy as int)) by (nonlinear_arith)
        requires
            magnitude(k * small) <= k * (magnitude(dx as int) + magnitude(dy as int)),
            k >= 1,
    ;
}

} // verus!
