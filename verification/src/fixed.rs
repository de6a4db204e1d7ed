//! Saturating fixed-point arithmetic.
//!
//! Every quantity of the simulation (a coordinate, a duration in seconds, a
//! speed, a scale factor, an opacity, an angle in radians) is an `i64` that
//! counts millionths: the raw value `1_500_000` stands for `1.5`. Results
//! that leave the range of `i64` stick to its nearest end, and a division
//! rounds toward zero.
use vstd::prelude::*;

verus! {

/// Number of raw units in one whole.
pub const SCALE: i64 = 1_000_000;

/// The value of `i64` nearest to `v`.
pub open spec fn saturate(v: int) -> i64 {
    if v < i64::MIN as int {
        i64::MIN
    } else if v > i64::MAX as int {
        i64::MAX
    } else {
        v as i64
    }
}

/// Quotient of `a` by a divisor `b != 0`, rounded toward zero.
pub open spec fn trunc_div(a: int, b: int) -> int {
    let q = (if a >= 0 { a } else { -a }) / (if b >= 0 { b } else { -b });
    if (a >= 0) == (b >= 0) {
        q
    } else {
        -q
    }
}

/// `a + b`, saturated.
pub open spec fn sum(a: i64, b: i64) -> i64 {
    saturate(a + b)
}

/// `a - b`, saturated.
pub open spec fn difference(a: i64, b: i64) -> i64 {
    saturate(a - b)
}

/// Product of two fixed-point values: `a * b / SCALE`, rounded toward zero
/// and saturated.
pub open spec fn product(a: i64, b: i64) -> i64 {
    saturate(trunc_div(a * b, SCALE as int))
}

/// Quotient of two fixed-point values: `a * SCALE / b`, rounded toward zero
/// and saturated. A division by zero saturates in the direction of `a`, and
/// zero by zero is zero.
pub open spec fn quotient(a: i64, b: i64) -> i64 {
    if b == 0 {
        if a > 0 {
            i64::MAX
        } else if a < 0 {
            i64::MIN
        } else {
            0
        }
    } else {
        saturate(trunc_div(a * SCALE, b as int))
    }
}

/// The fraction `n / d` of two counts as a fixed-point value, rounded down
/// and saturated; zero where `d` is zero.
pub open spec fn ratio(n: nat, d: nat) -> i64 {
    if d == 0 {
        0
    } else {
        saturate((n * SCALE) / (d as int))
    }
}

/// Brings a wide intermediate result back into `i64`.
pub fn narrow(v: i128) -> (r: i64)
    ensures
        r == saturate(v as int),
{
    if v < i64::MIN as i128 {
        i64::MIN
    } else if v > i64::MAX as i128 {
        i64::MAX
    } else {
        v as i64
    }
}

/// A product of two `i64` values fits in 127 bits.
pub proof fn lemma_product_fits(a: i64, b: i64)
    ensures
        -0x4000_0000_0000_0000_0000_0000_0000_0000 <= a * b
            <= 0x4000_0000_0000_0000_0000_0000_0000_0000,
{
    assert(-0x4000_0000_0000_0000_0000_0000_0000_0000 <= a * b
        <= 0x4000_0000_0000_0000_0000_0000_0000_0000) by (nonlinear_arith)
        requires
            -0x8000_0000_0000_0000 <= a <= 0x7fff_ffff_ffff_ffff,
            -0x8000_0000_0000_0000 <= b <= 0x7fff_ffff_ffff_ffff,
    ;
}

/// Adds two fixed-point values.
#[verifier::when_used_as_spec(sum)]
pub fn sat_add(a: i64, b: i64) -> (r: i64)
    ensures
        r == sum(a, b),
{
    narrow(a as i128 + b as i128)
}

/// Subtracts one fixed-point value from another.
#[verifier::when_used_as_spec(difference)]
pub fn sat_sub(a: i64, b: i64) -> (r: i64)
    ensures
        r == difference(a, b),
{
    narrow(a as i128 - b as i128)
}

/// Multiplies two fixed-point values.
#[verifier::when_used_as_spec(product)]
pub fn sat_mul(a: i64, b: i64) -> (r: i64)
    ensures
        r == product(a, b),
{
    proof {
        lemma_product_fits(a, b);
    }
    let wide: i128 = (a as i128) * (b as i128);
    narrow(wide / (SCALE as i128))
}

/// Divides one fixed-point value by another.
#[verifier::when_used_as_spec(quotient)]
pub fn sat_div(a: i64, b: i64) -> (r: i64)
    ensures
        r == quotient(a, b),
{
    if b == 0 {
        if a > 0 {
            i64::MAX
        } else if a < 0 {
            i64::MIN
        } else {
            0
        }
    } else {
        proof {
            lemma_product_fits(a, SCALE);
        }
        let wide: i128 = (a as i128) * (SCALE as i128);
        let q: i128 = if b > 0 {
            wide / (b as i128)
        } else {
            (-wide) / (-(b as i128))
        };
        narrow(q)
    }
}

/// Computes [`ratio`].
pub fn ratio_of(n: usize, d: usize) -> (r: i64)
    ensures
        r == ratio(n as nat, d as nat),
{
    if d == 0 {
        0
    } else {
        assert(0 <= n * SCALE <= usize::MAX * SCALE) by (nonlinear_arith)
            requires
                0 <= n <= usize::MAX,
                SCALE == 1_000_000,
        ;
        let wide: i128 = (n as i128) * (SCALE as i128);
        narrow(wide / (d as i128))
    }
}

} // verus!
