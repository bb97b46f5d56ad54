//! Fixed-point scalar helpers shared by all color spaces.
//!
//! A channel in `[0, 1]` is an integer count of `UNIT` millionths; a hue is a
//! count of `TURN` steps around the full circle. `TURN` is six times `UNIT`,
//! so one sector of the HSV hexagon is exactly `UNIT` steps wide.

use vstd::prelude::*;

verus! {

use vstd::arithmetic::div_mod::{
    lemma_div_is_ordered,
    lemma_div_multiples_vanish,
    lemma_fundamental_div_mod,
    lemma_fundamental_div_mod_converse,
};

/// Number of fixed-point steps that stand for the scalar value one.
pub const UNIT: u32 = 1_000_000;

/// Number of hue steps in a full turn (the angle two pi).
pub const TURN: u32 = 6_000_000;

/// Hue steps in half a turn (the angle pi).
pub const HALF_TURN: u32 = 3_000_000;

/// The value `x` saturated at the two channel bounds.
pub open spec fn clamp_unit_spec(x: int) -> u32 {
    if x < 0 {
        0u32
    } else if x > UNIT {
        UNIT
    } else {
        x as u32
    }
}

/// Clamps an arbitrary integer into the channel interval `[0, UNIT]`.
pub fn clamp_unit(x: i64) -> (r: u32)
    ensures
        r == clamp_unit_spec(x as int),
{
    if x < 0 {
        0
    } else if x > UNIT as i64 {
        UNIT
    } else {
        x as u32
    }
}

/// Floor division of a channel product: `a * b / UNIT`, for channel-sized
/// operands.
pub fn mul_unit(a: u32, b: u32) -> (r: u32)
    requires
        a <= UNIT,
        b <= UNIT,
    ensures
        r == a * b / UNIT as int,
        r <= UNIT,
{
    proof {
        assert(UNIT == 1_000_000);
        lemma_mul_unit_bound(a as int, b as int);
    }
    let wide: u64 = a as u64 * b as u64;
    let q: u64 = wide / UNIT as u64;
    q as u32
}

proof fn lemma_mul_unit_bound(a: int, b: int) by (nonlinear_arith)
    requires
        0 <= a <= 1_000_000,
        0 <= b <= 1_000_000,
    ensures
        0 <= a * b <= 1_000_000_000_000,
        a * b / 1_000_000 <= 1_000_000,
        b == 1_000_000 ==> a * b / 1_000_000 == a,
        b == 0 ==> a * b / 1_000_000 == 0,
{
}

/// Floor division with a positive divisor; the counterpart of the `/`
/// of specification arithmetic for signed operands.
pub fn div_floor(a: i64, d: i64) -> (q: i64)
    requires
        0 < d <= 0x1_0000_0000,
        -0x1000_0000_0000_0000 <= a <= 0x1000_0000_0000_0000,
    ensures
        q == a as int / d as int,
{
    if a >= 0 {
        a / d
    } else {
        let m = -a;
        let q0 = (m + d - 1) / d;
        proof {
            lemma_neg_div_round_up(a as int, d as int);
        }
        -q0
    }
}

proof fn lemma_neg_div_round_up(a: int, d: int)
    requires
        a < 0,
        d > 0,
    ensures
        -((-a + d - 1) / d) == a / d,
{
    let m = -a;
    let q = (m + d - 1) / d;
    let r = (m + d - 1) % d;
    lemma_fundamental_div_mod(m + d - 1, d);
    assert(m + d - 1 == d * q + r);
    let r2 = d - 1 - r;
    assert(a == (-q) * d + r2) by (nonlinear_arith)
        requires
            a == -m,
            m + d - 1 == d * q + r,
            r2 == d - 1 - r,
    ;
    lemma_fundamental_div_mod_converse(a, d, -q, r2);
}

/// A product of nonnegative factors is bounded by the product of the bounds.
pub proof fn lemma_mul_le(a: int, b: int, x: int, y: int) by (nonlinear_arith)
    requires
        0 <= a <= x,
        0 <= b <= y,
    ensures
        0 <= a * b <= x * y,
{
}

/// A product with one signed factor is bounded by the product of the bounds
/// in magnitude.
pub proof fn lemma_mul_abs_le(a: int, b: int, x: int, y: int) by (nonlinear_arith)
    requires
        -x <= a <= x,
        0 <= b <= y,
        0 <= x,
    ensures
        -(x * y) <= a * b <= x * y,
        -(x * y) <= b * a <= x * y,
{
}

/// Dividing by a positive divisor never grows the magnitude.
pub proof fn lemma_div_abs_le(a: int, d: int) by (nonlinear_arith)
    requires
        1 <= d,
    ensures
        a >= 0 ==> 0 <= a / d <= a,
        a < 0 ==> a <= a / d <= 0,
{
}

/// Quotients with ordered numerators are ordered: `a <= b` gives
/// `a / d <= b / d`.
pub proof fn lemma_div_le(a: int, b: int, d: int)
    requires
        a <= b,
        0 < d,
    ensures
        a / d <= b / d,
{
    lemma_div_is_ordered(a, b, d);
}

/// A product of a bounded factor stays bounded after the matching division:
/// `a <= c` gives `a * b / c <= b`.
pub proof fn lemma_mul_div_le(a: int, b: int, c: int) by (nonlinear_arith)
    requires
        0 <= a <= c,
        0 <= b,
        0 < c,
    ensures
        a * b / c <= b,
        0 <= a * b / c,
{
}

/// Dividing an exact multiple returns the factor: `(b * d) / d == b`.
pub proof fn lemma_mul_div_cancel(b: int, d: int)
    requires
        0 < d,
    ensures
        b * d / d == b,
{
    lemma_div_multiples_vanish(b, d);
    assert(d * b == b * d) by (nonlinear_arith);
}

/// Whether `r` is the floor square root of `x`.
pub open spec fn is_rt2(x: int, r: int) -> bool {
    0 <= r && r * r <= x && x < (r + 1) * (r + 1)
}

/// The floor square root of `x`.
pub open spec fn rt2(x: int) -> int {
    choose|r: int| is_rt2(x, r)
}

/// Whether `r` is the floor cube root of `x`.
pub open spec fn is_rt3(x: int, r: int) -> bool {
    0 <= r && r * r * r <= x && x < (r + 1) * (r + 1) * (r + 1)
}

/// The floor cube root of `x`.
pub open spec fn rt3(x: int) -> int {
    choose|r: int| is_rt3(x, r)
}

/// Whether `r` is the floor fifth root of `x`.
pub open spec fn is_rt5(x: int, r: int) -> bool {
    0 <= r && r * r * r * r * r <= x && x < (r + 1) * (r + 1) * (r + 1) * (r + 1) * (r + 1)
}

/// The floor fifth root of `x`.
pub open spec fn rt5(x: int) -> int {
    choose|r: int| is_rt5(x, r)
}

/// Squares order with their arguments.
pub proof fn lemma_sq_le(a: int, b: int) by (nonlinear_arith)
    requires
        0 <= a <= b,
    ensures
        a * a <= b * b,
{
}

/// Cubes order with their arguments.
pub proof fn lemma_cube_le(a: int, b: int)
    requires
        0 <= a <= b,
    ensures
        a * a * a <= b * b * b,
{
    lemma_sq_le(a, b);
    assert(a * a * a <= b * b * b) by (nonlinear_arith)
        requires
            0 <= a <= b,
            a * a <= b * b,
            0 <= a * a,
    ;
}

/// Fifth powers order with their arguments.
pub proof fn lemma_fifth_le(a: int, b: int)
    requires
        0 <= a <= b,
    ensures
        a * a * a * a * a <= b * b * b * b * b,
{
    lemma_cube_le(a, b);
    assert(0 <= a * a * a && a * a * a * a <= b * b * b * b) by (nonlinear_arith)
        requires
            0 <= a <= b,
            a * a * a <= b * b * b,
    ;
    assert(a * a * a * a * a <= b * b * b * b * b) by (nonlinear_arith)
        requires
            0 <= a <= b,
            a * a * a * a <= b * b * b * b,
            0 <= a * a * a * a,
    ;
}

/// Every nonnegative value has a floor square root: `rt2` satisfies its
/// defining property.
pub proof fn lemma_rt2_exists(n: int)
    requires
        n >= 0,
    ensures
        is_rt2(n, rt2(n)),
    decreases n,
{
    if n == 0 {
        assert(is_rt2(0, 0));
    } else {
        lemma_rt2_exists(n - 1);
        let r = rt2(n - 1);
        if n < (r + 1) * (r + 1) {
            assert(is_rt2(n, r));
        } else {
            assert((r + 1) * (r + 1) < (r + 2) * (r + 2)) by (nonlinear_arith)
                requires
                    r >= 0,
            ;
            assert(is_rt2(n, r + 1));
        }
    }
}

/// Every nonnegative value has a floor cube root: `rt3` satisfies its
/// defining property.
pub proof fn lemma_rt3_exists(n: int)
    requires
        n >= 0,
    ensures
        is_rt3(n, rt3(n)),
    decreases n,
{
    if n == 0 {
        assert(is_rt3(0, 0));
    } else {
        lemma_rt3_exists(n - 1);
        let r = rt3(n - 1);
        if n < (r + 1) * (r + 1) * (r + 1) {
            assert(is_rt3(n, r));
        } else {
            assert((r + 1) * (r + 1) * (r + 1) < (r + 2) * (r + 2) * (r + 2)) by (nonlinear_arith)
                requires
                    r >= 0,
            ;
            assert(is_rt3(n, r + 1));
        }
    }
}

/// Every nonnegative value has a floor fifth root: `rt5` satisfies its
/// defining property.
pub proof fn lemma_rt5_exists(n: int)
    requires
        n >= 0,
    ensures
        is_rt5(n, rt5(n)),
    decreases n,
{
    if n == 0 {
        assert(is_rt5(0, 0));
    } else {
        lemma_rt5_exists(n - 1);
        let r = rt5(n - 1);
        if n < (r + 1) * (r + 1) * (r + 1) * (r + 1) * (r + 1) {
            assert(is_rt5(n, r));
        } else {
            assert((r + 1) * (r + 1) * (r + 1) * (r + 1) * (r + 1) < (r + 2) * (r + 2) * (r + 2)
                * (r + 2) * (r + 2)) by (nonlinear_arith)
                requires
                    r >= 0,
            ;
            assert(is_rt5(n, r + 1));
        }
    }
}

/// Only one value can be the floor square root of `x`.
proof fn lemma_rt2_unique(x: int, r1: int, r2: int)
    requires
        is_rt2(x, r1),
        is_rt2(x, r2),
    ensures
        r1 == r2,
{
    if r1 < r2 {
        lemma_sq_le(r1 + 1, r2);
    }
    if r2 < r1 {
        lemma_sq_le(r2 + 1, r1);
    }
}

/// Only one value can be the floor cube root of `x`.
proof fn lemma_rt3_unique(x: int, r1: int, r2: int)
    requires
        is_rt3(x, r1),
        is_rt3(x, r2),
    ensures
        r1 == r2,
{
    if r1 < r2 {
        lemma_cube_le(r1 + 1, r2);
    }
    if r2 < r1 {
        lemma_cube_le(r2 + 1, r1);
    }
}

/// Only one value can be the floor fifth root of `x`.
proof fn lemma_rt5_unique(x: int, r1: int, r2: int)
    requires
        is_rt5(x, r1),
        is_rt5(x, r2),
    ensures
        r1 == r2,
{
    if r1 < r2 {
        lemma_fifth_le(r1 + 1, r2);
    }
    if r2 < r1 {
        lemma_fifth_le(r2 + 1, r1);
    }
}


/// A value that satisfies the floor-square-root property is the floor square
/// root.
pub proof fn lemma_rt2_is(x: int, r: int)
    requires
        is_rt2(x, r),
    ensures
        rt2(x) == r,
{
    let picked = choose|q: int| is_rt2(x, q);
    lemma_rt2_unique(x, picked, r);
}

/// A value that satisfies the floor-cube-root property is the floor cube
/// root.
pub proof fn lemma_rt3_is(x: int, r: int)
    requires
        is_rt3(x, r),
    ensures
        rt3(x) == r,
{
    let picked = choose|q: int| is_rt3(x, q);
    lemma_rt3_unique(x, picked, r);
}

/// A value that satisfies the floor-fifth-root property is the floor fifth
/// root.
pub proof fn lemma_rt5_is(x: int, r: int)
    requires
        is_rt5(x, r),
    ensures
        rt5(x) == r,
{
    let picked = choose|q: int| is_rt5(x, q);
    lemma_rt5_unique(x, picked, r);
}

/// The floor square root of `x`, for `x` up to one in fixed-point square
/// scale, by binary search.
pub fn isqrt(x: u64) -> (r: u32)
    requires
        x <= 1_000_000_000_000,
    ensures
        is_rt2(x as int, r as int),
        r as int == rt2(x as int),
        r <= UNIT,
{
    let mut lo: u64 = 0;
    let mut hi: u64 = 1_000_001;
    while hi - lo > 1
        invariant
            lo < hi <= 1_000_001,
            lo * lo <= x,
            x < hi * hi,
        decreases hi - lo,
    {
        let mid = lo + (hi - lo) / 2;
        proof {
            lemma_mul_le(mid as int, mid as int, 1_000_001, 1_000_001);
        }
        if mid * mid <= x {
            lo = mid;
        } else {
            hi = mid;
        }
    }
    proof {
        assert(is_rt2(x as int, lo as int));
        lemma_rt2_is(x as int, lo as int);
    }
    lo as u32
}

/// The floor cube root of `x`, for `x` up to one in fixed-point cube scale,
/// by binary search.
pub fn icbrt(x: u128) -> (r: u32)
    requires
        x <= 1_000_000_000_000_000_000,
    ensures
        is_rt3(x as int, r as int),
        r as int == rt3(x as int),
        r <= UNIT,
{
    let mut lo: u128 = 0;
    let mut hi: u128 = 1_000_001;
    while hi - lo > 1
        invariant
            lo < hi <= 1_000_001,
            lo * lo * lo <= x,
            x < hi * hi * hi,
        decreases hi - lo,
    {
        let mid = lo + (hi - lo) / 2;
        proof {
            lemma_mul_le(mid as int, mid as int, 1_000_001, 1_000_001);
            lemma_mul_le(mid as int * mid as int, mid as int, 1_000_002_000_001, 1_000_001);
        }
        if mid * mid * mid <= x {
            lo = mid;
        } else {
            hi = mid;
        }
    }
    proof {
        assert(is_rt3(x as int, lo as int));
        lemma_rt3_is(x as int, lo as int);
    }
    lo as u32
}

/// The floor fifth root of `x`, for `x` up to one in fixed-point fifth-power
/// scale, by binary search.
pub fn ififth(x: u128) -> (r: u32)
    requires
        x <= 1_000_000_000_000_000_000_000_000_000_000,
    ensures
        is_rt5(x as int, r as int),
        r as int == rt5(x as int),
        r <= UNIT,
{
    let mut lo: u128 = 0;
    let mut hi: u128 = 1_000_001;
    while hi - lo > 1
        invariant
            lo < hi <= 1_000_001,
            lo * lo * lo * lo * lo <= x,
            x < hi * hi * hi * hi * hi,
        decreases hi - lo,
    {
        let mid = lo + (hi - lo) / 2;
        proof {
            lemma_mul_le(mid as int, mid as int, 1_000_001, 1_000_001);
            lemma_mul_le(mid as int * mid as int, mid as int, 1_000_002_000_001, 1_000_001);
            lemma_mul_le(
                mid as int * mid as int * mid as int,
                mid as int,
                1_000_003_000_003_000_001,
                1_000_001,
            );
            lemma_mul_le(
                mid as int * mid as int * mid as int * mid as int,
                mid as int,
                1_000_004_000_006_000_004_000_001,
                1_000_001,
            );
        }
        if mid * mid * mid * mid * mid <= x {
            lo = mid;
        } else {
            hi = mid;
        }
    }
    proof {
        assert(is_rt5(x as int, lo as int));
        lemma_rt5_is(x as int, lo as int);
    }
    lo as u32
}

} // verus!
