//! Fixed-point arithmetic for the simulation.
//!
//! Positions, velocities and sizes are whole numbers of steps, `UNIT` steps to
//! one playfield unit. Every operation here is total: a result that does not
//! fit the representation is held at its nearest bound.

use crate::types::Vector;
use vstd::prelude::*;

verus! {

/// Steps per playfield unit.
pub const UNIT: i64 = 1_000_000;

/// Length of the baseline tick in milliseconds. Velocities are steps per
/// baseline tick, so elapsed milliseconds are divided by this.
pub const BASELINE_MILLISECONDS: u64 = 18;

/// Division rounding toward zero, for a positive divisor.
pub open spec fn trunc_div(a: int, b: int) -> int {
    if a >= 0 {
        a / b
    } else {
        -((-a) / b)
    }
}

/// The value held within the 64-bit range.
pub open spec fn sat(v: int) -> i64 {
    if v > i64::MAX {
        i64::MAX
    } else if v < i64::MIN {
        i64::MIN
    } else {
        v as i64
    }
}

/// `v * num / den`, rounded toward zero.
pub open spec fn scaled(v: int, num: int, den: int) -> i64 {
    sat(trunc_div(v * num, den))
}

/// Where a coordinate `x` moving at `v` steps per baseline tick is after
/// `millis` milliseconds.
pub open spec fn advanced(x: int, v: int, millis: int) -> i64 {
    sat(x + trunc_div(v * millis, BASELINE_MILLISECONDS as int))
}

/// A countdown measured in baseline ticks (in steps), after `millis`
/// milliseconds: it stops at zero.
pub open spec fn counted_down(c: i64, millis: int) -> i64 {
    let left = c - (millis * UNIT) / (BASELINE_MILLISECONDS as int);
    if left > 0 {
        left as i64
    } else {
        0
    }
}

/// The grid cell of a coordinate: whole playfield units, held within `u16`.
pub open spec fn cell(v: int) -> u16 {
    if v < 0 {
        0
    } else if v / (UNIT as int) > u16::MAX {
        u16::MAX
    } else {
        (v / (UNIT as int)) as u16
    }
}

/// The value `v` held between `lo` and `hi`.
pub open spec fn held(v: i64, lo: int, hi: int) -> i64 {
    if v < lo {
        lo as i64
    } else if v > hi {
        hi as i64
    } else {
        v
    }
}

/// `s` is the least non-negative integer whose square reaches `n`.
pub open spec fn is_ceil_sqrt(n: int, s: int) -> bool {
    &&& 0 <= s
    &&& n <= s * s
    &&& (s == 0 || (s - 1) * (s - 1) < n)
}

/// The square root of `n`, rounded up.
pub open spec fn ceil_sqrt(n: int) -> int {
    choose|s: int| is_ceil_sqrt(n, s)
}

/// Squared length of the vector `(x, y)`.
pub open spec fn norm_sq(x: int, y: int) -> int {
    x * x + y * y
}

/// One component `c` of a vector of squared length `n`, after the vector is
/// shortened to length `max` where it is longer.
pub open spec fn capped(c: int, n: int, max: int) -> int {
    if n > max * max {
        trunc_div(c * max, ceil_sqrt(n))
    } else {
        c
    }
}

/// The vector `v` shortened to length `max` where it is longer: both
/// components are divided by the same length, so the direction stays.
pub open spec fn cap(v: Vector, max: i64) -> Vector {
    let n = norm_sq(v.0 as int, v.1 as int);
    (capped(v.0 as int, n, max as int) as i64, capped(v.1 as int, n, max as int) as i64)
}

/// Squared length of a vector.
pub open spec fn speed_sq(v: Vector) -> int {
    norm_sq(v.0 as int, v.1 as int)
}

/// Of two non-negative numbers the larger has the larger square.
pub proof fn lemma_square_monotonic(a: int, b: int)
    requires
        0 <= a <= b,
    ensures
        a * a <= b * b,
{
    assert(a * a <= b * b) by (nonlinear_arith)
        requires
            0 <= a <= b,
    ;
}

/// A number has one rounded-up square root.
pub proof fn lemma_ceil_sqrt_unique(n: int, a: int, b: int)
    requires
        is_ceil_sqrt(n, a),
        is_ceil_sqrt(n, b),
    ensures
        a == b,
{
    if a < b {
        lemma_square_monotonic(a, b - 1);
    } else if b < a {
        lemma_square_monotonic(b, a - 1);
    }
}

/// Whatever meets `is_ceil_sqrt` is the rounded-up square root.
pub proof fn lemma_ceil_sqrt_is(n: int, s: int)
    requires
        is_ceil_sqrt(n, s),
    ensures
        ceil_sqrt(n) == s,
{
    lemma_ceil_sqrt_unique(n, s, ceil_sqrt(n));
}

/// Shortening keeps a vector within the length it is shortened to.
pub proof fn lemma_capped_norm(x: int, y: int, max: int)
    requires
        0 < max,
    ensures
        norm_sq(capped(x, norm_sq(x, y), max), capped(y, norm_sq(x, y), max)) <= max * max,
{
    let n = norm_sq(x, y);
    if n > max * max {
        let s = choose|s: int| is_ceil_sqrt(n, s);
        assert(n > 0) by (nonlinear_arith)
            requires
                n > max * max,
        ;
        assert(x * x >= 0 && y * y >= 0) by (nonlinear_arith);
        lemma_ceil_sqrt_exists(n);
        assert(is_ceil_sqrt(n, s));
        assert(s > 0) by (nonlinear_arith)
            requires
                n > 0,
                n <= s * s,
                0 <= s,
        ;
        let a = if x >= 0 { x } else { -x };
        let b = if y >= 0 { y } else { -y };
        let qa = (a * max) / s;
        let qb = (b * max) / s;
        assert(a * max >= 0 && b * max >= 0) by (nonlinear_arith)
            requires
                a >= 0,
                b >= 0,
                max > 0,
        ;
        assert((-x) * max == -(x * max)) by (nonlinear_arith);
        assert((-y) * max == -(y * max)) by (nonlinear_arith);
        assert(x >= 0 ==> x * max >= 0) by (nonlinear_arith)
            requires
                max > 0,
        ;
        assert(x < 0 ==> x * max < 0) by (nonlinear_arith)
            requires
                max > 0,
        ;
        assert(y >= 0 ==> y * max >= 0) by (nonlinear_arith)
            requires
                max > 0,
        ;
        assert(y < 0 ==> y * max < 0) by (nonlinear_arith)
            requires
                max > 0,
        ;
        let cx = capped(x, n, max);
        let cy = capped(y, n, max);
        assert(cx == qa || cx == -qa);
        assert(cy == qb || cy == -qb);
        assert(cx * cx == qa * qa) by (nonlinear_arith)
            requires
                cx == qa || cx == -qa,
        ;
        assert(cy * cy == qb * qb) by (nonlinear_arith)
            requires
                cy == qb || cy == -qb,
        ;
        assert(0 <= qa && qa * s <= a * max) by (nonlinear_arith)
            requires
                qa == (a * max) / s,
                s > 0,
                a * max >= 0,
        ;
        assert(0 <= qb && qb * s <= b * max) by (nonlinear_arith)
            requires
                qb == (b * max) / s,
                s > 0,
                b * max >= 0,
        ;
        lemma_square_monotonic(qa * s, a * max);
        lemma_square_monotonic(qb * s, b * max);
        assert((qa * s) * (qa * s) == (qa * qa) * (s * s)) by (nonlinear_arith);
        assert((qb * s) * (qb * s) == (qb * qb) * (s * s)) by (nonlinear_arith);
        assert((a * max) * (a * max) + (b * max) * (b * max) == n * (max * max))
            by (nonlinear_arith)
            requires
                n == x * x + y * y,
                a == x || a == -x,
                b == y || b == -y,
        ;
        assert(n * (max * max) <= (s * s) * (max * max)) by (nonlinear_arith)
            requires
                n <= s * s,
                max > 0,
        ;
        let q = qa * qa + qb * qb;
        assert(q * (s * s) == (qa * qa) * (s * s) + (qb * qb) * (s * s)) by (nonlinear_arith)
            requires
                q == qa * qa + qb * qb,
        ;
        assert(q * (s * s) <= (max * max) * (s * s)) by (nonlinear_arith)
            requires
                q * (s * s) <= n * (max * max),
                n * (max * max) <= (s * s) * (max * max),
        ;
        assert(q <= max * max) by (nonlinear_arith)
            requires
                q * (s * s) <= (max * max) * (s * s),
                s > 0,
        ;
    }
}

/// Every non-negative number has a rounded-up square root.
pub proof fn lemma_ceil_sqrt_exists(n: int)
    requires
        0 <= n,
    ensures
        is_ceil_sqrt(n, ceil_sqrt(n)),
    decreases n,
{
    if n == 0 {
        assert(is_ceil_sqrt(0, 0));
    } else {
        lemma_ceil_sqrt_exists(n - 1);
        let p = ceil_sqrt(n - 1);
        if n <= p * p {
            if p == 0 {
                assert(false);
            }
            assert((p - 1) * (p - 1) < n);
            assert(is_ceil_sqrt(n, p));
        } else {
            assert(n == p * p + 1);
            assert((p + 1) * (p + 1) == p * p + 2 * p + 1) by (nonlinear_arith);
            assert(is_ceil_sqrt(n, p + 1));
        }
    }
}

/// A shortened vector is within the length it is shortened to.
pub proof fn lemma_cap_within(v: Vector, max: i64)
    requires
        0 < max <= 0xffff_ffff,
    ensures
        speed_sq(cap(v, max)) <= max * max,
        cap(v, max).0 == capped(v.0 as int, speed_sq(v), max as int),
        cap(v, max).1 == capped(v.1 as int, speed_sq(v), max as int),
{
    let n = norm_sq(v.0 as int, v.1 as int);
    let qx = capped(v.0 as int, n, max as int);
    let qy = capped(v.1 as int, n, max as int);
    lemma_capped_norm(v.0 as int, v.1 as int, max as int);
    assert(qx * qx >= 0 && qy * qy >= 0) by (nonlinear_arith);
    assert(max * max <= 0xffff_ffff * 0xffff_ffff) by (nonlinear_arith)
        requires
            0 < max <= 0xffff_ffff,
    ;
    assert(-max <= qx <= max) by (nonlinear_arith)
        requires
            qx * qx <= max * max,
            max > 0,
    ;
    assert(-max <= qy <= max) by (nonlinear_arith)
        requires
            qy * qy <= max * max,
            max > 0,
    ;
}

/// Shortening keeps the direction of a vector: each component keeps its
/// sign and does not grow, and a vector within the length stays as it is.
pub proof fn lemma_cap_keeps_direction(v: Vector, max: i64)
    requires
        0 < max <= 0xffff_ffff,
    ensures
        v.0 >= 0 ==> 0 <= cap(v, max).0 <= v.0,
        v.0 <= 0 ==> v.0 <= cap(v, max).0 <= 0,
        v.1 >= 0 ==> 0 <= cap(v, max).1 <= v.1,
        v.1 <= 0 ==> v.1 <= cap(v, max).1 <= 0,
        speed_sq(v) <= max * max ==> cap(v, max) == v,
{
    let n = norm_sq(v.0 as int, v.1 as int);
    lemma_cap_within(v, max);
    if n > max * max {
        assert(v.0 * v.0 >= 0 && v.1 * v.1 >= 0) by (nonlinear_arith);
        lemma_ceil_sqrt_exists(n);
        let s = ceil_sqrt(n);
        assert(s > max) by (nonlinear_arith)
            requires
                n > max * max,
                n <= s * s,
                0 <= s,
                0 < max,
        ;
        lemma_shrunk(v.0 as int, max as int, s);
        lemma_shrunk(v.1 as int, max as int, s);
    }
}

/// A number times `max` over a larger `s`, rounded toward zero, keeps its
/// sign and does not grow.
proof fn lemma_shrunk(c: int, max: int, s: int)
    requires
        0 < max < s,
    ensures
        c >= 0 ==> 0 <= trunc_div(c * max, s) <= c,
        c <= 0 ==> c <= trunc_div(c * max, s) <= 0,
{
    if c >= 0 {
        assert(0 <= (c * max) / s <= c) by (nonlinear_arith)
            requires
                0 <= c,
                0 < max < s,
        ;
        assert(c * max >= 0) by (nonlinear_arith)
            requires
                0 <= c,
                0 < max,
        ;
    } else {
        let d = -c;
        assert(0 <= (d * max) / s <= d) by (nonlinear_arith)
            requires
                0 <= d,
                0 < max < s,
        ;
        assert(c * max < 0 && -(c * max) == d * max) by (nonlinear_arith)
            requires
                c < 0,
                d == -c,
                0 < max,
        ;
    }
}

/// Holds a wide value within the 64-bit range.
pub fn saturate(v: i128) -> (r: i64)
    ensures
        r == sat(v as int),
{
    if v > i64::MAX as i128 {
        i64::MAX
    } else if v < i64::MIN as i128 {
        i64::MIN
    } else {
        v as i64
    }
}

/// Sum of two values, held within the 64-bit range.
pub fn sat_add(a: i64, b: i64) -> (r: i64)
    ensures
        r == sat(a + b),
{
    saturate(a as i128 + b as i128)
}

/// Difference of two values, held within the 64-bit range.
pub fn sat_sub(a: i64, b: i64) -> (r: i64)
    ensures
        r == sat(a - b),
{
    saturate(a as i128 - b as i128)
}

/// Multiplies by the ratio `num / den`, rounding toward zero.
pub fn scale(v: i64, num: i64, den: i64) -> (r: i64)
    requires
        0 < den,
    ensures
        r == scaled(v as int, num as int, den as int),
{
    let wide: i128 = v as i128;
    let factor: i128 = num as i128;
    assert(-0x4000_0000_0000_0000_0000_0000_0000_0000 <= wide * factor
        <= 0x4000_0000_0000_0000_0000_0000_0000_0000) by (nonlinear_arith)
        requires
            -0x8000_0000_0000_0000 <= wide <= 0x8000_0000_0000_0000,
            -0x8000_0000_0000_0000 <= factor <= 0x8000_0000_0000_0000,
    ;
    let product: i128 = wide * factor;
    saturate(product / (den as i128))
}

/// Moves a coordinate by its velocity over `millis` milliseconds.
pub fn advance(x: i64, v: i64, millis: u64) -> (r: i64)
    ensures
        r == advanced(x as int, v as int, millis as int),
{
    let wide: i128 = v as i128;
    let time: i128 = millis as i128;
    assert(-0x7fff_ffff_ffff_ffff_8000_0000_0000_0000 <= wide * time
        <= 0x7fff_ffff_ffff_ffff_8000_0000_0000_0000) by (nonlinear_arith)
        requires
            -0x8000_0000_0000_0000 <= wide <= 0x8000_0000_0000_0000,
            0 <= time <= 0xffff_ffff_ffff_ffff,
    ;
    let product: i128 = wide * time;
    let step: i128 = product / (BASELINE_MILLISECONDS as i128);
    saturate(x as i128 + step)
}

/// Runs a countdown for `millis` milliseconds.
pub fn count_down(c: i64, millis: u64) -> (r: i64)
    ensures
        r == counted_down(c, millis as int),
{
    let spent: i128 = (millis as i128 * UNIT as i128) / (BASELINE_MILLISECONDS as i128);
    let left: i128 = c as i128 - spent;
    if left > 0 {
        left as i64
    } else {
        0
    }
}

/// The grid cell of a coordinate.
pub fn to_cell(v: i64) -> (r: u16)
    ensures
        r == cell(v as int),
{
    if v < 0 {
        0
    } else {
        let whole: i64 = v / UNIT;
        if whole > u16::MAX as i64 {
            u16::MAX
        } else {
            whole as u16
        }
    }
}

/// The magnitude of a value, widened.
pub fn magnitude_of(v: i64) -> (r: u128)
    ensures
        r == (if v >= 0 { v as int } else { -(v as int) }),
        r <= 0x8000_0000_0000_0000,
{
    if v >= 0 {
        v as u128
    } else {
        (-(v as i128)) as u128
    }
}

/// Squared length of a vector of two 64-bit components.
pub fn squared_length(x: i64, y: i64) -> (r: u128)
    ensures
        r == norm_sq(x as int, y as int),
{
    let a: u128 = magnitude_of(x);
    let b: u128 = magnitude_of(y);
    assert(a * a <= 0x4000_0000_0000_0000_0000_0000_0000_0000) by (nonlinear_arith)
        requires
            a <= 0x8000_0000_0000_0000,
    ;
    assert(b * b <= 0x4000_0000_0000_0000_0000_0000_0000_0000) by (nonlinear_arith)
        requires
            b <= 0x8000_0000_0000_0000,
    ;
    assert(a * a == x * x) by (nonlinear_arith)
        requires
            a == x || a == -x,
    ;
    assert(b * b == y * y) by (nonlinear_arith)
        requires
            b == y || b == -y,
    ;
    a * a + b * b
}

/// Square root rounded up.
pub fn square_root_up(n: u128) -> (s: u128)
    ensures
        s == ceil_sqrt(n as int),
        is_ceil_sqrt(n as int, s as int),
        s <= 0x1_0000_0000_0000_0000,
{
    let mut lo: u128 = 0;
    let mut hi: u128 = 0xffff_ffff_ffff_ffff;
    assert((hi + 1) * (hi + 1) == 0x1_0000_0000_0000_0000_0000_0000_0000_0000) by (nonlinear_arith)
        requires
            hi == 0xffff_ffff_ffff_ffff,
    ;
    while lo < hi
        invariant
            lo <= hi <= 0xffff_ffff_ffff_ffff,
            lo * lo <= n,
            n < (hi + 1) * (hi + 1),
        decreases hi - lo,
    {
        let mid: u128 = lo + (hi - lo + 1) / 2;
        assert(mid * mid <= 0xffff_ffff_ffff_ffff_ffff_ffff_ffff_ffff) by (nonlinear_arith)
            requires
                mid <= 0xffff_ffff_ffff_ffff,
        ;
        if mid * mid <= n {
            lo = mid;
        } else {
            hi = mid - 1;
        }
    }
    proof {
        if lo >= 1 {
            assert((lo - 1) * (lo - 1) < lo * lo) by (nonlinear_arith)
                requires
                    lo >= 1,
            ;
        }
        assert((lo + 1 - 1) * (lo + 1 - 1) == lo * lo);
    }
    assert(lo * lo <= 0xffff_ffff_ffff_ffff_ffff_ffff_ffff_ffff) by (nonlinear_arith)
        requires
            lo <= 0xffff_ffff_ffff_ffff,
    ;
    let s: u128 = if lo * lo == n {
        lo
    } else {
        lo + 1
    };
    proof {
        lemma_ceil_sqrt_is(n as int, s as int);
    }
    s
}

/// Shortens the vector `(x, y)` to length `max` where it is longer, keeping
/// its direction: both components are divided by the same length.
pub fn cap_length(v: Vector, max: i64) -> (r: Vector)
    requires
        0 < max <= 0xffff_ffff,
    ensures
        r == cap(v, max),
        speed_sq(r) <= max * max,
{
    let x: i64 = v.0;
    let y: i64 = v.1;
    let n: u128 = squared_length(x, y);
    let wide_limit: u128 = max as u128;
    assert(wide_limit * wide_limit <= 0xffff_ffff_ffff_ffff) by (nonlinear_arith)
        requires
            wide_limit <= 0xffff_ffff,
    ;
    let limit: u128 = wide_limit * wide_limit;
    proof {
        lemma_cap_within(v, max);
    }
    if n > limit {
        let s: u128 = square_root_up(n);
        assert(s > 0) by (nonlinear_arith)
            requires
                n > 0,
                n <= s * s,
        ;
        let divisor: i128 = s as i128;
        let wide_x: i128 = x as i128;
        let wide_y: i128 = y as i128;
        let wide_max: i128 = max as i128;
        assert(-0x8000_0000_0000_0000_0000_0000 <= wide_x * wide_max
            <= 0x8000_0000_0000_0000_0000_0000) by (nonlinear_arith)
            requires
                -0x8000_0000_0000_0000 <= wide_x <= 0x8000_0000_0000_0000,
                0 < wide_max <= 0xffff_ffff,
        ;
        assert(-0x8000_0000_0000_0000_0000_0000 <= wide_y * wide_max
            <= 0x8000_0000_0000_0000_0000_0000) by (nonlinear_arith)
            requires
                -0x8000_0000_0000_0000 <= wide_y <= 0x8000_0000_0000_0000,
                0 < wide_max <= 0xffff_ffff,
        ;
        let cx: i128 = (wide_x * wide_max) / divisor;
        let cy: i128 = (wide_y * wide_max) / divisor;
        (cx as i64, cy as i64)
    } else {
        (x, y)
    }
}

} // verus!
