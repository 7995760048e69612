//! Fixed-point arithmetic with six decimal places.
//!
//! A quantity `q` is stored as the integer `q * SCALE`. Products and
//! quotients round toward negative infinity. Every stored quantity is kept
//! within `[-LIMIT, LIMIT]`.

use vstd::prelude::*;

verus! {

/// The stored integer that stands for the quantity one.
pub const SCALE: i64 = 1_000_000;

/// The largest magnitude that a stored quantity may have.
pub const LIMIT: i64 = 1_000_000_000_000_000;

/// `v` brought into `[lo, hi]`.
pub open spec fn clamp(v: int, lo: int, hi: int) -> int {
    if v < lo {
        lo
    } else if v > hi {
        hi
    } else {
        v
    }
}

/// `v` brought into `[-LIMIT, LIMIT]`.
pub open spec fn saturate(v: int) -> int {
    clamp(v, -(LIMIT as int), LIMIT as int)
}

/// The fixed-point product of `a` and `b`, rounded down.
pub open spec fn scaled_mul(a: int, b: int) -> int {
    (a * b) / (SCALE as int)
}

/// The fixed-point quotient of `a` by `b`, rounded down.
pub open spec fn scaled_div(a: int, b: int) -> int
    recommends
        b > 0,
{
    (a * (SCALE as int)) / b
}

/// What is left of `v` after it has decayed for `dt` seconds at `rate` per
/// second, in one explicit Euler step: `v - v * dt * rate`.
pub open spec fn decayed(v: int, dt: int, rate: int) -> int {
    v - (v * dt * rate) / (SCALE as int)
}

/// The absolute value of `v`.
pub open spec fn magnitude(v: int) -> int {
    if v < 0 {
        -v
    } else {
        v
    }
}

/// A decay step whose rate times its duration is at most two never
/// increases the magnitude of a quantity; where it is at most one, the
/// quantity also keeps its sign.
pub proof fn lemma_decay_shrinks(v: int, dt: int, rate: int)
    requires
        0 <= dt * rate <= 2 * SCALE,
    ensures
        magnitude(decayed(v, dt, rate)) <= magnitude(v),
        dt * rate <= SCALE && v >= 0 ==> 0 <= decayed(v, dt, rate) <= v,
        dt * rate <= SCALE && v <= 0 ==> v <= decayed(v, dt, rate) <= 0,
{
    let k = dt * rate;
    let n = v * dt * rate;
    assert(n == v * k) by (nonlinear_arith)
        requires
            n == v * dt * rate,
            k == dt * rate,
    ;
    if v >= 0 {
        assert(0 <= n && n < (2 * v + 1) * 1_000_000 && (k <= 1_000_000 ==> n < (v + 1)
            * 1_000_000)) by (nonlinear_arith)
            requires
                n == v * k,
                v >= 0,
                0 <= k <= 2_000_000,
        ;
        lemma_div_between(n, SCALE as int, 0, 2 * v);
        if k <= SCALE {
            lemma_div_between(n, SCALE as int, 0, v);
        }
    } else {
        assert((2 * v) * 1_000_000 <= n && n < (0 + 1) * 1_000_000 && (k <= 1_000_000 ==> v
            * 1_000_000 <= n)) by (nonlinear_arith)
            requires
                n == v * k,
                v < 0,
                0 <= k <= 2_000_000,
        ;
        lemma_div_between(n, SCALE as int, 2 * v, 0);
        if k <= SCALE {
            lemma_div_between(n, SCALE as int, v, 0);
        }
    }
}

/// The bound within which the wide helpers below work.
pub open spec fn wide(v: int) -> bool {
    -0x4000_0000_0000_0000_0000_0000_0000_0000 <= v <= 0x4000_0000_0000_0000_0000_0000_0000_0000
}

/// Division by a positive number moves a value toward zero or leaves it,
/// and never past the next integer below.
pub proof fn lemma_div_bounds(a: int, b: int)
    by (nonlinear_arith)
    requires
        b > 0,
    ensures
        a >= 0 ==> 0 <= a / b <= a,
        a < 0 ==> a <= a / b < 0,
{
}

/// A quotient lies between two integers whose multiples of the divisor
/// enclose the dividend.
pub proof fn lemma_div_between(n: int, d: int, lo: int, hi: int)
    by (nonlinear_arith)
    requires
        d > 0,
        lo * d <= n,
        n < (hi + 1) * d,
    ensures
        lo <= n / d <= hi,
{
}

/// Scaling `a` by `p / q` and back by `q / p`, each time rounding down,
/// gives `a` again where the first step was exact, and otherwise falls
/// short of `a` by at most ten, provided `q <= 10 * p`.
pub proof fn lemma_scale_and_back(a: int, p: int, q: int)
    requires
        p > 0,
        q > 0,
        q <= 10 * p,
    ensures
        a - 10 <= (((a * p) / q) * q) / p <= a,
        (((a * p) / q) * q) / p == a <==> (a * p) % q == 0,
        q <= p ==> a - 1 <= (((a * p) / q) * q) / p,
{
    let m = (a * p) / q;
    let rem = (a * p) % q;
    let n = m * q;
    vstd::arithmetic::div_mod::lemma_fundamental_div_mod(a * p, q);
    vstd::arithmetic::div_mod::lemma_mod_bound(a * p, q);
    assert(n == a * p - rem) by (nonlinear_arith)
        requires
            a * p == q * m + rem,
            n == m * q,
    ;
    assert((a - 10) * p <= n && n < (a + 1) * p && (q <= p ==> (a - 1) * p <= n)) by (nonlinear_arith)
        requires
            n == a * p - rem,
            0 <= rem < q,
            q <= 10 * p,
            p > 0,
    ;
    lemma_div_between(n, p, a - 10, a);
    if q <= p {
        lemma_div_between(n, p, a - 1, a);
    }
    if rem == 0 {
        assert(a * p <= n) by (nonlinear_arith)
            requires
                n == a * p - rem,
                rem == 0,
        ;
        lemma_div_between(n, p, a, a);
    } else {
        assert(n < (a - 1 + 1) * p) by (nonlinear_arith)
            requires
                n == a * p - rem,
                rem > 0,
        ;
        lemma_div_between(n, p, a - 10, a - 1);
    }
}

/// `v` brought into `[lo, hi]`, which must not be empty.
pub fn clamp_wide(v: i128, lo: i64, hi: i64) -> (r: i64)
    requires
        lo <= hi,
    ensures
        r == clamp(v as int, lo as int, hi as int),
{
    if v < lo as i128 {
        lo
    } else if v > hi as i128 {
        hi
    } else {
        v as i64
    }
}

/// `v` brought into `[-LIMIT, LIMIT]`.
pub fn saturate_wide(v: i128) -> (r: i64)
    ensures
        r == saturate(v as int),
        -LIMIT <= r <= LIMIT,
{
    clamp_wide(v, -LIMIT, LIMIT)
}

/// The quotient of `a` by `b`, rounded down. `b` must be positive, and `a`
/// of a magnitude of at most 2^126.
pub fn floor_div(a: i128, b: i128) -> (q: i128)
    requires
        b > 0,
        wide(a as int),
    ensures
        q == (a as int) / (b as int),
        a >= 0 ==> 0 <= q <= a,
        a < 0 ==> a <= q < 0,
{
    proof {
        lemma_div_bounds(a as int, b as int);
    }
    if a >= 0 {
        a / b
    } else {
        let n: i128 = -a;
        let q0: i128 = n / b;
        let r0: i128 = n % b;
        proof {
            let bi = b as int;
            let ni = n as int;
            assert(ni == bi * (ni / bi) + ni % bi && 0 <= ni % bi < bi) by (nonlinear_arith)
                requires
                    bi > 0,
            ;
            let q1: int = if r0 == 0 { -q0 } else { -q0 - 1 };
            let r1: int = if r0 == 0 { 0 } else { b - r0 };
            assert(a == q1 * bi + r1) by (nonlinear_arith)
                requires
                    ni == bi * (q0 as int) + r0,
                    a == -ni,
                    q1 == (if r0 == 0 { -q0 } else { -q0 - 1 }),
                    r1 == (if r0 == 0 { 0 } else { bi - r0 }),
            ;
            vstd::arithmetic::div_mod::lemma_fundamental_div_mod_converse(a as int, bi, q1, r1);
        }
        if r0 == 0 {
            -q0
        } else {
            -q0 - 1
        }
    }
}

/// The fixed-point product of `a` and `b`, rounded down. The magnitude of
/// `a` must be at most 2^64, that of `b` at most 2^60.
pub fn mul_wide(a: i128, b: i64) -> (r: i128)
    requires
        -0x1_0000_0000_0000_0000 <= a <= 0x1_0000_0000_0000_0000,
        -0x1000_0000_0000_0000 <= b <= 0x1000_0000_0000_0000,
    ensures
        r == scaled_mul(a as int, b as int),
        wide(r as int),
{
    assert(-0x1000_0000_0000_0000_0000_0000_0000_0000 <= a * b
        <= 0x1000_0000_0000_0000_0000_0000_0000_0000) by (nonlinear_arith)
        requires
            -0x1_0000_0000_0000_0000 <= a <= 0x1_0000_0000_0000_0000,
            -0x1000_0000_0000_0000 <= b <= 0x1000_0000_0000_0000,
    ;
    let p: i128 = a * (b as i128);
    floor_div(p, 1_000_000)
}

/// The fixed-point quotient of `a` by `b`, rounded down. `b` must be
/// positive, and `a` of a magnitude of at most 2^80.
pub fn div_wide(a: i128, b: i64) -> (r: i128)
    requires
        b > 0,
        -0x1_0000_0000_0000_0000_0000 <= a <= 0x1_0000_0000_0000_0000_0000,
    ensures
        r == scaled_div(a as int, b as int),
        a >= 0 ==> 0 <= r <= a * 1_000_000,
        a < 0 ==> a * 1_000_000 <= r < 0,
{
    let p: i128 = a * 1_000_000;
    floor_div(p, b as i128)
}

/// One Euler step of exponential decay: `v - v * dt * rate`, where the part
/// taken away is rounded down and the result is saturated. `v` must be
/// within the limit.
pub fn decay(v: i64, dt: i64, rate: u8) -> (r: i64)
    requires
        -LIMIT <= v <= LIMIT,
    ensures
        r == saturate(decayed(v as int, dt as int, rate as int)),
        -LIMIT <= r <= LIMIT,
{
    assert(-0x8000_0000_0000_0000 * 1_000_000_000_000_000 <= v * dt <= 0x8000_0000_0000_0000
        * 1_000_000_000_000_000) by (nonlinear_arith)
        requires
            -1_000_000_000_000_000 <= v <= 1_000_000_000_000_000,
            -0x8000_0000_0000_0000 <= dt <= 0x8000_0000_0000_0000,
    ;
    let p0: i128 = (v as i128) * (dt as i128);
    assert(-0x8000_0000_0000_0000 * 1_000_000_000_000_000 * 255 <= p0 * rate
        <= 0x8000_0000_0000_0000 * 1_000_000_000_000_000 * 255) by (nonlinear_arith)
        requires
            -0x8000_0000_0000_0000 * 1_000_000_000_000_000 <= p0 <= 0x8000_0000_0000_0000
                * 1_000_000_000_000_000,
            0 <= rate <= 255,
    ;
    let p: i128 = p0 * (rate as i128);
    let taken: i128 = floor_div(p, 1_000_000);
    saturate_wide(v as i128 - taken)
}

} // verus!
