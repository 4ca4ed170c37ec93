//! Rounding of a ratio of integers to the nearest integer.
//!
//! Every pixel quantity of the crate is a ratio that is rounded exactly
//! once. `round_div` is that rounding: the nearest integer, and where the
//! ratio lies exactly halfway between two integers, the one nearer zero.

use vstd::arithmetic::div_mod::lemma_fundamental_div_mod;
use vstd::math::abs;
use vstd::prelude::*;

verus! {

/// `round_div` on a numerator that is not negative.
pub open spec fn round_div_nonneg(n: int, d: int) -> int
    recommends
        n >= 0,
        d > 0,
{
    if 2 * (n % d) > d {
        n / d + 1
    } else {
        n / d
    }
}

/// The integer nearest to `n / d`, for `d > 0`. A ratio exactly halfway
/// between two integers goes to the one nearer zero.
pub open spec fn round_div(n: int, d: int) -> int
    recommends
        d > 0,
{
    if n >= 0 {
        round_div_nonneg(n, d)
    } else {
        -round_div_nonneg(-n, d)
    }
}

/// `z` is the rounding of `n / d`: it is strictly nearer than half a unit,
/// or exactly half a unit away on the side of zero.
pub open spec fn rounds_to(n: int, d: int, z: int) -> bool {
    ||| 2 * abs(n - d * z) < d
    ||| (2 * abs(n - d * z) == d && abs(d * z) < abs(n))
}

proof fn lemma_rounds_to_nonneg(n: int, d: int, z: int)
    requires
        n >= 0,
        d > 0,
    ensures
        rounds_to(n, d, z) <==> round_div_nonneg(n, d) == z,
{
    let q = n / d;
    let r = n % d;
    lemma_fundamental_div_mod(n, d);
    assert(0 <= r < d);
    assert(n == d * q + r);
    assert(q >= 0) by (nonlinear_arith)
        requires
            d > 0,
            0 <= r < d,
            d * q + r >= 0,
    ;
    let t = q - z;
    assert(n - d * z == d * t + r) by (nonlinear_arith)
        requires
            n == d * q + r,
            t == q - z,
    ;
    if t >= 1 {
        assert(d * t >= d) by (nonlinear_arith)
            requires
                d > 0,
                t >= 1,
        ;
    } else if t <= -2 {
        assert(d * t <= -2 * d) by (nonlinear_arith)
            requires
                d > 0,
                t <= -2,
        ;
    } else if t == 0 {
        assert(d * t == 0) by (nonlinear_arith)
            requires
                t == 0,
        ;
        assert(z == q);
        assert(d * z >= 0) by (nonlinear_arith)
            requires
                d > 0,
                z >= 0,
        ;
    } else {
        assert(t == -1);
        assert(d * t == -d) by (nonlinear_arith)
            requires
                t == -1,
        ;
        assert(z == q + 1);
        assert(d * z == d * q + d) by (nonlinear_arith)
            requires
                z == q + 1,
        ;
        assert(d * q >= 0) by (nonlinear_arith)
            requires
                d > 0,
                q >= 0,
        ;
    }
}

/// `round_div(n, d)` is the one integer that `rounds_to` accepts.
pub proof fn lemma_round_div_characterised(n: int, d: int, z: int)
    requires
        d > 0,
    ensures
        rounds_to(n, d, z) <==> round_div(n, d) == z,
{
    if n >= 0 {
        lemma_rounds_to_nonneg(n, d, z);
    } else {
        lemma_rounds_to_nonneg(-n, d, -z);
        assert(d * (-z) == -(d * z)) by (nonlinear_arith);
        assert(-n - d * (-z) == -(n - d * z));
    }
}

/// No integer is nearer to `n / d` than `round_div(n, d)`, which is at most
/// half a unit away.
pub proof fn lemma_round_div_nearest(n: int, d: int, z: int)
    requires
        d > 0,
    ensures
        2 * abs(n - d * round_div(n, d)) <= d,
        abs(n - d * round_div(n, d)) <= abs(n - d * z),
{
    let r = round_div(n, d);
    lemma_round_div_characterised(n, d, r);
    let t = r - z;
    assert(n - d * z == (n - d * r) + d * t) by (nonlinear_arith)
        requires
            t == r - z,
    ;
    if t >= 1 {
        assert(d * t >= d) by (nonlinear_arith)
            requires
                d > 0,
                t >= 1,
        ;
    } else if t <= -1 {
        assert(d * t <= -d) by (nonlinear_arith)
            requires
                d > 0,
                t <= -1,
        ;
    } else {
        assert(d * t == 0) by (nonlinear_arith)
            requires
                t == 0,
        ;
    }
}

/// Where two integers are equally near to `n / d`, `round_div(n, d)` is the
/// one nearer zero.
pub proof fn lemma_round_div_tie_toward_zero(n: int, d: int, z: int)
    requires
        d > 0,
        z != round_div(n, d),
        abs(n - d * z) == abs(n - d * round_div(n, d)),
    ensures
        abs(round_div(n, d)) < abs(z),
{
    let r = round_div(n, d);
    lemma_round_div_characterised(n, d, r);
    lemma_round_div_characterised(n, d, z);
    // Both are half a unit away, so they are neighbours around n / d.
    assert(2 * abs(n - d * r) == d);
    assert(abs(d * r) < abs(n));
    assert(abs(d * z) >= abs(n));
    lemma_abs_scaled(d, r);
    lemma_abs_scaled(d, z);
    assert(abs(r) < abs(z)) by (nonlinear_arith)
        requires
            d > 0,
            d * abs(r) < d * abs(z),
    ;
}

/// A positive factor moves out of an absolute value.
pub proof fn lemma_abs_scaled(d: int, x: int)
    requires
        d > 0,
    ensures
        abs(d * x) == d * abs(x),
{
    if x >= 0 {
        assert(d * x >= 0) by (nonlinear_arith)
            requires
                d > 0,
                x >= 0,
        ;
    } else {
        assert(d * x < 0) by (nonlinear_arith)
            requires
                d > 0,
                x < 0,
        ;
        assert(d * (-x) == -(d * x)) by (nonlinear_arith);
    }
}

/// Rounding depends on the ratio alone: two fractions of equal value round
/// to the same integer.
pub proof fn lemma_round_div_same_ratio(n1: int, d1: int, n2: int, d2: int)
    requires
        d1 > 0,
        d2 > 0,
        n1 * d2 == n2 * d1,
    ensures
        round_div(n1, d1) == round_div(n2, d2),
{
    let z = round_div(n1, d1);
    lemma_round_div_characterised(n1, d1, z);
    let e1 = n1 - d1 * z;
    let e2 = n2 - d2 * z;
    assert(d1 * e2 == d2 * e1) by (nonlinear_arith)
        requires
            n1 * d2 == n2 * d1,
            e1 == n1 - d1 * z,
            e2 == n2 - d2 * z,
    ;
    lemma_abs_scaled(d1, e2);
    lemma_abs_scaled(d2, e1);
    let a1 = abs(e1) as int;
    let a2 = abs(e2) as int;
    assert(d1 * a2 == d2 * a1);
    if 2 * a1 < d1 {
        assert(2 * a2 < d2) by (nonlinear_arith)
            requires
                d1 > 0,
                d2 > 0,
                a1 >= 0,
                a2 >= 0,
                d1 * a2 == d2 * a1,
                2 * a1 < d1,
        ;
    } else {
        assert(2 * a1 == d1);
        assert(2 * a2 == d2) by (nonlinear_arith)
            requires
                d1 > 0,
                d2 > 0,
                d1 * a2 == d2 * a1,
                2 * a1 == d1,
        ;
        lemma_abs_scaled(d1, z);
        lemma_abs_scaled(d2, z);
        lemma_abs_scaled(d2, n1);
        lemma_abs_scaled(d1, n2);
        let az = abs(z) as int;
        let an1 = abs(n1) as int;
        let an2 = abs(n2) as int;
        assert(d2 * n1 == d1 * n2) by (nonlinear_arith)
            requires
                n1 * d2 == n2 * d1,
        ;
        assert(d2 * an1 == d1 * an2);
        assert(d2 * az < an2) by (nonlinear_arith)
            requires
                d1 > 0,
                d2 > 0,
                d1 * az < an1,
                d2 * an1 == d1 * an2,
        ;
    }
    lemma_round_div_characterised(n2, d2, z);
}

/// A common positive factor of numerator and denominator does not change
/// the rounding.
pub proof fn lemma_round_div_cancel(n: int, d: int, c: int)
    requires
        d > 0,
        c > 0,
    ensures
        round_div(c * n, c * d) == round_div(n, d),
{
    assert(c * d > 0) by (nonlinear_arith)
        requires
            c > 0,
            d > 0,
    ;
    assert((c * n) * d == n * (c * d)) by (nonlinear_arith);
    lemma_round_div_same_ratio(c * n, c * d, n, d);
}

/// Rounding keeps the order of two ratios over one denominator.
pub proof fn lemma_round_div_monotonic(n1: int, n2: int, d: int)
    requires
        d > 0,
        n1 <= n2,
    ensures
        round_div(n1, d) <= round_div(n2, d),
{
    let z1 = round_div(n1, d);
    let z2 = round_div(n2, d);
    lemma_round_div_characterised(n1, d, z1);
    lemma_round_div_characterised(n2, d, z2);
    if z1 > z2 {
        let t = z1 - z2;
        assert(d * z1 == d * z2 + d * t) by (nonlinear_arith)
            requires
                t == z1 - z2,
        ;
        assert(d * t >= d) by (nonlinear_arith)
            requires
                d > 0,
                t >= 1,
        ;
        // n1 is at most half a unit below z1, n2 at most half a unit above z2.
        assert(2 * (d * z1 - n1) <= d);
        assert(2 * (n2 - d * z2) <= d);
        assert(n1 == n2);
    }
}

/// An integer ratio rounds to itself.
pub proof fn lemma_round_div_exact(z: int, d: int)
    requires
        d > 0,
    ensures
        round_div(d * z, d) == z,
{
    assert(d * z - d * z == 0);
    lemma_round_div_characterised(d * z, d, z);
}

/// The rounding of `numer / denom`.
pub(crate) fn round_quotient(numer: u128, denom: u128) -> (rounded: u128)
    requires
        denom > 0,
    ensures
        rounded == round_div(numer as int, denom as int),
{
    let quotient: u128 = numer / denom;
    let remainder: u128 = numer % denom;
    proof {
        lemma_fundamental_div_mod(numer as int, denom as int);
    }
    if remainder > denom - remainder {
        assert(denom >= 2);
        assert(quotient < u128::MAX) by (nonlinear_arith)
            requires
                numer == denom * quotient + remainder,
                remainder >= 0,
                denom >= 2,
                numer <= u128::MAX,
                quotient >= 0,
        ;
        quotient + 1
    } else {
        quotient
    }
}

} // verus!
