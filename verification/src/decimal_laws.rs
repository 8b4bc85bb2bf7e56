//! Facts of arithmetic on decimal values.

use crate::decimal::{
    checked_sum, common_scale, exact_sum, half_even, half_even_magnitude, pow10, sum_is_exact,
    DecimalValue, MAX_SCALE,
};
use vstd::arithmetic::div_mod::{lemma_fundamental_div_mod, lemma_mod_bound};
use vstd::prelude::*;

verus! {

/// A power of ten is positive.
pub proof fn lemma_pow10_positive(n: nat)
    ensures
        pow10(n) > 0,
    decreases n,
{
    if n > 0 {
        lemma_pow10_positive((n - 1) as nat);
    }
}

/// Powers of ten multiply as their exponents add.
pub proof fn lemma_pow10_add(a: nat, b: nat)
    ensures
        pow10(a + b) == pow10(a) * pow10(b),
    decreases a,
{
    if a == 0 {
        assert(pow10(0) == 1);
        assert(pow10(0 + b) == 1 * pow10(b));
    } else {
        lemma_pow10_add((a - 1) as nat, b);
        let x = pow10((a - 1) as nat) as int;
        let y = pow10(b) as int;
        assert(pow10(a + b) == 10 * pow10((a - 1 + b) as nat));
        assert(10 * (x * y) == (10 * x) * y) by (nonlinear_arith);
    }
}

/// The units of a number stay as they are where the number is written at a
/// larger scale.
pub proof fn lemma_aligned_units(v: DecimalValue, scale: nat)
    requires
        v.scale <= scale <= MAX_SCALE,
    ensures
        v.aligned(scale) * pow10((MAX_SCALE - scale) as nat) == v.units(),
{
    let up = (scale - v.scale) as nat;
    let rest = (MAX_SCALE - scale) as nat;
    lemma_pow10_add(up, rest);
    let m = v.mantissa;
    let x = pow10(up) as int;
    let y = pow10(rest) as int;
    assert((m * x) * y == m * (x * y)) by (nonlinear_arith);
    assert(up + rest == (MAX_SCALE - v.scale) as nat);
}

/// An exact sum is the sum: its units are the units of the one number and
/// those of the other.
pub proof fn lemma_exact_sum_units(a: DecimalValue, b: DecimalValue)
    requires
        a.scale <= MAX_SCALE,
        b.scale <= MAX_SCALE,
    ensures
        exact_sum(a, b).units() == a.units() + b.units(),
{
    let s = common_scale(a, b);
    lemma_aligned_units(a, s);
    lemma_aligned_units(b, s);
    let p = pow10((MAX_SCALE - s) as nat) as int;
    let x = a.aligned(s);
    let y = b.aligned(s);
    assert((x + y) * p == x * p + y * p) by (nonlinear_arith);
    assert(exact_sum(a, b).aligned(MAX_SCALE as nat) == (x + y) * pow10((MAX_SCALE - s) as nat));
}

/// A checked sum that involves no rounding is the sum: where an operand is
/// zero, or both operands and the sum fit at the larger scale, the units add.
pub proof fn lemma_checked_sum_units(a: DecimalValue, b: DecimalValue)
    requires
        a.scale <= MAX_SCALE,
        b.scale <= MAX_SCALE,
        a.mantissa == 0 || b.mantissa == 0 || sum_is_exact(a, b),
    ensures
        checked_sum(a, b) matches Some(sum) && sum.units() == a.units() + b.units(),
{
    if a.mantissa == 0 {
        assert(a.units() == 0) by (nonlinear_arith)
            requires
                a.units() == a.mantissa * pow10((MAX_SCALE - a.scale) as nat),
                a.mantissa == 0,
        ;
    } else if b.mantissa == 0 {
        assert(b.units() == 0) by (nonlinear_arith)
            requires
                b.units() == b.mantissa * pow10((MAX_SCALE - b.scale) as nat),
                b.mantissa == 0,
        ;
    } else {
        lemma_exact_sum_units(a, b);
    }
}

/// Of two numbers the one with fewer units is the smaller: its mantissa,
/// brought to the scale of the other, is the smaller one.
pub proof fn lemma_units_order(a: DecimalValue, b: DecimalValue)
    requires
        a.scale <= MAX_SCALE,
        b.scale <= MAX_SCALE,
        a.units() <= b.units(),
    ensures
        a.mantissa * pow10(b.scale) <= b.mantissa * pow10(a.scale),
{
    let pa = pow10(a.scale) as int;
    let pb = pow10(b.scale) as int;
    let ra = pow10((MAX_SCALE - a.scale) as nat) as int;
    let rb = pow10((MAX_SCALE - b.scale) as nat) as int;
    let top = pow10(MAX_SCALE as nat) as int;
    lemma_pow10_positive(a.scale);
    lemma_pow10_positive(b.scale);
    lemma_pow10_positive(MAX_SCALE as nat);
    lemma_pow10_add((MAX_SCALE - a.scale) as nat, a.scale);
    lemma_pow10_add((MAX_SCALE - b.scale) as nat, b.scale);
    assert(ra * pa == top);
    assert(rb * pb == top);
    let x = a.mantissa;
    let y = b.mantissa;
    assert((x * ra) * (pa * pb) == (x * pb) * top) by (nonlinear_arith)
        requires
            ra * pa == top,
    ;
    assert((y * rb) * (pa * pb) == (y * pa) * top) by (nonlinear_arith)
        requires
            rb * pb == top,
    ;
    assert((x * ra) * (pa * pb) <= (y * rb) * (pa * pb)) by (nonlinear_arith)
        requires
            x * ra <= y * rb,
            pa > 0,
            pb > 0,
    ;
    assert(x * pb <= y * pa) by (nonlinear_arith)
        requires
            (x * pb) * top <= (y * pa) * top,
            top > 0,
    ;
}

/// Zero is rounded to zero.
pub proof fn lemma_half_even_of_zero(digits: nat)
    ensures
        half_even(0, digits) == 0,
{
    lemma_half_even_near(0, digits);
    lemma_pow10_positive(digits);
    let p = pow10(digits) as int;
    let d = half_even(0, digits);
    assert(d == 0) by (nonlinear_arith)
        requires
            -p <= 2 * (d * p) <= p,
            p > 0,
    ;
}

/// The rounded quotient of a magnitude lies within half a unit of the exact
/// quotient, and is even where it lies exactly half a unit away.
pub proof fn lemma_half_even_magnitude_near(magnitude: int, digits: nat)
    requires
        magnitude >= 0,
    ensures
        ({
            let p = pow10(digits) as int;
            let d = half_even_magnitude(magnitude, digits);
            &&& 2 * magnitude - p <= 2 * (d * p) <= 2 * magnitude + p
            &&& 2 * (d * p) == 2 * magnitude + p ==> d % 2 == 0
            &&& 2 * (d * p) == 2 * magnitude - p ==> d % 2 == 0
            &&& d >= 0
        }),
{
    let p = pow10(digits) as int;
    lemma_pow10_positive(digits);
    let q = magnitude / p;
    let r = magnitude % p;
    lemma_fundamental_div_mod(magnitude, p);
    lemma_mod_bound(magnitude, p);
    assert(magnitude == p * q + r);
    assert(q >= 0) by (nonlinear_arith)
        requires
            magnitude == p * q + r,
            0 <= r < p,
            magnitude >= 0,
            p > 0,
    ;
    let d = half_even_magnitude(magnitude, digits);
    if d == q + 1 {
        assert((q + 1) * p == p * q + p) by (nonlinear_arith);
    } else {
        assert(d == q);
        assert(q * p == p * q) by (nonlinear_arith);
    }
}

/// The rounded quotient lies within half a unit of the exact quotient, and is
/// even where it lies exactly half a unit away.
pub proof fn lemma_half_even_near(mantissa: int, digits: nat)
    ensures
        ({
            let p = pow10(digits) as int;
            let d = half_even(mantissa, digits);
            &&& 2 * mantissa - p <= 2 * (d * p) <= 2 * mantissa + p
            &&& 2 * (d * p) == 2 * mantissa + p ==> d % 2 == 0
            &&& 2 * (d * p) == 2 * mantissa - p ==> d % 2 == 0
        }),
{
    let p = pow10(digits) as int;
    if mantissa < 0 {
        lemma_half_even_magnitude_near(-mantissa, digits);
        let e = half_even_magnitude(-mantissa, digits);
        assert((-e) * p == -(e * p)) by (nonlinear_arith);
        assert(e % 2 == 0 ==> (-e) % 2 == 0);
    } else {
        lemma_half_even_magnitude_near(mantissa, digits);
    }
}

/// Rounding keeps the order: of two quotients the smaller is not rounded to
/// the larger whole number.
pub proof fn lemma_half_even_monotonic(m1: int, k1: nat, m2: int, k2: nat)
    requires
        m1 * pow10(k2) <= m2 * pow10(k1),
    ensures
        half_even(m1, k1) <= half_even(m2, k2),
{
    let p1 = pow10(k1) as int;
    let p2 = pow10(k2) as int;
    lemma_pow10_positive(k1);
    lemma_pow10_positive(k2);
    lemma_half_even_near(m1, k1);
    lemma_half_even_near(m2, k2);
    let d1 = half_even(m1, k1);
    let d2 = half_even(m2, k2);
    if d1 > d2 {
        let big = p1 * p2;
        assert(big > 0) by (nonlinear_arith)
            requires
                p1 > 0,
                p2 > 0,
                big == p1 * p2,
        ;
        // 2 d1 P >= 2 m1 p2 - P and 2 d2 P <= 2 m2 p1 + P
        assert(2 * (d1 * big) >= 2 * (m1 * p2) - big) by (nonlinear_arith)
            requires
                2 * m1 - p1 <= 2 * (d1 * p1),
                p2 > 0,
                big == p1 * p2,
        ;
        assert(2 * (d1 * big) <= 2 * (m1 * p2) + big) by (nonlinear_arith)
            requires
                2 * (d1 * p1) <= 2 * m1 + p1,
                p2 > 0,
                big == p1 * p2,
        ;
        assert(2 * (d2 * big) >= 2 * (m2 * p1) - big) by (nonlinear_arith)
            requires
                2 * m2 - p2 <= 2 * (d2 * p2),
                p1 > 0,
                big == p1 * p2,
        ;
        // so 2 d1 P <= 2 m2 p1 + P <= 2 d2 P + 2 P
        assert(d1 <= d2 + 1) by (nonlinear_arith)
            requires
                2 * (d1 * big) <= 2 * (m1 * p2) + big,
                m1 * p2 <= m2 * p1,
                2 * (d2 * big) >= 2 * (m2 * p1) - big,
                big > 0,
        ;
        assert(d1 == d2 + 1);
        // then every inequality is an equality
        assert(2 * (d1 * big) == 2 * (m1 * p2) + big && 2 * (d2 * big) == 2 * (m2 * p1) - big)
            by (nonlinear_arith)
            requires
                2 * (d1 * big) <= 2 * (m1 * p2) + big,
                m1 * p2 <= m2 * p1,
                2 * (d2 * big) >= 2 * (m2 * p1) - big,
                d1 == d2 + 1,
                big > 0,
        ;
        assert(2 * (d1 * p1) == 2 * m1 + p1) by (nonlinear_arith)
            requires
                2 * (d1 * big) == 2 * (m1 * p2) + big,
                big == p1 * p2,
                p2 > 0,
        ;
        assert(2 * (d2 * p2) == 2 * m2 - p2) by (nonlinear_arith)
            requires
                2 * (d2 * big) == 2 * (m2 * p1) - big,
                big == p1 * p2,
                p1 > 0,
        ;
        assert(d1 % 2 == 0);
        assert(d2 % 2 == 0);
        assert(false);
    }
}

} // verus!
