//! Facts about integer division that the curve proofs share.

use vstd::arithmetic::div_mod::{lemma_fundamental_div_mod, lemma_fundamental_div_mod_converse};
use vstd::prelude::*;

verus! {

/// The smallest integer `c` with `c * b >= a`, for a positive divisor.
pub open spec fn ceil_div(a: int, b: int) -> int {
    (a + b - 1) / b
}

/// A ceiling quotient times the divisor covers the dividend and overshoots
/// it by less than one divisor.
pub proof fn lemma_ceil_div_bounds(a: int, b: int)
    requires
        0 <= a,
        0 < b,
    ensures
        a <= ceil_div(a, b) * b < a + b,
        0 <= ceil_div(a, b),
        a > 0 ==> ceil_div(a, b) > 0,
{
    let c = ceil_div(a, b);
    lemma_fundamental_div_mod(a + b - 1, b);
    assert(b * c == c * b) by (nonlinear_arith);
    assert(0 <= (a + b - 1) % b < b) by (nonlinear_arith)
        requires
            0 < b,
    ;
    assert(c >= 0 && (a > 0 ==> c > 0)) by (nonlinear_arith)
        requires
            a <= c * b < a + b,
            0 < b,
            0 <= a,
    ;
}

/// A ceiling quotient is the floor quotient where the division is exact and
/// one more where it is not.
pub proof fn lemma_ceil_div_by_cases(a: int, b: int)
    requires
        0 <= a,
        0 < b,
    ensures
        a % b == 0 ==> ceil_div(a, b) == a / b,
        a % b != 0 ==> ceil_div(a, b) == a / b + 1,
{
    lemma_fundamental_div_mod(a, b);
    assert(0 <= a % b < b) by (nonlinear_arith)
        requires
            0 < b,
    ;
    let q = a / b;
    if a % b == 0 {
        assert(a + b - 1 == q * b + (b - 1)) by (nonlinear_arith)
            requires
                a == b * q,
        ;
        lemma_fundamental_div_mod_converse(a + b - 1, b, q, b - 1);
    } else {
        assert(a + b - 1 == (q + 1) * b + (a % b - 1)) by (nonlinear_arith)
            requires
                a == b * q + a % b,
        ;
        lemma_fundamental_div_mod_converse(a + b - 1, b, q + 1, a % b - 1);
    }
}

/// The ceiling quotient is the only integer whose product with the divisor
/// lies in `[a, a + b)`.
pub proof fn lemma_ceil_div_unique(a: int, b: int, c: int)
    requires
        0 <= a,
        0 < b,
        a <= c * b < a + b,
    ensures
        c == ceil_div(a, b),
{
    lemma_ceil_div_bounds(a, b);
    let d = ceil_div(a, b);
    assert(c == d) by (nonlinear_arith)
        requires
            0 < b,
            a <= c * b < a + b,
            a <= d * b < a + b,
    ;
}

/// A ceiling quotient does not grow when the divisor grows.
pub proof fn lemma_ceil_div_antitone(a: int, b1: int, b2: int)
    requires
        0 <= a,
        0 < b1 <= b2,
    ensures
        ceil_div(a, b2) <= ceil_div(a, b1),
{
    lemma_ceil_div_bounds(a, b1);
    lemma_ceil_div_bounds(a, b2);
    let c1 = ceil_div(a, b1);
    let c2 = ceil_div(a, b2);
    assert(c2 <= c1) by (nonlinear_arith)
        requires
            0 < b1 <= b2,
            0 <= a,
            0 <= c1,
            a <= c1 * b1,
            c2 * b2 < a + b2,
    ;
}

/// A floor quotient does not shrink when the dividend grows.
pub proof fn lemma_div_monotone(a1: int, a2: int, b: int)
    requires
        0 <= a1 <= a2,
        0 < b,
    ensures
        a1 / b <= a2 / b,
{
    vstd::arithmetic::div_mod::lemma_div_is_ordered(a1, a2, b);
}

} // verus!
