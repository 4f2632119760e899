//! Proportional shares of an amount, rounded down, computed without
//! forming a product that could overflow.

use vstd::prelude::*;
use vstd::arithmetic::div_mod::{
    lemma_mod_bound,
    lemma_div_is_ordered, lemma_div_multiples_vanish, lemma_fundamental_div_mod,
    lemma_fundamental_div_mod_converse_div,
};

verus! {

/// `amount * num / den`, rounded down.
pub open spec fn spec_portion(amount: int, num: int, den: int) -> int {
    (amount * num) / den
}

proof fn lemma_portion_split(amount: int, num: int, den: int, q: int, r: int, t: int, u: int)
    requires
        den > 0,
        amount == den * q + r,
        r * num == den * t + u,
        0 <= u < den,
    ensures
        (amount * num) / den == q * num + t,
{
    assert(amount * num == (q * num + t) * den + u) by (nonlinear_arith)
        requires
            amount == den * q + r,
            r * num == den * t + u;
    lemma_fundamental_div_mod_converse_div(amount * num, den, q * num + t, u);
}

/// A rounded-down share of a non-negative amount lies between 0 and the amount.
pub proof fn lemma_portion_bounds(amount: int, num: int, den: int)
    requires
        amount >= 0,
        den > 0,
        0 <= num <= den,
    ensures
        0 <= spec_portion(amount, num, den) <= amount,
{
    assert(0 <= amount * num <= amount * den) by (nonlinear_arith)
        requires amount >= 0, 0 <= num <= den;
    lemma_div_is_ordered(amount * num, amount * den, den);
    lemma_div_is_ordered(0, amount * num, den);
    assert(amount * den == den * amount) by (nonlinear_arith);
    lemma_div_multiples_vanish(amount, den);
}

/// A rounded-down share is the largest whole number whose multiple of the
/// denominator does not exceed the scaled amount.
pub proof fn lemma_portion_floor(amount: int, num: int, den: int)
    requires
        den > 0,
    ensures
        spec_portion(amount, num, den) * den <= amount * num < (spec_portion(amount, num, den) + 1)
            * den,
{
    let x = amount * num;
    let q = x / den;
    lemma_fundamental_div_mod(x, den);
    lemma_mod_bound(x, den);
    assert(q * den == den * q && (q + 1) * den == den * q + den) by (nonlinear_arith);
}

/// The share of `amount` given by `num / den`, rounded down; it lies between
/// 0 and `amount`.
pub fn portion(amount: i128, num: u32, den: u32) -> (share: i128)
    requires
        amount >= 0,
        0 < den <= 10_000,
        num <= den,
    ensures
        share == spec_portion(amount as int, num as int, den as int),
        0 <= share <= amount,
{
    let d = den as i128;
    let n = num as i128;
    let q = amount / d;
    let r = amount % d;
    proof {
        lemma_fundamental_div_mod(amount as int, d as int);
        assert(q * n <= q * d) by (nonlinear_arith)
            requires q >= 0, n <= d;
        assert(0 <= r * n < 100_000_000) by (nonlinear_arith)
            requires 0 <= r < d, 0 <= n <= d, d <= 10_000;
        assert(q * n >= 0) by (nonlinear_arith)
            requires q >= 0, n >= 0;
    }
    let s = r * n;
    let t = s / d;
    proof {
        lemma_fundamental_div_mod(s as int, d as int);
        lemma_portion_split(amount as int, n as int, d as int, q as int, r as int, t as int, (s % d) as int);
        assert(amount * n <= amount * d) by (nonlinear_arith)
            requires amount >= 0, n <= d;
        lemma_div_is_ordered(amount * n, amount * d, d as int);
        lemma_div_multiples_vanish(amount as int, d as int);
        assert(amount * d == d * amount) by (nonlinear_arith);
        assert(0 <= amount * n) by (nonlinear_arith)
            requires amount >= 0, n >= 0;
        assert(t >= 0);
    }
    q * n + t
}

} // verus!
