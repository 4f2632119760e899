//! Vote tallies and the approval quorum.

use vstd::prelude::*;

verus! {

/// Basis points in one whole (100%).
pub const BPS_DENOMINATOR: u32 = 10_000;

/// A proposal passes when votes were cast and the approving share of all cast
/// weight, in basis points, reaches `quorum_bps`.
pub open spec fn spec_meets_quorum(approve: int, total: int, quorum_bps: int) -> bool {
    total > 0 && approve * 10_000 >= quorum_bps * total
}

proof fn lemma_split_product(total: int, k: int, r: int, q: int)
    by (nonlinear_arith)
    requires
        total == 10_000 * k + r,
    ensures
        q * total == q * k * 10_000 + q * r,
{
}

proof fn lemma_small_product(q: int, r: int)
    by (nonlinear_arith)
    requires
        0 <= q <= 10_000,
        0 <= r < 10_000,
    ensures
        0 <= q * r < 100_000_000,
{
}

proof fn lemma_mul_mono(a: int, b: int, q: int)
    by (nonlinear_arith)
    requires
        0 <= q,
        a <= b,
    ensures
        q * a <= q * b,
{
}

/// Decides `spec_meets_quorum` exactly, for any tallies that fit in a `u128`,
/// without forming a product that could overflow.
pub fn meets_quorum(approve: u128, total: u128, quorum_bps: u32) -> (passed: bool)
    requires
        approve <= total,
        quorum_bps <= BPS_DENOMINATOR,
    ensures
        passed == spec_meets_quorum(approve as int, total as int, quorum_bps as int),
{
    if total == 0 {
        return false;
    }
    let q = quorum_bps as u128;
    let k = total / 10_000;
    let r = total % 10_000;
    proof {
        lemma_split_product(total as int, k as int, r as int, q as int);
        lemma_small_product(q as int, r as int);
        lemma_mul_mono(k as int, total as int, q as int);
        assert(q * k <= 10_000 * k) by (nonlinear_arith)
            requires q <= 10_000, k >= 0;
    }
    // q * total == base * 10_000 + q * r, with base <= total.
    let base = q * k;
    if approve < base {
        // approve * 10_000 <= (base - 1) * 10_000 < base * 10_000 <= q * total
        proof {
            assert(approve * 10_000 < base * 10_000) by (nonlinear_arith)
                requires approve < base;
        }
        false
    } else {
        let d = approve - base;
        // approve * 10_000 >= q * total  <==>  d * 10_000 >= q * r
        if d >= 10_000 {
            proof {
                assert(d * 10_000 >= 100_000_000) by (nonlinear_arith)
                    requires d >= 10_000;
            }
            true
        } else {
            d * 10_000 >= q * r
        }
    }
}

} // verus!
