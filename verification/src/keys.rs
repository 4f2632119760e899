//! Packing two 64-bit identifiers into one 128-bit map key.

use vstd::prelude::*;

verus! {

/// An account or contract identifier.
pub type Address = u64;

/// Width of the low half of a packed key.
pub open spec fn half() -> int {
    0x1_0000_0000_0000_0000
}

/// The packed key of the pair `(hi, lo)`.
pub open spec fn spec_pair_key(hi: u64, lo: u64) -> u128 {
    (hi * half() + lo) as u128
}

/// Packs `(hi, lo)` into a single key; distinct pairs give distinct keys.
pub fn pair_key(hi: u64, lo: u64) -> (k: u128)
    ensures
        k == spec_pair_key(hi, lo),
{
    (hi as u128) * 0x1_0000_0000_0000_0000u128 + (lo as u128)
}

/// Distinct pairs never share a packed key.
pub proof fn lemma_pair_key_injective(a: u64, b: u64, c: u64, d: u64)
    ensures
        spec_pair_key(a, b) == spec_pair_key(c, d) <==> (a == c && b == d),
{
}

} // verus!
