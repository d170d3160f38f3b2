//! Composite storage keys.
//!
//! Several components key durable entries by a pair of identifiers (a
//! player and a resource kind, or a star and a resource kind).  The pair
//! is packed into a single `u128`, which keeps every table a flat map
//! with an integer key.  Packing is injective, so distinct pairs never
//! collide.

use vstd::prelude::*;

verus! {

/// One more than `u64::MAX`: the weight of the first pair component.
pub const PAIR_RADIX: u128 = 0x1_0000_0000_0000_0000;

/// The composite key that stands for the pair `(hi, lo)`.
pub open spec fn pair_key(hi: u64, lo: u64) -> u128 {
    (hi as u128 * PAIR_RADIX + lo as u128) as u128
}

/// Packing a pair never exceeds the `u128` range, so the truncating cast
/// in [`pair_key`] is the identity.
pub proof fn lemma_pair_key_fits(hi: u64, lo: u64)
    ensures
        hi as u128 * PAIR_RADIX + lo as u128 <= u128::MAX,
        pair_key(hi, lo) == hi as u128 * PAIR_RADIX + lo as u128,
{
    assert(hi as u128 * PAIR_RADIX + lo as u128 <= u128::MAX) by (nonlinear_arith)
        requires
            hi as u128 <= 0xFFFF_FFFF_FFFF_FFFFu128,
            lo as u128 <= 0xFFFF_FFFF_FFFF_FFFFu128,
    ;
}

/// Distinct pairs pack to distinct keys.
pub proof fn lemma_pair_key_injective(hi1: u64, lo1: u64, hi2: u64, lo2: u64)
    requires
        pair_key(hi1, lo1) == pair_key(hi2, lo2),
    ensures
        hi1 == hi2 && lo1 == lo2,
{
    lemma_pair_key_fits(hi1, lo1);
    lemma_pair_key_fits(hi2, lo2);
    assert(hi1 == hi2 && lo1 == lo2) by (nonlinear_arith)
        requires
            hi1 as u128 * PAIR_RADIX + lo1 as u128 == hi2 as u128 * PAIR_RADIX + lo2 as u128,
            (lo1 as u128) < PAIR_RADIX,
            (lo2 as u128) < PAIR_RADIX,
    ;
}

/// Packs the pair `(hi, lo)` into its composite key.
pub fn pack_pair(hi: u64, lo: u64) -> (k: u128)
    ensures
        k == pair_key(hi, lo),
{
    proof {
        lemma_pair_key_fits(hi, lo);
    }
    hi as u128 * PAIR_RADIX + lo as u128
}

} // verus!
