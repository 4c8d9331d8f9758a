use vstd::prelude::*;

verus! {

/// Proportionality constant `k` of the curve `y^2 = k * x`.
pub const PROPORTION: u64 = 1280;

/// Reserve-asset units deposited into a pool's vault when it is seeded.
pub const INITIAL_LAMPORTS_FOR_POOL: u64 = 10_000_000;

/// Precision-scaled issuance that every seeded pool prices against.
pub const CURVE_TOTAL_SUPPLY: u64 = 1_000_000_000_000_000_000;

} // verus!
