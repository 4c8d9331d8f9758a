//! Pricing-independent core of a bonding-curve market maker: the pool record,
//! its invariant, seeding, and the guarded settlement of buys and sells.
pub mod authority;
pub mod consts;
pub mod errors;
pub mod laws;
pub mod state;
