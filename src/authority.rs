use vstd::prelude::*;

use vstd::string::StringSliceAdditionalSpecFns;

use crate::state::LiquidityPool;

verus! {

/// Domain string of the authority that signs token payouts for a pool.
pub const POOL_SEED_PREFIX: &'static str = "liquidity_pool";

/// Domain string of the authority that signs reserve-asset payouts from a pool's vault.
pub const SOL_VAULT_PREFIX: &'static str = "liquidity_sol_vault";

fn bytes_to_vec(b: &[u8]) -> (r: Vec<u8>)
    ensures
        r@ == b@,
{
    let mut r: Vec<u8> = Vec::new();
    let mut i: usize = 0;
    while i < b.len()
        invariant
            i <= b@.len(),
            r@ == b@.subrange(0, i as int),
        decreases b@.len() - i,
    {
        r.push(b[i]);
        i = i + 1;
    }
    assert(r@ == b@);
    r
}

/// The three seeds `[domain, token identity, nonce]` from which a pool-owned
/// authority is derived.
pub open spec fn signer_seeds(domain: &str, token: [u8; 32], bump: u8) -> Seq<Seq<u8>> {
    seq![domain.spec_bytes(), token@, seq![bump]]
}

fn derive_seeds(domain: &str, token: &[u8; 32], bump: u8) -> (r: Vec<Vec<u8>>)
    ensures
        r@.map_values(|s: Vec<u8>| s@) == signer_seeds(domain, *token, bump),
{
    let mut r: Vec<Vec<u8>> = Vec::new();
    r.push(bytes_to_vec(domain.as_bytes()));
    r.push(bytes_to_vec(token.as_slice()));
    let mut nonce: Vec<u8> = Vec::new();
    nonce.push(bump);
    r.push(nonce);
    assert(r@.map_values(|s: Vec<u8>| s@) =~= signer_seeds(domain, *token, bump));
    r
}

impl LiquidityPool {
    /// Seeds of the pool's own authority, which signs token payouts: the pool
    /// domain, the traded token and the pool's nonce.
    pub fn pool_signer_seeds(&self) -> (r: Vec<Vec<u8>>)
        ensures
            r@.map_values(|s: Vec<u8>| s@) == signer_seeds(POOL_SEED_PREFIX, self.token, self.bump),
    {
        derive_seeds(POOL_SEED_PREFIX, &self.token, self.bump)
    }

    /// Seeds of the pool's reserve-asset vault, which signs reserve-asset
    /// payouts: the vault domain, the traded token and the vault's nonce `bump`.
    pub fn sol_vault_signer_seeds(&self, bump: u8) -> (r: Vec<Vec<u8>>)
        ensures
            r@.map_values(|s: Vec<u8>| s@) == signer_seeds(SOL_VAULT_PREFIX, self.token, bump),
    {
        derive_seeds(SOL_VAULT_PREFIX, &self.token, bump)
    }
}

} // verus!
