use vstd::prelude::*;

use crate::consts::{CURVE_TOTAL_SUPPLY, INITIAL_LAMPORTS_FOR_POOL};
use crate::errors::CustomError;

verus! {

/// A liquidity provider's stake in a pool, counted in pool shares.
#[derive(Debug, Clone, Copy, PartialEq, Eq, Structural)]
pub struct LiquidityProvider {
    pub shares: u64,
}

/// The persistent record of one bonding-curve pool.
///
/// `creator` and `token` are 32-byte account identities; `bump` is the nonce
/// under which the pool's own authority is derived.
#[derive(Debug, Clone, Copy)]
pub struct LiquidityPool {
    pub creator: [u8; 32],
    pub token: [u8; 32],
    pub total_supply: u64,
    pub reserve_token: u64,
    pub reserve_sol: u64,
    pub bump: u8,
}

impl LiquidityPool {
    /// The pool's data invariant: it never holds more tokens than its supply.
    pub open spec fn wf(&self) -> bool {
        self.reserve_token <= self.total_supply
    }

    /// A pool is seeded once its total supply has been fixed.
    pub open spec fn is_seeded(&self) -> bool {
        self.total_supply != 0
    }

    /// Tokens that have left the pool along the curve.
    pub open spec fn sold(&self) -> int {
        self.total_supply - self.reserve_token
    }

    /// What seeding with `token_supply` tokens makes of this pool, or why it is refused.
    pub open spec fn seed_outcome(self, token_supply: u64) -> Result<LiquidityPool, CustomError> {
        if self.is_seeded() {
            Err(CustomError::PoolAlreadySeeded)
        } else if token_supply > CURVE_TOTAL_SUPPLY {
            Err(CustomError::OverflowOrUnderflowOccurred)
        } else {
            Ok(
                LiquidityPool {
                    total_supply: CURVE_TOTAL_SUPPLY,
                    reserve_token: token_supply,
                    reserve_sol: INITIAL_LAMPORTS_FOR_POOL,
                    ..self
                },
            )
        }
    }

    /// What a buy of `amount_out` tokens for `amount` reserve-asset units makes
    /// of this pool, or the first guard that refuses it.
    pub open spec fn buy_outcome(self, amount: u64, amount_out: u64) -> Result<LiquidityPool, CustomError> {
        if amount == 0 {
            Err(CustomError::InvalidAmount)
        } else if self.reserve_token > self.total_supply {
            Err(CustomError::OverflowOrUnderflowOccurred)
        } else if amount_out > self.reserve_token {
            Err(CustomError::NotEnoughTokenInVault)
        } else if self.reserve_sol + amount > u64::MAX {
            Err(CustomError::OverflowOrUnderflowOccurred)
        } else {
            Ok(
                LiquidityPool {
                    reserve_sol: (self.reserve_sol + amount) as u64,
                    reserve_token: (self.reserve_token - amount_out) as u64,
                    ..self
                },
            )
        }
    }

    /// What a sell of `amount` tokens for `amount_out` reserve-asset units makes
    /// of this pool, or the first guard that refuses it.
    pub open spec fn sell_outcome(self, amount: u64, amount_out: u64) -> Result<LiquidityPool, CustomError> {
        if amount == 0 {
            Err(CustomError::InvalidAmount)
        } else if amount > self.reserve_token {
            Err(CustomError::TokenAmountToSellTooBig)
        } else if self.reserve_token > self.total_supply {
            Err(CustomError::OverflowOrUnderflowOccurred)
        } else if self.reserve_token + amount > u64::MAX {
            Err(CustomError::OverflowOrUnderflowOccurred)
        } else if self.reserve_token + amount > self.total_supply {
            Err(CustomError::OverflowOrUnderflowOccurred)
        } else if amount_out > self.reserve_sol {
            Err(CustomError::NotEnoughSolInVault)
        } else {
            Ok(
                LiquidityPool {
                    reserve_token: (self.reserve_token + amount) as u64,
                    reserve_sol: (self.reserve_sol - amount_out) as u64,
                    ..self
                },
            )
        }
    }

    /// A pool that is not yet seeded: no supply and empty reserves.
    pub fn new(creator: [u8; 32], token: [u8; 32], bump: u8) -> (r: LiquidityPool)
        ensures
            r.creator == creator,
            r.token == token,
            r.bump == bump,
            r.total_supply == 0,
            r.reserve_token == 0,
            r.reserve_sol == 0,
            !r.is_seeded(),
            r.wf(),
    {
        LiquidityPool { creator, token, total_supply: 0, reserve_token: 0, reserve_sol: 0, bump }
    }

    /// Overwrites both reserves; every other field stays.
    pub fn update_reserves(&mut self, reserve_token: u64, reserve_sol: u64) -> (r: Result<(), CustomError>)
        ensures
            r is Ok,
            *final(self) == (LiquidityPool { reserve_token, reserve_sol, ..*old(self) }),
    {
        self.reserve_token = reserve_token;
        self.reserve_sol = reserve_sol;
        Ok(())
    }
    /// Tokens sold along the curve so far, refused when the token reserve
    /// exceeds the supply.
    pub fn sold_tokens(&self) -> (r: Result<u64, CustomError>)
        ensures
            self.wf() ==> r == Ok::<u64, CustomError>(self.sold() as u64),
            !self.wf() ==> r == Err::<u64, CustomError>(CustomError::OverflowOrUnderflowOccurred),
    {
        match self.total_supply.checked_sub(self.reserve_token) {
            Some(val) => Ok(val),
            None => Err(CustomError::OverflowOrUnderflowOccurred),
        }
    }

    /// The curve position a buy of `amount` is priced at: the tokens sold so far.
    /// Refused on a zero amount or an inconsistent pool, as `buy` refuses them.
    pub fn buy_curve_point(&self, amount: u64) -> (r: Result<u64, CustomError>)
        ensures
            amount == 0 ==> r == Err::<u64, CustomError>(CustomError::InvalidAmount),
            amount != 0 && !self.wf() ==> r == Err::<u64, CustomError>(
                CustomError::OverflowOrUnderflowOccurred,
            ),
            amount != 0 && self.wf() ==> r == Ok::<u64, CustomError>(self.sold() as u64),
    {
        if amount == 0 {
            return Err(CustomError::InvalidAmount);
        }
        self.sold_tokens()
    }

    /// The curve positions a sell of `amount` is priced between: the tokens
    /// sold before and after it. Refused on the inputs `sell` refuses before pricing.
    pub fn sell_curve_points(&self, amount: u64) -> (r: Result<(u64, u64), CustomError>)
        ensures
            amount == 0 ==> r == Err::<(u64, u64), CustomError>(CustomError::InvalidAmount),
            amount != 0 && amount > self.reserve_token ==> r == Err::<(u64, u64), CustomError>(
                CustomError::TokenAmountToSellTooBig,
            ),
            amount != 0 && amount <= self.reserve_token && self.reserve_token + amount
                > self.total_supply ==> r == Err::<(u64, u64), CustomError>(
                CustomError::OverflowOrUnderflowOccurred,
            ),
            amount != 0 && amount <= self.reserve_token && self.reserve_token + amount
                <= self.total_supply ==> r == Ok::<
                (u64, u64),
                CustomError,
            >((self.sold() as u64, (self.sold() - amount) as u64)),
    {
        if amount == 0 {
            return Err(CustomError::InvalidAmount);
        }
        if amount > self.reserve_token {
            return Err(CustomError::TokenAmountToSellTooBig);
        }
        let sold_before = match self.total_supply.checked_sub(self.reserve_token) {
            Some(val) => val,
            None => return Err(CustomError::OverflowOrUnderflowOccurred),
        };
        let reserve_token_after = match self.reserve_token.checked_add(amount) {
            Some(val) => val,
            None => return Err(CustomError::OverflowOrUnderflowOccurred),
        };
        let sold_after = match self.total_supply.checked_sub(reserve_token_after) {
            Some(val) => val,
            None => return Err(CustomError::OverflowOrUnderflowOccurred),
        };
        Ok((sold_before, sold_after))
    }

    /// Seeds the pool with `token_supply` tokens and the fixed initial funding,
    /// fixing the total supply. Refused on a pool that is already seeded.
    pub fn add_liquidity(&mut self, token_supply: u64) -> (r: Result<(), CustomError>)
        ensures
            old(self).seed_outcome(token_supply) matches Ok(p) ==> r is Ok && *final(self) == p,
            old(self).seed_outcome(token_supply) matches Err(e) ==> r == Err::<(), CustomError>(e)
                && *final(self) == *old(self),
            r is Ok ==> final(self).wf() && final(self).is_seeded()
                && final(self).total_supply == CURVE_TOTAL_SUPPLY
                && final(self).reserve_token == token_supply
                && final(self).reserve_sol == INITIAL_LAMPORTS_FOR_POOL,
            old(self).is_seeded() ==> r == Err::<(), CustomError>(CustomError::PoolAlreadySeeded),
            r is Err ==> *final(self) == *old(self),
    {
        if self.total_supply != 0 {
            return Err(CustomError::PoolAlreadySeeded);
        }
        if token_supply > CURVE_TOTAL_SUPPLY {
            return Err(CustomError::OverflowOrUnderflowOccurred);
        }
        self.total_supply = CURVE_TOTAL_SUPPLY;
        self.update_reserves(token_supply, INITIAL_LAMPORTS_FOR_POOL)
    }

    /// Settles a buy: `amount` reserve-asset units come in and `amount_out`
    /// tokens, the curve's price for them, go out. Returns `amount_out`.
    /// Every guard is checked before the pool is touched.
    pub fn buy(&mut self, amount: u64, amount_out: u64) -> (r: Result<u64, CustomError>)
        ensures
            old(self).buy_outcome(amount, amount_out) matches Ok(p) ==> r == Ok::<u64, CustomError>(
                amount_out,
            ) && *final(self) == p,
            old(self).buy_outcome(amount, amount_out) matches Err(e) ==> r == Err::<u64, CustomError>(
                e,
            ) && *final(self) == *old(self),
            r is Ok ==> final(self).wf() && final(self).sold() == old(self).sold() + amount_out
                && final(self).reserve_sol == old(self).reserve_sol + amount,
            r is Err ==> *final(self) == *old(self),
            amount == 0 ==> r == Err::<u64, CustomError>(CustomError::InvalidAmount),
            amount != 0 && !old(self).wf() ==> r == Err::<u64, CustomError>(
                CustomError::OverflowOrUnderflowOccurred,
            ),
    {
        if amount == 0 {
            return Err(CustomError::InvalidAmount);
        }
        let _sold = self.sold_tokens()?;
        if amount_out > self.reserve_token {
            return Err(CustomError::NotEnoughTokenInVault);
        }
        let reserve_sol = match self.reserve_sol.checked_add(amount) {
            Some(val) => val,
            None => return Err(CustomError::OverflowOrUnderflowOccurred),
        };
        let reserve_token = match self.reserve_token.checked_sub(amount_out) {
            Some(val) => val,
            None => return Err(CustomError::OverflowOrUnderflowOccurred),
        };
        self.reserve_sol = reserve_sol;
        self.reserve_token = reserve_token;
        Ok(amount_out)
    }

    /// Settles a sell: `amount` tokens come in and `amount_out` reserve-asset
    /// units, the curve's price for them, go out. Returns `amount_out`.
    /// Every guard is checked before the pool is touched.
    pub fn sell(&mut self, amount: u64, amount_out: u64) -> (r: Result<u64, CustomError>)
        ensures
            old(self).sell_outcome(amount, amount_out) matches Ok(p) ==> r == Ok::<u64, CustomError>(
                amount_out,
            ) && *final(self) == p,
            old(self).sell_outcome(amount, amount_out) matches Err(e) ==> r == Err::<
                u64,
                CustomError,
            >(e) && *final(self) == *old(self),
            r is Ok ==> final(self).wf() && final(self).sold() == old(self).sold() - amount
                && final(self).reserve_sol == old(self).reserve_sol - amount_out,
            r is Err ==> *final(self) == *old(self),
            amount == 0 ==> r == Err::<u64, CustomError>(CustomError::InvalidAmount),
            amount > old(self).reserve_token ==> r == Err::<u64, CustomError>(
                CustomError::TokenAmountToSellTooBig,
            ),
    {
        let _points = self.sell_curve_points(amount)?;
        if amount_out > self.reserve_sol {
            return Err(CustomError::NotEnoughSolInVault);
        }
        self.reserve_token = self.reserve_token + amount;
        self.reserve_sol = self.reserve_sol - amount_out;
        Ok(amount_out)
    }
}

} // verus!
