use vstd::prelude::*;

use crate::consts::{CURVE_TOTAL_SUPPLY, INITIAL_LAMPORTS_FOR_POOL};
use crate::errors::CustomError;
use crate::state::LiquidityPool;

verus! {

/// One settled trade against a pool: the amount offered and the priced payout.
#[derive(Debug, Clone, Copy, PartialEq, Eq, Structural)]
pub enum Trade {
    Buy { amount: u64, amount_out: u64 },
    Sell { amount: u64, amount_out: u64 },
}

/// The pool after one trade; a refused trade leaves it as it was.
pub open spec fn apply_trade(pool: LiquidityPool, trade: Trade) -> LiquidityPool {
    let outcome = match trade {
        Trade::Buy { amount, amount_out } => pool.buy_outcome(amount, amount_out),
        Trade::Sell { amount, amount_out } => pool.sell_outcome(amount, amount_out),
    };
    match outcome {
        Ok(next) => next,
        Err(_) => pool,
    }
}

/// The pool after a sequence of trades, applied in order.
pub open spec fn run_trades(pool: LiquidityPool, trades: Seq<Trade>) -> LiquidityPool
    decreases trades.len(),
{
    if trades.len() == 0 {
        pool
    } else {
        run_trades(apply_trade(pool, trades[0]), trades.drop_first())
    }
}

/// Any sequence of buys and sells, accepted or refused, keeps a consistent
/// pool consistent: its token reserve stays within its total supply, and the
/// supply itself, with the pool's identities, never changes.
pub proof fn lemma_trades_preserve_invariant(pool: LiquidityPool, trades: Seq<Trade>)
    requires
        pool.wf(),
    ensures
        run_trades(pool, trades).wf(),
        run_trades(pool, trades).total_supply == pool.total_supply,
        run_trades(pool, trades).creator == pool.creator,
        run_trades(pool, trades).token == pool.token,
        run_trades(pool, trades).bump == pool.bump,
    decreases trades.len(),
{
    if trades.len() > 0 {
        lemma_trades_preserve_invariant(apply_trade(pool, trades[0]), trades.drop_first());
    }
}

/// A seeded pool stays seeded under every sequence of trades.
pub proof fn lemma_seeded_pool_stays_consistent(fresh: LiquidityPool, token_supply: u64, trades: Seq<Trade>)
    requires
        fresh.seed_outcome(token_supply) is Ok,
    ensures
        run_trades(fresh.seed_outcome(token_supply)->Ok_0, trades).wf(),
        run_trades(fresh.seed_outcome(token_supply)->Ok_0, trades).is_seeded(),
{
    lemma_trades_preserve_invariant(fresh.seed_outcome(token_supply)->Ok_0, trades);
}

/// Seeding fixes the total supply to the curve's constant and the reserves to
/// the declared initial values; a second seeding of the same pool is refused.
pub proof fn lemma_seeding_exactly_once(pool: LiquidityPool, first: u64, second: u64)
    requires
        pool.seed_outcome(first) is Ok,
    ensures
        pool.seed_outcome(first)->Ok_0.total_supply == CURVE_TOTAL_SUPPLY,
        pool.seed_outcome(first)->Ok_0.reserve_token == first,
        pool.seed_outcome(first)->Ok_0.reserve_sol == INITIAL_LAMPORTS_FOR_POOL,
        pool.seed_outcome(first)->Ok_0.seed_outcome(second) == Err::<LiquidityPool, CustomError>(
            CustomError::PoolAlreadySeeded,
        ),
{
}

/// Buying moves the curve forward and selling moves it back: an accepted buy
/// never lowers the tokens sold, an accepted sell never raises them.
pub proof fn lemma_sold_tokens_monotone(pool: LiquidityPool, amount: u64, amount_out: u64)
    ensures
        pool.buy_outcome(amount, amount_out) matches Ok(next) ==> next.sold() >= pool.sold(),
        pool.sell_outcome(amount, amount_out) matches Ok(next) ==> next.sold() <= pool.sold(),
{
}

} // verus!
