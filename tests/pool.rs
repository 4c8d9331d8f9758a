use pump_forking::authority::{POOL_SEED_PREFIX, SOL_VAULT_PREFIX};
use pump_forking::consts::{CURVE_TOTAL_SUPPLY, INITIAL_LAMPORTS_FOR_POOL, PROPORTION};
use pump_forking::errors::CustomError;
use pump_forking::state::{LiquidityPool, LiquidityProvider};

const CREATOR: [u8; 32] = [7u8; 32];
const TOKEN: [u8; 32] = [9u8; 32];

const DECIMAL_SCALE: f64 = 1_000_000_000.0;
const DECIMAL_SCALE_SQUARED: f64 = 1_000_000.0 * 1_000_000_000.0;

fn curve_buy_out(sold_before: u64, amount: u64) -> u64 {
    let bought = (sold_before as f64) / DECIMAL_SCALE_SQUARED;
    let deposit = (amount as f64) / DECIMAL_SCALE;
    let root = ((PROPORTION as f64) * deposit + bought * bought).sqrt();
    ((root - bought) * DECIMAL_SCALE_SQUARED).round() as u64
}

fn curve_sell_out(sold_before: u64, sold_after: u64) -> u64 {
    let bought = (sold_before as f64) / DECIMAL_SCALE_SQUARED;
    let result = (sold_after as f64) / DECIMAL_SCALE_SQUARED;
    ((bought * bought - result * result) / (PROPORTION as f64) * DECIMAL_SCALE).round() as u64
}

fn pool(total_supply: u64, reserve_token: u64, reserve_sol: u64) -> LiquidityPool {
    LiquidityPool { creator: CREATOR, token: TOKEN, total_supply, reserve_token, reserve_sol, bump: 254 }
}

fn same(a: &LiquidityPool, b: &LiquidityPool) -> bool {
    a.creator == b.creator
        && a.token == b.token
        && a.total_supply == b.total_supply
        && a.reserve_token == b.reserve_token
        && a.reserve_sol == b.reserve_sol
        && a.bump == b.bump
}

#[test]
fn new_pool_is_empty_and_unseeded() {
    let p = LiquidityPool::new(CREATOR, TOKEN, 3);
    assert_eq!(p.creator, CREATOR);
    assert_eq!(p.token, TOKEN);
    assert_eq!(p.bump, 3);
    assert_eq!((p.total_supply, p.reserve_token, p.reserve_sol), (0, 0, 0));
}

#[test]
fn seeding_sets_supply_and_reserves() {
    let mut p = LiquidityPool::new(CREATOR, TOKEN, 3);
    assert_eq!(p.add_liquidity(900_000_000_000_000_000), Ok(()));
    assert_eq!(p.total_supply, 1_000_000_000_000_000_000);
    assert_eq!(p.total_supply, CURVE_TOTAL_SUPPLY);
    assert_eq!(p.reserve_token, 900_000_000_000_000_000);
    assert_eq!(p.reserve_sol, 10_000_000);
    assert_eq!(p.reserve_sol, INITIAL_LAMPORTS_FOR_POOL);
}

#[test]
fn second_seeding_is_rejected() {
    let mut p = LiquidityPool::new(CREATOR, TOKEN, 3);
    assert_eq!(p.add_liquidity(900_000_000_000_000_000), Ok(()));
    let before = p;
    assert_eq!(p.add_liquidity(5), Err(CustomError::PoolAlreadySeeded));
    assert!(same(&p, &before));
}

#[test]
fn seeding_beyond_the_curve_supply_is_rejected() {
    let mut p = LiquidityPool::new(CREATOR, TOKEN, 3);
    assert_eq!(p.add_liquidity(CURVE_TOTAL_SUPPLY + 1), Err(CustomError::OverflowOrUnderflowOccurred));
    assert_eq!((p.total_supply, p.reserve_token, p.reserve_sol), (0, 0, 0));
}

#[test]
fn update_reserves_overwrites_both() {
    let mut p = pool(1_000, 400, 50);
    assert_eq!(p.update_reserves(300, 70), Ok(()));
    assert_eq!((p.total_supply, p.reserve_token, p.reserve_sol), (1_000, 300, 70));
}

#[test]
fn buy_moves_reserves() {
    let mut p = pool(1_000, 400, 50);
    assert_eq!(p.buy(25, 100), Ok(100));
    assert_eq!(p.reserve_token, 300);
    assert_eq!(p.reserve_sol, 75);
    assert_eq!(p.total_supply, 1_000);
}

#[test]
fn buy_zero_is_rejected_unchanged() {
    let mut p = pool(1_000, 400, 50);
    let before = p;
    assert_eq!(p.buy(0, 0), Err(CustomError::InvalidAmount));
    assert!(same(&p, &before));
}

#[test]
fn sell_zero_is_rejected_unchanged() {
    let mut p = pool(1_000, 400, 50);
    let before = p;
    assert_eq!(p.sell(0, 0), Err(CustomError::InvalidAmount));
    assert!(same(&p, &before));
}

#[test]
fn oversell_is_rejected_unchanged() {
    let mut p = pool(1_000, 400, 50);
    let before = p;
    assert_eq!(p.sell(401, 1), Err(CustomError::TokenAmountToSellTooBig));
    assert!(same(&p, &before));
}

#[test]
fn buy_on_inconsistent_pool_underflows() {
    let mut p = pool(100, 101, 50);
    let before = p;
    assert_eq!(p.buy(10, 1), Err(CustomError::OverflowOrUnderflowOccurred));
    assert!(same(&p, &before));
    assert_eq!(p.sold_tokens(), Err(CustomError::OverflowOrUnderflowOccurred));
    assert_eq!(p.buy_curve_point(10), Err(CustomError::OverflowOrUnderflowOccurred));
}

#[test]
fn buy_beyond_token_reserve_is_rejected() {
    let mut p = pool(1_000, 400, 50);
    let before = p;
    assert_eq!(p.buy(10, 401), Err(CustomError::NotEnoughTokenInVault));
    assert!(same(&p, &before));
}

#[test]
fn buy_that_overflows_sol_reserve_is_rejected() {
    let mut p = pool(1_000, 400, u64::MAX - 5);
    let before = p;
    assert_eq!(p.buy(6, 1), Err(CustomError::OverflowOrUnderflowOccurred));
    assert!(same(&p, &before));
}

#[test]
fn sell_moves_reserves() {
    let mut p = pool(1_000, 400, 50);
    assert_eq!(p.sell(100, 20), Ok(20));
    assert_eq!(p.reserve_token, 500);
    assert_eq!(p.reserve_sol, 30);
}

#[test]
fn sell_beyond_sold_tokens_underflows() {
    // 300 sold, 700 in reserve: 400 passes the reserve guard but exceeds what was sold
    let mut p = pool(1_000, 700, 50);
    let before = p;
    assert_eq!(p.sell(400, 1), Err(CustomError::OverflowOrUnderflowOccurred));
    assert!(same(&p, &before));
}

#[test]
fn sell_beyond_sol_reserve_is_rejected() {
    let mut p = pool(1_000, 400, 50);
    let before = p;
    assert_eq!(p.sell(100, 51), Err(CustomError::NotEnoughSolInVault));
    assert!(same(&p, &before));
}

#[test]
fn curve_points_before_pricing() {
    let p = pool(1_000, 400, 50);
    assert_eq!(p.sold_tokens(), Ok(600));
    assert_eq!(p.buy_curve_point(5), Ok(600));
    assert_eq!(p.buy_curve_point(0), Err(CustomError::InvalidAmount));
    assert_eq!(p.sell_curve_points(100), Ok((600, 500)));
    assert_eq!(p.sell_curve_points(0), Err(CustomError::InvalidAmount));
    assert_eq!(p.sell_curve_points(401), Err(CustomError::TokenAmountToSellTooBig));
}

#[test]
fn buy_then_sell_refunds_no_more_than_paid() {
    let mut p = pool(1_000_000_000_000_000_000, 900_000_000_000_000_000, 10_000_000);
    let amount: u64 = 1_000_000;
    let sold = p.buy_curve_point(amount).unwrap();
    let tokens_out = p.buy(amount, curve_buy_out(sold, amount)).unwrap();
    assert!(tokens_out > 0);
    let (before, after) = p.sell_curve_points(tokens_out).unwrap();
    let reserve_out = p.sell(tokens_out, curve_sell_out(before, after)).unwrap();
    assert!(reserve_out <= amount);
    assert_eq!(p.reserve_token, 900_000_000_000_000_000);
    assert_eq!(p.reserve_sol, 10_000_000 + amount - reserve_out);
}

#[test]
fn trades_keep_reserve_within_supply() {
    let mut p = LiquidityPool::new(CREATOR, TOKEN, 1);
    p.add_liquidity(900_000_000_000_000_000).unwrap();
    for amount in [1_000_000u64, 50_000_000, 3] {
        let sold = p.buy_curve_point(amount).unwrap();
        p.buy(amount, curve_buy_out(sold, amount)).unwrap();
        assert!(p.reserve_token <= p.total_supply);
    }
    let (before, after) = p.sell_curve_points(1_000).unwrap();
    p.sell(1_000, curve_sell_out(before, after)).unwrap();
    assert!(p.reserve_token <= p.total_supply);
    assert_eq!(p.total_supply, CURVE_TOTAL_SUPPLY);
}

#[test]
fn signer_seeds_name_domain_token_and_nonce() {
    let p = pool(1_000, 400, 50);
    let seeds = p.pool_signer_seeds();
    assert_eq!(seeds, vec![b"liquidity_pool".to_vec(), TOKEN.to_vec(), vec![254u8]]);
    assert_eq!(seeds[0], POOL_SEED_PREFIX.as_bytes().to_vec());
    let vault = p.sol_vault_signer_seeds(17);
    assert_eq!(vault, vec![b"liquidity_sol_vault".to_vec(), TOKEN.to_vec(), vec![17u8]]);
    assert_eq!(vault[0], SOL_VAULT_PREFIX.as_bytes().to_vec());
}

#[test]
fn provider_holds_shares() {
    let lp = LiquidityProvider { shares: 12 };
    assert_eq!(lp.shares, 12);
}
