use amm_core::errors::AmmError;
use amm_core::events::ActorId;
use amm_core::gateway::TransferOutcome;
use amm_core::ops::{
    add_liquidity, buy, get_price, initialize, quote_remove_liquidity, remove_liquidity,
    scaled_amount, sell,
};
use amm_core::pool::{Amm, AmmAccount};

fn actor(tag: u8) -> ActorId {
    ActorId([tag; 32])
}

fn done() -> TransferOutcome {
    TransferOutcome::Completed
}

fn rejected() -> TransferOutcome {
    TransferOutcome::Rejected
}

fn reserves(acct: &AmmAccount) -> (u128, u128) {
    let pool = acct.pool.as_ref().expect("pool not created");
    (pool.reserve_a, pool.reserve_sol)
}

#[test]
fn test_initialize_sets_empty_reserves() {
    let mut acct = AmmAccount::new();
    assert!(acct.pool.is_none());
    assert_eq!(initialize(&mut acct, 42), Ok(()));
    let pool = acct.pool.unwrap();
    assert_eq!(pool.reserve_a, 0);
    assert_eq!(pool.reserve_sol, 0);
    assert_eq!(pool.bump, 42);
}

#[test]
fn test_initialize_twice_fails() {
    let mut acct = AmmAccount::new();
    assert_eq!(initialize(&mut acct, 7), Ok(()));
    assert_eq!(initialize(&mut acct, 8), Err(AmmError::PoolAlreadyInitialized));
    assert_eq!(acct.pool.unwrap().bump, 7);
}

#[test]
fn test_operations_before_creation_fail() {
    let mut acct = AmmAccount::new();
    assert_eq!(
        add_liquidity(&mut acct, actor(1), 10, 10, done(), done()),
        Err(AmmError::PoolNotInitialized)
    );
    assert_eq!(
        remove_liquidity(&mut acct, actor(1), 10, done(), done()),
        Err(AmmError::PoolNotInitialized)
    );
    assert_eq!(buy(&mut acct, actor(1), 10, done(), done()), Err(AmmError::PoolNotInitialized));
    assert_eq!(sell(&mut acct, actor(1), 10, done(), done()), Err(AmmError::PoolNotInitialized));
    assert_eq!(get_price(&acct), Err(AmmError::PoolNotInitialized));
    assert_eq!(quote_remove_liquidity(&acct, 10), Err(AmmError::PoolNotInitialized));
    assert!(acct.pool.is_none());
}

#[test]
fn test_add_liquidity_credits_both_reserves() {
    let mut acct = AmmAccount::new();
    initialize(&mut acct, 1).unwrap();
    let event = add_liquidity(&mut acct, actor(3), 1000, 1000, done(), done()).unwrap();
    assert_eq!(reserves(&acct), (1000, 1000));
    assert_eq!(event.provider, actor(3));
    assert_eq!(event.amount_a, 1000);
    assert_eq!(event.amount_sol, 1000);
}

#[test]
fn test_add_liquidity_off_ratio_is_accepted() {
    // The deposited ratio is deliberately not held to the reserve
    // ratio: an off-market deposit goes through unchanged.
    let mut acct = AmmAccount::new();
    initialize(&mut acct, 1).unwrap();
    add_liquidity(&mut acct, actor(3), 1000, 1000, done(), done()).unwrap();
    add_liquidity(&mut acct, actor(4), 500, 10, done(), done()).unwrap();
    assert_eq!(reserves(&acct), (1500, 1010));
}

#[test]
fn test_swap_and_withdraw_scenario_chain() {
    let mut acct = AmmAccount::new();
    initialize(&mut acct, 9).unwrap();
    add_liquidity(&mut acct, actor(1), 1000, 1000, done(), done()).unwrap();

    // sell(100) on (1000, 1000): floor(99700000/1099700) = 90
    let (sol_out, sold) = sell(&mut acct, actor(2), 100, done(), done()).unwrap();
    assert_eq!(sol_out, 90);
    assert_eq!(sold.seller, actor(2));
    assert_eq!(sold.amount_a, 100);
    assert_eq!(sold.amount_sol, 90);
    assert_eq!(reserves(&acct), (1100, 910));

    // buy(50) on (1100, 910): floor(54835000/959850) = 57
    let (token_out, bought) = buy(&mut acct, actor(2), 50, done(), done()).unwrap();
    assert_eq!(token_out, 57);
    assert_eq!(bought.buyer, actor(2));
    assert_eq!(bought.amount_sol, 50);
    assert_eq!(bought.amount_a, 57);
    assert_eq!(reserves(&acct), (1043, 960));

    // withdraw(200) on (1043, 960): floor(200*960/1043) = 184
    assert_eq!(quote_remove_liquidity(&acct, 200), Ok(184));
    let (sol_back, removed) = remove_liquidity(&mut acct, actor(1), 200, done(), done()).unwrap();
    assert_eq!(sol_back, 184);
    assert_eq!(removed.provider, actor(1));
    assert_eq!(removed.amount_a, 200);
    assert_eq!(removed.amount_sol, 184);
    assert_eq!(reserves(&acct), (843, 776));

    // withdrawing more than the token reserve holds fails untouched
    assert_eq!(
        remove_liquidity(&mut acct, actor(1), 2000, done(), done()),
        Err(AmmError::InsufficientLiquidityA)
    );
    assert_eq!(quote_remove_liquidity(&acct, 2000), Err(AmmError::InsufficientLiquidityA));
    assert_eq!(reserves(&acct), (843, 776));
}

#[test]
fn test_swaps_never_decrease_reserve_product() {
    let mut acct = AmmAccount::new();
    initialize(&mut acct, 0).unwrap();
    add_liquidity(&mut acct, actor(1), 1000, 1000, done(), done()).unwrap();
    let mut product: u128 = 1000 * 1000;
    let trades: [u64; 6] = [100, 3, 250, 1, 999, 40];
    for (i, amount) in trades.iter().enumerate() {
        if i % 2 == 0 {
            sell(&mut acct, actor(2), *amount, done(), done()).unwrap();
        } else {
            buy(&mut acct, actor(2), *amount, done(), done()).unwrap();
        }
        let (ra, rs) = reserves(&acct);
        assert!(ra * rs >= product);
        product = ra * rs;
    }
}

#[test]
fn test_rejected_leg_leaves_reserves_unchanged() {
    let mut acct = AmmAccount::new();
    initialize(&mut acct, 1).unwrap();
    add_liquidity(&mut acct, actor(1), 1000, 1000, done(), done()).unwrap();

    assert_eq!(
        add_liquidity(&mut acct, actor(1), 5, 5, done(), rejected()),
        Err(AmmError::TransferFailed)
    );
    assert_eq!(
        add_liquidity(&mut acct, actor(1), 5, 5, rejected(), done()),
        Err(AmmError::TransferFailed)
    );
    assert_eq!(
        remove_liquidity(&mut acct, actor(1), 5, done(), rejected()),
        Err(AmmError::TransferFailed)
    );
    assert_eq!(buy(&mut acct, actor(2), 5, rejected(), done()), Err(AmmError::TransferFailed));
    assert_eq!(sell(&mut acct, actor(2), 5, done(), rejected()), Err(AmmError::TransferFailed));
    assert_eq!(reserves(&acct), (1000, 1000));
}

#[test]
fn test_sell_on_empty_pool_quotes_zero() {
    // Degenerate quote: an empty settlement reserve prices every
    // trade at 0; the caller sees "no liquidity to quote".
    let mut acct = AmmAccount::new();
    initialize(&mut acct, 1).unwrap();
    let (sol_out, _) = sell(&mut acct, actor(2), 10, done(), done()).unwrap();
    assert_eq!(sol_out, 0);
    assert_eq!(reserves(&acct), (10, 0));
}

#[test]
fn test_get_price_truncates_ratio() {
    let mut acct = AmmAccount::new();
    initialize(&mut acct, 1).unwrap();
    add_liquidity(&mut acct, actor(1), 1000, 2500, done(), done()).unwrap();
    assert_eq!(get_price(&acct), Ok(2));
}

#[test]
fn test_get_price_needs_both_reserves() {
    let mut acct = AmmAccount::new();
    initialize(&mut acct, 1).unwrap();
    assert_eq!(get_price(&acct), Err(AmmError::InsufficientLiquidity));
    add_liquidity(&mut acct, actor(1), 1000, 0, done(), done()).unwrap();
    assert_eq!(get_price(&acct), Err(AmmError::InsufficientLiquidity));
    add_liquidity(&mut acct, actor(1), 0, 500, done(), done()).unwrap();
    assert_eq!(get_price(&acct), Ok(0));
}

#[test]
fn test_apply_delta_underflow_is_rejected() {
    let mut pool = Amm { reserve_a: 3, reserve_sol: 10, bump: 0 };
    assert_eq!(pool.apply_delta(-5, 0), Err(AmmError::Underflow));
    assert_eq!(pool.reserve_a, 3);
    assert_eq!(pool.reserve_sol, 10);
    assert_eq!(pool.apply_delta(-3, 7), Ok(()));
    assert_eq!(pool.reserve_a, 0);
    assert_eq!(pool.reserve_sol, 17);
}

#[test]
fn test_full_withdrawal_empties_pool() {
    let mut acct = AmmAccount::new();
    initialize(&mut acct, 1).unwrap();
    add_liquidity(&mut acct, actor(1), 800, 600, done(), done()).unwrap();
    let (sol_back, _) = remove_liquidity(&mut acct, actor(1), 800, done(), done()).unwrap();
    assert_eq!(sol_back, 600);
    assert_eq!(reserves(&acct), (0, 0));
}

#[test]
fn test_scaled_amount_applies_token_decimals() {
    assert_eq!(scaled_amount(5), 5_000_000_000);
    assert_eq!(scaled_amount(0), 0);
    assert_eq!(scaled_amount(u64::MAX), u64::MAX as u128 * 1_000_000_000);
}
