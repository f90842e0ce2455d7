use token_2022_amm::errors::AmmError;
use token_2022_amm::keys::{pair_key, Pubkey};
use token_2022_amm::math::compute_output;
use token_2022_amm::pool::{Pool, PoolConfig};

fn key(hi: u128, lo: u128) -> Pubkey {
    Pubkey { hi, lo }
}

fn demo_config() -> PoolConfig {
    PoolConfig::new(
        key(0, 1),
        25,
        10000,
        key(1, 0),
        key(9, 1),
        key(2, 0),
        key(9, 2),
    )
    .unwrap()
}

#[test]
fn complete_amm_program_test_swap_calculation() {
    let amount_in = 1000000; // 1 token
    let reserve_in = 1000000000; // 1000 tokens
    let reserve_out = 500000000; // 500 tokens
    let fee = 25; // 0.25%
    let fee_denominator = 10000;

    let result = compute_output(amount_in, reserve_in, reserve_out, fee, fee_denominator);
    assert!(result.is_ok());

    let amount_out = result.unwrap();
    println!("Swap output: {}", amount_out);
    assert!(amount_out > 0);
}

#[test]
fn simple_amm_program_test_swap_calculation() {
    let amount_in = 1000000; // 1 token
    let reserve_in = 1000000000; // 1000 tokens
    let reserve_out = 500000000; // 500 tokens
    let fee = 25; // 0.25%
    let fee_denominator = 10000;

    let result = compute_output(amount_in, reserve_in, reserve_out, fee, fee_denominator);
    assert!(result.is_ok());

    let amount_out = result.unwrap();
    println!("Swap output: {}", amount_out);
    assert!(amount_out > 0);
}

#[test]
fn concrete_scenario_exact_quote() {
    // reserve_in 1_000_000_000, reserve_out 500_000_000, fee 25/10000,
    // amount_in 1_000_000:
    //   eff = 1_000_000 * 9975 = 9_975_000_000
    //   out = floor(eff * 500_000_000 / (1_000_000_000 * 10_000 + eff)) = 498_252
    let r = compute_output(1_000_000, 1_000_000_000, 500_000_000, 25, 10_000);
    assert_eq!(r, Ok(498_252));
}

#[test]
fn overflow_guard_fails_instead_of_wrapping() {
    let r = compute_output(u64::MAX, 1_000_000_000, u64::MAX, 25, 10_000);
    assert_eq!(r, Err(AmmError::MathOverflow));
}

#[test]
fn pair_key_is_order_insensitive() {
    let x = key(7, 3);
    let y = key(2, 9);
    assert_eq!(pair_key(x, y), pair_key(y, x));
    assert_eq!(pair_key(x, y), (y, x));
    let same = key(4, 4);
    assert_eq!(pair_key(same, same), (same, same));
}

#[test]
fn config_is_canonical_in_either_declared_order() {
    let authority = key(0, 1);
    let (ax, vx) = (key(1, 0), key(9, 1));
    let (ay, vy) = (key(2, 0), key(9, 2));
    let c1 = PoolConfig::new(authority, 25, 10000, ax, vx, ay, vy).unwrap();
    let c2 = PoolConfig::new(authority, 25, 10000, ay, vy, ax, vx).unwrap();
    assert_eq!(c1, c2);
    assert_eq!(c1.asset_a, ax);
    assert_eq!(c1.vault_b, vy);
}

#[test]
fn config_rejects_bad_fee_and_equal_assets() {
    let k1 = key(1, 0);
    let k2 = key(2, 0);
    assert_eq!(
        PoolConfig::new(key(0, 1), 10000, 10000, k1, k1, k2, k2),
        Err(AmmError::InvalidAmount)
    );
    assert_eq!(
        PoolConfig::new(key(0, 1), 25, 10000, k1, k1, k1, k2),
        Err(AmmError::InvalidAmount)
    );
}

#[test]
fn create_pool_requires_positive_amounts() {
    let config = demo_config();
    assert_eq!(Pool::create(&config, 0, 5), Err(AmmError::InvalidAmount));
    assert_eq!(Pool::create(&config, 5, 0), Err(AmmError::InvalidAmount));
    let p = Pool::create(&config, 1000, 500).unwrap();
    assert_eq!(p.reserve_a, 1000);
    assert_eq!(p.reserve_b, 500);
    assert_eq!(p.lp_supply, 1000);
}

#[test]
fn swap_updates_reserves_and_keeps_output_side_positive() {
    let config = demo_config();
    let mut pool = Pool::create(&config, 1_000_000_000, 500_000_000).unwrap();
    let out = pool
        .apply_swap(&config, config.asset_a, 1_000_000, 0)
        .unwrap();
    assert_eq!(out, 498_252);
    assert_eq!(pool.reserve_a, 1_000_000_000 + 1_000_000);
    assert_eq!(pool.reserve_b, 500_000_000 - 498_252);
    assert!(pool.reserve_b > 0);
    assert_eq!(pool.lp_supply, 1_000_000_000);
}

#[test]
fn swap_in_reverse_direction_uses_the_other_reserve() {
    let config = demo_config();
    let mut pool = Pool::create(&config, 1_000_000_000, 500_000_000).unwrap();
    let out = pool
        .apply_swap(&config, config.asset_b, 1_000_000, 0)
        .unwrap();
    // reserve_in is the B side (500_000_000), reserve_out the A side.
    assert_eq!(pool.reserve_b, 500_000_000 + 1_000_000);
    assert_eq!(pool.reserve_a, 1_000_000_000 - out);
    assert!(out > 0);
}

#[test]
fn slippage_boundary_is_exact() {
    let config = demo_config();
    let mut pool = Pool::create(&config, 1_000_000_000, 500_000_000).unwrap();
    let quoted = 498_252;

    // A minimum exactly equal to the computed output succeeds.
    let before = pool;
    let out = pool
        .apply_swap(&config, config.asset_a, 1_000_000, quoted)
        .unwrap();
    assert_eq!(out, quoted);

    // One unit higher fails with InsufficientOutputAmount, leaving the pool
    // untouched.
    let mut pool2 = before;
    assert_eq!(
        pool2.apply_swap(&config, config.asset_a, 1_000_000, quoted + 1),
        Err(AmmError::InsufficientOutputAmount)
    );
    assert_eq!(pool2, before);
}

#[test]
fn swap_rejects_zero_amount() {
    let config = demo_config();
    let mut pool = Pool::create(&config, 1000, 500).unwrap();
    assert_eq!(
        pool.apply_swap(&config, config.asset_a, 0, 0),
        Err(AmmError::InvalidAmount)
    );
}

#[test]
fn swap_on_empty_reserve_reports_insufficient_liquidity() {
    let config = demo_config();
    let mut pool = Pool {
        asset_a: config.asset_a,
        asset_b: config.asset_b,
        reserve_a: 1000,
        reserve_b: 0,
        lp_supply: 0,
    };
    assert_eq!(
        pool.apply_swap(&config, config.asset_a, 10, 0),
        Err(AmmError::InsufficientLiquidity)
    );
}

#[test]
fn swap_reports_overflow_when_input_reserve_would_exceed_range() {
    let config = demo_config();
    let mut pool = Pool {
        asset_a: config.asset_a,
        asset_b: config.asset_b,
        reserve_a: u64::MAX - 5,
        reserve_b: 500_000_000,
        lp_supply: 1,
    };
    let before = pool;
    assert_eq!(
        pool.apply_swap(&config, config.asset_a, 1_000, 0),
        Err(AmmError::MathOverflow)
    );
    assert_eq!(pool, before);
}

#[test]
fn proportional_liquidity_matches_and_imbalance_takes_the_smaller_share() {
    let config = demo_config();
    // reserves (1000, 500), lp_supply 1000.
    let mut pool = Pool::create(&config, 1000, 500).unwrap();
    let minted = pool.apply_add_liquidity(100, 50).unwrap();
    assert_eq!(minted, 100);
    assert_eq!(pool.reserve_a, 1100);
    assert_eq!(pool.reserve_b, 550);
    assert_eq!(pool.lp_supply, 1100);

    // Imbalanced deposit mints min(100, 80) = 80.
    let mut pool = Pool::create(&config, 1000, 500).unwrap();
    let minted = pool.apply_add_liquidity(100, 40).unwrap();
    assert_eq!(minted, 80);
    assert_eq!(pool.lp_supply, 1080);
}

#[test]
fn bootstrap_liquidity_mints_the_asset_a_amount() {
    let config = demo_config();
    let mut pool = Pool {
        asset_a: config.asset_a,
        asset_b: config.asset_b,
        reserve_a: 0,
        reserve_b: 0,
        lp_supply: 0,
    };
    let minted = pool.apply_add_liquidity(700, 300).unwrap();
    assert_eq!(minted, 700);
    assert_eq!(pool.lp_supply, 700);
}

#[test]
fn add_liquidity_overflow_is_checked() {
    let config = demo_config();
    let mut pool = Pool::create(&config, 1000, 500).unwrap();
    let before = pool;
    assert_eq!(
        pool.apply_add_liquidity(u64::MAX, 1),
        Err(AmmError::MathOverflow)
    );
    assert_eq!(pool, before);
}
