use bonding_curve_system::errors::ErrorCode;
use bonding_curve_system::pool::{BondingCurvePool, NftEscrow, DEFAULT_SELL_FEE_BP};
use bonding_curve_system::types::{Address, BondingCurveParams, DynamicPricingConfig};

fn zero() -> Address {
    Address { w0: 0, w1: 0, w2: 0, w3: 0 }
}

fn create_test_pool() -> BondingCurvePool {
    BondingCurvePool {
        collection: zero(),
        curve_params: BondingCurveParams::default(),
        pricing_config: DynamicPricingConfig::default(),
        current_supply: 0,
        total_escrowed: 0,
        total_platform_fees: 0,
        creator: zero(),
        is_active: true,
        is_migrated: false,
        created_at: 0,
        migrated_at: None,
        bump: 255,
    }
}

#[test]
fn test_pool_mint_nft() {
    let mut pool = create_test_pool();
    assert_eq!(pool.current_supply, 0);

    pool.mint_nft(100_000_000, 99_000_000).unwrap();
    assert_eq!(pool.current_supply, 1);
    assert_eq!(pool.total_escrowed, 99_000_000);
}

#[test]
fn test_pool_burn_nft() {
    let mut pool = create_test_pool();
    pool.mint_nft(100_000_000, 99_000_000).unwrap();

    pool.burn_nft(99_000_000).unwrap();
    assert_eq!(pool.current_supply, 0);
    assert_eq!(pool.total_escrowed, 0);
}

#[test]
fn test_pool_migration() {
    let mut pool = create_test_pool();
    pool.curve_params.migration_threshold = 100;

    assert!(!pool.should_migrate().unwrap());

    pool.total_escrowed = 200;
    pool.current_supply = 10;

    if pool.should_migrate().unwrap() {
        pool.migrate(1000).unwrap();
        assert!(pool.is_migrated);
        assert_eq!(pool.migrated_at, Some(1000));
    }
}

#[test]
fn mint_item_keeps_one_percent_fee_out_of_escrow() {
    let mut pool = create_test_pool();
    let receipt = pool.mint_item().unwrap();
    assert_eq!(receipt.price, 100_000_000);
    assert_eq!(receipt.protocol_fee, 1_000_000);
    assert_eq!(receipt.escrow_amount, 99_000_000);
    assert_eq!(pool.total_escrowed, 99_000_000);
    let second = pool.mint_item().unwrap();
    assert_eq!(second.price, 110_000_000);
    assert_eq!(second.protocol_fee, 1_100_000);
    assert_eq!(second.escrow_amount, 108_900_000);
    assert_eq!(pool.current_supply, 2);
}

#[test]
fn mint_item_refused_when_closed_or_full() {
    let mut pool = create_test_pool();
    pool.is_active = false;
    assert_eq!(pool.mint_item().map(|r| r.price), Err(ErrorCode::PoolInactive));
    let mut pool = create_test_pool();
    pool.curve_params.max_supply = 1;
    pool.mint_item().unwrap();
    assert_eq!(pool.mint_item().map(|r| r.price), Err(ErrorCode::MaxSupplyReached));
    assert_eq!(pool.current_supply, 1);
}

#[test]
fn sell_item_drains_the_escrow() {
    let mut pool = create_test_pool();
    let receipt = pool.mint_item().unwrap();
    let escrow = NftEscrow::open(zero(), &receipt, 1);
    let reserve = 1_000;
    let sold = pool.sell_item(&escrow, escrow.lamports + reserve, reserve, DEFAULT_SELL_FEE_BP).unwrap();
    assert_eq!(sold.fee, 4_950_000);
    assert_eq!(sold.to_seller, 99_000_000 - 4_950_000 + reserve);
    assert_eq!(sold.fee + sold.to_seller, escrow.lamports + reserve);
    assert_eq!(pool.current_supply, 0);
    assert_eq!(pool.total_escrowed, 0);
    assert_eq!(
        pool.sell_item(&escrow, 10, 20, DEFAULT_SELL_FEE_BP).map(|r| r.fee),
        Err(ErrorCode::InsufficientEscrowBalance)
    );
}

#[test]
fn pool_creation_and_minimum_bid() {
    let pool = BondingCurvePool::new(
        zero(),
        zero(),
        BondingCurveParams::default(),
        DynamicPricingConfig::default(),
        42,
        1,
    )
    .unwrap();
    assert!(pool.is_active);
    assert_eq!(pool.calculate_current_price(), Ok(100_000_000));
    assert_eq!(pool.calculate_minimum_bid(), Ok(110_000_000));
    let bad = BondingCurveParams { base_price: 0, ..BondingCurveParams::default() };
    assert_eq!(
        BondingCurvePool::new(zero(), zero(), bad, DynamicPricingConfig::default(), 0, 0).map(|p| p.bump),
        Err(ErrorCode::InvalidAmount)
    );
}

#[test]
fn migrated_pool_stays_closed() {
    let mut pool = create_test_pool();
    pool.curve_params.migration_threshold = 1;
    pool.mint_item().unwrap();
    pool.migrate(77).unwrap();
    assert!(pool.is_migrated);
    assert!(!pool.is_active);
    assert_eq!(pool.reactivate(), Err(ErrorCode::AlreadyMigrated));
    assert_eq!(pool.migrate(78), Err(ErrorCode::AlreadyMigrated));
    assert_eq!(pool.should_migrate(), Ok(false));
}

#[test]
fn pricing_config_update_is_validated() {
    let mut pool = create_test_pool();
    let bad = DynamicPricingConfig { bid_increment_bp: 6000, ..DynamicPricingConfig::default() };
    assert_eq!(pool.update_pricing_config(bad), Err(ErrorCode::InvalidPricingConfig));
    let good = DynamicPricingConfig { minimum_premium_bp: 2000, ..DynamicPricingConfig::default() };
    pool.update_pricing_config(good).unwrap();
    assert_eq!(pool.calculate_minimum_bid(), Ok(120_000_000));
    let stats = pool.get_stats().unwrap();
    assert_eq!(stats.minimum_bid, 120_000_000);
    assert_eq!(stats.market_cap, 0);
}
