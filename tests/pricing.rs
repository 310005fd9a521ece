use bonding_curve_system::errors::ErrorCode;
use bonding_curve_system::listing::BidListing;
use bonding_curve_system::pool::BondingCurvePool;
use bonding_curve_system::pricing::DynamicPricing;
use bonding_curve_system::types::{Address, BidListingStatus, BondingCurveParams, DynamicPricingConfig};

fn pool_at(base_price: u64, supply: u32) -> BondingCurvePool {
    let params = BondingCurveParams { base_price, growth_factor: 11000, max_supply: 1000, migration_threshold: 1 };
    let mut pool = BondingCurvePool::new(
        Address { w0: 1, w1: 0, w2: 0, w3: 0 },
        Address { w0: 2, w1: 0, w2: 0, w3: 0 },
        params,
        DynamicPricingConfig::default(),
        0,
        0,
    )
    .unwrap();
    pool.current_supply = supply;
    pool
}

#[test]
fn test_bid_value_analysis() {
    let bid_amount = 1_100_000_000;
    let pool = pool_at(1_000_000_000, 0);

    let analysis = DynamicPricing::calculate_bid_value_analysis(bid_amount, &pool).unwrap();

    assert_eq!(analysis.premium_amount, 100_000_000);
    assert_eq!(analysis.premium_percentage, 10);
    assert!(analysis.is_profitable);
}

#[test]
fn minimum_bid_follows_supply() {
    let pool = pool_at(100_000_000, 10);
    // 100_000_000 * 1.1^10 = 259_374_246.01; rounding down at each step gives 259_374_245
    let price = DynamicPricing::get_current_bonding_curve_price(&pool).unwrap();
    assert_eq!(price, 259_374_245);
    assert_eq!(DynamicPricing::calculate_minimum_bid_required(&pool, 1000), Ok(285_311_669));
}

#[test]
fn dynamic_bid_validation() {
    let pool = pool_at(100_000_000, 0);
    assert_eq!(
        DynamicPricing::validate_dynamic_bid_amount(109_999_999, &pool, 0, 1000, 500),
        Err(ErrorCode::BidBelowBondingCurve)
    );
    assert!(DynamicPricing::validate_dynamic_bid_amount(110_000_000, &pool, 0, 1000, 500).is_ok());
    // with an offer of 200_000_000 standing, 210_000_000 is needed
    assert_eq!(
        DynamicPricing::validate_dynamic_bid_amount(209_999_999, &pool, 200_000_000, 1000, 500),
        Err(ErrorCode::BidTooLow)
    );
    assert!(DynamicPricing::validate_dynamic_bid_amount(210_000_000, &pool, 200_000_000, 1000, 500).is_ok());
    // a small standing offer does not lower the curve floor
    assert_eq!(
        DynamicPricing::validate_dynamic_bid_amount(105_000_000, &pool, 100_000_000, 1000, 500),
        Err(ErrorCode::BidTooLow)
    );
}

#[test]
fn listing_floor_update_from_pool() {
    let pool = pool_at(100_000_000, 1);
    let zero = Address { w0: 0, w1: 0, w2: 0, w3: 0 };
    let mut listing = BidListing {
        nft_mint: zero,
        lister: zero,
        min_bid: 100_000_000,
        highest_bid: 0,
        highest_bidder: None,
        total_bids: 0,
        status: BidListingStatus::Active,
        created_at: 0,
        expires_at: 0,
        last_price_update: 0,
        bonding_curve_price_at_listing: 100_000_000,
        current_bonding_curve_price: 100_000_000,
        required_premium_bp: 1000,
        bump: 0,
    };
    DynamicPricing::update_listing_minimum_bid(&mut listing, &pool, 1000, 99).unwrap();
    assert_eq!(listing.min_bid, 121_000_000);
    assert_eq!(listing.last_price_update, 99);
}
