use bonding_curve_system::default_config;
use bonding_curve_system::errors::ErrorCode;
use bonding_curve_system::program::{get_program_info, get_program_version, PROGRAM_NAME, PROGRAM_VERSION};
use bonding_curve_system::types::{Address, BondingCurveParams, DynamicPricingConfig, RevenueDistribution};

#[test]
fn test_revenue_distribution_calculation() {
    let distribution = RevenueDistribution::default();
    let total = 1_000_000_000;

    let (minter, platform, collection) = distribution.calculate_shares(total).unwrap();

    assert_eq!(minter, 950_000_000);
    assert_eq!(platform, 40_000_000);
    assert_eq!(collection, 10_000_000);
    assert_eq!(minter + platform + collection, total);
}

#[test]
fn test_revenue_distribution_validation() {
    let mut distribution = RevenueDistribution::default();
    assert!(distribution.validate().is_ok());

    distribution.minter_percentage = 9000;
    assert!(distribution.validate().is_err());
}

#[test]
fn test_dynamic_pricing_config() {
    let config = DynamicPricingConfig::default();
    assert_eq!(config.minimum_premium_bp, 1000);
    assert_eq!(config.bid_increment_bp, 500);
}

#[test]
fn test_revenue_calculation() {
    let total = 1_000_000_000;
    let distribution = RevenueDistribution::default();
    let (minter, platform, collection) = distribution.calculate_shares(total).unwrap();

    assert_eq!(minter, 950_000_000);
    assert_eq!(platform, 40_000_000);
    assert_eq!(collection, 10_000_000);
    assert_eq!(minter + platform + collection, total);
}

#[test]
fn test_default_configs() {
    let curve_params = default_config::bonding_curve_params();
    assert!(curve_params.base_price > 0);
    assert!(curve_params.growth_factor > 10000);

    let pricing_config = default_config::dynamic_pricing_config();
    assert!(pricing_config.minimum_premium_bp > 0);
    assert!(pricing_config.bid_increment_bp > 0);

    let revenue_dist = default_config::revenue_distribution();
    assert_eq!(
        revenue_dist.minter_percentage + revenue_dist.platform_percentage + revenue_dist.collection_percentage,
        10000
    );
}

#[test]
fn test_program_validation() {
    assert!(default_config::validate_program_state().is_ok());
}

#[test]
fn shares_round_down_and_payouts_leave_nothing() {
    let distribution = RevenueDistribution::default();
    // 999 * 9500 / 10000 = 949.05 -> 949; 999 * 400 / 10000 = 39.96 -> 39; 999 / 100 = 9.99 -> 9
    assert_eq!(distribution.calculate_shares(999), Ok((949, 39, 9)));
    // The minter takes the 2 units the rounding left behind.
    assert_eq!(distribution.calculate_payouts(999), Ok((951, 39, 9)));
    assert_eq!(distribution.calculate_payouts(1_000_000_000), Ok((950_000_000, 40_000_000, 10_000_000)));
}

#[test]
fn incomplete_split_is_rejected() {
    let distribution = RevenueDistribution { minter_percentage: 9500, platform_percentage: 400, collection_percentage: 200 };
    assert_eq!(distribution.calculate_shares(1000), Err(ErrorCode::InvalidRevenueSplit));
    assert_eq!(distribution.calculate_payouts(1000), Err(ErrorCode::InvalidRevenueSplit));
}

#[test]
fn curve_params_validation() {
    assert!(BondingCurveParams::default().validate().is_ok());
    let flat = BondingCurveParams { growth_factor: 10000, ..BondingCurveParams::default() };
    assert_eq!(flat.validate(), Err(ErrorCode::InvalidAmount));
}

#[test]
fn test_program_info() {
    let info = get_program_info(Address { w0: 1, w1: 0, w2: 0, w3: 0 });
    assert_eq!(info.name, PROGRAM_NAME);
    assert_eq!(info.version, PROGRAM_VERSION);
    assert!(!info.description.is_empty());
    assert_eq!(get_program_version(), "1.0.0");
}
