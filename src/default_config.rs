use vstd::prelude::*;

use crate::errors::ErrorCode;
use crate::types::{BondingCurveParams, DynamicPricingConfig, RevenueDistribution};

verus! {

/// The default curve: 0.1 unit to start, +10% per item, 1000 items, migration
/// at 690 units of market cap.
pub fn bonding_curve_params() -> (r: BondingCurveParams)
    ensures
        r.base_price == 100_000_000,
        r.growth_factor == 11000,
        r.max_supply == 1000,
        r.migration_threshold == 690_000_000_000,
{
    BondingCurveParams {
        base_price: 100_000_000,
        growth_factor: 11000,
        max_supply: 1000,
        migration_threshold: 690_000_000_000,
    }
}

/// The default bid rules: 10% premium, 5% increment, one hour to one week.
pub fn dynamic_pricing_config() -> (r: DynamicPricingConfig)
    ensures
        r.minimum_premium_bp == 1000,
        r.bid_increment_bp == 500,
        r.max_bid_duration == 604800,
        r.min_bid_duration == 3600,
{
    DynamicPricingConfig {
        minimum_premium_bp: 1000,
        bid_increment_bp: 500,
        max_bid_duration: 604800,
        min_bid_duration: 3600,
    }
}

/// The default split: 95% to the minter, 4% to the platform, 1% to the collection.
pub fn revenue_distribution() -> (r: RevenueDistribution)
    ensures
        r.minter_percentage == 9500,
        r.platform_percentage == 400,
        r.collection_percentage == 100,
{
    RevenueDistribution { minter_percentage: 9500, platform_percentage: 400, collection_percentage: 100 }
}

/// The default configuration is consistent: a usable curve and a split of exactly 100%.
pub fn validate_program_state() -> (r: Result<(), ErrorCode>)
    ensures
        r is Ok,
{
    bonding_curve_params().validate()?;
    revenue_distribution().validate()?;
    Ok(())
}

} // verus!
