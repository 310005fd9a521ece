use bonding_curve_system::curve::BondingCurve;
use bonding_curve_system::errors::ErrorCode;

#[test]
fn test_calculate_price() {
    let base_price = 100_000_000;
    let growth_factor = 11000;

    assert_eq!(BondingCurve::calculate_price(base_price, growth_factor, 0).unwrap(), base_price);

    let second_price = BondingCurve::calculate_price(base_price, growth_factor, 1).unwrap();
    assert_eq!(second_price, 110_000_000);
}

#[test]
fn test_calculate_market_cap() {
    let base_price = 100_000_000;
    let growth_factor = 11000;

    assert_eq!(BondingCurve::calculate_market_cap(base_price, growth_factor, 0).unwrap(), 0);
    assert_eq!(BondingCurve::calculate_market_cap(base_price, growth_factor, 1).unwrap(), base_price);
    let expected = base_price + 110_000_000;
    assert_eq!(BondingCurve::calculate_market_cap(base_price, growth_factor, 2).unwrap(), expected);
}

#[test]
fn test_validate_parameters() {
    // 1000 items at +10% each: the last price, 0.1 * 1.1^999 units, leaves the u64 range.
    assert_eq!(BondingCurve::validate_parameters(100_000_000, 11000, 1000), Err(ErrorCode::MathOverflow));
    assert!(BondingCurve::validate_parameters(100_000_000, 11000, 100).is_ok());
    assert!(BondingCurve::validate_parameters(100, 11000, 1000).is_err());
    assert!(BondingCurve::validate_parameters(100_000_000, 5000, 1000).is_err());
    assert!(BondingCurve::validate_parameters(100_000_000, 11000, 0).is_err());
}

#[test]
fn test_calculate_burn_price() {
    let mint_price = 1_000_000_000;
    let burn_fee = 100;
    let burn_price = BondingCurve::calculate_burn_price(mint_price, burn_fee).unwrap();
    assert_eq!(burn_price, 990_000_000);
}

#[test]
fn test_curve_analysis() {
    let base_price = 100_000_000;
    let growth_factor = 11000;
    let supply = 5;

    let analysis = BondingCurve::analyze_curve(base_price, growth_factor, supply).unwrap();

    assert!(analysis.current_price > 0);
    assert!(analysis.next_price > analysis.current_price);
    assert!(analysis.market_cap > 0);
    assert!(analysis.average_price > 0);
}

#[test]
fn price_compounds_with_rounding_down() {
    // 100_000_000 * 1.1^k, rounded down at each step.
    assert_eq!(BondingCurve::calculate_price(100_000_000, 11000, 2), Ok(121_000_000));
    assert_eq!(BondingCurve::calculate_price(100_000_000, 11000, 3), Ok(133_100_000));
    // 15 * 1.1 = 16.5 -> 16; 16 * 1.1 = 17.6 -> 17.
    assert_eq!(BondingCurve::calculate_price(15, 11000, 1), Ok(16));
    assert_eq!(BondingCurve::calculate_price(15, 11000, 2), Ok(17));
}

#[test]
fn price_rises_at_every_supply() {
    let mut previous = BondingCurve::calculate_price(100_000_000, 11000, 0).unwrap();
    for supply in 1..200u32 {
        match BondingCurve::calculate_price(100_000_000, 11000, supply) {
            Ok(p) => {
                assert!(p > previous);
                previous = p;
            }
            Err(e) => {
                assert_eq!(e, ErrorCode::MathOverflow);
                break;
            }
        }
    }
}

#[test]
fn price_step_swallowed_by_rounding_for_tiny_prices() {
    // 1 * 11000 / 10000 rounds back down to 1: the step is lost.
    assert_eq!(BondingCurve::calculate_price(1, 11000, 5), Ok(1));
}

#[test]
fn price_rejects_invalid_curves() {
    assert_eq!(BondingCurve::calculate_price(0, 11000, 3), Err(ErrorCode::InvalidAmount));
    assert_eq!(BondingCurve::calculate_price(100, 10000, 3), Err(ErrorCode::InvalidAmount));
    assert_eq!(BondingCurve::calculate_price(100, 1100, 0), Err(ErrorCode::InvalidAmount));
}

#[test]
fn price_overflow_is_reported() {
    assert_eq!(BondingCurve::calculate_price(u64::MAX, 20000, 1), Err(ErrorCode::MathOverflow));
    assert_eq!(BondingCurve::calculate_price(u64::MAX, 20000, 0), Ok(u64::MAX));
    assert_eq!(BondingCurve::calculate_market_cap(u64::MAX, 20000, 2), Err(ErrorCode::MathOverflow));
}

#[test]
fn market_cap_sums_prices() {
    assert_eq!(
        BondingCurve::calculate_market_cap(100_000_000, 11000, 3),
        Ok(100_000_000 + 110_000_000 + 121_000_000)
    );
    assert_eq!(BondingCurve::calculate_market_cap(0, 11000, 0), Ok(0));
    assert_eq!(BondingCurve::calculate_market_cap(0, 11000, 1), Err(ErrorCode::InvalidAmount));
}

#[test]
fn price_difference_between_supplies() {
    assert_eq!(BondingCurve::calculate_price_difference(100_000_000, 11000, 1, 2), Ok(11_000_000));
    assert_eq!(BondingCurve::calculate_price_difference(100_000_000, 11000, 2, 2), Ok(0));
    assert_eq!(
        BondingCurve::calculate_price_difference(100_000_000, 11000, 3, 2),
        Err(ErrorCode::InvalidAmount)
    );
}

#[test]
fn supply_for_market_cap_finds_largest_supply() {
    // caps: 0, 100M, 210M, 331M
    assert_eq!(BondingCurve::calculate_supply_for_market_cap(100_000_000, 11000, 0, 10), Ok(0));
    assert_eq!(BondingCurve::calculate_supply_for_market_cap(100_000_000, 11000, 210_000_000, 10), Ok(2));
    assert_eq!(BondingCurve::calculate_supply_for_market_cap(100_000_000, 11000, 330_999_999, 10), Ok(2));
    assert_eq!(BondingCurve::calculate_supply_for_market_cap(100_000_000, 11000, 331_000_000, 10), Ok(3));
    assert_eq!(BondingCurve::calculate_supply_for_market_cap(100_000_000, 11000, u64::MAX, 3), Ok(3));
    assert_eq!(
        BondingCurve::calculate_supply_for_market_cap(0, 11000, 5, 3),
        Err(ErrorCode::InvalidAmount)
    );
}

#[test]
fn burn_price_rejects_fee_above_whole() {
    assert_eq!(BondingCurve::calculate_burn_price(1000, 10001), Err(ErrorCode::InvalidAmount));
    assert_eq!(BondingCurve::calculate_burn_price(1000, 10000), Ok(0));
}

#[test]
fn growth_rate_in_basis_points() {
    assert_eq!(BondingCurve::calculate_growth_rate(100, 110), Ok(11000));
    assert_eq!(BondingCurve::calculate_growth_rate(100, 100), Ok(10000));
    assert_eq!(BondingCurve::calculate_growth_rate(1, 100), Ok(u16::MAX));
    assert_eq!(BondingCurve::calculate_growth_rate(0, 100), Err(ErrorCode::InvalidAmount));
    assert_eq!(BondingCurve::calculate_growth_rate(100, 99), Err(ErrorCode::InvalidAmount));
}

#[test]
fn validate_parameters_reports_expensive_curves() {
    assert_eq!(BondingCurve::validate_parameters(1_000_000_000_000, 50000, 100000), Err(ErrorCode::MathOverflow));
    assert_eq!(BondingCurve::validate_parameters(100_000_000, 10000, 1000), Err(ErrorCode::InvalidAmount));
}

#[test]
fn analysis_figures() {
    let a = BondingCurve::analyze_curve(100_000_000, 11000, 2).unwrap();
    assert_eq!(a.current_price, 121_000_000);
    assert_eq!(a.next_price, 133_100_000);
    assert_eq!(a.price_increase, 12_100_000);
    assert_eq!(a.price_increase_percentage, 1000);
    assert_eq!(a.market_cap, 210_000_000);
    assert_eq!(a.average_price, 105_000_000);
}

#[test]
fn sell_price_is_last_mint_price() {
    assert_eq!(BondingCurve::calculate_sell_price(100_000_000, 11000, 2), Ok(110_000_000));
    assert_eq!(
        BondingCurve::calculate_sell_price(100_000_000, 11000, 0),
        Err(ErrorCode::InsufficientEscrowBalance)
    );
}
