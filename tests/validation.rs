use bonding_curve_system::args::{AcceptBidArgs, MintNftArgs, PlaceBidArgs};
use bonding_curve_system::errors::ErrorCode;
use bonding_curve_system::types::{Address, BidListingStatus};
use bonding_curve_system::validation::{
    validate_sol_transfer, validate_token_transfer, AccountValidator, BusinessValidator, MathValidator, ValidationResult,
};

#[test]
fn test_validate_bid_amount() {
    assert!(BusinessValidator::validate_bid_amount(1_000_000_000, 500_000_000, 2_000_000_000).is_ok());
    assert!(BusinessValidator::validate_bid_amount(100_000_000, 500_000_000, 2_000_000_000).is_err());
    assert!(BusinessValidator::validate_bid_amount(3_000_000_000, 500_000_000, 2_000_000_000).is_err());
}

#[test]
fn test_validate_duration() {
    assert_eq!(BusinessValidator::validate_duration_seconds(Some(7200)).unwrap(), 7200);
    assert_eq!(BusinessValidator::validate_duration_seconds(None).unwrap(), 0);
    assert!(BusinessValidator::validate_duration_seconds(Some(1800)).is_err());
    assert!(BusinessValidator::validate_duration_seconds(Some(700000)).is_err());
}

#[test]
fn test_safe_math() {
    assert_eq!(MathValidator::safe_add(100, 200).unwrap(), 300);
    assert_eq!(MathValidator::safe_sub(200, 100).unwrap(), 100);
    assert!(MathValidator::safe_sub(100, 200).is_err());
    assert_eq!(MathValidator::safe_mul(100, 200).unwrap(), 20000);
    assert_eq!(MathValidator::safe_div(200, 100).unwrap(), 2);
    assert!(MathValidator::safe_div(200, 0).is_err());
}

#[test]
fn test_calculate_percentage() {
    assert_eq!(MathValidator::calculate_percentage(1000, 1000).unwrap(), 100);
    assert_eq!(MathValidator::calculate_percentage(2000, 5000).unwrap(), 1000);
    assert_eq!(MathValidator::calculate_percentage(500, 10000).unwrap(), 500);
}

#[test]
fn test_place_bid_args_validation() {
    let valid_args = PlaceBidArgs { bid_id: 1, amount: 1_000_000_000, duration_seconds: Some(3600) };
    assert!(valid_args.validate().is_ok());

    let invalid_args = PlaceBidArgs { bid_id: 1, amount: 0, duration_seconds: Some(3600) };
    assert!(invalid_args.validate().is_err());

    let invalid_duration = PlaceBidArgs { bid_id: 1, amount: 1_000_000_000, duration_seconds: Some(700000) };
    assert!(invalid_duration.validate().is_err());
}

#[test]
fn test_accept_bid_args_validation() {
    let valid_args = AcceptBidArgs { bid_id: 1 };
    assert!(valid_args.validate().is_ok());

    let invalid_args = AcceptBidArgs { bid_id: 0 };
    assert!(invalid_args.validate().is_err());
}

#[test]
fn validator_error_kinds() {
    assert_eq!(BusinessValidator::validate_duration_seconds(Some(0)), Err(ErrorCode::InvalidDuration));
    assert_eq!(BusinessValidator::validate_duration_seconds(Some(1800)), Err(ErrorCode::DurationTooShort));
    assert_eq!(BusinessValidator::validate_duration_seconds(Some(700000)), Err(ErrorCode::DurationTooLong));
    assert_eq!(BusinessValidator::validate_bid_amount(0, 0, 10), Err(ErrorCode::InvalidBidAmount));
    assert_eq!(BusinessValidator::validate_bid_amount(11, 0, 10), Err(ErrorCode::BidTooHigh));
    assert_eq!(BusinessValidator::validate_bid_increment(104, 100, 500), Err(ErrorCode::InsufficientBidIncrement));
    assert!(BusinessValidator::validate_bid_increment(105, 100, 500).is_ok());
    assert!(BusinessValidator::validate_bid_increment(1, 0, 500).is_ok());
    assert_eq!(BusinessValidator::validate_premium(109, 100, 1000), Err(ErrorCode::InsufficientPremium));
    assert!(BusinessValidator::validate_premium(110, 100, 1000).is_ok());
    assert_eq!(BusinessValidator::validate_supply_limit(5, 5), Err(ErrorCode::MaxSupplyReached));
    assert_eq!(BusinessValidator::validate_future_timestamp(5, 5), Err(ErrorCode::InvalidTimestamp));
    assert_eq!(BusinessValidator::validate_percentage_bp(10001, 10000), Err(ErrorCode::InvalidPercentage));
    assert_eq!(
        BusinessValidator::validate_listing_status(&BidListingStatus::Cancelled, &BidListingStatus::Active),
        Err(ErrorCode::InvalidListingStatus)
    );
    assert_eq!(BusinessValidator::validate_string("", 5), Err(ErrorCode::EmptyString));
    assert_eq!(BusinessValidator::validate_string("abcdef", 5), Err(ErrorCode::StringTooLong));
    assert!(BusinessValidator::validate_string("abcde", 5).is_ok());
    assert_eq!(MathValidator::safe_add(u64::MAX, 1), Err(ErrorCode::MathOverflow));
    assert_eq!(MathValidator::safe_mul(u64::MAX, 2), Err(ErrorCode::MathOverflow));
    assert_eq!(MathValidator::safe_div(5, 0), Err(ErrorCode::DivisionByZero));
    assert_eq!(MathValidator::validate_range(1, 2, 3), Err(ErrorCode::ValueTooLow));
    assert_eq!(MathValidator::validate_range(4, 2, 3), Err(ErrorCode::ValueTooHigh));
    assert!(MathValidator::validate_range(3, 2, 3).is_ok());
}

#[test]
fn account_checks() {
    let a = Address { w0: 1, w1: 0, w2: 0, w3: 0 };
    let b = Address { w0: 2, w1: 0, w2: 0, w3: 0 };
    assert_eq!(AccountValidator::validate_sol_balance(5, 6), Err(ErrorCode::InsufficientBalance));
    assert!(AccountValidator::validate_sol_balance(6, 6).is_ok());
    assert!(AccountValidator::validate_nft_ownership(&a, &b, 1, &a, &b).is_ok());
    assert_eq!(AccountValidator::validate_nft_ownership(&a, &b, 1, &b, &b), Err(ErrorCode::Unauthorized));
    assert_eq!(AccountValidator::validate_nft_ownership(&a, &b, 1, &a, &a), Err(ErrorCode::InvalidAccount));
    assert_eq!(AccountValidator::validate_nft_ownership(&a, &b, 0, &a, &b), Err(ErrorCode::InsufficientNftBalance));
    assert_eq!(AccountValidator::validate_not_expired(100, 100), Err(ErrorCode::Expired));
    assert!(AccountValidator::validate_not_expired(0, 100).is_ok());
    assert_eq!(AccountValidator::validate_authority(&a, &b), Err(ErrorCode::Unauthorized));
    assert!(ValidationResult::success().is_valid);
    let failed = ValidationResult::error(ErrorCode::BidTooLow, String::from("too low"));
    assert!(!failed.is_valid);
    assert_eq!(failed.error_code, Some(ErrorCode::BidTooLow));
}

#[test]
fn mint_args_lengths() {
    let ok = MintNftArgs { name: String::from("Sketch #1"), symbol: String::from("SKX"), uri: String::from("https://x.io/1.json") };
    assert!(ok.validate().is_ok());
    let long_symbol = MintNftArgs { symbol: String::from("ABCDEFGHIJK"), ..ok.clone() };
    assert_eq!(long_symbol.validate(), Err(ErrorCode::InvalidAmount));
    let no_name = MintNftArgs { name: String::new(), ..ok.clone() };
    assert_eq!(no_name.validate(), Err(ErrorCode::InvalidAmount));
    let long_name = MintNftArgs { name: "n".repeat(33), ..ok };
    assert_eq!(long_name.validate(), Err(ErrorCode::InvalidAmount));
}

#[test]
fn test_validate_sol_transfer() {
    let from_key = Address { w0: 11, w1: 0, w2: 0, w3: 0 };
    let to_key = Address { w0: 12, w1: 0, w2: 0, w3: 0 };
    let result = validate_sol_transfer(&from_key, 1000000, &to_key, 0);
    assert!(result.is_err());
}

#[test]
fn transfer_checks() {
    let a = Address { w0: 11, w1: 0, w2: 0, w3: 0 };
    let b = Address { w0: 12, w1: 0, w2: 0, w3: 0 };
    let m = Address { w0: 99, w1: 0, w2: 0, w3: 0 };
    let n = Address { w0: 98, w1: 0, w2: 0, w3: 0 };
    assert_eq!(validate_sol_transfer(&a, 10, &b, 11), Err(ErrorCode::InsufficientBalance));
    assert_eq!(validate_sol_transfer(&a, 10, &a, 5), Err(ErrorCode::InvalidAccount));
    assert!(validate_sol_transfer(&a, 10, &b, 10).is_ok());
    assert_eq!(validate_token_transfer(&a, &m, 1, &b, &m, 0), Err(ErrorCode::InvalidAmount));
    assert_eq!(validate_token_transfer(&a, &m, 1, &b, &n, 1), Err(ErrorCode::InvalidAccount));
    assert_eq!(validate_token_transfer(&a, &m, 1, &a, &m, 1), Err(ErrorCode::InvalidAccount));
    assert!(validate_token_transfer(&a, &m, 1, &b, &m, 1).is_ok());
}

#[test]
fn test_validate_token_transfer() {
    let from = Address { w0: 21, w1: 0, w2: 0, w3: 0 };
    let to = Address { w0: 22, w1: 0, w2: 0, w3: 0 };
    let mint = Address { w0: 23, w1: 0, w2: 0, w3: 0 };
    assert!(validate_token_transfer(&from, &mint, 1, &to, &mint, 1).is_ok());
}
