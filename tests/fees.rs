use bonding_curve_system::errors::ErrorCode;
use bonding_curve_system::fees::{calculate_transfer_fee, split_amount};

#[test]
fn test_calculate_transfer_fee() {
    let fee = calculate_transfer_fee(1_000_000_000, 100).unwrap();
    assert_eq!(fee, 10_000_000);

    let fee = calculate_transfer_fee(2_000_000_000, 50).unwrap();
    assert_eq!(fee, 10_000_000);
}

#[test]
fn test_split_amount() {
    let amounts = split_amount(1_000_000_000, &[9500, 400, 100]).unwrap();
    assert_eq!(amounts.len(), 3);
    assert_eq!(amounts[0], 950_000_000);
    assert_eq!(amounts[1], 40_000_000);
    assert_eq!(amounts[2], 10_000_000);

    let total: u64 = amounts.iter().sum();
    assert_eq!(total, 1_000_000_000);
}

#[test]
fn test_split_amount_invalid_percentages() {
    let result = split_amount(1_000_000_000, &[5000, 3000]);
    assert!(result.is_err());

    let result = split_amount(1_000_000_000, &[6000, 5000]);
    assert!(result.is_err());
}

#[test]
fn split_gives_the_remainder_to_the_last_part() {
    assert_eq!(split_amount(999, &[9500, 400, 100]), Ok(vec![949, 39, 11]));
    assert_eq!(split_amount(7, &[10000]), Ok(vec![7]));
    assert_eq!(split_amount(7, &[]), Err(ErrorCode::InvalidAmount));
    assert_eq!(split_amount(u64::MAX, &[5000, 5000]), Err(ErrorCode::MathOverflow));
}

#[test]
fn transfer_fee_overflow() {
    assert_eq!(calculate_transfer_fee(u64::MAX, 2), Err(ErrorCode::MathOverflow));
    assert_eq!(calculate_transfer_fee(u64::MAX, 1), Ok(u64::MAX / 10000));
}
