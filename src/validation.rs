use vstd::prelude::*;

use crate::curve::{bp_share, raise_by_bp, raised_by_bp, share_of_bp};
use crate::errors::ErrorCode;
use crate::types::{Address, BidListingStatus};

verus! {

/// Shortest bid or listing duration in seconds (one hour).
pub const MIN_DURATION_SECONDS: i64 = 3600;

/// Longest bid or listing duration in seconds (one week).
pub const MAX_DURATION_SECONDS: i64 = 604800;

/// Checks on the accounts taking part in an operation, given their plain values.
pub struct AccountValidator;

/// Checks on amounts, durations, percentages and statuses.
pub struct BusinessValidator;

/// Arithmetic that reports overflow, underflow and division by zero as errors.
pub struct MathValidator;

/// Outcome of a validation that did not stop at the first error.
#[derive(Clone, Debug)]
pub struct ValidationResult {
    pub is_valid: bool,
    pub error_code: Option<ErrorCode>,
    pub error_message: Option<String>,
}

impl AccountValidator {
    /// The account holds at least `required_amount`.
    pub fn validate_sol_balance(balance: u64, required_amount: u64) -> (r: Result<(), ErrorCode>)
        ensures
            balance >= required_amount ==> r is Ok,
            balance < required_amount ==> r == Err::<(), ErrorCode>(
                ErrorCode::InsufficientBalance,
            ),
    {
        if balance < required_amount {
            return Err(ErrorCode::InsufficientBalance);
        }
        Ok(())
    }

    /// A token account owned by `owner`, for `mint`, holding exactly one token.
    pub fn validate_nft_ownership(
        account_owner: &Address,
        account_mint: &Address,
        account_amount: u64,
        owner: &Address,
        mint: &Address,
    ) -> (r: Result<(), ErrorCode>)
        ensures
            *account_owner != *owner ==> r == Err::<(), ErrorCode>(ErrorCode::Unauthorized),
            *account_owner == *owner && *account_mint != *mint ==> r == Err::<(), ErrorCode>(
                ErrorCode::InvalidAccount,
            ),
            *account_owner == *owner && *account_mint == *mint && account_amount != 1 ==> r
                == Err::<(), ErrorCode>(ErrorCode::InsufficientNftBalance),
            r is Ok <==> (*account_owner == *owner && *account_mint == *mint && account_amount
                == 1),
    {
        if *account_owner != *owner {
            return Err(ErrorCode::Unauthorized);
        }
        if *account_mint != *mint {
            return Err(ErrorCode::InvalidAccount);
        }
        if account_amount != 1 {
            return Err(ErrorCode::InsufficientNftBalance);
        }
        Ok(())
    }

    /// Not past a set expiry (0 = never expires).
    pub fn validate_not_expired(expires_at: i64, current_time: i64) -> (r: Result<(), ErrorCode>)
        ensures
            r is Ok <==> (expires_at <= 0 || current_time < expires_at),
            r is Err ==> r == Err::<(), ErrorCode>(ErrorCode::Expired),
    {
        if expires_at > 0 && current_time >= expires_at {
            return Err(ErrorCode::Expired);
        }
        Ok(())
    }

    /// The signer is the expected authority.
    pub fn validate_authority(signer: &Address, expected: &Address) -> (r: Result<(), ErrorCode>)
        ensures
            r is Ok <==> *signer == *expected,
            r is Err ==> r == Err::<(), ErrorCode>(ErrorCode::Unauthorized),
    {
        if *signer != *expected {
            return Err(ErrorCode::Unauthorized);
        }
        Ok(())
    }
}

/// Durations accepted for bids and listings: none, or one hour to one week.
pub open spec fn duration_ok(duration: Option<i64>) -> bool {
    match duration {
        Some(d) => MIN_DURATION_SECONDS <= d <= MAX_DURATION_SECONDS,
        None => true,
    }
}

impl BusinessValidator {
    /// A positive amount between `min_amount` and `max_amount`.
    pub fn validate_bid_amount(amount: u64, min_amount: u64, max_amount: u64) -> (r: Result<
        (),
        ErrorCode,
    >)
        ensures
            amount == 0 ==> r == Err::<(), ErrorCode>(ErrorCode::InvalidBidAmount),
            amount > 0 && amount < min_amount ==> r == Err::<(), ErrorCode>(ErrorCode::BidTooLow),
            amount > 0 && amount >= min_amount && amount > max_amount ==> r == Err::<
                (),
                ErrorCode,
            >(ErrorCode::BidTooHigh),
            r is Ok <==> (amount > 0 && min_amount <= amount <= max_amount),
    {
        if amount == 0 {
            return Err(ErrorCode::InvalidBidAmount);
        }
        if amount < min_amount {
            return Err(ErrorCode::BidTooLow);
        }
        if amount > max_amount {
            return Err(ErrorCode::BidTooHigh);
        }
        Ok(())
    }

    /// A duration of one hour to one week; no duration means no expiry (0).
    pub fn validate_duration_seconds(duration_seconds: Option<i64>) -> (r: Result<i64, ErrorCode>)
        ensures
            duration_seconds is None ==> r == Ok::<i64, ErrorCode>(0),
            duration_seconds matches Some(d) && d <= 0 ==> r == Err::<i64, ErrorCode>(
                ErrorCode::InvalidDuration,
            ),
            duration_seconds matches Some(d) && 0 < d < MIN_DURATION_SECONDS ==> r == Err::<
                i64,
                ErrorCode,
            >(ErrorCode::DurationTooShort),
            duration_seconds matches Some(d) && d > MAX_DURATION_SECONDS ==> r == Err::<
                i64,
                ErrorCode,
            >(ErrorCode::DurationTooLong),
            duration_seconds matches Some(d) ==> (MIN_DURATION_SECONDS <= d <= MAX_DURATION_SECONDS
                ==> r == Ok::<i64, ErrorCode>(d)),
            r is Ok <==> duration_ok(duration_seconds),
    {
        match duration_seconds {
            Some(duration) => {
                if duration <= 0 {
                    return Err(ErrorCode::InvalidDuration);
                }
                if duration < MIN_DURATION_SECONDS {
                    return Err(ErrorCode::DurationTooShort);
                }
                if duration > MAX_DURATION_SECONDS {
                    return Err(ErrorCode::DurationTooLong);
                }
                Ok(duration)
            },
            None => Ok(0),
        }
    }

    /// A percentage of at most `max_bp` basis points.
    pub fn validate_percentage_bp(percentage_bp: u16, max_bp: u16) -> (r: Result<(), ErrorCode>)
        ensures
            r is Ok <==> percentage_bp <= max_bp,
            r is Err ==> r == Err::<(), ErrorCode>(ErrorCode::InvalidPercentage),
    {
        if percentage_bp > max_bp {
            return Err(ErrorCode::InvalidPercentage);
        }
        Ok(())
    }

    /// The listing is in the status an operation needs.
    pub fn validate_listing_status(
        current_status: &BidListingStatus,
        required_status: &BidListingStatus,
    ) -> (r: Result<(), ErrorCode>)
        ensures
            r is Ok <==> *current_status == *required_status,
            r is Err ==> r == Err::<(), ErrorCode>(ErrorCode::InvalidListingStatus),
    {
        if *current_status != *required_status {
            return Err(ErrorCode::InvalidListingStatus);
        }
        Ok(())
    }

    /// With a best offer standing, a new bid must reach it raised by `increment_bp`.
    pub fn validate_bid_increment(new_bid: u64, current_highest: u64, increment_bp: u16) -> (r:
        Result<(), ErrorCode>)
        ensures
            current_highest == 0 ==> r is Ok,
            current_highest > 0 && raised_by_bp(current_highest as nat, increment_bp as nat)
                > u64::MAX ==> r == Err::<(), ErrorCode>(ErrorCode::MathOverflow),
            current_highest > 0 && raised_by_bp(current_highest as nat, increment_bp as nat)
                <= u64::MAX ==> (r is Ok <==> new_bid >= raised_by_bp(
                current_highest as nat,
                increment_bp as nat,
            )),
            r is Err ==> r == Err::<(), ErrorCode>(ErrorCode::MathOverflow) || r == Err::<
                (),
                ErrorCode,
            >(ErrorCode::InsufficientBidIncrement),
    {
        if current_highest == 0 {
            return Ok(());
        }
        let minimum_bid = raise_by_bp(current_highest, increment_bp)?;
        if new_bid < minimum_bid {
            return Err(ErrorCode::InsufficientBidIncrement);
        }
        Ok(())
    }

    /// A bid must reach `base_price` raised by `minimum_premium_bp`.
    pub fn validate_premium(bid_amount: u64, base_price: u64, minimum_premium_bp: u16) -> (r:
        Result<(), ErrorCode>)
        ensures
            raised_by_bp(base_price as nat, minimum_premium_bp as nat) > u64::MAX ==> r == Err::<
                (),
                ErrorCode,
            >(ErrorCode::MathOverflow),
            raised_by_bp(base_price as nat, minimum_premium_bp as nat) <= u64::MAX ==> (r is Ok
                <==> bid_amount >= raised_by_bp(base_price as nat, minimum_premium_bp as nat)),
            r is Err ==> r == Err::<(), ErrorCode>(ErrorCode::MathOverflow) || r == Err::<
                (),
                ErrorCode,
            >(ErrorCode::InsufficientPremium),
    {
        let minimum_bid = raise_by_bp(base_price, minimum_premium_bp)?;
        if bid_amount < minimum_bid {
            return Err(ErrorCode::InsufficientPremium);
        }
        Ok(())
    }

    /// Room for one more item.
    pub fn validate_supply_limit(current_supply: u32, max_supply: u32) -> (r: Result<
        (),
        ErrorCode,
    >)
        ensures
            r is Ok <==> current_supply < max_supply,
            r is Err ==> r == Err::<(), ErrorCode>(ErrorCode::MaxSupplyReached),
    {
        if current_supply >= max_supply {
            return Err(ErrorCode::MaxSupplyReached);
        }
        Ok(())
    }

    /// A time strictly after `current_time`.
    pub fn validate_future_timestamp(timestamp: i64, current_time: i64) -> (r: Result<
        (),
        ErrorCode,
    >)
        ensures
            r is Ok <==> timestamp > current_time,
            r is Err ==> r == Err::<(), ErrorCode>(ErrorCode::InvalidTimestamp),
    {
        if timestamp <= current_time {
            return Err(ErrorCode::InvalidTimestamp);
        }
        Ok(())
    }

    /// A text that is not empty and at most `max_length` bytes long.
    pub fn validate_string(text: &str, max_length: usize) -> (r: Result<(), ErrorCode>)
        ensures
            text@.len() == 0 ==> r == Err::<(), ErrorCode>(ErrorCode::EmptyString),
            text@.len() > 0 && text.len() > max_length ==> r == Err::<(), ErrorCode>(
                ErrorCode::StringTooLong,
            ),
            r is Ok <==> (text@.len() > 0 && text.len() <= max_length),
    {
        if text.is_empty() {
            return Err(ErrorCode::EmptyString);
        }
        if text.len() > max_length {
            return Err(ErrorCode::StringTooLong);
        }
        Ok(())
    }
}

impl MathValidator {
    /// `a + b`.
    pub fn safe_add(a: u64, b: u64) -> (r: Result<u64, ErrorCode>)
        ensures
            a + b <= u64::MAX ==> r == Ok::<u64, ErrorCode>((a + b) as u64),
            a + b > u64::MAX ==> r == Err::<u64, ErrorCode>(ErrorCode::MathOverflow),
    {
        match a.checked_add(b) {
            Some(v) => Ok(v),
            None => Err(ErrorCode::MathOverflow),
        }
    }

    /// `a - b`.
    pub fn safe_sub(a: u64, b: u64) -> (r: Result<u64, ErrorCode>)
        ensures
            a >= b ==> r == Ok::<u64, ErrorCode>((a - b) as u64),
            a < b ==> r == Err::<u64, ErrorCode>(ErrorCode::MathUnderflow),
    {
        match a.checked_sub(b) {
            Some(v) => Ok(v),
            None => Err(ErrorCode::MathUnderflow),
        }
    }

    /// `a * b`.
    pub fn safe_mul(a: u64, b: u64) -> (r: Result<u64, ErrorCode>)
        ensures
            a * b <= u64::MAX ==> r == Ok::<u64, ErrorCode>((a * b) as u64),
            a * b > u64::MAX ==> r == Err::<u64, ErrorCode>(ErrorCode::MathOverflow),
    {
        match a.checked_mul(b) {
            Some(v) => Ok(v),
            None => Err(ErrorCode::MathOverflow),
        }
    }

    /// `a / b`, rounded down.
    pub fn safe_div(a: u64, b: u64) -> (r: Result<u64, ErrorCode>)
        ensures
            b > 0 ==> r == Ok::<u64, ErrorCode>(a / b),
            b == 0 ==> r == Err::<u64, ErrorCode>(ErrorCode::DivisionByZero),
    {
        if b == 0 {
            return Err(ErrorCode::DivisionByZero);
        }
        Ok(a / b)
    }

    /// `percentage_bp` basis points of `amount`, rounded down.
    pub fn calculate_percentage(amount: u64, percentage_bp: u16) -> (r: Result<u64, ErrorCode>)
        ensures
            bp_share(amount as nat, percentage_bp as nat) <= u64::MAX ==> r == Ok::<u64, ErrorCode>(
                bp_share(amount as nat, percentage_bp as nat) as u64,
            ),
            bp_share(amount as nat, percentage_bp as nat) > u64::MAX ==> r == Err::<u64, ErrorCode>(
                ErrorCode::MathOverflow,
            ),
    {
        share_of_bp(amount, percentage_bp)
    }

    /// `min <= value <= max`.
    pub fn validate_range(value: u64, min: u64, max: u64) -> (r: Result<(), ErrorCode>)
        ensures
            value < min ==> r == Err::<(), ErrorCode>(ErrorCode::ValueTooLow),
            value >= min && value > max ==> r == Err::<(), ErrorCode>(ErrorCode::ValueTooHigh),
            r is Ok <==> min <= value <= max,
    {
        if value < min {
            return Err(ErrorCode::ValueTooLow);
        }
        if value > max {
            return Err(ErrorCode::ValueTooHigh);
        }
        Ok(())
    }
}

impl ValidationResult {
    /// A passing result.
    pub fn success() -> (r: ValidationResult)
        ensures
            r.is_valid,
            r.error_code is None,
            r.error_message is None,
    {
        ValidationResult { is_valid: true, error_code: None, error_message: None }
    }

    /// A failing result with its error and message.
    pub fn error(code: ErrorCode, message: String) -> (r: ValidationResult)
        ensures
            !r.is_valid,
            r.error_code == Some(code),
            r.error_message == Some(message),
    {
        ValidationResult { is_valid: false, error_code: Some(code), error_message: Some(message) }
    }
}

/// A transfer of `amount` lamports between two different accounts, the sender
/// holding at least that much.
pub fn validate_sol_transfer(from: &Address, from_balance: u64, to: &Address, amount: u64) -> (r:
    Result<(), ErrorCode>)
    ensures
        amount == 0 ==> r == Err::<(), ErrorCode>(ErrorCode::InvalidAmount),
        amount > 0 && from_balance < amount ==> r == Err::<(), ErrorCode>(
            ErrorCode::InsufficientBalance,
        ),
        amount > 0 && from_balance >= amount && *from == *to ==> r == Err::<(), ErrorCode>(
            ErrorCode::InvalidAccount,
        ),
        r is Ok <==> (amount > 0 && from_balance >= amount && *from != *to),
{
    if amount == 0 {
        return Err(ErrorCode::InvalidAmount);
    }
    if from_balance < amount {
        return Err(ErrorCode::InsufficientBalance);
    }
    if *from == *to {
        return Err(ErrorCode::InvalidAccount);
    }
    Ok(())
}

/// A transfer of `amount` tokens between two different token accounts of the
/// same mint, the sender holding at least that much.
pub fn validate_token_transfer(
    from: &Address,
    from_mint: &Address,
    from_amount: u64,
    to: &Address,
    to_mint: &Address,
    amount: u64,
) -> (r: Result<(), ErrorCode>)
    ensures
        amount == 0 ==> r == Err::<(), ErrorCode>(ErrorCode::InvalidAmount),
        amount > 0 && from_amount < amount ==> r == Err::<(), ErrorCode>(
            ErrorCode::InsufficientBalance,
        ),
        amount > 0 && from_amount >= amount && (*from_mint != *to_mint || *from == *to) ==> r
            == Err::<(), ErrorCode>(ErrorCode::InvalidAccount),
        r is Ok <==> (amount > 0 && from_amount >= amount && *from_mint == *to_mint && *from
            != *to),
{
    if amount == 0 {
        return Err(ErrorCode::InvalidAmount);
    }
    if from_amount < amount {
        return Err(ErrorCode::InsufficientBalance);
    }
    if *from_mint != *to_mint {
        return Err(ErrorCode::InvalidAccount);
    }
    if *from == *to {
        return Err(ErrorCode::InvalidAccount);
    }
    Ok(())
}

} // verus!
