use bonding_curve_system::bid::{BidDetails, BidOutcome, BidTiming, CancellationReason};
use bonding_curve_system::errors::ErrorCode;
use bonding_curve_system::types::{Address, BidStatus};

fn addr(n: u64) -> Address {
    Address { w0: n, w1: n + 1, w2: n + 2, w3: n + 3 }
}

#[test]
fn test_bid_details_creation() {
    let nft_mint = addr(10);
    let bidder = addr(20);
    let amount = 110_000_000;
    let bonding_curve_price = 100_000_000;

    let details = BidDetails::new(nft_mint, bidder, amount, bonding_curve_price).unwrap();

    assert_eq!(details.nft_mint, nft_mint);
    assert_eq!(details.bidder, bidder);
    assert_eq!(details.amount, amount);
    assert_eq!(details.premium_bp, 1000);
    assert!(details.validate().is_ok());
}

#[test]
fn test_bid_timing() {
    let now = 1_700_000_000;
    let duration = 86400;
    let timing = BidTiming::new(now, duration).unwrap();

    assert_eq!(timing.duration, duration);
    assert!(timing.expires_at > timing.created_at);
    assert!(timing.validate().is_ok());
    assert!(timing.remaining_time(now) > 0);
}

#[test]
fn test_bid_outcome_transitions() {
    let mut outcome = BidOutcome::new_active();

    assert_eq!(outcome.status, BidStatus::Active);
    assert!(outcome.accepted_at.is_none());

    assert!(outcome.accept(1000).is_ok());
    assert_eq!(outcome.status, BidStatus::Accepted);
    assert!(outcome.accepted_at.is_some());

    let mut outcome2 = BidOutcome::new_active();
    assert!(outcome2.cancel(CancellationReason::UserCancelled, 1000).is_ok());
    assert_eq!(outcome2.status, BidStatus::Cancelled);
    assert!(outcome2.cancelled_at.is_some());
    assert_eq!(outcome2.cancellation_reason, Some(CancellationReason::UserCancelled));
}

#[test]
fn test_bid_validation() {
    let bid_details = BidDetails { nft_mint: addr(10), bidder: addr(20), amount: 100_000_000, premium_bp: 1000 };
    let bid_timing = BidTiming { created_at: 1000, expires_at: 2000, duration: 1000 };
    let _bid_outcome = BidOutcome::new_active();

    assert!(bid_details.validate().is_ok());
    assert!(bid_timing.validate().is_ok());
}

#[test]
fn accepted_bid_cannot_be_cancelled() {
    let mut outcome = BidOutcome::new_active();
    outcome.accept(5).unwrap();
    assert_eq!(outcome.cancel(CancellationReason::UserCancelled, 6), Err(ErrorCode::InvalidBidStatus));
    assert_eq!(outcome.status, BidStatus::Accepted);
}

#[test]
fn outbid_bid_can_still_be_cancelled() {
    let mut outcome = BidOutcome::new_active();
    outcome.outbid().unwrap();
    assert_eq!(outcome.status, BidStatus::Outbid);
    assert_eq!(outcome.outbid(), Err(ErrorCode::InvalidBidStatus));
    assert!(outcome.cancel(CancellationReason::UserCancelled, 7).is_ok());
}

#[test]
fn details_validation_errors() {
    let zero = Address { w0: 0, w1: 0, w2: 0, w3: 0 };
    let d = BidDetails { nft_mint: addr(1), bidder: addr(2), amount: 0, premium_bp: 0 };
    assert_eq!(d.validate(), Err(ErrorCode::InvalidAmount));
    let d = BidDetails { nft_mint: zero, bidder: addr(2), amount: 5, premium_bp: 0 };
    assert_eq!(d.validate(), Err(ErrorCode::InvalidNftMint));
    let d = BidDetails { nft_mint: addr(1), bidder: zero, amount: 5, premium_bp: 0 };
    assert_eq!(d.validate(), Err(ErrorCode::InvalidAccount));
}

#[test]
fn timing_edges() {
    assert_eq!(BidTiming::new(i64::MAX, 1).map(|t| t.expires_at), Err(ErrorCode::MathOverflow));
    let t = BidTiming { created_at: 1000, expires_at: 2000, duration: 1000 };
    assert_eq!(t.remaining_time(1500), 500);
    assert_eq!(t.remaining_time(2500), 0);
    let bad = BidTiming { created_at: 1000, expires_at: 1000, duration: 0 };
    assert_eq!(bad.validate(), Err(ErrorCode::InvalidDuration));
}
