use bonding_curve_system::errors::ErrorCode;
use bonding_curve_system::listing::BidListing;
use bonding_curve_system::types::{Address, BidListingStatus, DynamicPricingConfig};

fn zero() -> Address {
    Address { w0: 0, w1: 0, w2: 0, w3: 0 }
}

fn create_test_listing() -> BidListing {
    BidListing {
        nft_mint: zero(),
        lister: zero(),
        min_bid: 1_100_000_000,
        highest_bid: 0,
        highest_bidder: None,
        total_bids: 0,
        status: BidListingStatus::Active,
        created_at: 1000,
        expires_at: 2000,
        last_price_update: 1000,
        bonding_curve_price_at_listing: 1_000_000_000,
        current_bonding_curve_price: 1_000_000_000,
        required_premium_bp: 1000,
        bump: 255,
    }
}

#[test]
fn test_listing_is_active() {
    let listing = create_test_listing();
    assert!(listing.is_active(1500));
    assert!(!listing.is_active(2500));
}

#[test]
fn test_place_bid() {
    let mut listing = create_test_listing();
    let config = DynamicPricingConfig::default();

    listing.place_bid(zero(), 1_200_000_000, &config, 1500).unwrap();

    assert_eq!(listing.highest_bid, 1_200_000_000);
    assert_eq!(listing.total_bids, 1);
}

#[test]
fn test_premium_calculation() {
    let listing = create_test_listing();
    let premium = listing.calculate_premium_percentage(1_200_000_000);
    assert_eq!(premium, 2000);
}

#[test]
fn listing_bids_need_the_increment() {
    let mut listing = create_test_listing();
    let config = DynamicPricingConfig::default();
    let bidder = Address { w0: 9, w1: 0, w2: 0, w3: 0 };
    assert_eq!(listing.place_bid(bidder, 1_000_000_000, &config, 1500), Err(ErrorCode::BidTooLow));
    listing.place_bid(bidder, 1_200_000_000, &config, 1500).unwrap();
    // 1.2 * 1.05 = 1.26
    assert_eq!(listing.get_effective_minimum_bid(&config), 1_260_000_000);
    assert_eq!(listing.place_bid(bidder, 1_259_999_999, &config, 1500), Err(ErrorCode::BidTooLow));
    listing.place_bid(bidder, 1_260_000_000, &config, 1600).unwrap();
    assert_eq!(listing.highest_bid, 1_260_000_000);
    assert_eq!(listing.highest_bidder, Some(bidder));
    assert_eq!(listing.place_bid(bidder, 2_000_000_000, &config, 2000), Err(ErrorCode::BidListingExpired));
}

#[test]
fn listing_initialize_sets_floor_from_curve() {
    let mut listing = create_test_listing();
    let config = DynamicPricingConfig::default();
    let lister = Address { w0: 3, w1: 0, w2: 0, w3: 0 };
    listing
        .initialize(zero(), lister, 100_000_000, 110_000_000, &config, 5000, Some(3600), 7)
        .unwrap();
    assert_eq!(listing.min_bid, 121_000_000);
    assert_eq!(listing.expires_at, 8600);
    assert_eq!(listing.status, BidListingStatus::Active);
    assert_eq!(listing.lister, lister);
    assert_eq!(
        listing.initialize(zero(), lister, 0, 110_000_000, &config, 5000, Some(60), 7),
        Err(ErrorCode::InvalidDuration)
    );
}

#[test]
fn listing_floor_follows_curve_upwards_only() {
    let mut listing = create_test_listing();
    let config = DynamicPricingConfig::default();
    listing.update_minimum_bid(1_100_000_000, &config, 1200).unwrap();
    assert_eq!(listing.min_bid, 1_210_000_000);
    assert_eq!(listing.last_price_update, 1200);
    listing.update_minimum_bid(500_000_000, &config, 1300).unwrap();
    assert_eq!(listing.min_bid, 1_210_000_000);
    assert_eq!(listing.current_bonding_curve_price, 500_000_000);
}

#[test]
fn listing_lifecycle() {
    let mut listing = create_test_listing();
    assert_eq!(listing.accept_bid(0, 1500), Err(ErrorCode::BidNotFound));
    assert_eq!(listing.accept_bid(5, 1500), Err(ErrorCode::InvalidBidAmount));
    assert_eq!(listing.expire(1500), Err(ErrorCode::ListingExpired));
    listing.expire(2000).unwrap();
    assert_eq!(listing.status, BidListingStatus::Expired);
    assert_eq!(listing.cancel(2100), Err(ErrorCode::InvalidListingStatus));
    let stats = listing.get_stats(1500);
    assert_eq!(stats.time_remaining, Some(500));
    assert_eq!(stats.premium_percentage, 1000);
}

#[test]
fn every_listing_bid_carries_the_premium() {
    let mut listing = create_test_listing();
    let config = DynamicPricingConfig::default();
    listing.min_bid = 0;
    listing.current_bonding_curve_price = 100;
    let bidder = Address { w0: 9, w1: 0, w2: 0, w3: 0 };
    assert_eq!(listing.place_bid(bidder, 100, &config, 1500), Err(ErrorCode::BidBelowBondingCurve));
    assert_eq!(listing.place_bid(bidder, 109, &config, 1500), Err(ErrorCode::BidBelowBondingCurve));
    assert!(listing.place_bid(bidder, 110, &config, 1500).is_ok());
}

#[test]
fn raised_floor_still_binds_after_an_offer() {
    let mut listing = create_test_listing();
    let config = DynamicPricingConfig::default();
    listing.min_bid = 1000;
    listing.highest_bid = 100;
    listing.highest_bidder = Some(zero());
    listing.current_bonding_curve_price = 1;
    assert_eq!(listing.get_effective_minimum_bid(&config), 1000);
    let bidder = Address { w0: 9, w1: 0, w2: 0, w3: 0 };
    assert_eq!(listing.place_bid(bidder, 105, &config, 1500), Err(ErrorCode::BidTooLow));
    assert!(listing.place_bid(bidder, 1000, &config, 1500).is_ok());
}
