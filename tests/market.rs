use bonding_curve_system::distribution::{CollectionDistribution, FeeClaims};
use bonding_curve_system::errors::ErrorCode;
use bonding_curve_system::market::Marketplace;
use bonding_curve_system::pool::BondingCurvePool;
use bonding_curve_system::types::{
    Address, BidListingStatus, BidStatus, BondingCurveParams, DynamicPricingConfig, RevenueDistribution,
};

fn addr(n: u64) -> Address {
    Address { w0: n, w1: 7, w2: 7, w3: 7 }
}

fn distribution() -> CollectionDistribution {
    CollectionDistribution {
        collection: addr(1),
        total_nfts: 0,
        accumulated_fees: 0,
        last_distribution: 0,
        total_distributed: 0,
        distribution_count: 0,
        last_per_nft_amount: 0,
        claims_this_round: 0,
        bump: 0,
    }
}

fn market() -> Marketplace {
    let params = BondingCurveParams {
        base_price: 100_000_000,
        growth_factor: 11000,
        max_supply: 1000,
        migration_threshold: 690_000_000_000,
    };
    let pool = BondingCurvePool::new(addr(1), addr(2), params, DynamicPricingConfig::default(), 0, 0).unwrap();
    Marketplace::new(pool, distribution(), RevenueDistribution::default(), addr(3))
}

fn escrow_sum(m: &Marketplace) -> u128 {
    let items: u128 = m.items.iter().map(|i| i.escrow.lamports as u128).sum();
    let bids: u128 = m.bids.iter().map(|b| b.escrow as u128).sum();
    items + bids
}

#[test]
fn mint_escrows_price_less_one_percent() {
    let mut m = market();
    let receipt = m.mint(addr(10), addr(100), 1000, 1, 1).unwrap();
    assert_eq!(receipt.price, 100_000_000);
    assert_eq!(receipt.protocol_fee, 1_000_000);
    assert_eq!(m.items[0].escrow.lamports, 99_000_000);
    let second = m.mint(addr(11), addr(101), 1001, 1, 1).unwrap();
    assert_eq!(second.price, 110_000_000);
    assert_eq!(m.items[1].escrow.lamports, 110_000_000 - 1_100_000);
    assert_eq!(m.pool.total_escrowed, 99_000_000 + 108_900_000);
    assert_eq!(m.distribution.total_nfts, 2);
}

#[test]
fn accepted_bid_of_one_unit_splits_95_4_1() {
    let mut m = market();
    m.mint(addr(10), addr(100), 1000, 1, 1).unwrap();
    let l = m.list_for_bids(0, addr(10), 0, None, 1000, 1).unwrap();
    let placed = m.place_bid(l, 1, addr(20), 1_000_000_000, None, 1001, 1).unwrap();
    let rec = m.accept_bid(placed.bid_index, addr(10), 1002).unwrap();
    assert_eq!(rec.minter_share, 950_000_000);
    assert_eq!(rec.platform_share, 40_000_000);
    assert_eq!(rec.collection_share, 10_000_000);
    assert_eq!(rec.minter_share + rec.platform_share + rec.collection_share, 1_000_000_000);
    assert_eq!(m.distribution.accumulated_fees, 10_000_000);
    assert_eq!(m.pool.total_platform_fees, 40_000_000);
    assert_eq!(m.items[0].holder, addr(20));
    assert_eq!(m.items[0].tracker.total_revenue_earned, 950_000_000);
    assert_eq!(m.items[0].tracker.sale_count, 1);
}

#[test]
fn outbid_bids_are_refunded_and_best_offer_only_rises() {
    let mut m = market();
    m.mint(addr(10), addr(100), 1000, 1, 1).unwrap();
    let l = m.list_for_bids(0, addr(10), 0, Some(86400), 1000, 1).unwrap();
    // curve price after one mint: 110_000_000; with the 10% premium: 121_000_000
    let first = m.place_bid(l, 1, addr(20), 121_000_000, None, 1001, 1).unwrap();
    assert!(first.refund.is_none());
    assert_eq!(m.listings[l].listing.highest_bid, 121_000_000);
    // needs 121_000_000 * 1.05 = 127_050_000
    assert_eq!(
        m.place_bid(l, 2, addr(21), 127_049_999, None, 1002, 1).map(|r| r.bid_index),
        Err(ErrorCode::BidTooLow)
    );
    let second = m.place_bid(l, 2, addr(21), 127_050_000, None, 1002, 1).unwrap();
    assert_eq!(second.refund, Some((addr(20), 121_000_000)));
    assert_eq!(m.bids[first.bid_index].bid.outcome.status, BidStatus::Outbid);
    assert_eq!(m.bids[first.bid_index].escrow, 0);
    assert_eq!(m.listings[l].listing.highest_bid, 127_050_000);
    let third = m.place_bid(l, 3, addr(22), 200_000_000, None, 1003, 1).unwrap();
    assert_eq!(third.refund, Some((addr(21), 127_050_000)));
    assert_eq!(m.listings[l].listing.highest_bid, 200_000_000);
    assert_eq!(m.listings[l].listing.total_bids, 3);
    // the outbid bidder may still cancel; there is nothing left to refund
    assert_eq!(m.cancel_bid(first.bid_index, addr(20), 1004), Ok(0));
    assert_eq!(escrow_sum(&m), m.total_paid_in - m.total_paid_out);
}

#[test]
fn bid_rules_are_enforced() {
    let mut m = market();
    m.mint(addr(10), addr(100), 1000, 1, 1).unwrap();
    let l = m.list_for_bids(0, addr(10), 0, Some(3600), 1000, 1).unwrap();
    assert_eq!(
        m.place_bid(l, 1, addr(10), 500_000_000, None, 1001, 1).map(|r| r.bid_index),
        Err(ErrorCode::CannotBidOnOwnNft)
    );
    assert_eq!(
        m.place_bid(9, 1, addr(20), 500_000_000, None, 1001, 1).map(|r| r.bid_index),
        Err(ErrorCode::ListingNotFound)
    );
    assert_eq!(
        m.place_bid(l, 1, addr(20), 500_000_000, None, 4600, 1).map(|r| r.bid_index),
        Err(ErrorCode::BidListingNotActive)
    );
    assert_eq!(
        m.place_bid(l, 1, addr(20), 500_000_000, Some(60), 1001, 1).map(|r| r.bid_index),
        Err(ErrorCode::DurationTooShort)
    );
    assert_eq!(m.list_for_bids(0, addr(11), 0, None, 1000, 1), Err(ErrorCode::NftNotOwned));
    // one active listing per item; the lister may close it and list again
    assert_eq!(m.list_for_bids(0, addr(10), 0, None, 1000, 1), Err(ErrorCode::ListingAlreadyExists));
    assert_eq!(m.close_listing(l, addr(20), 1000), Err(ErrorCode::Unauthorized));
    assert_eq!(m.close_listing(l, addr(10), 1000), Ok(BidListingStatus::Cancelled));
    assert_eq!(m.close_listing(l, addr(10), 1000), Err(ErrorCode::InvalidListingStatus));
    // the lister's own floor also binds the first bid
    let high = m.list_for_bids(0, addr(10), 200_000_000, None, 1000, 1).unwrap();
    assert_eq!(
        m.place_bid(high, 1, addr(20), 150_000_000, None, 1001, 1).map(|r| r.bid_index),
        Err(ErrorCode::BidTooLow)
    );
    assert!(m.place_bid(high, 1, addr(20), 200_000_000, None, 1001, 1).is_ok());
    assert_eq!(m.list_for_bids(5, addr(10), 0, None, 1000, 1), Err(ErrorCode::NftNotFound));
}

#[test]
fn cancel_and_accept_permissions() {
    let mut m = market();
    m.mint(addr(10), addr(100), 1000, 1, 1).unwrap();
    let l = m.list_for_bids(0, addr(10), 0, None, 1000, 1).unwrap();
    let b = m.place_bid(l, 1, addr(20), 150_000_000, Some(3600), 1001, 1).unwrap().bid_index;
    assert_eq!(m.cancel_bid(b, addr(21), 1002), Err(ErrorCode::Unauthorized));
    assert_eq!(m.accept_bid(b, addr(21), 1002).map(|r| r.buyer), Err(ErrorCode::Unauthorized));
    assert_eq!(m.accept_bid(b, addr(10), 4601).map(|r| r.buyer), Err(ErrorCode::BidExpired));
    // once expired, anyone may cancel on the bidder's behalf
    assert_eq!(m.cancel_bid(b, addr(21), 4601), Ok(150_000_000));
    assert_eq!(m.bids[b].bid.outcome.status, BidStatus::Cancelled);
    assert_eq!(m.cancel_bid(b, addr(20), 4602), Err(ErrorCode::InvalidBidStatus));
    assert_eq!(m.accept_bid(b, addr(10), 1002).map(|r| r.buyer), Err(ErrorCode::InvalidBidStatus));
    assert_eq!(m.accept_bid(7, addr(10), 1002).map(|r| r.buyer), Err(ErrorCode::BidNotFound));
}

#[test]
fn escrow_is_conserved_over_a_session() {
    let mut m = market();
    m.mint(addr(10), addr(100), 1000, 1, 1).unwrap();
    m.mint(addr(11), addr(101), 1000, 1, 1).unwrap();
    assert_eq!(escrow_sum(&m), m.total_paid_in - m.total_paid_out);
    let l0 = m.list_for_bids(0, addr(10), 0, None, 1000, 1).unwrap();
    let l1 = m.list_for_bids(1, addr(11), 0, None, 1000, 1).unwrap();
    let a = m.place_bid(l0, 1, addr(20), 200_000_000, None, 1001, 1).unwrap().bid_index;
    assert_eq!(escrow_sum(&m), m.total_paid_in - m.total_paid_out);
    let b = m.place_bid(l1, 1, addr(21), 300_000_000, None, 1001, 1).unwrap().bid_index;
    m.place_bid(l0, 2, addr(22), 400_000_000, None, 1002, 1).unwrap();
    assert_eq!(escrow_sum(&m), m.total_paid_in - m.total_paid_out);
    m.cancel_bid(b, addr(21), 1003).unwrap();
    assert_eq!(escrow_sum(&m), m.total_paid_in - m.total_paid_out);
    assert_eq!(m.bids[a].escrow, 0);
    m.accept_bid(2, addr(10), 1004).unwrap();
    assert_eq!(escrow_sum(&m), m.total_paid_in - m.total_paid_out);
    assert_eq!(escrow_sum(&m), 99_000_000 + 108_900_000);
    assert_eq!(m.listings[l0].listing.status, BidListingStatus::Accepted);
}

#[test]
fn end_to_end_mint_list_bid_accept() {
    let mut m = market();
    let minted = m.mint(addr(10), addr(100), 1000, 1, 1).unwrap();
    assert_eq!(minted.price, 100_000_000);
    let l = m.list_for_bids(0, addr(10), 100_000_000, None, 1000, 1).unwrap();
    // the curve price itself carries no premium and is refused
    assert_eq!(
        m.place_bid(l, 1, addr(20), 110_000_000, None, 1001, 1).map(|r| r.bid_index),
        Err(ErrorCode::BidBelowBondingCurve)
    );
    let placed = m.place_bid(l, 2, addr(20), 121_000_000, None, 1002, 1).unwrap();
    let rec = m.accept_bid(placed.bid_index, addr(10), 1003).unwrap();
    assert_eq!(rec.minter, addr(10));
    assert_eq!(rec.minter_share, 114_950_000);
    assert_eq!(rec.platform_share, 4_840_000);
    assert_eq!(rec.collection_share, 1_210_000);
    assert_eq!(rec.platform, addr(3));
    assert_eq!(m.distribution.accumulated_fees, 1_210_000);
}

#[test]
fn fee_claim_is_paid_once_per_round() {
    let mut d = distribution();
    d.total_nfts = 4;
    d.add_fees(1_210_003);
    assert_eq!(d.get_per_nft_distribution(), 302_500);
    assert_eq!(d.distribute_fees(50), Ok(302_500));
    assert_eq!(d.accumulated_fees, 3);
    assert_eq!(d.total_distributed, 1_210_000);
    assert_eq!(d.distribution_count, 1);
    let mut claims = FeeClaims::new();
    let mut holder_balance: u64 = 0;
    holder_balance += claims.claim(&mut d, addr(100), addr(10), 1, 60, 1).unwrap();
    assert_eq!(holder_balance, 302_500);
    let second = claims.claim(&mut d, addr(100), addr(10), 1, 61, 1);
    assert_eq!(second, Err(ErrorCode::InvalidAmount));
    if let Ok(paid) = second {
        holder_balance += paid;
    }
    assert_eq!(holder_balance, 302_500);
    assert_eq!(claims.claims.len(), 1);
    assert!(claims.has_claimed(&addr(100), 1));
    assert_eq!(claims.claim(&mut d, addr(101), addr(11), 2, 62, 1), Err(ErrorCode::InvalidAmount));
    assert_eq!(claims.claim(&mut d, addr(101), addr(11), 1, 62, 1), Ok(302_500));
}

#[test]
fn distribution_needs_fees_and_items() {
    let mut d = distribution();
    assert_eq!(d.distribute_fees(1), Err(ErrorCode::InsufficientCollectionFees));
    d.add_fees(10);
    assert_eq!(d.distribute_fees(1), Err(ErrorCode::InvalidAmount));
    d.add_fees(u64::MAX);
    assert_eq!(d.accumulated_fees, u64::MAX);
    assert_eq!(d.get_collection_share(1_000_000_000), 10_000_000);
}

#[test]
fn selling_back_closes_the_escrow() {
    let mut m = market();
    m.mint(addr(10), addr(100), 1000, 1, 1).unwrap();
    m.mint(addr(11), addr(101), 1000, 1, 1).unwrap();
    let l = m.list_for_bids(1, addr(11), 0, None, 1000, 1).unwrap();
    let b = m.place_bid(l, 1, addr(20), 300_000_000, None, 1001, 1).unwrap().bid_index;
    let reserve = 1_113_600;
    assert_eq!(m.sell_item(1, addr(10), reserve, 500).map(|r| r.fee), Err(ErrorCode::NftNotOwned));
    let sold = m.sell_item(1, addr(11), reserve, 500).unwrap();
    // escrow of the second item: 110_000_000 - 1_100_000 = 108_900_000; 5% of it is 5_445_000;
    // the reserve goes back to the seller untouched by the fee
    assert_eq!(sold.fee, 5_445_000);
    assert_eq!(sold.to_seller, 108_900_000 - 5_445_000 + reserve);
    assert_eq!(m.items[1].escrow.lamports, 0);
    assert_eq!(m.pool.current_supply, 1);
    assert_eq!(m.pool.total_escrowed, 99_000_000);
    assert_eq!(escrow_sum(&m), m.total_paid_in - m.total_paid_out);
    // a sold item can neither be sold, listed, bid on nor handed over again
    assert_eq!(m.sell_item(1, addr(11), reserve, 500).map(|r| r.fee), Err(ErrorCode::NftNotFound));
    assert_eq!(m.list_for_bids(1, addr(11), 0, None, 1002, 1), Err(ErrorCode::NftNotFound));
    assert_eq!(
        m.place_bid(l, 2, addr(21), 400_000_000, None, 1002, 1).map(|r| r.bid_index),
        Err(ErrorCode::NftNotFound)
    );
    assert_eq!(m.accept_bid(b, addr(11), 1002).map(|r| r.buyer), Err(ErrorCode::NftNotFound));
    // the bidder gets the funds back
    assert_eq!(m.cancel_bid(b, addr(20), 1003), Ok(300_000_000));
    assert_eq!(escrow_sum(&m), 99_000_000);
    assert_eq!(escrow_sum(&m), m.total_paid_in - m.total_paid_out);
}

#[test]
fn expired_listing_can_be_closed_by_anyone_and_new_holder_relists() {
    let mut m = market();
    m.mint(addr(10), addr(100), 1000, 1, 1).unwrap();
    let l = m.list_for_bids(0, addr(10), 0, Some(3600), 1000, 1).unwrap();
    assert_eq!(m.close_listing(l, addr(30), 2000), Err(ErrorCode::Unauthorized));
    assert_eq!(m.close_listing(l, addr(30), 4600), Ok(BidListingStatus::Expired));
    let l2 = m.list_for_bids(0, addr(10), 0, None, 4700, 1).unwrap();
    let b = m.place_bid(l2, 1, addr(20), 121_000_000, None, 4701, 1).unwrap().bid_index;
    m.accept_bid(b, addr(10), 4702).unwrap();
    assert_eq!(m.items[0].holder, addr(20));
    // the former holder may no longer list; the new holder may
    assert_eq!(m.list_for_bids(0, addr(10), 0, None, 4703, 1), Err(ErrorCode::NftNotOwned));
    let l3 = m.list_for_bids(0, addr(20), 0, None, 4703, 1).unwrap();
    // the holder cannot bid on their own item, the former holder can
    assert_eq!(
        m.place_bid(l3, 2, addr(20), 500_000_000, None, 4704, 1).map(|r| r.bid_index),
        Err(ErrorCode::CannotBidOnOwnNft)
    );
    let placed = m.place_bid(l3, 2, addr(10), 500_000_000, None, 4704, 1).unwrap();
    assert_eq!(m.listings[l3].listing.highest_bidder, Some(addr(10)));
    assert_eq!(m.listings[l3].leader, Some(placed.bid_index));
    assert_eq!(m.listings[l3].listing.total_bids, 1);
    assert_eq!(m.items[0].tracker.sale_count, 1);
    assert_eq!(m.items[0].tracker.total_revenue_earned, 121_000_000 - 4_840_000 - 1_210_000);
}

#[test]
fn mint_records_price_in_escrow() {
    let mut m = market();
    let rec = m.mint(addr(10), addr(100), 1000, 3, 4).unwrap();
    assert_eq!(rec.escrow_amount, 99_000_000);
    assert_eq!(m.items[0].escrow.last_price, 100_000_000);
    assert_eq!(m.items[0].escrow.bump, 3);
    assert_eq!(m.items[0].tracker.bump, 4);
    assert_eq!(m.pool.total_escrowed, m.items[0].escrow.lamports);
}
