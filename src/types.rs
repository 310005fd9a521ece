use vstd::prelude::*;

use crate::curve::{bp_share, share_of_bp};
use crate::errors::ErrorCode;

verus! {

/// A 32-byte account address, held as four little-endian 64-bit words.
#[derive(Clone, Copy, Debug, PartialEq, Eq, Structural, Hash)]
pub struct Address {
    pub w0: u64,
    pub w1: u64,
    pub w2: u64,
    pub w3: u64,
}

impl Address {
    /// The all-zero address, which designates no account.
    pub fn zero() -> (r: Address)
        ensures
            r.is_zero(),
    {
        Address { w0: 0, w1: 0, w2: 0, w3: 0 }
    }

    pub open spec fn is_zero(&self) -> bool {
        self.w0 == 0 && self.w1 == 0 && self.w2 == 0 && self.w3 == 0
    }

    /// Whether this is the all-zero address.
    pub fn is_default(&self) -> (r: bool)
        ensures
            r == self.is_zero(),
    {
        self.w0 == 0 && self.w1 == 0 && self.w2 == 0 && self.w3 == 0
    }
}

/// Lifecycle of a listing open for bids.
#[derive(Clone, Copy, Debug, PartialEq, Eq, Structural)]
pub enum BidListingStatus {
    /// Open and accepting bids.
    Active,
    /// A bid was accepted and the item handed over.
    Accepted,
    /// Withdrawn by the lister.
    Cancelled,
    /// Past its expiry time.
    Expired,
}

impl Default for BidListingStatus {
    fn default() -> (r: Self)
        ensures
            r == BidListingStatus::Active,
    {
        BidListingStatus::Active
    }
}

/// Lifecycle of a single bid.
#[derive(Clone, Copy, Debug, PartialEq, Eq, Structural)]
pub enum BidStatus {
    /// Open; the bid's funds sit in its escrow.
    Active,
    /// Accepted; the funds went to the seller side.
    Accepted,
    /// Withdrawn; the funds went back to the bidder.
    Cancelled,
    /// Timed out; the funds went back to the bidder.
    Expired,
    /// Beaten by a higher bid; the funds went back to the bidder.
    Outbid,
}

impl Default for BidStatus {
    fn default() -> (r: Self)
        ensures
            r == BidStatus::Active,
    {
        BidStatus::Active
    }
}

/// How the proceeds of an accepted bid are shared, in basis points.
#[derive(Clone, Copy, Debug)]
pub struct RevenueDistribution {
    /// Share of the original minter (9500 = 95%).
    pub minter_percentage: u16,
    /// Share of the platform (400 = 4%).
    pub platform_percentage: u16,
    /// Share of the collection's fee pool (100 = 1%).
    pub collection_percentage: u16,
}

impl Default for RevenueDistribution {
    fn default() -> (r: Self)
        ensures
            r.minter_percentage == 9500,
            r.platform_percentage == 400,
            r.collection_percentage == 100,
    {
        RevenueDistribution {
            minter_percentage: 9500,
            platform_percentage: 400,
            collection_percentage: 100,
        }
    }
}

impl RevenueDistribution {
    /// The three shares add up to exactly 100%.
    pub open spec fn is_complete(&self) -> bool {
        self.minter_percentage + self.platform_percentage + self.collection_percentage == 10000
    }

    /// Accepts a split whose shares add up to exactly 100%.
    pub fn validate(&self) -> (r: Result<(), ErrorCode>)
        ensures
            self.is_complete() ==> r is Ok,
            !self.is_complete() ==> r == Err::<(), ErrorCode>(ErrorCode::InvalidRevenueSplit),
    {
        let total: u32 = self.minter_percentage as u32 + self.platform_percentage as u32
            + self.collection_percentage as u32;
        if total != 10000 {
            return Err(ErrorCode::InvalidRevenueSplit);
        }
        Ok(())
    }

    /// Each party's share of `total_amount`, every one rounded down.
    pub fn calculate_shares(&self, total_amount: u64) -> (r: Result<(u64, u64, u64), ErrorCode>)
        ensures
            !self.is_complete() ==> r == Err::<(u64, u64, u64), ErrorCode>(
                ErrorCode::InvalidRevenueSplit,
            ),
            self.is_complete() ==> r == Ok::<(u64, u64, u64), ErrorCode>(
                (
                    bp_share(total_amount as nat, self.minter_percentage as nat) as u64,
                    bp_share(total_amount as nat, self.platform_percentage as nat) as u64,
                    bp_share(total_amount as nat, self.collection_percentage as nat) as u64,
                ),
            ),
    {
        self.validate()?;
        let minter_share = share_of_bp(total_amount, self.minter_percentage)?;
        let platform_share = share_of_bp(total_amount, self.platform_percentage)?;
        let collection_share = share_of_bp(total_amount, self.collection_percentage)?;
        Ok((minter_share, platform_share, collection_share))
    }

    /// Payouts for a sale of `total_amount`: platform and collection get their
    /// shares rounded down, the minter gets the rest, so that nothing is left over.
    pub fn calculate_payouts(&self, total_amount: u64) -> (r: Result<(u64, u64, u64), ErrorCode>)
        ensures
            !self.is_complete() ==> r == Err::<(u64, u64, u64), ErrorCode>(
                ErrorCode::InvalidRevenueSplit,
            ),
            self.is_complete() ==> r is Ok,
            r matches Ok((m, p, c)) ==> {
                &&& p == bp_share(total_amount as nat, self.platform_percentage as nat)
                &&& c == bp_share(total_amount as nat, self.collection_percentage as nat)
                &&& m + p + c == total_amount
                &&& m >= bp_share(total_amount as nat, self.minter_percentage as nat)
            },
    {
        self.validate()?;
        let platform_share = share_of_bp(total_amount, self.platform_percentage)?;
        let collection_share = share_of_bp(total_amount, self.collection_percentage)?;
        proof {
            let a = total_amount as nat;
            let mp = self.minter_percentage as nat;
            let pp = self.platform_percentage as nat;
            let cp = self.collection_percentage as nat;
            assert(a * mp + a * pp + a * cp == a * 10000) by (nonlinear_arith)
                requires
                    mp + pp + cp == 10000,
            ;
            assert(bp_share(a, mp) + bp_share(a, pp) + bp_share(a, cp) <= a) by {
                assert((a * mp) / 10000 + (a * pp) / 10000 + (a * cp) / 10000 <= (a * mp + a
                    * pp + a * cp) / 10000) by (nonlinear_arith);
            }
        }
        let minter_share = total_amount - platform_share - collection_share;
        Ok((minter_share, platform_share, collection_share))
    }
}

/// Rules for bids: premium over the curve price, step over the best bid, and
/// allowed bid durations in seconds.
#[derive(Clone, Copy, Debug)]
pub struct DynamicPricingConfig {
    /// Premium a bid must carry over the curve price (basis points).
    pub minimum_premium_bp: u16,
    /// Step a bid must carry over the current best bid (basis points).
    pub bid_increment_bp: u16,
    /// Longest bid duration in seconds.
    pub max_bid_duration: i64,
    /// Shortest bid duration in seconds.
    pub min_bid_duration: i64,
}

impl Default for DynamicPricingConfig {
    fn default() -> (r: Self)
        ensures
            r.minimum_premium_bp == 1000,
            r.bid_increment_bp == 500,
            r.max_bid_duration == 604800,
            r.min_bid_duration == 3600,
    {
        DynamicPricingConfig {
            minimum_premium_bp: 1000,
            bid_increment_bp: 500,
            max_bid_duration: 604800,
            min_bid_duration: 3600,
        }
    }
}

impl DynamicPricingConfig {
    /// Premium at most 100%, increment at most 50%, and a duration window that is not empty.
    pub open spec fn is_valid(&self) -> bool {
        &&& self.minimum_premium_bp <= 10000
        &&& self.bid_increment_bp <= 5000
        &&& self.max_bid_duration >= self.min_bid_duration
    }
}

/// Parameters of a collection's bonding curve.
#[derive(Clone, Copy, Debug)]
pub struct BondingCurveParams {
    /// Price of the first item.
    pub base_price: u64,
    /// Growth per unit of supply in basis points (11000 = +10%).
    pub growth_factor: u16,
    /// Most items the pool will mint.
    pub max_supply: u32,
    /// Market cap at which the collection moves to an outside marketplace.
    pub migration_threshold: u64,
}

impl Default for BondingCurveParams {
    fn default() -> (r: Self)
        ensures
            r.base_price == 100_000_000,
            r.growth_factor == 11000,
            r.max_supply == 1000,
            r.migration_threshold == 690_000_000_000,
    {
        BondingCurveParams {
            base_price: 100_000_000,
            growth_factor: 11000,
            max_supply: 1000,
            migration_threshold: 690_000_000_000,
        }
    }
}

impl BondingCurveParams {
    /// A positive base price, a curve that grows, room for one item and a threshold.
    pub open spec fn is_valid(&self) -> bool {
        &&& self.base_price > 0
        &&& self.growth_factor > 10000
        &&& self.max_supply > 0
        &&& self.migration_threshold > 0
    }

    /// Accepts parameters that describe a usable curve.
    pub fn validate(&self) -> (r: Result<(), ErrorCode>)
        ensures
            self.is_valid() ==> r is Ok,
            !self.is_valid() ==> r == Err::<(), ErrorCode>(ErrorCode::InvalidAmount),
    {
        if self.base_price == 0 || self.growth_factor <= 10000 || self.max_supply == 0
            || self.migration_threshold == 0 {
            return Err(ErrorCode::InvalidAmount);
        }
        Ok(())
    }
}

} // verus!
