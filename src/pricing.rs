use vstd::prelude::*;

use crate::curve::{raise_by_bp, raised_by_bp};
use crate::errors::ErrorCode;
use crate::listing::BidListing;
use crate::pool::BondingCurvePool;

verus! {

/// Bid floors that follow the live curve price.
pub struct DynamicPricing;

/// How a bid compares with the curve price.
#[derive(Clone, Copy, Debug)]
pub struct BidValueAnalysis {
    pub bid_amount: u64,
    pub bonding_curve_price: u64,
    /// Amount above the curve price (0 at or below it).
    pub premium_amount: u64,
    /// Premium in whole percent of the curve price, rounded down.
    pub premium_percentage: u64,
    /// Whether the bid is above the curve price.
    pub is_profitable: bool,
}

impl DynamicPricing {
    /// The curve price of the pool's next item.
    pub fn get_current_bonding_curve_price(pool: &BondingCurvePool) -> (r: Result<u64, ErrorCode>)
        ensures
            pool.price_ok() ==> r == Ok::<u64, ErrorCode>(pool.spec_current_price() as u64),
            !pool.price_ok() ==> r is Err,
    {
        pool.calculate_current_price()
    }

    /// The curve price raised by `premium_bp` basis points.
    pub fn calculate_minimum_bid_required(pool: &BondingCurvePool, premium_bp: u16) -> (r: Result<
        u64,
        ErrorCode,
    >)
        ensures
            pool.price_ok() && raised_by_bp(pool.spec_current_price(), premium_bp as nat)
                <= u64::MAX ==> r == Ok::<u64, ErrorCode>(
                raised_by_bp(pool.spec_current_price(), premium_bp as nat) as u64,
            ),
            pool.price_ok() && raised_by_bp(pool.spec_current_price(), premium_bp as nat)
                > u64::MAX ==> r == Err::<u64, ErrorCode>(ErrorCode::MathOverflow),
            !pool.price_ok() ==> r is Err,
    {
        let price = Self::get_current_bonding_curve_price(pool)?;
        raise_by_bp(price, premium_bp)
    }

    /// Every bid must reach the curve price raised by `minimum_premium_bp`;
    /// while an offer stands it must also reach that offer raised by
    /// `bid_increment_bp`.
    pub fn validate_dynamic_bid_amount(
        bid_amount: u64,
        pool: &BondingCurvePool,
        current_highest_bid: u64,
        minimum_premium_bp: u16,
        bid_increment_bp: u16,
    ) -> (r: Result<(), ErrorCode>)
        ensures
            !pool.price_ok() ==> r is Err,
            ({
                let floor = raised_by_bp(pool.spec_current_price(), minimum_premium_bp as nat);
                let step = raised_by_bp(current_highest_bid as nat, bid_increment_bp as nat);
                &&& pool.price_ok() && floor > u64::MAX ==> r == Err::<(), ErrorCode>(
                    ErrorCode::MathOverflow,
                )
                &&& pool.price_ok() && floor <= u64::MAX && current_highest_bid == 0 ==> (r is Ok
                    <==> bid_amount >= floor) && (r is Err ==> r == Err::<(), ErrorCode>(
                    ErrorCode::BidBelowBondingCurve,
                ))
                &&& pool.price_ok() && floor <= u64::MAX && current_highest_bid > 0 && step
                    > u64::MAX ==> r == Err::<(), ErrorCode>(ErrorCode::MathOverflow)
                &&& pool.price_ok() && floor <= u64::MAX && current_highest_bid > 0 && step
                    <= u64::MAX ==> (r is Ok <==> (bid_amount >= floor && bid_amount >= step)) && (
                r is Err ==> r == Err::<(), ErrorCode>(ErrorCode::BidTooLow))
            }),
    {
        let bonding_curve_minimum = Self::calculate_minimum_bid_required(pool, minimum_premium_bp)?;
        if current_highest_bid > 0 {
            let minimum_increment = raise_by_bp(current_highest_bid, bid_increment_bp)?;
            let required_minimum = if bonding_curve_minimum >= minimum_increment {
                bonding_curve_minimum
            } else {
                minimum_increment
            };
            if bid_amount < required_minimum {
                return Err(ErrorCode::BidTooLow);
            }
        } else {
            if bid_amount < bonding_curve_minimum {
                return Err(ErrorCode::BidBelowBondingCurve);
            }
        }
        Ok(())
    }

    /// Premium of a bid over the curve price, in amount and in whole percent.
    pub fn calculate_bid_value_analysis(bid_amount: u64, pool: &BondingCurvePool) -> (r: Result<
        BidValueAnalysis,
        ErrorCode,
    >)
        ensures
            !pool.price_ok() ==> r is Err,
            pool.price_ok() ==> (r matches Ok(a) && {
                let price = pool.spec_current_price();
                let premium = if bid_amount > price {
                    bid_amount - price
                } else {
                    0
                };
                &&& a.bid_amount == bid_amount
                &&& a.bonding_curve_price == price
                &&& a.premium_amount == premium
                &&& a.premium_percentage == if price > 0 && premium * 100 <= u64::MAX {
                    premium * 100 / (price as int)
                } else {
                    0
                }
                &&& a.is_profitable == (bid_amount > price)
            }),
    {
        let bonding_curve_price = Self::get_current_bonding_curve_price(pool)?;
        let premium_amount = if bid_amount > bonding_curve_price {
            bid_amount - bonding_curve_price
        } else {
            0
        };
        let premium_percentage = if bonding_curve_price > 0 && premium_amount <= u64::MAX / 100 {
            premium_amount * 100 / bonding_curve_price
        } else {
            0
        };
        Ok(
            BidValueAnalysis {
                bid_amount,
                bonding_curve_price,
                premium_amount,
                premium_percentage,
                is_profitable: bid_amount > bonding_curve_price,
            },
        )
    }

    /// Raises a listing's floor to the current minimum bid when that is higher.
    pub fn update_listing_minimum_bid(
        listing: &mut BidListing,
        pool: &BondingCurvePool,
        premium_bp: u16,
        current_time: i64,
    ) -> (r: Result<(), ErrorCode>)
        ensures
            r is Err ==> *final(listing) == *old(listing),
            !pool.price_ok() ==> r is Err,
            r is Ok ==> {
                let new_min = raised_by_bp(pool.spec_current_price(), premium_bp as nat);
                &&& pool.price_ok()
                &&& new_min <= u64::MAX
                &&& new_min > old(listing).min_bid ==> *final(listing) == (BidListing {
                    min_bid: new_min as u64,
                    last_price_update: current_time,
                    ..*old(listing)
                })
                &&& new_min <= old(listing).min_bid ==> *final(listing) == *old(listing)
            },
            pool.price_ok() && raised_by_bp(pool.spec_current_price(), premium_bp as nat)
                <= u64::MAX ==> r is Ok,
    {
        let new_minimum = Self::calculate_minimum_bid_required(pool, premium_bp)?;
        if new_minimum > listing.min_bid {
            listing.min_bid = new_minimum;
            listing.last_price_update = current_time;
        }
        Ok(())
    }
}

} // verus!
