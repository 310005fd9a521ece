use vstd::prelude::*;

use crate::curve::{raise_by_bp, raised_by_bp};
use crate::errors::ErrorCode;
use crate::types::{Address, BidListingStatus, DynamicPricingConfig};

verus! {

/// An item open for offers: its floor, its best offer so far and its lifecycle.
#[derive(Clone, Copy, Debug)]
pub struct BidListing {
    /// Item on offer.
    pub nft_mint: Address,
    /// Holder who listed it.
    pub lister: Address,
    /// Floor for bids; follows the curve price upwards.
    pub min_bid: u64,
    /// Best offer so far (0 = none).
    pub highest_bid: u64,
    /// Who made the best offer.
    pub highest_bidder: Option<Address>,
    /// Bids placed on this listing.
    pub total_bids: u32,
    pub status: BidListingStatus,
    /// Creation time (unix seconds).
    pub created_at: i64,
    /// Expiry time (0 = never).
    pub expires_at: i64,
    /// Last time the floor was raised.
    pub last_price_update: i64,
    /// Curve price when the listing was created.
    pub bonding_curve_price_at_listing: u64,
    /// Curve price last seen.
    pub current_bonding_curve_price: u64,
    /// Premium over the curve price required of bids (basis points).
    pub required_premium_bp: u16,
    pub bump: u8,
}

/// Figures of a listing for display.
#[derive(Clone, Copy, Debug)]
pub struct ListingStats {
    pub nft_mint: Address,
    pub lister: Address,
    pub min_bid: u64,
    pub highest_bid: u64,
    pub highest_bidder: Option<Address>,
    pub total_bids: u32,
    pub status: BidListingStatus,
    pub is_active: bool,
    pub is_expired: bool,
    pub time_remaining: Option<i64>,
    pub premium_percentage: u64,
    pub bonding_curve_price: u64,
}

/// Premium of `bid` over `curve_price` in basis points; zero at or below the
/// curve price, where there is no curve price, or where the scaled premium
/// leaves the `u64` range.
pub open spec fn premium_bp_of(bid: nat, curve_price: nat) -> nat {
    if curve_price > 0 && bid > curve_price && (bid - curve_price) * 10000 <= u64::MAX {
        ((bid - curve_price) * 10000 / (curve_price as int)) as nat
    } else {
        0
    }
}

/// Expiry of something created at `now` that lasts `duration` seconds.
pub open spec fn expiry_of(now: int, duration: Option<i64>) -> int {
    match duration {
        Some(d) => now + d,
        None => 0,
    }
}

impl BidListing {
    /// A best offer always has a bidder.
    pub open spec fn wf(&self) -> bool {
        self.highest_bid > 0 ==> self.highest_bidder is Some
    }

    pub open spec fn spec_is_active(&self, now: i64) -> bool {
        self.status == BidListingStatus::Active && (self.expires_at == 0 || now < self.expires_at)
    }

    pub open spec fn spec_is_expired(&self, now: i64) -> bool {
        self.expires_at > 0 && now >= self.expires_at
    }

    /// The lowest amount the next bid may offer: the floor, and while an offer
    /// stands also that offer raised by the increment.
    pub open spec fn spec_effective_minimum(&self, increment_bp: u16) -> nat {
        if self.highest_bid > 0 && raised_by_bp(self.highest_bid as nat, increment_bp as nat)
            > self.min_bid {
            raised_by_bp(self.highest_bid as nat, increment_bp as nat)
        } else {
            self.min_bid as nat
        }
    }

    /// The listing after `update_minimum_bid` has seen curve price `price`,
    /// or unchanged when that price is the one it last saw.
    pub open spec fn spec_refreshed(&self, price: nat, premium_bp: u16, now: i64) -> BidListing {
        let new_min = raised_by_bp(price, premium_bp as nat);
        if price == self.current_bonding_curve_price {
            *self
        } else if new_min > self.min_bid {
            BidListing {
                min_bid: new_min as u64,
                last_price_update: now,
                current_bonding_curve_price: price as u64,
                ..*self
            }
        } else {
            BidListing { current_bonding_curve_price: price as u64, ..*self }
        }
    }

    /// Opens the listing: the floor is the larger of the lister's minimum and
    /// the curve price raised by the required premium; a duration, if any, must
    /// lie within the configured bounds. Fails without changing anything.
    pub fn initialize(
        &mut self,
        nft_mint: Address,
        lister: Address,
        user_min_bid: u64,
        bonding_curve_price: u64,
        pricing_config: &DynamicPricingConfig,
        current_time: i64,
        duration: Option<i64>,
        bump: u8,
    ) -> (r: Result<(), ErrorCode>)
        ensures
            raised_by_bp(bonding_curve_price as nat, pricing_config.minimum_premium_bp as nat)
                > u64::MAX ==> r == Err::<(), ErrorCode>(ErrorCode::MathOverflow),
            raised_by_bp(bonding_curve_price as nat, pricing_config.minimum_premium_bp as nat)
                <= u64::MAX && (duration matches Some(d) && (d < pricing_config.min_bid_duration
                || d > pricing_config.max_bid_duration)) ==> r == Err::<(), ErrorCode>(
                ErrorCode::InvalidDuration,
            ),
            r is Ok <==> {
                &&& raised_by_bp(
                    bonding_curve_price as nat,
                    pricing_config.minimum_premium_bp as nat,
                ) <= u64::MAX
                &&& (duration matches Some(d) ==> pricing_config.min_bid_duration <= d
                    <= pricing_config.max_bid_duration && i64::MIN <= current_time + d
                    <= i64::MAX)
            },
            r is Ok ==> {
                &&& final(self).wf()
                &&& final(self).nft_mint == nft_mint
                &&& final(self).lister == lister
                &&& final(self).min_bid == if user_min_bid >= raised_by_bp(
                    bonding_curve_price as nat,
                    pricing_config.minimum_premium_bp as nat,
                ) {
                    user_min_bid as nat
                } else {
                    raised_by_bp(
                        bonding_curve_price as nat,
                        pricing_config.minimum_premium_bp as nat,
                    )
                }
                &&& final(self).min_bid >= bonding_curve_price
                &&& final(self).highest_bid == 0
                &&& final(self).highest_bidder is None
                &&& final(self).total_bids == 0
                &&& final(self).status == BidListingStatus::Active
                &&& final(self).created_at == current_time
                &&& final(self).expires_at == expiry_of(current_time as int, duration)
                &&& final(self).last_price_update == current_time
                &&& final(self).bonding_curve_price_at_listing == bonding_curve_price
                &&& final(self).current_bonding_curve_price == bonding_curve_price
                &&& final(self).required_premium_bp == pricing_config.minimum_premium_bp
                &&& final(self).bump == bump
            },
            r is Err ==> *final(self) == *old(self),
    {
        let dynamic_minimum = raise_by_bp(bonding_curve_price, pricing_config.minimum_premium_bp)?;
        proof {
            assert(bonding_curve_price * (10000 + pricing_config.minimum_premium_bp) >= (
            bonding_curve_price as int) * 10000) by (nonlinear_arith);
        }
        let effective_min_bid = if user_min_bid >= dynamic_minimum {
            user_min_bid
        } else {
            dynamic_minimum
        };
        let expires_at: i64 = match duration {
            Some(d) => {
                if d < pricing_config.min_bid_duration || d > pricing_config.max_bid_duration {
                    return Err(ErrorCode::InvalidDuration);
                }
                match current_time.checked_add(d) {
                    Some(t) => t,
                    None => {
                        return Err(ErrorCode::MathOverflow);
                    },
                }
            },
            None => 0,
        };
        self.nft_mint = nft_mint;
        self.lister = lister;
        self.min_bid = effective_min_bid;
        self.highest_bid = 0;
        self.highest_bidder = None;
        self.total_bids = 0;
        self.status = BidListingStatus::Active;
        self.created_at = current_time;
        self.expires_at = expires_at;
        self.last_price_update = current_time;
        self.bonding_curve_price_at_listing = bonding_curve_price;
        self.current_bonding_curve_price = bonding_curve_price;
        self.required_premium_bp = pricing_config.minimum_premium_bp;
        self.bump = bump;
        Ok(())
    }

    /// Open for bids: active status and not past a set expiry.
    pub fn is_active(&self, current_time: i64) -> (r: bool)
        ensures
            r == self.spec_is_active(current_time),
    {
        self.status == BidListingStatus::Active && (self.expires_at == 0 || current_time
            < self.expires_at)
    }

    /// Past a set expiry.
    pub fn is_expired(&self, current_time: i64) -> (r: bool)
        ensures
            r == self.spec_is_expired(current_time),
    {
        self.expires_at > 0 && current_time >= self.expires_at
    }

    /// The lowest amount the next bid may offer: the larger of the floor and,
    /// while an offer stands, that offer raised by the bid increment; capped
    /// at the largest `u64` where the raised offer leaves that range.
    pub fn get_effective_minimum_bid(&self, pricing_config: &DynamicPricingConfig) -> (r: u64)
        ensures
            self.spec_effective_minimum(pricing_config.bid_increment_bp) <= u64::MAX ==> r
                == self.spec_effective_minimum(pricing_config.bid_increment_bp),
            self.spec_effective_minimum(pricing_config.bid_increment_bp) > u64::MAX ==> r
                == u64::MAX,
    {
        if self.highest_bid > 0 {
            match raise_by_bp(self.highest_bid, pricing_config.bid_increment_bp) {
                Ok(v) => if v > self.min_bid {
                    v
                } else {
                    self.min_bid
                },
                Err(_) => u64::MAX,
            }
        } else {
            self.min_bid
        }
    }

    /// Premium of `bid_amount` over the last seen curve price, in basis points.
    pub fn calculate_premium_percentage(&self, bid_amount: u64) -> (r: u64)
        ensures
            r == premium_bp_of(bid_amount as nat, self.current_bonding_curve_price as nat),
    {
        if self.current_bonding_curve_price > 0 && bid_amount > self.current_bonding_curve_price {
            let premium = bid_amount - self.current_bonding_curve_price;
            if premium <= u64::MAX / 10000 {
                premium * 10000 / self.current_bonding_curve_price
            } else {
                0
            }
        } else {
            0
        }
    }

    /// Records a new curve price and raises the floor to it plus the premium
    /// when that is higher than the current floor.
    pub fn update_minimum_bid(
        &mut self,
        new_bonding_curve_price: u64,
        pricing_config: &DynamicPricingConfig,
        current_time: i64,
    ) -> (r: Result<(), ErrorCode>)
        ensures
            ({
                let new_min = raised_by_bp(
                    new_bonding_curve_price as nat,
                    pricing_config.minimum_premium_bp as nat,
                );
                &&& new_min > u64::MAX ==> r == Err::<(), ErrorCode>(ErrorCode::MathOverflow)
                    && *final(self) == *old(self)
                &&& new_min <= u64::MAX && new_min > old(self).min_bid ==> r is Ok && *final(self)
                    == (BidListing {
                    min_bid: new_min as u64,
                    last_price_update: current_time,
                    current_bonding_curve_price: new_bonding_curve_price,
                    ..*old(self)
                })
                &&& new_min <= old(self).min_bid ==> r is Ok && *final(self) == (BidListing {
                    current_bonding_curve_price: new_bonding_curve_price,
                    ..*old(self)
                })
            }),
    {
        let new_minimum = raise_by_bp(new_bonding_curve_price, pricing_config.minimum_premium_bp)?;
        if new_minimum > self.min_bid {
            self.min_bid = new_minimum;
            self.last_price_update = current_time;
        }
        self.current_bonding_curve_price = new_bonding_curve_price;
        Ok(())
    }

    /// Records a bid of `amount`: the listing must be open, the amount must
    /// reach the effective minimum and the last seen curve price raised by the
    /// required premium; a strictly higher amount becomes the best offer.
    /// Fails without changing anything.
    pub fn place_bid(
        &mut self,
        bidder: Address,
        amount: u64,
        pricing_config: &DynamicPricingConfig,
        current_time: i64,
    ) -> (r: Result<(), ErrorCode>)
        ensures
            !old(self).spec_is_active(current_time) ==> r == Err::<(), ErrorCode>(
                ErrorCode::BidListingExpired,
            ),
            old(self).spec_is_active(current_time) && amount < old(self).spec_effective_minimum(
                pricing_config.bid_increment_bp,
            ) ==> r == Err::<(), ErrorCode>(ErrorCode::BidTooLow),
            old(self).spec_is_active(current_time) && amount >= old(self).spec_effective_minimum(
                pricing_config.bid_increment_bp,
            ) && amount < raised_by_bp(
                old(self).current_bonding_curve_price as nat,
                pricing_config.minimum_premium_bp as nat,
            ) ==> r == Err::<(), ErrorCode>(ErrorCode::BidBelowBondingCurve),
            r is Ok <==> {
                &&& old(self).spec_is_active(current_time)
                &&& amount >= old(self).spec_effective_minimum(pricing_config.bid_increment_bp)
                &&& amount >= raised_by_bp(
                    old(self).current_bonding_curve_price as nat,
                    pricing_config.minimum_premium_bp as nat,
                )
                &&& old(self).total_bids < u32::MAX
            },
            r is Ok && amount > old(self).highest_bid ==> *final(self) == (BidListing {
                highest_bid: amount,
                highest_bidder: Some(bidder),
                total_bids: (old(self).total_bids + 1) as u32,
                ..*old(self)
            }),
            r is Ok && amount <= old(self).highest_bid ==> *final(self) == (BidListing {
                total_bids: (old(self).total_bids + 1) as u32,
                ..*old(self)
            }),
            r is Err ==> *final(self) == *old(self),
            old(self).wf() ==> final(self).wf(),
    {
        if !self.is_active(current_time) {
            return Err(ErrorCode::BidListingExpired);
        }
        if amount < self.min_bid {
            return Err(ErrorCode::BidTooLow);
        }
        if self.highest_bid > 0 {
            match raise_by_bp(self.highest_bid, pricing_config.bid_increment_bp) {
                Ok(step) => {
                    if amount < step {
                        return Err(ErrorCode::BidTooLow);
                    }
                },
                Err(_) => {
                    return Err(ErrorCode::BidTooLow);
                },
            }
        }
        match raise_by_bp(self.current_bonding_curve_price, pricing_config.minimum_premium_bp) {
            Ok(floor) => {
                if amount < floor {
                    return Err(ErrorCode::BidBelowBondingCurve);
                }
            },
            Err(_) => {
                return Err(ErrorCode::BidBelowBondingCurve);
            },
        }
        if self.total_bids == u32::MAX {
            return Err(ErrorCode::MathOverflow);
        }
        if amount > self.highest_bid {
            self.highest_bid = amount;
            self.highest_bidder = Some(bidder);
        }
        self.total_bids = self.total_bids + 1;
        Ok(())
    }

    /// Closes the listing on its best offer of `accepted_amount`.
    pub fn accept_bid(&mut self, accepted_amount: u64, current_time: i64) -> (r: Result<
        (),
        ErrorCode,
    >)
        ensures
            old(self).status != BidListingStatus::Active ==> r == Err::<(), ErrorCode>(
                ErrorCode::InvalidListingStatus,
            ),
            old(self).status == BidListingStatus::Active && old(self).spec_is_expired(current_time)
                ==> r == Err::<(), ErrorCode>(ErrorCode::BidListingExpired),
            old(self).status == BidListingStatus::Active && !old(self).spec_is_expired(current_time)
                && accepted_amount != old(self).highest_bid ==> r == Err::<(), ErrorCode>(
                ErrorCode::InvalidBidAmount,
            ),
            r is Ok <==> (old(self).status == BidListingStatus::Active && !old(
                self,
            ).spec_is_expired(current_time) && accepted_amount == old(
                self,
            ).highest_bid && old(self).highest_bidder is Some),
            r is Ok ==> *final(self) == (BidListing {
                status: BidListingStatus::Accepted,
                ..*old(self)
            }),
            r is Err ==> *final(self) == *old(self),
    {
        if self.status != BidListingStatus::Active {
            return Err(ErrorCode::InvalidListingStatus);
        }
        if self.is_expired(current_time) {
            return Err(ErrorCode::BidListingExpired);
        }
        if accepted_amount != self.highest_bid {
            return Err(ErrorCode::InvalidBidAmount);
        }
        if self.highest_bidder.is_none() {
            return Err(ErrorCode::BidNotFound);
        }
        self.status = BidListingStatus::Accepted;
        Ok(())
    }

    /// Withdraws an active listing.
    pub fn cancel(&mut self, current_time: i64) -> (r: Result<(), ErrorCode>)
        ensures
            old(self).status != BidListingStatus::Active ==> r == Err::<(), ErrorCode>(
                ErrorCode::InvalidListingStatus,
            ) && *final(self) == *old(self),
            old(self).status == BidListingStatus::Active ==> r is Ok && *final(self) == (
            BidListing { status: BidListingStatus::Cancelled, ..*old(self) }),
    {
        if self.status != BidListingStatus::Active {
            return Err(ErrorCode::InvalidListingStatus);
        }
        self.status = BidListingStatus::Cancelled;
        Ok(())
    }

    /// Marks an active listing whose expiry has passed as expired.
    pub fn expire(&mut self, current_time: i64) -> (r: Result<(), ErrorCode>)
        ensures
            old(self).status != BidListingStatus::Active ==> r == Err::<(), ErrorCode>(
                ErrorCode::InvalidListingStatus,
            ),
            old(self).status == BidListingStatus::Active && !old(self).spec_is_expired(
                current_time,
            ) ==> r == Err::<(), ErrorCode>(ErrorCode::ListingExpired),
            r is Ok <==> (old(self).status == BidListingStatus::Active && old(
                self,
            ).spec_is_expired(current_time)),
            r is Ok ==> *final(self) == (BidListing {
                status: BidListingStatus::Expired,
                ..*old(self)
            }),
            r is Err ==> *final(self) == *old(self),
    {
        if self.status != BidListingStatus::Active {
            return Err(ErrorCode::InvalidListingStatus);
        }
        if !self.is_expired(current_time) {
            return Err(ErrorCode::ListingExpired);
        }
        self.status = BidListingStatus::Expired;
        Ok(())
    }

    /// Figures of the listing at `current_time`.
    pub fn get_stats(&self, current_time: i64) -> (r: ListingStats)
        ensures
            r.nft_mint == self.nft_mint,
            r.lister == self.lister,
            r.min_bid == self.min_bid,
            r.highest_bid == self.highest_bid,
            r.highest_bidder == self.highest_bidder,
            r.total_bids == self.total_bids,
            r.status == self.status,
            r.is_active == self.spec_is_active(current_time),
            r.is_expired == self.spec_is_expired(current_time),
            r.time_remaining == if self.expires_at > 0 {
                Some(
                    if self.expires_at - current_time < i64::MIN {
                        i64::MIN
                    } else if self.expires_at - current_time > i64::MAX {
                        i64::MAX
                    } else {
                        (self.expires_at - current_time) as i64
                    },
                )
            } else {
                None::<i64>
            },
            r.premium_percentage == premium_bp_of(
                if self.highest_bid > 0 {
                    self.highest_bid
                } else {
                    self.min_bid
                } as nat,
                self.current_bonding_curve_price as nat,
            ),
            r.bonding_curve_price == self.current_bonding_curve_price,
    {
        let time_remaining = if self.expires_at > 0 {
            let diff: i128 = self.expires_at as i128 - current_time as i128;
            if diff < i64::MIN as i128 {
                Some(i64::MIN)
            } else if diff > i64::MAX as i128 {
                Some(i64::MAX)
            } else {
                Some(diff as i64)
            }
        } else {
            None
        };
        let premium_percentage = if self.highest_bid > 0 {
            self.calculate_premium_percentage(self.highest_bid)
        } else {
            self.calculate_premium_percentage(self.min_bid)
        };
        ListingStats {
            nft_mint: self.nft_mint,
            lister: self.lister,
            min_bid: self.min_bid,
            highest_bid: self.highest_bid,
            highest_bidder: self.highest_bidder,
            total_bids: self.total_bids,
            status: self.status,
            is_active: self.is_active(current_time),
            is_expired: self.is_expired(current_time),
            time_remaining,
            premium_percentage,
            bonding_curve_price: self.current_bonding_curve_price,
        }
    }
}

} // verus!
