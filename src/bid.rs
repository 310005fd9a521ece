use vstd::prelude::*;

use crate::errors::ErrorCode;
use crate::listing::premium_bp_of;
use crate::types::{Address, BidStatus};

verus! {

/// Why a bid stopped being active without being accepted.
#[derive(Clone, Copy, Debug, PartialEq, Eq, Structural)]
pub enum CancellationReason {
    UserCancelled,
    Expired,
    ListingCancelled,
    HigherBidAccepted,
    SystemCancelled,
}

/// What is offered, by whom, for which item.
#[derive(Clone, Copy, Debug)]
pub struct BidDetails {
    /// Item bid on.
    pub nft_mint: Address,
    /// Who bids.
    pub bidder: Address,
    /// Amount offered.
    pub amount: u64,
    /// Premium over the curve price at placement (basis points).
    pub premium_bp: u16,
}

/// When a bid was placed and when it lapses.
#[derive(Clone, Copy, Debug)]
pub struct BidTiming {
    /// Placement time (unix seconds).
    pub created_at: i64,
    /// Expiry time (0 = never).
    pub expires_at: i64,
    /// Duration in seconds (0 = no expiry).
    pub duration: i64,
}

/// Status of a bid and the times of its terminal transitions.
#[derive(Clone, Copy, Debug)]
pub struct BidOutcome {
    pub status: BidStatus,
    pub accepted_at: Option<i64>,
    pub cancelled_at: Option<i64>,
    pub cancellation_reason: Option<CancellationReason>,
}

/// A single offer on a listed item.
#[derive(Clone, Copy, Debug)]
pub struct Bid {
    /// Identifier, unique among the bids on one item.
    pub bid_id: u64,
    pub details: BidDetails,
    pub timing: BidTiming,
    pub outcome: BidOutcome,
    pub bump: u8,
}

impl BidDetails {
    /// Details of a bid of `amount`, with its premium over `bonding_curve_price`
    /// (capped at what a `u16` holds).
    pub fn new(nft_mint: Address, bidder: Address, amount: u64, bonding_curve_price: u64) -> (r:
        Result<BidDetails, ErrorCode>)
        ensures
            r matches Ok(d) && d.nft_mint == nft_mint && d.bidder == bidder && d.amount == amount
                && d.premium_bp == if premium_bp_of(amount as nat, bonding_curve_price as nat)
                > u16::MAX {
                u16::MAX as nat
            } else {
                premium_bp_of(amount as nat, bonding_curve_price as nat)
            },
    {
        let mut premium_bp: u16 = 0;
        if bonding_curve_price > 0 && amount > bonding_curve_price {
            let premium = amount - bonding_curve_price;
            if premium <= u64::MAX / 10000 {
                let bp = premium * 10000 / bonding_curve_price;
                premium_bp = if bp > u16::MAX as u64 {
                    u16::MAX
                } else {
                    bp as u16
                };
            }
        }
        Ok(BidDetails { nft_mint, bidder, amount, premium_bp })
    }

    /// A positive amount, an item and a bidder that are not the zero address.
    pub fn validate(&self) -> (r: Result<(), ErrorCode>)
        ensures
            self.amount == 0 ==> r == Err::<(), ErrorCode>(ErrorCode::InvalidAmount),
            self.amount > 0 && self.nft_mint.is_zero() ==> r == Err::<(), ErrorCode>(
                ErrorCode::InvalidNftMint,
            ),
            self.amount > 0 && !self.nft_mint.is_zero() && self.bidder.is_zero() ==> r == Err::<
                (),
                ErrorCode,
            >(ErrorCode::InvalidAccount),
            r is Ok <==> (self.amount > 0 && !self.nft_mint.is_zero() && !self.bidder.is_zero()),
    {
        if self.amount == 0 {
            return Err(ErrorCode::InvalidAmount);
        }
        if self.nft_mint.is_default() {
            return Err(ErrorCode::InvalidNftMint);
        }
        if self.bidder.is_default() {
            return Err(ErrorCode::InvalidAccount);
        }
        Ok(())
    }
}

impl BidTiming {
    /// Timing of a bid placed at `current_time` for `duration` seconds.
    pub fn new(current_time: i64, duration: i64) -> (r: Result<BidTiming, ErrorCode>)
        ensures
            current_time + duration > i64::MAX || current_time + duration < i64::MIN ==> r
                == Err::<BidTiming, ErrorCode>(ErrorCode::MathOverflow),
            i64::MIN <= current_time + duration <= i64::MAX ==> (r matches Ok(t) && t.created_at
                == current_time && t.expires_at == current_time + duration && t.duration
                == duration),
    {
        match current_time.checked_add(duration) {
            Some(expires_at) => Ok(BidTiming { created_at: current_time, expires_at, duration }),
            None => Err(ErrorCode::MathOverflow),
        }
    }

    /// A positive duration that ends after the placement time.
    pub fn validate(&self) -> (r: Result<(), ErrorCode>)
        ensures
            r is Ok <==> (self.duration > 0 && self.expires_at > self.created_at),
            r is Err ==> r == Err::<(), ErrorCode>(ErrorCode::InvalidDuration),
    {
        if self.duration <= 0 || self.expires_at <= self.created_at {
            return Err(ErrorCode::InvalidDuration);
        }
        Ok(())
    }

    /// Seconds left before expiry at `current_time`, never below zero.
    pub fn remaining_time(&self, current_time: i64) -> (r: i64)
        ensures
            self.expires_at - current_time <= 0 ==> r == 0,
            0 < self.expires_at - current_time <= i64::MAX ==> r == self.expires_at - current_time,
            self.expires_at - current_time > i64::MAX ==> r == i64::MAX,
    {
        let diff: i128 = self.expires_at as i128 - current_time as i128;
        if diff <= 0 {
            0
        } else if diff > i64::MAX as i128 {
            i64::MAX
        } else {
            diff as i64
        }
    }
}

impl BidOutcome {
    /// The outcome of a freshly placed bid.
    pub fn new_active() -> (r: BidOutcome)
        ensures
            r.status == BidStatus::Active,
            r.accepted_at is None,
            r.cancelled_at is None,
            r.cancellation_reason is None,
    {
        BidOutcome {
            status: BidStatus::Active,
            accepted_at: None,
            cancelled_at: None,
            cancellation_reason: None,
        }
    }

    /// Active to accepted.
    pub fn accept(&mut self, current_time: i64) -> (r: Result<(), ErrorCode>)
        ensures
            old(self).status == BidStatus::Active ==> r is Ok && *final(self) == (BidOutcome {
                status: BidStatus::Accepted,
                accepted_at: Some(current_time),
                ..*old(self)
            }),
            old(self).status != BidStatus::Active ==> r == Err::<(), ErrorCode>(
                ErrorCode::InvalidBidStatus,
            ) && *final(self) == *old(self),
    {
        if self.status != BidStatus::Active {
            return Err(ErrorCode::InvalidBidStatus);
        }
        self.status = BidStatus::Accepted;
        self.accepted_at = Some(current_time);
        Ok(())
    }

    /// Active or outbid to cancelled; an accepted bid can never be cancelled.
    pub fn cancel(&mut self, reason: CancellationReason, current_time: i64) -> (r: Result<
        (),
        ErrorCode,
    >)
        ensures
            old(self).status == BidStatus::Active || old(self).status == BidStatus::Outbid ==> r
                is Ok && *final(self) == (BidOutcome {
                status: BidStatus::Cancelled,
                cancelled_at: Some(current_time),
                cancellation_reason: Some(reason),
                ..*old(self)
            }),
            !(old(self).status == BidStatus::Active || old(self).status == BidStatus::Outbid) ==> r
                == Err::<(), ErrorCode>(ErrorCode::InvalidBidStatus) && *final(self) == *old(self),
    {
        if self.status != BidStatus::Active && self.status != BidStatus::Outbid {
            return Err(ErrorCode::InvalidBidStatus);
        }
        self.status = BidStatus::Cancelled;
        self.cancelled_at = Some(current_time);
        self.cancellation_reason = Some(reason);
        Ok(())
    }

    /// Active to outbid, when a strictly higher bid takes its place.
    pub fn outbid(&mut self) -> (r: Result<(), ErrorCode>)
        ensures
            old(self).status == BidStatus::Active ==> r is Ok && *final(self) == (BidOutcome {
                status: BidStatus::Outbid,
                ..*old(self)
            }),
            old(self).status != BidStatus::Active ==> r == Err::<(), ErrorCode>(
                ErrorCode::InvalidBidStatus,
            ) && *final(self) == *old(self),
    {
        if self.status != BidStatus::Active {
            return Err(ErrorCode::InvalidBidStatus);
        }
        self.status = BidStatus::Outbid;
        Ok(())
    }
}

impl Bid {
    pub open spec fn spec_is_expired(&self, now: i64) -> bool {
        self.timing.expires_at > 0 && now >= self.timing.expires_at
    }

    /// A new active bid.
    pub fn new(bid_id: u64, details: BidDetails, timing: BidTiming, bump: u8) -> (r: Bid)
        ensures
            r.bid_id == bid_id,
            r.details == details,
            r.timing == timing,
            r.outcome.status == BidStatus::Active,
            r.outcome.accepted_at is None,
            r.outcome.cancelled_at is None,
            r.outcome.cancellation_reason is None,
            r.bump == bump,
    {
        Bid { bid_id, details, timing, outcome: BidOutcome::new_active(), bump }
    }

    /// Active and not past its expiry.
    pub fn is_valid(&self, current_time: i64) -> (r: bool)
        ensures
            r == (self.outcome.status == BidStatus::Active && !self.spec_is_expired(current_time)),
    {
        self.outcome.status == BidStatus::Active && !self.is_expired(current_time)
    }

    /// Whether the bid may still be accepted.
    pub fn can_accept(&self, current_time: i64) -> (r: bool)
        ensures
            r == (self.outcome.status == BidStatus::Active && !self.spec_is_expired(current_time)),
    {
        self.is_valid(current_time)
    }

    /// Whether `caller` may cancel: the bid is active or outbid, and the caller
    /// is its bidder or the bid has expired.
    pub fn can_cancel(&self, caller: &Address, current_time: i64) -> (r: bool)
        ensures
            r == ((self.outcome.status == BidStatus::Active || self.outcome.status
                == BidStatus::Outbid) && (self.details.bidder == *caller || self.spec_is_expired(
                current_time,
            ))),
    {
        (self.outcome.status == BidStatus::Active || self.outcome.status == BidStatus::Outbid) && (
        self.details.bidder == *caller || self.is_expired(current_time))
    }

    /// Past a set expiry.
    pub fn is_expired(&self, current_time: i64) -> (r: bool)
        ensures
            r == self.spec_is_expired(current_time),
    {
        self.timing.expires_at > 0 && current_time >= self.timing.expires_at
    }
}

} // verus!
