use vstd::prelude::*;

use crate::errors::ErrorCode;

verus! {

/// Largest bid accepted by a request: one million whole units.
pub const MAX_BID_AMOUNT: u64 = 1_000_000_000_000_000;

/// Longest bid duration a request may ask for: one week.
pub const MAX_BID_DURATION_SECONDS: i64 = 604800;

/// Request to place a bid.
#[derive(Clone, Copy, Debug)]
pub struct PlaceBidArgs {
    /// Identifier of the bid among the bids on its item.
    pub bid_id: u64,
    /// Amount offered.
    pub amount: u64,
    /// Duration in seconds (none = no expiry).
    pub duration_seconds: Option<i64>,
}

/// Request to accept a bid.
#[derive(Clone, Copy, Debug)]
pub struct AcceptBidArgs {
    pub bid_id: u64,
}

/// Request to mint an item with its metadata.
#[derive(Clone, Debug)]
pub struct MintNftArgs {
    pub name: String,
    pub symbol: String,
    pub uri: String,
}

impl PlaceBidArgs {
    /// A positive amount of at most `MAX_BID_AMOUNT`, and a duration, if any,
    /// of at most one week.
    pub fn validate(&self) -> (r: Result<(), ErrorCode>)
        ensures
            self.amount == 0 || self.amount > MAX_BID_AMOUNT ==> r == Err::<(), ErrorCode>(
                ErrorCode::InvalidBidAmount,
            ),
            0 < self.amount <= MAX_BID_AMOUNT && (self.duration_seconds matches Some(d) && !(0 < d
                <= MAX_BID_DURATION_SECONDS)) ==> r == Err::<(), ErrorCode>(
                ErrorCode::InvalidDuration,
            ),
            r is Ok <==> (0 < self.amount <= MAX_BID_AMOUNT && (self.duration_seconds matches Some(
                d,
            ) ==> 0 < d <= MAX_BID_DURATION_SECONDS)),
    {
        if self.amount == 0 || self.amount > MAX_BID_AMOUNT {
            return Err(ErrorCode::InvalidBidAmount);
        }
        if let Some(duration) = self.duration_seconds {
            if duration <= 0 || duration > MAX_BID_DURATION_SECONDS {
                return Err(ErrorCode::InvalidDuration);
            }
        }
        Ok(())
    }
}

impl AcceptBidArgs {
    /// Bid identifiers start at one.
    pub fn validate(&self) -> (r: Result<(), ErrorCode>)
        ensures
            r is Ok <==> self.bid_id > 0,
            r is Err ==> r == Err::<(), ErrorCode>(ErrorCode::InvalidBidAmount),
    {
        if self.bid_id == 0 {
            return Err(ErrorCode::InvalidBidAmount);
        }
        Ok(())
    }
}

/// A metadata text that is present and whose UTF-8 length, as `str::len`
/// reports it, is at most `max` bytes.
pub open spec fn text_fits(text: Seq<char>, max: usize) -> bool {
    text.len() > 0 && (vstd::utf8::encode_utf8(text).len() as usize) <= max
}

impl MintNftArgs {
    /// Name of 1 to 32 bytes, symbol of 1 to 10, URI of 1 to 200.
    pub fn validate(&self) -> (r: Result<(), ErrorCode>)
        ensures
            r is Ok <==> (text_fits(self.name@, 32) && text_fits(self.symbol@, 10) && text_fits(
                self.uri@,
                200,
            )),
            r is Err ==> r == Err::<(), ErrorCode>(ErrorCode::InvalidAmount),
    {
        let name = self.name.as_str();
        let symbol = self.symbol.as_str();
        let uri = self.uri.as_str();
        if name.is_empty() || name.len() > 32 {
            return Err(ErrorCode::InvalidAmount);
        }
        if symbol.is_empty() || symbol.len() > 10 {
            return Err(ErrorCode::InvalidAmount);
        }
        if uri.is_empty() || uri.len() > 200 {
            return Err(ErrorCode::InvalidAmount);
        }
        Ok(())
    }
}

} // verus!
