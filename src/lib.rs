//! Pricing, escrow and bidding core of an NFT marketplace whose prices follow
//! a bonding curve: the curve itself, the pool that mints against it and keeps
//! each item's value in escrow, listings and bids that must stay above the
//! live curve price, the split of accepted bids, and the collection fee pool.

pub mod errors;
pub mod curve;
pub mod types;
pub mod pool;
pub mod listing;
pub mod bid;
pub mod distribution;
pub mod market;
pub mod pricing;
pub mod fees;
pub mod validation;
pub mod args;
pub mod default_config;
pub mod program;
pub mod pda;
